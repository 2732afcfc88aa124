use cafeteria::compartido::mensajes_cafetera::{
    Error, MensajeCafeteraBytes, OkeyToCafetera, Ping, Restar, Sumar,
};

#[test]
fn sumar_to_bytes() {
    let test_pkt = Sumar::new(10, 3, 100);
    let expected = vec![0, 10, 0, 0, 0, 3, 0, 0, 0, 100];

    assert_eq!(expected, test_pkt.to_bytes())
}

#[test]
fn sumar_from_bytes() {
    let expected = Sumar::new(100, 5, 50);
    let bytes = vec![0, 100, 0, 0, 0, 5, 0, 0, 0, 50];
    let final_pkt = Sumar::from_bytes(bytes);

    assert_eq!(expected.tipo_mensaje, final_pkt.tipo_mensaje);
    assert_eq!(expected.id_cafetera, final_pkt.id_cafetera);
    assert_eq!(expected.id_cuenta, final_pkt.id_cuenta);
    assert_eq!(expected.cantidad_modificar, final_pkt.cantidad_modificar)
}

#[test]
fn restar_to_bytes() {
    let test_pkt = Restar::new(10, 3, 100);
    let expected = vec![1, 10, 0, 0, 0, 3, 0, 0, 0, 100];

    assert_eq!(expected, test_pkt.to_bytes())
}

#[test]
fn restar_from_bytes() {
    let expected = Restar::new(100, 5, 50);
    let bytes = vec![1, 100, 0, 0, 0, 5, 0, 0, 0, 50];
    let final_pkt = Restar::from_bytes(bytes);

    assert_eq!(expected.tipo_mensaje, final_pkt.tipo_mensaje);
    assert_eq!(expected.id_cafetera, final_pkt.id_cafetera);
    assert_eq!(expected.id_cuenta, final_pkt.id_cuenta);
    assert_eq!(expected.cantidad_modificar, final_pkt.cantidad_modificar)
}

#[test]
fn ping_to_bytes() {
    let test_pkt = Ping::new(10, 3, 100);
    let expected = vec![2, 10, 0, 0, 0, 0, 0, 0, 0, 0];

    assert_eq!(expected, test_pkt.to_bytes())
}

#[test]
fn ping_from_bytes() {
    let expected = Ping::new(100, 5, 50);
    let bytes = vec![2, 100, 0, 0, 0, 0, 0, 0, 0, 0];
    let final_pkt = Ping::from_bytes(bytes);

    assert_eq!(expected.tipo_mensaje, final_pkt.tipo_mensaje);
    assert_eq!(expected.id_cafetera, final_pkt.id_cafetera);
}

#[test]
fn okey_to_bytes() {
    let test_pkt = OkeyToCafetera::new(10, 3, 100);
    let expected = vec![3, 10, 0, 0, 0, 0, 0, 0, 0, 0];

    assert_eq!(expected, test_pkt.to_bytes())
}

#[test]
fn okey_from_bytes() {
    let expected = OkeyToCafetera::new(100, 5, 50);
    let bytes = vec![3, 100, 0, 0, 0, 0, 0, 0, 0, 0];
    let final_pkt = OkeyToCafetera::from_bytes(bytes);

    assert_eq!(expected.tipo_mensaje, final_pkt.tipo_mensaje);
    assert_eq!(expected.id_cafetera, final_pkt.id_cafetera);
}

#[test]
fn error_to_bytes() {
    let test_pkt = Error::new(10, 3, 100);
    let expected = vec![4, 10, 0, 0, 0, 0, 0, 0, 0, 0];

    assert_eq!(expected, test_pkt.to_bytes())
}

#[test]
fn error_from_bytes() {
    let expected = Error::new(100, 5, 50);
    let bytes = vec![4, 100, 0, 0, 0, 0, 0, 0, 0, 0];
    let final_pkt = Error::from_bytes(bytes);

    assert_eq!(expected.tipo_mensaje, final_pkt.tipo_mensaje);
    assert_eq!(expected.id_cafetera, final_pkt.id_cafetera);
}
