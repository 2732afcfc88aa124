use cafeteria::decimal::{ascii_chars, chars_de, decimal_string, parse_bounded, parse_gramos};
use cafeteria::dispenser::Dispenser;
use cafeteria::server::bully_listener::{
    AccionBully, BullyListener, BullyState, EntradaBully, SetState, StartElection, TramaBully,
};
use cafeteria::server::bully_messages::{
    Coordinator, Election, MensajeBully, MensajeBullyBytes, OkeyBully, Ping, PingCord,
};
use cafeteria::server::coordinador::{Disconnect, DisconnectToString, Entrada};
use cafeteria::server::error_server::{ErrorServer, TipoError};
use cafeteria::server::mensaje::{
    Abort, Commit, CommitType, Execute, Finish, Mensaje, MensajeBytes, OkeyAbortToCoordinator,
    OkeyToCoordinator, Prepare, Starter, Yes,
};
use cafeteria::server::nodo_handler::{
    es_linea_bien_formada, NodoHandler, ReceiverFromCoordinador,
};
use cafeteria::server::registro::{leer_registro, leer_registro_largo, leer_tipo, separar};
use cafeteria::server::utils::{
    id_to_addr_read_bully, id_to_addr_read_data, id_to_addr_write_bully, id_to_addr_write_data,
    id_to_ctrladdr,
};
use cafeteria::sucursal::error_sucursal::ErrorSucursal;
use cafeteria::sucursal::utils::{cafeteras_para, rango_de_cafetera};

#[test]
fn numbers_are_spelled_in_decimal() {
    assert_eq!(decimal_string(0), "0");
    assert_eq!(decimal_string(7), "7");
    assert_eq!(decimal_string(10), "10");
    assert_eq!(decimal_string(4294967295), "4294967295");
    assert_eq!(decimal_string(u64::MAX), "18446744073709551615");
}

#[test]
fn numeric_fields_are_digits_after_an_optional_plus() {
    let leer = |s: &str, max: u32| parse_bounded(&s.chars().collect(), max);
    assert_eq!(leer("0", 255), Some(0));
    assert_eq!(leer("255", 255), Some(255));
    assert_eq!(leer("256", 255), None);
    assert_eq!(leer("007", 255), Some(7));
    assert_eq!(leer("+12", 255), Some(12));
    assert_eq!(leer("4294967295", u32::MAX), Some(u32::MAX));
    assert_eq!(leer("4294967296", u32::MAX), None);
    assert_eq!(leer("00000000000000000000000000042", u32::MAX), Some(42));
    for malo in ["", "+", "-1", "1 ", " 1", "1.0", "++1", "1+", "a", "١"] {
        assert_eq!(leer(malo, u32::MAX), None, "{:?}", malo);
    }
}

#[test]
fn grams_may_end_in_a_point_and_zeros() {
    let leer = |s: &str| parse_gramos(&s.chars().collect());
    assert_eq!(leer("5"), Some(5));
    assert_eq!(leer("5."), Some(5));
    assert_eq!(leer("1000.000"), Some(1000));
    assert_eq!(leer("18446744073709551615.0"), Some(u64::MAX));
    for malo in ["", ".", ".0", "0.5", "5.01", "5..0", "18446744073709551616", "5.0.0", "x"] {
        assert_eq!(leer(malo), None, "{:?}", malo);
    }
}

#[test]
fn texts_are_read_into_their_characters() {
    assert_eq!(chars_de("añ-1"), vec!['a', 'ñ', '-', '1']);
    assert_eq!(ascii_chars("a-1"), Some(vec!['a', '-', '1']));
    assert_eq!(ascii_chars("añ"), None);
    assert_eq!(ascii_chars(""), Some(vec![]));
}

#[test]
fn a_line_is_split_at_every_dash() {
    let partir = |s: &str| -> Vec<String> {
        separar(&s.chars().collect()).into_iter().map(|f| f.into_iter().collect()).collect()
    };
    assert_eq!(partir("0-1-22-333-4"), vec!["0", "1", "22", "333", "4"]);
    assert_eq!(partir(""), vec![""]);
    assert_eq!(partir("-"), vec!["", ""]);
    assert_eq!(partir("a--b-"), vec!["a", "", "b", ""]);
}

#[test]
fn short_records_are_written_and_read_back() {
    let m = Starter::new(2, 77, 4294967295, 255);
    assert_eq!(m.to_string(), "0-2-77-4294967295-255");
    let r = Starter::from_string(m.to_string());
    assert_eq!(
        (r.tipo_mensaje, r.id_nodo, r.id_cuenta, r.id_transaccion, r.id_cafetera),
        (0, 2, 77, 4294967295, 255)
    );
    assert_eq!(Prepare::new(1, 2, 3, 4).to_string(), "1-1-2-3-4");
    assert_eq!(Yes::new(1, 2, 3, 4).to_string(), "2-1-2-3-4");
    assert_eq!(Execute::new(1, 2, 3, 4).to_string(), "3-1-2-3-4");
    assert_eq!(OkeyToCoordinator::new(1, 2, 3, 4).to_string(), "6-1-2-3-4");
    assert_eq!(Abort::new(1, 2, 3, 4).to_string(), "7-1-2-3-4");
    assert_eq!(cafeteria::server::mensaje::PingCord::new(1, 2, 3, 4).to_string(), "8-1-2-3-4");
    assert_eq!(OkeyAbortToCoordinator::new(1, 2, 3, 4).to_string(), "9-1-2-3-4");
    // The kind written in the line is not looked at; further fields neither.
    let y = Yes::from_string("1-3-9-211-0-extra".to_string());
    assert_eq!((y.tipo_mensaje, y.id_nodo, y.id_cuenta, y.id_transaccion), (2, 3, 9, 211));
    let p = Prepare::from_start(Starter::new(3, 9, 211, 1));
    assert_eq!(p.to_string(), "1-3-9-211-1");
    assert_eq!((p.get_tipo_mensaje(), p.get_id_nodo(), p.get_id_cuenta()), (1, 3, 9));
    assert_eq!((p.get_id_transaccion(), p.get_id_cafetera()), (211, 1));
}

#[test]
fn long_records_are_written_and_read_back() {
    let f = Finish::new(1, 7, 121, CommitType::SUMA, 300, 2);
    assert_eq!(f.f_to_string(), "4-1-7-121-0-300-2");
    let c = Commit::new(1, 7, 121, CommitType::RESTA, 300, 2);
    assert_eq!(c.set_to_string(), "5-1-7-121-1-300-2");
    let r = Commit::from_string(c.set_to_string());
    assert_eq!((r.get_tipo_mensaje(), r.get_id_nodo(), r.get_id_cuenta()), (5, 1, 7));
    assert_eq!((r.get_id_transaccion(), r.tipo, r.cantidad, r.id_cafetera), (121, CommitType::RESTA, 300, 2));
    let r = Finish::from_string("5-1-7-121-9-300-2".to_string());
    assert_eq!((r.tipo_mensaje, r.tipo), (4, CommitType::UNKNOWN));
    assert_eq!(CommitType::from_bytes(0), CommitType::SUMA);
    assert_eq!(CommitType::from_bytes(1), CommitType::RESTA);
    assert_eq!(CommitType::UNKNOWN.to_bytes(), 2);
}

#[test]
fn records_that_cannot_be_read() {
    assert!(leer_registro("0-1-2-3-4").is_some());
    assert!(leer_registro("x-1-2-3-4").is_some());
    assert!(leer_registro("0-+1-02-3-4").is_some());
    for malo in ["", "0-1-2-3", "0-1-2-3-", "0-256-2-3-4", "0-1-2-3-256", "0-1-4294967296-3-4", "0-1-2-3-4ñ", "0 -1-2-3-4x"] {
        assert!(leer_registro(malo).is_none(), "{:?}", malo);
    }
    assert!(leer_registro_largo("4-1-7-121-0-300-2").is_some());
    assert!(leer_registro_largo("4-1-7-121-0-300").is_none());
    assert!(leer_registro_largo("4-1-7-121-256-300-2").is_none());
    assert_eq!(leer_tipo("10"), Some(10));
    assert_eq!(leer_tipo("4-1"), Some(4));
    assert_eq!(leer_tipo(""), None);
    assert_eq!(leer_tipo("256-1"), None);
    assert_eq!(leer_tipo("é"), None);
}

#[test]
fn kinds_of_records() {
    let todos = [
        Mensaje::STARTER,
        Mensaje::PREPARE,
        Mensaje::YES,
        Mensaje::EXECUTE,
        Mensaje::FINISH,
        Mensaje::COMMIT,
        Mensaje::OKEY,
        Mensaje::ABORT,
        Mensaje::PING,
        Mensaje::OKEYABORT,
        Mensaje::DISCONNECT,
    ];
    for (i, m) in todos.iter().enumerate() {
        assert_eq!(m.to_bytes(), i as u8);
        assert_eq!(Mensaje::from_code(i as u8), *m);
        // A digit announces the kind of its number; the order to leave the
        // network has two digits and no character of its own.
        if i <= 9 {
            assert_eq!(Mensaje::from_bytes(b'0' + i as u8), *m);
            assert_eq!(Mensaje::from_bytes(b'0' + i as u8).to_bytes(), i as u8);
        }
    }
    assert_eq!(Mensaje::from_bytes(b':'), Mensaje::UNKNOWN);
    assert_eq!(Mensaje::UNKNOWN.to_bytes(), 11);
    assert_eq!(Mensaje::from_code(11), Mensaje::UNKNOWN);
    assert_eq!(Mensaje::from_bytes(47), Mensaje::UNKNOWN);
    assert_eq!(Mensaje::from_bytes(59), Mensaje::UNKNOWN);
    assert_eq!(Mensaje::from_bytes(0), Mensaje::UNKNOWN);
}

#[test]
fn the_end_of_the_leader_reads_the_lines_of_its_follower() {
    let mut h = NodoHandler::new(2);
    match h.handle("0-2-9-211-1".to_string()) {
        Entrada::Starter(s) => assert_eq!((s.id_nodo, s.id_cuenta, s.id_transaccion, s.id_cafetera), (2, 9, 211, 1)),
        _ => panic!("an opening was read"),
    }
    match h.handle("4-2-9-211-1-500-1".to_string()) {
        Entrada::Finish(f) => assert_eq!((f.tipo, f.cantidad), (CommitType::RESTA, 500)),
        _ => panic!("a completion was read"),
    }
    assert!(matches!(h.handle("2-2-9-211-1".to_string()), Entrada::Yes(_)));
    assert!(matches!(h.handle("6-2-9-211-1".to_string()), Entrada::Okey(_)));
    assert!(matches!(h.handle("7-2-9-211-1".to_string()), Entrada::Abort(_)));
    assert!(matches!(h.handle("8-2-0-0-1".to_string()), Entrada::Ping(_)));
    assert!(matches!(h.handle("9-2-9-211-1".to_string()), Entrada::OkeyAbort(_)));
    // Records that only the leader writes, and anything else, are passed over.
    for otra in ["1-2-9-211-1", "3-2-9-211-1", "5-2-9-211-1-500-1", "11", "", "hola"] {
        assert!(es_linea_bien_formada(otra));
        assert!(matches!(h.handle(otra.to_string()), Entrada::Desconocido), "{}", otra);
    }
    assert!(!es_linea_bien_formada("0-2-9"));
    assert!(!es_linea_bien_formada("4-2-9-211-1"));
    assert_eq!(h.finished().map(|d| d.id_nodo), Some(2));
    assert!(matches!(h.handle("10".to_string()), Entrada::Disconnect(_)));
    assert!(h.finished().is_none());
    let d = Disconnect { tipo_mensaje: 10 };
    assert_eq!((d.to_string(), d.get_tipo_mensaje()), ("10".to_string(), 10));
    let r = ReceiverFromCoordinador { string: "1-3-9-211-1".to_string() };
    assert_eq!(r.linea(), "1-3-9-211-1\n");
}

#[test]
fn election_frames() {
    assert_eq!(OkeyBully::new(3).to_bytes(), vec![0, 3]);
    assert_eq!(Election::new(3).to_bytes(), vec![1, 3]);
    assert_eq!(Coordinator::new(3).to_bytes(), vec![2, 3]);
    assert_eq!(Ping::new(3).to_bytes(), vec![3, 3]);
    assert_eq!(PingCord::new(3).to_bytes(), vec![4, 3]);
    let e = Election::from_bytes(vec![1, 2, 99]);
    assert_eq!((e.get_tipo_mensaje(), e.get_id_nodo()), (1, 2));
    assert_eq!(MensajeBully::from_bytes(4), MensajeBully::PINGCORD);
    assert_eq!(MensajeBully::from_bytes(5), MensajeBully::DESCONOCIDO);
}

fn envios(acciones: &[AccionBully]) -> Vec<(u8, Vec<u8>)> {
    acciones
        .iter()
        .filter_map(|a| match a {
            AccionBully::Enviar { id_nodo, mensaje } => Some((*id_nodo, mensaje.to_bytes())),
            _ => None,
        })
        .collect()
}

#[test]
fn an_election_calls_the_higher_nodes_and_waits() {
    let mut b = BullyListener::new(1);
    let acciones = b.start_election(StartElection);
    assert_eq!(envios(&acciones), vec![(2, vec![1, 1]), (3, vec![1, 1])]);
    assert!(matches!(acciones[2], AccionBully::Esperar { turno: 1 }));
    assert_eq!(b.estado(), BullyState::WaitingOkey);
    // An answer cancels the promotion and starts the second wait.
    let acciones = b.handle(EntradaBully::Trama(vec![0, 3]));
    assert!(matches!(acciones[..], [AccionBully::Esperar { turno: 2 }]));
    assert_eq!(b.estado(), BullyState::WaitingCoordinator);
    assert!(b.timeout(1).is_empty());
    assert!(!b.soy_coordinador());
    // No announcement within the second wait: the election starts again.
    let acciones = b.timeout(2);
    assert_eq!(envios(&acciones), vec![(2, vec![1, 1]), (3, vec![1, 1])]);
    assert!(matches!(acciones[2], AccionBully::Esperar { turno: 3 }));
    // Silence: the node makes itself leader and tells everyone.
    let acciones = b.timeout(3);
    assert_eq!(
        envios(&acciones),
        vec![(1, vec![2, 1]), (2, vec![2, 1]), (3, vec![2, 1])]
    );
    assert!(b.soy_coordinador());
    assert_eq!(b.estado(), BullyState::NotExecuting);
    assert!(b.timeout(3).is_empty());
}

#[test]
fn a_call_from_a_lower_node_is_answered_and_taken_up() {
    let mut b = BullyListener::new(2);
    let acciones = b.handle(EntradaBully::Trama(vec![1, 1]));
    assert_eq!(envios(&acciones), vec![(1, vec![0, 2]), (3, vec![1, 2])]);
    assert_eq!(b.estado(), BullyState::WaitingOkey);
    // A call from a higher node is answered, no more.
    let mut b = BullyListener::new(2);
    let acciones = b.handle(EntradaBully::Trama(vec![1, 3]));
    assert_eq!(envios(&acciones), vec![(3, vec![0, 2])]);
    assert_eq!(acciones.len(), 1);
    assert_eq!(b.estado(), BullyState::NotExecuting);
}

#[test]
fn the_search_for_the_leader() {
    let mut lider = BullyListener::new(3);
    assert!(lider.handle(EntradaBully::Trama(vec![3, 1])).is_empty());
    lider.handle(EntradaBully::Trama(vec![2, 3]));
    assert!(lider.soy_coordinador());
    assert_eq!(envios(&lider.handle(EntradaBully::Trama(vec![3, 1]))), vec![(1, vec![4, 3])]);
    let mut b = BullyListener::new(1);
    assert!(b.set_state(SetState { estado: false }).is_empty());
    // Off the network nothing is heard and nothing is started.
    assert!(b.handle(EntradaBully::Trama(vec![2, 3])).is_empty());
    assert!(b.start_election(StartElection).is_empty());
    let acciones = b.set_state(SetState { estado: true });
    assert_eq!(
        envios(&acciones),
        vec![(1, vec![3, 1]), (2, vec![3, 1]), (3, vec![3, 1])]
    );
    match b.handle(EntradaBully::Trama(vec![4, 3]))[..] {
        [AccionBully::Notificar(m)] => assert_eq!(m.id_nodo_coordinador, 3),
        _ => panic!("the node was to be told"),
    }
    // A leader that is cut off leads no more.
    lider.set_state(SetState { estado: false });
    assert!(!lider.soy_coordinador());
    assert!(matches!(
        TramaBully::Ping(Ping::new(9)).to_bytes()[..],
        [3, 9]
    ));
}

#[test]
fn addresses_of_the_nodes() {
    assert_eq!(id_to_addr_read_data(1), "127.0.0.1:12351");
    assert_eq!(id_to_addr_write_data(2), "127.0.0.1:12362");
    assert_eq!(id_to_ctrladdr(3), "127.0.0.1:12343");
    assert_eq!(id_to_addr_write_bully(1), "127.0.0.1:12431");
    assert_eq!(id_to_addr_read_bully(12), "127.0.0.1:124212");
}

#[test]
fn errors_keep_their_message_and_their_kind() {
    let e = ErrorServer::new("Falta el id del nodo", TipoError::ErrorArgs);
    assert_eq!((e.mensaje.as_str(), e.tipo_error), ("Falta el id del nodo", TipoError::ErrorArgs));
    let e = ErrorSucursal::new("x", cafeteria::sucursal::error_sucursal::TipoError::ErrorArchivo);
    assert_eq!(e.mensaje, "x");
    let e = cafeteria::error_dispenser::ErrorCafeteria::new("y");
    assert_eq!((e.mensaje.as_str(), e.type_error), ("y", cafeteria::enums::ErrorType::ErrorGeneric));
    let e = cafeteria::error_dispenser::ErrorCafeteria::new_of_type(
        "z",
        cafeteria::enums::ErrorType::NoAvailableOrderFile,
    );
    assert_eq!(e.type_error, cafeteria::enums::ErrorType::NoAvailableOrderFile);
}

#[test]
fn requests_are_dealt_out_to_the_machines() {
    assert_eq!(cafeteras_para(10), 3);
    assert_eq!(cafeteras_para(2), 2);
    assert_eq!(cafeteras_para(0), 0);
    assert_eq!(rango_de_cafetera(10, 3, 0), (0, 3));
    assert_eq!(rango_de_cafetera(10, 3, 1), (3, 6));
    assert_eq!(rango_de_cafetera(10, 3, 2), (6, 10));
    assert_eq!(rango_de_cafetera(2, 2, 1), (1, 2));
}

#[test]
fn a_dispenser_signs_with_its_number() {
    assert_eq!(Dispenser::new(7).id_dispenser(), "[ DISPENSER#7 ]");
    assert_eq!(Dispenser::new(1023).id_dispenser(), "[ DISPENSER#1023 ]");
}
