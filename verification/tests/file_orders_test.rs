use cafeteria::enums::{ErrorType, IngredientType, OrderState};
use cafeteria::file_orders::read_orders;
use cafeteria::utils::{Consts, LIMIT_DISPENSERS};

#[test]
fn test1_create_tests_files_with_4_ingredients() {
    let orders = read_orders("A100 M20 C30 E10\nA1 M20 C30 E10\nA330 M20 C30 E10\n").unwrap();

    assert_eq!(orders.len(), 3);
    assert_eq!(orders[0].get(&IngredientType::Agua), Some(100));
    assert_eq!(orders[0].get(&IngredientType::CafeMolido), Some(20));
    assert_eq!(orders[0].get(&IngredientType::Cacao), Some(30));
    assert_eq!(orders[0].get(&IngredientType::EspumaLeche), Some(10));
}

#[test]
fn test2_create_tests_files_without_4_ingredients() {
    let orders = read_orders("A100\nC30 E10\n").unwrap();

    assert_eq!(orders.len(), 2);
    assert_eq!(orders[0].get(&IngredientType::Agua), Some(100));
    assert_eq!(orders[0].get(&IngredientType::CafeMolido), None);
    assert_eq!(orders[0].get(&IngredientType::Cacao), None);
    assert_eq!(orders[0].get(&IngredientType::EspumaLeche), None);

    assert_eq!(orders[1].get(&IngredientType::Agua), None);
    assert_eq!(orders[1].get(&IngredientType::CafeMolido), None);
    assert_eq!(orders[1].get(&IngredientType::Cacao), Some(30));
    assert_eq!(orders[1].get(&IngredientType::EspumaLeche), Some(10));
}

#[test]
fn orders_take_the_number_of_their_line() {
    let orders = read_orders("E10\nA1 M20 C30 E10\nA330 M20 C30 E10\nA100\nC30 E10\nA100").unwrap();
    assert_eq!(orders.len(), 6);
    for (i, o) in orders.iter().enumerate() {
        assert_eq!(o.id, i as i64);
        assert_eq!(o.status, OrderState::InProgress);
    }
    assert_eq!(orders[5].get(&IngredientType::Agua), Some(100));
}

#[test]
fn unknown_letters_are_passed_over_and_the_later_word_counts() {
    let orders = read_orders("X9 A5 \t zzz  A7 E0 Q\r\n\nM3.000").unwrap();
    assert_eq!(orders.len(), 3);
    assert_eq!(orders[0].get(&IngredientType::Agua), Some(7));
    // E0 asks for nothing.
    assert_eq!(orders[0].get(&IngredientType::EspumaLeche), None);
    // The empty line is an order for nothing.
    assert!(!orders[1].requiere(&IngredientType::Agua));
    assert_eq!(orders[2].get(&IngredientType::CafeMolido), Some(3));
}

#[test]
fn an_empty_text_has_no_orders() {
    assert_eq!(read_orders("").unwrap().len(), 0);
    assert_eq!(read_orders("\n").unwrap().len(), 1);
}

#[test]
fn a_word_without_an_amount_makes_the_file_unreadable() {
    for texto in ["A5 M", "A5\nCx\nE1", "E-3", "A0.5", "M1e3", "C 1"] {
        let e = read_orders(texto).unwrap_err();
        assert_eq!(e.type_error, ErrorType::IncorrectOrderFile, "{}", texto);
    }
}

#[test]
fn settings_are_read_from_text_or_left_at_their_default() {
    let c = Consts::new(Some("1000.0"), Some("3"), None, Some("x"), Some("+100"), Some(""), Some("10"));
    assert_eq!(c.a_agua_caliente(), 1000);
    assert_eq!(c.c_cacao(), 3);
    assert_eq!(c.e_espuma_leche(), 700);
    assert_eq!(c.m_granos_molidos(), 500);
    assert_eq!(c.l_leche_fria(), 100);
    assert_eq!(c.g_granos(), 1000);
    assert_eq!(c.n_dispensers(), 10);
    let d = Consts::default();
    assert_eq!(
        (d.a_agua_caliente(), d.c_cacao(), d.e_espuma_leche(), d.m_granos_molidos()),
        (500, 1000, 700, 500)
    );
    assert_eq!((d.l_leche_fria(), d.g_granos(), d.n_dispensers()), (2000, 1000, 8));
}

#[test]
fn dispensers_are_cut_at_the_limit() {
    let c = Consts::new(None, None, None, None, None, None, Some("5000"));
    assert_eq!(c.n_dispensers(), LIMIT_DISPENSERS);
    let c = Consts::new(None, None, None, None, None, None, Some("1024"));
    assert_eq!(c.n_dispensers(), 1024);
    let c = Consts::new(None, None, None, None, None, None, Some("ocho"));
    assert_eq!(c.n_dispensers(), 8);
}
