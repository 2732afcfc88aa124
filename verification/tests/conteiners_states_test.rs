use cafeteria::conteiners_states::ContainersStates;
use cafeteria::enums::{ErrorType, IngredientType, StateOfConteiner};
use cafeteria::order::Order;
use cafeteria::utils::Consts;

#[test]
fn test1_find_rng_any_container_free_for_returings_random_container() {
    let containers_states = ContainersStates::default();

    let order = Order::new(10, 10, 10, 10);

    let any_conteiner = containers_states
        .find_rng_any_container_free_for(&order)
        .unwrap();
    assert!(
        any_conteiner.eq(&IngredientType::Agua)
            || any_conteiner.eq(&IngredientType::CafeMolido)
            || any_conteiner.eq(&IngredientType::Cacao)
            || any_conteiner.eq(&IngredientType::EspumaLeche)
    );
}

#[test]
fn test2_find_rng_any_container_free_for_returns_random_container_without_counting_the_quantity_of_the_request_in_order(
) {
    let consts = Consts::default();
    let containers_states = ContainersStates::default();
    let order = Order::new(
        consts.m_granos_molidos() + 1,
        consts.e_espuma_leche(),
        1,
        consts.a_agua_caliente() + 1,
    );

    let any_type_conteiner = containers_states
        .find_rng_any_container_free_for(&order)
        .unwrap();
    assert!(
        any_type_conteiner.eq(&IngredientType::Agua)
            || any_type_conteiner.eq(&IngredientType::CafeMolido)
            || any_type_conteiner.eq(&IngredientType::Cacao)
            || any_type_conteiner.eq(&IngredientType::EspumaLeche)
    );
}

#[test]
fn test4_order_is_processable() {
    let consts = Consts::default();
    let containers_states = ContainersStates::default();
    let order = Order::new(
        consts.m_granos_molidos() + 1,
        consts.e_espuma_leche() + 1,
        consts.c_cacao() + 1,
        consts.a_agua_caliente() + 1,
    );

    assert!(containers_states.order_is_processable(&order));
}

#[test]
fn test5_order_is_not_processable() {
    let containers_states = ContainersStates::default();
    let order = Order::new(0, 0, 0, 0);

    assert!(!containers_states.order_is_processable(&order));
}

#[test]
fn test5_order_is_not_processable_when_all_containers_are_taken() {
    let consts = Consts::default();
    let mut containers_states = ContainersStates::default();
    let order = Order::new(
        consts.m_granos_molidos() + 1,
        consts.e_espuma_leche() + 1,
        consts.c_cacao() + 1,
        consts.a_agua_caliente() + 1,
    );
    containers_states.set_state(0, StateOfConteiner::Taken, &IngredientType::Agua);
    containers_states.set_state(0, StateOfConteiner::Taken, &IngredientType::Cacao);
    containers_states.set_state(0, StateOfConteiner::Taken, &IngredientType::CafeMolido);
    containers_states.set_state(0, StateOfConteiner::Taken, &IngredientType::EspumaLeche);

    assert!(!containers_states.order_is_processable(&order));
}

#[test]
fn test6_order_is_processable_when_one_container_is_free() {
    let consts = Consts::default();
    let mut containers_states = ContainersStates::default();
    let order = Order::new(
        consts.m_granos_molidos() + 1,
        consts.e_espuma_leche() + 1,
        consts.c_cacao() + 1,
        consts.a_agua_caliente() + 1,
    );
    containers_states.set_state(0, StateOfConteiner::Taken, &IngredientType::Agua);
    containers_states.set_state(0, StateOfConteiner::Taken, &IngredientType::Cacao);
    containers_states.set_state(0, StateOfConteiner::Taken, &IngredientType::CafeMolido);

    let any_type_conteiner = containers_states
        .find_rng_any_container_free_for(&order)
        .unwrap();

    assert!(containers_states.order_is_processable(&order));
    assert!(any_type_conteiner.eq(&IngredientType::EspumaLeche));
    assert!(!any_type_conteiner.eq(&IngredientType::Agua));
    assert!(!any_type_conteiner.eq(&IngredientType::Cacao));
    assert!(!any_type_conteiner.eq(&IngredientType::CafeMolido));
}

#[test]
fn test7_container_withtout_resource_for_order_returns_true_when_container_does_not_have_resource_for_order(
) {
    let consts = Consts::default();
    let mut containers_states = ContainersStates::default();
    let order = Order::new(
        consts.m_granos_molidos() + 1,
        consts.e_espuma_leche() + 1,
        consts.c_cacao() + 1,
        consts.a_agua_caliente() + 1,
    );
    containers_states.set_state(0, StateOfConteiner::Taken, &IngredientType::Agua);
    containers_states.set_state(0, StateOfConteiner::Taken, &IngredientType::Cacao);
    containers_states.set_state(0, StateOfConteiner::Taken, &IngredientType::CafeMolido);
    containers_states.set_state(0, StateOfConteiner::Taken, &IngredientType::EspumaLeche);

    assert!(!containers_states.container_without_resource_for(&order));

    containers_states.set_state(
        0,
        StateOfConteiner::NoEnoughResource,
        &IngredientType::EspumaLeche,
    );

    assert!(containers_states.container_without_resource_for(&order));
}

#[test]
fn every_free_container_that_the_order_needs_is_drawn_sooner_or_later() {
    let containers_states = ContainersStates::default();
    let order = Order::new(10, 10, 10, 10);
    let mut vistos = [false; 4];
    for _ in 0..10_000 {
        match containers_states.find_rng_any_container_free_for(&order).unwrap() {
            IngredientType::Agua => vistos[0] = true,
            IngredientType::CafeMolido => vistos[1] = true,
            IngredientType::EspumaLeche => vistos[2] = true,
            IngredientType::Cacao => vistos[3] = true,
            otro => panic!("{:?} is not served", otro),
        }
        if vistos.iter().all(|v| *v) {
            break;
        }
    }
    assert_eq!(vistos, [true; 4]);
}

#[test]
fn candidates_come_in_a_fixed_order_and_are_counted_round() {
    let mut containers_states = ContainersStates::default();
    containers_states.set_state(0, StateOfConteiner::Taken, &IngredientType::CafeMolido);
    let order = Order::new(10, 10, 10, 0);
    assert_eq!(
        containers_states.containers_free_for(&order),
        vec![IngredientType::EspumaLeche, IngredientType::Cacao]
    );
    assert_eq!(containers_states.container_free_at(&order, 0).unwrap(), IngredientType::EspumaLeche);
    assert_eq!(containers_states.container_free_at(&order, 1).unwrap(), IngredientType::Cacao);
    assert_eq!(containers_states.container_free_at(&order, 2).unwrap(), IngredientType::EspumaLeche);
}

#[test]
fn no_candidate_is_an_error() {
    let containers_states = ContainersStates::default();
    let order = Order::new(0, 0, 0, 0);
    let e = containers_states.find_rng_any_container_free_for(&order).unwrap_err();
    assert_eq!(e.type_error, ErrorType::ErrorGeneric);
    assert!(containers_states.container_free_at(&order, 3).is_err());
}

#[test]
fn alerts_are_for_levels_below_a_tenth() {
    let consts = Consts::con_valores(1000, 30, 100, 100, 100, 100, 10);
    let mut estados = ContainersStates::new(&consts);
    assert_eq!(estados.alert_conteiners_status(&consts), vec![]);
    estados.set_state(99, StateOfConteiner::Free, &IngredientType::Agua);
    estados.set_state(3, StateOfConteiner::Free, &IngredientType::Cacao);
    estados.set_state(10, StateOfConteiner::Free, &IngredientType::EspumaLeche);
    estados.set_state(9, StateOfConteiner::Taken, &IngredientType::CafeMolido);
    // 99 of 1000 and 9 of 100 are below a tenth; 3 of 30 and 10 of 100 are
    // a tenth exactly.
    assert_eq!(
        estados.alert_conteiners_status(&consts),
        vec![IngredientType::Agua, IngredientType::CafeMolido]
    );
}
