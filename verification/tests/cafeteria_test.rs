use cafeteria::cafeteria::{init_elements, start};
use cafeteria::conteiners::Conteiners;
use cafeteria::conteiners_states::ContainersStates;
use cafeteria::dispenser::{
    create_and_run_dispensers, send_signal_poweroff_to_dispensers, Dispenser, Proceso,
};
use cafeteria::enums::{ErrorType, IngredientStateOfOrder, IngredientType, OrderState};
use cafeteria::order::{
    insert_orders, FinishedOrders, Numerador, Order, PendingOrders, Turno,
};
use cafeteria::periodic_alert::{create_and_run_system_alert, PeriodicAlert};
use cafeteria::traits::ApplyContainer;
use cafeteria::utils::Consts;
use rand::Rng;

fn consts_de_prueba(cacao: u64) -> Consts {
    Consts::con_valores(1000, cacao, 100, 100, 100, 100, 10)
}

fn existencia(containers: &Conteiners, tipo: IngredientType) -> u64 {
    containers.lock_for(tipo).unwrap().get_statistic(tipo).unwrap()
}

/// Runs the day with the orders taking turns at the containers in an
/// order drawn at random, and returns the ids of the completed orders.
fn correr_al_azar(contents: &str, consts: &Consts) -> (Vec<usize>, Conteiners) {
    let init = init_elements(contents, consts).unwrap();
    let mut states = init.states;
    let mut containers = init.containers;
    let mut en_curso: Vec<Order> = init.orders_to_process;
    let mut hechos: Vec<Order> = Vec::new();
    while !en_curso.is_empty() {
        let i = rand::thread_rng().gen_range(0, en_curso.len());
        let mut order = en_curso[i];
        match Dispenser::wait_while_containers_states(&states, &mut order) {
            Turno::Esperar => {
                if order.get_updated_status() != OrderState::InProgress {
                    hechos.push(en_curso.remove(i));
                    continue;
                }
                panic!("no container is ever left taken")
            }
            Turno::Listo(Err(e)) => {
                assert_eq!(e.type_error, ErrorType::ContainerWithoutResource);
                en_curso.remove(i);
                hechos.push(order);
            }
            Turno::Listo(Ok(())) => {
                let tipo = states.find_rng_any_container_free_for(&order).unwrap();
                Dispenser::apply_container(&mut order, &mut states, &mut containers, tipo).unwrap();
                if order.status == OrderState::InProgress {
                    en_curso[i] = order;
                } else {
                    en_curso.remove(i);
                    hechos.push(order);
                }
            }
        }
    }
    let mut completados: Vec<usize> = hechos
        .iter()
        .filter(|o| o.status == OrderState::Completed)
        .map(|o| o.id as usize)
        .collect();
    completados.sort();
    (completados, containers)
}

fn combinaciones_de_tres(n: usize) -> Vec<Vec<usize>> {
    let mut v = Vec::new();
    for a in 0..n {
        for b in a + 1..n {
            for c in b + 1..n {
                v.push(vec![a, b, c]);
            }
        }
    }
    v
}

/// Runs the day so that the orders of `primeros` get their cocoa before
/// any other order gets anything.
fn correr_con_cacao_para(contents: &str, consts: &Consts, primeros: &[usize]) -> Vec<usize> {
    let init = init_elements(contents, consts).unwrap();
    let mut states = init.states;
    let mut containers = init.containers;
    let mut finished = init.finished;
    let mut orders = init.orders_to_process;
    for i in primeros {
        Dispenser::apply_container(&mut orders[*i], &mut states, &mut containers, IngredientType::Cacao)
            .unwrap();
    }
    for o in orders {
        match Dispenser::process_order(o, &mut states, &mut finished, &mut containers).unwrap() {
            Proceso::Terminado(_) => {}
            Proceso::Detenido(_) => panic!("no container is ever left taken"),
        }
    }
    let mut completados = Vec::new();
    while let Some(o) = finished.pop() {
        if o.status == OrderState::Completed {
            completados.push(o.id as usize);
        }
    }
    completados.sort();
    completados
}

#[test]
fn test1_with_max_3_cacao_and_5_orders_then_all_combinations_5_choose_3_completed() {
    let consts = consts_de_prueba(3);
    let orders_content1 = "A5 M2 C1 E3\nA5 M5 C1 E2\nA10 M4 C1 E2\nA10 M2 C1 E3\nA15 M1 C1 E4";

    let combinations = combinaciones_de_tres(5);
    assert_eq!(combinations.len(), 10);
    let mut vistos = vec![false; combinations.len()];
    for _ in 0..65535 {
        let (completados, containers) = correr_al_azar(orders_content1, &consts);
        assert_eq!(completados.len(), 3);
        assert_eq!(existencia(&containers, IngredientType::Cacao), 0);
        let k = combinations.iter().position(|c| *c == completados).unwrap();
        vistos[k] = true;
        if vistos.iter().all(|v| *v) {
            break;
        }
    }
    assert!(vistos.iter().all(|v| *v));

    // Every combination is also reached by a schedule of its own.
    for c in &combinations {
        assert_eq!(&correr_con_cacao_para(orders_content1, &consts, c), c);
    }
}

#[test]
fn test2_with_max_3_cacao_and_6_orders_then_all_combinations_5_choose_3_completed() {
    let consts = consts_de_prueba(3);
    let orders_content1 =
        "A5 M2 C1 E3\nA5 M5 C1 E2\nA10 M4 C1 E2\nA10 M2 C1 E3\nA15 M1 C1 E4\nA15 M3 C1 E2";

    let combinations = combinaciones_de_tres(6);
    assert_eq!(combinations.len(), 20);
    let mut vistos = vec![false; combinations.len()];
    for _ in 0..65535 {
        let (completados, _) = correr_al_azar(orders_content1, &consts);
        assert_eq!(completados.len(), 3);
        let k = combinations.iter().position(|c| *c == completados).unwrap();
        vistos[k] = true;
        if vistos.iter().all(|v| *v) {
            break;
        }
    }
    assert!(vistos.iter().all(|v| *v));

    for c in &combinations {
        assert_eq!(&correr_con_cacao_para(orders_content1, &consts, c), c);
    }
}

#[test]
fn test3_with_max_3_cacao_then_3_orders_is_completed_and_the_quantities_of_containers_are_reduced() {
    let consts = consts_de_prueba(3);
    let orders_content1 = "A5 M2 C1 E3\nA5 M5 C1 E2\nA10 M4 C1 E2\nA10 M2 C1 E3\nA15 M1 C1 E1";

    for _ in 0..200 {
        let (completados, containers) = correr_al_azar(orders_content1, &consts);

        assert!(completados.len() == 3);
        assert!(existencia(&containers, IngredientType::CafeMolido) < 100 + 100);
        assert!(existencia(&containers, IngredientType::EspumaLeche) < 100 + 100);
        assert!(existencia(&containers, IngredientType::EspumaLeche) >= 100 + 100 - 11);
        assert!(existencia(&containers, IngredientType::CafeMolido) >= 100 + 100 - 14);
        assert_eq!(existencia(&containers, IngredientType::Cacao), 0);
    }

    // With a single dispenser the first three orders of the file are the
    // ones completed, and the other two are cancelled untouched.
    let cierre = start(orders_content1, &consts).unwrap();
    assert_eq!(cierre.system_alert.completados(), 3);
    let estados: Vec<OrderState> =
        cierre.system_alert.orders().iter().map(|o| o.status).collect();
    assert_eq!(
        estados,
        vec![
            OrderState::Completed,
            OrderState::Completed,
            OrderState::Completed,
            OrderState::NoEnoughResourceContainer,
            OrderState::NoEnoughResourceContainer,
        ]
    );
    assert_eq!(existencia(&cierre.containers, IngredientType::CafeMolido), 200 - 11);
    assert_eq!(existencia(&cierre.containers, IngredientType::EspumaLeche), 200 - 7);
    assert_eq!(existencia(&cierre.containers, IngredientType::Cacao), 0);
}

#[test]
fn test4_with_sufficient_quantity_in_containers_then_5_orders_is_completed_and_the_quantities_of_containers_are_reduced(
) {
    let consts = consts_de_prueba(30);
    let orders_content1 = "A5 M2 C1 E3\nA5 M5 C1 E2\nA10 M4 C1 E2\nA10 M2 C1 E3\nA15 M1 C1 E1";

    for _ in 0..200 {
        let (completados, containers) = correr_al_azar(orders_content1, &consts);

        assert!(completados.len() == 5);
        assert!(existencia(&containers, IngredientType::CafeMolido) < 100 + 100);
        assert!(existencia(&containers, IngredientType::EspumaLeche) < 100 + 100);
        assert!(existencia(&containers, IngredientType::EspumaLeche) >= 100 + 100 - 11);
        assert!(existencia(&containers, IngredientType::CafeMolido) >= 100 + 100 - 14);
        assert_eq!(existencia(&containers, IngredientType::Cacao), 25);
    }

    let cierre = start(orders_content1, &consts).unwrap();
    assert_eq!(cierre.system_alert.completados(), 5);
    assert_eq!(existencia(&cierre.containers, IngredientType::Cacao), 25);
    assert_eq!(existencia(&cierre.containers, IngredientType::CafeMolido), 200 - 14);
    assert_eq!(existencia(&cierre.containers, IngredientType::EspumaLeche), 200 - 11);
    // Water comes from the tap: 1000 less the 45 applied, no refill needed.
    assert_eq!(existencia(&cierre.containers, IngredientType::Agua), 955);
}

#[test]
fn every_order_completes_when_the_containers_can_serve_them_all() {
    // Milk foam: 60 + 50 = 110 asked for, 100 in the container and 10 in
    // stock. Ground coffee: 100 asked for, 100 in the container.
    let consts = Consts::con_valores(50, 2, 100, 100, 10, 0, 4);
    let cierre = start("E60 M40 A50 C1\nE50 M60 A50 C1", &consts).unwrap();
    assert_eq!(cierre.system_alert.completados(), 2);
    assert_eq!(existencia(&cierre.containers, IngredientType::EspumaLeche), 0);
    assert_eq!(existencia(&cierre.containers, IngredientType::CafeMolido), 0);
    assert_eq!(existencia(&cierre.containers, IngredientType::Cacao), 0);
}

#[test]
fn an_unreadable_file_stops_the_shop_before_it_opens() {
    let consts = Consts::default();
    let e = start("A5 Mx", &consts).unwrap_err();
    assert_eq!(e.type_error, ErrorType::IncorrectOrderFile);
    assert!(init_elements("C", &consts).is_err());
}

#[test]
fn settings_that_cannot_be_held_stop_the_shop_before_it_opens() {
    let consts = Consts::con_valores(1, 1, u64::MAX, 1, 1, 1, 1);
    let e = start("A1", &consts).unwrap_err();
    assert_eq!(e.type_error, ErrorType::ErrorGeneric);
    assert!(Conteiners::new(&consts).is_err());
}

#[test]
fn the_queue_of_orders_never_holds_more_than_there_are_dispensers() {
    let orders: Vec<Order> = (0..5).map(|i| Order::new_with_id(i, 1, 1, 1, 1)).collect();
    let mut cola = PendingOrders::new();
    // Three dispensers: three orders go in, the producer has to wait.
    let hasta = insert_orders(&orders, 0, &mut cola, 3).unwrap();
    assert_eq!((hasta, cola.len()), (3, 3));
    assert_eq!(insert_orders(&orders, hasta, &mut cola, 3).unwrap(), 3);
    // The oldest order leaves first.
    match Dispenser::wait_pedido(&mut cola) {
        Turno::Listo(Some(o)) => assert_eq!(o.id, 0),
        _ => panic!("an order was waiting"),
    }
    let hasta = insert_orders(&orders, hasta, &mut cola, 3).unwrap();
    assert_eq!((hasta, cola.len()), (4, 3));
    // The shop cannot close while orders wait.
    assert!(matches!(send_signal_poweroff_to_dispensers(&mut cola), Turno::Esperar));
    for esperado in [1, 2, 3] {
        match Dispenser::wait_pedido(&mut cola) {
            Turno::Listo(Some(o)) => assert_eq!(o.id, esperado),
            _ => panic!("an order was waiting"),
        }
    }
    assert!(matches!(Dispenser::wait_pedido(&mut cola), Turno::Esperar));
    assert!(matches!(send_signal_poweroff_to_dispensers(&mut cola), Turno::Listo(())));
    // Closed: every dispenser is told to stop, time and again.
    assert!(matches!(Dispenser::wait_pedido(&mut cola), Turno::Listo(None)));
    assert!(matches!(Dispenser::wait_pedido(&mut cola), Turno::Listo(None)));
    assert!(insert_orders(&orders, hasta, &mut cola, 3).is_err());
}

#[test]
fn the_reporter_collects_every_order_and_counts_the_completed() {
    let mut cola = FinishedOrders::new();
    let mut reporter = create_and_run_system_alert(3);
    assert!(matches!(reporter.process_finished_orders(&mut cola), Turno::Esperar));
    let mut a = Order::new_with_id(7, 0, 0, 0, 0);
    a.get_updated_status();
    let mut b = Order::new_with_id(8, 1, 0, 0, 0);
    b.set_no_enough_resource_container(IngredientType::CafeMolido);
    b.get_updated_status();
    // One dispenser: the queue takes two orders and makes the third wait.
    assert!(matches!(Dispenser::notify_order_finished(a, &mut cola, 1), Turno::Listo(())));
    assert!(matches!(Dispenser::notify_order_finished(b, &mut cola, 1), Turno::Listo(())));
    assert!(matches!(Dispenser::notify_order_finished(a, &mut cola, 1), Turno::Esperar));
    assert!(matches!(reporter.process_finished_orders(&mut cola), Turno::Esperar));
    assert_eq!(cola.len(), 0);
    assert!(matches!(Dispenser::notify_order_finished(a, &mut cola, 1), Turno::Listo(())));
    assert!(matches!(reporter.process_finished_orders(&mut cola), Turno::Listo(())));
    let ids: Vec<i64> = reporter.orders().iter().map(|o| o.id).collect();
    assert_eq!(ids, vec![7, 8, 7]);
    assert_eq!(reporter.completados(), 2);
    assert!(matches!(PeriodicAlert::wait_order(&mut cola), Turno::Esperar));
}

#[test]
fn the_report_tells_the_levels_in_hundredths() {
    let consts = Consts::con_valores(1000, 30, 100, 100, 50, 40, 10);
    let mut estados = ContainersStates::new(&consts);
    let mut containers = Conteiners::new(&consts).unwrap();
    let mut order = Order::new(0, 0, 10, 333);
    Dispenser::apply_container(&mut order, &mut estados, &mut containers, IngredientType::Cacao)
        .unwrap();
    Dispenser::apply_container(&mut order, &mut estados, &mut containers, IngredientType::Agua)
        .unwrap();
    let reporter = create_and_run_system_alert(1);
    let informe = reporter.run_periodic_alerts(&estados, &consts);
    let niveles: Vec<(IngredientType, u64)> =
        informe.conteiners.iter().map(|n| (n.tipo, n.porcentaje)).collect();
    assert_eq!(
        niveles,
        vec![
            (IngredientType::Agua, 66),
            (IngredientType::CafeMolido, 100),
            (IngredientType::EspumaLeche, 100),
            (IngredientType::Cacao, 66),
        ]
    );
    let recargas: Vec<(IngredientType, u64)> =
        informe.recargas.iter().map(|n| (n.tipo, n.porcentaje)).collect();
    assert_eq!(recargas, vec![(IngredientType::LecheFria, 100), (IngredientType::GranosCafe, 100)]);
    assert_eq!((informe.procesados, informe.completados, informe.ultimo), (0, 0, false));
}

#[test]
fn dispensers_are_numbered_from_zero() {
    let d = create_and_run_dispensers(3);
    let ids: Vec<usize> = d.iter().map(|d| d.id).collect();
    assert_eq!(ids, vec![0, 1, 2]);
}

fn aplicado(o: &Order, tipo: IngredientType) -> u64 {
    match o.ingredientes.get(tipo) {
        Some(IngredientStateOfOrder::Applied(v)) => v,
        _ => 0,
    }
}

#[test]
fn an_order_that_the_board_refuses_is_cancelled_as_it_stands() {
    let consts = consts_de_prueba(1);
    let init = init_elements("A5 M2 C1 E3\nA7 M4 C1 E2", &consts).unwrap();
    let mut states = init.states;
    let mut containers = init.containers;
    let mut finished = init.finished;
    let primera = init.orders_to_process[0];
    let segunda = init.orders_to_process[1];
    match Dispenser::process_order(primera, &mut states, &mut finished, &mut containers).unwrap() {
        Proceso::Terminado(o) => assert_eq!(o.status, OrderState::Completed),
        Proceso::Detenido(_) => panic!("nothing holds a container"),
    }
    assert_eq!(existencia(&containers, IngredientType::Cacao), 0);
    let molido = existencia(&containers, IngredientType::CafeMolido);
    let espuma = existencia(&containers, IngredientType::EspumaLeche);
    let agua = existencia(&containers, IngredientType::Agua);
    match Dispenser::process_order(segunda, &mut states, &mut finished, &mut containers).unwrap() {
        Proceso::Terminado(o) => {
            assert_eq!(o.status, OrderState::NoEnoughResourceContainer);
            assert_eq!(o.id, segunda.id);
            for tipo in [
                IngredientType::Agua,
                IngredientType::CafeMolido,
                IngredientType::EspumaLeche,
                IngredientType::Cacao,
            ] {
                assert_eq!(o.get(&tipo), segunda.get(&tipo));
                assert_eq!(aplicado(&o, tipo), 0);
            }
        }
        Proceso::Detenido(_) => panic!("nothing holds a container"),
    }
    assert_eq!(existencia(&containers, IngredientType::CafeMolido), molido);
    assert_eq!(existencia(&containers, IngredientType::EspumaLeche), espuma);
    assert_eq!(existencia(&containers, IngredientType::Agua), agua);
    assert_eq!(finished.len(), 2);
}

#[test]
fn an_order_for_more_than_a_container_holds_is_cancelled_by_that_container() {
    // 150 of ground coffee is more than the container takes; the rest of
    // the order may or may not have been applied before the refusal.
    let consts = consts_de_prueba(5);
    let init = init_elements("A5 M150 C1 E3", &consts).unwrap();
    let mut states = init.states;
    let mut containers = init.containers;
    let mut finished = init.finished;
    let order = init.orders_to_process[0];
    match Dispenser::process_order(order, &mut states, &mut finished, &mut containers).unwrap() {
        Proceso::Terminado(o) => {
            assert_eq!(o.status, OrderState::NoEnoughResourceContainer);
            assert_eq!(
                o.ingredientes.get(IngredientType::CafeMolido),
                Some(IngredientStateOfOrder::NoEnoughResourceContainer)
            );
            assert_eq!(existencia(&containers, IngredientType::CafeMolido), 200);
            assert_eq!(
                existencia(&containers, IngredientType::Cacao) + aplicado(&o, IngredientType::Cacao),
                5
            );
            assert_eq!(
                existencia(&containers, IngredientType::EspumaLeche)
                    + aplicado(&o, IngredientType::EspumaLeche),
                200
            );
        }
        Proceso::Detenido(_) => panic!("nothing holds a container"),
    }
}

#[test]
fn the_books_of_a_day_balance() {
    let consts = consts_de_prueba(3);
    let contents = "A5 M2 C1 E3\nA5 M5 C2 E2\nA10 M4 C1 E2\nA10 M2 C1 E3\nA15 M120 E1";
    let cierre = start(contents, &consts).unwrap();
    let hechos = cierre.system_alert.orders();
    assert_eq!(hechos.len(), 5);
    for (tipo, al_abrir) in [
        (IngredientType::CafeMolido, 200u64),
        (IngredientType::EspumaLeche, 200),
        (IngredientType::Cacao, 3),
    ] {
        let servido: u64 = hechos.iter().map(|o| aplicado(o, tipo)).sum();
        assert_eq!(existencia(&cierre.containers, tipo) + servido, al_abrir);
    }
    let estados: Vec<OrderState> = hechos.iter().map(|o| o.status).collect();
    assert_eq!(
        estados,
        vec![
            OrderState::Completed,
            OrderState::Completed,
            OrderState::NoEnoughResourceContainer,
            OrderState::NoEnoughResourceContainer,
            OrderState::NoEnoughResourceContainer,
        ]
    );
    // The orders that found the cocoa gone were cancelled as they stood.
    assert_eq!(aplicado(&hechos[2], IngredientType::CafeMolido), 0);
    assert_eq!(aplicado(&hechos[3], IngredientType::EspumaLeche), 0);
    assert_eq!(existencia(&cierre.containers, IngredientType::Cacao), 0);
}

#[test]
fn orders_are_numbered_as_they_are_asked_for() {
    let mut numerador = Numerador::new();
    let a = numerador.order(1, 2, 3, 4);
    let b = numerador.order(5, 0, 0, 0);
    let c = numerador.order(0, 0, 0, 9);
    assert_eq!((a.id, b.id, c.id), (0, 1, 2));
    assert_eq!(a.get(&IngredientType::CafeMolido), Some(1));
    assert_eq!(a.get(&IngredientType::EspumaLeche), Some(2));
    assert_eq!(a.get(&IngredientType::Cacao), Some(3));
    assert_eq!(a.get(&IngredientType::Agua), Some(4));
    assert_eq!(b.get(&IngredientType::Agua), None);
    assert_eq!(c.get(&IngredientType::Agua), Some(9));
    assert_eq!(Order::new(1, 2, 3, 4).id, 0);
}
