use cafeteria::enums::{IngredientType, OrderState, StateOfConteiner};
use cafeteria::order::Order;
use cafeteria::set_conteiners::infinity_conteiner::InfinityConteiner;
use cafeteria::set_conteiners::no_rechargable_conteiner::NoRechargableConteiner;
use cafeteria::set_conteiners::rechargable_conteiner::RechargableConteiner;
use cafeteria::traits::{Aplicacion, ApplyContainer, ProcessApply, ProcessRecharge};

#[test]
fn infinity_conteiner_test1_applying_ingredient_from_container_to_order() {
    let mut real = InfinityConteiner::new(IngredientType::Agua, 100);
    let mut order = Order::new(10, 10, 10, 10);
    assert_eq!(order.get_updated_status(), OrderState::InProgress);

    real.apply_ingredient(&mut order);
    assert_eq!(real.quantity, 90);
}

#[test]
fn infinity_conteiner_test2_applying_ingredient_from_container_to_order_with_reloaded_conteiner() {
    let mut real = InfinityConteiner::new(IngredientType::Agua, 100);

    for _ in 0..10 {
        let mut order = Order::new(10, 10, 10, 10);
        real.apply_ingredient(&mut order);
        assert_eq!(order.get_updated_status(), OrderState::InProgress);
    }

    assert_eq!(real.quantity, 0);

    let mut order = Order::new(10, 10, 10, 10);

    real.apply_ingredient(&mut order);

    assert_eq!(real.quantity, 90);
    assert_eq!(order.get_updated_status(), OrderState::InProgress);
}

#[test]
fn infinity_conteiner_test3_ingredient_not_apply_if_exceeds_capacity_of_conteiner() {
    let mut real = InfinityConteiner::new(IngredientType::Agua, 100);
    let mut order: Order = Order::new(10, 10, 10, 101);
    assert_eq!(order.get_updated_status(), OrderState::InProgress);

    real.apply_ingredient(&mut order);

    assert_eq!(real.quantity, 100);
    assert_eq!(
        order.get_updated_status(),
        OrderState::NoEnoughResourceContainer
    );
}

#[test]
fn no_rechargable_conteiner_test1_applying_ingredient_from_container_to_order() {
    let mut real = NoRechargableConteiner::new(IngredientType::Cacao, 100);
    let mut order = Order::new(10, 10, 10, 10);

    real.apply_ingredient(&mut order);
    assert_eq!(real.quantity, 90);
    assert_eq!(order.get_updated_status(), OrderState::InProgress);
}

#[test]
fn test2_container_is_not_recharged_when_full_amount_is_consumed() {
    let mut real = NoRechargableConteiner::new(IngredientType::Cacao, 100);

    for _ in 0..10 {
        let mut order = Order::new(10, 10, 10, 10);
        real.apply_ingredient(&mut order);
        assert_eq!(order.get_updated_status(), OrderState::InProgress);
    }

    assert_eq!(real.quantity, 0);

    let mut order = Order::new(10, 10, 10, 10);
    real.apply_ingredient(&mut order);

    assert_eq!(real.quantity, 0);
    assert_eq!(
        order.get_updated_status(),
        OrderState::NoEnoughResourceContainer
    );
    assert_eq!(real.state, StateOfConteiner::NoEnoughResource);
}

#[test]
fn no_rechargable_conteiner_test3_ingredient_not_apply_if_exceeds_capacity_of_conteiner() {
    let mut real = NoRechargableConteiner::new(IngredientType::Cacao, 100);
    let mut order: Order = Order::new(10, 10, 101, 10);

    real.apply_ingredient(&mut order);

    assert_eq!(real.quantity, 100);
    assert_eq!(
        order.get_updated_status(),
        OrderState::NoEnoughResourceContainer
    );
}

#[test]
fn rechargable_conteiner_test1_applying_ingredient_from_container_to_order() {
    let mut real = RechargableConteiner::new(
        IngredientType::CafeMolido,
        100,
        (IngredientType::GranosCafe, 300),
    );
    let mut order = Order::new(50, 10, 10, 10);
    assert_eq!(order.get_updated_status(), OrderState::InProgress);

    real.apply_ingredient(&mut order);
    assert_eq!(real.quantity, 50);
    assert_eq!(order.get_updated_status(), OrderState::InProgress);
}

#[test]
fn rechargable_conteiner_test2_applying_ingredient_from_container_to_order_with_reloaded_conteiner()
{
    let mut real = RechargableConteiner::new(
        IngredientType::CafeMolido,
        100,
        (IngredientType::GranosCafe, 300),
    );
    assert_eq!(real.quantity_to_recharge.1, 300);

    let mut order = Order::new(100, 10, 10, 10);
    real.apply_ingredient(&mut order);
    assert_eq!(real.quantity, 0);
    assert_eq!(order.get_updated_status(), OrderState::InProgress);

    let mut order = Order::new(50, 10, 10, 10);

    real.apply_ingredient(&mut order);

    assert_eq!(real.quantity, 50);
    assert_eq!(real.quantity_to_recharge.1, 200);
    assert_eq!(order.get_updated_status(), OrderState::InProgress);
}

#[test]
fn rechargable_conteiner_test3_ingredient_not_apply_if_exceeds_capacity_of_conteiner() {
    let mut real = RechargableConteiner::new(
        IngredientType::CafeMolido,
        100,
        (IngredientType::GranosCafe, 300),
    );
    let mut order: Order = Order::new(110, 10, 10, 101);
    assert_eq!(order.get_updated_status(), OrderState::InProgress);

    real.apply_ingredient(&mut order);

    assert_eq!(real.quantity, 100);
    assert_eq!(
        order.get_updated_status(),
        OrderState::NoEnoughResourceContainer
    );
}

#[test]
fn test4_applying_ingredient_from_container_to_order_with_reloaded_conteiner() {
    let mut real = RechargableConteiner::new(
        IngredientType::CafeMolido,
        100,
        (IngredientType::GranosCafe, 300),
    );
    let mut order: Order = Order::new(50, 10, 10, 101);

    real.apply_ingredient(&mut order);
    assert_eq!(real.quantity, 50);
    assert_eq!(real.quantity_to_recharge.1, 300);
    assert_eq!(order.get_updated_status(), OrderState::InProgress);

    let mut order: Order = Order::new(100, 10, 10, 101);

    real.apply_ingredient(&mut order);
    assert_eq!(real.quantity, 0);
    assert_eq!(real.quantity_to_recharge.1, 250);
    assert_eq!(order.get_updated_status(), OrderState::InProgress);
}

#[test]
fn test5_container_without_quantity_available_and_quantity_to_recharge_then_can_not_apply_ingredients_in_orders(
) {
    let mut conteiner_coffe = RechargableConteiner::new(
        IngredientType::CafeMolido,
        100,
        (IngredientType::GranosCafe, 100),
    );
    let mut order: Order = Order::new(100, 10, 10, 101);

    conteiner_coffe.apply_ingredient(&mut order);
    assert_eq!(conteiner_coffe.quantity, 0);
    assert_eq!(conteiner_coffe.quantity_to_recharge.1, 100);
    assert_eq!(conteiner_coffe.state, StateOfConteiner::Free);
    assert_eq!(order.get_updated_status(), OrderState::InProgress);

    let mut order: Order = Order::new(100, 10, 10, 101);

    conteiner_coffe.apply_ingredient(&mut order);
    assert_eq!(conteiner_coffe.quantity, 0);
    assert_eq!(conteiner_coffe.quantity_to_recharge.1, 0);
    assert_eq!(conteiner_coffe.state, StateOfConteiner::NoEnoughResource);
    assert_eq!(order.get_updated_status(), OrderState::InProgress);

    let mut order: Order = Order::new(100, 10, 10, 101);
    assert_eq!(order.get_updated_status(), OrderState::InProgress);

    conteiner_coffe.apply_ingredient(&mut order);
    assert_eq!(conteiner_coffe.quantity, 0);
    assert_eq!(conteiner_coffe.quantity_to_recharge.1, 0);
    assert_eq!(conteiner_coffe.state, StateOfConteiner::NoEnoughResource);
    assert_eq!(
        order.get_updated_status(),
        OrderState::NoEnoughResourceContainer
    );
}

#[test]
fn rechargable_partial_reload_takes_the_whole_stock() {
    // 40 in the container after the first order, 30 in stock: the stock
    // cannot fill the container, and goes into it whole.
    let mut c = RechargableConteiner::new(
        IngredientType::EspumaLeche,
        100,
        (IngredientType::LecheFria, 30),
    );
    let mut order = Order::new(0, 60, 0, 0);
    let r = c.apply_ingredient(&mut order);
    assert_eq!(r, Aplicacion { recargado: false, aplicado: 60, negado: false });
    assert_eq!((c.quantity, c.quantity_to_recharge.1), (40, 30));

    let mut order = Order::new(0, 70, 0, 0);
    let r = c.apply_ingredient(&mut order);
    assert_eq!(r, Aplicacion { recargado: true, aplicado: 70, negado: false });
    assert_eq!((c.quantity, c.quantity_to_recharge.1), (0, 0));
    assert_eq!(c.state, StateOfConteiner::NoEnoughResource);
    assert_eq!(order.get_updated_status(), OrderState::Completed);
}

#[test]
fn rechargable_refuses_what_container_and_stock_cannot_give() {
    let mut c = RechargableConteiner::new(
        IngredientType::EspumaLeche,
        100,
        (IngredientType::LecheFria, 10),
    );
    let mut order = Order::new(0, 95, 0, 0);
    c.apply_ingredient(&mut order);
    assert_eq!((c.quantity, c.quantity_to_recharge.1), (5, 10));
    let mut order = Order::new(0, 16, 0, 0);
    let r = c.apply_ingredient(&mut order);
    assert_eq!(r, Aplicacion { recargado: false, aplicado: 0, negado: true });
    assert_eq!((c.quantity, c.quantity_to_recharge.1), (5, 10));
    assert_eq!(c.state, StateOfConteiner::Free);
    assert_eq!(c.get_statistic(IngredientType::EspumaLeche), Some(15));
    assert_eq!(c.get_statistic(IngredientType::Agua), None);
}

#[test]
fn container_leaves_alone_an_order_that_does_not_ask_for_its_ingredient() {
    let mut c = NoRechargableConteiner::new(IngredientType::Cacao, 5);
    let mut order = Order::new(1, 1, 0, 1);
    let antes = order;
    let r = c.apply_ingredient(&mut order);
    assert_eq!(r, Aplicacion { recargado: false, aplicado: 0, negado: false });
    assert_eq!(c.quantity, 5);
    assert_eq!(order.get(&IngredientType::Cacao), antes.get(&IngredientType::Cacao));
    assert_eq!(order.get_updated_status(), OrderState::InProgress);
}

#[test]
fn conservation_of_a_container_that_is_never_refilled() {
    let mut c = NoRechargableConteiner::new(IngredientType::Cacao, 20);
    let mut aplicado = 0;
    for pedido in [3u64, 7, 0, 9, 4, 1, 1] {
        let mut order = Order::new(0, 0, pedido, 0);
        aplicado += c.apply_ingredient(&mut order).aplicado;
    }
    // 3 + 7 + 9 are served, 4 is refused, then 1 is served; the last 1 is
    // refused by the empty container.
    assert_eq!(aplicado, 20);
    assert_eq!(20 - c.quantity, aplicado);
    assert_eq!(c.state, StateOfConteiner::NoEnoughResource);
}

#[test]
fn times_of_applying_and_refilling() {
    let mut c = InfinityConteiner::new(IngredientType::Agua, 100);
    assert_eq!(c.process_apply(15), 15);
    assert_eq!(c.process_recharge(), 10);
}

#[test]
fn a_refilled_container_never_gives_more_than_it_and_its_stock_held() {
    let mut c = RechargableConteiner::new(
        IngredientType::CafeMolido,
        50,
        (IngredientType::GranosCafe, 70),
    );
    let mut aplicado = 0;
    for pedido in [30u64, 30, 51, 40, 25, 10, 1] {
        let mut order = Order::new(pedido, 0, 0, 0);
        aplicado += c.apply_ingredient(&mut order).aplicado;
        assert!(aplicado <= 50 + 70);
        assert_eq!(c.quantity + c.quantity_to_recharge.1 + aplicado, 50 + 70);
    }
    // 30, 30 and 40 are served; 51 is above the capacity; 25 is more than
    // the 20 left; 10 and 1 are served.
    assert_eq!(aplicado, 111);
    assert_eq!(c.get_statistic(IngredientType::CafeMolido), Some(9));
}
