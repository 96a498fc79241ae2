use mountain_dispatch::order::{Cargo, DeliveryOrder, OrderStatus};
use mountain_dispatch::traits::{Identifiable, Loggable};

fn fragile_box() -> Cargo {
    Cargo { item_type: String::from("Electronics"), weight_grams: 2500, is_fragile: true }
}

fn sturdy_box() -> Cargo {
    Cargo { item_type: String::from("Groceries"), weight_grams: 8000, is_fragile: false }
}

#[test]
fn new_order_is_created_without_cargo() {
    let o = DeliveryOrder::new(101, String::from("Dan"), 5200);
    assert_eq!(o.id, 101);
    assert_eq!(o.id(), 101);
    assert_eq!(o.destination_altitude(), 5200);
    assert_eq!(*o.status(), OrderStatus::Created);
    assert!(!o.has_fragile_cargo());
    assert_eq!(o.get_courier_id(), None);
}

#[test]
fn happy_path_walks_the_statuses_in_order() {
    let mut o = DeliveryOrder::new(101, String::from("Dan"), 5200);
    assert!(o.assign(4));
    assert_eq!(*o.status(), OrderStatus::Assigned { courier_id: 4 });
    assert_eq!(o.get_courier_id(), Some(4));
    assert!(o.start_transit());
    assert_eq!(*o.status(), OrderStatus::InTransit);
    assert_eq!(o.get_courier_id(), None);
    assert!(o.complete());
    assert_eq!(*o.status(), OrderStatus::Delivered);
}

#[test]
fn out_of_sequence_transitions_are_rejected_without_effect() {
    let mut o = DeliveryOrder::new(101, String::from("Dan"), 5200);
    // Not assigned yet: cannot move forward past `Created`.
    assert!(!o.start_transit());
    assert_eq!(*o.status(), OrderStatus::Created);
    assert!(!o.complete());
    assert_eq!(*o.status(), OrderStatus::Created);

    assert!(o.assign(4));
    // Already assigned: a second assignment is rejected.
    assert!(!o.assign(9));
    assert_eq!(*o.status(), OrderStatus::Assigned { courier_id: 4 });
    assert!(!o.complete());
    assert_eq!(*o.status(), OrderStatus::Assigned { courier_id: 4 });

    assert!(o.start_transit());
    assert!(!o.start_transit());
    assert_eq!(*o.status(), OrderStatus::InTransit);

    assert!(o.complete());
    // Delivered is terminal on the happy path.
    assert!(!o.assign(4));
    assert!(!o.start_transit());
    assert!(!o.complete());
    assert_eq!(*o.status(), OrderStatus::Delivered);
}

#[test]
fn cargo_can_only_be_attached_while_created() {
    let mut o = DeliveryOrder::new(101, String::from("Dan"), 5200);
    assert!(!o.has_fragile_cargo());
    assert!(o.add_cargo(sturdy_box()));
    assert!(!o.has_fragile_cargo());
    // A second attachment overwrites the first.
    assert!(o.add_cargo(fragile_box()));
    assert!(o.has_fragile_cargo());

    assert!(o.assign(4));
    assert!(!o.add_cargo(sturdy_box()));
    assert!(o.has_fragile_cargo());
}

#[test]
fn fail_overwrites_any_state() {
    let mut o = DeliveryOrder::new(101, String::from("Dan"), 5200);
    o.fail(String::from("storm"));
    assert_eq!(*o.status(), OrderStatus::Failed { reason: String::from("storm") });
    // No transition leaves `Failed`.
    assert!(!o.assign(4));
    assert!(!o.start_transit());
    assert!(!o.complete());

    let mut d = DeliveryOrder::new(102, String::from("Eve"), 100);
    assert!(d.assign(1));
    assert!(d.start_transit());
    assert!(d.complete());
    d.fail(String::from("lost"));
    assert_eq!(*d.status(), OrderStatus::Failed { reason: String::from("lost") });
}

#[test]
fn status_descriptions_render_each_state() {
    let mut o = DeliveryOrder::new(101, String::from("Dan"), 5200);
    assert_eq!(o.status_description(), "Создан");
    assert!(o.assign(205));
    assert_eq!(o.status_description(), "Назначен курьеру 205");
    assert!(o.start_transit());
    assert_eq!(o.status_description(), "В пути");
    assert!(o.complete());
    assert_eq!(o.status_description(), "Доставлен");
    o.fail(String::from("avalanche"));
    assert_eq!(o.status_description(), "Провален: avalanche");
}

#[test]
fn order_log_line() {
    let mut o = DeliveryOrder::new(4061, String::from("Dan"), 5200);
    assert_eq!(o.log_info(), "ORDER[4061] Создан");
    assert!(o.assign(0));
    assert_eq!(o.log_info(), "ORDER[4061] Назначен курьеру 0");
}
