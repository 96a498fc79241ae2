use mountain_dispatch::courier::Courier;
use mountain_dispatch::traits::{Identifiable, Loggable};

#[test]
fn new_courier_starts_available_at_base() {
    let c = Courier::new(7, String::from("Ann"), 4200, false);
    assert_eq!(c.id, 7);
    assert_eq!(c.id(), 7);
    assert_eq!(c.get_name(), "Ann");
    assert_eq!(c.current_altitude, 0);
    assert_eq!(c.get_max_altitude(), 4200);
    assert!(c.get_is_available());
    assert!(!c.get_can_handle_fragile());
}

#[test]
fn can_deliver_depends_on_availability_altitude_and_fragility() {
    let c = Courier::new(1, String::from("Ann"), 5000, false);
    // Available, low enough, no fragile cargo: eligible.
    assert!(c.can_deliver_to(5000, false));
    assert!(c.can_deliver_to(0, false));
    // Altitude above the ceiling: not eligible.
    assert!(!c.can_deliver_to(5001, false));
    // Fragile cargo without the capability: not eligible.
    assert!(!c.can_deliver_to(4000, true));

    let f = Courier::new(2, String::from("Bea"), 5000, true);
    // Fragile cargo with the capability: eligible.
    assert!(f.can_deliver_to(4000, true));

    let mut busy = Courier::new(3, String::from("Cal"), 5000, true);
    busy.assign_to_order(1000);
    // Unavailable couriers are never eligible.
    assert!(!busy.can_deliver_to(500, false));
}

#[test]
fn assign_to_order_marks_busy_at_destination() {
    let mut c = Courier::new(1, String::from("Ann"), 5000, true);
    assert!(c.assign_to_order(3300));
    assert_eq!(c.current_altitude, 3300);
    assert!(!c.get_is_available());
    assert_eq!(c.get_max_altitude(), 5000);
    assert!(c.get_can_handle_fragile());
}

#[test]
fn complete_delivery_returns_to_base() {
    let mut c = Courier::new(1, String::from("Ann"), 5000, true);
    c.assign_to_order(3300);
    c.complete_delivery();
    assert_eq!(c.current_altitude, 0);
    assert!(c.get_is_available());
}

#[test]
fn courier_log_line() {
    let c = Courier::new(12, String::from("Ann"), 5000, true);
    assert_eq!(c.log_info(), "COURIER[12] Ann (max_alt: 5000, available: true)");
    let mut b = Courier::new(3, String::from("Bea"), 800, false);
    b.assign_to_order(750);
    assert_eq!(b.log_info(), "COURIER[3] Bea (max_alt: 800, available: false)");
}
