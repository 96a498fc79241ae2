use mountain_dispatch::courier::Courier;
use mountain_dispatch::order::DeliveryOrder;
use mountain_dispatch::text::{bool_to_str, u32_to_decimal};
use mountain_dispatch::utils::{find_by_id_mut, find_index};

#[test]
fn decimal_rendering() {
    assert_eq!(u32_to_decimal(0), "0");
    assert_eq!(u32_to_decimal(7), "7");
    assert_eq!(u32_to_decimal(10), "10");
    assert_eq!(u32_to_decimal(105), "105");
    assert_eq!(u32_to_decimal(90210), "90210");
    assert_eq!(u32_to_decimal(u32::MAX), "4294967295");
}

#[test]
fn boolean_words() {
    assert_eq!(bool_to_str(true), "true");
    assert_eq!(bool_to_str(false), "false");
}

#[test]
fn find_index_returns_the_first_match() {
    let couriers = vec![
        Courier::new(5, String::from("Ann"), 1000, false),
        Courier::new(9, String::from("Bea"), 2000, false),
        Courier::new(5, String::from("Cal"), 3000, false),
    ];
    assert_eq!(find_index(&couriers, 5), Some(0));
    assert_eq!(find_index(&couriers, 9), Some(1));
    assert_eq!(find_index(&couriers, 8), None);
}

#[test]
fn find_by_id_mut_hands_back_the_matching_entity() {
    let mut orders = vec![
        DeliveryOrder::new(101, String::from("Dan"), 5200),
        DeliveryOrder::new(102, String::from("Eve"), 300),
    ];
    {
        let hit = find_by_id_mut(&mut orders, 102, |o: &DeliveryOrder| o.id).unwrap();
        assert_eq!(hit.destination_altitude(), 300);
        hit.fail(String::from("storm"));
    }
    assert_eq!(orders[1].status_description(), "Провален: storm");
    assert!(find_by_id_mut(&mut orders, 404, |o: &DeliveryOrder| o.id).is_none());
}
