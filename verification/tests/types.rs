use restaurant::types::{
    MenuItem, MenuItemId, Order, OrderId, Table, TableId, MAX_COOK_MINUTES, MIN_COOK_MINUTES,
};

fn is_random_uuid(value: u128) -> bool {
    (value >> 76) & 0xf == 4 && (value >> 62) & 0x3 == 2
}

#[test]
fn cook_times_are_quoted_between_five_and_fifteen() {
    assert_eq!(MIN_COOK_MINUTES, 5);
    assert_eq!(MAX_COOK_MINUTES, 15);
}

#[test]
fn fresh_identifiers_are_random_uuids() {
    for _ in 0..100 {
        assert!(is_random_uuid(MenuItemId::default().0));
        assert!(is_random_uuid(OrderId::default().0));
        assert!(is_random_uuid(TableId::default().0));
        assert!(is_random_uuid(Table::default().uid.0));
    }
}

#[test]
fn fresh_identifiers_differ() {
    let mut seen: Vec<u128> = (0..200).map(|_| OrderId::default().0).collect();
    seen.sort();
    seen.dedup();
    assert_eq!(seen.len(), 200);
    assert_ne!(TableId::default(), TableId::default());
    assert_ne!(MenuItemId::default(), MenuItemId::default());
}

#[test]
fn identifiers_compare_by_value() {
    assert_eq!(OrderId(3), OrderId(3));
    assert_ne!(OrderId(3), OrderId(4));
    assert_eq!(TableId(3), TableId(3));
    assert_ne!(MenuItemId(3), MenuItemId(4));
}

#[test]
fn new_menu_item_keeps_its_name() {
    let mut seen = [false; 11];
    for _ in 0..2000 {
        let item = MenuItem::new("Udon");
        assert_eq!(item.name, "Udon");
        assert!(is_random_uuid(item.uid.0));
        assert!(item.cook_time_minutes >= 5 && item.cook_time_minutes <= 15);
        seen[(item.cook_time_minutes - 5) as usize] = true;
    }
    assert_eq!(seen, [true; 11]);
}

#[test]
fn new_order_keeps_table_and_item() {
    let mut seen = [false; 11];
    for _ in 0..2000 {
        let order = Order::new(TableId(1), MenuItemId(2));
        assert_eq!(order.table_id, TableId(1));
        assert_eq!(order.menu_item_id, MenuItemId(2));
        assert!(is_random_uuid(order.uid.0));
        assert!(order.cook_time_minutes >= 5 && order.cook_time_minutes <= 15);
        seen[(order.cook_time_minutes - 5) as usize] = true;
    }
    assert_eq!(seen, [true; 11]);
}

#[test]
fn new_orders_get_different_identifiers() {
    let a = Order::new(TableId(1), MenuItemId(2));
    let b = Order::new(TableId(1), MenuItemId(2));
    assert_ne!(a.uid, b.uid);
}
