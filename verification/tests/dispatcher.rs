use std::sync::mpsc::{channel, Receiver, Sender};

use restaurant::dispatcher::{Dispatcher, Outcome};
use restaurant::types::{MenuItem, Order, OrderId, Reply, Request, Table, TableId};

fn tables_of(dispatcher: &mut Dispatcher) -> Vec<Table> {
    match dispatcher.handle(Request::GetTables).reply {
        Reply::Tables(tables) => tables,
        other => panic!("unexpected reply {:?}", other),
    }
}

fn menu_of(dispatcher: &mut Dispatcher) -> Vec<MenuItem> {
    match dispatcher.handle(Request::GetMenuItems).reply {
        Reply::MenuItems(items) => items,
        other => panic!("unexpected reply {:?}", other),
    }
}

fn post(dispatcher: &mut Dispatcher, table: &Table, item: &MenuItem) -> Order {
    match dispatcher.handle(Request::PostOrder(table.uid, item.uid)).reply {
        Reply::Order(order) => order,
        other => panic!("unexpected reply {:?}", other),
    }
}

fn orders_of(dispatcher: &mut Dispatcher, table: TableId) -> Vec<Order> {
    match dispatcher.handle(Request::GetOrders(table)).reply {
        Reply::Orders(orders) => orders,
        other => panic!("unexpected reply {:?}", other),
    }
}

fn order_of(dispatcher: &mut Dispatcher, table: TableId, id: OrderId) -> Option<Order> {
    match dispatcher.handle(Request::GetOrder(table, id)).reply {
        Reply::MaybeOrder(order) => order,
        other => panic!("unexpected reply {:?}", other),
    }
}

fn delete(dispatcher: &mut Dispatcher, id: OrderId) -> Outcome {
    dispatcher.handle(Request::DeleteOrder(id))
}

fn same_order(a: &Order, b: &Order) -> bool {
    a.uid == b.uid
        && a.table_id == b.table_id
        && a.menu_item_id == b.menu_item_id
        && a.cook_time_minutes == b.cook_time_minutes
}

#[test]
fn tablet_post_request_should_store_order() {
    let mut dispatcher = Dispatcher::new(1, 0);
    let table = *tables_of(&mut dispatcher).first().unwrap();
    let menu_item = *menu_of(&mut dispatcher).first().unwrap();

    post(&mut dispatcher, &table, &menu_item);

    let table_orders = orders_of(&mut dispatcher, table.uid);
    let new_order = table_orders.first().unwrap();

    assert_eq!(table_orders.len(), 1);
    assert_eq!(new_order.table_id, table.uid);
    assert_eq!(new_order.menu_item_id, menu_item.uid);
    assert!(new_order.cook_time_minutes >= 5 && new_order.cook_time_minutes <= 15);
}

#[test]
fn tablet_delete_request_should_remove_order() {
    let mut dispatcher = Dispatcher::new(1, 0);
    let table = *tables_of(&mut dispatcher).first().unwrap();
    let items = menu_of(&mut dispatcher);

    let orders: Vec<Order> = items
        .iter()
        .map(|item| post(&mut dispatcher, &table, item))
        .collect();
    let target_order = orders.first().unwrap();
    delete(&mut dispatcher, target_order.uid);

    let table_orders = orders_of(&mut dispatcher, table.uid);
    assert_eq!(table_orders.len(), 4);
    table_orders.iter().for_each(|order| {
        assert_ne!(order.uid, target_order.uid);
    });
}

#[test]
fn tablet_get_table_orders_request_should_return_all_table_orders() {
    let mut dispatcher = Dispatcher::new(1, 1);
    let table = *tables_of(&mut dispatcher).first().unwrap();
    let items = menu_of(&mut dispatcher);

    items.iter().for_each(|item| {
        post(&mut dispatcher, &table, item);
    });

    let table_orders = orders_of(&mut dispatcher, table.uid);

    assert_eq!(table_orders.len(), items.len());
    assert_eq!(table_orders.len(), 5);
    table_orders.iter().for_each(|order| {
        assert_eq!(order.table_id, table.uid);
    });
}

#[test]
fn tablet_get_table_order_request_should_return_target_table_orders() {
    let mut dispatcher = Dispatcher::new(1, 0);
    let table = *tables_of(&mut dispatcher).first().unwrap();
    let menu_item = *menu_of(&mut dispatcher).first().unwrap();

    let created_order = post(&mut dispatcher, &table, &menu_item);

    let target_order = order_of(&mut dispatcher, table.uid, created_order.uid).unwrap();

    assert_eq!(target_order.uid, created_order.uid);
    assert_eq!(target_order.menu_item_id, menu_item.uid);
    assert_eq!(target_order.table_id, table.uid);
}

#[test]
fn tablet_api_should_handle_simultaneous_requests() {
    let tablet_count: usize = 10;
    let mut dispatcher = Dispatcher::new(1, 0);
    let table = *tables_of(&mut dispatcher).first().unwrap();
    let items = menu_of(&mut dispatcher);
    let items_count = items.len();

    // Ten tablets have the whole menu in flight at once: every request waits
    // in the one queue, together with the channel for its reply, until the
    // dispatcher gets to it.
    let (tx, rx) = channel::<(Request, Sender<Reply>)>();
    let mut waiting: Vec<Receiver<Reply>> = Vec::new();
    for item in items.iter() {
        for _ in 0..tablet_count {
            let sender = tx.clone();
            let (reply_tx, reply_rx) = channel::<Reply>();
            sender.send((Request::PostOrder(table.uid, item.uid), reply_tx)).unwrap();
            waiting.push(reply_rx);
        }
    }
    drop(tx);
    while let Ok((request, reply_to)) = rx.recv() {
        let outcome = dispatcher.handle(request);
        reply_to.send(outcome.reply).unwrap();
    }
    for reply_rx in waiting.iter() {
        assert!(matches!(reply_rx.recv().unwrap(), Reply::Order(_)));
        assert!(reply_rx.try_recv().is_err());
    }

    let resulting_orders = orders_of(&mut dispatcher, table.uid);
    let expected_count = tablet_count * items_count;
    assert_eq!(expected_count, resulting_orders.len());
    assert_eq!(resulting_orders.len(), 50);
}

#[test]
fn interleaved_posts_are_all_kept() {
    let tablet_count: usize = 10;
    let mut dispatcher = Dispatcher::new(1, 0);
    let table = *tables_of(&mut dispatcher).first().unwrap();
    let items = menu_of(&mut dispatcher);

    for item in items.iter() {
        for _ in 0..tablet_count {
            post(&mut dispatcher, &table, item);
        }
    }

    let resulting_orders = orders_of(&mut dispatcher, table.uid);
    assert_eq!(resulting_orders.len(), 50);
    for item in items.iter() {
        let of_item = resulting_orders.iter().filter(|order| order.menu_item_id == item.uid);
        assert_eq!(of_item.count(), 10);
    }
}

#[test]
fn new_dispatcher_has_tables_menu_and_no_orders() {
    let mut dispatcher = Dispatcher::new(3, 0);
    assert_eq!(dispatcher.served(), 0);
    let tables = tables_of(&mut dispatcher);
    assert_eq!(tables.len(), 3);
    let menu = menu_of(&mut dispatcher);
    assert_eq!(menu.len(), 5);
    for table in tables.iter() {
        assert!(orders_of(&mut dispatcher, table.uid).is_empty());
    }
    assert_eq!(dispatcher.served(), 5);
}

#[test]
fn dispatcher_without_tables_lists_none() {
    let mut dispatcher = Dispatcher::new(0, 0);
    assert!(tables_of(&mut dispatcher).is_empty());
    assert_eq!(menu_of(&mut dispatcher).len(), 5);
}

#[test]
fn posted_order_is_returned_and_observed() {
    let mut dispatcher = Dispatcher::new(2, 0);
    let tables = tables_of(&mut dispatcher);
    let menu = menu_of(&mut dispatcher);
    let posted = post(&mut dispatcher, &tables[1], &menu[2]);
    assert_eq!(posted.table_id, tables[1].uid);
    assert_eq!(posted.menu_item_id, menu[2].uid);

    let listed = orders_of(&mut dispatcher, tables[1].uid);
    assert!(listed.iter().any(|order| same_order(order, &posted)));
    let found = order_of(&mut dispatcher, tables[1].uid, posted.uid).unwrap();
    assert!(same_order(&found, &posted));
}

#[test]
fn posted_order_is_not_found_under_another_table() {
    let mut dispatcher = Dispatcher::new(2, 0);
    let tables = tables_of(&mut dispatcher);
    let menu = menu_of(&mut dispatcher);
    let posted = post(&mut dispatcher, &tables[0], &menu[0]);

    assert!(order_of(&mut dispatcher, tables[0].uid, posted.uid).is_some());
    assert!(order_of(&mut dispatcher, tables[1].uid, posted.uid).is_none());
    assert!(orders_of(&mut dispatcher, tables[1].uid).is_empty());
}

#[test]
fn post_order_accepts_unknown_table_and_item() {
    let mut dispatcher = Dispatcher::new(1, 0);
    let stranger = TableId(42);
    let reply = dispatcher
        .handle(Request::PostOrder(stranger, restaurant::types::MenuItemId(7)))
        .reply;
    let posted = match reply {
        Reply::Order(order) => order,
        other => panic!("unexpected reply {:?}", other),
    };
    assert_eq!(posted.table_id, stranger);
    assert_eq!(posted.menu_item_id, restaurant::types::MenuItemId(7));
    assert_eq!(orders_of(&mut dispatcher, stranger).len(), 1);
}

#[test]
fn deleting_twice_is_acknowledged_both_times() {
    let mut dispatcher = Dispatcher::new(1, 0);
    let table = tables_of(&mut dispatcher)[0];
    let menu = menu_of(&mut dispatcher);
    let posted = post(&mut dispatcher, &table, &menu[0]);
    let kept = post(&mut dispatcher, &table, &menu[1]);

    assert!(matches!(delete(&mut dispatcher, posted.uid).reply, Reply::Deleted));
    assert!(order_of(&mut dispatcher, table.uid, posted.uid).is_none());
    assert!(matches!(delete(&mut dispatcher, posted.uid).reply, Reply::Deleted));
    assert!(order_of(&mut dispatcher, table.uid, posted.uid).is_none());

    let left = orders_of(&mut dispatcher, table.uid);
    assert_eq!(left.len(), 1);
    assert!(same_order(&left[0], &kept));
}

#[test]
fn deleting_an_unknown_order_is_acknowledged() {
    let mut dispatcher = Dispatcher::new(1, 0);
    let table = tables_of(&mut dispatcher)[0];
    let menu = menu_of(&mut dispatcher);
    post(&mut dispatcher, &table, &menu[0]);
    assert!(matches!(delete(&mut dispatcher, OrderId(1)).reply, Reply::Deleted));
    assert_eq!(orders_of(&mut dispatcher, table.uid).len(), 1);
}

#[test]
fn get_of_an_unknown_order_is_empty() {
    let mut dispatcher = Dispatcher::new(1, 0);
    let table = tables_of(&mut dispatcher)[0];
    assert!(order_of(&mut dispatcher, table.uid, OrderId(1)).is_none());
}

#[test]
fn menu_items_have_quoted_cook_times() {
    let mut dispatcher = Dispatcher::new(1, 0);
    let menu = menu_of(&mut dispatcher);
    let names: Vec<&str> = menu.iter().map(|item| item.name).collect();
    assert_eq!(names, vec!["Ramen", "Soba", "Udon", "Tendon", "Katsudon"]);
    for item in menu.iter() {
        assert!(item.cook_time_minutes >= 5 && item.cook_time_minutes <= 15);
    }
}

#[test]
fn snapshots_are_independent_of_the_store() {
    let mut dispatcher = Dispatcher::new(2, 0);
    let mut tables = tables_of(&mut dispatcher);
    let mut menu = menu_of(&mut dispatcher);
    let table = tables[0];
    let posted = post(&mut dispatcher, &table, &menu[0]);

    let mut orders = orders_of(&mut dispatcher, table.uid);
    orders[0].uid = OrderId(0);
    orders[0].cook_time_minutes = 99;
    orders.clear();
    tables.pop();
    tables[0].uid = TableId(0);
    menu.truncate(1);
    menu[0].name = "Water";

    let again = orders_of(&mut dispatcher, table.uid);
    assert_eq!(again.len(), 1);
    assert!(same_order(&again[0], &posted));
    let tables_again = tables_of(&mut dispatcher);
    assert_eq!(tables_again.len(), 2);
    assert_eq!(tables_again[0].uid, table.uid);
    let menu_again = menu_of(&mut dispatcher);
    assert_eq!(menu_again.len(), 5);
    assert_eq!(menu_again[0].name, "Ramen");
}

#[test]
fn tables_and_menu_are_stable_across_calls() {
    let mut dispatcher = Dispatcher::new(4, 0);
    let tables = tables_of(&mut dispatcher);
    let menu = menu_of(&mut dispatcher);
    post(&mut dispatcher, &tables[0], &menu[0]);
    let tables_again = tables_of(&mut dispatcher);
    let menu_again = menu_of(&mut dispatcher);
    let ids: Vec<TableId> = tables.iter().map(|table| table.uid).collect();
    let ids_again: Vec<TableId> = tables_again.iter().map(|table| table.uid).collect();
    assert_eq!(ids, ids_again);
    for (a, b) in menu.iter().zip(menu_again.iter()) {
        assert_eq!(a.uid, b.uid);
        assert_eq!(a.name, b.name);
        assert_eq!(a.cook_time_minutes, b.cook_time_minutes);
    }
}

#[test]
fn requests_are_served_in_the_order_given() {
    let mut dispatcher = Dispatcher::new(1, 0);
    let table = tables_of(&mut dispatcher)[0];
    let menu = menu_of(&mut dispatcher);
    let first = post(&mut dispatcher, &table, &menu[0]);
    let seen = orders_of(&mut dispatcher, table.uid);
    assert_eq!(seen.len(), 1);
    delete(&mut dispatcher, first.uid);
    assert!(orders_of(&mut dispatcher, table.uid).is_empty());
    assert_eq!(dispatcher.served(), 6);
}

#[test]
fn progress_is_due_at_every_multiple_of_the_interval() {
    let mut dispatcher = Dispatcher::new(1, 10000);
    for _ in 0..9999 {
        assert_eq!(dispatcher.handle(Request::GetTables).progress, None);
    }
    assert_eq!(dispatcher.handle(Request::GetTables).progress, Some(10000));
    assert_eq!(dispatcher.handle(Request::GetTables).progress, None);
    for _ in 0..9998 {
        assert_eq!(dispatcher.handle(Request::GetMenuItems).progress, None);
    }
    assert_eq!(dispatcher.handle(Request::GetMenuItems).progress, Some(20000));
    assert_eq!(dispatcher.served(), 20000);
}

#[test]
fn progress_is_never_due_with_interval_zero() {
    let mut dispatcher = Dispatcher::new(1, 0);
    for _ in 0..100 {
        assert_eq!(dispatcher.handle(Request::GetTables).progress, None);
    }
}

#[test]
fn progress_is_due_every_time_with_interval_one() {
    let mut dispatcher = Dispatcher::new(1, 1);
    assert_eq!(dispatcher.handle(Request::GetTables).progress, Some(1));
    assert_eq!(dispatcher.handle(Request::GetTables).progress, Some(2));
    assert_eq!(dispatcher.handle(Request::DeleteOrder(OrderId(3))).progress, Some(3));
}
