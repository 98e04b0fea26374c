//! The tablet: a simulated client that keeps the dispatcher busy.
//!
//! A tablet first fetches the tables and the menu. Then, turn after turn, it
//! picks a table, fetches the orders of that table, and lets
//! `next_requests` decide what to ask next. Sending the requests, and waiting
//! between turns, is left to whoever drives the tablet.

use vstd::prelude::*;
use crate::random::{choose_one, random_between};
use crate::types::{MenuItem, Order, Request, Table, TableId};

verus! {

/// The number of orders from which a tablet clears the table.
pub const DRAIN_THRESHOLD: usize = 9;

/// What a tablet does on one turn.
#[derive(Copy, Clone, Debug, PartialEq, Eq, Structural)]
pub enum Activity {
    /// Place a new order.
    Post,
    /// Look up one of the orders of the table.
    Inspect,
    /// Remove one of the orders of the table.
    Remove,
    /// Remove every order of the table.
    Drain,
}

/// The activity for a table with `order_count` orders, given a die `roll`.
///
/// An empty table gets an order, and a table with `DRAIN_THRESHOLD` orders or
/// more is cleared; the roll plays no part in either. In between, a roll of
/// one inspects, a roll of two removes, and any other roll posts.
pub open spec fn activity_for(order_count: nat, roll: u64) -> Activity {
    if order_count == 0 {
        Activity::Post
    } else if order_count < DRAIN_THRESHOLD {
        if roll == 1 {
            Activity::Inspect
        } else if roll == 2 {
            Activity::Remove
        } else {
            Activity::Post
        }
    } else {
        Activity::Drain
    }
}

/// Decides what to do on a table with `order_count` orders, given a die
/// `roll`.
pub fn choose_activity(order_count: usize, roll: u64) -> (activity: Activity)
    ensures
        activity == activity_for(order_count as nat, roll),
{
    if order_count == 0 {
        Activity::Post
    } else if order_count < DRAIN_THRESHOLD {
        if roll == 1 {
            Activity::Inspect
        } else if roll == 2 {
            Activity::Remove
        } else {
            Activity::Post
        }
    } else {
        Activity::Drain
    }
}

/// The requests that clear a table: one removal for each of its orders, in
/// order.
pub open spec fn drain_of(table_orders: Seq<Order>) -> Seq<Request> {
    table_orders.map_values(|order: Order| Request::DeleteOrder(order.uid))
}

/// Whether `request` posts some item of `menu_items` for `table`.
pub open spec fn posts_from(request: Request, table: TableId, menu_items: Seq<MenuItem>) -> bool {
    exists|i: int|
        0 <= i < menu_items.len() && request == Request::PostOrder(
            table,
            (#[trigger] menu_items[i]).uid,
        )
}

/// Whether `request` looks up, under `table`, one of `table_orders`.
pub open spec fn inspects_one(request: Request, table: TableId, table_orders: Seq<Order>) -> bool {
    exists|i: int|
        0 <= i < table_orders.len() && request == Request::GetOrder(
            table,
            (#[trigger] table_orders[i]).uid,
        )
}

/// Whether `request` removes one of `table_orders`.
pub open spec fn removes_one(request: Request, table_orders: Seq<Order>) -> bool {
    exists|i: int|
        0 <= i < table_orders.len() && request == Request::DeleteOrder(
            (#[trigger] table_orders[i]).uid,
        )
}

/// Whether `requests` carries out `activity` on `table`, which holds
/// `table_orders`, with the menu `menu_items`.
pub open spec fn carries_out(
    requests: Seq<Request>,
    activity: Activity,
    table: TableId,
    table_orders: Seq<Order>,
    menu_items: Seq<MenuItem>,
) -> bool {
    match activity {
        Activity::Post => requests.len() == 1 && posts_from(requests[0], table, menu_items),
        Activity::Inspect => requests.len() == 1 && inspects_one(requests[0], table, table_orders),
        Activity::Remove => requests.len() == 1 && removes_one(requests[0], table_orders),
        Activity::Drain => requests == drain_of(table_orders),
    }
}

/// Picks the table for a turn, each with the same chance. There must be a
/// table to pick.
pub fn pick_table(tables: &Vec<Table>) -> (table: Table)
    requires
        tables@.len() > 0,
    ensures
        tables@.contains(table),
{
    choose_one(tables).unwrap()
}

/// Decides what a tablet asks after it has fetched `table_orders`, the orders
/// of `table`. Unless the table is to be drained, the menu must offer
/// something to post.
///
/// The die is rolled here, so the contract names the roll only by what it may
/// be: the requests carry out the activity that `activity_for` gives for some
/// roll from one to three. The order to inspect or remove, and the item to
/// post, are picked with the same chance each.
pub fn next_requests(table: TableId, table_orders: &Vec<Order>, menu_items: &Vec<MenuItem>) -> (requests:
    Vec<Request>)
    requires
        table_orders@.len() < DRAIN_THRESHOLD ==> menu_items@.len() > 0,
    ensures
        exists|roll: u64|
            1 <= roll <= 3 && carries_out(
                requests@,
                #[trigger] activity_for(table_orders@.len(), roll),
                table,
                table_orders@,
                menu_items@,
            ),
{
    let order_count = table_orders.len();
    // The die is rolled only where the roll decides.
    let roll: u64 = if 0 < order_count && order_count < DRAIN_THRESHOLD {
        random_between(1, 3)
    } else {
        1
    };
    let requests = requests_for(
        choose_activity(order_count, roll),
        table,
        table_orders,
        menu_items,
    );
    assert(carries_out(
        requests@,
        activity_for(table_orders@.len(), roll),
        table,
        table_orders@,
        menu_items@,
    ));
    requests
}

/// Builds the requests that carry out `activity` on `table`. There must be
/// something to pick from: a menu item to post, an order to inspect or remove.
pub fn requests_for(
    activity: Activity,
    table: TableId,
    table_orders: &Vec<Order>,
    menu_items: &Vec<MenuItem>,
) -> (requests: Vec<Request>)
    requires
        activity == Activity::Post ==> menu_items@.len() > 0,
        activity == Activity::Inspect || activity == Activity::Remove ==> table_orders@.len() > 0,
    ensures
        carries_out(requests@, activity, table, table_orders@, menu_items@),
{
    let mut requests: Vec<Request> = Vec::new();
    match activity {
        Activity::Post => {
            let item = choose_one(menu_items).unwrap();
            requests.push(Request::PostOrder(table, item.uid));
        },
        Activity::Inspect => {
            let order = choose_one(table_orders).unwrap();
            requests.push(Request::GetOrder(table, order.uid));
        },
        Activity::Remove => {
            let order = choose_one(table_orders).unwrap();
            requests.push(Request::DeleteOrder(order.uid));
        },
        Activity::Drain => {
            let mut pos: usize = 0;
            while pos < table_orders.len()
                invariant
                    pos <= table_orders@.len(),
                    requests@ == drain_of(table_orders@.take(pos as int)),
                decreases table_orders@.len() - pos,
            {
                requests.push(Request::DeleteOrder(table_orders[pos].uid));
                pos += 1;
                assert(requests@ == drain_of(table_orders@.take(pos as int)));
            }
            assert(table_orders@.take(pos as int) == table_orders@);
        },
    }
    requests
}

/// Draws the pause after a turn, in milliseconds: nothing when `wait_ms` is
/// zero, and otherwise a number below `wait_ms`, each with the same chance.
pub fn pause_after_turn(wait_ms: u64) -> (pause: Option<u64>)
    ensures
        pause is None <==> wait_ms == 0,
        pause matches Some(ms) ==> ms < wait_ms,
{
    if wait_ms != 0 {
        Some(random_between(0, wait_ms - 1))
    } else {
        None
    }
}

} // verus!
