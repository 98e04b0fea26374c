//! The dispatcher: the single owner of the store, serving one request at a
//! time.
//!
//! `Dispatcher::handle` is one turn of the service loop. Whoever drives it
//! takes requests off a queue, hands each to `handle`, sends the reply back to
//! the tablet that asked, and prints the progress line when one is due.

use vstd::prelude::*;
use crate::random::is_random_uuid;
use crate::store::{at_table, found_at, is_menu, without, DataStore, StoreView};
use crate::types::{Order, Reply, ReplyView, Request};

verus! {

/// Whether serving `request` on a store that reads `before` may leave it
/// reading `after` and answer `reply`.
///
/// For every request but `PostOrder` this fixes `after` and `reply`. For
/// `PostOrder` it leaves open the identifier and the cook time of the new
/// order, which are drawn at random.
pub open spec fn serves(before: StoreView, request: Request, after: StoreView, reply: ReplyView) -> bool {
    match request {
        Request::PostOrder(table_id, menu_item_id) => {
            &&& reply matches ReplyView::Order(order)
            &&& order.placed_for(table_id, menu_item_id)
            &&& after == (StoreView { orders: before.orders.push(order), ..before })
        },
        Request::DeleteOrder(order_id) => {
            &&& reply == ReplyView::Deleted
            &&& after == (StoreView { orders: without(before.orders, order_id), ..before })
        },
        Request::GetOrders(table_id) => {
            &&& reply == ReplyView::Orders(at_table(before.orders, table_id))
            &&& after == before
        },
        Request::GetOrder(table_id, order_id) => {
            &&& reply == ReplyView::MaybeOrder(found_at(before.orders, table_id, order_id))
            &&& after == before
        },
        Request::GetTables => {
            &&& reply == ReplyView::Tables(before.tables)
            &&& after == before
        },
        Request::GetMenuItems => {
            &&& reply == ReplyView::MenuItems(before.menu_items)
            &&& is_menu(before.menu_items)
            &&& after == before
        },
    }
}

/// The progress line that is due once `served` requests are done: the count
/// itself at every positive multiple of `print_interval`, and nothing when
/// the interval is zero.
pub open spec fn progress_due(served: u64, print_interval: u64) -> Option<u64> {
    if print_interval != 0 && served % print_interval == 0 {
        Some(served)
    } else {
        None
    }
}

/// The mathematical content of a `Dispatcher`.
pub struct DispatcherView {
    pub store: StoreView,
    pub served: u64,
    pub print_interval: u64,
}

/// What one turn of the dispatcher hands back to its driver.
#[derive(Debug)]
pub struct Outcome {
    /// The answer for the tablet that sent the request.
    pub reply: Reply,
    /// The number to print as a progress line, if one is due.
    pub progress: Option<u64>,
}

/// The store together with the count of requests served so far.
pub struct Dispatcher {
    store: DataStore,
    request_count: u64,
    print_interval: u64,
}

impl View for Dispatcher {
    type V = DispatcherView;

    closed spec fn view(&self) -> DispatcherView {
        DispatcherView {
            store: self.store@,
            served: self.request_count,
            print_interval: self.print_interval,
        }
    }
}

impl Dispatcher {
    /// Creates a dispatcher over a new store with `table_count` tables. A
    /// progress line falls due every `print_interval` requests; zero turns
    /// the lines off.
    pub fn new(table_count: usize, print_interval: u64) -> (dispatcher: Self)
        ensures
            dispatcher@.store.orders.len() == 0,
            is_menu(dispatcher@.store.menu_items),
            dispatcher@.store.tables.len() == table_count,
            forall|i: int|
                0 <= i < dispatcher@.store.tables.len() ==> is_random_uuid(
                    (#[trigger] dispatcher@.store.tables[i]).uid.0,
                ),
            dispatcher@.served == 0,
            dispatcher@.print_interval == print_interval,
    {
        Self { store: DataStore::new(table_count), request_count: 0, print_interval }
    }

    /// The number of requests served so far.
    pub fn served(&self) -> (count: u64)
        ensures
            count == self@.served,
    {
        self.request_count
    }

    /// Serves one request: applies it to the store, counts it, and returns
    /// the reply together with the progress line, if one is due.
    pub fn handle(&mut self, request: Request) -> (outcome: Outcome)
        requires
            old(self)@.served < u64::MAX,
        ensures
            serves(old(self)@.store, request, final(self)@.store, outcome.reply@),
            final(self)@.served == old(self)@.served + 1,
            final(self)@.print_interval == old(self)@.print_interval,
            outcome.progress == progress_due(final(self)@.served, final(self)@.print_interval),
    {
        let reply = match request {
            Request::PostOrder(table_id, menu_item_id) => {
                let new_order = Order::new(table_id, menu_item_id);
                let _ = self.store.insert_order(&new_order);
                Reply::Order(new_order)
            },
            Request::DeleteOrder(order_id) => {
                let _ = self.store.delete_order(&order_id);
                Reply::Deleted
            },
            Request::GetOrders(table_id) => Reply::Orders(self.store.get_orders_by_table(&table_id)),
            Request::GetOrder(table_id, order_id) => Reply::MaybeOrder(
                self.store.get_order_by_uid(&table_id, &order_id),
            ),
            Request::GetTables => Reply::Tables(self.store.get_tables()),
            Request::GetMenuItems => Reply::MenuItems(self.store.get_menu_items()),
        };
        self.request_count += 1;
        let progress = if self.print_interval != 0 && self.request_count % self.print_interval
            == 0 {
            Some(self.request_count)
        } else {
            None
        };
        Outcome { reply, progress }
    }
}

} // verus!
