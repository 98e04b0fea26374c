//! The data store: the menu, the tables and the order book.
//!
//! The store has a single owner and no internal concurrency. The menu and the
//! tables are fixed when the store is made; only the order book changes.

use vstd::prelude::*;
use std::convert::Infallible;
use crate::random::is_random_uuid;
use crate::types::{is_cook_time, MenuItem, Order, OrderId, Table, TableId};

verus! {

/// The names on the menu, in menu order.
pub open spec fn menu_names() -> Seq<&'static str> {
    seq!["Ramen", "Soba", "Udon", "Tendon", "Katsudon"]
}

/// Whether `items` is a menu made from `menu_names`: one item for each name,
/// in order, each with a minted identifier and a quoted cook time.
pub open spec fn is_menu(items: Seq<MenuItem>) -> bool {
    &&& items.len() == menu_names().len()
    &&& forall|i: int|
        0 <= i < items.len() ==> {
            &&& (#[trigger] items[i]).name == menu_names()[i]
            &&& is_random_uuid(items[i].uid.0)
            &&& is_cook_time(items[i].cook_time_minutes)
        }
}

/// The orders of `orders` that belong to `table`, in book order.
pub open spec fn at_table(orders: Seq<Order>, table: TableId) -> Seq<Order> {
    orders.filter(|order: Order| order.table_id == table)
}

/// Whether position `i` holds the earliest order of `orders` that carries `id`.
pub open spec fn is_earliest_with_id(orders: Seq<Order>, id: OrderId, i: int) -> bool {
    &&& 0 <= i < orders.len()
    &&& orders[i].uid == id
    &&& forall|j: int| 0 <= j < i ==> (#[trigger] orders[j]).uid != id
}

/// Whether some order of `orders` carries `id`.
pub open spec fn holds_id(orders: Seq<Order>, id: OrderId) -> bool {
    exists|i: int| 0 <= i < orders.len() && (#[trigger] orders[i]).uid == id
}

/// The position of the earliest order of `orders` that carries `id`; only
/// meaningful when `holds_id(orders, id)`.
pub open spec fn earliest_with_id(orders: Seq<Order>, id: OrderId) -> int {
    choose|i: int| is_earliest_with_id(orders, id, i)
}

/// The order that a removal of `id` takes out of `orders`: the earliest one
/// that carries `id`.
pub open spec fn removed_by(orders: Seq<Order>, id: OrderId) -> Option<Order> {
    if holds_id(orders, id) {
        Some(orders[earliest_with_id(orders, id)])
    } else {
        None
    }
}

/// The order book after a removal of `id` from `orders`: the last order moves
/// into the place of the earliest one that carries `id`, and the book shrinks
/// by one. A book that does not hold `id` stays as it is.
pub open spec fn without(orders: Seq<Order>, id: OrderId) -> Seq<Order> {
    if holds_id(orders, id) {
        orders.update(earliest_with_id(orders, id), orders.last()).drop_last()
    } else {
        orders
    }
}

/// Whether position `i` holds the earliest order of `orders` that belongs to
/// `table` and carries `id`.
pub open spec fn is_earliest_match(orders: Seq<Order>, table: TableId, id: OrderId, i: int) -> bool {
    &&& 0 <= i < orders.len()
    &&& orders[i].table_id == table
    &&& orders[i].uid == id
    &&& forall|j: int|
        0 <= j < i ==> !((#[trigger] orders[j]).table_id == table && orders[j].uid == id)
}

/// The order that a lookup of `id` under `table` finds in `orders`: the
/// earliest one that matches both, or nothing.
pub open spec fn found_at(orders: Seq<Order>, table: TableId, id: OrderId) -> Option<Order> {
    if exists|i: int| is_earliest_match(orders, table, id, i) {
        Some(orders[choose|i: int| is_earliest_match(orders, table, id, i)])
    } else {
        None
    }
}

/// The mathematical content of a `DataStore`.
pub struct StoreView {
    pub orders: Seq<Order>,
    pub menu_items: Seq<MenuItem>,
    pub tables: Seq<Table>,
}

/// The menu as the store keeps it: made once, never changed.
struct Menu {
    items: Vec<MenuItem>,
}

impl Menu {
    #[verifier::type_invariant]
    spec fn well_formed(&self) -> bool {
        is_menu(self.items@)
    }

    /// Makes the menu: one fresh item for each name.
    fn new() -> (menu: Self)
        ensures
            is_menu(menu.items@),
    {
        let mut items: Vec<MenuItem> = Vec::new();
        items.push(MenuItem::new("Ramen"));
        items.push(MenuItem::new("Soba"));
        items.push(MenuItem::new("Udon"));
        items.push(MenuItem::new("Tendon"));
        items.push(MenuItem::new("Katsudon"));
        Menu { items }
    }
}

/// The sole owner of the menu, the tables and the order book.
pub struct DataStore {
    orders: Vec<Order>,
    menu: Menu,
    tables: Vec<Table>,
}

impl View for DataStore {
    type V = StoreView;

    closed spec fn view(&self) -> StoreView {
        StoreView { orders: self.orders@, menu_items: self.menu.items@, tables: self.tables@ }
    }
}

impl DataStore {
    /// Creates a store with the fixed menu, `table_count` tables with minted
    /// identifiers, and an empty order book.
    pub fn new(table_count: usize) -> (store: Self)
        ensures
            store@.orders.len() == 0,
            is_menu(store@.menu_items),
            store@.tables.len() == table_count,
            forall|i: int|
                0 <= i < store@.tables.len() ==> is_random_uuid((#[trigger] store@.tables[i]).uid.0),
    {
        let menu = Menu::new();
        let mut tables: Vec<Table> = Vec::new();
        let mut made: usize = 0;
        while made < table_count
            invariant
                made <= table_count,
                tables@.len() == made,
                forall|i: int| 0 <= i < made ==> is_random_uuid((#[trigger] tables@[i]).uid.0),
            decreases table_count - made,
        {
            tables.push(Table::default());
            made += 1;
        }
        Self { orders: Vec::new(), menu, tables }
    }

    /// Appends `order` to the order book. Nothing is checked: an order whose
    /// identifier is already in the book is appended all the same.
    pub fn insert_order(&mut self, order: &Order) -> (done: Result<(), Infallible>)
        ensures
            done is Ok,
            final(self)@ == (StoreView { orders: old(self)@.orders.push(*order), ..old(self)@ }),
    {
        self.orders.push(*order);
        Ok(())
    }

    /// Removes the earliest order that carries `target_id` and returns it.
    /// The last order of the book takes its place, so the order of the book
    /// is not kept. A book without `target_id` is left alone.
    pub fn delete_order(&mut self, target_id: &OrderId) -> (removed: Option<Order>)
        ensures
            removed == removed_by(old(self)@.orders, *target_id),
            final(self)@ == (StoreView {
                orders: without(old(self)@.orders, *target_id),
                ..old(self)@
            }),
    {
        let mut pos: usize = 0;
        while pos < self.orders.len()
            invariant
                *self == *old(self),
                pos <= self.orders@.len(),
                forall|j: int| 0 <= j < pos ==> (#[trigger] self.orders@[j]).uid != *target_id,
            decreases self.orders@.len() - pos,
        {
            if self.orders[pos].uid == *target_id {
                proof {
                    lemma_earliest_with_id(self.orders@, *target_id, pos as int);
                }
                let order = self.orders.swap_remove(pos);
                return Some(order);
            }
            pos += 1;
        }
        None
    }

    /// Copies out the orders that belong to `target_id`, in book order.
    pub fn get_orders_by_table(&mut self, target_id: &TableId) -> (snapshot: Vec<Order>)
        ensures
            snapshot@ == at_table(old(self)@.orders, *target_id),
            *final(self) == *old(self),
    {
        let mut snapshot: Vec<Order> = Vec::new();
        let mut pos: usize = 0;
        while pos < self.orders.len()
            invariant
                *self == *old(self),
                pos <= self.orders@.len(),
                snapshot@ == at_table(self.orders@.take(pos as int), *target_id),
            decreases self.orders@.len() - pos,
        {
            proof {
                lemma_at_table_step(self.orders@, *target_id, pos as int);
            }
            let order = self.orders[pos];
            if order.table_id == *target_id {
                snapshot.push(order);
            }
            pos += 1;
        }
        assert(self.orders@.take(pos as int) == self.orders@);
        snapshot
    }

    /// Looks up the earliest order that belongs to `table_id` and carries
    /// `order_id`. An order with that identifier under another table is not
    /// a match.
    pub fn get_order_by_uid(&mut self, table_id: &TableId, order_id: &OrderId) -> (found: Option<
        Order,
    >)
        ensures
            found == found_at(old(self)@.orders, *table_id, *order_id),
            *final(self) == *old(self),
    {
        let mut pos: usize = 0;
        while pos < self.orders.len()
            invariant
                *self == *old(self),
                pos <= self.orders@.len(),
                forall|j: int|
                    0 <= j < pos ==> !((#[trigger] self.orders@[j]).table_id == *table_id
                        && self.orders@[j].uid == *order_id),
            decreases self.orders@.len() - pos,
        {
            let order = self.orders[pos];
            if order.table_id == *table_id && order.uid == *order_id {
                proof {
                    lemma_earliest_match(self.orders@, *table_id, *order_id, pos as int);
                }
                return Some(order);
            }
            pos += 1;
        }
        None
    }

    /// Copies out the menu, in menu order.
    pub fn get_menu_items(&mut self) -> (snapshot: Vec<MenuItem>)
        ensures
            snapshot@ == old(self)@.menu_items,
            is_menu(snapshot@),
            *final(self) == *old(self),
    {
        proof {
            use_type_invariant(&self.menu);
        }
        self.menu.items.clone()
    }

    /// Copies out the tables, in the order in which they were made.
    pub fn get_tables(&self) -> (snapshot: Vec<Table>)
        ensures
            snapshot@ == self@.tables,
    {
        self.tables.clone()
    }
}

/// The earliest position that carries `id` is the only one that
/// `is_earliest_with_id` accepts.
pub proof fn lemma_earliest_with_id(orders: Seq<Order>, id: OrderId, i: int)
    requires
        is_earliest_with_id(orders, id, i),
    ensures
        holds_id(orders, id),
        earliest_with_id(orders, id) == i,
{
    let chosen = earliest_with_id(orders, id);
    assert(is_earliest_with_id(orders, id, chosen));
    if chosen < i {
        assert(orders[chosen].uid != id);
    }
    if i < chosen {
        assert(orders[i].uid != id);
    }
}

/// A book that carries `id` at position `i` has an earliest position that
/// carries it, at `i` or before.
pub proof fn lemma_holds_id_has_earliest(orders: Seq<Order>, id: OrderId, i: int)
    requires
        0 <= i < orders.len(),
        orders[i].uid == id,
    ensures
        is_earliest_with_id(orders, id, earliest_with_id(orders, id)),
        earliest_with_id(orders, id) <= i,
    decreases i,
{
    if exists|j: int| 0 <= j < i && (#[trigger] orders[j]).uid == id {
        let j = choose|j: int| 0 <= j < i && (#[trigger] orders[j]).uid == id;
        lemma_holds_id_has_earliest(orders, id, j);
    } else {
        lemma_earliest_with_id(orders, id, i);
    }
}

/// The earliest position that matches `table` and `id` is what a lookup finds.
pub proof fn lemma_earliest_match(orders: Seq<Order>, table: TableId, id: OrderId, i: int)
    requires
        is_earliest_match(orders, table, id, i),
    ensures
        found_at(orders, table, id) == Some(orders[i]),
{
    let chosen = choose|k: int| is_earliest_match(orders, table, id, k);
    assert(is_earliest_match(orders, table, id, chosen));
    if chosen < i {
        assert(!(orders[chosen].table_id == table && orders[chosen].uid == id));
    }
    if i < chosen {
        assert(!(orders[i].table_id == table && orders[i].uid == id));
    }
}

/// Taking one more order into account extends the orders of a table by that
/// order if it belongs to the table, and not at all otherwise.
proof fn lemma_at_table_step(orders: Seq<Order>, table: TableId, n: int)
    requires
        0 <= n < orders.len(),
    ensures
        at_table(orders.take(n + 1), table) == if orders[n].table_id == table {
            at_table(orders.take(n), table).push(orders[n])
        } else {
            at_table(orders.take(n), table)
        },
{
    reveal(Seq::filter);
    assert(orders.take(n + 1).drop_last() == orders.take(n));
}

} // verus!
