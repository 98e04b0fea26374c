//! The data model: identifiers, menu items, tables, orders, and the
//! requests and replies that travel between a tablet and the dispatcher.

use vstd::prelude::*;
use crate::random::{fresh_uuid, is_random_uuid, random_between};

verus! {

/// The shortest cook time, in minutes.
pub const MIN_COOK_MINUTES: u8 = 5;

/// The longest cook time, in minutes.
pub const MAX_COOK_MINUTES: u8 = 15;

/// Whether `minutes` is a cook time the kitchen quotes.
pub open spec fn is_cook_time(minutes: u8) -> bool {
    MIN_COOK_MINUTES <= minutes <= MAX_COOK_MINUTES
}

/// Draws a cook time uniformly from the quoted range.
fn draw_cook_time() -> (minutes: u8)
    ensures
        is_cook_time(minutes),
{
    let drawn: u64 = random_between(MIN_COOK_MINUTES as u64, MAX_COOK_MINUTES as u64);
    drawn as u8
}

/// Identifies a menu item. Opaque: only equality is meaningful.
#[derive(Copy, Clone, Debug, PartialEq, Eq, Structural)]
pub struct MenuItemId(pub u128);

impl Default for MenuItemId {
    /// Mints a fresh random identifier.
    fn default() -> (id: Self)
        ensures
            is_random_uuid(id.0),
    {
        MenuItemId(fresh_uuid())
    }
}

/// A dish on the menu.
#[derive(Clone, Copy, Debug)]
pub struct MenuItem {
    pub uid: MenuItemId,
    pub name: &'static str,
    pub cook_time_minutes: u8,
}

impl MenuItem {
    /// Creates the menu item called `name`, with a fresh identifier and a
    /// cook time drawn from the quoted range.
    pub fn new(name: &'static str) -> (item: Self)
        ensures
            item.name == name,
            is_cook_time(item.cook_time_minutes),
            is_random_uuid(item.uid.0),
    {
        Self { uid: MenuItemId::default(), name, cook_time_minutes: draw_cook_time() }
    }
}

/// Identifies an order. Opaque: only equality is meaningful.
#[derive(Copy, Clone, Debug, PartialEq, Eq, Structural)]
pub struct OrderId(pub u128);

impl Default for OrderId {
    /// Mints a fresh random identifier.
    fn default() -> (id: Self)
        ensures
            is_random_uuid(id.0),
    {
        OrderId(fresh_uuid())
    }
}

/// A request for one menu item on behalf of one table.
#[derive(Copy, Clone, Debug)]
pub struct Order {
    pub uid: OrderId,
    pub table_id: TableId,
    pub menu_item_id: MenuItemId,
    pub cook_time_minutes: u8,
}

impl Order {
    /// Whether `self` is an order that `Order::new` could have made for
    /// `table_id` and `menu_item_id`.
    pub open spec fn placed_for(self, table_id: TableId, menu_item_id: MenuItemId) -> bool {
        &&& self.table_id == table_id
        &&& self.menu_item_id == menu_item_id
        &&& is_cook_time(self.cook_time_minutes)
        &&& is_random_uuid(self.uid.0)
    }

    /// Creates an order of `menu_item_id` for `table_id`, with a fresh
    /// identifier and a cook time drawn from the quoted range. Neither
    /// argument is checked against the store.
    pub fn new(table_id: TableId, menu_item_id: MenuItemId) -> (order: Self)
        ensures
            order.placed_for(table_id, menu_item_id),
    {
        Self {
            uid: OrderId::default(),
            table_id,
            menu_item_id,
            cook_time_minutes: draw_cook_time(),
        }
    }
}

/// Identifies a table. Opaque: only equality is meaningful.
#[derive(Copy, Clone, Debug, PartialEq, Eq, Structural)]
pub struct TableId(pub u128);

impl Default for TableId {
    /// Mints a fresh random identifier.
    fn default() -> (id: Self)
        ensures
            is_random_uuid(id.0),
    {
        TableId(fresh_uuid())
    }
}

/// A table on the floor. It has an identity and no other state.
#[derive(Copy, Clone, Debug)]
pub struct Table {
    pub uid: TableId,
}

impl Default for Table {
    /// Creates a table with a fresh identifier.
    fn default() -> (table: Self)
        ensures
            is_random_uuid(table.uid.0),
    {
        Table { uid: TableId::default() }
    }
}

/// What a tablet asks of the dispatcher.
#[derive(Copy, Clone, Debug, PartialEq, Eq, Structural)]
pub enum Request {
    /// Place an order of a menu item for a table.
    PostOrder(TableId, MenuItemId),
    /// Remove the order with this identifier, if there is one.
    DeleteOrder(OrderId),
    /// List the orders of a table.
    GetOrders(TableId),
    /// Look one order up by its table and its identifier.
    GetOrder(TableId, OrderId),
    /// List the tables.
    GetTables,
    /// List the menu.
    GetMenuItems,
}

/// What the dispatcher answers, one variant for each kind of request.
#[derive(Debug)]
pub enum Reply {
    /// The order that was placed.
    Order(Order),
    /// The acknowledgement of a removal, sent whether or not the order existed.
    Deleted,
    /// The orders of the table asked about.
    Orders(Vec<Order>),
    /// The order asked about, if the store holds it under that table.
    MaybeOrder(Option<Order>),
    /// All tables.
    Tables(Vec<Table>),
    /// The whole menu.
    MenuItems(Vec<MenuItem>),
}

/// The mathematical content of a `Reply`.
pub enum ReplyView {
    Order(Order),
    Deleted,
    Orders(Seq<Order>),
    MaybeOrder(Option<Order>),
    Tables(Seq<Table>),
    MenuItems(Seq<MenuItem>),
}

impl View for Reply {
    type V = ReplyView;

    open spec fn view(&self) -> ReplyView {
        match *self {
            Reply::Order(order) => ReplyView::Order(order),
            Reply::Deleted => ReplyView::Deleted,
            Reply::Orders(orders) => ReplyView::Orders(orders@),
            Reply::MaybeOrder(order) => ReplyView::MaybeOrder(order),
            Reply::Tables(tables) => ReplyView::Tables(tables@),
            Reply::MenuItems(items) => ReplyView::MenuItems(items@),
        }
    }
}

} // verus!
