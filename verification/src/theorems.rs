//! What a tablet can rely on, proved from the contract of the dispatcher.
//!
//! Each theorem speaks of turns of the dispatcher that follow one another
//! with nothing in between: the store that one turn leaves is the store that
//! the next one finds.

use vstd::prelude::*;
use crate::dispatcher::serves;
use crate::store::{
    at_table, earliest_with_id, holds_id, is_earliest_match, lemma_earliest_match,
    lemma_holds_id_has_earliest, removed_by, without, StoreView,
};
use crate::types::{is_cook_time, MenuItemId, Order, OrderId, ReplyView, Request, TableId};

verus! {

/// An order that has just been posted is among the orders listed for its
/// table.
pub proof fn theorem_posted_order_is_listed(
    before: StoreView,
    table: TableId,
    item: MenuItemId,
    posted: Order,
    between: StoreView,
    after: StoreView,
    listing: ReplyView,
)
    requires
        serves(before, Request::PostOrder(table, item), between, ReplyView::Order(posted)),
        serves(between, Request::GetOrders(table), after, listing),
    ensures
        listing matches ReplyView::Orders(orders) && orders.contains(posted),
{
    let book = before.orders.push(posted);
    assert(book[book.len() - 1] == posted);
    book.lemma_filter_contains(|order: Order| order.table_id == table, book.len() - 1);
}

/// An order that has just been posted is what a lookup under its table and
/// its identifier returns, provided the identifier is fresh: no other order
/// of that table carried it before.
pub proof fn theorem_posted_order_is_found(
    before: StoreView,
    table: TableId,
    item: MenuItemId,
    posted: Order,
    between: StoreView,
    after: StoreView,
    answer: ReplyView,
)
    requires
        serves(before, Request::PostOrder(table, item), between, ReplyView::Order(posted)),
        serves(between, Request::GetOrder(table, posted.uid), after, answer),
        forall|i: int|
            0 <= i < before.orders.len() && (#[trigger] before.orders[i]).table_id == table
                && before.orders[i].uid == posted.uid ==> before.orders[i] == posted,
    ensures
        answer == ReplyView::MaybeOrder(Some(posted)),
{
    let book = before.orders.push(posted);
    let last = book.len() - 1;
    assert(book[last] == posted);
    if exists|i: int| is_earliest_match(before.orders, table, posted.uid, i) {
        let i = choose|i: int| is_earliest_match(before.orders, table, posted.uid, i);
        assert(book[i] == before.orders[i]);
        assert forall|j: int| 0 <= j < i implies !((#[trigger] book[j]).table_id == table
            && book[j].uid == posted.uid) by {
            assert(book[j] == before.orders[j]);
        }
        lemma_earliest_match(book, table, posted.uid, i);
    } else {
        assert forall|j: int| 0 <= j < last implies !((#[trigger] book[j]).table_id == table
            && book[j].uid == posted.uid) by {
            assert(book[j] == before.orders[j]);
            lemma_no_match_below(before.orders, table, posted.uid, j);
        }
        lemma_earliest_match(book, table, posted.uid, last);
    }
}

/// An order that has just been posted is not found under any other table,
/// provided no order of that other table carried its identifier before.
pub proof fn theorem_posted_order_is_hidden_from_other_tables(
    before: StoreView,
    table: TableId,
    item: MenuItemId,
    posted: Order,
    between: StoreView,
    other: TableId,
    after: StoreView,
    answer: ReplyView,
)
    requires
        serves(before, Request::PostOrder(table, item), between, ReplyView::Order(posted)),
        other != table,
        serves(between, Request::GetOrder(other, posted.uid), after, answer),
        forall|i: int|
            0 <= i < before.orders.len() ==> !((#[trigger] before.orders[i]).table_id == other
                && before.orders[i].uid == posted.uid),
    ensures
        answer == ReplyView::MaybeOrder(None),
{
    let book = before.orders.push(posted);
    assert forall|i: int| !is_earliest_match(book, other, posted.uid, i) by {
        if 0 <= i < before.orders.len() {
            assert(book[i] == before.orders[i]);
        }
    }
}

/// A removal is acknowledged whether or not the order exists, so removing
/// the same order twice succeeds both times.
pub proof fn theorem_removal_is_always_acknowledged(
    before: StoreView,
    id: OrderId,
    between: StoreView,
    first: ReplyView,
    after: StoreView,
    second: ReplyView,
)
    requires
        serves(before, Request::DeleteOrder(id), between, first),
        serves(between, Request::DeleteOrder(id), after, second),
    ensures
        first == ReplyView::Deleted,
        second == ReplyView::Deleted,
{
}

/// Once an order is removed, no lookup finds it under any table and a second
/// removal changes nothing, provided its identifier was carried by one order
/// only.
pub proof fn theorem_removed_order_is_gone(
    before: StoreView,
    id: OrderId,
    between: StoreView,
    first: ReplyView,
    after: StoreView,
    second: ReplyView,
)
    requires
        serves(before, Request::DeleteOrder(id), between, first),
        serves(between, Request::DeleteOrder(id), after, second),
        forall|i: int, j: int|
            0 <= i < before.orders.len() && 0 <= j < before.orders.len() && (
            #[trigger] before.orders[i]).uid == id && (#[trigger] before.orders[j]).uid == id
                ==> i == j,
    ensures
        forall|table: TableId, left: StoreView, answer: ReplyView| #[trigger]
            serves(between, Request::GetOrder(table, id), left, answer) ==> answer
                == ReplyView::MaybeOrder(None),
        after == between,
{
    lemma_without_drops_id(before.orders, id);
    assert forall|table: TableId, i: int| !is_earliest_match(between.orders, table, id, i) by {
        if 0 <= i < between.orders.len() {
            assert(between.orders[i].uid != id);
        }
    }
}

/// A removal takes one order out of the book and leaves every other order
/// in it, whatever becomes of their places: the book is one order shorter,
/// the order taken out carried the identifier, and an order with another
/// identifier is listed for its table after the removal exactly if it was
/// before.
pub proof fn theorem_removal_keeps_other_orders(
    before: StoreView,
    id: OrderId,
    after: StoreView,
    reply: ReplyView,
    other: Order,
)
    requires
        serves(before, Request::DeleteOrder(id), after, reply),
        holds_id(before.orders, id),
        other.uid != id,
    ensures
        after.orders.len() == before.orders.len() - 1,
        removed_by(before.orders, id) matches Some(taken) && taken.uid == id,
        after.orders.contains(other) <==> before.orders.contains(other),
        at_table(after.orders, other.table_id).contains(other) <==> at_table(
            before.orders,
            other.table_id,
        ).contains(other),
{
    let witness = choose|i: int|
        0 <= i < before.orders.len() && (#[trigger] before.orders[i]).uid == id;
    lemma_holds_id_has_earliest(before.orders, id, witness);
    let at = earliest_with_id(before.orders, id);
    let last = before.orders.len() - 1;
    if after.orders.contains(other) {
        let i = choose|i: int| 0 <= i < after.orders.len() && after.orders[i] == other;
        if i == at {
            assert(before.orders[last] == other);
        } else {
            assert(before.orders[i] == other);
        }
    }
    if before.orders.contains(other) {
        let i = choose|i: int| 0 <= i < before.orders.len() && before.orders[i] == other;
        if i == last {
            assert(after.orders[at] == other);
        } else {
            assert(after.orders[i] == other);
        }
    }
    lemma_at_table_contains(before.orders, other);
    lemma_at_table_contains(after.orders, other);
}

/// Every menu item that the dispatcher returns has a cook time in the quoted
/// range.
pub proof fn theorem_menu_cook_times_are_quoted(
    before: StoreView,
    after: StoreView,
    answer: ReplyView,
)
    requires
        serves(before, Request::GetMenuItems, after, answer),
    ensures
        answer matches ReplyView::MenuItems(items) && forall|i: int|
            0 <= i < items.len() ==> is_cook_time((#[trigger] items[i]).cook_time_minutes),
{
}

/// Whether `request` only reads the store.
pub open spec fn is_query(request: Request) -> bool {
    request is GetOrders || request is GetOrder || request is GetTables || request is GetMenuItems
}

/// A query leaves the store as it found it, and its answer depends on the
/// store alone: asked again, it is answered the same, whatever the tablet did
/// with the first answer.
pub proof fn theorem_queries_repeat(
    before: StoreView,
    query: Request,
    between: StoreView,
    first: ReplyView,
    after: StoreView,
    second: ReplyView,
)
    requires
        is_query(query),
        serves(before, query, between, first),
        serves(between, query, after, second),
    ensures
        between == before,
        after == before,
        second == first,
{
}

/// An order is listed for its table exactly if the book holds it.
proof fn lemma_at_table_contains(orders: Seq<Order>, order: Order)
    ensures
        at_table(orders, order.table_id).contains(order) <==> orders.contains(order),
{
    let belongs = |o: Order| o.table_id == order.table_id;
    if at_table(orders, order.table_id).contains(order) {
        lemma_filtered_comes_from(orders, belongs, order);
    }
    if orders.contains(order) {
        let i = choose|i: int| 0 <= i < orders.len() && orders[i] == order;
        orders.lemma_filter_contains(belongs, i);
    }
}

/// Whatever a filter lets through was in the sequence.
proof fn lemma_filtered_comes_from(orders: Seq<Order>, keep: spec_fn(Order) -> bool, order: Order)
    requires
        orders.filter(keep).contains(order),
    ensures
        orders.contains(order),
    decreases orders.len(),
{
    reveal(Seq::filter);
    if orders.len() > 0 {
        let front = orders.drop_last();
        if front.filter(keep).contains(order) {
            lemma_filtered_comes_from(front, keep, order);
            let i = choose|i: int| 0 <= i < front.len() && front[i] == order;
            assert(orders[i] == order);
        } else {
            assert(keep(orders.last()));
            let kept = front.filter(keep).push(orders.last());
            let i = choose|i: int| 0 <= i < kept.len() && kept[i] == order;
            assert(i == kept.len() - 1);
            assert(orders[orders.len() - 1] == order);
        }
    }
}

/// Where no position is the earliest match, no position matches at all.
proof fn lemma_no_match_below(orders: Seq<Order>, table: TableId, id: OrderId, j: int)
    requires
        forall|i: int| !is_earliest_match(orders, table, id, i),
        0 <= j < orders.len(),
    ensures
        !(orders[j].table_id == table && orders[j].uid == id),
    decreases j,
{
    if orders[j].table_id == table && orders[j].uid == id {
        assert forall|k: int| 0 <= k < j implies !((#[trigger] orders[k]).table_id == table
            && orders[k].uid == id) by {
            lemma_no_match_below(orders, table, id, k);
        }
        assert(is_earliest_match(orders, table, id, j));
    }
}

/// Where one order only carries `id`, the book without it holds `id` no more.
proof fn lemma_without_drops_id(orders: Seq<Order>, id: OrderId)
    requires
        forall|i: int, j: int|
            0 <= i < orders.len() && 0 <= j < orders.len() && (#[trigger] orders[i]).uid == id && (
            #[trigger] orders[j]).uid == id ==> i == j,
    ensures
        !holds_id(without(orders, id), id),
        forall|i: int|
            0 <= i < without(orders, id).len() ==> (#[trigger] without(orders, id)[i]).uid != id,
        without(without(orders, id), id) == without(orders, id),
{
    let rest = without(orders, id);
    if holds_id(orders, id) {
        let witness = choose|i: int| 0 <= i < orders.len() && (#[trigger] orders[i]).uid == id;
        lemma_holds_id_has_earliest(orders, id, witness);
        let at = earliest_with_id(orders, id);
        assert forall|i: int| 0 <= i < rest.len() implies (#[trigger] rest[i]).uid != id by {
            if i == at {
                assert(rest[i] == orders[orders.len() - 1]);
            } else {
                assert(rest[i] == orders[i]);
            }
        }
    }
}

} // verus!
