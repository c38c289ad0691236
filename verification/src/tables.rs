//! The tables that the engine keeps its orders in: hash tables from
//! `std::collections` with the fast hasher of `rustc_hash`.
use rustc_hash::{FxHashMap, FxHashSet};
use vstd::prelude::*;
use crate::local_order::Order;
use crate::order::ClientId;

verus! {

/// Orders by client order id, in a `rustc_hash::FxHashMap`.
#[verifier::external_body]
#[derive(Debug)]
pub struct OrderTable {
    orders: FxHashMap<ClientId, Order>,
}

/// Client order ids, in a `rustc_hash::FxHashSet`.
#[verifier::external_body]
#[derive(Debug)]
pub struct IdSet {
    ids: FxHashSet<ClientId>,
}

/// The orders that a table holds, by client order id.
pub uninterp spec fn order_table_items(table: OrderTable) -> Map<ClientId, Order>;

/// The map without orders.
pub open spec fn no_orders() -> Map<ClientId, Order> {
    Map::empty()
}

/// The ids that a set holds.
pub uninterp spec fn id_set_items(set: IdSet) -> Set<ClientId>;

/// Calls `HashMap::with_capacity_and_hasher` with `FxBuildHasher`: a table
/// without orders. The capacity is kept small, since a capacity that
/// cannot be allocated makes the call fail.
#[verifier::external_body]
pub(crate) fn order_table_new(capacity: usize) -> (orders: OrderTable)
    requires
        capacity <= 0xffff,
    ensures
        order_table_items(orders) == no_orders(),
{
    OrderTable {
        orders: FxHashMap::with_capacity_and_hasher(capacity, rustc_hash::FxBuildHasher),
    }
}

/// Calls `HashMap::insert`: the order is stored under the id, in place of
/// the order that was there, which is returned.
#[verifier::external_body]
pub(crate) fn order_table_insert(table: &mut OrderTable, id: ClientId, order: Order) -> (previous:
    Option<Order>)
    ensures
        order_table_items(*final(table)) == order_table_items(*old(table)).insert(id, order),
        previous == (if order_table_items(*old(table)).contains_key(id) {
            Some(order_table_items(*old(table))[id])
        } else {
            None
        }),
{
    table.orders.insert(id, order)
}

/// Calls `HashMap::get`: the order stored under the id, if there is one.
#[verifier::external_body]
pub(crate) fn order_table_get<'a>(table: &'a OrderTable, id: &ClientId) -> (found: Option<
    &'a Order,
>)
    ensures
        found == (if order_table_items(*table).contains_key(*id) {
            Some(&order_table_items(*table)[*id])
        } else {
            None
        }),
{
    table.orders.get(id)
}

/// Calls `HashMap::get_mut`: the order stored under the id, if there is one,
/// to be changed in place. What the caller leaves there is what the table
/// holds under the id afterwards; nothing else in the table changes.
#[verifier::external_body]
pub(crate) fn order_table_get_mut<'a>(table: &'a mut OrderTable, id: &ClientId) -> (found: Option<
    &'a mut Order,
>)
    ensures
        match found {
            Some(order) => {
                &&& order_table_items(*old(table)).contains_key(*id)
                &&& *order == order_table_items(*old(table))[*id]
                &&& order_table_items(*final(table)) == order_table_items(*old(table)).insert(
                    *id,
                    *final(order),
                )
            },
            None => {
                &&& !order_table_items(*old(table)).contains_key(*id)
                &&& order_table_items(*final(table)) == order_table_items(*old(table))
            },
        },
{
    table.orders.get_mut(id)
}

/// Calls `HashMap::remove`: the id is no longer in the table, and the order
/// that was stored under it is returned.
#[verifier::external_body]
pub(crate) fn order_table_remove(table: &mut OrderTable, id: &ClientId) -> (removed: Option<Order>)
    ensures
        order_table_items(*final(table)) == order_table_items(*old(table)).remove(*id),
        removed == (if order_table_items(*old(table)).contains_key(*id) {
            Some(order_table_items(*old(table))[*id])
        } else {
            None
        }),
{
    table.orders.remove(id)
}

/// Walks the table with `HashMap::keys` and hands out the ids: each id of
/// the table once, in an order that is not specified.
#[verifier::external_body]
pub(crate) fn order_table_ids(table: &OrderTable) -> (ids: Vec<ClientId>)
    ensures
        ids@.no_duplicates(),
        ids@.to_set() == order_table_items(*table).dom(),
{
    table.orders.keys().copied().collect()
}

/// Calls `HashSet::with_capacity_and_hasher` with `FxBuildHasher`: a set
/// without ids. The capacity is kept small, since a capacity that cannot be
/// allocated makes the call fail.
#[verifier::external_body]
pub(crate) fn id_set_new(capacity: usize) -> (set: IdSet)
    requires
        capacity <= 0xffff,
    ensures
        id_set_items(set) == Set::<ClientId>::empty(),
{
    IdSet { ids: FxHashSet::with_capacity_and_hasher(capacity, rustc_hash::FxBuildHasher) }
}

/// Calls `HashSet::insert`: the id is in the set afterwards, and the result
/// says whether it was new.
#[verifier::external_body]
pub(crate) fn id_set_insert(set: &mut IdSet, id: ClientId) -> (added: bool)
    ensures
        id_set_items(*final(set)) == id_set_items(*old(set)).insert(id),
        added == !id_set_items(*old(set)).contains(id),
{
    set.ids.insert(id)
}

/// Calls `HashSet::contains`: whether the id is in the set.
#[verifier::external_body]
pub(crate) fn id_set_contains(set: &IdSet, id: &ClientId) -> (found: bool)
    ensures
        found == id_set_items(*set).contains(*id),
{
    set.ids.contains(id)
}

} // verus!
