//! The order store: a map from order id to order record, with lookup and
//! unconditional overwrite and nothing else.

use crate::error::PaymentError;
use crate::order::{Order, OrderView};
use vstd::hash_map::StringHashMap;
use vstd::prelude::*;

verus! {

/// The orders on record, each under its id.
pub struct OrderStore {
    records: StringHashMap<Order>,
}

impl View for OrderStore {
    type V = Map<Seq<char>, OrderView>;

    closed spec fn view(&self) -> Map<Seq<char>, OrderView> {
        self.records@.map_values(|order: Order| order@)
    }
}

impl OrderStore {
    /// A store with no order in it.
    pub fn new() -> (store: Self)
        ensures
            store@ == Map::<Seq<char>, OrderView>::empty(),
    {
        let store = OrderStore { records: StringHashMap::new() };
        assert(store@ =~= Map::<Seq<char>, OrderView>::empty());
        store
    }

    /// Whether an order is on record under `order_id`.
    pub fn contains(&self, order_id: &str) -> (found: bool)
        ensures
            found == self@.contains_key(order_id@),
    {
        self.records.contains_key(order_id)
    }

    /// A copy of the order on record under `order_id`; `NotFound` where there
    /// is none.
    pub fn get(&self, order_id: &str) -> (found: Result<Order, PaymentError>)
        ensures
            self@.contains_key(order_id@) ==> (found matches Ok(order) && order@
                == self@[order_id@]),
            !self@.contains_key(order_id@) ==> found == Err::<Order, PaymentError>(
                PaymentError::NotFound,
            ),
    {
        match self.records.get(order_id) {
            Some(order) => Ok(order.clone()),
            None => Err(PaymentError::NotFound),
        }
    }

    /// Records `order` under `order_id`, in place of what was there. Every
    /// other record stays as it is.
    pub fn upsert(&mut self, order_id: String, order: Order)
        ensures
            final(self)@ == old(self)@.insert(order_id@, order@),
    {
        self.records.insert(order_id, order);
        assert(self@ =~= old(self)@.insert(order_id@, order@));
    }
}

} // verus!
