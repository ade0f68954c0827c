//! Cart line items and the shapes that create and mutate them.

use vstd::prelude::*;

verus! {

/// A stored cart line item, owned by exactly one user.
///
/// Prices and quantities are integers (a price in minor currency units);
/// the stored `total` is the derived product `price * qty`, maintained by
/// the create and update operations and never recomputed on read.
pub struct Cart {
    pub id: u64,
    pub user_id: u64,
    pub product_name: String,
    pub price: u32,
    pub qty: u32,
    pub total: u64,
    pub created_at: u64,
}

impl Cart {
    /// The one derived-field invariant of a line item.
    pub open spec fn total_derived(self) -> bool {
        self.total == self.price as int * self.qty as int
    }
}

impl Clone for Cart {
    fn clone(&self) -> (r: Self)
        ensures
            r == *self,
    {
        Cart {
            id: self.id,
            user_id: self.user_id,
            product_name: self.product_name.clone(),
            price: self.price,
            qty: self.qty,
            total: self.total,
            created_at: self.created_at,
        }
    }
}

/// The fields a caller supplies to create a cart item.  The owning user
/// and the total are stamped by the store, never taken from the caller.
pub struct CartDraft {
    pub product_name: String,
    pub price: u32,
    pub qty: u32,
}

/// The fields a caller supplies to update a cart item.
pub struct UpdateCart {
    pub qty: u32,
}

/// The outcome of an update: whether a stored item matched the scoped
/// lookup and whether the write changed it.
#[derive(Clone, Copy, Debug, PartialEq, Eq, Structural)]
pub struct UpdateOutcome {
    pub matched: bool,
    pub modified: bool,
}

/// The outcome of a delete: how many stored items were removed.
#[derive(Clone, Copy, Debug, PartialEq, Eq, Structural)]
pub struct DeleteOutcome {
    pub deleted_count: u64,
}

} // verus!
