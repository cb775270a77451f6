//! What the game shows of a generator or an upgrade, and what an upgrade costs.

use vstd::prelude::*;
use crate::amount::Amount;
use crate::error::EconomyError;

verus! {

/// A named, counted item of the economy.
pub trait Detail {
    /// The display label.
    spec fn name_view(&self) -> Seq<char>;

    /// How many are owned, or how many times it was bought.
    spec fn quantity_view(&self) -> u64;

    fn check_name(&self) -> (r: &str)
        ensures
            r@ == self.name_view(),
    ;

    fn check_quantity(&self) -> (r: u64)
        ensures
            r == self.quantity_view(),
    ;
}

/// An item with a price that grows as it is bought.
pub trait Cost: Sized {
    /// The price of the next purchase.
    spec fn cost_view(&self) -> Amount;

    /// The item is well formed.
    spec fn cost_wf(&self) -> bool;

    /// The price agrees with the number of purchases made so far.
    spec fn cost_current(&self) -> bool;

    /// The price for the number of purchases made so far can be computed
    /// without rounding.
    spec fn cost_computable(&self) -> bool;

    /// All but the price are those of `other`.
    spec fn same_but_cost(&self, other: Self) -> bool;

    fn check_cost(&self) -> (r: Amount)
        ensures
            r == self.cost_view(),
    ;

    /// Recomputes the price from the number of purchases; on an error
    /// nothing changes.
    fn obtain_new_cost(&mut self) -> (r: Result<(), EconomyError>)
        requires
            old(self).cost_wf(),
        ensures
            final(self).cost_wf(),
            r is Ok ==> final(self).cost_current(),
            r is Ok ==> final(self).same_but_cost(*old(self)),
            old(self).cost_computable() ==> r is Ok,
            r is Err ==> r == Err::<(), EconomyError>(EconomyError::Overflow) && *final(self)
                == *old(self),
    ;
}

} // verus!
