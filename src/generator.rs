//! Generators: units that produce the resource, by click or as time passes.

use vstd::prelude::*;
use crate::amount::{
    Amount, exact_product, product_fits, sum_fits, whole, lemma_times_whole, lemma_sign_of_units, pow10, MAX_SCALE,
};
use crate::detail::Detail;
use crate::error::EconomyError;
use crate::upgrade::UpgradeEffect;

verus! {

/// The kinds of generator.
#[derive(Clone, Copy, Debug, PartialEq, Eq, Structural)]
pub enum GeneratorId {
    /// Produces only when the player clicks.
    Clicker,
    /// Produces on its own, every second.
    AutoClicker,
}

/// A production unit: `quantity` units, each producing `production_rate`.
#[derive(Debug)]
pub struct Generator {
    pub id: GeneratorId,
    pub name: String,
    pub quantity: u64,
    pub production_rate: Amount,
}

/// What applying `effect` to the rate `old_rate` gives, as far as no rounding
/// takes place: an additive effect adds its value, a multiplicative one
/// multiplies by it.
pub open spec fn effect_applied(old_rate: Amount, new_rate: Amount, effect: UpgradeEffect) -> bool {
    match effect {
        UpgradeEffect::Additive(v) => sum_fits(old_rate, v) ==> new_rate.units()
            == old_rate.units() + v.units(),
        UpgradeEffect::Multiplicative(v) => product_fits(old_rate, v) ==> new_rate
            == exact_product(old_rate, v),
    }
}

/// Applying `effect` to `rate` needs no rounding.
pub open spec fn effect_fits(rate: Amount, effect: UpgradeEffect) -> bool {
    match effect {
        UpgradeEffect::Additive(v) => sum_fits(rate, v),
        UpgradeEffect::Multiplicative(v) => product_fits(rate, v),
    }
}

impl Generator {
    /// The rate is a well-formed, non-negative decimal.
    pub open spec fn wf(&self) -> bool {
        self.production_rate.wf() && self.production_rate.units() >= 0
    }

    /// What the generator produces, in units of `10^-28`: rate times quantity.
    pub open spec fn production_units(&self) -> int {
        self.production_rate.units() * self.quantity
    }

    /// Rate times quantity needs no rounding.
    pub open spec fn production_fits(&self) -> bool {
        product_fits(self.production_rate, whole(self.quantity as int))
    }

    /// A generator; `None` when the rate is malformed or negative.
    pub fn new(id: GeneratorId, name: String, quantity: u64, production_rate: Amount) -> (r:
        Option<Generator>)
        ensures
            r is Some <==> (production_rate.wf() && production_rate.units() >= 0),
            r matches Some(g) ==> (g.wf() && g.id == id && g.name == name && g.quantity
                == quantity && g.production_rate == production_rate),
    {
        if production_rate.is_valid_non_negative() {
            Some(Generator { id, name, quantity, production_rate })
        } else {
            None
        }
    }

    /// Adds one unit; fails with `Overflow`, changing nothing, when the count is full.
    pub fn increment_quantity(&mut self) -> (r: Result<(), EconomyError>)
        ensures
            r is Ok <==> old(self).quantity < u64::MAX,
            r is Ok ==> final(self).quantity == old(self).quantity + 1,
            r is Err ==> r == Err::<(), EconomyError>(EconomyError::Overflow) && final(self).quantity
                == old(self).quantity,
            final(self).id == old(self).id,
            final(self).name == old(self).name,
            final(self).production_rate == old(self).production_rate,
    {
        if self.quantity < u64::MAX {
            self.quantity = self.quantity + 1;
            Ok(())
        } else {
            Err(EconomyError::Overflow)
        }
    }

    /// What the generator produces: rate times quantity. Zero units produce
    /// nothing; `None` when the product cannot be represented.
    pub fn calculate_production(&self) -> (r: Option<Amount>)
        requires
            self.wf(),
        ensures
            r matches Some(p) ==> p.wf() && p.units() >= 0,
            self.production_fits() ==> r == Some(
                exact_product(self.production_rate, whole(self.quantity as int)),
            ),
            self.production_fits() ==> (r matches Some(p) && p.units() == self.production_units()),
            self.quantity == 0 ==> (r matches Some(p) && p.units() == 0),
    {
        let q = Amount::from_u64(self.quantity);
        let r = self.production_rate.checked_mul(q);
        proof {
            lemma_sign_of_units(q);
            if self.quantity == 0 {
                let m = self.production_rate.mantissa as int;
                assert(m * 0 == 0) by (nonlinear_arith);
                assert(0 * pow10(MAX_SCALE as int) == 0) by (nonlinear_arith);
            }
            if self.production_fits() {
                lemma_times_whole(self.production_rate, self.quantity as int);
            }
        }
        r
    }

    /// Applies an upgrade's effect to the rate. On `Err(Overflow)` nothing changes.
    pub fn apply_upgrade(&mut self, effect: UpgradeEffect) -> (r: Result<(), EconomyError>)
        requires
            old(self).wf(),
            effect.wf(),
        ensures
            final(self).wf(),
            final(self).id == old(self).id,
            final(self).name == old(self).name,
            final(self).quantity == old(self).quantity,
            r is Ok ==> effect_applied(old(self).production_rate, final(self).production_rate, effect),
            r is Err ==> r == Err::<(), EconomyError>(EconomyError::Overflow) && final(self).production_rate
                == old(self).production_rate,
            effect_fits(old(self).production_rate, effect) ==> r is Ok,
    {
        match boosted_rate(self.production_rate, effect) {
            Some(rate) => {
                self.production_rate = rate;
                Ok(())
            },
            None => Err(EconomyError::Overflow),
        }
    }
}

/// The rate `rate` after `effect`; `None` when it cannot be represented.
pub fn boosted_rate(rate: Amount, effect: UpgradeEffect) -> (r: Option<Amount>)
    requires
        rate.wf(),
        rate.units() >= 0,
        effect.wf(),
    ensures
        r matches Some(n) ==> n.wf() && n.units() >= 0 && effect_applied(rate, n, effect),
        effect_fits(rate, effect) ==> r is Some,
{
    match effect {
        UpgradeEffect::Additive(v) => rate.checked_add(v),
        UpgradeEffect::Multiplicative(v) => rate.checked_mul(v),
    }
}

impl Detail for Generator {
    open spec fn name_view(&self) -> Seq<char> {
        self.name@
    }

    open spec fn quantity_view(&self) -> u64 {
        self.quantity
    }

    fn check_name(&self) -> (r: &str) {
        self.name.as_str()
    }

    fn check_quantity(&self) -> (r: u64) {
        self.quantity
    }
}

} // verus!
