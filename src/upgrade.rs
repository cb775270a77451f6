//! Upgrades: purchases that change a generator, with a price that grows
//! geometrically each time one is bought.

use vstd::prelude::*;
use vstd::arithmetic::power::{pow, lemma_pow0, lemma_pow1, lemma_pow_adds, lemma_pow_positive};
use crate::amount::{
    Amount, exact_product, fits_mantissa, power_fits, product_fits, pow10, units_of,
    lemma_pow10_adds, lemma_sign_of_units, MAX_SCALE,
};
use crate::detail::{Cost, Detail};
use crate::error::EconomyError;
use crate::generator::GeneratorId;

verus! {

/// How an upgrade changes its generator's production rate.
#[derive(Clone, Copy, Debug)]
pub enum UpgradeEffect {
    /// Adds the value to the rate.
    Additive(Amount),
    /// Multiplies the rate by the value.
    Multiplicative(Amount),
}

impl UpgradeEffect {
    /// The value is a well-formed, non-negative decimal.
    pub open spec fn wf(self) -> bool {
        match self {
            UpgradeEffect::Additive(v) => v.wf() && v.units() >= 0,
            UpgradeEffect::Multiplicative(v) => v.wf() && v.units() >= 0,
        }
    }

    /// Whether the value is a well-formed, non-negative decimal.
    pub fn is_valid(&self) -> (r: bool)
        ensures
            r == self.wf(),
    {
        match self {
            UpgradeEffect::Additive(v) => v.is_valid_non_negative(),
            UpgradeEffect::Multiplicative(v) => v.is_valid_non_negative(),
        }
    }
}

/// What a purchase of an upgrade does to its generator.
#[derive(Clone, Copy, Debug, PartialEq, Eq, Structural)]
pub enum UpgradeType {
    /// Adds one unit of the generator.
    AutoClickerQuantity,
    /// Applies the upgrade's effect to the generator's rate.
    ProductionBoost,
}

/// The shape of an upgrade's price curve: each purchase multiplies the price
/// by a fixed growth rate.
#[derive(Clone, Copy, Debug, PartialEq, Eq, Structural)]
pub enum CostCurve {
    /// Growth rate 1.05.
    Additive,
    /// Growth rate 1.9.
    Multiplicative,
    /// Growth rate 1.14.
    Exponential,
}

impl CostCurve {
    /// The growth rate of the curve.
    pub open spec fn rate(self) -> Amount {
        match self {
            CostCurve::Additive => Amount { mantissa: 105, scale: 2 },
            CostCurve::Multiplicative => Amount { mantissa: 19, scale: 1 },
            CostCurve::Exponential => Amount { mantissa: 114, scale: 2 },
        }
    }

    /// The factor by which each purchase multiplies the price.
    pub fn growth_rate(self) -> (r: Amount)
        ensures
            r == self.rate(),
            r.wf(),
            r.mantissa > 0,
    {
        match self {
            CostCurve::Additive => Amount { mantissa: 105, scale: 2 },
            CostCurve::Multiplicative => Amount { mantissa: 19, scale: 1 },
            CostCurve::Exponential => Amount { mantissa: 114, scale: 2 },
        }
    }
}

/// `base * rate^n` can be computed without rounding.
pub open spec fn cost_fits(base: Amount, rate: Amount, n: nat) -> bool {
    &&& power_fits(rate, n)
    &&& base.scale + n * rate.scale <= MAX_SCALE
    &&& fits_mantissa(base.mantissa * pow(rate.mantissa as int, n))
}

/// The exact value of `base * rate^n`, in units of `10^-28`.
pub open spec fn cost_units(base: Amount, rate: Amount, n: nat) -> int {
    units_of(base.mantissa * pow(rate.mantissa as int, n), base.scale + n * rate.scale)
}

/// A purchasable upgrade of one generator.
#[derive(Debug)]
pub struct Upgrade {
    pub generator_id: GeneratorId,
    pub name: String,
    pub effect: UpgradeEffect,
    pub upgrade_type: UpgradeType,
    pub curve: CostCurve,
    /// How many times it was bought.
    pub tier: u64,
    pub base_cost: Amount,
    /// The price of the next purchase.
    pub current_cost: Amount,
}

impl Upgrade {
    /// Prices and effect value are well-formed, non-negative decimals.
    pub open spec fn wf(&self) -> bool {
        &&& self.base_cost.wf()
        &&& self.base_cost.units() >= 0
        &&& self.current_cost.wf()
        &&& self.current_cost.units() >= 0
        &&& self.effect.wf()
    }

    /// The price is `base_cost * rate^tier`, wherever that needs no rounding.
    pub open spec fn cost_agrees(&self) -> bool {
        cost_fits(self.base_cost, self.curve.rate(), self.tier as nat) ==> self.current_cost.units()
            == cost_units(self.base_cost, self.curve.rate(), self.tier as nat)
    }

    /// An upgrade not bought yet, priced at `base_cost`; `None` when the price
    /// or the effect value is malformed or negative.
    pub fn new(
        generator_id: GeneratorId,
        name: String,
        effect: UpgradeEffect,
        upgrade_type: UpgradeType,
        curve: CostCurve,
        base_cost: Amount,
    ) -> (r: Option<Upgrade>)
        ensures
            r is Some <==> (base_cost.wf() && base_cost.units() >= 0 && effect.wf()),
            r matches Some(u) ==> {
                &&& u.wf()
                &&& u.cost_agrees()
                &&& u.generator_id == generator_id
                &&& u.name == name
                &&& u.effect == effect
                &&& u.upgrade_type == upgrade_type
                &&& u.curve == curve
                &&& u.tier == 0
                &&& u.base_cost == base_cost
                &&& u.current_cost == base_cost
            },
    {
        if base_cost.is_valid_non_negative() && effect.is_valid() {
            let u = Upgrade {
                generator_id,
                name,
                effect,
                upgrade_type,
                curve,
                tier: 0,
                base_cost,
                current_cost: base_cost,
            };
            proof {
                lemma_fresh_cost_agrees(u);
            }
            Some(u)
        } else {
            None
        }
    }

    /// The generator this upgrade acts on.
    pub fn check_intended_generator(&self) -> (r: GeneratorId)
        ensures
            r == self.generator_id,
    {
        self.generator_id
    }

    /// What a purchase does, and the effect it applies.
    pub fn check_type_and_effect(&self) -> (r: (UpgradeType, UpgradeEffect))
        ensures
            r == (self.upgrade_type, self.effect),
    {
        (self.upgrade_type, self.effect)
    }

    /// The price after `n` purchases, `base_cost * rate^n`; `None` when it
    /// cannot be represented.
    pub fn cost_for_tier(&self, n: u64) -> (r: Option<Amount>)
        requires
            self.wf(),
        ensures
            r matches Some(c) ==> c.wf() && c.units() >= 0,
            cost_fits(self.base_cost, self.curve.rate(), n as nat) ==> (r matches Some(c)
                && c.units() == cost_units(self.base_cost, self.curve.rate(), n as nat)),
    {
        let rate = self.curve.growth_rate();
        match rate.checked_pow(n) {
            None => None,
            Some(p) => {
                proof {
                    lemma_sign_of_units(p);
                    if cost_fits(self.base_cost, rate, n as nat) {
                        lemma_cost_product(self.base_cost, rate, n as nat, p);
                    }
                }
                self.base_cost.checked_mul(p)
            },
        }
    }
}

/// Each purchase multiplies the price by the curve's growth rate: wherever
/// `base * rate^(n + 1)` needs no rounding, neither does `base * rate^n`, and
/// the price after `n + 1` purchases is the price after `n` times the rate.
/// Values are in units of `10^-28`, so the product carries a factor `10^28`.
pub proof fn lemma_cost_growth(base: Amount, curve: CostCurve, n: nat)
    requires
        base.wf(),
        base.units() >= 0,
        cost_fits(base, curve.rate(), n + 1),
    ensures
        cost_fits(base, curve.rate(), n),
        cost_units(base, curve.rate(), n + 1) * pow10(MAX_SCALE as int) == cost_units(
            base,
            curve.rate(),
            n,
        ) * curve.rate().units(),
{
    let r = curve.rate();
    let rm = r.mantissa as int;
    let rs = r.scale as int;
    let bm = base.mantissa as int;
    let pn = pow(rm, n);
    let pn1 = pow(rm, n + 1);
    lemma_sign_of_units(base);
    lemma_pow_adds(rm, n, 1);
    lemma_pow1(rm);
    lemma_pow_positive(rm, n);
    assert(pn1 == pn * rm);
    assert(pn <= pn1) by (nonlinear_arith)
        requires
            pn1 == pn * rm,
            pn > 0,
            rm >= 1,
    ;
    assert(n * rs + rs == (n + 1) * rs) by (nonlinear_arith);
    assert(n * rs <= (n + 1) * rs) by (nonlinear_arith)
        requires
            rs >= 0,
    ;
    assert(0 <= bm * pn <= bm * pn1) by (nonlinear_arith)
        requires
            bm >= 0,
            0 < pn <= pn1,
    ;
    let a = MAX_SCALE - base.scale - (n + 1) * rs;
    lemma_pow10_adds(a + rs, MAX_SCALE - rs);
    lemma_pow10_adds(a, MAX_SCALE as int);
    let pa = pow10(a);
    let pars = pow10(a + rs);
    let p28 = pow10(MAX_SCALE as int);
    let prs = pow10(MAX_SCALE - rs);
    assert(cost_units(base, r, n + 1) == bm * pn1 * pa);
    assert(cost_units(base, r, n) == bm * pn * pars);
    assert(r.units() == rm * prs);
    assert(bm * pn1 * pa * p28 == bm * pn * pars * (rm * prs)) by (nonlinear_arith)
        requires
            pn1 == pn * rm,
            pars * prs == pa * p28,
    ;
}

/// An upgrade not bought yet, priced at its base cost, has the price its
/// tier calls for.
pub proof fn lemma_fresh_cost_agrees(u: Upgrade)
    requires
        u.tier == 0,
        u.current_cost == u.base_cost,
    ensures
        u.cost_agrees(),
{
    lemma_pow0(u.curve.rate().mantissa as int);
    assert(u.base_cost.mantissa * 1 == u.base_cost.mantissa);
}

/// With `p` the power `rate^n` as a decimal gives it (exact, maybe with
/// trailing zeros stripped), `base * p` needs no rounding and has the value
/// of `base * rate^n`.
proof fn lemma_cost_product(base: Amount, rate: Amount, n: nat, p: Amount)
    requires
        base.wf(),
        base.units() >= 0,
        rate.wf(),
        rate.mantissa > 0,
        p.wf(),
        cost_fits(base, rate, n),
        p.scale <= n * rate.scale,
        p.mantissa * pow10(n * rate.scale - p.scale) == pow(rate.mantissa as int, n),
    ensures
        product_fits(base, p),
        exact_product(base, p).units() == cost_units(base, rate, n),
{
    let k = n * rate.scale - p.scale;
    let pk = pow10(k);
    let rn = pow(rate.mantissa as int, n);
    let bm = base.mantissa as int;
    let pm = p.mantissa as int;
    lemma_sign_of_units(base);
    lemma_pow_positive(rate.mantissa as int, n);
    lemma_pow10_adds(k, MAX_SCALE - base.scale - n * rate.scale);
    assert(pm > 0 && pm <= rn) by (nonlinear_arith)
        requires
            pm * pk == rn,
            pk > 0,
            rn > 0,
    ;
    assert(0 <= bm * pm <= bm * rn) by (nonlinear_arith)
        requires
            bm >= 0,
            0 < pm <= rn,
    ;
    let rest = pow10(MAX_SCALE - base.scale - n * rate.scale);
    assert(bm * rn * rest == (bm * pm) * (pk * rest)) by (nonlinear_arith)
        requires
            pm * pk == rn,
    ;
    if bm * pm == 0 {
        assert(bm == 0) by (nonlinear_arith)
            requires
                bm * pm == 0,
                pm > 0,
        ;
    }
}

impl Detail for Upgrade {
    open spec fn name_view(&self) -> Seq<char> {
        self.name@
    }

    open spec fn quantity_view(&self) -> u64 {
        self.tier
    }

    fn check_name(&self) -> (r: &str) {
        self.name.as_str()
    }

    fn check_quantity(&self) -> (r: u64) {
        self.tier
    }
}

impl Cost for Upgrade {
    open spec fn cost_view(&self) -> Amount {
        self.current_cost
    }

    open spec fn cost_wf(&self) -> bool {
        self.wf()
    }

    open spec fn cost_current(&self) -> bool {
        self.cost_agrees()
    }

    open spec fn cost_computable(&self) -> bool {
        cost_fits(self.base_cost, self.curve.rate(), self.tier as nat)
    }

    open spec fn same_but_cost(&self, other: Self) -> bool {
        &&& self.generator_id == other.generator_id
        &&& self.name == other.name
        &&& self.effect == other.effect
        &&& self.upgrade_type == other.upgrade_type
        &&& self.curve == other.curve
        &&& self.tier == other.tier
        &&& self.base_cost == other.base_cost
    }

    fn check_cost(&self) -> (r: Amount) {
        self.current_cost
    }

    fn obtain_new_cost(&mut self) -> (r: Result<(), EconomyError>) {
        match self.cost_for_tier(self.tier) {
            Some(c) => {
                self.current_cost = c;
                Ok(())
            },
            None => Err(EconomyError::Overflow),
        }
    }
}

} // verus!
