//! The resource manager: the balance, the generators and the upgrades, with
//! time-based accrual, clicks and purchases.

use vstd::prelude::*;
use crate::amount::{
    Amount, aligned, difference_fits, exact_product, max_scale_of, pow10, product_fits, sum_fits,
    whole, within, lemma_pow10_adds, lemma_sign_of_units, lemma_sum_fits_by_value,
    lemma_times_whole, lemma_within_weakens, MAX_MANTISSA, MAX_SCALE,
};
use crate::clock::{elapsed_seconds, now_millis, seconds_between};
use crate::error::EconomyError;
use crate::generator::{boosted_rate, effect_applied, effect_fits, Generator, GeneratorId};
use crate::upgrade::{cost_fits, lemma_fresh_cost_agrees, CostCurve, Upgrade, UpgradeEffect, UpgradeType};

verus! {

/// The balance after `elapsed` seconds at `production` per second.
pub open spec fn accrue(balance: int, production: int, elapsed: int) -> int {
    balance + production * elapsed
}

/// The balance after a run of accruals at one production rate, lasting
/// `elapsed[0]`, `elapsed[1]`, ... seconds.
pub open spec fn accrue_all(balance: int, production: int, elapsed: Seq<int>) -> int
    decreases elapsed.len(),
{
    if elapsed.len() == 0 {
        balance
    } else {
        accrue(accrue_all(balance, production, elapsed.drop_last()), production, elapsed.last())
    }
}

/// The sum of `elapsed`.
pub open spec fn total_seconds(elapsed: Seq<int>) -> int
    decreases elapsed.len(),
{
    if elapsed.len() == 0 {
        0
    } else {
        total_seconds(elapsed.drop_last()) + elapsed.last()
    }
}

/// Accrual is additive: ticks of `e1, ..., en` seconds at one production
/// rate add that production times `e1 + ... + en` to the balance.
pub proof fn lemma_accrual_additive(balance: int, production: int, elapsed: Seq<int>)
    ensures
        accrue_all(balance, production, elapsed) == balance + production * total_seconds(elapsed),
    decreases elapsed.len(),
{
    if elapsed.len() > 0 {
        lemma_accrual_additive(balance, production, elapsed.drop_last());
        let t = total_seconds(elapsed.drop_last());
        let e = elapsed.last();
        assert(production * (t + e) == production * t + production * e) by (nonlinear_arith);
    }
}

/// A second tick at the same instant finds no whole second elapsed, and so
/// changes nothing.
pub proof fn lemma_tick_same_instant(last: int, now: int)
    ensures
        elapsed_seconds(next_tick_time(last, now), now) == 0,
{
}

/// Replacing one well-formed upgrade of a well-formed list, and keeping the
/// others, leaves a well-formed list.
proof fn lemma_one_upgrade_replaced(before: Seq<Upgrade>, after: Seq<Upgrade>, i: int)
    requires
        forall|j: int| 0 <= j < before.len() ==> (#[trigger] before[j]).wf() && before[j].cost_agrees(),
        after.len() == before.len(),
        0 <= i < before.len(),
        forall|j: int| 0 <= j < before.len() && j != i ==> after[j] == before[j],
        after[i].wf(),
        after[i].cost_agrees(),
    ensures
        forall|j: int| 0 <= j < after.len() ==> (#[trigger] after[j]).wf() && after[j].cost_agrees(),
{
    assert forall|j: int| 0 <= j < after.len() implies (#[trigger] after[j]).wf()
        && after[j].cost_agrees() by {
        if j != i {
            assert(after[j] == before[j]);
        }
    }
}

/// When the last accrual happened, after a tick at `now`: the clock moves on
/// only once a whole second has passed.
pub open spec fn next_tick_time(last: int, now: int) -> int {
    if elapsed_seconds(last, now) >= 1 {
        now
    } else {
        last
    }
}

/// What buying `u` does to the generator it targets, as far as no rounding
/// takes place.
pub open spec fn purchase_effect(old_g: Generator, new_g: Generator, u: Upgrade) -> bool {
    &&& new_g.id == old_g.id
    &&& new_g.name == old_g.name
    &&& match u.upgrade_type {
        UpgradeType::AutoClickerQuantity => new_g.quantity == old_g.quantity + 1
            && new_g.production_rate == old_g.production_rate,
        UpgradeType::ProductionBoost => new_g.quantity == old_g.quantity && effect_applied(
            old_g.production_rate,
            new_g.production_rate,
            u.effect,
        ),
    }
}

/// Buying `u` adds a unit of generator `id`.
pub open spec fn adds_units_of(u: Upgrade, id: GeneratorId) -> bool {
    u.generator_id == id && u.upgrade_type == UpgradeType::AutoClickerQuantity
}

/// All of `new` but its tier and price are those of `old`.
pub open spec fn same_upgrade_but_price(old: Upgrade, new: Upgrade) -> bool {
    &&& new.generator_id == old.generator_id
    &&& new.name == old.name
    &&& new.effect == old.effect
    &&& new.upgrade_type == old.upgrade_type
    &&& new.curve == old.curve
    &&& new.base_cost == old.base_cost
}

/// The economy of one game session.
#[derive(Debug)]
pub struct ResourceManager {
    /// The balance.
    pub electrons: Amount,
    /// The generator that produces on a click.
    pub clicker: Generator,
    /// The generator that produces every second.
    pub auto_clicker: Generator,
    pub upgrades: Vec<Upgrade>,
    /// When the balance last accrued, in milliseconds since the Unix epoch.
    pub time: i64,
}

impl ResourceManager {
    /// The balance is never negative, each generator sits under its own
    /// identifier, and each upgrade's price agrees with its tier.
    pub open spec fn wf(&self) -> bool {
        &&& self.electrons.wf()
        &&& self.electrons.units() >= 0
        &&& self.clicker.wf()
        &&& self.clicker.id == GeneratorId::Clicker
        &&& self.auto_clicker.wf()
        &&& self.auto_clicker.id == GeneratorId::AutoClicker
        &&& forall|i: int|
            0 <= i < self.upgrades@.len() ==> #[trigger] self.upgrades@[i].wf()
                && self.upgrades@[i].cost_agrees()
    }

    /// The generator with identifier `id`.
    pub open spec fn generator_spec(&self, id: GeneratorId) -> Generator {
        match id {
            GeneratorId::Clicker => self.clicker,
            GeneratorId::AutoClicker => self.auto_clicker,
        }
    }

    /// What the passive generators produce per second, in units of `10^-28`.
    pub open spec fn passive_production(&self) -> int {
        self.auto_clicker.production_units()
    }

    /// The most decimal places among the balance and the passive rate.
    pub open spec fn accrual_scale(&self) -> int {
        max_scale_of(self.electrons, self.auto_clicker.production_rate)
    }

    /// Accruing `elapsed` seconds of passive production needs no rounding:
    /// the new balance is within the range of the decimal places already in
    /// use.
    pub open spec fn accrual_fits(&self, elapsed: int) -> bool {
        within(
            accrue(self.electrons.units(), self.passive_production(), elapsed),
            self.accrual_scale(),
        )
    }

    /// Clicking generator `id` needs no rounding.
    pub open spec fn click_fits(&self, id: GeneratorId) -> bool {
        let g = self.generator_spec(id);
        &&& g.production_fits()
        &&& sum_fits(self.electrons, exact_product(g.production_rate, whole(g.quantity as int)))
    }

    /// Buying upgrade `i` needs no rounding and no count leaves its range.
    pub open spec fn purchase_fits(&self, i: int) -> bool {
        let u = self.upgrades@[i];
        let g = self.generator_spec(u.generator_id);
        &&& u.tier < u64::MAX
        &&& cost_fits(u.base_cost, u.curve.rate(), (u.tier + 1) as nat)
        &&& difference_fits(self.electrons, u.current_cost)
        &&& match u.upgrade_type {
            UpgradeType::AutoClickerQuantity => g.quantity < u64::MAX,
            UpgradeType::ProductionBoost => effect_fits(g.production_rate, u.effect),
        }
    }

    /// `next` is this economy after buying upgrade `i` at time `now`: the
    /// price is paid, the tier goes up by one, the upgrade acts on its
    /// generator, and the first unit of a passive generator restarts the
    /// clock; nothing else changes.
    pub open spec fn purchase_made(&self, next: ResourceManager, i: int, now: int) -> bool {
        let u = self.upgrades@[i];
        let nu = next.upgrades@[i];
        let id = u.generator_id;
        &&& 0 <= i < self.upgrades@.len()
        &&& self.electrons.units() >= u.current_cost.units()
        &&& difference_fits(self.electrons, u.current_cost) ==> next.electrons.units()
            == self.electrons.units() - u.current_cost.units() && next.electrons.scale
            <= max_scale_of(self.electrons, u.current_cost)
        &&& next.upgrades@.len() == self.upgrades@.len()
        &&& forall|j: int|
            0 <= j < self.upgrades@.len() && j != i ==> #[trigger] next.upgrades@[j]
                == self.upgrades@[j]
        &&& nu.tier == u.tier + 1
        &&& same_upgrade_but_price(u, nu)
        &&& purchase_effect(self.generator_spec(id), next.generator_spec(id), u)
        &&& id == GeneratorId::Clicker ==> next.auto_clicker == self.auto_clicker
        &&& id == GeneratorId::AutoClicker ==> next.clicker == self.clicker
        &&& next.time as int == if u.upgrade_type == UpgradeType::AutoClickerQuantity && id
            != GeneratorId::Clicker && self.generator_spec(id).quantity == 0 {
            now
        } else {
            self.time as int
        }
    }

    /// Upgrade `i` is the first in the list that adds units of generator `id`.
    pub open spec fn is_first_unit_seller(&self, i: int, id: GeneratorId) -> bool {
        &&& 0 <= i < self.upgrades@.len()
        &&& adds_units_of(self.upgrades@[i], id)
        &&& forall|j: int| 0 <= j < i ==> !adds_units_of(#[trigger] self.upgrades@[j], id)
    }

    /// Where accruing `elapsed >= 1` seconds fits, so does each step of it:
    /// rate times quantity, that times the seconds, and the sum with the
    /// balance; the gain has no more places than the rate.
    proof fn lemma_accrual_step(&self, elapsed: int)
        requires
            self.wf(),
            1 <= elapsed <= u64::MAX,
            self.accrual_fits(elapsed),
        ensures
            self.auto_clicker.production_fits(),
            product_fits(
                exact_product(
                    self.auto_clicker.production_rate,
                    whole(self.auto_clicker.quantity as int),
                ),
                whole(elapsed),
            ),
            ({
                let p = exact_product(
                    self.auto_clicker.production_rate,
                    whole(self.auto_clicker.quantity as int),
                );
                let gain = exact_product(p, whole(elapsed));
                &&& gain.scale <= self.auto_clicker.production_rate.scale
                &&& gain.units() == self.passive_production() * elapsed
                &&& sum_fits(self.electrons, gain)
            }),
    {
        let rate = self.auto_clicker.production_rate;
        let q = self.auto_clicker.quantity as int;
        let b = self.electrons.units();
        let pr = self.passive_production();
        let rm = rate.mantissa as int;
        let prs = pow10(MAX_SCALE - rate.scale);
        lemma_sign_of_units(rate);
        lemma_pow10_adds(MAX_SCALE - rate.scale, 0);
        assert(pr * elapsed == rm * q * elapsed * prs && pr >= 0 && pr * elapsed >= 0)
            by (nonlinear_arith)
            requires
                pr == (rm * prs) * q,
                rm >= 0,
                q >= 0,
                prs > 0,
                elapsed >= 1,
        ;
        lemma_within_weakens(pr * elapsed, b + pr * elapsed, rate.scale as int, self.accrual_scale());
        assert(0 <= rm * q <= rm * q * elapsed <= MAX_MANTISSA) by (nonlinear_arith)
            requires
                rm * q * elapsed * prs <= MAX_MANTISSA * prs,
                rm >= 0,
                q >= 0,
                prs > 0,
                elapsed >= 1,
        ;
        let p = exact_product(rate, whole(q));
        assert(whole(q).mantissa == q);
        assert(self.auto_clicker.production_fits());
        assert(p.mantissa == rm * q);
        assert(whole(elapsed).mantissa == elapsed);
        assert(product_fits(p, whole(elapsed)));
        lemma_times_whole(rate, q);
        lemma_times_whole(p, elapsed);
        let gain = exact_product(p, whole(elapsed));
        lemma_sum_fits_by_value(self.electrons, gain, self.accrual_scale());
    }

    /// Splitting a tick's time in two keeps the accrual exact and gives the
    /// same balance: where accruing `e1 + e2` seconds fits, accruing `e1` fits,
    /// and from the balance it leaves (as `tick` leaves it) accruing `e2` fits
    /// and reaches the balance that `e1 + e2` seconds at once would.
    pub proof fn lemma_accrual_splits(
        before: ResourceManager,
        after: ResourceManager,
        e1: int,
        e2: int,
    )
        requires
            before.wf(),
            e1 >= 0,
            e2 >= 0,
            before.accrual_fits(e1 + e2),
            after.auto_clicker == before.auto_clicker,
            after.electrons.units() == accrue(
                before.electrons.units(),
                before.passive_production(),
                e1,
            ),
            after.electrons.scale <= before.accrual_scale(),
        ensures
            before.accrual_fits(e1),
            after.accrual_fits(e2),
            accrue(after.electrons.units(), after.passive_production(), e2) == accrue(
                before.electrons.units(),
                before.passive_production(),
                e1 + e2,
            ),
    {
        let b = before.electrons.units();
        let pr = before.passive_production();
        let rate = before.auto_clicker.production_rate;
        lemma_sign_of_units(rate);
        assert(pr >= 0 && pr * e1 <= pr * (e1 + e2) && pr * (e1 + e2) == pr * e1 + pr * e2)
            by (nonlinear_arith)
            requires
                pr == rate.units() * before.auto_clicker.quantity,
                rate.units() >= 0,
                e1 >= 0,
                e2 >= 0,
        ;
        lemma_within_weakens(
            b + pr * e1,
            b + pr * (e1 + e2),
            before.accrual_scale(),
            before.accrual_scale(),
        );
        lemma_within_weakens(
            b + pr * (e1 + e2),
            b + pr * (e1 + e2),
            after.accrual_scale(),
            before.accrual_scale(),
        );
    }

    /// A new session at time `now` (milliseconds): no balance, one Scoop
    /// (the clicker) producing 1 per click, no AutoScooper yet (1 per second
    /// each), and three upgrades: a click boost and an AutoScooper at 15,
    /// and an AutoScooper boost at 30.
    pub fn new(now: i64) -> (r: ResourceManager)
        ensures
            r.wf(),
            r.electrons.units() == 0,
            r.clicker.id == GeneratorId::Clicker,
            r.clicker.name@ == "Scoop"@,
            r.clicker.quantity == 1,
            r.clicker.production_rate == whole(1),
            r.auto_clicker.id == GeneratorId::AutoClicker,
            r.auto_clicker.name@ == "AutoScooper"@,
            r.auto_clicker.quantity == 0,
            r.auto_clicker.production_rate == whole(1),
            r.time == now,
            r.upgrades@.len() == 3,
            r.upgrades@[0].generator_id == GeneratorId::Clicker,
            r.upgrades@[0].upgrade_type == UpgradeType::ProductionBoost,
            r.upgrades@[0].current_cost == whole(15),
            r.upgrades@[0].base_cost == whole(15),
            r.upgrades@[0].effect == UpgradeEffect::Additive(whole(1)),
            r.upgrades@[0].curve == CostCurve::Additive,
            r.upgrades@[0].name@ == "Even More: Increase Electrons Per Click"@,
            r.upgrades@[1].generator_id == GeneratorId::AutoClicker,
            r.upgrades@[1].upgrade_type == UpgradeType::AutoClickerQuantity,
            r.upgrades@[1].current_cost == whole(15),
            r.upgrades@[1].base_cost == whole(15),
            r.upgrades@[1].effect == UpgradeEffect::Additive(whole(1)),
            r.upgrades@[1].curve == CostCurve::Additive,
            r.upgrades@[1].name@ == "AutoScooper: Add AutoScooper"@,
            r.upgrades@[2].generator_id == GeneratorId::AutoClicker,
            r.upgrades@[2].upgrade_type == UpgradeType::ProductionBoost,
            r.upgrades@[2].current_cost == whole(30),
            r.upgrades@[2].base_cost == whole(30),
            r.upgrades@[2].effect == UpgradeEffect::Multiplicative(whole(1)),
            r.upgrades@[2].curve == CostCurve::Multiplicative,
            r.upgrades@[2].name@ == "AutoScooper: Increase Scooped Amount"@,
            forall|i: int| 0 <= i < 3 ==> #[trigger] r.upgrades@[i].tier == 0,
    {
        let one = Amount::from_u64(1);
        let fifteen = Amount::from_u64(15);
        let thirty = Amount::from_u64(30);
        proof {
            lemma_sign_of_units(one);
            lemma_sign_of_units(fifteen);
            lemma_sign_of_units(thirty);
        }
        let upgrades = vec![
            Upgrade {
                generator_id: GeneratorId::Clicker,
                name: "Even More: Increase Electrons Per Click".to_owned(),
                effect: UpgradeEffect::Additive(one),
                upgrade_type: UpgradeType::ProductionBoost,
                curve: CostCurve::Additive,
                tier: 0,
                base_cost: fifteen,
                current_cost: fifteen,
            },
            Upgrade {
                generator_id: GeneratorId::AutoClicker,
                name: "AutoScooper: Add AutoScooper".to_owned(),
                effect: UpgradeEffect::Additive(one),
                upgrade_type: UpgradeType::AutoClickerQuantity,
                curve: CostCurve::Additive,
                tier: 0,
                base_cost: fifteen,
                current_cost: fifteen,
            },
            Upgrade {
                generator_id: GeneratorId::AutoClicker,
                name: "AutoScooper: Increase Scooped Amount".to_owned(),
                effect: UpgradeEffect::Multiplicative(one),
                upgrade_type: UpgradeType::ProductionBoost,
                curve: CostCurve::Multiplicative,
                tier: 0,
                base_cost: thirty,
                current_cost: thirty,
            },
        ];
        proof {
            lemma_fresh_cost_agrees(upgrades@[0]);
            lemma_fresh_cost_agrees(upgrades@[1]);
            lemma_fresh_cost_agrees(upgrades@[2]);
        }
        ResourceManager {
            electrons: Amount::zero(),
            clicker: Generator {
                id: GeneratorId::Clicker,
                name: "Scoop".to_owned(),
                quantity: 1,
                production_rate: one,
            },
            auto_clicker: Generator {
                id: GeneratorId::AutoClicker,
                name: "AutoScooper".to_owned(),
                quantity: 0,
                production_rate: one,
            },
            upgrades,
            time: now,
        }
    }

    /// The balance.
    pub fn electron_quantity(&self) -> (r: Amount)
        ensures
            r == self.electrons,
    {
        self.electrons
    }

    /// The generator with identifier `id`.
    pub fn generator(&self, id: GeneratorId) -> (r: &Generator)
        ensures
            *r == self.generator_spec(id),
    {
        match id {
            GeneratorId::Clicker => &self.clicker,
            GeneratorId::AutoClicker => &self.auto_clicker,
        }
    }

    /// Whether the balance covers `cost`.
    pub fn can_purchase(&self, cost: Amount) -> (r: bool)
        requires
            self.wf(),
            cost.wf(),
        ensures
            r == (self.electrons.units() >= cost.units()),
    {
        self.electrons.at_least(cost)
    }

    /// Accrues passive production for the whole seconds since the last
    /// accrual and returns them; `now` is a clock reading no earlier than the
    /// last accrual. The Clicker produces only on a click. Less than a second
    /// changes nothing; on `Err(Overflow)` nothing changes.
    pub fn tick(&mut self, now: i64) -> (r: Result<u64, EconomyError>)
        requires
            old(self).wf(),
            now >= old(self).time,
        ensures
            final(self).wf(),
            final(self).clicker == old(self).clicker,
            final(self).auto_clicker == old(self).auto_clicker,
            final(self).upgrades == old(self).upgrades,
            elapsed_seconds(old(self).time as int, now as int) == 0 ==> r == Ok::<u64, EconomyError>(0)
                && *final(self) == *old(self),
            r matches Ok(e) ==> e == elapsed_seconds(old(self).time as int, now as int)
                && final(self).time == next_tick_time(old(self).time as int, now as int),
            r is Ok ==> elapsed_seconds(final(self).time as int, now as int) == 0,
            r is Err ==> r == Err::<u64, EconomyError>(EconomyError::Overflow) && *final(self)
                == *old(self),
            old(self).accrual_fits(elapsed_seconds(old(self).time as int, now as int)) ==> (r is Ok
                && final(self).electrons.units() == accrue(
                old(self).electrons.units(),
                old(self).passive_production(),
                elapsed_seconds(old(self).time as int, now as int),
            ) && final(self).electrons.scale <= old(self).accrual_scale()),
    {
        let elapsed = seconds_between(self.time, now);
        proof {
            lemma_tick_same_instant(self.time as int, now as int);
        }
        if elapsed == 0 {
            return Ok(0);
        }
        proof {
            if self.accrual_fits(elapsed as int) {
                self.lemma_accrual_step(elapsed as int);
            }
        }
        let production = match self.auto_clicker.calculate_production() {
            Some(p) => p,
            None => {
                return Err(EconomyError::Overflow);
            },
        };
        let seconds = Amount::from_u64(elapsed);
        proof {
            lemma_sign_of_units(seconds);
        }
        let gain = match production.checked_mul(seconds) {
            Some(g) => g,
            None => {
                return Err(EconomyError::Overflow);
            },
        };
        let balance = match self.electrons.checked_add(gain) {
            Some(b) => b,
            None => {
                return Err(EconomyError::Overflow);
            },
        };
        self.electrons = balance;
        self.time = now;
        Ok(elapsed)
    }

    /// Reads the clock and accrues passive production up to now, as `tick`
    /// does; a reading earlier than the last accrual changes nothing.
    pub fn update(&mut self) -> (r: Result<u64, EconomyError>)
        requires
            old(self).wf(),
        ensures
            final(self).wf(),
            final(self).clicker == old(self).clicker,
            final(self).auto_clicker == old(self).auto_clicker,
            final(self).upgrades == old(self).upgrades,
            r == Ok::<u64, EconomyError>(0) ==> *final(self) == *old(self),
            r matches Ok(e) ==> (e >= 1 ==> final(self).time > old(self).time),
            r matches Ok(e) ==> (old(self).accrual_fits(e as int) ==> final(self).electrons.units()
                == accrue(old(self).electrons.units(), old(self).passive_production(), e as int)),
            r is Err ==> r == Err::<u64, EconomyError>(EconomyError::Overflow) && *final(self)
                == *old(self),
    {
        let now = now_millis();
        if now < self.time {
            assert(self.passive_production() * 0 == 0);
            return Ok(0);
        }
        self.tick(now)
    }

    /// Adds what generator `id` produces to the balance, once. On
    /// `Err(Overflow)` nothing changes.
    pub fn click(&mut self, id: GeneratorId) -> (r: Result<(), EconomyError>)
        requires
            old(self).wf(),
        ensures
            final(self).wf(),
            final(self).clicker == old(self).clicker,
            final(self).auto_clicker == old(self).auto_clicker,
            final(self).upgrades == old(self).upgrades,
            final(self).time == old(self).time,
            r is Err ==> r == Err::<(), EconomyError>(EconomyError::Overflow) && *final(self)
                == *old(self),
            old(self).click_fits(id) ==> (r is Ok && final(self).electrons.units() == old(
                self,
            ).electrons.units() + old(self).generator_spec(id).production_units()
                && final(self).electrons.scale <= max_scale_of(
                old(self).electrons,
                old(self).generator_spec(id).production_rate,
            )),
            old(self).generator_spec(id).quantity == 0 ==> (r is Ok
                && final(self).electrons.units() == old(self).electrons.units()),
    {
        let production = match self.generator(id).calculate_production() {
            Some(p) => p,
            None => {
                return Err(EconomyError::Overflow);
            },
        };
        proof {
            if self.generator_spec(id).quantity == 0 {
                vstd::arithmetic::power::lemma_pow0(10);
                let e = self.electrons;
                let g = self.generator_spec(id);
                assert(g.production_rate.mantissa * 0 == 0);
                assert(g.production_fits());
                assert(production.scale == 0);
                assert(aligned(e, e.scale as int) == e.mantissa);
                assert(aligned(production, e.scale as int) == 0);
                assert(sum_fits(e, production));
                assert(self.click_fits(id));
                assert(self.generator_spec(id).production_units() == 0) by (nonlinear_arith)
                    requires
                        self.generator_spec(id).quantity == 0,
                ;
            }
        }
        match self.electrons.checked_add(production) {
            Some(b) => {
                self.electrons = b;
                Ok(())
            },
            None => Err(EconomyError::Overflow),
        }
    }

    /// Buys upgrade `index` at its current price; `now` (milliseconds) is
    /// when the first unit of a passive generator starts producing. Fails
    /// with `UnknownId` for an index past the list, with `InsufficientFunds`
    /// when the balance is below the price, and with `Overflow` when a count
    /// or the next price cannot be held; on any error nothing changes.
    pub fn purchase_upgrade(&mut self, index: usize, now: i64) -> (r: Result<(), EconomyError>)
        requires
            old(self).wf(),
        ensures
            final(self).wf(),
            index >= old(self).upgrades@.len() ==> r == Err::<(), EconomyError>(
                EconomyError::UnknownId,
            ),
            index < old(self).upgrades@.len() && old(self).electrons.units() < old(
                self,
            ).upgrades@[index as int].current_cost.units() ==> r == Err::<(), EconomyError>(
                EconomyError::InsufficientFunds,
            ),
            r is Err ==> *final(self) == *old(self),
            r is Ok ==> old(self).purchase_made(*final(self), index as int, now as int),
            index < old(self).upgrades@.len() && old(self).electrons.units() >= old(
                self,
            ).upgrades@[index as int].current_cost.units() && old(self).purchase_fits(index as int)
                ==> r is Ok,
    {
        if index >= self.upgrades.len() {
            return Err(EconomyError::UnknownId);
        }
        let ghost before = self.upgrades@;
        proof {
            assert(self.upgrades@[index as int].wf());
            assert forall|j: int| 0 <= j < before.len() implies #[trigger] before[j].wf()
                && before[j].cost_agrees() by {
                assert(self.upgrades@[j].wf());
            }
        }
        let cost = self.upgrades[index].current_cost;
        if !self.electrons.at_least(cost) {
            return Err(EconomyError::InsufficientFunds);
        }
        let tier: u64 = self.upgrades[index].tier;
        if tier == u64::MAX {
            return Err(EconomyError::Overflow);
        }
        let next_cost = match self.upgrades[index].cost_for_tier(tier + 1) {
            Some(c) => c,
            None => {
                return Err(EconomyError::Overflow);
            },
        };
        let balance = match self.electrons.checked_sub(cost) {
            Some(b) => b,
            None => {
                return Err(EconomyError::Overflow);
            },
        };
        let id = self.upgrades[index].generator_id;
        let upgrade_type = self.upgrades[index].upgrade_type;
        let effect = self.upgrades[index].effect;
        let old_quantity: u64 = self.generator(id).quantity;
        let old_rate = self.generator(id).production_rate;
        let (quantity, rate): (u64, Amount) = match upgrade_type {
            UpgradeType::AutoClickerQuantity => {
                if old_quantity == u64::MAX {
                    return Err(EconomyError::Overflow);
                }
                (old_quantity + 1, old_rate)
            },
            UpgradeType::ProductionBoost => match boosted_rate(old_rate, effect) {
                Some(boosted) => (old_quantity, boosted),
                None => {
                    return Err(EconomyError::Overflow);
                },
            },
        };
        self.electrons = balance;
        self.upgrades[index].tier = tier + 1;
        self.upgrades[index].current_cost = next_cost;
        match id {
            GeneratorId::Clicker => {
                self.clicker.quantity = quantity;
                self.clicker.production_rate = rate;
            },
            GeneratorId::AutoClicker => {
                self.auto_clicker.quantity = quantity;
                self.auto_clicker.production_rate = rate;
            },
        }
        if upgrade_type == UpgradeType::AutoClickerQuantity && id == GeneratorId::AutoClicker
            && old_quantity == 0 {
            self.time = now;
        }
        proof {
            let nu = self.upgrades@[index as int];
            assert(nu.tier == tier + 1);
            assert(nu.current_cost == next_cost);
            assert(nu.wf() && nu.cost_agrees());
            assert forall|k: int| 0 <= k < before.len() && k != index as int implies self.upgrades@[k]
                == before[k] by {}
            lemma_one_upgrade_replaced(before, self.upgrades@, index as int);
        }
        Ok(())
    }

    /// The index of the first upgrade that adds units of generator `id`.
    pub fn unit_upgrade(&self, id: GeneratorId) -> (r: Option<usize>)
        ensures
            r matches Some(i) ==> self.is_first_unit_seller(i as int, id),
            r is None ==> forall|j: int|
                0 <= j < self.upgrades@.len() ==> !adds_units_of(#[trigger] self.upgrades@[j], id),
    {
        let mut i: usize = 0;
        while i < self.upgrades.len()
            invariant
                0 <= i <= self.upgrades@.len(),
                forall|j: int| 0 <= j < i ==> !adds_units_of(#[trigger] self.upgrades@[j], id),
            decreases self.upgrades@.len() - i,
        {
            if self.upgrades[i].generator_id == id && self.upgrades[i].upgrade_type
                == UpgradeType::AutoClickerQuantity {
                return Some(i);
            }
            i = i + 1;
        }
        None
    }

    /// Buys one more unit of generator `id` through the first upgrade that
    /// adds units of it, at that upgrade's price and as `purchase_upgrade`
    /// does. Fails with `UnknownId` when no upgrade adds units of `id`; on
    /// any error nothing changes.
    pub fn purchase_generator(&mut self, id: GeneratorId, now: i64) -> (r: Result<(), EconomyError>)
        requires
            old(self).wf(),
        ensures
            final(self).wf(),
            (forall|j: int|
                0 <= j < old(self).upgrades@.len() ==> !adds_units_of(
                    #[trigger] old(self).upgrades@[j],
                    id,
                )) ==> r == Err::<(), EconomyError>(EconomyError::UnknownId),
            r is Err ==> *final(self) == *old(self),
            forall|i: int| #[trigger]
                old(self).is_first_unit_seller(i, id) ==> {
                    &&& r is Ok ==> old(self).purchase_made(*final(self), i, now as int)
                    &&& old(self).electrons.units() < old(self).upgrades@[i].current_cost.units()
                        ==> r == Err::<(), EconomyError>(EconomyError::InsufficientFunds)
                    &&& old(self).electrons.units() >= old(self).upgrades@[i].current_cost.units()
                        && old(self).purchase_fits(i) ==> r is Ok
                },
    {
        match self.unit_upgrade(id) {
            Some(i) => {
                let r = self.purchase_upgrade(i, now);
                proof {
                    assert forall|k: int| #[trigger] old(self).is_first_unit_seller(k, id) implies k
                        == i as int by {
                        if k < i as int {
                            assert(!adds_units_of(old(self).upgrades@[k], id));
                        } else if k > i as int {
                            assert(!adds_units_of(old(self).upgrades@[i as int], id));
                        }
                    }
                }
                r
            },
            None => Err(EconomyError::UnknownId),
        }
    }
}

} // verus!
