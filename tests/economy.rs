use element_idle::amount::Amount;
use element_idle::detail::{Cost, Detail};
use element_idle::economy::ResourceManager;
use element_idle::error::EconomyError;
use element_idle::generator::{boosted_rate, Generator, GeneratorId};
use element_idle::upgrade::{CostCurve, Upgrade, UpgradeEffect, UpgradeType};

fn dec(mantissa: i128, scale: u32) -> Amount {
    Amount::new(mantissa, scale).unwrap()
}

fn balance_is(m: &ResourceManager, expected: Amount) -> bool {
    m.electron_quantity().same_value(expected)
}

#[test]
fn new_session_roster() {
    let m = ResourceManager::new(1234);
    assert!(balance_is(&m, Amount::zero()));
    assert_eq!(m.time, 1234);
    assert_eq!(m.generator(GeneratorId::Clicker).check_quantity(), 1);
    assert_eq!(m.generator(GeneratorId::Clicker).check_name(), "Scoop");
    assert_eq!(m.generator(GeneratorId::AutoClicker).check_quantity(), 0);
    assert_eq!(m.generator(GeneratorId::AutoClicker).check_name(), "AutoScooper");
    assert_eq!(m.upgrades.len(), 3);
    assert!(m.upgrades[0].check_cost().same_value(dec(15, 0)));
    assert!(m.upgrades[1].check_cost().same_value(dec(15, 0)));
    assert!(m.upgrades[2].check_cost().same_value(dec(30, 0)));
    assert_eq!(m.upgrades[1].check_name(), "AutoScooper: Add AutoScooper");
    assert_eq!(m.upgrades[1].check_intended_generator(), GeneratorId::AutoClicker);
    assert_eq!(m.upgrades[1].check_type_and_effect().0, UpgradeType::AutoClickerQuantity);
}

#[test]
fn five_clicks_give_five() {
    let mut m = ResourceManager::new(0);
    for _ in 0..5 {
        assert_eq!(m.click(GeneratorId::Clicker), Ok(()));
    }
    assert!(balance_is(&m, dec(5, 0)));
}

#[test]
fn click_on_empty_generator_changes_nothing() {
    let mut m = ResourceManager::new(0);
    m.electrons = dec(7, 0);
    assert_eq!(m.click(GeneratorId::AutoClicker), Ok(()));
    assert!(balance_is(&m, dec(7, 0)));
}

#[test]
fn buy_first_auto_clicker() {
    let mut m = ResourceManager::new(0);
    m.electrons = dec(15, 0);
    assert_eq!(m.purchase_upgrade(1, 42_000), Ok(()));
    assert!(balance_is(&m, Amount::zero()));
    assert_eq!(m.auto_clicker.quantity, 1);
    assert_eq!(m.time, 42_000);
    assert_eq!(m.upgrades[1].check_quantity(), 1);
    assert!(m.upgrades[1].check_cost().same_value(dec(1575, 2)));
}

#[test]
fn ten_seconds_with_one_auto_clicker() {
    let mut m = ResourceManager::new(0);
    m.electrons = dec(15, 0);
    assert_eq!(m.purchase_upgrade(1, 1_000), Ok(()));
    assert_eq!(m.tick(11_000), Ok(10));
    assert!(balance_is(&m, dec(10, 0)));
    assert_eq!(m.time, 11_000);
}

#[test]
fn insufficient_funds_change_nothing() {
    let mut m = ResourceManager::new(0);
    m.electrons = dec(10, 0);
    assert_eq!(m.purchase_upgrade(2, 0), Err(EconomyError::InsufficientFunds));
    assert!(balance_is(&m, dec(10, 0)));
    assert_eq!(m.upgrades[2].tier, 0);
    assert!(m.upgrades[2].current_cost.same_value(dec(30, 0)));
}

#[test]
fn unknown_upgrade() {
    let mut m = ResourceManager::new(0);
    m.electrons = dec(100, 0);
    assert_eq!(m.purchase_upgrade(3, 0), Err(EconomyError::UnknownId));
    assert!(balance_is(&m, dec(100, 0)));
}

#[test]
fn full_generator_count_overflows() {
    let mut m = ResourceManager::new(0);
    m.electrons = dec(100, 0);
    m.auto_clicker.quantity = u64::MAX;
    assert_eq!(m.purchase_upgrade(1, 0), Err(EconomyError::Overflow));
    assert!(balance_is(&m, dec(100, 0)));
    assert_eq!(m.upgrades[1].tier, 0);
}

#[test]
fn accrual_overflow_changes_nothing() {
    let mut m = ResourceManager::new(0);
    m.electrons = dec(79228162514264337593543950335, 0);
    m.auto_clicker.quantity = 1;
    assert_eq!(m.tick(5_000), Err(EconomyError::Overflow));
    assert_eq!(m.time, 0);
    assert!(balance_is(&m, dec(79228162514264337593543950335, 0)));
}

#[test]
fn repeated_purchases_grow_the_price() {
    let mut m = ResourceManager::new(0);
    m.electrons = dec(1000, 0);
    let rate = CostCurve::Additive.growth_rate();
    for _ in 0..5 {
        let before = m.upgrades[0].check_cost();
        assert_eq!(m.purchase_upgrade(0, 0), Ok(()));
        let after = m.upgrades[0].check_cost();
        assert!(after.same_value(before.checked_mul(rate).unwrap()));
        assert!(!after.same_value(before));
    }
    assert_eq!(m.upgrades[0].tier, 5);
    assert!(m.upgrades[0].check_cost().same_value(dec(191442234375, 10)));
}

#[test]
fn click_boost_adds_to_rate() {
    let mut m = ResourceManager::new(0);
    m.electrons = dec(15, 0);
    assert_eq!(m.purchase_upgrade(0, 0), Ok(()));
    assert!(m.clicker.production_rate.same_value(dec(2, 0)));
    assert_eq!(m.click(GeneratorId::Clicker), Ok(()));
    assert!(balance_is(&m, dec(2, 0)));
}

#[test]
fn tick_twice_at_same_instant() {
    let mut m = ResourceManager::new(0);
    m.auto_clicker.quantity = 3;
    assert_eq!(m.tick(2_500), Ok(2));
    assert!(balance_is(&m, dec(6, 0)));
    assert_eq!(m.tick(2_500), Ok(0));
    assert!(balance_is(&m, dec(6, 0)));
    assert_eq!(m.time, 2_500);
}

#[test]
fn under_a_second_accrues_nothing() {
    let mut m = ResourceManager::new(1_000);
    m.auto_clicker.quantity = 1;
    assert_eq!(m.tick(1_999), Ok(0));
    assert_eq!(m.time, 1_000);
    assert!(balance_is(&m, Amount::zero()));
}

#[test]
fn accrual_adds_up_over_ticks() {
    let mut split = ResourceManager::new(0);
    split.auto_clicker.quantity = 2;
    assert_eq!(split.tick(3_000), Ok(3));
    assert_eq!(split.tick(7_000), Ok(4));
    assert_eq!(split.tick(12_000), Ok(5));
    let mut whole = ResourceManager::new(0);
    whole.auto_clicker.quantity = 2;
    assert_eq!(whole.tick(12_000), Ok(12));
    assert!(balance_is(&split, dec(24, 0)));
    assert!(balance_is(&whole, dec(24, 0)));
}

#[test]
fn can_purchase_compares_balance() {
    let mut m = ResourceManager::new(0);
    m.electrons = dec(15, 0);
    assert!(m.can_purchase(dec(15, 0)));
    assert!(!m.can_purchase(dec(1501, 2)));
}

#[test]
fn update_reads_the_clock() {
    let mut m = ResourceManager::new(i64::MAX);
    assert_eq!(m.update(), Ok(0));
    assert!(balance_is(&m, Amount::zero()));
}

#[test]
fn upgrade_new_validates() {
    let ok = Upgrade::new(
        GeneratorId::Clicker,
        "Boost".to_owned(),
        UpgradeEffect::Additive(dec(1, 0)),
        UpgradeType::ProductionBoost,
        CostCurve::Exponential,
        dec(100, 0),
    );
    let u = ok.unwrap();
    assert_eq!(u.tier, 0);
    assert!(u.check_cost().same_value(dec(100, 0)));
    let bad = Upgrade::new(
        GeneratorId::Clicker,
        "Boost".to_owned(),
        UpgradeEffect::Additive(dec(-1, 0)),
        UpgradeType::ProductionBoost,
        CostCurve::Exponential,
        dec(100, 0),
    );
    assert!(bad.is_none());
}

#[test]
fn obtain_new_cost_follows_tier() {
    let mut u = Upgrade::new(
        GeneratorId::AutoClicker,
        "Boost".to_owned(),
        UpgradeEffect::Multiplicative(dec(2, 0)),
        UpgradeType::ProductionBoost,
        CostCurve::Exponential,
        dec(100, 0),
    )
    .unwrap();
    u.tier = 2;
    assert_eq!(u.obtain_new_cost(), Ok(()));
    assert!(u.check_cost().same_value(dec(12996, 2)));
    u.tier = 1;
    assert_eq!(u.obtain_new_cost(), Ok(()));
    assert!(u.check_cost().same_value(dec(114, 0)));
}

#[test]
fn cost_for_tier_on_each_curve() {
    for (curve, expected) in [
        (CostCurve::Additive, dec(1575, 2)),
        (CostCurve::Multiplicative, dec(285, 1)),
        (CostCurve::Exponential, dec(171, 1)),
    ] {
        let u = Upgrade::new(
            GeneratorId::Clicker,
            "x".to_owned(),
            UpgradeEffect::Additive(dec(1, 0)),
            UpgradeType::ProductionBoost,
            curve,
            dec(15, 0),
        )
        .unwrap();
        assert!(u.cost_for_tier(1).unwrap().same_value(expected));
    }
}

#[test]
fn generator_production_and_effects() {
    let mut g = Generator::new(GeneratorId::AutoClicker, "g".to_owned(), 3, dec(15, 1)).unwrap();
    assert!(g.calculate_production().unwrap().same_value(dec(45, 1)));
    assert_eq!(g.apply_upgrade(UpgradeEffect::Additive(dec(5, 1))), Ok(()));
    assert!(g.production_rate.same_value(dec(2, 0)));
    assert_eq!(g.apply_upgrade(UpgradeEffect::Multiplicative(dec(3, 0))), Ok(()));
    assert!(g.production_rate.same_value(dec(6, 0)));
    assert_eq!(g.increment_quantity(), Ok(()));
    assert!(g.calculate_production().unwrap().same_value(dec(24, 0)));
    assert!(Generator::new(GeneratorId::Clicker, "g".to_owned(), 0, dec(-1, 0)).is_none());
}

#[test]
fn generator_count_overflow() {
    let mut g = Generator::new(GeneratorId::AutoClicker, "g".to_owned(), u64::MAX, dec(1, 0)).unwrap();
    assert_eq!(g.increment_quantity(), Err(EconomyError::Overflow));
    assert_eq!(g.quantity, u64::MAX);
}

#[test]
fn boosted_rate_overflow() {
    let rate = dec(79228162514264337593543950335, 0);
    assert!(boosted_rate(rate, UpgradeEffect::Additive(dec(1, 0))).is_none());
    assert!(boosted_rate(dec(2, 0), UpgradeEffect::Multiplicative(dec(25, 1))).unwrap().same_value(dec(5, 0)));
}

#[test]
fn purchase_generator_through_its_unit_upgrade() {
    let mut m = ResourceManager::new(0);
    m.electrons = dec(20, 0);
    assert_eq!(m.unit_upgrade(GeneratorId::AutoClicker), Some(1));
    assert_eq!(m.purchase_generator(GeneratorId::AutoClicker, 9_000), Ok(()));
    assert_eq!(m.auto_clicker.quantity, 1);
    assert_eq!(m.time, 9_000);
    assert!(balance_is(&m, dec(5, 0)));
    assert_eq!(
        m.purchase_generator(GeneratorId::AutoClicker, 9_000),
        Err(EconomyError::InsufficientFunds)
    );
    assert_eq!(m.auto_clicker.quantity, 1);
}

#[test]
fn purchase_generator_without_unit_upgrade() {
    let mut m = ResourceManager::new(0);
    m.electrons = dec(100, 0);
    assert_eq!(m.unit_upgrade(GeneratorId::Clicker), None);
    assert_eq!(
        m.purchase_generator(GeneratorId::Clicker, 0),
        Err(EconomyError::UnknownId)
    );
    assert!(balance_is(&m, dec(100, 0)));
}

#[test]
fn second_auto_clicker_keeps_the_clock() {
    let mut m = ResourceManager::new(0);
    m.electrons = dec(100, 0);
    assert_eq!(m.purchase_upgrade(1, 2_000), Ok(()));
    assert_eq!(m.purchase_upgrade(1, 5_000), Ok(()));
    assert_eq!(m.time, 2_000);
    assert_eq!(m.auto_clicker.quantity, 2);
    assert!(balance_is(&m, dec(6925, 2)));
}

#[test]
fn recompute_on_roster_upgrades() {
    let mut m = ResourceManager::new(0);
    let mut boost = m.upgrades.remove(2);
    boost.tier = 2;
    assert_eq!(boost.obtain_new_cost(), Ok(()));
    assert!(boost.check_cost().same_value(dec(1083, 1)));
    let mut click = m.upgrades.remove(0);
    click.tier = 1;
    assert_eq!(click.obtain_new_cost(), Ok(()));
    assert!(click.check_cost().same_value(dec(1575, 2)));
    let once = click.check_cost();
    assert_eq!(click.obtain_new_cost(), Ok(()));
    assert!(click.check_cost().same_value(once));
}

#[test]
fn update_ignores_an_earlier_clock_reading() {
    let mut m = ResourceManager::new(i64::MAX);
    m.auto_clicker.quantity = 1;
    assert_eq!(m.update(), Ok(0));
    assert_eq!(m.time, i64::MAX);
    assert!(balance_is(&m, Amount::zero()));
}
