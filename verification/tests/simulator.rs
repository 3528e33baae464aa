use arelith::character::{AbilityList, Character};
use arelith::combat::limits::widest_multiplier_of;
use arelith::combat::{Combat, CombatStatistics};
use arelith::dice::Dice;
use arelith::feat::feat_db::{find_feat, get_feat, get_feat_list, FeatError};
use arelith::item::{Damage, DamageType, ItemProperty, Weapon, WeaponBase};
use arelith::simulator::{combat_dummy, CombatSimulator, DamageTestResult, SimulationError};
use arelith::size::SizeCategory;
use std::cell::Cell;

fn weapon(dice: Dice, properties: Vec<ItemProperty>) -> Weapon {
    Weapon::new(
        "Blade".into(),
        WeaponBase::new(
            "Scimitar".into(),
            SizeCategory::Medium,
            dice,
            18,
            2,
            vec![DamageType::Slashing],
        ),
        properties,
    )
}

fn attacker() -> Character {
    Character::builder()
        .ab(40)
        .base_apr(4)
        .extra_apr(1)
        .abilities(AbilityList::builder().str(30).build())
        .weapon(weapon(
            Dice::new(1, 6),
            vec![
                ItemProperty::Keen,
                ItemProperty::DamageBonus(Damage::new(
                    DamageType::Sonic,
                    Dice::new(1, 6),
                    true,
                    true,
                )),
            ],
        ))
        .feats(vec![get_feat("Improved Critical"), get_feat("Blind Fight")])
        .build()
}

#[test]
fn simulation_sums_its_rounds() {
    let attacker = attacker();
    let defender = Character::builder().ac(45).concealment(50).physical_immunity(10).build();
    let simulator = CombatSimulator::new(400);
    assert!(simulator.can_begin(&attacker, 10));
    let stats = simulator.begin(&attacker, &defender);
    assert_eq!(stats.total_attacks(), 400 * 5);
    assert!(stats.total_hits > 0);
    assert!(stats.total_misses > 0);
    assert!(stats.critical_hits > 0 && stats.critical_hits < stats.total_hits);
    assert!(stats.concealed_attacks > 0);
    assert_eq!(stats.epic_dodged_attacks, 0);
    // A hit deals 11 to 16 less a tenth slashing, doubled at most, and
    // sonic damage of 1 to 6, doubled at most.
    let slashing = stats.dmg_dealt.get(DamageType::Slashing) as i64;
    let sonic = stats.dmg_dealt.get(DamageType::Sonic) as i64;
    assert!(slashing >= 10 * stats.total_hits);
    assert!(slashing <= 15 * (stats.total_hits + stats.critical_hits));
    assert!(sonic >= stats.total_hits);
    assert!(sonic <= 6 * (stats.total_hits + stats.critical_hits));
    assert_eq!(stats.dmg_dealt.get_types(), vec![DamageType::Slashing, DamageType::Sonic]);
    assert_eq!(simulator.try_begin(&attacker, &defender).unwrap().total_attacks(), 2000);
}

#[test]
fn no_round_gives_blank_statistics() {
    let attacker = attacker();
    let defender = Character::builder().ac(10).build();
    for rounds in [0, -5] {
        let stats = CombatSimulator::new(rounds).begin(&attacker, &defender);
        assert_eq!(stats.total_attacks(), 0);
        assert_eq!(stats.dmg_dealt.get_types().len(), 0);
    }
    assert_eq!(CombatSimulator::default().total_rounds, 0);
}

#[test]
fn damage_test_files_each_profile() {
    let attacker = attacker();
    let simulator = CombatSimulator::new(50);
    let result = simulator.damage_test(&attacker, vec![60, 30, 45, 30], 0, 0, 0, true);
    assert_eq!(result.total_rounds, 50);
    assert_eq!(result.statistics.len(), 3);
    for ac in [30, 45, 60] {
        let stats = &result.statistics[&ac];
        assert_eq!(stats.total_attacks(), 250);
        assert_eq!(stats.concealed_attacks, 0);
        assert!(stats.epic_dodged_attacks <= 50);
    }
    // Against armor class 30 only a natural 1 misses: each round has a hit
    // to dodge.
    assert_eq!(result.statistics[&30].epic_dodged_attacks, 50);
    assert!(result.statistics[&30].total_hits > result.statistics[&60].total_hits);

    let empty = simulator.damage_test(&attacker, vec![], 0, 0, 0, false);
    assert_eq!(empty.statistics.len(), 0);
    assert_eq!(DamageTestResult::new().total_rounds, 0);
    assert_eq!(DamageTestResult::default().statistics.len(), 0);
}

#[test]
fn observer_sees_each_profile_once_it_is_played() {
    let attacker = attacker();
    let simulator = CombatSimulator::new(20);
    let calls = Cell::new(0);
    let attacks = Cell::new(0i64);
    let last = Cell::new(0);
    let notifier = |a: &Character, ac: &i32, stats: &CombatStatistics| {
        assert_eq!(a.ab, 40);
        calls.set(calls.get() + 1);
        attacks.set(attacks.get() + stats.total_attacks());
        last.set(*ac);
    };
    let result =
        simulator.damage_test_observed(&attacker, vec![35, 40, 35], 25, 5, 0, false, &notifier);
    assert_eq!(calls.get(), 3);
    assert_eq!(attacks.get(), 300);
    assert_eq!(last.get(), 35);
    assert_eq!(result.statistics.len(), 2);
}

#[test]
fn dummy_of_a_damage_test() {
    let dummy = combat_dummy(33, 20, 10, 5, true);
    assert_eq!(dummy.name, "Combat Dummy");
    assert_eq!(dummy.ac, 33);
    assert_eq!(dummy.concealment, 20);
    assert_eq!(dummy.physical_immunity, 10);
    assert_eq!(dummy.defensive_essence, 5);
    assert_eq!(dummy.physical_dmg_reduction, 0);
    assert!(dummy.has_epic_dodge());
    assert_eq!(combat_dummy(1, 2, 3, 4, false).feats.len(), 0);
}

#[test]
fn faults_are_found_before_any_round() {
    let simulator = CombatSimulator::new(10);
    let fine = attacker();
    assert_eq!(simulator.check(&fine, 0), Ok(()));

    // No swing: nothing can go wrong.
    let idle = Character::builder().build();
    assert_eq!(simulator.check(&idle, 0), Ok(()));
    assert!(Combat::can_resolve_round(&idle, &idle));

    let unarmed = Character::builder().base_apr(1).build();
    assert_eq!(simulator.check(&unarmed, 0), Err(SimulationError::NoDamageType));
    assert_eq!(
        simulator.try_begin(&unarmed, &idle).err(),
        Some(SimulationError::NoDamageType)
    );
    assert_eq!(
        simulator.try_damage_test(&unarmed, vec![10], 0, 0, 0, false).err(),
        Some(SimulationError::NoDamageType)
    );
    assert!(!simulator.can_begin(&unarmed, 0));
    assert!(!Combat::can_resolve_damage(&unarmed, &idle));
    // No round: the unarmed attacker never swings.
    assert_eq!(CombatSimulator::new(0).check(&unarmed, 0), Ok(()));

    let faceless = Character::builder()
        .base_apr(1)
        .weapon(weapon(Dice::new(2, -6), vec![]))
        .build();
    assert_eq!(simulator.check(&faceless, 0), Err(SimulationError::DiceWithoutFaces));
    assert!(!Combat::has_rollable_dice(&faceless));

    let many = Character::builder().base_apr(i32::MAX).extra_apr(1).weapon(weapon(Dice::new(1, 6), vec![])).build();
    assert_eq!(simulator.check(&many, 0), Err(SimulationError::OutOfRange));

    let low = Character::builder()
        .ab(i32::MIN + 10)
        .base_apr(4)
        .weapon(weapon(Dice::new(1, 6), vec![]))
        .build();
    assert_eq!(simulator.check(&low, 0), Err(SimulationError::OutOfRange));
    assert!(!Combat::has_fitting_slots(&low));
    assert!(Combat::has_fitting_slots(&fine));

    let heavy = Character::builder()
        .base_apr(1)
        .weapon(weapon(Dice::new(1000, 1000), vec![ItemProperty::EnchantmentBonus(i32::MIN)]))
        .build();
    assert_eq!(Combat::swing_limit_of(&heavy), None);
    assert_eq!(simulator.check(&heavy, 0), Err(SimulationError::OutOfRange));

    // 4 swings of at most 16, doubled when critical: 16 million rounds
    // fit, 17 million do not.
    let plain = Character::builder()
        .base_apr(4)
        .abilities(AbilityList::builder().str(30).build())
        .weapon(weapon(Dice::new(1, 6), vec![]))
        .build();
    assert_eq!(Combat::swing_limit_of(&plain), Some(32));
    assert_eq!(Combat::swing_bound_of(&plain, 50), Some(32));
    assert_eq!(Combat::swing_bound_of(&plain, 250), Some(80));
    assert_eq!(CombatSimulator::new(16_000_000).check(&plain, 0), Ok(()));
    assert_eq!(
        CombatSimulator::new(17_000_000).check(&plain, 0),
        Err(SimulationError::OutOfRange)
    );
    assert_eq!(
        CombatSimulator::new(16_000_000).check(&plain, 250),
        Err(SimulationError::OutOfRange)
    );
}

#[test]
fn swing_limit_counts_every_part() {
    let c = Character::builder()
        .base_apr(1)
        .abilities(AbilityList::builder().str(38).build())
        .size(SizeCategory::Small)
        .weapon(weapon(
            Dice::new(2, 6),
            vec![
                ItemProperty::EnchantmentBonus(-4),
                ItemProperty::DamageBonus(Damage::new(
                    DamageType::Fire,
                    Dice::new(1, 8),
                    true,
                    true,
                )),
                ItemProperty::MassiveCrit(Dice::new(2, 4)),
                ItemProperty::CriticalMultiplierOverride(3),
            ],
        ))
        .feats(vec![get_feat("Bane of Enemies")])
        .build();
    // Strength 14 + 7, weapon 12, enchantment 4, fire 8, bane 12, each
    // tripled, and the massive critical 8.
    assert_eq!(Combat::swing_limit_of(&c), Some((21 + 12 + 4 + 8 + 12) * 3 + 8));
    assert_eq!(widest_multiplier_of(&c), 3);
}

#[test]
fn feats_are_looked_up_by_name() {
    let list = get_feat_list();
    assert_eq!(list.len(), 11);
    assert_eq!(list[0].0, "Critical Immunity");
    assert_eq!(list[10].0, "Epic Weapon Specialization");
    for feat in &list {
        assert_eq!(find_feat(&feat.0).unwrap(), feat.clone());
        assert_eq!(get_feat(&feat.0).name(), feat.name());
        assert_eq!(feat.to_string(), feat.0);
    }
    assert_eq!(find_feat("Flying").err(), Some(FeatError::UnknownFeat));
    assert_eq!(find_feat("blind fight").err(), Some(FeatError::UnknownFeat));
}

#[test]
fn batch_of_explicit_defenders() {
    let attacker = attacker();
    let defenders = vec![
        Character::builder().ac(20).build(),
        Character::builder().ac(80).build(),
        Character::builder().ac(45).feats(vec![get_feat("Critical Immunity")]).build(),
    ];
    let simulator = CombatSimulator::new(100);
    let results = simulator.simulate(&attacker, &defenders);
    assert_eq!(results.len(), 3);
    for stats in &results {
        assert_eq!(stats.total_attacks(), 500);
    }
    // Armor class 80 is hit by a natural 20 only, armor class 20 missed by
    // a natural 1 only.
    assert!(results[0].total_hits > 400);
    assert!(results[1].total_hits < 100);
    assert_eq!(results[2].critical_hits, 0);
    assert_eq!(simulator.simulate(&attacker, &vec![]).len(), 0);
    assert_eq!(arelith::HitResult::default(), arelith::HitResult::Miss);
}

#[test]
fn observer_is_handed_what_is_filed() {
    let attacker = attacker();
    let simulator = CombatSimulator::new(30);
    let seen: std::cell::RefCell<Vec<(i32, i64, i64, i32)>> = std::cell::RefCell::new(Vec::new());
    let notifier = |_: &Character, ac: &i32, stats: &CombatStatistics| {
        seen.borrow_mut().push((
            *ac,
            stats.total_hits,
            stats.critical_hits,
            stats.dmg_dealt.get(DamageType::Slashing),
        ));
    };
    let list = vec![50, 42, 50, 61];
    let result =
        simulator.damage_test_observed(&attacker, list.clone(), 0, 0, 0, false, &notifier);
    let seen = seen.into_inner();
    // One call for each entry of the list, in its order.
    assert_eq!(seen.iter().map(|call| call.0).collect::<Vec<i32>>(), list);
    // What is filed under an armor class is what the last call for it saw.
    for ac in [42, 50, 61] {
        let filed = &result.statistics[&ac];
        let last = seen.iter().rev().find(|call| call.0 == ac).unwrap();
        assert_eq!(
            *last,
            (
                ac,
                filed.total_hits,
                filed.critical_hits,
                filed.dmg_dealt.get(DamageType::Slashing)
            )
        );
    }
}
