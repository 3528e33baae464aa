use arelith::character::{AbilityList, Character, CharacterBuilder};
use arelith::combat::attack::AttackRolls;
use arelith::combat::swing::DamageRolls;
use arelith::combat::{AttackInfo, AttackType, Combat, CombatStatistics, HitResult};
use arelith::dice::Dice;
use arelith::feat::feat_db::get_feat;
use arelith::item::{Damage, DamageResult, DamageType, ItemProperty, Weapon, WeaponBase};
use arelith::size::SizeCategory;

fn concealment_percent(attacker: &Character, defender: &Character) -> f32 {
    Combat::resolve_concealment(attacker, defender) as f32 / 100.0
}

#[test]
fn combat() {
    let character: Character = Character::builder()
        .ab(50)
        .base_apr(4)
        .extra_apr(1)
        .feats(vec![])
        .build();

    assert_eq!(
        character.atk_ab(1).unwrap(),
        AttackInfo::new(50, AttackType::MainHand)
    );
    assert_eq!(
        character.atk_ab(2).unwrap(),
        AttackInfo::new(45, AttackType::MainHand)
    );
    assert_eq!(
        character.atk_ab(3).unwrap(),
        AttackInfo::new(40, AttackType::MainHand)
    );
    assert_eq!(
        character.atk_ab(4).unwrap(),
        AttackInfo::new(35, AttackType::MainHand)
    );
    assert_eq!(
        character.atk_ab(5).unwrap(),
        AttackInfo::new(50, AttackType::Extra)
    );
    assert_eq!(character.atk_ab(6), None);

    let character2 = CharacterBuilder::from(character)
        .ab(48)
        .feats(vec![get_feat("Dual Wielding")])
        .build();

    assert_eq!(
        character2.atk_ab(1).unwrap(),
        AttackInfo::new(48, AttackType::MainHand)
    );
    assert_eq!(
        character2.atk_ab(2).unwrap(),
        AttackInfo::new(43, AttackType::MainHand)
    );
    assert_eq!(
        character2.atk_ab(3).unwrap(),
        AttackInfo::new(38, AttackType::MainHand)
    );
    assert_eq!(
        character2.atk_ab(4).unwrap(),
        AttackInfo::new(33, AttackType::MainHand)
    );
    assert_eq!(
        character2.atk_ab(5).unwrap(),
        AttackInfo::new(50, AttackType::Extra)
    );
    assert_eq!(
        character2.atk_ab(6).unwrap(),
        AttackInfo::new(48, AttackType::OffHand)
    );
    assert_eq!(
        character2.atk_ab(7).unwrap(),
        AttackInfo::new(43, AttackType::OffHand)
    );
    assert_eq!(character2.atk_ab(8), None);

    let attacker = Character::builder()
        .ab(50)
        .feats(vec![get_feat("Blind Fight")])
        .build();

    let defender = Character::builder().concealment(50).build();
    assert_eq!(concealment_percent(&attacker, &defender), 25.0);

    let defender = Character::builder().concealment(25).build();
    assert_eq!(concealment_percent(&attacker, &defender), 6.25);

    let defender = Character::builder().concealment(0).build();
    assert_eq!(concealment_percent(&attacker, &defender), 0.0);
}

fn test_weapon(size: SizeCategory) -> Weapon {
    Weapon::new(
        "".into(),
        WeaponBase::new(
            "".into(),
            size,
            Dice::from(6),
            18,
            2,
            vec![DamageType::Slashing],
        ),
        vec![
            ItemProperty::Keen,
            ItemProperty::EnchantmentBonus(4),
            ItemProperty::DamageBonus(Damage::new(
                DamageType::Divine,
                Dice::from(4),
                true,
                true,
            )),
            ItemProperty::MassiveCrit(Dice::from(6)),
        ],
    )
}

#[test]
fn damage() {
    let attacker = Character::builder()
        .abilities(AbilityList::builder().str(38).build())
        .weapon(test_weapon(SizeCategory::Medium))
        .feats(vec![get_feat("Increased Multiplier")])
        .build();

    let defender = Character::builder()
        .physical_immunity(10)
        .physical_damage_reduction(5)
        .build();

    let round_result = Combat::resolve_damage(
        &attacker,
        &defender,
        AttackInfo::new(50, AttackType::MainHand),
        false,
    );

    assert_eq!(round_result.get(DamageType::Slashing), 17);
    assert_eq!(round_result.get(DamageType::Divine), 4);
    assert_eq!(round_result.total_dmg(), 21);

    let round_result = Combat::resolve_damage(
        &attacker,
        &defender,
        AttackInfo::new(50, AttackType::MainHand),
        true,
    );

    assert_eq!(round_result.get(DamageType::Slashing), 66);
    assert_eq!(round_result.get(DamageType::Divine), 12);
    assert_eq!(round_result.total_dmg(), 78);

    // Test twohand weapon damage bonus
    let attacker = Character::builder()
        .abilities(AbilityList::builder().str(38).build())
        .weapon(test_weapon(SizeCategory::Large))
        .feats(vec![get_feat("Increased Multiplier")])
        .build();

    let defender = Character::builder()
        .physical_immunity(0)
        .physical_damage_reduction(0)
        .build();

    let round_result = Combat::resolve_damage(
        &attacker,
        &defender,
        AttackInfo::new(50, AttackType::MainHand),
        false,
    );

    assert_eq!(round_result.get(DamageType::Slashing), 31);

    // Test offhand damage penalty
    let round_result = Combat::resolve_damage(
        &attacker,
        &defender,
        AttackInfo::new(50, AttackType::OffHand),
        false,
    );

    assert_eq!(round_result.get(DamageType::Slashing), 20);

    let mut dmg1 = DamageResult::new();
    dmg1.add(DamageType::Acid, 4);
    dmg1.add(DamageType::Bludgeoning, 6);

    assert_eq!(dmg1.total_dmg(), 10);

    let mut dmg2 = DamageResult::new();
    dmg2.add(DamageType::Cold, 2);
    dmg2.add(DamageType::Divine, 1);

    dmg1.add_from(&dmg2);

    assert_eq!(dmg1.get(DamageType::Cold), 2);
    assert_eq!(dmg1.get(DamageType::Divine), 1);
    assert_eq!(dmg1.total_dmg(), 13);
}

fn end_to_end_attacker() -> Character {
    Character::builder()
        .abilities(AbilityList::builder().str(38).build())
        .weapon(Weapon::new(
            "".into(),
            WeaponBase::new(
                "".into(),
                SizeCategory::Large,
                Dice::new(1, 6),
                18,
                2,
                vec![DamageType::Slashing],
            ),
            vec![
                ItemProperty::Keen,
                ItemProperty::EnchantmentBonus(4),
                ItemProperty::DamageBonus(Damage::new(
                    DamageType::Divine,
                    Dice::new(1, 4),
                    true,
                    true,
                )),
                ItemProperty::MassiveCrit(Dice::new(1, 6)),
            ],
        ))
        .feats(vec![get_feat("Increased Multiplier")])
        .build()
}

#[test]
fn damage_from_fixed_rolls() {
    let attacker = end_to_end_attacker();
    let defender = Character::builder()
        .physical_immunity(10)
        .physical_damage_reduction(5)
        .build();

    // Main hand, no critical: strength 14 + 7, weapon die 5, enchantment 4.
    let rolls = DamageRolls { weapon: 5, properties: vec![0, 0, 3, 0], bane: 0 };
    let result = Combat::damage_from_rolls(
        &attacker,
        &defender,
        AttackInfo::new(50, AttackType::MainHand),
        false,
        &rolls,
    );
    // 30 raw, less 3 for the immunity, less 5 flat.
    assert_eq!(result.get(DamageType::Slashing), 22);
    assert_eq!(result.get(DamageType::Divine), 3);
    assert_eq!(result.get_types(), vec![DamageType::Slashing, DamageType::Divine]);
    assert_eq!(result.total_dmg(), 25);

    // Critical at multiplier 3: strength 63, weapon 3 dice, enchantment 12,
    // massive critical 6.
    let rolls = DamageRolls { weapon: 11, properties: vec![0, 0, 9, 6], bane: 0 };
    let result = Combat::damage_from_rolls(
        &attacker,
        &defender,
        AttackInfo::new(50, AttackType::MainHand),
        true,
        &rolls,
    );
    // 92 raw, less 9, less 5.
    assert_eq!(result.get(DamageType::Slashing), 78);
    assert_eq!(result.get(DamageType::Divine), 9);

    // Off hand: strength 21 halved to 10.
    let rolls = DamageRolls { weapon: 1, properties: vec![0, 0, 1, 0], bane: 0 };
    let result = Combat::damage_from_rolls(
        &attacker,
        &defender,
        AttackInfo::new(50, AttackType::OffHand),
        false,
        &rolls,
    );
    // 15 raw, less 1, less 5.
    assert_eq!(result.get(DamageType::Slashing), 9);
    assert_eq!(result.get(DamageType::Divine), 1);
}

#[test]
fn bane_and_negative_strength() {
    let attacker = Character::builder()
        .abilities(AbilityList::builder().str(3).build())
        .weapon(Weapon::new(
            "".into(),
            WeaponBase::new(
                "".into(),
                SizeCategory::Large,
                Dice::new(1, 4),
                20,
                2,
                vec![DamageType::Magical, DamageType::Slashing],
            ),
            vec![],
        ))
        .feats(vec![get_feat("Bane of Enemies")])
        .build();
    let defender = Character::builder()
        .physical_immunity(50)
        .physical_damage_reduction(5)
        .build();
    // Modifier -4, nothing for both hands, halved toward zero off hand.
    let rolls = DamageRolls { weapon: 1, properties: vec![], bane: 2 };
    let result = Combat::damage_from_rolls(
        &attacker,
        &defender,
        AttackInfo::new(0, AttackType::OffHand),
        false,
        &rolls,
    );
    // The weapon's first type is not physical: nothing is taken off.
    assert_eq!(result.get(DamageType::Magical), -2 + 1 + 2);
    assert_eq!(result.get_types(), vec![DamageType::Magical]);

    let result = Combat::damage_from_rolls(
        &attacker,
        &defender,
        AttackInfo::new(0, AttackType::MainHand),
        false,
        &DamageRolls { weapon: 4, properties: vec![], bane: 12 },
    );
    assert_eq!(result.get(DamageType::Magical), -4 + 4 + 12);

    for _ in 0..200 {
        let rolled = Combat::roll_damage(&attacker, true);
        assert!(2 <= rolled.weapon && rolled.weapon <= 8);
        assert!(4 <= rolled.bane && rolled.bane <= 24);
        assert_eq!(rolled.properties.len(), 0);
    }
}

#[test]
fn hits_misses_and_criticals() {
    let attacker = Character::builder()
        .ab(10)
        .weapon(Weapon::new(
            "".into(),
            WeaponBase::new(
                "".into(),
                SizeCategory::Medium,
                Dice::new(1, 6),
                19,
                2,
                vec![DamageType::Piercing],
            ),
            vec![],
        ))
        .build();
    let defender = Character::builder().ac(25).concealment(20).build();
    let info = AttackInfo::new(10, AttackType::MainHand);
    let hit = |can_dodge: bool, conceal: i32, hit: i32, confirm: i32, d: &Character| {
        Combat::resolve_hit(&attacker, d, info, can_dodge, conceal, hit, confirm)
    };
    // Concealment hides strictly below the percentage.
    assert_eq!(hit(true, 19, 20, 20, &defender), HitResult::TargetConcealed);
    assert_eq!(hit(true, 20, 15, 1, &defender), HitResult::Hit);
    // 10 + 14 falls short of 25, 10 + 15 reaches it.
    assert_eq!(hit(true, 100, 14, 20, &defender), HitResult::Miss);
    assert_eq!(hit(true, 100, 15, 20, &defender), HitResult::Hit);
    // A natural 1 misses and a natural 20 hits, whatever the bonus.
    let easy = Character::builder().ac(-50).build();
    let hard = Character::builder().ac(500).build();
    assert_eq!(hit(true, 50, 1, 20, &easy), HitResult::Miss);
    assert_eq!(hit(true, 50, 20, 1, &hard), HitResult::Hit);
    // A threat needs a confirming roll that reaches the armor class.
    assert_eq!(hit(true, 100, 19, 15, &defender), HitResult::CriticalHit);
    assert_eq!(hit(true, 100, 19, 14, &defender), HitResult::Hit);
    assert_eq!(hit(true, 100, 18, 20, &defender), HitResult::Hit);
    let immune = Character::builder()
        .ac(25)
        .feats(vec![get_feat("Critical Immunity")])
        .build();
    assert_eq!(hit(true, 100, 20, 20, &immune), HitResult::Hit);
    // Epic Dodge takes a hit while it is unused.
    let dodger = Character::builder()
        .ac(25)
        .feats(vec![get_feat("Epic Dodge")])
        .build();
    assert_eq!(hit(true, 100, 20, 20, &dodger), HitResult::EpicDodged);
    assert_eq!(hit(false, 100, 20, 20, &dodger), HitResult::CriticalHit);
    assert_eq!(hit(true, 100, 2, 20, &dodger), HitResult::Miss);

    assert!(Combat::is_concealed(2500, 24));
    assert!(!Combat::is_concealed(2500, 25));
    assert!(Combat::is_concealed(625, 6));
    assert!(!Combat::is_concealed(625, 7));
    assert!(!Combat::is_concealed(0, 1));
    assert!(!Combat::is_concealed(-100, 1));
    assert_eq!(Combat::resolve_concealment(&attacker, &defender), 2000);

    assert!(HitResult::Miss.is_missed());
    assert!(HitResult::TargetConcealed.is_missed());
    assert!(HitResult::EpicDodged.is_missed());
    assert!(!HitResult::Hit.is_missed());
    assert!(!HitResult::CriticalHit.is_missed());
    assert!(HitResult::CriticalHit.is_crit());
    assert!(!HitResult::Hit.is_crit());
    assert_eq!(HitResult::default(), HitResult::Miss);
    let rolls = AttackRolls {
        conceal: 1,
        hit: 2,
        confirm: 3,
        damage: DamageRolls { weapon: 0, properties: vec![], bane: 0 },
    };
    assert_eq!(rolls.hit, 2);
    let stats = CombatStatistics::new();
    assert_eq!(stats.total_attacks(), 0);
}

#[test]
fn rounds_count_every_swing() {
    let attacker = Character::builder()
        .ab(30)
        .base_apr(4)
        .extra_apr(1)
        .abilities(AbilityList::builder().str(20).build())
        .weapon(Weapon::new(
            "".into(),
            WeaponBase::new(
                "".into(),
                SizeCategory::Medium,
                Dice::new(1, 8),
                19,
                2,
                vec![DamageType::Slashing],
            ),
            vec![ItemProperty::DamageBonus(Damage::new(
                DamageType::Fire,
                Dice::new(1, 6),
                true,
                true,
            ))],
        ))
        .feats(vec![get_feat("Dual Wielding")])
        .build();
    let defender = Character::builder()
        .ac(40)
        .concealment(30)
        .feats(vec![get_feat("Epic Dodge")])
        .build();
    let combat = Combat::new(&attacker, &defender);
    let mut dodged = 0;
    for _ in 0..500 {
        let stats = combat.resolve_round();
        assert_eq!(stats.total_attacks(), 7);
        assert!(stats.critical_hits <= stats.total_hits);
        assert!(stats.epic_dodged_attacks <= 1);
        assert!(stats.concealed_attacks + stats.epic_dodged_attacks <= stats.total_misses);
        // A hit deals 3 (off hand, strength halved) to 13 slashing, 26 at
        // most when critical, and fire.
        let slashing = stats.dmg_dealt.get(DamageType::Slashing) as i64;
        assert!(slashing >= 3 * stats.total_hits);
        assert!(slashing <= 13 * stats.total_hits + 13 * stats.critical_hits);
        if stats.total_hits > 0 {
            assert!(stats.dmg_dealt.get(DamageType::Fire) >= 1);
            assert_eq!(stats.epic_dodged_attacks, 1);
        } else {
            assert_eq!(stats.dmg_dealt.get_types().len(), 0);
        }
        dodged += stats.epic_dodged_attacks;
    }
    assert!(dodged > 0);

    let idle = Character::builder().build();
    let stats = Combat::new(&idle, &defender).resolve_round();
    assert_eq!(stats.total_attacks(), 0);
}

fn swing(conceal: i32, hit: i32, confirm: i32, weapon: i32) -> AttackRolls {
    AttackRolls {
        conceal,
        hit,
        confirm,
        damage: DamageRolls { weapon, properties: vec![], bane: 0 },
    }
}

#[test]
fn round_from_fixed_rolls() {
    let attacker = Character::builder()
        .ab(20)
        .base_apr(2)
        .extra_apr(1)
        .abilities(AbilityList::builder().str(14).build())
        .weapon(Weapon::new(
            "".into(),
            WeaponBase::new(
                "".into(),
                SizeCategory::Medium,
                Dice::new(1, 8),
                19,
                3,
                vec![DamageType::Bludgeoning],
            ),
            vec![],
        ))
        .feats(vec![get_feat("Dual Wielding")])
        .build();
    let defender = Character::builder()
        .ac(30)
        .concealment(10)
        .physical_damage_reduction(2)
        .feats(vec![get_feat("Epic Dodge")])
        .build();
    let combat = Combat::new(&attacker, &defender);
    // Bonuses of the five swings: 20, 15, 22, 20, 15.
    let rolls = vec![
        // Concealed: 9 lies below 10.
        swing(9, 20, 20, 0),
        // 15 + 15 reaches 30, and the first hit is dodged.
        swing(10, 15, 1, 0),
        // A threat of 19, confirmed by 22 + 8: 2 + 5 tripled is 21, less 2.
        swing(50, 19, 8, 15),
        // Main strength 2 halved off hand: 1 + 4, less 2.
        swing(50, 10, 1, 4),
        // 15 + 14 falls short.
        swing(50, 14, 20, 0),
    ];
    let stats = combat.resolve_round_with(&rolls);
    assert_eq!(stats.total_hits, 2);
    assert_eq!(stats.critical_hits, 1);
    assert_eq!(stats.total_misses, 3);
    assert_eq!(stats.concealed_attacks, 1);
    assert_eq!(stats.epic_dodged_attacks, 1);
    assert_eq!(stats.dmg_dealt.get(DamageType::Bludgeoning), 19 + 3);
    assert_eq!(stats.dmg_dealt.get_types(), vec![DamageType::Bludgeoning]);
    assert_eq!(stats.total_attacks(), 5);
}

#[test]
fn statistics_record_each_outcome() {
    let mut stats = CombatStatistics::new();
    let mut dealt = DamageResult::new();
    dealt.add(DamageType::Fire, 7);
    stats.record(HitResult::Hit, &dealt);
    stats.record(HitResult::CriticalHit, &dealt);
    stats.record(HitResult::Miss, &dealt);
    stats.record(HitResult::TargetConcealed, &dealt);
    stats.record(HitResult::EpicDodged, &dealt);
    assert_eq!(stats.total_hits, 2);
    assert_eq!(stats.critical_hits, 1);
    assert_eq!(stats.total_misses, 3);
    assert_eq!(stats.concealed_attacks, 1);
    assert_eq!(stats.epic_dodged_attacks, 1);
    assert_eq!(stats.dmg_dealt.get(DamageType::Fire), 14);
}

#[test]
fn rolls_are_held_to_the_dice() {
    let attacker = end_to_end_attacker();
    let rolls = |weapon: i32, properties: Vec<i32>, bane: i32| DamageRolls { weapon, properties, bane };
    // No critical: weapon 1d6, divine 1d4, no massive critical, no bane.
    assert!(Combat::admits_damage_rolls(&attacker, false, &rolls(1, vec![0, 0, 4, 0], 0)));
    assert!(Combat::admits_damage_rolls(&attacker, false, &rolls(6, vec![0, 0, 1, 0], 0)));
    assert!(!Combat::admits_damage_rolls(&attacker, false, &rolls(0, vec![0, 0, 1, 0], 0)));
    assert!(!Combat::admits_damage_rolls(&attacker, false, &rolls(7, vec![0, 0, 1, 0], 0)));
    assert!(!Combat::admits_damage_rolls(&attacker, false, &rolls(3, vec![0, 0, 5, 0], 0)));
    assert!(!Combat::admits_damage_rolls(&attacker, false, &rolls(3, vec![0, 0, 2, 1], 0)));
    assert!(!Combat::admits_damage_rolls(&attacker, false, &rolls(3, vec![1, 0, 2, 0], 0)));
    assert!(!Combat::admits_damage_rolls(&attacker, false, &rolls(3, vec![0, 0, 2], 0)));
    assert!(!Combat::admits_damage_rolls(&attacker, false, &rolls(3, vec![0, 0, 2, 0], 2)));
    // Critical at multiplier 3: weapon 3 to 18, divine 3 to 12, massive 1 to 6.
    assert!(Combat::admits_damage_rolls(&attacker, true, &rolls(3, vec![0, 0, 12, 6], 0)));
    assert!(Combat::admits_damage_rolls(&attacker, true, &rolls(18, vec![0, 0, 3, 1], 0)));
    assert!(!Combat::admits_damage_rolls(&attacker, true, &rolls(2, vec![0, 0, 3, 1], 0)));
    assert!(!Combat::admits_damage_rolls(&attacker, true, &rolls(3, vec![0, 0, 3, 0], 0)));
    for _ in 0..100 {
        for crit in [false, true] {
            let rolled = Combat::roll_damage(&attacker, crit);
            assert!(Combat::admits_damage_rolls(&attacker, crit, &rolled));
        }
    }

    assert!(Dice::new(2, 6).can_total(2));
    assert!(Dice::new(2, 6).can_total(12));
    assert!(!Dice::new(2, 6).can_total(1));
    assert!(!Dice::new(2, 6).can_total(13));
    assert!(Dice::new(0, 6).can_total(0));
    assert!(!Dice::new(0, 6).can_total(1));
    assert!(Dice::new(2, 6).can_total_times(0, 0));
    assert!(!Dice::new(2, 6).can_total_times(0, 2));
    assert!(Dice::new(2, 6).can_total_times(3, 36));
    assert!(!Dice::new(2, 6).can_total_times(3, 5));

    let defender = Character::builder().ac(20).build();
    let one_swing = Character::builder()
        .base_apr(1)
        .weapon(Weapon::new(
            "".into(),
            WeaponBase::new(
                "".into(),
                SizeCategory::Medium,
                Dice::new(1, 8),
                20,
                2,
                vec![DamageType::Slashing],
            ),
            vec![],
        ))
        .build();
    let combat = Combat::new(&one_swing, &defender);
    assert!(Combat::can_sum_round(&one_swing, &defender));
    assert!(Combat::can_resolve_round(&one_swing, &defender));
    // A miss asks for no damage dice; a hit asks for the weapon's.
    assert!(combat.admits_round_rolls(&vec![swing(1, 5, 1, 0)]));
    assert!(combat.admits_round_rolls(&vec![swing(1, 5, 1, 77)]));
    assert!(!combat.admits_round_rolls(&vec![swing(1, 20, 1, 0)]));
    assert!(combat.admits_round_rolls(&vec![swing(1, 20, 1, 8)]));
    // A confirmed critical rolls the weapon twice.
    assert!(combat.admits_round_rolls(&vec![swing(1, 20, 20, 16)]));
    assert!(!combat.admits_round_rolls(&vec![swing(1, 20, 20, 1)]));
    assert!(!combat.admits_round_rolls(&vec![swing(0, 5, 1, 0)]));
    assert!(!combat.admits_round_rolls(&vec![swing(1, 21, 1, 0)]));
    assert!(!combat.admits_round_rolls(&vec![swing(1, 5, 0, 0)]));
    assert!(!combat.admits_round_rolls(&vec![]));
    assert!(!combat.admits_round_rolls(&vec![swing(1, 5, 1, 0), swing(1, 5, 1, 0)]));
}

fn bare_weapon(size: SizeCategory) -> Weapon {
    Weapon::new(
        "".into(),
        WeaponBase::new("".into(), size, Dice::from(0), 20, 2, vec![DamageType::Slashing]),
        vec![],
    )
}

#[test]
fn both_hands_round_a_half_up() {
    let defender = Character::builder().build();
    let swing_with = |score: i32, size: SizeCategory, type_: AttackType| {
        let attacker = Character::builder()
            .abilities(AbilityList::builder().str(score).build())
            .weapon(bare_weapon(size))
            .build();
        Combat::resolve_damage(&attacker, &defender, AttackInfo::new(0, type_), false)
            .get(DamageType::Slashing)
    };
    // Modifier 13: one and a half times is 19.5, which rounds to 20.
    assert_eq!(swing_with(36, SizeCategory::Large, AttackType::MainHand), 20);
    assert_eq!(swing_with(36, SizeCategory::Medium, AttackType::MainHand), 13);
    // Halved off hand by machine division.
    assert_eq!(swing_with(36, SizeCategory::Large, AttackType::OffHand), 10);
    // Modifiers 1, 2, 3, 5 and 14.
    assert_eq!(swing_with(12, SizeCategory::Large, AttackType::MainHand), 2);
    assert_eq!(swing_with(14, SizeCategory::Large, AttackType::MainHand), 3);
    assert_eq!(swing_with(16, SizeCategory::Large, AttackType::MainHand), 5);
    assert_eq!(swing_with(20, SizeCategory::Large, AttackType::MainHand), 8);
    assert_eq!(swing_with(38, SizeCategory::Large, AttackType::MainHand), 21);
    // Nothing is added to a modifier that is not positive.
    assert_eq!(swing_with(10, SizeCategory::Large, AttackType::MainHand), 0);
    assert_eq!(swing_with(7, SizeCategory::Large, AttackType::MainHand), -2);
    assert_eq!(swing_with(5, SizeCategory::Large, AttackType::MainHand), -3);
}
