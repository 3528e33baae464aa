use arelith::character::Character;
use arelith::dice::Dice;
use arelith::feat::feat_db::get_feat;
use arelith::item::weapon_db::{find_weapon_base, get_weapon_base, WeaponLookupError};
use arelith::item::{
    get_keen_increase, DamageType, ItemProperty, Weapon, WeaponBase, WeaponError,
};
use arelith::size::SizeCategory;

fn plain_base(threat_range: i32) -> WeaponBase {
    WeaponBase::new(
        "".into(),
        SizeCategory::Medium,
        Dice::from(0),
        threat_range,
        2,
        vec![DamageType::Slashing],
    )
}

#[test]
fn weapon_weapon_base() {
    let weapon_base = get_weapon_base("Rapier");
    assert_eq!(weapon_base.name, "Rapier");
    assert_eq!(weapon_base.threat_range, 18);
    assert_eq!(weapon_base.crit_multiplier, 2);
    assert_eq!(weapon_base.damage.to_string(), "1d6");
    assert_eq!(weapon_base.damage_type[0], DamageType::Piercing);

    let weapon_base = get_weapon_base("Double Axe");
    assert_eq!(weapon_base.name, "Double Axe");
    assert_eq!(weapon_base.threat_range, 20);
    assert_eq!(weapon_base.crit_multiplier, 3);
    assert_eq!(weapon_base.damage.to_string(), "3d4");
    assert_eq!(weapon_base.damage_type[0], DamageType::Slashing);
}

#[test]
fn weapon_base() {
    let weapon_base = find_weapon_base("Rapier").unwrap();
    assert_eq!(weapon_base.name, "Rapier");
    assert_eq!(weapon_base.threat_range, 18);
    assert_eq!(weapon_base.crit_multiplier, 2);
    assert_eq!(weapon_base.damage.to_string(), "1d6");
    assert_eq!(weapon_base.damage_type[0], DamageType::Piercing);

    let weapon_base = find_weapon_base("Double Axe").unwrap();
    assert_eq!(weapon_base.name, "Double Axe");
    assert_eq!(weapon_base.threat_range, 20);
    assert_eq!(weapon_base.crit_multiplier, 3);
    assert_eq!(weapon_base.damage.to_string(), "3d4");
    assert_eq!(weapon_base.damage_type[0], DamageType::Slashing);
}

#[test]
fn weapon_weapon() {
    let weapon = Weapon::new("".into(), get_weapon_base("Rapier"), vec![]);
    assert_eq!(weapon.is_keen(), false);
    assert_eq!(weapon.threat_range(), 18);

    // Keen test: 18-20
    let weapon = Weapon::new("".into(), plain_base(18), vec![ItemProperty::Keen]);
    assert_eq!(weapon.is_keen(), true);
    assert_eq!(weapon.threat_range(), 15);

    // Keen test: 19-20
    let weapon = Weapon::new("".into(), plain_base(19), vec![ItemProperty::Keen]);
    assert_eq!(weapon.is_keen(), true);
    assert_eq!(weapon.threat_range(), 17);

    // Keen test: 20
    let weapon = Weapon::new("".into(), plain_base(20), vec![ItemProperty::Keen]);
    assert_eq!(weapon.is_keen(), true);
    assert_eq!(weapon.threat_range(), 19);

    // Threat range and critical multiplier override test
    let weapon = Weapon::new(
        "".into(),
        plain_base(20),
        vec![
            ItemProperty::Keen,
            ItemProperty::ThreatRangeOverride(99),
            ItemProperty::CriticalMultiplierOverride(50),
        ],
    );

    let character = Character::builder().weapon(weapon).build();

    assert_eq!(character.weapon_threat_range(), 99);
    assert_eq!(character.weapon_crit_multiplier(), 50);
}

#[test]
fn weapon() {
    let weapon = Weapon::new("".into(), find_weapon_base("Rapier").unwrap(), vec![]);
    assert_eq!(weapon.is_keen(), false);
    assert_eq!(weapon.threat_range(), 18);

    // Keen test: 18-20
    let weapon = Weapon::new("".into(), plain_base(18), vec![ItemProperty::Keen]);
    assert_eq!(weapon.is_keen(), true);
    assert_eq!(weapon.threat_range(), 15);

    // Keen test: 19-20
    let weapon = Weapon::new("".into(), plain_base(19), vec![ItemProperty::Keen]);
    assert_eq!(weapon.is_keen(), true);
    assert_eq!(weapon.threat_range(), 17);

    // Keen test: 20
    let weapon = Weapon::new("".into(), plain_base(20), vec![ItemProperty::Keen]);
    assert_eq!(weapon.is_keen(), true);
    assert_eq!(weapon.threat_range(), 19);
}

#[test]
fn first_positive_override_wins() {
    let weapon = Weapon::new(
        "".into(),
        plain_base(19),
        vec![
            ItemProperty::ThreatRangeOverride(0),
            ItemProperty::CriticalMultiplierOverride(-4),
            ItemProperty::ThreatRangeOverride(14),
            ItemProperty::ThreatRangeOverride(7),
            ItemProperty::CriticalMultiplierOverride(5),
            ItemProperty::CriticalMultiplierOverride(9),
        ],
    );
    assert_eq!(weapon.threat_range_override(), Some(14));
    assert_eq!(weapon.crit_multiplier_override(), Some(5));
    assert_eq!(weapon.crit_multiplier(), 2);

    let character = Character::builder()
        .weapon(weapon)
        .feats(vec![
            get_feat("Improved Critical"),
            get_feat("Ki Critical"),
            get_feat("Increased Multiplier"),
        ])
        .build();
    assert_eq!(character.weapon_threat_range(), 14);
    assert_eq!(character.weapon_crit_multiplier(), 5);

    let none = Weapon::new(
        "".into(),
        plain_base(19),
        vec![ItemProperty::ThreatRangeOverride(-1), ItemProperty::AttackBonus(3)],
    );
    assert_eq!(none.threat_range_override(), None);
    assert_eq!(none.crit_multiplier_override(), None);
}

#[test]
fn keen_increase_counts_the_natural_threats() {
    assert_eq!(get_keen_increase(20), 1);
    assert_eq!(get_keen_increase(19), 2);
    assert_eq!(get_keen_increase(18), 3);
    assert_eq!(get_keen_increase(0), 21);
}

#[test]
fn lookups_and_construction_reject_bad_input() {
    assert_eq!(
        find_weapon_base("Spoon").err(),
        Some(WeaponLookupError::UnknownWeapon)
    );
    let greatsword = find_weapon_base("Greatsword").unwrap();
    assert_eq!(greatsword.size, SizeCategory::Large);
    assert_eq!(greatsword.damage, Dice::new(2, 6));
    assert_eq!(greatsword.threat_range, 19);
    let scimitar = get_weapon_base("Scimitar");
    assert_eq!(scimitar.size, SizeCategory::Medium);
    assert_eq!(scimitar.damage_type, vec![DamageType::Slashing]);
    let copy = scimitar.clone();
    assert_eq!(copy.name, "Scimitar");
    assert_eq!(copy.damage_type, vec![DamageType::Slashing]);

    let bare = WeaponBase::new("".into(), SizeCategory::Small, Dice::new(1, 4), 20, 2, vec![]);
    assert_eq!(
        Weapon::try_new("".into(), bare, vec![]).err(),
        Some(WeaponError::NoDamageType)
    );
    let ok = Weapon::try_new("Blade".into(), plain_base(20), vec![ItemProperty::Keen]).unwrap();
    assert_eq!(ok.name, "Blade");
    assert_eq!(ok.is_usable(), true);
    assert_eq!(Weapon::default().is_usable(), false);
}

#[test]
fn size_names_and_order() {
    assert_eq!(SizeCategory::from("tiny"), SizeCategory::Tiny);
    assert_eq!(SizeCategory::from("Small"), SizeCategory::Small);
    assert_eq!(SizeCategory::from("MEDIUM"), SizeCategory::Medium);
    assert_eq!(SizeCategory::from("lArGe"), SizeCategory::Large);
    assert_eq!(SizeCategory::from("huge"), SizeCategory::Huge);
    assert_eq!(SizeCategory::from("gargantuan"), SizeCategory::Unknown);
    assert_eq!(SizeCategory::from_lowercase("Huge"), SizeCategory::Unknown);
    assert_eq!(SizeCategory::default(), SizeCategory::Medium);
    assert!(SizeCategory::Large.exceeds(&SizeCategory::Medium));
    assert!(!SizeCategory::Medium.exceeds(&SizeCategory::Medium));
    assert!(SizeCategory::Unknown.exceeds(&SizeCategory::Huge));
    assert!(SizeCategory::Large > SizeCategory::Medium);
    assert_eq!(SizeCategory::Huge.ordinal(), 4);
}
