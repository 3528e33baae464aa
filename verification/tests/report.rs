use arelith::character::Character;
use arelith::combat::{AttackType, CombatStatistics};
use arelith::dice::Dice;
use arelith::feat::feat_db::get_feat;
use arelith::item::{Damage, DamageType, ItemProperty, Weapon, WeaponBase};
use arelith::report::{ascending_keys, labeled};
use arelith::simulator::DamageTestResult;
use arelith::size::SizeCategory;
use arelith::string::{align_string, chars_of, decimal, decimal_wide, same_text};
use std::collections::HashMap;

fn stats() -> CombatStatistics {
    let mut s = CombatStatistics::new();
    s.total_hits = 12;
    s.critical_hits = 3;
    s.total_misses = 8;
    s.concealed_attacks = 5;
    s.epic_dodged_attacks = 1;
    s.dmg_dealt.add(DamageType::Sonic, 40);
    s.dmg_dealt.add(DamageType::Slashing, 260);
    s
}

const STATS_TEXT: &str = "TOTAL ATTACK                    20
TOTAL HIT                       12
    * CRITICAL HIT              3

TOTAL MISS                      8
    * CONCEALED                 5
    * EPIC DODGED               1

TOTAL DAMAGE                    300
    * SLASHING                  260
    * SONIC                     40";

#[test]
fn statistics_report() {
    assert_eq!(stats().to_string(), STATS_TEXT);
    let blank = CombatStatistics::default().to_string();
    assert!(blank.ends_with("TOTAL DAMAGE                    0"));
    assert_eq!(blank.lines().count(), 9);
}

#[test]
fn damage_test_report() {
    let mut result = DamageTestResult::new();
    result.total_rounds = 7;
    assert_eq!(result.to_string(), "");
    assert_eq!(result.target_ac_result_string(40), "");

    result.statistics.insert(40, stats());
    let profile = format!(
        "TARGET AC                       40\n\n{}\n\nAVERAGE DAMAGE PER ROUND        42",
        STATS_TEXT
    );
    assert_eq!(result.target_ac_result_string(40), profile);
    assert_eq!(result.target_ac_result_string(41), "");
    assert_eq!(result.to_string(), format!("{}\n", profile));

    result.statistics.insert(-5, CombatStatistics::new());
    result.statistics.insert(35, CombatStatistics::new());
    let text = result.to_string();
    let rule = "=".repeat(50);
    let parts: Vec<&str> = text.split(rule.as_str()).collect();
    assert_eq!(parts.len(), 3);
    assert!(parts[0].starts_with("TARGET AC                       -5\n"));
    assert!(parts[1].starts_with("\n\nTARGET AC                       35\n"));
    assert_eq!(parts[2], format!("\n\n{}\n", profile));
    assert!(parts[0].ends_with("AVERAGE DAMAGE PER ROUND        0\n\n"));
}

#[test]
fn average_is_cut_toward_zero() {
    let mut result = DamageTestResult::new();
    let mut s = CombatStatistics::new();
    s.dmg_dealt.add(DamageType::Fire, -7);
    result.statistics.insert(1, s);
    result.total_rounds = 2;
    assert!(result.target_ac_result_string(1).ends_with("        -3"));
    result.total_rounds = -2;
    assert!(result.target_ac_result_string(1).ends_with("        3"));
}

#[test]
fn keys_come_in_ascending_order() {
    let mut map: HashMap<i32, CombatStatistics> = HashMap::new();
    for ac in [50, -3, 17, 0, i32::MAX, i32::MIN, 17] {
        map.insert(ac, CombatStatistics::new());
    }
    assert_eq!(ascending_keys(&map), vec![i32::MIN, -3, 0, 17, 50, i32::MAX]);
    assert_eq!(ascending_keys(&HashMap::new()), Vec::<i32>::new());
}

#[test]
fn lines_are_aligned_at_the_label_width() {
    assert_eq!(align_string("AB", "7".into()), format!("AB{}7", " ".repeat(30)));
    assert_eq!(align_string("", "x".into()), format!("{}x", " ".repeat(32)));
    let full = "A".repeat(32);
    assert_eq!(align_string(&full, "1".into()), format!("{}1", full));
    assert_eq!(labeled("TOTAL HIT", "12".into()), "TOTAL HIT                       12");
}

#[test]
fn decimal_numbers() {
    assert_eq!(decimal(0), "0");
    assert_eq!(decimal(7), "7");
    assert_eq!(decimal(-7), "-7");
    assert_eq!(decimal(1234567890), "1234567890");
    assert_eq!(decimal(i64::MAX), i64::MAX.to_string());
    assert_eq!(decimal(i64::MIN), i64::MIN.to_string());
    assert_eq!(decimal_wide(i128::MAX), i128::MAX.to_string());
    assert_eq!(decimal_wide(-i128::MAX), (-i128::MAX).to_string());
    assert_eq!(chars_of("a\u{e9}z"), vec!['a', '\u{e9}', 'z']);
    assert!(same_text("d20", "d20"));
    assert!(!same_text("d20", "d2"));
    assert!(!same_text("d20", "d21"));
}

#[test]
fn words_for_weapons_and_buckets() {
    let weapon = |range: i32, props: Vec<ItemProperty>| {
        Weapon::new(
            "Blade".into(),
            WeaponBase::new(
                "".into(),
                SizeCategory::Medium,
                Dice::new(1, 6),
                range,
                2,
                vec![DamageType::Slashing],
            ),
            props,
        )
    };
    let c = Character::builder()
        .weapon(weapon(18, vec![ItemProperty::Keen]))
        .feats(vec![get_feat("Improved Critical"), get_feat("Increased Multiplier")])
        .build();
    assert_eq!(c.weapon_string(), "Blade (12-20 x3)");
    let c = Character::builder().weapon(weapon(20, vec![])).build();
    assert_eq!(c.weapon_string(), "Blade (20 x2)");
    let c = Character::builder()
        .weapon(weapon(19, vec![ItemProperty::ThreatRangeOverride(5)]))
        .build();
    assert_eq!(c.weapon_string(), "Blade (5-20 x2)");

    assert_eq!(AttackType::MainHand.to_string(), "AttackType::MainHand");
    assert_eq!(AttackType::OffHand.to_string(), "AttackType::OffHand");
    assert_eq!(AttackType::Extra.to_string(), "AttackType::Extra");
    assert_eq!(
        Damage::new(DamageType::Fire, Dice::new(2, 8), true, false).to_string(),
        "2d8"
    );
}
