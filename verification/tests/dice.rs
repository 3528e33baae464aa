use arelith::dice::notation::DiceParseError;
use arelith::dice::Dice;

#[test]
fn dice() {
    let dice = Dice::new(0, 6);
    assert_eq!(dice.rolls, 0);
    assert_eq!(dice.faces, 6);
    assert_eq!(dice.roll(), 0);
    assert_eq!(dice.to_string(), "0d6");

    let dice = Dice::new(3, 0);
    assert_eq!(dice.rolls, 3);
    assert_eq!(dice.faces, 0);
    assert_eq!(dice.roll(), 0);
    assert_eq!(dice.to_string(), "3d0");

    let dice = Dice::from("1d6");
    assert_eq!(dice.rolls, 1);
    assert_eq!(dice.faces, 6);
    assert_eq!(dice.to_string(), "1d6");

    let dice = Dice::from("2d4");
    assert_eq!(dice.rolls, 2);
    assert_eq!(dice.faces, 4);
    assert_eq!(dice.to_string(), "2d4");

    let dice = Dice::from("4d1");
    assert_eq!(dice.rolls, 4);
    assert_eq!(dice.faces, 1);
    assert_eq!(dice.roll(), 4);
    assert_eq!(dice.to_string(), "4d1");

    let dice = Dice::from("0d3");
    assert_eq!(dice.rolls, 0);
    assert_eq!(dice.faces, 3);
    assert_eq!(dice.roll(), 0);
    assert_eq!(dice.to_string(), "0d3");

    let dice = Dice::from("2d0");
    assert_eq!(dice.rolls, 2);
    assert_eq!(dice.faces, 0);
    assert_eq!(dice.roll(), 0);
    assert_eq!(dice.to_string(), "2d0");

    let dice = Dice::from(6);
    assert_eq!(dice.rolls, 6);
    assert_eq!(dice.faces, 1);
    assert_eq!(dice.roll(), 6);
    assert_eq!(dice.to_string(), "6d1");

    let dice = Dice::from(0);
    assert_eq!(dice.rolls, 0);
    assert_eq!(dice.faces, 1);
    assert_eq!(dice.roll(), 0);
    assert_eq!(dice.to_string(), "0d1");
}

#[test]
fn rolls_stay_on_the_dice() {
    let dice = Dice::new(3, 6);
    assert!(dice.is_rollable());
    for _ in 0..2000 {
        let total = dice.roll();
        assert!(3 <= total && total <= 18);
    }
    for _ in 0..500 {
        let total = dice.roll_m(4);
        assert!(12 <= total && total <= 72);
    }
    assert_eq!(dice.roll_m(0), 0);
    assert_eq!(dice.roll_m(-3), 0);
    assert_eq!(Dice::new(-2, 6).roll(), 0);
    assert_eq!(Dice::new(-2, -6).roll(), 0);
}

#[test]
fn a_roll_draws_faces_at_random() {
    // A thousand dice that all showed their highest face would total 6000.
    let many = Dice::new(1000, 6);
    let total = many.roll();
    assert!(1000 <= total && total < 6000);
    let mut seen = [false; 6];
    let die = Dice::new(1, 6);
    for _ in 0..5000 {
        seen[(die.roll() - 1) as usize] = true;
    }
    assert_eq!(seen, [true; 6]);
}

#[test]
fn rollable_limits() {
    assert!(Dice::new(0, -5).is_rollable());
    assert!(!Dice::new(1, -5).is_rollable());
    assert!(Dice::new(1, i32::MAX).is_rollable());
    assert!(!Dice::new(2, i32::MAX).is_rollable());
    assert!(Dice::new(2, 6).is_rollable_times(100));
    assert!(!Dice::new(2, 6).is_rollable_times(i32::MAX));
    assert!(Dice::new(2, i32::MAX).is_rollable_times(0));
    assert_eq!(Dice::new(3, 4).largest_total(), 12);
    assert_eq!(Dice::new(3, 0).largest_total(), 0);
    assert_eq!(Dice::new(-3, 4).largest_total(), 0);
    assert_eq!(Dice::default(), Dice::new(0, 1));
}

#[test]
fn lenient_notation_degrades_to_zero() {
    assert_eq!(Dice::from(""), Dice::new(0, 0));
    assert_eq!(Dice::from("abc"), Dice::new(0, 0));
    assert_eq!(Dice::from("1d2d3"), Dice::new(0, 0));
    assert_eq!(Dice::from("d20"), Dice::new(0, 20));
    assert_eq!(Dice::from("1d"), Dice::new(1, 0));
    assert_eq!(Dice::from("xd6"), Dice::new(0, 6));
    assert_eq!(Dice::from("2dy"), Dice::new(2, 0));
    assert_eq!(Dice::from("2D6"), Dice::new(0, 0));
    assert_eq!(Dice::from(" 2d6"), Dice::new(0, 6));
    assert_eq!(Dice::from("+2d-6"), Dice::new(2, -6));
    assert_eq!(Dice::from("-d+"), Dice::new(0, 0));
    assert_eq!(Dice::from("007d010"), Dice::new(7, 10));
    assert_eq!(Dice::from("2147483647d2147483648"), Dice::new(2147483647, 0));
    assert_eq!(Dice::from("-2147483648d-2147483649"), Dice::new(-2147483648, 0));
    assert_eq!(Dice::from("99999999999999999999999d1"), Dice::new(0, 1));
    assert_eq!(Dice::from(String::from("3d8")), Dice::new(3, 8));
    assert_eq!(Dice::parse_lenient("12d10"), Dice::new(12, 10));
}

#[test]
fn strict_notation_names_the_fault() {
    assert_eq!(Dice::parse("2d6"), Ok(Dice::new(2, 6)));
    assert_eq!(Dice::parse("-1d+4"), Ok(Dice::new(-1, 4)));
    assert_eq!(Dice::parse("26"), Err(DiceParseError::Separator));
    assert_eq!(Dice::parse("1d2d3"), Err(DiceParseError::Separator));
    assert_eq!(Dice::parse("d6"), Err(DiceParseError::Rolls));
    assert_eq!(Dice::parse("xd"), Err(DiceParseError::Rolls));
    assert_eq!(Dice::parse("2d"), Err(DiceParseError::Faces));
    assert_eq!(Dice::parse("2d2147483648"), Err(DiceParseError::Faces));
}

#[test]
fn notation_round_trip() {
    for (rolls, faces) in [(0, 0), (1, 20), (-3, 7), (i32::MAX, i32::MIN), (10, 100)] {
        let dice = Dice::new(rolls, faces);
        assert_eq!(dice.to_string(), format!("{}d{}", rolls, faces));
        assert_eq!(Dice::parse(&dice.to_string()), Ok(dice));
    }
}
