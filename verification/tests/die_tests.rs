use dice::Die;
use dice::DieBuilder;
use dice::DieRng;
use dice::LowRng;

struct _DieTerribleRng {}
impl DieRng for _DieTerribleRng {
    fn random_int(&self, l: u8, _h: u8) -> u8 {
        l
    }
}

/// A stub that always returns the highest value of the range, which makes
/// the configured side count observable.
struct HighRng {}
impl DieRng for HighRng {
    fn random_int(&self, _l: u8, h: u8) -> u8 {
        h - 1
    }
}

#[test]
fn build_and_roll_six_sided_die() {
    let mut die = DieBuilder::new().sides(6).build();
    let result = die.roll();
    let mut valid_range: std::ops::Range<u8> = 1..6;
    assert_eq!(valid_range.any(|i| i == result), true);
}

#[test]
fn use_custom_rng() {
    let mut die = DieBuilder::new().sides(6).rng(_DieTerribleRng {}).build();
    assert_eq!(die.roll(), 1);
}

#[test]
fn get_history() {
    let mut die = DieBuilder::new().sides(6).rng(_DieTerribleRng {}).build();
    for _i in 0..2 {
        die.roll();
    }
    let history = die.get_history();
    assert_eq!(history.len(), 2);
    assert_eq!(history[0], 1);
}

#[test]
fn builder_entry_point_rolls_below_six() {
    let mut die = Die::builder().sides(6).build();
    let r = die.roll();
    assert!(r >= 1 && r <= 5);
}

#[test]
fn default_die_has_six_sides() {
    let mut die = DieBuilder::new().rng(HighRng {}).build();
    assert_eq!(die.roll(), 5);
}

#[test]
fn invalid_sides_keeps_previous_value() {
    let mut die = DieBuilder::new().sides(0).rng(HighRng {}).build();
    assert_eq!(die.roll(), 5);
    let mut die = DieBuilder::new().sides(10).sides(1).rng(HighRng {}).build();
    assert_eq!(die.roll(), 9);
}

#[test]
fn two_sided_die_always_rolls_one() {
    let mut die = DieBuilder::new().sides(2).build();
    for _i in 0..20 {
        assert_eq!(die.roll(), 1);
    }
}

#[test]
fn low_source_history_is_all_ones() {
    let mut die = Die::builder().sides(6).rng(LowRng {}).build();
    die.roll();
    die.roll();
    assert_eq!(die.get_history(), vec![1, 1]);
}

#[test]
fn history_matches_returned_values() {
    let mut die = DieBuilder::new().sides(20).build();
    let mut produced: Vec<u8> = Vec::new();
    for _i in 0..5 {
        produced.push(die.roll());
    }
    assert_eq!(die.get_history(), produced);
}

#[test]
fn history_reads_agree_without_a_roll() {
    let mut die = DieBuilder::new().build();
    die.roll();
    let first = die.get_history();
    let second = die.get_history();
    assert_eq!(first, second);
    assert_eq!(first.len(), 1);
}

#[test]
fn new_die_has_empty_history() {
    let die = DieBuilder::new().build();
    assert_eq!(die.get_history(), Vec::<u8>::new());
}
