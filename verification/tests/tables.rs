use gladiator::dice::DiceSource;
use gladiator::character::calc_hp;
use gladiator::tables::{
    calc_ac, calc_modifier, find_style, load_notes, pick_nationality, Nationality, Style,
};

#[test]
fn modifier_boundaries() {
    assert_eq!(calc_modifier(3), -3);
    assert_eq!(calc_modifier(5), -2);
    assert_eq!(calc_modifier(8), -1);
    assert_eq!(calc_modifier(12), 0);
    assert_eq!(calc_modifier(15), 1);
    assert_eq!(calc_modifier(17), 2);
    assert_eq!(calc_modifier(18), 3);
    assert_eq!(calc_modifier(19), 0);
    assert_eq!(calc_modifier(0), 0);
}

#[test]
fn modifier_out_of_table_is_zero() {
    assert_eq!(calc_modifier(-5), 0);
    assert_eq!(calc_modifier(21), 0);
    assert_eq!(calc_modifier(100), 0);
}

#[test]
fn modifier_interior_values() {
    assert_eq!(calc_modifier(1), -3);
    assert_eq!(calc_modifier(4), -2);
    assert_eq!(calc_modifier(6), -1);
    assert_eq!(calc_modifier(9), 0);
    assert_eq!(calc_modifier(13), 1);
    assert_eq!(calc_modifier(16), 2);
}

#[test]
fn ac_is_ten_plus_agility_modifier_plus_armor() {
    assert_eq!(calc_ac(10, Style::Murmillo), 13);
    assert_eq!(calc_ac(18, Style::Samnite), 19);
    assert_eq!(calc_ac(3, Style::Andabatae), 7);
    assert_eq!(calc_ac(10, Style::Provacator), 15);
    assert_eq!(calc_ac(10, Style::Laquearius), 10);
}

#[test]
fn find_style_is_reproducible_for_a_script() {
    let mut d1 = DiceSource::new_scripted(vec![5, 5]);
    let mut d2 = DiceSource::new_scripted(vec![5, 5]);
    let s1 = find_style(10, &mut d1);
    let s2 = find_style(10, &mut d2);
    assert_eq!(s1, Style::Dimachaerus);
    assert_eq!(s1, s2);
}

#[test]
fn find_style_clamps_low_rolls_to_first_entry() {
    let mut d = DiceSource::new_scripted(vec![1, 1]);
    assert_eq!(find_style(3, &mut d), Style::Andabatae);
}

#[test]
fn find_style_clamps_high_rolls_to_last_entry() {
    let mut d = DiceSource::new_scripted(vec![10, 10]);
    assert_eq!(find_style(18, &mut d), Style::Essedarius);
}

#[test]
fn nationality_pick_follows_the_script() {
    let mut d = DiceSource::new_scripted(vec![10]);
    assert_eq!(pick_nationality(&mut d), Nationality::Macedonian);
    let mut d = DiceSource::new_scripted(vec![1]);
    assert_eq!(pick_nationality(&mut d), Nationality::Roman);
    let mut d = DiceSource::new_scripted(vec![14]);
    assert_eq!(pick_nationality(&mut d), Nationality::Thracian);
}

#[test]
fn hp_adds_luck_modifier_only_for_macedonians() {
    let mut d = DiceSource::new_scripted(vec![1, 1]);
    assert_eq!(calc_hp(18, 18, Nationality::Macedonian, &mut d), 8);
    let mut d = DiceSource::new_scripted(vec![1, 1]);
    assert_eq!(calc_hp(18, 18, Nationality::Roman, &mut d), 5);
}

#[test]
fn hp_can_be_non_positive_for_poor_scores() {
    let mut d = DiceSource::new_scripted(vec![1, 1]);
    assert_eq!(calc_hp(1, 1, Nationality::Macedonian, &mut d), -4);
}

#[test]
fn notes_match_the_catalog() {
    assert_eq!(load_notes(Style::Pugilatus), "Cestus (2)");
    assert_eq!(load_notes(Style::Essedarius), "Spear, helmet, chariot");
    assert_eq!(
        load_notes(Style::Rudiarius),
        "2d100 GP starting funds for initial weapons/armor"
    );
}
