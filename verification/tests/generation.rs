use gladiator::character::{gen_character, generate};
use gladiator::dice::DiceSource;
use gladiator::tables::{load_notes, Nationality, Style};
use gladiator::weapons::{get_weapon, WeaponKind};

#[test]
fn generation_follows_the_script_exactly() {
    let mut d = DiceSource::new_scripted(vec![3; 24]);
    let c = generate("Atrox".to_string(), &mut d);
    assert_eq!(c.name, "Atrox");
    assert_eq!(c.strength, 9);
    assert_eq!(c.agility, 9);
    assert_eq!(c.stamina, 9);
    assert_eq!(c.personality, 9);
    assert_eq!(c.intelligence, 9);
    assert_eq!(c.luck, 9);
    assert_eq!(c.nationality, Nationality::Egyptian);
    assert_eq!(c.style, Style::Thracian);
    assert_eq!(c.hp, 6);
    assert_eq!(c.ac, 12);
    assert_eq!(c.notes, load_notes(Style::Thracian));
    assert_eq!(c.initiative, 0);
    assert_eq!(c.weapon.kind, WeaponKind::ShortSword);
    assert_eq!(c.weapon.damage_die, 6);
    assert!(c.weapon.is_melee);
}

#[test]
fn generation_is_reproducible_for_a_script() {
    let script = vec![2, 6, 4, 1, 1, 3, 5, 5, 5, 6, 6, 6, 2, 2, 2, 4, 4, 4, 9, 7, 7, 3, 3, 5];
    let mut d1 = DiceSource::new_scripted(script.clone());
    let mut d2 = DiceSource::new_scripted(script);
    let c1 = generate("Felix".to_string(), &mut d1);
    let c2 = generate("Felix".to_string(), &mut d2);
    assert_eq!(c1.strength, c2.strength);
    assert_eq!(c1.agility, c2.agility);
    assert_eq!(c1.stamina, c2.stamina);
    assert_eq!(c1.personality, c2.personality);
    assert_eq!(c1.intelligence, c2.intelligence);
    assert_eq!(c1.luck, c2.luck);
    assert_eq!(c1.nationality, c2.nationality);
    assert_eq!(c1.style, c2.style);
    assert_eq!(c1.hp, c2.hp);
    assert_eq!(c1.ac, c2.ac);
    assert_eq!(c1.notes, c2.notes);
    assert_eq!(c1.weapon, c2.weapon);
}

#[test]
fn generated_characters_satisfy_the_invariants() {
    for _ in 0..40 {
        let mut d = DiceSource::new_random();
        let c = generate("Ludus".to_string(), &mut d);
        for score in [c.strength, c.agility, c.stamina, c.personality, c.intelligence, c.luck] {
            assert!((3..=18).contains(&score));
        }
        assert!((-4..=14).contains(&c.hp));
        assert!((7..=19).contains(&c.ac));
        assert_eq!(c.initiative, 0);
        assert_eq!(c.notes, load_notes(c.style));
        let w = get_weapon(c.weapon.kind);
        assert_eq!(c.weapon.damage_die, w.damage_die);
        assert_eq!(c.weapon.is_melee, w.is_melee);
        assert!(c.weapon.damage_die >= 1);
        assert!(c.is_well_formed());
    }
}

#[test]
fn named_generation_produces_a_name() {
    let mut d = DiceSource::new_random();
    let c = gen_character(&mut d);
    assert!(c.is_well_formed());
    assert!((3..=18).contains(&c.strength));
}

#[test]
fn well_formedness_check_rejects_a_corrupt_weapon() {
    let mut d = DiceSource::new_scripted(vec![3; 24]);
    let mut c = generate("Varro".to_string(), &mut d);
    assert!(c.is_well_formed());
    c.weapon.damage_die = 0;
    assert!(!c.is_well_formed());
}
