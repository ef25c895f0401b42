use gladiator::dice::DiceSource;
use gladiator::tables::Style;
use gladiator::weapons::{get_weapon, load_weapon, weapon_name, WeaponKind};

#[test]
fn catalog_records_are_fixed() {
    let fists = get_weapon(WeaponKind::Fists);
    assert_eq!(fists.damage_die, 3);
    assert!(fists.is_melee);

    let dagger = get_weapon(WeaponKind::Dagger);
    assert_eq!(dagger.damage_die, 4);
    assert!(!dagger.is_melee);

    let polearm = get_weapon(WeaponKind::Polearm);
    assert_eq!(polearm.damage_die, 10);
    assert!(polearm.is_melee);

    let javelin = get_weapon(WeaponKind::Javelin);
    assert_eq!(javelin.damage_die, 6);
    assert!(!javelin.is_melee);
}

#[test]
fn every_catalog_die_is_at_least_three() {
    let kinds = [
        WeaponKind::Fists,
        WeaponKind::Sica,
        WeaponKind::Warhammer,
        WeaponKind::ShortSword,
        WeaponKind::Cestus,
        WeaponKind::HandAxe,
        WeaponKind::Spear,
        WeaponKind::Javelin,
        WeaponKind::Trident,
        WeaponKind::LongSword,
        WeaponKind::Polearm,
        WeaponKind::Shortbow,
        WeaponKind::Dagger,
    ];
    for kind in kinds {
        let w = get_weapon(kind);
        assert!(w.damage_die >= 3);
        assert_eq!(w.kind, kind);
    }
}

#[test]
fn weapon_names_match_the_catalog() {
    assert_eq!(weapon_name(WeaponKind::ShortSword), "Short Sword");
    assert_eq!(weapon_name(WeaponKind::Fists), "Fists");
    assert_eq!(get_weapon(WeaponKind::Sica).name(), "Sica");
}

#[test]
fn fixed_styles_get_their_fixed_weapons() {
    let mut d = DiceSource::new_random();
    assert_eq!(load_weapon(Style::Murmillo, &mut d).kind, WeaponKind::ShortSword);
    assert_eq!(load_weapon(Style::Retiarius, &mut d).kind, WeaponKind::Trident);
    assert_eq!(load_weapon(Style::Sagittarius, &mut d).kind, WeaponKind::Shortbow);
    assert_eq!(load_weapon(Style::Cataphractarius, &mut d).kind, WeaponKind::Polearm);
}

#[test]
fn unassigned_style_falls_back_to_fists() {
    let mut d = DiceSource::new_random();
    assert_eq!(load_weapon(Style::Rudiarius, &mut d).kind, WeaponKind::Fists);
}

#[test]
fn fugitivus_pick_follows_the_script() {
    let mut d = DiceSource::new_scripted(vec![1]);
    assert_eq!(load_weapon(Style::Fugitivus, &mut d).kind, WeaponKind::Fists);
    let mut d = DiceSource::new_scripted(vec![7]);
    assert_eq!(load_weapon(Style::Fugitivus, &mut d).kind, WeaponKind::LongSword);
    let mut d = DiceSource::new_scripted(vec![4]);
    assert_eq!(load_weapon(Style::Fugitivus, &mut d).kind, WeaponKind::HandAxe);
}

#[test]
fn thracian_pick_follows_the_script() {
    let mut d = DiceSource::new_scripted(vec![1]);
    assert_eq!(load_weapon(Style::Thracian, &mut d).kind, WeaponKind::Dagger);
    let mut d = DiceSource::new_scripted(vec![2]);
    assert_eq!(load_weapon(Style::Thracian, &mut d).kind, WeaponKind::Sica);
    let mut d = DiceSource::new_scripted(vec![3]);
    assert_eq!(load_weapon(Style::Thracian, &mut d).kind, WeaponKind::ShortSword);
}

#[test]
fn randomized_styles_stay_within_their_candidates() {
    for _ in 0..50 {
        let mut d = DiceSource::new_random();
        let w = load_weapon(Style::Fugitivus, &mut d);
        assert!(matches!(
            w.kind,
            WeaponKind::Fists
                | WeaponKind::Dagger
                | WeaponKind::ShortSword
                | WeaponKind::HandAxe
                | WeaponKind::Spear
                | WeaponKind::Warhammer
                | WeaponKind::LongSword
        ));
        let t = load_weapon(Style::Thracian, &mut d);
        assert!(matches!(
            t.kind,
            WeaponKind::Dagger | WeaponKind::Sica | WeaponKind::ShortSword
        ));
    }
}
