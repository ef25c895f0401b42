//! Fixed rule tables: the attribute-modifier step function, the style
//! and nationality catalogs, the style-selection roll, the armor-class
//! derivation, and the per-style descriptive notes.

use vstd::prelude::*;
use vstd::string::StringExecFns;
use crate::dice::{DiceSource, script_sum, script_after};

verus! {

/// Modifier for a raw attribute score. Total over all integers: scores
/// outside the table (non-positive or 19 and above) fall into the
/// zero bucket, which downstream rules rely on as a catch-all.
pub open spec fn spec_modifier(stat: int) -> int {
    if 1 <= stat <= 3 {
        -3
    } else if 4 <= stat <= 5 {
        -2
    } else if 6 <= stat <= 8 {
        -1
    } else if 13 <= stat <= 15 {
        1
    } else if 16 <= stat <= 17 {
        2
    } else if stat == 18 {
        3
    } else {
        0
    }
}

/// The attribute modifier table as executable code.
pub fn calc_modifier(stat: i32) -> (m: i32)
    ensures
        m == spec_modifier(stat as int),
        -3 <= m <= 3,
{
    if 1 <= stat && stat <= 3 {
        -3
    } else if 4 <= stat && stat <= 5 {
        -2
    } else if 6 <= stat && stat <= 8 {
        -1
    } else if 13 <= stat && stat <= 15 {
        1
    } else if 16 <= stat && stat <= 17 {
        2
    } else if stat == 18 {
        3
    } else {
        0
    }
}

/// The nineteen combat archetypes, in catalog order. The order is the
/// de facto probability weighting of the style-selection roll:
/// front-loaded toward penalized styles, back-loaded toward elite ones.
#[derive(Clone, Copy, Debug, PartialEq, Eq, Structural)]
pub enum Style {
    Andabatae,
    Fugitivus,
    Pugilatus,
    Bestiarius,
    Velites,
    Thracian,
    Hoplomachus,
    Retiarius,
    Murmillo,
    Dimachaerus,
    Provacator,
    Laquearius,
    Scissor,
    Samnite,
    Cataphractarius,
    Rudiarius,
    Sagittarius,
    Eques,
    Essedarius,
}

/// The style catalog indexed 0 through 18.
pub open spec fn style_at(i: int) -> Style {
    if i == 0 {
        Style::Andabatae
    } else if i == 1 {
        Style::Fugitivus
    } else if i == 2 {
        Style::Pugilatus
    } else if i == 3 {
        Style::Bestiarius
    } else if i == 4 {
        Style::Velites
    } else if i == 5 {
        Style::Thracian
    } else if i == 6 {
        Style::Hoplomachus
    } else if i == 7 {
        Style::Retiarius
    } else if i == 8 {
        Style::Murmillo
    } else if i == 9 {
        Style::Dimachaerus
    } else if i == 10 {
        Style::Provacator
    } else if i == 11 {
        Style::Laquearius
    } else if i == 12 {
        Style::Scissor
    } else if i == 13 {
        Style::Samnite
    } else if i == 14 {
        Style::Cataphractarius
    } else if i == 15 {
        Style::Rudiarius
    } else if i == 16 {
        Style::Sagittarius
    } else if i == 17 {
        Style::Eques
    } else {
        Style::Essedarius
    }
}

/// The style catalog lookup as executable code.
pub fn style_from_index(i: usize) -> (s: Style)
    requires
        i < 19,
    ensures
        s == style_at(i as int),
{
    match i {
        0 => Style::Andabatae,
        1 => Style::Fugitivus,
        2 => Style::Pugilatus,
        3 => Style::Bestiarius,
        4 => Style::Velites,
        5 => Style::Thracian,
        6 => Style::Hoplomachus,
        7 => Style::Retiarius,
        8 => Style::Murmillo,
        9 => Style::Dimachaerus,
        10 => Style::Provacator,
        11 => Style::Laquearius,
        12 => Style::Scissor,
        13 => Style::Samnite,
        14 => Style::Cataphractarius,
        15 => Style::Rudiarius,
        16 => Style::Sagittarius,
        17 => Style::Eques,
        _ => Style::Essedarius,
    }
}

/// Zero-based catalog index selected by a 2d10 roll modified by luck:
/// the raw index is the roll plus the luck modifier minus one, clamped
/// into [0, 18]. The upper clamp closes the latent overrun of a
/// maximal roll with a +2 modifier reaching one past the catalog.
pub open spec fn spec_style_index(luck: int, s: Seq<u8>) -> int {
    let raw = script_sum(s, 2, 10) + spec_modifier(luck) - 1;
    if raw < 0 {
        0
    } else if raw > 18 {
        18
    } else {
        raw
    }
}

/// The style a scripted source selects for the given luck score.
pub open spec fn spec_find_style(luck: int, s: Seq<u8>) -> Style {
    style_at(spec_style_index(luck, s))
}

/// Select a style from a luck-weighted 2d10 roll over the catalog.
/// Consumes two draws. On a scripted source the choice is an exact
/// function of the luck score and the script.
pub fn find_style(luck: i32, dice: &mut DiceSource) -> (s: Style)
    ensures
        *old(dice) is Random ==> *final(dice) is Random,
        *old(dice) is Scripted ==> {
            &&& *final(dice) is Scripted
            &&& s == spec_find_style(luck as int, old(dice).script())
            &&& final(dice).script() == script_after(old(dice).script(), 2)
        },
{
    let r = dice.roll(2, 10);
    let m = calc_modifier(luck);
    let raw = r + m - 1;
    let idx: usize = if raw < 0 {
        0
    } else if raw > 18 {
        18
    } else {
        raw as usize
    };
    style_from_index(idx)
}

/// Style selection is deterministic and reproducible: identical luck
/// scores and identical scripts select the identical style.
pub proof fn lemma_select_style_reproducible(luck: int, s1: Seq<u8>, s2: Seq<u8>)
    requires
        s1 == s2,
    ensures
        spec_find_style(luck, s1) == spec_find_style(luck, s2),
{
}

/// Style-specific armor bonus added to armor class: the sum of the
/// armor pieces the style fights in (manica 1, shield 1, leather 2,
/// large shield 2, hide 3, breastplate 3, scale 4); unlisted styles
/// fight unarmored for a bonus of zero.
pub open spec fn spec_armor_bonus(style: Style) -> int {
    match style {
        Style::Bestiarius => 2,
        Style::Dimachaerus => 2,
        Style::Velites => 1,
        Style::Hoplomachus => 1,
        Style::Eques => 1,
        Style::Thracian => 2,
        Style::Retiarius => 1,
        Style::Murmillo => 3,
        Style::Provacator => 5,
        Style::Scissor => 3,
        Style::Samnite => 6,
        Style::Cataphractarius => 4,
        _ => 0,
    }
}

/// Armor class: 10, plus the agility modifier, plus the style's armor
/// bonus.
pub fn calc_ac(agility: i32, style: Style) -> (ac: i32)
    ensures
        ac as int == 10 + spec_modifier(agility as int) + spec_armor_bonus(style),
        7 <= ac <= 19,
{
    let m = calc_modifier(agility);
    let bonus: i32 = match style {
        Style::Bestiarius | Style::Dimachaerus => 2,
        Style::Velites | Style::Hoplomachus | Style::Eques => 1,
        Style::Thracian => 2,
        Style::Retiarius => 1,
        Style::Murmillo => 3,
        Style::Provacator => 5,
        Style::Scissor => 3,
        Style::Samnite => 6,
        Style::Cataphractarius => 4,
        _ => 0,
    };
    10 + m + bonus
}

/// The fourteen nationality labels, in catalog order. Only Macedonian
/// has a mechanical effect (a luck bonus to hit points); the rest are
/// cosmetic.
#[derive(Clone, Copy, Debug, PartialEq, Eq, Structural)]
pub enum Nationality {
    Roman,
    Carthaginian,
    Egyptian,
    Gaul,
    Germanian,
    Greek,
    Illyrian,
    Judaean,
    Lycian,
    Macedonian,
    Numidian,
    Parthian,
    Syrian,
    Thracian,
}

/// The nationality catalog indexed 0 through 13.
pub open spec fn nationality_at(i: int) -> Nationality {
    if i == 0 {
        Nationality::Roman
    } else if i == 1 {
        Nationality::Carthaginian
    } else if i == 2 {
        Nationality::Egyptian
    } else if i == 3 {
        Nationality::Gaul
    } else if i == 4 {
        Nationality::Germanian
    } else if i == 5 {
        Nationality::Greek
    } else if i == 6 {
        Nationality::Illyrian
    } else if i == 7 {
        Nationality::Judaean
    } else if i == 8 {
        Nationality::Lycian
    } else if i == 9 {
        Nationality::Macedonian
    } else if i == 10 {
        Nationality::Numidian
    } else if i == 11 {
        Nationality::Parthian
    } else if i == 12 {
        Nationality::Syrian
    } else {
        Nationality::Thracian
    }
}

/// The nationality catalog lookup as executable code.
pub fn nationality_from_index(i: usize) -> (n: Nationality)
    requires
        i < 14,
    ensures
        n == nationality_at(i as int),
{
    match i {
        0 => Nationality::Roman,
        1 => Nationality::Carthaginian,
        2 => Nationality::Egyptian,
        3 => Nationality::Gaul,
        4 => Nationality::Germanian,
        5 => Nationality::Greek,
        6 => Nationality::Illyrian,
        7 => Nationality::Judaean,
        8 => Nationality::Lycian,
        9 => Nationality::Macedonian,
        10 => Nationality::Numidian,
        11 => Nationality::Parthian,
        12 => Nationality::Syrian,
        _ => Nationality::Thracian,
    }
}

/// The nationality a single scripted draw selects: a uniform pick over
/// the fourteen-entry catalog.
pub open spec fn spec_pick_nationality(s: Seq<u8>) -> Nationality {
    nationality_at(crate::dice::script_head(s, 14) - 1)
}

/// Pick a nationality uniformly from the catalog. Consumes one draw.
pub fn pick_nationality(dice: &mut DiceSource) -> (n: Nationality)
    ensures
        *old(dice) is Random ==> *final(dice) is Random,
        *old(dice) is Scripted ==> {
            &&& *final(dice) is Scripted
            &&& n == spec_pick_nationality(old(dice).script())
            &&& final(dice).script() == script_after(old(dice).script(), 1)
        },
{
    let r = dice.roll(1, 14);
    proof {
        reveal_with_fuel(script_sum, 2);
        reveal_with_fuel(script_after, 2);
    }
    nationality_from_index((r - 1) as usize)
}

/// Descriptive notes for each style: informational payload with no
/// mechanical effect.
pub open spec fn spec_notes(style: Style) -> Seq<char> {
    match style {
        Style::Andabatae => "Blinded with Short sword and no armor. -4 penalty to attack rolls, move only at half speed, +2 for opponents to hit."@,
        Style::Fugitivus => "Roll 1d4 modified by luck: <1 Unarmed, 1 Club, 2 Dagger, 3 Short Sword, 4 Hand Axe, 5 Spear, 6 Warhammer, 7 Long Sword"@,
        Style::Pugilatus => "Cestus (2)"@,
        Style::Bestiarius => "Hand axe, spear, leather armor"@,
        Style::Velites => "Two javelins, shield"@,
        Style::Thracian => "Manica, shield, Roll 1d3: 1 Dagger, 2 Sica, 3 Short sword"@,
        Style::Hoplomachus => "Spear, short sword, shield, helmet"@,
        Style::Retiarius => "Trident, net, dagger, manica"@,
        Style::Murmillo => "Short sword, manica, large shield, helmet"@,
        Style::Dimachaerus => "Two long swords, leather armor, helmet"@,
        Style::Provacator => "Short sword, breastplate, helmet, large shield"@,
        Style::Laquearius => "Dagger, lasso/whip/grappling hook, manica"@,
        Style::Scissor => "Short sword, hide armor, scissor"@,
        Style::Samnite => "Short sword, large shield, scale mail"@,
        Style::Cataphractarius => "Polearm and scale mail"@,
        Style::Rudiarius => "2d100 GP starting funds for initial weapons/armor"@,
        Style::Sagittarius => "short bow, 20 arrows, horse, dagger"@,
        Style::Eques => "Javelin, long sword, shield, helmet, horse"@,
        Style::Essedarius => "Spear, helmet, chariot"@,
    }
}

/// The notes lookup as executable code: every style maps to its
/// catalog text, with no fall-through default.
pub fn load_notes(style: Style) -> (n: String)
    ensures
        n@ == spec_notes(style),
{
    match style {
        Style::Andabatae => String::from_str("Blinded with Short sword and no armor. -4 penalty to attack rolls, move only at half speed, +2 for opponents to hit."),
        Style::Fugitivus => String::from_str("Roll 1d4 modified by luck: <1 Unarmed, 1 Club, 2 Dagger, 3 Short Sword, 4 Hand Axe, 5 Spear, 6 Warhammer, 7 Long Sword"),
        Style::Pugilatus => String::from_str("Cestus (2)"),
        Style::Bestiarius => String::from_str("Hand axe, spear, leather armor"),
        Style::Velites => String::from_str("Two javelins, shield"),
        Style::Thracian => String::from_str("Manica, shield, Roll 1d3: 1 Dagger, 2 Sica, 3 Short sword"),
        Style::Hoplomachus => String::from_str("Spear, short sword, shield, helmet"),
        Style::Retiarius => String::from_str("Trident, net, dagger, manica"),
        Style::Murmillo => String::from_str("Short sword, manica, large shield, helmet"),
        Style::Dimachaerus => String::from_str("Two long swords, leather armor, helmet"),
        Style::Provacator => String::from_str("Short sword, breastplate, helmet, large shield"),
        Style::Laquearius => String::from_str("Dagger, lasso/whip/grappling hook, manica"),
        Style::Scissor => String::from_str("Short sword, hide armor, scissor"),
        Style::Samnite => String::from_str("Short sword, large shield, scale mail"),
        Style::Cataphractarius => String::from_str("Polearm and scale mail"),
        Style::Rudiarius => String::from_str("2d100 GP starting funds for initial weapons/armor"),
        Style::Sagittarius => String::from_str("short bow, 20 arrows, horse, dagger"),
        Style::Eques => String::from_str("Javelin, long sword, shield, helmet, horse"),
        Style::Essedarius => String::from_str("Spear, helmet, chariot"),
    }
}

} // verus!
