//! The weapon catalog and the style-to-weapon assignment. Weapon
//! identifiers form a closed enumeration, so every lookup resolves by
//! construction; the unarmed fallback for unlisted styles is the one
//! intentional default.

use vstd::prelude::*;
use vstd::string::StringExecFns;
use crate::dice::{DiceSource, script_head, script_after};
use crate::tables::Style;

verus! {

/// The closed weapon catalog: thirteen entries, looked up by
/// identifier and never constructed ad hoc.
#[derive(Clone, Copy, Debug, PartialEq, Eq, Structural)]
pub enum WeaponKind {
    Fists,
    Sica,
    Warhammer,
    ShortSword,
    Cestus,
    HandAxe,
    Spear,
    Javelin,
    Trident,
    LongSword,
    Polearm,
    Shortbow,
    Dagger,
}

/// Sides of the damage die each catalog entry rolls on a hit.
pub open spec fn spec_damage_die(kind: WeaponKind) -> int {
    match kind {
        WeaponKind::Fists => 3,
        WeaponKind::Sica => 5,
        WeaponKind::Warhammer => 8,
        WeaponKind::ShortSword => 6,
        WeaponKind::Cestus => 3,
        WeaponKind::HandAxe => 6,
        WeaponKind::Spear => 8,
        WeaponKind::Javelin => 6,
        WeaponKind::Trident => 7,
        WeaponKind::LongSword => 8,
        WeaponKind::Polearm => 10,
        WeaponKind::Shortbow => 6,
        WeaponKind::Dagger => 4,
    }
}

/// Whether the catalog entry is a melee weapon; ranged entries attack
/// with agility and take no strength bonus to damage.
pub open spec fn spec_is_melee(kind: WeaponKind) -> bool {
    match kind {
        WeaponKind::Javelin => false,
        WeaponKind::Shortbow => false,
        WeaponKind::Dagger => false,
        _ => true,
    }
}

/// Display name of each catalog entry.
pub open spec fn spec_weapon_name(kind: WeaponKind) -> Seq<char> {
    match kind {
        WeaponKind::Fists => "Fists"@,
        WeaponKind::Sica => "Sica"@,
        WeaponKind::Warhammer => "Warhammer"@,
        WeaponKind::ShortSword => "Short Sword"@,
        WeaponKind::Cestus => "Cestus"@,
        WeaponKind::HandAxe => "Hand Axe"@,
        WeaponKind::Spear => "Spear"@,
        WeaponKind::Javelin => "Javelin"@,
        WeaponKind::Trident => "Trident"@,
        WeaponKind::LongSword => "Long Sword"@,
        WeaponKind::Polearm => "Polearm"@,
        WeaponKind::Shortbow => "Shortbow"@,
        WeaponKind::Dagger => "Dagger"@,
    }
}

/// A weapon record: identifier, damage die size, and melee flag.
#[derive(Clone, Copy, Debug, PartialEq, Eq, Structural)]
pub struct Weapon {
    pub kind: WeaponKind,
    pub damage_die: u8,
    pub is_melee: bool,
}

impl Weapon {
    /// A record agrees with the catalog entry of its identifier. Every
    /// catalog die has at least three sides, so combat damage rolls
    /// are always well formed.
    pub open spec fn wf(self) -> bool {
        &&& self.damage_die as int == spec_damage_die(self.kind)
        &&& self.is_melee == spec_is_melee(self.kind)
    }

    /// Display name of the weapon.
    pub fn name(&self) -> (n: String)
        ensures
            n@ == spec_weapon_name(self.kind),
    {
        weapon_name(self.kind)
    }
}

/// Display name of a catalog entry as executable code.
pub fn weapon_name(kind: WeaponKind) -> (n: String)
    ensures
        n@ == spec_weapon_name(kind),
{
    match kind {
        WeaponKind::Fists => String::from_str("Fists"),
        WeaponKind::Sica => String::from_str("Sica"),
        WeaponKind::Warhammer => String::from_str("Warhammer"),
        WeaponKind::ShortSword => String::from_str("Short Sword"),
        WeaponKind::Cestus => String::from_str("Cestus"),
        WeaponKind::HandAxe => String::from_str("Hand Axe"),
        WeaponKind::Spear => String::from_str("Spear"),
        WeaponKind::Javelin => String::from_str("Javelin"),
        WeaponKind::Trident => String::from_str("Trident"),
        WeaponKind::LongSword => String::from_str("Long Sword"),
        WeaponKind::Polearm => String::from_str("Polearm"),
        WeaponKind::Shortbow => String::from_str("Shortbow"),
        WeaponKind::Dagger => String::from_str("Dagger"),
    }
}

/// Every catalog damage die has between three and ten sides.
pub proof fn lemma_damage_die_range(kind: WeaponKind)
    ensures
        3 <= spec_damage_die(kind) <= 10,
{
}

/// Resolve a catalog identifier to its full weapon record.
pub fn get_weapon(kind: WeaponKind) -> (w: Weapon)
    ensures
        w.kind == kind,
        w.wf(),
{
    let die: u8 = match kind {
        WeaponKind::Fists => 3,
        WeaponKind::Sica => 5,
        WeaponKind::Warhammer => 8,
        WeaponKind::ShortSword => 6,
        WeaponKind::Cestus => 3,
        WeaponKind::HandAxe => 6,
        WeaponKind::Spear => 8,
        WeaponKind::Javelin => 6,
        WeaponKind::Trident => 7,
        WeaponKind::LongSword => 8,
        WeaponKind::Polearm => 10,
        WeaponKind::Shortbow => 6,
        WeaponKind::Dagger => 4,
    };
    let melee: bool = match kind {
        WeaponKind::Javelin => false,
        WeaponKind::Shortbow => false,
        WeaponKind::Dagger => false,
        _ => true,
    };
    Weapon { kind, damage_die: die, is_melee: melee }
}

/// Catalog-resolvable candidates an escaped slave may start with, in
/// table order; the pick is uniform over them.
pub open spec fn fugitivus_candidate(i: int) -> WeaponKind {
    if i == 0 {
        WeaponKind::Fists
    } else if i == 1 {
        WeaponKind::Dagger
    } else if i == 2 {
        WeaponKind::ShortSword
    } else if i == 3 {
        WeaponKind::HandAxe
    } else if i == 4 {
        WeaponKind::Spear
    } else if i == 5 {
        WeaponKind::Warhammer
    } else {
        WeaponKind::LongSword
    }
}

/// Candidates a Thracian may start with, in table order.
pub open spec fn thracian_candidate(i: int) -> WeaponKind {
    if i == 0 {
        WeaponKind::Dagger
    } else if i == 1 {
        WeaponKind::Sica
    } else {
        WeaponKind::ShortSword
    }
}

/// Number of dice draws weapon assignment consumes for a style: one
/// for the two randomized styles, none otherwise.
pub open spec fn weapon_draws(style: Style) -> int {
    match style {
        Style::Fugitivus => 1,
        Style::Thracian => 1,
        _ => 0,
    }
}

/// The weapon identifier assigned to a style, given the script that a
/// scripted source would serve for the randomized styles.
pub open spec fn spec_weapon_for_style(style: Style, s: Seq<u8>) -> WeaponKind {
    match style {
        Style::Andabatae => WeaponKind::ShortSword,
        Style::Fugitivus => fugitivus_candidate(script_head(s, 7) - 1),
        Style::Pugilatus => WeaponKind::Cestus,
        Style::Bestiarius => WeaponKind::HandAxe,
        Style::Velites => WeaponKind::Javelin,
        Style::Thracian => thracian_candidate(script_head(s, 3) - 1),
        Style::Hoplomachus => WeaponKind::Spear,
        Style::Retiarius => WeaponKind::Trident,
        Style::Murmillo => WeaponKind::ShortSword,
        Style::Dimachaerus => WeaponKind::LongSword,
        Style::Provacator => WeaponKind::ShortSword,
        Style::Laquearius => WeaponKind::Dagger,
        Style::Scissor => WeaponKind::ShortSword,
        Style::Samnite => WeaponKind::ShortSword,
        Style::Cataphractarius => WeaponKind::Polearm,
        Style::Rudiarius => WeaponKind::Fists,
        Style::Sagittarius => WeaponKind::Shortbow,
        Style::Eques => WeaponKind::Javelin,
        Style::Essedarius => WeaponKind::Spear,
    }
}

/// Assign a weapon to a style: a fixed catalog lookup for most styles,
/// a uniform pick from a candidate list for the two randomized ones,
/// and the unarmed fallback for the style with no assignment.
pub fn load_weapon(style: Style, dice: &mut DiceSource) -> (w: Weapon)
    ensures
        w.wf(),
        *old(dice) is Random ==> *final(dice) is Random,
        *old(dice) is Scripted ==> {
            &&& *final(dice) is Scripted
            &&& w.kind == spec_weapon_for_style(style, old(dice).script())
            &&& final(dice).script() == script_after(old(dice).script(), weapon_draws(style))
        },
{
    proof {
        reveal_with_fuel(crate::dice::script_sum, 2);
        reveal_with_fuel(script_after, 2);
    }
    match style {
        Style::Andabatae => get_weapon(WeaponKind::ShortSword),
        Style::Fugitivus => {
            let r = dice.roll(1, 7);
            let kind = match r {
                1 => WeaponKind::Fists,
                2 => WeaponKind::Dagger,
                3 => WeaponKind::ShortSword,
                4 => WeaponKind::HandAxe,
                5 => WeaponKind::Spear,
                6 => WeaponKind::Warhammer,
                _ => WeaponKind::LongSword,
            };
            get_weapon(kind)
        },
        Style::Pugilatus => get_weapon(WeaponKind::Cestus),
        Style::Bestiarius => get_weapon(WeaponKind::HandAxe),
        Style::Velites => get_weapon(WeaponKind::Javelin),
        Style::Thracian => {
            let r = dice.roll(1, 3);
            let kind = match r {
                1 => WeaponKind::Dagger,
                2 => WeaponKind::Sica,
                _ => WeaponKind::ShortSword,
            };
            get_weapon(kind)
        },
        Style::Hoplomachus => get_weapon(WeaponKind::Spear),
        Style::Retiarius => get_weapon(WeaponKind::Trident),
        Style::Murmillo => get_weapon(WeaponKind::ShortSword),
        Style::Dimachaerus => get_weapon(WeaponKind::LongSword),
        Style::Provacator => get_weapon(WeaponKind::ShortSword),
        Style::Laquearius => get_weapon(WeaponKind::Dagger),
        Style::Scissor => get_weapon(WeaponKind::ShortSword),
        Style::Samnite => get_weapon(WeaponKind::ShortSword),
        Style::Cataphractarius => get_weapon(WeaponKind::Polearm),
        Style::Rudiarius => get_weapon(WeaponKind::Fists),
        Style::Sagittarius => get_weapon(WeaponKind::Shortbow),
        Style::Eques => get_weapon(WeaponKind::Javelin),
        Style::Essedarius => get_weapon(WeaponKind::Spear),
    }
}

} // verus!
