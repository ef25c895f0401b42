//! The character record and the generator that rolls one from the
//! dice source and the rule tables.

use vstd::prelude::*;
use crate::dice::{DiceSource, script_sum, script_after, lemma_script_after_add};
use crate::tables::{
    Style, Nationality, spec_modifier, spec_armor_bonus, spec_notes, spec_pick_nationality,
    spec_find_style, calc_modifier, calc_ac, load_notes, find_style, pick_nationality,
};
use crate::weapons::{Weapon, weapon_draws, spec_weapon_for_style, get_weapon, load_weapon};

verus! {

/// A fully formed combatant. Created once by the generator; after
/// creation only the duel resolver touches a copy of it, and the
/// caller's record is never mutated.
#[derive(Clone, Debug)]
pub struct Character {
    pub name: String,
    pub nationality: Nationality,
    pub style: Style,
    pub hp: i32,
    pub ac: i32,
    pub strength: i32,
    pub agility: i32,
    pub stamina: i32,
    pub personality: i32,
    pub intelligence: i32,
    pub luck: i32,
    pub notes: String,
    pub initiative: i32,
    pub weapon: Weapon,
}

impl Character {
    /// Data integrity a duel relies on: the weapon record agrees with
    /// the catalog, so its damage die has at least three sides.
    pub open spec fn wf(self) -> bool {
        self.weapon.wf()
    }

    /// Executable check of the duel's data-integrity requirement, for
    /// callers that rebuild a record from stored plain values.
    pub fn is_well_formed(&self) -> (b: bool)
        ensures
            b == self.wf(),
    {
        let w = get_weapon(self.weapon.kind);
        self.weapon.damage_die == w.damage_die && self.weapon.is_melee == w.is_melee
    }
}

/// Hit points rolled for a new character: 2d4 plus the stamina
/// modifier, and for a Macedonian additionally the luck modifier (the
/// only nationality with a mechanical effect).
pub open spec fn spec_calc_hp(stamina: int, luck: int, nation: Nationality, s: Seq<u8>) -> int {
    script_sum(s, 2, 4) + spec_modifier(stamina) + (if nation is Macedonian {
        spec_modifier(luck)
    } else {
        0
    })
}

/// Roll hit points for the given stamina, luck and nationality.
/// Consumes two draws.
pub fn calc_hp(stamina: i32, luck: i32, nationality: Nationality, dice: &mut DiceSource) -> (hp:
    i32)
    ensures
        -4 <= hp <= 14,
        *old(dice) is Random ==> *final(dice) is Random,
        *old(dice) is Scripted ==> {
            &&& *final(dice) is Scripted
            &&& hp as int == spec_calc_hp(
                stamina as int,
                luck as int,
                nationality,
                old(dice).script(),
            )
            &&& final(dice).script() == script_after(old(dice).script(), 2)
        },
{
    let base = dice.roll(2, 4);
    let hp = match nationality {
        Nationality::Macedonian => base + calc_modifier(stamina) + calc_modifier(luck),
        _ => base + calc_modifier(stamina),
    };
    hp
}

/// The rolled attributes and derived values a generated character
/// always satisfies, whatever the dice source: every attribute score
/// comes from 3d6, hit points from 2d4 with modifiers, armor class
/// and notes exactly from the tables, and the weapon from the catalog.
pub open spec fn generated_ok(c: Character) -> bool {
    &&& 3 <= c.strength <= 18
    &&& 3 <= c.agility <= 18
    &&& 3 <= c.stamina <= 18
    &&& 3 <= c.personality <= 18
    &&& 3 <= c.intelligence <= 18
    &&& 3 <= c.luck <= 18
    &&& -4 <= c.hp <= 14
    &&& c.ac as int == 10 + spec_modifier(c.agility as int) + spec_armor_bonus(c.style)
    &&& c.notes@ == spec_notes(c.style)
    &&& c.initiative == 0
    &&& c.weapon.wf()
}

/// How a scripted source determines every rolled field of a generated
/// character: the six attributes in order, then nationality, style,
/// hit points and weapon, each reading the script where the draws
/// before it left off.
pub open spec fn generated_from_script(c: Character, s: Seq<u8>) -> bool {
    &&& c.strength as int == script_sum(s, 3, 6)
    &&& c.agility as int == script_sum(script_after(s, 3), 3, 6)
    &&& c.stamina as int == script_sum(script_after(s, 6), 3, 6)
    &&& c.personality as int == script_sum(script_after(s, 9), 3, 6)
    &&& c.intelligence as int == script_sum(script_after(s, 12), 3, 6)
    &&& c.luck as int == script_sum(script_after(s, 15), 3, 6)
    &&& c.nationality == spec_pick_nationality(script_after(s, 18))
    &&& c.style == spec_find_style(c.luck as int, script_after(s, 19))
    &&& c.hp as int == spec_calc_hp(
        c.stamina as int,
        c.luck as int,
        c.nationality,
        script_after(s, 21),
    )
    &&& c.weapon.kind == spec_weapon_for_style(c.style, script_after(s, 23))
}

/// Generate a character with the given name: six 3d6 attribute
/// scores, a uniformly picked nationality, a luck-weighted style, and
/// the derived hit points, armor class, notes and weapon. Always
/// succeeds; consumes 23 draws, plus one more for a style with a
/// randomized weapon.
pub fn generate(name: String, dice: &mut DiceSource) -> (c: Character)
    ensures
        generated_ok(c),
        c.name == name,
        c.wf(),
        *old(dice) is Random ==> *final(dice) is Random,
        *old(dice) is Scripted ==> {
            &&& *final(dice) is Scripted
            &&& generated_from_script(c, old(dice).script())
            &&& final(dice).script() == script_after(
                old(dice).script(),
                23 + weapon_draws(c.style),
            )
        },
{
    let ghost s0 = dice.script();
    let strength = dice.roll(3, 6);
    let agility = dice.roll(3, 6);
    let stamina = dice.roll(3, 6);
    let personality = dice.roll(3, 6);
    let intelligence = dice.roll(3, 6);
    let luck = dice.roll(3, 6);
    proof {
        if *old(dice) is Scripted {
            lemma_script_after_add(s0, 3, 3);
            lemma_script_after_add(s0, 6, 3);
            lemma_script_after_add(s0, 9, 3);
            lemma_script_after_add(s0, 12, 3);
            lemma_script_after_add(s0, 15, 3);
        }
    }
    let nationality = pick_nationality(dice);
    let style = find_style(luck, dice);
    let hp = calc_hp(stamina, luck, nationality, dice);
    proof {
        if *old(dice) is Scripted {
            lemma_script_after_add(s0, 18, 1);
            lemma_script_after_add(s0, 19, 2);
            lemma_script_after_add(s0, 21, 2);
        }
    }
    let ac = calc_ac(agility, style);
    let notes = load_notes(style);
    let weapon = load_weapon(style, dice);
    proof {
        if *old(dice) is Scripted {
            lemma_script_after_add(s0, 23, weapon_draws(style));
        }
    }
    Character {
        name,
        nationality,
        style,
        hp,
        ac,
        strength,
        agility,
        stamina,
        personality,
        intelligence,
        luck,
        notes,
        initiative: 0,
        weapon,
    }
}

/// Relies on rnglib's `RNG::new` with the Roman language and
/// `RNG::generate_name`: a randomly composed name from the crate's
/// embedded Roman syllable tables, which its own tests exercise; a
/// failed table load falls back to an empty name. Nothing is promised
/// of the name's contents.
#[verifier::external_body]
fn random_roman_name() -> (n: String) {
    match rnglib::RNG::new(&rnglib::Language::Roman) {
        Ok(r) => r.generate_name(),
        Err(_) => String::new(),
    }
}

/// Generate a character with a randomly composed Roman-styled name.
pub fn gen_character(dice: &mut DiceSource) -> (c: Character)
    ensures
        generated_ok(c),
        c.wf(),
        *old(dice) is Random ==> *final(dice) is Random,
        *old(dice) is Scripted ==> {
            &&& *final(dice) is Scripted
            &&& generated_from_script(c, old(dice).script())
            &&& final(dice).script() == script_after(
                old(dice).script(),
                23 + weapon_draws(c.style),
            )
        },
{
    let name = random_roman_name();
    generate(name, dice)
}

} // verus!
