//! The duel resolver: a turn-based state machine over two characters
//! and the dice source, emitting an ordered sequence of combat events
//! and ending with at most one defeat. On a scripted source the whole
//! duel is an exact function of the combatants and the script.

use vstd::prelude::*;
use crate::dice::{
    DiceSource, script_sum, script_head, script_tail, script_after, lemma_script_after_add,
};
use crate::character::Character;
use crate::tables::{spec_modifier, calc_modifier};
use crate::weapons::{spec_weapon_name, spec_damage_die, weapon_name, lemma_damage_die_range};

verus! {

/// One emitted combat event, immutable once emitted.
#[derive(Clone, Debug, PartialEq)]
pub enum CombatEvent {
    Miss { attacker: String },
    Hit { attacker: String, opponent: String, weapon: String, damage: i32 },
    Defeat { loser: String },
}

/// The mathematical shape of a combat event: names and damage as
/// sequence and integer values.
pub enum EventV {
    Miss { attacker: Seq<char> },
    Hit { attacker: Seq<char>, opponent: Seq<char>, weapon: Seq<char>, damage: int },
    Defeat { loser: Seq<char> },
}

impl View for CombatEvent {
    type V = EventV;

    open spec fn view(&self) -> EventV {
        match self {
            CombatEvent::Miss { attacker } => EventV::Miss { attacker: attacker@ },
            CombatEvent::Hit { attacker, opponent, weapon, damage } => EventV::Hit {
                attacker: attacker@,
                opponent: opponent@,
                weapon: weapon@,
                damage: *damage as int,
            },
            CombatEvent::Defeat { loser } => EventV::Defeat { loser: loser@ },
        }
    }
}

/// The views of an emitted event sequence.
pub open spec fn seq_view(es: Seq<CombatEvent>) -> Seq<EventV> {
    es.map_values(|e: CombatEvent| e@)
}

/// Pushing an event appends its view.
pub proof fn lemma_seq_view_push(es: Seq<CombatEvent>, e: CombatEvent)
    ensures
        seq_view(es.push(e)) == seq_view(es) + seq![e@],
{
    assert(seq_view(es.push(e)) =~= seq_view(es) + seq![e@]);
}

/// Which of the two duel positions a character holds: `First` acts
/// first in every round.
#[derive(Clone, Copy, Debug, PartialEq, Eq, Structural)]
pub enum Side {
    First,
    Second,
}

/// What one attack attempt leaves behind: the events it emitted, the
/// defender's hit points, the remaining script, and whether the
/// defender fell.
pub struct AttackOutcome {
    pub events: Seq<EventV>,
    pub defender_hp: int,
    pub script: Seq<u8>,
    pub ended: bool,
}

/// What a duel leaves behind: all emitted events, the loser if one
/// fell within the round cap, and the remaining script.
pub struct DuelOutcome {
    pub events: Seq<EventV>,
    pub loser: Option<Side>,
    pub script: Seq<u8>,
}

/// Attack-roll bonus: the strength modifier for a melee weapon, the
/// agility modifier for a ranged one.
pub open spec fn spec_att_mod(att: Character) -> int {
    if att.weapon.is_melee {
        spec_modifier(att.strength as int)
    } else {
        spec_modifier(att.agility as int)
    }
}

/// Damage bonus: the strength modifier for a melee weapon, nothing
/// for a ranged one.
pub open spec fn spec_dmg_mod(att: Character) -> int {
    if att.weapon.is_melee {
        spec_modifier(att.strength as int)
    } else {
        0
    }
}

/// One attack attempt under a scripted source: a d20 attack roll plus
/// the attack bonus against the defender's armor class; a miss emits
/// one event and changes nothing else, a hit rolls the weapon's
/// damage die, adds the damage bonus (the total may be non-positive
/// and is deliberately not floored), decrements the defender's hit
/// points, and fells the defender at zero or below.
pub open spec fn spec_attack(att: Character, def: Character, def_hp: int, s: Seq<u8>)
    -> AttackOutcome {
    let to_hit = script_head(s, 20) + spec_att_mod(att);
    let s1 = script_tail(s);
    if to_hit < def.ac as int {
        AttackOutcome {
            events: seq![EventV::Miss { attacker: att.name@ }],
            defender_hp: def_hp,
            script: s1,
            ended: false,
        }
    } else {
        let damage = script_head(s1, att.weapon.damage_die as int) + spec_dmg_mod(att);
        let s2 = script_tail(s1);
        let new_hp = def_hp - damage;
        let hit = EventV::Hit {
            attacker: att.name@,
            opponent: def.name@,
            weapon: spec_weapon_name(att.weapon.kind),
            damage: damage,
        };
        if new_hp <= 0 {
            AttackOutcome {
                events: seq![hit, EventV::Defeat { loser: def.name@ }],
                defender_hp: new_hp,
                script: s2,
                ended: true,
            }
        } else {
            AttackOutcome { events: seq![hit], defender_hp: new_hp, script: s2, ended: false }
        }
    }
}

/// Up to `rounds` rounds of exchange between `first` and `second`
/// under a scripted source. Each round is two attack attempts in
/// initiative order; the second attempt is skipped when the first
/// already fells its target.
pub open spec fn spec_rounds(
    first: Character,
    second: Character,
    hp_first: int,
    hp_second: int,
    s: Seq<u8>,
    rounds: int,
) -> DuelOutcome
    decreases rounds,
{
    if rounds <= 0 {
        DuelOutcome { events: seq![], loser: None, script: s }
    } else {
        let a1 = spec_attack(first, second, hp_second, s);
        if a1.ended {
            DuelOutcome { events: a1.events, loser: Some(Side::Second), script: a1.script }
        } else {
            let a2 = spec_attack(second, first, hp_first, a1.script);
            if a2.ended {
                DuelOutcome {
                    events: a1.events + a2.events,
                    loser: Some(Side::First),
                    script: a2.script,
                }
            } else {
                let rest = spec_rounds(
                    first,
                    second,
                    a2.defender_hp,
                    a1.defender_hp,
                    a2.script,
                    rounds - 1,
                );
                DuelOutcome {
                    events: a1.events + a2.events + rest.events,
                    loser: rest.loser,
                    script: rest.script,
                }
            }
        }
    }
}

/// Whether the second combatant strictly out-rolls the first on
/// initiative and therefore acts first; a tie keeps insertion order.
pub open spec fn spec_swap(a: Character, b: Character, s: Seq<u8>) -> bool {
    script_head(script_tail(s), 20) + spec_modifier(b.agility as int) > script_head(s, 20)
        + spec_modifier(a.agility as int)
}

/// The whole duel under a scripted source: two initiative draws, then
/// rounds of exchange in initiative order up to the round cap.
pub open spec fn spec_duel(a: Character, b: Character, s: Seq<u8>, max_rounds: int)
    -> DuelOutcome {
    let f = if spec_swap(a, b, s) {
        b
    } else {
        a
    };
    let sec = if spec_swap(a, b, s) {
        a
    } else {
        b
    };
    spec_rounds(f, sec, f.hp as int, sec.hp as int, script_after(s, 2), max_rounds)
}

/// The duel's victor under a scripted source, as one of the two input
/// records, or none when the round cap is reached first.
pub open spec fn spec_victor(a: Character, b: Character, s: Seq<u8>, max_rounds: int)
    -> Option<Character> {
    let f = if spec_swap(a, b, s) {
        b
    } else {
        a
    };
    let sec = if spec_swap(a, b, s) {
        a
    } else {
        b
    };
    match spec_duel(a, b, s, max_rounds).loser {
        None => None,
        Some(Side::First) => Some(sec),
        Some(Side::Second) => Some(f),
    }
}

/// An event emitted while `att` attacked `def` carries their names in
/// those roles and, on a hit, the attacker's weapon name.
pub open spec fn attack_event_ok(e: EventV, att: Character, def: Character) -> bool {
    match e {
        EventV::Miss { attacker } => attacker == att.name@,
        EventV::Hit { attacker, opponent, weapon, damage } => {
            &&& attacker == att.name@
            &&& opponent == def.name@
            &&& weapon == spec_weapon_name(att.weapon.kind)
        },
        EventV::Defeat { loser } => loser == def.name@,
    }
}

/// An event of a duel between `a` and `b` carries their names, in one
/// of the two role assignments.
pub open spec fn event_between(e: EventV, a: Character, b: Character) -> bool {
    attack_event_ok(e, a, b) || attack_event_ok(e, b, a)
}

/// One attack attempt by `att` on `def`, whose current hit points are
/// behind `def_hp`. Appends the emitted events; returns whether the
/// defender fell.
fn attack(
    att: &Character,
    def: &Character,
    def_hp: &mut i64,
    events: &mut Vec<CombatEvent>,
    dice: &mut DiceSource,
) -> (ended: bool)
    requires
        att.wf(),
        -0x1000_0000_0000 <= *old(def_hp) <= 0x1000_0000_0000,
    ensures
        old(events)@.len() < final(events)@.len() <= old(events)@.len() + 2,
        (forall|i: int|
            0 <= i < old(events)@.len() ==> final(events)@[i] == old(events)@[i]),
        (forall|i: int|
            old(events)@.len() <= i < final(events)@.len() ==> attack_event_ok(
                (#[trigger] final(events)@[i])@,
                *att,
                *def,
            )),
        ended ==> {
            &&& final(events)@.len() == old(events)@.len() + 2
            &&& final(events)@[final(events)@.len() - 1]@ is Defeat
            &&& final(events)@[final(events)@.len() - 1]@->Defeat_loser == def.name@
            &&& !(final(events)@[final(events)@.len() - 2]@ is Defeat)
            &&& *final(def_hp) <= 0
        },
        !ended ==> {
            &&& final(events)@.len() == old(events)@.len() + 1
            &&& !(final(events)@[final(events)@.len() - 1]@ is Defeat)
        },
        *old(def_hp) - 13 <= *final(def_hp) <= *old(def_hp) + 2,
        *old(dice) is Random ==> *final(dice) is Random,
        *old(dice) is Scripted ==> {
            let out = spec_attack(*att, *def, *old(def_hp) as int, old(dice).script());
            &&& *final(dice) is Scripted
            &&& final(dice).script() == out.script
            &&& seq_view(final(events)@) == seq_view(old(events)@) + out.events
            &&& *final(def_hp) as int == out.defender_hp
            &&& ended == out.ended
        },
{
    proof {
        reveal_with_fuel(script_sum, 2);
        reveal_with_fuel(script_after, 2);
        lemma_damage_die_range(att.weapon.kind);
    }
    let att_mod: i32;
    let dmg_mod: i32;
    if att.weapon.is_melee {
        att_mod = calc_modifier(att.strength);
        dmg_mod = att_mod;
    } else {
        att_mod = calc_modifier(att.agility);
        dmg_mod = 0;
    }
    let r = dice.roll(1, 20);
    let to_hit = r + att_mod;
    if to_hit < def.ac {
        let miss = CombatEvent::Miss { attacker: att.name.clone() };
        proof {
            lemma_seq_view_push(events@, miss);
        }
        events.push(miss);
        false
    } else {
        let dmg_roll = dice.roll(1, att.weapon.damage_die);
        let damage = dmg_roll + dmg_mod;
        let new_hp = *def_hp - damage as i64;
        let hit = CombatEvent::Hit {
            attacker: att.name.clone(),
            opponent: def.name.clone(),
            weapon: weapon_name(att.weapon.kind),
            damage: damage,
        };
        proof {
            lemma_seq_view_push(events@, hit);
        }
        events.push(hit);
        *def_hp = new_hp;
        if new_hp <= 0 {
            let fell = CombatEvent::Defeat { loser: def.name.clone() };
            proof {
                lemma_seq_view_push(events@, fell);
            }
            events.push(fell);
            proof {
                if *old(dice) is Scripted {
                    let out = spec_attack(*att, *def, *old(def_hp) as int, old(dice).script());
                    assert(seq_view(final(events)@) == seq_view(old(events)@) + out.events) by {
                        assert(seq_view(final(events)@) =~= seq_view(old(events)@) + out.events);
                    }
                }
            }
            true
        } else {
            false
        }
    }
}

/// The report of one duel: the ordered event sequence and the victor,
/// or no victor when the round cap was reached without a defeat.
pub struct FightReport {
    pub events: Vec<CombatEvent>,
    pub victor: Option<Character>,
}

/// Resolve a duel between two characters to at most one defeat.
///
/// Initiative is a d20 plus the agility modifier for each character in
/// turn; the strictly higher roller acts first each round and a tie
/// keeps insertion order. Rounds of two attack attempts follow until
/// a defender falls (exactly one defeat event, naming the loser, ends
/// the sequence and the other character is the victor) or until
/// `max_rounds` rounds have passed with no one felled (no defeat event
/// and no victor: a draw at the cap). On a scripted source the event
/// sequence, the victor and the remaining script are exact functions
/// of the combatants and the script.
pub fn resolve(a: Character, b: Character, dice: &mut DiceSource, max_rounds: u32) -> (rep:
    FightReport)
    requires
        a.wf(),
        b.wf(),
    ensures
        rep.victor matches Some(w) ==> (w == a || w == b),
        rep.victor is None ==> (forall|i: int|
            0 <= i < rep.events@.len() ==> !((#[trigger] rep.events@[i])@ is Defeat)),
        rep.victor is None ==> rep.events@.len() == 2 * (max_rounds as int),
        rep.victor is Some ==> 2 <= rep.events@.len() <= 2 * (max_rounds as int) + 1,
        rep.victor matches Some(w) ==> {
            &&& rep.events@.len() > 0
            &&& rep.events@[rep.events@.len() - 1]@ is Defeat
            &&& (forall|i: int|
                0 <= i < rep.events@.len() - 1 ==> !((#[trigger] rep.events@[i])@ is Defeat))
            &&& rep.events@[rep.events@.len() - 1]@->Defeat_loser == (if w == a {
                b.name@
            } else {
                a.name@
            })
        },
        forall|i: int|
            0 <= i < rep.events@.len() ==> event_between((#[trigger] rep.events@[i])@, a, b),
        *old(dice) is Random ==> *final(dice) is Random,
        *old(dice) is Scripted ==> {
            let duel = spec_duel(a, b, old(dice).script(), max_rounds as int);
            &&& *final(dice) is Scripted
            &&& final(dice).script() == duel.script
            &&& seq_view(rep.events@) == duel.events
            &&& rep.victor == spec_victor(a, b, old(dice).script(), max_rounds as int)
        },
{
    let ghost s0 = dice.script();
    let ra = dice.roll(1, 20);
    let ia = ra + calc_modifier(a.agility);
    let rb = dice.roll(1, 20);
    let ib = rb + calc_modifier(b.agility);
    proof {
        reveal_with_fuel(script_sum, 2);
        reveal_with_fuel(script_after, 2);
        if *old(dice) is Scripted {
            lemma_script_after_add(s0, 1, 1);
        }
    }
    let swap = ib > ia;
    let (first, second) = if swap {
        (b, a)
    } else {
        (a, b)
    };
    let ghost sduel = dice.script();
    let ghost full = spec_rounds(
        first,
        second,
        first.hp as int,
        second.hp as int,
        sduel,
        max_rounds as int,
    );
    let mut hp1: i64 = first.hp as i64;
    let mut hp2: i64 = second.hp as i64;
    let mut events: Vec<CombatEvent> = Vec::new();
    let mut loser: Option<Side> = None;
    let mut round: u32 = 0;
    proof {
        assert(seq_view(events@) + full.events =~= full.events);
    }
    while round < max_rounds && loser.is_none()
        invariant
            round <= max_rounds,
            first.wf(),
            second.wf(),
            -0x8000_0000 - 13 * (round as int) <= hp1 as int <= 0x8000_0000 + 2 * (round as int),
            -0x8000_0000 - 13 * (round as int) <= hp2 as int <= 0x8000_0000 + 2 * (round as int),
            forall|i: int|
                0 <= i < events@.len() ==> event_between((#[trigger] events@[i])@, first, second),
            loser is None ==> (forall|i: int|
                0 <= i < events@.len() ==> !((#[trigger] events@[i])@ is Defeat)),
            loser is None ==> events@.len() == 2 * (round as int),
            loser is Some ==> 2 <= events@.len() <= 2 * (round as int) + 1,
            loser matches Some(side) ==> {
                &&& events@.len() > 0
                &&& events@[events@.len() - 1]@ is Defeat
                &&& (forall|i: int|
                    0 <= i < events@.len() - 1 ==> !((#[trigger] events@[i])@ is Defeat))
                &&& events@[events@.len() - 1]@->Defeat_loser == (if side == Side::First {
                    first.name@
                } else {
                    second.name@
                })
            },
            *old(dice) is Random ==> *dice is Random,
            *old(dice) is Scripted ==> {
                &&& *dice is Scripted
                &&& (loser is None ==> {
                    let rest = spec_rounds(
                        first,
                        second,
                        hp1 as int,
                        hp2 as int,
                        dice.script(),
                        max_rounds as int - round as int,
                    );
                    &&& full.events == seq_view(events@) + rest.events
                    &&& full.loser == rest.loser
                    &&& full.script == rest.script
                })
                &&& (loser is Some ==> {
                    &&& full.events == seq_view(events@)
                    &&& full.loser == loser
                    &&& full.script == dice.script()
                })
            },
        decreases max_rounds - round,
    {
        let ghost scr_pre = dice.script();
        let ghost ev_pre = events@;
        let ghost hp1_pre = hp1;
        let ghost hp2_pre = hp2;
        let ended1 = attack(&first, &second, &mut hp2, &mut events, dice);
        if ended1 {
            loser = Some(Side::Second);
            proof {
                if *old(dice) is Scripted {
                    let a1 = spec_attack(first, second, hp2_pre as int, scr_pre);
                    assert(full.events == seq_view(events@)) by {
                        assert(full.events =~= (seq_view(ev_pre) + a1.events));
                        assert(seq_view(events@) =~= seq_view(ev_pre) + a1.events);
                    }
                }
            }
        } else {
            let ghost scr_mid = dice.script();
            let ghost ev_mid = events@;
            let ended2 = attack(&second, &first, &mut hp1, &mut events, dice);
            if ended2 {
                loser = Some(Side::First);
                proof {
                    if *old(dice) is Scripted {
                        let a1 = spec_attack(first, second, hp2_pre as int, scr_pre);
                        let a2 = spec_attack(second, first, hp1_pre as int, scr_mid);
                        assert(full.events == seq_view(events@)) by {
                            assert(full.events =~= seq_view(ev_pre) + (a1.events + a2.events));
                            assert(seq_view(events@) =~= seq_view(ev_pre) + (a1.events
                                + a2.events));
                        }
                    }
                }
            } else {
                proof {
                    if *old(dice) is Scripted {
                        let a1 = spec_attack(first, second, hp2_pre as int, scr_pre);
                        let a2 = spec_attack(second, first, hp1_pre as int, scr_mid);
                        let rest_pre = spec_rounds(
                            first,
                            second,
                            hp1_pre as int,
                            hp2_pre as int,
                            scr_pre,
                            max_rounds as int - round as int,
                        );
                        let rest_next = spec_rounds(
                            first,
                            second,
                            hp1 as int,
                            hp2 as int,
                            dice.script(),
                            max_rounds as int - round as int - 1,
                        );
                        assert(rest_pre.events == a1.events + a2.events + rest_next.events);
                        assert(full.events == seq_view(events@) + rest_next.events) by {
                            assert(full.events =~= seq_view(ev_pre) + rest_pre.events);
                            assert(seq_view(ev_pre) + (a1.events + a2.events + rest_next.events)
                                =~= (seq_view(ev_pre) + a1.events + a2.events) + rest_next.events);
                            assert(seq_view(events@) =~= seq_view(ev_pre) + a1.events + a2.events);
                        }
                    }
                }
            }
        }
        round = round + 1;
    }
    let victor = match loser {
        None => None,
        Some(Side::First) => Some(second),
        Some(Side::Second) => Some(first),
    };
    proof {
        if *old(dice) is Scripted {
            if loser is None {
                assert(full.events == seq_view(events@)) by {
                    assert(full.events =~= seq_view(events@));
                }
            }
        }
    }
    FightReport { events, victor }
}

/// Re-running a duel with the same combatants, the same round cap and
/// an identical script yields the identical event sequence, remaining
/// script and victor.
pub proof fn lemma_resolve_round_trip(
    a: Character,
    b: Character,
    s1: Seq<u8>,
    s2: Seq<u8>,
    max_rounds: int,
)
    requires
        s1 == s2,
    ensures
        spec_duel(a, b, s1, max_rounds) == spec_duel(a, b, s2, max_rounds),
        spec_victor(a, b, s1, max_rounds) == spec_victor(a, b, s2, max_rounds),
{
}

} // verus!
