//! Procedural generation of arena combatants and a verified turn-based
//! duel resolver: dice, attribute modifiers, rule tables, character
//! generation, and a combat state machine.

pub mod character;
pub mod combat;
pub mod dice;
pub mod tables;
pub mod weapons;
