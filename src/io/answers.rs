use vstd::prelude::*;

use crate::boosters::Booster;
use crate::characters::Character;
use crate::moves::Move;

verus! {

/// The answer to a `Question`.
#[derive(Clone, Debug, PartialEq, Eq)]
pub enum Answer {
    CharacterSelection(CharacterSelection),
    BoosterSelection(BoosterSelection),
    MoveSelection(MoveSelection),
}

/// A character, or text that names none.
#[derive(Clone, Debug, PartialEq, Eq)]
pub enum CharacterSelection {
    Character(Character),
    Nonexistent(String),
}

/// A booster, or text that names none.
#[derive(Clone, Debug, PartialEq, Eq)]
pub enum BoosterSelection {
    Booster(Booster),
    Nonexistent(String),
}

/// A move, or text that names none.
#[derive(Clone, Debug, PartialEq, Eq)]
pub enum MoveSelection {
    Move(Move),
    Nonexistent(String),
}

} // verus!
