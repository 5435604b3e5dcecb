use vstd::prelude::*;

use crate::characters::Character;
use crate::moves::Move;

verus! {

/// How many times in a row a party has picked the same character.
#[derive(Clone, Copy, Debug, PartialEq, Eq, Structural)]
pub struct CharacterStreak {
    pub repeated_character: Option<Character>,
    pub times: u8,
}

/// How many times in a row a party has played the same move.
#[derive(Clone, Copy, Debug, PartialEq, Eq, Structural)]
pub struct MoveStreak {
    pub repeated_move: Option<Move>,
    pub times: u8,
}

impl CharacterStreak {
    /// The streak after `c` is picked: one longer on a repeat, else a new streak of one.
    pub open spec fn added(self, c: Character) -> CharacterStreak {
        if self.repeated_character == Some(c) {
            CharacterStreak { repeated_character: Some(c), times: (self.times + 1) as u8 }
        } else {
            CharacterStreak { repeated_character: Some(c), times: 1 }
        }
    }

    pub fn new() -> (r: CharacterStreak)
        ensures
            r == (CharacterStreak { repeated_character: None, times: 0 }),
    {
        CharacterStreak { repeated_character: None, times: 0 }
    }

    pub fn add(&mut self, c: Character)
        requires
            old(self).repeated_character != Some(c) || old(self).times < u8::MAX,
        ensures
            *final(self) == old(self).added(c),
    {
        if self.repeated_character == Some(c) {
            self.times = self.times + 1;
        } else {
            self.repeated_character = Some(c);
            self.times = 1;
        }
    }
}

impl MoveStreak {
    /// The streak after `m` is played: one longer on a repeat, else a new streak of one.
    pub open spec fn added(self, m: Move) -> MoveStreak {
        if self.repeated_move == Some(m) {
            MoveStreak { repeated_move: Some(m), times: (self.times + 1) as u8 }
        } else {
            MoveStreak { repeated_move: Some(m), times: 1 }
        }
    }

    pub fn new() -> (r: MoveStreak)
        ensures
            r == (MoveStreak { repeated_move: None, times: 0 }),
    {
        MoveStreak { repeated_move: None, times: 0 }
    }

    pub fn add(&mut self, m: Move)
        requires
            old(self).repeated_move != Some(m) || old(self).times < u8::MAX,
        ensures
            *final(self) == old(self).added(m),
    {
        if self.repeated_move == Some(m) {
            self.times = self.times + 1;
        } else {
            self.repeated_move = Some(m);
            self.times = 1;
        }
    }
}

} // verus!
