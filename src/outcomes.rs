use vstd::prelude::*;

use crate::characters::Character;
use crate::moves::{Move, MOVE_COUNT};

verus! {

/// The headstart points that the human and the computer get for a character pair.
#[derive(Clone, Copy, Debug, PartialEq, Eq, Structural)]
pub struct Headstart(pub u8, pub u8);

/// Characters beat each other round a circle: Ninja, Zombie, Samurai, Clown,
/// and Clown beats Ninja. Opposite characters beat neither.
pub open spec fn character_beats(a: Character, b: Character) -> bool {
    (a == Character::Ninja && b == Character::Zombie)
    || (a == Character::Zombie && b == Character::Samurai)
    || (a == Character::Samurai && b == Character::Clown)
    || (a == Character::Clown && b == Character::Ninja)
}

/// The headstart table: one point to the party whose character beats the other's.
pub open spec fn headstart(human: Character, computer: Character) -> Headstart {
    if character_beats(human, computer) {
        Headstart(1, 0)
    } else if character_beats(computer, human) {
        Headstart(0, 1)
    } else {
        Headstart(0, 0)
    }
}

/// The points table for a move pair (human's move first). Moves stand round a
/// circle in catalog order: a move beats the thirteen that follow it, loses to the
/// thirteen before it, trades points with the one opposite, and ties with itself.
pub open spec fn move_points(human: Move, computer: Move) -> (u8, u8) {
    let d = (computer.index() + MOVE_COUNT - human.index()) % (MOVE_COUNT as int);
    if d == 0 {
        (0, 0)
    } else if d < 14 {
        (1, 0)
    } else if d == 14 {
        (1, 1)
    } else {
        (0, 1)
    }
}

fn beats(a: Character, b: Character) -> (r: bool)
    ensures
        r == character_beats(a, b),
{
    match (a, b) {
        (Character::Ninja, Character::Zombie) => true,
        (Character::Zombie, Character::Samurai) => true,
        (Character::Samurai, Character::Clown) => true,
        (Character::Clown, Character::Ninja) => true,
        _ => false,
    }
}

/// Looks up the headstart for a character pair.
pub fn get_headstart(human: Character, computer: Character) -> (r: Headstart)
    ensures
        r == headstart(human, computer),
{
    if beats(human, computer) {
        Headstart(1, 0)
    } else if beats(computer, human) {
        Headstart(0, 1)
    } else {
        Headstart(0, 0)
    }
}

/// Looks up the points for a move pair, each 0 or 1.
pub fn get_points(human: Move, computer: Move) -> (r: (u8, u8))
    ensures
        r == move_points(human, computer),
{
    let d: u8 = (computer.ordinal() + MOVE_COUNT - human.ordinal()) % MOVE_COUNT;
    if d == 0 {
        (0, 0)
    } else if d < 14 {
        (1, 0)
    } else if d == 14 {
        (1, 1)
    } else {
        (0, 1)
    }
}

} // verus!
