use vstd::prelude::*;

use crate::boosters::Booster;
use crate::moves::Move;

verus! {

/// The four characters a party can play.
#[derive(Clone, Copy, Debug, PartialEq, Eq, Hash, Structural)]
pub enum Character {
    Ninja,
    Zombie,
    Samurai,
    Clown,
}

/// Every character, in catalog order.
pub open spec fn all_characters() -> Seq<Character> {
    seq![Character::Ninja, Character::Zombie, Character::Samurai, Character::Clown]
}

impl Character {
    /// The two boosters that belong to this character.
    pub open spec fn boosters(self) -> Seq<Booster> {
        match self {
            Character::Ninja => seq![Booster::Shadow, Booster::Speedy],
            Character::Zombie => seq![Booster::Regenerative, Booster::ZombieCorps],
            Character::Samurai => seq![Booster::Atlas, Booster::Strong],
            Character::Clown => seq![Booster::Backwards, Booster::Moustachio],
        }
    }

    /// The moves that this character grants whatever its booster.
    pub open spec fn moves(self) -> Seq<Move> {
        match self {
            Character::Ninja => seq![Move::Kick, Move::NinjaSword, Move::Nunchucks],
            Character::Zombie => seq![Move::Rampage, Move::Muscles, Move::Zap],
            Character::Samurai => seq![Move::SamuraiSword, Move::Helmet, Move::Smash],
            Character::Clown => seq![Move::JugglingKnives, Move::AcidSpray, Move::Nose],
        }
    }

    /// The moves of both of this character's boosters.
    pub open spec fn booster_moves(self) -> Seq<Move> {
        self.boosters()[0].moves() + self.boosters()[1].moves()
    }

    /// The two boosters of this character.
    pub fn get_boosters(&self) -> (r: Vec<Booster>)
        ensures
            r@ == self.boosters(),
    {
        let r = match self {
            Character::Ninja => vec![Booster::Shadow, Booster::Speedy],
            Character::Zombie => vec![Booster::Regenerative, Booster::ZombieCorps],
            Character::Samurai => vec![Booster::Atlas, Booster::Strong],
            Character::Clown => vec![Booster::Backwards, Booster::Moustachio],
        };
        assert(r@ =~= self.boosters());
        r
    }

    /// The three moves this character grants.
    pub fn get_moves(&self) -> (r: Vec<Move>)
        ensures
            r@ == self.moves(),
    {
        let r = match self {
            Character::Ninja => vec![Move::Kick, Move::NinjaSword, Move::Nunchucks],
            Character::Zombie => vec![Move::Rampage, Move::Muscles, Move::Zap],
            Character::Samurai => vec![Move::SamuraiSword, Move::Helmet, Move::Smash],
            Character::Clown => vec![Move::JugglingKnives, Move::AcidSpray, Move::Nose],
        };
        assert(r@ =~= self.moves());
        r
    }
}

/// Every character, in catalog order.
pub fn get_all_characters() -> (r: Vec<Character>)
    ensures
        r@ == all_characters(),
{
    let r = vec![Character::Ninja, Character::Zombie, Character::Samurai, Character::Clown];
    assert(r@ =~= all_characters());
    r
}

} // verus!
