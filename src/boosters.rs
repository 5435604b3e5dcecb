use vstd::prelude::*;

use crate::moves::Move;

verus! {

/// The eight boosters; each belongs to exactly one character.
#[derive(Clone, Copy, Debug, PartialEq, Eq, Hash, Structural)]
pub enum Booster {
    Shadow,
    Speedy,
    Regenerative,
    ZombieCorps,
    Atlas,
    Strong,
    Backwards,
    Moustachio,
}

impl Booster {
    /// The two moves that this booster grants.
    pub open spec fn moves(self) -> Seq<Move> {
        match self {
            Booster::Shadow => seq![Move::ShadowFireball, Move::ShadowSlip],
            Booster::Speedy => seq![Move::RunInCircles, Move::LightningFastKarateChop],
            Booster::Regenerative => seq![Move::Regenerate, Move::Gravedigger],
            Booster::ZombieCorps => seq![Move::ZombieCorps, Move::Apocalypse],
            Booster::Atlas => seq![Move::Lightning, Move::Earthquake],
            Booster::Strong => seq![Move::Twist, Move::Bend],
            Booster::Backwards => seq![Move::BackwardsMoustachio, Move::NoseOfTheTaunted],
            Booster::Moustachio => seq![Move::MustacheMash, Move::BigHairyDeal],
        }
    }

    /// The two moves this booster grants.
    pub fn get_moves(&self) -> (r: Vec<Move>)
        ensures
            r@ == self.moves(),
    {
        let r = match self {
            Booster::Shadow => vec![Move::ShadowFireball, Move::ShadowSlip],
            Booster::Speedy => vec![Move::RunInCircles, Move::LightningFastKarateChop],
            Booster::Regenerative => vec![Move::Regenerate, Move::Gravedigger],
            Booster::ZombieCorps => vec![Move::ZombieCorps, Move::Apocalypse],
            Booster::Atlas => vec![Move::Lightning, Move::Earthquake],
            Booster::Strong => vec![Move::Twist, Move::Bend],
            Booster::Backwards => vec![Move::BackwardsMoustachio, Move::NoseOfTheTaunted],
            Booster::Moustachio => vec![Move::MustacheMash, Move::BigHairyDeal],
        };
        assert(r@ =~= self.moves());
        r
    }
}

} // verus!
