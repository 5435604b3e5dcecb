use vstd::prelude::*;

verus! {

/// Every move of the game, grouped by the character or booster that grants it.
#[derive(Clone, Copy, Debug, PartialEq, Eq, Hash, Structural)]
pub enum Move {
    Kick,
    NinjaSword,
    Nunchucks,
    ShadowFireball,
    ShadowSlip,
    RunInCircles,
    LightningFastKarateChop,
    Rampage,
    Muscles,
    Zap,
    Regenerate,
    Gravedigger,
    ZombieCorps,
    Apocalypse,
    SamuraiSword,
    Helmet,
    Smash,
    Lightning,
    Earthquake,
    Twist,
    Bend,
    JugglingKnives,
    AcidSpray,
    Nose,
    BackwardsMoustachio,
    NoseOfTheTaunted,
    MustacheMash,
    BigHairyDeal,
}

/// How many moves there are.
pub const MOVE_COUNT: u8 = 28;

impl Move {
    /// The position of a move in the catalog, from 0 to `MOVE_COUNT - 1`.
    pub open spec fn index(self) -> nat {
        match self {
            Move::Kick => 0,
            Move::NinjaSword => 1,
            Move::Nunchucks => 2,
            Move::ShadowFireball => 3,
            Move::ShadowSlip => 4,
            Move::RunInCircles => 5,
            Move::LightningFastKarateChop => 6,
            Move::Rampage => 7,
            Move::Muscles => 8,
            Move::Zap => 9,
            Move::Regenerate => 10,
            Move::Gravedigger => 11,
            Move::ZombieCorps => 12,
            Move::Apocalypse => 13,
            Move::SamuraiSword => 14,
            Move::Helmet => 15,
            Move::Smash => 16,
            Move::Lightning => 17,
            Move::Earthquake => 18,
            Move::Twist => 19,
            Move::Bend => 20,
            Move::JugglingKnives => 21,
            Move::AcidSpray => 22,
            Move::Nose => 23,
            Move::BackwardsMoustachio => 24,
            Move::NoseOfTheTaunted => 25,
            Move::MustacheMash => 26,
            Move::BigHairyDeal => 27,
        }
    }

    /// A single-use move is destroyed as soon as its owner plays it.
    pub open spec fn is_single_use(self) -> bool {
        self == Move::Zap || self == Move::Regenerate || self == Move::AcidSpray
    }

    /// A destructive move destroys the move that the opponent plays against it.
    pub open spec fn is_destructive(self) -> bool {
        self == Move::Lightning || self == Move::Apocalypse
    }

    /// The position of this move in the catalog.
    pub fn ordinal(&self) -> (r: u8)
        ensures
            r as nat == self.index(),
            r < MOVE_COUNT,
    {
        match self {
            Move::Kick => 0,
            Move::NinjaSword => 1,
            Move::Nunchucks => 2,
            Move::ShadowFireball => 3,
            Move::ShadowSlip => 4,
            Move::RunInCircles => 5,
            Move::LightningFastKarateChop => 6,
            Move::Rampage => 7,
            Move::Muscles => 8,
            Move::Zap => 9,
            Move::Regenerate => 10,
            Move::Gravedigger => 11,
            Move::ZombieCorps => 12,
            Move::Apocalypse => 13,
            Move::SamuraiSword => 14,
            Move::Helmet => 15,
            Move::Smash => 16,
            Move::Lightning => 17,
            Move::Earthquake => 18,
            Move::Twist => 19,
            Move::Bend => 20,
            Move::JugglingKnives => 21,
            Move::AcidSpray => 22,
            Move::Nose => 23,
            Move::BackwardsMoustachio => 24,
            Move::NoseOfTheTaunted => 25,
            Move::MustacheMash => 26,
            Move::BigHairyDeal => 27,
        }
    }

    /// Whether this move is single-use.
    pub fn single_use(&self) -> (r: bool)
        ensures
            r == self.is_single_use(),
    {
        match self {
            Move::Zap | Move::Regenerate | Move::AcidSpray => true,
            _ => false,
        }
    }

    /// Whether this move is destructive.
    pub fn destructive(&self) -> (r: bool)
        ensures
            r == self.is_destructive(),
    {
        match self {
            Move::Lightning | Move::Apocalypse => true,
            _ => false,
        }
    }
}

} // verus!
