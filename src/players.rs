use vstd::prelude::*;

use crate::boosters::Booster;
use crate::characters::{Character, all_characters, get_all_characters};
use crate::moves::Move;
use crate::streaks::{CharacterStreak, MoveStreak};

verus! {

/// The waits left after a penalty of `cost`: `max(0, waits - cost)`.
pub open spec fn waits_after_penalty(waits: u8, cost: u8) -> u8 {
    if waits < cost {
        0
    } else {
        (waits - cost) as u8
    }
}

/// The point that a penalty of `cost` hands the opponent: one when it exceeds the waits left.
pub open spec fn penalty_point(waits: u8, cost: u8) -> u8 {
    if waits < cost {
        1
    } else {
        0
    }
}

/// A penalty leaves `max(0, waits - cost)` waits, and hands the opponent a
/// point exactly when it exceeds the waits left.
pub proof fn lemma_penalty_arithmetic(waits: u8, cost: u8)
    ensures
        waits_after_penalty(waits, cost) as int == if waits as int - cost as int > 0 {
            waits as int - cost as int
        } else {
            0
        },
        penalty_point(waits, cost) == 1 <==> waits < cost,
        penalty_point(waits, cost) == 0 <==> waits >= cost,
{
}

/// A party before it has locked in a character.
#[derive(Clone, Copy, Debug, PartialEq, Eq, Structural)]
pub struct CharacterlessPlayer {
    pub points: u8,
    pub waits: u8,
    pub character_streak: CharacterStreak,
}

/// A party with a character and no booster yet.
#[derive(Clone, Copy, Debug, PartialEq, Eq, Structural)]
pub struct BoosterlessPlayer {
    pub points: u8,
    pub waits: u8,
    pub character: Character,
}

/// A party with both a character and a booster, choosing moves.
#[derive(Clone, Debug)]
pub struct Player {
    pub points: u8,
    pub waits: u8,
    pub character: Character,
    pub booster: Booster,
    pub move_streak: MoveStreak,
    pub destroyed_moves: Vec<Move>,
}

/// The value of a `Player`, with its destroyed moves as a sequence.
pub struct PlayerModel {
    pub points: u8,
    pub waits: u8,
    pub character: Character,
    pub booster: Booster,
    pub move_streak: MoveStreak,
    pub destroyed_moves: Seq<Move>,
}

impl View for Player {
    type V = PlayerModel;

    open spec fn view(&self) -> PlayerModel {
        PlayerModel {
            points: self.points,
            waits: self.waits,
            character: self.character,
            booster: self.booster,
            move_streak: self.move_streak,
            destroyed_moves: self.destroyed_moves@,
        }
    }
}

impl CharacterlessPlayer {
    /// A character is barred once the party has picked it three times in a row.
    pub open spec fn allows_character(self, c: Character) -> bool {
        !(self.character_streak.times == 3 && self.character_streak.repeated_character == Some(c))
    }

    pub open spec fn character_filter(self) -> spec_fn(Character) -> bool {
        |c: Character| self.allows_character(c)
    }

    /// The characters the party may pick, in catalog order.
    pub open spec fn available_characters_spec(self) -> Seq<Character> {
        all_characters().filter(self.character_filter())
    }

    /// This party after a penalty of `cost`.
    pub open spec fn penalized(self, cost: u8) -> CharacterlessPlayer {
        CharacterlessPlayer {
            points: self.points,
            waits: waits_after_penalty(self.waits, cost),
            character_streak: self.character_streak,
        }
    }

    /// This party with `character` locked in.
    pub open spec fn locked(self, character: Character) -> BoosterlessPlayer {
        BoosterlessPlayer { points: self.points, waits: self.waits, character }
    }

    /// What is offered is allowed, and something is always offered.
    pub proof fn lemma_available_characters(self)
        ensures
            forall|c: Character| #[trigger]
                self.available_characters_spec().contains(c) ==> self.allows_character(c),
            self.available_characters_spec().len() > 0,
    {
        let s = all_characters();
        let f = self.character_filter();
        assert forall|c: Character| #[trigger] s.filter(f).contains(c) implies self.allows_character(
            c,
        ) by {
            let i = choose|i: int| 0 <= i < s.filter(f).len() && s.filter(f)[i] == c;
            s.lemma_filter_pred(f, i);
        }
        let e: int = if self.allows_character(Character::Ninja) {
            0
        } else {
            1
        };
        s.lemma_filter_contains(f, e);
    }

    /// A fresh party: no points, four waits, no streak.
    pub open spec fn new_spec() -> CharacterlessPlayer {
        CharacterlessPlayer {
            points: 0,
            waits: 4,
            character_streak: CharacterStreak { repeated_character: None, times: 0 },
        }
    }

    pub fn new() -> (r: CharacterlessPlayer)
        ensures
            r == CharacterlessPlayer::new_spec(),
    {
        CharacterlessPlayer { points: 0, waits: 4, character_streak: CharacterStreak::new() }
    }

    /// The characters this party may pick now.
    pub fn available_characters(&self) -> (r: Vec<Character>)
        ensures
            r@ == self.available_characters_spec(),
    {
        let all = get_all_characters();
        let mut r: Vec<Character> = Vec::new();
        let mut i: usize = 0;
        while i < all.len()
            invariant
                i <= all@.len(),
                all@ == all_characters(),
                r@ == all@.subrange(0, i as int).filter(self.character_filter()),
            decreases all@.len() - i,
        {
            let c = all[i];
            proof {
                assert(all@.subrange(0, i + 1) =~= all@.subrange(0, i as int).push(c));
                all@.subrange(0, i as int).lemma_filter_push(c, self.character_filter());
            }
            if !(self.character_streak.times == 3 && self.character_streak.repeated_character
                == Some(c)) {
                r.push(c);
            }
            i = i + 1;
        }
        assert(all@.subrange(0, all@.len() as int) =~= all@);
        r
    }

    /// Takes a penalty of `waits` from the party's waits, down to zero; returns
    /// the point this hands the opponent.
    pub fn penalize_waits(&mut self, waits: u8) -> (r: u8)
        ensures
            *final(self) == old(self).penalized(waits),
            r == penalty_point(old(self).waits, waits),
    {
        if self.waits < waits {
            self.waits = 0;
            1
        } else {
            self.waits = self.waits - waits;
            0
        }
    }

    /// Locks in `character`, keeping points and waits.
    pub fn to_boosterless_player(&self, character: Character) -> (r: BoosterlessPlayer)
        ensures
            r == self.locked(character),
    {
        BoosterlessPlayer { points: self.points, waits: self.waits, character }
    }
}

impl BoosterlessPlayer {
    /// The boosters the party may pick: the two of its character.
    pub open spec fn available_boosters_spec(self) -> Seq<Booster> {
        self.character.boosters()
    }

    /// This party after a penalty of `cost`.
    pub open spec fn penalized(self, cost: u8) -> BoosterlessPlayer {
        BoosterlessPlayer {
            points: self.points,
            waits: waits_after_penalty(self.waits, cost),
            character: self.character,
        }
    }

    /// This party with `booster` locked in: no streak and no destroyed moves yet.
    pub open spec fn locked(self, booster: Booster) -> PlayerModel {
        PlayerModel {
            points: self.points,
            waits: self.waits,
            character: self.character,
            booster,
            move_streak: MoveStreak { repeated_move: None, times: 0 },
            destroyed_moves: Seq::empty(),
        }
    }

    /// The boosters this party may pick.
    pub fn available_boosters(&self) -> (r: Vec<Booster>)
        ensures
            r@ == self.available_boosters_spec(),
    {
        self.character.get_boosters()
    }

    /// Takes a penalty of `waits` from the party's waits, down to zero; returns
    /// the point this hands the opponent.
    pub fn penalize_waits(&mut self, waits: u8) -> (r: u8)
        ensures
            *final(self) == old(self).penalized(waits),
            r == penalty_point(old(self).waits, waits),
    {
        if self.waits < waits {
            self.waits = 0;
            1
        } else {
            self.waits = self.waits - waits;
            0
        }
    }

    /// Locks in `booster`, keeping points and waits, with a fresh streak and no destroyed moves.
    pub fn to_player(&self, booster: Booster) -> (r: Player)
        ensures
            r@ == self.locked(booster),
    {
        let r = Player {
            points: self.points,
            waits: self.waits,
            character: self.character,
            booster,
            move_streak: MoveStreak::new(),
            destroyed_moves: Vec::new(),
        };
        assert(r@.destroyed_moves =~= Seq::<Move>::empty());
        r
    }
}

impl PlayerModel {
    /// The moves granted by the party's character and then by its booster.
    pub open spec fn granted_moves(self) -> Seq<Move> {
        self.character.moves() + self.booster.moves()
    }

    /// A move is barred once destroyed, and once played three times in a row.
    pub open spec fn allows_move(self, m: Move) -> bool {
        !self.destroyed_moves.contains(m) && !(self.move_streak.times >= 3
            && self.move_streak.repeated_move == Some(m))
    }

    pub open spec fn move_filter(self) -> spec_fn(Move) -> bool {
        |m: Move| self.allows_move(m)
    }

    /// The moves the party may play, in the order they are granted.
    pub open spec fn available_moves(self) -> Seq<Move> {
        self.granted_moves().filter(self.move_filter())
    }

    /// Every move offered is allowed: neither destroyed nor barred by a streak.
    pub proof fn lemma_available_moves(self)
        ensures
            forall|m: Move| #[trigger]
                self.available_moves().contains(m) ==> self.allows_move(m),
    {
        let s = self.granted_moves();
        let f = self.move_filter();
        assert forall|m: Move| #[trigger] s.filter(f).contains(m) implies self.allows_move(m) by {
            let i = choose|i: int| 0 <= i < s.filter(f).len() && s.filter(f)[i] == m;
            s.lemma_filter_pred(f, i);
        }
    }

    /// This party after a penalty of `cost`.
    pub open spec fn penalized(self, cost: u8) -> PlayerModel {
        PlayerModel { waits: waits_after_penalty(self.waits, cost), ..self }
    }
}

/// Whether `m` occurs in `v`.
pub fn contains_move(v: &Vec<Move>, m: Move) -> (r: bool)
    ensures
        r == v@.contains(m),
{
    let mut i: usize = 0;
    while i < v.len()
        invariant
            i <= v@.len(),
            forall|j: int| 0 <= j < i ==> v@[j] != m,
        decreases v@.len() - i,
    {
        if v[i] == m {
            return true;
        }
        i = i + 1;
    }
    false
}

impl Player {
    /// The moves this party may play now.
    pub fn available_moves(&self) -> (r: Vec<Move>)
        ensures
            r@ == self@.available_moves(),
    {
        let mut granted = self.character.get_moves();
        let booster_moves = self.booster.get_moves();
        let ghost character_moves = granted@;
        let mut j: usize = 0;
        while j < booster_moves.len()
            invariant
                j <= booster_moves@.len(),
                granted@ == character_moves + booster_moves@.subrange(0, j as int),
            decreases booster_moves@.len() - j,
        {
            granted.push(booster_moves[j]);
            assert(booster_moves@.subrange(0, j + 1) =~= booster_moves@.subrange(0, j as int).push(
                booster_moves@[j as int],
            ));
            j = j + 1;
        }
        assert(booster_moves@.subrange(0, booster_moves@.len() as int) =~= booster_moves@);
        let mut r: Vec<Move> = Vec::new();
        let mut i: usize = 0;
        while i < granted.len()
            invariant
                i <= granted@.len(),
                granted@ == self@.granted_moves(),
                r@ == granted@.subrange(0, i as int).filter(self@.move_filter()),
            decreases granted@.len() - i,
        {
            let m = granted[i];
            proof {
                assert(granted@.subrange(0, i + 1) =~= granted@.subrange(0, i as int).push(m));
                granted@.subrange(0, i as int).lemma_filter_push(m, self@.move_filter());
            }
            let destroyed = contains_move(&self.destroyed_moves, m);
            let streaked = self.move_streak.times >= 3 && self.move_streak.repeated_move == Some(m);
            if !destroyed && !streaked {
                r.push(m);
            }
            i = i + 1;
        }
        assert(granted@.subrange(0, granted@.len() as int) =~= granted@);
        r
    }

    /// Takes a penalty of `waits` from the party's waits, down to zero; returns
    /// the point this hands the opponent.
    pub fn penalize_waits(&mut self, waits: u8) -> (r: u8)
        ensures
            final(self)@ == old(self)@.penalized(waits),
            r == penalty_point(old(self).waits, waits),
    {
        if self.waits < waits {
            self.waits = 0;
            1
        } else {
            self.waits = self.waits - waits;
            0
        }
    }
}

} // verus!
