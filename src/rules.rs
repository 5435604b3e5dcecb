//! The rulebook as spec functions: what one answer does to a match.

use vstd::prelude::*;

use crate::boosters::Booster;
use crate::characters::Character;
use crate::io::{
    Answer, BoosterSelection, CharacterSelection, MoveSelection, Notification, OutputModel,
    QuestionModel, WhoGetsTheHeadstart, WhoGetsThePoint,
};
use crate::moves::Move;
use crate::outcomes::{Headstart, headstart, move_points};
use crate::players::{BoosterlessPlayer, CharacterlessPlayer, PlayerModel, penalty_point};
use crate::prfg::{high_bits, scaled_index, xorshift};

verus! {

/// The value of a `Phase`.
#[allow(inconsistent_fields)]
pub enum PhaseModel {
    CharacterChoosing { human: CharacterlessPlayer, computer: CharacterlessPlayer },
    BoosterChoosing { human: BoosterlessPlayer, computer: BoosterlessPlayer },
    MoveChoosing { human: PlayerModel, computer: PlayerModel },
    GameOver { human_points: u8, computer_points: u8 },
}

/// The value of a match: its phase and the state of its generator.
pub struct GameModel {
    pub phase: PhaseModel,
    pub rng: u32,
}

/// The points a party needs to win.
pub const WINNING_POINTS: u8 = 5;

impl GameModel {
    /// The states a match can reach: no one has won while the match goes on,
    /// the human scores nothing before characters are locked in, and no streak
    /// runs past three.
    pub open spec fn wf(self) -> bool {
        match self.phase {
            PhaseModel::CharacterChoosing { human, computer } => {
                &&& human.points == 0
                &&& computer.points < WINNING_POINTS
                &&& human.character_streak.times <= 3
                &&& computer.character_streak.times <= 3
            },
            PhaseModel::BoosterChoosing { human, computer } => {
                &&& human.points < WINNING_POINTS
                &&& computer.points < WINNING_POINTS
            },
            PhaseModel::MoveChoosing { human, computer } => {
                &&& human.points < WINNING_POINTS
                &&& computer.points < WINNING_POINTS
                &&& human.move_streak.times <= 3
                &&& computer.move_streak.times <= 3
            },
            PhaseModel::GameOver { .. } => true,
        }
    }

    /// The computer has something to play: while moves are chosen, a move is left to it.
    pub open spec fn computer_can_play(self) -> bool {
        match self.phase {
            PhaseModel::MoveChoosing { computer, .. } => computer.available_moves().len() > 0,
            _ => true,
        }
    }
}

/// The index that the generator in state `rng` draws among `n` candidates.
pub open spec fn drawn_index(rng: u32, n: nat) -> nat {
    scaled_index(high_bits(xorshift(rng)), n)
}

pub open spec fn who_gets_the_headstart(h: Headstart) -> WhoGetsTheHeadstart {
    if h.0 == 1 {
        WhoGetsTheHeadstart::JustHuman
    } else if h.1 == 1 {
        WhoGetsTheHeadstart::JustComputer
    } else {
        WhoGetsTheHeadstart::Neither
    }
}

pub open spec fn who_gets_the_point(p: (u8, u8)) -> WhoGetsThePoint {
    if p.0 == 1 && p.1 == 1 {
        WhoGetsThePoint::Both
    } else if p.0 == 1 {
        WhoGetsThePoint::JustHuman
    } else if p.1 == 1 {
        WhoGetsThePoint::JustComputer
    } else {
        WhoGetsThePoint::Neither
    }
}

/// The two notifications of every penalty, and `GameOver` when the point it
/// hands over gives the computer the match.
pub open spec fn penalty_notifications(note: Notification, human_points: u8, computer_points: u8) -> Seq<Notification> {
    let notes = seq![note, Notification::ScoreUpdate { human_points, computer_points }];
    if computer_points < WINNING_POINTS {
        notes
    } else {
        notes.push(Notification::GameOver { human_points, computer_points })
    }
}

/// A penalty of `cost` on the human while characters are chosen.
pub open spec fn character_penalty(
    human: CharacterlessPlayer,
    computer: CharacterlessPlayer,
    cost: u8,
    note: Notification,
) -> (PhaseModel, OutputModel) {
    let h = human.penalized(cost);
    let cp = (computer.points + penalty_point(human.waits, cost)) as u8;
    let c = CharacterlessPlayer { points: cp, ..computer };
    let notifications = penalty_notifications(note, h.points, cp);
    if cp < WINNING_POINTS {
        (
            PhaseModel::CharacterChoosing { human: h, computer: c },
            OutputModel {
                question: Some(
                    QuestionModel::ChooseCharacter {
                        available_characters: h.available_characters_spec(),
                    },
                ),
                notifications,
            },
        )
    } else {
        (
            PhaseModel::GameOver { human_points: h.points, computer_points: cp },
            OutputModel { question: None, notifications },
        )
    }
}

/// A penalty of `cost` on the human while boosters are chosen.
pub open spec fn booster_penalty(
    human: BoosterlessPlayer,
    computer: BoosterlessPlayer,
    cost: u8,
    note: Notification,
) -> (PhaseModel, OutputModel) {
    let h = human.penalized(cost);
    let cp = (computer.points + penalty_point(human.waits, cost)) as u8;
    let c = BoosterlessPlayer { points: cp, ..computer };
    let notifications = penalty_notifications(note, h.points, cp);
    if cp < WINNING_POINTS {
        (
            PhaseModel::BoosterChoosing { human: h, computer: c },
            OutputModel {
                question: Some(
                    QuestionModel::ChooseBooster { available_boosters: h.available_boosters_spec() },
                ),
                notifications,
            },
        )
    } else {
        (
            PhaseModel::GameOver { human_points: h.points, computer_points: cp },
            OutputModel { question: None, notifications },
        )
    }
}

/// A penalty of `cost` on the human while moves are chosen.
pub open spec fn move_penalty(
    human: PlayerModel,
    computer: PlayerModel,
    cost: u8,
    note: Notification,
) -> (PhaseModel, OutputModel) {
    let h = human.penalized(cost);
    let cp = (computer.points + penalty_point(human.waits, cost)) as u8;
    let c = PlayerModel { points: cp, ..computer };
    let notifications = penalty_notifications(note, h.points, cp);
    if cp < WINNING_POINTS {
        (
            PhaseModel::MoveChoosing { human: h, computer: c },
            OutputModel {
                question: Some(QuestionModel::ChooseMove { available_moves: h.available_moves() }),
                notifications,
            },
        )
    } else {
        (
            PhaseModel::GameOver { human_points: h.points, computer_points: cp },
            OutputModel { question: None, notifications },
        )
    }
}

/// Both parties have picked their characters, `x` for the human and `y` for the computer.
pub open spec fn character_pair(
    human: CharacterlessPlayer,
    computer: CharacterlessPlayer,
    x: Character,
    y: Character,
) -> (PhaseModel, OutputModel) {
    if x == y {
        let h = CharacterlessPlayer { character_streak: human.character_streak.added(x), ..human };
        let c = CharacterlessPlayer {
            character_streak: computer.character_streak.added(y),
            ..computer
        };
        (
            PhaseModel::CharacterChoosing { human: h, computer: c },
            OutputModel {
                question: Some(
                    QuestionModel::ChooseCharacter {
                        available_characters: h.available_characters_spec(),
                    },
                ),
                notifications: seq![Notification::SameCharacterSelection { both_character: x }],
            },
        )
    } else {
        let bonus = headstart(x, y);
        let h = BoosterlessPlayer {
            points: (human.points + bonus.0) as u8,
            waits: human.waits,
            character: x,
        };
        let c = BoosterlessPlayer {
            points: (computer.points + bonus.1) as u8,
            waits: computer.waits,
            character: y,
        };
        let note = Notification::CharacterSelectionAndHeadstart {
            human_character: x,
            computer_character: y,
            who_gets_the_headstart: who_gets_the_headstart(bonus),
        };
        if c.points < WINNING_POINTS {
            (
                PhaseModel::BoosterChoosing { human: h, computer: c },
                OutputModel {
                    question: Some(
                        QuestionModel::ChooseBooster { available_boosters: x.boosters() },
                    ),
                    notifications: seq![note],
                },
            )
        } else {
            (
                PhaseModel::GameOver { human_points: h.points, computer_points: c.points },
                OutputModel {
                    question: None,
                    notifications: seq![
                        note,
                        Notification::GameOver {
                            human_points: h.points,
                            computer_points: c.points,
                        },
                    ],
                },
            )
        }
    }
}

/// The human answers while characters are chosen; the generator starts in `rng`.
/// Returns the next phase, the generator's next state and the output.
pub open spec fn character_turn(
    human: CharacterlessPlayer,
    computer: CharacterlessPlayer,
    rng: u32,
    selection: CharacterSelection,
) -> (PhaseModel, u32, OutputModel) {
    match selection {
        CharacterSelection::Nonexistent(name) => {
            let (p, o) = character_penalty(
                human,
                computer,
                4,
                Notification::CharacterNonexistentPenalty { attempted_character_name: name },
            );
            (p, rng, o)
        },
        CharacterSelection::Character(x) => {
            if !human.available_characters_spec().contains(x) {
                let (p, o) = character_penalty(
                    human,
                    computer,
                    3,
                    Notification::CharacterThreeTimesInARowPenalty { attempted_character: x },
                );
                (p, rng, o)
            } else {
                let options = computer.available_characters_spec();
                let y = options[drawn_index(rng, options.len()) as int];
                let (p, o) = character_pair(human, computer, x, y);
                (p, xorshift(rng), o)
            }
        },
    }
}

/// Both parties have picked their boosters, `b` for the human and `d` for the computer.
pub open spec fn booster_pair(
    human: BoosterlessPlayer,
    computer: BoosterlessPlayer,
    b: Booster,
    d: Booster,
) -> (PhaseModel, OutputModel) {
    let h = human.locked(b);
    let c = computer.locked(d);
    (
        PhaseModel::MoveChoosing { human: h, computer: c },
        OutputModel {
            question: Some(QuestionModel::ChooseMove { available_moves: h.available_moves() }),
            notifications: seq![
                Notification::BoosterSelection { human_booster: b, computer_booster: d },
            ],
        },
    )
}

/// The human answers while boosters are chosen.
pub open spec fn booster_turn(
    human: BoosterlessPlayer,
    computer: BoosterlessPlayer,
    rng: u32,
    selection: BoosterSelection,
) -> (PhaseModel, u32, OutputModel) {
    match selection {
        BoosterSelection::Nonexistent(name) => {
            let (p, o) = booster_penalty(
                human,
                computer,
                4,
                Notification::BoosterNonexistentPenalty { attempted_booster_name: name },
            );
            (p, rng, o)
        },
        BoosterSelection::Booster(b) => {
            if !human.available_boosters_spec().contains(b) {
                let (p, o) = booster_penalty(
                    human,
                    computer,
                    3,
                    Notification::BoosterFromWrongCharacterPenalty { attempted_booster: b },
                );
                (p, rng, o)
            } else {
                let d = computer.available_boosters_spec()[drawn_index(rng, 2) as int];
                let (p, o) = booster_pair(human, computer, b, d);
                (p, xorshift(rng), o)
            }
        },
    }
}

/// The penalty for a move that the human may not play: the first rule that
/// applies, with its cost in waits.
pub open spec fn rejected_move_penalty(human: PlayerModel, m: Move) -> (u8, Notification) {
    if human.destroyed_moves.contains(m) {
        if m.is_single_use() {
            (4, Notification::MoveSingleUsePenalty { attempted_move: m })
        } else {
            (4, Notification::MoveDestroyedPenalty { attempted_move: m })
        }
    } else if human.move_streak.times == 3 && human.move_streak.repeated_move == Some(m) {
        (3, Notification::MoveThreeTimesInARowPenalty { attempted_move: m })
    } else if human.character.booster_moves().contains(m) {
        (2, Notification::MoveFromWrongBoosterPenalty { attempted_move: m })
    } else {
        (3, Notification::MoveFromWrongCharacterPenalty { attempted_move: m })
    }
}

/// A party after it plays `own` against `opponent`: the streak grows, and the
/// move is destroyed if it is single-use or `opponent` is destructive.
pub open spec fn after_playing(p: PlayerModel, own: Move, opponent: Move) -> PlayerModel {
    PlayerModel {
        move_streak: p.move_streak.added(own),
        destroyed_moves: if own.is_single_use() || opponent.is_destructive() {
            p.destroyed_moves.push(own)
        } else {
            p.destroyed_moves
        },
        ..p
    }
}

/// The points of a move round: the table, except that Smash against
/// ShadowFireball goes to the Smash player exactly when its booster is Strong,
/// and else to the ShadowFireball player.
pub open spec fn round_points(
    human_move: Move,
    computer_move: Move,
    human_booster: Booster,
    computer_booster: Booster,
) -> (u8, u8) {
    if human_move == Move::ShadowFireball && computer_move == Move::Smash {
        if computer_booster == Booster::Strong {
            (0, 1)
        } else {
            (1, 0)
        }
    } else if human_move == Move::Smash && computer_move == Move::ShadowFireball {
        if human_booster == Booster::Strong {
            (1, 0)
        } else {
            (0, 1)
        }
    } else {
        move_points(human_move, computer_move)
    }
}

/// Both parties have played, `m` for the human and `y` for the computer.
pub open spec fn move_pair(human: PlayerModel, computer: PlayerModel, m: Move, y: Move) -> (
    PhaseModel,
    OutputModel,
) {
    let pts = round_points(m, y, human.booster, computer.booster);
    let hp = (human.points + pts.0) as u8;
    let cp = (computer.points + pts.1) as u8;
    let h = PlayerModel { points: hp, ..after_playing(human, m, y) };
    let c = PlayerModel { points: cp, ..after_playing(computer, y, m) };
    let notes = seq![
        Notification::MoveSelectionAndOutcome {
            human_move: m,
            computer_move: y,
            who_gets_the_point: who_gets_the_point(pts),
        },
        Notification::ScoreUpdate { human_points: hp, computer_points: cp },
    ];
    let question = Some(QuestionModel::ChooseMove { available_moves: h.available_moves() });
    if hp >= WINNING_POINTS || cp >= WINNING_POINTS {
        if hp == cp {
            (
                PhaseModel::MoveChoosing {
                    human: PlayerModel { points: 4, ..h },
                    computer: PlayerModel { points: 4, ..c },
                },
                OutputModel {
                    question,
                    notifications: notes.push(
                        Notification::TiebreakingScoreSetback { both_points: hp },
                    ),
                },
            )
        } else {
            (
                PhaseModel::GameOver { human_points: hp, computer_points: cp },
                OutputModel {
                    question: None,
                    notifications: notes.push(
                        Notification::GameOver { human_points: hp, computer_points: cp },
                    ),
                },
            )
        }
    } else {
        (PhaseModel::MoveChoosing { human: h, computer: c }, OutputModel { question, notifications: notes })
    }
}

/// The human answers while moves are chosen.
pub open spec fn move_turn(
    human: PlayerModel,
    computer: PlayerModel,
    rng: u32,
    selection: MoveSelection,
) -> (PhaseModel, u32, OutputModel) {
    match selection {
        MoveSelection::Nonexistent(name) => {
            let (p, o) = move_penalty(
                human,
                computer,
                4,
                Notification::MoveNonexistentPenalty { attempted_move_name: name },
            );
            (p, rng, o)
        },
        MoveSelection::Move(m) => {
            if !human.available_moves().contains(m) {
                let (cost, note) = rejected_move_penalty(human, m);
                let (p, o) = move_penalty(human, computer, cost, note);
                (p, rng, o)
            } else {
                let options = computer.available_moves();
                let y = options[drawn_index(rng, options.len()) as int];
                let (p, o) = move_pair(human, computer, m, y);
                (p, xorshift(rng), o)
            }
        },
    }
}

/// One answer applied to a match: the next match and the output, or `None`
/// (with the match unchanged) when the answer is not of the kind the phase asks for.
pub open spec fn step(g: GameModel, answer: Answer) -> (GameModel, Option<OutputModel>) {
    match g.phase {
        PhaseModel::CharacterChoosing { human, computer } => match answer {
            Answer::CharacterSelection(s) => {
                let (p, rng, o) = character_turn(human, computer, g.rng, s);
                (GameModel { phase: p, rng }, Some(o))
            },
            _ => (g, None),
        },
        PhaseModel::BoosterChoosing { human, computer } => match answer {
            Answer::BoosterSelection(s) => {
                let (p, rng, o) = booster_turn(human, computer, g.rng, s);
                (GameModel { phase: p, rng }, Some(o))
            },
            _ => (g, None),
        },
        PhaseModel::MoveChoosing { human, computer } => match answer {
            Answer::MoveSelection(s) => {
                let (p, rng, o) = move_turn(human, computer, g.rng, s);
                (GameModel { phase: p, rng }, Some(o))
            },
            _ => (g, None),
        },
        PhaseModel::GameOver { .. } => (g, None),
    }
}

/// The index that the generator draws among `n > 0` candidates is one of them.
pub proof fn lemma_drawn_index_in_range(rng: u32, n: nat)
    requires
        n > 0,
    ensures
        drawn_index(rng, n) < n,
{
    let x = xorshift(rng);
    assert((x >> 16u32) <= 0xffff) by (bit_vector);
    let b = high_bits(x);
    assert((b * n) / 65536 < n) by (nonlinear_arith)
        requires
            b <= 65535,
            n > 0,
    ;
}

/// Every answer keeps a match among the states it can reach.
pub proof fn lemma_step_keeps_wf(g: GameModel, answer: Answer)
    requires
        g.wf(),
        g.computer_can_play(),
    ensures
        step(g, answer).0.wf(),
{
    match g.phase {
        PhaseModel::CharacterChoosing { human, computer } => {
            human.lemma_available_characters();
            computer.lemma_available_characters();
            lemma_drawn_index_in_range(g.rng, computer.available_characters_spec().len());
        },
        PhaseModel::BoosterChoosing { human, computer } => {
        },
        PhaseModel::MoveChoosing { human, computer } => {
            human.lemma_available_moves();
            computer.lemma_available_moves();
            lemma_drawn_index_in_range(g.rng, computer.available_moves().len());
        },
        PhaseModel::GameOver { .. } => {
        },
    }
}

} // verus!
