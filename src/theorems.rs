//! What holds of every match, proved over the rulebook in `rules`.

use vstd::prelude::*;

use crate::characters::Character;
use crate::io::{Answer, Notification, OutputModel};
use crate::moves::Move;
use crate::players::{CharacterlessPlayer, PlayerModel};
use crate::rules::{GameModel, PhaseModel, WINNING_POINTS, move_pair, round_points, step};

verus! {

/// The human's points in a phase.
pub open spec fn human_points(p: PhaseModel) -> u8 {
    match p {
        PhaseModel::CharacterChoosing { human, .. } => human.points,
        PhaseModel::BoosterChoosing { human, .. } => human.points,
        PhaseModel::MoveChoosing { human, .. } => human.points,
        PhaseModel::GameOver { human_points, .. } => human_points,
    }
}

/// The computer's points in a phase.
pub open spec fn computer_points(p: PhaseModel) -> u8 {
    match p {
        PhaseModel::CharacterChoosing { computer, .. } => computer.points,
        PhaseModel::BoosterChoosing { computer, .. } => computer.points,
        PhaseModel::MoveChoosing { computer, .. } => computer.points,
        PhaseModel::GameOver { computer_points, .. } => computer_points,
    }
}

/// Answers applied one after another: the match at the end and the result of each.
pub open spec fn run(g: GameModel, answers: Seq<Answer>) -> (GameModel, Seq<Option<OutputModel>>)
    decreases answers.len(),
{
    if answers.len() == 0 {
        (g, Seq::empty())
    } else {
        let (g1, o) = step(g, answers[0]);
        let (g2, os) = run(g1, answers.drop_first());
        (g2, seq![o] + os)
    }
}

/// An answer that is taken asks a next question exactly when the match goes on;
/// once it is over there is no question, and every later answer is refused.
pub proof fn lemma_question_iff_match_goes_on(g: GameModel, answer: Answer)
    requires
        g.wf(),
        g.computer_can_play(),
        step(g, answer).1 is Some,
    ensures
        (step(g, answer).0.phase is GameOver) <==> (step(g, answer).1->Some_0.question is None),
        step(g, answer).0.phase is GameOver ==> forall|b: Answer| #[trigger] step(step(g, answer).0, b).1 is None,
{
}

/// While the human has not won, a computer below the winning score means a
/// next question.
pub proof fn lemma_question_while_computer_below_winning(g: GameModel, answer: Answer)
    requires
        g.wf(),
        g.computer_can_play(),
        step(g, answer).1 is Some,
        human_points(step(g, answer).0.phase) < WINNING_POINTS,
    ensures
        computer_points(step(g, answer).0.phase) < WINNING_POINTS ==> step(g, answer).1->Some_0.question is Some,
{
}

/// A match that is over refuses every answer and stays over.
pub proof fn lemma_game_over_is_final(g: GameModel, answers: Seq<Answer>)
    requires
        g.phase is GameOver,
    ensures
        run(g, answers).0 == g,
        forall|i: int| 0 <= i < answers.len() ==> #[trigger] run(g, answers).1[i] is None,
        run(g, answers).1.len() == answers.len(),
    decreases answers.len(),
{
    if answers.len() > 0 {
        lemma_game_over_is_final(g, answers.drop_first());
        let os = run(g, answers.drop_first()).1;
        assert forall|i: int| 0 <= i < answers.len() implies #[trigger] run(g, answers).1[i] is None by {
            if i > 0 {
                assert(run(g, answers).1[i] == os[i - 1]);
            }
        }
    }
}

/// When a move round leaves both parties level at the winning score or more,
/// both drop to exactly four and moves are chosen again.
pub proof fn lemma_tiebreak_setback(human: PlayerModel, computer: PlayerModel, m: Move, y: Move)
    requires
        human.points < WINNING_POINTS,
        computer.points < WINNING_POINTS,
        human.points + round_points(m, y, human.booster, computer.booster).0 == computer.points
            + round_points(m, y, human.booster, computer.booster).1,
        human.points + round_points(m, y, human.booster, computer.booster).0 >= WINNING_POINTS,
    ensures
        move_pair(human, computer, m, y).0 is MoveChoosing,
        move_pair(human, computer, m, y).0->MoveChoosing_human.points == 4,
        move_pair(human, computer, m, y).0->MoveChoosing_computer.points == 4,
        move_pair(human, computer, m, y).1.question is Some,
        move_pair(human, computer, m, y).1.notifications.last() == (
        Notification::TiebreakingScoreSetback {
            both_points: (human.points + round_points(m, y, human.booster, computer.booster).0) as u8,
        }),
{
}

/// A character picked for the third time in a row is not offered next.
pub proof fn lemma_character_barred_after_three(p: CharacterlessPlayer, c: Character)
    requires
        p.character_streak.repeated_character != Some(c),
    ensures
        !(CharacterlessPlayer {
            character_streak: p.character_streak.added(c).added(c).added(c),
            ..p
        }).available_characters_spec().contains(c),
{
    let q = CharacterlessPlayer { character_streak: p.character_streak.added(c).added(c).added(c), ..p };
    q.lemma_available_characters();
}

/// A move played for the third time in a row is not offered next.
pub proof fn lemma_move_barred_after_three(p: PlayerModel, m: Move)
    requires
        p.move_streak.repeated_move != Some(m),
    ensures
        !(PlayerModel { move_streak: p.move_streak.added(m).added(m).added(m), ..p }).available_moves().contains(m),
{
    let q = PlayerModel { move_streak: p.move_streak.added(m).added(m).added(m), ..p };
    q.lemma_available_moves();
}

/// The destroyed moves of each party, while moves are chosen.
pub open spec fn destroyed_of(p: PhaseModel) -> (Seq<Move>, Seq<Move>) {
    match p {
        PhaseModel::MoveChoosing { human, computer } => (human.destroyed_moves, computer.destroyed_moves),
        _ => (Seq::empty(), Seq::empty()),
    }
}

/// One answer never repairs a destroyed move: from move choosing, the match
/// either ends or keeps every destroyed move of both parties.
pub proof fn lemma_step_keeps_destroyed(g: GameModel, answer: Answer, m: Move)
    requires
        g.phase is MoveChoosing,
    ensures
        step(g, answer).0.phase is MoveChoosing || step(g, answer).0.phase is GameOver,
        step(g, answer).0.phase is MoveChoosing ==> {
            &&& destroyed_of(g.phase).0.contains(m) ==> destroyed_of(step(g, answer).0.phase).0.contains(m)
            &&& destroyed_of(g.phase).1.contains(m) ==> destroyed_of(step(g, answer).0.phase).1.contains(m)
        },
{
    let (h0, c0) = destroyed_of(g.phase);
    assert forall|s: Seq<Move>, x: Move| s.contains(m) implies #[trigger] s.push(x).contains(m) by {
        let i = choose|i: int| 0 <= i < s.len() && s[i] == m;
        assert(s.push(x)[i] == m);
    }
}

/// Once a move is destroyed, it is never offered to its party again for the
/// rest of the match, whatever the answers.
pub proof fn lemma_destroyed_never_offered(g: GameModel, answers: Seq<Answer>, m: Move)
    requires
        g.phase is MoveChoosing,
    ensures
        run(g, answers).0.phase is MoveChoosing ==> {
            &&& destroyed_of(g.phase).0.contains(m) ==> !run(g, answers).0.phase->MoveChoosing_human.available_moves().contains(m)
            &&& destroyed_of(g.phase).1.contains(m) ==> !run(g, answers).0.phase->MoveChoosing_computer.available_moves().contains(m)
        },
    decreases answers.len(),
{
    if answers.len() == 0 {
        g.phase->MoveChoosing_human.lemma_available_moves();
        g.phase->MoveChoosing_computer.lemma_available_moves();
    } else {
        let g1 = step(g, answers[0]).0;
        lemma_step_keeps_destroyed(g, answers[0], m);
        if g1.phase is GameOver {
            lemma_game_over_is_final(g1, answers.drop_first());
        } else {
            lemma_destroyed_never_offered(g1, answers.drop_first(), m);
        }
    }
}

/// Two matches in the same state, fed the same answers, give the same outputs
/// and end in the same state; two matches made from one seed start in the same state.
pub proof fn lemma_deterministic(g1: GameModel, g2: GameModel, answers: Seq<Answer>)
    requires
        g1 == g2,
    ensures
        run(g1, answers) == run(g2, answers),
{
}

} // verus!
