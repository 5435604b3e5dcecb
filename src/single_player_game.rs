use vstd::prelude::*;

use crate::boosters::Booster;
use crate::characters::Character;
use crate::io::{
    Answer, BoosterSelection, CharacterSelection, MoveSelection, Notification, Output, Question,
    WhoGetsTheHeadstart, WhoGetsThePoint,
};
use crate::moves::Move;
use crate::outcomes::{Headstart, get_headstart, get_points};
use crate::players::{BoosterlessPlayer, CharacterlessPlayer, Player, contains_move};
use crate::prfg::{PseudorandomFloatGenerator, scale_to_index, xorshift};
use crate::rules::{
    GameModel, PhaseModel, WINNING_POINTS, booster_pair, booster_penalty, booster_turn,
    character_pair, character_penalty, character_turn, drawn_index, move_pair, move_penalty,
    move_turn, rejected_move_penalty, round_points, step, who_gets_the_headstart,
    who_gets_the_point,
};

verus! {

/// A phase of the game.
#[allow(inconsistent_fields)]
#[derive(Clone, Debug)]
pub enum Phase {
    CharacterChoosing { human: CharacterlessPlayer, computer: CharacterlessPlayer },
    BoosterChoosing { human: BoosterlessPlayer, computer: BoosterlessPlayer },
    MoveChoosing { human: Player, computer: Player },
    GameOver { human_points: u8, computer_points: u8 },
}

impl View for Phase {
    type V = PhaseModel;

    open spec fn view(&self) -> PhaseModel {
        match self {
            Phase::CharacterChoosing { human, computer } => PhaseModel::CharacterChoosing {
                human: *human,
                computer: *computer,
            },
            Phase::BoosterChoosing { human, computer } => PhaseModel::BoosterChoosing {
                human: *human,
                computer: *computer,
            },
            Phase::MoveChoosing { human, computer } => PhaseModel::MoveChoosing {
                human: human@,
                computer: computer@,
            },
            Phase::GameOver { human_points, computer_points } => PhaseModel::GameOver {
                human_points: *human_points,
                computer_points: *computer_points,
            },
        }
    }
}

/// A match of one human against the computer, which picks with a seeded generator.
pub struct SinglePlayerNZSCGame {
    prfg: PseudorandomFloatGenerator,
    pub phase: Phase,
}

impl View for SinglePlayerNZSCGame {
    type V = GameModel;

    closed spec fn view(&self) -> GameModel {
        GameModel { phase: self.phase@, rng: self.prfg.state() }
    }
}

fn contains_character(v: &Vec<Character>, c: Character) -> (r: bool)
    ensures
        r == v@.contains(c),
{
    let mut i: usize = 0;
    while i < v.len()
        invariant
            i <= v@.len(),
            forall|j: int| 0 <= j < i ==> v@[j] != c,
        decreases v@.len() - i,
    {
        if v[i] == c {
            return true;
        }
        i = i + 1;
    }
    false
}

fn contains_booster(v: &Vec<Booster>, b: Booster) -> (r: bool)
    ensures
        r == v@.contains(b),
{
    let mut i: usize = 0;
    while i < v.len()
        invariant
            i <= v@.len(),
            forall|j: int| 0 <= j < i ==> v@[j] != b,
        decreases v@.len() - i,
    {
        if v[i] == b {
            return true;
        }
        i = i + 1;
    }
    false
}

proof fn lemma_concat_contains(a: Seq<Move>, b: Seq<Move>, m: Move)
    ensures
        (a + b).contains(m) <==> a.contains(m) || b.contains(m),
{
    if a.contains(m) {
        let i = choose|i: int| 0 <= i < a.len() && a[i] == m;
        assert((a + b)[i] == m);
    }
    if b.contains(m) {
        let j = choose|j: int| 0 <= j < b.len() && b[j] == m;
        assert((a + b)[a.len() + j] == m);
    }
    if (a + b).contains(m) {
        let i = choose|i: int| 0 <= i < (a + b).len() && (a + b)[i] == m;
        if i < a.len() {
            assert(a[i] == m);
        } else {
            assert(b[i - a.len()] == m);
        }
    }
}

fn penalize_characterless(
    human: CharacterlessPlayer,
    computer: CharacterlessPlayer,
    cost: u8,
    note: Notification,
) -> (r: (Phase, Output))
    requires
        computer.points < WINNING_POINTS,
    ensures
        r.0@ == character_penalty(human, computer, cost, note).0,
        r.1@ == character_penalty(human, computer, cost, note).1,
{
    let mut h = human;
    let mut c = computer;
    c.points = c.points + h.penalize_waits(cost);
    let mut notifications = vec![
        note,
        Notification::ScoreUpdate { human_points: h.points, computer_points: c.points },
    ];
    if c.points < WINNING_POINTS {
        let available_characters = h.available_characters();
        (
            Phase::CharacterChoosing { human: h, computer: c },
            Output {
                question: Some(Question::ChooseCharacter { available_characters }),
                notifications,
            },
        )
    } else {
        notifications.push(
            Notification::GameOver { human_points: h.points, computer_points: c.points },
        );
        (
            Phase::GameOver { human_points: h.points, computer_points: c.points },
            Output { question: None, notifications },
        )
    }
}

fn penalize_boosterless(
    human: BoosterlessPlayer,
    computer: BoosterlessPlayer,
    cost: u8,
    note: Notification,
) -> (r: (Phase, Output))
    requires
        computer.points < WINNING_POINTS,
    ensures
        r.0@ == booster_penalty(human, computer, cost, note).0,
        r.1@ == booster_penalty(human, computer, cost, note).1,
{
    let mut h = human;
    let mut c = computer;
    c.points = c.points + h.penalize_waits(cost);
    let mut notifications = vec![
        note,
        Notification::ScoreUpdate { human_points: h.points, computer_points: c.points },
    ];
    if c.points < WINNING_POINTS {
        let available_boosters = h.available_boosters();
        (
            Phase::BoosterChoosing { human: h, computer: c },
            Output {
                question: Some(Question::ChooseBooster { available_boosters }),
                notifications,
            },
        )
    } else {
        notifications.push(
            Notification::GameOver { human_points: h.points, computer_points: c.points },
        );
        (
            Phase::GameOver { human_points: h.points, computer_points: c.points },
            Output { question: None, notifications },
        )
    }
}

fn penalize_player(human: Player, computer: Player, cost: u8, note: Notification) -> (r: (
    Phase,
    Output,
))
    requires
        computer.points < WINNING_POINTS,
    ensures
        r.0@ == move_penalty(human@, computer@, cost, note).0,
        r.1@ == move_penalty(human@, computer@, cost, note).1,
{
    let mut h = human;
    let mut c = computer;
    c.points = c.points + h.penalize_waits(cost);
    let mut notifications = vec![
        note,
        Notification::ScoreUpdate { human_points: h.points, computer_points: c.points },
    ];
    if c.points < WINNING_POINTS {
        let available_moves = h.available_moves();
        (
            Phase::MoveChoosing { human: h, computer: c },
            Output { question: Some(Question::ChooseMove { available_moves }), notifications },
        )
    } else {
        notifications.push(
            Notification::GameOver { human_points: h.points, computer_points: c.points },
        );
        (
            Phase::GameOver { human_points: h.points, computer_points: c.points },
            Output { question: None, notifications },
        )
    }
}

fn headstart_winner(bonus: Headstart) -> (r: WhoGetsTheHeadstart)
    ensures
        r == who_gets_the_headstart(bonus),
{
    if bonus.0 == 1 {
        WhoGetsTheHeadstart::JustHuman
    } else if bonus.1 == 1 {
        WhoGetsTheHeadstart::JustComputer
    } else {
        WhoGetsTheHeadstart::Neither
    }
}

fn who_scored(points: (u8, u8)) -> (r: WhoGetsThePoint)
    ensures
        r == who_gets_the_point(points),
{
    if points.0 == 1 && points.1 == 1 {
        WhoGetsThePoint::Both
    } else if points.0 == 1 {
        WhoGetsThePoint::JustHuman
    } else if points.1 == 1 {
        WhoGetsThePoint::JustComputer
    } else {
        WhoGetsThePoint::Neither
    }
}

/// The points of a move round, with the Smash-against-ShadowFireball override.
fn points_of_round(
    human_move: Move,
    computer_move: Move,
    human_booster: Booster,
    computer_booster: Booster,
) -> (r: (u8, u8))
    ensures
        r == round_points(human_move, computer_move, human_booster, computer_booster),
        r.0 <= 1,
        r.1 <= 1,
{
    if human_move == Move::ShadowFireball && computer_move == Move::Smash {
        if computer_booster == Booster::Strong {
            (0, 1)
        } else {
            (1, 0)
        }
    } else if human_move == Move::Smash && computer_move == Move::ShadowFireball {
        if human_booster == Booster::Strong {
            (1, 0)
        } else {
            (0, 1)
        }
    } else {
        get_points(human_move, computer_move)
    }
}

fn pair_characters(human: CharacterlessPlayer, computer: CharacterlessPlayer, x: Character, y: Character) -> (r: (Phase, Output))
    requires
        human.points < WINNING_POINTS,
        computer.points < WINNING_POINTS,
        human.character_streak.times <= 3,
        computer.character_streak.times <= 3,
    ensures
        r.0@ == character_pair(human, computer, x, y).0,
        r.1@ == character_pair(human, computer, x, y).1,
{
    if x == y {
        let mut h = human;
        let mut c = computer;
        h.character_streak.add(x);
        c.character_streak.add(y);
        let available_characters = h.available_characters();
        let notifications = vec![Notification::SameCharacterSelection { both_character: x }];
        assert(notifications@ =~= seq![Notification::SameCharacterSelection { both_character: x }]);
        (
            Phase::CharacterChoosing { human: h, computer: c },
            Output {
                question: Some(Question::ChooseCharacter { available_characters }),
                notifications,
            },
        )
    } else {
        let bonus = get_headstart(x, y);
        let who_gets_the_headstart = headstart_winner(bonus);
        let mut h = human.to_boosterless_player(x);
        let mut c = computer.to_boosterless_player(y);
        h.points = h.points + bonus.0;
        c.points = c.points + bonus.1;
        let note = Notification::CharacterSelectionAndHeadstart {
            human_character: x,
            computer_character: y,
            who_gets_the_headstart,
        };
        if c.points < WINNING_POINTS {
            let available_boosters = x.get_boosters();
            let notifications = vec![note];
            assert(notifications@ =~= seq![note]);
            (
                Phase::BoosterChoosing { human: h, computer: c },
                Output { question: Some(Question::ChooseBooster { available_boosters }), notifications },
            )
        } else {
            (
                Phase::GameOver { human_points: h.points, computer_points: c.points },
                Output {
                    question: None,
                    notifications: vec![
                        note,
                        Notification::GameOver { human_points: h.points, computer_points: c.points },
                    ],
                },
            )
        }
    }
}

fn pair_boosters(human: BoosterlessPlayer, computer: BoosterlessPlayer, b: Booster, d: Booster) -> (r: (Phase, Output))
    ensures
        r.0@ == booster_pair(human, computer, b, d).0,
        r.1@ == booster_pair(human, computer, b, d).1,
{
    let h = human.to_player(b);
    let c = computer.to_player(d);
    let available_moves = h.available_moves();
    let notifications = vec![Notification::BoosterSelection { human_booster: b, computer_booster: d }];
    assert(notifications@ =~= seq![
        Notification::BoosterSelection { human_booster: b, computer_booster: d },
    ]);
    (
        Phase::MoveChoosing { human: h, computer: c },
        Output { question: Some(Question::ChooseMove { available_moves }), notifications },
    )
}

/// The penalty rule that a move the human may not play falls under, with its cost.
fn rejected_move(human: &Player, m: Move) -> (r: (u8, Notification))
    ensures
        r == rejected_move_penalty(human@, m),
{
    if contains_move(&human.destroyed_moves, m) {
        if m.single_use() {
            (4, Notification::MoveSingleUsePenalty { attempted_move: m })
        } else {
            (4, Notification::MoveDestroyedPenalty { attempted_move: m })
        }
    } else if human.move_streak.times == 3 && human.move_streak.repeated_move == Some(m) {
        (3, Notification::MoveThreeTimesInARowPenalty { attempted_move: m })
    } else {
        let boosters = human.character.get_boosters();
        let first = boosters[0].get_moves();
        let second = boosters[1].get_moves();
        proof {
            lemma_concat_contains(first@, second@, m);
        }
        if contains_move(&first, m) || contains_move(&second, m) {
            (2, Notification::MoveFromWrongBoosterPenalty { attempted_move: m })
        } else {
            (3, Notification::MoveFromWrongCharacterPenalty { attempted_move: m })
        }
    }
}

fn play_moves(human: Player, computer: Player, m: Move, y: Move) -> (r: (Phase, Output))
    requires
        human.points < WINNING_POINTS,
        computer.points < WINNING_POINTS,
        human.move_streak.times <= 3,
        computer.move_streak.times <= 3,
    ensures
        r.0@ == move_pair(human@, computer@, m, y).0,
        r.1@ == move_pair(human@, computer@, m, y).1,
{
    let mut h = human;
    let mut c = computer;
    h.move_streak.add(m);
    c.move_streak.add(y);
    if m.single_use() || y.destructive() {
        h.destroyed_moves.push(m);
    }
    if y.single_use() || m.destructive() {
        c.destroyed_moves.push(y);
    }
    let points = points_of_round(m, y, h.booster, c.booster);
    h.points = h.points + points.0;
    c.points = c.points + points.1;
    let mut notifications = vec![
        Notification::MoveSelectionAndOutcome {
            human_move: m,
            computer_move: y,
            who_gets_the_point: who_scored(points),
        },
        Notification::ScoreUpdate { human_points: h.points, computer_points: c.points },
    ];
    if h.points >= WINNING_POINTS || c.points >= WINNING_POINTS {
        if h.points == c.points {
            let available_moves = h.available_moves();
            notifications.push(Notification::TiebreakingScoreSetback { both_points: h.points });
            h.points = 4;
            c.points = 4;
            (
                Phase::MoveChoosing { human: h, computer: c },
                Output { question: Some(Question::ChooseMove { available_moves }), notifications },
            )
        } else {
            notifications.push(
                Notification::GameOver { human_points: h.points, computer_points: c.points },
            );
            (
                Phase::GameOver { human_points: h.points, computer_points: c.points },
                Output { question: None, notifications },
            )
        }
    } else {
        let available_moves = h.available_moves();
        (
            Phase::MoveChoosing { human: h, computer: c },
            Output { question: Some(Question::ChooseMove { available_moves }), notifications },
        )
    }
}

impl SinglePlayerNZSCGame {
    /// The state of the match's generator.
    closed spec fn rng_state(&self) -> u32 {
        self.prfg.state()
    }

    /// A match whose generator starts at `seed`: two fresh parties choosing characters.
    pub fn new(seed: u32) -> (r: SinglePlayerNZSCGame)
        ensures
            r@ == (GameModel {
                phase: PhaseModel::CharacterChoosing {
                    human: CharacterlessPlayer::new_spec(),
                    computer: CharacterlessPlayer::new_spec(),
                },
                rng: seed,
            }),
            r@.wf(),
    {
        SinglePlayerNZSCGame {
            prfg: PseudorandomFloatGenerator::new(seed),
            phase: Phase::CharacterChoosing {
                human: CharacterlessPlayer::new(),
                computer: CharacterlessPlayer::new(),
            },
        }
    }

    /// Draws an index from 0 to `inclusive_max`.
    fn generate_random_index_from_inclusive_max(&mut self, inclusive_max: usize) -> (r: usize)
        ensures
            final(self).phase == old(self).phase,
            final(self).rng_state() == xorshift(old(self).rng_state()),
            r as nat == drawn_index(old(self).rng_state(), inclusive_max as nat + 1),
            r <= inclusive_max,
    {
        let bits = self.prfg.next_bits();
        scale_to_index(bits, inclusive_max)
    }

    /// The question that opens the match.
    pub fn initial_output(&self) -> (r: Output)
        requires
            self@.phase is CharacterChoosing,
        ensures
            r@.question == Some(crate::io::QuestionModel::ChooseCharacter {
                available_characters: self@.phase->CharacterChoosing_human.available_characters_spec(),
            }),
            r@.notifications.len() == 0,
    {
        match &self.phase {
            Phase::CharacterChoosing { human, .. } => Output {
                question: Some(
                    Question::ChooseCharacter { available_characters: human.available_characters() },
                ),
                notifications: Vec::new(),
            },
            _ => {
                proof {
                    assert(false);
                }
                Output { question: None, notifications: Vec::new() }
            },
        }
    }

    /// Whether the computer has something to play, which `next` needs.
    pub fn computer_can_play(&self) -> (r: bool)
        ensures
            r == self@.computer_can_play(),
    {
        match &self.phase {
            Phase::MoveChoosing { computer, .. } => computer.available_moves().len() > 0,
            _ => true,
        }
    }

    fn choose_character(
        &mut self,
        human: CharacterlessPlayer,
        computer: CharacterlessPlayer,
        selection: CharacterSelection,
    ) -> (r: (Phase, Output))
        requires
            human.points < WINNING_POINTS,
            computer.points < WINNING_POINTS,
            human.character_streak.times <= 3,
            computer.character_streak.times <= 3,
        ensures
            r.0@ == character_turn(human, computer, old(self).rng_state(), selection).0,
            final(self).rng_state() == character_turn(human, computer, old(self).rng_state(), selection).1,
            r.1@ == character_turn(human, computer, old(self).rng_state(), selection).2,
    {
        match selection {
            CharacterSelection::Nonexistent(name) => penalize_characterless(
                human,
                computer,
                4,
                Notification::CharacterNonexistentPenalty { attempted_character_name: name },
            ),
            CharacterSelection::Character(x) => {
                let offered = human.available_characters();
                if !contains_character(&offered, x) {
                    penalize_characterless(
                        human,
                        computer,
                        3,
                        Notification::CharacterThreeTimesInARowPenalty { attempted_character: x },
                    )
                } else {
                    let options = computer.available_characters();
                    proof {
                        computer.lemma_available_characters();
                    }
                    let k = self.generate_random_index_from_inclusive_max(options.len() - 1);
                    let y = options[k];
                    pair_characters(human, computer, x, y)
                }
            },
        }
    }

    fn choose_booster(
        &mut self,
        human: BoosterlessPlayer,
        computer: BoosterlessPlayer,
        selection: BoosterSelection,
    ) -> (r: (Phase, Output))
        requires
            computer.points < WINNING_POINTS,
        ensures
            r.0@ == booster_turn(human, computer, old(self).rng_state(), selection).0,
            final(self).rng_state() == booster_turn(human, computer, old(self).rng_state(), selection).1,
            r.1@ == booster_turn(human, computer, old(self).rng_state(), selection).2,
    {
        match selection {
            BoosterSelection::Nonexistent(name) => penalize_boosterless(
                human,
                computer,
                4,
                Notification::BoosterNonexistentPenalty { attempted_booster_name: name },
            ),
            BoosterSelection::Booster(b) => {
                let offered = human.available_boosters();
                if !contains_booster(&offered, b) {
                    penalize_boosterless(
                        human,
                        computer,
                        3,
                        Notification::BoosterFromWrongCharacterPenalty { attempted_booster: b },
                    )
                } else {
                    let options = computer.available_boosters();
                    let k = self.generate_random_index_from_inclusive_max(1);
                    let d = options[k];
                    pair_boosters(human, computer, b, d)
                }
            },
        }
    }

    fn choose_move(&mut self, human: Player, computer: Player, selection: MoveSelection) -> (r: (
        Phase,
        Output,
    ))
        requires
            human.points < WINNING_POINTS,
            computer.points < WINNING_POINTS,
            human.move_streak.times <= 3,
            computer.move_streak.times <= 3,
            computer@.available_moves().len() > 0,
        ensures
            r.0@ == move_turn(human@, computer@, old(self).rng_state(), selection).0,
            final(self).rng_state() == move_turn(human@, computer@, old(self).rng_state(), selection).1,
            r.1@ == move_turn(human@, computer@, old(self).rng_state(), selection).2,
    {
        match selection {
            MoveSelection::Nonexistent(name) => penalize_player(
                human,
                computer,
                4,
                Notification::MoveNonexistentPenalty { attempted_move_name: name },
            ),
            MoveSelection::Move(m) => {
                let offered = human.available_moves();
                if !contains_move(&offered, m) {
                    let (cost, note) = rejected_move(&human, m);
                    penalize_player(human, computer, cost, note)
                } else {
                    let options = computer.available_moves();
                    let k = self.generate_random_index_from_inclusive_max(options.len() - 1);
                    let y = options[k];
                    play_moves(human, computer, m, y)
                }
            },
        }
    }

    /// Applies one answer. An answer of a kind that the phase does not ask for
    /// (or any answer once the match is over) is refused with `Err(())`, and the
    /// match is left as it was.
    pub fn next(&mut self, answer: Answer) -> (r: Result<Output, ()>)
        requires
            old(self)@.wf(),
            old(self)@.computer_can_play(),
        ensures
            final(self)@ == step(old(self)@, answer).0,
            match r {
                Ok(o) => step(old(self)@, answer).1 == Some(o@),
                Err(_) => step(old(self)@, answer).1 is None,
            },
            final(self)@.wf(),
    {
        proof {
            crate::rules::lemma_step_keeps_wf(self@, answer);
        }
        let mut phase = Phase::GameOver { human_points: 0, computer_points: 0 };
        std::mem::swap(&mut phase, &mut self.phase);
        match phase {
            Phase::CharacterChoosing { human, computer } => match answer {
                Answer::CharacterSelection(selection) => {
                    let (p, o) = self.choose_character(human, computer, selection);
                    self.phase = p;
                    Ok(o)
                },
                _ => {
                    self.phase = Phase::CharacterChoosing { human, computer };
                    Err(())
                },
            },
            Phase::BoosterChoosing { human, computer } => match answer {
                Answer::BoosterSelection(selection) => {
                    let (p, o) = self.choose_booster(human, computer, selection);
                    self.phase = p;
                    Ok(o)
                },
                _ => {
                    self.phase = Phase::BoosterChoosing { human, computer };
                    Err(())
                },
            },
            Phase::MoveChoosing { human, computer } => match answer {
                Answer::MoveSelection(selection) => {
                    let (p, o) = self.choose_move(human, computer, selection);
                    self.phase = p;
                    Ok(o)
                },
                _ => {
                    self.phase = Phase::MoveChoosing { human, computer };
                    Err(())
                },
            },
            Phase::GameOver { human_points, computer_points } => {
                self.phase = Phase::GameOver { human_points, computer_points };
                Err(())
            },
        }
    }
}

} // verus!
