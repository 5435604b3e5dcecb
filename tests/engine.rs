use nzsc_single_player::boosters::Booster;
use nzsc_single_player::characters::Character;
use nzsc_single_player::io::{
    Answer, BoosterSelection, CharacterSelection, MoveSelection, Notification, Output, Question,
    WhoGetsTheHeadstart, WhoGetsThePoint,
};
use nzsc_single_player::moves::Move;
use nzsc_single_player::players::{BoosterlessPlayer, Player};
use nzsc_single_player::single_player_game::{Phase, SinglePlayerNZSCGame};
use nzsc_single_player::streaks::CharacterStreak;

fn all_characters() -> Vec<Character> {
    vec![Character::Ninja, Character::Zombie, Character::Samurai, Character::Clown]
}

fn character(c: Character) -> Answer {
    Answer::CharacterSelection(CharacterSelection::Character(c))
}

fn booster(b: Booster) -> Answer {
    Answer::BoosterSelection(BoosterSelection::Booster(b))
}

fn play(m: Move) -> Answer {
    Answer::MoveSelection(MoveSelection::Move(m))
}

fn party(points: u8, character: Character, booster: Booster) -> Player {
    BoosterlessPlayer { points, waits: 4, character }.to_player(booster)
}

/// A party whose every granted move but `keep` is destroyed.
fn party_left_with(points: u8, character: Character, booster: Booster, keep: Move) -> Player {
    let mut p = party(points, character, booster);
    for m in p.available_moves() {
        if m != keep {
            p.destroyed_moves.push(m);
        }
    }
    p
}

fn game_in_moves(human: Player, computer: Player) -> SinglePlayerNZSCGame {
    let mut game = SinglePlayerNZSCGame::new(7);
    game.phase = Phase::MoveChoosing { human, computer };
    game
}

fn human_and_computer(game: &SinglePlayerNZSCGame) -> (Player, Player) {
    match &game.phase {
        Phase::MoveChoosing { human, computer } => (human.clone(), computer.clone()),
        other => panic!("expected move choosing, found {:?}", other),
    }
}

#[test]
fn initial_output_asks_for_a_character() {
    let game = SinglePlayerNZSCGame::new(1);
    assert_eq!(
        game.initial_output(),
        Output {
            question: Some(Question::ChooseCharacter { available_characters: all_characters() }),
            notifications: vec![],
        }
    );
}

#[test]
fn unknown_character_name_is_penalized_until_the_computer_wins() {
    let mut game = SinglePlayerNZSCGame::new(1);
    let unknown = || Answer::CharacterSelection(CharacterSelection::Nonexistent("Pirate".to_string()));
    let penalty = || Notification::CharacterNonexistentPenalty {
        attempted_character_name: "Pirate".to_string(),
    };

    let first = game.next(unknown()).unwrap();
    assert_eq!(
        first,
        Output {
            question: Some(Question::ChooseCharacter { available_characters: all_characters() }),
            notifications: vec![penalty(), Notification::ScoreUpdate { human_points: 0, computer_points: 0 }],
        }
    );
    match &game.phase {
        Phase::CharacterChoosing { human, computer } => {
            assert_eq!(human.waits, 0);
            assert_eq!(computer.points, 0);
        }
        other => panic!("unexpected phase {:?}", other),
    }

    for computer_points in 1..5u8 {
        let out = game.next(unknown()).unwrap();
        assert_eq!(
            out,
            Output {
                question: Some(Question::ChooseCharacter { available_characters: all_characters() }),
                notifications: vec![penalty(), Notification::ScoreUpdate { human_points: 0, computer_points }],
            }
        );
    }

    let last = game.next(unknown()).unwrap();
    assert_eq!(
        last,
        Output {
            question: None,
            notifications: vec![
                penalty(),
                Notification::ScoreUpdate { human_points: 0, computer_points: 5 },
                Notification::GameOver { human_points: 0, computer_points: 5 },
            ],
        }
    );
    assert!(matches!(game.phase, Phase::GameOver { human_points: 0, computer_points: 5 }));
    assert_eq!(game.next(unknown()), Err(()));
    assert_eq!(game.next(character(Character::Ninja)), Err(()));
}

#[test]
fn same_character_on_both_sides_starts_streaks() {
    let mut game = SinglePlayerNZSCGame::new(1);
    let out = game.next(character(Character::Ninja)).unwrap();
    assert_eq!(
        out,
        Output {
            question: Some(Question::ChooseCharacter { available_characters: all_characters() }),
            notifications: vec![Notification::SameCharacterSelection { both_character: Character::Ninja }],
        }
    );
    match &game.phase {
        Phase::CharacterChoosing { human, computer } => {
            let streak = CharacterStreak { repeated_character: Some(Character::Ninja), times: 1 };
            assert_eq!(human.character_streak, streak);
            assert_eq!(computer.character_streak, streak);
            assert_eq!((human.points, computer.points), (0, 0));
        }
        other => panic!("unexpected phase {:?}", other),
    }
}

#[test]
fn different_characters_give_headstart_then_boosters_then_moves() {
    let mut game = SinglePlayerNZSCGame::new(1);
    let out = game.next(character(Character::Zombie)).unwrap();
    assert_eq!(
        out,
        Output {
            question: Some(Question::ChooseBooster {
                available_boosters: vec![Booster::Regenerative, Booster::ZombieCorps],
            }),
            notifications: vec![Notification::CharacterSelectionAndHeadstart {
                human_character: Character::Zombie,
                computer_character: Character::Ninja,
                who_gets_the_headstart: WhoGetsTheHeadstart::JustComputer,
            }],
        }
    );
    match &game.phase {
        Phase::BoosterChoosing { human, computer } => {
            assert_eq!((human.points, computer.points), (0, 1));
            assert_eq!(computer.character, Character::Ninja);
        }
        other => panic!("unexpected phase {:?}", other),
    }

    let wrong = game.next(booster(Booster::Strong)).unwrap();
    assert_eq!(
        wrong.notifications,
        vec![
            Notification::BoosterFromWrongCharacterPenalty { attempted_booster: Booster::Strong },
            Notification::ScoreUpdate { human_points: 0, computer_points: 1 },
        ]
    );
    assert_eq!(
        wrong.question,
        Some(Question::ChooseBooster { available_boosters: vec![Booster::Regenerative, Booster::ZombieCorps] })
    );

    let out = game.next(booster(Booster::Regenerative)).unwrap();
    assert_eq!(
        out,
        Output {
            question: Some(Question::ChooseMove {
                available_moves: vec![Move::Rampage, Move::Muscles, Move::Zap, Move::Regenerate, Move::Gravedigger],
            }),
            notifications: vec![Notification::BoosterSelection {
                human_booster: Booster::Regenerative,
                computer_booster: Booster::Shadow,
            }],
        }
    );
    let (human, computer) = human_and_computer(&game);
    assert_eq!((human.points, human.waits), (0, 1));
    assert_eq!((computer.points, computer.character, computer.booster), (1, Character::Ninja, Booster::Shadow));
}

#[test]
fn answer_of_the_wrong_kind_is_refused_and_changes_nothing() {
    let mut game = SinglePlayerNZSCGame::new(3);
    assert_eq!(game.next(play(Move::Kick)), Err(()));
    assert_eq!(game.next(booster(Booster::Atlas)), Err(()));
    assert_eq!(format!("{:?}", game.phase), format!("{:?}", SinglePlayerNZSCGame::new(3).phase));
    let mut fresh = SinglePlayerNZSCGame::new(3);
    assert_eq!(game.next(character(Character::Clown)), fresh.next(character(Character::Clown)));
}

#[test]
fn shadow_fireball_beats_smash_without_strong() {
    let human = party(0, Character::Ninja, Booster::Shadow);
    let computer = party_left_with(0, Character::Samurai, Booster::Atlas, Move::Smash);
    let mut game = game_in_moves(human, computer);
    let out = game.next(play(Move::ShadowFireball)).unwrap();
    assert_eq!(
        out.notifications,
        vec![
            Notification::MoveSelectionAndOutcome {
                human_move: Move::ShadowFireball,
                computer_move: Move::Smash,
                who_gets_the_point: WhoGetsThePoint::JustHuman,
            },
            Notification::ScoreUpdate { human_points: 1, computer_points: 0 },
        ]
    );
    assert!(out.question.is_some());
}

#[test]
fn smash_with_strong_beats_shadow_fireball() {
    let human = party(0, Character::Ninja, Booster::Shadow);
    let computer = party_left_with(0, Character::Samurai, Booster::Strong, Move::Smash);
    let mut game = game_in_moves(human, computer);
    let out = game.next(play(Move::ShadowFireball)).unwrap();
    assert_eq!(
        out.notifications,
        vec![
            Notification::MoveSelectionAndOutcome {
                human_move: Move::ShadowFireball,
                computer_move: Move::Smash,
                who_gets_the_point: WhoGetsThePoint::JustComputer,
            },
            Notification::ScoreUpdate { human_points: 0, computer_points: 1 },
        ]
    );
}

#[test]
fn smash_without_strong_loses_to_shadow_fireball() {
    let human = party(0, Character::Samurai, Booster::Atlas);
    let computer = party_left_with(0, Character::Ninja, Booster::Shadow, Move::ShadowFireball);
    let mut game = game_in_moves(human, computer);
    let out = game.next(play(Move::Smash)).unwrap();
    assert_eq!(
        out.notifications[0],
        Notification::MoveSelectionAndOutcome {
            human_move: Move::Smash,
            computer_move: Move::ShadowFireball,
            who_gets_the_point: WhoGetsThePoint::JustComputer,
        }
    );
}

#[test]
fn level_scores_at_five_drop_back_to_four() {
    let human = party(4, Character::Ninja, Booster::Shadow);
    let computer = party_left_with(4, Character::Samurai, Booster::Atlas, Move::SamuraiSword);
    let mut game = game_in_moves(human, computer);
    let out = game.next(play(Move::Kick)).unwrap();
    assert_eq!(
        out,
        Output {
            question: Some(Question::ChooseMove {
                available_moves: vec![Move::Kick, Move::NinjaSword, Move::Nunchucks, Move::ShadowFireball, Move::ShadowSlip],
            }),
            notifications: vec![
                Notification::MoveSelectionAndOutcome {
                    human_move: Move::Kick,
                    computer_move: Move::SamuraiSword,
                    who_gets_the_point: WhoGetsThePoint::Both,
                },
                Notification::ScoreUpdate { human_points: 5, computer_points: 5 },
                Notification::TiebreakingScoreSetback { both_points: 5 },
            ],
        }
    );
    let (human, computer) = human_and_computer(&game);
    assert_eq!((human.points, computer.points), (4, 4));
}

#[test]
fn human_reaching_five_ends_the_match() {
    let human = party(4, Character::Ninja, Booster::Shadow);
    let computer = party_left_with(0, Character::Zombie, Booster::Regenerative, Move::Rampage);
    let mut game = game_in_moves(human, computer);
    let out = game.next(play(Move::Kick)).unwrap();
    assert_eq!(
        out,
        Output {
            question: None,
            notifications: vec![
                Notification::MoveSelectionAndOutcome {
                    human_move: Move::Kick,
                    computer_move: Move::Rampage,
                    who_gets_the_point: WhoGetsThePoint::JustHuman,
                },
                Notification::ScoreUpdate { human_points: 5, computer_points: 0 },
                Notification::GameOver { human_points: 5, computer_points: 0 },
            ],
        }
    );
    assert!(matches!(game.phase, Phase::GameOver { human_points: 5, computer_points: 0 }));
    assert_eq!(game.next(play(Move::Kick)), Err(()));
}

#[test]
fn single_use_and_destructive_moves_destroy() {
    let human = party(0, Character::Zombie, Booster::Regenerative);
    let computer = party_left_with(0, Character::Samurai, Booster::Atlas, Move::Lightning);
    let mut game = game_in_moves(human, computer);
    let out = game.next(play(Move::Zap)).unwrap();
    assert_eq!(
        out.question,
        Some(Question::ChooseMove {
            available_moves: vec![Move::Rampage, Move::Muscles, Move::Regenerate, Move::Gravedigger],
        })
    );
    let (human, computer) = human_and_computer(&game);
    assert_eq!(human.destroyed_moves, vec![Move::Zap]);
    assert!(!computer.destroyed_moves.contains(&Move::Lightning));

    let again = game.next(play(Move::Zap)).unwrap();
    assert_eq!(
        again.notifications,
        vec![
            Notification::MoveSingleUsePenalty { attempted_move: Move::Zap },
            Notification::ScoreUpdate { human_points: human.points, computer_points: computer.points },
        ]
    );

    let (_, computer) = human_and_computer(&game);
    assert!(!computer.available_moves().contains(&Move::Zap));
    let mut game = game_in_moves(party(0, Character::Ninja, Booster::Shadow), computer);
    game.next(play(Move::Nunchucks)).unwrap();
    let (human, _) = human_and_computer(&game);
    assert_eq!(human.destroyed_moves, vec![Move::Nunchucks]);
    assert!(!human.available_moves().contains(&Move::Nunchucks));
    let out = game.next(play(Move::Nunchucks)).unwrap();
    assert_eq!(out.notifications[0], Notification::MoveDestroyedPenalty { attempted_move: Move::Nunchucks });
}

#[test]
fn rejected_moves_follow_the_rule_ladder() {
    let cases = vec![
        (Move::RunInCircles, Notification::MoveFromWrongBoosterPenalty { attempted_move: Move::RunInCircles }, 2),
        (Move::Smash, Notification::MoveFromWrongCharacterPenalty { attempted_move: Move::Smash }, 1),
    ];
    for (m, note, waits_left) in cases {
        let human = party(0, Character::Ninja, Booster::Shadow);
        let computer = party(0, Character::Clown, Booster::Backwards);
        let mut game = game_in_moves(human, computer);
        let out = game.next(play(m)).unwrap();
        assert_eq!(out.notifications[0], note);
        let (human, computer) = human_and_computer(&game);
        assert_eq!(human.waits, waits_left);
        assert_eq!(computer.points, 0);
    }

    let mut human = party(0, Character::Ninja, Booster::Shadow);
    for _ in 0..3 {
        human.move_streak.add(Move::Kick);
    }
    human.waits = 2;
    let mut game = game_in_moves(human, party(0, Character::Clown, Booster::Backwards));
    let out = game.next(play(Move::Kick)).unwrap();
    assert_eq!(
        out.notifications,
        vec![
            Notification::MoveThreeTimesInARowPenalty { attempted_move: Move::Kick },
            Notification::ScoreUpdate { human_points: 0, computer_points: 1 },
        ]
    );

    let out = game.next(Answer::MoveSelection(MoveSelection::Nonexistent("Yodel".to_string()))).unwrap();
    assert_eq!(
        out.notifications[0],
        Notification::MoveNonexistentPenalty { attempted_move_name: "Yodel".to_string() }
    );
    assert_eq!(out.notifications[1], Notification::ScoreUpdate { human_points: 0, computer_points: 2 });
}

#[test]
fn unknown_booster_name_costs_four_waits() {
    let mut game = SinglePlayerNZSCGame::new(1);
    game.next(character(Character::Zombie)).unwrap();
    let out = game.next(Answer::BoosterSelection(BoosterSelection::Nonexistent("Jetpack".to_string()))).unwrap();
    assert_eq!(
        out.notifications,
        vec![
            Notification::BoosterNonexistentPenalty { attempted_booster_name: "Jetpack".to_string() },
            Notification::ScoreUpdate { human_points: 0, computer_points: 1 },
        ]
    );
    match &game.phase {
        Phase::BoosterChoosing { human, .. } => assert_eq!(human.waits, 0),
        other => panic!("unexpected phase {:?}", other),
    }
}

#[test]
fn computer_with_no_moves_left_cannot_play() {
    let mut computer = party(0, Character::Clown, Booster::Backwards);
    for m in computer.available_moves() {
        computer.destroyed_moves.push(m);
    }
    let game = game_in_moves(party(0, Character::Ninja, Booster::Shadow), computer);
    assert!(!game.computer_can_play());
    assert!(SinglePlayerNZSCGame::new(5).computer_can_play());
}

#[test]
fn same_seed_and_answers_give_same_outputs() {
    let answers = vec![
        character(Character::Samurai),
        character(Character::Clown),
        Answer::CharacterSelection(CharacterSelection::Nonexistent("x".to_string())),
        booster(Booster::Atlas),
        booster(Booster::Backwards),
        booster(Booster::Moustachio),
        play(Move::Nose),
        play(Move::JugglingKnives),
        play(Move::MustacheMash),
        play(Move::Nose),
    ];
    let mut a = SinglePlayerNZSCGame::new(42);
    let mut b = SinglePlayerNZSCGame::new(42);
    for answer in answers {
        if !a.computer_can_play() {
            break;
        }
        assert_eq!(a.next(answer.clone()), b.next(answer));
    }
    assert_eq!(format!("{:?}", a.phase), format!("{:?}", b.phase));
}
