use nzsc_single_player::boosters::Booster;
use nzsc_single_player::characters::Character;
use nzsc_single_player::moves::Move;
use nzsc_single_player::outcomes::{get_headstart, get_points, Headstart};
use nzsc_single_player::players::{BoosterlessPlayer, CharacterlessPlayer, Player};
use nzsc_single_player::prfg::{scale_to_index, PseudorandomFloatGenerator};
use nzsc_single_player::streaks::{CharacterStreak, MoveStreak};

fn ninja_with_shadow() -> Player {
    BoosterlessPlayer { points: 0, waits: 4, character: Character::Ninja }.to_player(Booster::Shadow)
}

#[test]
fn penalty_larger_than_waits_empties_them_and_awards_a_point() {
    let mut p = CharacterlessPlayer::new();
    p.waits = 1;
    assert_eq!(p.penalize_waits(3), 1);
    assert_eq!(p.waits, 0);

    let mut b = BoosterlessPlayer { points: 2, waits: 1, character: Character::Clown };
    assert_eq!(b.penalize_waits(3), 1);
    assert_eq!(b.waits, 0);
    assert_eq!(b.points, 2);

    let mut f = ninja_with_shadow();
    f.waits = 1;
    assert_eq!(f.penalize_waits(3), 1);
    assert_eq!(f.waits, 0);
}

#[test]
fn penalty_within_waits_subtracts_without_a_point() {
    let mut p = CharacterlessPlayer::new();
    assert_eq!(p.penalize_waits(3), 0);
    assert_eq!(p.waits, 1);

    let mut q = CharacterlessPlayer::new();
    assert_eq!(q.penalize_waits(4), 0);
    assert_eq!(q.waits, 0);
    assert_eq!(q.penalize_waits(2), 1);
    assert_eq!(q.waits, 0);

    let mut f = ninja_with_shadow();
    assert_eq!(f.penalize_waits(2), 0);
    assert_eq!(f.waits, 2);
}

#[test]
fn streak_counts_repeats_and_restarts_on_change() {
    let mut s = CharacterStreak::new();
    assert_eq!(s, CharacterStreak { repeated_character: None, times: 0 });
    s.add(Character::Ninja);
    assert_eq!(s, CharacterStreak { repeated_character: Some(Character::Ninja), times: 1 });
    s.add(Character::Ninja);
    assert_eq!(s, CharacterStreak { repeated_character: Some(Character::Ninja), times: 2 });
    s.add(Character::Zombie);
    assert_eq!(s, CharacterStreak { repeated_character: Some(Character::Zombie), times: 1 });

    let mut m = MoveStreak::new();
    m.add(Move::Kick);
    m.add(Move::Kick);
    m.add(Move::Kick);
    assert_eq!(m, MoveStreak { repeated_move: Some(Move::Kick), times: 3 });
    m.add(Move::Nunchucks);
    assert_eq!(m, MoveStreak { repeated_move: Some(Move::Nunchucks), times: 1 });
}

#[test]
fn all_characters_offered_to_a_fresh_party() {
    let p = CharacterlessPlayer::new();
    assert_eq!(p.points, 0);
    assert_eq!(p.waits, 4);
    assert_eq!(
        p.available_characters(),
        vec![Character::Ninja, Character::Zombie, Character::Samurai, Character::Clown]
    );
}

#[test]
fn character_picked_three_times_in_a_row_is_not_offered() {
    let mut p = CharacterlessPlayer::new();
    for _ in 0..2 {
        p.character_streak.add(Character::Samurai);
    }
    assert!(p.available_characters().contains(&Character::Samurai));
    p.character_streak.add(Character::Samurai);
    assert_eq!(
        p.available_characters(),
        vec![Character::Ninja, Character::Zombie, Character::Clown]
    );
}

#[test]
fn boosters_offered_are_those_of_the_character() {
    let b = CharacterlessPlayer::new().to_boosterless_player(Character::Zombie);
    assert_eq!(b.character, Character::Zombie);
    assert_eq!(b.waits, 4);
    assert_eq!(b.available_boosters(), vec![Booster::Regenerative, Booster::ZombieCorps]);
}

#[test]
fn moves_offered_are_character_then_booster_moves() {
    let p = ninja_with_shadow();
    assert_eq!(p.move_streak, MoveStreak { repeated_move: None, times: 0 });
    assert!(p.destroyed_moves.is_empty());
    assert_eq!(
        p.available_moves(),
        vec![Move::Kick, Move::NinjaSword, Move::Nunchucks, Move::ShadowFireball, Move::ShadowSlip]
    );
}

#[test]
fn destroyed_and_streaked_moves_are_not_offered() {
    let mut p = ninja_with_shadow();
    p.destroyed_moves.push(Move::NinjaSword);
    p.move_streak.add(Move::Kick);
    p.move_streak.add(Move::Kick);
    assert!(p.available_moves().contains(&Move::Kick));
    p.move_streak.add(Move::Kick);
    assert_eq!(p.available_moves(), vec![Move::Nunchucks, Move::ShadowFireball, Move::ShadowSlip]);
}

#[test]
fn headstart_goes_round_the_circle() {
    assert_eq!(get_headstart(Character::Ninja, Character::Zombie), Headstart(1, 0));
    assert_eq!(get_headstart(Character::Zombie, Character::Ninja), Headstart(0, 1));
    assert_eq!(get_headstart(Character::Clown, Character::Ninja), Headstart(1, 0));
    assert_eq!(get_headstart(Character::Samurai, Character::Clown), Headstart(1, 0));
    assert_eq!(get_headstart(Character::Ninja, Character::Samurai), Headstart(0, 0));
    assert_eq!(get_headstart(Character::Zombie, Character::Clown), Headstart(0, 0));
}

#[test]
fn move_points_follow_the_circle() {
    assert_eq!(get_points(Move::Kick, Move::Kick), (0, 0));
    assert_eq!(get_points(Move::Kick, Move::NinjaSword), (1, 0));
    assert_eq!(get_points(Move::NinjaSword, Move::Kick), (0, 1));
    assert_eq!(get_points(Move::Kick, Move::Apocalypse), (1, 0));
    assert_eq!(get_points(Move::Kick, Move::SamuraiSword), (1, 1));
    assert_eq!(get_points(Move::Kick, Move::Helmet), (0, 1));
    assert_eq!(get_points(Move::BigHairyDeal, Move::Kick), (1, 0));
}

#[test]
fn generator_follows_xorshift() {
    let mut g = PseudorandomFloatGenerator::new(1);
    assert_eq!(g.next_bits(), 4);
    assert_eq!(g.next_bits(), 1032);
    assert_eq!(g.next_bits(), 40396);
    let mut h = PseudorandomFloatGenerator::new(42);
    assert_eq!(h.next_bits(), 173);
}

#[test]
fn scaled_index_is_floor_of_fraction_times_count() {
    assert_eq!(scale_to_index(0, 3), 0);
    assert_eq!(scale_to_index(40396, 3), 2);
    assert_eq!(scale_to_index(40396, 1), 1);
    assert_eq!(scale_to_index(65535, 3), 3);
    assert_eq!(scale_to_index(32768, 1), 1);
    assert_eq!(scale_to_index(32767, 1), 0);
}
