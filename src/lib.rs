//! A turn-based match engine for Ninja-Zombie-Samurai-Clown: one human party
//! against a seeded pseudorandom opponent, through character, booster and move
//! rounds with a penalty-driven rule ladder.

pub mod moves;
pub mod characters;
pub mod boosters;
pub mod outcomes;
pub mod streaks;
pub mod prfg;
pub mod players;
pub mod io;
pub mod rules;
pub mod single_player_game;
pub mod theorems;
