use vstd::prelude::*;

use crate::boosters::Booster;
use crate::characters::Character;
use crate::moves::Move;

verus! {

/// A request to the user for an `Answer`.
///
/// Every question carries its context, the options the human may pick from,
/// in its variant fields.
#[derive(Clone, Debug, PartialEq, Eq)]
pub enum Question {
    ChooseCharacter { available_characters: Vec<Character> },
    ChooseBooster { available_boosters: Vec<Booster> },
    ChooseMove { available_moves: Vec<Move> },
}

/// The value of a `Question`, with its options as a sequence.
pub enum QuestionModel {
    ChooseCharacter { available_characters: Seq<Character> },
    ChooseBooster { available_boosters: Seq<Booster> },
    ChooseMove { available_moves: Seq<Move> },
}

impl View for Question {
    type V = QuestionModel;

    open spec fn view(&self) -> QuestionModel {
        match self {
            Question::ChooseCharacter { available_characters } => QuestionModel::ChooseCharacter {
                available_characters: available_characters@,
            },
            Question::ChooseBooster { available_boosters } => QuestionModel::ChooseBooster {
                available_boosters: available_boosters@,
            },
            Question::ChooseMove { available_moves } => QuestionModel::ChooseMove {
                available_moves: available_moves@,
            },
        }
    }
}

} // verus!
