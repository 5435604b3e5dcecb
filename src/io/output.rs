use vstd::prelude::*;

use super::notifications::Notification;
use super::questions::{Question, QuestionModel};

verus! {

/// A `Question` and some `Notification`s.
#[derive(Clone, Debug, PartialEq, Eq)]
pub struct Output {
    /// If the game is over (and therefore no user input is required), `question` will be `None`.
    pub question: Option<Question>,
    pub notifications: Vec<Notification>,
}

/// The value of an `Output`.
pub struct OutputModel {
    pub question: Option<QuestionModel>,
    pub notifications: Seq<Notification>,
}

impl View for Output {
    type V = OutputModel;

    open spec fn view(&self) -> OutputModel {
        OutputModel {
            question: match self.question {
                Some(q) => Some(q@),
                None => None,
            },
            notifications: self.notifications@,
        }
    }
}

} // verus!
