//! The vocabulary exchanged with the presentation layer: questions asked of the
//! human, their answers, and notifications of what happened.

pub use self::answers::{Answer, BoosterSelection, CharacterSelection, MoveSelection};
pub use self::notifications::{Notification, WhoGetsTheHeadstart, WhoGetsThePoint};
pub use self::output::{Output, OutputModel};
pub use self::questions::{Question, QuestionModel};

mod answers;
mod notifications;
mod output;
mod questions;
