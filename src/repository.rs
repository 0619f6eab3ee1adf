use vstd::prelude::*;

use crate::answer::TryNewAnswerError;
use crate::id::Id;
use crate::question::TryNewQuestionError;
use crate::score::Score;
use crate::user::User;

verus! {

/// How many questions of each kind a test is made of.
#[derive(Debug, Clone, PartialEq, Eq, Structural)]
pub struct SelectCount {
    pub single_selection: usize,
    pub multiple_selection: usize,
    pub completion: usize,
}

#[derive(Debug)]
#[non_exhaustive]
pub enum QuestionRepositoryError {
    AnswerInvalid { source: TryNewAnswerError },
    QuestionInvalid { source: TryNewQuestionError },
    Insufficient { which: String, expected: usize, total: usize },
    NotFound { id: Id },
    Unknown { message: String },
}

#[derive(Debug)]
#[non_exhaustive]
pub enum ScoreRepositoryError {
    NotFound { user: User },
    Unknown { message: String },
}

/// A stored score: `end_time` in milliseconds since the Unix epoch (UTC),
/// `duration` in milliseconds.
#[derive(Debug, Clone, PartialEq, Eq)]
pub struct Record {
    pub score: Score,
    pub end_time: i64,
    pub duration: u64,
}

} // verus!
