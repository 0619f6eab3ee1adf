use vstd::prelude::*;

use crate::answer::{
    answer_matches, Answer, CompletionAnswer, MultipleSelectionAnswer, SingleSelectionAnswer,
    StandardSource, SubmissionSource,
};
use crate::id::Id;

verus! {

#[derive(Debug, Clone, PartialEq, Eq)]
#[non_exhaustive]
pub enum TryNewQuestionError {
    ContentEmpty,
    OptionEmpty,
    NoOption,
}

impl TryNewQuestionError {
    pub fn message(&self) -> (r: &'static str) {
        match self {
            TryNewQuestionError::ContentEmpty => "Question must have non-empty content",
            TryNewQuestionError::OptionEmpty => "Question must not have empty option",
            TryNewQuestionError::NoOption => "Question must have at least one option",
        }
    }
}

/// Some option of the list is the empty string.
pub open spec fn some_option_empty(options: Seq<String>) -> bool {
    exists|i: int| 0 <= i < options.len() && options[i]@.len() == 0
}

/// The error that the checks of a selection question give, in the order
/// content, option count, option text; `None` if all pass.
pub open spec fn selection_error(content: Seq<char>, options: Seq<String>) -> Option<
    TryNewQuestionError,
> {
    if content.len() == 0 {
        Some(TryNewQuestionError::ContentEmpty)
    } else if options.len() == 0 {
        Some(TryNewQuestionError::NoOption)
    } else if some_option_empty(options) {
        Some(TryNewQuestionError::OptionEmpty)
    } else {
        None
    }
}

fn check_selection(content: &String, options: &Vec<String>) -> (r: Option<TryNewQuestionError>)
    ensures
        r == selection_error(content@, options@),
{
    if content.as_str().is_empty() {
        return Some(TryNewQuestionError::ContentEmpty);
    }
    if options.len() == 0 {
        return Some(TryNewQuestionError::NoOption);
    }
    let mut i: usize = 0;
    while i < options.len()
        invariant
            0 <= i <= options.len(),
            content@.len() != 0,
            options.len() != 0,
            forall|m: int| 0 <= m < i ==> options@[m]@.len() != 0,
        decreases options.len() - i,
    {
        if options[i].as_str().is_empty() {
            assert(options@[i as int]@.len() == 0);
            return Some(TryNewQuestionError::OptionEmpty);
        }
        i = i + 1;
    }
    None
}

#[derive(Debug, Clone, PartialEq, Eq)]
pub struct SingleSelectionQuestion {
    id: Id,
    content: String,
    options: Vec<String>,
    answer: SingleSelectionAnswer<StandardSource>,
}

impl SingleSelectionQuestion {
    pub closed spec fn spec_id(&self) -> Id {
        self.id
    }

    pub closed spec fn spec_content(&self) -> Seq<char> {
        self.content@
    }

    pub closed spec fn spec_options(&self) -> Seq<String> {
        self.options@
    }

    pub closed spec fn key(&self) -> SingleSelectionAnswer<StandardSource> {
        self.answer
    }

    pub fn try_new(
        id: Id,
        content: String,
        options: Vec<String>,
        answer: SingleSelectionAnswer<StandardSource>,
    ) -> (r: Result<Self, TryNewQuestionError>)
        ensures
            match selection_error(content@, options@) {
                Some(e) => r == Err::<Self, _>(e),
                None => r matches Ok(q) && q.spec_id() == id && q.spec_content() == content@
                    && q.spec_options() == options@ && q.key() == answer,
            },
    {
        match check_selection(&content, &options) {
            Some(e) => Err(e),
            None => Ok(Self { id, content, options, answer }),
        }
    }

    pub fn options(&self) -> (r: &Vec<String>)
        ensures
            r@ == self.spec_options(),
    {
        &self.options
    }

    pub fn id(&self) -> (r: Id)
        ensures
            r == self.spec_id(),
    {
        self.id
    }

    pub fn content(&self) -> (r: &str)
        ensures
            r@ == self.spec_content(),
    {
        self.content.as_str()
    }

    pub fn check(&self, submission: &Answer<SubmissionSource>) -> (r: bool)
        ensures
            r == answer_matches(Answer::SingleSelection(self.key()), *submission),
    {
        self.answer.check(submission)
    }
}

#[derive(Debug, Clone, PartialEq, Eq)]
pub struct MultipleSelectionQuestion {
    id: Id,
    content: String,
    options: Vec<String>,
    answer: MultipleSelectionAnswer<StandardSource>,
}

impl MultipleSelectionQuestion {
    pub closed spec fn spec_id(&self) -> Id {
        self.id
    }

    pub closed spec fn spec_content(&self) -> Seq<char> {
        self.content@
    }

    pub closed spec fn spec_options(&self) -> Seq<String> {
        self.options@
    }

    pub closed spec fn key(&self) -> MultipleSelectionAnswer<StandardSource> {
        self.answer
    }

    pub fn try_new(
        id: Id,
        content: String,
        options: Vec<String>,
        answer: MultipleSelectionAnswer<StandardSource>,
    ) -> (r: Result<Self, TryNewQuestionError>)
        ensures
            match selection_error(content@, options@) {
                Some(e) => r == Err::<Self, _>(e),
                None => r matches Ok(q) && q.spec_id() == id && q.spec_content() == content@
                    && q.spec_options() == options@ && q.key() == answer,
            },
    {
        match check_selection(&content, &options) {
            Some(e) => Err(e),
            None => Ok(Self { id, content, options, answer }),
        }
    }

    pub fn options(&self) -> (r: &Vec<String>)
        ensures
            r@ == self.spec_options(),
    {
        &self.options
    }

    pub fn id(&self) -> (r: Id)
        ensures
            r == self.spec_id(),
    {
        self.id
    }

    pub fn content(&self) -> (r: &str)
        ensures
            r@ == self.spec_content(),
    {
        self.content.as_str()
    }

    pub fn check(&self, submission: &Answer<SubmissionSource>) -> (r: bool)
        ensures
            r == answer_matches(Answer::MultipleSelection(self.key()), *submission),
    {
        self.answer.check(submission)
    }
}

#[derive(Debug, Clone, PartialEq, Eq)]
pub struct CompletionQuestion {
    id: Id,
    content: String,
    answer: CompletionAnswer<StandardSource>,
}

impl CompletionQuestion {
    pub closed spec fn spec_id(&self) -> Id {
        self.id
    }

    pub closed spec fn spec_content(&self) -> Seq<char> {
        self.content@
    }

    pub closed spec fn key(&self) -> CompletionAnswer<StandardSource> {
        self.answer
    }

    pub fn try_new(id: Id, content: String, answer: CompletionAnswer<StandardSource>) -> (r: Result<
        Self,
        TryNewQuestionError,
    >)
        ensures
            content@.len() == 0 ==> r == Err::<Self, _>(TryNewQuestionError::ContentEmpty),
            content@.len() != 0 ==> (r matches Ok(q) && q.spec_id() == id && q.spec_content()
                == content@ && q.key() == answer),
    {
        if content.as_str().is_empty() {
            return Err(TryNewQuestionError::ContentEmpty);
        }
        Ok(Self { id, content, answer })
    }

    pub fn id(&self) -> (r: Id)
        ensures
            r == self.spec_id(),
    {
        self.id
    }

    pub fn content(&self) -> (r: &str)
        ensures
            r@ == self.spec_content(),
    {
        self.content.as_str()
    }

    pub fn check(&self, submission: &Answer<SubmissionSource>) -> (r: bool)
        ensures
            r == answer_matches(Answer::Completion(self.key()), *submission),
    {
        self.answer.check(submission)
    }
}

#[derive(Debug, Clone, PartialEq, Eq)]
pub enum Question {
    SingleSelection(SingleSelectionQuestion),
    MultipleSelection(MultipleSelectionQuestion),
    Completion(CompletionQuestion),
}

impl Question {
    pub open spec fn spec_id(&self) -> Id {
        match self {
            Question::SingleSelection(q) => q.spec_id(),
            Question::MultipleSelection(q) => q.spec_id(),
            Question::Completion(q) => q.spec_id(),
        }
    }

    pub open spec fn spec_content(&self) -> Seq<char> {
        match self {
            Question::SingleSelection(q) => q.spec_content(),
            Question::MultipleSelection(q) => q.spec_content(),
            Question::Completion(q) => q.spec_content(),
        }
    }

    /// The answer key of the question.
    pub open spec fn key(&self) -> Answer<StandardSource> {
        match self {
            Question::SingleSelection(q) => Answer::SingleSelection(q.key()),
            Question::MultipleSelection(q) => Answer::MultipleSelection(q.key()),
            Question::Completion(q) => Answer::Completion(q.key()),
        }
    }

    pub fn id(&self) -> (r: Id)
        ensures
            r == self.spec_id(),
    {
        match self {
            Question::SingleSelection(q) => q.id(),
            Question::MultipleSelection(q) => q.id(),
            Question::Completion(q) => q.id(),
        }
    }

    pub fn content(&self) -> (r: &str)
        ensures
            r@ == self.spec_content(),
    {
        match self {
            Question::SingleSelection(q) => q.content(),
            Question::MultipleSelection(q) => q.content(),
            Question::Completion(q) => q.content(),
        }
    }

    pub fn check(&self, submission: &Answer<SubmissionSource>) -> (r: bool)
        ensures
            r == answer_matches(self.key(), *submission),
    {
        match self {
            Question::SingleSelection(q) => q.check(submission),
            Question::MultipleSelection(q) => q.check(submission),
            Question::Completion(q) => q.check(submission),
        }
    }
}

} // verus!
