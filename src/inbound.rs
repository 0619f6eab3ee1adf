use vstd::prelude::*;

use crate::answer::{
    has_duplicate, same_values, strictly_increasing, Answer, CompletionAnswer,
    MultipleSelectionAnswer, SingleSelectionAnswer, SubmissionSource, TryNewAnswerError,
};
use crate::application::CoreError;
use crate::id::Id;
use crate::login::{LoginSessionError, QueryKind};
use crate::test::Submission;
use crate::user::{is_valid_name, TryNewUserError, User};

verus! {

/// The body of a login request.
#[derive(Debug, Clone, PartialEq, Eq)]
pub struct LoginRequest {
    pub username: String,
}

impl LoginRequest {
    /// The user to log in; the name must be valid.
    pub fn user(&self) -> (r: Result<User, TryNewUserError>)
        ensures
            self.username@.len() == 0 <==> r == Err::<User, _>(TryNewUserError::Empty),
            (self.username@.len() != 0 && !is_valid_name(self.username@)) <==> r == Err::<User, _>(
                TryNewUserError::Invalid,
            ),
            r matches Ok(u) ==> u.name() == self.username@,
    {
        User::try_new(self.username.as_str())
    }
}

/// The body of a login response: the login id to quote in later requests.
#[derive(Debug, Clone, PartialEq, Eq)]
pub struct LoginResponse {
    pub login_id: usize,
}

/// The body of a request to start a test.
#[derive(Debug, Clone, PartialEq, Eq)]
pub struct StartRequest {
    pub login_id: usize,
}

/// One submitted answer, as the client sends it.
#[derive(Debug, Clone, PartialEq, Eq)]
pub enum AnswerVariant {
    SingleSelection { answer: u32 },
    MultipleSelection { answer: Vec<u32> },
    Completion { answer: String },
}

/// A submitted answer with the id of its question.
#[derive(Debug, Clone, PartialEq, Eq)]
pub struct AnswerWithId {
    pub id: usize,
    pub answer: AnswerVariant,
}

/// The body of a submission.
#[derive(Debug, Clone, PartialEq, Eq)]
pub struct SubmitRequest {
    pub login_id: usize,
    pub test_id: usize,
    pub answers: Vec<AnswerWithId>,
}

/// The answer stands for what the client sent.
pub open spec fn represents(v: AnswerVariant, a: Answer<SubmissionSource>) -> bool {
    match (v, a) {
        (AnswerVariant::SingleSelection { answer }, Answer::SingleSelection(s)) => s.value()
            == answer,
        (AnswerVariant::MultipleSelection { answer }, Answer::MultipleSelection(s)) => {
            strictly_increasing(s.options()) && same_values(s.options(), answer@)
        },
        (AnswerVariant::Completion { answer }, Answer::Completion(s)) => s.text() == answer@,
        _ => false,
    }
}

/// The pair holds the question id and an answer that stands for what the
/// client sent.
pub open spec fn pair_represents(w: AnswerWithId, p: (Id, Answer<SubmissionSource>)) -> bool {
    p.0 == Id(w.id) && represents(w.answer, p.1)
}

/// A multiple-selection answer that names an option twice.
pub open spec fn is_invalid(v: AnswerVariant) -> bool {
    match v {
        AnswerVariant::MultipleSelection { answer } => has_duplicate(answer@),
        _ => false,
    }
}

fn copy_options(v: &Vec<u32>) -> (r: Vec<u32>)
    ensures
        r@ == v@,
{
    let mut out: Vec<u32> = Vec::new();
    let mut i: usize = 0;
    while i < v.len()
        invariant
            0 <= i <= v.len(),
            out@ == v@.subrange(0, i as int),
        decreases v.len() - i,
    {
        out.push(v[i]);
        proof {
            assert(v@.subrange(0, i as int + 1) == v@.subrange(0, i as int).push(v@[i as int]));
        }
        i = i + 1;
    }
    proof {
        assert(v@.subrange(0, v@.len() as int) == v@);
    }
    out
}

fn to_answer(v: &AnswerVariant) -> (r: Result<Answer<SubmissionSource>, TryNewAnswerError>)
    ensures
        is_invalid(*v) <==> r == Err::<Answer<SubmissionSource>, _>(
            TryNewAnswerError::OptionDuplicated,
        ),
        r is Err ==> is_invalid(*v),
        r matches Ok(a) ==> represents(*v, a),
{
    match v {
        AnswerVariant::SingleSelection { answer } => match SingleSelectionAnswer::<
            SubmissionSource,
        >::try_new(*answer) {
            Ok(a) => Ok(Answer::SingleSelection(a)),
            Err(e) => Err(e),
        },
        AnswerVariant::MultipleSelection { answer } => match MultipleSelectionAnswer::<
            SubmissionSource,
        >::try_new(copy_options(answer)) {
            Ok(a) => Ok(Answer::MultipleSelection(a)),
            Err(e) => Err(e),
        },
        AnswerVariant::Completion { answer } => match CompletionAnswer::<
            SubmissionSource,
        >::try_new(answer.as_str()) {
            Ok(a) => Ok(Answer::Completion(a)),
            Err(e) => Err(e),
        },
    }
}

impl SubmitRequest {
    /// The submission the request carries, each answer under the id of its
    /// question; it fails if a multiple-selection answer names an option
    /// twice.
    pub fn submission(&self) -> (r: Result<Submission, TryNewAnswerError>)
        ensures
            (exists|i: int| 0 <= i < self.answers@.len() && is_invalid(self.answers@[i].answer))
                <==> r == Err::<Submission, _>(TryNewAnswerError::OptionDuplicated),
            r matches Ok(s) ==> s.pairs().len() == self.answers@.len() && forall|i: int|
                0 <= i < self.answers@.len() ==> pair_represents(
                    self.answers@[i],
                    #[trigger] s.pairs()[i],
                ),
    {
        let ghost all = self.answers@;
        let mut pairs: Vec<(Id, Answer<SubmissionSource>)> = Vec::new();
        let n = self.answers.len();
        let mut i: usize = 0;
        while i < n
            invariant
                n == all.len(),
                all == self.answers@,
                0 <= i <= n,
                pairs@.len() == i,
                forall|m: int| 0 <= m < i ==> !is_invalid(#[trigger] all[m].answer),
                forall|m: int| 0 <= m < i ==> pair_represents(all[m], #[trigger] pairs@[m]),
            decreases n - i,
        {
            let item = &self.answers[i];
            assert(*item == all[i as int]);
            match to_answer(&item.answer) {
                Ok(a) => {
                    let ghost before = pairs@;
                    pairs.push((Id(item.id), a));
                    assert forall|m: int| 0 <= m < i + 1 implies pair_represents(
                        all[m],
                        #[trigger] pairs@[m],
                    ) by {
                        if m < i {
                            assert(pairs@[m] == before[m]);
                        }
                    }
                },
                Err(e) => {
                    assert(is_invalid(all[i as int].answer));
                    return Err(e);
                },
            }
            i = i + 1;
        }
        Ok(Submission::new(pairs))
    }
}

/// What a query asks for.
#[derive(Debug, Clone, Copy, PartialEq, Eq, Structural)]
pub enum QueryTarget {
    All,
    One(QueryKind),
}

/// The body of a query for scores.
#[derive(Debug, Clone, PartialEq, Eq)]
pub struct QueryRequest {
    pub login_id: usize,
    pub kind: String,
}

impl QueryRequest {
    /// `"all"` asks for every score, `"latest"` for the latest one, and
    /// anything else for the best one.
    pub fn target(&self) -> (r: QueryTarget)
        ensures
            self.kind@ == "all"@ ==> r == QueryTarget::All,
            self.kind@ == "latest"@ ==> r == QueryTarget::One(QueryKind::Latest),
            self.kind@ != "all"@ && self.kind@ != "latest"@ ==> r == QueryTarget::One(
                QueryKind::Best,
            ),
    {
        proof {
            reveal_strlit("all");
            reveal_strlit("latest");
            assert("all"@.len() != "latest"@.len());
        }
        if self.kind == String::from_str("all") {
            QueryTarget::All
        } else if self.kind == String::from_str("latest") {
            QueryTarget::One(QueryKind::Latest)
        } else {
            QueryTarget::One(QueryKind::Best)
        }
    }
}

/// Request data that failed validation.
#[derive(Debug)]
pub enum DataError {
    User(TryNewUserError),
    Answer(TryNewAnswerError),
}

/// The errors the service reports to its clients.
#[derive(Debug)]
#[non_exhaustive]
pub enum ApiError {
    DataInvalid { source: DataError },
    NotLoggedIn,
    TestInvalidOrExpired,
    UserNotFound { user: User },
    Unknown { source: CoreError },
}

impl ApiError {
    pub fn message(&self) -> (r: &'static str) {
        match self {
            ApiError::DataInvalid { .. } => "Received invalid data",
            ApiError::NotLoggedIn => "Could not serve without logging in",
            ApiError::TestInvalidOrExpired => "Test is not authencated by system or expired",
            ApiError::UserNotFound { .. } => "Could not find information for user",
            ApiError::Unknown { .. } => "Unknown error occurred",
        }
    }

    /// A failed login.
    pub fn from_login(e: CoreError) -> (r: ApiError)
        ensures
            r == (ApiError::Unknown { source: e }),
    {
        ApiError::Unknown { source: e }
    }

    /// A failed start or query: an unknown login id means the client is not
    /// logged in.
    pub fn from_session_call(e: CoreError) -> (r: ApiError)
        ensures
            e is SessionNotFound ==> r == ApiError::NotLoggedIn,
            !(e is SessionNotFound) ==> r == (ApiError::Unknown { source: e }),
    {
        match e {
            CoreError::SessionNotFound { .. } => ApiError::NotLoggedIn,
            _ => ApiError::Unknown { source: e },
        }
    }

    /// A failed submission: an unknown test id means the test is not one
    /// the service handed out, or it expired.
    pub fn from_submit(e: CoreError) -> (r: ApiError)
        ensures
            e is SessionNotFound ==> r == ApiError::NotLoggedIn,
            (e matches CoreError::LoginSession { source, .. } && source is SessionNotFound) ==> r
                == ApiError::TestInvalidOrExpired,
            !(e is SessionNotFound) && !(e matches CoreError::LoginSession { source, .. }
                && source is SessionNotFound) ==> r == (ApiError::Unknown { source: e }),
    {
        match e {
            CoreError::SessionNotFound { .. } => ApiError::NotLoggedIn,
            CoreError::LoginSession { source: LoginSessionError::SessionNotFound { .. }, .. } => {
                ApiError::TestInvalidOrExpired
            },
            _ => ApiError::Unknown { source: e },
        }
    }
}

} // verus!
