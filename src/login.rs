use vstd::prelude::*;

use crate::id::{Id, SequentialIdAllocator};
use crate::repository::{Record, ScoreRepositoryError};
use crate::session::{Event, Phase, Report, SessionBase, SessionView, Step};
use crate::test::Test;
use crate::test_session::{TestSession, TestSessionError, TestSessionView, TestSummary};
use crate::user::User;

verus! {

/// How long a login session lives, in milliseconds: forty-five minutes.
pub const SESSION_EXPIRE_TIMEOUT_MS: u64 = 2700000;

/// How long a login session waits for its test sessions to report back
/// after cancelling them, in milliseconds.
pub const CANCEL_AWAIT_TIMEOUT_MS: u64 = 5000;

#[derive(Debug, Clone, Copy, PartialEq, Eq, Structural)]
pub enum QueryKind {
    Best,
    Latest,
}

#[derive(Debug)]
#[non_exhaustive]
pub enum LoginSessionError {
    NotLoggedIn,
    AlreadyLoggedIn { previous: User },
    SessionNotFound { id: Id },
    Test { source: TestSessionError },
    Query { source: ScoreRepositoryError },
}

/// The model of a login session beyond its common state.
pub struct LoginSessionView {
    pub base: SessionView,
    pub user: Option<User>,
}

impl LoginSessionView {
    /// `Login` with `user`: the new state and the reply.
    pub open spec fn login(self, user: User) -> (LoginSessionView, Result<Id, LoginSessionError>) {
        match self.user {
            Some(p) => (self, Err(LoginSessionError::AlreadyLoggedIn { previous: p })),
            None => (LoginSessionView { user: Some(user), ..self }, Ok(self.base.id)),
        }
    }
}

/// `Login` sent twice to a session with no user: the second fails with
/// `AlreadyLoggedIn` naming the first user, who stays bound.
pub proof fn lemma_second_login_fails(s: LoginSessionView, first: User, second: User)
    requires
        s.user is None,
    ensures
        s.login(first).1 == Ok::<_, LoginSessionError>(s.base.id),
        s.login(first).0.login(second).1 == Err::<Id, _>(
            LoginSessionError::AlreadyLoggedIn { previous: first },
        ),
        s.login(first).0.login(second).0.user == Some(first),
{
}

/// The session of one login: bound to at most one user, it starts test
/// sessions as its children and relays submissions to them.
#[derive(Debug)]
pub struct LoginSession {
    base: SessionBase,
    user: Option<User>,
}

impl View for LoginSession {
    type V = LoginSessionView;

    closed spec fn view(&self) -> LoginSessionView {
        LoginSessionView { base: self.base@, user: self.user }
    }
}

impl LoginSession {
    pub fn new(base: SessionBase) -> (r: Self)
        ensures
            r@ == (LoginSessionView { base: base@, user: None }),
    {
        LoginSession { base, user: None }
    }

    pub fn id(&self) -> (r: Id)
        ensures
            r == self@.base.id,
    {
        self.base.id()
    }

    pub fn base(&self) -> (r: &SessionBase)
        ensures
            r@ == self@.base,
    {
        &self.base
    }

    /// Advance the run loop by one event.
    pub fn on_event(&mut self, e: Event) -> (r: Step)
        requires
            old(self)@.base.enabled(e),
        ensures
            (final(self)@.base, r@) == old(self)@.base.next(e),
            final(self)@.user == old(self)@.user,
    {
        self.base.on_event(e)
    }

    /// The role's cleanup, which holds nothing, then the exit report.
    pub fn finalize(&mut self) -> (r: Report)
        requires
            old(self)@.base.phase == Phase::Finalizing,
        ensures
            r == (Report::Exited { id: old(self)@.base.id }),
            final(self)@.base.phase == Phase::Exited,
    {
        self.base.exit()
    }

    /// Bind `user` to this session, whose id then serves as the login id.
    /// A session already bound keeps its user.
    pub fn handle_login(&mut self, user: User) -> (r: Result<Id, LoginSessionError>)
        ensures
            (final(self)@, r) == old(self)@.login(user),
    {
        match &self.user {
            Some(previous) => Err(LoginSessionError::AlreadyLoggedIn { previous: previous.duplicate() }),
            None => {
                self.user = Some(user);
                Ok(self.base.id())
            },
        }
    }

    /// The first part of `Start`: spawn a test session as a child, to which
    /// `Generate` is then sent.
    pub fn handle_start(&mut self, id_allocator: &mut SequentialIdAllocator) -> (r: Result<
        TestSession,
        LoginSessionError,
    >)
        requires
            old(self)@.base.accepting,
            old(id_allocator).next() < usize::MAX,
        ensures
            old(self)@.user is None ==> (r matches Err(LoginSessionError::NotLoggedIn))
                && final(self)@ == old(self)@ && final(id_allocator).next() == old(
                id_allocator,
            ).next(),
            old(self)@.user is Some ==> (r matches Ok(t) && t@.base.id.0 == old(
                id_allocator,
            ).next() && t@.base.children.len() == 0 && t@.base.phase == Phase::Active
                && t@.base.accepting && t@.question_ids is None && t@.start_time is None
                && final(self)@ == (LoginSessionView {
                base: SessionView {
                    children: old(self)@.base.children.push(t@.base.id),
                    ..old(self)@.base
                },
                ..old(self)@
            })) && final(id_allocator).next() == old(id_allocator).next() + 1,
    {
        if self.user.is_none() {
            return Err(LoginSessionError::NotLoggedIn);
        }
        match self.base.spawn(id_allocator) {
            Some(child) => Ok(TestSession::new(child)),
            None => Err(LoginSessionError::NotLoggedIn),
        }
    }

    /// The last part of `Start`: the test session's reply to `Generate`.
    pub fn finish_start(reply: Result<Test, TestSessionError>) -> (r: Result<
        Test,
        LoginSessionError,
    >)
        ensures
            reply matches Ok(t) ==> r == Ok::<_, LoginSessionError>(t),
            reply matches Err(e) ==> r == Err::<Test, _>(LoginSessionError::Test { source: e }),
    {
        match reply {
            Ok(t) => Ok(t),
            Err(e) => Err(LoginSessionError::Test { source: e }),
        }
    }

    /// The first part of `Submit`: the user to grade for, once the session
    /// is bound to one and `test_id` is one of its live test sessions.
    pub fn handle_submit(&self, test_id: Id) -> (r: Result<User, LoginSessionError>)
        ensures
            self@.user is None ==> r matches Err(LoginSessionError::NotLoggedIn),
            self@.user is Some && !self@.base.children.contains(test_id) ==> r == Err::<User, _>(
                LoginSessionError::SessionNotFound { id: test_id },
            ),
            self@.user is Some && self@.base.children.contains(test_id) ==> r == Ok::<
                _,
                LoginSessionError,
            >(self@.user->0),
    {
        let user = match &self.user {
            Some(u) => u.duplicate(),
            None => return Err(LoginSessionError::NotLoggedIn),
        };
        if !self.base.has_child(test_id) {
            return Err(LoginSessionError::SessionNotFound { id: test_id });
        }
        Ok(user)
    }

    /// The last part of `Submit`: the test session's reply.
    pub fn finish_submit(reply: Result<TestSummary, TestSessionError>) -> (r: Result<
        TestSummary,
        LoginSessionError,
    >)
        ensures
            reply matches Ok(t) ==> r == Ok::<_, LoginSessionError>(t),
            reply matches Err(e) ==> r == Err::<TestSummary, _>(
                LoginSessionError::Test { source: e },
            ),
    {
        match reply {
            Ok(t) => Ok(t),
            Err(e) => Err(LoginSessionError::Test { source: e }),
        }
    }

    /// The first part of `Query` and `QueryAll`: the user whose scores the
    /// score repository is asked for.
    pub fn handle_query(&self) -> (r: Result<User, LoginSessionError>)
        ensures
            self@.user is None ==> r matches Err(LoginSessionError::NotLoggedIn),
            self@.user matches Some(u) ==> r == Ok::<_, LoginSessionError>(u),
    {
        match &self.user {
            Some(u) => Ok(u.duplicate()),
            None => Err(LoginSessionError::NotLoggedIn),
        }
    }

    /// The last part of `Query`: the score repository's answer.
    pub fn finish_query(found: Result<Record, ScoreRepositoryError>) -> (r: Result<
        Record,
        LoginSessionError,
    >)
        ensures
            found matches Ok(rec) ==> r == Ok::<_, LoginSessionError>(rec),
            found matches Err(e) ==> r == Err::<Record, _>(LoginSessionError::Query { source: e }),
    {
        match found {
            Ok(rec) => Ok(rec),
            Err(e) => Err(LoginSessionError::Query { source: e }),
        }
    }

    /// The last part of `QueryAll`: the score repository's answer.
    pub fn finish_query_all(found: Result<Vec<Record>, ScoreRepositoryError>) -> (r: Result<
        Vec<Record>,
        LoginSessionError,
    >)
        ensures
            found matches Ok(recs) ==> r == Ok::<_, LoginSessionError>(recs),
            found matches Err(e) ==> r == Err::<Vec<Record>, _>(
                LoginSessionError::Query { source: e },
            ),
    {
        match found {
            Ok(recs) => Ok(recs),
            Err(e) => Err(LoginSessionError::Query { source: e }),
        }
    }
}

} // verus!
