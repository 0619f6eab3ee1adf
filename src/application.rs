use vstd::prelude::*;

use crate::id::{Id, SequentialIdAllocator};
use crate::login::{LoginSession, LoginSessionError, LoginSessionView};
use crate::session::{Phase, SessionBase, SessionView};
use crate::test_session::TestSession;
use crate::user::User;

verus! {

#[derive(Debug)]
#[non_exhaustive]
pub enum CoreError {
    LoginSession { id: Id, source: LoginSessionError },
    SessionNotFound { id: Id },
}

/// The model of the registry: the next id to hand out, and the live login
/// sessions with the handle through which each is reached.
pub struct CoreView<H> {
    pub next_id: nat,
    pub sessions: Seq<(Id, H)>,
}

impl<H> CoreView<H> {
    /// A login: a new session under the next id, registered with `handle`.
    pub open spec fn login(self, handle: H) -> (CoreView<H>, Id) {
        let id = Id(self.next_id as usize);
        (CoreView { next_id: self.next_id + 1, sessions: self.sessions.push((id, handle)) }, id)
    }
}

/// The handle registered under `id`, the first one if several are.
pub open spec fn registered<H>(sessions: Seq<(Id, H)>, id: Id) -> Option<H>
    decreases sessions.len(),
{
    if sessions.len() == 0 {
        None
    } else if sessions[0].0 == id {
        Some(sessions[0].1)
    } else {
        registered(sessions.drop_first(), id)
    }
}

/// The registry without the entries under `id`.
pub open spec fn unregistered<H>(sessions: Seq<(Id, H)>, id: Id) -> Seq<(Id, H)>
    decreases sessions.len(),
{
    if sessions.len() == 0 {
        sessions
    } else if sessions.last().0 == id {
        unregistered(sessions.drop_last(), id)
    } else {
        unregistered(sessions.drop_last(), id).push(sessions.last())
    }
}

/// Two logins in a row, whatever the users, get two distinct ids, the
/// second greater than the first.
pub proof fn lemma_logins_increase<H>(c: CoreView<H>, first: H, second: H)
    requires
        c.next_id + 1 < usize::MAX,
    ensures
        c.login(first).1.0 < c.login(first).0.login(second).1.0,
        c.login(first).1 != c.login(first).0.login(second).1,
{
}

/// The registry of login sessions, keyed by login id, with the id allocator
/// that every session shares.
#[derive(Debug)]
pub struct Core<H> {
    id_allocator: SequentialIdAllocator,
    sessions: Vec<(Id, H)>,
}

impl<H> View for Core<H> {
    type V = CoreView<H>;

    closed spec fn view(&self) -> CoreView<H> {
        CoreView { next_id: self.id_allocator.next(), sessions: self.sessions@ }
    }
}

impl<H> Core<H> {
    pub fn new() -> (r: Self)
        ensures
            r@.next_id == 0,
            r@.sessions.len() == 0,
    {
        Core { id_allocator: SequentialIdAllocator::new(), sessions: Vec::new() }
    }

    /// Whether another session can still be given an id.
    pub fn can_allocate(&self) -> (r: bool)
        ensures
            r == (self@.next_id < usize::MAX),
    {
        self.id_allocator.can_allocate()
    }

    /// A new login session for `user`, registered with `handle`; the reply
    /// to its `Login` is its own id. Every login makes a new session.
    pub fn login(&mut self, user: User, handle: H) -> (r: (LoginSession, Result<Id, CoreError>))
        requires
            old(self)@.next_id < usize::MAX,
        ensures
            (final(self)@, r.1->Ok_0) == old(self)@.login(handle),
            r.1 is Ok,
            r.0@ == (LoginSessionView {
                base: SessionView {
                    id: Id(old(self)@.next_id as usize),
                    children: Seq::empty(),
                    accepting: true,
                    exit_requested: false,
                    phase: Phase::Active,
                },
                user: Some(user),
            }),
    {
        let base = SessionBase::new(&mut self.id_allocator);
        let id = base.id();
        let mut session = LoginSession::new(base);
        self.sessions.push((id, handle));
        let reply = match session.handle_login(user) {
            Ok(login_id) => Ok(login_id),
            Err(e) => Err(CoreError::LoginSession { id, source: e }),
        };
        proof {
            assert(session@.base.children =~= Seq::<Id>::empty());
        }
        (session, reply)
    }

    /// The handle of the login session `login_id`.
    pub fn lookup(&self, login_id: Id) -> (r: Result<&H, CoreError>)
        ensures
            registered(self@.sessions, login_id) is None ==> (r matches Err(
                CoreError::SessionNotFound { id },
            ) && id == login_id),
            registered(self@.sessions, login_id) matches Some(h) ==> (r matches Ok(x) && *x == h),
    {
        let mut i: usize = 0;
        assert(self.sessions@.subrange(0, self.sessions@.len() as int) == self.sessions@);
        while i < self.sessions.len()
            invariant
                0 <= i <= self.sessions.len(),
                registered(self.sessions@, login_id) == registered(
                    self.sessions@.subrange(i as int, self.sessions@.len() as int),
                    login_id,
                ),
            decreases self.sessions.len() - i,
        {
            proof {
                let rest = self.sessions@.subrange(i as int, self.sessions@.len() as int);
                assert(rest.drop_first() == self.sessions@.subrange(
                    i as int + 1,
                    self.sessions@.len() as int,
                ));
            }
            if self.sessions[i].0 == login_id {
                return Ok(&self.sessions[i].1);
            }
            i = i + 1;
        }
        Err(CoreError::SessionNotFound { id: login_id })
    }

    /// Forget the login session `id`, which reported that it exited.
    pub fn reap(&mut self, id: Id)
        ensures
            final(self)@ == (CoreView {
                sessions: unregistered(old(self)@.sessions, id),
                ..old(self)@
            }),
    {
        let ghost all = self.sessions@;
        let ghost mut j: int = 0;
        let mut i: usize = 0;
        while i < self.sessions.len()
            invariant
                0 <= i <= j <= all.len(),
                self.sessions@.len() == i + (all.len() - j),
                self.sessions@.subrange(0, i as int) == unregistered(all.subrange(0, j), id),
                self.sessions@.subrange(i as int, self.sessions@.len() as int) == all.subrange(
                    j,
                    all.len() as int,
                ),
                self.id_allocator == old(self).id_allocator,
            decreases self.sessions.len() - i,
        {
            proof {
                assert(all.subrange(0, j + 1).drop_last() == all.subrange(0, j));
                assert(self.sessions@[i as int] == self.sessions@.subrange(
                    i as int,
                    self.sessions@.len() as int,
                )[0]);
                assert(all.subrange(0, j + 1).last() == all[j]);
            }
            if self.sessions[i].0 == id {
                let ghost before = self.sessions@;
                let _ = self.sessions.remove(i);
                proof {
                    assert(self.sessions@.subrange(0, i as int) == before.subrange(0, i as int));
                    assert(self.sessions@.subrange(i as int, self.sessions@.len() as int)
                        == before.subrange(i as int + 1, before.len() as int));
                    assert(all.subrange(j + 1, all.len() as int) == all.subrange(
                        j,
                        all.len() as int,
                    ).drop_first());
                    j = j + 1;
                }
            } else {
                proof {
                    assert(self.sessions@.subrange(0, i as int + 1) == self.sessions@.subrange(
                        0,
                        i as int,
                    ).push(all[j]));
                    let tail = self.sessions@.subrange(i as int, self.sessions@.len() as int);
                    assert(self.sessions@.subrange(i as int + 1, self.sessions@.len() as int)
                        == tail.drop_first());
                    assert(all.subrange(j + 1, all.len() as int) == all.subrange(
                        j,
                        all.len() as int,
                    ).drop_first());
                    j = j + 1;
                }
                i = i + 1;
            }
        }
        proof {
            assert(self.sessions@.subrange(0, i as int) == self.sessions@);
            assert(all.subrange(0, j) == all);
        }
    }

    /// `Start` for a login session: spawn its test session with an id from
    /// the shared allocator.
    pub fn spawn_test(&mut self, session: &mut LoginSession) -> (r: Result<
        TestSession,
        LoginSessionError,
    >)
        requires
            old(session)@.base.accepting,
            old(self)@.next_id < usize::MAX,
        ensures
            final(self)@.sessions == old(self)@.sessions,
            old(session)@.user is None ==> (r matches Err(LoginSessionError::NotLoggedIn))
                && final(session)@ == old(session)@ && final(self)@.next_id == old(self)@.next_id,
            old(session)@.user is Some ==> (r matches Ok(t) && t@.base.id.0 == old(self)@.next_id
                && final(session)@ == (LoginSessionView {
                base: SessionView {
                    children: old(session)@.base.children.push(t@.base.id),
                    ..old(session)@.base
                },
                ..old(session)@
            })) && final(self)@.next_id == old(self)@.next_id + 1,
    {
        session.handle_start(&mut self.id_allocator)
    }
}

/// The reply of login session `login_id`, its error wrapped as the
/// registry's.
pub fn from_session<T>(login_id: Id, reply: Result<T, LoginSessionError>) -> (r: Result<
    T,
    CoreError,
>)
    ensures
        reply matches Ok(v) ==> r == Ok::<T, CoreError>(v),
        reply matches Err(e) ==> r == Err::<T, _>(
            CoreError::LoginSession { id: login_id, source: e },
        ),
{
    match reply {
        Ok(v) => Ok(v),
        Err(e) => Err(CoreError::LoginSession { id: login_id, source: e }),
    }
}

} // verus!
