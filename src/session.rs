use vstd::prelude::*;

use crate::id::{Id, SequentialIdAllocator};

verus! {

/// A message to a session: cancel it, or a command of its role.
#[derive(Debug)]
pub enum Command<P> {
    Cancel,
    Extra(P),
}

/// What a session sends to its parent when it ends: exactly once, with its
/// own id.
#[derive(Debug, Clone, Copy, PartialEq, Eq, Structural)]
pub enum Report {
    Exited { id: Id },
}

/// Where a session stands in its life.
#[derive(Debug, Clone, Copy, PartialEq, Eq, Structural)]
pub enum Phase {
    /// Processing commands, child reports and timer ticks.
    Active,
    /// Cancellation began: the children are to be sent `Cancel`.
    Cancelling,
    /// Waiting, for a bounded time, for that many children to report back.
    Draining { awaiting: usize },
    /// The run loop ended: the role's cleanup runs, then the exit report.
    Finalizing,
    /// Terminal: the exit report was produced.
    Exited,
}

/// One thing that happened to a session, as its run loop observed it.
#[derive(Debug, Clone, Copy, PartialEq, Eq, Structural)]
pub enum Event {
    /// A `Cancel` command arrived, or the command channel was closed.
    Cancel,
    /// A role command was handled.
    Handled,
    /// A child reported that it exited.
    ChildExited(Id),
    /// The channel of child reports was closed.
    ReportsClosed,
    /// The idle-expiry timer fired.
    Expired,
    /// `Cancel` was delivered to that many children.
    CancelsSent(usize),
    /// The wait for children to report back ran out.
    CancelTimeout,
}

/// What the run loop does next.
#[derive(Debug, Clone, PartialEq, Eq)]
pub enum Step {
    /// Wait for the next event.
    Continue,
    /// Send `Cancel` to each of these children, then report how many of
    /// the sends succeeded with `Event::CancelsSent`.
    CancelChildren(Vec<Id>),
    /// Leave the loop: run the role's cleanup, then send the exit report.
    Finalize,
}

/// The model of a step.
pub enum Action {
    Continue,
    CancelChildren(Seq<Id>),
    Finalize,
}

impl View for Step {
    type V = Action;

    open spec fn view(&self) -> Action {
        match self {
            Step::Continue => Action::Continue,
            Step::CancelChildren(v) => Action::CancelChildren(v@),
            Step::Finalize => Action::Finalize,
        }
    }
}

/// The model of a session's common state.
pub struct SessionView {
    pub id: Id,
    /// The registered children, in the order they were spawned.
    pub children: Seq<Id>,
    /// Whether new children may still be spawned.
    pub accepting: bool,
    /// Whether the role asked the run loop to end after the current command.
    pub exit_requested: bool,
    pub phase: Phase,
}

impl SessionView {
    pub open spec fn wf(self) -> bool {
        &&& self.phase is Active ==> self.accepting
        &&& !(self.phase is Active) ==> !self.accepting || self.phase is Finalizing
    }

    /// The events the run loop can observe in this state.
    pub open spec fn enabled(self, e: Event) -> bool {
        match self.phase {
            Phase::Active => match e {
                Event::CancelsSent(_) | Event::CancelTimeout => false,
                _ => true,
            },
            Phase::Cancelling => match e {
                Event::CancelsSent(n) => n <= self.children.len(),
                _ => false,
            },
            Phase::Draining { .. } => match e {
                Event::ChildExited(_) | Event::ReportsClosed | Event::CancelTimeout => true,
                _ => false,
            },
            _ => false,
        }
    }

    /// Stop accepting children and start cancelling the registered ones.
    pub open spec fn begin_cancel(self) -> (SessionView, Action) {
        (
            SessionView { accepting: false, phase: Phase::Cancelling, ..self },
            Action::CancelChildren(self.children),
        )
    }

    pub open spec fn finalize(self) -> (SessionView, Action) {
        (SessionView { phase: Phase::Finalizing, ..self }, Action::Finalize)
    }

    /// The state after an event, and what the run loop does next.
    pub open spec fn next(self, e: Event) -> (SessionView, Action) {
        match self.phase {
            Phase::Active => match e {
                Event::Cancel | Event::Expired => self.begin_cancel(),
                Event::Handled => if self.exit_requested {
                    self.finalize()
                } else {
                    (self, Action::Continue)
                },
                Event::ChildExited(id) => (
                    SessionView { children: without(self.children, id), ..self },
                    Action::Continue,
                ),
                _ => self.finalize(),
            },
            Phase::Cancelling => match e {
                Event::CancelsSent(n) => if n == 0 {
                    self.finalize()
                } else {
                    (SessionView { phase: Phase::Draining { awaiting: n }, ..self }, Action::Continue)
                },
                _ => (self, Action::Continue),
            },
            Phase::Draining { awaiting } => match e {
                Event::ChildExited(_) => if awaiting <= 1 {
                    self.finalize()
                } else {
                    (
                        SessionView {
                            phase: Phase::Draining { awaiting: (awaiting - 1) as usize },
                            ..self
                        },
                        Action::Continue,
                    )
                },
                Event::CancelTimeout => self.finalize(),
                _ => (self, Action::Continue),
            },
            _ => (self, Action::Continue),
        }
    }
}

/// The state after a sequence of events, each enabled where it comes.
pub open spec fn run(s: SessionView, events: Seq<Event>) -> SessionView
    decreases events.len(),
{
    if events.len() == 0 {
        s
    } else {
        run(s.next(events[0]).0, events.drop_first())
    }
}

/// Exit reports of children, one for each id.
pub open spec fn child_reports(ids: Seq<Id>) -> Seq<Event> {
    ids.map_values(|id: Id| Event::ChildExited(id))
}

/// The report a session sends when it ends.
pub open spec fn exit_report(s: SessionView) -> Report {
    Report::Exited { id: s.id }
}

proof fn lemma_drain(s: SessionView, ids: Seq<Id>)
    requires
        s.phase matches Phase::Draining { awaiting } && ids.len() < awaiting,
    ensures
        run(s, child_reports(ids)) == (SessionView {
            phase: Phase::Draining { awaiting: (s.phase->awaiting - ids.len()) as usize },
            ..s
        }),
    decreases ids.len(),
{
    if ids.len() > 0 {
        let s1 = s.next(child_reports(ids)[0]).0;
        assert(child_reports(ids).drop_first() == child_reports(ids.drop_first()));
        lemma_drain(s1, ids.drop_first());
    }
}

/// Cancelling a session with N registered children sends `Cancel` to each
/// of the N. If `delivered` of those sends succeed and fewer than that many
/// children report back before the wait runs out, the session is still
/// waiting after each report, so it cannot have sent its own exit report;
/// the timeout then moves it to finalizing, and the report that follows
/// carries its own id.
pub proof fn lemma_cancel_then_timeout(s: SessionView, delivered: usize, acked: Seq<Id>)
    requires
        s.phase == Phase::Active,
        0 < delivered <= s.children.len(),
        acked.len() < delivered,
    ensures
        s.next(Event::Cancel).1 == Action::CancelChildren(s.children),
        s.next(Event::Cancel).0.phase == Phase::Cancelling,
        !s.next(Event::Cancel).0.accepting,
        ({
            let waiting = s.next(Event::Cancel).0.next(Event::CancelsSent(delivered)).0;
            &&& forall|j: int|
                0 <= j <= acked.len() ==> #[trigger] run(waiting, child_reports(acked.take(j))).phase
                    == (Phase::Draining { awaiting: (delivered - j) as usize })
            &&& run(waiting, child_reports(acked)).next(Event::CancelTimeout).1 == Action::Finalize
            &&& run(waiting, child_reports(acked)).next(Event::CancelTimeout).0.phase
                == Phase::Finalizing
            &&& exit_report(run(waiting, child_reports(acked)).next(Event::CancelTimeout).0)
                == exit_report(s)
        }),
{
    let waiting = s.next(Event::Cancel).0.next(Event::CancelsSent(delivered)).0;
    assert forall|j: int| 0 <= j <= acked.len() implies #[trigger] run(
        waiting,
        child_reports(acked.take(j)),
    ).phase == (Phase::Draining { awaiting: (delivered - j) as usize }) by {
        lemma_drain(waiting, acked.take(j));
    }
    lemma_drain(waiting, acked);
}

/// A session that receives no command before its idle-expiry fires starts
/// cancelling by itself: it sends `Cancel` to every registered child and
/// stops accepting new ones. Once the sends are counted and, if any
/// succeeded, the wait for reports ends, it finalizes, and its exit report
/// carries its own id.
pub proof fn lemma_expiry_exits(s: SessionView, delivered: usize)
    requires
        s.phase == Phase::Active,
        delivered <= s.children.len(),
    ensures
        s.next(Event::Expired).1 == Action::CancelChildren(s.children),
        !s.next(Event::Expired).0.accepting,
        ({
            let sent = s.next(Event::Expired).0.next(Event::CancelsSent(delivered));
            let done = if delivered == 0 {
                sent
            } else {
                sent.0.next(Event::CancelTimeout)
            };
            &&& done.1 == Action::Finalize
            &&& done.0.phase == Phase::Finalizing
            &&& exit_report(done.0) == (Report::Exited { id: s.id })
        }),
{
}

/// The sequence without the entries equal to `id`.
pub open spec fn without(s: Seq<Id>, id: Id) -> Seq<Id>
    decreases s.len(),
{
    if s.len() == 0 {
        s
    } else if s.last() == id {
        without(s.drop_last(), id)
    } else {
        without(s.drop_last(), id).push(s.last())
    }
}

fn remove_id(children: &Vec<Id>, id: Id) -> (r: Vec<Id>)
    ensures
        r@ == without(children@, id),
{
    let mut out: Vec<Id> = Vec::new();
    let mut i: usize = 0;
    while i < children.len()
        invariant
            0 <= i <= children.len(),
            out@ == without(children@.subrange(0, i as int), id),
        decreases children.len() - i,
    {
        proof {
            assert(children@.subrange(0, i as int + 1).drop_last() == children@.subrange(0, i as int));
        }
        if children[i] != id {
            out.push(children[i]);
        }
        i = i + 1;
    }
    proof {
        assert(children@.subrange(0, children@.len() as int) == children@);
    }
    out
}

/// The state every session owns: its identity, its registered children and
/// where it stands in its life. Channels and timers belong to whoever runs
/// the session; this type decides what happens on each event.
#[derive(Debug)]
pub struct SessionBase {
    id: Id,
    children: Vec<Id>,
    accepting: bool,
    exit_requested: bool,
    phase: Phase,
}

impl View for SessionBase {
    type V = SessionView;

    closed spec fn view(&self) -> SessionView {
        SessionView {
            id: self.id,
            children: self.children@,
            accepting: self.accepting,
            exit_requested: self.exit_requested,
            phase: self.phase,
        }
    }
}

impl SessionBase {
    /// A new active session, with a fresh id and no children.
    pub fn new(id_allocator: &mut SequentialIdAllocator) -> (r: Self)
        requires
            old(id_allocator).next() < usize::MAX,
        ensures
            r@.id.0 == old(id_allocator).next(),
            final(id_allocator).next() == old(id_allocator).next() + 1,
            r@.children.len() == 0,
            r@.accepting,
            !r@.exit_requested,
            r@.phase == Phase::Active,
            r@.wf(),
    {
        let id = id_allocator.allocate();
        SessionBase {
            id,
            children: Vec::new(),
            accepting: true,
            exit_requested: false,
            phase: Phase::Active,
        }
    }

    pub fn id(&self) -> (r: Id)
        ensures
            r == self@.id,
    {
        self.id
    }

    pub fn phase(&self) -> (r: Phase)
        ensures
            r == self@.phase,
    {
        self.phase
    }

    /// Whether new children may still be spawned.
    pub fn accepting(&self) -> (r: bool)
        ensures
            r == self@.accepting,
    {
        self.accepting
    }

    pub fn children(&self) -> (r: &Vec<Id>)
        ensures
            r@ == self@.children,
    {
        &self.children
    }

    /// Whether `id` is a registered child.
    pub fn has_child(&self, id: Id) -> (r: bool)
        ensures
            r == self@.children.contains(id),
    {
        let mut i: usize = 0;
        while i < self.children.len()
            invariant
                0 <= i <= self.children.len(),
                forall|m: int| 0 <= m < i ==> self.children@[m] != id,
            decreases self.children.len() - i,
        {
            if self.children[i] == id {
                return true;
            }
            i = i + 1;
        }
        false
    }

    /// Ask the run loop to end once the current command is handled.
    pub fn request_exit(&mut self)
        ensures
            final(self)@ == (SessionView { exit_requested: true, ..old(self)@ }),
    {
        self.exit_requested = true;
    }

    /// The base of a new child with a fresh id, registered as a child of this
    /// session; `None` once this session stopped accepting children.
    pub fn spawn(&mut self, id_allocator: &mut SequentialIdAllocator) -> (r: Option<SessionBase>)
        requires
            old(id_allocator).next() < usize::MAX,
        ensures
            !old(self)@.accepting ==> r is None && final(self)@ == old(self)@
                && final(id_allocator).next() == old(id_allocator).next(),
            old(self)@.accepting ==> (r matches Some(c) && c@.id.0 == old(id_allocator).next()
                && c@.children.len() == 0 && c@.accepting && !c@.exit_requested && c@.phase
                == Phase::Active && final(self)@ == (SessionView {
                children: old(self)@.children.push(c@.id),
                ..old(self)@
            }) && final(id_allocator).next() == old(id_allocator).next() + 1),
    {
        if !self.accepting {
            return None;
        }
        let child = SessionBase::new(id_allocator);
        self.children.push(child.id);
        Some(child)
    }

    /// Advance the run loop by one event.
    pub fn on_event(&mut self, e: Event) -> (r: Step)
        requires
            old(self)@.enabled(e),
        ensures
            (final(self)@, r@) == old(self)@.next(e),
            old(self)@.wf() ==> final(self)@.wf(),
    {
        match self.phase {
            Phase::Active => match e {
                Event::Cancel | Event::Expired => self.begin_cancel(),
                Event::Handled => {
                    if self.exit_requested {
                        self.phase = Phase::Finalizing;
                        Step::Finalize
                    } else {
                        Step::Continue
                    }
                },
                Event::ChildExited(id) => {
                    self.children = remove_id(&self.children, id);
                    Step::Continue
                },
                _ => {
                    self.phase = Phase::Finalizing;
                    Step::Finalize
                },
            },
            Phase::Cancelling => match e {
                Event::CancelsSent(n) => {
                    if n == 0 {
                        self.phase = Phase::Finalizing;
                        Step::Finalize
                    } else {
                        self.phase = Phase::Draining { awaiting: n };
                        Step::Continue
                    }
                },
                _ => Step::Continue,
            },
            Phase::Draining { awaiting } => match e {
                Event::ChildExited(_) => {
                    if awaiting <= 1 {
                        self.phase = Phase::Finalizing;
                        Step::Finalize
                    } else {
                        self.phase = Phase::Draining { awaiting: awaiting - 1 };
                        Step::Continue
                    }
                },
                Event::CancelTimeout => {
                    self.phase = Phase::Finalizing;
                    Step::Finalize
                },
                _ => Step::Continue,
            },
            _ => Step::Continue,
        }
    }

    fn begin_cancel(&mut self) -> (r: Step)
        ensures
            (final(self)@, r@) == old(self)@.begin_cancel(),
    {
        self.accepting = false;
        self.phase = Phase::Cancelling;
        Step::CancelChildren(self.children.clone())
    }

    /// End the session: the report to send to its parent.
    pub fn exit(&mut self) -> (r: Report)
        requires
            old(self)@.phase == Phase::Finalizing,
        ensures
            r == exit_report(old(self)@),
            final(self)@ == (SessionView { phase: Phase::Exited, ..old(self)@ }),
    {
        self.phase = Phase::Exited;
        Report::Exited { id: self.id }
    }
}

} // verus!
