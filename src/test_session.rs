use vstd::prelude::*;

use crate::clock::now_millis;
use crate::id::Id;
use crate::question::Question;
use crate::repository::{QuestionRepositoryError, Record, ScoreRepositoryError, SelectCount};
use crate::score::Score;
use crate::session::{Event, Report, SessionBase, SessionView, Step};
use crate::test::{correct_count, score_of, Submission, Test};

verus! {

/// How long a test session lives, in milliseconds: thirty minutes and a
/// half.
pub const SESSION_EXPIRE_TIMEOUT_MS: u64 = 1830000;

/// How long a test session waits for its children to report back after
/// cancelling them, in milliseconds.
pub const CANCEL_AWAIT_TIMEOUT_MS: u64 = 5000;

#[derive(Debug)]
#[non_exhaustive]
pub enum TestSessionError {
    Generate { source: QuestionRepositoryError },
    LoadQuestions { source: QuestionRepositoryError },
    SaveScore { source: ScoreRepositoryError },
    NotStarted,
    TestMismatched { expected: Id, actual: Id },
}

/// The outcome of one submitted test: its score, and how long it took in
/// milliseconds.
#[derive(Debug, Clone, PartialEq, Eq)]
pub struct TestSummary {
    pub score: Score,
    pub duration: u64,
}

/// The ids of the questions, in order.
pub open spec fn question_ids(qs: Seq<Question>) -> Seq<Id> {
    qs.map_values(|q: Question| q.spec_id())
}

/// The time from `start` to `end` in milliseconds, zero if `end` comes
/// first; without a start, the whole life of a test session.
pub open spec fn elapsed(start: Option<i64>, end: i64) -> nat {
    match start {
        Some(s) => if end >= s {
            (end - s) as nat
        } else {
            0
        },
        None => SESSION_EXPIRE_TIMEOUT_MS as nat,
    }
}

/// The model of a test session beyond its common state.
pub struct TestSessionView {
    pub base: SessionView,
    pub question_ids: Option<Seq<Id>>,
    pub start_time: Option<i64>,
}

/// One attempt at a test: generated once, submitted at most once, then the
/// session ends.
#[derive(Debug)]
pub struct TestSession {
    base: SessionBase,
    question_ids: Option<Vec<Id>>,
    start_time: Option<i64>,
}

impl View for TestSession {
    type V = TestSessionView;

    closed spec fn view(&self) -> TestSessionView {
        TestSessionView {
            base: self.base@,
            question_ids: match self.question_ids {
                Some(v) => Some(v@),
                None => None,
            },
            start_time: self.start_time,
        }
    }
}

fn ids_of(questions: &Vec<Question>) -> (r: Vec<Id>)
    ensures
        r@ == question_ids(questions@),
{
    let mut out: Vec<Id> = Vec::new();
    let mut i: usize = 0;
    while i < questions.len()
        invariant
            0 <= i <= questions.len(),
            out@ == question_ids(questions@.subrange(0, i as int)),
        decreases questions.len() - i,
    {
        out.push(questions[i].id());
        proof {
            assert(question_ids(questions@.subrange(0, i as int + 1)) =~= question_ids(
                questions@.subrange(0, i as int),
            ).push(questions@[i as int].spec_id()));
        }
        i = i + 1;
    }
    proof {
        assert(questions@.subrange(0, questions@.len() as int) == questions@);
    }
    out
}

impl TestSession {
    /// The composition of every generated test.
    pub fn select_count() -> (r: SelectCount)
        ensures
            r == (SelectCount { single_selection: 8, multiple_selection: 8, completion: 12 }),
    {
        SelectCount { single_selection: 8, multiple_selection: 8, completion: 12 }
    }

    pub fn new(base: SessionBase) -> (r: Self)
        ensures
            r@ == (TestSessionView { base: base@, question_ids: None, start_time: None }),
    {
        TestSession { base, question_ids: None, start_time: None }
    }

    pub fn id(&self) -> (r: Id)
        ensures
            r == self@.base.id,
    {
        self.base.id()
    }

    pub fn base(&self) -> (r: &SessionBase)
        ensures
            r@ == self@.base,
    {
        &self.base
    }

    /// Advance the run loop by one event.
    pub fn on_event(&mut self, e: Event) -> (r: Step)
        requires
            old(self)@.base.enabled(e),
        ensures
            (final(self)@.base, r@) == old(self)@.base.next(e),
            final(self)@.question_ids == old(self)@.question_ids,
            final(self)@.start_time == old(self)@.start_time,
    {
        self.base.on_event(e)
    }

    /// The role's cleanup, which holds nothing, then the exit report.
    pub fn finalize(&mut self) -> (r: Report)
        requires
            old(self)@.base.phase == crate::session::Phase::Finalizing,
        ensures
            r == (Report::Exited { id: old(self)@.base.id }),
            final(self)@.base.phase == crate::session::Phase::Exited,
    {
        self.base.exit()
    }

    /// Handle `Generate` once the question repository answered, at time
    /// `now`: on success remember the questions' ids and the start time,
    /// and hand out the test under this session's id.
    pub fn handle_generate_at(
        &mut self,
        selected: Result<Vec<Question>, QuestionRepositoryError>,
        now: i64,
    ) -> (r: Result<Test, TestSessionError>)
        ensures
            selected matches Err(e) ==> final(self)@ == old(self)@ && r == Err::<Test, _>(
                TestSessionError::Generate { source: e },
            ),
            selected matches Ok(qs) ==> (r matches Ok(t) && t.spec_id() == old(self)@.base.id
                && t.spec_questions() == qs@) && final(self)@ == (TestSessionView {
                question_ids: Some(question_ids(qs@)),
                start_time: Some(now),
                ..old(self)@
            }),
    {
        match selected {
            Ok(questions) => {
                let ids = ids_of(&questions);
                self.question_ids = Some(ids);
                self.start_time = Some(now);
                Ok(Test::new(self.base.id(), questions))
            },
            Err(e) => Err(TestSessionError::Generate { source: e }),
        }
    }

    /// Handle `Generate` at the current time.
    pub fn handle_generate(&mut self, selected: Result<Vec<Question>, QuestionRepositoryError>) -> (r:
        Result<Test, TestSessionError>)
        ensures
            selected matches Err(e) ==> final(self)@ == old(self)@ && r == Err::<Test, _>(
                TestSessionError::Generate { source: e },
            ),
            selected matches Ok(qs) ==> (r matches Ok(t) && t.spec_id() == old(self)@.base.id
                && t.spec_questions() == qs@) && final(self)@.base == old(self)@.base
                && final(self)@.question_ids == Some(question_ids(qs@))
                && final(self)@.start_time is Some,
    {
        let now = now_millis();
        self.handle_generate_at(selected, now)
    }

    /// The first part of `Submit`: the test id must be this session's, and
    /// the test must have been generated. The remembered question ids are
    /// handed out and forgotten, so a test is submitted at most once. The
    /// session asks to end after this command, whatever its outcome.
    pub fn begin_submit(&mut self, test_id: Id) -> (r: Result<Vec<Id>, TestSessionError>)
        ensures
            final(self)@.base == (SessionView { exit_requested: true, ..old(self)@.base }),
            final(self)@.start_time == old(self)@.start_time,
            test_id != old(self)@.base.id ==> r == Err::<Vec<Id>, _>(
                TestSessionError::TestMismatched { expected: old(self)@.base.id, actual: test_id },
            ) && final(self)@.question_ids == old(self)@.question_ids,
            test_id == old(self)@.base.id && old(self)@.question_ids is None ==> (r matches Err(
                TestSessionError::NotStarted,
            )) && final(self)@.question_ids is None,
            test_id == old(self)@.base.id && old(self)@.question_ids is Some ==> (r matches Ok(
                ids,
            ) && Some(ids@) == old(self)@.question_ids) && final(self)@.question_ids is None,
    {
        self.base.request_exit();
        if test_id != self.base.id() {
            return Err(TestSessionError::TestMismatched { expected: self.base.id(), actual: test_id });
        }
        match self.question_ids.take() {
            Some(ids) => Ok(ids),
            None => Err(TestSessionError::NotStarted),
        }
    }

    /// The second part of `Submit`, once the questions were loaded again by
    /// id, at time `now`: grade the submission against them and compute the
    /// record to store. The start time is forgotten.
    pub fn grade_at(
        &mut self,
        test_id: Id,
        loaded: Result<Vec<Question>, QuestionRepositoryError>,
        submission: &Submission,
        now: i64,
    ) -> (r: Result<Record, TestSessionError>)
        ensures
            final(self)@.base == old(self)@.base,
            final(self)@.question_ids == old(self)@.question_ids,
            loaded matches Err(e) ==> r == Err::<Record, _>(
                TestSessionError::LoadQuestions { source: e },
            ) && final(self)@.start_time == old(self)@.start_time,
            loaded matches Ok(qs) ==> (r matches Ok(rec) && rec.score.wf()
                && rec.score.spec_hundredths() == score_of(correct_count(qs@, submission.pairs()), qs@.len())
                && rec.end_time == now && rec.duration == elapsed(old(self)@.start_time, now))
                && final(self)@.start_time is None,
    {
        match loaded {
            Err(e) => Err(TestSessionError::LoadQuestions { source: e }),
            Ok(questions) => {
                let test = Test::new(test_id, questions);
                let score = test.grade(submission);
                let duration: u64 = match self.start_time.take() {
                    Some(start) => {
                        if now >= start {
                            (now as i128 - start as i128) as u64
                        } else {
                            0
                        }
                    },
                    None => SESSION_EXPIRE_TIMEOUT_MS,
                };
                Ok(Record { score, end_time: now, duration })
            },
        }
    }

    /// The second part of `Submit` at the current time.
    pub fn grade(
        &mut self,
        test_id: Id,
        loaded: Result<Vec<Question>, QuestionRepositoryError>,
        submission: &Submission,
    ) -> (r: Result<Record, TestSessionError>)
        ensures
            final(self)@.base == old(self)@.base,
            final(self)@.question_ids == old(self)@.question_ids,
            loaded matches Err(e) ==> r == Err::<Record, _>(
                TestSessionError::LoadQuestions { source: e },
            ) && final(self)@.start_time == old(self)@.start_time,
            loaded matches Ok(qs) ==> (r matches Ok(rec) && rec.score.wf()
                && rec.score.spec_hundredths() == score_of(correct_count(qs@, submission.pairs()), qs@.len())
                && rec.duration == elapsed(old(self)@.start_time, rec.end_time))
                && final(self)@.start_time is None,
    {
        let now = now_millis();
        self.grade_at(test_id, loaded, submission, now)
    }

    /// The last part of `Submit`, once the score repository stored the
    /// record: the summary of the attempt.
    pub fn finish_submit(saved: Result<(), ScoreRepositoryError>, record: &Record) -> (r: Result<
        TestSummary,
        TestSessionError,
    >)
        ensures
            saved matches Err(e) ==> r == Err::<TestSummary, _>(
                TestSessionError::SaveScore { source: e },
            ),
            saved is Ok ==> r == Ok::<_, TestSessionError>(
                TestSummary { score: record.score, duration: record.duration },
            ),
    {
        match saved {
            Ok(()) => Ok(TestSummary { score: record.score, duration: record.duration }),
            Err(e) => Err(TestSessionError::SaveScore { source: e }),
        }
    }
}

} // verus!
