use online_test::answer::{
    Answer, CompletionAnswer, MultipleSelectionAnswer, SingleSelectionAnswer, StandardSource,
    SubmissionSource,
};
use online_test::application::{from_session, Core, CoreError};
use online_test::id::{Id, SequentialIdAllocator};
use online_test::login::{LoginSession, LoginSessionError};
use online_test::question::{
    CompletionQuestion, MultipleSelectionQuestion, Question, SingleSelectionQuestion,
};
use online_test::repository::{QuestionRepositoryError, Record, ScoreRepositoryError};
use online_test::score::Score;
use online_test::session::{Event, Phase, Report, SessionBase, Step};
use online_test::test::{Submission, Test};
use online_test::test_session::{TestSession, TestSessionError, TestSummary};
use online_test::user::User;

fn new_login_session() -> (LoginSession, SequentialIdAllocator) {
    let mut allocator = SequentialIdAllocator::new();
    let base = SessionBase::new(&mut allocator);
    (LoginSession::new(base), allocator)
}

fn new_test_session() -> TestSession {
    let mut allocator = SequentialIdAllocator::new();
    TestSession::new(SessionBase::new(&mut allocator))
}

fn record() -> Record {
    Record {
        score: Score::try_new(10000).unwrap(),
        end_time: 0,
        duration: 0,
    }
}

fn option_texts() -> Vec<String> {
    vec![
        "option a".to_string(),
        "option b".to_string(),
        "option c".to_string(),
        "option d".to_string(),
    ]
}

fn new_questions() -> Vec<Question> {
    vec![
        Question::SingleSelection(
            SingleSelectionQuestion::try_new(
                Id::from(0),
                "0. Single-selection".to_string(),
                option_texts(),
                SingleSelectionAnswer::<StandardSource>::try_new(0).unwrap(),
            )
            .unwrap(),
        ),
        Question::SingleSelection(
            SingleSelectionQuestion::try_new(
                Id::from(1),
                "1. Single-selection".to_string(),
                option_texts(),
                SingleSelectionAnswer::<StandardSource>::try_new(1).unwrap(),
            )
            .unwrap(),
        ),
        Question::MultipleSelection(
            MultipleSelectionQuestion::try_new(
                Id::from(2),
                "2. Multiple-selection".to_string(),
                option_texts(),
                MultipleSelectionAnswer::<StandardSource>::try_new(vec![2, 3]).unwrap(),
            )
            .unwrap(),
        ),
        Question::Completion(
            CompletionQuestion::try_new(
                Id::from(3),
                "3. Completion".to_string(),
                CompletionAnswer::<StandardSource>::try_new("answer").unwrap(),
            )
            .unwrap(),
        ),
    ]
}

fn new_submission() -> Submission {
    let answers: Vec<Answer<SubmissionSource>> = vec![
        Answer::SingleSelection(SingleSelectionAnswer::<SubmissionSource>::try_new(0).unwrap()),
        Answer::SingleSelection(SingleSelectionAnswer::<SubmissionSource>::try_new(0).unwrap()),
        Answer::MultipleSelection(
            MultipleSelectionAnswer::<SubmissionSource>::try_new(vec![2, 3]).unwrap(),
        ),
        Answer::Completion(CompletionAnswer::<SubmissionSource>::try_new("answer").unwrap()),
    ];
    Submission::new(
        answers
            .into_iter()
            .enumerate()
            .map(|(i, a)| (Id::from(i), a))
            .collect(),
    )
}

/// Drives a whole `Submit` through a test session at a fixed time.
fn submit(
    session: &mut TestSession,
    test_id: Id,
    questions: Vec<Question>,
    submission: &Submission,
    now: i64,
) -> Result<TestSummary, TestSessionError> {
    let ids = session.begin_submit(test_id)?;
    assert_eq!(ids.len(), questions.len());
    let record = session.grade_at(test_id, Ok(questions), submission, now)?;
    TestSession::finish_submit(Ok(()), &record)
}

#[test]
fn session_handle() {
    let (mut session, mut allocator) = new_login_session();
    session.handle_login(User::try_new("user").unwrap()).unwrap();
    let first = session.handle_start(&mut allocator).unwrap();
    let second = session.handle_start(&mut allocator).unwrap();
    assert_eq!(first.id(), Id::from(1));
    assert_eq!(second.id(), Id::from(2));
    assert_eq!(session.base().children(), &vec![Id::from(1), Id::from(2)]);
    assert_eq!(session.on_event(Event::Handled), Step::Continue);
    assert_eq!(session.on_event(Event::ChildExited(Id::from(1))), Step::Continue);
    assert_eq!(session.base().children(), &vec![Id::from(2)]);
}

#[test]
fn session_cancel() {
    let (mut session, mut allocator) = new_login_session();
    session.handle_login(User::try_new("user").unwrap()).unwrap();
    session.handle_start(&mut allocator).unwrap();
    session.handle_start(&mut allocator).unwrap();

    assert_eq!(
        session.on_event(Event::Cancel),
        Step::CancelChildren(vec![Id::from(1), Id::from(2)])
    );
    // No more children once cancellation began.
    let mut base = SessionBase::new(&mut allocator);
    let mut child_allocator = SequentialIdAllocator::new();
    assert!(base.spawn(&mut child_allocator).is_some());
    assert_eq!(base.on_event(Event::Cancel), Step::CancelChildren(vec![Id::from(0)]));
    assert!(base.spawn(&mut child_allocator).is_none());

    assert_eq!(session.on_event(Event::CancelsSent(2)), Step::Continue);
    assert_eq!(session.on_event(Event::ChildExited(Id::from(1))), Step::Continue);
    assert_eq!(session.on_event(Event::ChildExited(Id::from(2))), Step::Finalize);
    assert_eq!(session.finalize(), Report::Exited { id: Id::from(0) });
    assert_eq!(session.base().phase(), Phase::Exited);
}

#[test]
fn session_cancel_times_out() {
    let (mut session, mut allocator) = new_login_session();
    session.handle_login(User::try_new("user").unwrap()).unwrap();
    session.handle_start(&mut allocator).unwrap();
    session.handle_start(&mut allocator).unwrap();
    session.handle_start(&mut allocator).unwrap();

    match session.on_event(Event::Cancel) {
        Step::CancelChildren(children) => assert_eq!(children.len(), 3),
        _ => unreachable!(),
    }
    assert_eq!(session.on_event(Event::CancelsSent(3)), Step::Continue);
    assert_eq!(session.on_event(Event::ChildExited(Id::from(2))), Step::Continue);
    assert_eq!(session.base().phase(), Phase::Draining { awaiting: 2 });
    assert_eq!(session.on_event(Event::CancelTimeout), Step::Finalize);
    assert_eq!(session.finalize(), Report::Exited { id: Id::from(0) });
}

#[test]
fn session_cancel_without_children() {
    let (mut session, _) = new_login_session();
    assert_eq!(session.on_event(Event::Cancel), Step::CancelChildren(Vec::new()));
    assert_eq!(session.on_event(Event::CancelsSent(0)), Step::Finalize);
    assert_eq!(session.finalize(), Report::Exited { id: Id::from(0) });
}

#[test]
fn session_expired() {
    let (mut session, mut allocator) = new_login_session();
    session.handle_login(User::try_new("user").unwrap()).unwrap();
    session.handle_start(&mut allocator).unwrap();
    assert_eq!(
        session.on_event(Event::Expired),
        Step::CancelChildren(vec![Id::from(1)])
    );
    assert_eq!(session.on_event(Event::CancelsSent(1)), Step::Continue);
    assert_eq!(session.on_event(Event::CancelTimeout), Step::Finalize);
    assert!(matches!(session.finalize(), Report::Exited { id } if id == Id::from(0)));
}

#[test]
fn session_reports_closed_ends_loop() {
    let (mut session, _) = new_login_session();
    assert_eq!(session.on_event(Event::ReportsClosed), Step::Finalize);
    assert_eq!(session.base().phase(), Phase::Finalizing);
}

#[test]
fn test_session_exits_after_submit() {
    let mut session = new_test_session();
    let id = session.id();
    session.handle_generate_at(Ok(Vec::new()), 0).unwrap();
    submit(&mut session, id, Vec::new(), &new_submission(), 0).unwrap();
    assert_eq!(session.on_event(Event::Handled), Step::Finalize);
    assert_eq!(session.finalize(), Report::Exited { id });
}

#[test]
fn login_session_start_submit() {
    let (mut session, mut allocator) = new_login_session();

    let user = User::try_new("user").unwrap();
    session.handle_login(user).unwrap();

    let id = Id::from(1);
    let mut child = session.handle_start(&mut allocator).unwrap();
    let res = LoginSession::finish_start(child.handle_generate_at(Ok(Vec::new()), 1000)).unwrap();
    assert_eq!(res, Test::new(id, Vec::new()));

    let forwarded = session.handle_submit(id).unwrap();
    assert_eq!(forwarded.inner(), "user");
    let res = LoginSession::finish_submit(submit(
        &mut child,
        id,
        Vec::new(),
        &Submission::new(Vec::new()),
        1000,
    ))
    .unwrap();
    assert_eq!(
        res,
        TestSummary {
            score: Score::try_new(10000).unwrap(),
            duration: 0,
        }
    );
}

#[test]
fn login_session_query() {
    let (mut session, _) = new_login_session();

    let user = User::try_new("user").unwrap();
    session.handle_login(user).unwrap();

    assert_eq!(session.handle_query().unwrap().inner(), "user");
    assert_eq!(LoginSession::finish_query(Ok(record())).unwrap(), record());
    assert_eq!(
        LoginSession::finish_query_all(Ok(vec![record()])).unwrap(),
        vec![record()]
    );
    let missing = ScoreRepositoryError::NotFound { user: User::try_new("user").unwrap() };
    assert!(matches!(
        LoginSession::finish_query(Err(missing)),
        Err(LoginSessionError::Query { source: ScoreRepositoryError::NotFound { .. } })
    ));
}

#[test]
fn login_session_already_logged_in() {
    let (mut session, _) = new_login_session();

    let user = User::try_new("user").unwrap();
    session.handle_login(user).unwrap();

    let user2 = User::try_new("user2").unwrap();
    match session.handle_login(user2) {
        Err(LoginSessionError::AlreadyLoggedIn { previous }) => assert_eq!(previous.inner(), "user"),
        _ => unreachable!(),
    }
    assert_eq!(session.handle_query().unwrap().inner(), "user");
}

#[test]
fn login_session_not_logged_in() {
    {
        let (mut session, mut allocator) = new_login_session();
        assert!(matches!(
            session.handle_start(&mut allocator),
            Err(LoginSessionError::NotLoggedIn),
        ));
        assert!(session.base().children().is_empty());
    }

    {
        let (session, _) = new_login_session();
        assert!(matches!(
            session.handle_submit(Id::from(1)),
            Err(LoginSessionError::NotLoggedIn),
        ));
    }

    {
        let (session, _) = new_login_session();
        assert!(matches!(
            session.handle_query(),
            Err(LoginSessionError::NotLoggedIn),
        ));
    }
}

#[test]
fn login_session_session_not_found() {
    let (mut session, mut allocator) = new_login_session();

    let user = User::try_new("user").unwrap();
    session.handle_login(user).unwrap();

    session.handle_start(&mut allocator).unwrap();

    assert!(matches!(
        session.handle_submit(Id::from(2)),
        Err(LoginSessionError::SessionNotFound { id }) if id == Id::from(2)
    ));
}

#[test]
fn handle_generate_submit() {
    let mut session = new_test_session();
    let id = session.id();

    let actual = session.handle_generate(Ok(new_questions())).unwrap();
    let expected = Test::new(id, new_questions());
    assert_eq!(actual, expected);

    let ids = session.begin_submit(id).unwrap();
    assert_eq!(ids, vec![Id::from(0), Id::from(1), Id::from(2), Id::from(3)]);
    let record = session.grade(id, Ok(new_questions()), &new_submission()).unwrap();
    let actual = TestSession::finish_submit(Ok(()), &record).unwrap();
    assert_eq!(actual.score, Score::try_new(7500).unwrap());
}

#[test]
fn handle_not_started() {
    let mut session = new_test_session();
    let id = session.id();

    assert!(matches!(
        session.begin_submit(id),
        Err(TestSessionError::NotStarted),
    ));
}

#[test]
fn handle_test_mismatched() {
    let mut session = new_test_session();
    let id = session.id();

    let actual = session.handle_generate_at(Ok(new_questions()), 0).unwrap();
    let expected = Test::new(id, new_questions());
    assert_eq!(actual, expected);

    match session.begin_submit(Id::from(1)) {
        Err(TestSessionError::TestMismatched { expected, actual }) => {
            assert_eq!(expected.inner(), 0);
            assert_eq!(actual.inner(), 1);
        }
        _ => unreachable!(),
    }
}

#[test]
fn submit_twice_is_not_started() {
    let mut session = new_test_session();
    let id = session.id();
    session.handle_generate_at(Ok(new_questions()), 0).unwrap();
    assert!(session.begin_submit(id).is_ok());
    assert!(matches!(session.begin_submit(id), Err(TestSessionError::NotStarted)));
}

#[test]
fn grade_measures_duration() {
    let mut session = new_test_session();
    let id = session.id();
    session.handle_generate_at(Ok(new_questions()), 1_000).unwrap();
    let summary = submit(&mut session, id, new_questions(), &new_submission(), 61_000).unwrap();
    assert_eq!(summary.duration, 60_000);
    assert_eq!(summary.score.inner(), 7500);
}

#[test]
fn grade_clock_going_back_is_zero() {
    let mut session = new_test_session();
    let id = session.id();
    session.handle_generate_at(Ok(Vec::new()), 5_000).unwrap();
    let summary = submit(&mut session, id, Vec::new(), &new_submission(), 1_000).unwrap();
    assert_eq!(summary.duration, 0);
}

#[test]
fn repository_errors_are_wrapped() {
    let mut session = new_test_session();
    let id = session.id();
    let insufficient = QuestionRepositoryError::Insufficient {
        which: "completion".to_string(),
        expected: 12,
        total: 3,
    };
    assert!(matches!(
        session.handle_generate_at(Err(insufficient), 0),
        Err(TestSessionError::Generate { source: QuestionRepositoryError::Insufficient { expected: 12, total: 3, .. } })
    ));
    // A failed generation leaves the test not started.
    assert!(matches!(session.begin_submit(id), Err(TestSessionError::NotStarted)));

    let mut session = new_test_session();
    let id = session.id();
    session.handle_generate_at(Ok(Vec::new()), 0).unwrap();
    session.begin_submit(id).unwrap();
    let missing = QuestionRepositoryError::NotFound { id: Id::from(4) };
    assert!(matches!(
        session.grade_at(id, Err(missing), &new_submission(), 0),
        Err(TestSessionError::LoadQuestions { .. })
    ));
    let failed = ScoreRepositoryError::Unknown { message: "disk full".to_string() };
    assert!(matches!(
        TestSession::finish_submit(Err(failed), &record()),
        Err(TestSessionError::SaveScore { .. })
    ));
    assert!(matches!(
        LoginSession::finish_start(Err(TestSessionError::NotStarted)),
        Err(LoginSessionError::Test { source: TestSessionError::NotStarted })
    ));
}

#[test]
fn select_count_composition() {
    let count = TestSession::select_count();
    assert_eq!(count.single_selection, 8);
    assert_eq!(count.multiple_selection, 8);
    assert_eq!(count.completion, 12);
}

#[test]
fn core_logins_get_increasing_ids() {
    let mut core: Core<&'static str> = Core::new();
    let (first, reply) = core.login(User::try_new("alice").unwrap(), "first");
    assert_eq!(reply.unwrap(), Id::from(0));
    assert_eq!(first.id(), Id::from(0));
    let (_, reply) = core.login(User::try_new("alice").unwrap(), "second");
    assert_eq!(reply.unwrap(), Id::from(1));
    assert_eq!(core.lookup(Id::from(1)).ok(), Some(&"second"));
}

#[test]
fn core_lookup_and_reap() {
    let mut core: Core<u8> = Core::new();
    let (mut session, _) = core.login(User::try_new("bob").unwrap(), 7);
    assert_eq!(core.lookup(Id::from(0)).ok(), Some(&7));
    assert!(matches!(core.lookup(Id::from(3)), Err(CoreError::SessionNotFound { id }) if id == Id::from(3)));

    let test = core.spawn_test(&mut session).unwrap();
    assert_eq!(test.id(), Id::from(1));

    core.reap(Id::from(0));
    assert!(matches!(core.lookup(Id::from(0)), Err(CoreError::SessionNotFound { .. })));

    let (_, reply) = core.login(User::try_new("bob").unwrap(), 8);
    assert_eq!(reply.unwrap(), Id::from(2));

    let wrapped = from_session::<Id>(Id::from(2), Err(LoginSessionError::NotLoggedIn));
    assert!(matches!(
        wrapped,
        Err(CoreError::LoginSession { id, source: LoginSessionError::NotLoggedIn }) if id == Id::from(2)
    ));
}
