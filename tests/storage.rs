use online_test::application::CoreError;
use online_test::id::Id;
use online_test::inbound::{ApiError, QueryRequest, QueryTarget};
use online_test::login::{LoginSessionError, QueryKind};
use online_test::question::{Question, TryNewQuestionError};
use online_test::repository::{QuestionRepositoryError, Record, ScoreRepositoryError};
use online_test::score::Score;
use online_test::storage::{
    check_selected, first_record, parse_decimal, questions_of, QuestionInsertion, QuestionRow,
    COMPLETION_KIND, MULTIPLE_SELECTION_KIND, SINGLE_SELECTION_KIND,
};
use online_test::answer::TryNewAnswerError;
use online_test::user::User;

fn options() -> Vec<String> {
    vec!["a".to_string(), "b".to_string(), "c".to_string(), "d".to_string()]
}

fn row(id: i32, insertion: QuestionInsertion) -> QuestionRow {
    QuestionRow {
        id,
        kind: insertion.kind,
        content: insertion.content,
        option0: insertion.option0,
        option1: insertion.option1,
        option2: insertion.option2,
        option3: insertion.option3,
        answer: insertion.answer,
    }
}

#[test]
fn parse_decimal_values() {
    assert_eq!(parse_decimal("0"), Some(0));
    assert_eq!(parse_decimal("4294967295"), Some(u32::MAX));
    assert_eq!(parse_decimal("4294967296"), None);
    assert_eq!(parse_decimal(""), None);
    assert_eq!(parse_decimal("1a"), None);
}

#[test]
fn single_selection_round_trip() {
    let insertion =
        QuestionInsertion::new_single_selection("content".to_string(), options(), 12).unwrap();
    assert_eq!(insertion.kind, SINGLE_SELECTION_KIND);
    assert_eq!(insertion.answer, "12");
    assert_eq!(insertion.option3.as_deref(), Some("d"));
    match row(5, insertion).into_question() {
        Some(Question::SingleSelection(q)) => {
            assert_eq!(q.id(), Id::from(5));
            assert_eq!(q.content(), "content");
            assert_eq!(q.options(), &options());
        }
        _ => unreachable!(),
    }
}

#[test]
fn multiple_selection_round_trip() {
    let insertion =
        QuestionInsertion::new_multiple_selection("content".to_string(), options(), vec![3, 1])
            .unwrap();
    assert_eq!(insertion.kind, MULTIPLE_SELECTION_KIND);
    assert_eq!(insertion.answer, "31");
    assert!(matches!(
        row(6, insertion).into_question(),
        Some(Question::MultipleSelection(_))
    ));
}

#[test]
fn completion_round_trip() {
    let insertion =
        QuestionInsertion::new_completion("content".to_string(), "answer".to_string()).unwrap();
    assert_eq!(insertion.kind, COMPLETION_KIND);
    assert_eq!(insertion.option0, None);
    let rows = vec![row(7, insertion)];
    let questions = questions_of(&rows).unwrap();
    assert_eq!(questions.len(), 1);
    assert_eq!(questions[0].id(), Id::from(7));
}

#[test]
fn insertions_are_validated() {
    assert!(matches!(
        QuestionInsertion::new_single_selection(String::new(), options(), 0),
        Err(QuestionRepositoryError::QuestionInvalid { source: TryNewQuestionError::ContentEmpty })
    ));
    assert!(matches!(
        QuestionInsertion::new_multiple_selection("c".to_string(), options(), vec![]),
        Err(QuestionRepositoryError::AnswerInvalid { source: TryNewAnswerError::OptionEmpty })
    ));
    assert!(matches!(
        QuestionInsertion::new_multiple_selection("c".to_string(), options(), vec![2, 2]),
        Err(QuestionRepositoryError::AnswerInvalid { source: TryNewAnswerError::OptionDuplicated })
    ));
    assert!(matches!(
        QuestionInsertion::new_multiple_selection("c".to_string(), vec![String::new()], vec![1]),
        Err(QuestionRepositoryError::QuestionInvalid { source: TryNewQuestionError::OptionEmpty })
    ));
    assert!(matches!(
        QuestionInsertion::new_completion("c".to_string(), String::new()),
        Err(QuestionRepositoryError::AnswerInvalid { source: TryNewAnswerError::ContentEmpty })
    ));
}

#[test]
fn malformed_rows_are_rejected() {
    let mut bad = row(
        1,
        QuestionInsertion::new_single_selection("content".to_string(), options(), 1).unwrap(),
    );
    bad.option2 = None;
    assert!(bad.into_question().is_none());
    bad.kind = 9;
    assert!(bad.into_question().is_none());
    let mut letters = row(
        2,
        QuestionInsertion::new_multiple_selection("content".to_string(), options(), vec![1])
            .unwrap(),
    );
    letters.answer = "x".to_string();
    assert!(letters.into_question().is_none());
    assert!(questions_of(&vec![letters]).is_none());
}

#[test]
fn insufficient_pool() {
    assert!(check_selected("completion", 12, 12).is_ok());
    match check_selected("completion", 12, 3) {
        Err(QuestionRepositoryError::Insufficient { which, expected, total }) => {
            assert_eq!(which, "completion");
            assert_eq!(expected, 12);
            assert_eq!(total, 3);
        }
        _ => unreachable!(),
    }
}

#[test]
fn first_record_or_not_found() {
    let user = User::try_new("user").unwrap();
    let best = Record { score: Score::try_new(9000).unwrap(), end_time: 5, duration: 7 };
    let other = Record { score: Score::try_new(100).unwrap(), end_time: 6, duration: 8 };
    assert_eq!(first_record(vec![best.clone(), other], &user).unwrap(), best);
    assert!(matches!(
        first_record(Vec::new(), &user),
        Err(ScoreRepositoryError::NotFound { user }) if user.inner() == "user"
    ));
}

#[test]
fn query_targets() {
    let request = |kind: &str| QueryRequest { login_id: 0, kind: kind.to_string() };
    assert_eq!(request("all").target(), QueryTarget::All);
    assert_eq!(request("latest").target(), QueryTarget::One(QueryKind::Latest));
    assert_eq!(request("best").target(), QueryTarget::One(QueryKind::Best));
    assert_eq!(request("").target(), QueryTarget::One(QueryKind::Best));
}

#[test]
fn api_errors() {
    let not_found = || CoreError::SessionNotFound { id: Id::from(1) };
    assert!(matches!(ApiError::from_session_call(not_found()), ApiError::NotLoggedIn));
    assert!(matches!(ApiError::from_submit(not_found()), ApiError::NotLoggedIn));
    assert!(matches!(ApiError::from_login(not_found()), ApiError::Unknown { .. }));
    let expired = CoreError::LoginSession {
        id: Id::from(1),
        source: LoginSessionError::SessionNotFound { id: Id::from(2) },
    };
    assert!(matches!(ApiError::from_submit(expired), ApiError::TestInvalidOrExpired));
    let other = CoreError::LoginSession { id: Id::from(1), source: LoginSessionError::NotLoggedIn };
    assert!(matches!(ApiError::from_submit(other), ApiError::Unknown { .. }));
    assert_eq!(ApiError::NotLoggedIn.message(), "Could not serve without logging in");
}
