use online_test::answer::TryNewAnswerError;
use online_test::id::Id;
use online_test::inbound::{
    AnswerVariant, AnswerWithId, LoginRequest, LoginResponse, StartRequest, SubmitRequest,
};
use online_test::user::TryNewUserError;

#[test]
fn login_request_checks_name() {
    let ok = LoginRequest { username: "user".to_string() };
    assert_eq!(ok.user().unwrap().inner(), "user");
    let bad = LoginRequest { username: "invalid!".to_string() };
    assert!(matches!(bad.user(), Err(TryNewUserError::Invalid)));
    let empty = LoginRequest { username: String::new() };
    assert!(matches!(empty.user(), Err(TryNewUserError::Empty)));
    let response = LoginResponse { login_id: 3 };
    assert_eq!(response.login_id, 3);
    let start = StartRequest { login_id: 3 };
    assert_eq!(start.login_id, 3);
}

#[test]
fn submit_request_builds_submission() {
    let request = SubmitRequest {
        login_id: 1,
        test_id: 1,
        answers: vec![
            AnswerWithId {
                id: 0,
                answer: AnswerVariant::MultipleSelection { answer: vec![3, 0] },
            },
            AnswerWithId {
                id: 1,
                answer: AnswerVariant::Completion { answer: "aa".to_string() },
            },
            AnswerWithId {
                id: 2,
                answer: AnswerVariant::SingleSelection { answer: 2 },
            },
        ],
    };
    let submission = request.submission().unwrap();
    assert!(submission.get(Id::from(0)).is_some());
    assert!(submission.get(Id::from(1)).is_some());
    assert!(submission.get(Id::from(2)).is_some());
    assert!(submission.get(Id::from(3)).is_none());
}

#[test]
fn submit_request_rejects_duplicated_option() {
    let request = SubmitRequest {
        login_id: 1,
        test_id: 1,
        answers: vec![
            AnswerWithId {
                id: 0,
                answer: AnswerVariant::SingleSelection { answer: 1 },
            },
            AnswerWithId {
                id: 1,
                answer: AnswerVariant::MultipleSelection { answer: vec![1, 1] },
            },
        ],
    };
    assert!(matches!(request.submission(), Err(TryNewAnswerError::OptionDuplicated)));
}

#[test]
fn ttt() {
    let s = SubmitRequest {
        login_id: 1,
        test_id: 1,
        answers: vec![
            AnswerWithId {
                id: 0,
                answer: AnswerVariant::MultipleSelection { answer: vec![0] },
            },
            AnswerWithId {
                id: 1,
                answer: AnswerVariant::Completion {
                    answer: "aa".into(),
                },
            },
        ],
    };
    println!("{:?}", s);
    println!("{:?}", s.submission());
}
