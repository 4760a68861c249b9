use gamify::config::{default_base_link, Config};
use gamify::client::{
    answers_request, create_request, delete_request, list_request, login_outcome, login_request,
    outcome, respondents_request, succeeded, Body, CreateError, LoginError, Method, Request,
};
use gamify::commands::{Offer, QuestionDraft};
use gamify::model::Failure;
use gamify::resolver::ListArgs;

fn query(r: &Request) -> Vec<(String, String)> {
    r.query.clone()
}

fn pairs(ps: &[(&str, &str)]) -> Vec<(String, String)> {
    ps.iter().map(|(a, b)| (a.to_string(), b.to_string())).collect()
}

fn questions(n: usize) -> Vec<String> {
    (0..n).map(|i| format!("Q{}", i + 1)).collect()
}

#[test]
fn login_request_sends_form() {
    let r = login_request("ale", "pw");
    assert_eq!(r.method, Method::Post);
    assert_eq!(r.path, "CheckLogin");
    match r.body {
        Body::Form(f) => assert_eq!(f, pairs(&[("username", "ale"), ("pwd", "pw")])),
        _ => panic!("expected a form"),
    }
}

#[test]
fn list_request_is_verbatim() {
    let args = ListArgs { start: "10".to_string(), size: "25".to_string(), past: true };
    let r = list_request(&args);
    assert_eq!(r.method, Method::Get);
    assert_eq!(r.path, "admin/listQuestionnaires");
    assert_eq!(query(&r), pairs(&[("start", "10"), ("size", "25"), ("past", "true")]));
    let d = ListArgs { start: "0".to_string(), size: "100".to_string(), past: false };
    assert_eq!(query(&list_request(&d)), pairs(&[("start", "0"), ("size", "100"), ("past", "false")]));
}

#[test]
fn create_with_six_questions() {
    let r = create_request("Spring Survey", "2024-05-01", "/tmp/a.png", &questions(6)).ok().unwrap();
    assert_eq!(r.method, Method::Post);
    assert_eq!(r.path, "admin/create");
    match r.body {
        Body::Multipart { fields, file_field, file_path } => {
            assert_eq!(fields.len(), 8);
            assert_eq!(fields[0], ("name".to_string(), "Spring Survey".to_string()));
            assert_eq!(fields[1], ("date".to_string(), "2024-05-01".to_string()));
            assert_eq!(fields[2], ("Question0".to_string(), "Q1".to_string()));
            assert_eq!(fields[7], ("Question5".to_string(), "Q6".to_string()));
            assert_eq!(file_field, "image");
            assert_eq!(file_path, "/tmp/a.png");
        }
        _ => panic!("expected a multipart body"),
    }
}

#[test]
fn create_refuses_a_seventh_question() {
    let r = create_request("n", "2024-05-01", "/tmp/a.png", &questions(7));
    assert!(matches!(r, Err(CreateError::TooManyQuestions)));
    assert!(create_request("n", "d", "i", &questions(0)).is_ok());
}

#[test]
fn draft_refuses_a_seventh_question() {
    let mut d = QuestionDraft::new();
    for q in questions(6) {
        assert_eq!(d.offer(q), Offer::Added);
    }
    assert!(d.is_full());
    assert_eq!(d.offer("Q7".to_string()), Offer::Full);
    assert_eq!(d.questions().len(), 6);
    assert_eq!(d.offer(String::new()), Offer::Ended);
    assert!(create_request("n", "d", "i", d.questions()).is_ok());
}

#[test]
fn draft_ends_on_empty_entry() {
    let mut d = QuestionDraft::new();
    assert_eq!(d.offer("Q1".to_string()), Offer::Added);
    assert_eq!(d.offer(String::new()), Offer::Ended);
    assert_eq!(d.questions(), &vec!["Q1".to_string()]);
    assert!(!d.is_full());
}

#[test]
fn delete_of_missing_campaign_fails_both_times() {
    let first = delete_request("41");
    let second = delete_request("41");
    assert_eq!(first.method, Method::Delete);
    assert_eq!(first.path, "admin/delete");
    assert_eq!(query(&first), pairs(&[("id", "41")]));
    assert_eq!(query(&first), query(&second));
    assert!(!succeeded(404));
    assert!(!succeeded(404));
    assert!(succeeded(200));
}

#[test]
fn respondents_request_picks_partition() {
    let done = respondents_request("7", false);
    assert_eq!(done.path, "admin/listQuestionnaireCompletedUsers");
    assert_eq!(query(&done), pairs(&[("id", "7"), ("start", "0"), ("size", "100")]));
    let canceled = respondents_request("7", true);
    assert_eq!(canceled.path, "admin/listQuestionnaireCanceledUsers");
}

#[test]
fn answers_request_names_both_ids() {
    let r = answers_request("7", 42);
    assert_eq!(r.path, "admin/getAnswers");
    assert_eq!(query(&r), pairs(&[("questionnaireId", "7"), ("userId", "42")]));
    assert_eq!(query(&answers_request("7", -3)), pairs(&[("questionnaireId", "7"), ("userId", "-3")]));
}

#[test]
fn outcome_by_status_and_payload() {
    assert_eq!(outcome(200, Some(5)), Ok(5));
    assert_eq!(outcome::<i32>(200, None), Err(Failure::Payload));
    assert_eq!(outcome(500, Some(5)), Err(Failure::Status(500)));
}

#[test]
fn login_with_good_and_bad_credentials() {
    let s = login_outcome(200, "/GamifyUser/admin").ok().unwrap();
    assert_eq!(s.role, "admin");
    assert!(s.is_admin());
    let plain = login_outcome(200, "user").ok().unwrap();
    assert_eq!(plain.role, "user");
    assert!(!plain.is_admin());
    assert!(matches!(login_outcome(401, "/GamifyUser/admin"), Err(LoginError::Rejected(401))));
}

#[test]
fn default_base_link_and_urls() {
    assert_eq!(default_base_link(), "http://localhost:8080/GamifyUser/");
    let c = Config {
        username: "ale".to_string(),
        password: "pw".to_string(),
        debug: false,
        history: false,
        base_link: default_base_link(),
    };
    assert_eq!(c.url("CheckLogin"), "http://localhost:8080/GamifyUser/CheckLogin");
}
