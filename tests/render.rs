use gamify::client::create_request;
use gamify::commands::{chosen_respondent, inspect_step, InspectStep};
use gamify::model::{AnswerSet, Campaign, Failure, FreeAnswer, Respondent};
use gamify::render::{
    answer_lines, campaign_line, campaign_table, effective_width, respondent_heading,
    respondent_line, stats_line, Style,
};

fn campaign(id: i64, name: &str, when: &str) -> Campaign {
    Campaign::from_wire(id, name.to_string(), when, "img.png".to_string()).ok().unwrap()
}

fn respondent(id: i64, name: &str) -> Respondent {
    Respondent::from_wire(id, name.to_string(), "1990-01-02,08:00", "F".to_string()).ok().unwrap()
}

#[test]
fn table_has_one_row_per_campaign() {
    let cs = vec![
        campaign(1, "Spring Survey", "2024-05-01,10:00"),
        campaign(2, "A name far longer than thirty characters in all", "2024-06-01,11:00"),
        campaign(123456, "x", "2024-07-01,12:00"),
    ];
    let t = campaign_table(&cs, 10);
    assert_eq!(t.len(), 5);
    assert_eq!(t[0], "┌─ ID ──┬───────────── Name ─────────────┬────── Date ──────┐");
    assert_eq!(t[4], "└─ ID ──┴───────────── Name ─────────────┴────── Date ──────┘");
    for row in &t[1..4] {
        assert_eq!(row.chars().count(), 61);
    }
    assert_eq!(t[1], "│   1   │         Spring Survey          │ 2024-05-01 10:00 │");
    assert!(t[2].contains("A name far longer than thirty "));
    assert!(t[3].contains("12345"));
    assert!(!t[3].contains("123456"));
}

#[test]
fn empty_table_is_two_borders() {
    let t = campaign_table(&Vec::new(), 65);
    assert_eq!(t.len(), 2);
    assert_eq!(t[0].chars().count(), 65);
    assert!(t[0].starts_with("  ┌"));
    assert!(t[0].ends_with("┐  "));
}

#[test]
fn created_campaign_appears_in_listing() {
    let qs = vec!["Q1".to_string(), "Q2".to_string()];
    assert!(create_request("Spring Survey", "2024-05-01", "/tmp/spring.png", &qs).is_ok());
    let listed = vec![campaign(9, "Spring Survey", "2024-05-01,00:00")];
    let t = campaign_table(&listed, 61);
    assert!(t[1].contains("Spring Survey"));
    assert!(t[1].contains("2024-05-01"));
    assert_eq!(campaign_line(&listed[0]), t[1]);
}

#[test]
fn respondent_rows_and_heading() {
    let u = respondent(7, "ann");
    let row = respondent_line(&u);
    assert_eq!(row.chars().count(), 71);
    assert_eq!(
        row,
        "│   7   │              ann               │ 1990-01-02 08:00 │    F    │"
    );
    assert_eq!(respondent_heading().chars().count(), 73);
}

#[test]
fn inspect_with_nobody_reports_none_yet() {
    match inspect_step(false, &Ok(Vec::new())) {
        InspectStep::NoneYet(m) => assert_eq!(m, "No one answered yet!"),
        _ => panic!("expected none yet"),
    }
    match inspect_step(true, &Ok(Vec::new())) {
        InspectStep::NoneYet(m) => assert_eq!(m, "No one canceled yet!"),
        _ => panic!("expected none yet"),
    }
}

#[test]
fn inspect_with_respondents_offers_rows() {
    let us = vec![respondent(7, "ann"), respondent(8, "bob")];
    let expected = respondent_line(&us[1]);
    match inspect_step(false, &Ok(us)) {
        InspectStep::Pick(rows) => {
            assert_eq!(rows.len(), 2);
            assert_eq!(rows[1], expected);
        }
        _ => panic!("expected a picker"),
    }
    match inspect_step(false, &Err(Failure::Status(404))) {
        InspectStep::Failed(f) => assert_eq!(f, Failure::Status(404)),
        _ => panic!("expected a failure"),
    }
    let us = vec![respondent(7, "ann"), respondent(8, "bob")];
    assert_eq!(chosen_respondent(&us, 1), Some(8));
    assert_eq!(chosen_respondent(&us, 2), None);
}

#[test]
fn answers_view() {
    let a = AnswerSet::from_wire(
        vec![Some("25".to_string()), None, Some("High".to_string())],
        vec![
            FreeAnswer { question: "Why?".to_string(), content: "Because".to_string() },
            FreeAnswer { question: "How?".to_string(), content: "Well".to_string() },
        ],
    )
    .ok()
    .unwrap();
    assert_eq!(stats_line(&a), "Age: 25, Sex: N/A, Exp: High");
    let ls = answer_lines(&a, 30);
    assert_eq!(ls.len(), 11);
    assert_eq!(ls[0].text, "~~~~ Statistical answers ~~~~~");
    assert_eq!(ls[0].style, Style::Banner);
    assert_eq!(ls[1].text, " Age: 25, Sex: N/A, Exp: High ");
    assert_eq!(ls[1].style, Style::Stats);
    assert_eq!(ls[4].text.trim(), "Why?");
    assert_eq!(ls[4].style, Style::Question);
    assert_eq!(ls[5].text.trim(), "Because");
    assert_eq!(ls[6].text, " ".repeat(30));
    assert_eq!(ls[10].text, "~".repeat(30));
}

#[test]
fn answer_set_needs_three_slots() {
    assert!(matches!(AnswerSet::from_wire(vec![None, None], Vec::new()), Err(Failure::Payload)));
}

#[test]
fn width_falls_back() {
    assert_eq!(effective_width(None), 137);
    assert_eq!(effective_width(Some(80)), 80);
}
