use gamify::model::{split_pair, Campaign, Failure, Respondent};
use gamify::text::{cell_center, cell_right_aligned, center, decimal_text, signed_decimal_text};
use gamify::tokens::tokenize;

#[test]
fn decimal_of_zero_and_more() {
    assert_eq!(decimal_text(0), "0");
    assert_eq!(decimal_text(7), "7");
    assert_eq!(decimal_text(1234), "1234");
    assert_eq!(decimal_text(u64::MAX), "18446744073709551615");
}

#[test]
fn signed_decimal_of_extremes() {
    assert_eq!(signed_decimal_text(-3), "-3");
    assert_eq!(signed_decimal_text(42), "42");
    assert_eq!(signed_decimal_text(i64::MIN), "-9223372036854775808");
}

#[test]
fn center_puts_odd_fill_right() {
    assert_eq!(center("ab", 7, "~"), "~~ab~~~");
    assert_eq!(center("ab", 6, " "), "  ab  ");
    assert_eq!(center("abcdef", 3, " "), "abcdef");
    assert_eq!(center("", 3, "~"), "~~~");
}

#[test]
fn cells_cut_and_pad() {
    assert_eq!(cell_center("12", 5), " 12  ");
    assert_eq!(cell_center("abcdefgh", 5), "abcde");
    assert_eq!(cell_right_aligned("ab", 5), "   ab");
    assert_eq!(cell_right_aligned("2024-05-01 10:00:00", 16), "2024-05-01 10:00");
    assert_eq!(cell_center("é", 3).chars().count(), 3);
}

#[test]
fn tokenize_skips_runs_of_blanks() {
    let t = tokenize("  list  start 5\tsize 10 ");
    assert_eq!(t, vec!["list", "start", "5", "size", "10"]);
    assert!(tokenize("").is_empty());
    assert!(tokenize("   ").is_empty());
}

#[test]
fn split_pair_needs_exactly_one_comma() {
    let (a, b) = split_pair("2024-05-01,10:00").unwrap();
    assert_eq!(a, "2024-05-01");
    assert_eq!(b, "10:00");
    let (a, b) = split_pair(",").unwrap();
    assert_eq!(a, "");
    assert_eq!(b, "");
    assert!(split_pair("a,b,c").is_none());
    assert!(split_pair("2024-05-01").is_none());
}

#[test]
fn campaign_from_wire_checks_fields() {
    let c = Campaign::from_wire(3, "Spring".to_string(), "2024-05-01,09:30", "img.png".to_string())
        .ok()
        .unwrap();
    assert_eq!(c.id, 3);
    assert_eq!(c.date, "2024-05-01");
    assert_eq!(c.time, "09:30");
    let neg = Campaign::from_wire(-1, "x".to_string(), "a,b", "i".to_string());
    assert!(matches!(neg, Err(Failure::Payload)));
    let bad = Campaign::from_wire(1, "x".to_string(), "a b", "i".to_string());
    assert!(matches!(bad, Err(Failure::Payload)));
}

#[test]
fn respondent_from_wire_checks_birth() {
    let u = Respondent::from_wire(-2, "ann".to_string(), "1990-01-02,00:00", "F".to_string())
        .ok()
        .unwrap();
    assert_eq!(u.id, -2);
    assert_eq!(u.birth_date, "1990-01-02");
    assert_eq!(u.birth_time, "00:00");
    assert!(matches!(
        Respondent::from_wire(1, "b".to_string(), "1990", "M".to_string()),
        Err(Failure::Payload)
    ));
}
