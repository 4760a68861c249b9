use gamify::resolver::{
    canceled_answer, past_answer, resolve_inspect, resolve_list, PendingInspect, PendingList,
};

fn words(ws: &[&str]) -> Vec<String> {
    ws.iter().map(|w| w.to_string()).collect()
}

#[test]
fn shortcut_takes_defaults_without_prompts() {
    for w in ["d", "default"] {
        let p = resolve_list(&words(&[w]));
        assert_eq!(p.prompt_count(), 0);
        assert_eq!(p.start.as_deref(), Some("0"));
        assert_eq!(p.size.as_deref(), Some("100"));
        assert_eq!(p.past, Some(false));
    }
}

#[test]
fn shortcut_keeps_values_given_before_it() {
    let p = resolve_list(&words(&["start", "5", "d", "size", "9"]));
    assert_eq!(p.start.as_deref(), Some("5"));
    assert_eq!(p.size.as_deref(), Some("100"));
    assert_eq!(p.past, Some(false));
}

#[test]
fn inline_values_and_stops() {
    let p = resolve_list(&words(&["past", "size", "25"]));
    assert_eq!(p.start, None);
    assert_eq!(p.size.as_deref(), Some("25"));
    assert_eq!(p.past, Some(true));
    assert_eq!(p.prompt_count(), 1);

    let again = resolve_list(&words(&["start", "5", "start", "6", "size", "1"]));
    assert_eq!(again.start.as_deref(), Some("5"));
    assert_eq!(again.size, None);

    let dangling = resolve_list(&words(&["size"]));
    assert_eq!(dangling.prompt_count(), 3);

    let unknown = resolve_list(&words(&["foo", "start", "1"]));
    assert_eq!(unknown.prompt_count(), 3);
}

#[test]
fn completion_prefers_the_line() {
    let p = PendingList { start: Some("5".to_string()), size: None, past: None };
    let a = p.complete("7".to_string(), "25".to_string(), "Y");
    assert_eq!(a.start, "5");
    assert_eq!(a.size, "25");
    assert!(a.past);

    let q = PendingList { start: None, size: None, past: Some(false) };
    let b = q.complete("0".to_string(), "100".to_string(), "yes");
    assert_eq!(b.start, "0");
    assert!(!b.past);
}

#[test]
fn past_and_canceled_answers() {
    assert!(past_answer("Y"));
    assert!(past_answer("True"));
    assert!(!past_answer("n"));
    assert!(!past_answer(""));
    assert!(canceled_answer("YES"));
    assert!(!canceled_answer("true"));
    assert!(!canceled_answer("n"));
}

#[test]
fn inspect_arguments() {
    let p = resolve_inspect(&words(&["12"]));
    assert_eq!(p.id.as_deref(), Some("12"));
    assert_eq!(p.canceled, Some(false));
    assert_eq!(p.prompt_count(), 0);

    let c = resolve_inspect(&words(&["12", "canceled"]));
    assert_eq!(c.canceled, Some(true));

    let none = resolve_inspect(&words(&[]));
    assert_eq!(none.prompt_count(), 2);
    let args = none.complete("4".to_string(), "y");
    assert_eq!(args.id, "4");
    assert!(args.canceled);

    let given = PendingInspect { id: Some("9".to_string()), canceled: Some(false) };
    let args = given.complete("4".to_string(), "y");
    assert_eq!(args.id, "9");
    assert!(!args.canceled);
}
