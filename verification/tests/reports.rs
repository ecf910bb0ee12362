use rep::errors::RepErrors;
use rep::report::{fatal_from, quote_all, records_from, report, Outcome};

fn errors(messages: &[&str]) -> RepErrors {
    let mut e = RepErrors::new();
    for m in messages {
        e.add(m.to_string());
    }
    e
}

#[test]
fn new_collection_is_empty() {
    let e = RepErrors::new();
    assert!(e.is_empty());
    assert_eq!(e.len(), 0);
    assert_eq!(e.get(0), None);
}

#[test]
fn messages_are_kept_in_order() {
    let e = errors(&["b", "a", "b"]);
    assert!(!e.is_empty());
    assert_eq!(e.len(), 3);
    assert_eq!(e.get(0), Some(&"b".to_string()));
    assert_eq!(e.get(1), Some(&"a".to_string()));
    assert_eq!(e.get(2), Some(&"b".to_string()));
    assert_eq!(e.get(3), None);
}

#[test]
fn no_violation_is_silent() {
    assert_eq!(report(&RepErrors::new(), false), Outcome::Passed);
    assert_eq!(report(&RepErrors::new(), true), Outcome::Passed);
}

#[test]
fn without_a_sink_one_fatal_message() {
    assert_eq!(
        report(&errors(&["self.x must be 0, not 5"]), false),
        Outcome::Aborted(
            "representation invariant violated: RepErrors { errors: [\"self.x must be 0, not 5\"] }"
                .to_string()
        )
    );
    assert_eq!(
        report(&errors(&["one", "two", "three"]), false),
        Outcome::Aborted(
            "representation invariant violated: RepErrors { errors: [\"one\", \"two\", \"three\"] }"
                .to_string()
        )
    );
}

#[test]
fn with_a_sink_one_record_each() {
    assert_eq!(
        report(&errors(&["one", "two"]), true),
        Outcome::Reported(vec![
            "representation invariant violated: \"one\"".to_string(),
            "representation invariant violated: \"two\"".to_string(),
        ])
    );
}

#[test]
fn fatal_message_agrees_with_debug_formatting() {
    let messages = vec!["a \"quoted\" one".to_string(), "back\\slash".to_string(), "line\nbreak".to_string()];
    let e = errors(&["a \"quoted\" one", "back\\slash", "line\nbreak"]);
    let expected = format!("representation invariant violated: RepErrors {{ errors: {:?} }}", messages);
    assert_eq!(report(&e, false), Outcome::Aborted(expected));
}

#[test]
fn quoting_escapes() {
    let parts = quote_all(&errors(&["plain", "say \"hi\""]));
    assert_eq!(parts, vec!["\"plain\"".to_string(), "\"say \\\"hi\\\"\"".to_string()]);
    assert!(quote_all(&RepErrors::new()).is_empty());
}

#[test]
fn fatal_message_from_quoted_parts() {
    assert_eq!(
        fatal_from(&Vec::new()),
        "representation invariant violated: RepErrors { errors: [] }"
    );
    assert_eq!(
        fatal_from(&vec!["<a>".to_string()]),
        "representation invariant violated: RepErrors { errors: [<a>] }"
    );
    assert_eq!(
        fatal_from(&vec!["<a>".to_string(), "<b>".to_string(), "<c>".to_string()]),
        "representation invariant violated: RepErrors { errors: [<a>, <b>, <c>] }"
    );
}

#[test]
fn records_from_quoted_parts() {
    assert!(records_from(&Vec::new()).is_empty());
    assert_eq!(
        records_from(&vec!["<a>".to_string(), "<b>".to_string()]),
        vec![
            "representation invariant violated: <a>".to_string(),
            "representation invariant violated: <b>".to_string(),
        ]
    );
}

#[test]
fn fatal_message_holds_every_violation_in_order() {
    let e = errors(&["first", "second", "third"]);
    match report(&e, false) {
        Outcome::Aborted(message) => {
            let a = message.find("\"first\"").unwrap();
            let b = message.find("\"second\"").unwrap();
            let c = message.find("\"third\"").unwrap();
            assert!(a < b && b < c);
        }
        other => panic!("{:?}", other),
    }
}
