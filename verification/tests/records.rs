use rep::declare::{
    derive_check_indie_fields, Attribute, Data, DeriveInput, Derived, Field, FieldRule, Fields, Lit,
    Meta, NestedMeta,
};
use rep::enforce::{enforce, enforce_construction, enforce_producing, Enforced, Operation};
use rep::errors::RepErrors;
use rep::example::LinePredicates;
use rep::policy::{effective_mode, CheckOption, EnforcementMode, OperationShape, ReceiverAccess};
use rep::protocol::{CheckFields, CheckIndieFields, CheckRep};
use rep::record::{check_plan, find_part, find_value, NamedValue, Part, Record, SetValue};
use rep::report::Outcome;
use rep::rule::{ConstraintRule, NoPredicates, Relation};
use rep::value::Value;

fn messages(e: &RepErrors) -> Vec<String> {
    let mut out = Vec::new();
    let mut i = 0;
    while let Some(m) = e.get(i) {
        out.push(m.clone());
        i += 1;
    }
    out
}

fn named(name: &str, value: Value) -> NamedValue {
    NamedValue { name: name.to_string(), value }
}

fn on(field: &str, rule: ConstraintRule) -> FieldRule {
    FieldRule { field: field.to_string(), rule }
}

fn eq(i: i128) -> ConstraintRule {
    ConstraintRule::Literal(Relation::Eq, Value::Int(i))
}

fn point_rules() -> Derived {
    let input = DeriveInput {
        ident: "Point".to_string(),
        data: Data::Struct(Fields::Named(vec![
            Field {
                ident: Some("x".to_string()),
                ty: "i32".to_string(),
                attrs: vec![Attribute::List(
                    "rep".to_string(),
                    vec![NestedMeta::Meta(Meta::NameValue("assert_eq".to_string(), Lit::Int(0)))],
                )],
            },
            Field { ident: Some("y".to_string()), ty: "i32".to_string(), attrs: Vec::new() },
        ])),
    };
    derive_check_indie_fields(&input, &NoPredicates).unwrap()
}

fn point(x: i128, y: i128) -> Record<NoPredicates> {
    Record {
        plan: point_rules(),
        values: vec![named("x", Value::Int(x)), named("y", Value::Int(y))],
        parts: Vec::new(),
        table: NoPredicates,
    }
}

fn after_only() -> CheckOption {
    let shape = OperationShape { receiver_access: ReceiverAccess::Exclusive, produces_owner_instance: false };
    effective_mode(shape, EnforcementMode::after_only())
}

fn both() -> CheckOption {
    let shape = OperationShape { receiver_access: ReceiverAccess::Exclusive, produces_owner_instance: false };
    effective_mode(shape, EnforcementMode::both())
}

fn set(name: &str, i: i128) -> SetValue {
    SetValue { name: name.to_string(), value: Value::Int(i) }
}

#[test]
fn x_is_zero_then_set_to_five() {
    let mut p = point(0, 0);
    assert_eq!(p.check_rep(false), Outcome::Passed);
    assert!(p.rep_errors().is_empty());
    match enforce(&mut p, set("x", 5), after_only(), false) {
        Enforced::Aborted { message } => assert_eq!(
            message,
            "representation invariant violated: RepErrors { errors: [\"x must be 0, not 5\"] }"
        ),
        other => panic!("{:?}", other),
    }
    assert_eq!(messages(&p.rep_errors()), vec!["x must be 0, not 5".to_string()]);
}

#[test]
fn setter_passes_before_and_fails_after() {
    let mut p = point(0, 1);
    assert_eq!(
        enforce(&mut p, set("x", 5), both(), false),
        Enforced::Aborted {
            message: "representation invariant violated: RepErrors { errors: [\"x must be 0, not 5\"] }"
                .to_string()
        }
    );
    assert_eq!(p.values[0].value, Value::Int(5));
    let mut p = point(0, 1);
    assert_eq!(
        enforce(&mut p, set("x", 5), both(), true),
        Enforced::Returned {
            value: true,
            records: vec!["representation invariant violated: \"x must be 0, not 5\"".to_string()],
        }
    );
}

#[test]
fn setter_that_keeps_the_rule_returns_its_result() {
    let mut p = point(0, 1);
    assert_eq!(
        enforce(&mut p, set("y", 9), both(), false),
        Enforced::Returned { value: true, records: Vec::new() }
    );
    assert_eq!(p.values[1].value, Value::Int(9));
    assert_eq!(
        enforce(&mut p, set("z", 9), both(), false),
        Enforced::Returned { value: false, records: Vec::new() }
    );
    assert_eq!(p.values.len(), 2);
}

#[test]
fn failed_check_before_the_body_keeps_the_receiver() {
    let mut p = point(3, 1);
    assert_eq!(
        enforce(&mut p, set("x", 0), both(), false),
        Enforced::Aborted {
            message: "representation invariant violated: RepErrors { errors: [\"x must be 0, not 3\"] }"
                .to_string()
        }
    );
    assert_eq!(p.values[0].value, Value::Int(3));
    assert_eq!(
        enforce(&mut p, set("x", 0), both(), true),
        Enforced::Returned {
            value: true,
            records: vec!["representation invariant violated: \"x must be 0, not 3\"".to_string()],
        }
    );
    assert_eq!(p.values[0].value, Value::Int(0));
}

#[test]
fn operation_without_checks_is_not_checked() {
    let mut p = point(3, 1);
    let none = CheckOption { prepend: false, append: false, return_self: false };
    assert_eq!(
        enforce(&mut p, set("x", 4), none, false),
        Enforced::Returned { value: true, records: Vec::new() }
    );
    let shared = OperationShape { receiver_access: ReceiverAccess::Shared, produces_owner_instance: false };
    let option = effective_mode(shared, EnforcementMode::both());
    assert_eq!(
        enforce(&mut p, set("x", 5), option, false),
        Enforced::Returned { value: true, records: Vec::new() }
    );
}

fn segment(x1: i128, start: Record<LinePredicates>, end: Record<LinePredicates>) -> Record<LinePredicates> {
    Record {
        plan: Derived {
            rules: vec![
                on("x1", ConstraintRule::With("is_gt_zero".to_string())),
                on("x1", ConstraintRule::Literal(Relation::Le, Value::Int(40))),
            ],
            recurse: vec!["start".to_string(), "end".to_string()],
        },
        values: vec![named("x1", Value::Int(x1)), named("x1", Value::Int(1))],
        parts: vec![
            Part { name: "end".to_string(), record: end },
            Part { name: "start".to_string(), record: start },
        ],
        table: LinePredicates,
    }
}

fn end(x: i128) -> Record<LinePredicates> {
    Record {
        plan: Derived { rules: vec![on("x", eq(0)), on("x", ConstraintRule::Default)], recurse: Vec::new() },
        values: vec![named("x", Value::Int(x))],
        parts: Vec::new(),
        table: LinePredicates,
    }
}

#[test]
fn violations_of_parts_join_those_of_the_whole() {
    let s = segment(50, end(7), end(8));
    assert_eq!(
        messages(&s.rep_errors()),
        vec![
            "x1 must be <= 40, not 50".to_string(),
            "x must be 0, not 7".to_string(),
            "x must be default, not 7".to_string(),
            "x must be 0, not 8".to_string(),
            "x must be default, not 8".to_string(),
        ]
    );
    assert_eq!(
        s.check_rep(false),
        Outcome::Aborted(
            "representation invariant violated: RepErrors { errors: [\"x1 must be <= 40, not 50\", \"x must be 0, not 7\", \"x must be default, not 7\", \"x must be 0, not 8\", \"x must be default, not 8\"] }"
                .to_string()
        )
    );
}

#[test]
fn violation_of_a_part_alone() {
    let s = segment(5, end(0), end(-1));
    let mut e = RepErrors::new();
    e.add("before".to_string());
    s.check_indie_fields(&mut e);
    s.check_fields(&mut e);
    assert_eq!(
        messages(&e),
        vec![
            "before".to_string(),
            "x must be 0, not -1".to_string(),
            "x must be default, not -1".to_string(),
        ]
    );
    assert!(segment(5, end(0), end(0)).rep_errors().is_empty());
}

#[test]
fn parts_of_parts() {
    let inner = segment(0, end(1), end(0));
    let outer = Record {
        plan: Derived { rules: Vec::new(), recurse: vec!["inner".to_string()] },
        values: Vec::new(),
        parts: vec![Part { name: "inner".to_string(), record: inner }],
        table: LinePredicates,
    };
    assert_eq!(
        messages(&outer.rep_errors()),
        vec![
            "is_gt_zero(x1) must be true when x1 == 0".to_string(),
            "x must be 0, not 1".to_string(),
            "x must be default, not 1".to_string(),
        ]
    );
}

#[test]
fn first_of_a_name_counts() {
    let values = vec![named("a", Value::Int(1)), named("b", Value::Int(2)), named("a", Value::Int(3))];
    assert_eq!(find_value(&values, "a"), Some(0));
    assert_eq!(find_value(&values, "b"), Some(1));
    assert_eq!(find_value(&values, "c"), None);
    assert_eq!(find_value(&Vec::new(), "a"), None);
    let parts = vec![
        Part { name: "p".to_string(), record: end(0) },
        Part { name: "q".to_string(), record: end(0) },
        Part { name: "q".to_string(), record: end(1) },
    ];
    assert_eq!(find_part(&parts, "q"), Some(1));
    assert_eq!(find_part(&parts, "p"), Some(0));
    assert_eq!(find_part(&parts, "r"), None);
}

#[test]
fn rules_against_values() {
    let rules = vec![on("b", eq(0)), on("a", eq(0)), on("c", eq(0)), on("b", ConstraintRule::True)];
    let values = vec![named("a", Value::Int(1)), named("b", Value::Int(2))];
    let mut e = RepErrors::new();
    check_plan(&rules, &values, &NoPredicates, &mut e);
    assert_eq!(
        messages(&e),
        vec![
            "b must be 0, not 2".to_string(),
            "a must be 0, not 1".to_string(),
            "c has no value".to_string(),
            "b must be true".to_string(),
        ]
    );
}

#[test]
fn set_value_changes_the_first_of_its_name() {
    let mut r = end(4);
    r.values.push(named("x", Value::Int(6)));
    assert!(set("x", 0).run(&mut r));
    assert_eq!(r.values[0].value, Value::Int(0));
    assert_eq!(r.values[1].value, Value::Int(6));
    assert!(!set("y", 0).run(&mut r));
    assert_eq!(r.values.len(), 2);
}

#[test]
fn construction_with_an_invalid_field_fails() {
    let option = effective_mode(
        OperationShape { receiver_access: ReceiverAccess::Absent, produces_owner_instance: true },
        EnforcementMode::both(),
    );
    assert_eq!(option, CheckOption { prepend: false, append: false, return_self: true });
    match enforce_construction(|| point(5, 0), option, false) {
        Enforced::Aborted { message } => assert_eq!(
            message,
            "representation invariant violated: RepErrors { errors: [\"x must be 0, not 5\"] }"
        ),
        other => panic!("{:?}", other),
    }
    match enforce_construction(|| point(5, 0), option, true) {
        Enforced::Returned { value, records } => {
            assert_eq!(value.values[0].value, Value::Int(5));
            assert_eq!(records, vec!["representation invariant violated: \"x must be 0, not 5\"".to_string()]);
        }
        other => panic!("{:?}", other),
    }
    match enforce_construction(|| point(0, 0), option, false) {
        Enforced::Returned { value, records } => {
            assert_eq!(value.values[0].value, Value::Int(0));
            assert!(records.is_empty());
        }
        other => panic!("{:?}", other),
    }
    let unchecked = CheckOption { prepend: false, append: false, return_self: false };
    assert!(matches!(
        enforce_construction(|| point(5, 0), unchecked, false),
        Enforced::Returned { .. }
    ));
}

struct Split;

impl Operation<Record<NoPredicates>> for Split {
    type Output = Record<NoPredicates>;

    fn effect(&self, _: &Record<NoPredicates>, _: &Record<NoPredicates>, _: &Record<NoPredicates>) -> bool {
        true
    }

    fn run(self, receiver: &mut Record<NoPredicates>) -> Record<NoPredicates> {
        receiver.values[0].value = Value::Int(1);
        point(2, 0)
    }
}

#[test]
fn operation_that_returns_a_new_instance() {
    let shape = OperationShape { receiver_access: ReceiverAccess::Exclusive, produces_owner_instance: true };
    let all = effective_mode(shape, EnforcementMode::both());
    let mut p = point(0, 0);
    match enforce_producing(&mut p, Split, all, true) {
        Enforced::Returned { value, records } => {
            assert_eq!(value.values[0].value, Value::Int(2));
            assert_eq!(
                records,
                vec![
                    "representation invariant violated: \"x must be 0, not 1\"".to_string(),
                    "representation invariant violated: \"x must be 0, not 2\"".to_string(),
                ]
            );
        }
        other => panic!("{:?}", other),
    }
    let mut p = point(0, 0);
    match enforce_producing(&mut p, Split, all, false) {
        Enforced::Aborted { message } => assert!(message.contains("x must be 0, not 1")),
        other => panic!("{:?}", other),
    }
    let result_only = CheckOption { prepend: false, append: false, return_self: true };
    let mut p = point(0, 0);
    match enforce_producing(&mut p, Split, result_only, false) {
        Enforced::Aborted { message } => assert!(message.contains("x must be 0, not 2")),
        other => panic!("{:?}", other),
    }
    let before_only = CheckOption { prepend: true, append: false, return_self: false };
    let mut p = point(0, 0);
    assert!(matches!(enforce_producing(&mut p, Split, before_only, false), Enforced::Returned { .. }));
}

#[test]
fn rule_without_a_value_and_name_without_a_part() {
    let r = Record {
        plan: Derived {
            rules: vec![on("x", eq(0)), on("missing", ConstraintRule::Default), on("x", eq(1))],
            recurse: vec!["nowhere".to_string(), "end".to_string()],
        },
        values: vec![named("x", Value::Int(0))],
        parts: vec![Part { name: "end".to_string(), record: end(3) }],
        table: LinePredicates,
    };
    assert_eq!(
        messages(&r.rep_errors()),
        vec![
            "missing has no value".to_string(),
            "x must be 1, not 0".to_string(),
            "nowhere has no part".to_string(),
            "x must be 0, not 3".to_string(),
            "x must be default, not 3".to_string(),
        ]
    );
    assert!(matches!(r.check_rep(false), Outcome::Aborted(_)));
}

#[test]
fn integers_of_any_width_in_a_record() {
    let r = Record {
        plan: Derived {
            rules: vec![
                on("big", ConstraintRule::Literal(Relation::Eq, Value::Int(0))),
                on("big", ConstraintRule::Literal(Relation::Le, Value::Uint(u128::MAX))),
                on("big", ConstraintRule::Literal(Relation::Lt, Value::Int(-1))),
                on("c", ConstraintRule::Literal(Relation::Ge, Value::Char('b'))),
            ],
            recurse: Vec::new(),
        },
        values: vec![named("big", Value::Uint(u128::MAX)), named("c", Value::Char('a'))],
        parts: Vec::new(),
        table: NoPredicates,
    };
    assert_eq!(
        messages(&r.rep_errors()),
        vec![
            "big must be 0, not 340282366920938463463374607431768211455".to_string(),
            "big must be < -1, not 340282366920938463463374607431768211455".to_string(),
            "c must be >= b, not a".to_string(),
        ]
    );
}
