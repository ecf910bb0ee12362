use rep::policy::{
    check_rep, course, effective_mode, ensure_rep, require_rep, wrap_checks_in_fn, wrap_checks_in_impl,
    wrap_checks_in_impl_or_method, wrap_checks_in_method, CheckOption, EnforcementMode, ImplItem,
    Course, Item, ItemImpl, Method, OperationShape, Output, ReceiverAccess, Signature, WrapError, Wrapped,
};

fn option(prepend: bool, append: bool, return_self: bool) -> CheckOption {
    CheckOption { prepend, append, return_self }
}

fn shape(receiver_access: ReceiverAccess, produces_owner_instance: bool) -> OperationShape {
    OperationShape { receiver_access, produces_owner_instance }
}

fn path(segments: &[&str]) -> Output {
    Output::Path(segments.iter().map(|s| s.to_string()).collect())
}

fn sig(receiver: ReceiverAccess, output: Output) -> Signature {
    Signature { is_async: false, receiver, output }
}

fn method(public: bool, receiver: ReceiverAccess, output: Output) -> Method {
    Method { public, sig: sig(receiver, output) }
}

fn accesses() -> [ReceiverAccess; 3] {
    [ReceiverAccess::Absent, ReceiverAccess::Shared, ReceiverAccess::Exclusive]
}

#[test]
fn presets() {
    assert_eq!(
        EnforcementMode::before_only(),
        EnforcementMode { check_before: true, check_after: false, check_result: false }
    );
    assert_eq!(
        EnforcementMode::after_only(),
        EnforcementMode { check_before: false, check_after: true, check_result: true }
    );
    assert_eq!(
        EnforcementMode::both(),
        EnforcementMode { check_before: true, check_after: true, check_result: true }
    );
}

#[test]
fn receiver_that_cannot_change_is_never_checked() {
    for access in [ReceiverAccess::Absent, ReceiverAccess::Shared] {
        for produces in [false, true] {
            for bits in 0..8 {
                let requested = EnforcementMode {
                    check_before: bits & 1 != 0,
                    check_after: bits & 2 != 0,
                    check_result: bits & 4 != 0,
                };
                let o = effective_mode(shape(access, produces), requested);
                assert!(!o.prepend);
                assert!(!o.append);
                assert_eq!(o.return_self, produces && requested.check_result);
            }
        }
    }
}

#[test]
fn exclusive_receiver_gets_what_is_asked_for() {
    let s = shape(ReceiverAccess::Exclusive, false);
    assert_eq!(effective_mode(s, EnforcementMode::both()), option(true, true, false));
    assert_eq!(effective_mode(s, EnforcementMode::before_only()), option(true, false, false));
    assert_eq!(effective_mode(s, EnforcementMode::after_only()), option(false, true, false));
    let none = EnforcementMode { check_before: false, check_after: false, check_result: false };
    assert_eq!(effective_mode(s, none), option(false, false, false));
}

#[test]
fn exclusive_receiver_that_returns_an_instance() {
    let s = shape(ReceiverAccess::Exclusive, true);
    assert_eq!(effective_mode(s, EnforcementMode::both()), option(true, true, true));
    assert_eq!(effective_mode(s, EnforcementMode::before_only()), option(true, false, false));
    let result_only = EnforcementMode { check_before: false, check_after: false, check_result: true };
    assert_eq!(effective_mode(s, result_only), option(false, true, true));
    let before_and_result = EnforcementMode { check_before: true, check_after: false, check_result: true };
    assert_eq!(effective_mode(s, before_and_result), option(true, true, true));
}

#[test]
fn construction_is_checked_on_its_result() {
    let s = shape(ReceiverAccess::Absent, true);
    assert_eq!(effective_mode(s, EnforcementMode::both()), option(false, false, true));
    assert_eq!(effective_mode(s, EnforcementMode::after_only()), option(false, false, true));
    assert_eq!(effective_mode(s, EnforcementMode::before_only()), option(false, false, false));
}

#[test]
fn owner_is_the_path_self() {
    assert!(path(&["Self"]).names_owner(None));
    assert!(!path(&["Line"]).names_owner(None));
    assert!(!path(&["self"]).names_owner(None));
    assert!(!path(&["crate", "Self"]).names_owner(None));
    assert!(!path(&["Self", "Out"]).names_owner(None));
    assert!(!path(&[]).names_owner(None));
    assert!(!Output::Unit.names_owner(None));
    assert!(!Output::Other.names_owner(None));
}

#[test]
fn shape_of_a_header() {
    for access in accesses() {
        assert_eq!(sig(access, path(&["Self"])).operation_shape(None), shape(access, true));
        assert_eq!(sig(access, path(&["i32"])).operation_shape(None), shape(access, false));
        assert_eq!(sig(access, Output::Unit).operation_shape(None), shape(access, false));
    }
}

#[test]
fn only_public_functions_that_are_not_async_are_wrapped() {
    let s = sig(ReceiverAccess::Exclusive, Output::Unit);
    assert_eq!(wrap_checks_in_fn(false, &s, None, true, true, true), None);
    assert_eq!(wrap_checks_in_fn(true, &s, None, true, true, true), Some(option(true, true, false)));
    let a = Signature { is_async: true, receiver: ReceiverAccess::Exclusive, output: Output::Unit };
    assert_eq!(wrap_checks_in_fn(true, &a, None, true, true, true), None);
    assert_eq!(wrap_checks_in_fn(false, &a, None, true, true, true), None);
}

#[test]
fn checks_of_a_method() {
    let set = method(true, ReceiverAccess::Exclusive, path(&["i32"]));
    assert_eq!(wrap_checks_in_method(&set, None, true, true, true), Some(option(true, true, false)));
    assert_eq!(wrap_checks_in_method(&set, None, false, true, true), Some(option(false, true, false)));
    assert_eq!(wrap_checks_in_method(&set, None, true, false, false), Some(option(true, false, false)));
    let get = method(true, ReceiverAccess::Shared, path(&["i32"]));
    assert_eq!(wrap_checks_in_method(&get, None, true, true, true), Some(option(false, false, false)));
    let new = method(true, ReceiverAccess::Absent, path(&["Self"]));
    assert_eq!(wrap_checks_in_method(&new, None, true, true, true), Some(option(false, false, true)));
    assert_eq!(wrap_checks_in_method(&new, None, true, true, false), Some(option(false, false, false)));
    let private = method(false, ReceiverAccess::Exclusive, Output::Unit);
    assert_eq!(wrap_checks_in_method(&private, None, true, true, true), None);
}

fn block() -> ItemImpl {
    ItemImpl {
        self_ty: "Line".to_string(),
        items: vec![
            ImplItem::Method(method(true, ReceiverAccess::Absent, path(&["Self"]))),
            ImplItem::Other,
            ImplItem::Method(method(true, ReceiverAccess::Exclusive, path(&["i32"]))),
            ImplItem::Method(method(false, ReceiverAccess::Exclusive, Output::Unit)),
            ImplItem::Method(method(true, ReceiverAccess::Shared, Output::Other)),
        ],
    }
}

#[test]
fn checks_of_an_impl_block() {
    assert_eq!(
        wrap_checks_in_impl(&block(), true, true, true),
        vec![
            Some(option(false, false, true)),
            None,
            Some(option(true, true, false)),
            None,
            Some(option(false, false, false)),
        ]
    );
    assert_eq!(wrap_checks_in_impl(&ItemImpl { self_ty: "E".to_string(), items: Vec::new() }, true, true, true), Vec::new());
}

#[test]
fn checks_of_an_item() {
    assert_eq!(
        wrap_checks_in_impl_or_method(&Item::Impl(block()), false, true, true),
        Ok(Wrapped::Impl(vec![
            Some(option(false, false, true)),
            None,
            Some(option(false, true, false)),
            None,
            Some(option(false, false, false)),
        ]))
    );
    let f = Item::Fn(method(true, ReceiverAccess::Exclusive, Output::Unit));
    assert_eq!(
        wrap_checks_in_impl_or_method(&f, true, false, false),
        Ok(Wrapped::Fn(Some(option(true, false, false))))
    );
    assert_eq!(wrap_checks_in_impl_or_method(&Item::Other, true, true, true), Err(WrapError));
    assert_eq!(WrapError.message(), "expected impl block or func");
}

#[test]
fn the_three_attachments() {
    let f = Item::Fn(method(true, ReceiverAccess::Exclusive, path(&["Self"])));
    assert_eq!(check_rep(&f), Ok(Wrapped::Fn(Some(option(true, true, true)))));
    assert_eq!(require_rep(&f), Ok(Wrapped::Fn(Some(option(true, false, false)))));
    assert_eq!(ensure_rep(&f), Ok(Wrapped::Fn(Some(option(false, true, true)))));
    let new = Item::Fn(method(true, ReceiverAccess::Absent, path(&["Self"])));
    assert_eq!(check_rep(&new), Ok(Wrapped::Fn(Some(option(false, false, true)))));
    assert_eq!(require_rep(&new), Ok(Wrapped::Fn(Some(option(false, false, false)))));
    assert_eq!(ensure_rep(&new), Ok(Wrapped::Fn(Some(option(false, false, true)))));
    assert_eq!(check_rep(&Item::Other), Err(WrapError));
    assert_eq!(require_rep(&Item::Other), Err(WrapError));
    assert_eq!(ensure_rep(&Item::Other), Err(WrapError));
}

#[test]
fn owner_by_its_name() {
    assert!(path(&["Line"]).names_owner(Some("Line")));
    assert!(path(&["Self"]).names_owner(Some("Line")));
    assert!(!path(&["Point"]).names_owner(Some("Line")));
    assert!(!path(&["crate", "Line"]).names_owner(Some("Line")));
    assert!(!path(&[]).names_owner(Some("Line")));
    assert!(!Output::Unit.names_owner(Some("Line")));
    assert!(!Output::Other.names_owner(Some("Line")));
    for access in accesses() {
        assert_eq!(sig(access, path(&["Line"])).operation_shape(Some("Line")), shape(access, true));
        assert_eq!(sig(access, path(&["Line"])).operation_shape(Some("Point")), shape(access, false));
        assert_eq!(sig(access, path(&["Line"])).operation_shape(None), shape(access, false));
    }
}

#[test]
fn construction_that_names_the_owner_is_checked_on_its_result() {
    let new = method(true, ReceiverAccess::Absent, path(&["Line"]));
    assert_eq!(
        wrap_checks_in_method(&new, Some("Line"), true, true, true),
        Some(option(false, false, true))
    );
    assert_eq!(
        wrap_checks_in_fn(true, &new.sig, Some("Line"), true, true, true),
        Some(option(false, false, true))
    );
    assert_eq!(
        wrap_checks_in_method(&new, Some("Point"), true, true, true),
        Some(option(false, false, false))
    );
    assert_eq!(wrap_checks_in_method(&new, None, true, true, true), Some(option(false, false, false)));
    let block = ItemImpl {
        self_ty: "Line".to_string(),
        items: vec![
            ImplItem::Method(method(true, ReceiverAccess::Absent, path(&["Line"]))),
            ImplItem::Method(method(true, ReceiverAccess::Exclusive, path(&["Line"]))),
            ImplItem::Method(method(true, ReceiverAccess::Absent, path(&["Point"]))),
        ],
    };
    assert_eq!(
        check_rep(&Item::Impl(block)),
        Ok(Wrapped::Impl(vec![
            Some(option(false, false, true)),
            Some(option(true, true, true)),
            Some(option(false, false, false)),
        ]))
    );
}

#[test]
fn how_an_operation_is_run() {
    for produces in [false, true] {
        for result in [false, true] {
            let o = option(true, true, result);
            assert_eq!(course(shape(ReceiverAccess::Absent, produces), o), Course::Result);
            assert_eq!(course(shape(ReceiverAccess::Shared, produces), o), Course::Result);
            let expected = if result { Course::ReceiverAndResult } else { Course::Receiver };
            assert_eq!(course(shape(ReceiverAccess::Exclusive, produces), o), expected);
        }
    }
}
