//! A line between two points, checked: a worked example of the protocol,
//! written by hand, and of operations that run with their checks. Its
//! messages call a field as the code does, `self.x1`.

use vstd::prelude::*;
use vstd::string::StringExecFns;
use crate::enforce::{enforce, enforce_construction, enforced, Enforced, Operation};
use crate::errors::RepErrors;
use crate::policy::{effective_mode, CheckOption, EnforcementMode, OperationShape, ReceiverAccess};
use crate::protocol::{rep_violations, CheckFields, CheckIndieFields, CheckRep};
use crate::report::{abort_message, records_of};
use crate::rule::{
    check_rule, lemma_one_rule, rule_violations, ConstraintRule, NoPredicates, PredicateTable,
    Relation, RuleView,
};
use crate::text::{str_eq, texts};
use crate::value::{Value, ValueView};

verus! {

/// Whether `num` is above zero.
pub fn is_gt_zero(num: i32) -> (yes: bool)
    ensures
        yes == (num > 0),
{
    num > 0
}

/// The predicates that the rules of [`Line`] name: `is_gt_zero`, on integers.
#[derive(Debug, Clone, Copy)]
pub struct LinePredicates;

impl PredicateTable for LinePredicates {
    open spec fn resolves(&self, name: Seq<char>) -> bool {
        name == "is_gt_zero"@
    }

    open spec fn accepts(&self, name: Seq<char>, value: ValueView) -> bool {
        name == "is_gt_zero"@ && (value matches ValueView::Int(n) && n > 0)
    }

    fn has(&self, name: &str) -> (known: bool) {
        str_eq(name, "is_gt_zero")
    }

    fn call(&self, name: &str, value: &Value) -> (accepted: bool) {
        if !str_eq(name, "is_gt_zero") {
            return false;
        }
        match value {
            Value::Int(n) => {
                if -2147483648 <= *n && *n <= 2147483647 {
                    is_gt_zero(*n as i32)
                } else {
                    *n > 0
                }
            },
            Value::Uint(n) => *n > 0,
            _ => false,
        }
    }
}

/// A point. Its `x` is to be `0`.
#[derive(Debug, Clone, Copy, PartialEq, Eq, Structural)]
pub struct Point {
    pub x: i32,
    pub y: i32,
}

impl CheckIndieFields for Point {
    open spec fn indie_violations(&self) -> Seq<Seq<char>> {
        rule_violations(
            &NoPredicates,
            "self.x"@,
            ValueView::Int(self.x as int),
            seq![RuleView::Literal(Relation::Eq, ValueView::Int(0))],
        )
    }

    fn check_indie_fields(&self, e: &mut RepErrors) {
        let rule = ConstraintRule::Literal(Relation::Eq, Value::Int(0));
        check_rule("self.x", &Value::Int(self.x as i128), &rule, &NoPredicates, e);
    }
}

/// A line. `is_gt_zero` is to accept its `x1`, and its `x2` and `y2` are to
/// be equal. Its `start` is not checked with it.
#[derive(Debug, Clone, Copy, PartialEq, Eq, Structural)]
pub struct Line {
    pub start: Point,
    pub x1: i32,
    pub y1: i32,
    pub x2: i32,
    pub y2: i32,
}

impl CheckIndieFields for Line {
    open spec fn indie_violations(&self) -> Seq<Seq<char>> {
        rule_violations(
            &LinePredicates,
            "self.x1"@,
            ValueView::Int(self.x1 as int),
            seq![RuleView::With("is_gt_zero"@)],
        )
    }

    fn check_indie_fields(&self, e: &mut RepErrors) {
        let rule = ConstraintRule::With(String::from_str("is_gt_zero"));
        check_rule("self.x1", &Value::Int(self.x1 as i128), &rule, &LinePredicates, e);
    }
}

impl CheckFields for Line {
    open spec fn field_violations(&self) -> Seq<Seq<char>> {
        if self.x2 != self.y2 {
            seq!["self.x2 must equal self.y2"@]
        } else {
            Seq::empty()
        }
    }

    fn check_fields(&self, e: &mut RepErrors) {
        if self.x2 != self.y2 {
            e.add(String::from_str("self.x2 must equal self.y2"));
        }
    }
}

impl CheckRep for Line {

}

/// The violations of a line, written out: the message on `x1` where
/// `is_gt_zero` does not accept it, then the message on `x2` and `y2` where
/// they differ.
pub proof fn lemma_line_violations(line: &Line)
    ensures
        rep_violations(line) == (if line.x1 > 0 {
            Seq::<Seq<char>>::empty()
        } else {
            seq![
                RuleView::With("is_gt_zero"@).message(
                    "self.x1"@,
                    ValueView::Int(line.x1 as int),
                ),
            ]
        }) + (if line.x2 != line.y2 {
            seq!["self.x2 must equal self.y2"@]
        } else {
            Seq::<Seq<char>>::empty()
        }),
{
    lemma_one_rule(
        &LinePredicates,
        "self.x1"@,
        ValueView::Int(line.x1 as int),
        RuleView::With("is_gt_zero"@),
    );
}

/// The body of [`Line::foo`]: it does nothing.
pub struct Foo;

impl Operation<Line> for Foo {
    type Output = ();

    open spec fn effect(&self, before: &Line, after: &Line, out: &()) -> bool {
        *after == *before
    }

    fn run(self, receiver: &mut Line) -> (out: ()) {
    }
}

/// The body of [`Line::set_x1`] and [`Line::set_x1_2`]: it sets `x1` and
/// returns what `x1` was.
pub struct SetX1 {
    pub x1: i32,
}

impl Operation<Line> for SetX1 {
    type Output = i32;

    open spec fn effect(&self, before: &Line, after: &Line, out: &i32) -> bool {
        *after == (Line { x1: self.x1, ..*before }) && *out == before.x1
    }

    fn run(self, receiver: &mut Line) -> (out: i32) {
        let old = receiver.x1;
        receiver.x1 = self.x1;
        old
    }
}

/// The line that [`Line::bad_new`] makes: `is_gt_zero` does not accept its
/// `x1`.
pub open spec fn bad_line() -> Line {
    Line { start: Point { x: 0, y: 0 }, x1: 0, y1: 0, x2: 0, y2: 0 }
}

/// The line that [`Line::good_new`] makes: it has no violation.
pub open spec fn good_line() -> Line {
    Line { start: Point { x: 0, y: 0 }, x1: 1, y1: 0, x2: 0, y2: 0 }
}

impl Line {
    /// Changes nothing, and checks the line afterwards.
    pub fn foo(&mut self, sink_active: bool) -> (r: Enforced<()>)
        ensures
            enforced(
                old(self),
                final(self),
                &Foo,
                CheckOption { prepend: false, append: true, return_self: false },
                sink_active,
                r,
            ),
            *final(self) == *old(self),
    {
        let shape = OperationShape {
            receiver_access: ReceiverAccess::Exclusive,
            produces_owner_instance: false,
        };
        let option = effective_mode(shape, EnforcementMode::after_only());
        enforce(self, Foo, option, sink_active)
    }

    /// Makes a line that violates the rule on `x1`, and checks it: without a
    /// sink that fails, with one the line is returned and the violation
    /// recorded.
    pub fn bad_new(sink_active: bool) -> (r: Enforced<Line>)
        ensures
            !sink_active ==> (r matches Enforced::Aborted { message } && message@
                == abort_message(rep_violations(&bad_line()))),
            sink_active ==> (r matches Enforced::Returned { value, records } && value
                == bad_line() && texts(records@) == records_of(rep_violations(&bad_line()))),
            rep_violations(&bad_line()).len() == 1,
    {
        let shape = OperationShape {
            receiver_access: ReceiverAccess::Absent,
            produces_owner_instance: true,
        };
        let option = effective_mode(shape, EnforcementMode::both());
        let make = || -> (l: Line)
            ensures
                l == bad_line(),
            { Line { start: Point { x: 0, y: 0 }, x1: 0, y1: 0, x2: 0, y2: 0 } };
        proof {
            lemma_line_violations(&bad_line());
        }
        enforce_construction(make, option, sink_active)
    }

    /// Makes a line without violations, and checks it.
    pub fn good_new(sink_active: bool) -> (r: Enforced<Line>)
        ensures
            r matches Enforced::Returned { value, records } && value == good_line()
                && records@.len() == 0,
            rep_violations(&good_line()).len() == 0,
    {
        let shape = OperationShape {
            receiver_access: ReceiverAccess::Absent,
            produces_owner_instance: true,
        };
        let option = effective_mode(shape, EnforcementMode::both());
        let make = || -> (l: Line)
            ensures
                l == good_line(),
            { Line { start: Point { x: 0, y: 0 }, x1: 1, y1: 0, x2: 0, y2: 0 } };
        proof {
            lemma_line_violations(&good_line());
        }
        let r = enforce_construction(make, option, sink_active);
        assert(r matches Enforced::Returned { value, records } && texts(records@).len() == 0);
        r
    }

    /// Sets `x1` and returns what it was, with the line checked before and
    /// after.
    pub fn set_x1(&mut self, x1: i32, sink_active: bool) -> (r: Enforced<i32>)
        ensures
            enforced(
                old(self),
                final(self),
                &SetX1 { x1 },
                CheckOption { prepend: true, append: true, return_self: false },
                sink_active,
                r,
            ),
    {
        let shape = OperationShape {
            receiver_access: ReceiverAccess::Exclusive,
            produces_owner_instance: false,
        };
        let option = effective_mode(shape, EnforcementMode::both());
        enforce(self, SetX1 { x1 }, option, sink_active)
    }

    /// Sets `x1` and returns what it was, with the line checked afterwards.
    pub fn set_x1_2(&mut self, x1: i32, sink_active: bool) -> (r: Enforced<i32>)
        ensures
            enforced(
                old(self),
                final(self),
                &SetX1 { x1 },
                CheckOption { prepend: false, append: true, return_self: false },
                sink_active,
                r,
            ),
    {
        let shape = OperationShape {
            receiver_access: ReceiverAccess::Exclusive,
            produces_owner_instance: false,
        };
        let option = effective_mode(shape, EnforcementMode::after_only());
        enforce(self, SetX1 { x1 }, option, sink_active)
    }
}

} // verus!
