//! Running an operation with its checks: the receiver before the body, the
//! body, the receiver after it, a newly produced instance, and then the
//! result of the body as it is.

use vstd::prelude::*;
use crate::policy::CheckOption;
use crate::protocol::{rep_violations, CheckRep};
use crate::report::{abort_message, records_of, Outcome};
use crate::text::texts;

verus! {

/// An operation on a receiver of type `T` that may change it.
///
/// It is a value with a method rather than a closure: the contract of a
/// closure cannot speak of a mutable reference.
pub trait Operation<T>: Sized {
    /// What the body returns.
    type Output;

    /// Whether the body can turn the receiver `before` into `after` and
    /// return `out`.
    spec fn effect(&self, before: &T, after: &T, out: &Self::Output) -> bool;

    /// The body of the operation.
    fn run(self, receiver: &mut T) -> (out: Self::Output)
        ensures
            self.effect(old(receiver), final(receiver), &out),
    ;
}

/// How an operation that was run with its checks ended.
#[derive(Debug, PartialEq, Eq)]
pub enum Enforced<R> {
    /// It returned `value`, the result of the body. The sink is owed
    /// `records`, in order.
    Returned { value: R, records: Vec<String> },
    /// A check failed with no sink active: the caller is to fail with
    /// `message`.
    Aborted { message: String },
}

/// The violations that a check of `x` finds where it is run, none where it is
/// not.
pub open spec fn due<T: CheckRep>(run: bool, x: &T) -> Seq<Seq<char>> {
    if run {
        rep_violations(x)
    } else {
        Seq::empty()
    }
}

/// Whether a check that found `violations` ends the operation.
pub open spec fn stops(violations: Seq<Seq<char>>, sink_active: bool) -> bool {
    violations.len() > 0 && !sink_active
}

/// How `op`, run on a receiver `before` under `option`, leaves the receiver
/// and ends, `r`: the checks of the receiver before and after the body are
/// run where `option` has them; the first that finds violations with no sink
/// active ends the operation, the body not run if it is the first; else the
/// body's result is returned unchanged with a record for each violation.
pub open spec fn enforced<T: CheckRep, Op: Operation<T>>(
    before: &T,
    after: &T,
    op: &Op,
    option: CheckOption,
    sink_active: bool,
    r: Enforced<Op::Output>,
) -> bool {
    let first = due(option.prepend, before);
    let second = due(option.append, after);
    match r {
        Enforced::Aborted { message } => if stops(first, sink_active) {
            after == before && message@ == abort_message(first)
        } else {
            &&& exists|out: Op::Output| op.effect(before, after, &out)
            &&& stops(second, sink_active)
            &&& message@ == abort_message(second)
        },
        Enforced::Returned { value, records } => {
            &&& !stops(first, sink_active)
            &&& op.effect(before, after, &value)
            &&& !stops(second, sink_active)
            &&& texts(records@) == records_of(first) + records_of(second)
        },
    }
}

/// As [`enforced`], for an operation that returns a new instance of the
/// receiver's type: where `option` has it, the returned instance is checked
/// last.
pub open spec fn enforced_producing<T: CheckRep, Op: Operation<T, Output = T>>(
    before: &T,
    after: &T,
    op: &Op,
    option: CheckOption,
    sink_active: bool,
    r: Enforced<T>,
) -> bool {
    let first = due(option.prepend, before);
    let second = due(option.append, after);
    match r {
        Enforced::Aborted { message } => if stops(first, sink_active) {
            after == before && message@ == abort_message(first)
        } else if stops(second, sink_active) {
            &&& exists|out: T| op.effect(before, after, &out)
            &&& message@ == abort_message(second)
        } else {
            exists|out: T|
                {
                    &&& op.effect(before, after, &out)
                    &&& stops(due(option.return_self, &out), sink_active)
                    &&& message@ == abort_message(due(option.return_self, &out))
                }
        },
        Enforced::Returned { value, records } => {
            let third = due(option.return_self, &value);
            &&& !stops(first, sink_active)
            &&& op.effect(before, after, &value)
            &&& !stops(second, sink_active)
            &&& !stops(third, sink_active)
            &&& texts(records@) == records_of(first) + records_of(second) + records_of(third)
        },
    }
}

/// How a construction `make`, run under `option`, ends, `r`: where `option`
/// has it, the new instance is checked; violations with no sink active end
/// the operation, else the instance is returned with a record for each.
pub open spec fn constructed<T: CheckRep, F: FnOnce() -> T>(
    make: F,
    option: CheckOption,
    sink_active: bool,
    r: Enforced<T>,
) -> bool {
    match r {
        Enforced::Aborted { message } => exists|out: T|
            {
                &&& call_ensures(make, (), out)
                &&& stops(due(option.return_self, &out), sink_active)
                &&& message@ == abort_message(due(option.return_self, &out))
            },
        Enforced::Returned { value, records } => {
            let third = due(option.return_self, &value);
            &&& call_ensures(make, (), value)
            &&& !stops(third, sink_active)
            &&& texts(records@) == records_of(third)
        },
    }
}

/// Runs one check where it is due. Gives the fatal message where the check
/// ends the operation, and else adds the records of what it found.
fn check_point<T: CheckRep>(x: &T, run: bool, sink_active: bool, records: &mut Vec<String>) -> (fatal:
    Option<String>)
    ensures
        stops(due(run, x), sink_active) ==> (fatal matches Some(m) && m@ == abort_message(
            due(run, x),
        )),
        !stops(due(run, x), sink_active) ==> fatal is None && texts(final(records)@) == texts(
            old(records)@,
        ) + records_of(due(run, x)),
{
    if !run {
        return None;
    }
    match x.check_rep(sink_active) {
        Outcome::Passed => None,
        Outcome::Reported(mut found) => {
            records.append(&mut found);
            None
        },
        Outcome::Aborted(message) => Some(message),
    }
}

/// Runs `op` on `receiver` with the checks of `option`, for an operation
/// whose result is not an instance of the receiver's type.
///
/// The order is fixed: the check of the receiver before the body, the body,
/// the check of the receiver after it. `sink_active` says whether a
/// diagnostic sink takes the records; without one the first check that finds
/// a violation ends the operation.
pub fn enforce<T: CheckRep, Op: Operation<T>>(
    receiver: &mut T,
    op: Op,
    option: CheckOption,
    sink_active: bool,
) -> (r: Enforced<Op::Output>)
    ensures
        enforced(old(receiver), final(receiver), &op, option, sink_active, r),
{
    let mut records: Vec<String> = Vec::new();
    if let Some(message) = check_point(&*receiver, option.prepend, sink_active, &mut records) {
        return Enforced::Aborted { message };
    }
    let value = op.run(receiver);
    if let Some(message) = check_point(&*receiver, option.append, sink_active, &mut records) {
        return Enforced::Aborted { message };
    }
    Enforced::Returned { value, records }
}

/// Runs `op` on `receiver` with the checks of `option`, for an operation that
/// returns a new instance of the receiver's type.
///
/// The order is fixed: the check of the receiver before the body, the body,
/// the check of the receiver after it, the check of the new instance.
pub fn enforce_producing<T: CheckRep, Op: Operation<T, Output = T>>(
    receiver: &mut T,
    op: Op,
    option: CheckOption,
    sink_active: bool,
) -> (r: Enforced<T>)
    ensures
        enforced_producing(old(receiver), final(receiver), &op, option, sink_active, r),
{
    let mut records: Vec<String> = Vec::new();
    if let Some(message) = check_point(&*receiver, option.prepend, sink_active, &mut records) {
        return Enforced::Aborted { message };
    }
    let value = op.run(receiver);
    if let Some(message) = check_point(&*receiver, option.append, sink_active, &mut records) {
        return Enforced::Aborted { message };
    }
    if let Some(message) = check_point(&value, option.return_self, sink_active, &mut records) {
        return Enforced::Aborted { message };
    }
    Enforced::Returned { value, records }
}

/// Runs the construction `make` and, where `option` has it, checks the new
/// instance.
pub fn enforce_construction<T: CheckRep, F: FnOnce() -> T>(
    make: F,
    option: CheckOption,
    sink_active: bool,
) -> (r: Enforced<T>)
    requires
        call_requires(make, ()),
    ensures
        constructed(make, option, sink_active, r),
{
    let mut records: Vec<String> = Vec::new();
    let value = make();
    if let Some(message) = check_point(&value, option.return_self, sink_active, &mut records) {
        return Enforced::Aborted { message };
    }
    Enforced::Returned { value, records }
}

/// An operation without checks returns the result of its body, and nothing
/// is recorded.
pub proof fn lemma_unchecked_returns<T: CheckRep, Op: Operation<T>>(
    before: &T,
    after: &T,
    op: &Op,
    sink_active: bool,
    r: Enforced<Op::Output>,
)
    requires
        enforced(
            before,
            after,
            op,
            CheckOption { prepend: false, append: false, return_self: false },
            sink_active,
            r,
        ),
    ensures
        r matches Enforced::Returned { value, records } && op.effect(before, after, &value)
            && records@.len() == 0,
{
}

/// An operation checked before and after, whose body takes a receiver
/// without violations to one with violations, passes the first check and
/// fails the second: without a sink it ends with the fatal message of the
/// violations after the body, with a sink it returns and the records are
/// those of the violations after the body.
pub proof fn lemma_valid_before_invalid_after<T: CheckRep, Op: Operation<T>>(
    before: &T,
    after: &T,
    op: &Op,
    return_self: bool,
    sink_active: bool,
    r: Enforced<Op::Output>,
)
    requires
        enforced(
            before,
            after,
            op,
            CheckOption { prepend: true, append: true, return_self },
            sink_active,
            r,
        ),
        rep_violations(before).len() == 0,
        rep_violations(after).len() > 0,
    ensures
        !sink_active ==> (r matches Enforced::Aborted { message } && message@ == abort_message(
            rep_violations(after),
        )),
        sink_active ==> (r matches Enforced::Returned { value, records } && texts(records@)
            == records_of(rep_violations(after))),
{
}

} // verus!
