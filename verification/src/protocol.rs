//! The protocol by which a type takes part in checking: its checks of
//! independent fields, its checks of fields that depend on one another, and
//! the check of the whole value that is made of both.

use vstd::prelude::*;
use crate::errors::RepErrors;
use crate::report::{outcome_of, report, Outcome};

verus! {

/// Checks of the fields of a value, each taken by itself, and of the fields
/// that are checked values in turn.
pub trait CheckIndieFields {
    /// The messages of the violated rules: those of the value's own fields in
    /// the order of declaration, then those of the fields it recurses into.
    /// Without rules there are none.
    open spec fn indie_violations(&self) -> Seq<Seq<char>> {
        Seq::empty()
    }

    /// Appends the messages of the violated rules to `e`.
    fn check_indie_fields(&self, e: &mut RepErrors)
        ensures
            final(e)@ == old(e)@ + self.indie_violations(),
    ;
}

/// Checks of conditions that hold between two or more fields of a value.
pub trait CheckFields {
    /// The messages of the violated conditions, in order. Without conditions
    /// there are none.
    open spec fn field_violations(&self) -> Seq<Seq<char>> {
        Seq::empty()
    }

    /// Appends the messages of the violated conditions to `e`.
    fn check_fields(&self, e: &mut RepErrors)
        ensures
            final(e)@ == old(e)@ + self.field_violations(),
    ;
}

/// All violations of `x`: those of its independent fields, then those
/// between its fields.
pub open spec fn rep_violations<T: CheckIndieFields + CheckFields + ?Sized>(x: &T) -> Seq<
    Seq<char>,
> {
    x.indie_violations() + x.field_violations()
}

/// The check of a whole value.
pub trait CheckRep: CheckIndieFields + CheckFields {
    /// Collects all violations of `self` in a fresh collection.
    fn rep_errors(&self) -> (e: RepErrors)
        ensures
            e@ == rep_violations(self),
    {
        let mut e = RepErrors::new();
        self.check_indie_fields(&mut e);
        self.check_fields(&mut e);
        e
    }

    /// Checks `self` and decides the outcome, given whether a diagnostic sink
    /// is active: silence where nothing is violated, else records for the
    /// sink or a fatal message.
    fn check_rep(&self, sink_active: bool) -> (o: Outcome)
        ensures
            o@ == outcome_of(rep_violations(self), sink_active),
            rep_violations(self).len() == 0 ==> o is Passed,
            rep_violations(self).len() > 0 && !sink_active ==> o is Aborted,
    {
        let e = self.rep_errors();
        report(&e, sink_active)
    }
}

/// Two checks of one value, with no change to it between them, find the same
/// violations and come to the same outcome.
pub proof fn lemma_check_twice<T: CheckRep>(
    x: &T,
    first: RepErrors,
    second: RepErrors,
    sink_active: bool,
)
    requires
        first@ == rep_violations(x),
        second@ == rep_violations(x),
    ensures
        first@ == second@,
        outcome_of(first@, sink_active) == outcome_of(second@, sink_active),
{
}

} // verus!
