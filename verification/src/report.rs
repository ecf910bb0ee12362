//! What becomes of the violations that one check has found: nothing where
//! there are none, one record each for a diagnostic sink that is active, or
//! one fatal message.

use vstd::prelude::*;
use vstd::string::StringExecFns;
use crate::errors::RepErrors;
use crate::text::texts;

verus! {

/// The text that `{:?}` formatting gives for a string: the string between
/// double quotes, with the characters escaped that need it.
pub uninterp spec fn quoted(text: Seq<char>) -> Seq<char>;

/// Formats `text` with `format!("{:?}", ..)` of the standard library. The
/// contract names the result and claims nothing else of it.
#[verifier::external_body]
fn debug_quote(text: &str) -> (q: String)
    ensures
        q@ == quoted(text@),
{
    format!("{:?}", text)
}

/// The outcome of reporting the violations of one check.
#[derive(Debug, PartialEq, Eq)]
pub enum Outcome {
    /// There was no violation: nothing is emitted.
    Passed,
    /// A sink is active: it is owed these records, one per violation, in
    /// order, and the caller goes on.
    Reported(Vec<String>),
    /// No sink is active: the caller is to fail with this message.
    Aborted(String),
}

/// What an [`Outcome`] stands for.
pub enum OutcomeView {
    Passed,
    Reported(Seq<Seq<char>>),
    Aborted(Seq<char>),
}

impl View for Outcome {
    type V = OutcomeView;

    open spec fn view(&self) -> OutcomeView {
        match self {
            Outcome::Passed => OutcomeView::Passed,
            Outcome::Reported(records) => OutcomeView::Reported(texts(records@)),
            Outcome::Aborted(message) => OutcomeView::Aborted(message@),
        }
    }
}

/// Each of `violations`, quoted.
pub open spec fn quoted_all(violations: Seq<Seq<char>>) -> Seq<Seq<char>> {
    Seq::new(violations.len(), |i: int| quoted(violations[i]))
}

/// The record for one violation, given its quoted text.
pub open spec fn record_text(part: Seq<char>) -> Seq<char> {
    "representation invariant violated: "@ + part
}

/// The records for the violations with these quoted texts, one each, in
/// order.
pub open spec fn record_texts(parts: Seq<Seq<char>>) -> Seq<Seq<char>> {
    Seq::new(parts.len(), |i: int| record_text(parts[i]))
}

/// The parts in order, with a comma and a space between two.
pub open spec fn joined(parts: Seq<Seq<char>>) -> Seq<char>
    decreases parts.len(),
{
    if parts.len() == 0 {
        Seq::empty()
    } else if parts.len() == 1 {
        parts[0]
    } else {
        joined(parts.drop_last()) + ", "@ + parts.last()
    }
}

/// The fatal message for the violations with these quoted texts: all of
/// them, in order, as one structured value.
pub open spec fn fatal_text(parts: Seq<Seq<char>>) -> Seq<char> {
    "representation invariant violated: RepErrors { errors: ["@ + joined(parts) + "] }"@
}

/// The records that a sink receives for `violations`, one each, in order.
pub open spec fn records_of(violations: Seq<Seq<char>>) -> Seq<Seq<char>> {
    record_texts(quoted_all(violations))
}

/// The fatal message for `violations`.
pub open spec fn abort_message(violations: Seq<Seq<char>>) -> Seq<char> {
    fatal_text(quoted_all(violations))
}

/// Where the part at position `i` begins in the joined parts.
pub open spec fn place(parts: Seq<Seq<char>>, i: int) -> int {
    if i == 0 {
        0
    } else {
        (joined(parts.take(i)).len() + ", "@.len()) as int
    }
}

/// The joined parts hold each part, at its place.
pub proof fn lemma_joined_holds_each(parts: Seq<Seq<char>>, i: int)
    requires
        0 <= i < parts.len(),
    ensures
        place(parts, i) + parts[i].len() <= joined(parts).len(),
        joined(parts).subrange(place(parts, i), place(parts, i) + parts[i].len()) == parts[i],
    decreases parts.len(),
{
    if i < parts.len() - 1 {
        let front = parts.drop_last();
        lemma_joined_holds_each(front, i);
        assert(front.take(i) =~= parts.take(i));
    }
}

/// In the joined parts, an earlier part ends before a later one begins.
pub proof fn lemma_joined_keeps_order(parts: Seq<Seq<char>>, i: int, j: int)
    requires
        0 <= i < j < parts.len(),
    ensures
        place(parts, i) + parts[i].len() <= place(parts, j),
{
    let front = parts.take(j);
    lemma_joined_holds_each(front, i);
    assert(front.take(i) =~= parts.take(i));
}

/// The outcome of a check that found `violations`.
pub open spec fn outcome_of(violations: Seq<Seq<char>>, sink_active: bool) -> OutcomeView {
    if violations.len() == 0 {
        OutcomeView::Passed
    } else if sink_active {
        OutcomeView::Reported(records_of(violations))
    } else {
        OutcomeView::Aborted(abort_message(violations))
    }
}

/// Without a sink, a check that found violations ends in a fatal message,
/// and that message holds the quoted text of every violation, each at its
/// place.
pub proof fn lemma_abort_message_holds_all(violations: Seq<Seq<char>>)
    requires
        violations.len() > 0,
    ensures
        outcome_of(violations, false) == OutcomeView::Aborted(abort_message(violations)),
        forall|i: int|
            0 <= i < violations.len() ==> {
                let at = "representation invariant violated: RepErrors { errors: ["@.len() + place(
                    quoted_all(violations),
                    i,
                );
                &&& at + quoted(#[trigger] violations[i]).len() <= abort_message(violations).len()
                &&& abort_message(violations).subrange(at, at + quoted(violations[i]).len())
                    == quoted(violations[i])
            },
{
    let head = "representation invariant violated: RepErrors { errors: ["@;
    let parts = quoted_all(violations);
    let message = abort_message(violations);
    assert forall|i: int| 0 <= i < violations.len() implies {
        let at = head.len() + place(parts, i);
        &&& at + quoted(#[trigger] violations[i]).len() <= message.len()
        &&& message.subrange(at, at + quoted(violations[i]).len()) == quoted(violations[i])
    } by {
        lemma_joined_holds_each(parts, i);
    }
}

/// In the fatal message, the quoted text of an earlier violation ends before
/// that of a later one begins.
pub proof fn lemma_abort_message_keeps_order(violations: Seq<Seq<char>>, i: int, j: int)
    requires
        0 <= i < j < violations.len(),
    ensures
        place(quoted_all(violations), i) + quoted(violations[i]).len() <= place(
            quoted_all(violations),
            j,
        ),
{
    lemma_joined_keeps_order(quoted_all(violations), i, j);
}

/// The quoted text of each message of `errors`, in order.
pub fn quote_all(errors: &RepErrors) -> (parts: Vec<String>)
    ensures
        texts(parts@) == quoted_all(errors@),
{
    let mut parts: Vec<String> = Vec::new();
    let mut i: usize = 0;
    while i < errors.len()
        invariant
            i <= errors@.len(),
            parts@.len() == i,
            forall|j: int| 0 <= j < i ==> (#[trigger] parts@[j])@ == quoted(errors@[j]),
        decreases errors@.len() - i,
    {
        if let Some(text) = errors.get(i) {
            parts.push(debug_quote(text.as_str()));
        }
        i += 1;
    }
    parts
}

/// The records for the violations with these quoted texts, one each, in
/// order.
pub fn records_from(parts: &Vec<String>) -> (records: Vec<String>)
    ensures
        texts(records@) == record_texts(texts(parts@)),
{
    let mut records: Vec<String> = Vec::new();
    let mut i: usize = 0;
    while i < parts.len()
        invariant
            i <= parts@.len(),
            records@.len() == i,
            forall|j: int| 0 <= j < i ==> (#[trigger] records@[j])@ == record_text(parts@[j]@),
        decreases parts@.len() - i,
    {
        let mut record = String::from_str("representation invariant violated: ");
        record.append(parts[i].as_str());
        records.push(record);
        i += 1;
    }
    records
}

/// The fatal message for the violations with these quoted texts.
pub fn fatal_from(parts: &Vec<String>) -> (message: String)
    ensures
        message@ == fatal_text(texts(parts@)),
{
    let ghost all = texts(parts@);
    let mut message = String::from_str(
        "representation invariant violated: RepErrors { errors: [",
    );
    let ghost head = message@;
    let mut i: usize = 0;
    while i < parts.len()
        invariant
            i <= parts@.len(),
            all == texts(parts@),
            message@ == head + joined(all.take(i as int)),
        decreases parts@.len() - i,
    {
        if i > 0 {
            message.append(", ");
        }
        message.append(parts[i].as_str());
        proof {
            let next = all.take(i + 1);
            assert(next.drop_last() =~= all.take(i as int));
        }
        i += 1;
    }
    assert(all.take(parts@.len() as int) =~= all);
    message.append("] }");
    message
}

/// Decides what becomes of the violations in `errors`, found by one check,
/// given whether a diagnostic sink is active at that moment.
pub fn report(errors: &RepErrors, sink_active: bool) -> (o: Outcome)
    ensures
        o@ == outcome_of(errors@, sink_active),
        errors@.len() == 0 ==> o is Passed,
        errors@.len() > 0 && sink_active ==> o is Reported,
        errors@.len() > 0 && !sink_active ==> o is Aborted,
{
    if errors.is_empty() {
        Outcome::Passed
    } else if sink_active {
        Outcome::Reported(records_from(&quote_all(errors)))
    } else {
        Outcome::Aborted(fatal_from(&quote_all(errors)))
    }
}

} // verus!
