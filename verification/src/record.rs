//! A checked value given as data: named values, named parts that are checked
//! values in turn, and the rules that a declaration has come to.

use vstd::prelude::*;
use vstd::string::StringExecFns;
use crate::declare::{field_rule_views, Derived, FieldRule, FieldRuleView};
use crate::enforce::Operation;
use crate::errors::RepErrors;
use crate::protocol::{CheckFields, CheckIndieFields, CheckRep};
use crate::rule::{check_rule, rule_violations, PredicateTable};
use crate::text::str_eq;
use crate::value::Value;

verus! {

/// A field that holds a value.
#[derive(Debug)]
pub struct NamedValue {
    pub name: String,
    pub value: Value,
}

/// A field that holds a checked value.
#[derive(Debug)]
pub struct Part<P: PredicateTable> {
    pub name: String,
    pub record: Record<P>,
}

/// A checked value: its rules, the values of its fields, its parts, and the
/// predicates that its rules name.
///
/// A rule speaks of the first value of its field's name, and a field that is
/// to be checked in turn of the first part of its name. A message calls a
/// field by its name. A rule on a name without a value is a violation, and
/// so is a name to check in turn without a part.
#[derive(Debug)]
pub struct Record<P: PredicateTable> {
    pub plan: Derived,
    pub values: Vec<NamedValue>,
    pub parts: Vec<Part<P>>,
    pub table: P,
}

/// The position of the first of `values` from `from` on that is called
/// `name`.
pub open spec fn value_at(values: Seq<NamedValue>, name: Seq<char>, from: int) -> Option<int>
    decreases values.len() - from,
{
    if from < 0 || from >= values.len() {
        None
    } else if values[from].name@ == name {
        Some(from)
    } else {
        value_at(values, name, from + 1)
    }
}

/// The position of the first of `parts` from `from` on that is called `name`.
pub open spec fn part_at<P: PredicateTable>(parts: Seq<Part<P>>, name: Seq<char>, from: int) -> Option<
    int,
>
    decreases parts.len() - from,
{
    if from < 0 || from >= parts.len() {
        None
    } else if parts[from].name@ == name {
        Some(from)
    } else {
        part_at(parts, name, from + 1)
    }
}

/// The message for a rule on a field that has no value.
pub open spec fn no_value(field: Seq<char>) -> Seq<char> {
    field + " has no value"@
}

/// The message for a field to check in turn that has no part.
pub open spec fn no_part(field: Seq<char>) -> Seq<char> {
    field + " has no part"@
}

/// The violations of one rule: those of the value of its field, called by
/// the field's name, or that the field has no value.
pub open spec fn field_rule_violations<P: PredicateTable>(
    table: &P,
    rule: FieldRuleView,
    values: Seq<NamedValue>,
) -> Seq<Seq<char>> {
    match value_at(values, rule.field, 0) {
        Some(k) => rule_violations(table, rule.field, values[k].value@, seq![rule.rule]),
        None => seq![no_value(rule.field)],
    }
}

/// The violations of the first `n` of `rules`, in order.
pub open spec fn plan_violations<P: PredicateTable>(
    table: &P,
    rules: Seq<FieldRuleView>,
    values: Seq<NamedValue>,
    n: int,
) -> Seq<Seq<char>>
    decreases n,
{
    if n <= 0 || n > rules.len() {
        Seq::empty()
    } else {
        plan_violations(table, rules, values, n - 1) + field_rule_violations(
            table,
            rules[n - 1],
            values,
        )
    }
}

/// The violations of the parts that the first `n` names of `names` call, in
/// order; for a name that calls no part, that it has none.
pub open spec fn parts_violations<P: PredicateTable>(
    parts: Seq<Part<P>>,
    names: Seq<String>,
    n: int,
) -> Seq<Seq<char>>
    decreases parts, n,
{
    if n <= 0 || n > names.len() {
        Seq::empty()
    } else {
        parts_violations(parts, names, n - 1) + (match part_at(parts, names[n - 1]@, 0) {
            Some(k) => if 0 <= k < parts.len() {
                record_violations(parts[k].record)
            } else {
                seq![no_part(names[n - 1]@)]
            },
            None => seq![no_part(names[n - 1]@)],
        })
    }
}

/// The violations of a record: those of its rules in order, then those of
/// the parts that it checks in turn, in order.
pub open spec fn record_violations<P: PredicateTable>(record: Record<P>) -> Seq<Seq<char>>
    decreases record,
{
    plan_violations(
        &record.table,
        field_rule_views(record.plan.rules@),
        record.values@,
        record.plan.rules@.len() as int,
    ) + parts_violations(record.parts@, record.plan.recurse@, record.plan.recurse@.len() as int)
}

/// Where the first value called `name` stands.
pub fn find_value(values: &Vec<NamedValue>, name: &str) -> (at: Option<usize>)
    ensures
        at matches Some(k) ==> k < values@.len() && value_at(values@, name@, 0) == Some(k as int),
        at is None ==> value_at(values@, name@, 0) is None,
{
    let mut i: usize = 0;
    while i < values.len()
        invariant
            i <= values@.len(),
            value_at(values@, name@, 0) == value_at(values@, name@, i as int),
        decreases values@.len() - i,
    {
        if str_eq(values[i].name.as_str(), name) {
            return Some(i);
        }
        i += 1;
    }
    None
}

/// Where the first part called `name` stands.
pub fn find_part<P: PredicateTable>(parts: &Vec<Part<P>>, name: &str) -> (at: Option<usize>)
    ensures
        at matches Some(k) ==> k < parts@.len() && part_at(parts@, name@, 0) == Some(k as int),
        at is None ==> part_at(parts@, name@, 0) is None,
{
    let mut i: usize = 0;
    while i < parts.len()
        invariant
            i <= parts@.len(),
            part_at(parts@, name@, 0) == part_at(parts@, name@, i as int),
        decreases parts@.len() - i,
    {
        if str_eq(parts[i].name.as_str(), name) {
            return Some(i);
        }
        i += 1;
    }
    None
}

/// Checks `values` against `rules` in order, and appends the messages of the
/// violations to `e`, among them that of a rule whose field has no value.
pub fn check_plan<P: PredicateTable>(
    rules: &Vec<FieldRule>,
    values: &Vec<NamedValue>,
    table: &P,
    e: &mut RepErrors,
)
    ensures
        final(e)@ == old(e)@ + plan_violations(
            table,
            field_rule_views(rules@),
            values@,
            rules@.len() as int,
        ),
{
    let ghost views = field_rule_views(rules@);
    let mut i: usize = 0;
    while i < rules.len()
        invariant
            i <= rules@.len(),
            views == field_rule_views(rules@),
            e@ == old(e)@ + plan_violations(table, views, values@, i as int),
        decreases rules@.len() - i,
    {
        let rule = &rules[i];
        match find_value(values, rule.field.as_str()) {
            Some(k) => {
                check_rule(rule.field.as_str(), &values[k].value, &rule.rule, table, e);
            },
            None => {
                let mut message = String::from_str(rule.field.as_str());
                message.append(" has no value");
                e.add(message);
            },
        }
        i += 1;
    }
}

/// Checks `record` and appends the messages of its violations to `e`: its
/// own rules first, then the parts that it checks in turn.
pub fn check_record<P: PredicateTable>(record: &Record<P>, e: &mut RepErrors)
    ensures
        final(e)@ == old(e)@ + record_violations(*record),
    decreases record,
{
    check_plan(&record.plan.rules, &record.values, &record.table, e);
    let ghost own = e@;
    let names = &record.plan.recurse;
    let mut i: usize = 0;
    while i < names.len()
        invariant
            i <= names@.len(),
            names == &record.plan.recurse,
            e@ == own + parts_violations(record.parts@, names@, i as int),
        decreases names@.len() - i,
    {
        match find_part(&record.parts, names[i].as_str()) {
            Some(k) => {
                check_record(&record.parts[k].record, e);
            },
            None => {
                let mut message = String::from_str(names[i].as_str());
                message.append(" has no part");
                e.add(message);
            },
        }
        i += 1;
    }
}

impl<P: PredicateTable> CheckIndieFields for Record<P> {
    open spec fn indie_violations(&self) -> Seq<Seq<char>> {
        record_violations(*self)
    }

    fn check_indie_fields(&self, e: &mut RepErrors) {
        check_record(self, e);
    }
}

impl<P: PredicateTable> CheckFields for Record<P> {
    fn check_fields(&self, e: &mut RepErrors) {
    }
}

impl<P: PredicateTable> CheckRep for Record<P> {

}

/// A violation of a part that a record checks in turn is a violation of the
/// record: the violations of the part called by the name at position `i`
/// stand, whole and in order, among those of the record, at `offset`.
pub proof fn lemma_part_violations_included<P: PredicateTable>(record: Record<P>, i: int) -> (offset:
    int)
    requires
        0 <= i < record.plan.recurse@.len(),
        part_at(record.parts@, record.plan.recurse@[i]@, 0) is Some,
    ensures
        ({
            let k = part_at(record.parts@, record.plan.recurse@[i]@, 0)->0;
            let inner = record_violations(record.parts@[k].record);
            &&& 0 <= k < record.parts@.len()
            &&& 0 <= offset
            &&& offset + inner.len() <= record_violations(record).len()
            &&& record_violations(record).subrange(offset, offset + inner.len()) == inner
        }),
{
    let names = record.plan.recurse@;
    let parts = record.parts@;
    let k = part_at(parts, names[i]@, 0)->0;
    lemma_part_at_in_range(parts, names[i]@, 0);
    let inner = record_violations(parts[k].record);
    let own = plan_violations(
        &record.table,
        field_rule_views(record.plan.rules@),
        record.values@,
        record.plan.rules@.len() as int,
    );
    let upto = parts_violations(parts, names, i);
    lemma_parts_violations_grow(parts, names, i + 1, names.len() as int);
    let all = parts_violations(parts, names, names.len() as int);
    let next = parts_violations(parts, names, i + 1);
    let offset = (own.len() + upto.len()) as int;
    let whole = record_violations(record);
    assert forall|j: int| 0 <= j < inner.len() implies whole[offset + j] == inner[j] by {
        assert(all.subrange(0, next.len() as int)[upto.len() + j] == all[upto.len() + j]);
    }
    offset
}

/// The position that `part_at` gives is one of `parts`, at or after `from`,
/// and the part there is called `name`.
pub proof fn lemma_part_at_in_range<P: PredicateTable>(
    parts: Seq<Part<P>>,
    name: Seq<char>,
    from: int,
)
    ensures
        part_at(parts, name, from) matches Some(k) ==> from <= k < parts.len() && parts[k].name@
            == name,
    decreases parts.len() - from,
{
    if 0 <= from < parts.len() && parts[from].name@ != name {
        lemma_part_at_in_range(parts, name, from + 1);
    }
}

/// The violations of the parts called by the first `n` names begin those of
/// the parts called by the first `m`, for `n` up to `m`.
pub proof fn lemma_parts_violations_grow<P: PredicateTable>(
    parts: Seq<Part<P>>,
    names: Seq<String>,
    n: int,
    m: int,
)
    requires
        0 <= n <= m <= names.len(),
    ensures
        parts_violations(parts, names, n).len() <= parts_violations(parts, names, m).len(),
        parts_violations(parts, names, m).subrange(
            0,
            parts_violations(parts, names, n).len() as int,
        ) == parts_violations(parts, names, n),
    decreases m - n,
{
    if n < m {
        lemma_parts_violations_grow(parts, names, n, m - 1);
    }
}

/// Sets the first value called `name` to `value`, and returns whether there
/// is a value of that name.
#[derive(Debug)]
pub struct SetValue {
    pub name: String,
    pub value: Value,
}

impl<P: PredicateTable> Operation<Record<P>> for SetValue {
    type Output = bool;

    open spec fn effect(&self, before: &Record<P>, after: &Record<P>, out: &bool) -> bool {
        &&& after.plan == before.plan
        &&& after.parts == before.parts
        &&& after.table == before.table
        &&& after.values@.len() == before.values@.len()
        &&& match value_at(before.values@, self.name@, 0) {
            Some(k) => {
                &&& *out
                &&& 0 <= k < before.values@.len()
                &&& after.values@[k].name@ == self.name@
                &&& after.values@[k].value@ == self.value@
                &&& forall|j: int|
                    0 <= j < before.values@.len() && j != k ==> after.values@[j]
                        == before.values@[j]
            },
            None => !*out && after.values@ == before.values@,
        }
    }

    fn run(self, receiver: &mut Record<P>) -> (out: bool) {
        match find_value(&receiver.values, self.name.as_str()) {
            Some(k) => {
                receiver.values.set(k, NamedValue { name: self.name, value: self.value });
                true
            },
            None => false,
        }
    }
}

} // verus!
