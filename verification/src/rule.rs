//! Rules over one field, and their evaluation against the field's value.

use vstd::prelude::*;
use vstd::string::StringExecFns;
use crate::errors::RepErrors;
use crate::value::{Value, ValueView};

verus! {

/// How a field's value is to stand to a rule's literal.
#[derive(Debug, Clone, Copy, PartialEq, Eq, Structural)]
pub enum Relation {
    Eq,
    Ne,
    Gt,
    Lt,
    Ge,
    Le,
}

/// One predicate over the current value of one field.
#[derive(Debug, PartialEq, Eq)]
pub enum ConstraintRule {
    /// The value is the default of its type.
    Default,
    /// The value is `true`.
    True,
    /// The value is `false`.
    False,
    /// The value stands in the relation to the literal.
    Literal(Relation, Value),
    /// The predicate of this name accepts the value.
    With(String),
}

/// What a [`ConstraintRule`] stands for.
pub enum RuleView {
    Default,
    True,
    False,
    Literal(Relation, ValueView),
    With(Seq<char>),
}

impl View for ConstraintRule {
    type V = RuleView;

    open spec fn view(&self) -> RuleView {
        match self {
            ConstraintRule::Default => RuleView::Default,
            ConstraintRule::True => RuleView::True,
            ConstraintRule::False => RuleView::False,
            ConstraintRule::Literal(r, l) => RuleView::Literal(*r, l@),
            ConstraintRule::With(f) => RuleView::With(f@),
        }
    }
}

/// The predicates that rules refer to by name.
pub trait PredicateTable {
    /// Whether the table holds a predicate of this name.
    spec fn resolves(&self, name: Seq<char>) -> bool;

    /// Whether the predicate of this name accepts the value.
    spec fn accepts(&self, name: Seq<char>, value: ValueView) -> bool;

    /// Whether the table holds a predicate called `name`.
    fn has(&self, name: &str) -> (known: bool)
        ensures
            known == self.resolves(name@),
    ;

    /// Applies the predicate called `name` to `value`.
    fn call(&self, name: &str, value: &Value) -> (accepted: bool)
        ensures
            accepted == self.accepts(name@, value@),
    ;
}

/// The table without predicates.
#[derive(Debug, Clone, Copy)]
pub struct NoPredicates;

impl PredicateTable for NoPredicates {
    open spec fn resolves(&self, name: Seq<char>) -> bool {
        false
    }

    open spec fn accepts(&self, name: Seq<char>, value: ValueView) -> bool {
        false
    }

    fn has(&self, name: &str) -> (known: bool) {
        false
    }

    fn call(&self, name: &str, value: &Value) -> (accepted: bool) {
        false
    }
}

/// The table for rules that are resolved before their predicates are at
/// hand: it takes every name as known and, holding no predicate, lets none
/// accept a value.
#[derive(Debug, Clone, Copy)]
pub struct Unbound;

impl PredicateTable for Unbound {
    open spec fn resolves(&self, name: Seq<char>) -> bool {
        true
    }

    open spec fn accepts(&self, name: Seq<char>, value: ValueView) -> bool {
        false
    }

    fn has(&self, name: &str) -> (known: bool) {
        true
    }

    fn call(&self, name: &str, value: &Value) -> (accepted: bool) {
        false
    }
}

impl Relation {
    /// Whether `value` stands in this relation to `literal`. Two values of
    /// different kinds are not equal, and neither is below the other.
    pub open spec fn holds(self, value: ValueView, literal: ValueView) -> bool {
        match self {
            Relation::Eq => value == literal,
            Relation::Ne => value != literal,
            Relation::Gt => literal.below(value),
            Relation::Lt => value.below(literal),
            Relation::Ge => literal.below(value) || value == literal,
            Relation::Le => value.below(literal) || value == literal,
        }
    }

    /// How a message names this relation before the literal.
    pub open spec fn phrase(self) -> Seq<char> {
        match self {
            Relation::Eq => " must be "@,
            Relation::Ne => " must not be "@,
            Relation::Gt => " must be > "@,
            Relation::Lt => " must be < "@,
            Relation::Ge => " must be >= "@,
            Relation::Le => " must be <= "@,
        }
    }

    /// Whether `value` stands in this relation to `literal`.
    pub fn test(self, value: &Value, literal: &Value) -> (ok: bool)
        ensures
            ok == self.holds(value@, literal@),
    {
        match self {
            Relation::Eq => value.equals(literal),
            Relation::Ne => !value.equals(literal),
            Relation::Gt => literal.is_below(value),
            Relation::Lt => value.is_below(literal),
            Relation::Ge => literal.is_below(value) || value.equals(literal),
            Relation::Le => value.is_below(literal) || value.equals(literal),
        }
    }
}

impl RuleView {
    /// Whether `value` meets this rule.
    pub open spec fn holds<P: PredicateTable>(self, table: &P, value: ValueView) -> bool {
        match self {
            RuleView::Default => value.is_default(),
            RuleView::True => value == ValueView::Bool(true),
            RuleView::False => value == ValueView::Bool(false),
            RuleView::Literal(relation, literal) => relation.holds(value, literal),
            RuleView::With(name) => table.accepts(name, value),
        }
    }

    /// The message for a field called `label` whose `value` does not meet this
    /// rule.
    pub open spec fn message(self, label: Seq<char>, value: ValueView) -> Seq<char> {
        match self {
            RuleView::Default => label + " must be default, not "@ + value.display(),
            RuleView::True => label + " must be true"@,
            RuleView::False => label + " must be false"@,
            RuleView::Literal(relation, literal) => if relation == Relation::Ne {
                label + relation.phrase() + literal.display()
            } else {
                label + relation.phrase() + literal.display() + ", not "@ + value.display()
            },
            RuleView::With(name) => name + "("@ + label + ") must be true when "@ + label
                + " == "@ + value.display(),
        }
    }
}

/// What each of `rules` stands for, in order.
pub open spec fn rule_views(rules: Seq<ConstraintRule>) -> Seq<RuleView> {
    Seq::new(rules.len(), |i: int| rules[i]@)
}

/// The messages of the rules among `rules` that `value` does not meet, in the
/// order of the rules.
pub open spec fn rule_violations<P: PredicateTable>(
    table: &P,
    label: Seq<char>,
    value: ValueView,
    rules: Seq<RuleView>,
) -> Seq<Seq<char>>
    decreases rules.len(),
{
    if rules.len() == 0 {
        Seq::empty()
    } else {
        let before = rule_violations(table, label, value, rules.drop_last());
        if rules.last().holds(table, value) {
            before
        } else {
            before.push(rules.last().message(label, value))
        }
    }
}

/// The violations of a single rule: its message where `value` does not meet
/// it, nothing where it does.
pub proof fn lemma_one_rule<P: PredicateTable>(
    table: &P,
    label: Seq<char>,
    value: ValueView,
    rule: RuleView,
)
    ensures
        rule_violations(table, label, value, seq![rule]) == if rule.holds(table, value) {
            Seq::<Seq<char>>::empty()
        } else {
            seq![rule.message(label, value)]
        },
{
    let rules = seq![rule];
    assert(rule_violations(table, label, value, rules.drop_last()) =~= Seq::<Seq<char>>::empty());
    if !rule.holds(table, value) {
    }
}

impl ConstraintRule {
    /// Whether `value` meets this rule.
    pub fn test<P: PredicateTable>(&self, table: &P, value: &Value) -> (ok: bool)
        ensures
            ok == self@.holds(table, value@),
    {
        match self {
            ConstraintRule::Default => value.is_default(),
            ConstraintRule::True => match value {
                Value::Bool(b) => *b,
                _ => false,
            },
            ConstraintRule::False => match value {
                Value::Bool(b) => !*b,
                _ => false,
            },
            ConstraintRule::Literal(relation, literal) => relation.test(value, literal),
            ConstraintRule::With(name) => table.call(name.as_str(), value),
        }
    }

    /// The message for a field called `label` whose `value` does not meet this
    /// rule.
    pub fn describe(&self, label: &str, value: &Value) -> (m: String)
        ensures
            m@ == self@.message(label@, value@),
    {
        match self {
            ConstraintRule::Default => {
                let mut m = String::from_str(label);
                m.append(" must be default, not ");
                value.push_to(&mut m);
                m
            },
            ConstraintRule::True => {
                let mut m = String::from_str(label);
                m.append(" must be true");
                m
            },
            ConstraintRule::False => {
                let mut m = String::from_str(label);
                m.append(" must be false");
                m
            },
            ConstraintRule::Literal(relation, literal) => {
                let mut m = String::from_str(label);
                match relation {
                    Relation::Eq => m.append(" must be "),
                    Relation::Ne => m.append(" must not be "),
                    Relation::Gt => m.append(" must be > "),
                    Relation::Lt => m.append(" must be < "),
                    Relation::Ge => m.append(" must be >= "),
                    Relation::Le => m.append(" must be <= "),
                }
                literal.push_to(&mut m);
                let names_value = match relation {
                    Relation::Ne => false,
                    _ => true,
                };
                if names_value {
                    m.append(", not ");
                    value.push_to(&mut m);
                }
                m
            },
            ConstraintRule::With(name) => {
                let mut m = String::from_str(name.as_str());
                m.append("(");
                m.append(label);
                m.append(") must be true when ");
                m.append(label);
                m.append(" == ");
                value.push_to(&mut m);
                m
            },
        }
    }
}

/// Evaluates `rule` on the current `value` of the field called `label`:
/// whether the value meets the rule, and the message where it does not.
pub fn evaluate<P: PredicateTable>(
    label: &str,
    value: &Value,
    rule: &ConstraintRule,
    table: &P,
) -> (r: (bool, Option<String>))
    ensures
        r.0 == rule@.holds(table, value@),
        r.0 ==> r.1 is None,
        !r.0 ==> (r.1 matches Some(m) && m@ == rule@.message(label@, value@)),
{
    if rule.test(table, value) {
        (true, None)
    } else {
        (false, Some(rule.describe(label, value)))
    }
}

/// Evaluates `rule` on the current `value` of the field called `label`, and
/// appends its message to `e` where the value does not meet it.
pub fn check_rule<P: PredicateTable>(
    label: &str,
    value: &Value,
    rule: &ConstraintRule,
    table: &P,
    e: &mut RepErrors,
)
    ensures
        final(e)@ == old(e)@ + rule_violations(table, label@, value@, seq![rule@]),
{
    proof {
        lemma_one_rule(table, label@, value@, rule@);
    }
    let (ok, message) = evaluate(label, value, rule, table);
    if let Some(m) = message {
        e.add(m);
    }
}

/// Evaluates `rules` in order on the current `value` of the field called
/// `label`, and appends to `e` the message of each rule that it does not meet.
pub fn check_rules<P: PredicateTable>(
    label: &str,
    value: &Value,
    rules: &Vec<ConstraintRule>,
    table: &P,
    e: &mut RepErrors,
)
    ensures
        final(e)@ == old(e)@ + rule_violations(table, label@, value@, rule_views(rules@)),
{
    let ghost views = rule_views(rules@);
    let mut i: usize = 0;
    while i < rules.len()
        invariant
            i <= rules.len(),
            views == rule_views(rules@),
            e@ == old(e)@ + rule_violations(table, label@, value@, views.take(i as int)),
        decreases rules.len() - i,
    {
        let (ok, message) = evaluate(label, value, &rules[i], table);
        proof {
            let next = views.take(i + 1);
            assert(next.drop_last() =~= views.take(i as int));
        }
        if let Some(m) = message {
            e.add(m);
        }
        i += 1;
    }
    assert(views.take(rules.len() as int) =~= views);
}

} // verus!
