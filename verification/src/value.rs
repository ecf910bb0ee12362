//! The values that a field can hold and a rule can name.

use vstd::prelude::*;
use vstd::std_specs::cmp::PartialEqSpecImpl;
use vstd::string::StringExecFns;
use crate::text::{decimal, push_char, push_decimal, push_unsigned, str_below, text_below};

verus! {

/// The kinds of value that rules are evaluated on.
#[derive(Debug, Clone, Copy, PartialEq, Eq, Structural)]
pub enum ValueKind {
    Bool,
    Int,
    Char,
    Str,
    /// Any other type.
    Other,
}

/// The current value of a field, or the literal of a rule.
///
/// An integer of any fixed width is held as `Int` or as `Uint`, and the two
/// stand for the same number where they hold the same number. A value of
/// any other type is held by what rules and messages need of it: its text,
/// and whether it is the default of its type.
#[derive(Debug)]
pub enum Value {
    Bool(bool),
    Int(i128),
    Uint(u128),
    Char(char),
    Str(String),
    Other { text: String, is_default: bool },
}

/// What a [`Value`] stands for.
pub enum ValueView {
    Bool(bool),
    Int(int),
    Char(char),
    Str(Seq<char>),
    Other { text: Seq<char>, is_default: bool },
}

impl View for Value {
    type V = ValueView;

    open spec fn view(&self) -> ValueView {
        match self {
            Value::Bool(b) => ValueView::Bool(*b),
            Value::Int(i) => ValueView::Int(*i as int),
            Value::Uint(u) => ValueView::Int(*u as int),
            Value::Char(c) => ValueView::Char(*c),
            Value::Str(s) => ValueView::Str(s@),
            Value::Other { text, is_default } => ValueView::Other {
                text: text@,
                is_default: *is_default,
            },
        }
    }
}

impl ValueView {
    /// The kind of this value.
    pub open spec fn kind(self) -> ValueKind {
        match self {
            ValueView::Bool(_) => ValueKind::Bool,
            ValueView::Int(_) => ValueKind::Int,
            ValueView::Char(_) => ValueKind::Char,
            ValueView::Str(_) => ValueKind::Str,
            ValueView::Other { .. } => ValueKind::Other,
        }
    }

    /// Whether this value is the default of its type: `false`, zero, the
    /// character of code point zero, the empty string; of a value of another
    /// type, what it says of itself.
    pub open spec fn is_default(self) -> bool {
        match self {
            ValueView::Bool(b) => !b,
            ValueView::Int(i) => i == 0,
            ValueView::Char(c) => c == '\0',
            ValueView::Str(s) => s.len() == 0,
            ValueView::Other { is_default, .. } => is_default,
        }
    }

    /// The text that stands for this value in a message: `true` or `false`,
    /// a decimal numeral, the character, the string itself, or the text of a
    /// value of another type.
    pub open spec fn display(self) -> Seq<char> {
        match self {
            ValueView::Bool(b) => if b {
                "true"@
            } else {
                "false"@
            },
            ValueView::Int(i) => decimal(i),
            ValueView::Char(c) => seq![c],
            ValueView::Str(s) => s,
            ValueView::Other { text, .. } => text,
        }
    }

    /// Whether both are of one kind and `self` is below `other`: integers by
    /// their size, `false` below `true`, characters by their code points,
    /// strings by their UTF-8 encodings. Values of other types have no
    /// order.
    pub open spec fn below(self, other: ValueView) -> bool {
        match (self, other) {
            (ValueView::Int(a), ValueView::Int(b)) => a < b,
            (ValueView::Bool(a), ValueView::Bool(b)) => !a && b,
            (ValueView::Char(a), ValueView::Char(b)) => (a as u32) < (b as u32),
            (ValueView::Str(a), ValueView::Str(b)) => text_below(a, b),
            _ => false,
        }
    }
}

impl Value {
    /// The kind of this value.
    pub fn kind(&self) -> (k: ValueKind)
        ensures
            k == self@.kind(),
    {
        match self {
            Value::Bool(_) => ValueKind::Bool,
            Value::Int(_) => ValueKind::Int,
            Value::Uint(_) => ValueKind::Int,
            Value::Char(_) => ValueKind::Char,
            Value::Str(_) => ValueKind::Str,
            Value::Other { .. } => ValueKind::Other,
        }
    }

    /// Whether this value is the default of its type.
    pub fn is_default(&self) -> (d: bool)
        ensures
            d == self@.is_default(),
    {
        match self {
            Value::Bool(b) => !*b,
            Value::Int(i) => *i == 0,
            Value::Uint(u) => *u == 0,
            Value::Char(c) => *c == '\0',
            Value::Str(s) => s.as_str().is_empty(),
            Value::Other { is_default, .. } => *is_default,
        }
    }

    /// Whether the two values are of one kind and equal.
    pub fn equals(&self, other: &Value) -> (same: bool)
        ensures
            same == (self@ == other@),
    {
        match (self, other) {
            (Value::Bool(a), Value::Bool(b)) => *a == *b,
            (Value::Int(a), Value::Int(b)) => *a == *b,
            (Value::Uint(a), Value::Uint(b)) => *a == *b,
            (Value::Int(a), Value::Uint(b)) => *a >= 0 && *a as u128 == *b,
            (Value::Uint(a), Value::Int(b)) => *b >= 0 && *a == *b as u128,
            (Value::Char(a), Value::Char(b)) => *a == *b,
            (Value::Str(a), Value::Str(b)) => *a == *b,
            (
                Value::Other { text: a, is_default: c },
                Value::Other { text: b, is_default: d },
            ) => *a == *b && *c == *d,
            _ => false,
        }
    }

    /// Whether both are of one kind and `self` is below `other`.
    pub fn is_below(&self, other: &Value) -> (below: bool)
        ensures
            below == self@.below(other@),
    {
        match (self, other) {
            (Value::Int(a), Value::Int(b)) => *a < *b,
            (Value::Uint(a), Value::Uint(b)) => *a < *b,
            (Value::Int(a), Value::Uint(b)) => *a < 0 || (*a as u128) < *b,
            (Value::Uint(a), Value::Int(b)) => *b >= 0 && *a < *b as u128,
            (Value::Bool(a), Value::Bool(b)) => !*a && *b,
            (Value::Char(a), Value::Char(b)) => (*a as u32) < (*b as u32),
            (Value::Str(a), Value::Str(b)) => str_below(a.as_str(), b.as_str()),
            _ => false,
        }
    }

    /// Appends the text of this value to `s`.
    pub fn push_to(&self, s: &mut String)
        ensures
            final(s)@ == old(s)@ + self@.display(),
    {
        match self {
            Value::Bool(b) => {
                if *b {
                    s.append("true");
                } else {
                    s.append("false");
                }
            },
            Value::Int(i) => {
                push_decimal(s, *i);
            },
            Value::Uint(u) => {
                push_unsigned(s, *u);
            },
            Value::Char(c) => {
                push_char(s, *c);
            },
            Value::Str(t) => {
                s.append(t.as_str());
            },
            Value::Other { text, .. } => {
                s.append(text.as_str());
            },
        }
    }

    /// The text of this value, as it stands in a message.
    pub fn render(&self) -> (s: String)
        ensures
            s@ == self@.display(),
    {
        let mut s = String::new();
        self.push_to(&mut s);
        s
    }
}

impl PartialEq for Value {
    fn eq(&self, other: &Value) -> (same: bool) {
        self.equals(other)
    }
}

impl PartialEqSpecImpl for Value {
    open spec fn obeys_eq_spec() -> bool {
        true
    }

    open spec fn eq_spec(&self, other: &Value) -> bool {
        self@ == other@
    }
}

impl Eq for Value {

}

} // verus!
