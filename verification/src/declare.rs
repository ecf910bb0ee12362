//! From the declarations on the fields of a struct to its rules: which rule
//! each declaration stands for, which fields are checked in turn, and which
//! declarations are in error.

use vstd::prelude::*;
use vstd::string::StringExecFns;
use crate::rule::{ConstraintRule, PredicateTable, Relation, RuleView};
use crate::text::{str_eq, texts};
use crate::value::{Value, ValueKind, ValueView};

verus! {

/// Whether a text can be read as a path, such as `is_valid` or
/// `checks::is_valid`.
pub uninterp spec fn parses_as_path(text: Seq<char>) -> bool;

/// Whether `syn::parse_str::<syn::Path>` accepts `text`: it turns the text
/// into tokens and succeeds where they are one path and nothing more.
///
/// `syn` and `proc-macro2` are built without their `proc-macro` feature, so
/// the lexer is that of `proc-macro2` itself in every process: it gives an
/// error for what it rejects, and the result depends on the text alone. The
/// contract names the result and claims nothing else of it.
#[verifier::external_body]
fn is_path(text: &str) -> (ok: bool)
    ensures
        ok == parses_as_path(text@),
{
    syn::parse_str::<syn::Path>(text).is_ok()
}

/// The tokens, written out, that make the compiler fail with `message`.
pub uninterp spec fn compile_error_tokens(message: Seq<char>) -> Seq<char>;

/// Renders an error as an invocation of `compile_error!`, with
/// `syn::Error::to_compile_error` on an error made of `message` at the call
/// site, and writes the tokens out.
///
/// `syn` and `proc-macro2` are built without their `proc-macro` feature, so
/// the span and the printer are those of `proc-macro2` itself in every
/// process, and the text depends on the message alone. The contract names
/// the result and claims nothing else of it.
#[verifier::external_body]
pub fn error_quote(message: &str) -> (tokens: String)
    ensures
        tokens@ == compile_error_tokens(message@),
{
    syn::Error::new(proc_macro2::Span::call_site(), message).to_compile_error().to_string()
}

/// A literal in a declaration.
#[derive(Debug)]
pub enum Lit {
    Str(String),
    Int(i128),
    /// An integer above those that `Int` holds.
    Uint(u128),
    Bool(bool),
    Char(char),
    /// A literal of any other form.
    Other,
}

/// The content of one declaration.
#[derive(Debug)]
pub enum Meta {
    /// A name by itself, as in `assert_true`.
    Path(String),
    /// A name with a literal, as in `assert_ge = 20`.
    NameValue(String, Lit),
    /// A name with a list of its own.
    List(String),
}

/// One item of the list of an attribute.
#[derive(Debug)]
pub enum NestedMeta {
    Meta(Meta),
    Lit(Lit),
}

/// An attribute on a field.
#[derive(Debug)]
pub enum Attribute {
    /// A name with a list, as in `rep(assert_true)`.
    List(String, Vec<NestedMeta>),
    /// An attribute of any other form.
    Other,
}

/// A field of a struct.
#[derive(Debug)]
pub struct Field {
    /// Its name, where it has one.
    pub ident: Option<String>,
    /// Its type, as written.
    pub ty: String,
    pub attrs: Vec<Attribute>,
}

/// The fields of a struct.
#[derive(Debug)]
pub enum Fields {
    Named(Vec<Field>),
    Unnamed,
    Unit,
}

/// What a type is declared as.
#[derive(Debug)]
pub enum Data {
    Struct(Fields),
    Enum,
    Union,
}

/// The declaration of a type.
#[derive(Debug)]
pub struct DeriveInput {
    pub ident: String,
    pub data: Data,
}

/// What is wrong with a declaration.
#[derive(Debug, Clone, Copy, PartialEq, Eq, Structural)]
pub enum ResolveError {
    /// The type is not a struct.
    ExpectedStruct,
    /// The fields have no names.
    ExpectedNamedFields,
    /// The list of `rep` does not hold exactly one item.
    ExpectedOneItem,
    /// The item of `rep` is a literal.
    InvalidUsage,
    /// No rule has this name or this form.
    Unsupported,
    /// `assert_with` is not given the name of a function.
    ExpectedFunction,
    /// `assert_with` names a function that the table of predicates lacks.
    UnknownPredicate,
    /// The rule or its literal does not fit the type of the field.
    Incompatible,
}

impl ResolveError {
    /// The text of this error.
    pub open spec fn text(self) -> Seq<char> {
        match self {
            ResolveError::ExpectedStruct => "expected name of structure"@,
            ResolveError::ExpectedNamedFields => "expected named fields"@,
            ResolveError::ExpectedOneItem => "expected just 1 item"@,
            ResolveError::InvalidUsage => "invalid usage of #[rep]"@,
            ResolveError::Unsupported => "unsupported representation invariant"@,
            ResolveError::ExpectedFunction =>
                "assert_with can only be used with the name of a function to call"@,
            ResolveError::UnknownPredicate => "assert_with names a function that is not known"@,
            ResolveError::Incompatible => "the rule does not fit the type of the field"@,
        }
    }

    /// The text of this error.
    pub fn message(&self) -> (m: String)
        ensures
            m@ == self.text(),
    {
        match self {
            ResolveError::ExpectedStruct => String::from_str("expected name of structure"),
            ResolveError::ExpectedNamedFields => String::from_str("expected named fields"),
            ResolveError::ExpectedOneItem => String::from_str("expected just 1 item"),
            ResolveError::InvalidUsage => String::from_str("invalid usage of #[rep]"),
            ResolveError::Unsupported => String::from_str("unsupported representation invariant"),
            ResolveError::ExpectedFunction => String::from_str(
                "assert_with can only be used with the name of a function to call",
            ),
            ResolveError::UnknownPredicate => String::from_str(
                "assert_with names a function that is not known",
            ),
            ResolveError::Incompatible => String::from_str(
                "the rule does not fit the type of the field",
            ),
        }
    }
}

/// What a declaration stands for.
#[derive(Debug, PartialEq, Eq)]
pub enum Resolved {
    /// The field is a checked value, to be checked in turn.
    Recurse,
    /// The field is held to this rule.
    Rule(ConstraintRule),
}

/// What a [`Resolved`] stands for.
pub enum ResolvedView {
    Recurse,
    Rule(RuleView),
}

impl View for Resolved {
    type V = ResolvedView;

    open spec fn view(&self) -> ResolvedView {
        match self {
            Resolved::Recurse => ResolvedView::Recurse,
            Resolved::Rule(rule) => ResolvedView::Rule(rule@),
        }
    }
}

/// What a `Result` of resolving stands for.
pub open spec fn resolved_view(r: Result<Resolved, ResolveError>) -> Result<
    ResolvedView,
    ResolveError,
> {
    match r {
        Ok(resolved) => Ok(resolved@),
        Err(error) => Err(error),
    }
}

impl Lit {
    /// The value that this literal writes, where it is of a kind that rules
    /// are evaluated on.
    pub open spec fn value(self) -> Option<ValueView> {
        match self {
            Lit::Str(s) => Some(ValueView::Str(s@)),
            Lit::Int(i) => Some(ValueView::Int(i as int)),
            Lit::Uint(u) => Some(ValueView::Int(u as int)),
            Lit::Bool(b) => Some(ValueView::Bool(b)),
            Lit::Char(c) => Some(ValueView::Char(c)),
            Lit::Other => None,
        }
    }

    /// The value that this literal writes, where it is of a kind that rules
    /// are evaluated on.
    pub fn to_value(&self) -> (v: Option<Value>)
        ensures
            self.value() is None <==> v is None,
            v matches Some(value) ==> self.value() == Some(value@),
    {
        match self {
            Lit::Str(s) => Some(Value::Str(s.clone())),
            Lit::Int(i) => Some(Value::Int(*i)),
            Lit::Uint(u) => Some(Value::Uint(*u)),
            Lit::Bool(b) => Some(Value::Bool(*b)),
            Lit::Char(c) => Some(Value::Char(*c)),
            Lit::Other => None,
        }
    }
}

/// Whether `ty` is the name of an integer type of fixed width.
pub open spec fn is_integer_type(ty: Seq<char>) -> bool {
    ||| ty == "i8"@
    ||| ty == "i16"@
    ||| ty == "i32"@
    ||| ty == "i64"@
    ||| ty == "i128"@
    ||| ty == "isize"@
    ||| ty == "u8"@
    ||| ty == "u16"@
    ||| ty == "u32"@
    ||| ty == "u64"@
    ||| ty == "u128"@
    ||| ty == "usize"@
}

/// The kind of the values of a type, by the name of the type: `bool`, every
/// integer type of fixed width, `char`, and `String` or `str` have a kind of
/// their own.
pub open spec fn type_kind(ty: Seq<char>) -> ValueKind {
    if ty == "bool"@ {
        ValueKind::Bool
    } else if is_integer_type(ty) {
        ValueKind::Int
    } else if ty == "char"@ {
        ValueKind::Char
    } else if ty == "String"@ || ty == "str"@ {
        ValueKind::Str
    } else {
        ValueKind::Other
    }
}

/// Whether `ty` is the name of an integer type of fixed width.
pub fn names_integer_type(ty: &str) -> (yes: bool)
    ensures
        yes == is_integer_type(ty@),
{
    str_eq(ty, "i8") || str_eq(ty, "i16") || str_eq(ty, "i32") || str_eq(ty, "i64") || str_eq(
        ty,
        "i128",
    ) || str_eq(ty, "isize") || str_eq(ty, "u8") || str_eq(ty, "u16") || str_eq(ty, "u32")
        || str_eq(ty, "u64") || str_eq(ty, "u128") || str_eq(ty, "usize")
}

/// The kind of the values of the type called `ty`.
pub fn kind_of_type(ty: &str) -> (kind: ValueKind)
    ensures
        kind == type_kind(ty@),
{
    if str_eq(ty, "bool") {
        ValueKind::Bool
    } else if names_integer_type(ty) {
        ValueKind::Int
    } else if str_eq(ty, "char") {
        ValueKind::Char
    } else if str_eq(ty, "String") || str_eq(ty, "str") {
        ValueKind::Str
    } else {
        ValueKind::Other
    }
}

/// Whether a field of this kind can be held to `rule`: a rule on `true` or
/// `false` needs a boolean, and a literal is of the field's kind. A field of
/// any type can be held to its default and to a predicate.
pub open spec fn fits(kind: ValueKind, rule: RuleView) -> bool {
    match rule {
        RuleView::Default => true,
        RuleView::True => kind == ValueKind::Bool,
        RuleView::False => kind == ValueKind::Bool,
        RuleView::Literal(_, literal) => literal.kind() == kind,
        RuleView::With(_) => true,
    }
}

/// The rule, where a field of this kind can be held to it.
pub open spec fn fitted(kind: ValueKind, rule: RuleView) -> Result<
    ResolvedView,
    ResolveError,
> {
    if fits(kind, rule) {
        Ok(ResolvedView::Rule(rule))
    } else {
        Err(ResolveError::Incompatible)
    }
}

/// The rule that relates a field of this kind to a literal.
pub open spec fn with_literal(kind: ValueKind, relation: Relation, lit: Lit) -> Result<
    ResolvedView,
    ResolveError,
> {
    match lit.value() {
        Some(value) => fitted(kind, RuleView::Literal(relation, value)),
        None => Err(ResolveError::Incompatible),
    }
}

/// What `assert_with` with the name `name` stands for, given whether the name
/// reads as a path and whether the table holds a predicate of that name.
pub open spec fn with_predicate(
    kind: ValueKind,
    name: Seq<char>,
    parses: bool,
    known: bool,
) -> Result<ResolvedView, ResolveError> {
    if !parses {
        Err(ResolveError::ExpectedFunction)
    } else if !known {
        Err(ResolveError::UnknownPredicate)
    } else {
        fitted(kind, RuleView::With(name))
    }
}

/// What a declaration on a field of this kind stands for.
pub open spec fn resolution<P: PredicateTable>(table: &P, meta: Meta, kind: ValueKind) -> Result<
    ResolvedView,
    ResolveError,
> {
    match meta {
        Meta::Path(p) => if p@ == "check"@ {
            if kind == ValueKind::Other {
                Ok(ResolvedView::Recurse)
            } else {
                Err(ResolveError::Incompatible)
            }
        } else if p@ == "assert_default"@ {
            fitted(kind, RuleView::Default)
        } else if p@ == "assert_true"@ {
            fitted(kind, RuleView::True)
        } else if p@ == "assert_false"@ {
            fitted(kind, RuleView::False)
        } else {
            Err(ResolveError::Unsupported)
        },
        Meta::NameValue(p, lit) => if p@ == "assert_eq"@ {
            with_literal(kind, Relation::Eq, lit)
        } else if p@ == "assert_ne"@ {
            with_literal(kind, Relation::Ne, lit)
        } else if p@ == "assert_gt"@ {
            with_literal(kind, Relation::Gt, lit)
        } else if p@ == "assert_lt"@ {
            with_literal(kind, Relation::Lt, lit)
        } else if p@ == "assert_ge"@ {
            with_literal(kind, Relation::Ge, lit)
        } else if p@ == "assert_le"@ {
            with_literal(kind, Relation::Le, lit)
        } else if p@ == "assert_with"@ {
            match lit {
                Lit::Str(name) => with_predicate(
                    kind,
                    name@,
                    parses_as_path(name@),
                    table.resolves(name@),
                ),
                _ => Err(ResolveError::ExpectedFunction),
            }
        } else {
            Err(ResolveError::Unsupported)
        },
        Meta::List(_) => Err(ResolveError::Unsupported),
    }
}

/// A declaration that stands for a rule stands for one that fits the field:
/// a literal is of the field's kind, and a predicate is one that the table
/// holds under a name that reads as a path. Only a field of another type
/// than those with a kind of their own is checked in turn.
pub proof fn lemma_resolved_rule_fits<P: PredicateTable>(table: &P, meta: Meta, kind: ValueKind)
    ensures
        resolution(table, meta, kind) matches Ok(ResolvedView::Rule(rule)) ==> {
            &&& fits(kind, rule)
            &&& rule matches RuleView::Literal(_, literal) ==> literal.kind() == kind
            &&& rule matches RuleView::With(name) ==> parses_as_path(name) && table.resolves(name)
        },
        resolution(table, meta, kind) == Ok::<ResolvedView, ResolveError>(ResolvedView::Recurse)
            ==> kind == ValueKind::Other,
{
}

/// Whether a field of this kind can be held to `rule`.
pub fn rule_fits(kind: ValueKind, rule: &ConstraintRule) -> (ok: bool)
    ensures
        ok == fits(kind, rule@),
{
    match rule {
        ConstraintRule::Default => true,
        ConstraintRule::True => kind == ValueKind::Bool,
        ConstraintRule::False => kind == ValueKind::Bool,
        ConstraintRule::Literal(_, literal) => literal.kind() == kind,
        ConstraintRule::With(_) => true,
    }
}

fn fit(kind: ValueKind, rule: ConstraintRule) -> (r: Result<Resolved, ResolveError>)
    ensures
        resolved_view(r) == fitted(kind, rule@),
{
    if rule_fits(kind, &rule) {
        Ok(Resolved::Rule(rule))
    } else {
        Err(ResolveError::Incompatible)
    }
}

fn relate(kind: ValueKind, relation: Relation, lit: &Lit) -> (r: Result<
    Resolved,
    ResolveError,
>)
    ensures
        resolved_view(r) == with_literal(kind, relation, *lit),
{
    match lit.to_value() {
        Some(value) => fit(kind, ConstraintRule::Literal(relation, value)),
        None => Err(ResolveError::Incompatible),
    }
}

/// Resolves `assert_with` with the name `name` on a field of this kind, given
/// whether the name reads as a path (`parses`) and whether the table holds a
/// predicate of that name (`known`).
pub fn resolve_with(kind: ValueKind, name: &str, parses: bool, known: bool) -> (r: Result<
    Resolved,
    ResolveError,
>)
    ensures
        resolved_view(r) == with_predicate(kind, name@, parses, known),
        !parses ==> r == Err::<Resolved, ResolveError>(ResolveError::ExpectedFunction),
        parses && !known ==> r == Err::<Resolved, ResolveError>(ResolveError::UnknownPredicate),
        parses && known ==> (r matches Ok(Resolved::Rule(ConstraintRule::With(n))) && n@
            == name@),
{
    if !parses {
        Err(ResolveError::ExpectedFunction)
    } else if !known {
        Err(ResolveError::UnknownPredicate)
    } else {
        fit(kind, ConstraintRule::With(String::from_str(name)))
    }
}

/// Resolves one declaration on a field of this kind: the rule it stands for,
/// or that the field is checked in turn, or what is wrong with it.
pub fn resolve<P: PredicateTable>(meta: &Meta, kind: ValueKind, table: &P) -> (r: Result<
    Resolved,
    ResolveError,
>)
    ensures
        resolved_view(r) == resolution(table, *meta, kind),
{
    match meta {
        Meta::Path(p) => {
            let p = p.as_str();
            if str_eq(p, "check") {
                match kind {
                    ValueKind::Other => Ok(Resolved::Recurse),
                    _ => Err(ResolveError::Incompatible),
                }
            } else if str_eq(p, "assert_default") {
                fit(kind, ConstraintRule::Default)
            } else if str_eq(p, "assert_true") {
                fit(kind, ConstraintRule::True)
            } else if str_eq(p, "assert_false") {
                fit(kind, ConstraintRule::False)
            } else {
                Err(ResolveError::Unsupported)
            }
        },
        Meta::NameValue(p, lit) => {
            let p = p.as_str();
            if str_eq(p, "assert_eq") {
                relate(kind, Relation::Eq, lit)
            } else if str_eq(p, "assert_ne") {
                relate(kind, Relation::Ne, lit)
            } else if str_eq(p, "assert_gt") {
                relate(kind, Relation::Gt, lit)
            } else if str_eq(p, "assert_lt") {
                relate(kind, Relation::Lt, lit)
            } else if str_eq(p, "assert_ge") {
                relate(kind, Relation::Ge, lit)
            } else if str_eq(p, "assert_le") {
                relate(kind, Relation::Le, lit)
            } else if str_eq(p, "assert_with") {
                match lit {
                    Lit::Str(name) => {
                        let parses = is_path(name.as_str());
                        let known = table.has(name.as_str());
                        resolve_with(kind, name.as_str(), parses, known)
                    },
                    _ => Err(ResolveError::ExpectedFunction),
                }
            } else {
                Err(ResolveError::Unsupported)
            }
        },
        Meta::List(_) => Err(ResolveError::Unsupported),
    }
}

/// A rule with the field that it is declared on.
#[derive(Debug, PartialEq, Eq)]
pub struct FieldRule {
    pub field: String,
    pub rule: ConstraintRule,
}

/// What a [`FieldRule`] stands for.
pub struct FieldRuleView {
    pub field: Seq<char>,
    pub rule: RuleView,
}

impl View for FieldRule {
    type V = FieldRuleView;

    open spec fn view(&self) -> FieldRuleView {
        FieldRuleView { field: self.field@, rule: self.rule@ }
    }
}

/// What each of `rules` stands for, in order.
pub open spec fn field_rule_views(rules: Seq<FieldRule>) -> Seq<FieldRuleView> {
    Seq::new(rules.len(), |i: int| rules[i]@)
}

/// The rules of a struct: the rules of its fields in the order of
/// declaration, and the fields that are checked in turn, in that order too.
#[derive(Debug, PartialEq, Eq)]
pub struct Derived {
    pub rules: Vec<FieldRule>,
    pub recurse: Vec<String>,
}

/// What has been gathered from declarations: rules, errors and the fields to
/// check in turn, each in the order of declaration.
pub struct Gathered {
    pub rules: Seq<FieldRuleView>,
    pub errors: Seq<ResolveError>,
    pub recurse: Seq<Seq<char>>,
}

impl Gathered {
    /// Nothing gathered.
    pub open spec fn empty() -> Gathered {
        Gathered { rules: Seq::empty(), errors: Seq::empty(), recurse: Seq::empty() }
    }

    /// This, and then the error.
    pub open spec fn with_error(self, error: ResolveError) -> Gathered {
        Gathered { errors: self.errors.push(error), ..self }
    }

    /// What the three collections hold.
    pub open spec fn of(rules: Seq<FieldRule>, errors: Seq<ResolveError>, recurse: Seq<String>) -> Gathered {
        Gathered { rules: field_rule_views(rules), errors, recurse: texts(recurse) }
    }
}

/// What is gathered after one more declaration, `meta` on `field`: one more
/// rule, one more field to check in turn, or one more error.
pub open spec fn after_meta<P: PredicateTable>(
    table: &P,
    g: Gathered,
    meta: Meta,
    field: Field,
) -> Gathered {
    match field.ident {
        None => g.with_error(ResolveError::ExpectedNamedFields),
        Some(ident) => match resolution(table, meta, type_kind(field.ty@)) {
            Ok(ResolvedView::Recurse) => Gathered { recurse: g.recurse.push(ident@), ..g },
            Ok(ResolvedView::Rule(rule)) => Gathered {
                rules: g.rules.push(FieldRuleView { field: ident@, rule }),
                ..g
            },
            Err(error) => g.with_error(error),
        },
    }
}

/// What is gathered after one more attribute of `field`. Only a list named
/// `rep` counts; it is to hold one item, and that a declaration.
pub open spec fn after_attr<P: PredicateTable>(
    table: &P,
    g: Gathered,
    attr: Attribute,
    field: Field,
) -> Gathered {
    match attr {
        Attribute::List(path, nested) => if path@ != "rep"@ {
            g
        } else if nested@.len() != 1 {
            g.with_error(ResolveError::ExpectedOneItem)
        } else {
            match nested@[0] {
                NestedMeta::Meta(meta) => after_meta(table, g, meta, field),
                NestedMeta::Lit(_) => g.with_error(ResolveError::InvalidUsage),
            }
        },
        Attribute::Other => g,
    }
}

/// What is gathered after the first `n` attributes of `field`.
pub open spec fn after_attrs<P: PredicateTable>(
    table: &P,
    g: Gathered,
    field: Field,
    n: int,
) -> Gathered
    decreases n,
{
    if n <= 0 {
        g
    } else {
        after_attr(table, after_attrs(table, g, field, n - 1), field.attrs@[n - 1], field)
    }
}

/// What is gathered after the first `n` of `fields`, each with all its
/// attributes.
pub open spec fn after_fields<P: PredicateTable>(
    table: &P,
    g: Gathered,
    fields: Seq<Field>,
    n: int,
) -> Gathered
    decreases n,
{
    if n <= 0 {
        g
    } else {
        let field = fields[n - 1];
        after_attrs(table, after_fields(table, g, fields, n - 1), field, field.attrs@.len() as int)
    }
}

/// What the declaration of a type comes to: a type that is no struct, or a
/// struct without named fields, is an error; else every declaration on every
/// field counts, in order.
pub open spec fn gathered<P: PredicateTable>(table: &P, input: DeriveInput) -> Gathered {
    match input.data {
        Data::Struct(Fields::Named(fields)) => after_fields(
            table,
            Gathered::empty(),
            fields@,
            fields@.len() as int,
        ),
        Data::Struct(_) => Gathered::empty().with_error(ResolveError::ExpectedNamedFields),
        _ => Gathered::empty().with_error(ResolveError::ExpectedStruct),
    }
}

/// Resolves one declaration, `meta` on `field`, into the three collections:
/// its rule goes to `rules`, a field to check in turn to
/// `fields_to_recurse_on`, and what is wrong to `errors`.
pub fn check_indie_fields<P: PredicateTable>(
    meta: &Meta,
    field: &Field,
    table: &P,
    rules: &mut Vec<FieldRule>,
    errors: &mut Vec<ResolveError>,
    fields_to_recurse_on: &mut Vec<String>,
)
    ensures
        Gathered::of(final(rules)@, final(errors)@, final(fields_to_recurse_on)@) == after_meta(
            table,
            Gathered::of(old(rules)@, old(errors)@, old(fields_to_recurse_on)@),
            *meta,
            *field,
        ),
{
    let ghost before = Gathered::of(rules@, errors@, fields_to_recurse_on@);
    let ghost after = after_meta(table, before, *meta, *field);
    match &field.ident {
        None => {
            errors.push(ResolveError::ExpectedNamedFields);
        },
        Some(ident) => match resolve(meta, kind_of_type(field.ty.as_str()), table) {
            Ok(Resolved::Recurse) => {
                fields_to_recurse_on.push(ident.clone());
            },
            Ok(Resolved::Rule(rule)) => {
                rules.push(FieldRule { field: ident.clone(), rule });
            },
            Err(error) => {
                errors.push(error);
            },
        },
    }
    let ghost now = Gathered::of(rules@, errors@, fields_to_recurse_on@);
    assert(now.rules =~= after.rules);
    assert(now.recurse =~= after.recurse);
}

fn check_attr<P: PredicateTable>(
    attr: &Attribute,
    field: &Field,
    table: &P,
    rules: &mut Vec<FieldRule>,
    errors: &mut Vec<ResolveError>,
    fields_to_recurse_on: &mut Vec<String>,
)
    ensures
        Gathered::of(final(rules)@, final(errors)@, final(fields_to_recurse_on)@) == after_attr(
            table,
            Gathered::of(old(rules)@, old(errors)@, old(fields_to_recurse_on)@),
            *attr,
            *field,
        ),
{
    if let Attribute::List(path, nested) = attr {
        if !str_eq(path.as_str(), "rep") {
            return ;
        }
        if nested.len() != 1 {
            errors.push(ResolveError::ExpectedOneItem);
            return ;
        }
        match &nested[0] {
            NestedMeta::Meta(meta) => {
                check_indie_fields(meta, field, table, rules, errors, fields_to_recurse_on);
            },
            NestedMeta::Lit(_) => {
                errors.push(ResolveError::InvalidUsage);
            },
        }
    }
}

/// Resolves the declaration of a type: the rules of its fields and the
/// fields to check in turn, or, where any declaration is in error, all the
/// errors, in the order of declaration.
pub fn derive_check_indie_fields<P: PredicateTable>(input: &DeriveInput, table: &P) -> (r: Result<
    Derived,
    Vec<ResolveError>,
>)
    ensures
        match r {
            Ok(derived) => {
                &&& gathered(table, *input).errors.len() == 0
                &&& field_rule_views(derived.rules@) == gathered(table, *input).rules
                &&& texts(derived.recurse@) == gathered(table, *input).recurse
            },
            Err(errors) => errors@.len() > 0 && errors@ == gathered(table, *input).errors,
        },
{
    let mut rules: Vec<FieldRule> = Vec::new();
    let mut errors: Vec<ResolveError> = Vec::new();
    let mut recurse: Vec<String> = Vec::new();
    assert(Gathered::of(rules@, errors@, recurse@).rules =~= Gathered::empty().rules);
    assert(Gathered::of(rules@, errors@, recurse@).recurse =~= Gathered::empty().recurse);
    match &input.data {
        Data::Struct(Fields::Named(fields)) => {
            let mut i: usize = 0;
            while i < fields.len()
                invariant
                    i <= fields@.len(),
                    Gathered::of(rules@, errors@, recurse@) == after_fields(
                        table,
                        Gathered::empty(),
                        fields@,
                        i as int,
                    ),
                decreases fields@.len() - i,
            {
                let field = &fields[i];
                let mut j: usize = 0;
                while j < field.attrs.len()
                    invariant
                        i < fields@.len(),
                        *field == fields@[i as int],
                        j <= field.attrs@.len(),
                        Gathered::of(rules@, errors@, recurse@) == after_attrs(
                            table,
                            after_fields(table, Gathered::empty(), fields@, i as int),
                            *field,
                            j as int,
                        ),
                    decreases field.attrs@.len() - j,
                {
                    check_attr(&field.attrs[j], field, table, &mut rules, &mut errors, &mut recurse);
                    j += 1;
                }
                i += 1;
            }
        },
        Data::Struct(_) => {
            errors.push(ResolveError::ExpectedNamedFields);
        },
        _ => {
            errors.push(ResolveError::ExpectedStruct);
        },
    }
    if errors.len() > 0 {
        Err(errors)
    } else {
        Ok(Derived { rules, recurse })
    }
}

/// The tokens that report `errors` to the compiler, one invocation of
/// `compile_error!` for each, in order.
pub fn error_quotes(errors: &Vec<ResolveError>) -> (tokens: Vec<String>)
    ensures
        tokens@.len() == errors@.len(),
        forall|i: int|
            0 <= i < errors@.len() ==> (#[trigger] tokens@[i])@ == compile_error_tokens(
                errors@[i].text(),
            ),
{
    let mut tokens: Vec<String> = Vec::new();
    let mut i: usize = 0;
    while i < errors.len()
        invariant
            i <= errors@.len(),
            tokens@.len() == i,
            forall|j: int|
                0 <= j < i ==> (#[trigger] tokens@[j])@ == compile_error_tokens(errors@[j].text()),
        decreases errors@.len() - i,
    {
        let message = errors[i].message();
        tokens.push(error_quote(message.as_str()));
        i += 1;
    }
    tokens
}

} // verus!
