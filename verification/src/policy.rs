//! Which checks an operation gets: from how it takes its receiver, what it
//! returns and the mode asked for, to the checks that run round its body.

use vstd::prelude::*;
use vstd::string::StringExecFns;
use crate::text::str_eq;

verus! {

/// How an operation takes the value it belongs to.
#[derive(Debug, Clone, Copy, PartialEq, Eq, Structural)]
pub enum ReceiverAccess {
    /// It takes no receiver.
    Absent,
    /// It reads the receiver.
    Shared,
    /// It may change the receiver.
    Exclusive,
}

/// What the declaration of an operation says of it.
#[derive(Debug, Clone, Copy, PartialEq, Eq, Structural)]
pub struct OperationShape {
    pub receiver_access: ReceiverAccess,
    /// Whether it returns a new instance of the type it belongs to.
    pub produces_owner_instance: bool,
}

/// The checks that are asked for.
#[derive(Debug, Clone, Copy, PartialEq, Eq, Structural)]
pub struct EnforcementMode {
    /// Check the receiver before the body.
    pub check_before: bool,
    /// Check the receiver after the body.
    pub check_after: bool,
    /// Check a newly produced instance after the body.
    pub check_result: bool,
}

/// The checks that run round the body of one operation.
#[derive(Debug, Clone, Copy, PartialEq, Eq, Structural)]
pub struct CheckOption {
    /// The receiver is checked before the body.
    pub prepend: bool,
    /// The receiver is checked after the body.
    pub append: bool,
    /// The returned instance is checked after the body.
    pub return_self: bool,
}

impl EnforcementMode {
    /// Checks before the body only.
    pub fn before_only() -> (m: EnforcementMode)
        ensures
            m == (EnforcementMode { check_before: true, check_after: false, check_result: false }),
    {
        EnforcementMode { check_before: true, check_after: false, check_result: false }
    }

    /// Checks after the body only, of the receiver and of a new instance.
    pub fn after_only() -> (m: EnforcementMode)
        ensures
            m == (EnforcementMode { check_before: false, check_after: true, check_result: true }),
    {
        EnforcementMode { check_before: false, check_after: true, check_result: true }
    }

    /// Checks before and after the body.
    pub fn both() -> (m: EnforcementMode)
        ensures
            m == (EnforcementMode { check_before: true, check_after: true, check_result: true }),
    {
        EnforcementMode { check_before: true, check_after: true, check_result: true }
    }
}

/// The checks that `requested` comes to for an operation of this `shape`.
///
/// Only an operation that may change its receiver has the receiver checked.
/// Such an operation has it checked afterwards also where it returns a new
/// instance and the check of new instances is asked for. A new instance is
/// checked, where that is asked for, whatever the receiver.
pub open spec fn effective(shape: OperationShape, requested: EnforcementMode) -> CheckOption {
    let exclusive = shape.receiver_access == ReceiverAccess::Exclusive;
    let result = shape.produces_owner_instance && requested.check_result;
    CheckOption {
        prepend: exclusive && requested.check_before,
        append: exclusive && (requested.check_after || result),
        return_self: result,
    }
}

/// The checks that `requested` comes to for an operation of this `shape`.
pub fn effective_mode(shape: OperationShape, requested: EnforcementMode) -> (option: CheckOption)
    ensures
        option == effective(shape, requested),
        shape.receiver_access != ReceiverAccess::Exclusive ==> !option.prepend && !option.append,
{
    let exclusive = match shape.receiver_access {
        ReceiverAccess::Exclusive => true,
        _ => false,
    };
    let result = shape.produces_owner_instance && requested.check_result;
    CheckOption {
        prepend: exclusive && requested.check_before,
        append: exclusive && (requested.check_after || result),
        return_self: result,
    }
}

/// How an operation is run with its checks.
#[derive(Debug, Clone, Copy, PartialEq, Eq, Structural)]
pub enum Course {
    /// The body may change the receiver: the receiver is checked round it.
    Receiver,
    /// As `Receiver`, and the instance that the body returns is checked.
    ReceiverAndResult,
    /// The body cannot change a receiver: only the instance that it returns
    /// is checked.
    Result,
}

/// How an operation of this `shape` is run under `option`.
pub open spec fn course_of(shape: OperationShape, option: CheckOption) -> Course {
    if shape.receiver_access != ReceiverAccess::Exclusive {
        Course::Result
    } else if option.return_self {
        Course::ReceiverAndResult
    } else {
        Course::Receiver
    }
}

/// How an operation of this `shape` is run under `option`.
pub fn course(shape: OperationShape, option: CheckOption) -> (c: Course)
    ensures
        c == course_of(shape, option),
{
    match shape.receiver_access {
        ReceiverAccess::Exclusive => if option.return_self {
            Course::ReceiverAndResult
        } else {
            Course::Receiver
        },
        _ => Course::Result,
    }
}

/// An operation that cannot change its receiver never has the receiver
/// checked, whatever is asked for; and where it returns no new instance, or
/// the check of new instances is not asked for, nothing is checked at all.
pub proof fn lemma_shared_receiver_unchecked(shape: OperationShape, requested: EnforcementMode)
    requires
        shape.receiver_access != ReceiverAccess::Exclusive,
    ensures
        !effective(shape, requested).prepend,
        !effective(shape, requested).append,
        !(shape.produces_owner_instance && requested.check_result) ==> effective(shape, requested)
            == (CheckOption { prepend: false, append: false, return_self: false }),
{
}

/// The type that a function is declared to return.
#[derive(Debug)]
pub enum Output {
    /// Nothing is declared.
    Unit,
    /// A path, given by the names of its segments.
    Path(Vec<String>),
    /// Any other type.
    Other,
}

/// What the header of a function says, as far as the checks depend on it.
#[derive(Debug)]
pub struct Signature {
    pub is_async: bool,
    pub receiver: ReceiverAccess,
    pub output: Output,
}

/// A function with its visibility.
#[derive(Debug)]
pub struct Method {
    pub public: bool,
    pub sig: Signature,
}

/// An item of an impl block.
#[derive(Debug)]
pub enum ImplItem {
    Method(Method),
    Other,
}

/// An impl block.
#[derive(Debug)]
pub struct ItemImpl {
    /// The name of the type that the block is for.
    pub self_ty: String,
    pub items: Vec<ImplItem>,
}

/// What the checks can be attached to.
#[derive(Debug)]
pub enum Item {
    Impl(ItemImpl),
    Fn(Method),
    Other,
}

/// The checks of an item: one entry for each item of an impl block, or the
/// entry of a function. An entry is `None` where the body stays as written.
#[derive(Debug, PartialEq, Eq)]
pub enum Wrapped {
    Impl(Vec<Option<CheckOption>>),
    Fn(Option<CheckOption>),
}

/// The item is neither an impl block nor a function.
#[derive(Debug, Clone, Copy, PartialEq, Eq, Structural)]
pub struct WrapError;

impl WrapError {
    /// The text of the error.
    pub fn message(&self) -> (m: String)
        ensures
            m@ == "expected impl block or func"@,
    {
        String::from_str("expected impl block or func")
    }
}

/// What the name of the owner stands for: its text, where it is known.
pub open spec fn owner_text(owner: Option<&str>) -> Option<Seq<char>> {
    match owner {
        Some(name) => Some(name@),
        None => None,
    }
}

impl Output {
    /// Whether the declared type is the type that the function belongs to:
    /// a path of one segment that is `Self`, or the name of the owner where
    /// that is known.
    pub open spec fn is_owner(self, owner: Option<Seq<char>>) -> bool {
        match self {
            Output::Path(segments) => segments@.len() == 1 && (segments@[0]@ == "Self"@ || owner
                == Some(segments@[0]@)),
            _ => false,
        }
    }

    /// Whether the declared type is the type that the function belongs to.
    pub fn names_owner(&self, owner: Option<&str>) -> (yes: bool)
        ensures
            yes == self.is_owner(owner_text(owner)),
    {
        match self {
            Output::Path(segments) => {
                if segments.len() != 1 {
                    return false;
                }
                let written = segments[0].as_str();
                if str_eq(written, "Self") {
                    return true;
                }
                match owner {
                    Some(name) => str_eq(written, name),
                    None => false,
                }
            },
            _ => false,
        }
    }
}

impl Signature {
    /// The shape of the operation that this header declares in a type
    /// called `owner`.
    pub open spec fn shape(self, owner: Option<Seq<char>>) -> OperationShape {
        OperationShape {
            receiver_access: self.receiver,
            produces_owner_instance: self.output.is_owner(owner),
        }
    }

    /// The shape of the operation that this header declares in a type
    /// called `owner`.
    pub fn operation_shape(&self, owner: Option<&str>) -> (shape: OperationShape)
        ensures
            shape == self.shape(owner_text(owner)),
    {
        OperationShape {
            receiver_access: self.receiver,
            produces_owner_instance: self.output.names_owner(owner),
        }
    }
}

/// The checks of a function with this visibility and header, in a type
/// called `owner`: none where it is not public or is async, else those that
/// the three flags come to for its shape.
pub open spec fn fn_checks(
    public: bool,
    sig: Signature,
    owner: Option<Seq<char>>,
    prepend: bool,
    append: bool,
    return_self: bool,
) -> Option<CheckOption> {
    if !public || sig.is_async {
        None
    } else {
        Some(
            effective(
                sig.shape(owner),
                EnforcementMode {
                    check_before: prepend,
                    check_after: append,
                    check_result: return_self,
                },
            ),
        )
    }
}

/// The checks of one item of an impl block for the type called `owner`:
/// those of a method, none for another item.
pub open spec fn impl_item_checks(
    item: ImplItem,
    owner: Seq<char>,
    prepend: bool,
    append: bool,
    return_self: bool,
) -> Option<CheckOption> {
    match item {
        ImplItem::Method(method) => fn_checks(
            method.public,
            method.sig,
            Some(owner),
            prepend,
            append,
            return_self,
        ),
        ImplItem::Other => None,
    }
}

/// Decides the checks of a function from its visibility and header, and from
/// the name of the type it belongs to, where that is known.
pub fn wrap_checks_in_fn(
    public: bool,
    sig: &Signature,
    owner: Option<&str>,
    prepend: bool,
    append: bool,
    return_self: bool,
) -> (checks: Option<CheckOption>)
    ensures
        checks == fn_checks(public, *sig, owner_text(owner), prepend, append, return_self),
{
    if !public {
        return None;
    }
    if sig.is_async {
        return None;
    }
    let requested = EnforcementMode {
        check_before: prepend,
        check_after: append,
        check_result: return_self,
    };
    Some(effective_mode(sig.operation_shape(owner), requested))
}

/// Decides the checks of a method of the type called `owner`.
pub fn wrap_checks_in_method(
    method: &Method,
    owner: Option<&str>,
    prepend: bool,
    append: bool,
    return_self: bool,
) -> (checks: Option<CheckOption>)
    ensures
        checks == fn_checks(
            method.public,
            method.sig,
            owner_text(owner),
            prepend,
            append,
            return_self,
        ),
{
    wrap_checks_in_fn(method.public, &method.sig, owner, prepend, append, return_self)
}

/// Decides the checks of every item of an impl block, in order.
pub fn wrap_checks_in_impl(
    impl_block: &ItemImpl,
    prepend: bool,
    append: bool,
    return_self: bool,
) -> (checks: Vec<Option<CheckOption>>)
    ensures
        checks@.len() == impl_block.items@.len(),
        forall|i: int|
            0 <= i < checks@.len() ==> #[trigger] checks@[i] == impl_item_checks(
                impl_block.items@[i],
                impl_block.self_ty@,
                prepend,
                append,
                return_self,
            ),
{
    let mut checks: Vec<Option<CheckOption>> = Vec::new();
    let mut i: usize = 0;
    while i < impl_block.items.len()
        invariant
            i <= impl_block.items@.len(),
            checks@.len() == i,
            forall|j: int|
                0 <= j < i ==> #[trigger] checks@[j] == impl_item_checks(
                    impl_block.items@[j],
                    impl_block.self_ty@,
                    prepend,
                    append,
                    return_self,
                ),
        decreases impl_block.items@.len() - i,
    {
        let entry = match &impl_block.items[i] {
            ImplItem::Method(method) => wrap_checks_in_method(
                method,
                Some(impl_block.self_ty.as_str()),
                prepend,
                append,
                return_self,
            ),
            ImplItem::Other => None,
        };
        checks.push(entry);
        i += 1;
    }
    checks
}

/// The checks of `item` under the three flags, or the error where it is
/// neither an impl block nor a function. A method of an impl block belongs to
/// the type of the block; of a function by itself the type is not known, and
/// only `Self` names it.
pub open spec fn item_checks_hold(
    item: Item,
    prepend: bool,
    append: bool,
    return_self: bool,
    wrapped: Result<Wrapped, WrapError>,
) -> bool {
    match item {
        Item::Impl(impl_block) => wrapped matches Ok(Wrapped::Impl(checks))
            && checks@.len() == impl_block.items@.len() && forall|i: int|
            0 <= i < checks@.len() ==> #[trigger] checks@[i] == impl_item_checks(
                impl_block.items@[i],
                impl_block.self_ty@,
                prepend,
                append,
                return_self,
            ),
        Item::Fn(method) => wrapped == Ok::<Wrapped, WrapError>(
            Wrapped::Fn(fn_checks(method.public, method.sig, None, prepend, append, return_self)),
        ),
        Item::Other => wrapped is Err,
    }
}

/// Decides the checks of an impl block or of a function.
pub fn wrap_checks_in_impl_or_method(
    item: &Item,
    prepend: bool,
    append: bool,
    return_self: bool,
) -> (wrapped: Result<Wrapped, WrapError>)
    ensures
        item_checks_hold(*item, prepend, append, return_self, wrapped),
{
    match item {
        Item::Impl(impl_block) => Ok(
            Wrapped::Impl(wrap_checks_in_impl(impl_block, prepend, append, return_self)),
        ),
        Item::Fn(method) => Ok(
            Wrapped::Fn(wrap_checks_in_method(method, None, prepend, append, return_self)),
        ),
        Item::Other => Err(WrapError),
    }
}

/// Attaches checks before and after: the receiver before and after the body,
/// and a new instance after it.
pub fn check_rep(item: &Item) -> (wrapped: Result<Wrapped, WrapError>)
    ensures
        item_checks_hold(*item, true, true, true, wrapped),
{
    wrap_checks_in_impl_or_method(item, true, true, true)
}

/// Attaches the check of the receiver before the body.
pub fn require_rep(item: &Item) -> (wrapped: Result<Wrapped, WrapError>)
    ensures
        item_checks_hold(*item, true, false, false, wrapped),
{
    wrap_checks_in_impl_or_method(item, true, false, false)
}

/// Attaches the checks after the body: of the receiver, and of a new
/// instance.
pub fn ensure_rep(item: &Item) -> (wrapped: Result<Wrapped, WrapError>)
    ensures
        item_checks_hold(*item, false, true, true, wrapped),
{
    wrap_checks_in_impl_or_method(item, false, true, true)
}

} // verus!
