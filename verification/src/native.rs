//! What the crate asks of the native library, and how a resumable operation proceeds.

use vstd::prelude::*;

verus! {

/// One call into the native library. Every call takes an identifier and answers with
/// a C `int`.
#[derive(Clone, Copy, Debug, PartialEq, Eq, Structural)]
pub enum NativeCall {
    /// Ask for the category of the identifier. The answer is the category's code.
    GetType(i32),
    /// Ask whether the identifier names a live, reference-counted object. The answer
    /// is read by [`is_valid_user_id`](crate::ident::is_valid_user_id).
    IsValid(i32),
    /// Add one to the native reference count of the identifier. The answer is not
    /// read.
    IncRef(i32),
    /// Take one from the native reference count of the identifier. With its last
    /// reference an object goes, and the library may give its number to another. The
    /// answer is not read.
    DecRef(i32),
}

impl NativeCall {
    /// The identifier that the call is about.
    pub open spec fn spec_id(self) -> i32 {
        match self {
            NativeCall::GetType(id) => id,
            NativeCall::IsValid(id) => id,
            NativeCall::IncRef(id) => id,
            NativeCall::DecRef(id) => id,
        }
    }

    /// Whether the call changes a native reference count. The other calls only ask.
    pub open spec fn spec_changes_refcount(self) -> bool {
        self is IncRef || self is DecRef
    }

    /// The identifier that the call is about.
    pub fn id(&self) -> (id: i32)
        ensures
            id == self.spec_id(),
    {
        match self {
            NativeCall::GetType(id) => *id,
            NativeCall::IsValid(id) => *id,
            NativeCall::IncRef(id) => *id,
            NativeCall::DecRef(id) => *id,
        }
    }

    /// Whether the call changes a native reference count.
    pub fn changes_refcount(&self) -> (yes: bool)
        ensures
            yes == self.spec_changes_refcount(),
    {
        match self {
            NativeCall::GetType(_) => false,
            NativeCall::IsValid(_) => false,
            NativeCall::IncRef(_) => true,
            NativeCall::DecRef(_) => true,
        }
    }
}

/// How a resumable operation answers each time it is called.
///
/// The caller starts the operation at its first stage, with any number for a reply.
/// On `Call(call, stage)` it performs `call` and calls the operation again with
/// `stage` and the answer of the native library. On `Done(result)` the operation has
/// finished.
#[derive(Debug, PartialEq, Eq)]
pub enum Step<S, T> {
    Call(NativeCall, S),
    Done(T),
}

/// What comes of a resumable operation that is driven from `stage` with the answers
/// `replies`, one for each time it is called: the registry at the end, the calls that it
/// asked for, in order, and its result if it got that far. The first answer goes to
/// the first stage, which does not read it. Answers that are left when the operation
/// is done are not read either.
///
/// `operation` is one step of the operation on what a registry holds, such as
/// `|registry, stage, reply| Handle::spec_decref(registry, cell, stage, reply)`.
pub open spec fn drive<S, T>(
    operation: spec_fn(crate::registry::RegistryView, S, i32) -> (
        crate::registry::RegistryView,
        Step<S, T>,
    ),
    registry: crate::registry::RegistryView,
    stage: S,
    replies: Seq<i32>,
) -> (crate::registry::RegistryView, Seq<NativeCall>, Option<T>)
    decreases replies.len(),
{
    if replies.len() == 0 {
        (registry, Seq::empty(), None)
    } else {
        let (after, step) = operation(registry, stage, replies[0]);
        match step {
            Step::Done(result) => (after, Seq::empty(), Some(result)),
            Step::Call(call, next) => {
                let (last, calls, result) = drive(operation, after, next, replies.drop_first());
                (last, seq![call] + calls, result)
            },
        }
    }
}

} // verus!
