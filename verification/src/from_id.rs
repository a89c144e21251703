//! How typed wrappers are built from an identifier.

use vstd::prelude::*;
use crate::error::Error;
use crate::handle::Handle;
use crate::ident::{get_id_type, IdType};
use crate::native::{NativeCall, Step};
use crate::registry::Registry;

verus! {

/// The stages of [`FromID::from_id`]. Each but the first says what the reply answers.
#[derive(Clone, Copy, Debug, PartialEq, Eq, Structural)]
pub enum FromIdStage {
    /// Nothing has been asked yet; the reply is not read.
    Start,
    /// The reply is the category code of the identifier.
    Typed,
    /// The reply is the validity status of the identifier.
    Checked,
}

/// A type of objects that wrap a handle, such as files or datasets.
///
/// An implementation says what the type is called, which categories of identifiers it
/// wraps, and how an object is made of a handle.
pub trait FromID: Sized {
    /// The name of the type, for error messages.
    fn object_type_name() -> String;

    /// Whether an identifier of category `id_type` may be wrapped in this type.
    fn is_valid_id_type(id_type: IdType) -> bool;

    /// Wraps a handle that has been checked.
    fn from_handle(handle: Handle) -> Self;

    /// Builds an object of this type for `id`. Resumable: see [`Step`].
    fn from_id(registry: &mut Registry, id: i32, stage: FromIdStage, reply: i32) -> (step: Step<
        FromIdStage,
        Result<Self, Error>,
    >)
        ensures
            final(registry)@.wf(),
            final(registry)@ == (if stage is Checked {
                Handle::spec_new(old(registry)@, id, reply).0
            } else {
                old(registry)@
            }),
            stage is Start ==> step == Step::<FromIdStage, Result<Self, Error>>::Call(
                NativeCall::GetType(id),
                FromIdStage::Typed,
            ),
            stage is Typed ==> match step {
                Step::Call(call, next) => {
                    &&& call == NativeCall::IsValid(id)
                    &&& next == FromIdStage::Checked
                    &&& call_ensures(
                        Self::is_valid_id_type,
                        (crate::ident::id_type_of(id, reply),),
                        true,
                    )
                },
                Step::Done(Err(Error::WrongType { expected, id: rejected })) => {
                    &&& rejected == id
                    &&& call_ensures(
                        Self::is_valid_id_type,
                        (crate::ident::id_type_of(id, reply),),
                        false,
                    )
                    &&& call_ensures(Self::object_type_name, (), expected)
                },
                _ => false,
            },
            stage is Checked && crate::ident::user_valid(reply) ==> {
                &&& step matches Step::Done(Ok(object))
                &&& exists|handle: Handle|
                    {
                        &&& handle@ == Handle::spec_new(old(registry)@, id, reply).1
                        &&& #[trigger] call_ensures(Self::from_handle, (handle,), object)
                    }
            },
            stage is Checked && !crate::ident::user_valid(reply) ==> step == Step::<
                FromIdStage,
                Result<Self, Error>,
            >::Done(Err(Error::InvalidHandle { id })),
            step matches Step::Call(call, _) ==> !call.spec_changes_refcount() && call.spec_id()
                == id,
    {
        proof {
            use_type_invariant(&*registry);
        }
        match stage {
            FromIdStage::Start => Step::Call(NativeCall::GetType(id), FromIdStage::Typed),
            FromIdStage::Typed => {
                if Self::is_valid_id_type(get_id_type(id, reply)) {
                    Step::Call(NativeCall::IsValid(id), FromIdStage::Checked)
                } else {
                    Step::Done(Err(Error::WrongType { expected: Self::object_type_name(), id }))
                }
            },
            FromIdStage::Checked => match Handle::new(registry, id, reply) {
                Ok(handle) => {
                    let ghost wrapped = handle;
                    let object = Self::from_handle(handle);
                    let step = Step::Done(Ok(object));
                    assert(step->Done_0->Ok_0 == object && call_ensures(
                        Self::from_handle,
                        (wrapped,),
                        object,
                    ));
                    step
                },
                Err(error) => Step::Done(Err(error)),
            },
        }
    }
}

} // verus!
