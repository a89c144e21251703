//! Handles: shared, reference-counted owners of a native identifier.

use vstd::prelude::*;
use crate::error::Error;
use crate::ident::{is_valid_id, is_valid_user_id};
use crate::native::{NativeCall, Step};
use crate::registry::Registry;

verus! {

/// A handle on a shared cell of a [`Registry`]. It means something only together with
/// the registry that made it.
///
/// Two handles are equal when they are on the same cell, or when neither has one. A
/// handle is not `Clone`: another handle for the same identifier comes of
/// [`Handle::clone`], which takes a reference of its own, and each handle is to be
/// released once, with [`Handle::decref`], when its owner is done with it.
#[derive(Debug, PartialEq, Eq)]
pub struct Handle {
    pub(crate) cell: Option<usize>,
}

impl View for Handle {
    type V = Option<int>;

    /// The index of the handle's cell in its registry, if the handle has a cell.
    open(crate) spec fn view(&self) -> Option<int> {
        match self.cell {
            Some(c) => Some(c as int),
            None => None,
        }
    }
}

/// The stages of [`Handle::decref`]. Each but the first says what the reply answers.
#[derive(Clone, Copy, Debug, PartialEq, Eq, Structural)]
pub enum DecrefStage {
    /// Nothing has been asked yet; the reply is not read.
    Start,
    /// The reply is the category code of the identifier, before the decrement.
    TypeBefore,
    /// The reply is what the decrement returned; it is not read.
    Released,
    /// The reply is the validity status of the identifier, after the decrement.
    ValidAfter,
    /// The reply is the category code of the identifier, after the decrement.
    TypeAfter,
}

/// The stages of [`Handle::clone`]. Each but the first says what the reply answers.
#[derive(Clone, Copy, Debug, PartialEq, Eq, Structural)]
pub enum CloneStage {
    /// Nothing has been asked yet; the reply is not read.
    Start,
    /// The reply is the validity status of the identifier, before the increment.
    Checked,
    /// The reply is what the increment returned; it is not read.
    Bumped,
    /// The reply is the validity status of the identifier, after the increment.
    Resolving,
}

impl Handle {
    /// What [`Handle::new`] does to the registry and which cell the new handle gets,
    /// or `None` where it fails.
    pub open spec fn spec_new(
        registry: crate::registry::RegistryView,
        id: i32,
        status: i32,
    ) -> (crate::registry::RegistryView, Option<int>) {
        if crate::ident::user_valid(status) {
            (registry.resolve(id), Some(registry.resolved(id)))
        } else {
            (registry, None)
        }
    }

    /// The call that [`Handle::incref`] asks for, if any.
    pub open spec fn spec_incref(
        registry: crate::registry::RegistryView,
        cell: Option<int>,
        status: i32,
    ) -> Option<NativeCall> {
        if crate::ident::user_valid(status) {
            Some(NativeCall::IncRef(registry.value(cell)))
        } else {
            None
        }
    }

    /// What [`Handle::is_valid_user_id`] returns.
    pub open spec fn spec_is_valid_user_id(status: i32) -> bool {
        crate::ident::user_valid(status)
    }

    /// What [`Handle::is_valid_id`] returns for a handle with the given cell.
    pub open spec fn spec_is_valid_id(
        registry: crate::registry::RegistryView,
        cell: Option<int>,
        native_type: i32,
    ) -> bool {
        crate::ident::id_type_of(registry.value(cell), native_type).spec_is_real()
    }

    /// One step of [`Handle::decref`] on a handle with the given cell: the registry
    /// after it, and what it answers.
    pub open spec fn spec_decref(
        registry: crate::registry::RegistryView,
        cell: Option<int>,
        stage: DecrefStage,
        reply: i32,
    ) -> (crate::registry::RegistryView, Step<DecrefStage, ()>) {
        let id = registry.value(cell);
        match stage {
            DecrefStage::Start => (
                registry,
                Step::Call(NativeCall::GetType(id), DecrefStage::TypeBefore),
            ),
            DecrefStage::TypeBefore => if crate::ident::id_type_of(id, reply).spec_is_real() {
                (registry, Step::Call(NativeCall::DecRef(id), DecrefStage::Released))
            } else {
                (registry, Step::Call(NativeCall::IsValid(id), DecrefStage::ValidAfter))
            },
            DecrefStage::Released => (
                registry,
                Step::Call(NativeCall::IsValid(id), DecrefStage::ValidAfter),
            ),
            DecrefStage::ValidAfter => if crate::ident::user_valid(reply) {
                (registry, Step::Done(()))
            } else {
                (registry, Step::Call(NativeCall::GetType(id), DecrefStage::TypeAfter))
            },
            DecrefStage::TypeAfter => if crate::ident::id_type_of(id, reply).spec_is_real() {
                (registry, Step::Done(()))
            } else {
                (registry.invalidate(cell), Step::Done(()))
            },
        }
    }

    /// One step of [`Handle::clone`] on a handle with the given cell: the registry
    /// after it, and what it answers, with the cell of the clone in place of the clone.
    pub open spec fn spec_clone(
        registry: crate::registry::RegistryView,
        cell: Option<int>,
        stage: CloneStage,
        reply: i32,
    ) -> (crate::registry::RegistryView, Step<CloneStage, Option<int>>) {
        let id = registry.value(cell);
        match stage {
            CloneStage::Start => (
                registry,
                Step::Call(NativeCall::IsValid(id), CloneStage::Checked),
            ),
            CloneStage::Checked => match Handle::spec_incref(registry, cell, reply) {
                Some(call) => (registry, Step::Call(call, CloneStage::Bumped)),
                None => (registry, Step::Call(NativeCall::IsValid(id), CloneStage::Resolving)),
            },
            CloneStage::Bumped => (
                registry,
                Step::Call(NativeCall::IsValid(id), CloneStage::Resolving),
            ),
            CloneStage::Resolving => {
                let (after, made) = Handle::spec_new(registry, id, reply);
                (after, Step::Done(made))
            },
        }
    }

    /// All of [`Handle::decref`] on a handle with the given cell: the registry after it
    /// and the calls it asks for, in order. `type_before` is what the native library
    /// answers to the first call, `status_after` and `type_after` what it answers to
    /// the two that follow the decrement; `type_after` is asked for, and read, only if
    /// `status_after` says that the identifier is not user-valid.
    pub open spec fn spec_decref_run(
        registry: crate::registry::RegistryView,
        cell: Option<int>,
        type_before: i32,
        status_after: i32,
        type_after: i32,
    ) -> (crate::registry::RegistryView, Seq<NativeCall>) {
        let id = registry.value(cell);
        let decrement = if crate::ident::id_type_of(id, type_before).spec_is_real() {
            seq![NativeCall::DecRef(id)]
        } else {
            Seq::empty()
        };
        if crate::ident::user_valid(status_after) {
            (registry, seq![NativeCall::GetType(id)] + decrement + seq![NativeCall::IsValid(id)])
        } else {
            (
                if crate::ident::id_type_of(id, type_after).spec_is_real() {
                    registry
                } else {
                    registry.invalidate(cell)
                },
                seq![NativeCall::GetType(id)] + decrement + seq![
                    NativeCall::IsValid(id),
                    NativeCall::GetType(id),
                ],
            )
        }
    }

    /// The answers that [`Handle::decref`] reads on its way, after the one for its first
    /// stage: `released` is what the decrement returns.
    pub open spec fn spec_decref_replies(
        registry: crate::registry::RegistryView,
        cell: Option<int>,
        type_before: i32,
        released: i32,
        status_after: i32,
        type_after: i32,
    ) -> Seq<i32> {
        let id = registry.value(cell);
        let decrement = if crate::ident::id_type_of(id, type_before).spec_is_real() {
            seq![released]
        } else {
            Seq::empty()
        };
        let recheck = if crate::ident::user_valid(status_after) {
            Seq::empty()
        } else {
            seq![type_after]
        };
        seq![type_before] + decrement + seq![status_after] + recheck
    }

    /// All of [`Handle::clone`] on a handle with the given cell: the registry after it,
    /// the calls it asks for, in order, and the cell of the clone. `status_before` is
    /// what the native library answers to the first call, `status_after` what it answers
    /// to the last.
    pub open spec fn spec_clone_run(
        registry: crate::registry::RegistryView,
        cell: Option<int>,
        status_before: i32,
        status_after: i32,
    ) -> (crate::registry::RegistryView, Seq<NativeCall>, Option<int>) {
        let id = registry.value(cell);
        let increment = if crate::ident::user_valid(status_before) {
            seq![NativeCall::IncRef(id)]
        } else {
            Seq::empty()
        };
        let (after, made) = Handle::spec_new(registry, id, status_after);
        (after, seq![NativeCall::IsValid(id)] + increment + seq![NativeCall::IsValid(id)], made)
    }

    /// The answers that [`Handle::clone`] reads on its way, after the one for its first
    /// stage: `bumped` is what the increment returns.
    pub open spec fn spec_clone_replies(
        status_before: i32,
        bumped: i32,
        status_after: i32,
    ) -> Seq<i32> {
        let increment = if crate::ident::user_valid(status_before) {
            seq![bumped]
        } else {
            Seq::empty()
        };
        seq![status_before] + increment + seq![status_after]
    }

    /// Wraps `id` in a handle, if the native library says that it names a live,
    /// reference-counted object. `status` is the library's answer to
    /// `NativeCall::IsValid(id)`.
    ///
    /// The handle is on the cell that the registry resolves `id` to, so it shares the
    /// cell with every handle made for `id` since the object came to be.
    pub fn new(registry: &mut Registry, id: i32, status: i32) -> (result: Result<Handle, Error>)
        ensures
            final(registry)@.wf(),
            final(registry)@ == Handle::spec_new(old(registry)@, id, status).0,
            match result {
                Ok(handle) => {
                    &&& crate::ident::user_valid(status)
                    &&& handle@ == Handle::spec_new(old(registry)@, id, status).1
                    &&& final(registry)@.value(handle@) == id
                },
                Err(error) => {
                    &&& !crate::ident::user_valid(status)
                    &&& error == (Error::InvalidHandle { id })
                },
            },
    {
        proof {
            use_type_invariant(&*registry);
        }
        if is_valid_user_id(status) {
            Ok(registry.new_handle(id))
        } else {
            Err(Error::InvalidHandle { id })
        }
    }

    /// A handle that names nothing. It has no cell in any registry, so it shares
    /// nothing with any other handle, and it reads `H5I_INVALID_HID` for ever.
    pub fn invalid() -> (handle: Handle)
        ensures
            handle@ is None,
    {
        Handle { cell: None }
    }

    /// The identifier that the handle's cell holds now.
    pub fn id(&self, registry: &Registry) -> (id: i32)
        ensures
            id == registry@.value(self@),
    {
        registry.read(self.cell)
    }

    /// Marks the handle's cell as released. Every handle on the cell reads
    /// `H5I_INVALID_HID` from now on; no other cell changes.
    pub fn invalidate(&self, registry: &mut Registry)
        ensures
            final(registry)@.wf(),
            final(registry)@ == old(registry)@.invalidate(self@),
            final(registry)@.value(self@) == crate::ident::H5I_INVALID_HID,
    {
        registry.clear(self.cell)
    }

    /// Takes a reference to the handle's identifier, if the native library says that
    /// the identifier is reference-counted. `status` is the library's answer to
    /// `NativeCall::IsValid(self.id(registry))`. The result is the call to make:
    /// none for an identifier that is dead or not counted.
    pub fn incref(&self, registry: &Registry, status: i32) -> (call: Option<NativeCall>)
        ensures
            call == Handle::spec_incref(registry@, self@, status),
    {
        if is_valid_user_id(status) {
            Some(NativeCall::IncRef(self.id(registry)))
        } else {
            None
        }
    }

    /// Gives up one reference to the handle's identifier. Resumable: see [`Step`].
    ///
    /// The identifier is decremented if the native library knows it as valid. If the
    /// library then reports it as neither user-valid nor valid, the object is gone and
    /// the library will reuse the number, so the cell is invalidated, for every handle
    /// on it. The registry changes at no other point.
    pub fn decref(&self, registry: &mut Registry, stage: DecrefStage, reply: i32) -> (step: Step<
        DecrefStage,
        (),
    >)
        ensures
            final(registry)@.wf(),
            (final(registry)@, step) == Handle::spec_decref(old(registry)@, self@, stage, reply),
    {
        proof {
            use_type_invariant(&*registry);
        }
        let id = self.id(registry);
        match stage {
            DecrefStage::Start => Step::Call(NativeCall::GetType(id), DecrefStage::TypeBefore),
            DecrefStage::TypeBefore => {
                if is_valid_id(id, reply) {
                    Step::Call(NativeCall::DecRef(id), DecrefStage::Released)
                } else {
                    Step::Call(NativeCall::IsValid(id), DecrefStage::ValidAfter)
                }
            },
            DecrefStage::Released => Step::Call(NativeCall::IsValid(id), DecrefStage::ValidAfter),
            DecrefStage::ValidAfter => {
                if is_valid_user_id(reply) {
                    Step::Done(())
                } else {
                    Step::Call(NativeCall::GetType(id), DecrefStage::TypeAfter)
                }
            },
            DecrefStage::TypeAfter => {
                if !is_valid_id(id, reply) {
                    self.invalidate(registry);
                }
                Step::Done(())
            },
        }
    }

    /// Whether the handle's identifier names a live, reference-counted object.
    /// `status` is the native library's answer to
    /// `NativeCall::IsValid(self.id(registry))`.
    pub fn is_valid_user_id(&self, status: i32) -> (valid: bool)
        ensures
            valid == Handle::spec_is_valid_user_id(status),
    {
        is_valid_user_id(status)
    }

    /// Whether the handle's identifier names a live object of any category.
    /// `native_type` is the native library's answer to
    /// `NativeCall::GetType(self.id(registry))`.
    pub fn is_valid_id(&self, registry: &Registry, native_type: i32) -> (valid: bool)
        ensures
            valid == Handle::spec_is_valid_id(registry@, self@, native_type),
            registry@.value(self@) <= 0 ==> !valid,
    {
        is_valid_id(self.id(registry), native_type)
    }

    /// Makes another handle for the same identifier. Resumable: see [`Step`].
    ///
    /// A reference is taken as [`Handle::incref`] does, and then the identifier is
    /// wrapped as [`Handle::new`] does. If the identifier is no longer valid by then,
    /// the clone is an invalid handle: cloning does not fail.
    pub fn clone(&self, registry: &mut Registry, stage: CloneStage, reply: i32) -> (step: Step<
        CloneStage,
        Handle,
    >)
        ensures
            final(registry)@.wf(),
            final(registry)@ == Handle::spec_clone(old(registry)@, self@, stage, reply).0,
            match step {
                Step::Call(call, next) => Handle::spec_clone(old(registry)@, self@, stage, reply).1
                    == Step::<CloneStage, Option<int>>::Call(call, next),
                Step::Done(made) => Handle::spec_clone(old(registry)@, self@, stage, reply).1
                    == Step::<CloneStage, Option<int>>::Done(made@),
            },
    {
        proof {
            use_type_invariant(&*registry);
        }
        let id = self.id(registry);
        match stage {
            CloneStage::Start => Step::Call(NativeCall::IsValid(id), CloneStage::Checked),
            CloneStage::Checked => match self.incref(registry, reply) {
                Some(call) => Step::Call(call, CloneStage::Bumped),
                None => Step::Call(NativeCall::IsValid(id), CloneStage::Resolving),
            },
            CloneStage::Bumped => Step::Call(NativeCall::IsValid(id), CloneStage::Resolving),
            CloneStage::Resolving => match Handle::new(registry, id, reply) {
                Ok(made) => Step::Done(made),
                Err(_) => Step::Done(Handle::invalid()),
            },
        }
    }
}

} // verus!
