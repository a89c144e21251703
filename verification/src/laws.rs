//! What holds of the handles and the registry whatever the native library answers.

use vstd::prelude::*;
use crate::handle::{CloneStage, DecrefStage, Handle};
use crate::ident::{IdType, H5I_INVALID_HID};
use crate::native::NativeCall;
use crate::registry::RegistryView;

verus! {

/// A handle made for an identifier that the native library reports as user-valid reads
/// that identifier, and the report that admitted the identifier makes the handle
/// user-valid too.
pub proof fn lemma_new_handle_reads_its_id(registry: RegistryView, id: i32, status: i32)
    requires
        registry.wf(),
        crate::ident::user_valid(status),
    ensures
        ({
            let (after, made) = Handle::spec_new(registry, id, status);
            &&& made is Some
            &&& after.wf()
            &&& after.value(made) == id
            &&& Handle::spec_is_valid_user_id(status)
        }),
{
}

/// The category that a code names has that code, a number that is the code of no
/// category names none, and every category is the one that its code names.
pub proof fn lemma_from_code_inverts_code(code: int)
    ensures
        match IdType::spec_from_code(code) {
            Some(tp) => tp.spec_code() == code,
            None => forall|tp: IdType| tp.spec_code() != code,
        },
        forall|tp: IdType| #[trigger] IdType::spec_from_code(tp.spec_code()) == Some(tp),
{
}

/// An identifier that is not positive has the category `BadId` and is not valid,
/// whatever the native library says of it.
pub proof fn lemma_nonpositive_id_is_bad(id: i32, native_type: i32)
    requires
        id <= 0,
    ensures
        crate::ident::id_type_of(id, native_type) == IdType::BadId,
        !crate::ident::id_type_of(id, native_type).spec_is_real(),
{
}

/// The category of an identifier is `BadId` or the category of a live identifier,
/// and in the second case it is the one that the native library reported.
pub proof fn lemma_id_type_is_bad_or_reported(id: i32, native_type: i32)
    ensures
        ({
            let tp = crate::ident::id_type_of(id, native_type);
            tp == IdType::BadId || (tp.spec_is_real() && tp.spec_code() == native_type && id > 0)
        }),
{
}

/// Driven step by step with the answers of the native library, the release of a handle
/// asks for the calls and leaves the registry as `Handle::spec_decref_run` says: it asks
/// for the category; decrements if that is the category of a live identifier; asks
/// whether the identifier is user-valid; and if it is not, asks for the category again
/// and invalidates the cell unless that is the category of a live identifier.
pub proof fn lemma_decref_run(
    registry: RegistryView,
    cell: Option<int>,
    first: i32,
    type_before: i32,
    released: i32,
    status_after: i32,
    type_after: i32,
)
    ensures
        crate::native::drive(
            |r: RegistryView, stage: DecrefStage, reply: i32|
                Handle::spec_decref(r, cell, stage, reply),
            registry,
            DecrefStage::Start,
            seq![first] + Handle::spec_decref_replies(
                registry,
                cell,
                type_before,
                released,
                status_after,
                type_after,
            ),
        ) == (
            Handle::spec_decref_run(registry, cell, type_before, status_after, type_after).0,
            Handle::spec_decref_run(registry, cell, type_before, status_after, type_after).1,
            Some(()),
        ),
{
    reveal_with_fuel(crate::native::drive, 6);
    let answers = Handle::spec_decref_replies(
        registry,
        cell,
        type_before,
        released,
        status_after,
        type_after,
    );
    assert((seq![first] + answers).drop_first() =~= answers);
}

/// Driven step by step with the answers of the native library, the cloning of a handle
/// asks for the calls, leaves the registry and gives the clone as
/// `Handle::spec_clone_run` says: it asks whether the identifier is user-valid;
/// increments if it is; asks again; and wraps the identifier in a new handle if it
/// still is, else gives an invalid handle.
pub proof fn lemma_clone_run(
    registry: RegistryView,
    cell: Option<int>,
    first: i32,
    status_before: i32,
    bumped: i32,
    status_after: i32,
)
    ensures
        crate::native::drive(
            |r: RegistryView, stage: CloneStage, reply: i32|
                Handle::spec_clone(r, cell, stage, reply),
            registry,
            CloneStage::Start,
            seq![first] + Handle::spec_clone_replies(status_before, bumped, status_after),
        ) == (
            Handle::spec_clone_run(registry, cell, status_before, status_after).0,
            Handle::spec_clone_run(registry, cell, status_before, status_after).1,
            Some(Handle::spec_clone_run(registry, cell, status_before, status_after).2),
        ),
{
    reveal_with_fuel(crate::native::drive, 5);
    let answers = Handle::spec_clone_replies(status_before, bumped, status_after);
    assert((seq![first] + answers).drop_first() =~= answers);
}

/// No step of a clone changes a cell that exists: the handle that is cloned, and every
/// other handle, reads afterwards what it read before.
pub proof fn lemma_clone_keeps_every_handle(
    registry: RegistryView,
    cloned: Option<int>,
    stage: CloneStage,
    reply: i32,
    other: Option<int>,
)
    requires
        registry.wf(),
    ensures
        Handle::spec_clone(registry, cloned, stage, reply).0.wf(),
        Handle::spec_clone(registry, cloned, stage, reply).0.value(other) == registry.value(other),
{
}

/// The clone of a handle on a live identifier is on the same cell as the handle, if
/// the native library reports the identifier as user-valid when the clone is made.
pub proof fn lemma_clone_shares_the_cell(registry: RegistryView, cloned: Option<int>, reply: i32)
    requires
        registry.wf(),
        registry.value(cloned) != H5I_INVALID_HID,
        crate::ident::user_valid(reply),
    ensures
        Handle::spec_clone(registry, cloned, CloneStage::Resolving, reply) == (
            registry,
            crate::native::Step::<CloneStage, Option<int>>::Done(cloned),
        ),
{
}

/// Cloning a handle and releasing the clone again leaves the handle as it was, as long
/// as the native library still holds the object: if the library reports the
/// identifier as user-valid or as valid after the decrement, the handle that was
/// cloned reads the identifier that it read before, whatever else the library answered.
pub proof fn lemma_clone_then_release_keeps_source(
    registry: RegistryView,
    source: Option<int>,
    status_before: i32,
    status_cloned: i32,
    type_before: i32,
    status_after: i32,
    type_after: i32,
)
    requires
        registry.wf(),
        crate::ident::user_valid(status_after) || crate::ident::id_type_of(
            registry.value(source),
            type_after,
        ).spec_is_real(),
    ensures
        ({
            let (cloned, _, made) = Handle::spec_clone_run(
                registry,
                source,
                status_before,
                status_cloned,
            );
            let (after, _) = Handle::spec_decref_run(
                cloned,
                made,
                type_before,
                status_after,
                type_after,
            );
            &&& after.wf()
            &&& after.value(source) == registry.value(source)
            &&& Handle::spec_is_valid_id(after, source, type_after)
                == Handle::spec_is_valid_id(registry, source, type_after)
        }),
{
}

/// When the release of a handle ends with the native library reporting the identifier
/// as neither user-valid nor valid, every handle on the same cell reads
/// `H5I_INVALID_HID` from then on and is valid by no answer of the library, and every
/// handle on another cell reads what it read before.
pub proof fn lemma_last_release_invalidates_sharers(
    registry: RegistryView,
    released: Option<int>,
    other: Option<int>,
    type_before: i32,
    status_after: i32,
    type_after: i32,
    later_type: i32,
)
    requires
        registry.wf(),
        !crate::ident::user_valid(status_after),
        !crate::ident::id_type_of(registry.value(released), type_after).spec_is_real(),
    ensures
        ({
            let (after, _) = Handle::spec_decref_run(
                registry,
                released,
                type_before,
                status_after,
                type_after,
            );
            &&& after.wf()
            &&& other == released ==> {
                &&& after.value(other) == H5I_INVALID_HID
                &&& !Handle::spec_is_valid_id(after, other, later_type)
            }
            &&& other != released ==> after.value(other) == registry.value(other)
        }),
{
}

/// The release of a handle that reads `H5I_INVALID_HID` asks the native library for
/// no change and leaves the registry as it is, whatever the library answers. So a
/// handle may be released when it is invalid already, and more than once.
pub proof fn lemma_release_of_invalid_handle(
    registry: RegistryView,
    cell: Option<int>,
    type_before: i32,
    status_after: i32,
    type_after: i32,
)
    requires
        registry.value(cell) == H5I_INVALID_HID,
    ensures
        ({
            let (after, calls) = Handle::spec_decref_run(
                registry,
                cell,
                type_before,
                status_after,
                type_after,
            );
            &&& after == registry
            &&& forall|i: int|
                0 <= i < calls.len() ==> !(#[trigger] calls[i]).spec_changes_refcount()
        }),
{
    assert(registry.invalidate(cell).cells =~= registry.cells);
}

/// A step of a release changes the registry only where the release asks at last, and
/// only if the native library reports the identifier as not valid there.
pub proof fn lemma_release_changes_nothing_before_the_end(
    registry: RegistryView,
    released: Option<int>,
    stage: DecrefStage,
    reply: i32,
)
    requires
        !(stage is TypeAfter) || crate::ident::id_type_of(
            registry.value(released),
            reply,
        ).spec_is_real(),
    ensures
        Handle::spec_decref(registry, released, stage, reply).0 == registry,
{
}

/// Resolving an identifier again, while the cell made for it still holds it, gives the
/// same cell and makes no new one. Resolving other identifiers and invalidating other
/// cells in between does not change this.
pub proof fn lemma_resolve_again_gives_same_cell(
    registry: RegistryView,
    id: i32,
    between: i32,
    invalidated: Option<int>,
)
    requires
        registry.wf(),
        invalidated != Some(registry.resolved(id)),
    ensures
        ({
            let first = registry.resolve(id);
            let later = first.resolve(between).invalidate(invalidated);
            &&& first.resolved(id) == registry.resolved(id)
            &&& first.resolve(id) == first
            &&& later.resolved(id) == registry.resolved(id)
            &&& later.resolve(id) == later
        }),
{
}

/// When a cell has been invalidated and the native library gives the identifier that
/// it held to another object, resolving the identifier makes a new cell. The new cell
/// holds the identifier; the old one stays invalid, also when the new one is
/// invalidated in its turn.
pub proof fn lemma_reused_id_gets_new_cell(registry: RegistryView, stale: Option<int>, id: i32)
    requires
        registry.wf(),
        registry.value(stale) == id,
        id != H5I_INVALID_HID,
    ensures
        ({
            let gone = registry.invalidate(stale);
            let fresh = Some(gone.resolved(id));
            let after = gone.resolve(id);
            &&& fresh != stale
            &&& fresh == Some(registry.cells.len() as int)
            &&& after.wf()
            &&& after.value(fresh) == id
            &&& after.value(stale) == H5I_INVALID_HID
            &&& after.invalidate(fresh).value(stale) == H5I_INVALID_HID
            &&& after.invalidate(stale).value(fresh) == id
        }),
{
}

/// No identifier is held by two cells at once.
pub proof fn lemma_live_id_has_one_cell(registry: RegistryView, a: int, b: int)
    requires
        registry.wf(),
        0 <= a < registry.cells.len(),
        0 <= b < registry.cells.len(),
        registry.cells[a] == registry.cells[b],
        registry.cells[a] != H5I_INVALID_HID,
    ensures
        a == b,
{
}

/// Whatever a handle is asked to do, the registry stays well formed, no cell is
/// lost, and a cell holds afterwards what it held before or `H5I_INVALID_HID`.
pub proof fn lemma_steps_keep_the_registry(
    registry: RegistryView,
    cell: Option<int>,
    id: i32,
    reply: i32,
    decref_stage: DecrefStage,
    clone_stage: CloneStage,
)
    requires
        registry.wf(),
    ensures
        Handle::spec_new(registry, id, reply).0.wf(),
        registry.precedes(Handle::spec_new(registry, id, reply).0),
        Handle::spec_decref(registry, cell, decref_stage, reply).0.wf(),
        registry.precedes(Handle::spec_decref(registry, cell, decref_stage, reply).0),
        Handle::spec_clone(registry, cell, clone_stage, reply).0.wf(),
        registry.precedes(Handle::spec_clone(registry, cell, clone_stage, reply).0),
{
}

} // verus!
