use hdf5_handle::{
    CloneStage, DecrefStage, Error, Handle, NativeCall, Registry, Step, H5I_INVALID_HID,
};

#[test]
fn new_wraps_a_user_valid_id() {
    let mut registry = Registry::new();
    let handle = Handle::new(&mut registry, 100, 1).unwrap();
    assert_eq!(handle.id(&registry), 100);
    assert!(handle.is_valid_user_id(1));
}

#[test]
fn new_fails_for_an_id_that_is_not_user_valid() {
    let mut registry = Registry::new();
    assert_eq!(Handle::new(&mut registry, 100, 0), Err(Error::InvalidHandle { id: 100 }));
    assert_eq!(Handle::new(&mut registry, 100, -1), Err(Error::InvalidHandle { id: 100 }));
    assert_eq!(Handle::new(&mut registry, 100, 2), Err(Error::InvalidHandle { id: 100 }));
    assert_eq!(Handle::new(&mut registry, -1, 0), Err(Error::InvalidHandle { id: -1 }));
}

#[test]
fn failed_new_leaves_the_registry_alone() {
    let mut registry = Registry::new();
    let first = registry.new_handle(100);
    first.invalidate(&mut registry);
    // a failed attempt must not replace the stale cell
    assert!(Handle::new(&mut registry, 100, 0).is_err());
    let mut twin = Registry::new();
    let twin_first = twin.new_handle(100);
    twin_first.invalidate(&mut twin);
    assert_eq!(registry.new_handle(100), twin.new_handle(100));
}

#[test]
fn handles_made_for_one_id_share_a_cell() {
    let mut registry = Registry::new();
    let a = Handle::new(&mut registry, 100, 1).unwrap();
    let b = Handle::new(&mut registry, 100, 1).unwrap();
    assert_eq!(a, b);
    a.invalidate(&mut registry);
    assert_eq!(b.id(&registry), H5I_INVALID_HID);
}

#[test]
fn invalid_handle_reads_the_invalid_id() {
    let registry = Registry::new();
    let handle = Handle::invalid();
    assert_eq!(handle.id(&registry), H5I_INVALID_HID);
    assert!(!handle.is_valid_id(&registry, 5));
    assert!(!handle.is_valid_id(&registry, -1));
}

#[test]
fn invalidate_keeps_other_cells() {
    let mut registry = Registry::new();
    let a = Handle::new(&mut registry, 100, 1).unwrap();
    let b = Handle::new(&mut registry, 200, 1).unwrap();
    a.invalidate(&mut registry);
    a.invalidate(&mut registry);
    assert_eq!(a.id(&registry), H5I_INVALID_HID);
    assert_eq!(b.id(&registry), 200);
}

#[test]
fn pass_through_predicates_read_the_answers() {
    let mut registry = Registry::new();
    let handle = Handle::new(&mut registry, 100, 1).unwrap();
    assert!(handle.is_valid_user_id(1));
    assert!(!handle.is_valid_user_id(0));
    assert!(handle.is_valid_id(&registry, 5));
    assert!(!handle.is_valid_id(&registry, -1));
    assert!(!handle.is_valid_id(&registry, 14));
    handle.invalidate(&mut registry);
    assert!(!handle.is_valid_id(&registry, 5));
}

#[test]
fn incref_asks_for_an_increment_of_a_user_valid_id() {
    let mut registry = Registry::new();
    let handle = Handle::new(&mut registry, 100, 1).unwrap();
    assert_eq!(handle.incref(&registry, 1), Some(NativeCall::IncRef(100)));
}

#[test]
fn incref_asks_for_nothing_otherwise() {
    let mut registry = Registry::new();
    let handle = Handle::new(&mut registry, 100, 1).unwrap();
    assert_eq!(handle.incref(&registry, 0), None);
    assert_eq!(handle.incref(&registry, -1), None);
    assert_eq!(Handle::invalid().incref(&registry, 0), None);
}

#[test]
fn decref_stage_by_stage_while_the_object_lives_on() {
    let mut registry = Registry::new();
    let handle = Handle::new(&mut registry, 100, 1).unwrap();
    assert_eq!(
        handle.decref(&mut registry, DecrefStage::Start, 0),
        Step::Call(NativeCall::GetType(100), DecrefStage::TypeBefore)
    );
    assert_eq!(
        handle.decref(&mut registry, DecrefStage::TypeBefore, 5),
        Step::Call(NativeCall::DecRef(100), DecrefStage::Released)
    );
    assert_eq!(
        handle.decref(&mut registry, DecrefStage::Released, 1),
        Step::Call(NativeCall::IsValid(100), DecrefStage::ValidAfter)
    );
    assert_eq!(handle.decref(&mut registry, DecrefStage::ValidAfter, 1), Step::Done(()));
    assert_eq!(handle.id(&registry), 100);
}

#[test]
fn decref_skips_the_decrement_of_an_id_that_is_not_valid() {
    let mut registry = Registry::new();
    let handle = Handle::new(&mut registry, 100, 1).unwrap();
    assert_eq!(
        handle.decref(&mut registry, DecrefStage::TypeBefore, -1),
        Step::Call(NativeCall::IsValid(100), DecrefStage::ValidAfter)
    );
    assert_eq!(
        handle.decref(&mut registry, DecrefStage::TypeBefore, 14),
        Step::Call(NativeCall::IsValid(100), DecrefStage::ValidAfter)
    );
}

#[test]
fn decref_asks_for_the_category_again_when_the_id_is_not_user_valid() {
    let mut registry = Registry::new();
    let handle = Handle::new(&mut registry, 100, 1).unwrap();
    assert_eq!(
        handle.decref(&mut registry, DecrefStage::ValidAfter, 0),
        Step::Call(NativeCall::GetType(100), DecrefStage::TypeAfter)
    );
    assert_eq!(handle.id(&registry), 100);
}

#[test]
fn decref_keeps_an_id_that_is_valid_but_not_counted() {
    let mut registry = Registry::new();
    let handle = registry.new_handle(42);
    // a property list class: valid, never user-valid
    assert_eq!(handle.decref(&mut registry, DecrefStage::TypeAfter, 9), Step::Done(()));
    assert_eq!(handle.id(&registry), 42);
}

#[test]
fn decref_invalidates_the_cell_of_a_released_id() {
    let mut registry = Registry::new();
    let handle = Handle::new(&mut registry, 100, 1).unwrap();
    let sharer = Handle::new(&mut registry, 100, 1).unwrap();
    let other = Handle::new(&mut registry, 200, 1).unwrap();
    assert_eq!(handle.decref(&mut registry, DecrefStage::TypeAfter, -1), Step::Done(()));
    assert_eq!(handle.id(&registry), H5I_INVALID_HID);
    assert_eq!(sharer.id(&registry), H5I_INVALID_HID);
    assert!(!sharer.is_valid_id(&registry, 5));
    assert_eq!(other.id(&registry), 200);
}

#[test]
fn decref_of_an_invalid_handle_asks_about_the_invalid_id_and_changes_nothing() {
    let mut registry = Registry::new();
    let live = Handle::new(&mut registry, 100, 1).unwrap();
    let handle = Handle::invalid();
    assert_eq!(
        handle.decref(&mut registry, DecrefStage::Start, 0),
        Step::Call(NativeCall::GetType(H5I_INVALID_HID), DecrefStage::TypeBefore)
    );
    // whatever the library says of the category, the invalid id is not valid
    assert_eq!(
        handle.decref(&mut registry, DecrefStage::TypeBefore, 5),
        Step::Call(NativeCall::IsValid(H5I_INVALID_HID), DecrefStage::ValidAfter)
    );
    assert_eq!(
        handle.decref(&mut registry, DecrefStage::ValidAfter, 0),
        Step::Call(NativeCall::GetType(H5I_INVALID_HID), DecrefStage::TypeAfter)
    );
    assert_eq!(handle.decref(&mut registry, DecrefStage::TypeAfter, -1), Step::Done(()));
    assert_eq!(live.id(&registry), 100);
    assert_eq!(handle.id(&registry), H5I_INVALID_HID);
}

#[test]
fn clone_stage_by_stage() {
    let mut registry = Registry::new();
    let handle = Handle::new(&mut registry, 100, 1).unwrap();
    assert_eq!(
        handle.clone(&mut registry, CloneStage::Start, 0),
        Step::Call(NativeCall::IsValid(100), CloneStage::Checked)
    );
    assert_eq!(
        handle.clone(&mut registry, CloneStage::Checked, 1),
        Step::Call(NativeCall::IncRef(100), CloneStage::Bumped)
    );
    assert_eq!(
        handle.clone(&mut registry, CloneStage::Bumped, 2),
        Step::Call(NativeCall::IsValid(100), CloneStage::Resolving)
    );
    match handle.clone(&mut registry, CloneStage::Resolving, 1) {
        Step::Done(made) => {
            assert_eq!(made, handle);
            assert_eq!(made.id(&registry), 100);
        },
        other => panic!("{:?}", other),
    }
}

#[test]
fn clone_skips_the_increment_of_an_id_that_is_not_user_valid() {
    let mut registry = Registry::new();
    let handle = Handle::new(&mut registry, 100, 1).unwrap();
    assert_eq!(
        handle.clone(&mut registry, CloneStage::Checked, 0),
        Step::Call(NativeCall::IsValid(100), CloneStage::Resolving)
    );
}

#[test]
fn clone_gives_an_invalid_handle_when_the_id_went_away() {
    let mut registry = Registry::new();
    let handle = Handle::new(&mut registry, 100, 1).unwrap();
    match handle.clone(&mut registry, CloneStage::Resolving, 0) {
        Step::Done(made) => {
            assert_eq!(made, Handle::invalid());
            assert_eq!(made.id(&registry), H5I_INVALID_HID);
        },
        other => panic!("{:?}", other),
    }
    assert_eq!(handle.id(&registry), 100);
}

#[test]
fn clone_of_a_stale_handle_does_not_share_its_cell() {
    let mut registry = Registry::new();
    let stale = Handle::new(&mut registry, 100, 1).unwrap();
    stale.invalidate(&mut registry);
    assert_eq!(
        stale.clone(&mut registry, CloneStage::Start, 0),
        Step::Call(NativeCall::IsValid(H5I_INVALID_HID), CloneStage::Checked)
    );
    match stale.clone(&mut registry, CloneStage::Resolving, 0) {
        Step::Done(made) => assert_eq!(made.id(&registry), H5I_INVALID_HID),
        other => panic!("{:?}", other),
    }
}
