use hdf5_handle::{Handle, Registry, H5I_INVALID_HID};

#[test]
fn new_registry_resolves_to_a_cell_that_holds_the_id() {
    let mut registry = Registry::new();
    let handle = registry.new_handle(100);
    assert_eq!(handle.id(&registry), 100);
}

#[test]
fn default_registry_is_empty_like_a_new_one() {
    let mut registry = Registry::default();
    let first = registry.new_handle(7);
    let mut other = Registry::new();
    assert_eq!(first, other.new_handle(7));
}

#[test]
fn resolving_a_live_id_twice_gives_the_same_cell() {
    let mut registry = Registry::new();
    let first = registry.new_handle(100);
    let second = registry.new_handle(100);
    assert_eq!(first, second);
    assert_eq!(second.id(&registry), 100);
}

#[test]
fn resolving_other_ids_in_between_does_not_matter() {
    let mut registry = Registry::new();
    let first = registry.new_handle(100);
    let other = registry.new_handle(200);
    let another = registry.new_handle(300);
    another.invalidate(&mut registry);
    let second = registry.new_handle(100);
    assert_eq!(first, second);
    assert_ne!(first, other);
    assert_eq!(first.id(&registry), 100);
    assert_eq!(other.id(&registry), 200);
    assert_eq!(another.id(&registry), H5I_INVALID_HID);
}

#[test]
fn different_ids_get_different_cells() {
    let mut registry = Registry::new();
    let a = registry.new_handle(1);
    let b = registry.new_handle(2);
    assert_ne!(a, b);
    a.invalidate(&mut registry);
    assert_eq!(a.id(&registry), H5I_INVALID_HID);
    assert_eq!(b.id(&registry), 2);
}

#[test]
fn invalidation_is_seen_by_every_handle_on_the_cell() {
    let mut registry = Registry::new();
    let a = registry.new_handle(100);
    let b = registry.new_handle(100);
    let c = registry.new_handle(100);
    b.invalidate(&mut registry);
    assert_eq!(a.id(&registry), H5I_INVALID_HID);
    assert_eq!(b.id(&registry), H5I_INVALID_HID);
    assert_eq!(c.id(&registry), H5I_INVALID_HID);
}

#[test]
fn reused_id_gets_a_new_cell() {
    let mut registry = Registry::new();
    let stale = registry.new_handle(100);
    stale.invalidate(&mut registry);
    let fresh = registry.new_handle(100);
    assert_ne!(stale, fresh);
    assert_eq!(fresh.id(&registry), 100);
    assert_eq!(stale.id(&registry), H5I_INVALID_HID);
    // the two cells are independent in both directions
    stale.invalidate(&mut registry);
    assert_eq!(fresh.id(&registry), 100);
    fresh.invalidate(&mut registry);
    assert_eq!(stale.id(&registry), H5I_INVALID_HID);
    assert_eq!(fresh.id(&registry), H5I_INVALID_HID);
    // and a third object with the same number gets a third cell
    let third = registry.new_handle(100);
    assert_ne!(third, stale);
    assert_ne!(third, fresh);
    assert_eq!(third.id(&registry), 100);
    // which is now the one that the number resolves to
    assert_eq!(registry.new_handle(100), third);
}

#[test]
fn resolving_the_invalid_id_gives_an_invalid_cell() {
    let mut registry = Registry::new();
    let handle = registry.new_handle(H5I_INVALID_HID);
    assert_eq!(handle.id(&registry), H5I_INVALID_HID);
    let again = registry.new_handle(H5I_INVALID_HID);
    assert_eq!(handle, again);
    let live = registry.new_handle(5);
    handle.invalidate(&mut registry);
    assert_eq!(live.id(&registry), 5);
}

#[test]
fn handle_of_another_registry_reads_invalid() {
    let mut big = Registry::new();
    big.new_handle(1);
    big.new_handle(2);
    let third = big.new_handle(3);
    let mut small = Registry::new();
    let only = small.new_handle(9);
    assert_eq!(third.id(&small), H5I_INVALID_HID);
    third.invalidate(&mut small);
    assert_eq!(only.id(&small), 9);
    assert_eq!(third.id(&big), 3);
}

#[test]
fn invalid_handle_has_no_cell() {
    let mut registry = Registry::new();
    let live = registry.new_handle(100);
    let nothing = Handle::invalid();
    assert_eq!(nothing.id(&registry), H5I_INVALID_HID);
    nothing.invalidate(&mut registry);
    assert_eq!(live.id(&registry), 100);
    assert_eq!(nothing.id(&Registry::new()), H5I_INVALID_HID);
    assert_ne!(nothing, live);
}
