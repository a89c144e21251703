//! The registry of shared cells.
//!
//! A shared cell is a slot that holds an identifier, or `H5I_INVALID_HID` once the
//! identifier has been released. Every handle reads its identifier from a cell, and
//! handles on the same cell see its invalidation together. The registry owns the
//! cells, in the order in which they were made, and knows for each identifier the
//! cell that was last made for it. A cell is never removed and never written but to
//! invalidate it, so the registry grows for as long as it lives; it is meant to live as
//! long as the native library does.

use vstd::prelude::*;
use std::collections::HashMap;
use crate::handle::Handle;
use crate::ident::H5I_INVALID_HID;

verus! {

/// What a registry holds: the value of each cell, and for each identifier that was
/// ever resolved the index of the cell made for it last.
pub struct RegistryView {
    pub cells: Seq<i32>,
    pub index: Map<i32, int>,
}

impl RegistryView {
    /// What a new registry holds: nothing.
    pub open spec fn empty() -> RegistryView {
        RegistryView { cells: Seq::empty(), index: Map::empty() }
    }

    /// The index leads to cells that exist; the cell it gives for an identifier holds
    /// that identifier unless it was invalidated; and a cell that still holds an
    /// identifier is the one that the index gives for it. So no identifier is held by
    /// two cells at once.
    pub open spec fn wf(self) -> bool {
        &&& forall|id: i32| #[trigger]
            self.index.contains_key(id) ==> {
                &&& 0 <= self.index[id] < self.cells.len()
                &&& self.cells[self.index[id]] == id || self.cells[self.index[id]]
                    == H5I_INVALID_HID
            }
        &&& forall|c: int|
            0 <= c < self.cells.len() && #[trigger] self.cells[c] != H5I_INVALID_HID ==> {
                &&& self.index.contains_key(self.cells[c])
                &&& self.index[self.cells[c]] == c
            }
    }

    /// The identifier that a handle on `cell` reads. A handle without a cell, or with
    /// one that this registry never made, reads `H5I_INVALID_HID`.
    pub open spec fn value(self, cell: Option<int>) -> i32 {
        match cell {
            Some(c) => if 0 <= c < self.cells.len() {
                self.cells[c]
            } else {
                H5I_INVALID_HID
            },
            None => H5I_INVALID_HID,
        }
    }

    /// Whether the cell that the index gives for `id` still holds `id`.
    pub open spec fn is_current(self, id: i32) -> bool {
        &&& self.index.contains_key(id)
        &&& 0 <= self.index[id] < self.cells.len()
        &&& self.cells[self.index[id]] == id
    }

    /// The cell that resolving `id` gives: the one that the index has for it if that
    /// still holds `id`, else a new one.
    pub open spec fn resolved(self, id: i32) -> int {
        if self.is_current(id) {
            self.index[id]
        } else {
            self.cells.len() as int
        }
    }

    /// The registry after resolving `id`: unchanged if the cell that the index gives
    /// for `id` still holds it, else with a new cell that holds `id`, to which the
    /// index now leads.
    pub open spec fn resolve(self, id: i32) -> RegistryView {
        if self.is_current(id) {
            self
        } else {
            RegistryView {
                cells: self.cells.push(id),
                index: self.index.insert(id, self.cells.len() as int),
            }
        }
    }

    /// The registry after invalidating `cell`.
    pub open spec fn invalidate(self, cell: Option<int>) -> RegistryView {
        match cell {
            Some(c) => if 0 <= c < self.cells.len() {
                RegistryView { cells: self.cells.update(c, H5I_INVALID_HID), index: self.index }
            } else {
                self
            },
            None => self,
        }
    }

    /// Whether `later` can come after `self`: no cell is gone, and a cell holds what
    /// it held or has been invalidated.
    pub open spec fn precedes(self, later: RegistryView) -> bool {
        &&& self.cells.len() <= later.cells.len()
        &&& forall|c: int|
            0 <= c < self.cells.len() ==> #[trigger] later.cells[c] == self.cells[c]
                || later.cells[c] == H5I_INVALID_HID
    }
}

impl RegistryView {
    /// Resolving keeps the registry well formed and every cell as it was, and the cell
    /// it gives holds the identifier and is the one that the index has for it.
    pub proof fn lemma_resolve(self, id: i32)
        requires
            self.wf(),
        ensures
            self.resolve(id).wf(),
            self.precedes(self.resolve(id)),
            self.resolve(id).is_current(id),
            self.resolve(id).index[id] == self.resolved(id),
            self.resolve(id).value(Some(self.resolved(id))) == id,
            forall|cell: Option<int>|
                cell != Some(self.cells.len() as int) ==> #[trigger] self.resolve(id).value(cell)
                    == self.value(cell),
    {
    }

    /// Invalidating keeps the registry well formed. The cell reads `H5I_INVALID_HID`
    /// afterwards and every other cell holds what it held.
    pub proof fn lemma_invalidate(self, cell: Option<int>)
        requires
            self.wf(),
        ensures
            self.invalidate(cell).wf(),
            self.precedes(self.invalidate(cell)),
            self.invalidate(cell).value(cell) == H5I_INVALID_HID,
            forall|other: Option<int>|
                other != cell ==> #[trigger] self.invalidate(cell).value(other) == self.value(
                    other,
                ),
    {
    }
}

/// The shared cells, and the cell that each identifier resolves to.
pub struct Registry {
    cells: Vec<i32>,
    index: HashMap<i32, usize>,
}

impl View for Registry {
    type V = RegistryView;

    closed spec fn view(&self) -> RegistryView {
        Registry::holding(self.cells@, self.index@)
    }
}

impl Default for Registry {
    fn default() -> (registry: Registry)
        ensures
            registry@ == RegistryView::empty(),
    {
        Registry::new()
    }
}

impl Registry {
    /// What a registry with the given cells and index holds.
    spec fn holding(cells: Seq<i32>, index: Map<i32, usize>) -> RegistryView {
        RegistryView {
            cells,
            index: Map::new(|id: i32| index.contains_key(id), |id: i32| index[id] as int),
        }
    }

    /// What a registry holds is well formed at all times.
    #[verifier::type_invariant]
    pub open spec fn inv(self) -> bool {
        self@.wf()
    }

    /// A registry without cells.
    pub fn new() -> (registry: Registry)
        ensures
            registry@ == RegistryView::empty(),
    {
        let registry = Registry { cells: Vec::new(), index: HashMap::new() };
        assert(registry@.index =~= Map::empty());
        registry
    }

    /// Resolves `id` to its shared cell and returns a handle on it.
    ///
    /// The cell is the one that an earlier call made for `id`, as long as it still
    /// holds `id`. If it was invalidated since, the native library has released the
    /// object and has now given its number to another one: the new object gets a new
    /// cell, and the handles on the old cell stay invalid.
    pub fn new_handle(&mut self, id: i32) -> (handle: Handle)
        ensures
            final(self)@ == old(self)@.resolve(id),
            final(self)@.wf(),
            handle@ == Some(old(self)@.resolved(id)),
            final(self)@.value(handle@) == id,
            old(self)@.precedes(final(self)@),
    {
        proof {
            use_type_invariant(&*self);
            old(self)@.lemma_resolve(id);
        }
        match self.index.get(&id) {
            Some(found) => {
                let c: usize = *found;
                if c < self.cells.len() && self.cells[c] == id {
                    return Handle { cell: Some(c) };
                }
            },
            None => {},
        }
        // The invariant holds of every registry that can be seen, so the cells and the
        // index are taken out, changed and put back together.
        let mut taken = Registry::new();
        std::mem::swap(self, &mut taken);
        let Registry { mut cells, mut index } = taken;
        let c: usize = cells.len();
        cells.push(id);
        index.insert(id, c);
        assert(Registry::holding(cells@, index@).index =~= old(self)@.index.insert(id, c as int));
        *self = Registry { cells, index };
        Handle { cell: Some(c) }
    }

    /// The identifier that `cell` holds.
    pub(crate) fn read(&self, cell: Option<usize>) -> (id: i32)
        ensures
            id == self@.value(Handle { cell }@),
    {
        match cell {
            Some(c) => {
                if c < self.cells.len() {
                    self.cells[c]
                } else {
                    H5I_INVALID_HID
                }
            },
            None => H5I_INVALID_HID,
        }
    }

    /// Writes `H5I_INVALID_HID` into `cell`.
    pub(crate) fn clear(&mut self, cell: Option<usize>)
        ensures
            final(self)@ == old(self)@.invalidate(Handle { cell }@),
            final(self)@.wf(),
    {
        proof {
            use_type_invariant(&*self);
            old(self)@.lemma_invalidate(Handle { cell }@);
        }
        match cell {
            Some(c) => {
                if c < self.cells.len() {
                    let mut taken = Registry::new();
                    std::mem::swap(self, &mut taken);
                    let Registry { mut cells, index } = taken;
                    cells.set(c, H5I_INVALID_HID);
                    *self = Registry { cells, index };
                }
            },
            None => {},
        }
    }
}

} // verus!
