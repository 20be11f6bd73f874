//! The focus registry: the last window observed to hold foreground focus,
//! per virtual desktop.

use std::collections::HashMap;
use vstd::prelude::*;

verus! {

broadcast use vstd::std_specs::hash::group_hash_axioms;

/// Remembers, for each desktop index, the window that last held foreground
/// focus while that desktop was active: at most one entry per index, and a
/// new save for an index overwrites the previous entry.
///
/// A stored handle is a plain platform-issued integer and may refer to a
/// window that has since been destroyed; the registry never validates
/// entries, so consumers must validate a handle before using it.
pub struct FocusRegistry {
    entries: HashMap<u32, u64>,
}

impl View for FocusRegistry {
    type V = Map<u32, u64>;

    /// The registry's mathematical content: a partial map from desktop index
    /// to the raw handle of the window that last held focus there.
    closed spec fn view(&self) -> Map<u32, u64> {
        self.entries@
    }
}

impl FocusRegistry {
    /// An empty registry: no desktop has a recorded focus yet.
    pub fn new() -> (r: FocusRegistry)
        ensures
            r@ == Map::<u32, u64>::empty(),
    {
        FocusRegistry { entries: HashMap::new() }
    }

    /// Upserts the entry for `desktop_index`: afterwards that index maps to
    /// `window`, and every other index maps to what it mapped to before.
    pub fn save(&mut self, desktop_index: u32, window: u64)
        ensures
            final(self)@ == old(self)@.insert(desktop_index, window),
    {
        self.entries.insert(desktop_index, window);
    }

    /// Returns the last handle saved for `desktop_index`, or `None` when
    /// nothing was ever saved for it.
    pub fn lookup(&self, desktop_index: u32) -> (r: Option<u64>)
        ensures
            r == if self@.contains_key(desktop_index) {
                Some(self@[desktop_index])
            } else {
                None::<u64>
            },
    {
        match self.entries.get(&desktop_index) {
            Some(window) => Some(*window),
            None => None,
        }
    }
}

/// The process-wide focus state as it stands when the process starts: an
/// empty registry. The event loop creates this once and owns it for the
/// process lifetime.
pub fn state() -> (r: FocusRegistry)
    ensures
        r@ == Map::<u32, u64>::empty(),
{
    FocusRegistry::new()
}

/// Entries do not cross-contaminate: saving for desktop `j` leaves what is
/// recorded for a different desktop `i` untouched, so after `save(i, w)` and
/// then `save(j, w2)` a lookup of `i` still finds `w`.
pub proof fn lemma_save_independent(r: FocusRegistry, i: u32, w: u64, j: u32, w2: u64)
    requires
        i != j,
    ensures
        r@.insert(i, w).insert(j, w2).contains_key(i),
        r@.insert(i, w).insert(j, w2)[i] == w,
{
}

/// Saving is idempotent: repeating a save with the same arguments yields the
/// same registry as performing it once.
pub proof fn lemma_save_idempotent(r: FocusRegistry, i: u32, w: u64)
    ensures
        r@.insert(i, w).insert(i, w) == r@.insert(i, w),
{
    assert(r@.insert(i, w).insert(i, w) =~= r@.insert(i, w));
}

} // verus!
