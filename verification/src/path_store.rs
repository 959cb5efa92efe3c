//! The single slot that holds the path of the PDF being presented.

use vstd::prelude::*;

verus! {

/// The slot as a value: empty, or one path.
pub ghost struct Slot {
    pub current: Option<Seq<char>>,
}

impl Slot {
    /// The slot before anything was stored.
    pub open spec fn empty() -> Slot {
        Slot { current: None }
    }

    /// The slot after `path` was stored: whatever it held is replaced.
    pub open spec fn set(self, path: Seq<char>) -> Slot {
        Slot { current: Some(path) }
    }

    /// What a reader of the slot sees.
    pub open spec fn get(self) -> Option<Seq<char>> {
        self.current
    }
}

/// Holds at most one path. A caller that shares the store between threads
/// wraps it in a lock; a write needs exclusive access.
pub struct PathStore {
    current: Option<String>,
}

impl View for PathStore {
    type V = Slot;

    closed spec fn view(&self) -> Slot {
        Slot {
            current: match self.current {
                Some(p) => Some(p@),
                None => None,
            },
        }
    }
}

impl PathStore {
    /// A store that holds no path.
    pub fn new() -> (store: PathStore)
        ensures
            store@ == Slot::empty(),
    {
        PathStore { current: None }
    }

    /// The stored path, or `None` if none was ever set. The store is left as
    /// it was.
    pub fn get_current_path(&self) -> (path: Option<String>)
        ensures
            path.deep_view() == self@.get(),
    {
        match &self.current {
            Some(p) => Some(p.clone()),
            None => None,
        }
    }

    /// Replaces the stored path by `path`. Nothing is asked of the text: it
    /// need not name a file.
    pub fn set_current_path(&mut self, path: String)
        ensures
            final(self)@ == old(self)@.set(path@),
    {
        self.current = Some(path);
    }
}

/// A path that was set is read back as it was given.
pub proof fn lemma_set_then_get(slot: Slot, path: Seq<char>)
    ensures
        slot.set(path).get() == Some(path),
{
}

/// Nothing is read from a store that was never written.
pub proof fn lemma_empty_reads_none()
    ensures
        Slot::empty().get() == None::<Seq<char>>,
{
}

/// Of two writes the later one is read back.
pub proof fn lemma_last_write_wins(slot: Slot, first: Seq<char>, second: Seq<char>)
    ensures
        slot.set(first).set(second).get() == Some(second),
        slot.set(first).set(second) == slot.set(second),
{
}

} // verus!
