use vstd::prelude::*;

verus! {

/// Identifier of one open editing pane, assigned and owned by the host.
///
/// The guest never creates or invalidates one; it only passes it back.
pub type ViewId = u64;

/// A text selection: the owning view and a zero-based index into that
/// view's live selection list.
///
/// The value is a coordinate, not a resource: nothing about the selected
/// range is cached, so every read resolves it again against the host's
/// current list. After the host's list changes, the same value may denote
/// another selection or none at all.
#[derive(Default, Clone, Copy, Debug, PartialEq, Eq, Structural, PartialOrd, Ord, Hash)]
pub struct Selection(pub ViewId, pub u64);

impl Selection {
    /// The selection at `index` in the list of `view`.
    pub fn new(view: ViewId, index: u64) -> (r: Selection)
        ensures
            r.0 == view,
            r.1 == index,
    {
        Selection(view, index)
    }

    /// The owning view.
    pub fn view(&self) -> (r: ViewId)
        ensures
            r == self.0,
    {
        self.0
    }

    /// The index into the owning view's selection list.
    pub fn index(&self) -> (r: u64)
        ensures
            r == self.1,
    {
        self.1
    }
}

} // verus!
