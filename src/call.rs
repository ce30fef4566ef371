use vstd::prelude::*;

use crate::handle::ViewId;
use crate::transfer::Transfer;

verus! {

/// One invocation of a host entry point. Text travels in a transfer buffer;
/// every other argument is a plain number.
///
/// Calls that read selection bounds, text or document metrics act on the
/// host's currently focused view.
#[derive(Debug, Clone, PartialEq)]
pub enum Call {
    /// Create a selection from `start` to `end`; the host answers its index.
    SelectionAdd(u64, u64),
    /// The number of selections in the focused view.
    SelectionCount,
    /// Start position of the selection at the index, focused view.
    SelectionBegin(u64),
    /// End position of the selection at the index, focused view.
    SelectionEnd(u64),
    /// Clear the selections of the focused view.
    SelectionReset,
    /// Insert text before the focused view's selection.
    SelectionInsertTextBefore(Transfer),
    /// Insert text after the focused view's selection.
    SelectionInsertTextAfter(Transfer),
    /// Replace the content of the focused view's selection.
    SelectionReplaceText(Transfer),
    /// The focused view's text between two positions; the host answers a buffer.
    Text(u64, u64),
    /// The id of the focused view.
    FocusedView,
    /// Focus the given view.
    Focus(ViewId),
    /// Move focus to the next view.
    FocusNext,
    /// Move focus to the previous view.
    FocusPrev,
    /// Open a file.
    Open(Transfer),
    /// Save the document, under the given path or, without one, its own.
    Save(Option<Transfer>),
    /// Set the document's path.
    SetPath(Transfer),
    /// The document's path; the host answers a buffer or nothing.
    GetPath,
    /// Close the focused document.
    Close,
    /// Undo the last change.
    Undo,
    /// Redo the last undone change.
    Redo,
    /// Show text on the status line.
    SetStatus(Transfer),
    /// Clear the status line.
    ClearStatus,
    /// Run one command line.
    Execute(Transfer),
    /// The focused view's language name; the host answers a buffer.
    LanguageName,
    /// Number of lines of the focused document.
    LenLines,
    /// Number of characters of the focused document.
    LenChars,
    /// Number of bytes of the focused document.
    LenBytes,
}

/// Which view has focus after the host performs `calls`, starting with
/// `start` focused. `None` stands for a focus that the calls alone do not
/// determine: cycling focus, opening or closing a document, and running a
/// command line may each move it anywhere.
pub open spec fn focus_after(start: Option<ViewId>, calls: Seq<Call>) -> Option<ViewId>
    decreases calls.len(),
{
    if calls.len() == 0 {
        start
    } else {
        let before = focus_after(start, calls.drop_last());
        match calls.last() {
            Call::Focus(v) => Some(v),
            Call::FocusNext | Call::FocusPrev | Call::Open(_) | Call::Close | Call::Execute(_) => None,
            _ => before,
        }
    }
}

} // verus!
