use vstd::prelude::*;
use vstd::utf8::*;

use crate::call::{focus_after, Call};
use crate::focus::{guarded, Focus};
use crate::handle::{Selection, ViewId};
use crate::transfer::{read_result, Transfer, TransferError};

verus! {

/// Where inserted text goes relative to the focused view's selection.
#[derive(Debug, Clone, Copy, PartialEq, Eq, Structural)]
pub enum Insert {
    BeforeSelection,
    AfterSelection,
}

/// The bytes of a buffer the host answered with, if it answered one.
pub open spec fn reply_bytes(reply: Option<Transfer>) -> Option<Seq<u8>> {
    match reply {
        Some(t) => Some(t@),
        None => None,
    }
}

/// Text read from a host answer: no buffer is the empty text.
pub open spec fn text_result(reply: Option<Seq<u8>>) -> Result<Seq<char>, TransferError> {
    match reply {
        None => Ok(Seq::empty()),
        Some(b) => read_result(b),
    }
}

/// The document path read from a host answer. No buffer, and a buffer
/// holding the empty text, both mean that no path is set.
pub open spec fn path_result(reply: Option<Seq<u8>>) -> Result<Option<Seq<char>>, TransferError> {
    match reply {
        None => Ok(None),
        Some(b) => match read_result(b) {
            Err(e) => Err(e),
            Ok(t) => if t.len() == 0 {
                Ok(None)
            } else {
                Ok(Some(t))
            },
        },
    }
}

/// Decodes an optional host buffer as text.
fn read_text(reply: Option<Transfer>) -> (r: Result<String, TransferError>)
    ensures
        match (r, text_result(reply_bytes(reply))) {
            (Ok(s), Ok(t)) => s@ == t,
            (Err(e), Err(f)) => e == f,
            _ => false,
        },
{
    match reply {
        None => Ok(String::new()),
        Some(t) => t.read(),
    }
}

/// The editor facade. It holds no state: each method yields the host call
/// that performs its operation, or interprets what the host answered.
#[derive(Default, Clone, Copy, Debug)]
pub struct Editor;

impl Editor {
    /// The editor context.
    pub fn new() -> (r: Editor) {
        Editor
    }

    /// Create a selection from `start` to `end` in the focused view. The
    /// host answers the new selection's index within that view.
    pub fn add_selection(self, start: usize, end: usize) -> (r: Call)
        ensures
            r == Call::SelectionAdd(start as u64, end as u64),
    {
        Call::SelectionAdd(start as u64, end as u64)
    }

    /// The selections of `view`, which has `count` of them: indices
    /// `0..count` in ascending order.
    pub fn selections(self, view: ViewId, count: u64) -> (r: Vec<Selection>)
        ensures
            r@.len() == count,
            forall|i: int| 0 <= i < count ==> #[trigger] r@[i] == Selection(view, i as u64),
    {
        let mut r: Vec<Selection> = Vec::new();
        let mut n: u64 = 0;
        while n < count
            invariant
                n <= count,
                r@.len() == n,
                forall|i: int| 0 <= i < n ==> #[trigger] r@[i] == Selection(view, i as u64),
            decreases count - n,
        {
            r.push(Selection(view, n));
            n += 1;
        }
        r
    }

    /// Save the document under `filename`, or under its own path without one.
    pub fn save(self, filename: Option<&str>) -> (r: Call)
        ensures
            match filename {
                Some(f) => r matches Call::Save(Some(t)) && t@ == encode_utf8(f@),
                None => r == Call::Save(None),
            },
    {
        match filename {
            Some(f) => Call::Save(Some(Transfer::write(f))),
            None => Call::Save(None),
        }
    }

    /// Set the document's path.
    pub fn set_path(self, filename: &str) -> (r: Call)
        ensures
            r matches Call::SetPath(t) && t@ == encode_utf8(filename@),
    {
        Call::SetPath(Transfer::write(filename))
    }

    /// The document's path, from the host's answer to `Call::GetPath`:
    /// `None` when no path is set.
    pub fn path(self, reply: Option<Transfer>) -> (r: Result<Option<String>, TransferError>)
        ensures
            match (r, path_result(reply_bytes(reply))) {
                (Ok(None), Ok(None)) => true,
                (Ok(Some(s)), Ok(Some(t))) => s@ == t,
                (Err(e), Err(f)) => e == f,
                _ => false,
            },
    {
        match reply {
            None => Ok(None),
            Some(t) => match t.read() {
                Err(e) => Err(e),
                Ok(s) => if s.as_str().is_empty() {
                    Ok(None)
                } else {
                    Ok(Some(s))
                },
            },
        }
    }

    /// Open a file.
    pub fn open(self, filename: &str) -> (r: Call)
        ensures
            r matches Call::Open(t) && t@ == encode_utf8(filename@),
    {
        Call::Open(Transfer::write(filename))
    }

    /// Close the focused document.
    pub fn close(self) -> (r: Call)
        ensures
            r == Call::Close,
    {
        Call::Close
    }

    /// Undo the last change.
    pub fn undo(self) -> (r: Call)
        ensures
            r == Call::Undo,
    {
        Call::Undo
    }

    /// Redo the last undone change.
    pub fn redo(self) -> (r: Call)
        ensures
            r == Call::Redo,
    {
        Call::Redo
    }

    /// Ask for the focused view.
    pub fn view(self) -> (r: Call)
        ensures
            r == Call::FocusedView,
    {
        Call::FocusedView
    }

    /// Focus `view`.
    pub fn focus(self, view: ViewId) -> (r: Call)
        ensures
            r == Call::Focus(view),
    {
        Call::Focus(view)
    }

    /// Move focus to the next view.
    pub fn focus_next(self) -> (r: Call)
        ensures
            r == Call::FocusNext,
    {
        Call::FocusNext
    }

    /// Move focus to the previous view.
    pub fn focus_prev(self) -> (r: Call)
        ensures
            r == Call::FocusPrev,
    {
        Call::FocusPrev
    }

    /// Clear the focused view's selections.
    pub fn clear_selection(self) -> (r: Call)
        ensures
            r == Call::SelectionReset,
    {
        Call::SelectionReset
    }

    /// The focused view's language name, from the host's answer to
    /// `Call::LanguageName`.
    pub fn language_name(self, reply: Option<Transfer>) -> (r: Result<String, TransferError>)
        ensures
            match (r, text_result(reply_bytes(reply))) {
                (Ok(s), Ok(t)) => s@ == t,
                (Err(e), Err(f)) => e == f,
                _ => false,
            },
    {
        read_text(reply)
    }

    /// Insert `text` before or after the focused view's selection.
    pub fn insert_text(self, text: &str, insert: Insert) -> (r: Call)
        ensures
            match insert {
                Insert::BeforeSelection => r matches Call::SelectionInsertTextBefore(t) && t@
                    == encode_utf8(text@),
                Insert::AfterSelection => r matches Call::SelectionInsertTextAfter(t) && t@
                    == encode_utf8(text@),
            },
    {
        let t = Transfer::write(text);
        match insert {
            Insert::BeforeSelection => Call::SelectionInsertTextBefore(t),
            Insert::AfterSelection => Call::SelectionInsertTextAfter(t),
        }
    }

    /// Replace the content of the focused view's selection with `text`.
    pub fn replace_text(self, text: &str) -> (r: Call)
        ensures
            r matches Call::SelectionReplaceText(t) && t@ == encode_utf8(text@),
    {
        Call::SelectionReplaceText(Transfer::write(text))
    }

    /// Show `text` on the status line.
    pub fn set_status(self, text: &str) -> (r: Call)
        ensures
            r matches Call::SetStatus(t) && t@ == encode_utf8(text@),
    {
        Call::SetStatus(Transfer::write(text))
    }

    /// Clear the status line.
    pub fn clear_status(self) -> (r: Call)
        ensures
            r == Call::ClearStatus,
    {
        Call::ClearStatus
    }

    /// Run one command line.
    pub fn execute(self, line: &str) -> (r: Call)
        ensures
            r matches Call::Execute(t) && t@ == encode_utf8(line@),
    {
        Call::Execute(Transfer::write(line))
    }

    /// Ask for the number of lines of the focused document.
    pub fn len_lines(self) -> (r: Call)
        ensures
            r == Call::LenLines,
    {
        Call::LenLines
    }

    /// Ask for the number of characters of the focused document.
    pub fn len_chars(self) -> (r: Call)
        ensures
            r == Call::LenChars,
    {
        Call::LenChars
    }

    /// Ask for the number of bytes of the focused document.
    pub fn len_bytes(self) -> (r: Call)
        ensures
            r == Call::LenBytes,
    {
        Call::LenBytes
    }

    /// Select the whole document, through the command-line channel.
    pub fn select_all(self) -> (r: Call)
        ensures
            r matches Call::Execute(t) && t@ == encode_utf8("select_all"@),
    {
        self.execute("select_all")
    }
}

impl Selection {
    /// The calls that read the start position: focus the owning view, ask
    /// for the bound, restore `current`, the view focused now. The position
    /// is the host's answer to the `SelectionBegin` call.
    pub fn from(self, current: ViewId) -> (r: Vec<Call>)
        ensures
            r@ == guarded(current, self.0, seq![Call::SelectionBegin(self.1)]),
            focus_after(Some(current), r@) == Some(current),
    {
        Focus::new(current, self.0).guard(vec![Call::SelectionBegin(self.1)])
    }

    /// The calls that read the end position, as `from` does for the start.
    pub fn to(self, current: ViewId) -> (r: Vec<Call>)
        ensures
            r@ == guarded(current, self.0, seq![Call::SelectionEnd(self.1)]),
            focus_after(Some(current), r@) == Some(current),
    {
        Focus::new(current, self.0).guard(vec![Call::SelectionEnd(self.1)])
    }

    /// Start reading the selected text, with `current` the view focused now.
    pub fn text(&self, current: ViewId) -> (r: TextRead)
        ensures
            r.guard().spec_prev() == current,
            r.guard().spec_target() == self.0,
            r.index() == self.1,
    {
        TextRead { focus: Focus::new(current, self.0), index: self.1 }
    }
}

/// Reading a selection's text under a focus guard: arm and ask for both
/// bounds (`start`), ask for the text between the answered bounds
/// (`range`), then decode the answer and restore focus (`finish`).
#[derive(Debug)]
pub struct TextRead {
    focus: Focus,
    index: u64,
}

impl TextRead {
    /// The guard the read runs under.
    pub closed spec fn guard(&self) -> Focus {
        self.focus
    }

    /// Index of the selection being read.
    pub closed spec fn index(&self) -> u64 {
        self.index
    }

    /// Arm the guard and ask for the selection's start and end.
    pub fn start(&self) -> (r: Vec<Call>)
        ensures
            r@ == crate::focus::entry_calls(self.guard().spec_prev(), self.guard().spec_target())
                + seq![Call::SelectionBegin(self.index()), Call::SelectionEnd(self.index())],
    {
        let mut calls = self.focus.enter();
        calls.push(Call::SelectionBegin(self.index));
        calls.push(Call::SelectionEnd(self.index));
        calls
    }

    /// Ask for the text between the bounds the host answered.
    pub fn range(&self, from: u64, to: u64) -> (r: Call)
        ensures
            r == Call::Text(from, to),
    {
        Call::Text(from, to)
    }

    /// Decode the host's answer and restore focus. The restoring call comes
    /// back whether or not decoding succeeded.
    pub fn finish(self, reply: Option<Transfer>) -> (r: (Result<String, TransferError>, Call))
        ensures
            r.1 == Call::Focus(self.guard().spec_prev()),
            match (r.0, text_result(reply_bytes(reply))) {
                (Ok(s), Ok(t)) => s@ == t,
                (Err(e), Err(f)) => e == f,
                _ => false,
            },
    {
        let text = read_text(reply);
        (text, self.focus.release())
    }
}

/// Reading a path answers "no path" exactly when the host handed back no
/// buffer or a buffer holding the empty text.
pub proof fn lemma_no_path(reply: Option<Seq<u8>>)
    ensures
        path_result(reply) == Ok::<Option<Seq<char>>, TransferError>(None) <==> (reply is None
            || reply->0.len() == 0),
{
    if let Some(b) = reply {
        if valid_utf8(b) {
            decode_utf8_encode_utf8(b);
            if b.len() != 0 {
                assert(encode_utf8(Seq::<char>::empty()) =~= Seq::<u8>::empty());
            }
        } else {
            assert(b.len() != 0) by {
                if b.len() == 0 {
                    assert(valid_utf8(b));
                }
            }
        }
    }
}

} // verus!
