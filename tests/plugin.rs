use helix_plugin::call::Call;
use helix_plugin::command::Command;
use helix_plugin::editor::{Editor, Insert};
use helix_plugin::focus::Focus;
use helix_plugin::handle::Selection;
use helix_plugin::transfer::{Transfer, TransferError};

/// Applies the focus changes among `calls` to the focused view `start`,
/// the way the host does.
fn focused_after(start: u64, calls: &[Call]) -> u64 {
    let mut focused = start;
    for c in calls {
        if let Call::Focus(v) = c {
            focused = *v;
        }
    }
    focused
}

fn executed_line(call: Call) -> Vec<u8> {
    match call {
        Call::Execute(t) => t.release(),
        other => panic!("not a command line: {:?}", other),
    }
}

#[test]
fn it_works() {}

#[test]
fn typed_command_with_argument() {
    let call = Command::new_typed("w").arg("foo.txt").execute();
    assert_eq!(executed_line(call), b":w \"foo.txt\"".to_vec());
    let mut c = Command::new_typed("w");
    c.arg("foo.txt");
    assert_eq!(c.line(), ":w \"foo.txt\"");
}

#[test]
fn untyped_command_has_no_trailing_space() {
    let c = Command::new("i");
    assert_eq!(c.line(), "i");
    assert_eq!(executed_line(Command::new("i").execute()), b"i".to_vec());
}

#[test]
fn command_arguments_keep_their_order() {
    let mut c = Command::new("open");
    c.args(&["a", "b c"]).arg("d");
    assert_eq!(c.line(), "open \"a\" \"b c\" \"d\"");
    c.typed(true);
    assert_eq!(c.line(), ":open \"a\" \"b c\" \"d\"");
    assert_eq!(c.clone().typed(false).line(), "open \"a\" \"b c\" \"d\"");
    assert_eq!(Command::new("x").args(&[]).line(), "x");
}

#[test]
fn command_arguments_are_not_escaped() {
    let mut c = Command::new("echo");
    c.arg("say \"hi\"\\");
    assert_eq!(c.line(), "echo \"say \"hi\"\\\"");
}

#[test]
fn command_executes_the_same_line_twice() {
    let mut c = Command::new_typed("undo");
    let first = c.execute();
    assert_eq!(first, c.execute());
    assert_eq!(c, Command::new_typed("undo"));
}

#[test]
fn transfer_round_trip() {
    for s in ["", "hello", "héllo wörld ✓ 漢字 🦀"] {
        let t = Transfer::write(s);
        assert_eq!(t.as_bytes(), s.as_bytes());
        assert_eq!(t.len(), s.len());
        assert_eq!(t.read(), Ok(s.to_string()));
        assert_eq!(t.release(), s.as_bytes().to_vec());
    }
}

#[test]
fn transfer_decodes_host_bytes() {
    let t = Transfer::from_bytes(vec![0x63, 0x61, 0x66, 0xc3, 0xa9]);
    assert_eq!(t.read(), Ok("café".to_string()));
}

#[test]
fn transfer_rejects_malformed_text() {
    let t = Transfer::from_bytes(vec![0x61, 0xff, 0x62]);
    assert_eq!(t.read(), Err(TransferError::Decode));
    let t = Transfer::from_bytes(vec![0xc3]);
    assert_eq!(t.read(), Err(TransferError::Decode));
}

#[test]
fn path_absent_when_no_buffer_or_empty_text() {
    assert_eq!(Editor.path(None), Ok(None));
    assert_eq!(Editor.path(Some(Transfer::write(""))), Ok(None));
    assert_eq!(Editor.path(Some(Transfer::from_bytes(Vec::new()))), Ok(None));
}

#[test]
fn path_present() {
    assert_eq!(
        Editor.path(Some(Transfer::write("/tmp/notes.md"))),
        Ok(Some("/tmp/notes.md".to_string()))
    );
}

#[test]
fn path_malformed_is_an_error() {
    assert_eq!(
        Editor.path(Some(Transfer::from_bytes(vec![0xfe]))),
        Err(TransferError::Decode)
    );
}

#[test]
fn language_name_from_reply() {
    assert_eq!(Editor.language_name(Some(Transfer::write("rust"))), Ok("rust".to_string()));
    assert_eq!(Editor.language_name(None), Ok(String::new()));
    assert_eq!(
        Editor.language_name(Some(Transfer::from_bytes(vec![0x80]))),
        Err(TransferError::Decode)
    );
}

#[test]
fn selections_enumerate_the_count() {
    let sels = Editor::new().selections(7, 3);
    assert_eq!(sels, vec![Selection::new(7, 0), Selection::new(7, 1), Selection::new(7, 2)]);
    let mut it = sels.into_iter();
    assert_eq!(it.next().map(|s| s.index()), Some(0));
    assert_eq!(it.by_ref().count(), 2);
    assert_eq!(it.next(), None);
    assert!(Editor.selections(7, 0).is_empty());
}

#[test]
fn selections_order() {
    let a = Selection::new(1, 5);
    let b = Selection::new(2, 0);
    let c = Selection::new(1, 6);
    assert!(a < c && c < b);
    assert_eq!(a.view(), 1);
    assert_eq!(a.index(), 5);
    assert_eq!(Selection::default(), Selection::new(0, 0));
}

#[test]
fn selection_bounds_restore_focus() {
    let s = Selection::new(4, 2);
    let from = s.from(9);
    assert_eq!(from, vec![Call::Focus(4), Call::SelectionBegin(2), Call::Focus(9)]);
    assert_eq!(focused_after(9, &from), 9);
    let to = s.to(9);
    assert_eq!(to, vec![Call::Focus(4), Call::SelectionEnd(2), Call::Focus(9)]);
    assert_eq!(focused_after(9, &to), 9);
}

#[test]
fn selection_bounds_in_focused_view() {
    let s = Selection::new(4, 0);
    assert_eq!(s.from(4), vec![Call::SelectionBegin(0), Call::Focus(4)]);
}

#[test]
fn focus_guard_calls() {
    let f = Focus::new(1, 2);
    assert_eq!(f.previous(), 1);
    assert_eq!(f.target(), 2);
    assert_eq!(f.enter(), vec![Call::Focus(2)]);
    assert_eq!(f.focus(), Call::Focus(2));
    assert_eq!(f.release(), Call::Focus(1));
    assert_eq!(Focus::new(3, 3).enter(), Vec::new());
}

#[test]
fn focus_guard_wraps_body() {
    let calls = Focus::new(1, 2).guard(vec![Call::FocusNext, Call::Undo]);
    assert_eq!(
        calls,
        vec![Call::Focus(2), Call::FocusNext, Call::Undo, Call::Focus(1)]
    );
    assert_eq!(focused_after(1, &calls), 1);
}

#[test]
fn nested_focus_guards_restore() {
    let inner = Focus::new(2, 3).guard(vec![Call::LenLines]);
    let outer = Focus::new(1, 2).guard(inner);
    assert_eq!(
        outer,
        vec![Call::Focus(2), Call::Focus(3), Call::LenLines, Call::Focus(2), Call::Focus(1)]
    );
    assert_eq!(focused_after(1, &outer), 1);
}

#[test]
fn selection_text_read() {
    let read = Selection::new(5, 1).text(8);
    let mut calls = read.start();
    assert_eq!(calls, vec![Call::Focus(5), Call::SelectionBegin(1), Call::SelectionEnd(1)]);
    calls.push(read.range(3, 7));
    assert_eq!(calls[3], Call::Text(3, 7));
    let (text, restore) = read.finish(Some(Transfer::write("word")));
    assert_eq!(text, Ok("word".to_string()));
    assert_eq!(restore, Call::Focus(8));
    calls.push(restore);
    assert_eq!(focused_after(8, &calls), 8);
}

#[test]
fn selection_text_restores_focus_on_decode_failure() {
    let read = Selection::new(5, 0).text(8);
    let mut calls = read.start();
    calls.push(read.range(0, 1));
    let (text, restore) = read.finish(Some(Transfer::from_bytes(vec![0xff])));
    assert_eq!(text, Err(TransferError::Decode));
    assert_eq!(restore, Call::Focus(8));
    calls.push(restore);
    assert_eq!(focused_after(8, &calls), 8);
}

#[test]
fn selection_text_empty_reply() {
    let read = Selection::new(5, 0).text(5);
    assert_eq!(read.start(), vec![Call::SelectionBegin(0), Call::SelectionEnd(0)]);
    let (text, restore) = read.finish(None);
    assert_eq!(text, Ok(String::new()));
    assert_eq!(restore, Call::Focus(5));
}

#[test]
fn editor_string_calls() {
    let e = Editor::new();
    assert_eq!(e.select_all(), Call::Execute(Transfer::write("select_all")));
    assert_eq!(e.execute("vsplit"), Call::Execute(Transfer::write("vsplit")));
    assert_eq!(e.open("a.rs"), Call::Open(Transfer::write("a.rs")));
    assert_eq!(e.set_path("b.rs"), Call::SetPath(Transfer::write("b.rs")));
    assert_eq!(e.save(None), Call::Save(None));
    assert_eq!(e.save(Some("c.rs")), Call::Save(Some(Transfer::write("c.rs"))));
    assert_eq!(
        e.insert_text("x", Insert::BeforeSelection),
        Call::SelectionInsertTextBefore(Transfer::write("x"))
    );
    assert_eq!(
        e.insert_text("y", Insert::AfterSelection),
        Call::SelectionInsertTextAfter(Transfer::write("y"))
    );
    assert_eq!(e.replace_text("z"), Call::SelectionReplaceText(Transfer::write("z")));
    assert_eq!(e.set_status("ok"), Call::SetStatus(Transfer::write("ok")));
}

#[test]
fn editor_scalar_calls() {
    let e = Editor;
    assert_eq!(e.add_selection(0, 4), Call::SelectionAdd(0, 4));
    assert_eq!(e.close(), Call::Close);
    assert_eq!(e.undo(), Call::Undo);
    assert_eq!(e.redo(), Call::Redo);
    assert_eq!(e.view(), Call::FocusedView);
    assert_eq!(e.focus(3), Call::Focus(3));
    assert_eq!(e.focus_next(), Call::FocusNext);
    assert_eq!(e.focus_prev(), Call::FocusPrev);
    assert_eq!(e.clear_selection(), Call::SelectionReset);
    assert_eq!(e.clear_status(), Call::ClearStatus);
    assert_eq!(e.len_lines(), Call::LenLines);
    assert_eq!(e.len_chars(), Call::LenChars);
    assert_eq!(e.len_bytes(), Call::LenBytes);
}
