use line_editor::chars::cts;
use line_editor::editor::{Command, Editor};

fn chars_of(s: &str) -> Vec<char> {
    s.chars().collect()
}

fn line(e: &Editor, i: usize) -> String {
    cts(e.doc.get(i))
}

fn buffer(e: &Editor) -> String {
    cts(&e.edit.buf)
}

#[test]
fn load_basic() {
    let e = Editor::load(&chars_of("ab\ncd\n"));
    assert_eq!(e.doc.line_count(), 2);
    assert_eq!(line(&e, 0), "ab");
    assert_eq!(line(&e, 1), "cd");
    assert_eq!(e.selected, Some(0));
    assert_eq!(buffer(&e), "ab");
    assert_eq!(e.edit.offset, 0);
}

#[test]
fn basic_edit_scenario() {
    let mut e = Editor::load(&chars_of("ab\ncd\n"));
    e.apply(Command::MoveRight);
    e.apply(Command::InsertChar('X'));
    assert_eq!(buffer(&e), "aXb");
    assert_eq!(e.edit.offset, 2);
    let out = e.save_text();
    assert_eq!(cts(&out), "aXb\ncd\n");
}

#[test]
fn split_scenario() {
    let mut e = Editor::load(&chars_of("ab\ncd\n"));
    e.apply(Command::MoveRight);
    e.apply(Command::InsertChar('X'));
    e.apply(Command::Split);
    assert_eq!(e.doc.line_count(), 3);
    assert_eq!(line(&e, 0), "aX");
    assert_eq!(line(&e, 1), "b");
    assert_eq!(line(&e, 2), "cd");
    assert_eq!(e.selected, Some(1));
    assert_eq!(buffer(&e), "b");
    assert_eq!(e.edit.offset, 0);
}

#[test]
fn join_scenario() {
    let mut e = Editor::load(&chars_of("ab\ncd\n"));
    e.apply(Command::MoveRight);
    e.apply(Command::InsertChar('X'));
    e.apply(Command::Split);
    e.apply(Command::JoinOrDeleteBackward);
    assert_eq!(e.doc.line_count(), 2);
    assert_eq!(line(&e, 0), "aXb");
    assert_eq!(line(&e, 1), "cd");
    assert_eq!(e.selected, Some(0));
    assert_eq!(buffer(&e), "aXb");
    assert_eq!(e.edit.offset, 2);
}

#[test]
fn empty_file_scenario() {
    let mut e = Editor::load(&chars_of(""));
    assert_eq!(e.doc.line_count(), 0);
    assert_eq!(e.selected, None);
    e.apply(Command::Split);
    assert_eq!(e.doc.line_count(), 1);
    assert_eq!(line(&e, 0), "");
    assert_eq!(e.selected, Some(0));
    assert_eq!(buffer(&e), "");
    assert_eq!(e.edit.offset, 0);
}

#[test]
fn navigation_clamp_up_at_first_line() {
    let mut e = Editor::load(&chars_of("ab\ncd\n"));
    e.apply(Command::MoveRight);
    e.apply(Command::MoveUp);
    assert_eq!(e.selected, Some(0));
    assert_eq!(buffer(&e), "ab");
    assert_eq!(e.edit.offset, 1);
    assert_eq!(line(&e, 0), "ab");
}

#[test]
fn navigation_clamp_down_at_last_line() {
    let mut e = Editor::load(&chars_of("ab\ncd\n"));
    e.apply(Command::MoveDown);
    assert_eq!(e.selected, Some(1));
    e.apply(Command::MoveDown);
    assert_eq!(e.selected, Some(1));
    assert_eq!(buffer(&e), "cd");
}

#[test]
fn navigation_commits_edits() {
    let mut e = Editor::load(&chars_of("ab\ncd\n"));
    e.apply(Command::InsertChar('Z'));
    assert_eq!(line(&e, 0), "ab");
    e.apply(Command::MoveDown);
    assert_eq!(line(&e, 0), "Zab");
    assert_eq!(buffer(&e), "cd");
    assert_eq!(e.selected, Some(1));
}

#[test]
fn navigation_clamps_offset_to_shorter_line() {
    let mut e = Editor::load(&chars_of("abcd\nx\n"));
    e.apply(Command::MoveEnd);
    assert_eq!(e.edit.offset, 4);
    e.apply(Command::MoveDown);
    assert_eq!(buffer(&e), "x");
    assert_eq!(e.edit.offset, 1);
}

#[test]
fn split_at_end_of_line_makes_empty_tail() {
    let mut e = Editor::load(&chars_of("ab\n"));
    e.apply(Command::MoveEnd);
    e.apply(Command::Split);
    assert_eq!(e.doc.line_count(), 2);
    assert_eq!(line(&e, 0), "ab");
    assert_eq!(line(&e, 1), "");
    assert_eq!(e.selected, Some(1));
    assert_eq!(buffer(&e), "");
    assert_eq!(e.edit.offset, 0);
}

#[test]
fn split_at_start_of_line_makes_empty_head() {
    let mut e = Editor::load(&chars_of("ab\n"));
    e.apply(Command::Split);
    assert_eq!(line(&e, 0), "");
    assert_eq!(line(&e, 1), "ab");
    assert_eq!(e.selected, Some(1));
    assert_eq!(buffer(&e), "ab");
}

#[test]
fn join_on_first_line_is_noop() {
    let mut e = Editor::load(&chars_of("ab\ncd\n"));
    e.apply(Command::JoinOrDeleteBackward);
    assert_eq!(e.doc.line_count(), 2);
    assert_eq!(e.selected, Some(0));
    assert_eq!(buffer(&e), "ab");
    assert_eq!(e.edit.offset, 0);
}

#[test]
fn join_uses_active_buffer_not_stale_line() {
    let mut e = Editor::load(&chars_of("ab\ncd\n"));
    e.apply(Command::MoveDown);
    e.apply(Command::InsertChar('Q'));
    e.apply(Command::MoveHome);
    e.apply(Command::JoinOrDeleteBackward);
    assert_eq!(e.doc.line_count(), 1);
    assert_eq!(line(&e, 0), "abQcd");
    assert_eq!(buffer(&e), "abQcd");
    assert_eq!(e.selected, Some(0));
    assert_eq!(e.edit.offset, 2);
}

#[test]
fn backspace_inside_line_deletes() {
    let mut e = Editor::load(&chars_of("abc\n"));
    e.apply(Command::MoveEnd);
    e.apply(Command::JoinOrDeleteBackward);
    assert_eq!(buffer(&e), "ab");
    assert_eq!(e.edit.offset, 2);
    assert_eq!(e.doc.line_count(), 1);
}

#[test]
fn save_commits_in_progress_edit() {
    let mut e = Editor::load(&chars_of("ab\n"));
    e.apply(Command::InsertChar('x'));
    let out = e.save_text();
    assert_eq!(cts(&out), "xab\n");
    assert_eq!(line(&e, 0), "xab");
}

#[test]
fn save_on_empty_document() {
    let mut e = Editor::load(&chars_of(""));
    let out = e.save_text();
    assert_eq!(cts(&out), "");
}

#[test]
fn offset_stays_inside_buffer_along_command_sequences() {
    let cmds = [
        Command::MoveEnd,
        Command::InsertChar('x'),
        Command::Split,
        Command::MoveUp,
        Command::MoveDown,
        Command::JoinOrDeleteBackward,
        Command::MoveRight,
        Command::MoveRight,
        Command::MoveRight,
        Command::MoveRight,
        Command::DeleteBackward,
        Command::MoveLeft,
        Command::MoveHome,
        Command::JoinOrDeleteBackward,
        Command::Split,
        Command::MoveDown,
    ];
    let mut e = Editor::load(&chars_of("ab\ncd\n"));
    for cmd in cmds {
        e.apply(cmd);
        assert!(e.edit.offset <= e.edit.buf.len());
        if let Some(i) = e.selected {
            assert!(i < e.doc.line_count());
        } else {
            assert_eq!(e.doc.line_count(), 0);
        }
    }
}

#[test]
fn home_and_end_commands() {
    let mut e = Editor::load(&chars_of("abc\n"));
    e.apply(Command::MoveEnd);
    assert_eq!(e.edit.offset, 3);
    e.apply(Command::MoveHome);
    assert_eq!(e.edit.offset, 0);
}
