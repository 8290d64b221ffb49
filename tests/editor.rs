use ice_editor::buffer::{Buffer, EditAction, Motion};
use ice_editor::editor::{default_file, Command, Editor, Message, Status};
use ice_editor::error::{Error, IoKind};
use ice_editor::gateway::{chosen, loaded, written};

fn opened(path: &str, text: &str) -> Message {
    Message::FileOpened(Ok((path.to_string(), text.to_string())))
}

fn start() -> (Editor, Command) {
    Editor::new(default_file("/home/user/ice_editor"))
}

fn editor_with(path: &str, text: &str) -> Editor {
    let (mut e, _) = start();
    e.update(opened(path, text));
    e
}

#[test]
fn new_buffer_is_empty() {
    let b = Buffer::new();
    assert_eq!(b.text(), "");
    assert_eq!(b.cursor_position(), (0, 0));
}

#[test]
fn buffer_with_text_starts_at_origin() {
    let b = Buffer::with("ab\ncd");
    assert_eq!(b.text(), "ab\ncd");
    assert_eq!(b.cursor_position(), (0, 0));
}

#[test]
fn insert_enter_and_paste() {
    let mut b = Buffer::new();
    b.edit(EditAction::Insert('a'));
    b.edit(EditAction::Enter);
    b.edit(EditAction::Paste("xyz\nq".to_string()));
    assert_eq!(b.text(), "a\nxyz\nq");
    assert_eq!(b.cursor_position(), (2, 1));
    b.edit(EditAction::Move(Motion::DocumentStart));
    b.edit(EditAction::Insert('é'));
    assert_eq!(b.text(), "éa\nxyz\nq");
    assert_eq!(b.cursor_position(), (0, 1));
}

#[test]
fn backspace_and_delete_at_edges() {
    let mut b = Buffer::with("ab");
    b.edit(EditAction::Backspace);
    assert_eq!(b.text(), "ab");
    b.edit(EditAction::Delete);
    assert_eq!(b.text(), "b");
    b.edit(EditAction::Move(Motion::DocumentEnd));
    b.edit(EditAction::Delete);
    assert_eq!(b.text(), "b");
    b.edit(EditAction::Backspace);
    assert_eq!(b.text(), "");
    assert_eq!(b.cursor_position(), (0, 0));
}

#[test]
fn backspace_joins_lines() {
    let mut b = Buffer::with("ab\ncd");
    b.edit(EditAction::Move(Motion::Down));
    b.edit(EditAction::Move(Motion::Home));
    assert_eq!(b.cursor_position(), (1, 0));
    b.edit(EditAction::Backspace);
    assert_eq!(b.text(), "abcd");
    assert_eq!(b.cursor_position(), (0, 2));
}

#[test]
fn horizontal_motions() {
    let mut b = Buffer::with("abc\nde");
    b.edit(EditAction::Move(Motion::Left));
    assert_eq!(b.cursor_position(), (0, 0));
    b.edit(EditAction::Move(Motion::Right));
    assert_eq!(b.cursor_position(), (0, 1));
    b.edit(EditAction::Move(Motion::End));
    assert_eq!(b.cursor_position(), (0, 3));
    b.edit(EditAction::Move(Motion::Right));
    assert_eq!(b.cursor_position(), (1, 0));
    b.edit(EditAction::Move(Motion::DocumentEnd));
    assert_eq!(b.cursor_position(), (1, 2));
    b.edit(EditAction::Move(Motion::Right));
    assert_eq!(b.cursor_position(), (1, 2));
    b.edit(EditAction::Move(Motion::Home));
    assert_eq!(b.cursor_position(), (1, 0));
    b.edit(EditAction::Move(Motion::Left));
    assert_eq!(b.cursor_position(), (0, 3));
}

#[test]
fn vertical_motions_remember_column() {
    let mut b = Buffer::with("abcd\nx\nlonger");
    b.edit(EditAction::Move(Motion::End));
    assert_eq!(b.cursor_position(), (0, 4));
    b.edit(EditAction::Move(Motion::Down));
    assert_eq!(b.cursor_position(), (1, 1));
    b.edit(EditAction::Move(Motion::Down));
    assert_eq!(b.cursor_position(), (2, 4));
    b.edit(EditAction::Move(Motion::End));
    b.edit(EditAction::Move(Motion::Up));
    assert_eq!(b.cursor_position(), (1, 1));
    b.edit(EditAction::Move(Motion::Up));
    assert_eq!(b.cursor_position(), (0, 4));
    b.edit(EditAction::Move(Motion::Up));
    assert_eq!(b.cursor_position(), (0, 0));
    b.edit(EditAction::Move(Motion::DocumentEnd));
    b.edit(EditAction::Move(Motion::Down));
    assert_eq!(b.cursor_position(), (2, 6));
}

#[test]
fn replay_matches_edits_one_at_a_time() {
    let actions = vec![
        EditAction::Paste("one\ntwo".to_string()),
        EditAction::Move(Motion::Up),
        EditAction::Insert('!'),
        EditAction::Move(Motion::End),
        EditAction::Backspace,
        EditAction::Enter,
    ];
    let mut replayed = Buffer::with("x");
    replayed.replay(&actions);
    let mut again = Buffer::with("x");
    again.replay(&actions);
    let mut stepped = Buffer::with("x");
    for a in actions.iter() {
        stepped.edit(a.clone());
    }
    assert_eq!(replayed.text(), "one\n\ntwox");
    assert_eq!(replayed.text(), stepped.text());
    assert_eq!(replayed.cursor_position(), stepped.cursor_position());
    assert_eq!(replayed.text(), again.text());
    assert_eq!(replayed.cursor_position(), again.cursor_position());

    let (mut e, _) = start();
    for a in actions.iter() {
        e.update(Message::Edit(a.clone()));
    }
    assert_eq!(e.text(), "one\n\ntwo");
}

#[test]
fn startup_asks_for_default_file() {
    let (e, cmd) = start();
    assert!(matches!(cmd, Command::Load(ref p) if p == "/home/user/ice_editor/src/main.rs"));
    assert_eq!(e.path(), None);
    assert_eq!(e.text(), "");
    assert_eq!(e.error(), None);
    assert_eq!(e.title(), "Crab!");
}

#[test]
fn startup_with_missing_default_file() {
    let (mut e, cmd) = start();
    let path = match cmd {
        Command::Load(p) => p,
        _ => panic!("startup reads the default file"),
    };
    e.update(Message::FileOpened(loaded(path, Err(IoKind::NotFound))));
    assert_eq!(e.error(), Some(Error::IO(IoKind::NotFound)));
    assert_eq!(e.text(), "");
    assert_eq!(e.path(), None);
    assert!(matches!(e.status(), Status::Failure(IoKind::NotFound)));
}

#[test]
fn load_success_replaces_document_and_clears_error() {
    let (mut e, _) = start();
    e.update(Message::FileOpened(Err(Error::IO(IoKind::PermissionDenied))));
    let cmd = e.update(Message::FileOpened(loaded(
        "/tmp/b.txt".to_string(),
        Ok("l1\nl2".to_string()),
    )));
    assert!(matches!(cmd, Command::Nothing));
    assert_eq!(e.path(), Some("/tmp/b.txt".to_string()));
    assert_eq!(e.text(), "l1\nl2");
    assert_eq!(e.buffer().cursor_position(), (0, 0));
    assert_eq!(e.error(), None);
}

#[test]
fn edit_clears_error() {
    let mut e = editor_with("/tmp/c.txt", "abc");
    e.update(Message::FileSaved(Err(Error::IO(IoKind::PermissionDenied))));
    assert_eq!(e.error(), Some(Error::IO(IoKind::PermissionDenied)));
    let cmd = e.update(Message::Edit(EditAction::Insert('z')));
    assert!(matches!(cmd, Command::Nothing));
    assert_eq!(e.error(), None);
    assert_eq!(e.text(), "zabc");
}

#[test]
fn new_resets_path_and_buffer() {
    let mut e = editor_with("/tmp/c.txt", "abc");
    e.update(Message::Edit(EditAction::Move(Motion::DocumentEnd)));
    let cmd = e.update(Message::New);
    assert!(matches!(cmd, Command::Nothing));
    assert_eq!(e.path(), None);
    assert_eq!(e.text(), "");
    assert_eq!(e.buffer().cursor_position(), (0, 0));
    assert!(matches!(e.status(), Status::NewFile));
}

#[test]
fn failures_keep_document() {
    let mut e = editor_with("/tmp/d.txt", "keep\nme");
    e.update(Message::Edit(EditAction::Move(Motion::Down)));
    e.update(Message::FileOpened(Err(Error::IO(IoKind::InvalidData))));
    assert_eq!(e.path(), Some("/tmp/d.txt".to_string()));
    assert_eq!(e.text(), "keep\nme");
    assert_eq!(e.buffer().cursor_position(), (1, 0));
    assert_eq!(e.error(), Some(Error::IO(IoKind::InvalidData)));
    e.update(Message::FileSaved(Err(Error::IO(IoKind::Other))));
    assert_eq!(e.path(), Some("/tmp/d.txt".to_string()));
    assert_eq!(e.text(), "keep\nme");
    assert_eq!(e.buffer().cursor_position(), (1, 0));
    assert_eq!(e.error(), Some(Error::IO(IoKind::Other)));
}

#[test]
fn cancelled_open_keeps_state() {
    let mut e = editor_with("/tmp/e.txt", "text");
    let cmd = e.update(Message::Open);
    assert!(matches!(cmd, Command::PickAndLoad));
    let picked = chosen(None);
    assert_eq!(picked, Err(Error::DialogClosed));
    e.update(Message::FileOpened(Err(Error::DialogClosed)));
    assert_eq!(e.error(), None);
    assert_eq!(e.path(), Some("/tmp/e.txt".to_string()));
    assert_eq!(e.text(), "text");

    e.update(Message::FileOpened(Err(Error::IO(IoKind::Interrupted))));
    e.update(Message::Open);
    e.update(Message::FileOpened(Err(Error::DialogClosed)));
    assert_eq!(e.error(), Some(Error::IO(IoKind::Interrupted)));
}

#[test]
fn save_with_path_then_success() {
    let mut e = editor_with("/tmp/a.txt", "");
    e.update(Message::Edit(EditAction::Paste("hello".to_string())));
    let cmd = e.update(Message::Save);
    let (path, text) = match cmd {
        Command::Write(p, t) => (p, t),
        _ => panic!("a document with a file is written to it"),
    };
    assert_eq!(path, "/tmp/a.txt");
    assert_eq!(text, "hello");
    e.update(Message::FileSaved(written(path, Ok(()))));
    assert_eq!(e.error(), None);
    assert_eq!(e.path(), Some("/tmp/a.txt".to_string()));
    assert_eq!(e.text(), "hello");
}

#[test]
fn save_without_path_asks_and_records_path() {
    let (mut e, _) = start();
    e.update(Message::New);
    e.update(Message::Edit(EditAction::Insert('q')));
    let cmd = e.update(Message::Save);
    assert!(matches!(cmd, Command::SaveAs(ref t) if t == "q"));
    e.update(Message::FileSaved(chosen(None)));
    assert_eq!(e.path(), None);
    assert_eq!(e.error(), None);
    let target = chosen(Some("/tmp/new.txt".to_string())).unwrap();
    e.update(Message::FileSaved(written(target, Ok(()))));
    assert_eq!(e.path(), Some("/tmp/new.txt".to_string()));
    assert!(matches!(e.status(), Status::File(ref p) if p == "/tmp/new.txt"));
}

#[test]
fn status_prefers_io_failure_over_path() {
    let mut e = editor_with("/tmp/f.txt", "");
    assert!(matches!(e.status(), Status::File(ref p) if p == "/tmp/f.txt"));
    e.update(Message::FileSaved(Err(Error::IO(IoKind::AlreadyExists))));
    assert!(matches!(e.status(), Status::Failure(IoKind::AlreadyExists)));
}

#[test]
fn gateway_outcomes() {
    assert_eq!(
        loaded("/p".to_string(), Ok("t".to_string())),
        Ok(("/p".to_string(), "t".to_string()))
    );
    assert_eq!(
        loaded("/p".to_string(), Err(IoKind::PermissionDenied)),
        Err(Error::IO(IoKind::PermissionDenied))
    );
    assert_eq!(chosen(Some("/q".to_string())), Ok("/q".to_string()));
    assert_eq!(chosen(None), Err(Error::DialogClosed));
    assert_eq!(written("/r".to_string(), Ok(())), Ok("/r".to_string()));
    assert_eq!(
        written("/r".to_string(), Err(IoKind::NotFound)),
        Err(Error::IO(IoKind::NotFound))
    );
}

#[test]
fn error_kinds() {
    assert!(!Error::DialogClosed.is_io());
    assert!(Error::IO(IoKind::Other).is_io());
}

#[test]
fn default_file_is_fixed_and_absolute() {
    let first = default_file("/opt/app");
    let second = default_file("/opt/app");
    assert_eq!(first, "/opt/app/src/main.rs");
    assert_eq!(first, second);
    assert!(first.starts_with('/'));
    assert!(first.ends_with("src/main.rs"));
    let (e, cmd) = Editor::new(first.clone());
    assert!(matches!(cmd, Command::Load(ref p) if *p == first));
    assert_eq!(e.path(), None);
}

#[test]
fn editor_replay_folds_edits() {
    let actions = vec![
        EditAction::Insert('a'),
        EditAction::Enter,
        EditAction::Paste("bc".to_string()),
        EditAction::Move(Motion::Up),
        EditAction::Delete,
    ];
    let mut a = editor_with("/tmp/g.txt", "zz");
    a.update(Message::FileSaved(Err(Error::IO(IoKind::StorageFull))));
    let mut b = editor_with("/tmp/h.txt", "zz");
    a.replay(actions.clone());
    b.replay(actions.clone());
    let mut folded = Buffer::with("zz");
    folded.replay(&actions);
    assert_eq!(a.text(), "abczz");
    assert_eq!(a.text(), folded.text());
    assert_eq!(a.buffer().cursor_position(), folded.cursor_position());
    assert_eq!(a.text(), b.text());
    assert_eq!(a.buffer().cursor_position(), b.buffer().cursor_position());
    assert_eq!(a.path(), Some("/tmp/g.txt".to_string()));
    assert_eq!(a.error(), None);
}

#[test]
fn cursor_offset_counts_characters() {
    let mut b = Buffer::with("ab\ncd");
    b.edit(EditAction::Move(Motion::Down));
    b.edit(EditAction::Move(Motion::Right));
    assert_eq!(b.cursor_offset(), 4);
    assert_eq!(b.cursor_position(), (1, 1));
}

#[test]
fn typing_replaces_selection() {
    let mut b = Buffer::with("hello world");
    b.edit(EditAction::Select(Motion::WordRight));
    assert_eq!(b.anchor(), Some(0));
    assert_eq!(b.cursor_offset(), 5);
    b.edit(EditAction::Insert('J'));
    assert_eq!(b.text(), "J world");
    assert_eq!(b.cursor_offset(), 1);
    assert_eq!(b.anchor(), None);
}

#[test]
fn select_word_then_backspace() {
    let mut b = Buffer::with("foo bar baz");
    b.edit(EditAction::MoveTo(5));
    b.edit(EditAction::SelectWord);
    assert_eq!(b.anchor(), Some(4));
    assert_eq!(b.cursor_offset(), 7);
    b.edit(EditAction::Backspace);
    assert_eq!(b.text(), "foo  baz");
    assert_eq!(b.cursor_offset(), 4);
}

#[test]
fn select_line_then_delete() {
    let mut b = Buffer::with("ab\ncd\nef");
    b.edit(EditAction::MoveTo(4));
    b.edit(EditAction::SelectLine);
    assert_eq!(b.anchor(), Some(3));
    assert_eq!(b.cursor_offset(), 6);
    b.edit(EditAction::Delete);
    assert_eq!(b.text(), "ab\nef");
    assert_eq!(b.cursor_offset(), 3);
}

#[test]
fn word_motions() {
    let mut b = Buffer::with("  foo bar");
    b.edit(EditAction::Move(Motion::DocumentEnd));
    b.edit(EditAction::Move(Motion::WordLeft));
    assert_eq!(b.cursor_offset(), 6);
    b.edit(EditAction::Move(Motion::WordLeft));
    assert_eq!(b.cursor_offset(), 2);
    b.edit(EditAction::Move(Motion::WordRight));
    assert_eq!(b.cursor_offset(), 5);
}

#[test]
fn move_and_select_to_offsets_clamp() {
    let mut b = Buffer::with("abc");
    b.edit(EditAction::MoveTo(10));
    assert_eq!(b.cursor_offset(), 3);
    b.edit(EditAction::SelectTo(1));
    assert_eq!(b.anchor(), Some(3));
    assert_eq!(b.cursor_offset(), 1);
    b.edit(EditAction::Move(Motion::Right));
    assert_eq!(b.cursor_offset(), 2);
    assert_eq!(b.anchor(), None);
}

#[test]
fn offset_at_counts_utf8_bytes() {
    let b = Buffer::with("a\u{e9}\nxyz");
    assert_eq!(b.offset_at(0, 0), 0);
    assert_eq!(b.offset_at(0, 1), 1);
    assert_eq!(b.offset_at(0, 2), 1);
    assert_eq!(b.offset_at(0, 3), 2);
    assert_eq!(b.offset_at(1, 2), 5);
    assert_eq!(b.offset_at(1, 99), 6);
    assert_eq!(b.offset_at(5, 0), 6);
}
