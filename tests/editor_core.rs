use modal_editor::{Action, Buffer, Command, Editor, Input, Key, Mode};

fn key(c: char) -> Input {
    Input::Key(Key::Char(c))
}

fn editor_at(cx: u16, cy: u16) -> Editor {
    let mut e = Editor::new(Buffer::empty(), (80, 24));
    for _ in 0..cx {
        e.step(Input::Key(Key::Right));
    }
    for _ in 0..cy {
        e.step(Input::Key(Key::Down));
    }
    e
}

#[test]
fn new_editor_starts_normal_at_origin() {
    let e = Editor::new(Buffer::empty(), (80, 24));
    assert_eq!(e.mode(), Mode::Normal);
    assert_eq!(e.cursor(), (0, 0));
    assert_eq!(e.size(), (80, 24));
    assert_eq!(e.buffer().line_count(), 0);
    assert!(e.buffer().file.is_none());
}

#[test]
fn insert_then_escape_then_quit() {
    let mut e = Editor::new(Buffer::empty(), (80, 24));
    assert_eq!(e.step(key('i')), Command::Redraw);
    assert_eq!(e.mode(), Mode::Insert);
    assert_eq!(e.step(key('a')), Command::PutChar(0, 0, 'a'));
    assert_eq!(e.cursor(), (1, 0));
    assert_eq!(e.step(Input::Key(Key::Esc)), Command::Redraw);
    assert_eq!(e.mode(), Mode::Normal);
    assert_eq!(e.step(key('q')), Command::Quit);
    assert_eq!(e.mode(), Mode::Normal);
    assert_eq!(e.cursor(), (1, 0));
}

#[test]
fn left_arrow_settles_at_column_zero() {
    let mut e = editor_at(5, 5);
    assert_eq!(e.cursor(), (5, 5));
    for _ in 0..10 {
        e.step(Input::Key(Key::Left));
    }
    assert_eq!(e.cursor(), (0, 5));
}

#[test]
fn move_up_from_top_row_stays() {
    let mut e = editor_at(3, 0);
    for _ in 0..7 {
        assert_eq!(e.apply(Action::MoveUp), Command::Redraw);
        assert_eq!(e.cursor(), (3, 0));
    }
}

#[test]
fn resize_updates_only_viewport() {
    let lines = vec!["one".to_string(), "two".to_string()];
    let mut e = Editor::new(Buffer::new(Some("f.txt".to_string()), lines), (80, 24));
    e.step(Input::Key(Key::Right));
    e.step(key('i'));
    assert_eq!(e.step(Input::Resize(100, 40)), Command::Redraw);
    assert_eq!(e.size(), (100, 40));
    assert_eq!(e.mode(), Mode::Insert);
    assert_eq!(e.cursor(), (1, 0));
    assert_eq!(e.buffer().lines, vec!["one".to_string(), "two".to_string()]);
    assert_eq!(e.buffer().file.as_deref(), Some("f.txt"));
}

#[test]
fn resize_yields_no_action_in_either_mode() {
    let mut e = Editor::new(Buffer::empty(), (10, 10));
    assert_eq!(e.handle_event(Input::Resize(3, 4)), None);
    e.step(key('i'));
    assert_eq!(e.handle_event(Input::Resize(5, 6)), None);
    assert_eq!(e.size(), (5, 6));
}

#[test]
fn enter_mode_sets_mode() {
    for m in [Mode::Normal, Mode::Insert] {
        for start in [Mode::Normal, Mode::Insert] {
            let mut e = Editor::new(Buffer::empty(), (80, 24));
            e.apply(Action::EnterMode(start));
            assert_eq!(e.apply(Action::EnterMode(m)), Command::Redraw);
            assert_eq!(e.mode(), m);
        }
    }
}

#[test]
fn quit_changes_nothing() {
    let mut e = editor_at(2, 3);
    assert_eq!(e.apply(Action::Quit), Command::Quit);
    assert_eq!(e.cursor(), (2, 3));
    assert_eq!(e.mode(), Mode::Normal);
}

#[test]
fn movement_in_all_directions() {
    let mut e = editor_at(0, 0);
    e.apply(Action::MoveRight);
    e.apply(Action::MoveRight);
    e.apply(Action::MoveDown);
    assert_eq!(e.cursor(), (2, 1));
    e.apply(Action::MoveLeft);
    e.apply(Action::MoveUp);
    assert_eq!(e.cursor(), (1, 0));
}

#[test]
fn cursor_saturates_at_largest_column() {
    let mut e = Editor::new(Buffer::empty(), (80, 24));
    for _ in 0..u16::MAX {
        e.apply(Action::MoveRight);
    }
    assert_eq!(e.cursor(), (u16::MAX, 0));
    e.apply(Action::MoveRight);
    assert_eq!(e.cursor(), (u16::MAX, 0));
    e.step(key('i'));
    assert_eq!(e.step(key('z')), Command::PutChar(u16::MAX, 0, 'z'));
    assert_eq!(e.cursor(), (u16::MAX, 0));
}

#[test]
fn arrows_ignored_in_insert_mode() {
    let mut e = editor_at(4, 4);
    e.step(key('i'));
    for k in [Key::Up, Key::Down, Key::Left, Key::Right, Key::Other] {
        assert_eq!(e.handle_event(Input::Key(k)), None);
        assert_eq!(e.step(Input::Key(k)), Command::Redraw);
    }
    assert_eq!(e.cursor(), (4, 4));
    assert_eq!(e.mode(), Mode::Insert);
}

#[test]
fn q_and_i_are_inserted_in_insert_mode() {
    let mut e = Editor::new(Buffer::empty(), (80, 24));
    e.step(key('i'));
    assert_eq!(e.step(key('q')), Command::PutChar(0, 0, 'q'));
    assert_eq!(e.step(key('i')), Command::PutChar(1, 0, 'i'));
    assert_eq!(e.mode(), Mode::Insert);
    assert_eq!(e.cursor(), (2, 0));
}
