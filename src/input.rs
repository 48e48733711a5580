//! Modes, abstract actions, and the mode-aware translation of input events.
use vstd::prelude::*;

verus! {

/// The interaction mode that decides how a key press is interpreted.
#[derive(Clone, Copy, Debug, PartialEq, Eq, Structural)]
pub enum Mode {
    Normal,
    Insert,
}

/// An abstract editor instruction produced from one input event.
#[derive(Clone, Copy, Debug, PartialEq, Eq, Structural)]
pub enum Action {
    Quit,
    MoveUp,
    MoveDown,
    MoveLeft,
    MoveRight,
    EnterMode(Mode),
    InsertChar(char),
}

/// The keys the editor distinguishes; everything else is `Other`.
#[derive(Clone, Copy, Debug, PartialEq, Eq, Structural)]
pub enum Key {
    Char(char),
    Esc,
    Up,
    Down,
    Left,
    Right,
    Other,
}

/// A raw terminal event: a key press, a resize to (columns, rows), or
/// anything else (mouse, paste, focus).
#[derive(Clone, Copy, Debug, PartialEq, Eq, Structural)]
pub enum Input {
    Key(Key),
    Resize(u16, u16),
    Other,
}

/// True for the actions that move the cursor.
pub open spec fn is_movement(a: Action) -> bool {
    a is MoveUp || a is MoveDown || a is MoveLeft || a is MoveRight
}

/// The key bindings of Normal mode.
pub open spec fn normal_key_action(k: Key) -> Option<Action> {
    match k {
        Key::Char(c) => if c == 'q' {
            Some(Action::Quit)
        } else if c == 'i' {
            Some(Action::EnterMode(Mode::Insert))
        } else {
            None
        },
        Key::Up => Some(Action::MoveUp),
        Key::Down => Some(Action::MoveDown),
        Key::Left => Some(Action::MoveLeft),
        Key::Right => Some(Action::MoveRight),
        _ => None,
    }
}

/// The key bindings of Insert mode.
pub open spec fn insert_key_action(k: Key) -> Option<Action> {
    match k {
        Key::Esc => Some(Action::EnterMode(Mode::Normal)),
        Key::Char(c) => Some(Action::InsertChar(c)),
        _ => None,
    }
}

/// What an event in Normal mode translates to; only key presses act.
pub open spec fn normal_action(ev: Input) -> Option<Action> {
    match ev {
        Input::Key(k) => normal_key_action(k),
        _ => None,
    }
}

/// What an event in Insert mode translates to; only key presses act.
pub open spec fn insert_action(ev: Input) -> Option<Action> {
    match ev {
        Input::Key(k) => insert_key_action(k),
        _ => None,
    }
}

/// The action that an event yields under a mode.
pub open spec fn input_action(m: Mode, ev: Input) -> Option<Action> {
    match m {
        Mode::Normal => normal_action(ev),
        Mode::Insert => insert_action(ev),
    }
}

/// Translates an event under Normal mode.
pub fn translate_normal(ev: Input) -> (r: Option<Action>)
    ensures
        r == normal_action(ev),
{
    match ev {
        Input::Key(Key::Char(c)) => {
            if c == 'q' {
                Some(Action::Quit)
            } else if c == 'i' {
                Some(Action::EnterMode(Mode::Insert))
            } else {
                None
            }
        },
        Input::Key(Key::Up) => Some(Action::MoveUp),
        Input::Key(Key::Down) => Some(Action::MoveDown),
        Input::Key(Key::Left) => Some(Action::MoveLeft),
        Input::Key(Key::Right) => Some(Action::MoveRight),
        _ => None,
    }
}

/// Translates an event under Insert mode.
pub fn translate_insert(ev: Input) -> (r: Option<Action>)
    ensures
        r == insert_action(ev),
{
    match ev {
        Input::Key(Key::Esc) => Some(Action::EnterMode(Mode::Normal)),
        Input::Key(Key::Char(c)) => Some(Action::InsertChar(c)),
        _ => None,
    }
}

/// Translates an event under the given mode.
pub fn translate(m: Mode, ev: Input) -> (r: Option<Action>)
    ensures
        r == input_action(m, ev),
{
    match m {
        Mode::Normal => translate_normal(ev),
        Mode::Insert => translate_insert(ev),
    }
}

/// In Insert mode `Esc` returns to Normal mode, every character key inserts
/// that character, and no key yields a cursor movement.
pub proof fn lemma_insert_mode_keys(k: Key)
    ensures
        k is Esc ==> input_action(Mode::Insert, Input::Key(k)) == Some(
            Action::EnterMode(Mode::Normal),
        ),
        k matches Key::Char(c) ==> input_action(Mode::Insert, Input::Key(k)) == Some(
            Action::InsertChar(c),
        ),
        !(k is Esc) && !(k is Char) ==> input_action(Mode::Insert, Input::Key(k)) is None,
        forall|a: Action|
            input_action(Mode::Insert, Input::Key(k)) == Some(a) ==> !is_movement(a),
{
}

/// Events other than key presses yield no action, whatever the mode.
pub proof fn lemma_non_key_events_ignored(m: Mode, ev: Input)
    requires
        !(ev is Key),
    ensures
        input_action(m, ev) is None,
{
}

} // verus!
