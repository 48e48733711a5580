//! The editor state and the application of actions and events to it.
use vstd::prelude::*;
use crate::buffer::{Buffer, file_view};
use crate::render::{DrawOp, OpView, buffer_lines, buffer_ops, ops_view, status_line, status_ops};
use crate::input::{
    Action, Input, Key, Mode, input_action, insert_action, normal_action, translate_insert,
    translate_normal,
};

verus! {

/// The editor: its buffer, the viewport size as (columns, rows), the cursor
/// as (column, row) in screen coordinates, and the current mode.
pub struct Editor {
    buffer: Buffer,
    size: (u16, u16),
    cx: u16,
    cy: u16,
    mode: Mode,
}

/// The mathematical state of an editor.
pub struct EditorView {
    pub file: Option<Seq<char>>,
    pub lines: Seq<Seq<char>>,
    pub width: u16,
    pub height: u16,
    pub cx: u16,
    pub cy: u16,
    pub mode: Mode,
}

/// What the run loop is to do after an event has been handled.
#[derive(Clone, Copy, Debug, PartialEq, Eq, Structural)]
pub enum Command {
    /// Leave the loop.
    Quit,
    /// Draw the next frame.
    Redraw,
    /// Write the character at the screen position (column, row), then draw
    /// the next frame.
    PutChar(u16, u16, char),
}

/// One less, but never below zero.
pub open spec fn dec_floor(v: u16) -> u16 {
    if v == 0 {
        0
    } else {
        (v - 1) as u16
    }
}

/// One more, but never past the largest `u16`.
pub open spec fn inc_ceil(v: u16) -> u16 {
    if v == u16::MAX {
        v
    } else {
        (v + 1) as u16
    }
}

/// The state after applying an action.
pub open spec fn apply_state(s: EditorView, a: Action) -> EditorView {
    match a {
        Action::Quit => s,
        Action::MoveUp => EditorView { cy: dec_floor(s.cy), ..s },
        Action::MoveDown => EditorView { cy: inc_ceil(s.cy), ..s },
        Action::MoveLeft => EditorView { cx: dec_floor(s.cx), ..s },
        Action::MoveRight => EditorView { cx: inc_ceil(s.cx), ..s },
        Action::EnterMode(m) => EditorView { mode: m, ..s },
        Action::InsertChar(_) => EditorView { cx: inc_ceil(s.cx), ..s },
    }
}

/// What the run loop is told after applying an action: an inserted
/// character is written at the cursor position it had before the action.
pub open spec fn apply_command(s: EditorView, a: Action) -> Command {
    match a {
        Action::Quit => Command::Quit,
        Action::InsertChar(c) => Command::PutChar(s.cx, s.cy, c),
        _ => Command::Redraw,
    }
}

/// The state after an event has been received, before its action is
/// applied: a resize sets the viewport size and nothing else.
pub open spec fn event_state(s: EditorView, ev: Input) -> EditorView {
    match ev {
        Input::Resize(w, h) => EditorView { width: w, height: h, ..s },
        _ => s,
    }
}

/// The state after one whole cycle on an event.
pub open spec fn step_state(s: EditorView, ev: Input) -> EditorView {
    let t = event_state(s, ev);
    match input_action(s.mode, ev) {
        Some(a) => apply_state(t, a),
        None => t,
    }
}

/// What the run loop is told after one whole cycle on an event.
pub open spec fn step_command(s: EditorView, ev: Input) -> Command {
    match input_action(s.mode, ev) {
        Some(a) => apply_command(event_state(s, ev), a),
        None => Command::Redraw,
    }
}

/// One frame: every line of the buffer, the status line, and finally the
/// terminal cursor moved to the editor's cursor.
pub open spec fn frame_ops(s: EditorView) -> Seq<OpView> {
    buffer_ops(s.lines, s.width) + status_ops(s.width, s.height, s.mode, s.cx, s.cy)
        + seq![OpView::MoveTo(s.cx, s.cy)]
}

/// The state after applying the same action `n` times.
pub open spec fn apply_repeated(s: EditorView, a: Action, n: nat) -> EditorView
    decreases n,
{
    if n == 0 {
        s
    } else {
        apply_state(apply_repeated(s, a, (n - 1) as nat), a)
    }
}

impl View for Editor {
    type V = EditorView;

    closed spec fn view(&self) -> EditorView {
        EditorView {
            file: file_view(self.buffer.file),
            lines: self.buffer.lines_view(),
            width: self.size.0,
            height: self.size.1,
            cx: self.cx,
            cy: self.cy,
            mode: self.mode,
        }
    }
}

fn dec_floor_exec(v: u16) -> (r: u16)
    ensures
        r == dec_floor(v),
{
    if v == 0 {
        0
    } else {
        v - 1
    }
}

fn inc_ceil_exec(v: u16) -> (r: u16)
    ensures
        r == inc_ceil(v),
{
    if v == u16::MAX {
        v
    } else {
        v + 1
    }
}

impl Editor {
    /// An editor over `buffer` with a viewport of `size` (columns, rows),
    /// the cursor at the origin and Normal mode.
    pub fn new(buffer: Buffer, size: (u16, u16)) -> (r: Editor)
        ensures
            r@.file == file_view(buffer.file),
            r@.lines == buffer.lines_view(),
            r@.width == size.0,
            r@.height == size.1,
            r@.cx == 0,
            r@.cy == 0,
            r@.mode == Mode::Normal,
    {
        Editor { buffer, size, cx: 0, cy: 0, mode: Mode::Normal }
    }

    /// The buffer being edited.
    pub fn buffer(&self) -> (r: &Buffer)
        ensures
            file_view(r.file) == self@.file,
            r.lines_view() == self@.lines,
    {
        &self.buffer
    }

    /// The viewport size as (columns, rows).
    pub fn size(&self) -> (r: (u16, u16))
        ensures
            r == (self@.width, self@.height),
    {
        self.size
    }

    /// The cursor as (column, row).
    pub fn cursor(&self) -> (r: (u16, u16))
        ensures
            r == (self@.cx, self@.cy),
    {
        (self.cx, self.cy)
    }

    /// The current mode.
    pub fn mode(&self) -> (r: Mode)
        ensures
            r == self@.mode,
    {
        self.mode
    }

    /// The commands that draw the buffer's lines.
    pub fn draw_buffer(&self) -> (r: Vec<DrawOp>)
        ensures
            ops_view(r@) == buffer_ops(self@.lines, self@.width),
    {
        buffer_lines(&self.buffer, self.size.0)
    }

    /// The commands that draw the status line.
    pub fn draw_statusline(&self) -> (r: Vec<DrawOp>)
        ensures
            ops_view(r@) == status_ops(self@.width, self@.height, self@.mode, self@.cx, self@.cy),
    {
        status_line(self.size, self.mode, self.cx, self.cy)
    }

    /// The commands of one whole frame, to be written out and flushed at
    /// once.
    pub fn draw(&self) -> (r: Vec<DrawOp>)
        ensures
            ops_view(r@) == frame_ops(self@),
    {
        let mut r = self.draw_buffer();
        let mut status = self.draw_statusline();
        let ghost a = r@;
        let ghost b = status@;
        r.append(&mut status);
        r.push(DrawOp::MoveTo(self.cx, self.cy));
        assert(ops_view(r@) =~= ops_view(a) + ops_view(b) + seq![OpView::MoveTo(self.cx, self.cy)]);
        r
    }

    /// Applies one action to the state and says what the run loop is to do.
    pub fn apply(&mut self, a: Action) -> (r: Command)
        ensures
            final(self)@ == apply_state(old(self)@, a),
            r == apply_command(old(self)@, a),
    {
        match a {
            Action::Quit => Command::Quit,
            Action::MoveUp => {
                self.cy = dec_floor_exec(self.cy);
                Command::Redraw
            },
            Action::MoveDown => {
                self.cy = inc_ceil_exec(self.cy);
                Command::Redraw
            },
            Action::MoveLeft => {
                self.cx = dec_floor_exec(self.cx);
                Command::Redraw
            },
            Action::MoveRight => {
                self.cx = inc_ceil_exec(self.cx);
                Command::Redraw
            },
            Action::EnterMode(m) => {
                self.mode = m;
                Command::Redraw
            },
            Action::InsertChar(c) => {
                let r = Command::PutChar(self.cx, self.cy, c);
                self.cx = inc_ceil_exec(self.cx);
                r
            },
        }
    }

    /// The action that an event yields in Normal mode.
    pub fn handle_normal_event(&self, ev: Input) -> (r: Option<Action>)
        ensures
            r == normal_action(ev),
    {
        translate_normal(ev)
    }

    /// The action that an event yields in Insert mode.
    pub fn handle_insert_event(&self, ev: Input) -> (r: Option<Action>)
        ensures
            r == insert_action(ev),
    {
        translate_insert(ev)
    }

    /// Takes in an event: a resize updates the viewport size, and the
    /// result is the action that the event yields under the current mode.
    pub fn handle_event(&mut self, ev: Input) -> (r: Option<Action>)
        ensures
            final(self)@ == event_state(old(self)@, ev),
            r == input_action(old(self)@.mode, ev),
    {
        if let Input::Resize(w, h) = ev {
            self.size = (w, h);
        }
        match self.mode {
            Mode::Normal => self.handle_normal_event(ev),
            Mode::Insert => self.handle_insert_event(ev),
        }
    }

    /// One cycle of the run loop on an event: take it in, apply the action
    /// it yields if any, and say what the loop is to do next.
    pub fn step(&mut self, ev: Input) -> (r: Command)
        ensures
            final(self)@ == step_state(old(self)@, ev),
            r == step_command(old(self)@, ev),
    {
        match self.handle_event(ev) {
            Some(a) => self.apply(a),
            None => Command::Redraw,
        }
    }
}

/// Moving up any number of times from the top row stays on the top row.
pub proof fn lemma_move_up_stays_at_top(s: EditorView, n: nat)
    requires
        s.cy == 0,
    ensures
        apply_repeated(s, Action::MoveUp, n).cy == 0,
    decreases n,
{
    if n > 0 {
        lemma_move_up_stays_at_top(s, (n - 1) as nat);
    }
}

/// Moving left `n` times lowers the column by `n`, but never below zero, and
/// leaves the rest of the state as it was.
pub proof fn lemma_move_left_repeated(s: EditorView, n: nat)
    ensures
        apply_repeated(s, Action::MoveLeft, n).cx == (if n <= s.cx { s.cx - n } else { 0 }),
        apply_repeated(s, Action::MoveLeft, n) == (EditorView {
            cx: apply_repeated(s, Action::MoveLeft, n).cx,
            ..s
        }),
    decreases n,
{
    if n > 0 {
        lemma_move_left_repeated(s, (n - 1) as nat);
    }
}

/// Entering a mode makes it the current mode, whatever the mode before.
pub proof fn lemma_enter_mode(s: EditorView, m: Mode)
    ensures
        apply_state(s, Action::EnterMode(m)).mode == m,
{
}

/// In Normal mode the key `q` quits and changes nothing, wherever the cursor
/// is and whatever the buffer holds.
pub proof fn lemma_q_quits_in_normal(s: EditorView)
    requires
        s.mode == Mode::Normal,
    ensures
        step_command(s, Input::Key(Key::Char('q'))) == Command::Quit,
        step_state(s, Input::Key(Key::Char('q'))) == s,
{
}

/// A resize sets the viewport size and leaves the mode, the cursor and the
/// buffer as they were; it yields no action.
pub proof fn lemma_resize_keeps_state(s: EditorView, w: u16, h: u16)
    ensures
        step_state(s, Input::Resize(w, h)) == (EditorView { width: w, height: h, ..s }),
        step_command(s, Input::Resize(w, h)) == Command::Redraw,
{
}

/// What an event yields depends on the current mode and the event alone:
/// two states in the same mode translate every event alike.
pub proof fn lemma_translation_reads_only_mode(s: EditorView, t: EditorView, ev: Input)
    requires
        s.mode == t.mode,
    ensures
        input_action(s.mode, ev) == input_action(t.mode, ev),
        step_command(s, ev) is Quit <==> step_command(t, ev) is Quit,
{
}

} // verus!
