//! The renderer: the draw commands that put the buffer and the status line
//! on the terminal.
use vstd::prelude::*;
use crate::buffer::Buffer;
use crate::input::Mode;

verus! {

/// A 24-bit colour.
#[derive(Clone, Copy, Debug, PartialEq, Eq, Structural)]
pub struct Rgb {
    pub r: u8,
    pub g: u8,
    pub b: u8,
}

/// Foreground and background colour, and whether the text is bold.
#[derive(Clone, Copy, Debug, PartialEq, Eq, Structural)]
pub struct Style {
    pub fg: Rgb,
    pub bg: Rgb,
    pub bold: bool,
}

/// One terminal output command. A frame is a sequence of them, written out
/// in order and flushed at once.
#[derive(Debug, PartialEq, Eq)]
pub enum DrawOp {
    /// Move the write cursor to (column, row).
    MoveTo(u16, u16),
    /// Print text with the terminal's default style.
    Print(String),
    /// Print text with a style.
    Styled(String, Style),
}

/// The mathematical value of a draw command.
pub enum OpView {
    MoveTo(u16, u16),
    Print(Seq<char>),
    Styled(Seq<char>, Style),
}

pub open spec fn op_view(o: DrawOp) -> OpView {
    match o {
        DrawOp::MoveTo(x, y) => OpView::MoveTo(x, y),
        DrawOp::Print(s) => OpView::Print(s@),
        DrawOp::Styled(s, st) => OpView::Styled(s@, st),
    }
}

pub open spec fn ops_view(v: Seq<DrawOp>) -> Seq<OpView> {
    v.map_values(|o: DrawOp| op_view(o))
}

/// Black on violet, bold: the mode badge.
pub open spec fn mode_style() -> Style {
    Style { fg: Rgb { r: 0, g: 0, b: 0 }, bg: Rgb { r: 184, g: 144, b: 243 }, bold: true }
}

/// White on slate, bold: the filler between the badge and the position.
pub open spec fn filler_style() -> Style {
    Style { fg: Rgb { r: 255, g: 255, b: 255 }, bg: Rgb { r: 67, g: 70, b: 89 }, bold: true }
}

/// Black on violet, bold: the cursor position.
pub open spec fn position_style() -> Style {
    Style { fg: Rgb { r: 0, g: 0, b: 0 }, bg: Rgb { r: 184, g: 144, b: 243 }, bold: true }
}

/// The name of a mode, upper-cased.
pub open spec fn mode_label(m: Mode) -> Seq<char> {
    match m {
        Mode::Normal => seq!['N', 'O', 'R', 'M', 'A', 'L'],
        Mode::Insert => seq!['I', 'N', 'S', 'E', 'R', 'T'],
    }
}

/// The decimal digit for `d < 10`.
pub open spec fn digit(d: nat) -> char {
    if d == 0 { '0' }
    else if d == 1 { '1' }
    else if d == 2 { '2' }
    else if d == 3 { '3' }
    else if d == 4 { '4' }
    else if d == 5 { '5' }
    else if d == 6 { '6' }
    else if d == 7 { '7' }
    else if d == 8 { '8' }
    else { '9' }
}

/// The decimal notation of `n`, without leading zeros.
pub open spec fn decimal(n: nat) -> Seq<char>
    decreases n,
{
    if n < 10 {
        seq![digit(n)]
    } else {
        decimal(n / 10).push(digit(n % 10))
    }
}

/// The cursor position as `"{column}:{row}"`.
pub open spec fn position_text(cx: u16, cy: u16) -> Seq<char> {
    decimal(cx as nat) + seq![':'] + decimal(cy as nat)
}

/// `n` spaces.
pub open spec fn spaces(n: nat) -> Seq<char> {
    Seq::new(n, |i: int| ' ')
}

/// The first `width` characters of a line, or all of it if it is shorter.
pub open spec fn clip(line: Seq<char>, width: nat) -> Seq<char> {
    if line.len() <= width {
        line
    } else {
        line.subrange(0, width as int)
    }
}

/// The row of the status line: the second row from the bottom, or the top
/// row on a viewport of fewer than two rows.
pub open spec fn status_row(height: u16) -> u16 {
    if height >= 2 {
        (height - 2) as u16
    } else {
        0
    }
}

/// The width of the filler that right-aligns the position, zero when the
/// badge and the position do not fit.
pub open spec fn status_padding(width: u16, m: Mode, cx: u16, cy: u16) -> nat {
    let used = mode_label(m).len() + position_text(cx, cy).len();
    if used <= width {
        (width - used) as nat
    } else {
        0
    }
}

/// The status line: the mode badge, the filler, and the cursor position.
pub open spec fn status_ops(width: u16, height: u16, m: Mode, cx: u16, cy: u16) -> Seq<OpView> {
    seq![
        OpView::MoveTo(0, status_row(height)),
        OpView::Styled(mode_label(m), mode_style()),
        OpView::Styled(spaces(status_padding(width, m, cx, cy)), filler_style()),
        OpView::Styled(position_text(cx, cy), position_style()),
    ]
}

/// The number of terminal rows that a `u16` row index can address.
pub const ROW_LIMIT: usize = 65536;

/// The number of buffer lines that are drawn: every line, up to the last row
/// that a terminal row index can address.
pub open spec fn drawn_lines(n_lines: nat) -> nat {
    if n_lines <= ROW_LIMIT {
        n_lines
    } else {
        ROW_LIMIT as nat
    }
}

/// The commands that draw the first `n` lines, each at the start of its row
/// and clipped to the viewport width.
pub open spec fn lines_ops(lines: Seq<Seq<char>>, width: u16, n: nat) -> Seq<OpView>
    decreases n,
{
    if n == 0 {
        Seq::empty()
    } else {
        lines_ops(lines, width, (n - 1) as nat) + seq![
            OpView::MoveTo(0, (n - 1) as u16),
            OpView::Print(clip(lines[n - 1], width as nat)),
        ]
    }
}

/// The commands that draw the buffer: line `i` at row `i`, for every line.
pub open spec fn buffer_ops(lines: Seq<Seq<char>>, width: u16) -> Seq<OpView> {
    lines_ops(lines, width, drawn_lines(lines.len()))
}

fn make_style(fg: Rgb, bg: Rgb) -> (r: Style)
    ensures
        r == (Style { fg, bg, bold: true }),
{
    Style { fg, bg, bold: true }
}

fn violet() -> (r: Rgb)
    ensures
        r == (Rgb { r: 184, g: 144, b: 243 }),
{
    Rgb { r: 184, g: 144, b: 243 }
}

fn slate() -> (r: Rgb)
    ensures
        r == (Rgb { r: 67, g: 70, b: 89 }),
{
    Rgb { r: 67, g: 70, b: 89 }
}

/// The name of a mode, upper-cased.
pub fn mode_name(m: Mode) -> (r: String)
    ensures
        r@ == mode_label(m),
{
    match m {
        Mode::Normal => {
            proof {
                reveal_strlit("NORMAL");
            }
            String::from_str("NORMAL")
        },
        Mode::Insert => {
            proof {
                reveal_strlit("INSERT");
            }
            String::from_str("INSERT")
        },
    }
}

fn digit_str(d: u16) -> (r: &'static str)
    requires
        d < 10,
    ensures
        r@ == seq![digit(d as nat)],
{
    proof {
        reveal_strlit("0");
        reveal_strlit("1");
        reveal_strlit("2");
        reveal_strlit("3");
        reveal_strlit("4");
        reveal_strlit("5");
        reveal_strlit("6");
        reveal_strlit("7");
        reveal_strlit("8");
        reveal_strlit("9");
    }
    if d == 0 { "0" }
    else if d == 1 { "1" }
    else if d == 2 { "2" }
    else if d == 3 { "3" }
    else if d == 4 { "4" }
    else if d == 5 { "5" }
    else if d == 6 { "6" }
    else if d == 7 { "7" }
    else if d == 8 { "8" }
    else { "9" }
}

/// The decimal notation of `n`.
pub fn decimal_string(n: u16) -> (r: String)
    ensures
        r@ == decimal(n as nat),
    decreases n,
{
    if n < 10 {
        String::from_str(digit_str(n))
    } else {
        let mut s = decimal_string(n / 10);
        s.append(digit_str(n % 10));
        assert(s@ =~= decimal(n as nat));
        s
    }
}

/// The cursor position as `"{column}:{row}"`.
pub fn position_string(cx: u16, cy: u16) -> (r: String)
    ensures
        r@ == position_text(cx, cy),
{
    let mut s = decimal_string(cx);
    proof {
        reveal_strlit(":");
    }
    s.append(":");
    let t = decimal_string(cy);
    s.append(t.as_str());
    assert(s@ =~= position_text(cx, cy));
    s
}

/// A string of `n` spaces.
pub fn spaces_string(n: usize) -> (r: String)
    ensures
        r@ == spaces(n as nat),
{
    let mut s = String::new();
    let mut i: usize = 0;
    while i < n
        invariant
            i <= n,
            s@ == spaces(i as nat),
        decreases n - i,
    {
        proof {
            reveal_strlit(" ");
        }
        assert(" "@ =~= seq![' ']);
        s.append(" ");
        i = i + 1;
        assert(s@ =~= spaces(i as nat));
    }
    assert(s@ =~= spaces(n as nat));
    s
}

/// The first `width` characters of a line.
pub fn clip_line(line: &String, width: u16) -> (r: String)
    ensures
        r@ == clip(line@, width as nat),
{
    let n = line.as_str().unicode_len();
    let k = if n <= width as usize {
        n
    } else {
        width as usize
    };
    let r = String::from_str(line.as_str().substring_char(0, k));
    assert(r@ =~= clip(line@, width as nat));
    r
}

/// The commands that draw the status line for a viewport of `size`
/// (columns, rows), a mode, and a cursor at (`cx`, `cy`).
pub fn status_line(size: (u16, u16), m: Mode, cx: u16, cy: u16) -> (r: Vec<DrawOp>)
    ensures
        ops_view(r@) == status_ops(size.0, size.1, m, cx, cy),
{
    let (width, height) = size;
    let row = if height >= 2 {
        height - 2
    } else {
        0
    };
    let label = mode_name(m);
    let pos = position_string(cx, cy);
    let used: u128 = label.as_str().unicode_len() as u128 + pos.as_str().unicode_len() as u128;
    let pad: usize = if used <= width as u128 {
        (width as u128 - used) as usize
    } else {
        0
    };
    let black = Rgb { r: 0, g: 0, b: 0 };
    let white = Rgb { r: 255, g: 255, b: 255 };
    let mut r: Vec<DrawOp> = Vec::new();
    r.push(DrawOp::MoveTo(0, row));
    r.push(DrawOp::Styled(label, make_style(black, violet())));
    r.push(DrawOp::Styled(spaces_string(pad), make_style(white, slate())));
    r.push(DrawOp::Styled(pos, make_style(black, violet())));
    assert(ops_view(r@) =~= status_ops(width, height, m, cx, cy));
    r
}

/// The commands that draw every line of `buffer` at its own row, each
/// clipped to `width` columns.
pub fn buffer_lines(buffer: &Buffer, width: u16) -> (r: Vec<DrawOp>)
    ensures
        ops_view(r@) == buffer_ops(buffer.lines_view(), width),
{
    let n_lines = buffer.lines.len();
    let n: usize = if n_lines <= ROW_LIMIT {
        n_lines
    } else {
        ROW_LIMIT
    };
    let mut r: Vec<DrawOp> = Vec::new();
    let mut i: usize = 0;
    while i < n
        invariant
            n == drawn_lines(buffer.lines_view().len()),
            n <= ROW_LIMIT,
            n <= buffer.lines@.len(),
            i <= n,
            ops_view(r@) == lines_ops(buffer.lines_view(), width, i as nat),
        decreases n - i,
    {
        let ghost before = r@;
        r.push(DrawOp::MoveTo(0, i as u16));
        r.push(DrawOp::Print(clip_line(&buffer.lines[i], width)));
        proof {
            assert(buffer.lines_view()[i as int] == buffer.lines@[i as int]@);
            assert(ops_view(r@) =~= ops_view(before) + seq![
                OpView::MoveTo(0, i as u16),
                OpView::Print(clip(buffer.lines_view()[i as int], width as nat)),
            ]);
        }
        i = i + 1;
    }
    r
}

} // verus!
