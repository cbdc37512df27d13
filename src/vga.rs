//! Text-mode console: a 80x25 grid of (character, attribute) byte pairs,
//! a logical write position and the hardware cursor registers.

use vstd::prelude::*;
use vstd::string::StringSliceAdditionalSpecFns;

verus! {

pub const VGA_WIDTH: usize = 80;

pub const VGA_HEIGHT: usize = 25;

/// Bytes of text memory: two per cell.
pub const VGA_BYTES: usize = 4000;

/// Glyph drawn in place of bytes outside printable ASCII.
pub const REPLACEMENT_GLYPH: u8 = 0xfe;

/// The sixteen text-mode colors, in palette order.
#[derive(Clone, Copy, Debug, PartialEq, Eq, Structural)]
pub enum Color {
    Black,
    Blue,
    Green,
    Cyan,
    Red,
    Magenta,
    Brown,
    LightGray,
    DarkGray,
    LightBlue,
    LightGreen,
    LightCyan,
    LightRed,
    Pink,
    Yellow,
    White,
}

impl Color {
    pub open spec fn spec_value(self) -> u8 {
        match self {
            Color::Black => 0,
            Color::Blue => 1,
            Color::Green => 2,
            Color::Cyan => 3,
            Color::Red => 4,
            Color::Magenta => 5,
            Color::Brown => 6,
            Color::LightGray => 7,
            Color::DarkGray => 8,
            Color::LightBlue => 9,
            Color::LightGreen => 10,
            Color::LightCyan => 11,
            Color::LightRed => 12,
            Color::Pink => 13,
            Color::Yellow => 14,
            Color::White => 15,
        }
    }

    /// The 4-bit palette index of the color.
    #[verifier::when_used_as_spec(spec_value)]
    pub fn value(self) -> (r: u8)
        ensures
            r == self.spec_value(),
            r < 16,
    {
        match self {
            Color::Black => 0,
            Color::Blue => 1,
            Color::Green => 2,
            Color::Cyan => 3,
            Color::Red => 4,
            Color::Magenta => 5,
            Color::Brown => 6,
            Color::LightGray => 7,
            Color::DarkGray => 8,
            Color::LightBlue => 9,
            Color::LightGreen => 10,
            Color::LightCyan => 11,
            Color::LightRed => 12,
            Color::Pink => 13,
            Color::Yellow => 14,
            Color::White => 15,
        }
    }
}

pub open spec fn spec_color_byte(fg: Color, bg: Color) -> u8 {
    (bg.spec_value() * 16 + fg.spec_value()) as u8
}

/// Attribute byte: background in the high nibble, foreground in the low one.
pub fn color_byte(fg: Color, bg: Color) -> (r: u8)
    ensures
        r == spec_color_byte(fg, bg),
{
    let f = fg.value();
    let b = bg.value();
    assert((b << 4u8) | f == b * 16 + f) by (bit_vector)
        requires
            f < 16u8,
            b < 16u8,
    ;
    (b << 4u8) | f
}


/// Byte offset of the character byte of cell (row, col) in text memory.
pub open spec fn cell_offset(row: int, col: int) -> int {
    (row * VGA_WIDTH + col) * 2
}

/// What the console is, as a value: text memory, the logical write position,
/// the current attribute and the hardware cursor registers.
pub struct ScreenView {
    pub cells: Seq<u8>,
    pub row: int,
    pub column: int,
    pub color: u8,
    pub cursor: int,
    pub cursor_visible: bool,
}

impl ScreenView {
    pub open spec fn wf(self) -> bool {
        &&& self.cells.len() == VGA_BYTES
        &&& 0 <= self.row < VGA_HEIGHT
        &&& 0 <= self.column <= VGA_WIDTH
    }

    pub open spec fn char_at(self, row: int, col: int) -> u8 {
        self.cells[cell_offset(row, col)]
    }

    pub open spec fn attr_at(self, row: int, col: int) -> u8 {
        self.cells[cell_offset(row, col) + 1]
    }

    /// Hardware cursor placed at the logical write position.
    pub open spec fn synced(self) -> ScreenView {
        ScreenView { cursor: self.row * VGA_WIDTH + self.column, ..self }
    }
}

/// Text memory with every row moved one up and the last row blank in `color`.
pub open spec fn scrolled(cells: Seq<u8>, color: u8) -> Seq<u8> {
    Seq::new(
        VGA_BYTES as nat,
        |i: int|
            if i < VGA_BYTES - VGA_WIDTH * 2 {
                cells[i + VGA_WIDTH * 2]
            } else if i % 2 == 0 {
                0x20u8
            } else {
                color
            },
    )
}

/// Text memory with every cell blank in `color`.
pub open spec fn blank(color: u8) -> Seq<u8> {
    Seq::new(VGA_BYTES as nat, |i: int| if i % 2 == 0 { 0x20u8 } else { color })
}

/// Line advance: next row, or a scroll when already on the last row.
pub open spec fn line_feed(v: ScreenView) -> ScreenView {
    if v.row < VGA_HEIGHT - 1 {
        ScreenView { row: v.row + 1, column: 0, ..v }
    } else {
        ScreenView { cells: scrolled(v.cells, v.color), row: VGA_HEIGHT - 1, column: 0, ..v }
    }
}

/// Stores `b` at the write position (wrapping first on a full row).
pub open spec fn put_glyph(v: ScreenView, b: u8) -> ScreenView {
    let w = if v.column >= VGA_WIDTH { line_feed(v) } else { v };
    let o = cell_offset(w.row, w.column);
    ScreenView { cells: w.cells.update(o, b).update(o + 1, w.color), column: w.column + 1, ..w }
}

/// Effect of writing one byte: a newline advances the line, any other byte
/// is drawn through `glyph`.
pub open spec fn put_byte(v: ScreenView, b: u8) -> ScreenView {
    (if b == 0x0a { line_feed(v) } else { put_glyph(v, glyph(b)) }).synced()
}

/// Effect of writing bytes in order.
pub open spec fn put_bytes(v: ScreenView, bs: Seq<u8>) -> ScreenView
    decreases bs.len(),
{
    if bs.len() == 0 {
        v
    } else {
        put_byte(put_bytes(v, bs.drop_last()), bs.last())
    }
}

/// Byte actually drawn for text byte `b`.
pub open spec fn glyph(b: u8) -> u8 {
    if (0x20 <= b <= 0x7e) || b == 0x0a {
        b
    } else {
        REPLACEMENT_GLYPH
    }
}

/// Effect of writing text: each byte through `glyph`.
pub open spec fn put_text(v: ScreenView, bs: Seq<u8>) -> ScreenView {
    put_bytes(v, bs)
}

/// After any non-empty write the hardware cursor sits at the logical write
/// position, and the screen stays well formed.
pub proof fn lemma_write_syncs_cursor(v: ScreenView, bs: Seq<u8>)
    requires
        v.wf(),
    ensures
        put_bytes(v, bs).wf(),
        bs.len() > 0 ==> put_bytes(v, bs).cursor == put_bytes(v, bs).row * VGA_WIDTH + put_bytes(
            v,
            bs,
        ).column,
    decreases bs.len(),
{
    if bs.len() > 0 {
        lemma_write_syncs_cursor(v, bs.drop_last());
    }
}

/// A newline written on the last row scrolls: the top row is gone, every
/// other row moves up by exactly one, the last row is blank in the current
/// color and the write position stays at the start of the last row.
pub proof fn lemma_newline_on_last_row_scrolls(v: ScreenView)
    requires
        v.wf(),
        v.row == VGA_HEIGHT - 1,
    ensures
        put_byte(v, 0x0a).wf(),
        put_byte(v, 0x0a).row == VGA_HEIGHT - 1,
        put_byte(v, 0x0a).column == 0,
        forall|r: int, c: int|
            0 <= r < VGA_HEIGHT - 1 && 0 <= c < VGA_WIDTH ==> {
                &&& #[trigger] put_byte(v, 0x0a).char_at(r, c) == v.char_at(r + 1, c)
                &&& put_byte(v, 0x0a).attr_at(r, c) == v.attr_at(r + 1, c)
            },
        forall|c: int|
            0 <= c < VGA_WIDTH ==> {
                &&& #[trigger] put_byte(v, 0x0a).char_at(VGA_HEIGHT - 1, c) == 0x20
                &&& put_byte(v, 0x0a).attr_at(VGA_HEIGHT - 1, c) == v.color
            },
{
    let w = put_byte(v, 0x0a);
    assert forall|r: int, c: int| 0 <= r < VGA_HEIGHT - 1 && 0 <= c < VGA_WIDTH implies {
        &&& #[trigger] w.char_at(r, c) == v.char_at(r + 1, c)
        &&& w.attr_at(r, c) == v.attr_at(r + 1, c)
    } by {
        assert(cell_offset(r + 1, c) == cell_offset(r, c) + VGA_WIDTH * 2);
    }
    assert forall|c: int| 0 <= c < VGA_WIDTH implies {
        &&& #[trigger] w.char_at(VGA_HEIGHT - 1, c) == 0x20
        &&& w.attr_at(VGA_HEIGHT - 1, c) == v.color
    } by {
        assert(cell_offset(VGA_HEIGHT - 1, c) % 2 == 0);
    }
}

/// Number of cells of a text of `len` bytes that fit on one row.
pub open spec fn clipped_len(len: nat) -> int {
    if len > VGA_WIDTH {
        VGA_WIDTH as int
    } else {
        len as int
    }
}

/// `text` stored from the start of `row` with attribute `color`, as far as
/// the row reaches; nothing else changes.
pub open spec fn written_at(v: ScreenView, row: int, text: Seq<u8>, color: u8) -> ScreenView {
    ScreenView {
        cells: Seq::new(
            VGA_BYTES as nat,
            |i: int|
                if cell_offset(row, 0) <= i < cell_offset(row, clipped_len(text.len())) {
                    if i % 2 == 0 {
                        text[(i - cell_offset(row, 0)) / 2]
                    } else {
                        color
                    }
                } else {
                    v.cells[i]
                },
        ),
        ..v
    }
}

/// Effect of a backspace: one column back on the row, that cell blanked;
/// nothing at the start of a row.
pub open spec fn backspaced(v: ScreenView) -> ScreenView {
    if v.column == 0 {
        v
    } else {
        let o = cell_offset(v.row, v.column - 1);
        ScreenView {
            cells: v.cells.update(o, 0x20).update(o + 1, v.color),
            column: v.column - 1,
            ..v
        }.synced()
    }
}

/// Effect of clearing the screen.
pub open spec fn cleared(v: ScreenView) -> ScreenView {
    ScreenView { cells: blank(v.color), row: 0, column: 0, cursor: 0, ..v }
}

/// `v` with the current attribute set to `color`.
pub open spec fn recolored(v: ScreenView, color: u8) -> ScreenView {
    ScreenView { color, ..v }
}

/// Effect of writing text in the colors (fg, bg), the previous color
/// restored afterwards.
pub open spec fn printc_effect(v: ScreenView, text: Seq<u8>, fg: Color, bg: Color) -> ScreenView {
    recolored(put_text(recolored(v, spec_color_byte(fg, bg)), text), v.color)
}

/// A blank white-on-black screen, write position and cursor at the top
/// left, cursor hidden.
pub open spec fn fresh_screen() -> ScreenView {
    ScreenView {
        cells: blank(spec_color_byte(Color::White, Color::Black)),
        row: 0,
        column: 0,
        color: spec_color_byte(Color::White, Color::Black),
        cursor: 0,
        cursor_visible: false,
    }
}

/// Every cell of row `r` is a blank in the current color.
pub open spec fn row_blank(v: ScreenView, r: int) -> bool {
    forall|c: int| 0 <= c < VGA_WIDTH ==> #[trigger] v.char_at(r, c) == 0x20 && v.attr_at(r, c) == v.color
}

/// Printable ASCII only, so no newline.
pub open spec fn printable(line: Seq<u8>) -> bool {
    forall|i: int| 0 <= i < line.len() ==> 0x20 <= #[trigger] line[i] <= 0x7e
}

/// A printable line of at most one row written from the start of a row
/// lands in that row's first cells, in the current color, and leaves the
/// write position right after it on the same row.
pub proof fn lemma_line_fills_row(v: ScreenView, line: Seq<u8>)
    requires
        v.wf(),
        v.column == 0,
        line.len() <= VGA_WIDTH,
        printable(line),
    ensures
        put_bytes(v, line).wf(),
        put_bytes(v, line).row == v.row,
        put_bytes(v, line).column == line.len(),
        put_bytes(v, line).color == v.color,
        put_bytes(v, line).cells == written_at(v, v.row, line, v.color).cells,
    decreases line.len(),
{
    if line.len() == 0 {
        assert(written_at(v, v.row, line, v.color).cells =~= v.cells);
    } else {
        let prev = line.drop_last();
        lemma_line_fills_row(v, prev);
        let w = put_bytes(v, prev);
        let b = line.last();
        assert(printable(prev));
        assert(glyph(b) == b);
        let o = cell_offset(v.row, prev.len() as int);
        assert(put_bytes(v, line) == put_byte(w, b));
        assert(put_byte(w, b).cells == w.cells.update(o, b).update(o + 1, v.color));
        assert(put_byte(w, b).cells =~= written_at(v, v.row, line, v.color).cells) by {
            assert forall|i: int| 0 <= i < VGA_BYTES implies put_byte(w, b).cells[i] == written_at(
                v,
                v.row,
                line,
                v.color,
            ).cells[i] by {
                if i == o || i == o + 1 {
                    assert((i - cell_offset(v.row, 0)) / 2 == prev.len());
                } else if cell_offset(v.row, 0) <= i < o {
                    assert(line[(i - cell_offset(v.row, 0)) / 2] == prev[(i - cell_offset(v.row, 0))
                        / 2]);
                }
            }
        }
    }
}

/// Once the write position is at the start of a blank last row, writing a
/// printable line of at most one row and a newline moves every row up by
/// exactly one (the top row is gone), puts the line on the row above the
/// last, padded with blanks in the current color, and leaves the last row
/// blank with the write position at its start: the same state again, so
/// every further line scrolls the same way.
pub proof fn lemma_line_at_bottom_scrolls(v: ScreenView, line: Seq<u8>)
    requires
        v.wf(),
        v.row == VGA_HEIGHT - 1,
        v.column == 0,
        row_blank(v, VGA_HEIGHT - 1),
        line.len() <= VGA_WIDTH,
        printable(line),
    ensures
        ({
            let w = put_bytes(v, line.push(0x0a));
            &&& w.wf()
            &&& w.row == VGA_HEIGHT - 1
            &&& w.column == 0
            &&& w.color == v.color
            &&& row_blank(w, VGA_HEIGHT - 1)
            &&& forall|r: int, c: int|
                0 <= r < VGA_HEIGHT - 2 && 0 <= c < VGA_WIDTH ==> #[trigger] w.char_at(r, c)
                    == v.char_at(r + 1, c) && w.attr_at(r, c) == v.attr_at(r + 1, c)
            &&& forall|c: int|
                0 <= c < VGA_WIDTH ==> #[trigger] w.char_at(VGA_HEIGHT - 2, c) == (if c
                    < line.len() {
                    line[c]
                } else {
                    0x20u8
                }) && w.attr_at(VGA_HEIGHT - 2, c) == v.color
        }),
{
    lemma_line_fills_row(v, line);
    let u = put_bytes(v, line);
    assert(line.push(0x0a).drop_last() =~= line);
    assert(put_bytes(v, line.push(0x0a)) == put_byte(u, 0x0a));
    lemma_newline_on_last_row_scrolls(u);
    let w = put_byte(u, 0x0a);
    assert forall|r: int, c: int| 0 <= r < VGA_HEIGHT - 2 && 0 <= c < VGA_WIDTH implies #[trigger] w.char_at(
        r,
        c,
    ) == v.char_at(r + 1, c) && w.attr_at(r, c) == v.attr_at(r + 1, c) by {
        assert(w.char_at(r, c) == u.char_at(r + 1, c));
        assert(cell_offset(r + 1, c) < cell_offset(VGA_HEIGHT - 1, 0));
    }
    assert forall|c: int| 0 <= c < VGA_WIDTH implies #[trigger] w.char_at(VGA_HEIGHT - 2, c) == (if c
        < line.len() {
        line[c]
    } else {
        0x20u8
    }) && w.attr_at(VGA_HEIGHT - 2, c) == v.color by {
        assert(w.char_at(VGA_HEIGHT - 2, c) == u.char_at(VGA_HEIGHT - 1, c));
        assert(v.char_at(VGA_HEIGHT - 1, c) == 0x20);
        assert((cell_offset(VGA_HEIGHT - 1, c) - cell_offset(VGA_HEIGHT - 1, 0)) / 2 == c);
        assert(cell_offset(VGA_HEIGHT - 1, c) % 2 == 0);
    }
    assert forall|c: int| 0 <= c < VGA_WIDTH implies #[trigger] w.char_at(VGA_HEIGHT - 1, c) == 0x20
        && w.attr_at(VGA_HEIGHT - 1, c) == w.color by {}
}

pub proof fn lemma_put_bytes_append(v: ScreenView, a: Seq<u8>, b: Seq<u8>)
    ensures
        put_bytes(v, a + b) == put_bytes(put_bytes(v, a), b),
    decreases b.len(),
{
    if b.len() == 0 {
        assert(a + b =~= a);
    } else {
        assert((a + b).drop_last() =~= a + b.drop_last());
        lemma_put_bytes_append(v, a, b.drop_last());
    }
}

/// Lines joined, each followed by a newline.
pub open spec fn lines_text(lines: Seq<Seq<u8>>) -> Seq<u8>
    decreases lines.len(),
{
    if lines.len() == 0 {
        Seq::empty()
    } else {
        lines_text(lines.drop_last()) + lines.last().push(0x0a)
    }
}

/// Character shown at column `c` of a row holding `line`, blank-padded.
pub open spec fn padded(line: Seq<u8>, c: int) -> u8 {
    if c < line.len() {
        line[c]
    } else {
        0x20
    }
}

/// Printable lines of at most one row each.
pub open spec fn screen_lines(lines: Seq<Seq<u8>>) -> bool {
    forall|i: int|
        0 <= i < lines.len() ==> (#[trigger] lines[i]).len() <= VGA_WIDTH && printable(lines[i])
}

/// A blank screen with the write position at the top left.
pub open spec fn blank_home(v: ScreenView) -> bool {
    &&& v.wf()
    &&& v.row == 0
    &&& v.column == 0
    &&& forall|r: int| 0 <= r < VGA_HEIGHT ==> row_blank(v, r)
}

/// A cleared screen is blank with the write position at the top left.
pub proof fn lemma_cleared_is_blank_home(v: ScreenView)
    requires
        v.wf(),
    ensures
        blank_home(cleared(v)),
{
    let w = cleared(v);
    assert forall|r: int| 0 <= r < VGA_HEIGHT implies row_blank(w, r) by {
        assert forall|c: int| 0 <= c < VGA_WIDTH implies #[trigger] w.char_at(r, c) == 0x20
            && w.attr_at(r, c) == w.color by {
            assert(cell_offset(r, c) % 2 == 0);
        }
    }
}

/// From a blank screen, up to 24 lines fill the rows in order, each padded
/// with blanks in the current color; the rows below stay blank and the
/// write position is at the start of the next row.
pub proof fn lemma_lines_fill_from_top(v: ScreenView, lines: Seq<Seq<u8>>)
    requires
        blank_home(v),
        lines.len() < VGA_HEIGHT,
        screen_lines(lines),
    ensures
        ({
            let w = put_bytes(v, lines_text(lines));
            &&& w.wf()
            &&& w.row == lines.len()
            &&& w.column == 0
            &&& w.color == v.color
            &&& forall|r: int, c: int|
                0 <= r < lines.len() && 0 <= c < VGA_WIDTH ==> #[trigger] w.char_at(r, c) == padded(
                    lines[r],
                    c,
                ) && w.attr_at(r, c) == v.color
            &&& forall|r: int| lines.len() <= r < VGA_HEIGHT ==> row_blank(w, r)
        }),
    decreases lines.len(),
{
    if lines.len() > 0 {
        let prev = lines.drop_last();
        let line = lines.last();
        assert(screen_lines(prev));
        assert(line == lines[lines.len() - 1]);
        lemma_lines_fill_from_top(v, prev);
        let u = put_bytes(v, lines_text(prev));
        lemma_put_bytes_append(v, lines_text(prev), line.push(0x0a));
        lemma_line_fills_row(u, line);
        let x = put_bytes(u, line);
        assert(line.push(0x0a).drop_last() =~= line);
        let w = put_byte(x, 0x0a);
        assert(put_bytes(v, lines_text(lines)) == w);
        let k = prev.len() as int;
        assert(w.cells == x.cells);
        assert(x.cells == written_at(u, k, line, v.color).cells);
        assert(row_blank(u, k));
        assert forall|r: int, c: int| 0 <= r < lines.len() && 0 <= c < VGA_WIDTH implies #[trigger] w.char_at(
            r,
            c,
        ) == padded(lines[r], c) && w.attr_at(r, c) == v.color by {
            if r < k {
                assert(lines[r] == prev[r]);
                assert(cell_offset(r, c) + 1 < cell_offset(k, 0));
                assert(u.char_at(r, c) == padded(prev[r], c));
                assert(u.attr_at(r, c) == v.color);
            } else {
                assert(r == k);
                assert(u.char_at(r, c) == 0x20);
                assert(u.attr_at(r, c) == u.color);
                assert(cell_offset(k, c) % 2 == 0);
                assert((cell_offset(k, c) - cell_offset(k, 0)) / 2 == c);
            }
        }
        assert forall|r: int| lines.len() <= r < VGA_HEIGHT implies row_blank(w, r) by {
            assert(row_blank(u, r));
            assert forall|c: int| 0 <= c < VGA_WIDTH implies #[trigger] w.char_at(r, c) == 0x20
                && w.attr_at(r, c) == w.color by {
                assert(u.char_at(r, c) == 0x20);
                assert(cell_offset(r, c) >= cell_offset(k + 1, 0));
            }
        }
    }
}

/// Writing one line more than the screen has rows, starting from a blank
/// screen: the first line is gone, every other line sits exactly one row
/// above where it was written, the last row is blank in the current color,
/// and the write position is at the start of the last row.
pub proof fn lemma_overfull_screen_scrolls(v: ScreenView, lines: Seq<Seq<u8>>)
    requires
        blank_home(v),
        lines.len() == VGA_HEIGHT,
        screen_lines(lines),
    ensures
        ({
            let w = put_bytes(v, lines_text(lines));
            &&& w.row == VGA_HEIGHT - 1
            &&& w.column == 0
            &&& forall|r: int, c: int|
                0 <= r < VGA_HEIGHT - 1 && 0 <= c < VGA_WIDTH ==> #[trigger] w.char_at(r, c)
                    == padded(lines[r + 1], c) && w.attr_at(r, c) == v.color
            &&& row_blank(w, VGA_HEIGHT - 1)
            &&& w.color == v.color
        }),
{
    let prev = lines.drop_last();
    let line = lines.last();
    assert(screen_lines(prev));
    assert(line == lines[VGA_HEIGHT - 1]);
    lemma_lines_fill_from_top(v, prev);
    let u = put_bytes(v, lines_text(prev));
    lemma_put_bytes_append(v, lines_text(prev), line.push(0x0a));
    lemma_line_at_bottom_scrolls(u, line);
    let w = put_bytes(u, line.push(0x0a));
    assert forall|r: int, c: int| 0 <= r < VGA_HEIGHT - 1 && 0 <= c < VGA_WIDTH implies #[trigger] w.char_at(
        r,
        c,
    ) == padded(lines[r + 1], c) && w.attr_at(r, c) == v.color by {
        if r < VGA_HEIGHT - 2 {
            assert(w.char_at(r, c) == u.char_at(r + 1, c));
            assert(lines[r + 1] == prev[r + 1]);
        }
    }
}

/// Console writer; owns text memory and the cursor registers.
pub struct Writer {
    column: usize,
    row: usize,
    color: u8,
    cells: Vec<u8>,
    cursor: usize,
    cursor_visible: bool,
}

impl View for Writer {
    type V = ScreenView;

    closed spec fn view(&self) -> ScreenView {
        ScreenView {
            cells: self.cells@,
            row: self.row as int,
            column: self.column as int,
            color: self.color,
            cursor: self.cursor as int,
            cursor_visible: self.cursor_visible,
        }
    }
}

impl Writer {
    pub open spec fn wf(&self) -> bool {
        self@.wf()
    }

    /// A blank white-on-black screen with the write position and cursor at
    /// the top left.
    pub fn new() -> (w: Writer)
        ensures
            w.wf(),
            w@ == fresh_screen(),
    {
        let color = color_byte(Color::White, Color::Black);
        let mut cells: Vec<u8> = Vec::new();
        let mut i: usize = 0;
        while i < VGA_BYTES
            invariant
                i <= VGA_BYTES,
                cells@.len() == i,
                forall|j: int| 0 <= j < i ==> cells@[j] == blank(color)[j],
            decreases VGA_BYTES - i,
        {
            if i % 2 == 0 {
                cells.push(0x20);
            } else {
                cells.push(color);
            }
            i = i + 1;
        }
        assert(cells@ =~= blank(color));
        Writer { column: 0, row: 0, color, cells, cursor: 0, cursor_visible: false }
    }

    pub fn set_color(&mut self, fg: Color, bg: Color)
        ensures
            final(self)@ == (ScreenView { color: spec_color_byte(fg, bg), ..old(self)@ }),
    {
        self.color = color_byte(fg, bg);
    }

    /// Moves every row one up, blanks the last row in the current color and
    /// pins the write position to the start of the last row.
    fn scroll(&mut self)
        requires
            old(self).wf(),
        ensures
            final(self)@ == (ScreenView {
                cells: scrolled(old(self)@.cells, old(self)@.color),
                row: VGA_HEIGHT - 1,
                column: 0,
                ..old(self)@
            }),
    {
        let ghost before = self.cells@;
        let line: usize = VGA_WIDTH * 2;
        let mut i: usize = 0;
        while i < VGA_BYTES - line
            invariant
                i <= VGA_BYTES - line,
                line == VGA_WIDTH * 2,
                self.cells@.len() == VGA_BYTES,
                before.len() == VGA_BYTES,
                self.color == old(self).color,
                self.cursor == old(self).cursor,
                self.cursor_visible == old(self).cursor_visible,
                forall|j: int| 0 <= j < i ==> self.cells@[j] == before[j + line],
                forall|j: int| i <= j < VGA_BYTES ==> self.cells@[j] == before[j],
            decreases VGA_BYTES - line - i,
        {
            let b = self.cells[i + line];
            self.cells.set(i, b);
            i = i + 1;
        }
        while i < VGA_BYTES
            invariant
                VGA_BYTES - line <= i <= VGA_BYTES,
                line == VGA_WIDTH * 2,
                self.cells@.len() == VGA_BYTES,
                before.len() == VGA_BYTES,
                self.color == old(self).color,
                self.cursor == old(self).cursor,
                self.cursor_visible == old(self).cursor_visible,
                forall|j: int| 0 <= j < VGA_BYTES - line ==> self.cells@[j] == before[j + line],
                forall|j: int|
                    VGA_BYTES - line <= j < i ==> self.cells@[j] == (if j % 2 == 0 {
                        0x20u8
                    } else {
                        self.color
                    }),
            decreases VGA_BYTES - i,
        {
            if i % 2 == 0 {
                self.cells.set(i, 0x20);
            } else {
                let c = self.color;
                self.cells.set(i, c);
            }
            i = i + 1;
        }
        assert(self.cells@ =~= scrolled(before, self.color));
        self.row = VGA_HEIGHT - 1;
        self.column = 0;
    }

    fn new_line(&mut self)
        requires
            old(self).wf(),
        ensures
            final(self)@ == line_feed(old(self)@),
    {
        if self.row < VGA_HEIGHT - 1 {
            self.column = 0;
            self.row = self.row + 1;
        } else {
            self.scroll();
        }
    }

    /// Points the hardware cursor at the logical write position.
    fn update_cursor(&mut self)
        requires
            old(self).wf(),
        ensures
            final(self)@ == old(self)@.synced(),
    {
        self.cursor = self.row * VGA_WIDTH + self.column;
    }

    /// Writes one byte: a newline advances the line; any other byte is
    /// stored with the current attribute, bytes outside printable ASCII as
    /// the replacement glyph.
    pub fn write_byte(&mut self, byte: u8)
        requires
            old(self).wf(),
        ensures
            final(self)@ == put_byte(old(self)@, byte),
            final(self).wf(),
    {
        if byte == 0x0a {
            self.new_line();
        } else {
            if self.column >= VGA_WIDTH {
                self.new_line();
            }
            let offset = (self.row * VGA_WIDTH + self.column) * 2;
            let shown: u8 = if 0x20 <= byte && byte <= 0x7e {
                byte
            } else {
                REPLACEMENT_GLYPH
            };
            self.cells.set(offset, shown);
            let c = self.color;
            self.cells.set(offset + 1, c);
            self.column = self.column + 1;
        }
        self.update_cursor();
    }

    /// Writes text bytes; bytes outside printable ASCII (newline aside) are
    /// drawn as the replacement glyph.
    pub fn write_text(&mut self, bytes: &[u8])
        requires
            old(self).wf(),
        ensures
            final(self)@ == put_text(old(self)@, bytes@),
            final(self).wf(),
    {
        let ghost start = self@;
        let mut i: usize = 0;
        while i < bytes.len()
            invariant
                i <= bytes@.len(),
                self.wf(),
                self@ == put_bytes(start, bytes@.take(i as int)),
            decreases bytes@.len() - i,
        {
            assert(bytes@.take(i + 1).drop_last() =~= bytes@.take(i as int));
            self.write_byte(bytes[i]);
            i = i + 1;
        }
        assert(bytes@.take(i as int) =~= bytes@);
    }

    /// Writes a string as text (see `write_text`).
    pub fn write_string(&mut self, s: &str)
        requires
            old(self).wf(),
        ensures
            final(self)@ == put_text(old(self)@, s.spec_bytes()),
            final(self).wf(),
    {
        self.write_text(s.as_bytes());
    }

    /// Writes text in the given colors, then restores the previous color.
    pub fn printc(&mut self, s: &str, fg: Color, bg: Color)
        requires
            old(self).wf(),
        ensures
            final(self)@ == printc_effect(old(self)@, s.spec_bytes(), fg, bg),
            final(self).wf(),
    {
        let saved = self.color;
        self.set_color(fg, bg);
        self.write_string(s);
        self.color = saved;
    }

    /// Steps back one column on the current row and blanks that cell; does
    /// nothing at the start of a row.
    pub fn backspace(&mut self)
        requires
            old(self).wf(),
        ensures
            final(self).wf(),
            final(self)@ == backspaced(old(self)@),
    {
        if self.column == 0 {
            return;
        }
        self.column = self.column - 1;
        let offset = (self.row * VGA_WIDTH + self.column) * 2;
        self.cells.set(offset, 0x20);
        let c = self.color;
        self.cells.set(offset + 1, c);
        self.update_cursor();
    }

    /// Blanks every cell in the current color and homes the write position.
    pub fn clear_screen(&mut self)
        requires
            old(self).wf(),
        ensures
            final(self).wf(),
            final(self)@ == cleared(old(self)@),
    {
        let mut i: usize = 0;
        while i < VGA_BYTES
            invariant
                i <= VGA_BYTES,
                self.cells@.len() == VGA_BYTES,
                self.color == old(self).color,
                self.cursor_visible == old(self).cursor_visible,
                forall|j: int| 0 <= j < i ==> self.cells@[j] == blank(self.color)[j],
            decreases VGA_BYTES - i,
        {
            if i % 2 == 0 {
                self.cells.set(i, 0x20);
            } else {
                let c = self.color;
                self.cells.set(i, c);
            }
            i = i + 1;
        }
        assert(self.cells@ =~= blank(self.color));
        self.column = 0;
        self.row = 0;
        self.update_cursor();
    }

    pub fn set_cursor_visible(&mut self, visible: bool)
        ensures
            final(self)@ == (ScreenView { cursor_visible: visible, ..old(self)@ }),
    {
        self.cursor_visible = visible;
    }

    /// Moves the write position and cursor; a position off the grid is
    /// ignored.
    pub fn set_cursor_position(&mut self, row: usize, col: usize)
        requires
            old(self).wf(),
        ensures
            final(self).wf(),
            (row < VGA_HEIGHT && col < VGA_WIDTH) ==> final(self)@ == (ScreenView {
                row: row as int,
                column: col as int,
                ..old(self)@
            }).synced(),
            !(row < VGA_HEIGHT && col < VGA_WIDTH) ==> final(self)@ == old(self)@,
    {
        if row < VGA_HEIGHT && col < VGA_WIDTH {
            self.row = row;
            self.column = col;
            self.update_cursor();
        }
    }

    /// (row, column) of the write position.
    pub fn get_cursor_position(&self) -> (r: (usize, usize))
        ensures
            r.0 == self@.row,
            r.1 == self@.column,
    {
        (self.row, self.column)
    }

    /// Linear cell index held by the hardware cursor registers.
    pub fn hardware_cursor(&self) -> (r: usize)
        ensures
            r == self@.cursor,
    {
        self.cursor
    }

    pub fn cursor_visible(&self) -> (r: bool)
        ensures
            r == self@.cursor_visible,
    {
        self.cursor_visible
    }

    pub fn color(&self) -> (r: u8)
        ensures
            r == self@.color,
    {
        self.color
    }

    pub fn char_at(&self, row: usize, col: usize) -> (r: u8)
        requires
            self.wf(),
            row < VGA_HEIGHT,
            col < VGA_WIDTH,
        ensures
            r == self@.char_at(row as int, col as int),
    {
        self.cells[(row * VGA_WIDTH + col) * 2]
    }

    pub fn attr_at(&self, row: usize, col: usize) -> (r: u8)
        requires
            self.wf(),
            row < VGA_HEIGHT,
            col < VGA_WIDTH,
        ensures
            r == self@.attr_at(row as int, col as int),
    {
        self.cells[(row * VGA_WIDTH + col) * 2 + 1]
    }

    /// Stores `text` from the start of `row` with attribute `color`, straight
    /// into text memory (what does not fit on the row is left out): the
    /// write position and cursor are left alone.
    pub fn write_at(&mut self, row: usize, text: &[u8], color: u8)
        requires
            old(self).wf(),
            row < VGA_HEIGHT,
        ensures
            final(self).wf(),
            final(self)@ == written_at(old(self)@, row as int, text@, color),
    {
        let start = row * VGA_WIDTH * 2;
        let n: usize = if text.len() > VGA_WIDTH {
            VGA_WIDTH
        } else {
            text.len()
        };
        let mut i: usize = 0;
        while i < n
            invariant
                i <= n,
                n == clipped_len(text@.len()),
                row < VGA_HEIGHT,
                start == cell_offset(row as int, 0),
                self.cells@.len() == VGA_BYTES,
                self.row == old(self).row,
                self.column == old(self).column,
                self.color == old(self).color,
                self.cursor == old(self).cursor,
                self.cursor_visible == old(self).cursor_visible,
                forall|j: int|
                    0 <= j < VGA_BYTES ==> #[trigger] self.cells@[j] == if start <= j < start + 2 * i {
                        if j % 2 == 0 {
                            text@[(j - start) / 2]
                        } else {
                            color
                        }
                    } else {
                        old(self).cells@[j]
                    },
            decreases n - i,
        {
            let o = start + 2 * i;
            self.cells.set(o, text[i]);
            self.cells.set(o + 1, color);
            i = i + 1;
        }
        assert(self.cells@ =~= written_at(old(self)@, row as int, text@, color).cells);
    }
}

} // verus!
