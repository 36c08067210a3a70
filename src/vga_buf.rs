//! Driver for the memory-mapped 25 x 80 text display.
//!
//! The grid is a flat byte array: cell `k` (row `k / 80`, column `k % 80`)
//! keeps its character byte at `2 * k` and its attribute byte at `2 * k + 1`.
use vstd::prelude::*;
use vstd::string::StringSliceAdditionalSpecFns;

verus! {

/// Number of rows of the text grid.
pub const BUF_HEIGHT: u32 = 25;

/// Number of columns of the text grid.
pub const BUF_WIDTH: u32 = 80;

/// Number of cells of the grid.
pub const BUF_CELLS: usize = 2000;

/// Number of bytes of the grid (a character and an attribute per cell).
pub const BUF_SIZE: usize = 4000;

/// Attribute used for text written through the driver (light green on black).
pub const DEFAULT_COLOR: u8 = 0x0a;

/// Command port of the hardware cursor.
pub const CURSOR_CMD_PORT: u16 = 0x3D4;

/// Data port of the hardware cursor.
pub const CURSOR_DATA_PORT: u16 = 0x3D5;

/// The newline byte.
pub const NEWLINE: u8 = 10;

/// The space byte.
pub const SPACE: u8 = 32;

/// One cell of the grid.
pub struct AsciiChar {
    pub char_byte: u8,
    pub color_byte: u8,
}

/// What a screen is, mathematically.
pub struct ScreenView {
    /// `(character, attribute)` of each cell, in row-major order.
    pub cells: Seq<(u8, u8)>,
    pub line: nat,
    pub col: nat,
    /// Attribute given to the characters written by `print`.
    pub color: u8,
    /// Linear position last written to the hardware cursor register.
    pub cursor: nat,
}

/// Linear index of the cell at `row`, `col`.
pub open spec fn offset_of(row: int, col: int) -> int {
    row * BUF_WIDTH + col
}

/// Reads the cells of a flat grid of bytes.
pub open spec fn cells_of(buf: Seq<u8>) -> Seq<(u8, u8)> {
    Seq::new((buf.len() / 2) as nat, |k: int| (buf[2 * k], buf[2 * k + 1]))
}

/// The blank cell left by scrolling: a space on black.
pub open spec fn blank_cell() -> (u8, u8) {
    (SPACE, 0u8)
}

/// The grid after every row moves up by one: the top row is lost and the
/// bottom row is blank.
pub open spec fn scrolled(cells: Seq<(u8, u8)>) -> Seq<(u8, u8)> {
    Seq::new(
        BUF_CELLS as nat,
        |k: int|
            if k < BUF_CELLS - BUF_WIDTH {
                cells[k + BUF_WIDTH]
            } else {
                blank_cell()
            },
    )
}

/// The grid after the cells of row `line` from column `from` to the
/// second-to-last one move right by one; the rightmost cell is overwritten.
pub open spec fn pushed_right(cells: Seq<(u8, u8)>, line: int, from: int) -> Seq<(u8, u8)> {
    Seq::new(
        cells.len(),
        |k: int|
            if offset_of(line, from) < k <= offset_of(line, BUF_WIDTH - 1) {
                cells[k - 1]
            } else {
                cells[k]
            },
    )
}

/// The hardware cursor brought to the logical cursor.
pub open spec fn synced(v: ScreenView) -> ScreenView {
    ScreenView { cursor: offset_of(v.line as int, v.col as int) as nat, ..v }
}

/// Moving to the start of the next row, scrolling when already on the last one.
pub open spec fn newline_view(v: ScreenView) -> ScreenView {
    if v.line == BUF_HEIGHT - 1 {
        ScreenView { cells: scrolled(v.cells), col: 0, ..v }
    } else {
        ScreenView { line: v.line + 1, col: 0, ..v }
    }
}

/// Writing one byte: a newline moves to the next row; any other byte is put
/// at the cursor, which then advances and wraps at the end of the row.
pub open spec fn put_byte_view(v: ScreenView, b: u8) -> ScreenView {
    synced(
        if b == NEWLINE {
            newline_view(v)
        } else {
            let w = ScreenView {
                cells: v.cells.update(offset_of(v.line as int, v.col as int), (b, v.color)),
                col: v.col + 1,
                ..v
            };
            if w.col == BUF_WIDTH {
                newline_view(w)
            } else {
                w
            }
        },
    )
}

/// Writing the bytes one after the other.
pub open spec fn print_view(v: ScreenView, bytes: Seq<u8>) -> ScreenView
    decreases bytes.len(),
{
    if bytes.len() == 0 {
        v
    } else {
        put_byte_view(print_view(v, bytes.drop_last()), bytes.last())
    }
}

/// Whether writing `b` scrolls the grid.
pub open spec fn scrolls_on(v: ScreenView, b: u8) -> bool {
    v.line == BUF_HEIGHT - 1 && (b == NEWLINE || v.col == BUF_WIDTH - 1)
}

/// How many times writing the bytes scrolls the grid.
pub open spec fn scroll_count(v: ScreenView, bytes: Seq<u8>) -> nat
    decreases bytes.len(),
{
    if bytes.len() == 0 {
        0
    } else {
        scroll_count(v, bytes.drop_last()) + if scrolls_on(
            print_view(v, bytes.drop_last()),
            bytes.last(),
        ) {
            1nat
        } else {
            0nat
        }
    }
}

/// Backspace: the cursor steps back one column unless that would take it
/// below column `min`, and the cell it then stands on is blanked.
pub open spec fn deleted_view(v: ScreenView, min: int) -> ScreenView {
    let c = if v.col > min {
        v.col - 1
    } else {
        v.col as int
    };
    synced(
        ScreenView {
            cells: v.cells.update(offset_of(v.line as int, c), (SPACE, v.color)),
            col: c as nat,
            ..v
        },
    )
}

/// The grid left by `clear`.
pub open spec fn cleared_cells(color: u8) -> Seq<(u8, u8)> {
    Seq::new(BUF_CELLS as nat, |k: int| (0u8, color))
}

/// The screen's text driver. The grid itself stands in `buffer`.
pub struct Screen {
    color: u8,
    pub buffer: [u8; BUF_SIZE],
    line: u32,
    col: u32,
    cursor: u16,
}

impl View for Screen {
    type V = ScreenView;

    closed spec fn view(&self) -> ScreenView {
        ScreenView {
            cells: cells_of(self.buffer@),
            line: self.line as nat,
            col: self.col as nat,
            color: self.color,
            cursor: self.cursor as nat,
        }
    }
}

proof fn lemma_put_cell(buf: Seq<u8>, k: int, a: u8, b: u8)
    requires
        buf.len() == BUF_SIZE,
        0 <= k < BUF_CELLS,
    ensures
        cells_of(buf.update(2 * k, a).update(2 * k + 1, b)) == cells_of(buf).update(k, (a, b)),
{
    assert(cells_of(buf.update(2 * k, a).update(2 * k + 1, b)) =~= cells_of(buf).update(k, (a, b)));
}

impl Screen {
    /// The grid has its size, and the cursor stands inside it.
    pub open spec fn wf(&self) -> bool {
        &&& self@.cells.len() == BUF_CELLS
        &&& self@.line < BUF_HEIGHT
        &&& self@.col < BUF_WIDTH
    }

    proof fn lemma_cells_len(&self)
        ensures
            self@.cells.len() == BUF_CELLS,
    {
        assert(self.buffer@.len() == BUF_SIZE);
    }

    fn write_char(&mut self, offset: u32, char: AsciiChar)
        requires
            offset < BUF_CELLS,
        ensures
            final(self)@ == (ScreenView {
                cells: old(self)@.cells.update(offset as int, (char.char_byte, char.color_byte)),
                ..old(self)@
            }),
    {
        proof {
            lemma_put_cell(self.buffer@, offset as int, char.char_byte, char.color_byte);
        }
        self.buffer[offset as usize * 2] = char.char_byte;
        self.buffer[offset as usize * 2 + 1] = char.color_byte;
    }

    /// A screen in the state left by `clear`, writing in the default color.
    pub fn new() -> (r: Screen)
        ensures
            r.wf(),
            r@ == (ScreenView {
                cells: cleared_cells(DEFAULT_COLOR),
                line: 0,
                col: 0,
                color: DEFAULT_COLOR,
                cursor: 0,
            }),
    {
        let mut screen = Screen { color: DEFAULT_COLOR, buffer: [0u8; BUF_SIZE], line: 0, col: 0, cursor: 0 };
        proof {
            screen.lemma_cells_len();
        }
        screen.clear();
        screen
    }

    /// Fills every cell with a blank character in the screen's color and puts
    /// the cursor at the top left corner.
    pub fn clear(&mut self)
        requires
            old(self)@.cells.len() == BUF_CELLS,
        ensures
            final(self).wf(),
            final(self)@ == (ScreenView {
                cells: cleared_cells(old(self)@.color),
                line: 0,
                col: 0,
                cursor: 0,
                ..old(self)@
            }),
    {
        let mut k: u32 = 0;
        while k < BUF_HEIGHT * BUF_WIDTH
            invariant
                self@.cells.len() == BUF_CELLS,
                k <= BUF_HEIGHT * BUF_WIDTH,
                self@ == (ScreenView { cells: self@.cells, ..old(self)@ }),
                forall|i: int| 0 <= i < k ==> self@.cells[i] == (0u8, old(self)@.color),
            decreases BUF_HEIGHT * BUF_WIDTH - k,
        {
            let color = self.color;
            self.write_char(k, AsciiChar { char_byte: 0, color_byte: color });
            k += 1;
        }
        assert(self@.cells =~= cleared_cells(old(self)@.color));
        self.col = 0;
        self.line = 0;
        self.move_cursor();
    }

    /// Steps the cursor back one column, but not below `min_index`, and blanks
    /// the cell it then stands on.
    pub fn delete_last_symbol(&mut self, min_index: u32)
        requires
            old(self).wf(),
        ensures
            final(self).wf(),
            final(self)@ == deleted_view(old(self)@, min_index as int),
    {
        if self.col > min_index {
            self.col -= 1;
        }
        self.write_char_byte(self.line * BUF_WIDTH + self.col, SPACE);
        self.move_cursor();
    }

    /// Moves the cells of the cursor's row from column `row_start` to the
    /// second-to-last one right by one, overwriting the rightmost cell; the
    /// cells left of `row_start` stay. Nothing moves when `row_start` is the
    /// last column or beyond.
    pub fn push_row_to_right(&mut self, row_start: u32)
        requires
            old(self).wf(),
        ensures
            final(self).wf(),
            final(self)@ == synced(
                ScreenView {
                    cells: pushed_right(old(self)@.cells, old(self)@.line as int, row_start as int),
                    ..old(self)@
                },
            ),
    {
        let ghost v = self@;
        let row = self.line * BUF_WIDTH;
        if row_start < BUF_WIDTH - 1 {
            let mut column: u32 = BUF_WIDTH - 1;
            while column > row_start
                invariant
                    self.wf(),
                    row == offset_of(v.line as int, 0),
                    v.line < BUF_HEIGHT,
                    row_start <= column <= BUF_WIDTH - 1,
                    self@ == (ScreenView { cells: self@.cells, ..v }),
                    forall|k: int|
                        row + column < k <= row + BUF_WIDTH - 1 ==> self@.cells[k] == v.cells[k - 1],
                    forall|k: int|
                        0 <= k < BUF_CELLS && !(row + column < k <= row + BUF_WIDTH - 1) ==> self@.cells[k]
                            == v.cells[k],
                decreases column,
            {
                let c = self.read_char(row + column - 1);
                self.write_char(row + column, c);
                column -= 1;
            }
        }
        assert(self@.cells =~= pushed_right(v.cells, v.line as int, row_start as int));
        self.move_cursor();
    }

    /// Puts the cursor at column `x` of its row, or at the last column when
    /// `x` lies beyond it; no cell changes.
    pub fn move_print_to(&mut self, x: u32)
        requires
            old(self).wf(),
        ensures
            final(self).wf(),
            final(self)@ == synced(
                ScreenView {
                    col: if x < BUF_WIDTH {
                        x as nat
                    } else {
                        (BUF_WIDTH - 1) as nat
                    },
                    ..old(self)@
                },
            ),
    {
        if x < BUF_WIDTH {
            self.col = x;
        } else {
            self.col = BUF_WIDTH - 1;
        }
        self.move_cursor();
    }

    /// The character bytes of the grid, in row-major order.
    pub fn get_buffer(&self) -> (r: [u8; BUF_CELLS])
        requires
            self.wf(),
        ensures
            forall|k: int| 0 <= k < BUF_CELLS ==> #[trigger] r@[k] == self@.cells[k].0,
    {
        let mut buf = [SPACE; BUF_CELLS];
        let mut k: u32 = 0;
        while k < BUF_HEIGHT * BUF_WIDTH
            invariant
                self.wf(),
                k <= BUF_HEIGHT * BUF_WIDTH,
                buf@.len() == BUF_CELLS,
                forall|i: int| 0 <= i < k ==> #[trigger] buf@[i] == self@.cells[i].0,
            decreases BUF_HEIGHT * BUF_WIDTH - k,
        {
            buf[k as usize] = self.read_char(k).char_byte;
            k += 1;
        }
        buf
    }

    /// Row of the cursor.
    pub fn line(&self) -> (r: u32)
        ensures
            r == self@.line,
    {
        self.line
    }

    /// Column of the cursor.
    pub fn col(&self) -> (r: u32)
        ensures
            r == self@.col,
    {
        self.col
    }

    /// Attribute given to written characters.
    pub fn color(&self) -> (r: u8)
        ensures
            r == self@.color,
    {
        self.color
    }

    /// Linear position held by the hardware cursor register.
    pub fn cursor_position(&self) -> (r: u16)
        ensures
            r == self@.cursor,
    {
        self.cursor
    }

    /// Writes `char_byte` with the screen's color at linear position `offset`,
    /// leaving the cursor alone.
    pub fn write_char_byte(&mut self, offset: u32, char_byte: u8)
        requires
            old(self).wf(),
            offset < BUF_CELLS,
        ensures
            final(self).wf(),
            final(self)@ == (ScreenView {
                cells: old(self)@.cells.update(offset as int, (char_byte, old(self)@.color)),
                ..old(self)@
            }),
    {
        let color = self.color;
        self.write_char(offset, AsciiChar { char_byte, color_byte: color });
    }

    /// Writes the hardware cursor register.
    pub fn set_cursor_position(&mut self, position: u16)
        ensures
            final(self)@ == (ScreenView { cursor: position as nat, ..old(self)@ }),
    {
        self.cursor = position;
    }

    /// Brings the hardware cursor to the logical cursor.
    pub fn move_cursor(&mut self)
        requires
            old(self).wf(),
        ensures
            final(self).wf(),
            final(self)@ == synced(old(self)@),
    {
        let position = (self.line * BUF_WIDTH + self.col) as u16;
        self.set_cursor_position(position);
    }

    fn scroll_up(&mut self)
        requires
            old(self)@.cells.len() == BUF_CELLS,
        ensures
                        final(self)@ == (ScreenView { cells: scrolled(old(self)@.cells), ..old(self)@ }),
    {
        let mut k: u32 = 0;
        while k < (BUF_HEIGHT - 1) * BUF_WIDTH
            invariant
                self@.cells.len() == BUF_CELLS,
                k <= (BUF_HEIGHT - 1) * BUF_WIDTH,
                self@ == (ScreenView { cells: self@.cells, ..old(self)@ }),
                forall|i: int| 0 <= i < k ==> self@.cells[i] == old(self)@.cells[i + BUF_WIDTH],
                forall|i: int| k <= i < BUF_CELLS ==> self@.cells[i] == old(self)@.cells[i],
            decreases (BUF_HEIGHT - 1) * BUF_WIDTH - k,
        {
            let c = self.read_char(k + BUF_WIDTH);
            self.write_char(k, c);
            k += 1;
        }
        let mut j: u32 = 0;
        while j < BUF_WIDTH
            invariant
                self@.cells.len() == BUF_CELLS,
                j <= BUF_WIDTH,
                self@ == (ScreenView { cells: self@.cells, ..old(self)@ }),
                forall|i: int|
                    0 <= i < BUF_CELLS - BUF_WIDTH ==> self@.cells[i] == old(self)@.cells[i + BUF_WIDTH],
                forall|i: int|
                    BUF_CELLS - BUF_WIDTH <= i < BUF_CELLS - BUF_WIDTH + j ==> self@.cells[i] == blank_cell(),
            decreases BUF_WIDTH - j,
        {
            self.write_char((BUF_HEIGHT - 1) * BUF_WIDTH + j, AsciiChar { char_byte: SPACE, color_byte: 0x00 });
            j += 1;
        }
        assert(self@.cells =~= scrolled(old(self)@.cells));
    }

    fn new_line(&mut self)
        requires
            old(self)@.cells.len() == BUF_CELLS,
            old(self)@.line < BUF_HEIGHT,
        ensures
            final(self).wf(),
            final(self)@ == newline_view(old(self)@),
    {
        if self.line == BUF_HEIGHT - 1 {
            self.scroll_up();
        } else {
            self.line += 1;
        }
        self.col = 0;
    }

    fn put_byte(&mut self, byte: u8)
        requires
            old(self).wf(),
        ensures
            final(self).wf(),
            final(self)@ == put_byte_view(old(self)@, byte),
    {
        if byte == NEWLINE {
            self.new_line();
        } else {
            self.write_char_byte(self.line * BUF_WIDTH + self.col, byte);
            self.col += 1;
            if self.col == BUF_WIDTH {
                self.new_line();
            }
        }
        self.move_cursor();
    }

    /// Writes the bytes of `s` from the cursor on: `\n` moves to the start of
    /// the next row, any other byte is put at the cursor; a full row wraps, and
    /// a new row below the last one scrolls the grid up. The hardware cursor
    /// follows each byte.
    pub fn print(&mut self, s: &str)
        requires
            old(self).wf(),
        ensures
            final(self).wf(),
            final(self)@ == print_view(old(self)@, s.spec_bytes()),
    {
        self.print_bytes(s.as_bytes());
    }

    /// Writes `bytes` as `print` writes the bytes of a string.
    pub fn print_bytes(&mut self, bytes: &[u8])
        requires
            old(self).wf(),
        ensures
            final(self).wf(),
            final(self)@ == print_view(old(self)@, bytes@),
    {
        let mut i: usize = 0;
        while i < bytes.len()
            invariant
                self.wf(),
                i <= bytes@.len(),
                self@ == print_view(old(self)@, bytes@.subrange(0, i as int)),
            decreases bytes@.len() - i,
        {
            self.put_byte(bytes[i]);
            assert(bytes@.subrange(0, i + 1).drop_last() =~= bytes@.subrange(0, i as int));
            i += 1;
        }
        assert(bytes@.subrange(0, i as int) =~= bytes@);
    }

    /// Reads the cell at linear position `offset`.
    pub fn read_char(&self, offset: u32) -> (r: AsciiChar)
        requires
            offset < BUF_CELLS,
        ensures
            (r.char_byte, r.color_byte) == self@.cells[offset as int],
    {
        proof {
            self.lemma_cells_len();
        }
        AsciiChar {
            char_byte: self.buffer[offset as usize * 2],
            color_byte: self.buffer[offset as usize * 2 + 1],
        }
    }
}

/// The four port writes that bring the hardware cursor to `position`: the
/// index of the high byte register, the high byte, the index of the low byte
/// register, the low byte.
pub fn cursor_register_writes(position: u16) -> (r: [(u16, u16); 4])
    ensures
        r@ == seq![
            (CURSOR_CMD_PORT, 14u16),
            (CURSOR_DATA_PORT, (position / 256) as u16),
            (CURSOR_CMD_PORT, 15u16),
            (CURSOR_DATA_PORT, (position % 256) as u16),
        ],
{
    let r = [
        (CURSOR_CMD_PORT, 14u16),
        (CURSOR_DATA_PORT, (position >> 8) & 0x00FF),
        (CURSOR_CMD_PORT, 15u16),
        (CURSOR_DATA_PORT, position & 0x00FF),
    ];
    assert((position >> 8) & 0x00FF == position / 256) by (bit_vector);
    assert(position & 0x00FF == position % 256) by (bit_vector);
    assert(r@ =~= seq![
        (CURSOR_CMD_PORT, 14u16),
        (CURSOR_DATA_PORT, (position / 256) as u16),
        (CURSOR_CMD_PORT, 15u16),
        (CURSOR_DATA_PORT, (position % 256) as u16),
    ]);
    r
}

} // verus!
