//! Properties of the display model that relate several operations.
use vstd::prelude::*;
use crate::vga_buf::{
    deleted_view, offset_of, print_view, pushed_right, scroll_count, ScreenView,
    BUF_CELLS, BUF_HEIGHT, BUF_WIDTH, NEWLINE,
};

verus! {

/// A well-formed view: the grid has its size and the cursor is inside it.
pub open spec fn valid_view(v: ScreenView) -> bool {
    &&& v.cells.len() == BUF_CELLS
    &&& v.line < BUF_HEIGHT
    &&& v.col < BUF_WIDTH
}

/// No byte is a newline.
pub open spec fn plain(bytes: Seq<u8>) -> bool {
    forall|i: int| 0 <= i < bytes.len() ==> bytes[i] != NEWLINE
}

/// The linear offset `row * BUF_WIDTH + col` of an in-bounds position is a
/// cell of the grid from which the row and the column are recovered; a cell
/// written there (as `write_char_byte` does) is read back unchanged (as
/// `read_char` reads), and every other position keeps its cell.
pub proof fn lemma_offset_round_trip(
    cells: Seq<(u8, u8)>,
    row: int,
    col: int,
    c: (u8, u8),
    row2: int,
    col2: int,
)
    requires
        cells.len() == BUF_CELLS,
        0 <= row < BUF_HEIGHT,
        0 <= col < BUF_WIDTH,
        0 <= row2 < BUF_HEIGHT,
        0 <= col2 < BUF_WIDTH,
    ensures
        0 <= offset_of(row, col) < BUF_CELLS,
        offset_of(row, col) / (BUF_WIDTH as int) == row,
        offset_of(row, col) % (BUF_WIDTH as int) == col,
        cells.update(offset_of(row, col), c)[offset_of(row, col)] == c,
        (row2, col2) != (row, col) ==> cells.update(offset_of(row, col), c)[offset_of(row2, col2)]
            == cells[offset_of(row2, col2)],
{
    assert(offset_of(row, col) / 80 == row && offset_of(row, col) % 80 == col) by (nonlinear_arith)
        requires
            0 <= col < 80,
            0 <= row < 25,
            offset_of(row, col) == row * 80 + col,
    ;
    assert((row2, col2) != (row, col) ==> offset_of(row2, col2) != offset_of(row, col)) by (
    nonlinear_arith)
        requires
            0 <= col < 80,
            0 <= col2 < 80,
            offset_of(row, col) == row * 80 + col,
            offset_of(row2, col2) == row2 * 80 + col2,
    ;
}

/// Plain bytes that do not reach the end of the last row are laid down one
/// cell after the other from the cursor on, and nothing scrolls.
pub proof fn lemma_print_plain(v: ScreenView, bytes: Seq<u8>)
    requires
        valid_view(v),
        plain(bytes),
        offset_of(v.line as int, v.col as int) + bytes.len() < BUF_CELLS,
    ensures
        ({
            let r = print_view(v, bytes);
            let p = offset_of(v.line as int, v.col as int);
            &&& valid_view(r)
            &&& r.color == v.color
            &&& offset_of(r.line as int, r.col as int) == p + bytes.len()
            &&& forall|k: int|
                0 <= k < BUF_CELLS ==> #[trigger] r.cells[k] == if p <= k < p + bytes.len() {
                    (bytes[k - p], v.color)
                } else {
                    v.cells[k]
                }
        }),
        scroll_count(v, bytes) == 0,
    decreases bytes.len(),
{
    if bytes.len() > 0 {
        let pre = bytes.drop_last();
        assert(plain(pre)) by {
            assert forall|i: int| 0 <= i < pre.len() implies pre[i] != NEWLINE by {
                assert(pre[i] == bytes[i]);
            }
        }
        lemma_print_plain(v, pre);
        assert(bytes.last() != NEWLINE);
    }
}

/// Writing as many plain bytes as are left on the cursor's row wraps: the
/// cursor goes to column 0 of the next row, or the grid scrolls once when the
/// cursor was on the last row.
pub proof fn lemma_row_wraps(v: ScreenView, bytes: Seq<u8>)
    requires
        valid_view(v),
        plain(bytes),
        bytes.len() == BUF_WIDTH - v.col,
    ensures
        print_view(v, bytes).col == 0,
        v.line < BUF_HEIGHT - 1 ==> print_view(v, bytes).line == v.line + 1 && scroll_count(v, bytes)
            == 0,
        v.line == BUF_HEIGHT - 1 ==> print_view(v, bytes).line == v.line && scroll_count(v, bytes)
            == 1,
{
    let pre = bytes.drop_last();
    assert(plain(pre)) by {
        assert forall|i: int| 0 <= i < pre.len() implies pre[i] != NEWLINE by {
            assert(pre[i] == bytes[i]);
        }
    }
    lemma_print_plain(v, pre);
    let u = print_view(v, pre);
    assert(u.line == v.line && u.col == BUF_WIDTH - 1);
    assert(bytes.last() != NEWLINE);
}

/// Filling the whole grid from the top left corner, plus one more plain byte,
/// scrolls exactly once: the first row written is gone and the top row holds
/// the second one.
pub proof fn lemma_one_scroll_past_full_grid(v: ScreenView, bytes: Seq<u8>)
    requires
        valid_view(v),
        v.line == 0,
        v.col == 0,
        plain(bytes),
        bytes.len() == BUF_CELLS + 1,
    ensures
        scroll_count(v, bytes) == 1,
        forall|j: int|
            0 <= j < BUF_WIDTH ==> #[trigger] print_view(v, bytes).cells[j] == (
                bytes[BUF_WIDTH + j],
                v.color,
            ),
{
    let a = bytes.subrange(0, BUF_CELLS - 1);
    let b = bytes.subrange(0, BUF_CELLS as int);
    assert(bytes.drop_last() =~= b);
    assert(b.drop_last() =~= a);
    assert(plain(a)) by {
        assert forall|i: int| 0 <= i < a.len() implies a[i] != NEWLINE by {
            assert(a[i] == bytes[i]);
        }
    }
    lemma_print_plain(v, a);
    let u = print_view(v, a);
    assert(u.line == BUF_HEIGHT - 1 && u.col == BUF_WIDTH - 1);
    assert(b.last() == bytes[BUF_CELLS - 1]);
    assert(bytes[BUF_CELLS - 1] != NEWLINE);
    assert(bytes.last() != NEWLINE);
    let w = print_view(v, b);
    assert(w.line == BUF_HEIGHT - 1 && w.col == 0);
    assert(scroll_count(v, b) == scroll_count(v, a) + 1);
    assert(!crate::vga_buf::scrolls_on(w, bytes.last()));
    assert(scroll_count(v, bytes) == scroll_count(v, b));
    assert forall|j: int| 0 <= j < BUF_WIDTH implies #[trigger] w.cells[j] == (
        bytes[BUF_WIDTH + j],
        v.color,
    ) by {
        assert(w.cells[j] == u.cells.update(BUF_CELLS - 1, (b.last(), v.color))[j + BUF_WIDTH]);
        assert(u.cells[j + BUF_WIDTH] == (a[j + BUF_WIDTH], v.color));
    }
}

/// Backspace never takes the cursor below the protected column `min` when it
/// starts at or beyond it, and only the cell it ends on changes; from column
/// `min` itself the cursor stays and the cell before it is untouched.
pub proof fn lemma_backspace_floor(v: ScreenView, min: int)
    requires
        valid_view(v),
        0 <= min,
    ensures
        v.col >= min ==> deleted_view(v, min).col >= min,
        v.col == min ==> deleted_view(v, min).col == min,
        v.col == min && min > 0 ==> deleted_view(v, min).cells[offset_of(v.line as int, min - 1)]
            == v.cells[offset_of(v.line as int, min - 1)],
        forall|k: int|
            0 <= k < BUF_CELLS && k != offset_of(v.line as int, deleted_view(v, min).col as int)
                ==> #[trigger] deleted_view(v, min).cells[k] == v.cells[k],
{
}

/// Shifting the row right from column `c` and then writing at column `c`
/// inserts: the new cell stands at `c`, the cells that stood from `c` on follow
/// it, one column further right, and the cells left of `c` stay.
pub proof fn lemma_shift_then_insert(cells: Seq<(u8, u8)>, line: int, c: int, x: (u8, u8))
    requires
        cells.len() == BUF_CELLS,
        0 <= line < BUF_HEIGHT,
        0 <= c < BUF_WIDTH - 1,
    ensures
        ({
            let r = pushed_right(cells, line, c).update(offset_of(line, c), x);
            &&& r[offset_of(line, c)] == x
            &&& forall|j: int| c < j < BUF_WIDTH ==> #[trigger] r[offset_of(line, j)] == cells[offset_of(line, j - 1)]
            &&& forall|j: int| 0 <= j < c ==> #[trigger] r[offset_of(line, j)] == cells[offset_of(line, j)]
        }),
{
}

} // verus!
