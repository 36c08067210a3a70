//! Conway's game of life on a field the size of the text grid, drawn through
//! the display's direct cell writes.
use vstd::prelude::*;
use crate::vga_buf::{offset_of, Screen, ScreenView};

verus! {

/// Rows of the field.
pub const HEIGHT: usize = 25;

/// Columns of the field.
pub const WIDTH: usize = 80;

/// A live cell.
pub const ALIVE: u8 = 120;

/// A dead cell.
pub const DEAD: u8 = 32;

/// 1 when `(i, j)` lies inside the field and holds a live cell, else 0.
pub open spec fn alive_at(f: [[u8; WIDTH]; HEIGHT], i: int, j: int) -> int {
    if 0 <= i < HEIGHT && 0 <= j < WIDTH && f@[i]@[j] == ALIVE {
        1
    } else {
        0
    }
}

/// Number of live cells among the (up to eight) neighbours of `(i, j)`.
pub open spec fn live_neighbours(f: [[u8; WIDTH]; HEIGHT], i: int, j: int) -> int {
    alive_at(f, i - 1, j - 1) + alive_at(f, i - 1, j) + alive_at(f, i - 1, j + 1) + alive_at(f, i, j - 1)
        + alive_at(f, i, j + 1) + alive_at(f, i + 1, j - 1) + alive_at(f, i + 1, j) + alive_at(
        f,
        i + 1,
        j + 1,
    )
}

/// The cell at `(i, j)` in the next generation: a live cell with two or three
/// live neighbours lives on, a dead cell with three comes alive, every other
/// cell is dead.
pub open spec fn next_cell(f: [[u8; WIDTH]; HEIGHT], i: int, j: int) -> u8 {
    let n = live_neighbours(f, i, j);
    if f@[i]@[j] == ALIVE && (n == 2 || n == 3) {
        ALIVE
    } else if f@[i]@[j] == DEAD && n == 3 {
        ALIVE
    } else {
        DEAD
    }
}

/// Counts the live neighbours of the cell at row `i`, column `j`.
pub fn get_count_nearest_cells(game_field: &[[u8; WIDTH]; HEIGHT], i: usize, j: usize) -> (r: u32)
    requires
        i < HEIGHT,
        j < WIDTH,
    ensures
        r == live_neighbours(*game_field, i as int, j as int),
{
    let mut count: u32 = 0;
    if i + 1 < HEIGHT && j + 1 < WIDTH && game_field[i + 1][j + 1] == ALIVE {
        count += 1;
    }
    if i + 1 < HEIGHT && j > 0 && game_field[i + 1][j - 1] == ALIVE {
        count += 1;
    }
    if i > 0 && j > 0 && game_field[i - 1][j - 1] == ALIVE {
        count += 1;
    }
    if i > 0 && j + 1 < WIDTH && game_field[i - 1][j + 1] == ALIVE {
        count += 1;
    }
    if i > 0 && game_field[i - 1][j] == ALIVE {
        count += 1;
    }
    if i + 1 < HEIGHT && game_field[i + 1][j] == ALIVE {
        count += 1;
    }
    if j + 1 < WIDTH && game_field[i][j + 1] == ALIVE {
        count += 1;
    }
    if j > 0 && game_field[i][j - 1] == ALIVE {
        count += 1;
    }
    count
}

/// The next generation of the whole field.
pub fn next_generation(current: &[[u8; WIDTH]; HEIGHT]) -> (r: [[u8; WIDTH]; HEIGHT])
    ensures
        forall|i: int, j: int|
            0 <= i < HEIGHT && 0 <= j < WIDTH ==> #[trigger] r@[i]@[j] == next_cell(*current, i, j),
{
    let mut evolution: [[u8; WIDTH]; HEIGHT] = [[DEAD; WIDTH]; HEIGHT];
    let mut i: usize = 0;
    while i < HEIGHT
        invariant
            i <= HEIGHT,
            forall|a: int, b: int|
                0 <= a < i && 0 <= b < WIDTH ==> #[trigger] evolution@[a]@[b] == next_cell(*current, a, b),
        decreases HEIGHT - i,
    {
        let mut row: [u8; WIDTH] = [DEAD; WIDTH];
        let mut j: usize = 0;
        while j < WIDTH
            invariant
                i < HEIGHT,
                j <= WIDTH,
                forall|b: int| 0 <= b < j ==> #[trigger] row@[b] == next_cell(*current, i as int, b),
            decreases WIDTH - j,
        {
            let n = get_count_nearest_cells(current, i, j);
            let cell = current[i][j];
            if cell == ALIVE && (n == 3 || n == 2) {
                row[j] = ALIVE;
            } else if cell == DEAD && n == 3 {
                row[j] = ALIVE;
            } else {
                row[j] = DEAD;
            }
            j += 1;
        }
        evolution[i] = row;
        i += 1;
    }
    evolution
}

/// Draws the field on the screen, cell for cell, in the screen's color; the
/// cursor stays where it was.
pub fn render(game_field: &[[u8; WIDTH]; HEIGHT], vga_driver: &mut Screen)
    requires
        old(vga_driver).wf(),
    ensures
        final(vga_driver).wf(),
        final(vga_driver)@ == (ScreenView { cells: final(vga_driver)@.cells, ..old(vga_driver)@ }),
        forall|i: int, j: int|
            0 <= i < HEIGHT && 0 <= j < WIDTH ==> final(vga_driver)@.cells[#[trigger] offset_of(i, j)] == (
                game_field@[i]@[j],
                old(vga_driver)@.color,
            ),
{
    let mut i: usize = 0;
    while i < HEIGHT
        invariant
            i <= HEIGHT,
            vga_driver.wf(),
            vga_driver@ == (ScreenView { cells: vga_driver@.cells, ..old(vga_driver)@ }),
            forall|a: int, b: int|
                0 <= a < i && 0 <= b < WIDTH ==> vga_driver@.cells[#[trigger] offset_of(a, b)] == (
                    game_field@[a]@[b],
                    old(vga_driver)@.color,
                ),
        decreases HEIGHT - i,
    {
        let mut j: usize = 0;
        while j < WIDTH
            invariant
                i < HEIGHT,
                j <= WIDTH,
                vga_driver.wf(),
                vga_driver@ == (ScreenView { cells: vga_driver@.cells, ..old(vga_driver)@ }),
                forall|a: int, b: int|
                    0 <= a < i && 0 <= b < WIDTH ==> vga_driver@.cells[#[trigger] offset_of(a, b)] == (
                        game_field@[a]@[b],
                        old(vga_driver)@.color,
                    ),
                forall|b: int|
                    0 <= b < j ==> vga_driver@.cells[#[trigger] offset_of(i as int, b)] == (
                        game_field@[i as int]@[b],
                        old(vga_driver)@.color,
                    ),
            decreases WIDTH - j,
        {
            vga_driver.write_char_byte((i * WIDTH + j) as u32, game_field[i][j]);
            j += 1;
        }
        i += 1;
    }
}

} // verus!
