use kernel_console::vga_buf::{
    cursor_register_writes, Screen, BUF_CELLS, BUF_HEIGHT, BUF_WIDTH, DEFAULT_COLOR,
};

fn row_text(screen: &Screen, row: u32, len: u32) -> Vec<u8> {
    (0..len).map(|c| screen.read_char(row * BUF_WIDTH + c).char_byte).collect()
}

#[test]
fn new_screen_is_cleared() {
    let screen = Screen::new();
    assert_eq!(screen.line(), 0);
    assert_eq!(screen.col(), 0);
    assert_eq!(screen.cursor_position(), 0);
    for k in 0..(BUF_CELLS as u32) {
        let c = screen.read_char(k);
        assert_eq!(c.char_byte, 0);
        assert_eq!(c.color_byte, DEFAULT_COLOR);
    }
}

#[test]
fn print_writes_bytes_and_moves_cursor() {
    let mut screen = Screen::new();
    screen.print("hello");
    assert_eq!(row_text(&screen, 0, 5), b"hello".to_vec());
    assert_eq!(screen.read_char(0).color_byte, DEFAULT_COLOR);
    assert_eq!(screen.col(), 5);
    assert_eq!(screen.cursor_position(), 5);
    screen.print("\nab");
    assert_eq!(screen.line(), 1);
    assert_eq!(screen.col(), 2);
    assert_eq!(screen.cursor_position(), 82);
    assert_eq!(row_text(&screen, 1, 2), b"ab".to_vec());
}

#[test]
fn offset_round_trips_through_cell_write_and_read() {
    let mut screen = Screen::new();
    for &(row, col) in &[(0u32, 0u32), (3, 17), (24, 79), (12, 40)] {
        let offset = row * BUF_WIDTH + col;
        screen.write_char_byte(offset, b'Q');
        let c = screen.read_char(offset);
        assert_eq!(c.char_byte, b'Q');
        assert_eq!(c.color_byte, DEFAULT_COLOR);
    }
    assert_eq!(screen.read_char(1).char_byte, 0);
    assert_eq!(screen.line(), 0);
    assert_eq!(screen.col(), 0);
}

#[test]
fn full_row_wraps_to_next_row() {
    let mut screen = Screen::new();
    let row = "x".repeat(BUF_WIDTH as usize);
    screen.print(&row);
    assert_eq!(screen.col(), 0);
    assert_eq!(screen.line(), 1);
    assert_eq!(screen.cursor_position(), 80);
}

#[test]
fn full_last_row_wraps_by_scrolling() {
    let mut screen = Screen::new();
    for _ in 0..(BUF_HEIGHT - 1) {
        screen.print("\n");
    }
    assert_eq!(screen.line(), 24);
    screen.write_char_byte(0, b'T');
    let row = "y".repeat(BUF_WIDTH as usize);
    screen.print(&row);
    assert_eq!(screen.col(), 0);
    assert_eq!(screen.line(), 24);
    assert_eq!(row_text(&screen, 23, 80), vec![b'y'; 80]);
    assert_eq!(screen.read_char(0).char_byte, 0);
    assert_eq!(row_text(&screen, 24, 80), vec![b' '; 80]);
    assert_eq!(screen.read_char(24 * 80).color_byte, 0);
}

#[test]
fn one_more_than_a_full_grid_scrolls_once() {
    let mut screen = Screen::new();
    let mut text = String::new();
    for k in 0..(BUF_CELLS + 1) {
        text.push((b'a' + (k / 80 % 26) as u8) as char);
    }
    screen.print(&text);
    assert_eq!(row_text(&screen, 0, 80), vec![b'b'; 80]);
    assert_eq!(row_text(&screen, 23, 80), vec![b'y'; 80]);
    assert_eq!(screen.read_char(24 * 80).char_byte, b'z');
    assert_eq!(screen.read_char(24 * 80 + 1).char_byte, b' ');
    assert_eq!(screen.line(), 24);
    assert_eq!(screen.col(), 1);
}

#[test]
fn backspace_stops_at_protected_column() {
    let mut screen = Screen::new();
    screen.print(" $ ");
    assert_eq!(screen.col(), 3);
    screen.delete_last_symbol(3);
    assert_eq!(screen.col(), 3);
    assert_eq!(screen.read_char(2).char_byte, b' ');
    assert_eq!(screen.read_char(1).char_byte, b'$');
    assert_eq!(screen.read_char(3).char_byte, b' ');
    assert_eq!(screen.read_char(3).color_byte, DEFAULT_COLOR);
    assert_eq!(screen.cursor_position(), 3);
}

#[test]
fn backspace_erases_previous_character() {
    let mut screen = Screen::new();
    screen.print(" $ ab");
    screen.delete_last_symbol(3);
    assert_eq!(screen.col(), 4);
    assert_eq!(row_text(&screen, 0, 5), b" $ a ".to_vec());
    screen.delete_last_symbol(3);
    assert_eq!(screen.col(), 3);
    assert_eq!(row_text(&screen, 0, 4), b" $  ".to_vec());
    assert_eq!(screen.cursor_position(), 3);
}

#[test]
fn push_right_then_write_inserts() {
    let mut screen = Screen::new();
    screen.print("AB");
    screen.push_row_to_right(0);
    screen.move_print_to(0);
    screen.print("X");
    assert_eq!(row_text(&screen, 0, 3), b"XAB".to_vec());
    assert_eq!(screen.col(), 1);
}

#[test]
fn push_right_keeps_cells_left_of_start_and_drops_last() {
    let mut screen = Screen::new();
    screen.print("\n");
    let row: String = (0..80).map(|k| (b'0' + (k % 10) as u8) as char).collect();
    screen.print(&row[..79]);
    screen.write_char_byte(80 + 79, b'Z');
    screen.push_row_to_right(5);
    assert_eq!(row_text(&screen, 1, 7), b"0123455".to_vec());
    assert_eq!(screen.read_char(80 + 79).char_byte, b'8');
    assert_eq!(screen.read_char(0).char_byte, 0);
}

#[test]
fn move_print_to_seeks_and_clamps() {
    let mut screen = Screen::new();
    screen.print("\nabc");
    screen.move_print_to(1);
    assert_eq!(screen.line(), 1);
    assert_eq!(screen.col(), 1);
    assert_eq!(screen.cursor_position(), 81);
    assert_eq!(row_text(&screen, 1, 3), b"abc".to_vec());
    screen.move_print_to(200);
    assert_eq!(screen.col(), 79);
    assert_eq!(screen.cursor_position(), 159);
}

#[test]
fn clear_blanks_and_homes() {
    let mut screen = Screen::new();
    screen.print("text\nmore");
    screen.clear();
    assert_eq!(screen.line(), 0);
    assert_eq!(screen.col(), 0);
    assert_eq!(screen.cursor_position(), 0);
    assert_eq!(screen.read_char(0).char_byte, 0);
    assert_eq!(screen.read_char(80).char_byte, 0);
    assert_eq!(screen.read_char(80).color_byte, DEFAULT_COLOR);
}

#[test]
fn get_buffer_returns_characters() {
    let mut screen = Screen::new();
    screen.print("hi\nyo");
    let buf = screen.get_buffer();
    assert_eq!(buf.len(), 2000);
    assert_eq!(&buf[0..2], b"hi");
    assert_eq!(&buf[80..82], b"yo");
    assert_eq!(buf[2], 0);
}

#[test]
fn cursor_register_writes_split_position() {
    let w = cursor_register_writes(0x0123);
    assert_eq!(w, [(0x3D4, 14), (0x3D5, 0x01), (0x3D4, 15), (0x3D5, 0x23)]);
    let w = cursor_register_writes(1999);
    assert_eq!(w, [(0x3D4, 14), (0x3D5, 7), (0x3D4, 15), (0x3D5, 207)]);
}
