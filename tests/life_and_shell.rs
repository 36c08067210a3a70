use kernel_console::game_of_life::{get_count_nearest_cells, next_generation, render, ALIVE, DEAD};
use kernel_console::shell::{compare_str_with_arr, mu_split};
use kernel_console::vga_buf::{Screen, DEFAULT_COLOR};

fn empty_field() -> [[u8; 80]; 25] {
    [[DEAD; 80]; 25]
}

#[test]
fn counts_neighbours_inside_and_at_corners() {
    let mut f = empty_field();
    f[0][1] = ALIVE;
    f[1][0] = ALIVE;
    f[1][1] = ALIVE;
    f[24][79] = ALIVE;
    assert_eq!(get_count_nearest_cells(&f, 0, 0), 3);
    assert_eq!(get_count_nearest_cells(&f, 1, 1), 2);
    assert_eq!(get_count_nearest_cells(&f, 24, 78), 1);
    assert_eq!(get_count_nearest_cells(&f, 24, 79), 0);
    assert_eq!(get_count_nearest_cells(&f, 10, 10), 0);
}

#[test]
fn blinker_oscillates() {
    let mut f = empty_field();
    f[5][4] = ALIVE;
    f[5][5] = ALIVE;
    f[5][6] = ALIVE;
    let g = next_generation(&f);
    let mut expected = empty_field();
    expected[4][5] = ALIVE;
    expected[5][5] = ALIVE;
    expected[6][5] = ALIVE;
    assert_eq!(g, expected);
    assert_eq!(next_generation(&g), f);
}

#[test]
fn render_draws_every_cell() {
    let mut f = empty_field();
    f[2][3] = ALIVE;
    let mut screen = Screen::new();
    screen.print("ab");
    render(&f, &mut screen);
    assert_eq!(screen.read_char(2 * 80 + 3).char_byte, ALIVE);
    assert_eq!(screen.read_char(2 * 80 + 3).color_byte, DEFAULT_COLOR);
    assert_eq!(screen.read_char(0).char_byte, DEAD);
    assert_eq!(screen.col(), 2);
}

fn line(text: &str) -> [u8; 80] {
    let mut arr = [0u8; 80];
    arr[..text.len()].copy_from_slice(text.as_bytes());
    arr
}

#[test]
fn split_command_and_argument() {
    let (cmd, arg) = mu_split(line("make_dir docs"), 13);
    assert_eq!(&cmd[..8], b"make_dir");
    assert_eq!(&cmd[8..], &[0, 0]);
    assert_eq!(&arg[..4], b"docs");
    assert!(arg[4..].iter().all(|&b| b == 0));
}

#[test]
fn split_command_without_argument() {
    let (cmd, arg) = mu_split(line("clear"), 5);
    assert_eq!(&cmd[..5], b"clear");
    assert!(cmd[5..].iter().all(|&b| b == 0));
    assert!(arg.iter().all(|&b| b == 0));
}

#[test]
fn split_long_command_is_cut() {
    let (cmd, arg) = mu_split(line("change_dirXab"), 13);
    assert_eq!(&cmd, b"change_dir");
    assert_eq!(&arg[..2], b"ab");
    assert_eq!(arg[2], 0);
}

#[test]
fn compare_is_prefix_match() {
    let mut arr = [0u8; 10];
    arr[..5].copy_from_slice(b"clear");
    assert!(compare_str_with_arr("clear", arr));
    assert!(compare_str_with_arr("cle", arr));
    assert!(!compare_str_with_arr("cur_dir", arr));
    assert!(compare_str_with_arr("", arr));
}

#[test]
fn split_long_argument_is_cut() {
    let text: String = std::iter::once(' ').chain((0..79).map(|k| (b'a' + (k % 26) as u8) as char)).collect();
    let (cmd, arg) = mu_split(line(&text), 80);
    assert!(cmd.iter().all(|&b| b == 0));
    assert_eq!(&arg[..], &text.as_bytes()[1..71]);
}
