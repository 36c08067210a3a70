//! Console core of a small freestanding kernel: the text display driver,
//! keyboard decoding, the decisions taken by the interrupt handlers, and the
//! two clients drawn on the display (a command shell and a game of life).

pub mod vga_buf;
pub mod vga_laws;
pub mod interrupts;
pub mod critical;
pub mod game_of_life;
pub mod shell;
