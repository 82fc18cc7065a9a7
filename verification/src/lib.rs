//! Text terminal core: a scancode decoder and the character grid it drives.

pub mod editing;
pub mod keyboard;
pub mod screen;
pub mod terminal;
pub mod upkeep;
pub mod vga_buffer;
