//! The screens of the game, one to a file.

pub mod hud_screen;
pub mod main_menu_screen;
