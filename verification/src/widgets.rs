//! The controls of the user interface, one kind to a file.

pub mod crown_widget;
pub mod end_screen_quit_widget;
pub mod play_again_widget;
pub mod play_widget;
pub mod player_widget;
pub mod quit_widget;
