//! A two-player memory (card-pairing) game: the round state machine, the
//! entities on the board, the order in which they are drawn, and the widgets
//! that react to clicks.
//!
//! Positions are whole world units and time is counted in microseconds, so
//! every rule of the game is stated over integers. The library draws
//! nothing and plays nothing: a frame is handed out as a list of things to
//! draw, and sounds as a queue of requests.
//!
//! A frame has two halves. [`game::Game::advance_round`] evaluates the
//! round, runs the pause down and updates the entities;
//! [`game::Game::handle_input`] handles the frame's events and gives clicks
//! to the widgets. Between the two the platform may tell the widgets where
//! the pointer is. [`game::Game::cycle`] is both halves in a row.
//!
//! What holds of every game is proved in [`laws`] and [`pairs`].

pub mod turn;
pub mod resource_location;
pub mod card;
pub mod asset;
pub mod input;
pub mod sound;
pub mod session;
pub mod identity;
pub mod entity;
pub mod depth;
pub mod widget;
pub mod widgets;
pub mod screen;
pub mod screens;
pub mod board;
pub mod frame;
pub mod game;
pub mod laws;
pub mod pairs;
