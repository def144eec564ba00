//! A terminal output surface: a grid of character cells addressed by
//! (row, column), region scans clipped to the screen, and the screen's
//! lifecycle as a state machine that says which terminal commands to issue.

pub mod color;
pub mod command;
pub mod geometry;
pub mod region;
pub mod screen;
pub mod term_size;
