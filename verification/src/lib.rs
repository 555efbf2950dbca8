//! A terminal grid emulator: a fixed-width, vertically growing grid of styled
//! character cells that is driven by tokenized terminal events.
//!
//! A tokenizer turns a captured byte stream into [`Event`]s; a [`Grid`] consumes
//! them in order and ends up holding what a terminal would show. What every
//! operation does is stated over [`GridState`], the mathematical model of a
//! grid.

pub mod cell;
pub mod theme;
pub mod width;
pub mod model;
pub mod grid;
pub mod event;
pub mod laws;

pub use cell::Cell;
pub use event::{render, Event};
pub use grid::Grid;
pub use model::GridState;
pub use theme::{Color, Theme};
