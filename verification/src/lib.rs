//! A verified simulation of Langton's Ant on a bounded grid.
//!
//! A single ant walks over a fixed-size grid of two-colored cells. Each step
//! flips the cell under the ant, turns the ant according to the cell's new
//! color, and moves it one cell forward, clamped at the grid's edges. The
//! simulation keeps a history of snapshots so that it can be rewound one
//! step at a time.

pub mod agent;
pub mod cell;
pub mod universe;

pub use agent::Ant;
pub use agent::Direction;
pub use cell::Cell;
pub use universe::Snapshot;
pub use universe::Universe;
