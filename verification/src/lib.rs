//! A toroidal Game of Life universe: a fixed-size grid of binary cells that
//! advances one generation at a time under the classic birth/survival rule,
//! with edges wrapping around to the opposite side.

pub mod cell;
pub mod laws;
pub mod universe;

pub use cell::Cell;
pub use universe::CreationError;
pub use universe::Universe;
