//! Digital-rain animation core: falling character streaks, the field that
//! owns them, a frame timer, and a terminal mode state machine.
//!
//! The library computes each frame as plain data (a cleared surface plus a
//! list of cells to paint); performing the paint, the sleep and the event
//! polling is left to the embedding program.

pub mod cell;
mod clock;
pub mod line;
pub mod matrix;
pub mod rng;
pub mod terminal;
pub mod timer;
