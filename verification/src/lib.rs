//! Lives that pass through three phases, Gestating, Alive and Dead, and the
//! one table that holds them.
//!
//! A [`models::Life`] is the flat row. A [`lifecycle::Phase`] is the same row
//! seen as the phase that its tag names. Transitions between phases are pure;
//! only `save` writes, and it hands back the phase of the row as it was
//! stored.

pub mod clock;
pub mod error;
pub mod lifecycle;
pub mod models;
pub mod round_trip;
pub mod schema;
