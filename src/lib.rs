//! A simulated two-sided score log and point-in-time lookups over it.
//!
//! `stamp` holds the data model, `lookup` answers "what was the score at or
//! before this offset", and `generator` builds a random, time-ordered log.

pub mod generator;
pub mod lookup;
pub mod stamp;
