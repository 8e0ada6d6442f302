//! Showing events to a person.

pub mod pretty;
