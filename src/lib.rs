//! An in-memory store of word pairs (an English word and its translation),
//! with create / get / edit / delete / list operations and the mapping of
//! their outcomes to response envelopes.

pub mod clock;
pub mod model;
pub mod ids;
pub mod store;
pub mod response;
pub mod handler;
pub mod laws;
