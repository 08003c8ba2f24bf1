//! A small verified persistence layer for tracking content creators, a
//! blacklist of creators, and a queue of interesting links.
//!
//! Every operation validates its input, applies it to a [`store::Store`] and
//! reports the outcome; the contracts say exactly which rows exist afterwards.

pub mod crud;
pub mod error;
pub mod laws;
pub mod model;
pub mod store;
pub mod table;
pub mod validate;
