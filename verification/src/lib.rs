//! A verified core for a question-answering bridge: it projects remote
//! "question" objects into typed values, classifies each object by the
//! interfaces it advertises, plans answer submissions so that a password
//! write always precedes the generic answer write, and merges two signal
//! sources into a single change-notification feed.

pub mod classify;
pub mod error;
pub mod listing;
pub mod merge;
pub mod model;
pub mod path;
pub mod submit;
