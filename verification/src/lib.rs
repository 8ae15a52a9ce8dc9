//! Command-intent resolver for an interactive console.
//!
//! The library turns a freely-typed, incrementally-edited line of text into
//! one of a fixed set of structured actions, restricts which actions are
//! legal depending on which interface (interactive console or machine pipe)
//! issued them, and drives a small selection state machine used to browse a
//! generated help listing.

pub mod interface;
pub mod text;
pub mod tokenize;
pub mod grammar;
pub mod selection;
pub mod action;
pub mod classify;
pub mod buffer;
pub mod environment;
pub mod laws;
