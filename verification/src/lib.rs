//! Core of a terminal turn-based game: a round-robin turn scheduler ordered
//! by a mutable speed attribute, and an event multiplexer that merges
//! asynchronous input with a fixed-cadence clock and hands the consumer one
//! event per poll.

pub mod command;
pub mod components;
pub mod context;
pub mod dispatch;
pub mod entities;
pub mod entity_list;
pub mod error;
pub mod event;
pub mod source;
pub mod states;
mod strutil;
pub mod turn;
pub mod types;

pub use context::Context;
pub use event::Event;
