//! A chat with a bot over HTTP, as decisions with proved contracts.
//!
//! Nothing in this library reads, waits or prints. A [`command::ChatCommand`] starts with
//! [`interactive::Launch`], which says what to do. What came of that is handed to
//! [`command::ChatCommand::advance`] within an exchange, and to
//! [`command::ChatCommand::converse`] between two exchanges; each says what to show and what to do
//! next.
//!
//! - [`command`]: the command, its credentials and its requests.
//! - [`exchange`]: one message and its answer, as a state machine.
//! - [`interactive`]: the chat around the exchanges, and how a command starts.
//! - [`sse`]: from the bytes of a stream to the payloads of its events.
//! - [`render`]: what the user sees of an answer.
//! - [`protocol`], [`json`], [`error`], [`text`]: what the others are made of.
//! - [`laws`]: what holds of every exchange and of every chat.
//! - [`promises`]: what each operation does, told of what goes in and what comes out.

pub mod command;
pub mod error;
pub mod exchange;
pub mod interactive;
pub mod json;
pub mod laws;
pub mod promises;
pub mod protocol;
pub mod render;
pub mod sse;
pub mod text;
