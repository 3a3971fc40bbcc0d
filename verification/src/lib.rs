//! Send messages as a Telegram bot.
//!
//! The crate focuses on sending messages: it shapes the request payloads for
//! the `sendMessage` and `sendPhoto` operations of the Bot HTTP API and turns
//! every failure of a call into a small, stable set of typed errors.

pub mod bot;
pub mod error;
pub mod http;
pub mod json;
pub mod limit;
pub mod parse;
pub mod result;
