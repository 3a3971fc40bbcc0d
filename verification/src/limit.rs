//! Endpoint's rate limits.
//!
//! These limits are relative. A limit may go a little bit higher but
//! eventually results in the endpoint rejecting calls. They are advisory
//! values for callers; nothing in this crate schedules or throttles calls.

use vstd::prelude::*;

verus! {

/// How many messages are sent to a chat per second.
pub const MESSAGE_PER_CHAT_PER_SECOND: usize = 1;

/// How many messages are sent to a chat per a minute.
pub const MESSAGE_PER_CHAT_PER_MINUTE: usize = 20;

/// How many messages are sent per second.
pub const MESSAGE_PER_SECOND: usize = 30;

} // verus!
