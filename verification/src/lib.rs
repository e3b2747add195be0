//! Configuration-validation and persisted-state core of a Matrix chat-bot
//! backend.
//!
//! The library turns a loosely-typed, mostly-optional settings document into a
//! fully-resolved, immutable [`config::Config`], expanding the self-referential
//! group-ping mapping along the way, and holds the three small durable state
//! records (session credentials, per-room correction cooldowns, outgoing
//! transaction counter) together with the decision logic of their
//! load-or-default / overwrite-save protocol.  File access and on-disk
//! (de)serialization live outside the library; everything here is pure
//! transformation with contracts.

pub mod config;
pub mod errors;
pub mod group_pings;
pub mod messages;
pub mod outside;
pub mod resolve;
pub mod routes;
pub mod schema;
pub mod storage;
pub mod util;

use vstd::prelude::*;

verus! {

/// Program identity: the first half of the user agent the bot presents.
pub const NAME: &'static str = "matrix_bot";

/// Program identity: the second half of the user agent the bot presents.
pub const VERSION: &'static str = "0.1.0";

} // verus!
