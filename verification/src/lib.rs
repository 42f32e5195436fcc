//! Verified core of a Discord text-to-speech bot.
//!
//! The bot itself (gateway connection, voice transport, HTTP delivery) is
//! plain I/O handled by an unverified driver; everything the bot *decides* is
//! in this crate and carries a contract:
//!
//! - whether a chat message is forwarded to the text-to-speech endpoint
//!   ([`forward`]);
//! - how the forwarded payload is shaped and rendered as JSON ([`record`],
//!   [`json`]);
//! - whether a voice-channel join, leave or play request is granted
//!   ([`voice`]);
//! - the static command configuration ([`commands`], [`welcome`]).

pub mod commands;
pub mod forward;
pub mod json;
pub mod record;
pub mod voice;
pub mod welcome;

use vstd::prelude::*;

verus! {

/// Shared user data handed to every command handler by the framework.
///
/// The bot keeps no per-command state, so the struct is empty; it exists so
/// that handlers have a stable state type to be generic over.
pub struct Data {}

} // verus!
