//! Typed descriptions of chat messages and embeds, checked against the
//! platform's size limits and turned into serenity's builders.
//!
//! Every conversion states, over the payload a serenity builder carries,
//! exactly which value comes out and exactly when a limit rejects the input.

pub mod bindings;
pub mod embed;
pub mod message;
pub mod model;
pub mod payload;
pub mod types;
pub mod utf16;
