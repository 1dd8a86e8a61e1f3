//! The plain descriptions that callers fill in before converting.

pub mod embed;
pub mod message;
