//! Backend library for an encoding-aware text file tool.
//!
//! The heart of the crate is [`codec`]: reading bytes that may be UTF-8 or
//! legacy GBK text into a unified in-memory string, and serialising such a
//! string back to GBK bytes, with a heuristic repair for text that was
//! mis-decoded earlier in a pipeline. [`auth`] holds a volatile in-memory
//! account store, and [`messages`] the fixed strings of the command surface.

pub mod auth;
pub mod codec;
pub mod messages;
