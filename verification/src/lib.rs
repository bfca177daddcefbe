//! A browser for pages that peers serve over a mixnet, addressed as
//! `nym://<server>[/<path>]`: the parser of addresses and links, the
//! navigation state machine with its history, and the decisions of the
//! bridge to the network session.
//!
//! `model` holds the mathematical model, `browser` and `bridge` the code that
//! is verified against it, and `laws` what holds of the model on every input.
//! `channel` holds what is taken on trust about the queues between the two
//! sides.

pub mod address;
pub mod bridge;
pub mod browser;
pub mod channel;
pub mod laws;
pub mod model;
pub mod session;
pub mod text;
