//! Client-side protocol engine for exchanging small records with the Golioth
//! LightDB state and stream stores over a connectionless, encrypted channel.
//!
//! The crate holds the logic of the exchange: resource paths, correlation
//! tokens, request framing, and the state machine that pairs a response
//! datagram with the outstanding read. Sending and receiving datagrams is the
//! caller's business; every operation here takes and returns plain bytes.
//!
//! Beside the exchange stand two helpers for the modem that carries it: the
//! commands that install the pre-shared key, and the reading of the modem's
//! signal quality report.

pub mod client;
pub mod codec;
pub mod correlator;
pub mod errors;
pub mod keys;
pub mod path;
pub mod signal;
pub mod token;

pub use client::Golioth;
pub use signal::get_signal_strength;
pub use path::LightDBType;
