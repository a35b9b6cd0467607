//! Connection lifecycle engine of a DX cluster client.
//!
//! A DX cluster server speaks a line-oriented text protocol over TCP: it asks
//! for a callsign with a login prompt and then announces spots, one per line.
//! This crate holds the decisions of such a client and none of its I/O: what
//! counts as a prompt, how a received line is cleaned, how a connection moves
//! from authentication to streaming and on to its end, and how the handle by
//! which a caller supervises the connection behaves.

pub mod decode;
pub mod endpoint;
pub mod laws;
pub mod line;
pub mod listener;
pub mod recorder;
pub mod worker;
