//! Gateway core for a fleet of scooters that speak a comma-delimited ASCII
//! protocol: the frame codec, the typed model of inbound commands, the
//! session registry and the state machines behind the operator commands.
//!
//! Every function in this crate is verified against the contract it carries,
//! and the laws that tie several functions together are proof functions
//! next to them. What is believed without proof is small and marked:
//!
//! - `server::protocol::search` compiles a pattern with `regex` and searches
//!   a text with it; its outcome is named `regex_search` and never spelled out.
//! - `commands::parser::naive_time` and `naive_date` ask `chrono` whether a
//!   time of day and a calendar date exist.
//! - `text` says of std that `str`'s `==` compares characters and that
//!   `String::push` appends one.
//!
//! Sockets, locks, the clock, HTTP and floating-point output are left to the program
//! around the library, which is handed plain values and hands plain values
//! back: a workflow tells it which frame to send or that a frame is awaited,
//! and is told what went out and what came in.

pub mod commands;
pub mod config;
pub mod decimal;
pub mod errors;
pub mod server;
pub mod text;
