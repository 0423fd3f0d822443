//! Event distribution, timed producers and the order ledger of a signage
//! display server.
//!
//! The crate holds the rules of the server as plain data and functions with
//! machine-checked contracts. Timers, locks, sockets and files are the
//! business of the program that embeds it.

pub mod args;
pub mod client;
pub mod events;
pub mod images;
pub mod json;
pub mod orders;
pub mod popups;
