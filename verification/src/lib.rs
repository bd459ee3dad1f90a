//! A single-chat chat-bot core: the authorization gate, the
//! interaction controller, the two-step network-address lookup, and
//! the configured-range random number, all with proved contracts.
//! Transport (HTTP requests, platform sends) stays with the caller,
//! which hands outcomes in and carries the ordered calls out.

pub mod controller;
pub mod decimal;
pub mod lookup;
pub mod random;
