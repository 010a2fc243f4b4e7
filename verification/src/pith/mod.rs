//! Core state of the client.
pub mod state;
