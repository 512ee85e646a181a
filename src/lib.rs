//! Core of a terminal client for an OpenStack-style cloud: the credential
//! form, the identity and resource responses, the shared list state of the
//! live view and the application state machine that ties them together.
//! Network, terminal and file access stay with the caller, which hands the
//! library plain values and acts on what it returns.

pub mod text;
pub mod category;
pub mod state;
pub mod config;
pub mod token;
pub mod server;
pub mod app;
