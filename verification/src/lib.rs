//! An encrypted peer-to-peer messenger: the verified library.
//!
//! Two peers each hold a persistent identity. When they connect they exchange
//! fresh ephemeral keys and signatures, derive a pair of directional session
//! keys, and from then on send every message encrypted under a per-direction
//! counter. A peer's fingerprint is trusted on first use and checked on every
//! later connection.

pub mod app;
pub mod bytes;
pub mod chat;
pub mod cli;
pub mod connect;
pub mod crypto;
pub mod laws;
pub mod primitives;
pub mod protocol;
pub mod screens;
pub mod state;
pub mod text;
pub mod transitions;
pub mod ui;
