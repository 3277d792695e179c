//! Core of a command-line conversational agent that keeps a remote
//! "assistant" resource in sync with local declarative configuration.
//!
//! Everything here is pure decision logic: identifier types, the
//! configuration model, reconciliation and upload planning, the bundle
//! artifact rules, conversation persistence, and the run-to-completion
//! turn protocol. All network and file I/O is performed by an unverified
//! driver that feeds results back into these functions as plain values.

pub mod bundle;
pub mod cmd;
pub mod config;
pub mod conversation;
pub mod error;
pub mod files;
pub mod ids;
pub mod instructions;
pub mod reconcile;
pub mod strutil;
pub mod turn;

pub use conversation::Conversation;
pub use error::Error;
