//! Keeps a client authenticated against a captive network portal.
//!
//! The library holds the decisions: which portal request a control-loop
//! cycle makes next, how the session state moves between cycles, how a
//! password is resolved from the configuration and the secure store, and
//! what the portal requests carry. The network, the terminal and the
//! notification popups are driven by the program around it.
mod credentials_store;

pub mod config;
pub mod control;
pub mod credentials;
pub mod error;
pub mod portal;
pub mod text;
pub mod tui;

pub use config::Config;
pub use credentials::CredentialManager;
pub use error::{Error, Result};
