//! Sends one local file as an attachment to several recipients, with the
//! sender's identity and credentials taken from a per-user configuration file.
//!
//! The library holds the decisions: what a configuration file must contain,
//! what is written on first run, how each message is addressed, and how the
//! per-recipient results of a batch are gathered.
pub mod config;
pub mod dispatch;
pub mod letter;
pub mod toml_doc;
