//! Verified core of a command-line helper that prepares OpenGov proposals for
//! adding invulnerable collators to Polkadot and Kusama system chains.

pub mod network;
pub mod text;
pub mod call_data;
pub mod accounts;
pub mod calls;
pub mod on_chain;
pub mod output;
