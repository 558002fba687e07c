//! Typed access to options-chain snapshots: the domain model, its JSON
//! mapping, the derived accessors, configuration and request planning.

pub mod client;
pub mod codec;
pub mod config;
pub mod error;
pub mod float;
pub mod json;
pub mod models;
pub mod text;

pub use client::MassiveClient;
pub use config::Config;
pub use error::PeriscopeError;
pub use models::{Greeks, OptionContract, OptionsChainResponse};
