//! The domain model: an options chain and what it is made of.

pub mod chain;
pub mod greeks;
pub mod options;

pub use chain::{OptionContract, OptionsChainResponse};
pub use greeks::Greeks;
pub use options::{
    ContractDetails, ContractType, DayBar, ExerciseStyle, LastQuote, LastTrade, UnderlyingAsset,
};
