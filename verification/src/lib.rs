//! Runes state machine: message decoding, contract bookkeeping rules and
//! event routing for rune contracts (AMM pools and wrapped runes).

pub mod text;
pub mod rune;
pub mod message;
pub mod burn;
pub mod mint;
pub mod ext;
pub mod dao;
pub mod trading;
pub mod contract;
pub mod state;
pub mod stf;
pub mod context;
pub mod address;
pub mod amm;
pub mod opi_log;
pub mod init;
pub mod events;
pub mod routing;
