//! The verified core of the Aingle client: wire protocol, transcripts,
//! authentication statements, session rules and release checks.

pub mod auth;
pub mod backoff;
pub mod bytes;
pub mod cli;
pub mod client;
pub mod config;
pub mod connect;
pub mod doctor;
pub mod encoding;
pub mod history;
pub mod identity;
pub mod ids;
pub mod install;
pub mod operator;
pub mod outside;
pub mod paths;
pub mod protocol;
pub mod resilient;
pub mod session;
pub mod tape;
pub mod text;
pub mod update;
