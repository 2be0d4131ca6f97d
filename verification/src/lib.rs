//! Verified core of a typed client and command line for the YNAB v1 API.
pub mod money;
pub mod limiter;
pub mod retry;
pub mod settings;
pub mod text;
pub mod ids;
pub mod dates;
pub mod models;
pub mod errors;
pub mod endpoints;
pub mod cli;
pub mod output;
pub mod reads;
pub mod reports;
