use vstd::prelude::*;

pub mod text;
pub mod command;
pub mod help;
pub mod digest;
pub mod paths;
pub mod audit;
pub mod auth;
pub mod error;
pub mod connectors;
pub mod search;
pub mod observability;
pub mod policy;
pub mod alerts;
pub mod helper;
pub mod config;
pub mod history;
pub mod console;
pub mod collectors;
pub mod stream;
pub mod store;
pub mod shell;
pub mod actions;
pub mod telemetry;
pub mod identity;
pub mod reports;
pub mod signing;
pub mod lockout;
pub mod session;
pub mod feed;
pub mod workbench;
pub mod processes;
pub mod palette;

verus! {
} // verus!
