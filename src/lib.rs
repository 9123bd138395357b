pub mod cli;
pub mod commands;
pub mod config;
pub mod error;
pub mod laws;
pub mod locator;
pub mod manifest;
pub mod naming;
pub mod output;
pub mod strategy;
