//! A minimal static-file HTTP server library: request-line parsing, target
//! cleaning and response rendering, with the server settings it runs on.
pub mod config;
pub mod text;
pub mod worker;
