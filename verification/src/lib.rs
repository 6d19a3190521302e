//! Chat completions served by a command line agent.
pub mod agent;
pub mod collect;
pub mod config;
pub mod json;
pub mod laws;
pub mod laws_of_lines;
pub mod laws_of_replies;
pub mod laws_of_requests;
pub mod laws_of_runs;
pub mod message;
pub mod output;
pub mod parser;
pub mod platform;
pub mod reply;
pub mod stream;
pub mod text;
