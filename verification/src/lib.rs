//! Integration providers, build identity and host capabilities of a terminal
//! multiplexer, with their contracts.
pub mod text;
pub mod schema;
pub mod integration;
pub mod providers;
pub mod build_info;
pub mod host_capabilities;
pub mod handlers;
pub mod laws;
