//! What the library promises, said of what goes in and what comes out.
pub mod analysis;
pub mod calls;
pub mod cleanup;
pub mod client;
pub mod config;
pub mod deployment;
pub mod logging;
pub mod polling;
pub mod run;
pub mod text;
pub mod worker;
