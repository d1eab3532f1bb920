//! Deploys virtual machines in bulk and one by one, follows each of them until it is up,
//! compares the two approaches and cleans up afterwards.
//!
//! This crate holds every decision: what is asked of the API, how an answer is read, when a
//! machine counts as launched, what is reported and what is deleted. Reading files, talking
//! HTTP and running threads is left to the program around it.
pub mod analysis;
pub mod cleanup;
pub mod client;
pub mod clock;
pub mod config;
pub mod deployment;
pub mod history;
pub mod json;
pub mod laws;
pub mod logging;
pub mod polling;
pub mod run;
pub mod text;
pub mod worker;
