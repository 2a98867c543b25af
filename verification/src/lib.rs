//! User authentication and session lifecycle for a backend service.
//!
//! The crate verifies credentials, issues short-lived signed access tokens
//! and long-lived single-use refresh secrets, and drives the session state
//! machine (creation, rotation, revocation, expiry).  Every fallible
//! operation returns either a success value or a tagged error that cleanly
//! separates caller faults from server faults.

pub mod account;
pub mod authentication;
pub mod codec;
pub mod config;
pub mod errors;
pub mod laws;
pub mod models;
pub mod password;
pub mod repository;
pub mod session;
pub mod token;
