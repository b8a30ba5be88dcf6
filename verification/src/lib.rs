//! An OAuth2 relying-party relay: it starts third-party sign-in flows, guards
//! them with a registry of single-use state values, walks a callback through
//! the token and profile exchanges, and publishes its signing key as a JSON
//! Web Key.

pub mod error;
pub mod oauth;
pub mod controllers;
