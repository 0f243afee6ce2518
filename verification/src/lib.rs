//! Core rules of a newsletter subscription service: validated subscriber
//! data, the enrollment and confirmation protocols, and credential checks.
//!
//! Nothing here talks to the network. The functions say which statement to
//! run, which message to send and how to answer; the caller does it and
//! reports back.

pub mod authentication;
pub mod configuration;
pub mod db;
pub mod domain;
pub mod email_client;
pub mod error;
pub mod routes;
pub mod startup;
pub mod text;
pub mod token;
