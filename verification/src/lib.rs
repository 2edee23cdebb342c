//! Core of a mailing-list service: subscriber enrollment with
//! confirmation-token issuance, token-based confirmation, timing-safe
//! credential validation, and fan-out delivery of newsletter issues.
//!
//! Storage and the email transport are modelled as in-memory collaborators
//! (`store::Store`, `email_client::EmailClient`); the HTTP layer around the
//! library lives outside of it.

pub mod domain;
pub mod email_client;
pub mod routes;
pub mod startup;
pub mod store;
