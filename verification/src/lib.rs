//! Google sign-in by the OAuth2 authorization-code flow, without the I/O.
//!
//! The client decides what is sent and what each answer means: it builds the
//! authorization URL, the token request and the user-info request, and turns the
//! provider's answers into an email address or an error. Reading the stored
//! credential and performing the HTTP calls is left to the caller.

pub mod authorization;
pub mod client;
pub mod credential;
pub mod error;
pub mod form;
pub mod login;
pub mod query;
pub mod query_url;
pub mod request;
pub mod response;
