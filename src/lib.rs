//! Client for a remote user directory and the service layer that turns its
//! outcomes into local HTTP responses.
pub mod configuration;
pub mod endpoint;
pub mod json;
pub mod go_rest_client;
pub mod user_service;
