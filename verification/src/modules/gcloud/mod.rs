//! Google Cloud Secret Manager.
pub mod client;
pub mod secretmanager;
