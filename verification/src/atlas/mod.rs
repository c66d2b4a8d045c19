//! The remote accounts: what is asked of the service that holds them, what it
//! answers, and what the controller decides from that.

pub mod context;
pub mod error;
pub mod reconcile;
pub mod repository;
pub mod user;
pub mod user_request;
pub mod user_response;
