//! The dispatcher: which path a resource takes when the cluster reports it,
//! and the finalizer that holds back its deletion until the remote account
//! has been dealt with.

pub mod atlasuser;
pub mod error;
