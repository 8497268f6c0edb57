//! Short-lived credentials for named cloud-account profiles, and the running
//! instances that they give access to.

pub mod aggregate;
pub mod cache;
pub mod credential;
pub mod delegation;
pub mod discovery;
pub mod error;
pub mod profiles;
pub mod resolver;
pub mod sign;
