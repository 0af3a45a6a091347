//! The decisions of the endpoints outside the submission lifecycle.

pub mod auth;
pub mod dashboard;
