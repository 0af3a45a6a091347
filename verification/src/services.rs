//! The collaborators' contracts as the workflows see them.

pub mod auth_service;
pub mod face_match_service;
pub mod metrics_service;
pub mod password;
