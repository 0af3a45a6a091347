//! What the services share.

pub mod minio_service;
