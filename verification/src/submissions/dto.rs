//! Payloads exchanged with callers and with the submission store.

pub mod presigned_urls_response;
