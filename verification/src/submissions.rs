//! The submission lifecycle: vocabulary, errors, and the three workflows.

pub mod document_map;
pub mod dto;
pub mod errors;
pub mod issuance;
pub mod issuance_laws;
pub mod processing;
pub mod processing_laws;
pub mod status;
pub mod submission_controller;
pub mod submission_service;
pub mod vocabulary;
