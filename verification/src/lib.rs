//! Identity-verification submission workflow: the decisions of issuing upload
//! credentials, processing a submission and answering status inquiries.
//!
//! The library performs no I/O. Each workflow is a state machine: it names the
//! next call to make against the object store, the submission store or the
//! comparator, and decides from the answer what happens next.

pub mod commons;
pub mod config;
pub mod controllers;
pub mod http;
pub mod ident;
pub mod json;
pub mod models;
pub mod payload;
pub mod services;
pub mod submissions;
pub mod text;
pub mod validation;
