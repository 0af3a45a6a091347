//! Request and response shapes shared by the endpoints.

pub mod user;
