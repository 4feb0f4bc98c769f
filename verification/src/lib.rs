//! Core of an image-enhancement web service: a credential and session store
//! backed by SQLite, password hashing, an authentication gate, the state
//! machine of the processing pipeline, and response assembly.

pub mod auth;
pub mod conversions;
pub mod endpoints;
pub mod hashing;
pub mod pipeline;
pub mod store;
