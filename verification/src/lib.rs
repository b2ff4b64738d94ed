//! Storage-operation core: resolves a location URI to a backend, classifies
//! backend failures as permanent or retryable, and drives a cross-backend
//! copy, with the resolution, classification and copy decisions verified.

pub mod assoc;
pub mod backend;
pub mod config;
pub mod copy;
pub mod factory;
pub mod location;
pub mod outcome;
pub mod service;
pub mod text;
