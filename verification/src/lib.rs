//! A verified core for a small CRUD service over a single "person" resource.
//!
//! The service logic — pagination, repository semantics, transactional
//! creation, error translation, response envelopes and the error-body
//! rewriting middleware — is modelled and verified here. The network edge
//! (HTTP server, database driver, logging) lives outside the library and
//! exchanges plain values with it.

pub mod clock;
pub mod errors;
pub mod handler;
pub mod laws;
pub mod middlewares;
pub mod model;
pub mod pagination;
pub mod reply;
pub mod store;
pub mod text;
