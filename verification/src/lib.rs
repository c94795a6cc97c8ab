//! Decision core of a task marketplace: the task lifecycle state machine,
//! integer-cent fee splitting, content moderation and trust-level rules.
//!
//! Every function here is side-effect free. Storage, payment and HTTP layers
//! call in with plain values and act on the plain values they get back.

pub mod auth;
pub mod config;
pub mod crypto;
pub mod errors;
pub mod models;
pub mod routes;
pub mod services;
pub mod text;
