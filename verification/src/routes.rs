//! The decisions of the request handlers, by domain.
//!
//! A handler loads what a decision needs, asks here, and then acts on the
//! answer. Nothing in here reads or writes anything.

pub mod admin;
pub mod applications;
pub mod attestations;
pub mod auth;
pub mod invites;
pub mod messages;
pub mod reviews;
pub mod tasks;
pub mod users;
pub mod webhooks;
