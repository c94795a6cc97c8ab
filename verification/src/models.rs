//! Domain values of the marketplace.
//!
//! Identifiers are plain integers, timestamps are seconds, and all money is
//! integer cents.

pub mod invite;
pub mod payment;
pub mod reputation;
pub mod review;
pub mod task;
pub mod task_application;
pub mod task_message;
pub mod user;
