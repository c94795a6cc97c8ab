//! Decision services.
//!
//! - [`lifecycle`]: planning and carrying out the operations on a task
//! - [`moderation`]: content moderation (ordered rule groups over patterns)
//! - [`pattern`]: compiled text patterns
//! - [`payments`]: decisions around escrow, capture, transfer and refund
//! - [`reputation`]: reputation summary recomputation
//! - [`trust`]: trust level evaluation

pub mod lifecycle;
pub mod moderation;
pub mod pattern;
pub mod payments;
pub mod reputation;
pub mod trust;
