//! Authentication and authorization.
//!
//! - [`jwt`]: refresh tokens and their stored form
//! - [`middleware`]: the authenticated user, the admin guard, bearer tokens

pub mod jwt;
pub mod middleware;
