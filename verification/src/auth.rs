//! Login, signed tokens and the guard that scopes an action to a tenant and
//! a role.

pub mod guard;
pub mod handlers;
pub mod headers;
pub mod models;
pub mod service;
