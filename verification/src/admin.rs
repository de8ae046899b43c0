//! Hospitals, the tenants of the service, and their users.

pub mod handlers;
pub mod models;
pub mod service;
