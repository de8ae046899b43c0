//! Patients.

pub mod handler;
pub mod models;
