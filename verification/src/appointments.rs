//! Appointments: their records, their status and their booking.

pub mod handlers;
pub mod models;
pub mod service;
