//! Practitioners and the days on which they accept bookings.

pub mod handlers;
pub mod models;
pub mod service;
