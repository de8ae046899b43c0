//! Bills for appointments and their payment through Paystack.

pub mod handlers;
pub mod models;
pub mod service;
