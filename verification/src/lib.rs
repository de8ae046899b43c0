//! A multi-tenant clinical scheduling core: token-based authentication,
//! tenant and role authorization, appointment time resolution and the
//! matching of patients to available practitioners.
//!
//! Every function here carries a contract that Verus proves. The few calls
//! into other crates stand in `outside`, each behind a small wrapper whose
//! contract is taken on trust.

pub mod admin;
pub mod appointments;
pub mod auth;
pub mod billing;
pub mod config;
pub mod doctor;
pub mod errors;
pub mod outside;
pub mod patient;
pub mod reply;
pub mod text;
pub mod utils;
