//! Core rules of a private-chef booking service: roles and permissions,
//! identity tokens, session records, booking pricing and availability,
//! ownership checks and the shaping of form and update input.

pub mod access;
pub mod auth;
pub mod booking;
pub mod config;
pub mod error;
pub mod forms;
pub mod ids;
pub mod models;
pub mod queries;
pub mod roles;
pub mod session;
pub mod text;
pub mod token;
