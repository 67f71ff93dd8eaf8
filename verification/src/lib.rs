//! Models, decisions and session rules of a client for Alarm.com security panels.

pub mod auth;
pub mod client;
pub mod controllers;
pub mod error;
pub mod models;
pub mod retry;
pub mod text;
