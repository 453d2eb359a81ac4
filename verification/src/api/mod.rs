//! The wslui web API: response data, requests and their outcomes.

pub mod models;
pub mod client;
pub mod common;
