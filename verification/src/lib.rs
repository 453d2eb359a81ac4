//! Verified core of a WSL dashboard: text handling, API response handling,
//! network rule management, `.wslconfig` access and command-line decisions.

pub mod text;
pub mod number;
pub mod network;
pub mod constants;
pub mod api;
pub mod time_service;
pub mod cli;
pub mod scheduler;
pub mod settings;
pub mod sparse;
pub mod startup;
pub mod about;
pub mod wsl_config;
pub mod tasks;
pub mod compress;
