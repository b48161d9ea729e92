//! Types shared by the subsystems: errors, configuration, health and services.

pub mod config;
pub mod context;
pub mod error;
pub mod health;
pub mod name_map;
pub mod services;
pub mod time;
