//! Verified core of the GridTokenX API gateway: request rate limiting,
//! health reporting, request validation rules and the data models shared by
//! the HTTP handlers.

pub mod analytics;
pub mod audit;
pub mod auth;
pub mod blockchain;
pub mod clock;
pub mod database;
pub mod error;
pub mod faucet;
pub mod health;
pub mod meter;
pub mod metrics;
pub mod models;
pub mod price_alerts;
pub mod rate_limiter;
pub mod registration;
pub mod status;
pub mod submission;
pub mod text;
pub mod websocket;
