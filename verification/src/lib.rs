//! Business rules of a music-promotion collaboration platform: agent tool
//! selection, analytics arithmetic, CSV exports and request validation.
pub mod text;
pub mod agent;
pub mod agent_laws;
pub mod admin_agent;
pub mod error;
pub mod json;
pub mod models;
pub mod analytics;
pub mod admin;
pub mod api;
pub mod demands;
pub mod reports;
pub mod banners;
pub mod model_turn;
