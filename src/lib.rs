//! Turn orchestration core for a director-led multiplayer tabletop session.
pub mod actors;
pub mod campaign;
pub mod codex;
pub mod commands;
pub mod config;
pub mod driver;
pub mod prompts;
pub mod registry;
pub mod repair;
pub mod scheduler;
pub mod setup;
pub mod text;
pub mod transcript;
pub mod turn;
pub mod types;
pub mod whisper;
