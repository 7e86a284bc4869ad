//! A headless SSH agent backed by a Bitwarden vault: the decisions it makes.

pub mod agent;
pub mod bitwarden;
pub mod config;
pub mod control;
pub mod import;
pub mod json;
pub mod openssh;
pub mod paths;
pub mod process;
pub mod secret;
pub mod serve;
pub mod setup;
pub mod text;
pub mod ui;
pub mod unlock;
pub mod wizard;
