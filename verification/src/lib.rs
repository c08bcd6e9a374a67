//! The decision and text-building logic of a Discord bot that looks up the
//! issues and pull requests of a GitHub repository.

pub mod commands;
pub mod dispatch;
pub mod embed;
pub mod handle_interaction;
pub mod markdown;
pub mod text;
pub mod utils;
