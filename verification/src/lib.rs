//! Release resolution, installation registry and install planning for a
//! Cataclysm: Dark Days Ahead installer, with machine-checked contracts.

pub mod archive;
pub mod cli;
pub mod download;
pub mod entities;
pub mod github_client;
pub mod installation_manager;
pub mod paths;
pub mod registry;
pub mod session;
pub mod text;
