//! Verified core of the MSST-Net client installer: platform naming, release
//! asset selection, service definitions and the Docker deployment rules.

pub mod deploy;
pub mod detect;
pub mod docker;
pub mod github;
pub mod install;
pub mod menu;
pub mod plan;
pub mod service;
pub mod text;
pub mod wintun;
