//! Verified core of the Windows To Go Assistant back end.

pub mod benchmark;
pub mod boot;
pub mod admin;
pub mod bytes;
pub mod command;
pub mod diagnostics;
pub mod diskpart;
pub mod disks;
pub mod error;
pub mod hardware;
pub mod image;
pub mod macos;
pub mod macos_write;
pub mod models;
pub mod nvme;
pub mod plugins;
pub mod repair;
pub mod smart;
pub mod smartctl_paths;
pub mod system;
pub mod tasks;
pub mod text;
pub mod util;
pub mod vhd;
pub mod write_plan;
