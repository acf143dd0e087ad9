//! Decision logic of a face-recognition login service.

pub mod camera;
pub mod commands;
pub mod config;
pub mod crypto;
pub mod dbus;
pub mod face;
pub mod face_data;
pub mod ir_quality;
pub mod keyring;
pub mod number;
pub mod options;
pub mod pam;
pub mod preview;
pub mod reports;
pub mod security;
pub mod sessions;
pub mod text;
pub mod uninstall;
pub mod wizard;
