//! The verified core of the TunnlTo desktop application.
pub mod config;
pub mod config_laws;
pub mod enable;
pub mod json;
pub mod process;
pub mod state;
pub mod text;
pub mod tray;
pub mod tunnel;
pub mod wiresock;
