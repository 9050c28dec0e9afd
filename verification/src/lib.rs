//! glogout: the decision logic of a themable Wayland logout menu.

pub mod action;
pub mod config;
pub mod daemon;
pub mod init;
pub mod session;
pub mod text;
pub mod ui;
pub mod watch;
pub mod window;
