//! The web overlay: the browser's documents, frames, sizes and settings.

pub mod navigation;
pub mod frame_rate;
pub mod size;
pub mod user_scripts;
pub mod app_menu;
pub mod client;
pub mod paint;
pub mod settings;
pub mod init;
pub mod overlay;
