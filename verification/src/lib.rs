//! The decision logic of a Jellyfin desktop client: what its compositor,
//! Discord presence, input router, web overlay, popup menu and shell overlay do
//! next, as functions from plain values to plain values.

pub mod compositor;
pub mod discord;
pub mod gpu;
pub mod input;
pub mod json;
pub mod linux;
pub mod macos;
pub mod menu;
pub mod paths;
pub mod platform;
pub mod playback;
pub mod shell;
pub mod text;
pub mod time;
pub mod web;
