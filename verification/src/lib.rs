//! PaperWall, a live wallpaper app: the rules behind its picker, its settings, its wallpaper
//! and the pages they are shown on.

pub mod app;
pub mod desktop;
pub mod error;
pub mod html;
pub mod json;
pub mod macos;
pub mod paperwall_windows;
pub mod paths;
pub mod picker;
pub mod response;
pub mod scaling;
pub mod settings;
pub mod streaming;
pub mod text;
pub mod urls;
pub mod videos;
pub mod windows;
