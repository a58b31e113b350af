pub mod atoms;
pub mod battery;
pub mod config;
pub mod core_types;
pub mod font;
pub mod hooks;
pub mod keys;
pub mod menu;
pub mod notify;
pub mod render;
pub mod slit;
pub mod sni;
pub mod text;
pub mod theme;
pub mod toolbar;
pub mod tray;
pub mod window;
pub mod workspace;
pub mod command;
pub mod screen;
pub mod remote;
pub mod term_keys;
