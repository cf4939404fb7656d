//! Verified core of the Annihilate terminal front-end.

pub mod text;
pub mod layout;
pub mod json;
pub mod store;
pub mod subprocess;
pub mod parser;
pub mod input;
pub mod menu;
pub mod events;
pub mod app;
pub mod screens;
pub mod keys;
pub mod work;
pub mod actions;
pub mod dispatch;
pub mod progress;
pub mod streams;
pub mod panes;
pub mod laws;
