//! Keyboard-driven system console: the state of its panels, the parsing of
//! the text that system tools print, and the decisions made for each key.

pub mod app;
pub mod data;
pub mod effect;
pub mod laws;
pub mod modal;
pub mod notify;
pub mod outside;
pub mod panels;
pub mod sort;
pub mod tab;
pub mod text;
pub mod view;
