//! Configuration, widgets and the confirm-then-run power actions of a desktop status panel.
pub mod battery;
pub mod clock;
pub mod cmd;
pub mod color;
pub mod config;
pub mod panel;
pub mod power;
pub mod tick;
