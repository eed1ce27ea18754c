//! The decisions of the harness that drives a real host with keystrokes and
//! reads back what it received.

pub mod engine;
pub mod guard;
pub mod host;
pub mod keyboard;
pub mod logs;
pub mod overlay;
pub mod profile;
pub mod scenarios;
pub mod stage;
pub mod text;
pub mod uia;
