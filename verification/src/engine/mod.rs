//! The input engine's client: from keystrokes to edits of the composition.

pub mod full_width;
pub mod text_util;
pub mod ipc_service;
pub mod client_action;
pub mod composition;
pub mod input_mode;
pub mod actions;
pub mod batch_laws;
pub mod edit_laws;
pub mod user_action;
pub mod transition;
pub mod key_dispatch;
pub mod key_laws;
pub mod candidate_ui;
pub mod engine_health;
pub mod fake_ipc;
