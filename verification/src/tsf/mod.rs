//! The text service's side of the host's interfaces.

pub mod text_service;
pub mod preserved_key;
pub mod ui_element;
pub mod compartment;
pub mod edit_session;
pub mod surrounded_text;
pub mod display_attribute;
pub mod langbar_menu;
pub mod language_bar;
pub mod settings_app;
pub mod text_input_processor;
pub mod factory;
pub mod text_layout_sink;
pub mod thread_mgr_event_sink;
pub mod fakes;
