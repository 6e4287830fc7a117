//! Core logic of a desktop database management tool: component state,
//! connection forms and their validation, view bookkeeping, container
//! discovery and settings validation, all verified with Verus.

pub mod adapter_selector;
pub mod app_state;
pub mod components;
pub mod connection_form;
pub mod connection_list;
pub mod connection_manager;
pub mod container;
pub mod database;
pub mod left_panel;
pub mod main_panel;
pub mod menu_bar;
pub mod oracle_connection_form;
pub mod seq_util;
pub mod settings;
pub mod settings_editor;
pub mod sqlite_connection_form;
pub mod text;
pub mod validation;
pub mod views;
