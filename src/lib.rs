//! A keyboard-driven project tracker: the state machines behind its screens,
//! the ordering ledger of its boards and the layered configuration.
pub mod color;
pub mod command_handler;
pub mod config;
pub mod config_layers;
pub mod datetime;
pub mod focus;
pub mod form;
pub mod help;
pub mod key;
pub mod keybinds;
pub mod project_management;
pub mod ledger;
pub mod screens;
pub mod settings;
pub mod store;
pub mod text_input;
