//! Screens of the project-management module.
pub mod list_editor;
pub mod project_editor;
