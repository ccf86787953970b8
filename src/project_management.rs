//! The project-management module: the board of an open project and the
//! project editor.
pub mod board_data;
pub mod open_project;
pub mod project_editor;
pub mod projects;
