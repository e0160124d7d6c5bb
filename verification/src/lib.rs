//! The terminal UI runtime of a browser for geographic data files: a
//! stack-based immediate-mode layout engine, the text field it hosts, the
//! subsequence matcher and the filtered, scrolling list built on it, and the
//! mode dispatch that ties them together.

pub mod app;
pub mod app_model;
pub mod command;
pub mod coordinate;
pub mod event;
pub mod fuzzy;
pub mod input;
pub mod layout;
pub mod list_view;
pub mod panel;
pub mod text;
pub mod text_field;
pub mod widget_tree;
