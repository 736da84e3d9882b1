pub mod annotation;
pub mod app_state;
pub mod book;
pub mod document;
pub mod edit_state;
pub mod library;
pub mod styled_block;
pub mod ui_view;
