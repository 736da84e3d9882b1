pub mod config;
pub mod functions;
pub mod json;
pub mod search;
pub mod text;
