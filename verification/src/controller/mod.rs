pub mod annotator;
pub mod layout;
pub mod navigator;
pub mod parser;
pub mod theorems;
