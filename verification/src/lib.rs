//! The logic of an e-book reader: pages of HTML become styled blocks of
//! text, and a book keeps track of the page that is being read.

pub mod controller;
pub mod helper;
pub mod model;
