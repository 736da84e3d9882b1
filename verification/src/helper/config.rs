//! The constants of the reader. A font size is a whole number of
//! hundredths of a pixel, so that every size of the heading scale is exact:
//! `1872` stands for 18.72 px.

use vstd::prelude::*;

verus! {

/// The size of body text before the reader's offset is added.
pub const DEFAULT_FONT_SIZE: i64 = 1200;

/// The smallest offset that the reader can be set to.
pub const MIN_FONT_SIZE: i32 = 400;

/// The largest offset that the reader can be set to.
pub const MAX_FONT_SIZE: i32 = 2000;

/// How far one step changes the offset.
pub const FONT_SIZE_STEP: i32 = 200;

/// The width, in columns, to which a page is wrapped before it is styled.
pub const PAGE_WIDTH: usize = 150;

/// The width, in columns, to which a page is wrapped before its words are
/// counted.
pub const WORD_COUNT_WIDTH: usize = 1000;

/// How many words a printed page holds at most.
pub const WORDS_PER_PAGE_MAX: i32 = 450;

/// How many words a printed page holds at least.
pub const WORDS_PER_PAGE_MIN: i32 = 300;

/// The name of the application.
pub const APP_NAME: &'static str = "EBook Reader";

/// The folder of the library.
pub const LIBRARY_PATH: &'static str = "./src/library";

/// The folder of the covers.
pub const COVERS_PATH: &'static str = "./src/library/covers/";

/// The folder of the scanned pages.
pub const OCR_PATH: &'static str = "./src/library/ocr";

/// The folder in which the page that a book was left at is saved.
pub const SAVED_PROGRESS_PATH: &'static str = "./src/library/progress/";

} // verus!
