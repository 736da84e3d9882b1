//! The state of the editor: a copy of the book that is being edited, which
//! goes back into the library when it is saved.

use vstd::prelude::*;
use crate::helper::text::{replace_all, replaced};
use crate::model::app_state::{AppState, AppStateView};
use crate::model::book::{Book, BookView};

verus! {

/// The file that holds a copy of the book while it is edited.
pub const EDIT_ZIP_PATH: &'static str = "src/library/copy.zip";

/// The file that holds the edited book before it gets its name.
pub const EDIT_NEW_ZIP_PATH: &'static str = "src/library/new.zip";

/// The folder that the book is unpacked to.
pub const EDIT_DIR_PATH: &'static str = "src/library/new";

/// The metadata of a book, inside the book.
pub const METADATA_PATH: &'static str = "OEBPS/package.opf";

/// The state of the editor.
#[derive(Debug)]
pub struct EditState {
    /// The book that is being edited.
    pub book: Book,
    /// Its place in the library.
    pub index: usize,
    /// Whether the edit was saved and is to go back into the library.
    pub was_saved: bool,
}

/// What an [`EditState`] is in contracts.
pub struct EditStateView {
    pub book: BookView,
    pub index: usize,
    pub was_saved: bool,
}

impl View for EditState {
    type V = EditStateView;

    open spec fn view(&self) -> EditStateView {
        EditStateView { book: self.book@, index: self.index, was_saved: self.was_saved }
    }
}

impl Clone for EditState {
    fn clone(&self) -> (copy: EditState)
        ensures
            copy@ == self@,
    {
        EditState { book: self.book.clone(), index: self.index, was_saved: self.was_saved }
    }
}

/// The book at the place `index` of the library, or the empty book where
/// the library has no such place.
pub open spec fn book_or_empty(data: AppStateView, index: int) -> BookView {
    if 0 <= index < data.library.len() {
        data.library[index]
    } else {
        BookView {
            title: Seq::empty(),
            author: Seq::empty(),
            cover: None,
            doc: None,
            current_page_index: 0,
            current_page_str: Seq::empty(),
            file_path: Seq::empty(),
            has_progress: false,
            word_count_chapters: Seq::empty(),
            physical_page_range: None,
        }
    }
}

/// A copy of the book at the place `index` of the library, or the empty
/// book.
fn copy_or_empty(data: &AppState, index: usize) -> (book: Book)
    ensures
        book@ == book_or_empty(data@, index as int),
{
    match data.book_at(index) {
        Some(book) => book,
        None => Book::new_empty(),
    }
}

impl EditState {
    /// The state in which the editor starts: it holds a copy of the
    /// selected book, and the empty book at place 0 where no book is
    /// selected.
    pub fn new(data: &AppState) -> (state: EditState)
        ensures
            state@ == match data@.selected {
                Some(idx) => EditStateView {
                    book: book_or_empty(data@, idx as int),
                    index: idx,
                    was_saved: false,
                },
                None => EditStateView { book: book_or_empty(data@, -1), index: 0, was_saved: false },
            },
    {
        let (book, index) = match data.get_selected() {
            Some(idx) => (copy_or_empty(data, idx), idx),
            None => (Book::new_empty(), 0),
        };
        EditState { book, index, was_saved: false }
    }
}

/// What is to be done to the book's file once an edit is saved. The book
/// is copied to `zip_path` and unpacked to `dir_path`; there the page at
/// `page_path` gets the text `page_html` and the metadata at
/// `metadata_path` its new title; the folder is packed to `new_zip_path`
/// and that file becomes the book `new_epub_path`.
#[derive(Debug)]
pub struct EditPlan {
    pub epub_path: String,
    pub zip_path: String,
    pub dir_path: String,
    pub page_path: String,
    pub page_html: String,
    pub metadata_path: String,
    pub new_zip_path: String,
    pub new_epub_path: String,
}

/// What an [`EditPlan`] is in contracts.
pub struct EditPlanView {
    pub epub_path: Seq<char>,
    pub zip_path: Seq<char>,
    pub dir_path: Seq<char>,
    pub page_path: Seq<char>,
    pub page_html: Seq<char>,
    pub metadata_path: Seq<char>,
    pub new_zip_path: Seq<char>,
    pub new_epub_path: Seq<char>,
}

impl View for EditPlan {
    type V = EditPlanView;

    open spec fn view(&self) -> EditPlanView {
        EditPlanView {
            epub_path: self.epub_path@,
            zip_path: self.zip_path@,
            dir_path: self.dir_path@,
            page_path: self.page_path@,
            page_html: self.page_html@,
            metadata_path: self.metadata_path@,
            new_zip_path: self.new_zip_path@,
            new_epub_path: self.new_epub_path@,
        }
    }
}

/// The plan for the edited `book`: `None` where the page that is being
/// read has no path in the document.
pub open spec fn edit_plan(book: BookView) -> Option<EditPlanView> {
    match book.current_doc_path() {
        Some(path) => Some(
            EditPlanView {
                epub_path: book.file_path,
                zip_path: EDIT_ZIP_PATH@,
                dir_path: EDIT_DIR_PATH@,
                page_path: EDIT_DIR_PATH@ + "/"@ + path,
                page_html: book.current_page_str,
                metadata_path: EDIT_DIR_PATH@ + "/"@ + METADATA_PATH@,
                new_zip_path: EDIT_NEW_ZIP_PATH@,
                new_epub_path: replaced(book.file_path, ".epub"@, "-edit.epub"@),
            },
        ),
        None => None,
    }
}

/// The metadata of an edited book: every title gets ` (edit)` at its end.
pub open spec fn metadata_of_edit(metadata: Seq<char>) -> Seq<char> {
    replaced(metadata, "</dc:title>"@, " (edit)</dc:title>"@)
}

/// The metadata of an edited book.
pub fn edited_metadata(metadata: &str) -> (edited: String)
    ensures
        edited@ == metadata_of_edit(metadata@),
{
    replace_all(metadata, "</dc:title>", " (edit)</dc:title>")
}

/// `dir`, a `/` and `name`.
fn join_path(dir: &str, name: &str) -> (path: String)
    ensures
        path@ == dir@ + "/"@ + name@,
{
    let mut path = dir.to_owned();
    path.append("/");
    path.append(name);
    path
}

/// Makes the plan for the edited `book`.
pub fn plan_edit(book: &Book) -> (plan: Option<EditPlan>)
    ensures
        match plan {
            Some(plan) => edit_plan(book@) == Some(plan@),
            None => edit_plan(book@) is None,
        },
{
    match book.get_current_doc_path() {
        Some(path) => {
            let epub_path = book.get_file_path();
            let new_epub_path = replace_all(epub_path.as_str(), ".epub", "-edit.epub");
            Some(
                EditPlan {
                    epub_path,
                    zip_path: EDIT_ZIP_PATH.to_owned(),
                    dir_path: EDIT_DIR_PATH.to_owned(),
                    page_path: join_path(EDIT_DIR_PATH, path.as_str()),
                    page_html: book.get_current_page_str(),
                    metadata_path: join_path(EDIT_DIR_PATH, METADATA_PATH),
                    new_zip_path: EDIT_NEW_ZIP_PATH.to_owned(),
                    new_epub_path,
                },
            )
        },
        None => None,
    }
}

/// Carries the book between the library and the editor.
#[derive(Clone, Copy, Debug)]
pub struct EditTransfer;

impl EditTransfer {
    /// After a save, the editor takes the selected book from the library
    /// again: the book at the selected place, or at place 0 where none is
    /// selected, and the empty book where the library has no such place.
    /// Without a save nothing changes.
    pub fn read_input(&self, state: &mut EditState, inner: &AppState)
        ensures
            final(state)@ == if old(state)@.was_saved {
                let idx = match inner@.selected {
                    Some(idx) => idx,
                    None => 0,
                };
                EditStateView { book: book_or_empty(inner@, idx as int), index: idx, was_saved: false }
            } else {
                old(state)@
            },
    {
        if state.was_saved {
            let idx = match inner.get_selected() {
                Some(idx) => idx,
                None => 0,
            };
            state.book = copy_or_empty(inner, idx);
            state.index = idx;
            state.was_saved = false;
        }
    }

    /// After a save, the edited book takes its place in the library, where
    /// the library has that place, and the plan for the book's file is
    /// handed back. Without a save nothing changes and there is no plan.
    pub fn write_back_input(&self, state: &EditState, inner: &mut AppState) -> (plan: Option<
        EditPlan,
    >)
        ensures
            final(inner)@ == if state@.was_saved && state@.index < old(inner)@.library.len() {
                old(inner)@.with_book(Some(state@.index as int), state@.book)
            } else {
                old(inner)@
            },
            match plan {
                Some(plan) => state@.was_saved && edit_plan(state@.book) == Some(plan@),
                None => !state@.was_saved || edit_plan(state@.book) is None,
            },
    {
        if state.was_saved {
            inner.replace_book(state.index, state.book.clone());
            plan_edit(&state.book)
        } else {
            None
        }
    }
}

} // verus!
