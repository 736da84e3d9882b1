//! The state of the reader: the views that are open, the library, the book
//! that is selected and the size of the text.

use vstd::prelude::*;
use crate::helper::config::{DEFAULT_FONT_SIZE, FONT_SIZE_STEP, MAX_FONT_SIZE, MIN_FONT_SIZE};
use crate::helper::text::{trim, trimmed};
use crate::model::book::{progress_path, Book, BookView};
use crate::helper::json::decimal_digits;
use crate::model::ui_view::UiView;

verus! {

/// The state of the reader.
#[derive(Debug)]
pub struct AppState {
    nav_state: Vec<UiView>,
    library: Vec<Book>,
    selected: Option<usize>,
    font_size: i32,
}

/// What an [`AppState`] is in contracts.
pub struct AppStateView {
    /// The views that are open, the one that is shown last.
    pub nav_state: Seq<UiView>,
    /// The books.
    pub library: Seq<BookView>,
    /// The place of the selected book in the library.
    pub selected: Option<usize>,
    /// The offset of the text size, in hundredths of a pixel.
    pub font_size: i32,
}

impl AppStateView {
    /// The place of the selected book, where a book is selected and the
    /// library has it.
    pub open spec fn selected_book(self) -> Option<int> {
        match self.selected {
            Some(i) => if i < self.library.len() {
                Some(i as int)
            } else {
                None
            },
            None => None,
        }
    }

    /// The place of the book that is turned where no selection is asked
    /// for: the selected book, or the second book of the library where none
    /// is selected; `None` where the library has no such book.
    pub open spec fn turned_book(self) -> Option<int> {
        let i = match self.selected {
            Some(i) => i as int,
            None => 1,
        };
        if i < self.library.len() {
            Some(i)
        } else {
            None
        }
    }

    /// The state with the book at `place` replaced by `book`, where there
    /// is such a place.
    pub open spec fn with_book(self, place: Option<int>, book: BookView) -> AppStateView {
        match place {
            Some(i) => AppStateView { library: self.library.update(i, book), ..self },
            None => self,
        }
    }

    /// The size after one step up: 200 more, and no more than the largest
    /// size.
    pub open spec fn larger_font(self) -> i32 {
        if self.font_size + FONT_SIZE_STEP >= MAX_FONT_SIZE {
            MAX_FONT_SIZE
        } else {
            (self.font_size + FONT_SIZE_STEP) as i32
        }
    }

    /// The size after one step down: 200 less, and no less than the
    /// smallest size.
    pub open spec fn smaller_font(self) -> i32 {
        if self.font_size - FONT_SIZE_STEP <= MIN_FONT_SIZE {
            MIN_FONT_SIZE
        } else {
            (self.font_size - FONT_SIZE_STEP) as i32
        }
    }
}

impl AppStateView {
    /// A step never leaves the limits: one step up ends at the smaller of
    /// the stepped size and the largest size, one step down at the larger of
    /// the stepped size and the smallest size.
    pub proof fn font_steps_are_clamped(self)
        ensures
            self.larger_font() <= MAX_FONT_SIZE,
            self.larger_font() <= self.font_size + FONT_SIZE_STEP,
            self.larger_font() == MAX_FONT_SIZE || self.larger_font() == self.font_size
                + FONT_SIZE_STEP,
            self.smaller_font() >= MIN_FONT_SIZE,
            self.smaller_font() >= self.font_size - FONT_SIZE_STEP,
            self.smaller_font() == MIN_FONT_SIZE || self.smaller_font() == self.font_size
                - FONT_SIZE_STEP,
    {
    }
}

impl View for AppState {
    type V = AppStateView;

    closed spec fn view(&self) -> AppStateView {
        AppStateView {
            nav_state: self.nav_state@,
            library: self.library.deep_view(),
            selected: self.selected,
            font_size: self.font_size,
        }
    }
}

impl Clone for AppState {
    fn clone(&self) -> (copy: AppState)
        ensures
            copy@ == self@,
    {
        let mut library: Vec<Book> = Vec::new();
        let mut i: usize = 0;
        while i < self.library.len()
            invariant
                i <= self.library.len(),
                library.deep_view() =~= self.library.deep_view().take(i as int),
            decreases self.library.len() - i,
        {
            let ghost before = library.deep_view();
            let book = self.library[i].clone();
            library.push(book);
            assert(library.deep_view() =~= before.push(self.library[i as int].deep_view()));
            i += 1;
        }
        assert(library.deep_view() =~= self.library.deep_view());
        let nav_state = self.nav_state.clone();
        assert(nav_state@ =~= self.nav_state@);
        AppState { nav_state, library, selected: self.selected, font_size: self.font_size }
    }
}

impl AppState {
    /// The state in which the reader starts: the library is shown, no book
    /// is selected, and the text has its default size.
    pub fn new(library: Vec<Book>) -> (state: AppState)
        ensures
            state@ == (AppStateView {
                nav_state: seq![UiView::Library],
                library: library.deep_view(),
                selected: None,
                font_size: DEFAULT_FONT_SIZE as i32,
            }),
    {
        let mut nav_state: Vec<UiView> = Vec::new();
        nav_state.push(UiView::Library);
        assert(nav_state@ =~= seq![UiView::Library]);
        AppState { library, nav_state, selected: None, font_size: DEFAULT_FONT_SIZE as i32 }
    }

    /// Opens a view on top of the others.
    pub fn add_view(&mut self, view: UiView)
        ensures
            final(self)@ == (AppStateView {
                nav_state: old(self)@.nav_state.push(view),
                ..old(self)@
            }),
    {
        self.nav_state.push(view);
    }

    /// Closes the view that is shown, if a view is open.
    pub fn pop_view(&mut self)
        ensures
            final(self)@ == (AppStateView {
                nav_state: if old(self)@.nav_state.len() > 0 {
                    old(self)@.nav_state.drop_last()
                } else {
                    old(self)@.nav_state
                },
                ..old(self)@
            }),
    {
        self.nav_state.pop();
    }

    /// The view that is shown, if a view is open.
    pub fn current_view(&self) -> (view: Option<UiView>)
        ensures
            view == if self@.nav_state.len() > 0 {
                Some(self@.nav_state.last())
            } else {
                None
            },
    {
        if self.nav_state.len() > 0 {
            Some(self.nav_state[self.nav_state.len() - 1])
        } else {
            None
        }
    }

    /// How many views are open.
    pub fn len(&self) -> (count: usize)
        ensures
            count == self@.nav_state.len(),
    {
        self.nav_state.len()
    }

    /// Whether no view is open.
    pub fn is_empty(&self) -> (empty: bool)
        ensures
            empty == (self@.nav_state.len() == 0),
    {
        self.nav_state.len() == 0
    }

    /// The views that are open, the one that is shown last.
    pub fn get_nav_state(&self) -> (views: &Vec<UiView>)
        ensures
            views@ == self@.nav_state,
    {
        &self.nav_state
    }

    /// Puts a book at the end of the library.
    pub fn add_book(&mut self, book: Book)
        ensures
            final(self)@ == (AppStateView {
                library: old(self)@.library.push(book@),
                ..old(self)@
            }),
    {
        let ghost before = self.library.deep_view();
        self.library.push(book);
        assert(self.library.deep_view() =~= before.push(book@));
    }

    /// Puts `book` in the place `index` of the library. Nothing changes
    /// where the library has no such place.
    pub fn replace_book(&mut self, index: usize, book: Book)
        ensures
            final(self)@ == if index < old(self)@.library.len() {
                old(self)@.with_book(Some(index as int), book@)
            } else {
                old(self)@
            },
    {
        if index < self.library.len() {
            let ghost before = self.library.deep_view();
            self.library.set(index, book);
            assert(self.library.deep_view() =~= before.update(index as int, book@));
        }
    }

    /// A copy of the book in the place `index` of the library.
    pub fn book_at(&self, index: usize) -> (book: Option<Book>)
        ensures
            match book {
                Some(book) => index < self@.library.len() && book@ == self@.library[index as int],
                None => index >= self@.library.len(),
            },
    {
        if index < self.library.len() {
            Some(self.library[index].clone())
        } else {
            None
        }
    }

    /// The library.
    pub fn get_library(&self) -> (library: &Vec<Book>)
        ensures
            library.deep_view() == self@.library,
    {
        &self.library
    }

    /// The place of the selected book.
    pub fn get_selected(&self) -> (selected: Option<usize>)
        ensures
            selected == self@.selected,
    {
        self.selected
    }

    /// Selects a book, or none.
    pub fn set_selected(&mut self, selected: Option<usize>)
        ensures
            final(self)@ == (AppStateView { selected: selected, ..old(self)@ }),
    {
        self.selected = selected;
    }

    /// The offset of the text size, in hundredths of a pixel.
    pub fn get_font_size(&self) -> (size: i32)
        ensures
            size == self@.font_size,
    {
        self.font_size
    }

    /// Makes the text one step larger: the offset grows by the step and is
    /// held at the largest size.
    pub fn increase_font_size(&mut self)
        ensures
            final(self)@ == (AppStateView { font_size: old(self)@.larger_font(), ..old(self)@ }),
    {
        let stepped = self.font_size as i64 + FONT_SIZE_STEP as i64;
        if stepped >= MAX_FONT_SIZE as i64 {
            self.font_size = MAX_FONT_SIZE;
        } else {
            self.font_size = stepped as i32;
        }
    }

    /// Makes the text one step smaller: the offset shrinks by the step and
    /// is held at the smallest size.
    pub fn decrease_font_size(&mut self)
        ensures
            final(self)@ == (AppStateView { font_size: old(self)@.smaller_font(), ..old(self)@ }),
    {
        let stepped = self.font_size as i64 - FONT_SIZE_STEP as i64;
        if stepped <= MIN_FONT_SIZE as i64 {
            self.font_size = MIN_FONT_SIZE;
        } else {
            self.font_size = stepped as i32;
        }
    }

    /// The place of the selected book, where the library has it.
    fn selected_place(&self) -> (place: Option<usize>)
        ensures
            match place {
                Some(i) => self@.selected_book() == Some(i as int),
                None => self@.selected_book() is None,
            },
    {
        match self.selected {
            Some(i) => if i < self.library.len() {
                Some(i)
            } else {
                None
            },
            None => None,
        }
    }

    /// The place of the book that is turned where no selection is asked
    /// for.
    fn turned_place(&self) -> (place: Option<usize>)
        ensures
            match place {
                Some(i) => self@.turned_book() == Some(i as int),
                None => self@.turned_book() is None,
            },
    {
        let i = match self.selected {
            Some(i) => i,
            None => 1,
        };
        if i < self.library.len() {
            Some(i)
        } else {
            None
        }
    }

    /// Follows a link in the selected book. Nothing changes where no book
    /// is selected.
    pub fn navigate_to_page(&mut self, link: &str)
        ensures
            final(self)@ == match old(self)@.selected_book() {
                Some(i) => old(self)@.with_book(Some(i), old(self)@.library[i].followed(link@)),
                None => old(self)@,
            },
    {
        match self.selected_place() {
            Some(i) => {
                let ghost before = self.library.deep_view();
                self.library[i].navigate_to(link);
                assert(self.library.deep_view() =~= before.update(
                    i as int,
                    self.library[i as int].deep_view(),
                ));
            },
            None => {},
        }
    }

    /// Whether a page follows in the selected book.
    pub fn has_next_page(&self) -> (more: bool)
        ensures
            more == match self@.selected_book() {
                Some(i) => self@.library[i].has_next_page(),
                None => false,
            },
    {
        match self.selected_place() {
            Some(i) => self.library[i].has_next_page(),
            None => false,
        }
    }

    /// Whether a page comes before in the selected book.
    pub fn has_prev_page(&self) -> (more: bool)
        ensures
            more == match self@.selected_book() {
                Some(i) => self@.library[i].has_prev_page(),
                None => false,
            },
    {
        match self.selected_place() {
            Some(i) => self.library[i].has_prev_page(),
            None => false,
        }
    }

    /// Turns the selected book to its next page.
    pub fn navigate_to_next_page(&mut self)
        ensures
            final(self)@ == match old(self)@.selected_book() {
                Some(i) => old(self)@.with_book(Some(i), old(self)@.library[i].turned_forward()),
                None => old(self)@,
            },
    {
        match self.selected_place() {
            Some(i) => {
                let ghost before = self.library.deep_view();
                self.library[i].next_page();
                assert(self.library.deep_view() =~= before.update(
                    i as int,
                    self.library[i as int].deep_view(),
                ));
            },
            None => {},
        }
    }

    /// Turns the selected book to the page before.
    pub fn navigate_to_prev_page(&mut self)
        ensures
            final(self)@ == match old(self)@.selected_book() {
                Some(i) => old(self)@.with_book(Some(i), old(self)@.library[i].turned_back()),
                None => old(self)@,
            },
    {
        match self.selected_place() {
            Some(i) => {
                let ghost before = self.library.deep_view();
                self.library[i].prev_page();
                assert(self.library.deep_view() =~= before.update(
                    i as int,
                    self.library[i as int].deep_view(),
                ));
            },
            None => {},
        }
    }

    /// Turns a book to the page `page`: the selected book, or the second
    /// book of the library where none is selected.
    pub fn navigate_to_page_index(&mut self, page: usize)
        ensures
            final(self)@ == match old(self)@.turned_book() {
                Some(i) => old(self)@.with_book(Some(i), old(self)@.library[i].turned_to(page)),
                None => old(self)@,
            },
    {
        match self.turned_place() {
            Some(i) => {
                let ghost before = self.library.deep_view();
                self.library[i].set_page(page);
                assert(self.library.deep_view() =~= before.update(
                    i as int,
                    self.library[i as int].deep_view(),
                ));
            },
            None => {},
        }
    }

    /// Turns a book to page 1.
    pub fn navigate_to_first_page(&mut self)
        ensures
            final(self)@ == match old(self)@.turned_book() {
                Some(i) => old(self)@.with_book(Some(i), old(self)@.library[i].turned_to(1)),
                None => old(self)@,
            },
    {
        self.navigate_to_page_index(1);
    }

    /// Turns a book to its last page.
    pub fn navigate_to_last_page(&mut self)
        ensures
            final(self)@ == match old(self)@.turned_book() {
                Some(i) => old(self)@.with_book(
                    Some(i),
                    old(self)@.library[i].turned_to(old(self)@.library[i].book_length() as usize),
                ),
                None => old(self)@,
            },
    {
        match self.turned_place() {
            Some(i) => {
                let ghost before = self.library.deep_view();
                let last = self.library[i].get_book_length();
                self.library[i].set_page(last);
                assert(self.library.deep_view() =~= before.update(
                    i as int,
                    self.library[i as int].deep_view(),
                ));
            },
            None => {},
        }
    }

    /// Takes the page that is being read in the selected book as the text
    /// to edit.
    pub fn set_editing_page(&mut self)
        ensures
            final(self)@ == match old(self)@.selected_book() {
                Some(i) => old(self)@.with_book(Some(i), old(self)@.library[i].editing()),
                None => old(self)@,
            },
    {
        match self.selected_place() {
            Some(i) => {
                let ghost before = self.library.deep_view();
                self.library[i].set_editing_page();
                assert(self.library.deep_view() =~= before.update(
                    i as int,
                    self.library[i as int].deep_view(),
                ));
            },
            None => {},
        }
    }

    /// Where the page that is being read in the selected book is to be
    /// saved, and what is to be saved there. `None` where no book is
    /// selected.
    pub fn save_book_progress(&self) -> (file: Option<(String, String)>)
        ensures
            match file {
                Some(file) => self@.selected_book() is Some && file.0@ == progress_path(
                    self@.library[self@.selected_book().unwrap()].title,
                ) && file.1@ == decimal_digits(
                    self@.library[self@.selected_book().unwrap()].current_page_index as nat,
                ),
                None => self@.selected_book() is None,
            },
    {
        match self.selected_place() {
            Some(i) => Some(self.library[i].save_progress()),
            None => None,
        }
    }

    /// Notes that the progress of the selected book is saved.
    pub fn book_progress_saved(&mut self)
        ensures
            final(self)@ == match old(self)@.selected_book() {
                Some(i) => old(self)@.with_book(
                    Some(i),
                    BookView { has_progress: true, ..old(self)@.library[i] },
                ),
                None => old(self)@,
            },
    {
        match self.selected_place() {
            Some(i) => {
                let ghost before = self.library.deep_view();
                self.library[i].set_has_progress();
                assert(self.library.deep_view() =~= before.update(
                    i as int,
                    self.library[i as int].deep_view(),
                ));
            },
            None => {},
        }
    }

    /// Turns a book to the first page that holds the text that was read
    /// from a photo, without the white space around it. Nothing changes
    /// where no page holds it. Returns the page.
    pub fn ocr_from_file(&mut self, ocr_text: &str) -> (page: Option<usize>)
        ensures
            match old(self)@.turned_book() {
                Some(i) => match old(self)@.library[i].page_with(trimmed(ocr_text@)) {
                    Some(found) => page == Some(found as usize) && final(self)@ == old(
                        self,
                    )@.with_book(Some(i), old(self)@.library[i].turned_to(found as usize)),
                    None => page is None && final(self)@ == old(self)@,
                },
                None => page is None && final(self)@ == old(self)@,
            },
    {
        match self.turned_place() {
            Some(i) => {
                let wanted = trim(ocr_text);
                let page = self.library[i].get_page_from_ocr_text(wanted.as_str());
                match page {
                    Some(found) => {
                        self.navigate_to_page_index(found);
                    },
                    None => {},
                }
                page
            },
            None => None,
        }
    }

    /// Estimates the printed pages of the page that is being read.
    pub fn reverse_ocr(&mut self)
        ensures
            final(self)@ == match old(self)@.turned_book() {
                Some(i) => old(self)@.with_book(Some(i), old(self)@.library[i].estimated()),
                None => old(self)@,
            },
    {
        match self.turned_place() {
            Some(i) => {
                let ghost before = self.library.deep_view();
                self.library[i].reverse_ocr();
                assert(self.library.deep_view() =~= before.update(
                    i as int,
                    self.library[i as int].deep_view(),
                ));
            },
            None => {},
        }
    }
}

} // verus!
