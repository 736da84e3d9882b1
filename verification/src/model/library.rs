//! The books of the library, on their own.

use vstd::prelude::*;
use crate::model::book::{Book, BookView};

verus! {

/// The books of the library.
#[derive(Debug)]
pub struct Library {
    books: Vec<Book>,
}

impl View for Library {
    type V = Seq<BookView>;

    closed spec fn view(&self) -> Seq<BookView> {
        self.books.deep_view()
    }
}

impl Library {
    /// A library of the given books.
    pub fn new(books: Vec<Book>) -> (library: Library)
        ensures
            library@ == books.deep_view(),
    {
        Library { books }
    }

    /// Puts a book at the end of the library. Nothing changes where there
    /// is no book to add.
    pub fn add_book(&mut self, book: Option<Book>)
        ensures
            final(self)@ == match book {
                Some(book) => old(self)@.push(book@),
                None => old(self)@,
            },
    {
        match book {
            Some(book) => {
                let ghost before = self.books.deep_view();
                self.books.push(book);
                assert(self.books.deep_view() =~= before.push(book@));
            },
            None => {},
        }
    }

    /// The books.
    pub fn get_books(&self) -> (books: &Vec<Book>)
        ensures
            books.deep_view() == self@,
    {
        &self.books
    }
}

} // verus!
