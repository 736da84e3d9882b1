//! A book of the library: what it is called, where it stands, and the page
//! that is being read.

use vstd::prelude::*;
use crate::helper::config::{SAVED_PROGRESS_PATH, WORDS_PER_PAGE_MAX, WORDS_PER_PAGE_MIN};
use crate::helper::json::{
    decimal_digits, digit_bytes, json_number, json_of_number, number_from_json,
    written_number_reads_back,
};
use crate::helper::text::{replace_all, replaced};
use crate::model::document::{Document, DocumentView};

verus! {

/// What was found where a book's progress is saved.
#[derive(Debug)]
pub enum SavedProgress {
    /// Nothing was saved.
    Missing,
    /// Something was saved and could not be read.
    Unreadable,
    /// The bytes that were saved.
    Saved(Vec<u8>),
}

impl View for SavedProgress {
    type V = Option<Option<Seq<u8>>>;

    /// `None` where nothing was saved; else what was read, if anything.
    open spec fn view(&self) -> Option<Option<Seq<u8>>> {
        match *self {
            SavedProgress::Missing => None,
            SavedProgress::Unreadable => Some(None),
            SavedProgress::Saved(json) => Some(Some(json@)),
        }
    }
}

/// Why a book could not be made.
#[derive(Clone, Copy, Debug, PartialEq, Eq, Structural)]
pub enum BookError {
    /// What was saved as the book's progress is no page number.
    MalformedProgress,
}

/// A book.
#[derive(Debug)]
pub struct Book {
    title: String,
    author: String,
    cover: Option<Vec<u8>>,
    doc: Option<Document>,
    current_page_index: usize,
    current_page_str: String,
    file_path: String,
    has_progress: bool,
    word_count_chapters: Vec<Option<i32>>,
    physical_page_range: Option<(i32, i32)>,
}

/// What a [`Book`] is in contracts.
pub struct BookView {
    /// The title.
    pub title: Seq<char>,
    /// The author.
    pub author: Seq<char>,
    /// The bytes of the cover image, if the book has one.
    pub cover: Option<Seq<u8>>,
    /// The document, if the book has one.
    pub doc: Option<DocumentView>,
    /// The page that is being read.
    pub current_page_index: usize,
    /// The text of the page that is being edited.
    pub current_page_str: Seq<char>,
    /// Where the book's file stands.
    pub file_path: Seq<char>,
    /// Whether the page that the book was left at is saved.
    pub has_progress: bool,
    /// How many words each page holds, as far as that is known.
    pub word_count_chapters: Seq<Option<i32>>,
    /// The printed pages that the page being read is estimated to be on.
    pub physical_page_range: Option<(i32, i32)>,
}

/// The page at which a book opens: page 1 where nothing was saved or
/// what was saved could not be read, else the number that was saved.
/// `None` where what was saved is no page number.
pub open spec fn start_page(progress: Option<Option<Seq<u8>>>) -> Option<usize> {
    match progress {
        None => Some(1),
        Some(None) => Some(1),
        Some(Some(json)) => match json_number(json) {
            Some(n) => if n <= usize::MAX {
                Some(n as usize)
            } else {
                None
            },
            None => None,
        },
    }
}

/// A book whose progress was saved opens at the page that was saved: the
/// digits that `save_progress` writes read back as the page.
pub proof fn saved_page_reads_back(page: usize)
    ensures
        start_page(Some(Some(digit_bytes(page as nat)))) == Some(page),
{
    written_number_reads_back(page as u64);
}

/// The page at which a book opens, given the number that was read from
/// what was saved.
pub open spec fn start_page_of(number: Option<u64>) -> Option<usize> {
    match number {
        Some(n) => if n <= usize::MAX {
            Some(n as usize)
        } else {
            None
        },
        None => None,
    }
}

/// Where the progress of the book with the given title is saved: in the
/// folder of the saved progress, under the title with `-` for each space,
/// as a JSON file.
pub open spec fn progress_path(title: Seq<char>) -> Seq<char> {
    SAVED_PROGRESS_PATH@ + replaced(title, " "@, "-"@) + ".json"@
}

/// The sum of the word counts, where every one of them is known.
pub open spec fn word_total(counts: Seq<Option<i32>>) -> Option<int>
    decreases counts.len(),
{
    if counts.len() == 0 {
        Some(0)
    } else {
        match (word_total(counts.drop_last()), counts.last()) {
            (Some(total), Some(count)) => Some(total + count),
            _ => None,
        }
    }
}

/// `a` divided by the positive `b`, rounded towards zero.
pub open spec fn quotient(a: int, b: int) -> int {
    if a >= 0 {
        a / b
    } else {
        -((-a) / b)
    }
}

/// The printed pages on which `page` is estimated to be: the words up to
/// and with that page, at 450 words a page for the first and at 300 for the
/// last, counted from 1. `None` where the words of one of those pages are
/// not known, or their sum is no `i32`.
pub open spec fn estimated_range(counts: Seq<Option<i32>>, page: usize) -> Option<(i32, i32)> {
    let pages = if page < counts.len() {
        page + 1
    } else {
        counts.len() as int
    };
    match word_total(counts.take(pages)) {
        Some(total) => if i32::MIN <= total <= i32::MAX {
            Some(
                (
                    (quotient(total, WORDS_PER_PAGE_MAX as int) + 1) as i32,
                    (quotient(total, WORDS_PER_PAGE_MIN as int) + 1) as i32,
                ),
            )
        } else {
            None
        },
        None => None,
    }
}

/// Where the progress of the book with the given title is saved.
pub fn progress_file_path(title: &str) -> (path: String)
    ensures
        path@ == progress_path(title@),
{
    let mut path = SAVED_PROGRESS_PATH.to_owned();
    let name = replace_all(title, " ", "-");
    path.append(name.as_str());
    path.append(".json");
    path
}

impl BookView {
    /// The number of the last page of the book.
    pub open spec fn book_length(self) -> nat {
        match self.doc {
            Some(doc) => doc.last_page(),
            None => 0,
        }
    }

    /// Whether a page follows the one that is being read.
    pub open spec fn has_next_page(self) -> bool {
        self.current_page_index < self.book_length()
    }

    /// Whether a page comes before the one that is being read.
    pub open spec fn has_prev_page(self) -> bool {
        self.current_page_index > 1
    }

    /// The page that `link` leads to.
    pub open spec fn resolve_link(self, link: Seq<char>) -> Option<int> {
        match self.doc {
            Some(doc) => doc.resolve_link(link),
            None => None,
        }
    }

    /// The text of `page`.
    pub open spec fn page_text(self, page: int) -> Option<Seq<char>> {
        match self.doc {
            Some(doc) => doc.page_text(page),
            None => None,
        }
    }

    /// The first page that holds `text`.
    pub open spec fn page_with(self, text: Seq<char>) -> Option<int> {
        match self.doc {
            Some(doc) => doc.page_with(text),
            None => None,
        }
    }

    /// The book turned to `page`, without its estimate of the printed
    /// pages.
    pub open spec fn turned_to(self, page: usize) -> BookView {
        BookView { current_page_index: page, physical_page_range: None, ..self }
    }

    /// The book turned to the next page, if there is one.
    pub open spec fn turned_forward(self) -> BookView {
        if self.has_next_page() {
            self.turned_to((self.current_page_index + 1) as usize)
        } else {
            self.turned_to(self.current_page_index)
        }
    }

    /// The book turned to the page before, if there is one.
    pub open spec fn turned_back(self) -> BookView {
        if self.has_prev_page() {
            self.turned_to((self.current_page_index - 1) as usize)
        } else {
            self.turned_to(self.current_page_index)
        }
    }

    /// The book after `link` was followed: turned to the page that the
    /// link leads to, or left at its page where the link leads nowhere.
    pub open spec fn followed(self, link: Seq<char>) -> BookView {
        match self.resolve_link(link) {
            Some(page) => self.turned_to(page as usize),
            None => self.turned_to(self.current_page_index),
        }
    }

    /// The book with the estimate of the printed pages for the page that
    /// is being read.
    pub open spec fn estimated(self) -> BookView {
        BookView {
            physical_page_range: estimated_range(
                self.word_count_chapters,
                self.current_page_index,
            ),
            ..self
        }
    }

    /// The book with the text of the page that is being read as the text
    /// to edit, where that text is known.
    pub open spec fn editing(self) -> BookView {
        match self.page_text(self.current_page_index as int) {
            Some(text) => BookView { current_page_str: text, ..self },
            None => self,
        }
    }

    /// The path, inside the document, of the page that is being read.
    pub open spec fn current_doc_path(self) -> Option<Seq<char>> {
        match self.doc {
            Some(doc) => doc.page_path(self.current_page_index as int),
            None => None,
        }
    }
}

impl View for Book {
    type V = BookView;

    closed spec fn view(&self) -> BookView {
        BookView {
            title: self.title@,
            author: self.author@,
            cover: match self.cover {
                Some(bytes) => Some(bytes@),
                None => None,
            },
            doc: match self.doc {
                Some(doc) => Some(doc@),
                None => None,
            },
            current_page_index: self.current_page_index,
            current_page_str: self.current_page_str@,
            file_path: self.file_path@,
            has_progress: self.has_progress,
            word_count_chapters: self.word_count_chapters@,
            physical_page_range: self.physical_page_range,
        }
    }
}

impl DeepView for Book {
    type V = BookView;

    open spec fn deep_view(&self) -> BookView {
        self@
    }
}

impl Clone for Book {
    fn clone(&self) -> (copy: Book)
        ensures
            copy@ == self@,
    {
        let cover = match &self.cover {
            Some(bytes) => {
                let copy = bytes.clone();
                assert(copy@ =~= bytes@);
                Some(copy)
            },
            None => None,
        };
        let doc = match &self.doc {
            Some(doc) => Some(doc.clone()),
            None => None,
        };
        let word_count_chapters = self.word_count_chapters.clone();
        assert(word_count_chapters@ =~= self.word_count_chapters@);
        Book {
            title: self.title.clone(),
            author: self.author.clone(),
            cover,
            doc,
            current_page_index: self.current_page_index,
            current_page_str: self.current_page_str.clone(),
            file_path: self.file_path.clone(),
            has_progress: self.has_progress,
            word_count_chapters,
            physical_page_range: self.physical_page_range,
        }
    }
}

impl Book {
    /// A book that opens at `current_page_index`.
    pub fn open(
        doc: Document,
        title: String,
        author: String,
        cover: Option<Vec<u8>>,
        file_path: String,
        word_count_chapters: Vec<Option<i32>>,
        current_page_index: usize,
        has_progress: bool,
    ) -> (book: Book)
        ensures
            book@ == (BookView {
                title: title@,
                author: author@,
                cover: match cover {
                    Some(bytes) => Some(bytes@),
                    None => None,
                },
                doc: Some(doc@),
                current_page_index: current_page_index,
                current_page_str: Seq::empty(),
                file_path: file_path@,
                has_progress: has_progress,
                word_count_chapters: word_count_chapters@,
                physical_page_range: None,
            }),
    {
        Book {
            doc: Some(doc),
            title,
            author,
            cover,
            current_page_index,
            current_page_str: String::new(),
            file_path,
            has_progress,
            word_count_chapters,
            physical_page_range: None,
        }
    }

    /// The page at which a book opens, given the number that was read from
    /// what was saved.
    pub fn saved_page(number: Option<u64>) -> (page: Result<usize, BookError>)
        ensures
            match page {
                Ok(page) => start_page_of(number) == Some(page),
                Err(e) => start_page_of(number) is None && e == BookError::MalformedProgress,
            },
    {
        match number {
            Some(n) => {
                if n <= usize::MAX as u64 {
                    Ok(n as usize)
                } else {
                    Err(BookError::MalformedProgress)
                }
            },
            None => Err(BookError::MalformedProgress),
        }
    }

    /// A book that opens where it was left. It opens at page 1 where
    /// nothing was saved or what was saved could not be read, and at the
    /// saved page otherwise. It is no book where what was saved is no page
    /// number.
    pub fn new(
        doc: Document,
        title: String,
        author: String,
        cover: Option<Vec<u8>>,
        file_path: String,
        word_count_chapters: Vec<Option<i32>>,
        progress: SavedProgress,
    ) -> (made: Result<Book, BookError>)
        ensures
            match made {
                Ok(book) => start_page(progress@) is Some && book@ == (BookView {
                    title: title@,
                    author: author@,
                    cover: match cover {
                        Some(bytes) => Some(bytes@),
                        None => None,
                    },
                    doc: Some(doc@),
                    current_page_index: start_page(progress@).unwrap(),
                    current_page_str: Seq::empty(),
                    file_path: file_path@,
                    has_progress: progress@ is Some,
                    word_count_chapters: word_count_chapters@,
                    physical_page_range: None,
                }),
                Err(e) => start_page(progress@) is None && e == BookError::MalformedProgress,
            },
    {
        let (current_page_index, has_progress) = match &progress {
            SavedProgress::Missing => (1, false),
            SavedProgress::Unreadable => (1, true),
            SavedProgress::Saved(json) => {
                let number = match number_from_json(json.as_slice()) {
                    Ok(n) => Some(n),
                    Err(_) => None,
                };
                match Book::saved_page(number) {
                    Ok(page) => (page, true),
                    Err(e) => {
                        return Err(e);
                    },
                }
            },
        };
        Ok(
            Book::open(
                doc,
                title,
                author,
                cover,
                file_path,
                word_count_chapters,
                current_page_index,
                has_progress,
            ),
        )
    }

    /// A book without a document, a title or a page.
    pub fn new_empty() -> (book: Book)
        ensures
            book@ == (BookView {
                title: Seq::empty(),
                author: Seq::empty(),
                cover: None,
                doc: None,
                current_page_index: 0,
                current_page_str: Seq::empty(),
                file_path: Seq::empty(),
                has_progress: false,
                word_count_chapters: Seq::empty(),
                physical_page_range: None,
            }),
    {
        Book {
            doc: None,
            title: String::new(),
            author: String::new(),
            cover: None,
            current_page_index: 0,
            current_page_str: String::new(),
            file_path: String::new(),
            has_progress: false,
            word_count_chapters: Vec::new(),
            physical_page_range: None,
        }
    }

    /// The page that `link` leads to, if a resource of the book matches
    /// it.
    pub fn resolve_link(&self, link: &str) -> (page: Option<usize>)
        ensures
            match page {
                Some(page) => self@.resolve_link(link@) == Some(page as int),
                None => self@.resolve_link(link@) is None,
            },
    {
        match &self.doc {
            Some(doc) => doc.resolve_link(link),
            None => None,
        }
    }

    /// Follows a link: the book turns to the page that `link` leads to, and
    /// stays where it is if no resource matches the link. The estimate of
    /// the printed pages is dropped either way. Returns the page that was
    /// turned to.
    pub fn navigate_to(&mut self, link: &str) -> (page: Option<usize>)
        ensures
            match page {
                Some(page) => old(self)@.resolve_link(link@) == Some(page as int),
                None => old(self)@.resolve_link(link@) is None,
            },
            final(self)@ == old(self)@.followed(link@),
    {
        self.reset_page_range();
        let page = self.resolve_link(link);
        match page {
            Some(page_index) => {
                self.set_page(page_index);
            },
            None => {},
        }
        page
    }

    /// The path, inside the document, of the page that is being read.
    pub fn get_current_doc_path(&self) -> (path: Option<String>)
        ensures
            match path {
                Some(path) => self@.current_doc_path() == Some(path@),
                None => self@.current_doc_path() is None,
            },
    {
        match &self.doc {
            Some(doc) => doc.page_path(self.current_page_index),
            None => None,
        }
    }

    /// The text of the page `page_index`, if the book has that page and its
    /// text is known.
    pub fn get_page_str(&self, page_index: usize) -> (text: Option<String>)
        ensures
            match text {
                Some(text) => self@.page_text(page_index as int) == Some(text@),
                None => self@.page_text(page_index as int) is None,
            },
    {
        match &self.doc {
            Some(doc) => doc.page_text(page_index),
            None => None,
        }
    }

    /// The first page that holds `text`. The pages are searched from page 1
    /// on, and the search gives up at a page whose text is not known.
    pub fn get_page_from_ocr_text(&self, text: &str) -> (found: Option<usize>)
        ensures
            match found {
                Some(page) => self@.page_with(text@) == Some(page as int),
                None => self@.page_with(text@) is None,
            },
    {
        match &self.doc {
            Some(doc) => doc.page_with(text),
            None => None,
        }
    }

    /// Estimates the printed pages on which the page being read is. There
    /// is no estimate where the words of a page up to that one are not
    /// known.
    pub fn reverse_ocr(&mut self)
        ensures
            final(self)@ == old(self)@.estimated(),
    {
        let page = self.current_page_index;
        let pages = if page < self.word_count_chapters.len() {
            page + 1
        } else {
            self.word_count_chapters.len()
        };
        let total = match sum_of_words(&self.word_count_chapters, pages) {
            Some(total) => total,
            None => {
                self.physical_page_range = None;
                return;
            },
        };
        if total < i32::MIN as i128 || total > i32::MAX as i128 {
            self.physical_page_range = None;
            return;
        }
        let total = total as i64;
        let start = divide(total, WORDS_PER_PAGE_MAX as i64) + 1;
        let end = divide(total, WORDS_PER_PAGE_MIN as i64) + 1;
        self.set_physical_page_range((start as i32, end as i32));
    }

    /// Where the page that is being read is to be saved, and what is to
    /// be saved there: the path of the book's progress, and the page as
    /// JSON.
    pub fn save_progress(&self) -> (file: (String, String))
        ensures
            file.0@ == progress_path(self@.title),
            file.1@ == decimal_digits(self@.current_page_index as nat),
    {
        (progress_file_path(self.title.as_str()), json_of_number(self.current_page_index as u64))
    }

    /// The bytes of the cover image.
    pub fn get_image_buf(&self) -> (cover: Option<&Vec<u8>>)
        ensures
            match cover {
                Some(bytes) => self@.cover == Some(bytes@),
                None => self@.cover is None,
            },
    {
        self.cover.as_ref()
    }

    /// The document.
    pub fn get_doc(&self) -> (doc: Option<&Document>)
        ensures
            match doc {
                Some(doc) => self@.doc == Some(doc@),
                None => self@.doc is None,
            },
    {
        self.doc.as_ref()
    }

    /// The title.
    pub fn get_title(&self) -> (title: String)
        ensures
            title@ == self@.title,
    {
        self.title.clone()
    }

    /// The author.
    pub fn get_author(&self) -> (author: String)
        ensures
            author@ == self@.author,
    {
        self.author.clone()
    }

    /// The number of the last page of the book.
    pub fn get_book_length(&self) -> (length: usize)
        ensures
            length == self@.book_length(),
    {
        match &self.doc {
            Some(doc) => doc.last_page(),
            None => 0,
        }
    }

    /// Where the book's file stands.
    pub fn get_file_path(&self) -> (path: String)
        ensures
            path@ == self@.file_path,
    {
        self.file_path.clone()
    }

    /// How many words each page holds; `None` for a page whose words are
    /// not known.
    pub fn get_word_count(&self) -> (counts: &Vec<Option<i32>>)
        ensures
            counts@ == self@.word_count_chapters,
    {
        &self.word_count_chapters
    }

    /// The text of the page that is being edited.
    pub fn get_current_page_str(&self) -> (text: String)
        ensures
            text@ == self@.current_page_str,
    {
        self.current_page_str.clone()
    }

    /// Takes the text of the page that is being read as the text to edit.
    /// Nothing changes where that text is not known.
    pub fn set_editing_page(&mut self)
        ensures
            final(self)@ == old(self)@.editing(),
    {
        match self.get_page_str(self.current_page_index) {
            Some(page) => {
                self.set_page_str(page);
            },
            None => {},
        }
    }

    /// Sets the text of the page that is being edited.
    pub fn set_page_str(&mut self, page_str: String)
        ensures
            final(self)@ == (BookView { current_page_str: page_str@, ..old(self)@ }),
    {
        self.current_page_str = page_str;
    }

    /// The page that is being read.
    pub fn get_current_page(&self) -> (page: usize)
        ensures
            page == self@.current_page_index,
    {
        self.current_page_index
    }

    /// Whether a page follows the one that is being read.
    pub fn has_next_page(&self) -> (more: bool)
        ensures
            more == self@.has_next_page(),
    {
        self.current_page_index < self.get_book_length()
    }

    /// Whether a page comes before the one that is being read.
    pub fn has_prev_page(&self) -> (more: bool)
        ensures
            more == self@.has_prev_page(),
    {
        self.current_page_index > 1
    }

    /// Turns to the next page, if there is one, and drops the estimate of
    /// the printed pages.
    pub fn next_page(&mut self)
        ensures
            final(self)@ == old(self)@.turned_forward(),
    {
        self.reset_page_range();
        let length = self.get_book_length();
        if self.current_page_index < length {
            self.current_page_index += 1;
        }
    }

    /// Turns to the page before, if there is one, and drops the estimate of
    /// the printed pages.
    pub fn prev_page(&mut self)
        ensures
            final(self)@ == old(self)@.turned_back(),
    {
        self.reset_page_range();
        if self.has_prev_page() {
            self.current_page_index -= 1;
        }
    }

    /// Turns to the page `page_index` and drops the estimate of the printed
    /// pages.
    pub fn set_page(&mut self, page_index: usize)
        ensures
            final(self)@ == old(self)@.turned_to(page_index),
    {
        self.reset_page_range();
        self.current_page_index = page_index;
    }

    /// Sets the estimate of the printed pages.
    pub fn set_physical_page_range(&mut self, page_range: (i32, i32))
        ensures
            final(self)@ == (BookView { physical_page_range: Some(page_range), ..old(self)@ }),
    {
        self.physical_page_range = Some(page_range);
    }

    /// Drops the estimate of the printed pages.
    pub fn reset_page_range(&mut self)
        ensures
            final(self)@ == (BookView { physical_page_range: None, ..old(self)@ }),
    {
        self.physical_page_range = None;
    }

    /// The estimate of the printed pages.
    pub fn get_physical_page_range(&self) -> (range: Option<(i32, i32)>)
        ensures
            range == self@.physical_page_range,
    {
        self.physical_page_range
    }

    /// Whether the page that the book was left at is saved.
    pub fn get_has_progress(&self) -> (saved: bool)
        ensures
            saved == self@.has_progress,
    {
        self.has_progress
    }

    /// Notes that the page that the book was left at is saved.
    pub fn set_has_progress(&mut self)
        ensures
            final(self)@ == (BookView { has_progress: true, ..old(self)@ }),
    {
        self.has_progress = true;
    }
}

/// Where the words of one page are not known, their sum is not known.
proof fn lemma_unknown_total(counts: Seq<Option<i32>>, i: int)
    requires
        0 <= i < counts.len(),
        counts[i] is None,
    ensures
        word_total(counts) is None,
    decreases counts.len(),
{
    if i < counts.len() - 1 {
        lemma_unknown_total(counts.drop_last(), i);
    }
}

/// The sum of the first `pages` word counts, where all of them are known.
fn sum_of_words(counts: &Vec<Option<i32>>, pages: usize) -> (sum: Option<i128>)
    requires
        pages <= counts.len(),
    ensures
        match sum {
            Some(total) => word_total(counts@.take(pages as int)) == Some(total as int),
            None => word_total(counts@.take(pages as int)) is None,
        },
{
    let mut total: i128 = 0;
    let mut i: usize = 0;
    while i < pages
        invariant
            i <= pages <= counts.len(),
            word_total(counts@.take(i as int)) == Some(total as int),
            -0x8000_0000 * i <= total <= 0x8000_0000 * i,
        decreases pages - i,
    {
        proof {
            let next = counts@.take(i + 1);
            assert(next.drop_last() =~= counts@.take(i as int));
            assert(next.last() == counts@[i as int]);
        }
        match counts[i] {
            Some(count) => {
                total = total + count as i128;
            },
            None => {
                proof {
                    assert(counts@.take(pages as int)[i as int] == counts@[i as int]);
                    lemma_unknown_total(counts@.take(pages as int), i as int);
                }
                return None;
            },
        }
        i += 1;
    }
    Some(total)
}

/// `a` divided by the positive `b`, rounded towards zero.
fn divide(a: i64, b: i64) -> (q: i64)
    requires
        b > 0,
        i32::MIN <= a <= i32::MAX,
    ensures
        q == quotient(a as int, b as int),
        i32::MIN <= q <= i32::MAX,
{
    if a >= 0 {
        let q = a / b;
        assert(0 <= q <= a) by (nonlinear_arith)
            requires
                q == a / b,
                a >= 0,
                b > 0,
        ;
        q
    } else {
        let negated = -a;
        let q = negated / b;
        assert(0 <= q <= negated) by (nonlinear_arith)
            requires
                q == negated / b,
                negated >= 0,
                b > 0,
        ;
        -q
    }
}

} // verus!
