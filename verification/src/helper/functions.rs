//! From the parts of an EPUB file to a book of the library.

use vstd::prelude::*;
use crate::controller::annotator::{plain_lines, plain_text};
use crate::controller::layout::{can_be_laid_out, can_lay_out};
use crate::helper::config::{COVERS_PATH, LIBRARY_PATH, OCR_PATH, WORD_COUNT_WIDTH};
use crate::helper::text::{contains, count_words, has_substring, replace_all, replaced, word_count};
use crate::model::book::{start_page, Book, BookError, BookView, SavedProgress};
use crate::model::document::{Document, SpineItemView};

verus! {

/// The folder of the covers, as it is looked for in the path of a file.
pub const COVERS_FOLDER: &'static str = "./src/library/covers";

/// The folder of the saved progress, as it is looked for in the path of a
/// file.
pub const PROGRESS_FOLDER: &'static str = "./src/library/progress";

/// Whether the file at `path` is a book of the library: a file that is in
/// none of the folders of the covers, of the scanned pages and of the saved
/// progress.
pub open spec fn is_book_path(path: Seq<char>) -> bool {
    !has_substring(path, COVERS_FOLDER@) && !has_substring(path, OCR_PATH@) && !has_substring(
        path,
        PROGRESS_FOLDER@,
    )
}

/// Tells whether the file at `path` is a book of the library.
pub fn is_library_book(path: &str) -> (book: bool)
    ensures
        book == is_book_path(path@),
{
    !contains(path, COVERS_FOLDER) && !contains(path, OCR_PATH) && !contains(path, PROGRESS_FOLDER)
}

/// Where the book with the given file name stands in the library.
pub fn library_file_path(filename: &str) -> (path: String)
    ensures
        path@ == LIBRARY_PATH@ + "/"@ + filename@,
{
    let mut path = LIBRARY_PATH.to_owned();
    path.append("/");
    path.append(filename);
    path
}

/// Where the cover of the book with the given title is kept: in the folder
/// of the covers, under the title with `-` for each space, as a PNG file.
pub fn cover_path(title: &str) -> (path: String)
    ensures
        path@ == COVERS_PATH@ + replaced(title@, " "@, "-"@) + ".png"@,
{
    let mut path = COVERS_PATH.to_owned();
    let name = replace_all(title, " ", "-");
    path.append(name.as_str());
    path.append(".png");
    path
}

/// A count of words as an `i32`: the count itself, and the largest `i32`
/// where the count is larger.
pub open spec fn counted(words: nat) -> i32 {
    if words <= i32::MAX {
        words as i32
    } else {
        i32::MAX
    }
}

/// How many words a page has, given its text without the HTML.
pub fn text_word_count(text: &str) -> (count: i32)
    ensures
        count == counted(word_count(text@)),
{
    let words = count_words(text);
    if words <= i32::MAX as usize {
        words as i32
    } else {
        i32::MAX
    }
}

/// How many words the page with the HTML `page` has: the words of its
/// text, wrapped to [`WORD_COUNT_WIDTH`] columns. `None` where the page
/// cannot be laid out in that width.
pub fn page_word_count(page: &str) -> (count: Option<i32>)
    ensures
        count == words_of(page@),
{
    if !can_lay_out(page, WORD_COUNT_WIDTH) {
        return None;
    }
    let text = plain_lines(page, WORD_COUNT_WIDTH);
    Some(text_word_count(text.as_str()))
}

/// The HTML of a page of the spine, and nothing where it could not be
/// read.
pub open spec fn html_of(item: SpineItemView) -> Seq<char> {
    match item.text {
        Some(text) => text,
        None => Seq::empty(),
    }
}

/// The words of the page with the HTML `page`: those of its text, and
/// `None` where the page cannot be laid out, so that its words are not
/// known.
pub open spec fn words_of(page: Seq<char>) -> Option<i32> {
    if can_be_laid_out(page, WORD_COUNT_WIDTH as nat) {
        Some(counted(word_count(plain_text(page, WORD_COUNT_WIDTH as nat))))
    } else {
        None
    }
}

/// The word counts of the pages of a document: one for each page but the
/// last, in the order of the spine. A page that could not be read counts as
/// a page without text.
pub open spec fn word_counts_of(spine: Seq<SpineItemView>) -> Seq<Option<i32>> {
    Seq::new(
        if spine.len() > 0 {
            (spine.len() - 1) as nat
        } else {
            0
        },
        |i: int| words_of(html_of(spine[i])),
    )
}

/// Counts the words of the pages of a document.
pub fn word_counts(doc: &Document) -> (counts: Vec<Option<i32>>)
    ensures
        counts@ == word_counts_of(doc@.spine),
{
    let mut counts: Vec<Option<i32>> = Vec::new();
    if doc.spine.len() == 0 {
        assert(counts@ =~= word_counts_of(doc@.spine));
        return counts;
    }
    let pages = doc.spine.len() - 1;
    let mut i: usize = 0;
    while i < pages
        invariant
            i <= pages,
            pages == doc.spine.len() - 1,
            counts@ =~= word_counts_of(doc@.spine).take(i as int),
        decreases pages - i,
    {
        let count = match &doc.spine[i].text {
            Some(text) => page_word_count(text.as_str()),
            None => page_word_count(""),
        };
        proof {
            assert(doc@.spine[i as int] == doc.spine[i as int].deep_view());
            assert(""@ =~= Seq::<char>::empty()) by {
                reveal_strlit("");
            }
        }
        counts.push(count);
        i += 1;
    }
    assert(word_counts_of(doc@.spine).take(i as int) =~= word_counts_of(doc@.spine));
    counts
}

/// The name that stands for a title or an author that the book does not
/// give.
pub const UNKNOWN: &'static str = "Unknown";

/// The given text, or `Unknown` where there is none.
pub open spec fn or_unknown(text: Option<Seq<char>>) -> Seq<char> {
    match text {
        Some(text) => text,
        None => UNKNOWN@,
    }
}

/// The view of an optional string.
pub open spec fn text_view(text: Option<String>) -> Option<Seq<char>> {
    match text {
        Some(text) => Some(text@),
        None => None,
    }
}

/// Makes a book of the parts of an EPUB file: the name of the file, the
/// document, the title and the author as far as the file gives them, the
/// bytes of the cover and what was saved of the progress. The book stands in
/// the library under its file name, has `Unknown` for a title or an author
/// that is not given, and knows the words of its pages. It is no book where
/// what was saved as its progress is no page number.
pub fn epub_to_book(
    filename: &str,
    doc: Document,
    title: Option<String>,
    author: Option<String>,
    cover: Option<Vec<u8>>,
    progress: SavedProgress,
) -> (made: Result<Book, BookError>)
    ensures
        match made {
            Ok(book) => start_page(progress@) is Some && book@ == (BookView {
                title: or_unknown(text_view(title)),
                author: or_unknown(text_view(author)),
                cover: match cover {
                    Some(bytes) => Some(bytes@),
                    None => None,
                },
                doc: Some(doc@),
                current_page_index: start_page(progress@).unwrap(),
                current_page_str: Seq::empty(),
                file_path: LIBRARY_PATH@ + "/"@ + filename@,
                has_progress: progress@ is Some,
                word_count_chapters: word_counts_of(doc@.spine),
                physical_page_range: None,
            }),
            Err(e) => start_page(progress@) is None && e == BookError::MalformedProgress,
        },
{
    let file_path = library_file_path(filename);
    let title = match title {
        Some(title) => title,
        None => UNKNOWN.to_owned(),
    };
    let author = match author {
        Some(author) => author,
        None => UNKNOWN.to_owned(),
    };
    let word_count_chapters = word_counts(&doc);
    Book::new(doc, title, author, cover, file_path, word_count_chapters, progress)
}

} // verus!
