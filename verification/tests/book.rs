use ebook_reader::helper::functions::{
    cover_path, epub_to_book, is_library_book, library_file_path, page_word_count, text_word_count,
    word_counts,
};
use ebook_reader::model::book::{Book, BookError, SavedProgress};
use ebook_reader::model::document::{Document, Resource, SpineItem};

const TEST_FILE_PATH: &str = "./src/library/hope-prisoner-of-zenda.epub";

fn page(id: &str, text: &str) -> SpineItem {
    SpineItem { id: id.to_string(), text: Some(text.to_string()) }
}

fn resource(id: &str, path: &str) -> Resource {
    Resource { id: id.to_string(), path: path.to_string() }
}

fn words(n: usize) -> String {
    let mut text = String::from("<p>");
    for i in 0..n {
        text.push_str("word");
        text.push_str(&i.to_string());
        text.push(' ');
    }
    text.push_str("</p>");
    text
}

fn zenda_doc() -> Document {
    Document::new(
        vec![
            page("titlepage", "<h1>The Prisoner of Zenda</h1>"),
            page("ch1", "<p>The Rassendylls</p>"),
            page("ch2", "<p>Concerning the colour of men's hair</p>"),
            page("ch3", "<p>A merry evening with a distant relative</p>"),
        ],
        vec![
            resource("css", "OEBPS/style.css"),
            resource("titlepage", "OEBPS/titlepage.xhtml"),
            resource("ch1", "OEBPS/chapter1.xhtml"),
            resource("ch2", "OEBPS/chapter2.xhtml"),
            resource("ch3", "OEBPS/chapter3.xhtml"),
            resource("cover", "OEBPS/cover.png"),
        ],
    )
}

fn zenda(cover: Option<Vec<u8>>) -> Option<Book> {
    epub_to_book(
        "hope-prisoner-of-zenda.epub",
        zenda_doc(),
        Some("The Prisoner of Zenda".to_string()),
        Some("Anthony Hope".to_string()),
        cover,
        SavedProgress::Missing,
    )
    .ok()
}

fn notre_dame() -> Option<Book> {
    let spine = vec![
        page("cover", &words(120)),
        page("preface", &words(200)),
        page("book1", "<p>Three hundred and forty-eight years</p>"),
        page("book1-1", "<p>ago</p>"),
        page("book1-2", "<p>Pierre Gringoire</p>"),
        page("book1-3", "<p>Monsieur the Cardinal</p>"),
        page("book1-4", "<h2>CHAPTER I.</h2><p>The Grand Hall.</p><p>Three hundred</p>"),
        page("book1-5", "<p>The Grand Hall. again</p>"),
        page("end", "<p>end</p>"),
    ];
    epub_to_book(
        "hugo-hunchback-of-notre-dame.epub",
        Document::new(spine, vec![]),
        Some("The Hunchback of Notre Dame".to_string()),
        Some("Victor Hugo".to_string()),
        None,
        SavedProgress::Missing,
    )
    .ok()
}

#[test]
fn book_created_from_epub_file() {
    let book = zenda(None);
    match book {
        Some(book) => {
            assert_eq!(book.get_title(), "The Prisoner of Zenda");
            assert_eq!(book.get_author(), "Anthony Hope");
            assert_eq!(book.get_file_path(), TEST_FILE_PATH);
        }
        None => {
            panic!("Book not created")
        }
    }
}

#[test]
fn book_created_from_epub_file_with_cover() {
    let book = zenda(Some(vec![0x89, b'P', b'N', b'G']));
    match book {
        Some(book) => {
            assert_eq!(book.get_title(), "The Prisoner of Zenda");
            assert_eq!(book.get_author(), "Anthony Hope");
            assert_eq!(book.get_file_path(), TEST_FILE_PATH);
            assert!(book.get_image_buf().is_some());
        }
        None => {
            panic!("Book not created")
        }
    }
}

#[test]
fn first_page_of_book_loaded() {
    let book = zenda(None);
    match book {
        Some(book) => {
            assert_eq!(book.get_current_page(), 1);
        }
        None => {
            panic!("Book not created")
        }
    }
}

#[test]
fn next_page_of_book_loaded() {
    let book = zenda(None);
    match book {
        Some(mut book) => {
            book.next_page();
            assert_eq!(book.get_current_page(), 2);
        }
        None => {
            panic!("Book not created")
        }
    }
}

#[test]
fn previous_page_of_book_loaded() {
    let book = zenda(None);
    match book {
        Some(mut book) => {
            book.next_page();
            book.prev_page();
            assert_eq!(book.get_current_page(), 1);
        }
        None => {
            panic!("Book not created")
        }
    }
}

#[test]
fn ocr_from_file_with_book() {
    let book = notre_dame();
    match book {
        Some(book) => {
            let text = String::from("The Grand Hall.\n");
            let page = book.get_page_from_ocr_text(text.trim());
            assert_eq!(page.is_some(), true);
            assert_eq!(page.unwrap(), 6);
        }
        None => {
            panic!("Book not created")
        }
    }
}

#[test]
fn reverse_ocr() {
    let book = notre_dame();
    match book {
        Some(mut book) => {
            book.set_page(1);
            book.reverse_ocr();
            assert_eq!(book.get_physical_page_range().is_some(), true);
            assert_eq!(book.get_physical_page_range().unwrap(), (1, 2));
        }
        None => {
            panic!("Book not created")
        }
    }
}

#[test]
fn book_without_title_is_unknown() {
    let book = epub_to_book("a.epub", zenda_doc(), None, None, None, SavedProgress::Missing).unwrap();
    assert_eq!(book.get_title(), "Unknown");
    assert_eq!(book.get_author(), "Unknown");
    assert_eq!(book.get_file_path(), "./src/library/a.epub");
    assert!(book.get_image_buf().is_none());
    assert!(!book.get_has_progress());
    assert_eq!(book.get_current_page_str(), "");
    assert_eq!(book.get_physical_page_range(), None);
}

#[test]
fn words_of_every_page_but_the_last_are_counted() {
    let book = notre_dame().unwrap();
    let known: Vec<Option<i32>> = vec![120, 200, 5, 1, 2, 3, 8, 4].into_iter().map(Some).collect();
    assert_eq!(book.get_word_count(), &known);
    assert_eq!(word_counts(&Document::new(vec![], vec![])), Vec::<Option<i32>>::new());
    assert_eq!(
        word_counts(&Document::new(vec![page("a", "<p>x</p>")], vec![])),
        Vec::<Option<i32>>::new()
    );
    let unread = SpineItem { id: "a".to_string(), text: None };
    assert_eq!(word_counts(&Document::new(vec![unread, page("b", "x")], vec![])), vec![Some(0)]);
    let table = page("t", "<table><tr><td>one two</td></tr></table>");
    let text = page("u", "<p>one two</p>");
    assert_eq!(
        word_counts(&Document::new(vec![table, text, page("b", "x")], vec![])),
        vec![None, Some(2)]
    );
}

#[test]
fn words_of_a_page_are_those_of_its_text() {
    assert_eq!(page_word_count("<p>one <b>two</b></p><p>three</p>"), Some(3));
    assert_eq!(page_word_count("<p></p>"), Some(0));
    assert_eq!(page_word_count(""), Some(0));
    assert_eq!(page_word_count("<table><tr><td>one two</td></tr></table>"), None);
    assert_eq!(page_word_count("<td>a"), Some(1));
    assert_eq!(page_word_count("<p>one&#xFE0F; two</p>"), None);
    assert_eq!(text_word_count("a b  c"), 3);
}

#[test]
fn saved_progress_sets_the_first_page() {
    let open = |progress| {
        Book::new(
            zenda_doc(),
            "T".to_string(),
            "A".to_string(),
            None,
            "p".to_string(),
            vec![],
            progress,
        )
    };
    let book = open(SavedProgress::Saved(b"3".to_vec())).unwrap();
    assert_eq!(book.get_current_page(), 3);
    assert!(book.get_has_progress());
    let book = open(SavedProgress::Saved(b" 12\n".to_vec())).unwrap();
    assert_eq!(book.get_current_page(), 12);
    let book = open(SavedProgress::Unreadable).unwrap();
    assert_eq!(book.get_current_page(), 1);
    assert!(book.get_has_progress());
    let book = open(SavedProgress::Missing).unwrap();
    assert_eq!(book.get_current_page(), 1);
    assert!(!book.get_has_progress());
    assert_eq!(open(SavedProgress::Saved(b"three".to_vec())).err(), Some(BookError::MalformedProgress));
    assert_eq!(open(SavedProgress::Saved(b"-1".to_vec())).err(), Some(BookError::MalformedProgress));
    assert_eq!(open(SavedProgress::Saved(b"".to_vec())).err(), Some(BookError::MalformedProgress));
    assert_eq!(open(SavedProgress::Saved(b"1.5".to_vec())).err(), Some(BookError::MalformedProgress));
    assert_eq!(open(SavedProgress::Saved(vec![0xff])).err(), Some(BookError::MalformedProgress));
    assert_eq!(Book::saved_page(None), Err(BookError::MalformedProgress));
    assert_eq!(Book::saved_page(Some(9)), Ok(9));
}

#[test]
fn progress_is_saved_under_the_title() {
    let mut book = zenda(None).unwrap();
    book.set_page(3);
    let (path, json) = book.save_progress();
    assert_eq!(path, "./src/library/progress/The-Prisoner-of-Zenda.json");
    assert_eq!(json, "3");
    assert!(!book.get_has_progress());
    book.set_has_progress();
    assert!(book.get_has_progress());
    assert_eq!(Book::saved_page(Some(3)), Ok(3));
    let again = Book::new(
        zenda_doc(),
        "T".to_string(),
        "A".to_string(),
        None,
        "p".to_string(),
        vec![],
        SavedProgress::Saved(json.into_bytes()),
    )
    .unwrap();
    assert_eq!(again.get_current_page(), 3);
}

#[test]
fn book_length_is_the_last_page() {
    let book = zenda(None).unwrap();
    assert_eq!(book.get_book_length(), 3);
    assert_eq!(Book::new_empty().get_book_length(), 0);
    assert_eq!(Book::new_empty().get_current_page(), 0);
    assert_eq!(Document::new(vec![], vec![]).last_page(), 0);
    assert!(book.get_doc().is_some());
    assert!(Book::new_empty().get_doc().is_none());
}

#[test]
fn pages_are_turned_within_the_book() {
    let mut book = zenda(None).unwrap();
    assert!(book.has_next_page());
    assert!(!book.has_prev_page());
    book.prev_page();
    assert_eq!(book.get_current_page(), 1);
    book.next_page();
    book.next_page();
    assert_eq!(book.get_current_page(), 3);
    assert!(!book.has_next_page());
    assert!(book.has_prev_page());
    book.next_page();
    assert_eq!(book.get_current_page(), 3);
    book.set_page(40);
    assert_eq!(book.get_current_page(), 40);
    book.next_page();
    assert_eq!(book.get_current_page(), 40);
    let mut empty = Book::new_empty();
    empty.next_page();
    empty.prev_page();
    assert_eq!(empty.get_current_page(), 0);
}

#[test]
fn turning_a_page_drops_the_estimate() {
    let mut book = zenda(None).unwrap();
    book.set_physical_page_range((4, 5));
    assert_eq!(book.get_physical_page_range(), Some((4, 5)));
    book.next_page();
    assert_eq!(book.get_physical_page_range(), None);
    book.set_physical_page_range((4, 5));
    book.prev_page();
    assert_eq!(book.get_physical_page_range(), None);
    book.set_physical_page_range((4, 5));
    book.set_page(2);
    assert_eq!(book.get_physical_page_range(), None);
    book.set_physical_page_range((4, 5));
    book.navigate_to("nowhere.xhtml");
    assert_eq!(book.get_physical_page_range(), None);
    book.set_physical_page_range((4, 5));
    book.reset_page_range();
    assert_eq!(book.get_physical_page_range(), None);
}

#[test]
fn links_lead_to_pages() {
    let mut book = zenda(None).unwrap();
    assert_eq!(book.navigate_to("chapter2.xhtml"), Some(2));
    assert_eq!(book.get_current_page(), 2);
    assert_eq!(book.navigate_to("chapter9.xhtml"), None);
    assert_eq!(book.get_current_page(), 2);
    assert_eq!(book.navigate_to("OEBPS/chapter3.xhtml"), Some(3));
    assert_eq!(book.get_current_page(), 3);
    assert_eq!(book.navigate_to("titlepage.xhtml"), Some(0));
    assert_eq!(book.get_current_page(), 0);
    assert_eq!(book.navigate_to("cover.png"), Some(1));
    assert_eq!(book.get_current_page(), 1);
    assert_eq!(book.resolve_link(".xhtml"), None);
    assert_eq!(book.resolve_link("pter2.xhtml"), None);
    assert_eq!(book.resolve_link("EBPS/chapter2.xhtml"), None);
    assert_eq!(book.resolve_link(""), Some(1));
    assert_eq!(Book::new_empty().navigate_to("chapter2.xhtml"), None);
    let doc = zenda_doc();
    assert_eq!(doc.resource_id_to_chapter("ch3"), Some(3));
    assert_eq!(doc.resource_id_to_chapter("css"), None);
}

#[test]
fn page_texts_are_those_of_the_spine() {
    let book = zenda(None).unwrap();
    assert_eq!(book.get_page_str(1), Some("<p>The Rassendylls</p>".to_string()));
    assert_eq!(book.get_page_str(3), Some("<p>A merry evening with a distant relative</p>".to_string()));
    assert_eq!(book.get_page_str(0), None);
    assert_eq!(book.get_page_str(4), None);
    assert_eq!(Book::new_empty().get_page_str(1), None);
    let unread = SpineItem { id: "b".to_string(), text: None };
    let doc = Document::new(vec![page("a", "x"), unread, page("c", "z")], vec![]);
    assert_eq!(doc.page_text(1), None);
    assert_eq!(doc.page_text(2), Some("z".to_string()));
}

#[test]
fn path_of_the_page_being_read() {
    let mut book = zenda(None).unwrap();
    assert_eq!(book.get_current_doc_path(), Some("OEBPS/chapter1.xhtml".to_string()));
    book.set_page(0);
    assert_eq!(book.get_current_doc_path(), Some("OEBPS/titlepage.xhtml".to_string()));
    book.set_page(4);
    assert_eq!(book.get_current_doc_path(), None);
    assert_eq!(Book::new_empty().get_current_doc_path(), None);
    let doc = Document::new(vec![page("a", "x"), page("b", "y")], vec![resource("a", "a.xhtml")]);
    assert_eq!(doc.page_path(1), None);
    assert_eq!(doc.page_path(0), Some("a.xhtml".to_string()));
}

#[test]
fn search_stops_at_the_first_page_with_the_text() {
    let book = notre_dame().unwrap();
    assert_eq!(book.get_page_from_ocr_text("The Grand Hall."), Some(6));
    assert_eq!(book.get_page_from_ocr_text("Gringoire"), Some(4));
    assert_eq!(book.get_page_from_ocr_text("nowhere in the book"), None);
    assert_eq!(book.get_page_from_ocr_text("end"), Some(8));
    assert_eq!(book.get_page_from_ocr_text(""), Some(1));
    assert_eq!(Book::new_empty().get_page_from_ocr_text(""), None);
    let unread = SpineItem { id: "b".to_string(), text: None };
    let doc = Document::new(
        vec![page("a", "x"), page("b", "y"), unread, page("d", "find me"), page("e", "")],
        vec![],
    );
    assert_eq!(doc.page_with("find me"), None);
    assert_eq!(doc.page_with("y"), Some(1));
    assert_eq!(doc.page_with("x"), None);
}

#[test]
fn printed_pages_are_estimated_from_the_words() {
    let open = |counts: Vec<i32>, page: usize| {
        let mut book = Book::open(
            Document::new(vec![], vec![]),
            String::new(),
            String::new(),
            None,
            String::new(),
            counts.into_iter().map(Some).collect(),
            page,
            false,
        );
        book.reverse_ocr();
        book.get_physical_page_range()
    };
    assert_eq!(open(vec![100, 250, 900], 1), Some((1, 2)));
    assert_eq!(open(vec![100, 250, 900], 2), Some((3, 5)));
    assert_eq!(open(vec![100, 250, 900], 0), Some((1, 1)));
    assert_eq!(open(vec![100, 250, 900], 70), Some((3, 5)));
    assert_eq!(open(vec![100, 250, 900], usize::MAX), Some((3, 5)));
    assert_eq!(open(vec![], 0), Some((1, 1)));
    assert_eq!(open(vec![449], 0), Some((1, 2)));
    assert_eq!(open(vec![450], 0), Some((2, 2)));
    assert_eq!(open(vec![-451], 0), Some((0, 0)));
    assert_eq!(open(vec![-299], 0), Some((1, 1)));
    assert_eq!(open(vec![i32::MAX], 0), Some((4772186, 7158279)));
    assert_eq!(open(vec![i32::MIN], 0), Some((-4772184, -7158277)));
    assert_eq!(open(vec![i32::MAX, 1], 1), None);
    assert_eq!(open(vec![i32::MIN, -1], 1), None);
    assert_eq!(open(vec![i32::MAX, 1, -1], 2), Some((4772186, 7158279)));
}

#[test]
fn no_estimate_where_the_words_of_a_page_are_not_known() {
    let open = |counts: Vec<Option<i32>>, page: usize| {
        let mut book = Book::open(
            Document::new(vec![], vec![]),
            String::new(),
            String::new(),
            None,
            String::new(),
            counts,
            page,
            false,
        );
        book.set_physical_page_range((7, 8));
        book.reverse_ocr();
        book.get_physical_page_range()
    };
    assert_eq!(open(vec![Some(100), None, Some(900)], 0), Some((1, 1)));
    assert_eq!(open(vec![Some(100), None, Some(900)], 1), None);
    assert_eq!(open(vec![Some(100), None, Some(900)], 2), None);
    assert_eq!(open(vec![None], 5), None);
    assert_eq!(open(vec![Some(100), Some(250), None], 1), Some((1, 2)));
}

#[test]
fn text_to_edit_is_set_and_read() {
    let mut book = zenda(None).unwrap();
    book.set_page_str("<p>edited</p>".to_string());
    assert_eq!(book.get_current_page_str(), "<p>edited</p>");
    book.set_editing_page();
    assert_eq!(book.get_current_page_str(), "<p>The Rassendylls</p>");
    book.set_page(9);
    book.set_editing_page();
    assert_eq!(book.get_current_page_str(), "<p>The Rassendylls</p>");
}

#[test]
fn copy_of_a_book_is_the_book() {
    let mut book = zenda(Some(vec![1, 2, 3])).unwrap();
    book.set_page(2);
    book.set_physical_page_range((1, 2));
    let copy = book.clone();
    assert_eq!(copy.get_title(), book.get_title());
    assert_eq!(copy.get_current_page(), 2);
    assert_eq!(copy.get_physical_page_range(), Some((1, 2)));
    assert_eq!(copy.get_image_buf(), Some(&vec![1, 2, 3]));
    assert_eq!(copy.get_page_str(1), book.get_page_str(1));
    assert_eq!(copy.get_word_count(), book.get_word_count());
}

#[test]
fn paths_of_the_library() {
    assert_eq!(library_file_path("a.epub"), "./src/library/a.epub");
    assert_eq!(cover_path("The Prisoner of Zenda"), "./src/library/covers/The-Prisoner-of-Zenda.png");
    assert!(is_library_book("./src/library/a.epub"));
    assert!(!is_library_book("./src/library/covers"));
    assert!(!is_library_book("./src/library/covers/a.png"));
    assert!(!is_library_book("./src/library/ocr"));
    assert!(!is_library_book("./src/library/progress/a.json"));
}
