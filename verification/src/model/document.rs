//! What the reader knows of an EPUB document: its spine, with the text of
//! each page, and its resources.

use vstd::prelude::*;
use crate::helper::search::{first_index, lemma_first_index_is, lemma_first_index_none};
use crate::helper::text::{contains, has_substring, is_path_suffix, path_ends_with};

verus! {

/// A file of the document: its id and its path inside the document.
#[derive(Debug)]
pub struct Resource {
    pub id: String,
    pub path: String,
}

/// What a [`Resource`] is in contracts.
pub struct ResourceView {
    pub id: Seq<char>,
    pub path: Seq<char>,
}

impl DeepView for Resource {
    type V = ResourceView;

    open spec fn deep_view(&self) -> ResourceView {
        ResourceView { id: self.id@, path: self.path@ }
    }
}

impl View for Resource {
    type V = ResourceView;

    open spec fn view(&self) -> ResourceView {
        self.deep_view()
    }
}

impl Clone for Resource {
    fn clone(&self) -> (copy: Resource)
        ensures
            copy@ == self@,
    {
        Resource { id: self.id.clone(), path: self.path.clone() }
    }
}

/// One entry of the spine: the id of the resource that is the page, and the
/// text of the page where it could be read.
#[derive(Debug)]
pub struct SpineItem {
    pub id: String,
    pub text: Option<String>,
}

/// What a [`SpineItem`] is in contracts.
pub struct SpineItemView {
    pub id: Seq<char>,
    pub text: Option<Seq<char>>,
}

impl DeepView for SpineItem {
    type V = SpineItemView;

    open spec fn deep_view(&self) -> SpineItemView {
        SpineItemView {
            id: self.id@,
            text: match self.text {
                Some(text) => Some(text@),
                None => None,
            },
        }
    }
}

impl View for SpineItem {
    type V = SpineItemView;

    open spec fn view(&self) -> SpineItemView {
        self.deep_view()
    }
}

impl Clone for SpineItem {
    fn clone(&self) -> (copy: SpineItem)
        ensures
            copy@ == self@,
    {
        let text = match &self.text {
            Some(text) => Some(text.clone()),
            None => None,
        };
        SpineItem { id: self.id.clone(), text }
    }
}

/// A document: the spine in reading order, and the resources in the order
/// in which they are searched.
#[derive(Debug)]
pub struct Document {
    pub spine: Vec<SpineItem>,
    pub resources: Vec<Resource>,
}

/// What a [`Document`] is in contracts.
pub struct DocumentView {
    pub spine: Seq<SpineItemView>,
    pub resources: Seq<ResourceView>,
}

impl DeepView for Document {
    type V = DocumentView;

    open spec fn deep_view(&self) -> DocumentView {
        DocumentView { spine: self.spine.deep_view(), resources: self.resources.deep_view() }
    }
}

impl View for Document {
    type V = DocumentView;

    open spec fn view(&self) -> DocumentView {
        self.deep_view()
    }
}

impl Clone for Document {
    fn clone(&self) -> (copy: Document)
        ensures
            copy@ == self@,
    {
        let mut spine: Vec<SpineItem> = Vec::new();
        let mut i: usize = 0;
        while i < self.spine.len()
            invariant
                i <= self.spine.len(),
                spine.deep_view() =~= self.spine.deep_view().take(i as int),
            decreases self.spine.len() - i,
        {
            let ghost before = spine.deep_view();
            let item = self.spine[i].clone();
            assert(item.deep_view() == self.spine[i as int].deep_view());
            spine.push(item);
            assert(spine.deep_view() =~= before.push(self.spine[i as int].deep_view()));
            i += 1;
        }
        let mut resources: Vec<Resource> = Vec::new();
        let mut j: usize = 0;
        while j < self.resources.len()
            invariant
                j <= self.resources.len(),
                resources.deep_view() =~= self.resources.deep_view().take(j as int),
            decreases self.resources.len() - j,
        {
            let ghost before = resources.deep_view();
            let resource = self.resources[j].clone();
            assert(resource.deep_view() == self.resources[j as int].deep_view());
            resources.push(resource);
            assert(resources.deep_view() =~= before.push(self.resources[j as int].deep_view()));
            j += 1;
        }
        assert(spine.deep_view() =~= self.spine.deep_view());
        assert(resources.deep_view() =~= self.resources.deep_view());
        Document { spine, resources }
    }
}

impl DocumentView {
    /// The number of the last page. Page 0 is the front of the book and is
    /// not read; a document without a spine has no page.
    pub open spec fn last_page(self) -> nat {
        if self.spine.len() > 0 {
            (self.spine.len() - 1) as nat
        } else {
            0
        }
    }

    /// Whether `page` is a page that can be read.
    pub open spec fn has_page(self, page: int) -> bool {
        0 < page <= self.last_page()
    }

    /// The place in the spine of the resource with the given id, if it is
    /// there.
    pub open spec fn chapter_of(self, id: Seq<char>) -> Option<int> {
        first_index(self.spine, |item: SpineItemView| item.id == id)
    }

    /// The place among the resources of the first whose path ends with
    /// the path `link`, part by part.
    pub open spec fn resource_for(self, link: Seq<char>) -> Option<int> {
        first_index(self.resources, |resource: ResourceView| is_path_suffix(resource.path, link))
    }

    /// The page that `link` leads to: that of the first resource whose path
    /// ends with `link`, and page 1 where that resource is not in the
    /// spine. A link that no resource matches leads nowhere.
    pub open spec fn resolve_link(self, link: Seq<char>) -> Option<int> {
        match self.resource_for(link) {
            Some(r) => Some(
                match self.chapter_of(self.resources[r].id) {
                    Some(page) => page,
                    None => 1,
                },
            ),
            None => None,
        }
    }

    /// The text of `page`, where it is a page that can be read and its text
    /// is known.
    pub open spec fn page_text(self, page: int) -> Option<Seq<char>> {
        if self.has_page(page) {
            self.spine[page].text
        } else {
            None
        }
    }

    /// The path of the resource that `page` is, where the spine has that
    /// place and the resources hold its id.
    pub open spec fn page_path(self, page: int) -> Option<Seq<char>> {
        if 0 <= page < self.spine.len() {
            let id = self.spine[page].id;
            match first_index(self.resources, |resource: ResourceView| resource.id == id) {
                Some(r) => Some(self.resources[r].path),
                None => None,
            }
        } else {
            None
        }
    }

    /// Whether the search for `text` ends at `page`: the page cannot be
    /// read, or it holds `text`.
    pub open spec fn search_ends_at(self, text: Seq<char>, page: int) -> bool {
        match self.spine[page].text {
            Some(content) => has_substring(content, text),
            None => true,
        }
    }

    /// The first page that holds `text`. The pages are searched from page 1
    /// on, and the search gives up at a page that cannot be read.
    pub open spec fn page_with(self, text: Seq<char>) -> Option<int> {
        if exists|page: int| self.has_page(page) && self.search_ends_at(text, page) {
            let page = choose|page: int|
                self.has_page(page) && self.search_ends_at(text, page) && forall|earlier: int|
                    self.has_page(earlier) && earlier < page ==> !self.search_ends_at(
                        text,
                        earlier,
                    );
            if self.spine[page].text is Some {
                Some(page)
            } else {
                None
            }
        } else {
            None
        }
    }
}

impl Document {
    /// A document of the given spine and resources.
    pub fn new(spine: Vec<SpineItem>, resources: Vec<Resource>) -> (doc: Document)
        ensures
            doc.spine == spine,
            doc.resources == resources,
    {
        Document { spine, resources }
    }

    /// The number of the last page.
    pub fn last_page(&self) -> (page: usize)
        ensures
            page == self@.last_page(),
    {
        if self.spine.len() > 0 {
            self.spine.len() - 1
        } else {
            0
        }
    }

    /// The place in the spine of the resource with the given id.
    pub fn resource_id_to_chapter(&self, id: &str) -> (chapter: Option<usize>)
        ensures
            match chapter {
                Some(page) => self@.chapter_of(id@) == Some(page as int),
                None => self@.chapter_of(id@) is None,
            },
    {
        let ghost wanted = |item: SpineItemView| item.id == id@;
        let target = id.to_owned();
        let mut i: usize = 0;
        while i < self.spine.len()
            invariant
                i <= self.spine.len(),
                target@ == id@,
                wanted == (|item: SpineItemView| item.id == id@),
                forall|j: int| 0 <= j < i ==> !wanted(#[trigger] self@.spine[j]),
            decreases self.spine.len() - i,
        {
            if self.spine[i].id == target {
                proof {
                    assert(wanted(self@.spine[i as int]));
                    lemma_first_index_is(self@.spine, wanted, i as int);
                }
                return Some(i);
            }
            assert(!wanted(self@.spine[i as int]));
            i += 1;
        }
        proof {
            lemma_first_index_none(self@.spine, wanted);
        }
        None
    }

    /// The page that `link` leads to.
    pub fn resolve_link(&self, link: &str) -> (page: Option<usize>)
        ensures
            match page {
                Some(page) => self@.resolve_link(link@) == Some(page as int),
                None => self@.resolve_link(link@) is None,
            },
    {
        let ghost wanted = |resource: ResourceView| is_path_suffix(resource.path, link@);
        let mut i: usize = 0;
        while i < self.resources.len()
            invariant
                i <= self.resources.len(),
                wanted == (|resource: ResourceView| is_path_suffix(resource.path, link@)),
                forall|j: int| 0 <= j < i ==> !wanted(#[trigger] self@.resources[j]),
            decreases self.resources.len() - i,
        {
            if path_ends_with(self.resources[i].path.as_str(), link) {
                proof {
                    assert(wanted(self@.resources[i as int]));
                    lemma_first_index_is(self@.resources, wanted, i as int);
                }
                return match self.resource_id_to_chapter(self.resources[i].id.as_str()) {
                    Some(page) => Some(page),
                    None => Some(1),
                };
            }
            assert(!wanted(self@.resources[i as int]));
            i += 1;
        }
        proof {
            lemma_first_index_none(self@.resources, wanted);
        }
        None
    }

    /// The text of `page`.
    pub fn page_text(&self, page: usize) -> (text: Option<String>)
        ensures
            match text {
                Some(text) => self@.page_text(page as int) == Some(text@),
                None => self@.page_text(page as int) is None,
            },
    {
        if page > 0 && page <= self.last_page() {
            match &self.spine[page].text {
                Some(text) => Some(text.clone()),
                None => None,
            }
        } else {
            None
        }
    }

    /// The path of the resource that `page` is.
    pub fn page_path(&self, page: usize) -> (path: Option<String>)
        ensures
            match path {
                Some(path) => self@.page_path(page as int) == Some(path@),
                None => self@.page_path(page as int) is None,
            },
    {
        if page >= self.spine.len() {
            return None;
        }
        let ghost id = self@.spine[page as int].id;
        let ghost wanted = |resource: ResourceView| resource.id == id;
        let mut i: usize = 0;
        while i < self.resources.len()
            invariant
                i <= self.resources.len(),
                page < self.spine.len(),
                id == self@.spine[page as int].id,
                wanted == (|resource: ResourceView| resource.id == id),
                forall|j: int| 0 <= j < i ==> !wanted(#[trigger] self@.resources[j]),
            decreases self.resources.len() - i,
        {
            if self.resources[i].id == self.spine[page].id {
                proof {
                    assert(wanted(self@.resources[i as int]));
                    lemma_first_index_is(self@.resources, wanted, i as int);
                }
                return Some(self.resources[i].path.clone());
            }
            assert(!wanted(self@.resources[i as int]));
            i += 1;
        }
        proof {
            lemma_first_index_none(self@.resources, wanted);
        }
        None
    }

    /// The first page that holds `text`.
    pub fn page_with(&self, text: &str) -> (found: Option<usize>)
        ensures
            match found {
                Some(page) => self@.page_with(text@) == Some(page as int),
                None => self@.page_with(text@) is None,
            },
    {
        let last = self.last_page();
        let mut page: usize = 1;
        while page <= last
            invariant
                1 <= page <= last + 1,
                last == self@.last_page(),
                last < self.spine.len() || last == 0,
                forall|earlier: int|
                    self@.has_page(earlier) && earlier < page ==> !self@.search_ends_at(
                        text@,
                        earlier,
                    ),
            decreases last + 1 - page,
        {
            match &self.spine[page].text {
                Some(content) => {
                    if contains(content.as_str(), text) {
                        proof {
                            self@.lemma_first_end_of_search(text@, page as int);
                        }
                        return Some(page);
                    }
                },
                None => {
                    proof {
                        self@.lemma_first_end_of_search(text@, page as int);
                    }
                    return None;
                },
            }
            page += 1;
        }
        None
    }
}

impl DocumentView {
    /// The page at which a search ends first is the one that `page_with`
    /// goes by.
    pub proof fn lemma_first_end_of_search(self, text: Seq<char>, page: int)
        requires
            self.has_page(page),
            self.search_ends_at(text, page),
            forall|earlier: int|
                self.has_page(earlier) && earlier < page ==> !self.search_ends_at(text, earlier),
        ensures
            self.page_with(text) == if self.spine[page].text is Some {
                Some(page)
            } else {
                None
            },
    {
        let chosen = choose|p: int|
            self.has_page(p) && self.search_ends_at(text, p) && forall|earlier: int|
                self.has_page(earlier) && earlier < p ==> !self.search_ends_at(text, earlier);
        assert(chosen == page) by {
            if chosen < page {
                assert(!self.search_ends_at(text, chosen));
            }
            if page < chosen {
                assert(!self.search_ends_at(text, page));
            }
        }
    }
}

} // verus!
