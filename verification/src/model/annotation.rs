//! Annotated text: the lines that a page of HTML is turned into before
//! it is styled. A line is a sequence of elements; an element is either a
//! fragment of text with the tags that apply to it, or a marker that
//! holds no text.

use vstd::prelude::*;

verus! {

/// A tag that the HTML gave to a run of text.
#[derive(Debug)]
pub enum Annotation {
    /// Normal text.
    Default,
    /// A link, with its target.
    Link(String),
    /// The title text of an image.
    Image,
    /// Emphasised text.
    Emphasis,
    /// Strong text.
    Strong,
    /// Struck out text.
    Strikeout,
    /// Code.
    Code,
    /// Preformatted text; `true` on the continuation of a line that was too
    /// long.
    Preformat(bool),
}

/// What an [`Annotation`] is in contracts.
pub enum AnnotationView {
    Default,
    Link(Seq<char>),
    Image,
    Emphasis,
    Strong,
    Strikeout,
    Code,
    Preformat(bool),
}

impl DeepView for Annotation {
    type V = AnnotationView;

    open spec fn deep_view(&self) -> AnnotationView {
        match *self {
            Annotation::Default => AnnotationView::Default,
            Annotation::Link(target) => AnnotationView::Link(target@),
            Annotation::Image => AnnotationView::Image,
            Annotation::Emphasis => AnnotationView::Emphasis,
            Annotation::Strong => AnnotationView::Strong,
            Annotation::Strikeout => AnnotationView::Strikeout,
            Annotation::Code => AnnotationView::Code,
            Annotation::Preformat(cont) => AnnotationView::Preformat(cont),
        }
    }
}

impl View for Annotation {
    type V = AnnotationView;

    open spec fn view(&self) -> AnnotationView {
        self.deep_view()
    }
}

impl Clone for Annotation {
    fn clone(&self) -> (copy: Annotation)
        ensures
            copy@ == self@,
    {
        match self {
            Annotation::Default => Annotation::Default,
            Annotation::Link(target) => Annotation::Link(target.clone()),
            Annotation::Image => Annotation::Image,
            Annotation::Emphasis => Annotation::Emphasis,
            Annotation::Strong => Annotation::Strong,
            Annotation::Strikeout => Annotation::Strikeout,
            Annotation::Code => Annotation::Code,
            Annotation::Preformat(cont) => Annotation::Preformat(*cont),
        }
    }
}

/// A run of text and the tags that apply to it, the outermost first.
#[derive(Clone, Debug)]
pub struct TextFragment {
    pub text: String,
    pub tags: Vec<Annotation>,
}

/// What a [`TextFragment`] is in contracts.
pub struct TextFragmentView {
    pub text: Seq<char>,
    pub tags: Seq<AnnotationView>,
}

impl DeepView for TextFragment {
    type V = TextFragmentView;

    open spec fn deep_view(&self) -> TextFragmentView {
        TextFragmentView { text: self.text@, tags: self.tags.deep_view() }
    }
}

impl View for TextFragment {
    type V = TextFragmentView;

    open spec fn view(&self) -> TextFragmentView {
        self.deep_view()
    }
}

/// One element of a line.
#[derive(Clone, Debug)]
pub enum LineElement {
    /// Text with its tags.
    Text(TextFragment),
    /// The start of a named part of the document. It has no width and no
    /// text.
    FragmentStart(String),
}

/// What a [`LineElement`] is in contracts.
pub enum LineElementView {
    Text(TextFragmentView),
    FragmentStart(Seq<char>),
}

impl DeepView for LineElement {
    type V = LineElementView;

    open spec fn deep_view(&self) -> LineElementView {
        match *self {
            LineElement::Text(fragment) => LineElementView::Text(fragment.deep_view()),
            LineElement::FragmentStart(name) => LineElementView::FragmentStart(name@),
        }
    }
}

impl View for LineElement {
    type V = LineElementView;

    open spec fn view(&self) -> LineElementView {
        self.deep_view()
    }
}

/// A line of annotated text.
#[derive(Clone, Debug)]
pub struct AnnotatedLine {
    pub elements: Vec<LineElement>,
}

impl DeepView for AnnotatedLine {
    type V = Seq<LineElementView>;

    open spec fn deep_view(&self) -> Seq<LineElementView> {
        self.elements.deep_view()
    }
}

impl View for AnnotatedLine {
    type V = Seq<LineElementView>;

    open spec fn view(&self) -> Seq<LineElementView> {
        self.deep_view()
    }
}

/// The text fragments of a line, in order, without its markers.
pub open spec fn text_fragments(line: Seq<LineElementView>) -> Seq<TextFragmentView>
    decreases line.len(),
{
    if line.len() == 0 {
        Seq::empty()
    } else {
        match line.last() {
            LineElementView::Text(fragment) => text_fragments(line.drop_last()).push(fragment),
            LineElementView::FragmentStart(_) => text_fragments(line.drop_last()),
        }
    }
}

impl AnnotatedLine {
    /// A line of the given elements.
    pub fn new(elements: Vec<LineElement>) -> (line: AnnotatedLine)
        ensures
            line.elements == elements,
    {
        AnnotatedLine { elements }
    }

    /// Whether the line has no element at all.
    pub fn is_empty(&self) -> (empty: bool)
        ensures
            empty == (self@.len() == 0),
    {
        self.elements.len() == 0
    }

    /// Whether the line has at least one text fragment.
    pub fn has_text(&self) -> (found: bool)
        ensures
            found == (text_fragments(self@).len() > 0),
    {
        let mut i: usize = 0;
        while i < self.elements.len()
            invariant
                i <= self.elements.len(),
                text_fragments(self@.take(i as int)).len() == 0,
            decreases self.elements.len() - i,
        {
            proof {
                assert(self@.take(i + 1).drop_last() == self@.take(i as int));
                assert(self@.take(i + 1).last() == self.elements[i as int].deep_view());
            }
            match &self.elements[i] {
                LineElement::Text(_) => {
                    proof {
                        lemma_text_fragments_prefix(self@, i + 1);
                    }
                    return true;
                },
                LineElement::FragmentStart(_) => {},
            }
            i += 1;
        }
        proof {
            assert(self@.take(i as int) == self@);
        }
        false
    }
}

/// A prefix of a line has no more text fragments than the line.
pub proof fn lemma_text_fragments_prefix(line: Seq<LineElementView>, n: int)
    requires
        0 <= n <= line.len(),
    ensures
        text_fragments(line.take(n)).len() <= text_fragments(line).len(),
    decreases line.len(),
{
    if n == line.len() {
        assert(line.take(n) == line);
    } else {
        assert(line.drop_last().take(n) == line.take(n));
        lemma_text_fragments_prefix(line.drop_last(), n);
    }
}

} // verus!
