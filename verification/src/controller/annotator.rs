//! The step before styling: html2text reads a page of HTML and hands back
//! lines of annotated text.

use vstd::prelude::*;
use html2text::render::text_renderer::{RichAnnotation, TaggedLineElement};
use crate::controller::layout::can_be_laid_out;
use crate::model::annotation::{AnnotatedLine, Annotation, LineElement, LineElementView, TextFragment};

verus! {

/// The tags of html2text's rich rendering.
#[verifier::external_type_specification]
#[verifier::external_body]
pub struct ExRichAnnotation(RichAnnotation);

/// The lines that `html2text::from_read_rich` makes of the HTML `page`,
/// wrapped to `width` columns.
pub uninterp spec fn rich_text(page: Seq<char>, width: nat) -> Seq<Seq<LineElementView>>;

/// The text that `html2text::from_read` makes of the HTML `page`, wrapped
/// to `width` columns.
pub uninterp spec fn plain_text(page: Seq<char>, width: nat) -> Seq<char>;

/// Calls `html2text::from_read` on the bytes of `page`. The result is a
/// function of `page` and `width` alone; what it is, html2text decides.
/// html2text 0.4 reports no error: it stops or does not come back where a
/// column gets narrower than a character of its text, on some tables, on an
/// ordered list whose numbers leave 64 bits, and on a word that is wider
/// than its characters are one by one. `requires` leaves out every page on
/// which that can happen.
#[verifier::external_body]
pub(crate) fn plain_lines(page: &str, width: usize) -> (text: String)
    requires
        can_be_laid_out(page@, width as nat),
    ensures
        text@ == plain_text(page@, width as nat),
{
    html2text::from_read(page.as_bytes(), width)
}

/// One tag of html2text as a tag of this library: the same variant with the
/// same field.
#[verifier::external_body]
pub(crate) fn annotation_of(tag: &RichAnnotation) -> Annotation {
    match tag {
        RichAnnotation::Default => Annotation::Default,
        RichAnnotation::Link(target) => Annotation::Link(target.clone()),
        RichAnnotation::Image => Annotation::Image,
        RichAnnotation::Emphasis => Annotation::Emphasis,
        RichAnnotation::Strong => Annotation::Strong,
        RichAnnotation::Strikeout => Annotation::Strikeout,
        RichAnnotation::Code => Annotation::Code,
        RichAnnotation::Preformat(cont) => Annotation::Preformat(*cont),
    }
}

/// Calls `html2text::from_read_rich` on the bytes of `page` and hands its
/// lines over element by element: a tagged string becomes a text fragment
/// with the same text and tags, the start of a fragment stays one. The
/// result is a function of `page` and `width` alone; what it is, html2text
/// decides. html2text 0.4 reports no error: it stops or does not come back
/// where a column gets narrower than a character of its text, on some
/// tables, on an ordered list whose numbers leave 64 bits, and on a word
/// that is wider than its characters are one by one. `requires` leaves out
/// every page on which that can happen.
#[verifier::external_body]
pub(crate) fn rich_lines(page: &str, width: usize) -> (lines: Vec<AnnotatedLine>)
    requires
        can_be_laid_out(page@, width as nat),
    ensures
        lines.deep_view() == rich_text(page@, width as nat),
{
    let lines = html2text::from_read_rich(page.as_bytes(), width);
    lines.iter().map(|line| AnnotatedLine {
        elements: line.iter().map(|element| match element {
            TaggedLineElement::Str(ts) => LineElement::Text(TextFragment {
                text: ts.s.clone(),
                tags: ts.tag.iter().map(annotation_of).collect(),
            }),
            TaggedLineElement::FragmentStart(name) => LineElement::FragmentStart(name.clone()),
        }).collect(),
    }).collect()
}

} // verus!
