//! From a page of HTML to styled blocks. The page is first turned into
//! annotated lines; each line then becomes the blocks that its tags ask
//! for.

use vstd::prelude::*;
use crate::controller::annotator::{rich_lines, rich_text};
use crate::controller::layout::{can_be_laid_out, can_lay_out};
use crate::helper::config::{DEFAULT_FONT_SIZE, PAGE_WIDTH};
use crate::helper::text::chars_of;
use crate::model::annotation::{
    text_fragments, AnnotatedLine, Annotation, AnnotationView, LineElement, LineElementView,
    TextFragmentView,
};
use crate::model::styled_block::{FontDescriptor, FontFamily, StyledBlock, StyledBlockView, TextColor};

verus! {

/// The marker that opens a heading of the given level: that many `#`, then
/// one space.
pub open spec fn heading_marker(level: int) -> Seq<char> {
    Seq::new((level + 1) as nat, |i: int| if i < level { '#' } else { ' ' })
}

/// The level of the heading that `s` is the marker of, or 0 if `s` is no
/// marker.
pub open spec fn heading_level(s: Seq<char>) -> i32 {
    if s == heading_marker(1) {
        1
    } else if s == heading_marker(2) {
        2
    } else if s == heading_marker(3) {
        3
    } else if s == heading_marker(4) {
        4
    } else if s == heading_marker(5) {
        5
    } else if s == heading_marker(6) {
        6
    } else {
        0
    }
}

/// The size of a heading of level `h`, in hundredths of a pixel; for a level
/// that is none of 1 to 6, `default_size`.
pub open spec fn heading_size(h: i32, default_size: i64) -> i64 {
    if h == 1 {
        3200
    } else if h == 2 {
        2400
    } else if h == 3 {
        1872
    } else if h == 4 {
        1600
    } else if h == 5 {
        1328
    } else if h == 6 {
        1072
    } else {
        default_size
    }
}

/// Tells whether `s` is a heading marker. The first part of the result is
/// the level, 1 to 6, and 0 where `s` is no marker; the second part says
/// whether `s` is a marker, which is then left out of the line's text.
pub fn check_h(s: &str) -> (r: (i32, bool))
    ensures
        r.0 == heading_level(s@),
        r.1 == (heading_level(s@) > 0),
{
    let chars = chars_of(s);
    let n = chars.len();
    if n < 2 || n > 7 {
        return (0, false);
    }
    if chars[n - 1] != ' ' {
        assert(s@[n - 1] != heading_marker(n - 1)[n - 1]);
        return (0, false);
    }
    let mut i: usize = 0;
    while i < n - 1
        invariant
            2 <= n <= 7,
            n == chars@.len(),
            chars@ == s@,
            i <= n - 1,
            forall|j: int| 0 <= j < i ==> chars@[j] == '#',
        decreases n - i,
    {
        if chars[i] != '#' {
            assert(chars@[i as int] != heading_marker(n - 1)[i as int]);
            return (0, false);
        }
        i += 1;
    }
    assert(chars@ =~= heading_marker(n - 1));
    ((n - 1) as i32, true)
}

/// The size of a heading of level `h`, in hundredths of a pixel. A level
/// that is none of 1 to 6 has no size of its own and gets `default_size`.
pub fn h_font_size(h: i32, default_size: i64) -> (size: i64)
    ensures
        size == heading_size(h, default_size),
{
    match h {
        1 => 3200,
        2 => 2400,
        3 => 1872,
        4 => 1600,
        5 => 1328,
        6 => 1072,
        _ => default_size,
    }
}

/// Body text in the font of the user interface.
pub open spec fn default_block(s: Seq<char>, font_size_offset: i32) -> StyledBlockView {
    StyledBlockView {
        text: s,
        heading_level: 0,
        font: FontDescriptor {
            family: FontFamily::SystemUi,
            size: (DEFAULT_FONT_SIZE + font_size_offset) as i64,
            bold: false,
            italic: false,
        },
        color: TextColor::Default,
        link: None,
    }
}

/// A heading of level `h`: bold, without serifs, in the size of its level.
pub open spec fn heading_block(s: Seq<char>, h: i32, font_size_offset: i32) -> StyledBlockView {
    StyledBlockView {
        text: s,
        heading_level: h,
        font: FontDescriptor {
            family: FontFamily::SansSerif,
            size: (heading_size(h, DEFAULT_FONT_SIZE) + font_size_offset) as i64,
            bold: true,
            italic: false,
        },
        color: TextColor::Default,
        link: None,
    }
}

/// The block of a line without tags: a heading where `h` is positive, body
/// text otherwise.
pub open spec fn no_tag_block(s: Seq<char>, h: i32, font_size_offset: i32) -> StyledBlockView {
    if h > 0 {
        heading_block(s, h, font_size_offset)
    } else {
        default_block(s, font_size_offset)
    }
}

/// The block of emphasised text: italic, and bold in the size of its level
/// where `h` is positive.
pub open spec fn emphasis_block(s: Seq<char>, h: i32, font_size_offset: i32) -> StyledBlockView {
    if h > 0 {
        StyledBlockView {
            text: s,
            heading_level: h,
            font: FontDescriptor {
                family: FontFamily::SystemUi,
                size: (heading_size(h, DEFAULT_FONT_SIZE) + font_size_offset) as i64,
                bold: true,
                italic: true,
            },
            color: TextColor::Default,
            link: None,
        }
    } else {
        StyledBlockView {
            text: s,
            heading_level: 0,
            font: FontDescriptor {
                family: FontFamily::SystemUi,
                size: (DEFAULT_FONT_SIZE + font_size_offset) as i64,
                bold: false,
                italic: true,
            },
            color: TextColor::Default,
            link: None,
        }
    }
}

/// The block of a link: in the accent colour, in the size of its level
/// where `h` is positive, and with the target that a click leads to.
pub open spec fn link_block(
    s: Seq<char>,
    h: i32,
    font_size_offset: i32,
    target: Seq<char>,
) -> StyledBlockView {
    StyledBlockView {
        text: s,
        heading_level: if h > 0 { h } else { 0 },
        font: FontDescriptor {
            family: FontFamily::SystemUi,
            size: if h > 0 {
                (heading_size(h, DEFAULT_FONT_SIZE) + font_size_offset) as i64
            } else {
                (DEFAULT_FONT_SIZE + font_size_offset) as i64
            },
            bold: false,
            italic: false,
        },
        color: TextColor::Aqua,
        link: Some(target),
    }
}

/// The block of a line without tags.
pub fn no_tag(s: &str, h: i32, font_size_offset: i32) -> (block: StyledBlock)
    ensures
        block@ == no_tag_block(s@, h, font_size_offset),
{
    if h > 0 {
        return h_label(s, h, font_size_offset);
    }
    default(s, font_size_offset)
}

/// The block of emphasised text.
pub fn emphasis(s: &str, h: i32, font_size_offset: i32) -> (block: StyledBlock)
    ensures
        block@ == emphasis_block(s@, h, font_size_offset),
{
    if h > 0 {
        return h_label_emphasis(s, h, font_size_offset);
    }
    default_with_descriptor(
        s,
        FontDescriptor {
            family: FontFamily::SystemUi,
            size: DEFAULT_FONT_SIZE + font_size_offset as i64,
            bold: false,
            italic: true,
        },
    )
}

/// The block of a link to `target`.
pub fn link(s: &str, h: i32, font_size_offset: i32, target: String) -> (block: StyledBlock)
    ensures
        block@ == link_block(s@, h, font_size_offset, target@),
{
    let mut block = if h > 0 {
        h_label_link(s, h, font_size_offset)
    } else {
        default_with_color(s, TextColor::Aqua, font_size_offset)
    };
    block.link = Some(target);
    block
}

/// Body text in the default colour.
pub fn default(s: &str, font_size_offset: i32) -> (block: StyledBlock)
    ensures
        block@ == default_block(s@, font_size_offset),
{
    default_with_color(s, TextColor::Default, font_size_offset)
}

/// Body text in the given colour.
pub fn default_with_color(s: &str, color: TextColor, font_size_offset: i32) -> (block:
    StyledBlock)
    ensures
        block@ == (StyledBlockView { color: color, ..default_block(s@, font_size_offset) }),
{
    StyledBlock {
        text: s.to_owned(),
        heading_level: 0,
        font: FontDescriptor {
            family: FontFamily::SystemUi,
            size: DEFAULT_FONT_SIZE + font_size_offset as i64,
            bold: false,
            italic: false,
        },
        color,
        link: None,
    }
}

/// Body text in the given font.
pub fn default_with_descriptor(s: &str, descr: FontDescriptor) -> (block: StyledBlock)
    ensures
        block@ == (StyledBlockView {
            text: s@,
            heading_level: 0,
            font: descr,
            color: TextColor::Default,
            link: None,
        }),
{
    StyledBlock {
        text: s.to_owned(),
        heading_level: 0,
        font: descr,
        color: TextColor::Default,
        link: None,
    }
}

/// A heading of level `h`.
pub fn h_label(s: &str, h: i32, font_size_offset: i32) -> (block: StyledBlock)
    ensures
        block@ == heading_block(s@, h, font_size_offset),
{
    StyledBlock {
        text: s.to_owned(),
        heading_level: h,
        font: FontDescriptor {
            family: FontFamily::SansSerif,
            size: h_font_size(h, DEFAULT_FONT_SIZE) + font_size_offset as i64,
            bold: true,
            italic: false,
        },
        color: TextColor::Default,
        link: None,
    }
}

/// An emphasised heading of level `h`.
pub fn h_label_emphasis(s: &str, h: i32, font_size_offset: i32) -> (block: StyledBlock)
    ensures
        block@ == (StyledBlockView {
            text: s@,
            heading_level: h,
            font: FontDescriptor {
                family: FontFamily::SystemUi,
                size: (heading_size(h, DEFAULT_FONT_SIZE) + font_size_offset) as i64,
                bold: true,
                italic: true,
            },
            color: TextColor::Default,
            link: None,
        }),
{
    StyledBlock {
        text: s.to_owned(),
        heading_level: h,
        font: FontDescriptor {
            family: FontFamily::SystemUi,
            size: h_font_size(h, DEFAULT_FONT_SIZE) + font_size_offset as i64,
            bold: true,
            italic: true,
        },
        color: TextColor::Default,
        link: None,
    }
}

/// A heading of level `h` in the colour of a link. It has no target yet.
pub fn h_label_link(s: &str, h: i32, font_size_offset: i32) -> (block: StyledBlock)
    ensures
        block@ == (StyledBlockView {
            text: s@,
            heading_level: h,
            font: FontDescriptor {
                family: FontFamily::SystemUi,
                size: (heading_size(h, DEFAULT_FONT_SIZE) + font_size_offset) as i64,
                bold: false,
                italic: false,
            },
            color: TextColor::Aqua,
            link: None,
        }),
{
    StyledBlock {
        text: s.to_owned(),
        heading_level: h,
        font: FontDescriptor {
            family: FontFamily::SystemUi,
            size: h_font_size(h, DEFAULT_FONT_SIZE) + font_size_offset as i64,
            bold: false,
            italic: false,
        },
        color: TextColor::Aqua,
        link: None,
    }
}

/// Whether a line is left out of the page: it has elements, and none of them
/// is text.
pub open spec fn is_skipped(line: Seq<LineElementView>) -> bool {
    line.len() > 0 && text_fragments(line).len() == 0
}

/// The heading level of a line with the given text fragments: that of the
/// marker that its first fragment is, and 0 where the first fragment is no
/// marker or the line has no fragment.
pub open spec fn line_heading(fragments: Seq<TextFragmentView>) -> i32 {
    if fragments.len() > 0 {
        heading_level(fragments[0].text)
    } else {
        0
    }
}

/// The fragments that a line shows: all of them but a heading marker at the
/// front.
pub open spec fn shown_fragments(fragments: Seq<TextFragmentView>) -> Seq<TextFragmentView> {
    if line_heading(fragments) > 0 {
        fragments.drop_first()
    } else {
        fragments
    }
}

/// The texts of the fragments, one after the other with nothing in between.
pub open spec fn collected_text(fragments: Seq<TextFragmentView>) -> Seq<char>
    decreases fragments.len(),
{
    if fragments.len() == 0 {
        Seq::empty()
    } else {
        collected_text(fragments.drop_last()) + fragments.last().text
    }
}

/// The tags of the fragments, in the order in which they occur.
pub open spec fn collected_tags(fragments: Seq<TextFragmentView>) -> Seq<AnnotationView>
    decreases fragments.len(),
{
    if fragments.len() == 0 {
        Seq::empty()
    } else {
        collected_tags(fragments.drop_last()) + fragments.last().tags
    }
}

/// The blocks that one tag adds to a line with the given text: one for a
/// link, one for emphasis, none for any other tag.
pub open spec fn tag_blocks(
    tag: AnnotationView,
    text: Seq<char>,
    h: i32,
    font_size_offset: i32,
) -> Seq<StyledBlockView> {
    match tag {
        AnnotationView::Link(target) => seq![link_block(text, h, font_size_offset, target)],
        AnnotationView::Emphasis => seq![emphasis_block(text, h, font_size_offset)],
        AnnotationView::Default => Seq::empty(),
        AnnotationView::Image => Seq::empty(),
        AnnotationView::Strong => Seq::empty(),
        AnnotationView::Strikeout => Seq::empty(),
        AnnotationView::Code => Seq::empty(),
        AnnotationView::Preformat(_) => Seq::empty(),
    }
}

/// The blocks that the tags add, tag by tag in their order.
pub open spec fn tagged_blocks(
    tags: Seq<AnnotationView>,
    text: Seq<char>,
    h: i32,
    font_size_offset: i32,
) -> Seq<StyledBlockView>
    decreases tags.len(),
{
    if tags.len() == 0 {
        Seq::empty()
    } else {
        tagged_blocks(tags.drop_last(), text, h, font_size_offset) + tag_blocks(
            tags.last(),
            text,
            h,
            font_size_offset,
        )
    }
}

/// The blocks of one line. A skipped line has none. Any other line has the
/// text of its shown fragments; without tags it is one plain block, with
/// tags it is the blocks that the tags add.
pub open spec fn line_blocks(line: Seq<LineElementView>, font_size_offset: i32) -> Seq<
    StyledBlockView,
> {
    if is_skipped(line) {
        Seq::empty()
    } else {
        let fragments = text_fragments(line);
        let h = line_heading(fragments);
        let text = collected_text(shown_fragments(fragments));
        let tags = collected_tags(shown_fragments(fragments));
        if tags.len() == 0 {
            seq![no_tag_block(text, h, font_size_offset)]
        } else {
            tagged_blocks(tags, text, h, font_size_offset)
        }
    }
}

/// The blocks of a page: those of its lines, from the first line to the
/// last.
pub open spec fn page_blocks(lines: Seq<Seq<LineElementView>>, font_size_offset: i32) -> Seq<
    StyledBlockView,
>
    decreases lines.len(),
{
    if lines.len() == 0 {
        Seq::empty()
    } else {
        page_blocks(lines.drop_last(), font_size_offset) + line_blocks(
            lines.last(),
            font_size_offset,
        )
    }
}

/// Tells whether a line is left out of the page.
pub fn skip_line(line: &AnnotatedLine) -> (skip: bool)
    ensures
        skip == is_skipped(line@),
{
    !line.is_empty() && !line.has_text()
}

/// What one more fragment does to the heading level and to the shown
/// fragments of a line.
proof fn lemma_fragment_added(fragments: Seq<TextFragmentView>, fragment: TextFragmentView)
    ensures
        line_heading(fragments.push(fragment)) == if fragments.len() == 0 {
            heading_level(fragment.text)
        } else {
            line_heading(fragments)
        },
        shown_fragments(fragments.push(fragment)) == if fragments.len() == 0
            && heading_level(fragment.text) > 0 {
            Seq::<TextFragmentView>::empty()
        } else {
            shown_fragments(fragments).push(fragment)
        },
{
    let longer = fragments.push(fragment);
    if fragments.len() == 0 {
        assert(longer.drop_first() =~= Seq::<TextFragmentView>::empty());
        assert(shown_fragments(fragments) =~= Seq::<TextFragmentView>::empty());
    } else {
        assert(longer[0] == fragments[0]);
        assert(longer.drop_first() =~= fragments.drop_first().push(fragment));
    }
}

/// The blocks that the tags add to a line with the given text.
fn styled_by_tags(tags: &Vec<Annotation>, text: &str, h: i32, font_size_offset: i32) -> (blocks:
    Vec<StyledBlock>)
    ensures
        blocks.deep_view() == tagged_blocks(tags.deep_view(), text@, h, font_size_offset),
{
    let mut blocks: Vec<StyledBlock> = Vec::new();
    let mut i: usize = 0;
    assert(blocks.deep_view() =~= Seq::<StyledBlockView>::empty());
    while i < tags.len()
        invariant
            i <= tags.len(),
            blocks.deep_view() == tagged_blocks(
                tags.deep_view().take(i as int),
                text@,
                h,
                font_size_offset,
            ),
        decreases tags.len() - i,
    {
        let ghost before = blocks.deep_view();
        proof {
            let next = tags.deep_view().take(i + 1);
            assert(next.drop_last() =~= tags.deep_view().take(i as int));
            assert(next.last() == tags[i as int].deep_view());
        }
        match &tags[i] {
            Annotation::Default => {},
            Annotation::Link(target) => {
                blocks.push(link(text, h, font_size_offset, target.clone()));
            },
            Annotation::Image => {},
            Annotation::Emphasis => {
                blocks.push(emphasis(text, h, font_size_offset));
            },
            Annotation::Strong => {},
            Annotation::Strikeout => {},
            Annotation::Code => {},
            Annotation::Preformat(_) => {},
        }
        assert(blocks.deep_view() =~= before + tag_blocks(
            tags[i as int].deep_view(),
            text@,
            h,
            font_size_offset,
        ));
        i += 1;
    }
    assert(tags.deep_view().take(i as int) =~= tags.deep_view());
    blocks
}

/// Styles one line: the blocks that it adds to the page.
pub fn render_line(line: &AnnotatedLine, font_size_offset: i32) -> (blocks: Vec<StyledBlock>)
    ensures
        blocks.deep_view() == line_blocks(line@, font_size_offset),
{
    if skip_line(line) {
        let blocks: Vec<StyledBlock> = Vec::new();
        assert(blocks.deep_view() =~= Seq::<StyledBlockView>::empty());
        return blocks;
    }
    let mut h: i32 = 0;
    let mut seen_fragment = false;
    let mut text = String::new();
    let mut tags: Vec<Annotation> = Vec::new();
    let mut i: usize = 0;
    assert(tags.deep_view() =~= Seq::<AnnotationView>::empty());
    while i < line.elements.len()
        invariant
            i <= line.elements.len(),
            seen_fragment == (text_fragments(line@.take(i as int)).len() > 0),
            h == line_heading(text_fragments(line@.take(i as int))),
            text@ == collected_text(shown_fragments(text_fragments(line@.take(i as int)))),
            tags.deep_view() == collected_tags(
                shown_fragments(text_fragments(line@.take(i as int))),
            ),
        decreases line.elements.len() - i,
    {
        let ghost seen = text_fragments(line@.take(i as int));
        proof {
            let next = line@.take(i + 1);
            assert(next.drop_last() =~= line@.take(i as int));
            assert(next.last() == line.elements[i as int].deep_view());
        }
        match &line.elements[i] {
            LineElement::Text(fragment) => {
                proof {
                    lemma_fragment_added(seen, fragment.deep_view());
                    let shown = shown_fragments(seen.push(fragment.deep_view()));
                    if !(seen.len() == 0 && heading_level(fragment.text@) > 0) {
                        assert(shown.drop_last() =~= shown_fragments(seen));
                    }
                }
                let mut consumed = false;
                if !seen_fragment {
                    let (level, marker) = check_h(fragment.text.as_str());
                    h = level;
                    consumed = marker;
                    seen_fragment = true;
                }
                if !consumed {
                    text.append(fragment.text.as_str());
                    let mut j: usize = 0;
                    let ghost tags_before = tags.deep_view();
                    while j < fragment.tags.len()
                        invariant
                            j <= fragment.tags.len(),
                            tags.deep_view() == tags_before + fragment.tags.deep_view().take(
                                j as int,
                            ),
                        decreases fragment.tags.len() - j,
                    {
                        let ghost so_far = tags.deep_view();
                        tags.push(fragment.tags[j].clone());
                        assert(tags.deep_view() =~= so_far.push(fragment.tags[j as int].deep_view()));
                        assert(fragment.tags.deep_view().take(j + 1) =~= fragment.tags.deep_view().take(
                            j as int,
                        ).push(fragment.tags[j as int].deep_view()));
                        j += 1;
                    }
                    assert(fragment.tags.deep_view().take(j as int) =~= fragment.tags.deep_view());
                }
            },
            LineElement::FragmentStart(_) => {},
        }
        i += 1;
    }
    assert(line@.take(i as int) =~= line@);
    if tags.len() == 0 {
        let mut blocks: Vec<StyledBlock> = Vec::new();
        blocks.push(no_tag(text.as_str(), h, font_size_offset));
        assert(blocks.deep_view() =~= seq![no_tag_block(text@, h, font_size_offset)]);
        blocks
    } else {
        styled_by_tags(&tags, text.as_str(), h, font_size_offset)
    }
}

/// Styles the lines of a page: the blocks of every line that is not
/// skipped, from the first line to the last.
pub fn render(lines: &Vec<AnnotatedLine>, font_size_offset: i32) -> (blocks: Vec<StyledBlock>)
    ensures
        blocks.deep_view() == page_blocks(lines.deep_view(), font_size_offset),
{
    let mut blocks: Vec<StyledBlock> = Vec::new();
    let mut i: usize = 0;
    assert(blocks.deep_view() =~= Seq::<StyledBlockView>::empty());
    while i < lines.len()
        invariant
            i <= lines.len(),
            blocks.deep_view() == page_blocks(lines.deep_view().take(i as int), font_size_offset),
        decreases lines.len() - i,
    {
        let ghost before = blocks.deep_view();
        proof {
            let next = lines.deep_view().take(i + 1);
            assert(next.drop_last() =~= lines.deep_view().take(i as int));
            assert(next.last() == lines[i as int].deep_view());
        }
        let mut of_line = render_line(&lines[i], font_size_offset);
        let ghost added = of_line.deep_view();
        blocks.append(&mut of_line);
        assert(blocks.deep_view() =~= before + added);
        i += 1;
    }
    assert(lines.deep_view().take(i as int) =~= lines.deep_view());
    blocks
}

/// Styles a page of HTML: the page is turned into annotated lines, wrapped
/// to [`PAGE_WIDTH`] columns, and the lines are styled by [`render`]. A page
/// that cannot be laid out in that width is not styled, and `None` is
/// returned.
pub fn parse(page: &str, font_size_offset: i32) -> (blocks: Option<Vec<StyledBlock>>)
    ensures
        match blocks {
            Some(blocks) => can_be_laid_out(page@, PAGE_WIDTH as nat) && blocks.deep_view()
                == page_blocks(rich_text(page@, PAGE_WIDTH as nat), font_size_offset),
            None => !can_be_laid_out(page@, PAGE_WIDTH as nat),
        },
{
    if !can_lay_out(page, PAGE_WIDTH) {
        return None;
    }
    let lines = rich_lines(page, PAGE_WIDTH);
    Some(render(&lines, font_size_offset))
}

} // verus!
