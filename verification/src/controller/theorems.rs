//! What holds of the styling of every page.

use vstd::prelude::*;
use crate::controller::parser::{
    collected_tags, collected_text, emphasis_block, heading_block, heading_level, heading_marker,
    heading_size, is_skipped, line_blocks, line_heading, page_blocks, shown_fragments, tag_blocks,
    tagged_blocks,
};
use crate::helper::config::DEFAULT_FONT_SIZE;
use crate::model::annotation::{
    text_fragments, AnnotationView, LineElementView, TextFragmentView,
};
use crate::model::styled_block::StyledBlockView;

verus! {

/// The six heading markers are the strings `"# "` to `"###### "`, and
/// each has the level of its number of `#`.
pub proof fn heading_markers_are_the_six_strings()
    ensures
        heading_marker(1) == "# "@,
        heading_marker(2) == "## "@,
        heading_marker(3) == "### "@,
        heading_marker(4) == "#### "@,
        heading_marker(5) == "##### "@,
        heading_marker(6) == "###### "@,
        forall|level: int| 1 <= level <= 6 ==> heading_level(#[trigger] heading_marker(level)) == level,
{
    reveal_strlit("# ");
    reveal_strlit("## ");
    reveal_strlit("### ");
    reveal_strlit("#### ");
    reveal_strlit("##### ");
    reveal_strlit("###### ");
    assert(heading_marker(1) =~= "# "@);
    assert(heading_marker(2) =~= "## "@);
    assert(heading_marker(3) =~= "### "@);
    assert(heading_marker(4) =~= "#### "@);
    assert(heading_marker(5) =~= "##### "@);
    assert(heading_marker(6) =~= "###### "@);
    assert forall|level: int| 1 <= level <= 6 implies heading_level(
        #[trigger] heading_marker(level),
    ) == level by {
        assert(heading_marker(level).len() == level + 1);
    }
}

/// A string that is none of the six markers has heading level 0, and only
/// such a string has.
pub proof fn other_strings_are_no_marker(s: Seq<char>)
    ensures
        heading_level(s) == 0 <==> (forall|level: int| 1 <= level <= 6 ==> s != heading_marker(level)),
{
    if heading_level(s) != 0 {
        assert(s == heading_marker(heading_level(s) as int));
    }
}

/// A line that has elements is skipped if it has no text fragment, and
/// kept if it has at least one.
pub proof fn skip_filter_goes_by_text_fragments(line: Seq<LineElementView>)
    requires
        line.len() > 0,
    ensures
        text_fragments(line).len() == 0 ==> is_skipped(line),
        text_fragments(line).len() >= 1 ==> !is_skipped(line),
{
}

/// A skipped line adds nothing to the page, whatever the offset.
pub proof fn skipped_line_has_no_block(line: Seq<LineElementView>, font_size_offset: i32)
    requires
        is_skipped(line),
    ensures
        line_blocks(line, font_size_offset).len() == 0,
{
}

/// A line that is kept and has no tags is exactly one block.
pub proof fn untagged_line_is_one_block(line: Seq<LineElementView>, font_size_offset: i32)
    requires
        !is_skipped(line),
        collected_tags(shown_fragments(text_fragments(line))).len() == 0,
    ensures
        line_blocks(line, font_size_offset).len() == 1,
{
}

/// A line whose one text fragment is emphasised, and is no heading marker,
/// becomes exactly one block: in italics, and styled as body text.
pub proof fn emphasised_line_is_one_italic_block(
    line: Seq<LineElementView>,
    text: Seq<char>,
    font_size_offset: i32,
)
    requires
        text_fragments(line) == seq![
            TextFragmentView { text: text, tags: seq![AnnotationView::Emphasis] },
        ],
        heading_level(text) == 0,
    ensures
        line_blocks(line, font_size_offset) == seq![emphasis_block(text, 0, font_size_offset)],
        line_blocks(line, font_size_offset)[0].font.italic,
        !line_blocks(line, font_size_offset)[0].font.bold,
        line_blocks(line, font_size_offset)[0].heading_level == 0,
{
    let fragments = text_fragments(line);
    assert(line.len() > 0) by {
        if line.len() == 0 {
            assert(text_fragments(line).len() == 0);
        }
    }
    assert(shown_fragments(fragments) == fragments);
    assert(fragments.drop_last() =~= Seq::<TextFragmentView>::empty());
    reveal_with_fuel(collected_text, 2);
    reveal_with_fuel(collected_tags, 2);
    assert(collected_text(fragments) =~= text);
    assert(collected_tags(fragments) =~= seq![AnnotationView::Emphasis]);
    let tags = collected_tags(fragments);
    assert(tags.drop_last() =~= Seq::<AnnotationView>::empty());
    reveal_with_fuel(tagged_blocks, 2);
    assert(line_blocks(line, font_size_offset) =~= seq![
        emphasis_block(text, 0, font_size_offset),
    ]);
}

/// Fragments without tags have no tags between them.
pub proof fn untagged_fragments_collect_no_tags(fragments: Seq<TextFragmentView>)
    requires
        forall|i: int| 0 <= i < fragments.len() ==> (#[trigger] fragments[i]).tags.len() == 0,
    ensures
        collected_tags(fragments).len() == 0,
    decreases fragments.len(),
{
    if fragments.len() > 0 {
        untagged_fragments_collect_no_tags(fragments.drop_last());
    }
}

/// A line whose first text fragment is the marker of a heading of some
/// level, and whose other fragments have no tags, becomes exactly one
/// block: a heading of that level, with the text of the other fragments and
/// without the marker.
pub proof fn marked_line_is_one_heading(
    line: Seq<LineElementView>,
    level: i32,
    font_size_offset: i32,
)
    requires
        1 <= level <= 6,
        text_fragments(line).len() >= 1,
        text_fragments(line)[0].text == heading_marker(level as int),
        forall|i: int|
            1 <= i < text_fragments(line).len() ==> (#[trigger] text_fragments(line)[i]).tags.len()
                == 0,
    ensures
        line_blocks(line, font_size_offset) == seq![
            heading_block(
                collected_text(text_fragments(line).drop_first()),
                level,
                font_size_offset,
            ),
        ],
        line_blocks(line, font_size_offset)[0].heading_level == level,
        line_blocks(line, font_size_offset)[0].font.bold,
{
    heading_markers_are_the_six_strings();
    let fragments = text_fragments(line);
    assert(line_heading(fragments) == level);
    assert(shown_fragments(fragments) == fragments.drop_first());
    untagged_fragments_collect_no_tags(fragments.drop_first());
}

/// Styling has no hidden state: two runs over the same lines with the same
/// offset give the same blocks.
pub proof fn styling_is_a_function_of_its_input(
    lines: Seq<Seq<LineElementView>>,
    font_size_offset: i32,
    first: Seq<StyledBlockView>,
    second: Seq<StyledBlockView>,
)
    requires
        first == page_blocks(lines, font_size_offset),
        second == page_blocks(lines, font_size_offset),
    ensures
        first == second,
{
}

/// A page's blocks are those of its lines, in the order of the lines: the
/// blocks of two pages one after the other are the blocks of the two put
/// together.
pub proof fn blocks_follow_the_lines(
    front: Seq<Seq<LineElementView>>,
    back: Seq<Seq<LineElementView>>,
    font_size_offset: i32,
)
    ensures
        page_blocks(front + back, font_size_offset) == page_blocks(front, font_size_offset)
            + page_blocks(back, font_size_offset),
    decreases back.len(),
{
    if back.len() == 0 {
        assert(front + back =~= front);
        assert(page_blocks(front + back, font_size_offset) =~= page_blocks(front, font_size_offset)
            + page_blocks(back, font_size_offset));
    } else {
        assert((front + back).drop_last() =~= front + back.drop_last());
        assert((front + back).last() == back.last());
        blocks_follow_the_lines(front, back.drop_last(), font_size_offset);
        assert(page_blocks(front + back, font_size_offset) =~= page_blocks(front, font_size_offset)
            + page_blocks(back, font_size_offset));
    }
}

/// Whether a block is body text or a heading of level 1 to 6, in the
/// size of its level moved by the offset.
pub open spec fn has_level_and_size(block: StyledBlockView, font_size_offset: i32) -> bool {
    0 <= block.heading_level <= 6 && block.font.size == heading_size(
        block.heading_level,
        DEFAULT_FONT_SIZE,
    ) + font_size_offset
}

/// The blocks that tags add to a line of a level from 0 to 6 have that
/// level and its size.
proof fn tagged_blocks_have_level_and_size(
    tags: Seq<AnnotationView>,
    text: Seq<char>,
    h: i32,
    font_size_offset: i32,
)
    requires
        0 <= h <= 6,
    ensures
        forall|i: int|
            0 <= i < tagged_blocks(tags, text, h, font_size_offset).len() ==> has_level_and_size(
                #[trigger] tagged_blocks(tags, text, h, font_size_offset)[i],
                font_size_offset,
            ),
    decreases tags.len(),
{
    if tags.len() > 0 {
        tagged_blocks_have_level_and_size(tags.drop_last(), text, h, font_size_offset);
        let front = tagged_blocks(tags.drop_last(), text, h, font_size_offset);
        let back = tag_blocks(tags.last(), text, h, font_size_offset);
        assert forall|i: int|
            0 <= i < tagged_blocks(tags, text, h, font_size_offset).len() implies has_level_and_size(
            #[trigger] tagged_blocks(tags, text, h, font_size_offset)[i],
            font_size_offset,
        ) by {
            if i < front.len() {
                assert((front + back)[i] == front[i]);
            } else {
                assert((front + back)[i] == back[i - front.len()]);
            }
        }
    }
}

/// Every block of a page is body text or a heading of level 1 to 6, and
/// has the size of its level, moved by the offset.
pub proof fn blocks_have_level_and_size(lines: Seq<Seq<LineElementView>>, font_size_offset: i32)
    ensures
        forall|i: int|
            0 <= i < page_blocks(lines, font_size_offset).len() ==> has_level_and_size(
                #[trigger] page_blocks(lines, font_size_offset)[i],
                font_size_offset,
            ),
    decreases lines.len(),
{
    if lines.len() > 0 {
        blocks_have_level_and_size(lines.drop_last(), font_size_offset);
        let front = page_blocks(lines.drop_last(), font_size_offset);
        let back = line_blocks(lines.last(), font_size_offset);
        let fragments = text_fragments(lines.last());
        tagged_blocks_have_level_and_size(
            collected_tags(shown_fragments(fragments)),
            collected_text(shown_fragments(fragments)),
            line_heading(fragments),
            font_size_offset,
        );
        assert forall|i: int|
            0 <= i < page_blocks(lines, font_size_offset).len() implies has_level_and_size(
            #[trigger] page_blocks(lines, font_size_offset)[i],
            font_size_offset,
        ) by {
            if i < front.len() {
                assert((front + back)[i] == front[i]);
            } else {
                assert((front + back)[i] == back[i - front.len()]);
            }
        }
    }
}

} // verus!
