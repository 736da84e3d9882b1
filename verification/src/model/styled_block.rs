//! Styled blocks: what a page is made of once every line has its font,
//! size and colour.

use vstd::prelude::*;

verus! {

/// The family of a font.
#[derive(Clone, Copy, Debug, PartialEq, Eq, Structural)]
pub enum FontFamily {
    /// The font of the user interface.
    SystemUi,
    /// A font without serifs.
    SansSerif,
}

/// The colour of a block's text.
#[derive(Clone, Copy, Debug, PartialEq, Eq, Structural)]
pub enum TextColor {
    /// The colour of ordinary text.
    Default,
    /// The accent colour, which marks a link.
    Aqua,
}

/// A font: its family, its size in hundredths of a pixel, its weight and
/// its style.
#[derive(Clone, Copy, Debug, PartialEq, Eq, Structural)]
pub struct FontDescriptor {
    pub family: FontFamily,
    pub size: i64,
    pub bold: bool,
    pub italic: bool,
}

/// One block of text, ready to be shown.
#[derive(Clone, Debug, PartialEq, Eq)]
pub struct StyledBlock {
    /// The text of the block.
    pub text: String,
    /// The level of the heading that the block is, or 0 for body text.
    pub heading_level: i32,
    /// The font of the text.
    pub font: FontDescriptor,
    /// The colour of the text.
    pub color: TextColor,
    /// Where a click on the block leads, if it is a link.
    pub link: Option<String>,
}

/// What a [`StyledBlock`] is in contracts.
pub struct StyledBlockView {
    pub text: Seq<char>,
    pub heading_level: i32,
    pub font: FontDescriptor,
    pub color: TextColor,
    pub link: Option<Seq<char>>,
}

impl DeepView for StyledBlock {
    type V = StyledBlockView;

    open spec fn deep_view(&self) -> StyledBlockView {
        StyledBlockView {
            text: self.text@,
            heading_level: self.heading_level,
            font: self.font,
            color: self.color,
            link: match self.link {
                Some(target) => Some(target@),
                None => None,
            },
        }
    }
}

impl View for StyledBlock {
    type V = StyledBlockView;

    open spec fn view(&self) -> StyledBlockView {
        self.deep_view()
    }
}

impl StyledBlockView {
    /// Whether the block is a heading.
    pub open spec fn is_heading(self) -> bool {
        self.heading_level > 0
    }

    /// Whether the block is a link.
    pub open spec fn is_link(self) -> bool {
        self.link is Some
    }

    /// Whether the block is set in italics.
    pub open spec fn is_emphasis(self) -> bool {
        self.font.italic
    }
}

impl StyledBlock {
    /// Whether the block is a heading.
    pub fn is_heading(&self) -> (heading: bool)
        ensures
            heading == self@.is_heading(),
    {
        self.heading_level > 0
    }

    /// Whether the block is a link.
    pub fn is_link(&self) -> (link: bool)
        ensures
            link == self@.is_link(),
    {
        self.link.is_some()
    }

    /// Whether the block is set in italics.
    pub fn is_emphasis(&self) -> (emphasis: bool)
        ensures
            emphasis == self@.is_emphasis(),
    {
        self.font.italic
    }
}

} // verus!
