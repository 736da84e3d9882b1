//! Which pages html2text can lay out in a given width.
//!
//! html2text gives every block quote, list item, definition and heading a
//! narrower column than the block around it has, and it does not come back
//! once a column is too narrow for a character of the text. It does not take
//! every table, nor an ordered list whose numbers leave 64 bits, nor text in
//! which a run of characters is wider than its characters are one by one.
//!
//! The test here reads the text of the page. It looks for the opening tags
//! of the elements that narrow a column and counts them as if all were
//! nested; it reads the attributes of every `<ol>`; and it looks for the two
//! characters that are too wide, written out or as a numeric reference. It
//! refuses some pages that html2text could lay out, and passes none that it
//! could not.

use vstd::prelude::*;
use crate::helper::text::chars_of;

verus! {

/// The widest prefix that an item of an ordered list can get: a sign,
/// nineteen digits, a full stop and a space.
pub const WIDEST_ITEM_PREFIX: usize = 22;

/// From how many characters on the value of a `start` attribute is taken
/// to be a number that leaves 64 bits; a value is counted up to here.
pub const LONGEST_NUMBER: u8 = 19;

/// How far the name of an attribute is from the name `start`: this many
/// of its letters matched. More than five stands for a name that is not
/// `start`.
pub const NOT_START: u8 = 6;

/// Whether the character `c` of a page stands for the letter `letter` of
/// a name, which is given in lower case. In the names of HTML, upper and
/// lower case of the letters A to Z count the same.
pub open spec fn is_letter(c: char, letter: char) -> bool {
    c == letter || (0x41 <= c as u32 <= 0x5A && c as u32 + 32 == letter as u32)
}

/// Whether `name` stands in `page` from position `at` on, whatever the
/// case of its letters.
pub open spec fn names_at(page: Seq<char>, name: Seq<char>, at: int) -> bool {
    0 <= at && at + name.len() <= page.len() && forall|j: int|
        0 <= j < name.len() ==> is_letter(#[trigger] page[at + j], name[j])
}

/// Whether `c` is white space inside a tag.
pub open spec fn is_tag_space(c: char) -> bool {
    c == '\t' || c == '\n' || c == '\u{c}' || c == '\r' || c == ' '
}

/// Whether `c` ends the name of a tag.
pub open spec fn ends_name(c: char) -> bool {
    is_tag_space(c) || c == '/' || c == '>'
}

/// Whether an opening tag stands at position `at` of `page`: `tag`, which
/// is `<` and the name of an element, and after it a character that ends
/// the name.
pub open spec fn opens_at(page: Seq<char>, tag: Seq<char>, at: int) -> bool {
    names_at(page, tag, at) && at + tag.len() < page.len() && ends_name(page[at + tag.len()])
}

/// At how many of the first `n` positions of `page` the opening tag `tag`
/// stands.
pub open spec fn openings(page: Seq<char>, tag: Seq<char>, n: nat) -> nat
    decreases n,
{
    if n == 0 {
        0
    } else {
        openings(page, tag, (n - 1) as nat) + if opens_at(page, tag, n - 1) {
            1nat
        } else {
            0nat
        }
    }
}

/// How many opening tags `tag` stand in `page`.
pub open spec fn count_of(page: Seq<char>, tag: Seq<char>) -> nat {
    openings(page, tag, page.len())
}

/// Where the reading of a tag stands, after the name of the tag.
#[derive(Clone, Copy, Debug, PartialEq, Eq, Structural)]
pub enum TagState {
    /// Before the name of an attribute.
    BeforeName,
    /// In the name of an attribute.
    Name,
    /// After the name of an attribute.
    AfterName,
    /// After the `=`, before the value.
    BeforeValue,
    /// In a value between double quotes.
    DoubleQuoted,
    /// In a value between single quotes.
    SingleQuoted,
    /// In a value without quotes.
    Unquoted,
    /// After the closing quote of a value.
    AfterValue,
    /// After a `/`.
    SelfClosing,
}

/// What is known while a tag is read: the state, how much of `start` the
/// name of the attribute matched, how long its value is so far, and the
/// longest value of a `start` attribute that was read to its end. Lengths
/// are counted up to [`LONGEST_NUMBER`].
#[derive(Clone, Copy, Debug, PartialEq, Eq, Structural)]
pub struct TagScan {
    pub state: TagState,
    pub matched: u8,
    pub value: u8,
    pub longest: u8,
}

/// The letter of `start` at place `k`.
pub open spec fn start_letter(k: u8) -> char {
    if k == 0 {
        's'
    } else if k == 1 {
        't'
    } else if k == 2 {
        'a'
    } else if k == 3 {
        'r'
    } else {
        't'
    }
}

/// How much of `start` a name matches whose first character is `c`.
pub open spec fn name_begun(c: char) -> u8 {
    if is_letter(c, 's') {
        1
    } else {
        NOT_START
    }
}

/// How much of `start` a name matches that matched `matched` letters and
/// goes on with `c`.
pub open spec fn name_grown(matched: u8, c: char) -> u8 {
    if matched < 5 && is_letter(c, start_letter(matched)) {
        (matched + 1) as u8
    } else {
        NOT_START
    }
}

/// The length of a value that grows by one character.
pub open spec fn grown(length: u8) -> u8 {
    if length < LONGEST_NUMBER {
        (length + 1) as u8
    } else {
        length
    }
}

/// The longest value of a `start` attribute once the value that is being
/// read has ended.
pub open spec fn closed(s: TagScan) -> u8 {
    if s.matched == 5 && s.value > s.longest {
        s.value
    } else {
        s.longest
    }
}

/// The longest value of a `start` attribute once the tag has ended.
pub open spec fn finished(s: TagScan) -> u8 {
    match s.state {
        TagState::DoubleQuoted => closed(s),
        TagState::SingleQuoted => closed(s),
        TagState::Unquoted => closed(s),
        _ => s.longest,
    }
}

/// One character read before the name of an attribute. `None` where the
/// character ends the tag.
pub open spec fn before_name(s: TagScan, c: char) -> Option<TagScan> {
    if is_tag_space(c) {
        Some(TagScan { state: TagState::BeforeName, ..s })
    } else if c == '/' {
        Some(TagScan { state: TagState::SelfClosing, ..s })
    } else if c == '>' {
        None
    } else {
        Some(TagScan { state: TagState::Name, matched: name_begun(c), value: 0, ..s })
    }
}

/// One character read inside a tag, as the tokenizer of HTML reads it.
/// `None` where the character ends the tag.
pub open spec fn step(s: TagScan, c: char) -> Option<TagScan> {
    match s.state {
        TagState::BeforeName => before_name(s, c),
        TagState::Name => if is_tag_space(c) {
            Some(TagScan { state: TagState::AfterName, ..s })
        } else if c == '/' {
            Some(TagScan { state: TagState::SelfClosing, ..s })
        } else if c == '=' {
            Some(TagScan { state: TagState::BeforeValue, value: 0, ..s })
        } else if c == '>' {
            None
        } else {
            Some(TagScan { matched: name_grown(s.matched, c), ..s })
        },
        TagState::AfterName => if is_tag_space(c) {
            Some(s)
        } else if c == '/' {
            Some(TagScan { state: TagState::SelfClosing, ..s })
        } else if c == '=' {
            Some(TagScan { state: TagState::BeforeValue, value: 0, ..s })
        } else if c == '>' {
            None
        } else {
            Some(TagScan { state: TagState::Name, matched: name_begun(c), value: 0, ..s })
        },
        TagState::BeforeValue => if is_tag_space(c) {
            Some(s)
        } else if c == '"' {
            Some(TagScan { state: TagState::DoubleQuoted, value: 0, ..s })
        } else if c == '\'' {
            Some(TagScan { state: TagState::SingleQuoted, value: 0, ..s })
        } else if c == '>' {
            None
        } else {
            Some(TagScan { state: TagState::Unquoted, value: 1, ..s })
        },
        TagState::DoubleQuoted => if c == '"' {
            Some(TagScan { state: TagState::AfterValue, longest: closed(s), ..s })
        } else {
            Some(TagScan { value: grown(s.value), ..s })
        },
        TagState::SingleQuoted => if c == '\'' {
            Some(TagScan { state: TagState::AfterValue, longest: closed(s), ..s })
        } else {
            Some(TagScan { value: grown(s.value), ..s })
        },
        TagState::Unquoted => if is_tag_space(c) {
            Some(TagScan { state: TagState::BeforeName, longest: closed(s), ..s })
        } else if c == '>' {
            None
        } else {
            Some(TagScan { value: grown(s.value), ..s })
        },
        TagState::AfterValue => before_name(s, c),
        TagState::SelfClosing => before_name(s, c),
    }
}

/// The longest value of a `start` attribute in the tag that is read from
/// position `i` of `page` on, in the state `s`. A tag that the page ends in
/// counts as far as it goes.
pub open spec fn scan_tag(page: Seq<char>, i: int, s: TagScan) -> u8
    decreases page.len() - i,
{
    if 0 <= i < page.len() {
        match step(s, page[i]) {
            Some(next) => scan_tag(page, i + 1, next),
            None => finished(s),
        }
    } else {
        finished(s)
    }
}

/// The state in which the reading of a tag begins.
pub open spec fn fresh_scan() -> TagScan {
    TagScan { state: TagState::BeforeName, matched: NOT_START, value: 0, longest: 0 }
}

/// The longest value of a `start` attribute of the `<ol>` tags that open
/// at one of the first `n` positions of `page`; 0 where none has such a
/// value.
pub open spec fn longest_start_in(page: Seq<char>, n: nat) -> u8
    decreases n,
{
    if n == 0 {
        0
    } else {
        let before = longest_start_in(page, (n - 1) as nat);
        let here = if opens_at(page, "<ol"@, n - 1) {
            scan_tag(page, n - 1 + "<ol"@.len(), fresh_scan())
        } else {
            0
        };
        if here > before {
            here
        } else {
            before
        }
    }
}

/// The longest value of a `start` attribute of an `<ol>` tag of `page`.
pub open spec fn longest_start(page: Seq<char>) -> u8 {
    longest_start_in(page, page.len())
}

/// Whether the character with the code `code` is too wide for html2text: a
/// character that is three columns wide, or the one that makes the
/// character before it wider than it is alone.
pub open spec fn is_too_wide(code: u32) -> bool {
    code == 0x17D8 || code == 0xFE0F
}

/// The digit that `c` is: a decimal digit, or where `hex` holds a
/// hexadecimal one.
pub open spec fn digit_of(c: char, hex: bool) -> Option<u32> {
    let code = c as u32;
    if 0x30 <= code <= 0x39 {
        Some((code - 0x30) as u32)
    } else if hex && 0x41 <= code <= 0x46 {
        Some((code - 0x41 + 10) as u32)
    } else if hex && 0x61 <= code <= 0x66 {
        Some((code - 0x61 + 10) as u32)
    } else {
        None
    }
}

/// The number `so_far` with the digit `digit` behind it. A number beyond
/// the last code of a character stays beyond it.
pub open spec fn with_digit(so_far: u32, digit: u32, hex: bool) -> u32 {
    let base: int = if hex {
        16
    } else {
        10
    };
    if so_far * base + digit > 0x10FFFF {
        0x110000
    } else {
        (so_far * base + digit) as u32
    }
}

/// The number that the digits from position `i` of `page` on make of
/// `so_far`.
pub open spec fn number_from(page: Seq<char>, i: int, hex: bool, so_far: u32) -> u32
    decreases page.len() - i,
{
    if 0 <= i < page.len() {
        match digit_of(page[i], hex) {
            Some(digit) => number_from(page, i + 1, hex, with_digit(so_far, digit, hex)),
            None => so_far,
        }
    } else {
        so_far
    }
}

/// The code that a numeric reference at position `i` of `page` gives:
/// `&#` and decimal digits, or `&#x` and hexadecimal digits.
pub open spec fn reference_at(page: Seq<char>, i: int) -> Option<u32> {
    if 0 <= i && i + 2 < page.len() && page[i] == '&' && page[i + 1] == '#' {
        if page[i + 2] == 'x' || page[i + 2] == 'X' {
            if i + 3 < page.len() && digit_of(page[i + 3], true) is Some {
                Some(number_from(page, i + 3, true, 0))
            } else {
                None
            }
        } else if digit_of(page[i + 2], false) is Some {
            Some(number_from(page, i + 2, false, 0))
        } else {
            None
        }
    } else {
        None
    }
}

/// Whether a character that is too wide stands at position `i` of `page`,
/// written out or as a numeric reference.
pub open spec fn too_wide_at(page: Seq<char>, i: int) -> bool {
    0 <= i < page.len() && (is_too_wide(page[i] as u32) || match reference_at(page, i) {
        Some(code) => is_too_wide(code),
        None => false,
    })
}

/// Whether `page` holds a character that is too wide.
pub open spec fn holds_too_wide(page: Seq<char>) -> bool {
    exists|i: int| too_wide_at(page, i)
}

/// By how much an item of a list narrows its column at most: by the
/// digits of the highest number, a full stop and a space. Where no list
/// sets its start, the highest number is no more than the number of items.
pub open spec fn item_indent(page: Seq<char>) -> nat {
    let items = count_of(page, "<li"@);
    if longest_start(page) > 0 {
        WIDEST_ITEM_PREFIX as nat
    } else if items <= 9 {
        3
    } else if items <= 99 {
        4
    } else if items <= 999 {
        5
    } else {
        WIDEST_ITEM_PREFIX as nat
    }
}

/// By how much the elements of `page` narrow a column at most, were they
/// all nested: two for each block quote, definition and term, the marker
/// for each heading, and for each item of a list what `item_indent` gives.
/// A term narrows nothing; it is counted so that terms cannot be nested
/// without end.
pub open spec fn indent(page: Seq<char>) -> nat {
    2 * count_of(page, "<blockquote"@) + 2 * count_of(page, "<dd"@) + 2 * count_of(page, "<dt"@)
        + 2 * count_of(page, "<h1"@) + 3 * count_of(page, "<h2"@) + 4 * count_of(page, "<h3"@)
        + 5 * count_of(page, "<h4"@) + item_indent(page) * count_of(page, "<li"@)
}

/// Whether html2text can lay out `page` in `width` columns: no table
/// opens in it, no ordered list starts at a number of nineteen or more
/// characters, no character in it is too wide, and two columns are left
/// after all that narrows a column.
pub open spec fn can_be_laid_out(page: Seq<char>, width: nat) -> bool {
    &&& count_of(page, "<table"@) == 0
    &&& longest_start(page) < LONGEST_NUMBER
    &&& !holds_too_wide(page)
    &&& indent(page) + 2 <= width
}

/// Tells whether `c` stands for the letter `letter`.
fn same_letter(c: char, letter: char) -> (same: bool)
    ensures
        same == is_letter(c, letter),
{
    let code = c as u32;
    c == letter || (0x41 <= code && code <= 0x5A && code + 32 == letter as u32)
}

/// Tells whether `c` is white space inside a tag.
fn tag_space(c: char) -> (space: bool)
    ensures
        space == is_tag_space(c),
{
    c == '\t' || c == '\n' || c == '\u{c}' || c == '\r' || c == ' '
}

/// Tells whether the opening tag `tag` stands at position `at` of `page`.
fn tag_opens_at(page: &Vec<char>, tag: &Vec<char>, at: usize) -> (found: bool)
    ensures
        found == opens_at(page@, tag@, at as int),
{
    if tag.len() >= page.len() || at >= page.len() - tag.len() {
        return false;
    }
    let mut j: usize = 0;
    while j < tag.len()
        invariant
            j <= tag.len(),
            at + tag.len() < page.len(),
            forall|k: int| 0 <= k < j ==> is_letter(#[trigger] page@[at + k], tag@[k]),
        decreases tag.len() - j,
    {
        if !same_letter(page[at + j], tag[j]) {
            assert(!is_letter(page@[at + j as int], tag@[j as int]));
            return false;
        }
        j += 1;
    }
    let after = page[at + tag.len()];
    tag_space(after) || after == '/' || after == '>'
}

/// Counts the opening tags `tag` of `page`.
fn count_tag(page: &Vec<char>, tag: &str) -> (count: usize)
    ensures
        count == count_of(page@, tag@),
{
    let tag = chars_of(tag);
    let mut count: usize = 0;
    let mut at: usize = 0;
    while at < page.len()
        invariant
            at <= page.len(),
            count <= at,
            count == openings(page@, tag@, at as nat),
        decreases page.len() - at,
    {
        if tag_opens_at(page, &tag, at) {
            count += 1;
        }
        at += 1;
    }
    count
}

/// How much of `start` a name matches whose first character is `c`.
fn begin_name(c: char) -> (matched: u8)
    ensures
        matched == name_begun(c),
{
    if same_letter(c, 's') {
        1
    } else {
        NOT_START
    }
}

/// How much of `start` a name matches that goes on with `c`.
fn grow_name(matched: u8, c: char) -> (next: u8)
    ensures
        next == name_grown(matched, c),
{
    let letter = if matched == 0 {
        's'
    } else if matched == 1 {
        't'
    } else if matched == 2 {
        'a'
    } else if matched == 3 {
        'r'
    } else {
        't'
    };
    if matched < 5 && same_letter(c, letter) {
        matched + 1
    } else {
        NOT_START
    }
}

/// The length of a value that grows by one character.
fn grow(length: u8) -> (next: u8)
    ensures
        next == grown(length),
{
    if length < LONGEST_NUMBER {
        length + 1
    } else {
        length
    }
}

/// The longest value of a `start` attribute once the value that is being
/// read has ended.
fn close(s: TagScan) -> (longest: u8)
    ensures
        longest == closed(s),
{
    if s.matched == 5 && s.value > s.longest {
        s.value
    } else {
        s.longest
    }
}

/// Reads one character before the name of an attribute.
fn read_before_name(s: TagScan, c: char) -> (next: Option<TagScan>)
    ensures
        next == before_name(s, c),
{
    if tag_space(c) {
        Some(TagScan { state: TagState::BeforeName, ..s })
    } else if c == '/' {
        Some(TagScan { state: TagState::SelfClosing, ..s })
    } else if c == '>' {
        None
    } else {
        Some(TagScan { state: TagState::Name, matched: begin_name(c), value: 0, ..s })
    }
}

/// Reads one character inside a tag.
fn read(s: TagScan, c: char) -> (next: Option<TagScan>)
    ensures
        next == step(s, c),
{
    match s.state {
        TagState::BeforeName => read_before_name(s, c),
        TagState::Name => if tag_space(c) {
            Some(TagScan { state: TagState::AfterName, ..s })
        } else if c == '/' {
            Some(TagScan { state: TagState::SelfClosing, ..s })
        } else if c == '=' {
            Some(TagScan { state: TagState::BeforeValue, value: 0, ..s })
        } else if c == '>' {
            None
        } else {
            Some(TagScan { matched: grow_name(s.matched, c), ..s })
        },
        TagState::AfterName => if tag_space(c) {
            Some(s)
        } else if c == '/' {
            Some(TagScan { state: TagState::SelfClosing, ..s })
        } else if c == '=' {
            Some(TagScan { state: TagState::BeforeValue, value: 0, ..s })
        } else if c == '>' {
            None
        } else {
            Some(TagScan { state: TagState::Name, matched: begin_name(c), value: 0, ..s })
        },
        TagState::BeforeValue => if tag_space(c) {
            Some(s)
        } else if c == '"' {
            Some(TagScan { state: TagState::DoubleQuoted, value: 0, ..s })
        } else if c == '\'' {
            Some(TagScan { state: TagState::SingleQuoted, value: 0, ..s })
        } else if c == '>' {
            None
        } else {
            Some(TagScan { state: TagState::Unquoted, value: 1, ..s })
        },
        TagState::DoubleQuoted => if c == '"' {
            Some(TagScan { state: TagState::AfterValue, longest: close(s), ..s })
        } else {
            Some(TagScan { value: grow(s.value), ..s })
        },
        TagState::SingleQuoted => if c == '\'' {
            Some(TagScan { state: TagState::AfterValue, longest: close(s), ..s })
        } else {
            Some(TagScan { value: grow(s.value), ..s })
        },
        TagState::Unquoted => if tag_space(c) {
            Some(TagScan { state: TagState::BeforeName, longest: close(s), ..s })
        } else if c == '>' {
            None
        } else {
            Some(TagScan { value: grow(s.value), ..s })
        },
        TagState::AfterValue => read_before_name(s, c),
        TagState::SelfClosing => read_before_name(s, c),
    }
}

/// The longest value of a `start` attribute once the tag has ended.
fn finish(s: TagScan) -> (longest: u8)
    ensures
        longest == finished(s),
{
    match s.state {
        TagState::DoubleQuoted => close(s),
        TagState::SingleQuoted => close(s),
        TagState::Unquoted => close(s),
        _ => s.longest,
    }
}

/// Reads the tag whose attributes begin at position `from` of `page`.
fn read_tag(page: &Vec<char>, from: usize) -> (longest: u8)
    ensures
        longest == scan_tag(page@, from as int, fresh_scan()),
{
    let mut s = TagScan { state: TagState::BeforeName, matched: NOT_START, value: 0, longest: 0 };
    let mut i: usize = from;
    while i < page.len()
        invariant
            from <= i,
            scan_tag(page@, i as int, s) == scan_tag(page@, from as int, fresh_scan()),
        decreases page.len() - i,
    {
        match read(s, page[i]) {
            Some(next) => {
                s = next;
            },
            None => {
                return finish(s);
            },
        }
        i += 1;
    }
    finish(s)
}

/// The longest value of a `start` attribute of an `<ol>` tag of `page`.
fn longest_start_of(page: &Vec<char>) -> (longest: u8)
    ensures
        longest == longest_start(page@),
{
    let tag = chars_of("<ol");
    let mut longest: u8 = 0;
    let mut at: usize = 0;
    while at < page.len()
        invariant
            at <= page.len(),
            tag@ == "<ol"@,
            longest == longest_start_in(page@, at as nat),
        decreases page.len() - at,
    {
        if tag_opens_at(page, &tag, at) {
            let here = read_tag(page, at + tag.len());
            if here > longest {
                longest = here;
            }
        }
        at += 1;
    }
    longest
}

/// The digit that `c` is.
fn digit(c: char, hex: bool) -> (digit: Option<u32>)
    ensures
        digit == digit_of(c, hex),
{
    let code = c as u32;
    if 0x30 <= code && code <= 0x39 {
        Some(code - 0x30)
    } else if hex && 0x41 <= code && code <= 0x46 {
        Some(code - 0x41 + 10)
    } else if hex && 0x61 <= code && code <= 0x66 {
        Some(code - 0x61 + 10)
    } else {
        None
    }
}

/// The number that the digits from position `from` of `page` on make.
fn read_number(page: &Vec<char>, from: usize, hex: bool) -> (number: u32)
    ensures
        number == number_from(page@, from as int, hex, 0),
{
    let base: u32 = if hex {
        16
    } else {
        10
    };
    let mut number: u32 = 0;
    let mut i: usize = from;
    while i < page.len()
        invariant
            from <= i,
            number <= 0x110000,
            base == if hex {
                16u32
            } else {
                10u32
            },
            number_from(page@, i as int, hex, number) == number_from(page@, from as int, hex, 0),
        decreases page.len() - i,
    {
        match digit(page[i], hex) {
            Some(d) => {
                let next = number * base + d;
                number = if next > 0x10FFFF {
                    0x110000
                } else {
                    next
                };
            },
            None => {
                return number;
            },
        }
        i += 1;
    }
    number
}

/// The code that a numeric reference at position `i` of `page` gives.
fn read_reference(page: &Vec<char>, i: usize) -> (code: Option<u32>)
    ensures
        code == reference_at(page@, i as int),
{
    if page.len() < 3 || i >= page.len() - 2 || page[i] != '&' || page[i + 1] != '#' {
        return None;
    }
    if page[i + 2] == 'x' || page[i + 2] == 'X' {
        if i + 3 < page.len() && digit(page[i + 3], true).is_some() {
            Some(read_number(page, i + 3, true))
        } else {
            None
        }
    } else if digit(page[i + 2], false).is_some() {
        Some(read_number(page, i + 2, false))
    } else {
        None
    }
}

/// Tells whether `page` holds a character that is too wide.
fn holds_too_wide_char(page: &Vec<char>) -> (found: bool)
    ensures
        found == holds_too_wide(page@),
{
    let mut i: usize = 0;
    while i < page.len()
        invariant
            i <= page.len(),
            forall|k: int| 0 <= k < i ==> !too_wide_at(page@, k),
        decreases page.len() - i,
    {
        let code = page[i] as u32;
        if code == 0x17D8 || code == 0xFE0F {
            assert(too_wide_at(page@, i as int));
            return true;
        }
        match read_reference(page, i) {
            Some(code) => {
                if code == 0x17D8 || code == 0xFE0F {
                    assert(too_wide_at(page@, i as int));
                    return true;
                }
            },
            None => {},
        }
        i += 1;
    }
    false
}

/// By how much an item of a list narrows its column at most.
fn item_indent_of(items: usize, sets_start: bool) -> (indent: usize)
    ensures
        indent == if sets_start {
            WIDEST_ITEM_PREFIX as nat
        } else if items <= 9 {
            3
        } else if items <= 99 {
            4
        } else if items <= 999 {
            5
        } else {
            WIDEST_ITEM_PREFIX as nat
        },
        indent <= WIDEST_ITEM_PREFIX,
{
    if sets_start {
        WIDEST_ITEM_PREFIX
    } else if items <= 9 {
        3
    } else if items <= 99 {
        4
    } else if items <= 999 {
        5
    } else {
        WIDEST_ITEM_PREFIX
    }
}

/// Tells whether html2text can lay out `page` in `width` columns.
pub fn can_lay_out(page: &str, width: usize) -> (fits: bool)
    ensures
        fits == can_be_laid_out(page@, width as nat),
{
    let chars = chars_of(page);
    if count_tag(&chars, "<table") > 0 {
        return false;
    }
    let start = longest_start_of(&chars);
    if start >= LONGEST_NUMBER {
        return false;
    }
    if holds_too_wide_char(&chars) {
        return false;
    }
    let quotes = count_tag(&chars, "<blockquote");
    let definitions = count_tag(&chars, "<dd");
    let terms = count_tag(&chars, "<dt");
    let first = count_tag(&chars, "<h1");
    let second = count_tag(&chars, "<h2");
    let third = count_tag(&chars, "<h3");
    let fourth = count_tag(&chars, "<h4");
    let items = count_tag(&chars, "<li");
    let each = item_indent_of(items, start > 0);
    assert(each * items <= 22 * items) by (nonlinear_arith)
        requires
            each <= 22,
            items >= 0,
    ;
    let narrowed: u128 = 2 * (quotes as u128) + 2 * (definitions as u128) + 2 * (terms as u128) + 2
        * (first as u128) + 3 * (second as u128) + 4 * (third as u128) + 5 * (fourth as u128) + (
    each as u128) * (items as u128);
    narrowed + 2 <= width as u128
}

} // verus!
