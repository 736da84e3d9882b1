//! Text as a sequence of characters: the searches and replacements that
//! the reader needs, each stated over `Seq<char>`.

use vstd::prelude::*;
use vstd::std_specs::iter::IteratorSpec;

verus! {

/// `String::push` puts one character at the end of the string.
pub assume_specification[ String::push ](s: &mut String, ch: char)
    ensures
        final(s)@ == old(s)@.push(ch),
;

/// The parts of a path with one more part. An empty part, which stands
/// between two `/` or after the last, is no part, and a part `.` counts
/// only where it is the first.
pub open spec fn with_part(parts: Seq<Seq<char>>, part: Seq<char>) -> Seq<Seq<char>> {
    if part.len() == 0 || (part == seq!['.'] && parts.len() > 0) {
        parts
    } else {
        parts.push(part)
    }
}

/// The parts of `path` from position `i` on, after the parts `parts` and
/// the beginning `part` of one more.
pub open spec fn parts_from(path: Seq<char>, i: int, part: Seq<char>, parts: Seq<Seq<char>>) -> Seq<
    Seq<char>,
>
    decreases path.len() - i,
{
    if 0 <= i < path.len() {
        if path[i] == '/' {
            parts_from(path, i + 1, Seq::empty(), with_part(parts, part))
        } else {
            parts_from(path, i + 1, part.push(path[i]), parts)
        }
    } else {
        with_part(parts, part)
    }
}

/// The parts of a path: what stands between its `/`. The `/` at the
/// front of a path that begins with one is a part of its own.
pub open spec fn path_parts(path: Seq<char>) -> Seq<Seq<char>> {
    if path.len() > 0 && path[0] == '/' {
        parts_from(path, 1, Seq::empty(), seq![seq!['/']])
    } else {
        parts_from(path, 0, Seq::empty(), Seq::empty())
    }
}

/// Whether the path `path` ends with the path `link`: the parts of `link`
/// are the last parts of `path`. A link without parts matches every path.
pub open spec fn is_path_suffix(path: Seq<char>, link: Seq<char>) -> bool {
    let whole = path_parts(path);
    let end = path_parts(link);
    end.len() <= whole.len() && whole.subrange(whole.len() - end.len(), whole.len() as int) == end
}

/// The parts of a path as sequences.
pub open spec fn part_views(parts: Seq<Vec<char>>) -> Seq<Seq<char>> {
    parts.map_values(|part: Vec<char>| part@)
}

/// Whether `pattern` stands in `s` from position `at` on.
pub open spec fn occurs_at(s: Seq<char>, pattern: Seq<char>, at: int) -> bool {
    0 <= at && at + pattern.len() <= s.len() && s.subrange(at, at + pattern.len()) == pattern
}

/// Whether `pattern` stands somewhere in `s`.
pub open spec fn has_substring(s: Seq<char>, pattern: Seq<char>) -> bool {
    exists|at: int| occurs_at(s, pattern, at)
}

/// `s` with every occurrence of `from` replaced by `to`, the occurrences
/// taken from the left and not overlapping. An empty `from` occurs nowhere.
pub open spec fn replaced(s: Seq<char>, from: Seq<char>, to: Seq<char>) -> Seq<char>
    decreases s.len(),
{
    if from.len() == 0 || s.len() < from.len() {
        s
    } else if s.subrange(0, from.len() as int) == from {
        to + replaced(s.subrange(from.len() as int, s.len() as int), from, to)
    } else {
        seq![s[0]] + replaced(s.subrange(1, s.len() as int), from, to)
    }
}

/// Whether `c` is white space: one of the characters that Unicode gives the
/// property White_Space.
pub open spec fn is_white_space(c: char) -> bool {
    let code = c as u32;
    (0x09 <= code <= 0x0D) || code == 0x20 || code == 0x85 || code == 0xA0 || code == 0x1680 || (
    0x2000 <= code <= 0x200A) || code == 0x2028 || code == 0x2029 || code == 0x202F || code
        == 0x205F || code == 0x3000
}

/// How many words `s` holds: the runs of characters that are not white
/// space. A word starts where such a character stands first in `s` or
/// after white space.
pub open spec fn word_count(s: Seq<char>) -> nat
    decreases s.len(),
{
    if s.len() == 0 {
        0
    } else {
        let starts_word = !is_white_space(s.last()) && (s.len() == 1 || is_white_space(
            s[s.len() - 2],
        ));
        word_count(s.drop_last()) + if starts_word { 1nat } else { 0nat }
    }
}

/// How many characters of white space stand at the front of `s`.
pub open spec fn leading_white_space(s: Seq<char>) -> nat
    decreases s.len(),
{
    if s.len() > 0 && is_white_space(s[0]) {
        1 + leading_white_space(s.drop_first())
    } else {
        0
    }
}

/// How many characters of white space stand at the end of `s`.
pub open spec fn trailing_white_space(s: Seq<char>) -> nat
    decreases s.len(),
{
    if s.len() > 0 && is_white_space(s.last()) {
        1 + trailing_white_space(s.drop_last())
    } else {
        0
    }
}

/// `s` without the white space at its front and at its end.
pub open spec fn trimmed(s: Seq<char>) -> Seq<char> {
    if leading_white_space(s) == s.len() {
        Seq::empty()
    } else {
        s.subrange(leading_white_space(s) as int, s.len() - trailing_white_space(s))
    }
}

/// The characters of `s`, in order.
pub fn chars_of(s: &str) -> (chars: Vec<char>)
    ensures
        chars@ == s@,
{
    let mut chars: Vec<char> = Vec::new();
    let source = s.chars();
    for c in it: source
        invariant
            chars@ == it.seq().take(it.index() as int),
            it.seq() == s@,
    {
        chars.push(c);
    }
    chars
}

/// The string of the characters `chars[from..to]`.
pub fn string_of(chars: &Vec<char>, from: usize, to: usize) -> (s: String)
    requires
        from <= to <= chars.len(),
    ensures
        s@ == chars@.subrange(from as int, to as int),
{
    let mut s = String::new();
    let mut i: usize = from;
    while i < to
        invariant
            from <= i <= to <= chars.len(),
            s@ == chars@.subrange(from as int, i as int),
        decreases to - i,
    {
        s.push(chars[i]);
        assert(chars@.subrange(from as int, i + 1) =~= chars@.subrange(from as int, i as int).push(
            chars@[i as int],
        ));
        i += 1;
    }
    s
}

/// Tells whether `c` is white space.
pub fn is_whitespace(c: char) -> (white: bool)
    ensures
        white == is_white_space(c),
{
    let code = c as u32;
    (0x09 <= code && code <= 0x0D) || code == 0x20 || code == 0x85 || code == 0xA0 || code
        == 0x1680 || (0x2000 <= code && code <= 0x200A) || code == 0x2028 || code == 0x2029
        || code == 0x202F || code == 0x205F || code == 0x3000
}

/// Tells whether `pattern` stands in `text` from position `at` on.
pub fn matches_at(text: &Vec<char>, pattern: &Vec<char>, at: usize) -> (found: bool)
    ensures
        found == occurs_at(text@, pattern@, at as int),
{
    if pattern.len() > text.len() || at > text.len() - pattern.len() {
        return false;
    }
    let mut i: usize = 0;
    while i < pattern.len()
        invariant
            i <= pattern.len(),
            at + pattern.len() <= text.len(),
            forall|j: int| 0 <= j < i ==> text@[at + j] == pattern@[j],
        decreases pattern.len() - i,
    {
        if text[at + i] != pattern[i] {
            assert(text@.subrange(at as int, at + pattern.len())[i as int] != pattern@[i as int]);
            return false;
        }
        i += 1;
    }
    assert(text@.subrange(at as int, at + pattern.len()) =~= pattern@);
    true
}

/// Puts one more part behind the parts of a path.
fn add_part(parts: &mut Vec<Vec<char>>, part: Vec<char>)
    ensures
        part_views(final(parts)@) == with_part(part_views(old(parts)@), part@),
{
    let ghost before = part_views(parts@);
    if part.len() == 0 || (part.len() == 1 && part[0] == '.' && parts.len() > 0) {
        assert(part.len() == 1 && part@[0] == '.' ==> part@ =~= seq!['.']);
        return;
    }
    assert(part@ == seq!['.'] ==> part@.len() == 1 && part@[0] == '.');
    parts.push(part);
    assert(part_views(parts@) =~= before.push(part@));
}

/// The parts of a path.
pub fn parts_of(path: &str) -> (parts: Vec<Vec<char>>)
    ensures
        part_views(parts@) == path_parts(path@),
{
    let chars = chars_of(path);
    let mut parts: Vec<Vec<char>> = Vec::new();
    let mut part: Vec<char> = Vec::new();
    let mut i: usize = 0;
    assert(part_views(parts@) =~= Seq::<Seq<char>>::empty());
    if chars.len() > 0 && chars[0] == '/' {
        let mut root: Vec<char> = Vec::new();
        root.push('/');
        assert(root@ =~= seq!['/']);
        parts.push(root);
        assert(part_views(parts@) =~= seq![seq!['/']]);
        i = 1;
    }
    while i < chars.len()
        invariant
            i <= chars.len(),
            chars@ == path@,
            parts_from(path@, i as int, part@, part_views(parts@)) == path_parts(path@),
        decreases chars.len() - i,
    {
        if chars[i] == '/' {
            add_part(&mut parts, part);
            part = Vec::new();
            assert(part@ =~= Seq::<char>::empty());
        } else {
            part.push(chars[i]);
        }
        i += 1;
    }
    add_part(&mut parts, part);
    parts
}

/// Tells whether two sequences of characters are the same.
fn same_chars(a: &Vec<char>, b: &Vec<char>) -> (same: bool)
    ensures
        same == (a@ == b@),
{
    if a.len() != b.len() {
        return false;
    }
    let same = matches_at(a, b, 0);
    assert(a@.subrange(0, a.len() as int) =~= a@);
    same
}

/// Tells whether the path `path` ends with the path `link`.
pub fn path_ends_with(path: &str, link: &str) -> (found: bool)
    ensures
        found == is_path_suffix(path@, link@),
{
    let whole = parts_of(path);
    let end = parts_of(link);
    if end.len() > whole.len() {
        return false;
    }
    let from = whole.len() - end.len();
    let ghost wanted = part_views(whole@).subrange(from as int, whole.len() as int);
    let mut i: usize = 0;
    while i < end.len()
        invariant
            i <= end.len(),
            from + end.len() == whole.len(),
            part_views(whole@) == path_parts(path@),
            part_views(end@) == path_parts(link@),
            wanted == part_views(whole@).subrange(from as int, whole.len() as int),
            forall|k: int| 0 <= k < i ==> wanted[k] == #[trigger] part_views(end@)[k],
        decreases end.len() - i,
    {
        if !same_chars(&whole[from + i], &end[i]) {
            assert(wanted[i as int] == whole@[from + i]@);
            assert(part_views(end@)[i as int] == end@[i as int]@);
            return false;
        }
        assert(wanted[i as int] == whole@[from + i]@);
        assert(part_views(end@)[i as int] == end@[i as int]@);
        i += 1;
    }
    assert(wanted =~= part_views(end@));
    true
}

/// Tells whether `pattern` stands somewhere in `text`.
pub fn contains(text: &str, pattern: &str) -> (found: bool)
    ensures
        found == has_substring(text@, pattern@),
{
    let chars = chars_of(text);
    let wanted = chars_of(pattern);
    if wanted.len() > chars.len() {
        return false;
    }
    let last = chars.len() - wanted.len();
    let mut at: usize = 0;
    loop
        invariant
            at <= last,
            last == chars.len() - wanted.len(),
            chars@ == text@,
            wanted@ == pattern@,
            forall|j: int| 0 <= j < at ==> !occurs_at(text@, pattern@, j),
        decreases last - at,
    {
        if matches_at(&chars, &wanted, at) {
            return true;
        }
        if at == last {
            return false;
        }
        at += 1;
    }
}

/// What is left of a text that is shorter than the pattern is kept as it
/// is, character by character.
proof fn lemma_replaced_short(s: Seq<char>, from: Seq<char>, to: Seq<char>)
    requires
        from.len() == 0 || s.len() < from.len(),
    ensures
        replaced(s, from, to) == s,
{
}

/// `text` with every occurrence of `from` replaced by `to`.
pub fn replace_all(text: &str, from: &str, to: &str) -> (out: String)
    ensures
        out@ == replaced(text@, from@, to@),
{
    let chars = chars_of(text);
    let pattern = chars_of(from);
    let n = chars.len();
    let m = pattern.len();
    let mut out = String::new();
    let mut i: usize = 0;
    assert(chars@.subrange(0, n as int) =~= chars@);
    while i < n
        invariant
            i <= n,
            n == chars.len(),
            m == pattern.len(),
            chars@ == text@,
            pattern@ == from@,
            out@ + replaced(chars@.subrange(i as int, n as int), from@, to@) == replaced(
                text@,
                from@,
                to@,
            ),
        decreases n - i,
    {
        let ghost rest = chars@.subrange(i as int, n as int);
        if m > 0 && matches_at(&chars, &pattern, i) {
            proof {
                assert(rest.subrange(0, m as int) =~= chars@.subrange(i as int, i + m));
                assert(rest.subrange(m as int, rest.len() as int) =~= chars@.subrange(
                    i + m,
                    n as int,
                ));
                assert((out@ + to@) + replaced(chars@.subrange(i + m, n as int), from@, to@) =~= out@
                    + (to@ + replaced(chars@.subrange(i + m, n as int), from@, to@)));
            }
            out.append(to);
            i += m;
        } else {
            proof {
                assert(rest.subrange(1, rest.len() as int) =~= chars@.subrange(i + 1, n as int));
                assert(rest[0] == chars@[i as int]);
                if m > 0 && rest.len() >= m {
                    assert(rest.subrange(0, m as int) =~= chars@.subrange(i as int, i + m));
                } else {
                    lemma_replaced_short(rest, from@, to@);
                    lemma_replaced_short(chars@.subrange(i + 1, n as int), from@, to@);
                    assert(rest =~= seq![rest[0]] + chars@.subrange(i + 1, n as int));
                }
                assert(out@.push(chars@[i as int]) + replaced(
                    chars@.subrange(i + 1, n as int),
                    from@,
                    to@,
                ) =~= out@ + (seq![rest[0]] + replaced(
                    chars@.subrange(i + 1, n as int),
                    from@,
                    to@,
                )));
            }
            out.push(chars[i]);
            i += 1;
        }
    }
    assert(out@ + Seq::<char>::empty() =~= out@);
    out
}

/// Counts the words of `text`.
pub fn count_words(text: &str) -> (count: usize)
    ensures
        count == word_count(text@),
{
    let chars = chars_of(text);
    let mut count: usize = 0;
    let mut in_word = false;
    let mut i: usize = 0;
    while i < chars.len()
        invariant
            i <= chars.len(),
            count <= i,
            count == word_count(chars@.take(i as int)),
            in_word == (i > 0 && !is_white_space(chars@[i - 1])),
        decreases chars.len() - i,
    {
        proof {
            let next = chars@.take(i + 1);
            assert(next.drop_last() =~= chars@.take(i as int));
            assert(next.last() == chars@[i as int]);
            if i > 0 {
                assert(next[next.len() - 2] == chars@[i - 1]);
            }
        }
        let white = is_whitespace(chars[i]);
        if !white && !in_word {
            count += 1;
        }
        in_word = !white;
        i += 1;
    }
    assert(chars@.take(i as int) =~= chars@);
    count
}

/// `text` without the white space at its front and at its end.
pub fn trim(text: &str) -> (out: String)
    ensures
        out@ == trimmed(text@),
{
    let chars = chars_of(text);
    let n = chars.len();
    let mut start: usize = 0;
    assert(chars@.subrange(0, n as int) =~= chars@);
    while start < n && is_whitespace(chars[start])
        invariant
            start <= n,
            n == chars.len(),
            start + leading_white_space(chars@.subrange(start as int, n as int))
                == leading_white_space(chars@),
        decreases n - start,
    {
        proof {
            let rest = chars@.subrange(start as int, n as int);
            assert(rest.drop_first() =~= chars@.subrange(start + 1, n as int));
        }
        start += 1;
    }
    if start == n {
        return String::new();
    }
    assert(chars@.subrange(start as int, n as int)[0] == chars@[start as int]);
    assert(leading_white_space(chars@) == start);
    let mut end: usize = n;
    while end > start + 1 && is_whitespace(chars[end - 1])
        invariant
            start < end <= n,
            n == chars.len(),
            (n - end) + trailing_white_space(chars@.subrange(0, end as int))
                == trailing_white_space(chars@),
        decreases end,
    {
        proof {
            let front = chars@.subrange(0, end as int);
            assert(front.drop_last() =~= chars@.subrange(0, end - 1));
        }
        end -= 1;
    }
    assert(chars@.subrange(0, end as int).last() == chars@[end - 1]);
    assert(trailing_white_space(chars@) == n - end);
    string_of(&chars, start, end)
}

} // verus!
