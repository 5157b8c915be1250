//! Character-level text operations behind keyword filtering and line counting.

use vstd::prelude::*;

verus! {

/// The code points with the Unicode property `White_Space`.
pub open spec fn is_space(c: char) -> bool {
    let n = c as u32;
    ||| 0x09 <= n <= 0x0D
    ||| n == 0x20
    ||| n == 0x85
    ||| n == 0xA0
    ||| n == 0x1680
    ||| 0x2000 <= n <= 0x200A
    ||| n == 0x2028
    ||| n == 0x2029
    ||| n == 0x202F
    ||| n == 0x205F
    ||| n == 0x3000
}

/// Tells whether `c` separates keywords.
pub fn char_is_space(c: char) -> (r: bool)
    ensures
        r == is_space(c),
{
    let n: u32 = c as u32;
    (0x09 <= n && n <= 0x0D) || n == 0x20 || n == 0x85 || n == 0xA0 || n == 0x1680 || (0x2000 <= n
        && n <= 0x200A) || n == 0x2028 || n == 0x2029 || n == 0x202F || n == 0x205F || n == 0x3000
}

/// The characters of `s`, in order.
pub fn chars_of(s: &str) -> (v: Vec<char>)
    ensures
        v@ == s@,
{
    let mut v: Vec<char> = Vec::new();
    for c in it: s.chars()
        invariant
            it.seq() == s@,
            v@ == s@.take(it.index() as int),
    {
        v.push(c);
    }
    v
}

/// The lower-case form of a text, as `str::to_lowercase` computes it.
pub uninterp spec fn lowercase(s: Seq<char>) -> Seq<char>;

/// Calls `str::to_lowercase`. The Unicode case tables are not modelled: the
/// result is only known as `lowercase` of the input's characters.
#[verifier::external_body]
fn to_lowercase(s: &str) -> (r: String)
    ensures
        r@ == lowercase(s@),
{
    s.to_lowercase()
}

/// Collects characters into a `String` with `String::from_iter`: the string
/// holds exactly these characters, in order.
#[verifier::external_body]
fn string_from_chars(chars: &Vec<char>) -> (s: String)
    ensures
        s@ == chars@,
{
    String::from_iter(chars.iter())
}

/// Appends a character with `String::push`.
#[verifier::external_body]
pub(crate) fn push_char(s: &mut String, c: char)
    ensures
        final(s)@ == old(s)@.push(c),
{
    s.push(c)
}

/// Removes the last character with `String::pop`; an empty string stays
/// empty.
#[verifier::external_body]
pub(crate) fn pop_char(s: &mut String)
    ensures
        final(s)@ == without_last(old(s)@),
{
    s.pop();
}

/// A text without its last character; the empty text as it is.
pub open spec fn without_last(s: Seq<char>) -> Seq<char> {
    if s.len() == 0 {
        s
    } else {
        s.drop_last()
    }
}

/// The characters of the lower-case form of `s`.
pub fn lowercase_chars(s: &str) -> (v: Vec<char>)
    ensures
        v@ == lowercase(s@),
{
    let lower = to_lowercase(s);
    chars_of(lower.as_str())
}

/// `needle` stands in `hay` at position `k`.
pub open spec fn occurs_at(hay: Seq<char>, needle: Seq<char>, k: int) -> bool {
    &&& 0 <= k
    &&& k + needle.len() <= hay.len()
    &&& hay.subrange(k, k + needle.len()) == needle
}

/// `needle` is a contiguous part of `hay`.
pub open spec fn is_substring(hay: Seq<char>, needle: Seq<char>) -> bool {
    exists|k: int| occurs_at(hay, needle, k)
}

/// `s[from..to]` is a keyword of `s`: a maximal run of characters that are
/// not white space.
pub open spec fn is_keyword(s: Seq<char>, from: int, to: int) -> bool {
    &&& 0 <= from < to <= s.len()
    &&& forall|i: int| from <= i < to ==> !is_space(#[trigger] s[i])
    &&& (from == 0 || is_space(s[from - 1]))
    &&& (to == s.len() || is_space(s[to]))
}

/// Every keyword of `filter` is a substring of `text`.
pub open spec fn keywords_found(filter: Seq<char>, text: Seq<char>) -> bool {
    forall|from: int, to: int| #[trigger]
        is_keyword(filter, from, to) ==> is_substring(text, filter.subrange(from, to))
}

/// The rule that decides whether an item with display text `text` stays
/// under the filter `filter`: an empty filter keeps everything; otherwise
/// each keyword of the lower-cased filter has to occur in the lower-cased
/// text.
pub open spec fn filter_keeps(filter: Seq<char>, text: Seq<char>) -> bool {
    filter.len() == 0 || keywords_found(lowercase(filter), lowercase(text))
}

fn word_occurs_at(hay: &Vec<char>, text: &Vec<char>, from: usize, to: usize, k: usize) -> (r: bool)
    requires
        from <= to <= text.len(),
        k + (to - from) <= hay.len(),
    ensures
        r == occurs_at(hay@, text@.subrange(from as int, to as int), k as int),
{
    let n: usize = to - from;
    let ghost needle = text@.subrange(from as int, to as int);
    let mut j: usize = 0;
    while j < n
        invariant
            from <= to <= text.len(),
            n == to - from,
            k + n <= hay.len(),
            j <= n,
            needle == text@.subrange(from as int, to as int),
            forall|t: int| 0 <= t < j ==> hay@[k + t] == needle[t],
        decreases n - j,
    {
        if hay[k + j] != text[from + j] {
            assert(needle[j as int] == text@[from + j]);
            return false;
        }
        j += 1;
    }
    proof {
        assert(hay@.subrange(k as int, k + needle.len()) =~= needle);
    }
    true
}

fn word_occurs(hay: &Vec<char>, text: &Vec<char>, from: usize, to: usize) -> (r: bool)
    requires
        from <= to <= text.len(),
    ensures
        r == is_substring(hay@, text@.subrange(from as int, to as int)),
{
    let n: usize = to - from;
    let ghost needle = text@.subrange(from as int, to as int);
    if n == 0 {
        assert(occurs_at(hay@, needle, 0)) by {
            assert(hay@.subrange(0, 0) =~= needle);
        }
        return true;
    }
    if n > hay.len() {
        return false;
    }
    let last: usize = hay.len() - n;
    let mut k: usize = 0;
    while k <= last
        invariant
            from <= to <= text.len(),
            n == to - from,
            1 <= n <= hay.len(),
            last == hay.len() - n,
            k <= last + 1,
            needle == text@.subrange(from as int, to as int),
            forall|t: int| 0 <= t < k ==> !occurs_at(hay@, needle, t),
        decreases last + 1 - k,
    {
        if word_occurs_at(hay, text, from, to, k) {
            return true;
        }
        k += 1;
    }
    false
}

/// Decides `keywords_found` for a filter and a text given by their
/// characters.
pub fn all_keywords_found(filter: &Vec<char>, text: &Vec<char>) -> (r: bool)
    ensures
        r == keywords_found(filter@, text@),
{
    let n: usize = filter.len();
    let mut i: usize = 0;
    while i < n
        invariant
            n == filter.len(),
            i <= n,
            i == 0 || i == n || is_space(filter@[i - 1]) || is_space(filter@[i as int]),
            forall|from: int, to: int| #[trigger]
                is_keyword(filter@, from, to) && to <= i ==> is_substring(
                    text@,
                    filter@.subrange(from, to),
                ),
        decreases n - i,
    {
        if char_is_space(filter[i]) {
            i += 1;
        } else {
            let start: usize = i;
            let mut end: usize = i + 1;
            while end < n && !char_is_space(filter[end])
                invariant
                    n == filter.len(),
                    start < end <= n,
                    forall|t: int| start <= t < end ==> !is_space(#[trigger] filter@[t]),
                decreases n - end,
            {
                end += 1;
            }
            assert(is_keyword(filter@, start as int, end as int));
            let found = word_occurs(text, filter, start, end);
            if !found {
                return false;
            }
            i = end;
        }
    }
    true
}

/// Decides whether an item with display text `text` stays under `filter`.
pub fn matches_filter(filter: &str, text: &str) -> (r: bool)
    ensures
        r == filter_keeps(filter@, text@),
{
    if filter.is_empty() {
        true
    } else {
        let lowered_filter = lowercase_chars(filter);
        let lowered_text = lowercase_chars(text);
        all_keywords_found(&lowered_filter, &lowered_text)
    }
}

/// A copy of `chars`.
pub(crate) fn copy_chars(chars: &Vec<char>) -> (copy: Vec<char>)
    ensures
        copy@ == chars@,
{
    let mut copy: Vec<char> = Vec::new();
    let mut i: usize = 0;
    while i < chars.len()
        invariant
            i <= chars.len(),
            copy@ == chars@.take(i as int),
        decreases chars.len() - i,
    {
        copy.push(chars[i]);
        i += 1;
    }
    copy
}

/// The strings hold, when one more is pushed, one more text.
pub(crate) proof fn lemma_line_texts_push(lines: Seq<String>, line: String)
    ensures
        line_texts(lines.push(line)) == line_texts(lines).push(line@),
{
}

/// Pushes the string that holds `chars` onto `lines`.
pub(crate) fn push_line(lines: &mut Vec<String>, chars: &Vec<char>)
    ensures
        line_texts(final(lines)@) == line_texts(old(lines)@).push(chars@),
{
    let line = string_from_chars(chars);
    proof {
        lemma_line_texts_push(lines@, line);
    }
    lines.push(line);
}

/// A line without the carriage return that stood before its line feed.
pub open spec fn strip_cr(line: Seq<char>) -> Seq<char> {
    if line.len() > 0 && line.last() == '\r' {
        line.drop_last()
    } else {
        line
    }
}

/// The lines of `s` from position `pos` on, where the line that `pos` lies
/// in began at `start`.
pub open spec fn lines_from(s: Seq<char>, start: int, pos: int) -> Seq<Seq<char>>
    decreases s.len() - pos,
{
    if pos >= s.len() {
        if start < s.len() {
            seq![s.subrange(start, s.len() as int)]
        } else {
            seq![]
        }
    } else if s[pos] == '\n' {
        seq![strip_cr(s.subrange(start, pos))] + lines_from(s, pos + 1, pos + 1)
    } else {
        lines_from(s, start, pos + 1)
    }
}

/// The lines of a text: what stands between line feeds, without the line
/// feed and without a carriage return just before it. A text that ends in a
/// line feed has no further, empty line after it.
pub open spec fn text_lines(s: Seq<char>) -> Seq<Seq<char>> {
    lines_from(s, 0, 0)
}

/// The number of line feeds in a text.
pub open spec fn line_feeds(s: Seq<char>) -> nat
    decreases s.len(),
{
    if s.len() == 0 {
        0
    } else if s[0] == '\n' {
        1 + line_feeds(s.drop_first())
    } else {
        line_feeds(s.drop_first())
    }
}

proof fn lemma_lines_from_count(s: Seq<char>, start: int, pos: int)
    requires
        0 <= start <= pos <= s.len(),
        start == 0 || s[start - 1] == '\n',
        forall|i: int| start <= i < pos ==> s[i] != '\n',
    ensures
        lines_from(s, start, pos).len() == line_feeds(s.skip(pos)) + if s.len() > 0 && s.last()
            != '\n' {
            1nat
        } else {
            0nat
        },
    decreases s.len() - pos,
{
    if pos < s.len() {
        assert(s.skip(pos).drop_first() =~= s.skip(pos + 1));
        if s[pos] == '\n' {
            lemma_lines_from_count(s, pos + 1, pos + 1);
        } else {
            lemma_lines_from_count(s, start, pos + 1);
        }
    }
}

/// A text has as many lines as line feeds, and one more where it does not
/// end in a line feed; the empty text has none.
pub proof fn lemma_text_line_count(s: Seq<char>)
    ensures
        text_lines(s).len() == line_feeds(s) + if s.len() > 0 && s.last() != '\n' {
            1nat
        } else {
            0nat
        },
{
    lemma_lines_from_count(s, 0, 0);
    assert(s.skip(0) =~= s);
}

/// What each of the strings holds.
pub open spec fn line_texts(lines: Seq<String>) -> Seq<Seq<char>> {
    Seq::new(lines.len(), |i: int| lines[i]@)
}

/// Splits a text into its lines.
pub fn plain_lines(text: &str) -> (lines: Vec<String>)
    ensures
        line_texts(lines@) == text_lines(text@),
{
    let chars = chars_of(text);
    let n: usize = chars.len();
    let mut lines: Vec<String> = Vec::new();
    let mut current: Vec<char> = Vec::new();
    let mut pos: usize = 0;
    let ghost mut start: int = 0;
    while pos < n
        invariant
            n == chars.len(),
            0 <= start <= pos <= n,
            current@ == chars@.subrange(start, pos as int),
            line_texts(lines@) + lines_from(chars@, start, pos as int) == text_lines(chars@),
        decreases n - pos,
    {
        let c: char = chars[pos];
        if c == '\n' {
            if current.len() > 0 && current[current.len() - 1] == '\r' {
                current.pop();
            }
            push_line(&mut lines, &current);
            current = Vec::new();
            proof {
                start = pos + 1;
            }
            pos += 1;
        } else {
            current.push(c);
            pos += 1;
        }
    }
    if current.len() > 0 {
        push_line(&mut lines, &current);
    }
    lines
}

} // verus!
