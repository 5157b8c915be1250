//! Structured log messages: a message that is a JSON text is shown
//! pretty-printed, one token group per line.

use crate::text::{chars_of, copy_chars, line_texts, push_line};
use vstd::prelude::*;

verus! {

/// `serde_json::Value`, of which nothing is known here but what
/// `value_document` names.
#[verifier::external_type_specification]
#[verifier::external_body]
pub struct ExValue(serde_json::Value);

/// A member of a JSON object.
#[derive(Debug)]
pub struct Member {
    pub key: String,
    pub value: Document,
}

/// A JSON document. A number is held as its decimal text, the members of an
/// object in the order in which they are printed.
#[derive(Debug)]
pub enum Document {
    Null,
    Bool(bool),
    Number(String),
    Text(String),
    Array(Vec<Document>),
    Object(Vec<Member>),
}

/// The document that a parsed JSON value holds.
pub uninterp spec fn value_document(value: serde_json::Value) -> Document;

/// The document that a text is parsed to, or `None` for a text that is not
/// one JSON document.
pub uninterp spec fn json_document(text: Seq<char>) -> Option<Document>;

/// Parses a text with `serde_json::from_str`. The grammar is not modelled:
/// the outcome is only known as `json_document` of the text, with a value
/// returned exactly when the text is a JSON document.
#[verifier::external_body]
fn parse_value(text: &str) -> (r: Option<serde_json::Value>)
    ensures
        match r {
            Some(value) => json_document(text@) == Some(value_document(value)),
            None => json_document(text@) is None,
        },
{
    serde_json::from_str::<serde_json::Value>(text).ok()
}

/// Copies a `serde_json::Value` into a `Document`, variant by variant; a
/// number becomes the text that its `Display` impl writes, an object's
/// members come in the order of `serde_json::Map::iter`.
#[verifier::external_body]
fn document_of(value: &serde_json::Value) -> (d: Document)
    ensures
        d == value_document(*value),
{
    match value {
        serde_json::Value::Null => Document::Null,
        serde_json::Value::Bool(b) => Document::Bool(*b),
        serde_json::Value::Number(n) => Document::Number(n.to_string()),
        serde_json::Value::String(s) => Document::Text(s.clone()),
        serde_json::Value::Array(a) => Document::Array(a.iter().map(document_of).collect()),
        serde_json::Value::Object(o) => Document::Object(
            o.iter().map(|(k, v)| Member { key: k.clone(), value: document_of(v) }).collect(),
        ),
    }
}

/// Parses a text as a JSON document.
pub fn parse_document(text: &str) -> (r: Option<Document>)
    ensures
        r == json_document(text@),
{
    match parse_value(text) {
        Some(value) => Some(document_of(&value)),
        None => None,
    }
}

/// The lower-case hexadecimal digit for `n`.
pub open spec fn hex_digit(n: int) -> char {
    if n == 0 {
        '0'
    } else if n == 1 {
        '1'
    } else if n == 2 {
        '2'
    } else if n == 3 {
        '3'
    } else if n == 4 {
        '4'
    } else if n == 5 {
        '5'
    } else if n == 6 {
        '6'
    } else if n == 7 {
        '7'
    } else if n == 8 {
        '8'
    } else if n == 9 {
        '9'
    } else if n == 10 {
        'a'
    } else if n == 11 {
        'b'
    } else if n == 12 {
        'c'
    } else if n == 13 {
        'd'
    } else if n == 14 {
        'e'
    } else {
        'f'
    }
}

/// How one character of a string is written between the quotes.
pub open spec fn escaped(c: char) -> Seq<char> {
    if c == '"' {
        seq!['\\', '"']
    } else if c == '\\' {
        seq!['\\', '\\']
    } else if c == '\n' {
        seq!['\\', 'n']
    } else if c == '\r' {
        seq!['\\', 'r']
    } else if c == '\t' {
        seq!['\\', 't']
    } else if c == '\u{8}' {
        seq!['\\', 'b']
    } else if c == '\u{c}' {
        seq!['\\', 'f']
    } else if (c as u32) < 0x20 {
        seq!['\\', 'u', '0', '0', hex_digit((c as int) / 16), hex_digit((c as int) % 16)]
    } else {
        seq![c]
    }
}

/// The characters of a string, each written as `escaped` says.
pub open spec fn escaped_text(s: Seq<char>) -> Seq<char>
    decreases s.len(),
{
    if s.len() == 0 {
        seq![]
    } else {
        escaped_text(s.drop_last()) + escaped(s.last())
    }
}

/// A string as JSON writes it.
pub open spec fn quoted(s: Seq<char>) -> Seq<char> {
    seq!['"'] + escaped_text(s) + seq!['"']
}

/// One step of indentation.
pub open spec fn indent_step() -> Seq<char> {
    seq![' ', ' ']
}

/// The lines of a value as they stand inside a container: the first line
/// after `prefix`, the last line before a comma where another value follows.
pub open spec fn framed(prefix: Seq<char>, body: Seq<Seq<char>>, comma: bool) -> Seq<Seq<char>> {
    let opened = body.update(0, prefix + body[0]);
    if comma {
        opened.update(opened.len() - 1, opened.last().push(','))
    } else {
        opened
    }
}

/// The lines of the items of an array whose items are indented by `pad`.
pub open spec fn item_lines(items: Seq<Document>, pad: Seq<char>) -> Seq<Seq<char>>
    decreases items,
{
    if items.len() == 0 {
        seq![]
    } else {
        framed(pad, items[0].body(pad), items.len() > 1) + item_lines(items.drop_first(), pad)
    }
}

/// What stands before the value of a member indented by `pad`.
pub open spec fn member_prefix(key: Seq<char>, pad: Seq<char>) -> Seq<char> {
    pad + quoted(key) + seq![':', ' ']
}

/// The lines of the members of an object whose members are indented by `pad`.
pub open spec fn member_lines(members: Seq<Member>, pad: Seq<char>) -> Seq<Seq<char>>
    decreases members,
{
    if members.len() == 0 {
        seq![]
    } else {
        framed(
            member_prefix(members[0].key@, pad),
            members[0].value.body(pad),
            members.len() > 1,
        ) + member_lines(members.drop_first(), pad)
    }
}

fn hex_digit_char(n: u32) -> (c: char)
    requires
        n < 16,
    ensures
        c == hex_digit(n as int),
{
    if n == 0 {
        '0'
    } else if n == 1 {
        '1'
    } else if n == 2 {
        '2'
    } else if n == 3 {
        '3'
    } else if n == 4 {
        '4'
    } else if n == 5 {
        '5'
    } else if n == 6 {
        '6'
    } else if n == 7 {
        '7'
    } else if n == 8 {
        '8'
    } else if n == 9 {
        '9'
    } else if n == 10 {
        'a'
    } else if n == 11 {
        'b'
    } else if n == 12 {
        'c'
    } else if n == 13 {
        'd'
    } else if n == 14 {
        'e'
    } else {
        'f'
    }
}

fn push_pair(line: &mut Vec<char>, first: char, second: char)
    ensures
        final(line)@ == old(line)@ + seq![first, second],
{
    line.push(first);
    line.push(second);
}

fn push_escaped(line: &mut Vec<char>, c: char)
    ensures
        final(line)@ == old(line)@ + escaped(c),
{
    let n: u32 = c as u32;
    if c == '"' {
        push_pair(line, '\\', '"');
    } else if c == '\\' {
        push_pair(line, '\\', '\\');
    } else if c == '\n' {
        push_pair(line, '\\', 'n');
    } else if c == '\r' {
        push_pair(line, '\\', 'r');
    } else if c == '\t' {
        push_pair(line, '\\', 't');
    } else if c == '\u{8}' {
        push_pair(line, '\\', 'b');
    } else if c == '\u{c}' {
        push_pair(line, '\\', 'f');
    } else if n < 0x20 {
        push_pair(line, '\\', 'u');
        push_pair(line, '0', '0');
        push_pair(line, hex_digit_char(n / 16), hex_digit_char(n % 16));
    } else {
        line.push(c);
    }
}

fn push_quoted(line: &mut Vec<char>, s: &str)
    ensures
        final(line)@ == old(line)@ + quoted(s@),
{
    let chars = chars_of(s);
    let ghost start = line@;
    line.push('"');
    let mut i: usize = 0;
    while i < chars.len()
        invariant
            i <= chars.len(),
            line@ == start + seq!['"'] + escaped_text(chars@.take(i as int)),
        decreases chars.len() - i,
    {
        push_escaped(line, chars[i]);
        proof {
            let next = chars@.take(i + 1);
            assert(next.drop_last() =~= chars@.take(i as int));
        }
        i += 1;
    }
    line.push('"');
    proof {
        assert(chars@.take(chars.len() as int) =~= chars@);
    }
}

/// The last line of a value that stands in a container.
pub open spec fn closed(line: Seq<char>, comma: bool) -> Seq<char> {
    if comma {
        line.push(',')
    } else {
        line
    }
}

fn finish_line(out: &mut Vec<String>, line: Vec<char>, comma: bool)
    ensures
        line_texts(final(out)@) == line_texts(old(out)@).push(closed(line@, comma)),
{
    let mut line = line;
    if comma {
        line.push(',');
    }
    push_line(out, &line);
}

proof fn lemma_framed_single(prefix: Seq<char>, text: Seq<char>, comma: bool)
    ensures
        framed(prefix, seq![text], comma) == seq![closed(prefix + text, comma)],
{
}

proof fn lemma_framed_container(
    prefix: Seq<char>,
    open: char,
    inner: Seq<Seq<char>>,
    pad: Seq<char>,
    close: char,
    comma: bool,
)
    ensures
        framed(prefix, seq![seq![open]] + inner + seq![pad.push(close)], comma) == seq![
            prefix.push(open),
        ] + inner + seq![closed(pad.push(close), comma)],
{
    let body = seq![seq![open]] + inner + seq![pad.push(close)];
    let want = seq![prefix.push(open)] + inner + seq![closed(pad.push(close), comma)];
    let got = framed(prefix, body, comma);
    assert(prefix + body[0] =~= prefix.push(open));
    assert forall|i: int| 0 <= i < got.len() implies got[i] == want[i] by {
        if 0 < i < got.len() - 1 {
            assert(body[i] == inner[i - 1]);
        }
    }
}

impl Document {
    /// The lines of the document where it starts in a line indented by
    /// `pad`; the first line is given without that indentation.
    pub open spec fn body(self, pad: Seq<char>) -> Seq<Seq<char>>
        decreases self,
    {
        match self {
            Document::Null => seq![seq!['n', 'u', 'l', 'l']],
            Document::Bool(b) => if b {
                seq![seq!['t', 'r', 'u', 'e']]
            } else {
                seq![seq!['f', 'a', 'l', 's', 'e']]
            },
            Document::Number(n) => seq![n@],
            Document::Text(t) => seq![quoted(t@)],
            Document::Array(items) => if items@.len() == 0 {
                seq![seq!['[', ']']]
            } else {
                seq![seq!['[']] + item_lines(items@, pad + indent_step()) + seq![pad.push(']')]
            },
            Document::Object(members) => if members@.len() == 0 {
                seq![seq!['{', '}']]
            } else {
                seq![seq!['{']] + member_lines(members@, pad + indent_step()) + seq![
                    pad.push('}'),
                ]
            },
        }
    }

    /// The lines of the pretty-printed document.
    pub open spec fn pretty(self) -> Seq<Seq<char>> {
        self.body(seq![])
    }

    /// The number of lines of the pretty-printed document.
    pub open spec fn line_count(self) -> nat {
        self.pretty().len()
    }

    /// Appends to `out` the lines of the document as they stand after
    /// `prefix` in a line indented by `pad`.
    fn render(&self, pad: &Vec<char>, prefix: Vec<char>, comma: bool, out: &mut Vec<String>)
        ensures
            line_texts(final(out)@) == line_texts(old(out)@) + framed(
                prefix@,
                self.body(pad@),
                comma,
            ),
        decreases self,
    {
        let mut line = prefix;
        match self {
            Document::Null => {
                push_pair(&mut line, 'n', 'u');
                push_pair(&mut line, 'l', 'l');
                assert(line@ =~= prefix@ + seq!['n', 'u', 'l', 'l']);
                finish_line(out, line, comma);
                proof {
                    lemma_framed_single(prefix@, seq!['n', 'u', 'l', 'l'], comma);
                }
            },
            Document::Bool(b) => {
                if *b {
                    push_pair(&mut line, 't', 'r');
                    push_pair(&mut line, 'u', 'e');
                    assert(line@ =~= prefix@ + seq!['t', 'r', 'u', 'e']);
                    proof {
                        lemma_framed_single(prefix@, seq!['t', 'r', 'u', 'e'], comma);
                    }
                } else {
                    push_pair(&mut line, 'f', 'a');
                    push_pair(&mut line, 'l', 's');
                    line.push('e');
                    assert(line@ =~= prefix@ + seq!['f', 'a', 'l', 's', 'e']);
                    proof {
                        lemma_framed_single(prefix@, seq!['f', 'a', 'l', 's', 'e'], comma);
                    }
                }
                finish_line(out, line, comma);
            },
            Document::Number(n) => {
                let digits = chars_of(n.as_str());
                let mut i: usize = 0;
                while i < digits.len()
                    invariant
                        i <= digits.len(),
                        line@ == prefix@ + digits@.take(i as int),
                    decreases digits.len() - i,
                {
                    line.push(digits[i]);
                    i += 1;
                }
                assert(digits@.take(digits.len() as int) =~= n@);
                finish_line(out, line, comma);
                proof {
                    lemma_framed_single(prefix@, n@, comma);
                }
            },
            Document::Text(t) => {
                push_quoted(&mut line, t.as_str());
                finish_line(out, line, comma);
                proof {
                    lemma_framed_single(prefix@, quoted(t@), comma);
                }
            },
            Document::Array(items) => {
                if items.len() == 0 {
                    push_pair(&mut line, '[', ']');
                    finish_line(out, line, comma);
                    proof {
                        lemma_framed_single(prefix@, seq!['[', ']'], comma);
                    }
                } else {
                    line.push('[');
                    push_line(out, &line);
                    let mut inner = copy_chars(pad);
                    push_pair(&mut inner, ' ', ' ');
                    let ghost opened = line_texts(out@);
                    let mut i: usize = 0;
                    assert(items@.skip(0) =~= items@);
                    while i < items.len()
                        invariant
                            i <= items.len(),
                            *self == Document::Array(*items),
                            inner@ == pad@ + indent_step(),
                            line_texts(out@) + item_lines(items@.skip(i as int), inner@) == opened
                                + item_lines(items@, inner@),
                        decreases items.len() - i,
                    {
                        let item_prefix = copy_chars(&inner);
                        assert(decreases_to!(*self => self->Array_0));
                        items[i].render(&inner, item_prefix, i + 1 < items.len(), out);
                        assert(items@.skip(i as int).drop_first() =~= items@.skip(i + 1));
                        i += 1;
                    }
                    let mut last = copy_chars(pad);
                    last.push(']');
                    finish_line(out, last, comma);
                    proof {
                        let lines = item_lines(items@, inner@);
                        lemma_framed_container(prefix@, '[', lines, pad@, ']', comma);
                    }
                }
            },
            Document::Object(members) => {
                if members.len() == 0 {
                    push_pair(&mut line, '{', '}');
                    finish_line(out, line, comma);
                    proof {
                        lemma_framed_single(prefix@, seq!['{', '}'], comma);
                    }
                } else {
                    line.push('{');
                    push_line(out, &line);
                    let mut inner = copy_chars(pad);
                    push_pair(&mut inner, ' ', ' ');
                    let ghost opened = line_texts(out@);
                    let mut i: usize = 0;
                    assert(members@.skip(0) =~= members@);
                    while i < members.len()
                        invariant
                            i <= members.len(),
                            *self == Document::Object(*members),
                            inner@ == pad@ + indent_step(),
                            line_texts(out@) + member_lines(members@.skip(i as int), inner@)
                                == opened + member_lines(members@, inner@),
                        decreases members.len() - i,
                    {
                        let mut member_start = copy_chars(&inner);
                        push_quoted(&mut member_start, members[i].key.as_str());
                        push_pair(&mut member_start, ':', ' ');
                        assert(decreases_to!(*self => self->Object_0));
                        members[i].value.render(&inner, member_start, i + 1 < members.len(), out);
                        assert(members@.skip(i as int).drop_first() =~= members@.skip(i + 1));
                        i += 1;
                    }
                    let mut last = copy_chars(pad);
                    last.push('}');
                    finish_line(out, last, comma);
                    proof {
                        let lines = member_lines(members@, inner@);
                        lemma_framed_container(prefix@, '{', lines, pad@, '}', comma);
                    }
                }
            },
        }
    }

    /// Pretty-prints the document: two spaces per nesting level, each item
    /// of an array and each member of an object on a line of its own, an
    /// empty array or object on one line.
    pub fn pretty_lines(&self) -> (lines: Vec<String>)
        ensures
            line_texts(lines@) == self.pretty(),
    {
        let mut lines: Vec<String> = Vec::new();
        let pad: Vec<char> = Vec::new();
        let prefix: Vec<char> = Vec::new();
        self.render(&pad, prefix, false, &mut lines);
        proof {
            lemma_body_not_empty(*self, seq![]);
        }
        lines
    }
}

/// A document has at least one line.
pub proof fn lemma_body_not_empty(document: Document, pad: Seq<char>)
    ensures
        document.body(pad).len() >= 1,
{
}

/// The number of lines of the pretty-printed items of an array.
pub open spec fn item_line_total(items: Seq<Document>) -> nat
    decreases items,
{
    if items.len() == 0 {
        0
    } else {
        items[0].line_total() + item_line_total(items.drop_first())
    }
}

/// The number of lines of the pretty-printed members of an object.
pub open spec fn member_line_total(members: Seq<Member>) -> nat
    decreases members,
{
    if members.len() == 0 {
        0
    } else {
        members[0].value.line_total() + member_line_total(members.drop_first())
    }
}

impl Document {
    /// The number of lines that the document takes: one for a scalar and
    /// for an empty array or object, and for any other array or object the
    /// lines of what it holds and two more, for the brackets.
    pub open spec fn line_total(self) -> nat
        decreases self,
    {
        match self {
            Document::Array(items) => if items@.len() == 0 {
                1
            } else {
                item_line_total(items@) + 2
            },
            Document::Object(members) => if members@.len() == 0 {
                1
            } else {
                member_line_total(members@) + 2
            },
            _ => 1,
        }
    }
}

/// The pretty-printed document has `line_total` lines, at whatever
/// indentation it is printed.
pub proof fn lemma_body_line_count(document: Document, pad: Seq<char>)
    ensures
        document.body(pad).len() == document.line_total(),
    decreases document,
{
    match document {
        Document::Array(items) => {
            if items@.len() > 0 {
                lemma_item_line_count(items@, pad + indent_step());
            }
        },
        Document::Object(members) => {
            if members@.len() > 0 {
                lemma_member_line_count(members@, pad + indent_step());
            }
        },
        _ => {},
    }
}

/// The items of an array take the lines of each of them.
pub proof fn lemma_item_line_count(items: Seq<Document>, pad: Seq<char>)
    ensures
        item_lines(items, pad).len() == item_line_total(items),
    decreases items,
{
    if items.len() > 0 {
        lemma_body_line_count(items[0], pad);
        lemma_item_line_count(items.drop_first(), pad);
    }
}

/// The members of an object take the lines of each of their values.
pub proof fn lemma_member_line_count(members: Seq<Member>, pad: Seq<char>)
    ensures
        member_lines(members, pad).len() == member_line_total(members),
    decreases members,
{
    if members.len() > 0 {
        lemma_body_line_count(members[0].value, pad);
        lemma_member_line_count(members.drop_first(), pad);
    }
}

/// The line count of a document is `line_total`: it goes by the nesting of
/// the document alone, and is never less than 1.
pub proof fn lemma_line_count(document: Document)
    ensures
        document.line_count() == document.line_total(),
        document.line_count() >= 1,
{
    lemma_body_line_count(document, seq![]);
}

} // verus!
