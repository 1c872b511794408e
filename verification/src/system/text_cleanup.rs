//! Natural Reading: the reply of the text cleanup service, and the
//! conversion of its Markdown to plain text for speech.
//!
//! Markdown is parsed by `pulldown_cmark`; its events are turned into
//! plain text here. The HTTP exchange with the service is left to the
//! caller, which reports how it went as a [`CleanupReply`].
use vstd::prelude::*;

use pulldown_cmark::{Event, Parser};

use crate::text;
use crate::text::{is_whitespace, join_chars, split_chars, string_of, to_chars, trim_chars, word_is};

verus! {

/// The kind of a Markdown element: one variant for each element kind of
/// `pulldown_cmark::Tag`.
#[derive(Debug, Clone, Copy, PartialEq, Eq, Structural)]
pub enum MdTag {
    Paragraph,
    Heading,
    BlockQuote,
    CodeBlock,
    List,
    Item,
    FootnoteDefinition,
    Table,
    TableHead,
    TableRow,
    TableCell,
    Emphasis,
    Strong,
    Strikethrough,
    Link,
    Image,
    /// A name that is none of the above.
    Unknown,
}

/// A Markdown parser event (`pulldown_cmark::Event`), variant for
/// variant. The element of a start or an end is given as the parser's
/// `Debug` output prints it: the element kind's name, followed by its
/// fields in parentheses when it has any (e.g. `Strong`, `Heading(H1, None, [])`).
#[derive(Debug, Clone)]
pub enum MdEvent {
    Start(String),
    End(String),
    Text(String),
    Code(String),
    Html(String),
    FootnoteReference(String),
    SoftBreak,
    HardBreak,
    Rule,
    TaskListMarker(bool),
}

/// The events `pulldown_cmark::Parser::new` yields for `markdown`.
pub uninterp spec fn markdown_events(markdown: Seq<char>) -> Seq<MdEvent>;

/// The events of `markdown`, parsed by `pulldown_cmark` with its default
/// options; each element is handed on in its printed form.
#[verifier::external_body]
fn parse_markdown(markdown: &str) -> (events: Vec<MdEvent>)
    ensures
        events@ == markdown_events(markdown@),
{
    Parser::new(markdown).map(|e| match e {
        Event::Start(t) => MdEvent::Start(format!("{:?}", t)),
        Event::End(t) => MdEvent::End(format!("{:?}", t)),
        Event::Text(t) => MdEvent::Text(t.to_string()),
        Event::Code(t) => MdEvent::Code(t.to_string()),
        Event::Html(t) => MdEvent::Html(t.to_string()),
        Event::FootnoteReference(t) => MdEvent::FootnoteReference(t.to_string()),
        Event::SoftBreak => MdEvent::SoftBreak,
        Event::HardBreak => MdEvent::HardBreak,
        Event::Rule => MdEvent::Rule,
        Event::TaskListMarker(b) => MdEvent::TaskListMarker(b),
    }).collect()
}

/// The name in a printed element: what comes before its first "(".
pub open spec fn tag_name(printed: Seq<char>) -> Seq<char>
    decreases printed.len(),
{
    if printed.len() == 0 || printed[0] == '(' {
        seq![]
    } else {
        seq![printed[0]] + tag_name(printed.drop_first())
    }
}

/// The element kind a printed element names.
pub open spec fn md_tag(printed: Seq<char>) -> MdTag {
    let n = tag_name(printed);
    if n == "Paragraph"@ {
        MdTag::Paragraph
    } else if n == "Heading"@ {
        MdTag::Heading
    } else if n == "BlockQuote"@ {
        MdTag::BlockQuote
    } else if n == "CodeBlock"@ {
        MdTag::CodeBlock
    } else if n == "List"@ {
        MdTag::List
    } else if n == "Item"@ {
        MdTag::Item
    } else if n == "FootnoteDefinition"@ {
        MdTag::FootnoteDefinition
    } else if n == "Table"@ {
        MdTag::Table
    } else if n == "TableHead"@ {
        MdTag::TableHead
    } else if n == "TableRow"@ {
        MdTag::TableRow
    } else if n == "TableCell"@ {
        MdTag::TableCell
    } else if n == "Emphasis"@ {
        MdTag::Emphasis
    } else if n == "Strong"@ {
        MdTag::Strong
    } else if n == "Strikethrough"@ {
        MdTag::Strikethrough
    } else if n == "Link"@ {
        MdTag::Link
    } else if n == "Image"@ {
        MdTag::Image
    } else {
        MdTag::Unknown
    }
}

/// Elements whose end closes a paragraph of speech ("\n\n"): paragraphs,
/// headings and list items.
pub open spec fn ends_paragraph(t: MdTag) -> bool {
    t == MdTag::Paragraph || t == MdTag::Heading || t == MdTag::Item
}

/// Inline elements, whose end leaves the line going: emphasis, strong,
/// strikethrough, links and images.
pub open spec fn is_inline(t: MdTag) -> bool {
    t == MdTag::Emphasis || t == MdTag::Strong || t == MdTag::Strikethrough || t == MdTag::Link
        || t == MdTag::Image
}

/// The text gathered from `events`, and whether the last piece added ends
/// with a line break. Text and code are kept; a line break becomes "\n";
/// the end of a paragraph, heading or list item becomes "\n\n"; the end of
/// an inline element (emphasis, strong, strikethrough, link, image) adds
/// nothing; the end of any other element becomes "\n" unless the last
/// piece already ends with one. Starts, HTML, footnote references, rules and
/// task markers add nothing.
pub open spec fn md_scan(events: Seq<MdEvent>) -> (Seq<char>, bool)
    decreases events.len(),
{
    if events.len() == 0 {
        (seq![], false)
    } else {
        let (t, nl) = md_scan(events.drop_last());
        match events.last() {
            MdEvent::Text(s) => (t + s@, s@.len() > 0 && s@.last() == '\n'),
            MdEvent::Code(s) => (t + s@, s@.len() > 0 && s@.last() == '\n'),
            MdEvent::SoftBreak => (t.push('\n'), true),
            MdEvent::HardBreak => (t.push('\n'), true),
            MdEvent::End(p) => if ends_paragraph(md_tag(p@)) {
                (t + seq!['\n', '\n'], true)
            } else if is_inline(md_tag(p@)) {
                (t, nl)
            } else if nl {
                (t, true)
            } else {
                (t.push('\n'), true)
            },
            _ => (t, nl),
        }
    }
}

fn tag_name_chars(printed: &[char]) -> (r: Vec<char>)
    ensures
        r@ == tag_name(printed@),
{
    let mut r: Vec<char> = Vec::new();
    let mut i: usize = 0;
    assert(printed@.skip(0) =~= printed@);
    while i < printed.len() && printed[i] != '('
        invariant
            i <= printed@.len(),
            tag_name(printed@) == r@ + tag_name(printed@.skip(i as int)),
        decreases printed.len() - i,
    {
        let ghost rest = printed@.skip(i as int);
        assert(rest.drop_first() =~= printed@.skip(i + 1));
        assert(tag_name(rest) == seq![printed@[i as int]] + tag_name(printed@.skip(i + 1)));
        r.push(printed[i]);
        assert(r@ + tag_name(printed@.skip(i + 1)) =~= (r@.drop_last() + seq![printed@[i as int]]) + tag_name(printed@.skip(i + 1)));
        i += 1;
    }
    assert(tag_name(printed@.skip(i as int)) =~= Seq::<char>::empty());
    assert(r@ + Seq::<char>::empty() =~= r@);
    r
}

/// The element kind of a printed element (see [`md_tag`]).
pub fn md_tag_of(printed: &str) -> (t: MdTag)
    ensures
        t == md_tag(printed@),
{
    let v = to_chars(printed);
    let name = tag_name_chars(v.as_slice());
    let n = name.as_slice();
    if word_is(n, "Paragraph") {
        return MdTag::Paragraph;
    }
    if word_is(n, "Heading") {
        return MdTag::Heading;
    }
    if word_is(n, "BlockQuote") {
        return MdTag::BlockQuote;
    }
    if word_is(n, "CodeBlock") {
        return MdTag::CodeBlock;
    }
    if word_is(n, "List") {
        return MdTag::List;
    }
    if word_is(n, "Item") {
        return MdTag::Item;
    }
    if word_is(n, "FootnoteDefinition") {
        return MdTag::FootnoteDefinition;
    }
    if word_is(n, "Table") {
        return MdTag::Table;
    }
    if word_is(n, "TableHead") {
        return MdTag::TableHead;
    }
    if word_is(n, "TableRow") {
        return MdTag::TableRow;
    }
    if word_is(n, "TableCell") {
        return MdTag::TableCell;
    }
    if word_is(n, "Emphasis") {
        return MdTag::Emphasis;
    }
    if word_is(n, "Strong") {
        return MdTag::Strong;
    }
    if word_is(n, "Strikethrough") {
        return MdTag::Strikethrough;
    }
    if word_is(n, "Link") {
        return MdTag::Link;
    }
    if word_is(n, "Image") {
        return MdTag::Image;
    }
    MdTag::Unknown
}

/// `s` with every run of whitespace replaced by one space.
pub open spec fn squeeze_ws(s: Seq<char>) -> Seq<char>
    decreases s.len(),
{
    if s.len() == 0 {
        seq![]
    } else {
        let r = squeeze_ws(s.drop_last());
        if text::is_ws(s.last()) {
            if r.len() > 0 && r.last() == ' ' { r } else { r.push(' ') }
        } else {
            r.push(s.last())
        }
    }
}

/// A line with its words separated by single spaces and no space at
/// either end.
pub open spec fn normalize_line(line: Seq<char>) -> Seq<char> {
    text::trim(squeeze_ws(line))
}

/// The normalized lines that are not empty, in order.
pub open spec fn kept_lines(lines: Seq<Seq<char>>) -> Seq<Seq<char>>
    decreases lines.len(),
{
    if lines.len() == 0 {
        seq![]
    } else {
        let r = kept_lines(lines.drop_last());
        if normalize_line(lines.last()).len() > 0 {
            r.push(normalize_line(lines.last()))
        } else {
            r
        }
    }
}

/// The plain text of Markdown events: the gathered text, cut into lines,
/// each line normalized, empty lines dropped, joined by line breaks.
pub open spec fn plain_text(events: Seq<MdEvent>) -> Seq<char> {
    text::join(kept_lines(text::split_char(md_scan(events).0, '\n')), seq!['\n'])
}

fn squeeze_chars(v: &[char]) -> (r: Vec<char>)
    ensures
        r@ == squeeze_ws(v@),
{
    let mut r: Vec<char> = Vec::new();
    let mut i: usize = 0;
    while i < v.len()
        invariant
            i <= v@.len(),
            r@ == squeeze_ws(v@.take(i as int)),
        decreases v.len() - i,
    {
        assert(v@.take(i + 1).drop_last() =~= v@.take(i as int));
        let c = v[i];
        if is_whitespace(c) {
            if !(r.len() > 0 && r[r.len() - 1] == ' ') {
                r.push(' ');
            }
        } else {
            r.push(c);
        }
        i += 1;
    }
    assert(v@.take(v@.len() as int) =~= v@);
    r
}

fn push_all(dst: &mut Vec<char>, src: &[char])
    ensures
        final(dst)@ == old(dst)@ + src@,
{
    let mut k: usize = 0;
    while k < src.len()
        invariant
            k <= src@.len(),
            dst@ == old(dst)@ + src@.take(k as int),
        decreases src.len() - k,
    {
        dst.push(src[k]);
        assert(src@.take(k + 1) =~= src@.take(k as int).push(src@[k as int]));
        k += 1;
    }
    assert(src@.take(src@.len() as int) =~= src@);
}

/// The plain text of Markdown events (see [`plain_text`]).
pub fn plain_text_of_events(events: &Vec<MdEvent>) -> (r: String)
    ensures
        r@ == plain_text(events@),
{
    let mut t: Vec<char> = Vec::new();
    let mut nl = false;
    let mut i: usize = 0;
    while i < events.len()
        invariant
            i <= events@.len(),
            (t@, nl) == md_scan(events@.take(i as int)),
        decreases events.len() - i,
    {
        assert(events@.take(i + 1).drop_last() =~= events@.take(i as int));
        match &events[i] {
            MdEvent::Text(s) | MdEvent::Code(s) => {
                let c = to_chars(s.as_str());
                push_all(&mut t, c.as_slice());
                nl = c.len() > 0 && c[c.len() - 1] == '\n';
            },
            MdEvent::SoftBreak | MdEvent::HardBreak => {
                t.push('\n');
                nl = true;
            },
            MdEvent::End(p) => {
                let tag = md_tag_of(p.as_str());
                if tag == MdTag::Paragraph || tag == MdTag::Heading || tag == MdTag::Item {
                    t.push('\n');
                    t.push('\n');
                    nl = true;
                } else if tag == MdTag::Emphasis || tag == MdTag::Strong || tag == MdTag::Strikethrough
                    || tag == MdTag::Link || tag == MdTag::Image {
                    // the end of an inline element adds nothing
                } else {
                    if !nl {
                        t.push('\n');
                    }
                    nl = true;
                }
            },
            _ => {},
        }
        i += 1;
    }
    assert(events@.take(events@.len() as int) =~= events@);
    let lines = split_chars(t.as_slice(), '\n');
    let ghost views = lines@.map_values(|p: Vec<char>| p@);
    let mut kept: Vec<Vec<char>> = Vec::new();
    let mut j: usize = 0;
    while j < lines.len()
        invariant
            j <= lines@.len(),
            views == lines@.map_values(|p: Vec<char>| p@),
            kept@.map_values(|p: Vec<char>| p@) == kept_lines(views.take(j as int)),
        decreases lines.len() - j,
    {
        assert(views.take(j + 1).drop_last() =~= views.take(j as int));
        assert(views[j as int] == lines@[j as int]@);
        let squeezed = squeeze_chars(lines[j].as_slice());
        let line = trim_chars(squeezed.as_slice());
        let ghost before = kept@;
        if line.len() > 0 {
            kept.push(line);
            assert(kept@.map_values(|p: Vec<char>| p@) =~= before.map_values(|p: Vec<char>| p@).push(normalize_line(views[j as int])));
        }
        j += 1;
    }
    assert(views.take(lines@.len() as int) =~= views);
    let sep = ['\n'];
    assert(sep@ =~= seq!['\n']);
    let joined = join_chars(&kept, &sep);
    assert(t@ == md_scan(events@).0);
    assert(views == text::split_char(t@, '\n'));
    string_of(joined.as_slice())
}

/// Markdown converted to plain text for speech: formatting dropped (inline
/// markup leaves its text in place, within the line), one line per
/// paragraph, heading, list item, other block or line break, spaces
/// normalized, no empty lines.
pub fn markdown_to_plain_text(markdown: &str) -> (r: String)
    ensures
        r@ == plain_text(markdown_events(markdown@)),
{
    let events = parse_markdown(markdown);
    plain_text_of_events(&events)
}

/// A line of plain text: not empty, no whitespace at either end, no line
/// break, spaces as its only whitespace and never two in a row.
pub open spec fn is_clean_line(l: Seq<char>) -> bool {
    &&& l.len() > 0
    &&& !text::is_ws(l[0]) && !text::is_ws(l.last())
    &&& forall|j: int| 0 <= j < l.len() && text::is_ws(#[trigger] l[j]) ==> l[j] == ' '
    &&& forall|j: int| 0 <= j < l.len() - 1 ==> !(text::is_ws(#[trigger] l[j]) && text::is_ws(l[j + 1]))
}

proof fn lemma_squeeze_clean(s: Seq<char>)
    ensures
        forall|j: int| 0 <= j < squeeze_ws(s).len() && text::is_ws(#[trigger] squeeze_ws(s)[j]) ==> squeeze_ws(s)[j] == ' ',
        forall|j: int| 0 <= j < squeeze_ws(s).len() - 1
            ==> !(text::is_ws(#[trigger] squeeze_ws(s)[j]) && text::is_ws(squeeze_ws(s)[j + 1])),
    decreases s.len(),
{
    if s.len() > 0 {
        lemma_squeeze_clean(s.drop_last());
        let r = squeeze_ws(s.drop_last());
        let q = squeeze_ws(s);
        assert forall|j: int| 0 <= j < q.len() - 1 implies !(text::is_ws(#[trigger] q[j]) && text::is_ws(q[j + 1])) by {
            if j < r.len() - 1 {
                assert(q[j] == r[j] && q[j + 1] == r[j + 1]);
            } else if j == r.len() - 1 && q.len() > r.len() {
                assert(q[j] == r[j]);
                if text::is_ws(r[j]) {
                    assert(r[j] == ' ');
                }
            }
        }
        assert forall|j: int| 0 <= j < q.len() && text::is_ws(#[trigger] q[j]) implies q[j] == ' ' by {
            if j < r.len() {
                assert(q[j] == r[j]);
            }
        }
    }
}

/// Every normalized, non-empty line is a clean line.
pub proof fn lemma_normalized_line_clean(line: Seq<char>)
    requires
        normalize_line(line).len() > 0,
    ensures
        is_clean_line(normalize_line(line)),
{
    let q = squeeze_ws(line);
    lemma_squeeze_clean(line);
    let (a, b) = text::lemma_trim_piece(q);
    let t = normalize_line(line);
    assert forall|j: int| 0 <= j < t.len() && text::is_ws(#[trigger] t[j]) implies t[j] == ' ' by {
        assert(t[j] == q[a + j]);
    }
    assert forall|j: int| 0 <= j < t.len() - 1 implies !(text::is_ws(#[trigger] t[j]) && text::is_ws(t[j + 1])) by {
        assert(t[j] == q[a + j] && t[j + 1] == q[a + j + 1]);
    }
}

proof fn lemma_kept_lines_clean(lines: Seq<Seq<char>>)
    ensures
        forall|i: int| 0 <= i < kept_lines(lines).len() ==> is_clean_line(#[trigger] kept_lines(lines)[i]),
    decreases lines.len(),
{
    if lines.len() > 0 {
        let r = kept_lines(lines.drop_last());
        lemma_kept_lines_clean(lines.drop_last());
        if normalize_line(lines.last()).len() > 0 {
            lemma_normalized_line_clean(lines.last());
            assert forall|i: int| 0 <= i < kept_lines(lines).len() implies is_clean_line(#[trigger] kept_lines(lines)[i]) by {
                if i < r.len() {
                    assert(kept_lines(lines)[i] == r[i]);
                }
            }
        }
    }
}

/// The plain text of Markdown is a sequence of clean lines: split at its
/// line breaks, every line is non-empty, has no whitespace at either end,
/// and has single spaces between its words. (Empty text has no lines.)
pub proof fn lemma_plain_text_lines(events: Seq<MdEvent>)
    ensures
        plain_text(events).len() > 0 ==> forall|i: int| 0 <= i < text::split_char(plain_text(events), '\n').len()
            ==> is_clean_line(#[trigger] text::split_char(plain_text(events), '\n')[i]),
{
    let ls = kept_lines(text::split_char(md_scan(events).0, '\n'));
    lemma_kept_lines_clean(text::split_char(md_scan(events).0, '\n'));
    if ls.len() > 0 {
        assert forall|i: int, j: int| 0 <= i < ls.len() && 0 <= j < ls[i].len() implies ls[i][j] != '\n' by {
            assert(is_clean_line(ls[i]));
            if ls[i][j] == '\n' {
                assert(text::is_ws(ls[i][j]));
            }
        }
        text::lemma_split_join(ls, '\n');
    }
}

/// Events that carry no text to speak: element starts, raw HTML, footnote
/// references, rules and task list markers.
pub open spec fn is_markup(e: MdEvent) -> bool {
    e is Start || e is Html || e is FootnoteReference || e is Rule || e is TaskListMarker
}

proof fn lemma_md_scan_skips_markup(a: Seq<MdEvent>, e: MdEvent, b: Seq<MdEvent>)
    requires
        is_markup(e),
    ensures
        md_scan(a.push(e) + b) == md_scan(a + b),
    decreases b.len(),
{
    if b.len() == 0 {
        assert(a.push(e) + b =~= a.push(e));
        assert(a + b =~= a);
        assert(a.push(e).drop_last() =~= a);
    } else {
        let b1 = b.drop_last();
        lemma_md_scan_skips_markup(a, e, b1);
        assert((a.push(e) + b).drop_last() =~= a.push(e) + b1);
        assert((a + b).drop_last() =~= a + b1);
        assert((a.push(e) + b).last() == b.last());
        assert((a + b).last() == b.last());
    }
}

/// Markup adds nothing to the spoken text: dropping an element start, a
/// piece of raw HTML, a footnote reference, a rule or a task list marker
/// from anywhere in the events leaves the plain text as it was.
pub proof fn lemma_markup_adds_nothing(a: Seq<MdEvent>, e: MdEvent, b: Seq<MdEvent>)
    requires
        is_markup(e),
    ensures
        plain_text(a.push(e) + b) == plain_text(a + b),
{
    lemma_md_scan_skips_markup(a, e, b);
}

/// Only text and code reach the spoken text: every character gathered from
/// the events is a line break or a character of a text or code event.
pub proof fn lemma_scan_chars_from_text(events: Seq<MdEvent>)
    ensures
        forall|i: int| 0 <= i < md_scan(events).0.len() ==> md_scan(events).0[i] == '\n' || exists|k: int, j: int|
            0 <= k < events.len() && #[trigger] text_char(events[k], j) == Some(md_scan(events).0[i]),
    decreases events.len(),
{
    if events.len() > 0 {
        let d = events.drop_last();
        lemma_scan_chars_from_text(d);
        let (t, nl) = md_scan(d);
        let r = md_scan(events).0;
        assert forall|i: int| 0 <= i < r.len() implies r[i] == '\n' || exists|k: int, j: int|
            0 <= k < events.len() && #[trigger] text_char(events[k], j) == Some(r[i]) by {
            if i < t.len() {
                assert(r[i] == t[i]);
                if t[i] != '\n' {
                    let (k, j) = choose|k: int, j: int| 0 <= k < d.len() && #[trigger] text_char(d[k], j) == Some(t[i]);
                    assert(events[k] == d[k]);
                }
            } else {
                let k = events.len() - 1;
                match events.last() {
                    MdEvent::Text(s) => {
                        assert(text_char(events[k], i - t.len()) == Some(r[i]));
                    },
                    MdEvent::Code(s) => {
                        assert(text_char(events[k], i - t.len()) == Some(r[i]));
                    },
                    _ => {},
                }
            }
        }
    }
}

/// The `j`-th character of a text or code event.
pub open spec fn text_char(e: MdEvent, j: int) -> Option<char> {
    match e {
        MdEvent::Text(s) => if 0 <= j < s@.len() { Some(s@[j]) } else { None },
        MdEvent::Code(s) => if 0 <= j < s@.len() { Some(s@[j]) } else { None },
        _ => None,
    }
}

/// Some text or code event holds the character `c`.
pub open spec fn in_text(events: Seq<MdEvent>, c: char) -> bool {
    exists|k: int, j: int| 0 <= k < events.len() && #[trigger] text_char(events[k], j) == Some(c)
}

/// Every character of `s` satisfies `p`.
pub open spec fn all_chars(s: Seq<char>, p: spec_fn(char) -> bool) -> bool {
    forall|j: int| 0 <= j < s.len() ==> p(#[trigger] s[j])
}

proof fn lemma_split_chars(s: Seq<char>, c: char, p: spec_fn(char) -> bool)
    requires
        all_chars(s, p),
    ensures
        forall|i: int| 0 <= i < text::split_char(s, c).len() ==> all_chars(#[trigger] text::split_char(s, c)[i], p),
    decreases s.len(),
{
    text::lemma_find_char(s, c);
    let i = text::find_char(s, c);
    if 0 <= i < s.len() {
        let rest = s.skip(i + 1);
        assert(all_chars(rest, p)) by {
            assert forall|j: int| 0 <= j < rest.len() implies p(#[trigger] rest[j]) by {
                assert(rest[j] == s[i + 1 + j]);
            }
        }
        lemma_split_chars(rest, c, p);
        let head = s.take(i);
        assert(all_chars(head, p)) by {
            assert forall|j: int| 0 <= j < head.len() implies p(#[trigger] head[j]) by {
                assert(head[j] == s[j]);
            }
        }
        let parts = text::split_char(s, c);
        assert(parts == seq![head] + text::split_char(rest, c));
        assert forall|k: int| 0 <= k < parts.len() implies all_chars(#[trigger] parts[k], p) by {
            if k > 0 {
                assert(parts[k] == text::split_char(rest, c)[k - 1]);
            }
        }
    }
}

proof fn lemma_squeeze_chars(s: Seq<char>, p: spec_fn(char) -> bool)
    requires
        all_chars(s, p),
        p(' '),
    ensures
        all_chars(squeeze_ws(s), p),
    decreases s.len(),
{
    if s.len() > 0 {
        let d = s.drop_last();
        assert(all_chars(d, p)) by {
            assert forall|j: int| 0 <= j < d.len() implies p(#[trigger] d[j]) by {
                assert(d[j] == s[j]);
            }
        }
        lemma_squeeze_chars(d, p);
        let r = squeeze_ws(d);
        let q = squeeze_ws(s);
        assert(p(s[s.len() - 1]));
        assert forall|j: int| 0 <= j < q.len() implies p(#[trigger] q[j]) by {
            if j < r.len() {
                assert(q[j] == r[j]);
            }
        }
    }
}

proof fn lemma_normalize_chars(line: Seq<char>, p: spec_fn(char) -> bool)
    requires
        all_chars(line, p),
        p(' '),
    ensures
        all_chars(normalize_line(line), p),
{
    lemma_squeeze_chars(line, p);
    let q = squeeze_ws(line);
    let (a, b) = text::lemma_trim_piece(q);
    let t = normalize_line(line);
    assert forall|j: int| 0 <= j < t.len() implies p(#[trigger] t[j]) by {
        assert(t[j] == q[a + j]);
    }
}

proof fn lemma_kept_chars(lines: Seq<Seq<char>>, p: spec_fn(char) -> bool)
    requires
        forall|i: int| 0 <= i < lines.len() ==> all_chars(#[trigger] lines[i], p),
        p(' '),
    ensures
        forall|i: int| 0 <= i < kept_lines(lines).len() ==> all_chars(#[trigger] kept_lines(lines)[i], p),
    decreases lines.len(),
{
    if lines.len() > 0 {
        let d = lines.drop_last();
        assert forall|i: int| 0 <= i < d.len() implies all_chars(#[trigger] d[i], p) by {
            assert(d[i] == lines[i]);
        }
        lemma_kept_chars(d, p);
        assert(all_chars(lines[lines.len() - 1], p));
        lemma_normalize_chars(lines.last(), p);
        let r = kept_lines(d);
        let k = kept_lines(lines);
        assert forall|i: int| 0 <= i < k.len() implies all_chars(#[trigger] k[i], p) by {
            if i < r.len() {
                assert(k[i] == r[i]);
            }
        }
    }
}

proof fn lemma_join_chars(ws: Seq<Seq<char>>, sep: Seq<char>, p: spec_fn(char) -> bool)
    requires
        forall|i: int| 0 <= i < ws.len() ==> all_chars(#[trigger] ws[i], p),
        all_chars(sep, p),
    ensures
        all_chars(text::join(ws, sep), p),
    decreases ws.len(),
{
    if ws.len() >= 2 {
        let d = ws.drop_last();
        assert forall|i: int| 0 <= i < d.len() implies all_chars(#[trigger] d[i], p) by {
            assert(d[i] == ws[i]);
        }
        lemma_join_chars(d, sep, p);
        let a = text::join(d, sep);
        let l = ws[ws.len() - 1];
        assert(all_chars(l, p));
        let j = text::join(ws, sep);
        assert(j == a + sep + l);
        assert forall|k: int| 0 <= k < j.len() implies p(#[trigger] j[k]) by {
            if k < a.len() {
                assert(j[k] == a[k]);
            } else if k < a.len() + sep.len() {
                assert(j[k] == sep[k - a.len()]);
            } else {
                assert(j[k] == l[k - a.len() - sep.len()]);
            }
        }
    } else if ws.len() == 1 {
        assert(all_chars(ws[0], p));
    }
}

/// The spoken text is made of the document's words only: every character
/// of the plain text is a line break, a space, or a character of some text
/// or code event. Markup (HTML, element names, link targets) never reaches
/// it.
pub proof fn lemma_plain_text_chars(events: Seq<MdEvent>)
    ensures
        forall|i: int| 0 <= i < plain_text(events).len() ==> ({
            let c = #[trigger] plain_text(events)[i];
            c == '\n' || c == ' ' || in_text(events, c)
        }),
{
    let p = |c: char| c == '\n' || c == ' ' || in_text(events, c);
    let scan = md_scan(events).0;
    lemma_scan_chars_from_text(events);
    assert(all_chars(scan, p)) by {
        assert forall|j: int| 0 <= j < scan.len() implies p(#[trigger] scan[j]) by {
            if scan[j] != '\n' {
                let (k, m) = choose|k: int, m: int| 0 <= k < events.len() && #[trigger] text_char(events[k], m) == Some(scan[j]);
                assert(in_text(events, scan[j]));
            }
        }
    }
    lemma_split_chars(scan, '\n', p);
    lemma_kept_chars(text::split_char(scan, '\n'), p);
    assert(all_chars(seq!['\n'], p));
    lemma_join_chars(kept_lines(text::split_char(scan, '\n')), seq!['\n'], p);
    let pt = plain_text(events);
    assert forall|i: int| 0 <= i < pt.len() implies ({
        let c = #[trigger] pt[i];
        c == '\n' || c == ' ' || in_text(events, c)
    }) by {
        assert(p(pt[i]));
    }
}

/// How the exchange with the cleanup service went.
#[derive(Debug, Clone)]
pub enum CleanupReply {
    /// The service could not be reached (the transport's message).
    ConnectFailed(String),
    /// The service answered with an error status (its printed status, such
    /// as "500 Internal Server Error", and the body).
    HttpError { status: String, body: String },
    /// The answer could not be read as a cleanup response.
    BadResponse(String),
    /// The cleaned content (Markdown).
    Cleaned(String),
}

/// The text to speak, or the error message, for a cleanup reply.
pub open spec fn spec_cleanup_text(reply: CleanupReply) -> Result<Seq<char>, Seq<char>> {
    match reply {
        CleanupReply::ConnectFailed(e) => Err("Failed to connect to cleanup API: "@ + e@),
        CleanupReply::HttpError { status, body } => Err("Cleanup API error ("@ + status@ + "): "@ + body@),
        CleanupReply::BadResponse(e) => Err("Failed to parse cleanup API response: "@ + e@),
        CleanupReply::Cleaned(content) => Ok(plain_text(markdown_events(content@))),
    }
}

/// The text to speak after the cleanup service answered: its content as
/// plain text, or the error to show.
pub fn cleanup_text(reply: CleanupReply) -> (r: Result<String, String>)
    ensures
        r is Ok <==> spec_cleanup_text(reply) is Ok,
        r is Ok ==> r->Ok_0@ == spec_cleanup_text(reply)->Ok_0,
        r is Err ==> r->Err_0@ == spec_cleanup_text(reply)->Err_0,
{
    match reply {
        CleanupReply::ConnectFailed(e) => {
            let mut m = "Failed to connect to cleanup API: ".to_owned();
            text::push_chars(&mut m, to_chars(e.as_str()).as_slice());
            Err(m)
        },
        CleanupReply::HttpError { status, body } => {
            let mut m = "Cleanup API error (".to_owned();
            text::push_chars(&mut m, to_chars(status.as_str()).as_slice());
            let mid = to_chars("): ");
            text::push_chars(&mut m, mid.as_slice());
            text::push_chars(&mut m, to_chars(body.as_str()).as_slice());
            Err(m)
        },
        CleanupReply::BadResponse(e) => {
            let mut m = "Failed to parse cleanup API response: ".to_owned();
            text::push_chars(&mut m, to_chars(e.as_str()).as_slice());
            Err(m)
        },
        CleanupReply::Cleaned(content) => Ok(markdown_to_plain_text(content.as_str())),
    }
}

// ----------------------------------------------------------------------------
// The request to the cleanup service
// ----------------------------------------------------------------------------

/// The address of the text cleanup service.
pub open spec fn cleanup_api_url() -> Seq<char> {
    "http://localhost:8080/api/content-cleanup"@
}

/// The lower case hexadecimal digits.
pub open spec fn hex_digits() -> Seq<char> {
    seq!['0', '1', '2', '3', '4', '5', '6', '7', '8', '9', 'a', 'b', 'c', 'd', 'e', 'f']
}

/// One character inside a JSON string: the quote and the backslash are
/// escaped, the control characters below U+0020 are written as `\b`, `\t`,
/// `\n`, `\f`, `\r` or `\u00XX`; every other character stands as itself.
pub open spec fn json_escape_char(c: char) -> Seq<char> {
    if c == '"' {
        seq!['\\', '"']
    } else if c == '\\' {
        seq!['\\', '\\']
    } else if c == '\u{8}' {
        seq!['\\', 'b']
    } else if c == '\t' {
        seq!['\\', 't']
    } else if c == '\n' {
        seq!['\\', 'n']
    } else if c == '\u{c}' {
        seq!['\\', 'f']
    } else if c == '\r' {
        seq!['\\', 'r']
    } else if (c as u32) < 0x20 {
        let n = c as u32 as int;
        seq!['\\', 'u', '0', '0'] + seq![hex_digits()[n / 16], hex_digits()[n % 16]]
    } else {
        seq![c]
    }
}

/// The characters of a JSON string literal's contents for `s`.
pub open spec fn json_escape(s: Seq<char>) -> Seq<char>
    decreases s.len(),
{
    if s.len() == 0 {
        seq![]
    } else {
        json_escape(s.drop_last()) + json_escape_char(s.last())
    }
}

/// The request body for `text`: the JSON object `{"content": text}`,
/// written compactly.
pub open spec fn cleanup_request_body(text: Seq<char>) -> Seq<char> {
    "{\"content\":\""@ + json_escape(text) + "\"}"@
}

/// A request to the cleanup service: it is POSTed to `url` with the JSON
/// `body`.
#[derive(Debug, Clone)]
pub struct CleanupRequest {
    pub url: String,
    pub body: String,
}

fn push_json_escaped(out: &mut Vec<char>, c: char)
    ensures
        final(out)@ == old(out)@ + json_escape_char(c),
{
    let hex = ['0', '1', '2', '3', '4', '5', '6', '7', '8', '9', 'a', 'b', 'c', 'd', 'e', 'f'];
    assert(hex@ =~= hex_digits());
    let ghost before = out@;
    if c == '"' {
        out.push('\\');
        out.push('"');
    } else if c == '\\' {
        out.push('\\');
        out.push('\\');
    } else if c == '\u{8}' {
        out.push('\\');
        out.push('b');
    } else if c == '\t' {
        out.push('\\');
        out.push('t');
    } else if c == '\n' {
        out.push('\\');
        out.push('n');
    } else if c == '\u{c}' {
        out.push('\\');
        out.push('f');
    } else if c == '\r' {
        out.push('\\');
        out.push('r');
    } else if (c as u32) < 0x20 {
        let n = c as u32;
        out.push('\\');
        out.push('u');
        out.push('0');
        out.push('0');
        out.push(hex[(n / 16) as usize]);
        out.push(hex[(n % 16) as usize]);
    } else {
        out.push(c);
    }
    assert(out@ =~= before + json_escape_char(c));
}

/// The request that asks the cleanup service to clean `text`: a POST to
/// [`cleanup_api_url`] whose body is `{"content": text}` in JSON.
pub fn cleanup_request(text: &str) -> (r: CleanupRequest)
    ensures
        r.url@ == cleanup_api_url(),
        r.body@ == cleanup_request_body(text@),
{
    let v = to_chars(text);
    let mut out: Vec<char> = to_chars("{\"content\":\"");
    let ghost head = out@;
    let mut i: usize = 0;
    while i < v.len()
        invariant
            i <= v@.len(),
            head == "{\"content\":\""@,
            out@ == head + json_escape(v@.take(i as int)),
        decreases v.len() - i,
    {
        assert(v@.take(i + 1).drop_last() =~= v@.take(i as int));
        assert(v@.take(i + 1).last() == v@[i as int]);
        push_json_escaped(&mut out, v[i]);
        assert(out@ =~= head + json_escape(v@.take(i + 1)));
        i += 1;
    }
    assert(v@.take(v@.len() as int) =~= v@);
    let tail = to_chars("\"}");
    push_all(&mut out, tail.as_slice());
    assert(out@ =~= cleanup_request_body(text@));
    CleanupRequest { url: "http://localhost:8080/api/content-cleanup".to_owned(), body: string_of(out.as_slice()) }
}

} // verus!
