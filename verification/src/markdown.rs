//! Lays out markdown as styled lines for a terminal: headings with a
//! coloured prefix, quoted blocks with a bar, bullets and numbers for
//! lists, green code, and best-effort tables.
use vstd::prelude::*;
use crate::events::{concat, decimal, u64_to_decimal};
use crate::config::eq_str;
use crate::path::split_lines;
use pulldown_cmark::{
    Alignment, BlockQuoteKind, CodeBlockKind, CowStr, Event, HeadingLevel, LinkType,
    MetadataBlockKind, Options, Parser, Tag, TagEnd,
};

verus! {

#[derive(Debug, Clone, Copy, PartialEq, Eq, Structural)]
pub enum MdColor {
    Cyan,
    Blue,
    Magenta,
    Yellow,
    DarkGray,
    Green,
    White,
    Red,
}

/// A text style: an optional foreground colour and four modifiers.
#[derive(Debug, Clone, Copy, PartialEq, Eq, Structural)]
pub struct MdStyle {
    pub fg: Option<MdColor>,
    pub bold: bool,
    pub italic: bool,
    pub crossed_out: bool,
    pub underlined: bool,
}

/// A run of text in one style.
#[derive(Debug)]
pub struct MdSpan {
    pub text: String,
    pub style: MdStyle,
}

#[derive(Debug, Clone, Copy, PartialEq, Eq, Structural)]
pub enum MdHeading {
    H1,
    H2,
    H3,
    H4,
    H5,
    H6,
}

/// The elements that markdown events open and close.
#[derive(Debug, Clone, Copy, PartialEq, Eq, Structural)]
pub enum MdTag {
    Paragraph,
    Heading(MdHeading),
    BlockQuote,
    CodeBlock,
    List,
    Item,
    Table,
    TableHead,
    TableRow,
    TableCell,
    Emphasis,
    Strong,
    Strikethrough,
    Link,
    Image,
    Other,
}

/// A markdown event. `Start` carries the first number of an ordered list.
#[derive(Debug)]
pub enum MdEvent {
    Start(MdTag, Option<u64>),
    End(MdTag),
    Text(String),
    Code(String),
    SoftBreak,
    HardBreak,
    Rule,
    Other,
}

// ───────────────────────── the parser ─────────────────────────

/// pulldown-cmark's string type, held as it is: its contents are not read
/// here.
#[verifier::external_type_specification]
#[verifier::external_body]
pub struct ExCowStr<'a>(CowStr<'a>);

// The parser's enums below are declared with their variants, as the crate
// defines them, so that the conversion of events can match on them; their
// string fields are `CowStr`, declared above as opaque.
#[verifier::external_type_specification]
pub struct ExHeadingLevel(HeadingLevel);

#[verifier::external_type_specification]
pub struct ExBlockQuoteKind(BlockQuoteKind);

#[verifier::external_type_specification]
pub struct ExMetadataBlockKind(MetadataBlockKind);

#[verifier::external_type_specification]
pub struct ExLinkType(LinkType);

#[verifier::external_type_specification]
pub struct ExAlignment(Alignment);

#[verifier::external_type_specification]
pub struct ExCodeBlockKind<'a>(CodeBlockKind<'a>);

#[verifier::external_type_specification]
pub struct ExTag<'a>(Tag<'a>);

#[verifier::external_type_specification]
pub struct ExTagEnd(TagEnd);

#[verifier::external_type_specification]
pub struct ExEvent<'a>(Event<'a>);

/// The events that pulldown-cmark (with tables and strikethrough) yields
/// for `md`, in the library's form.
pub uninterp spec fn markdown_events_of(md: Seq<char>) -> Seq<MdEvent>;

/// `pulldown_cmark::Parser::new_ext` with tables and strikethrough, each
/// event converted by `event_of`: the contract names the events
/// `markdown_events_of(md@)`; what the parser makes of a text is left to
/// that name.
#[verifier::external_body]
fn markdown_events(md: &str) -> (r: Vec<MdEvent>)
    ensures
        r@ == markdown_events_of(md@),
{
    Parser::new_ext(md, Options::ENABLE_STRIKETHROUGH | Options::ENABLE_TABLES).map(event_of).collect()
}

/// `CowStr::into_string`: the parser's text as an owned string. Nothing is
/// stated of it; the parser's output as a whole is named by
/// `markdown_events_of`.
#[verifier::external_body]
fn cow_string(s: CowStr<'_>) -> String {
    s.into_string()
}

pub open spec fn heading_of_level(l: HeadingLevel) -> MdHeading {
    match l {
        HeadingLevel::H1 => MdHeading::H1,
        HeadingLevel::H2 => MdHeading::H2,
        HeadingLevel::H3 => MdHeading::H3,
        HeadingLevel::H4 => MdHeading::H4,
        HeadingLevel::H5 => MdHeading::H5,
        HeadingLevel::H6 => MdHeading::H6,
    }
}

/// The element that a parser tag opens.
pub open spec fn tag_of_start(t: Tag) -> MdTag {
    match t {
        Tag::Paragraph => MdTag::Paragraph,
        Tag::Heading { level, .. } => MdTag::Heading(heading_of_level(level)),
        Tag::BlockQuote(_) => MdTag::BlockQuote,
        Tag::CodeBlock(_) => MdTag::CodeBlock,
        Tag::List(_) => MdTag::List,
        Tag::Item => MdTag::Item,
        Tag::Table(_) => MdTag::Table,
        Tag::TableHead => MdTag::TableHead,
        Tag::TableRow => MdTag::TableRow,
        Tag::TableCell => MdTag::TableCell,
        Tag::Emphasis => MdTag::Emphasis,
        Tag::Strong => MdTag::Strong,
        Tag::Strikethrough => MdTag::Strikethrough,
        Tag::Link { .. } => MdTag::Link,
        Tag::Image { .. } => MdTag::Image,
        _ => MdTag::Other,
    }
}

/// The element that a parser end tag closes.
pub open spec fn tag_of_end(t: TagEnd) -> MdTag {
    match t {
        TagEnd::Paragraph => MdTag::Paragraph,
        TagEnd::Heading(level) => MdTag::Heading(heading_of_level(level)),
        TagEnd::BlockQuote(_) => MdTag::BlockQuote,
        TagEnd::CodeBlock => MdTag::CodeBlock,
        TagEnd::List(_) => MdTag::List,
        TagEnd::Item => MdTag::Item,
        TagEnd::Table => MdTag::Table,
        TagEnd::TableHead => MdTag::TableHead,
        TagEnd::TableRow => MdTag::TableRow,
        TagEnd::TableCell => MdTag::TableCell,
        TagEnd::Emphasis => MdTag::Emphasis,
        TagEnd::Strong => MdTag::Strong,
        TagEnd::Strikethrough => MdTag::Strikethrough,
        TagEnd::Link => MdTag::Link,
        TagEnd::Image => MdTag::Image,
        _ => MdTag::Other,
    }
}

fn heading_of(l: HeadingLevel) -> (r: MdHeading)
    ensures
        r == heading_of_level(l),
{
    match l {
        HeadingLevel::H1 => MdHeading::H1,
        HeadingLevel::H2 => MdHeading::H2,
        HeadingLevel::H3 => MdHeading::H3,
        HeadingLevel::H4 => MdHeading::H4,
        HeadingLevel::H5 => MdHeading::H5,
        HeadingLevel::H6 => MdHeading::H6,
    }
}

fn start_tag_of(t: &Tag) -> (r: (MdTag, Option<u64>))
    ensures
        r.0 == tag_of_start(*t),
        r.1 == (match *t {
            Tag::List(n) => n,
            _ => None,
        }),
{
    match t {
        Tag::Paragraph => (MdTag::Paragraph, None),
        Tag::Heading { level, .. } => (MdTag::Heading(heading_of(*level)), None),
        Tag::BlockQuote(_) => (MdTag::BlockQuote, None),
        Tag::CodeBlock(_) => (MdTag::CodeBlock, None),
        Tag::List(n) => (MdTag::List, *n),
        Tag::Item => (MdTag::Item, None),
        Tag::Table(_) => (MdTag::Table, None),
        Tag::TableHead => (MdTag::TableHead, None),
        Tag::TableRow => (MdTag::TableRow, None),
        Tag::TableCell => (MdTag::TableCell, None),
        Tag::Emphasis => (MdTag::Emphasis, None),
        Tag::Strong => (MdTag::Strong, None),
        Tag::Strikethrough => (MdTag::Strikethrough, None),
        Tag::Link { .. } => (MdTag::Link, None),
        Tag::Image { .. } => (MdTag::Image, None),
        _ => (MdTag::Other, None),
    }
}

fn end_tag_of(t: TagEnd) -> (r: MdTag)
    ensures
        r == tag_of_end(t),
{
    match t {
        TagEnd::Paragraph => MdTag::Paragraph,
        TagEnd::Heading(level) => MdTag::Heading(heading_of(level)),
        TagEnd::BlockQuote(_) => MdTag::BlockQuote,
        TagEnd::CodeBlock => MdTag::CodeBlock,
        TagEnd::List(_) => MdTag::List,
        TagEnd::Item => MdTag::Item,
        TagEnd::Table => MdTag::Table,
        TagEnd::TableHead => MdTag::TableHead,
        TagEnd::TableRow => MdTag::TableRow,
        TagEnd::TableCell => MdTag::TableCell,
        TagEnd::Emphasis => MdTag::Emphasis,
        TagEnd::Strong => MdTag::Strong,
        TagEnd::Strikethrough => MdTag::Strikethrough,
        TagEnd::Link => MdTag::Link,
        TagEnd::Image => MdTag::Image,
        _ => MdTag::Other,
    }
}

/// A parser event in the library's form: tags by the element they open or
/// close (and the first number of an ordered list), texts and code as
/// strings, breaks and rules as they are, anything else as `Other`.
pub fn event_of(e: Event<'_>) -> (r: MdEvent)
    ensures
        match e {
            Event::Start(t) => r == MdEvent::Start(
                tag_of_start(t),
                match t {
                    Tag::List(n) => n,
                    _ => None,
                },
            ),
            Event::End(t) => r == MdEvent::End(tag_of_end(t)),
            Event::Text(_) => r is Text,
            Event::Code(_) => r is Code,
            Event::SoftBreak => r == MdEvent::SoftBreak,
            Event::HardBreak => r == MdEvent::HardBreak,
            Event::Rule => r == MdEvent::Rule,
            _ => r == MdEvent::Other,
        },
{
    match e {
        Event::Start(t) => {
            let (tag, first) = start_tag_of(&t);
            MdEvent::Start(tag, first)
        },
        Event::End(t) => MdEvent::End(end_tag_of(t)),
        Event::Text(s) => MdEvent::Text(cow_string(s)),
        Event::Code(s) => MdEvent::Code(cow_string(s)),
        Event::SoftBreak => MdEvent::SoftBreak,
        Event::HardBreak => MdEvent::HardBreak,
        Event::Rule => MdEvent::Rule,
        _ => MdEvent::Other,
    }
}

// ───────────────────────── layout ─────────────────────────

/// A span as a value.
pub struct SpanView {
    pub text: Seq<char>,
    pub style: MdStyle,
}

pub open spec fn span_view(s: MdSpan) -> SpanView {
    SpanView { text: s.text@, style: s.style }
}

pub open spec fn spans_view(v: Seq<MdSpan>) -> Seq<SpanView> {
    v.map_values(|s: MdSpan| span_view(s))
}

pub open spec fn lines_view(v: Seq<Vec<MdSpan>>) -> Seq<Seq<SpanView>> {
    v.map_values(|l: Vec<MdSpan>| spans_view(l@))
}

/// The state of the layout between events.
pub struct RenderState {
    /// The finished lines.
    pub lines: Seq<Seq<SpanView>>,
    /// The spans of the line being built.
    pub spans: Seq<SpanView>,
    /// The styles of the open elements; the last one applies to text.
    pub styles: Seq<MdStyle>,
    /// For each open list, the number of its next item (`None`: a bullet list).
    pub lists: Seq<Option<u64>>,
    pub in_code: bool,
    /// How many block quotes are open.
    pub depth: nat,
}

pub open spec fn plain() -> MdStyle {
    MdStyle { fg: None, bold: false, italic: false, crossed_out: false, underlined: false }
}

pub open spec fn colored(c: MdColor) -> MdStyle {
    MdStyle { fg: Some(c), ..plain() }
}

/// The style that text takes: that of the innermost open element.
pub open spec fn current_style(styles: Seq<MdStyle>) -> MdStyle {
    if styles.len() > 0 {
        styles.last()
    } else {
        plain()
    }
}

/// `s` written `n` times.
pub open spec fn repeat(s: Seq<char>, n: nat) -> Seq<char>
    decreases n,
{
    if n == 0 {
        Seq::empty()
    } else {
        repeat(s, (n - 1) as nat) + s
    }
}

pub open spec fn span(text: Seq<char>, style: MdStyle) -> SpanView {
    SpanView { text, style }
}

pub open spec fn init_state() -> RenderState {
    RenderState {
        lines: Seq::empty(),
        spans: Seq::empty(),
        styles: seq![plain()],
        lists: Seq::empty(),
        in_code: false,
        depth: 0,
    }
}

/// Ends the line being built; inside block quotes it starts with one
/// `│ ` per open quote.
pub open spec fn flush(st: RenderState) -> RenderState {
    let prefix = if st.depth > 0 {
        seq![span(repeat("│ "@, st.depth), colored(MdColor::DarkGray))]
    } else {
        Seq::empty()
    };
    RenderState { lines: st.lines.push(prefix + st.spans), spans: Seq::empty(), ..st }
}

/// Adds a finished line.
pub open spec fn add_line(st: RenderState, line: Seq<SpanView>) -> RenderState {
    RenderState { lines: st.lines.push(line), ..st }
}

pub open spec fn add_span(st: RenderState, text: Seq<char>, style: MdStyle) -> RenderState {
    RenderState { spans: st.spans.push(span(text, style)), ..st }
}

pub open spec fn push_style(st: RenderState, style: MdStyle) -> RenderState {
    RenderState { styles: st.styles.push(style), ..st }
}

pub open spec fn pop_style(st: RenderState) -> RenderState {
    RenderState {
        styles: if st.styles.len() > 0 {
            st.styles.drop_last()
        } else {
            st.styles
        },
        ..st
    }
}

/// Colour and prefix of a heading.
pub open spec fn heading_color(h: MdHeading) -> MdColor {
    match h {
        MdHeading::H1 => MdColor::Cyan,
        MdHeading::H2 => MdColor::Blue,
        MdHeading::H3 => MdColor::Magenta,
        MdHeading::H4 => MdColor::Yellow,
        _ => MdColor::DarkGray,
    }
}

pub open spec fn heading_prefix(h: MdHeading) -> Seq<char> {
    match h {
        MdHeading::H1 => "█ "@,
        MdHeading::H2 => "▌ "@,
        MdHeading::H3 => "▎ "@,
        _ => "  "@,
    }
}

pub open spec fn heading_style(h: MdHeading) -> MdStyle {
    MdStyle { bold: true, ..colored(heading_color(h)) }
}

pub open spec fn next_number(n: u64) -> u64 {
    if n == u64::MAX {
        0
    } else {
        (n + 1) as u64
    }
}

/// A new list item: a bullet, or the next number of an ordered list,
/// indented two spaces per enclosing list.
pub open spec fn item_started(st: RenderState) -> RenderState {
    let f = flush(st);
    let indent = repeat("  "@, if f.lists.len() > 0 {
        (f.lists.len() - 1) as nat
    } else {
        0
    });
    if f.lists.len() > 0 && f.lists.last() is Some {
        let n = f.lists.last()->0;
        RenderState {
            lists: f.lists.update(f.lists.len() - 1, Some(next_number(n))),
            ..add_span(f, indent + decimal(n as nat) + ". "@, colored(MdColor::Yellow))
        }
    } else {
        add_span(f, indent + "• "@, colored(MdColor::Yellow))
    }
}

pub open spec fn start_step(st: RenderState, tag: MdTag, first: Option<u64>) -> RenderState {
    match tag {
        MdTag::Heading(h) => push_style(
            add_span(flush(st), heading_prefix(h), heading_style(h)),
            heading_style(h),
        ),
        MdTag::BlockQuote => push_style(
            RenderState { depth: st.depth + 1, ..st },
            colored(MdColor::DarkGray),
        ),
        MdTag::CodeBlock => flush(RenderState { in_code: true, ..st }),
        MdTag::List => RenderState { lists: st.lists.push(first), ..st },
        MdTag::Item => item_started(st),
        MdTag::Strong => push_style(st, MdStyle { bold: true, ..current_style(st.styles) }),
        MdTag::Emphasis => push_style(st, MdStyle { italic: true, ..current_style(st.styles) }),
        MdTag::Strikethrough => push_style(
            st,
            MdStyle { crossed_out: true, ..current_style(st.styles) },
        ),
        MdTag::Link => add_span(
            push_style(st, MdStyle { underlined: true, ..colored(MdColor::Cyan) }),
            "__LINK_URL__"@,
            plain(),
        ),
        MdTag::Image => add_span(st, "__IMAGE_START__"@, plain()),
        MdTag::Table => flush(st),
        MdTag::TableCell => add_span(st, "│ "@, colored(MdColor::DarkGray)),
        _ => st,
    }
}

/// Index of the last span whose text is `marker`.
pub open spec fn last_marker(spans: Seq<SpanView>, marker: Seq<char>) -> Option<int>
    decreases spans.len(),
{
    if spans.len() == 0 {
        None
    } else if spans.last().text == marker {
        Some(spans.len() - 1)
    } else {
        last_marker(spans.drop_last(), marker)
    }
}

/// The texts of `spans`, one after another.
pub open spec fn texts(spans: Seq<SpanView>) -> Seq<char>
    decreases spans.len(),
{
    if spans.len() == 0 {
        Seq::empty()
    } else {
        texts(spans.drop_last()) + spans.last().text
    }
}

/// The end of an image: the text spans since its start become its alt text
/// in a `[image: …]` label (`[image]` without alt text).
pub open spec fn image_ended(st: RenderState) -> RenderState {
    let start = match last_marker(st.spans, "__IMAGE_START__"@) {
        Some(i) => i,
        None => 0,
    };
    let alt = if start + 1 <= st.spans.len() {
        texts(st.spans.skip(start + 1))
    } else {
        Seq::empty()
    };
    let kept = if start < st.spans.len() {
        st.spans.take(start)
    } else {
        st.spans
    };
    let label = if alt.len() == 0 {
        "[image]"@
    } else {
        "[image: "@ + alt + "]"@
    };
    RenderState {
        spans: kept.push(span(label, MdStyle { italic: true, ..colored(MdColor::DarkGray) })),
        ..st
    }
}

pub open spec fn end_step(st: RenderState, tag: MdTag) -> RenderState {
    match tag {
        MdTag::Heading(_) => add_line(flush(pop_style(st)), Seq::empty()),
        MdTag::Paragraph => add_line(flush(st), Seq::empty()),
        MdTag::BlockQuote => flush(
            pop_style(
                RenderState {
                    depth: if st.depth > 0 {
                        (st.depth - 1) as nat
                    } else {
                        0
                    },
                    ..st
                },
            ),
        ),
        MdTag::CodeBlock => add_line(RenderState { in_code: false, ..st }, Seq::empty()),
        MdTag::List => add_line(
            RenderState {
                lists: if st.lists.len() > 0 {
                    st.lists.drop_last()
                } else {
                    st.lists
                },
                ..st
            },
            Seq::empty(),
        ),
        MdTag::Item => flush(st),
        MdTag::Strong => pop_style(st),
        MdTag::Emphasis => pop_style(st),
        MdTag::Strikethrough => pop_style(st),
        MdTag::Link => pop_style(st),
        MdTag::Image => image_ended(st),
        MdTag::Table => add_line(flush(st), Seq::empty()),
        MdTag::TableHead => add_line(
            flush(st),
            seq![span(repeat("─"@, 40), colored(MdColor::DarkGray))],
        ),
        MdTag::TableRow => flush(st),
        MdTag::TableCell => add_span(st, " "@, plain()),
        _ => st,
    }
}

/// Inside a code block every line of a text becomes a green line of its own.
pub open spec fn code_lines(st: RenderState, ls: Seq<Seq<char>>) -> RenderState
    decreases ls.len(),
{
    if ls.len() == 0 {
        st
    } else {
        flush(add_span(code_lines(st, ls.drop_last()), ls.last(), colored(MdColor::Green)))
    }
}

/// The spans without link placeholders.
pub open spec fn without_link_marks(spans: Seq<SpanView>) -> Seq<SpanView>
    decreases spans.len(),
{
    if spans.len() == 0 {
        spans
    } else if spans.last().text == "__LINK_URL__"@ {
        without_link_marks(spans.drop_last())
    } else {
        without_link_marks(spans.drop_last()).push(spans.last())
    }
}

pub open spec fn text_step(st: RenderState, t: Seq<char>) -> RenderState {
    if st.in_code {
        code_lines(st, crate::path::str_lines(t))
    } else {
        add_span(
            RenderState { spans: without_link_marks(st.spans), ..st },
            t,
            current_style(st.styles),
        )
    }
}

pub open spec fn step(st: RenderState, ev: MdEvent) -> RenderState {
    match ev {
        MdEvent::Start(tag, first) => start_step(st, tag, first),
        MdEvent::End(tag) => end_step(st, tag),
        MdEvent::Text(t) => text_step(st, t@),
        MdEvent::Code(t) => add_span(st, t@, colored(MdColor::Green)),
        MdEvent::SoftBreak => add_span(st, " "@, plain()),
        MdEvent::HardBreak => flush(st),
        MdEvent::Rule => add_line(
            add_line(flush(st), seq![span(repeat("─"@, 60), colored(MdColor::DarkGray))]),
            Seq::empty(),
        ),
        MdEvent::Other => st,
    }
}

/// The state after all of `events`.
pub open spec fn run(events: Seq<MdEvent>) -> RenderState
    decreases events.len(),
{
    if events.len() == 0 {
        init_state()
    } else {
        step(run(events.drop_last()), events.last())
    }
}

/// The lines that `events` are laid out as: the finished lines, and the
/// line being built if it is not empty.
pub open spec fn rendered(events: Seq<MdEvent>) -> Seq<Seq<SpanView>> {
    let st = run(events);
    if st.spans.len() > 0 {
        flush(st).lines
    } else {
        st.lines
    }
}

// ───────────────────────── the renderer ─────────────────────────

/// `s` written `n` times.
fn repeat_str(s: &str, n: usize) -> (r: String)
    ensures
        r@ == repeat(s@, n as nat),
{
    let mut r = String::new();
    let mut i: usize = 0;
    while i < n
        invariant
            i <= n,
            r@ == repeat(s@, i as nat),
        decreases n - i,
    {
        r.append(s);
        i = i + 1;
    }
    r
}

fn plain_style() -> (r: MdStyle)
    ensures
        r == plain(),
{
    MdStyle { fg: None, bold: false, italic: false, crossed_out: false, underlined: false }
}

fn colored_style(c: MdColor) -> (r: MdStyle)
    ensures
        r == colored(c),
{
    MdStyle { fg: Some(c), bold: false, italic: false, crossed_out: false, underlined: false }
}

fn copy_span(s: &MdSpan) -> (r: MdSpan)
    ensures
        span_view(r) == span_view(*s),
{
    MdSpan { text: s.text.clone(), style: s.style }
}

proof fn lemma_spans_push(v: Seq<MdSpan>, s: MdSpan)
    ensures
        spans_view(v.push(s)) == spans_view(v).push(span_view(s)),
{
    assert(spans_view(v.push(s)) =~= spans_view(v).push(span_view(s)));
}

proof fn lemma_lines_push(v: Seq<Vec<MdSpan>>, l: Vec<MdSpan>)
    ensures
        lines_view(v.push(l)) == lines_view(v).push(spans_view(l@)),
{
    assert(lines_view(v.push(l)) =~= lines_view(v).push(spans_view(l@)));
}

fn heading_style_of(h: MdHeading) -> (r: MdStyle)
    ensures
        r == heading_style(h),
{
    let c = match h {
        MdHeading::H1 => MdColor::Cyan,
        MdHeading::H2 => MdColor::Blue,
        MdHeading::H3 => MdColor::Magenta,
        MdHeading::H4 => MdColor::Yellow,
        _ => MdColor::DarkGray,
    };
    MdStyle { fg: Some(c), bold: true, italic: false, crossed_out: false, underlined: false }
}

fn heading_prefix_text(h: MdHeading) -> (r: String)
    ensures
        r@ == heading_prefix(h),
{
    match h {
        MdHeading::H1 => String::from_str("█ "),
        MdHeading::H2 => String::from_str("▌ "),
        MdHeading::H3 => String::from_str("▎ "),
        _ => String::from_str("  "),
    }
}

/// Index of the last span whose text is `marker`.
fn find_marker(spans: &Vec<MdSpan>, marker: &str) -> (r: Option<usize>)
    ensures
        match last_marker(spans_view(spans@), marker@) {
            Some(i) => r == Some(i as usize) && 0 <= i < spans.len(),
            None => r is None,
        },
{
    let ghost sv = spans_view(spans@);
    let mut k = spans.len();
    proof {
        assert(sv.take(k as int) =~= sv);
    }
    while k > 0
        invariant
            k <= spans.len(),
            sv == spans_view(spans@),
            last_marker(sv, marker@) == last_marker(sv.take(k as int), marker@),
        decreases k,
    {
        proof {
            assert(sv.take(k as int).last() == sv[k - 1]);
            assert(sv.take(k as int).drop_last() =~= sv.take(k - 1));
        }
        if eq_str(spans[k - 1].text.as_str(), marker) {
            return Some(k - 1);
        }
        k = k - 1;
    }
    proof {
        assert(sv.take(0) =~= Seq::<SpanView>::empty());
    }
    None
}

/// The layout in progress, as `RenderState` describes it.
struct Renderer {
    lines: Vec<Vec<MdSpan>>,
    spans: Vec<MdSpan>,
    styles: Vec<MdStyle>,
    lists: Vec<Option<u64>>,
    in_code: bool,
    depth: usize,
}

impl View for Renderer {
    type V = RenderState;

    closed spec fn view(&self) -> RenderState {
        RenderState {
            lines: lines_view(self.lines@),
            spans: spans_view(self.spans@),
            styles: self.styles@,
            lists: self.lists@,
            in_code: self.in_code,
            depth: self.depth as nat,
        }
    }
}

impl Renderer {
    fn new() -> (r: Renderer)
        ensures
            r@ == init_state(),
    {
        let mut styles: Vec<MdStyle> = Vec::new();
        styles.push(plain_style());
        let r = Renderer {
            lines: Vec::new(),
            spans: Vec::new(),
            styles,
            lists: Vec::new(),
            in_code: false,
            depth: 0,
        };
        proof {
            assert(r@.lines =~= Seq::<Seq<SpanView>>::empty());
            assert(r@.spans =~= Seq::<SpanView>::empty());
            assert(r@.styles =~= seq![plain()]);
        }
        r
    }

    fn add_span(&mut self, text: String, style: MdStyle)
        ensures
            final(self)@ == add_span(old(self)@, text@, style),
    {
        let ghost before = self.spans@;
        let sp = MdSpan { text, style };
        self.spans.push(sp);
        proof {
            lemma_spans_push(before, sp);
        }
    }

    fn add_line(&mut self, line: Vec<MdSpan>)
        ensures
            final(self)@ == add_line(old(self)@, spans_view(line@)),
    {
        let ghost before = self.lines@;
        let ghost l = line;
        self.lines.push(line);
        proof {
            lemma_lines_push(before, l);
        }
    }

    fn flush(&mut self)
        ensures
            final(self)@ == flush(old(self)@),
    {
        let mut line: Vec<MdSpan> = Vec::new();
        if self.depth > 0 {
            line.push(
                MdSpan { text: repeat_str("│ ", self.depth), style: colored_style(MdColor::DarkGray) },
            );
        }
        let ghost prefix = spans_view(line@);
        proof {
            let st = self@;
            assert(prefix =~= (if st.depth > 0 {
                seq![span(repeat("│ "@, st.depth), colored(MdColor::DarkGray))]
            } else {
                Seq::empty()
            }));
        }
        let mut rest: Vec<MdSpan> = Vec::new();
        std::mem::swap(&mut rest, &mut self.spans);
        let ghost taken = rest@;
        line.append(&mut rest);
        proof {
            assert(spans_view(line@) =~= prefix + spans_view(taken));
            assert(spans_view(self.spans@) =~= Seq::<SpanView>::empty());
        }
        self.add_line(line);
    }

    fn push_style(&mut self, style: MdStyle)
        ensures
            final(self)@ == push_style(old(self)@, style),
    {
        self.styles.push(style);
    }

    fn pop_style(&mut self)
        ensures
            final(self)@ == pop_style(old(self)@),
    {
        if self.styles.len() > 0 {
            self.styles.pop();
        }
    }

    fn start_item(&mut self)
        ensures
            final(self)@ == item_started(old(self)@),
    {
        self.flush();
        let k = self.lists.len();
        let indent = repeat_str("  ", if k > 0 { k - 1 } else { 0 });
        if k > 0 && self.lists[k - 1].is_some() {
            let n = self.lists[k - 1].unwrap();
            let next = if n == u64::MAX { 0 } else { n + 1 };
            self.lists.set(k - 1, Some(next));
            let num = u64_to_decimal(n);
            let head = concat(indent.as_str(), num.as_str());
            let text = concat(head.as_str(), ". ");
            self.add_span(text, colored_style(MdColor::Yellow));
        } else {
            let text = concat(indent.as_str(), "• ");
            self.add_span(text, colored_style(MdColor::Yellow));
        }
    }

    fn start(&mut self, tag: MdTag, first: Option<u64>)
        requires
            old(self).depth < usize::MAX,
        ensures
            final(self)@ == start_step(old(self)@, tag, first),
            final(self).depth <= old(self).depth + 1,
    {
        match tag {
            MdTag::Heading(h) => {
                self.flush();
                let style = heading_style_of(h);
                self.add_span(heading_prefix_text(h), style);
                self.push_style(style);
            },
            MdTag::BlockQuote => {
                self.depth = self.depth + 1;
                self.push_style(colored_style(MdColor::DarkGray));
            },
            MdTag::CodeBlock => {
                self.in_code = true;
                self.flush();
            },
            MdTag::List => {
                self.lists.push(first);
            },
            MdTag::Item => {
                self.start_item();
            },
            MdTag::Strong => {
                let base = self.current_style();
                self.push_style(MdStyle { bold: true, ..base });
            },
            MdTag::Emphasis => {
                let base = self.current_style();
                self.push_style(MdStyle { italic: true, ..base });
            },
            MdTag::Strikethrough => {
                let base = self.current_style();
                self.push_style(MdStyle { crossed_out: true, ..base });
            },
            MdTag::Link => {
                self.push_style(MdStyle { underlined: true, ..colored_style(MdColor::Cyan) });
                self.add_span(String::from_str("__LINK_URL__"), plain_style());
            },
            MdTag::Image => {
                self.add_span(String::from_str("__IMAGE_START__"), plain_style());
            },
            MdTag::Table => {
                self.flush();
            },
            MdTag::TableCell => {
                self.add_span(String::from_str("│ "), colored_style(MdColor::DarkGray));
            },
            _ => {},
        }
    }

    fn end_image(&mut self)
        ensures
            final(self)@ == image_ended(old(self)@),
    {
        let ghost sv = self@.spans;
        let n = self.spans.len();
        let start = match find_marker(&self.spans, "__IMAGE_START__") {
            Some(i) => i,
            None => 0,
        };
        let mut alt = String::new();
        if start < n {
            let mut j = start + 1;
            proof {
                assert(sv.subrange(start + 1, j as int) =~= Seq::<SpanView>::empty());
            }
            while j < n
                invariant
                    start < j <= n,
                    n == self.spans.len(),
                    sv == spans_view(self.spans@),
                    alt@ == texts(sv.subrange(start + 1, j as int)),
                decreases n - j,
            {
                proof {
                    let sub = sv.subrange(start + 1, j + 1);
                    assert(sub.drop_last() =~= sv.subrange(start + 1, j as int));
                    assert(sub.last() == sv[j as int]);
                }
                alt.append(self.spans[j].text.as_str());
                j = j + 1;
            }
            proof {
                assert(sv.subrange(start + 1, n as int) =~= sv.skip(start + 1));
            }
            self.spans.truncate(start);
            proof {
                assert(spans_view(self.spans@) =~= sv.take(start as int));
            }
        }
        let label = if alt.as_str().unicode_len() == 0 {
            String::from_str("[image]")
        } else {
            let head = concat("[image: ", alt.as_str());
            concat(head.as_str(), "]")
        };
        self.add_span(label, MdStyle { italic: true, ..colored_style(MdColor::DarkGray) });
    }

    fn add_blank_line(&mut self)
        ensures
            final(self)@ == add_line(old(self)@, Seq::empty()),
    {
        let line: Vec<MdSpan> = Vec::new();
        proof {
            assert(spans_view(line@) =~= Seq::<SpanView>::empty());
        }
        self.add_line(line);
    }

    fn add_rule(&mut self, width: usize)
        ensures
            final(self)@ == add_line(
                old(self)@,
                seq![span(repeat("─"@, width as nat), colored(MdColor::DarkGray))],
            ),
    {
        let mut line: Vec<MdSpan> = Vec::new();
        line.push(MdSpan { text: repeat_str("─", width), style: colored_style(MdColor::DarkGray) });
        proof {
            assert(spans_view(line@) =~= seq![
                span(repeat("─"@, width as nat), colored(MdColor::DarkGray)),
            ]);
        }
        self.add_line(line);
    }

    fn drop_link_marks(&mut self)
        ensures
            final(self)@ == (RenderState {
                spans: without_link_marks(old(self)@.spans),
                ..old(self)@
            }),
    {
        let mut all: Vec<MdSpan> = Vec::new();
        std::mem::swap(&mut all, &mut self.spans);
        let ghost sv = spans_view(all@);
        let mut kept: Vec<MdSpan> = Vec::new();
        let mut i: usize = 0;
        proof {
            assert(sv.take(0) =~= Seq::<SpanView>::empty());
            assert(spans_view(kept@) =~= Seq::<SpanView>::empty());
        }
        while i < all.len()
            invariant
                i <= all.len(),
                sv == spans_view(all@),
                spans_view(kept@) == without_link_marks(sv.take(i as int)),
            decreases all.len() - i,
        {
            proof {
                assert(sv.take(i + 1).drop_last() =~= sv.take(i as int));
                assert(sv.take(i + 1).last() == sv[i as int]);
            }
            if !eq_str(all[i].text.as_str(), "__LINK_URL__") {
                let ghost before = kept@;
                let sp = copy_span(&all[i]);
                kept.push(sp);
                proof {
                    lemma_spans_push(before, sp);
                }
            }
            i = i + 1;
        }
        proof {
            assert(sv.take(all.len() as int) =~= sv);
        }
        self.spans = kept;
    }

    fn text(&mut self, t: &String)
        ensures
            final(self)@ == text_step(old(self)@, t@),
            final(self).depth == old(self).depth,
    {
        if self.in_code {
            let ls = split_lines(t.as_str());
            let ghost lv = ls@.map_values(|x: String| x@);
            let ghost st0 = self@;
            let mut k: usize = 0;
            proof {
                assert(lv.take(0) =~= Seq::<Seq<char>>::empty());
            }
            while k < ls.len()
                invariant
                    k <= ls.len(),
                    lv == ls@.map_values(|x: String| x@),
                    self@ == code_lines(st0, lv.take(k as int)),
                    self.depth == st0.depth,
                decreases ls.len() - k,
            {
                proof {
                    assert(lv.take(k + 1).drop_last() =~= lv.take(k as int));
                    assert(lv.take(k + 1).last() == ls@[k as int]@);
                }
                self.add_span(ls[k].clone(), colored_style(MdColor::Green));
                self.flush();
                k = k + 1;
            }
            proof {
                assert(lv.take(ls.len() as int) =~= lv);
            }
        } else {
            let style = self.current_style();
            self.drop_link_marks();
            self.add_span(t.clone(), style);
        }
    }

    fn end(&mut self, tag: MdTag)
        ensures
            final(self)@ == end_step(old(self)@, tag),
            final(self).depth <= old(self).depth,
    {
        match tag {
            MdTag::Heading(_) => {
                self.pop_style();
                self.flush();
                self.add_blank_line();
            },
            MdTag::Paragraph => {
                self.flush();
                self.add_blank_line();
            },
            MdTag::BlockQuote => {
                self.depth = if self.depth > 0 {
                    self.depth - 1
                } else {
                    0
                };
                self.pop_style();
                self.flush();
            },
            MdTag::CodeBlock => {
                self.in_code = false;
                self.add_blank_line();
            },
            MdTag::List => {
                if self.lists.len() > 0 {
                    self.lists.pop();
                }
                self.add_blank_line();
            },
            MdTag::Item => {
                self.flush();
            },
            MdTag::Strong => {
                self.pop_style();
            },
            MdTag::Emphasis => {
                self.pop_style();
            },
            MdTag::Strikethrough => {
                self.pop_style();
            },
            MdTag::Link => {
                self.pop_style();
            },
            MdTag::Image => {
                self.end_image();
            },
            MdTag::Table => {
                self.flush();
                self.add_blank_line();
            },
            MdTag::TableHead => {
                self.flush();
                self.add_rule(40);
            },
            MdTag::TableRow => {
                self.flush();
            },
            MdTag::TableCell => {
                self.add_span(String::from_str(" "), plain_style());
            },
            _ => {},
        }
    }

    fn step(&mut self, ev: &MdEvent)
        requires
            old(self).depth < usize::MAX,
        ensures
            final(self)@ == step(old(self)@, *ev),
            final(self).depth <= old(self).depth + 1,
    {
        match ev {
            MdEvent::Start(tag, first) => {
                self.start(*tag, *first);
            },
            MdEvent::End(tag) => {
                self.end(*tag);
            },
            MdEvent::Text(t) => {
                self.text(t);
            },
            MdEvent::Code(t) => {
                self.add_span(t.clone(), colored_style(MdColor::Green));
            },
            MdEvent::SoftBreak => {
                self.add_span(String::from_str(" "), plain_style());
            },
            MdEvent::HardBreak => {
                self.flush();
            },
            MdEvent::Rule => {
                self.flush();
                self.add_rule(60);
                self.add_blank_line();
            },
            MdEvent::Other => {},
        }
    }

    fn current_style(&self) -> (r: MdStyle)
        ensures
            r == current_style(self.styles@),
    {
        let n = self.styles.len();
        if n > 0 {
            self.styles[n - 1]
        } else {
            plain_style()
        }
    }
}

/// Lays out `events` as lines of styled spans.
pub fn render_events(events: &Vec<MdEvent>) -> (r: Vec<Vec<MdSpan>>)
    ensures
        lines_view(r@) == rendered(events@),
{
    let mut rd = Renderer::new();
    let mut i: usize = 0;
    proof {
        assert(events@.take(0) =~= Seq::<MdEvent>::empty());
    }
    while i < events.len()
        invariant
            i <= events.len(),
            rd@ == run(events@.take(i as int)),
            rd.depth <= i,
        decreases events.len() - i,
    {
        proof {
            assert(events@.take(i + 1).drop_last() =~= events@.take(i as int));
            assert(events@.take(i + 1).last() == events@[i as int]);
        }
        rd.step(&events[i]);
        i = i + 1;
    }
    proof {
        assert(events@.take(events.len() as int) =~= events@);
    }
    if rd.spans.len() > 0 {
        rd.flush();
    }
    rd.lines
}

/// Lays out the markdown text `md` as lines of styled spans: the layout
/// of the events that pulldown-cmark yields for it.
pub fn render(md: &str) -> (r: Vec<Vec<MdSpan>>)
    ensures
        lines_view(r@) == rendered(markdown_events_of(md@)),
{
    let events = markdown_events(md);
    render_events(&events)
}

/// Opening a strong element keeps every attribute of the style in force
/// (colour, italic, strike-through, underline) and adds bold: text inside
/// it takes that style, and closing it brings back the styles in force
/// before it.
pub proof fn law_strong_keeps_style(st: RenderState, first: Option<u64>, t: Seq<char>)
    requires
        !st.in_code,
    ensures
        ({
            let cur = current_style(st.styles);
            let opened = start_step(st, MdTag::Strong, first);
            let s = current_style(opened.styles);
            &&& s.bold
            &&& s.fg == cur.fg
            &&& s.italic == cur.italic
            &&& s.crossed_out == cur.crossed_out
            &&& s.underlined == cur.underlined
            &&& opened.lines == st.lines
            &&& opened.spans == st.spans
            &&& text_step(opened, t).spans.last() == span(t, s)
            &&& end_step(opened, MdTag::Strong).styles == st.styles
        }),
{
    let opened = start_step(st, MdTag::Strong, first);
    assert(opened.styles.drop_last() =~= st.styles);
}

/// Opening an emphasis or a strike-through keeps every other attribute of
/// the style in force and adds italic or crossing out, and closing it
/// brings back the styles in force before it.
pub proof fn law_emphasis_keeps_style(st: RenderState, first: Option<u64>)
    ensures
        ({
            let cur = current_style(st.styles);
            let e = current_style(start_step(st, MdTag::Emphasis, first).styles);
            let k = current_style(start_step(st, MdTag::Strikethrough, first).styles);
            &&& e.italic
            &&& e.fg == cur.fg && e.bold == cur.bold && e.crossed_out == cur.crossed_out
                && e.underlined == cur.underlined
            &&& k.crossed_out
            &&& k.fg == cur.fg && k.bold == cur.bold && k.italic == cur.italic && k.underlined
                == cur.underlined
            &&& end_step(start_step(st, MdTag::Emphasis, first), MdTag::Emphasis).styles
                == st.styles
            &&& end_step(start_step(st, MdTag::Strikethrough, first), MdTag::Strikethrough).styles
                == st.styles
        }),
{
    assert(start_step(st, MdTag::Emphasis, first).styles.drop_last() =~= st.styles);
    assert(start_step(st, MdTag::Strikethrough, first).styles.drop_last() =~= st.styles);
}

} // verus!
