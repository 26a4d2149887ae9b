//! The preview transducer: consumes an ordered stream of markup events
//! exactly once and emits styled, line-wrapped text for a fixed-width
//! viewport.
//!
//! The whole transform is specified as a fold: `spec_handle_event` is the
//! transition of one event over the writer state, `spec_run_events` folds
//! it over the stream, and every handler of the executable writer is
//! proved equal to its spec transition. The transform is a pure function
//! of the event stream and the viewport width; nothing persists across
//! invocations.

use vstd::prelude::*;
use crate::event::{CodeKind, HeadingLevel, LinkKind, MdEvent, QuoteKind, Tag, TagEnd};
use crate::highlight;
use crate::highlight::{highlighted, syntax_known};
use crate::strutil;
use crate::strutil::{drop_last_safe, repeat_seq, spec_decimal, spec_split_lines, spec_zero_pad, strs_view};
use crate::style;
use crate::style::{Color, TextStyle};
use crate::text::{
    lines_view, spans_view, spec_empty_line, spec_raw_line, spec_styled_line, LineView, SpanView,
    StyledLine, StyledSpan,
};
use vstd::string::StringExecFns;

verus! {

// ------------------------------------------------------------------
// Fixed style and glyph tables
// ------------------------------------------------------------------
/// Line-level style of a heading marker line: levels one and two are
/// bold and underlined in distinct colors, level three bold italic,
/// deeper levels italic only.
pub open spec fn spec_heading_style(level: HeadingLevel) -> TextStyle {
    match level {
        HeadingLevel::H1 => TextStyle {
            fg: Some(style::spec_peach()),
            bold: true,
            italic: false,
            underlined: true,
            crossed_out: false,
        },
        HeadingLevel::H2 => TextStyle {
            fg: Some(style::spec_yellow()),
            bold: true,
            italic: false,
            underlined: true,
            crossed_out: false,
        },
        HeadingLevel::H3 => TextStyle {
            fg: Some(style::spec_green()),
            bold: true,
            italic: true,
            underlined: false,
            crossed_out: false,
        },
        _ => TextStyle {
            fg: Some(style::spec_teal()),
            bold: false,
            italic: true,
            underlined: false,
            crossed_out: false,
        },
    }
}

#[verifier::when_used_as_spec(spec_heading_style)]
pub fn heading_style(level: HeadingLevel) -> (s: TextStyle)
    ensures
        s == spec_heading_style(level),
{
    match level {
        HeadingLevel::H1 => TextStyle {
            fg: Some(style::peach()),
            bold: true,
            italic: false,
            underlined: true,
            crossed_out: false,
        },
        HeadingLevel::H2 => TextStyle {
            fg: Some(style::yellow()),
            bold: true,
            italic: false,
            underlined: true,
            crossed_out: false,
        },
        HeadingLevel::H3 => TextStyle {
            fg: Some(style::green()),
            bold: true,
            italic: true,
            underlined: false,
            crossed_out: false,
        },
        _ => TextStyle {
            fg: Some(style::teal()),
            bold: false,
            italic: true,
            underlined: false,
            crossed_out: false,
        },
    }
}

/// The marker that opens a heading line: one block glyph per level,
/// then a space.
pub open spec fn spec_heading_marker(level: HeadingLevel) -> Seq<char> {
    repeat_seq("▌"@, level.spec_depth() as nat) + " "@
}

/// The line prefix of a block quote, by kind. Note and tip share one
/// glyph pair; the other kinds each have their own.
pub open spec fn spec_quote_prefix(kind: QuoteKind) -> Seq<char> {
    match kind {
        QuoteKind::Plain => "▌ "@,
        QuoteKind::Note => "▌✎ "@,
        QuoteKind::Tip => "▌✎ "@,
        QuoteKind::Warning => "▌⚠ "@,
        QuoteKind::Caution => "▌✖ "@,
        QuoteKind::Important => "▌🔥 "@,
    }
}

pub fn quote_prefix(kind: QuoteKind) -> (s: &'static str)
    ensures
        s@ == spec_quote_prefix(kind),
{
    match kind {
        QuoteKind::Plain => "▌ ",
        QuoteKind::Note => "▌✎ ",
        QuoteKind::Tip => "▌✎ ",
        QuoteKind::Warning => "▌⚠ ",
        QuoteKind::Caution => "▌✖ ",
        QuoteKind::Important => "▌🔥 ",
    }
}

/// The line color of a block quote, by kind. Note and tip share one
/// color; warning and important share another; the glyph still tells
/// them apart.
pub open spec fn spec_quote_color(kind: QuoteKind) -> Color {
    match kind {
        QuoteKind::Plain => style::spec_green(),
        QuoteKind::Note => style::spec_teal(),
        QuoteKind::Tip => style::spec_teal(),
        QuoteKind::Warning => style::spec_peach(),
        QuoteKind::Caution => style::spec_maroon(),
        QuoteKind::Important => style::spec_peach(),
    }
}

#[verifier::when_used_as_spec(spec_quote_color)]
pub fn quote_color(kind: QuoteKind) -> (c: Color)
    ensures
        c == spec_quote_color(kind),
{
    match kind {
        QuoteKind::Plain => style::green(),
        QuoteKind::Note => style::teal(),
        QuoteKind::Tip => style::teal(),
        QuoteKind::Warning => style::peach(),
        QuoteKind::Caution => style::maroon(),
        QuoteKind::Important => style::peach(),
    }
}

/// The bullet glyph of an unordered list item, keyed by nesting depth.
pub open spec fn spec_bullet(depth: nat) -> Seq<char> {
    if depth == 1 {
        "■ "@
    } else if depth == 2 {
        "‣  "@
    } else {
        "· "@
    }
}

pub fn bullet(depth: usize) -> (s: &'static str)
    ensures
        s@ == spec_bullet(depth as nat),
{
    if depth == 1 {
        "■ "
    } else if depth == 2 {
        "‣  "
    } else {
        "· "
    }
}

// ------------------------------------------------------------------
// Width arithmetic, clamped so narrow viewports never underflow
// ------------------------------------------------------------------
/// Length of a thematic-break line: the width minus the border budget,
/// never below zero.
pub open spec fn spec_rule_len(width: u16) -> nat {
    if width >= 2 {
        (width - 2) as nat
    } else {
        0
    }
}

/// Length of the filler of a code block's top border.
pub open spec fn spec_top_filler_len(width: u16, lang_len: nat) -> nat {
    if width >= 7 + lang_len {
        (width - 7 - lang_len) as nat
    } else {
        0
    }
}

/// Length of the filler of a code block's bottom border.
pub open spec fn spec_bottom_filler_len(width: u16) -> nat {
    if width >= 3 {
        (width - 3) as nat
    } else {
        0
    }
}

/// The top border of a code block: an opening glyph, the language token
/// in a bracketed segment if present, and clamped filler.
pub open spec fn spec_top_border(lang: Seq<char>, width: u16) -> Seq<char> {
    "╒══"@ + (if lang.len() > 0 {
        " "@ + lang + " "@
    } else {
        "══"@
    }) + repeat_seq("═"@, spec_top_filler_len(width, lang.len()))
}

/// The bottom border of a code block.
pub open spec fn spec_bottom_border(width: u16) -> Seq<char> {
    "└"@ + repeat_seq("─"@, spec_bottom_filler_len(width))
}

/// Indentation width of a list item at a nesting depth (clamped at the
/// machine bound for pathological depths).
pub open spec fn spec_item_width(depth: nat) -> nat {
    if 4 * depth <= usize::MAX as nat {
        (4 * depth - 3) as nat
    } else {
        usize::MAX as nat
    }
}

/// The rendered marker of an ordered list item numbered `n` at `width`:
/// the number zero-padded to the indentation width, a period, a space.
pub open spec fn spec_ordered_marker(n: u64, width: nat) -> Seq<char> {
    spec_zero_pad(spec_decimal(n as nat), width) + ". "@
}

/// The padding-then-glyph marker of an unordered item.
pub open spec fn spec_unordered_marker(depth: nat, width: nat) -> Seq<char> {
    repeat_seq(" "@, (width - 1) as nat) + spec_bullet(depth)
}

/// The language token of a code block: fenced blocks carry theirs,
/// indented blocks have none.
pub open spec fn spec_code_lang(kind: CodeKind) -> Seq<char> {
    match kind {
        CodeKind::Fenced(l) => l@,
        CodeKind::Indented => ""@,
    }
}

// ------------------------------------------------------------------
// The writer state and its transitions
// ------------------------------------------------------------------
/// The mathematical state of the writer: the lines emitted so far and
/// the nesting stacks that decorate what comes next.
#[verifier::ext_equal]
pub ghost struct WriterV {
    /// Lines emitted so far.
    pub text: Seq<LineView>,
    /// Nested inline style scopes; the last entry styles new text.
    pub inline_styles: Seq<TextStyle>,
    /// Prefixes put before every emitted line, outermost first.
    pub line_prefixes: Seq<Seq<char>>,
    /// Nested line-level styles; the last entry is patched onto new lines.
    pub line_styles: Seq<TextStyle>,
    /// The language bound to an active code highlighter, if any.
    pub code_lang: Option<Seq<char>>,
    /// Nesting list counters; `None` is an unordered level.
    pub list_indices: Seq<Option<u64>>,
    /// A pending link destination awaiting its closing tag.
    pub link: Option<Seq<char>>,
    /// Whether the next block must first emit a separating blank line.
    pub needs_newline: bool,
    /// Viewport width in character columns.
    pub area_width: u16,
}

/// The initial state: everything empty, no separator owed.
pub open spec fn spec_init(width: u16) -> WriterV {
    WriterV {
        text: Seq::empty(),
        inline_styles: Seq::empty(),
        line_prefixes: Seq::empty(),
        line_styles: Seq::empty(),
        code_lang: None,
        list_indices: Seq::empty(),
        link: None,
        needs_newline: false,
        area_width: width,
    }
}

/// The style of freshly emitted text: the top of the style stack, or
/// the default style when the stack is empty.
pub open spec fn spec_top_inline_style(w: WriterV) -> TextStyle {
    if w.inline_styles.len() > 0 {
        w.inline_styles.last()
    } else {
        TextStyle::spec_plain()
    }
}

/// The line-level style patched onto every emitted line.
pub open spec fn spec_top_line_style(w: WriterV) -> TextStyle {
    if w.line_styles.len() > 0 {
        w.line_styles.last()
    } else {
        TextStyle::spec_plain()
    }
}

/// The prefix texts as unstyled spans, outermost first.
pub open spec fn spec_prefix_spans(prefixes: Seq<Seq<char>>) -> Seq<SpanView> {
    prefixes.map_values(|p: Seq<char>| SpanView { text: p, style: TextStyle::spec_plain() })
}

/// A line as it is emitted: the current line style patched on, and all
/// open prefixes plus one separating space put in front of its spans.
pub open spec fn spec_decorated(w: WriterV, line: LineView) -> LineView {
    let style = line.style.spec_patch(spec_top_line_style(w));
    if w.line_prefixes.len() == 0 {
        LineView { spans: line.spans, style }
    } else {
        LineView {
            spans: spec_prefix_spans(w.line_prefixes) + seq![
                SpanView { text: " "@, style: TextStyle::spec_plain() },
            ] + line.spans,
            style,
        }
    }
}

/// Starts a new output line.
pub open spec fn spec_push_line(w: WriterV, line: LineView) -> WriterV {
    WriterV { text: w.text.push(spec_decorated(w, line)), ..w }
}

/// Emits a blank separator line.
pub open spec fn spec_blank_line(w: WriterV) -> WriterV {
    spec_push_line(w, spec_empty_line())
}

/// Appends a span to the current line, starting one if there is none.
pub open spec fn spec_push_span(w: WriterV, span: SpanView) -> WriterV {
    if w.text.len() > 0 {
        WriterV {
            text: w.text.update(
                w.text.len() - 1,
                LineView { spans: w.text.last().spans.push(span), style: w.text.last().style },
            ),
            ..w
        }
    } else {
        spec_push_line(w, LineView { spans: seq![span], style: TextStyle::spec_plain() })
    }
}

/// Emits the owed separator blank line, if any.
pub open spec fn spec_separator(w: WriterV) -> WriterV {
    if w.needs_newline {
        spec_blank_line(w)
    } else {
        w
    }
}

pub open spec fn spec_start_paragraph(w: WriterV) -> WriterV {
    WriterV { needs_newline: false, ..spec_blank_line(spec_separator(w)) }
}

pub open spec fn spec_end_paragraph(w: WriterV) -> WriterV {
    WriterV { needs_newline: true, ..w }
}

pub open spec fn spec_start_heading(w: WriterV, level: HeadingLevel) -> WriterV {
    let w1 = spec_push_line(
        spec_separator(w),
        spec_styled_line(spec_heading_marker(level), spec_heading_style(level)),
    );
    WriterV { needs_newline: false, ..w1 }
}

pub open spec fn spec_end_heading(w: WriterV) -> WriterV {
    WriterV { needs_newline: true, ..w }
}

pub open spec fn spec_start_blockquote(w: WriterV, kind: QuoteKind) -> WriterV {
    let w1 = if w.needs_newline {
        WriterV { needs_newline: false, ..spec_blank_line(w) }
    } else {
        w
    };
    WriterV {
        line_prefixes: w1.line_prefixes.push(spec_quote_prefix(kind)),
        line_styles: w1.line_styles.push(TextStyle::spec_fg_only(spec_quote_color(kind))),
        ..w1
    }
}

pub open spec fn spec_end_blockquote(w: WriterV) -> WriterV {
    WriterV {
        line_prefixes: drop_last_safe(w.line_prefixes),
        line_styles: drop_last_safe(w.line_styles),
        needs_newline: true,
        ..w
    }
}

/// A highlighted code line as emitted: only the innermost prefix is put
/// in front of it, with no separating space and no line-style patch.
pub open spec fn spec_code_prefixed(prefixes: Seq<Seq<char>>, line: LineView) -> LineView {
    if prefixes.len() == 0 {
        line
    } else {
        LineView {
            spans: seq![SpanView { text: prefixes.last(), style: TextStyle::spec_plain() }]
                + line.spans,
            style: line.style,
        }
    }
}

/// One pass of the plain-text loop over the physical lines of a text
/// run: an owed separator first, then a fresh line before every segment
/// but the first, then the segment under the current inline style.
pub open spec fn spec_text_segments(w: WriterV, segs: Seq<Seq<char>>, first: bool) -> WriterV
    decreases segs.len(),
{
    if segs.len() == 0 {
        w
    } else {
        let wa = if w.needs_newline {
            WriterV { needs_newline: false, ..spec_blank_line(w) }
        } else {
            w
        };
        let wb = if !first {
            spec_blank_line(wa)
        } else {
            wa
        };
        let wc = spec_push_span(
            wb,
            SpanView { text: segs.first(), style: spec_top_inline_style(wb) },
        );
        spec_text_segments(wc, segs.drop_first(), false)
    }
}

/// A text run: highlighted line by line while a code highlighter is
/// bound, otherwise split at line breaks and appended under the current
/// inline style.
pub open spec fn spec_text(w: WriterV, s: Seq<char>) -> WriterV {
    if w.code_lang is Some {
        let lines = highlighted(w.code_lang.unwrap(), s).map_values(
            |l: LineView| spec_code_prefixed(w.line_prefixes, l),
        );
        WriterV { text: w.text + lines, needs_newline: false, ..w }
    } else {
        WriterV { needs_newline: false, ..spec_text_segments(w, spec_split_lines(s), true) }
    }
}

/// An inline code span: one span in the fixed code style, never in the
/// surrounding inline style.
pub open spec fn spec_code(w: WriterV, s: Seq<char>) -> WriterV {
    spec_push_span(w, SpanView { text: s, style: style::spec_code_style() })
}

pub open spec fn spec_rule(w: WriterV) -> WriterV {
    spec_push_line(w, spec_raw_line(repeat_seq("─"@, spec_rule_len(w.area_width))))
}

/// Soft and hard breaks both start a new line.
pub open spec fn spec_break(w: WriterV) -> WriterV {
    spec_push_line(w, spec_empty_line())
}

pub open spec fn spec_start_list(w: WriterV, index: Option<u64>) -> WriterV {
    let w1 = if w.list_indices.len() == 0 && w.needs_newline {
        spec_blank_line(w)
    } else {
        w
    };
    WriterV { list_indices: w1.list_indices.push(index), ..w1 }
}

pub open spec fn spec_end_list(w: WriterV) -> WriterV {
    WriterV { list_indices: drop_last_safe(w.list_indices), needs_newline: true, ..w }
}

/// A counter bumped without ever wrapping.
pub open spec fn spec_bump(n: u64) -> u64 {
    if n < u64::MAX {
        (n + 1) as u64
    } else {
        n
    }
}

pub open spec fn spec_start_item(w: WriterV) -> WriterV {
    let w1 = spec_push_line(w, spec_empty_line());
    if w.list_indices.len() == 0 {
        WriterV { needs_newline: false, ..w1 }
    } else {
        let depth = w.list_indices.len();
        let width = spec_item_width(depth);
        match w.list_indices.last() {
            None => {
                let w2 = spec_push_span(
                    w1,
                    SpanView {
                        text: spec_unordered_marker(depth, width),
                        style: TextStyle::spec_plain(),
                    },
                );
                WriterV { needs_newline: false, ..w2 }
            },
            Some(n) => {
                let w2 = spec_push_span(
                    w1,
                    SpanView {
                        text: spec_ordered_marker(n, width),
                        style: style::spec_list_index_style(),
                    },
                );
                WriterV {
                    list_indices: w2.list_indices.update(depth - 1, Some(spec_bump(n))),
                    needs_newline: false,
                    ..w2
                }
            },
        }
    }
}

pub open spec fn spec_start_codeblock(w: WriterV, lang: Seq<char>) -> WriterV {
    let w1 = if w.text.len() > 0 {
        spec_blank_line(w)
    } else {
        w
    };
    let w2 = WriterV { line_styles: w1.line_styles.push(style::spec_code_style()), ..w1 };
    let w3 = WriterV {
        code_lang: if syntax_known(lang) {
            Some(lang)
        } else {
            w2.code_lang
        },
        ..w2
    };
    let w4 = spec_push_line(w3, spec_raw_line(spec_top_border(lang, w.area_width)));
    WriterV { line_prefixes: w4.line_prefixes.push("│"@), needs_newline: true, ..w4 }
}

pub open spec fn spec_end_codeblock(w: WriterV) -> WriterV {
    let w1 = WriterV { line_prefixes: drop_last_safe(w.line_prefixes), ..w };
    let w2 = spec_push_line(w1, spec_raw_line(spec_bottom_border(w.area_width)));
    WriterV {
        needs_newline: true,
        line_styles: drop_last_safe(w2.line_styles),
        code_lang: None,
        ..w2
    }
}

/// Push composes: the new scope's explicit attributes are overlaid onto
/// the current top, and the composed result is what gets recorded.
pub open spec fn spec_push_inline_style(w: WriterV, style: TextStyle) -> WriterV {
    WriterV {
        inline_styles: w.inline_styles.push(spec_top_inline_style(w).spec_patch(style)),
        ..w
    }
}

/// Pop removes exactly the top entry; popping an empty stack is a no-op.
pub open spec fn spec_pop_inline_style(w: WriterV) -> WriterV {
    WriterV { inline_styles: drop_last_safe(w.inline_styles), ..w }
}

/// An autolink opens an inline style scope; any other link buffers its
/// destination until the closing tag.
pub open spec fn spec_push_link(w: WriterV, kind: LinkKind, dest: Seq<char>) -> WriterV {
    match kind {
        LinkKind::Autolink => spec_push_inline_style(
            WriterV { link: None, ..w },
            style::spec_autolink_style(),
        ),
        LinkKind::Other => WriterV { link: Some(dest), ..w },
    }
}

/// Closing a link appends " (destination)" with the destination in the
/// link style; closing an autolink just pops its style scope.
pub open spec fn spec_pop_link(w: WriterV) -> WriterV {
    match w.link {
        Some(l) => {
            let w1 = spec_push_span(
                w,
                SpanView { text: " ("@, style: TextStyle::spec_plain() },
            );
            let w2 = spec_push_span(w1, SpanView { text: l, style: style::spec_link_style() });
            let w3 = spec_push_span(
                w2,
                SpanView { text: ")"@, style: TextStyle::spec_plain() },
            );
            WriterV { link: None, ..w3 }
        },
        None => spec_pop_inline_style(w),
    }
}

/// Dispatch of a start tag. Unsupported containers produce no output.
pub open spec fn spec_start_tag(w: WriterV, tag: Tag) -> WriterV {
    match tag {
        Tag::Paragraph => spec_start_paragraph(w),
        Tag::Heading(level) => spec_start_heading(w, level),
        Tag::BlockQuote(kind) => spec_start_blockquote(w, kind),
        Tag::CodeBlock(kind) => spec_start_codeblock(w, spec_code_lang(kind)),
        Tag::List(index) => spec_start_list(w, index),
        Tag::Item => spec_start_item(w),
        Tag::Emphasis => spec_push_inline_style(w, style::spec_emphasis_style()),
        Tag::Strong => spec_push_inline_style(w, style::spec_strong_style()),
        Tag::Strikethrough => spec_push_inline_style(w, style::spec_strikethrough_style()),
        Tag::Link(kind, dest, _title) => spec_push_link(w, kind, dest@),
        Tag::Other => w,
    }
}

/// Dispatch of an end tag. Item and unsupported ends change nothing.
pub open spec fn spec_end_tag(w: WriterV, tag: TagEnd) -> WriterV {
    match tag {
        TagEnd::Paragraph => spec_end_paragraph(w),
        TagEnd::Heading => spec_end_heading(w),
        TagEnd::BlockQuote => spec_end_blockquote(w),
        TagEnd::CodeBlock => spec_end_codeblock(w),
        TagEnd::List => spec_end_list(w),
        TagEnd::Item => w,
        TagEnd::Emphasis => spec_pop_inline_style(w),
        TagEnd::Strong => spec_pop_inline_style(w),
        TagEnd::Strikethrough => spec_pop_inline_style(w),
        TagEnd::Link => spec_pop_link(w),
        TagEnd::Other => w,
    }
}

/// The transition of one event. Events outside the supported set leave
/// the state unchanged: a partially unsupported document still renders
/// everything it can.
pub open spec fn spec_handle_event(w: WriterV, ev: MdEvent) -> WriterV {
    match ev {
        MdEvent::Start(tag) => spec_start_tag(w, tag),
        MdEvent::End(tag) => spec_end_tag(w, tag),
        MdEvent::Text(s) => spec_text(w, s@),
        MdEvent::Code(s) => spec_code(w, s@),
        MdEvent::SoftBreak => spec_break(w),
        MdEvent::HardBreak => spec_break(w),
        MdEvent::Rule => spec_rule(w),
        MdEvent::Other => w,
    }
}

/// The fold of the whole stream, in order, each event consumed once.
pub open spec fn spec_run_events(w: WriterV, events: Seq<MdEvent>) -> WriterV
    decreases events.len(),
{
    if events.len() == 0 {
        w
    } else {
        spec_run_events(spec_handle_event(w, events.first()), events.drop_first())
    }
}

/// The complete transform: the lines produced by folding the stream
/// over the initial state. A pure function of its two arguments.
pub open spec fn spec_render(events: Seq<MdEvent>, width: u16) -> Seq<LineView> {
    spec_run_events(spec_init(width), events).text
}

// ------------------------------------------------------------------
// The executable writer
// ------------------------------------------------------------------
/// The output accumulator and its nesting stacks. All handlers append
/// through two primitives: start a new line, append a span to the
/// current line.
pub struct TextWriter {
    /// Lines emitted so far.
    pub text: Vec<StyledLine>,
    /// Stack of inline styles; the last entry styles new text.
    pub inline_styles: Vec<TextStyle>,
    /// Prefixes put before every emitted line, outermost first.
    pub line_prefixes: Vec<String>,
    /// Stack of line-level styles.
    pub line_styles: Vec<TextStyle>,
    /// The language bound to an active code highlighter, if any.
    pub code_lang: Option<String>,
    /// List counters, one per open list; `None` is unordered.
    pub list_indices: Vec<Option<u64>>,
    /// A pending link destination awaiting its closing tag.
    pub link: Option<String>,
    /// Whether the next block must first emit a separating blank line.
    pub needs_newline: bool,
    /// Viewport width in character columns.
    pub area_width: u16,
}

impl View for TextWriter {
    type V = WriterV;

    open spec fn view(&self) -> WriterV {
        WriterV {
            text: lines_view(self.text@),
            inline_styles: self.inline_styles@,
            line_prefixes: strs_view(self.line_prefixes@),
            line_styles: self.line_styles@,
            code_lang: match self.code_lang {
                Some(l) => Some(l@),
                None => None,
            },
            list_indices: self.list_indices@,
            link: match self.link {
                Some(l) => Some(l@),
                None => None,
            },
            needs_newline: self.needs_newline,
            area_width: self.area_width,
        }
    }
}

impl TextWriter {
    /// The one invariant the handlers rely on: a bound highlighter
    /// language is always one the highlighter recognizes.
    pub open spec fn wf(self) -> bool {
        self@.code_lang is Some ==> syntax_known(self@.code_lang.unwrap())
    }

    pub fn new(area_width: u16) -> (w: TextWriter)
        ensures
            w@ == spec_init(area_width),
            w.wf(),
    {
        let w = TextWriter {
            text: Vec::new(),
            inline_styles: Vec::new(),
            line_prefixes: Vec::new(),
            line_styles: Vec::new(),
            code_lang: None,
            list_indices: Vec::new(),
            link: None,
            needs_newline: false,
            area_width,
        };
        proof {
            assert(w@ =~= spec_init(area_width));
        }
        w
    }

    /// Starts a new output line: the current line style is patched on
    /// and every open prefix, plus one separating space, goes in front.
    fn push_line(&mut self, line: StyledLine)
        ensures
            final(self)@ == spec_push_line(old(self)@, line@),
    {
        let ghost lv = line@;
        let top = if self.line_styles.len() > 0 {
            self.line_styles[self.line_styles.len() - 1]
        } else {
            TextStyle::plain()
        };
        let mut spans: Vec<StyledSpan> = Vec::new();
        if self.line_prefixes.len() > 0 {
            let k = self.line_prefixes.len();
            let mut i: usize = 0;
            while i < k
                invariant
                    i <= k,
                    k == self.line_prefixes@.len(),
                    spans@.len() == i,
                    forall|j: int|
                        0 <= j < i ==> #[trigger] spans@[j]@ == (SpanView {
                            text: self.line_prefixes@[j]@,
                            style: TextStyle::spec_plain(),
                        }),
                decreases k - i,
            {
                let p = self.line_prefixes[i].clone();
                spans.push(StyledSpan::new(p, TextStyle::plain()));
                i = i + 1;
            }
            spans.push(StyledSpan::new(" ".to_owned(), TextStyle::plain()));
            proof {
                assert(spans_view(spans@) =~= spec_prefix_spans(
                    strs_view(self.line_prefixes@),
                ) + seq![SpanView { text: " "@, style: TextStyle::spec_plain() }]);
            }
        }
        let mut line = line;
        let patched = line.style.patch(top);
        spans.append(&mut line.spans);
        let decorated = StyledLine { spans, style: patched };
        proof {
            assert(decorated@.spans =~= spec_decorated(old(self)@, lv).spans);
            assert(decorated@ =~= spec_decorated(old(self)@, lv));
        }
        self.text.push(decorated);
        proof {
            assert(lines_view(self.text@) =~= lines_view(old(self).text@).push(decorated@));
            assert(self@ =~= spec_push_line(old(self)@, lv));
        }
    }

    /// Appends a span to the current line, starting one if there is none.
    fn push_span(&mut self, span: StyledSpan)
        ensures
            final(self)@ == spec_push_span(old(self)@, span@),
    {
        let ghost sv = span@;
        if self.text.len() > 0 {
            let popped = self.text.pop();
            let mut last = match popped {
                Some(l) => l,
                None => StyledLine::empty(),
            };
            last.push_span(span);
            self.text.push(last);
            proof {
                let prev = old(self)@.text;
                assert(lines_view(self.text@) =~= prev.update(
                    prev.len() - 1,
                    LineView { spans: prev.last().spans.push(sv), style: prev.last().style },
                ));
                assert(self@ =~= spec_push_span(old(self)@, sv));
            }
        } else {
            self.push_line(StyledLine::single(span));
            proof {
                assert(self@ =~= spec_push_span(old(self)@, sv));
            }
        }
    }

    /// Emits a blank line.
    fn blank_line(&mut self)
        ensures
            final(self)@ == spec_blank_line(old(self)@),
    {
        self.push_line(StyledLine::empty());
    }

    /// The style for freshly emitted text: top of the stack, or default.
    fn top_inline_style(&self) -> (s: TextStyle)
        ensures
            s == spec_top_inline_style(self@),
    {
        if self.inline_styles.len() > 0 {
            self.inline_styles[self.inline_styles.len() - 1]
        } else {
            TextStyle::plain()
        }
    }

    /// Opens a paragraph: an owed separator, then one blank line before
    /// the paragraph's own content.
    pub fn start_paragraph(&mut self)
        ensures
            final(self)@ == spec_start_paragraph(old(self)@),
    {
        if self.needs_newline {
            self.blank_line();
        }
        self.blank_line();
        self.needs_newline = false;
        proof {
            assert(self@ =~= spec_start_paragraph(old(self)@));
        }
    }

    pub fn end_paragraph(&mut self)
        ensures
            final(self)@ == spec_end_paragraph(old(self)@),
    {
        self.needs_newline = true;
        proof {
            assert(self@ =~= spec_end_paragraph(old(self)@));
        }
    }

    /// Opens a heading: a separator if owed, then the marker line of
    /// depth-many glyphs and a space, styled per level.
    pub fn start_heading(&mut self, level: HeadingLevel)
        ensures
            final(self)@ == spec_start_heading(old(self)@, level),
    {
        if self.needs_newline {
            self.blank_line();
        }
        let marker = strutil::repeat_str("▌", level.depth()).concat(" ");
        self.push_line(StyledLine::styled(marker, heading_style(level)));
        self.needs_newline = false;
        proof {
            assert(self@ =~= spec_start_heading(old(self)@, level));
        }
    }

    pub fn end_heading(&mut self)
        ensures
            final(self)@ == spec_end_heading(old(self)@),
    {
        self.needs_newline = true;
        proof {
            assert(self@ =~= spec_end_heading(old(self)@));
        }
    }

    /// Opens a block quote: pushes its prefix glyph and line color.
    pub fn start_blockquote(&mut self, kind: QuoteKind)
        ensures
            final(self)@ == spec_start_blockquote(old(self)@, kind),
    {
        if self.needs_newline {
            self.blank_line();
            self.needs_newline = false;
        }
        self.line_prefixes.push(quote_prefix(kind).to_owned());
        self.line_styles.push(TextStyle::fg_only(quote_color(kind)));
        proof {
            assert(strs_view(self.line_prefixes@) =~= strs_view(old(self).line_prefixes@).push(
                spec_quote_prefix(kind),
            ));
            assert(self@ =~= spec_start_blockquote(old(self)@, kind));
        }
    }

    /// Closes a block quote; tolerates unmatched closes.
    pub fn end_blockquote(&mut self)
        ensures
            final(self)@ == spec_end_blockquote(old(self)@),
    {
        let _ = self.line_prefixes.pop();
        let _ = self.line_styles.pop();
        self.needs_newline = true;
        proof {
            assert(strs_view(self.line_prefixes@) =~= drop_last_safe(
                strs_view(old(self).line_prefixes@),
            ));
            assert(self.line_styles@ =~= drop_last_safe(old(self).line_styles@));
            assert(self@ =~= spec_end_blockquote(old(self)@));
        }
    }

    /// An inline code span, always in the fixed code style.
    pub fn code(&mut self, code: &String)
        ensures
            final(self)@ == spec_code(old(self)@, code@),
    {
        self.push_span(StyledSpan::new(code.clone(), style::code_style()));
    }

    /// A thematic break: one line of rule glyphs sized to the viewport.
    pub fn rule(&mut self)
        ensures
            final(self)@ == spec_rule(old(self)@),
    {
        let count: usize = if self.area_width >= 2 {
            (self.area_width - 2) as usize
        } else {
            0
        };
        let line = strutil::repeat_str("─", count);
        self.push_line(StyledLine::raw(line));
        proof {
            assert(self@ =~= spec_rule(old(self)@));
        }
    }

    pub fn hard_break(&mut self)
        ensures
            final(self)@ == spec_break(old(self)@),
    {
        self.push_line(StyledLine::empty());
    }

    pub fn soft_break(&mut self)
        ensures
            final(self)@ == spec_break(old(self)@),
    {
        self.push_line(StyledLine::empty());
    }

    /// Opens a list level; the outermost list emits an owed separator.
    pub fn start_list(&mut self, index: Option<u64>)
        ensures
            final(self)@ == spec_start_list(old(self)@, index),
    {
        if self.list_indices.is_empty() && self.needs_newline {
            self.blank_line();
        }
        self.list_indices.push(index);
        proof {
            assert(self@ =~= spec_start_list(old(self)@, index));
        }
    }

    /// Closes a list level; tolerates unmatched closes.
    pub fn end_list(&mut self)
        ensures
            final(self)@ == spec_end_list(old(self)@),
    {
        let _ = self.list_indices.pop();
        self.needs_newline = true;
        proof {
            assert(self.list_indices@ =~= drop_last_safe(old(self).list_indices@));
            assert(self@ =~= spec_end_list(old(self)@));
        }
    }

    /// Opens a list item: a fresh line, then the marker — a depth-keyed
    /// bullet padded to the indentation width, or the running counter
    /// zero-padded to it, bumping the counter.
    pub fn start_item(&mut self)
        ensures
            final(self)@ == spec_start_item(old(self)@),
    {
        self.push_line(StyledLine::empty());
        let depth = self.list_indices.len();
        if depth == 0 {
            self.needs_newline = false;
            proof {
                assert(self@ =~= spec_start_item(old(self)@));
            }
            return ;
        }
        let width: usize = match depth.checked_mul(4) {
            Some(t) => t - 3,
            None => usize::MAX,
        };
        proof {
            assert(width as nat == spec_item_width(depth as nat));
        }
        match self.list_indices[depth - 1] {
            None => {
                let marker = strutil::repeat_str(" ", width - 1).concat(bullet(depth));
                self.push_span(StyledSpan::new(marker, TextStyle::plain()));
                self.needs_newline = false;
                proof {
                    assert(self@ =~= spec_start_item(old(self)@));
                }
            },
            Some(n) => {
                let marker = strutil::zero_padded_decimal(n, width).concat(". ");
                self.push_span(StyledSpan::new(marker, style::list_index_style()));
                let bumped = if n < u64::MAX {
                    n + 1
                } else {
                    n
                };
                self.list_indices.set(depth - 1, Some(bumped));
                self.needs_newline = false;
                proof {
                    assert(self@ =~= spec_start_item(old(self)@));
                }
            },
        }
    }

    /// Binds the highlighter to a recognized language token; an
    /// unrecognized token is not fatal, the block just stays plain.
    fn set_code_highlighter(&mut self, lang: &str)
        ensures
            final(self)@ == (WriterV {
                code_lang: if syntax_known(lang@) {
                    Some(lang@)
                } else {
                    old(self)@.code_lang
                },
                ..old(self)@
            }),
            final(self).wf() <== old(self).wf(),
    {
        if highlight::syntax_token_known(lang) {
            self.code_lang = Some(lang.to_owned());
        }
        proof {
            assert(self@ =~= (WriterV {
                code_lang: if syntax_known(lang@) {
                    Some(lang@)
                } else {
                    old(self)@.code_lang
                },
                ..old(self)@
            }));
        }
    }

    fn clear_code_highlighter(&mut self)
        ensures
            final(self)@ == (WriterV { code_lang: None, ..old(self)@ }),
            final(self).wf(),
    {
        self.code_lang = None;
        proof {
            assert(self@ =~= (WriterV { code_lang: None, ..old(self)@ }));
        }
    }

    /// Opens a code block: a separating blank line if output exists,
    /// the code line style, the highlighter binding, the top border,
    /// and the body prefix glyph.
    pub fn start_codeblock(&mut self, kind: &CodeKind)
        requires
            old(self).wf(),
        ensures
            final(self)@ == spec_start_codeblock(old(self)@, spec_code_lang(*kind)),
            final(self).wf(),
    {
        let lang: &str = match kind {
            CodeKind::Fenced(l) => l.as_str(),
            CodeKind::Indented => "",
        };
        if !self.text.is_empty() {
            self.blank_line();
        }
        self.line_styles.push(style::code_style());
        self.set_code_highlighter(lang);
        let lang_len = lang.unicode_len();
        let mut breaker = "╒══".to_owned();
        if lang_len > 0 {
            breaker.append(" ");
            breaker.append(lang);
            breaker.append(" ");
        } else {
            breaker.append("══");
        }
        let wu = self.area_width as usize;
        let filler: usize = if wu >= 7 && wu - 7 >= lang_len {
            wu - 7 - lang_len
        } else {
            0
        };
        proof {
            assert(filler as nat == spec_top_filler_len(old(self)@.area_width, lang@.len()));
        }
        breaker.append(strutil::repeat_str("═", filler).as_str());
        proof {
            assert(breaker@ =~= spec_top_border(lang@, old(self)@.area_width));
        }
        self.push_line(StyledLine::raw(breaker));
        self.line_prefixes.push("│".to_owned());
        self.needs_newline = true;
        proof {
            assert(strs_view(self.line_prefixes@) =~= strs_view(
                self.line_prefixes@.drop_last(),
            ).push("│"@));
            assert(self@ =~= spec_start_codeblock(old(self)@, spec_code_lang(*kind)));
        }
    }

    /// Closes a code block: drops the body prefix, emits the bottom
    /// border, pops the code line style and unbinds the highlighter.
    pub fn end_codeblock(&mut self)
        ensures
            final(self)@ == spec_end_codeblock(old(self)@),
            final(self).wf(),
    {
        let _ = self.line_prefixes.pop();
        proof {
            assert(strs_view(self.line_prefixes@) =~= drop_last_safe(
                strs_view(old(self).line_prefixes@),
            ));
        }
        let count: usize = if self.area_width >= 3 {
            (self.area_width - 3) as usize
        } else {
            0
        };
        let mut bottom = "└".to_owned();
        bottom.append(strutil::repeat_str("─", count).as_str());
        proof {
            assert(bottom@ =~= spec_bottom_border(old(self)@.area_width));
        }
        self.push_line(StyledLine::raw(bottom));
        self.needs_newline = true;
        let _ = self.line_styles.pop();
        self.clear_code_highlighter();
        proof {
            assert(self.line_styles@ =~= drop_last_safe(old(self).line_styles@));
            assert(self@ =~= spec_end_codeblock(old(self)@));
        }
    }

    /// Pushes an inline style scope, composing onto the current top.
    pub fn push_inline_style(&mut self, style: TextStyle)
        ensures
            final(self)@ == spec_push_inline_style(old(self)@, style),
    {
        let composed = self.top_inline_style().patch(style);
        self.inline_styles.push(composed);
        proof {
            assert(self@ =~= spec_push_inline_style(old(self)@, style));
        }
    }

    /// Pops the top inline style scope; popping an empty stack is a
    /// safe no-op.
    pub fn pop_inline_style(&mut self)
        ensures
            final(self)@ == spec_pop_inline_style(old(self)@),
    {
        let _ = self.inline_styles.pop();
        proof {
            assert(self.inline_styles@ =~= drop_last_safe(old(self).inline_styles@));
            assert(self@ =~= spec_pop_inline_style(old(self)@));
        }
    }

    /// A text run. While a highlighter is bound the run is highlighted
    /// line by line, each line put after the innermost prefix glyph;
    /// otherwise the run is split at line breaks and appended under the
    /// current inline style, with a fresh line before every segment but
    /// the first.
    pub fn text(&mut self, s: &String)
        requires
            old(self).wf(),
        ensures
            final(self)@ == spec_text(old(self)@, s@),
            final(self).wf(),
    {
        if self.code_lang.is_some() {
            let lines_opt = {
                let lang = self.code_lang.as_ref().unwrap();
                highlight::highlight_block(lang.as_str(), s.as_str())
            };
            let mut lines = match lines_opt {
                Some(l) => l,
                None => {
                    proof {
                        assert(false);
                    }
                    Vec::new()
                },
            };
            let ghost w0 = old(self)@;
            let ghost all = highlighted(w0.code_lang.unwrap(), s@);
            let ghost target = all.map_values(|l: LineView| spec_code_prefixed(w0.line_prefixes, l));
            proof {
                assert(lines_view(lines@) == all);
                assert(lines_view(lines@) =~= all.subrange(0, all.len() as int));
                assert(self@.text =~= w0.text + target.subrange(0, 0));
            }
            let ghost mut k: int = 0;
            while lines.len() > 0
                invariant
                    0 <= k <= all.len(),
                    lines@.len() == all.len() - k,
                    lines_view(lines@) == all.subrange(k, all.len() as int),
                    target == all.map_values(
                        |l: LineView| spec_code_prefixed(w0.line_prefixes, l),
                    ),
                    self@ == (WriterV { text: w0.text + target.subrange(0, k), ..w0 }),
                decreases lines@.len(),
            {
                let ghost prev = lines@;
                let mut line = lines.remove(0);
                proof {
                    assert(line@ == all.subrange(k, all.len() as int)[0]);
                    assert(line@ == all[k]);
                    assert(lines@ =~= prev.drop_first());
                    assert forall|j: int| 0 <= j < lines@.len() implies lines_view(lines@)[j]
                        == all.subrange(k + 1, all.len() as int)[j] by {
                        assert(lines@[j] == prev[j + 1]);
                        assert(lines_view(prev)[j + 1] == all.subrange(k, all.len() as int)[j
                            + 1]);
                    }
                    assert(lines_view(lines@) =~= all.subrange(k + 1, all.len() as int));
                }
                let ghost lv = line@;
                if self.line_prefixes.len() > 0 {
                    let p = self.line_prefixes[self.line_prefixes.len() - 1].clone();
                    line.insert_front(StyledSpan::new(p, TextStyle::plain()));
                    proof {
                        assert(line@ =~= spec_code_prefixed(w0.line_prefixes, lv));
                    }
                }
                proof {
                    assert(line@ == spec_code_prefixed(w0.line_prefixes, lv));
                    assert(target[k] == spec_code_prefixed(w0.line_prefixes, all[k]));
                }
                let ghost before = self@.text;
                self.text.push(line);
                proof {
                    k = k + 1;
                    assert(lines_view(self.text@) =~= before.push(target[k - 1]));
                    assert(before.push(target[k - 1]) =~= w0.text + target.subrange(0, k));
                    assert(self@ =~= (WriterV { text: w0.text + target.subrange(0, k), ..w0 }));
                }
            }
            self.needs_newline = false;
            proof {
                assert(target.subrange(0, all.len() as int) =~= target);
                assert(self@ =~= spec_text(old(self)@, s@));
            }
        } else {
            let segs = strutil::split_lines(s.as_str());
            let ghost allsegs = spec_split_lines(s@);
            let n = segs.len();
            let mut i: usize = 0;
            proof {
                assert(allsegs.subrange(0, n as int) =~= allsegs);
            }
            while i < n
                invariant
                    i <= n,
                    n == segs@.len(),
                    strs_view(segs@) == allsegs,
                    self@.code_lang == old(self)@.code_lang,
                    spec_text_segments(old(self)@, allsegs, true) == spec_text_segments(
                        self@,
                        allsegs.subrange(i as int, n as int),
                        i == 0,
                    ),
                decreases n - i,
            {
                let ghost wi = self@;
                let ghost first = i == 0;
                if self.needs_newline {
                    self.blank_line();
                    self.needs_newline = false;
                }
                let ghost wa = self@;
                if i > 0 {
                    self.blank_line();
                }
                let ghost wb = self@;
                let st = self.top_inline_style();
                self.push_span(StyledSpan::new(segs[i].clone(), st));
                proof {
                    let rest = allsegs.subrange(i as int, n as int);
                    assert(rest.len() > 0);
                    assert(segs@[i as int]@ == allsegs[i as int]);
                    assert(rest.first() == allsegs[i as int]);
                    assert(wa =~= if wi.needs_newline {
                        WriterV { needs_newline: false, ..spec_blank_line(wi) }
                    } else {
                        wi
                    });
                    assert(wb =~= if !first {
                        spec_blank_line(wa)
                    } else {
                        wa
                    });
                    assert(self@ == spec_push_span(
                        wb,
                        SpanView { text: rest.first(), style: spec_top_inline_style(wb) },
                    ));
                    assert(rest.drop_first() =~= allsegs.subrange(i + 1, n as int));
                    assert(spec_text_segments(wi, rest, first) == spec_text_segments(
                        self@,
                        allsegs.subrange(i + 1, n as int),
                        false,
                    ));
                }
                i = i + 1;
            }
            self.needs_newline = false;
            proof {
                assert(allsegs.subrange(n as int, n as int) =~= Seq::<Seq<char>>::empty());
                assert(self@ =~= spec_text(old(self)@, s@));
            }
        }
    }

    /// Opens a link: an autolink becomes an inline style scope, any
    /// other link buffers its destination for the closing tag.
    pub fn push_link(&mut self, kind: LinkKind, dest: &String)
        ensures
            final(self)@ == spec_push_link(old(self)@, kind, dest@),
    {
        match kind {
            LinkKind::Autolink => {
                self.link = None;
                self.push_inline_style(style::autolink_style());
                proof {
                    assert(self@ =~= spec_push_link(old(self)@, kind, dest@));
                }
            },
            LinkKind::Other => {
                self.link = Some(dest.clone());
                proof {
                    assert(self@ =~= spec_push_link(old(self)@, kind, dest@));
                }
            },
        }
    }

    /// Dispatch of a start tag: a tagged-union match over the closed
    /// event set; unsupported containers are skipped, never fatal.
    pub fn start_tag(&mut self, tag: &Tag)
        requires
            old(self).wf(),
        ensures
            final(self)@ == spec_start_tag(old(self)@, *tag),
            final(self).wf(),
    {
        match tag {
            Tag::Paragraph => self.start_paragraph(),
            Tag::Heading(level) => self.start_heading(*level),
            Tag::BlockQuote(kind) => self.start_blockquote(*kind),
            Tag::CodeBlock(kind) => self.start_codeblock(kind),
            Tag::List(index) => self.start_list(*index),
            Tag::Item => self.start_item(),
            Tag::Emphasis => self.push_inline_style(style::emphasis_style()),
            Tag::Strong => self.push_inline_style(style::strong_style()),
            Tag::Strikethrough => self.push_inline_style(style::strikethrough_style()),
            Tag::Link(kind, dest, _title) => self.push_link(*kind, dest),
            Tag::Other => (),
        }
    }

    /// Dispatch of an end tag.
    pub fn end_tag(&mut self, tag: &TagEnd)
        requires
            old(self).wf(),
        ensures
            final(self)@ == spec_end_tag(old(self)@, *tag),
            final(self).wf(),
    {
        match tag {
            TagEnd::Paragraph => self.end_paragraph(),
            TagEnd::Heading => self.end_heading(),
            TagEnd::BlockQuote => self.end_blockquote(),
            TagEnd::CodeBlock => self.end_codeblock(),
            TagEnd::List => self.end_list(),
            TagEnd::Item => (),
            TagEnd::Emphasis => self.pop_inline_style(),
            TagEnd::Strong => self.pop_inline_style(),
            TagEnd::Strikethrough => self.pop_inline_style(),
            TagEnd::Link => self.pop_link(),
            TagEnd::Other => (),
        }
    }

    /// The transition of one event of the stream.
    pub fn handle_event(&mut self, event: &MdEvent)
        requires
            old(self).wf(),
        ensures
            final(self)@ == spec_handle_event(old(self)@, *event),
            final(self).wf(),
    {
        match event {
            MdEvent::Start(tag) => self.start_tag(tag),
            MdEvent::End(tag) => self.end_tag(tag),
            MdEvent::Text(s) => self.text(s),
            MdEvent::Code(s) => self.code(s),
            MdEvent::SoftBreak => self.soft_break(),
            MdEvent::HardBreak => self.hard_break(),
            MdEvent::Rule => self.rule(),
            MdEvent::Other => (),
        }
    }

    /// Consumes the whole stream, in order, exactly once.
    pub fn run(&mut self, events: &Vec<MdEvent>)
        requires
            old(self).wf(),
        ensures
            final(self)@ == spec_run_events(old(self)@, events@),
            final(self).wf(),
    {
        let n = events.len();
        let mut i: usize = 0;
        proof {
            assert(events@.subrange(0, n as int) =~= events@);
        }
        while i < n
            invariant
                i <= n,
                n == events@.len(),
                self.wf(),
                spec_run_events(old(self)@, events@) == spec_run_events(
                    self@,
                    events@.subrange(i as int, n as int),
                ),
            decreases n - i,
        {
            let ghost wi = self@;
            self.handle_event(&events[i]);
            proof {
                let rest = events@.subrange(i as int, n as int);
                assert(rest.first() == events@[i as int]);
                assert(rest.drop_first() =~= events@.subrange(i + 1, n as int));
                assert(spec_run_events(wi, rest) == spec_run_events(
                    self@,
                    events@.subrange(i + 1, n as int),
                ));
            }
            i = i + 1;
        }
        proof {
            assert(events@.subrange(0, n as int) =~= events@);
            assert(events@.subrange(n as int, n as int) =~= Seq::<MdEvent>::empty());
        }
    }

    /// Closes a link: a buffered destination is appended as
    /// " (destination)", otherwise the autolink style scope is popped.
    pub fn pop_link(&mut self)
        ensures
            final(self)@ == spec_pop_link(old(self)@),
    {
        let taken = self.link.take();
        match taken {
            Some(l) => {
                self.push_span(StyledSpan::new(" (".to_owned(), TextStyle::plain()));
                self.push_span(StyledSpan::new(l, style::link_style()));
                self.push_span(StyledSpan::new(")".to_owned(), TextStyle::plain()));
                proof {
                    assert(self@ =~= spec_pop_link(old(self)@));
                }
            },
            None => {
                self.pop_inline_style();
                proof {
                    assert(self@ =~= spec_pop_link(old(self)@));
                }
            },
        }
    }
}

/// The complete transform: renders an event stream into styled lines
/// for a viewport of the given width. A fresh writer is built on every
/// call and nothing survives it, so the output is a pure function of
/// the two arguments.
pub fn from_events(events: &Vec<MdEvent>, area_width: u16) -> (lines: Vec<StyledLine>)
    ensures
        lines_view(lines@) == spec_render(events@, area_width),
{
    let mut writer = TextWriter::new(area_width);
    writer.run(events);
    writer.text
}

/// The number of lines a rendered document holds, for scrollbar sizing.
pub fn line_count(lines: &Vec<StyledLine>) -> (n: usize)
    ensures
        n == lines@.len(),
{
    lines.len()
}

} // verus!
