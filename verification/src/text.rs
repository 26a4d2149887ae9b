//! The output data model: styled spans grouped into styled lines.
//!
//! A span is an immutable piece of text with one style. A line is an
//! ordered sequence of spans plus a line-level style that the painter
//! applies underneath every span of the line.

use vstd::prelude::*;
use crate::style::TextStyle;

verus! {

/// One styled fragment of a rendered line.
#[derive(Clone, Debug, PartialEq, Eq)]
pub struct StyledSpan {
    pub text: String,
    pub style: TextStyle,
}

/// The mathematical value of a span: its characters and its style.
#[verifier::ext_equal]
pub ghost struct SpanView {
    pub text: Seq<char>,
    pub style: TextStyle,
}

impl View for StyledSpan {
    type V = SpanView;

    open spec fn view(&self) -> SpanView {
        SpanView { text: self.text@, style: self.style }
    }
}

impl StyledSpan {
    pub fn new(text: String, style: TextStyle) -> (s: StyledSpan)
        ensures
            s@ == (SpanView { text: text@, style }),
    {
        StyledSpan { text, style }
    }
}

/// One rendered line: its spans in order, and a uniform line-level style.
#[derive(Clone, Debug, PartialEq, Eq)]
pub struct StyledLine {
    pub spans: Vec<StyledSpan>,
    pub style: TextStyle,
}

/// The mathematical value of a line.
#[verifier::ext_equal]
pub ghost struct LineView {
    pub spans: Seq<SpanView>,
    pub style: TextStyle,
}

/// The views of a sequence of spans.
pub open spec fn spans_view(v: Seq<StyledSpan>) -> Seq<SpanView> {
    v.map_values(|s: StyledSpan| s@)
}

impl View for StyledLine {
    type V = LineView;

    open spec fn view(&self) -> LineView {
        LineView { spans: spans_view(self.spans@), style: self.style }
    }
}

/// The views of a sequence of lines.
pub open spec fn lines_view(v: Seq<StyledLine>) -> Seq<LineView> {
    v.map_values(|l: StyledLine| l@)
}

/// An empty line with the default style.
pub open spec fn spec_empty_line() -> LineView {
    LineView { spans: Seq::empty(), style: TextStyle::spec_plain() }
}

/// A line holding a single unstyled span, line style default.
pub open spec fn spec_raw_line(text: Seq<char>) -> LineView {
    LineView {
        spans: seq![SpanView { text, style: TextStyle::spec_plain() }],
        style: TextStyle::spec_plain(),
    }
}

/// A line with no spans whose line-level style is `style`.
pub open spec fn spec_styled_line(text: Seq<char>, style: TextStyle) -> LineView {
    LineView {
        spans: seq![SpanView { text, style: TextStyle::spec_plain() }],
        style,
    }
}

impl StyledLine {
    pub fn empty() -> (l: StyledLine)
        ensures
            l@ == spec_empty_line(),
    {
        let l = StyledLine { spans: Vec::new(), style: TextStyle::plain() };
        proof {
            assert(l@.spans =~= spec_empty_line().spans);
        }
        l
    }

    pub fn raw(text: String) -> (l: StyledLine)
        ensures
            l@ == spec_raw_line(text@),
    {
        StyledLine::styled(text, TextStyle::plain())
    }

    /// A line whose whole content is one unstyled span and whose
    /// line-level style is `style`.
    pub fn styled(text: String, style: TextStyle) -> (l: StyledLine)
        ensures
            l@ == spec_styled_line(text@, style),
    {
        let mut spans: Vec<StyledSpan> = Vec::new();
        spans.push(StyledSpan::new(text, TextStyle::plain()));
        let l = StyledLine { spans, style };
        proof {
            assert(l@.spans =~= spec_styled_line(l.spans@[0].text@, style).spans);
        }
        l
    }

    /// A line holding exactly one span, line style default.
    pub fn single(span: StyledSpan) -> (l: StyledLine)
        ensures
            l@ == (LineView { spans: seq![span@], style: TextStyle::spec_plain() }),
    {
        let ghost sv = span@;
        let mut spans: Vec<StyledSpan> = Vec::new();
        spans.push(span);
        let l = StyledLine { spans, style: TextStyle::plain() };
        proof {
            assert(l@.spans =~= seq![sv]);
        }
        l
    }

    /// Appends a span at the end of the line.
    pub fn push_span(&mut self, span: StyledSpan)
        ensures
            final(self)@ == (LineView {
                spans: old(self)@.spans.push(span@),
                style: old(self)@.style,
            }),
    {
        self.spans.push(span);
        proof {
            assert(spans_view(self.spans@) =~= spans_view(old(self).spans@).push(
                self.spans@.last()@,
            ));
        }
    }

    /// Inserts a span at the front of the line.
    pub fn insert_front(&mut self, span: StyledSpan)
        ensures
            final(self)@ == (LineView {
                spans: seq![span@] + old(self)@.spans,
                style: old(self)@.style,
            }),
    {
        self.spans.insert(0, span);
        proof {
            assert(spans_view(self.spans@) =~= seq![self.spans@[0]@] + spans_view(
                old(self).spans@,
            ));
        }
    }

    /// Overlays `style` onto the line-level style.
    pub fn patch_style(&mut self, style: TextStyle)
        ensures
            final(self)@ == (LineView {
                spans: old(self)@.spans,
                style: old(self)@.style.spec_patch(style),
            }),
    {
        self.style = self.style.patch(style);
    }
}

} // verus!
