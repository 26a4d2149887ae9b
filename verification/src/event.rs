//! The consumed event contract: an ordered, finite stream of structural
//! markup events, produced by an external tokenizer and handed to the
//! renderer as plain values.

use vstd::prelude::*;

verus! {

/// Heading depth, one through six.
#[derive(Clone, Copy, Debug, PartialEq, Eq)]
pub enum HeadingLevel {
    H1,
    H2,
    H3,
    H4,
    H5,
    H6,
}

impl HeadingLevel {
    /// The numeric depth of the heading, between 1 and 6.
    pub open spec fn spec_depth(self) -> usize {
        match self {
            HeadingLevel::H1 => 1,
            HeadingLevel::H2 => 2,
            HeadingLevel::H3 => 3,
            HeadingLevel::H4 => 4,
            HeadingLevel::H5 => 5,
            HeadingLevel::H6 => 6,
        }
    }

    #[verifier::when_used_as_spec(spec_depth)]
    pub fn depth(self) -> (d: usize)
        ensures
            d == self.spec_depth(),
    {
        match self {
            HeadingLevel::H1 => 1,
            HeadingLevel::H2 => 2,
            HeadingLevel::H3 => 3,
            HeadingLevel::H4 => 4,
            HeadingLevel::H5 => 5,
            HeadingLevel::H6 => 6,
        }
    }
}

/// The kind of a block quote. Plain covers a quote with no marker.
#[derive(Clone, Copy, Debug, PartialEq, Eq)]
pub enum QuoteKind {
    Plain,
    Note,
    Tip,
    Warning,
    Caution,
    Important,
}

/// The kind of a code block: fenced with a (possibly empty) language
/// token, or indentation-delimited.
#[derive(Clone, Debug, PartialEq, Eq)]
pub enum CodeKind {
    Fenced(String),
    Indented,
}

/// How a link was written: as a bare angle-bracketed URL, or any other way.
#[derive(Clone, Copy, Debug, PartialEq, Eq)]
pub enum LinkKind {
    Autolink,
    Other,
}

/// Start of a container element.
#[derive(Clone, Debug, PartialEq, Eq)]
pub enum Tag {
    Paragraph,
    Heading(HeadingLevel),
    BlockQuote(QuoteKind),
    CodeBlock(CodeKind),
    /// A list; `Some(n)` is an ordered list whose first item is numbered `n`.
    List(Option<u64>),
    Item,
    Emphasis,
    Strong,
    Strikethrough,
    /// A link with its destination and title.
    Link(LinkKind, String, String),
    /// Any container this renderer does not support (image, table, html
    /// block, footnote definition, metadata, definition list).
    Other,
}

/// End of a container element.
#[derive(Clone, Copy, Debug, PartialEq, Eq)]
pub enum TagEnd {
    Paragraph,
    Heading,
    BlockQuote,
    CodeBlock,
    List,
    Item,
    Emphasis,
    Strong,
    Strikethrough,
    Link,
    Other,
}

/// One event of the stream.
#[derive(Clone, Debug, PartialEq, Eq)]
pub enum MdEvent {
    Start(Tag),
    End(TagEnd),
    /// An inline text run.
    Text(String),
    /// An inline code span.
    Code(String),
    SoftBreak,
    HardBreak,
    /// A thematic break.
    Rule,
    /// Any event this renderer does not support (raw html, footnote
    /// reference, task marker, math).
    Other,
}

} // verus!
