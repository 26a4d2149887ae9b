//! End-to-end tests of the preview renderer: markdown text is tokenized
//! with pulldown-cmark, converted to the library's event values, and
//! rendered into styled lines.

use pulldown_cmark::{
    BlockQuoteKind, CodeBlockKind, Event, LinkType, Options, Parser, Tag as PTag,
    TagEnd as PTagEnd,
};
use rnote::event::{CodeKind, HeadingLevel, LinkKind, MdEvent, QuoteKind, Tag, TagEnd};
use rnote::style::{Color, TextStyle};
use rnote::text::StyledLine;
use rnote::writer::from_events;

fn convert_heading(level: pulldown_cmark::HeadingLevel) -> HeadingLevel {
    match level {
        pulldown_cmark::HeadingLevel::H1 => HeadingLevel::H1,
        pulldown_cmark::HeadingLevel::H2 => HeadingLevel::H2,
        pulldown_cmark::HeadingLevel::H3 => HeadingLevel::H3,
        pulldown_cmark::HeadingLevel::H4 => HeadingLevel::H4,
        pulldown_cmark::HeadingLevel::H5 => HeadingLevel::H5,
        pulldown_cmark::HeadingLevel::H6 => HeadingLevel::H6,
    }
}

fn convert_start(tag: PTag) -> Tag {
    match tag {
        PTag::Paragraph => Tag::Paragraph,
        PTag::Heading { level, .. } => Tag::Heading(convert_heading(level)),
        PTag::BlockQuote(kind) => Tag::BlockQuote(match kind {
            None => QuoteKind::Plain,
            Some(BlockQuoteKind::Note) => QuoteKind::Note,
            Some(BlockQuoteKind::Tip) => QuoteKind::Tip,
            Some(BlockQuoteKind::Warning) => QuoteKind::Warning,
            Some(BlockQuoteKind::Caution) => QuoteKind::Caution,
            Some(BlockQuoteKind::Important) => QuoteKind::Important,
        }),
        PTag::CodeBlock(kind) => Tag::CodeBlock(match kind {
            CodeBlockKind::Fenced(lang) => CodeKind::Fenced(lang.to_string()),
            CodeBlockKind::Indented => CodeKind::Indented,
        }),
        PTag::List(start) => Tag::List(start),
        PTag::Item => Tag::Item,
        PTag::Emphasis => Tag::Emphasis,
        PTag::Strong => Tag::Strong,
        PTag::Strikethrough => Tag::Strikethrough,
        PTag::Link { link_type, dest_url, title, .. } => Tag::Link(
            if link_type == LinkType::Autolink {
                LinkKind::Autolink
            } else {
                LinkKind::Other
            },
            dest_url.to_string(),
            title.to_string(),
        ),
        _ => Tag::Other,
    }
}

fn convert_end(tag: PTagEnd) -> TagEnd {
    match tag {
        PTagEnd::Paragraph => TagEnd::Paragraph,
        PTagEnd::Heading(_) => TagEnd::Heading,
        PTagEnd::BlockQuote(_) => TagEnd::BlockQuote,
        PTagEnd::CodeBlock => TagEnd::CodeBlock,
        PTagEnd::List(_) => TagEnd::List,
        PTagEnd::Item => TagEnd::Item,
        PTagEnd::Emphasis => TagEnd::Emphasis,
        PTagEnd::Strong => TagEnd::Strong,
        PTagEnd::Strikethrough => TagEnd::Strikethrough,
        PTagEnd::Link => TagEnd::Link,
        _ => TagEnd::Other,
    }
}

fn tokenize(input: &str) -> Vec<MdEvent> {
    let mut options = Options::empty();
    options.insert(Options::ENABLE_STRIKETHROUGH);
    Parser::new_ext(input, options)
        .map(|event| match event {
            Event::Start(tag) => MdEvent::Start(convert_start(tag)),
            Event::End(tag) => MdEvent::End(convert_end(tag)),
            Event::Text(t) => MdEvent::Text(t.to_string()),
            Event::Code(c) => MdEvent::Code(c.to_string()),
            Event::SoftBreak => MdEvent::SoftBreak,
            Event::HardBreak => MdEvent::HardBreak,
            Event::Rule => MdEvent::Rule,
            _ => MdEvent::Other,
        })
        .collect()
}

fn render(input: &str, width: u16) -> Vec<StyledLine> {
    from_events(&tokenize(input), width)
}

fn line_text(line: &StyledLine) -> String {
    let mut out = String::new();
    for span in &line.spans {
        out.push_str(&span.text);
    }
    out
}

fn plain() -> TextStyle {
    TextStyle { fg: None, bold: false, italic: false, underlined: false, crossed_out: false }
}

#[test]
fn heading_and_emphasis_scenario() {
    let lines = render("# Title\n\nSome *bold* text.", 40);
    assert_eq!(lines.len(), 3);

    // Line 1: the heading marker followed by the title, on a line
    // styled bold and underlined in the level-one color.
    assert_eq!(line_text(&lines[0]), "▌ Title");
    assert_eq!(lines[0].style.fg, Some(Color::Rgb(245, 169, 127)));
    assert!(lines[0].style.bold);
    assert!(lines[0].style.underlined);

    // Line 2: blank.
    assert_eq!(line_text(&lines[1]), "");

    // Line 3: three spans; the emphasized one carries the emphasis
    // modifier, its neighbors stay in the default style.
    assert_eq!(lines[2].spans.len(), 3);
    assert_eq!(lines[2].spans[0].text, "Some ");
    assert_eq!(lines[2].spans[0].style, plain());
    assert_eq!(lines[2].spans[1].text, "bold");
    assert!(lines[2].spans[1].style.italic);
    assert_eq!(lines[2].spans[2].text, " text.");
    assert_eq!(lines[2].spans[2].style, plain());
}

#[test]
fn rule_at_width_ten() {
    let lines = render("---", 10);
    assert_eq!(lines.len(), 1);
    assert_eq!(line_text(&lines[0]), "────────");
}

#[test]
fn rule_at_width_one_degrades_to_empty() {
    let lines = render("---", 1);
    assert_eq!(lines.len(), 1);
    assert_eq!(line_text(&lines[0]), "");
}

#[test]
fn narrow_viewport_never_panics() {
    let input = "# H\n\n> q\n\n```rust\nfn x() {}\n```\n\n- a\n- b\n\n---\n";
    for width in 0..12u16 {
        let _ = render(input, width);
    }
}

#[test]
fn unknown_code_language_renders_plain() {
    let lines = render("```xyz123\na\n```", 20);
    assert_eq!(lines.len(), 3);

    // Top border carries the language token and fills to width - 2.
    assert_eq!(line_text(&lines[0]), "╒══ xyz123 ═══════");
    assert_eq!(lines[0].style.fg, Some(Color::Rgb(240, 198, 198)));

    // One body line: the prefix glyph, the separating space, and the
    // code text in the plain span style under the code line style.
    assert_eq!(line_text(&lines[1]), "│ a");
    assert_eq!(lines[1].style.fg, Some(Color::Rgb(240, 198, 198)));
    assert_eq!(lines[1].spans.last().unwrap().style, plain());

    // Bottom border.
    assert_eq!(line_text(&lines[2]), "└─────────────────");
}

#[test]
fn known_code_language_is_highlighted() {
    let lines = render("```rust\nfn main() {}\n```", 40);
    assert_eq!(lines.len(), 3);

    // The body line starts with the bare prefix glyph and its spans
    // reassemble the source line, split into colored fragments.
    let body = &lines[1];
    assert_eq!(body.spans[0].text, "│");
    let rest: String = body.spans[1..].iter().map(|s| s.text.as_str()).collect();
    assert_eq!(rest, "fn main() {}");
    assert!(body.spans.len() > 2, "highlighting should split the line into fragments");
    assert!(body.spans[1..].iter().all(|s| s.style.fg.is_some()));
}

#[test]
fn ordered_list_counts_from_start_index() {
    let lines = render("3. a\n4. b\n5. c", 40);
    assert_eq!(lines.len(), 3);
    assert_eq!(lines[0].spans[0].text, "3. ");
    assert_eq!(lines[1].spans[0].text, "4. ");
    assert_eq!(lines[2].spans[0].text, "5. ");
    assert_eq!(lines[0].spans[0].style.fg, Some(Color::LightBlue));
    assert_eq!(line_text(&lines[0]), "3. a");
}

#[test]
fn unordered_list_bullets_by_depth() {
    let lines = render("- a\n  - b\n", 40);
    assert_eq!(lines[0].spans[0].text, "■ ");
    assert_eq!(lines[1].spans[0].text, "    ‣  ");
}

#[test]
fn image_degrades_to_its_surroundings() {
    let lines = render("one\n\n![pic](http://example.test/p.png)\n\ntwo", 40);
    let all: Vec<String> = lines.iter().map(line_text).collect();
    assert!(all.iter().any(|l| l == "one"));
    assert!(all.iter().any(|l| l == "two"));
    assert!(all.iter().all(|l| !l.contains("example.test")));
}

#[test]
fn style_composition_overlays_strong_and_emphasis() {
    let events = vec![
        MdEvent::Start(Tag::Paragraph),
        MdEvent::Start(Tag::Strong),
        MdEvent::Start(Tag::Emphasis),
        MdEvent::Text(String::from("x")),
        MdEvent::End(TagEnd::Emphasis),
        MdEvent::Text(String::from("y")),
        MdEvent::End(TagEnd::Strong),
        MdEvent::End(TagEnd::Paragraph),
    ];
    let lines = from_events(&events, 40);
    assert_eq!(lines.len(), 1);
    let x = &lines[0].spans[0];
    assert_eq!(x.text, "x");
    assert!(x.style.bold && x.style.italic);

    // Closing the inner scope removed italic and kept bold.
    let y = &lines[0].spans[1];
    assert_eq!(y.text, "y");
    assert!(y.style.bold && !y.style.italic);
}

#[test]
fn blockquote_kinds_have_their_glyphs_and_colors() {
    let cases = [
        (QuoteKind::Plain, "▌ ", Color::Rgb(166, 218, 149)),
        (QuoteKind::Note, "▌✎ ", Color::Rgb(139, 213, 202)),
        (QuoteKind::Tip, "▌✎ ", Color::Rgb(139, 213, 202)),
        (QuoteKind::Warning, "▌⚠ ", Color::Rgb(245, 169, 127)),
        (QuoteKind::Caution, "▌✖ ", Color::Rgb(238, 153, 160)),
        (QuoteKind::Important, "▌🔥 ", Color::Rgb(245, 169, 127)),
    ];
    for (kind, glyph, color) in cases {
        let events = vec![
            MdEvent::Start(Tag::BlockQuote(kind)),
            MdEvent::Start(Tag::Paragraph),
            MdEvent::Text(String::from("q")),
            MdEvent::End(TagEnd::Paragraph),
            MdEvent::End(TagEnd::BlockQuote),
        ];
        let lines = from_events(&events, 40);
        assert_eq!(lines[0].spans[0].text, glyph);
        assert_eq!(lines[0].style.fg, Some(color));
    }
}

#[test]
fn repeated_transformation_is_byte_identical() {
    let input = "# A\n\npara *em* **st** `code`\n\n> [!NOTE]\n> quoted\n\n```rust\nlet q = 1;\n```\n\n1. one\n2. two\n\n---\n";
    let first = render(input, 32);
    let second = render(input, 32);
    assert_eq!(first, second);
    // The same input at another width is its own pure function too.
    assert_eq!(render(input, 7), render(input, 7));
}

#[test]
fn inline_code_keeps_its_fixed_style() {
    let lines = render("a *`code`* b", 40);
    let spans = &lines[0].spans;
    let code = spans.iter().find(|s| s.text == "code").unwrap();
    assert_eq!(code.style.fg, Some(Color::Rgb(240, 198, 198)));
    assert!(!code.style.italic);
}

#[test]
fn link_destination_is_appended_on_close() {
    let lines = render("see [here](http://example.test/x)", 40);
    let text = line_text(&lines[0]);
    assert_eq!(text, "see here (http://example.test/x)");
    let dest = lines[0].spans.iter().find(|s| s.text == "http://example.test/x").unwrap();
    assert!(dest.style.underlined);
    assert_eq!(dest.style.fg, Some(Color::Rgb(138, 173, 244)));
}

#[test]
fn soft_and_hard_breaks_start_new_lines() {
    let lines = render("a\nb", 40);
    let all: Vec<String> = lines.iter().map(line_text).collect();
    assert_eq!(all, vec!["a", "b"]);

    let lines = render("a  \nb", 40);
    let all: Vec<String> = lines.iter().map(line_text).collect();
    assert_eq!(all, vec!["a", "b"]);
}

#[test]
fn paragraphs_are_separated_by_blank_lines() {
    let lines = render("one\n\ntwo", 40);
    let all: Vec<String> = lines.iter().map(line_text).collect();
    assert_eq!(all, vec!["one", "", "two"]);
}
