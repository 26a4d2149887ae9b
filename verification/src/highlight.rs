//! The syntax-highlighting capability, consumed through a trusted seam.
//!
//! Given a language token and the text of a code block, the external
//! highlighter returns one styled line per physical line of the block,
//! or reports that it does not know the token. Both facts depend only
//! on the arguments and on the highlighter's built-in grammar and theme
//! data, so they are named by uninterpreted spec functions and every
//! contract above this module speaks through those names.

use vstd::prelude::*;
use crate::style::{Color, TextStyle};
use crate::text::{lines_view, LineView, StyledLine, StyledSpan};
use syntect::easy::HighlightLines;
use syntect::highlighting::ThemeSet;
use syntect::parsing::SyntaxSet;
use syntect::util::LinesWithEndings;

verus! {

/// Whether the highlighter's built-in grammar set recognizes a language
/// token. The default grammar set is embedded data, so this depends on
/// the token alone.
pub uninterp spec fn syntax_known(token: Seq<char>) -> bool;

/// The styled lines the highlighter produces for a code block, one per
/// physical line of `code`, under the fixed built-in theme. Depends on
/// the token and the code alone.
pub uninterp spec fn highlighted(token: Seq<char>, code: Seq<char>) -> Seq<LineView>;

#[verifier::external_type_specification]
#[verifier::external_body]
pub struct ExSyntectStyle(syntect::highlighting::Style);

/// Relies on syntect's `SyntaxSet::load_defaults_newlines` and
/// `SyntaxSet::find_syntax_by_token`: the grammar set is embedded,
/// immutable data, so whether a token is found is a function of the
/// token alone.
#[verifier::external_body]
pub fn syntax_token_known(token: &str) -> (r: bool)
    ensures
        r == syntax_known(token@),
{
    SyntaxSet::load_defaults_newlines().find_syntax_by_token(token).is_some()
}

/// Relies on syntect: `find_syntax_by_token` succeeds exactly when the
/// token is in the embedded grammar set; `HighlightLines::highlight_line`
/// splits each line (as cut by `LinesWithEndings`, which yields nothing
/// for empty input) into styled fragments, a pure function of the code,
/// the grammar and the embedded theme.
#[verifier::external_body]
pub fn highlight_block(token: &str, code: &str) -> (r: Option<Vec<StyledLine>>)
    ensures
        r is Some <==> syntax_known(token@),
        r is Some ==> lines_view(r.unwrap()@) == highlighted(token@, code@),
        (r is Some && code@.len() == 0) ==> r.unwrap()@.len() == 0,
{
    let syntaxes = SyntaxSet::load_defaults_newlines();
    let syntax = syntaxes.find_syntax_by_token(token)?;
    let themes = ThemeSet::load_defaults();
    let mut hl = HighlightLines::new(syntax, &themes.themes["base16-ocean.dark"]);
    let mut out: Vec<StyledLine> = Vec::new();
    for line in LinesWithEndings::from(code) {
        if let Ok(regions) = hl.highlight_line(line, &syntaxes) {
            out.push(line_of_regions(&regions));
        }
    }
    Some(out)
}

/// Relies on syntect's region representation: each region of a
/// highlighted line is one styled fragment of that line's text, carrying
/// a resolved foreground color. The fragment text is taken as is, minus
/// the line's trailing line feed.
#[verifier::external_body]
fn line_of_regions<'a>(regions: &Vec<(syntect::highlighting::Style, &'a str)>) -> StyledLine {
    let mut spans: Vec<StyledSpan> = Vec::new();
    for (st, t) in regions.iter() {
        let c = st.foreground;
        let style = TextStyle::fg_only(Color::Rgb(c.r, c.g, c.b));
        spans.push(StyledSpan { text: t.trim_end_matches('\n').to_string(), style });
    }
    StyledLine { spans, style: TextStyle::plain() }
}

} // verus!
