//! Colors and composable text styles for rendered preview lines.
//!
//! A `TextStyle` is a set of optional attributes. Styles compose by
//! overlaying: attributes set by the new style win, attributes it leaves
//! unset are inherited from the style below it.

use vstd::prelude::*;

verus! {

/// A terminal color: either a 24-bit value or one of the named
/// colors that the terminal resolves itself.
#[derive(Clone, Copy, Debug, PartialEq, Eq)]
pub enum Color {
    Rgb(u8, u8, u8),
    Reset,
    Black,
    White,
    Gray,
    Red,
    Green,
    Yellow,
    Blue,
    Magenta,
    Cyan,
    LightBlue,
}

pub open spec fn spec_rosewater() -> Color {
    Color::Rgb(244, 219, 214)
}

#[verifier::when_used_as_spec(spec_rosewater)]
pub fn rosewater() -> (c: Color)
    ensures
        c == spec_rosewater(),
{
    Color::Rgb(244, 219, 214)
}

pub open spec fn spec_flamingo() -> Color {
    Color::Rgb(240, 198, 198)
}

#[verifier::when_used_as_spec(spec_flamingo)]
pub fn flamingo() -> (c: Color)
    ensures
        c == spec_flamingo(),
{
    Color::Rgb(240, 198, 198)
}

pub open spec fn spec_maroon() -> Color {
    Color::Rgb(238, 153, 160)
}

#[verifier::when_used_as_spec(spec_maroon)]
pub fn maroon() -> (c: Color)
    ensures
        c == spec_maroon(),
{
    Color::Rgb(238, 153, 160)
}

pub open spec fn spec_peach() -> Color {
    Color::Rgb(245, 169, 127)
}

#[verifier::when_used_as_spec(spec_peach)]
pub fn peach() -> (c: Color)
    ensures
        c == spec_peach(),
{
    Color::Rgb(245, 169, 127)
}

pub open spec fn spec_yellow() -> Color {
    Color::Rgb(238, 212, 159)
}

#[verifier::when_used_as_spec(spec_yellow)]
pub fn yellow() -> (c: Color)
    ensures
        c == spec_yellow(),
{
    Color::Rgb(238, 212, 159)
}

pub open spec fn spec_green() -> Color {
    Color::Rgb(166, 218, 149)
}

#[verifier::when_used_as_spec(spec_green)]
pub fn green() -> (c: Color)
    ensures
        c == spec_green(),
{
    Color::Rgb(166, 218, 149)
}

pub open spec fn spec_teal() -> Color {
    Color::Rgb(139, 213, 202)
}

#[verifier::when_used_as_spec(spec_teal)]
pub fn teal() -> (c: Color)
    ensures
        c == spec_teal(),
{
    Color::Rgb(139, 213, 202)
}

pub open spec fn spec_sky() -> Color {
    Color::Rgb(145, 215, 227)
}

#[verifier::when_used_as_spec(spec_sky)]
pub fn sky() -> (c: Color)
    ensures
        c == spec_sky(),
{
    Color::Rgb(145, 215, 227)
}

pub open spec fn spec_blue() -> Color {
    Color::Rgb(138, 173, 244)
}

#[verifier::when_used_as_spec(spec_blue)]
pub fn blue() -> (c: Color)
    ensures
        c == spec_blue(),
{
    Color::Rgb(138, 173, 244)
}

pub open spec fn spec_lavender() -> Color {
    Color::Rgb(183, 189, 248)
}

#[verifier::when_used_as_spec(spec_lavender)]
pub fn lavender() -> (c: Color)
    ensures
        c == spec_lavender(),
{
    Color::Rgb(183, 189, 248)
}

pub open spec fn spec_subtext1() -> Color {
    Color::Rgb(184, 192, 224)
}

#[verifier::when_used_as_spec(spec_subtext1)]
pub fn subtext1() -> (c: Color)
    ensures
        c == spec_subtext1(),
{
    Color::Rgb(184, 192, 224)
}

pub open spec fn spec_text_color() -> Color {
    Color::Rgb(202, 211, 245)
}

#[verifier::when_used_as_spec(spec_text_color)]
pub fn text_color() -> (c: Color)
    ensures
        c == spec_text_color(),
{
    Color::Rgb(202, 211, 245)
}

/// A composable character style: an optional foreground color plus
/// four modifier flags.
#[derive(Clone, Copy, Debug, PartialEq, Eq)]
pub struct TextStyle {
    pub fg: Option<Color>,
    pub bold: bool,
    pub italic: bool,
    pub underlined: bool,
    pub crossed_out: bool,
}

impl TextStyle {
    /// The default style: no color, no modifiers.
    pub open spec fn spec_plain() -> TextStyle {
        TextStyle { fg: None, bold: false, italic: false, underlined: false, crossed_out: false }
    }

    #[verifier::when_used_as_spec(spec_plain)]
    pub fn plain() -> (s: TextStyle)
        ensures
            s == TextStyle::spec_plain(),
    {
        TextStyle { fg: None, bold: false, italic: false, underlined: false, crossed_out: false }
    }

    /// Overlay `over` onto `self`: attributes that `over` sets replace or
    /// add to the ones below, the rest are inherited.
    pub open spec fn spec_patch(self, over: TextStyle) -> TextStyle {
        TextStyle {
            fg: if over.fg is Some {
                over.fg
            } else {
                self.fg
            },
            bold: self.bold || over.bold,
            italic: self.italic || over.italic,
            underlined: self.underlined || over.underlined,
            crossed_out: self.crossed_out || over.crossed_out,
        }
    }

    #[verifier::when_used_as_spec(spec_patch)]
    pub fn patch(self, over: TextStyle) -> (r: TextStyle)
        ensures
            r == self.spec_patch(over),
    {
        TextStyle {
            fg: if over.fg.is_some() {
                over.fg
            } else {
                self.fg
            },
            bold: self.bold || over.bold,
            italic: self.italic || over.italic,
            underlined: self.underlined || over.underlined,
            crossed_out: self.crossed_out || over.crossed_out,
        }
    }

    /// A style consisting of a foreground color alone.
    pub open spec fn spec_fg_only(c: Color) -> TextStyle {
        TextStyle { fg: Some(c), bold: false, italic: false, underlined: false, crossed_out: false }
    }

    #[verifier::when_used_as_spec(spec_fg_only)]
    pub fn fg_only(c: Color) -> (s: TextStyle)
        ensures
            s == TextStyle::spec_fg_only(c),
    {
        TextStyle { fg: Some(c), bold: false, italic: false, underlined: false, crossed_out: false }
    }
}

/// Style of emphasized (italic) inline text.
pub open spec fn spec_emphasis_style() -> TextStyle {
    TextStyle {
        fg: Some(spec_subtext1()),
        bold: false,
        italic: true,
        underlined: false,
        crossed_out: false,
    }
}

#[verifier::when_used_as_spec(spec_emphasis_style)]
pub fn emphasis_style() -> (s: TextStyle)
    ensures
        s == spec_emphasis_style(),
{
    TextStyle {
        fg: Some(subtext1()),
        bold: false,
        italic: true,
        underlined: false,
        crossed_out: false,
    }
}

/// Style of strong (bold) inline text.
pub open spec fn spec_strong_style() -> TextStyle {
    TextStyle {
        fg: Some(spec_lavender()),
        bold: true,
        italic: false,
        underlined: false,
        crossed_out: false,
    }
}

#[verifier::when_used_as_spec(spec_strong_style)]
pub fn strong_style() -> (s: TextStyle)
    ensures
        s == spec_strong_style(),
{
    TextStyle {
        fg: Some(lavender()),
        bold: true,
        italic: false,
        underlined: false,
        crossed_out: false,
    }
}

/// Style of struck-through inline text.
pub open spec fn spec_strikethrough_style() -> TextStyle {
    TextStyle {
        fg: Some(spec_maroon()),
        bold: false,
        italic: false,
        underlined: false,
        crossed_out: true,
    }
}

#[verifier::when_used_as_spec(spec_strikethrough_style)]
pub fn strikethrough_style() -> (s: TextStyle)
    ensures
        s == spec_strikethrough_style(),
{
    TextStyle {
        fg: Some(maroon()),
        bold: false,
        italic: false,
        underlined: false,
        crossed_out: true,
    }
}

/// Fixed style of inline code spans and code-block framing.
pub open spec fn spec_code_style() -> TextStyle {
    TextStyle {
        fg: Some(spec_flamingo()),
        bold: false,
        italic: false,
        underlined: false,
        crossed_out: false,
    }
}

#[verifier::when_used_as_spec(spec_code_style)]
pub fn code_style() -> (s: TextStyle)
    ensures
        s == spec_code_style(),
{
    TextStyle {
        fg: Some(flamingo()),
        bold: false,
        italic: false,
        underlined: false,
        crossed_out: false,
    }
}

/// Style of a rendered link destination.
pub open spec fn spec_link_style() -> TextStyle {
    TextStyle {
        fg: Some(spec_blue()),
        bold: false,
        italic: false,
        underlined: true,
        crossed_out: false,
    }
}

#[verifier::when_used_as_spec(spec_link_style)]
pub fn link_style() -> (s: TextStyle)
    ensures
        s == spec_link_style(),
{
    TextStyle { fg: Some(blue()), bold: false, italic: false, underlined: true, crossed_out: false }
}

/// Style pushed while inside an autolink: underlined link color.
pub open spec fn spec_autolink_style() -> TextStyle {
    spec_link_style()
}

#[verifier::when_used_as_spec(spec_autolink_style)]
pub fn autolink_style() -> (s: TextStyle)
    ensures
        s == spec_autolink_style(),
{
    link_style()
}

/// Style of ordered-list item markers.
pub open spec fn spec_list_index_style() -> TextStyle {
    TextStyle {
        fg: Some(Color::LightBlue),
        bold: false,
        italic: false,
        underlined: false,
        crossed_out: false,
    }
}

#[verifier::when_used_as_spec(spec_list_index_style)]
pub fn list_index_style() -> (s: TextStyle)
    ensures
        s == spec_list_index_style(),
{
    TextStyle {
        fg: Some(Color::LightBlue),
        bold: false,
        italic: false,
        underlined: false,
        crossed_out: false,
    }
}

} // verus!
