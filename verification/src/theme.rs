//! Interface color themes, as plain values. The painter turns them
//! into its own style types at the edge.

use vstd::prelude::*;
use crate::style::{self, Color, TextStyle};

verus! {

/// The colors and component styles of the interface.
#[derive(Clone, Copy, Debug, PartialEq, Eq)]
pub struct AppTheme {
    pub background: Color,
    pub foreground: Color,
    pub accent: Color,
    pub warning: Color,
    pub error: Color,
    pub info: Color,
    pub success: Color,
    pub selected_style: TextStyle,
    pub normal_style: TextStyle,
    pub title_style: TextStyle,
    pub header_style: TextStyle,
}

/// The dark theme, which is also the default.
pub open spec fn spec_dark_theme() -> AppTheme {
    AppTheme {
        background: Color::Reset,
        foreground: Color::Gray,
        accent: Color::Yellow,
        warning: Color::Yellow,
        error: Color::Red,
        info: Color::Blue,
        success: Color::Green,
        selected_style: TextStyle::spec_fg_only(style::spec_green()),
        normal_style: TextStyle::spec_fg_only(style::spec_text_color()),
        title_style: TextStyle {
            fg: Some(style::spec_yellow()),
            bold: true,
            italic: false,
            underlined: false,
            crossed_out: false,
        },
        header_style: TextStyle {
            fg: Some(style::spec_sky()),
            bold: true,
            italic: false,
            underlined: false,
            crossed_out: false,
        },
    }
}

/// The light theme.
pub open spec fn spec_light_theme() -> AppTheme {
    AppTheme {
        background: Color::White,
        foreground: Color::Black,
        accent: Color::Blue,
        warning: Color::Yellow,
        error: Color::Red,
        info: Color::Cyan,
        success: Color::Green,
        selected_style: TextStyle::spec_fg_only(Color::Blue),
        normal_style: TextStyle::spec_fg_only(Color::Black),
        title_style: TextStyle {
            fg: Some(Color::Blue),
            bold: true,
            italic: false,
            underlined: false,
            crossed_out: false,
        },
        header_style: TextStyle {
            fg: Some(Color::Magenta),
            bold: true,
            italic: false,
            underlined: false,
            crossed_out: false,
        },
    }
}

impl AppTheme {
    pub fn dark() -> (t: AppTheme)
        ensures
            t == spec_dark_theme(),
    {
        AppTheme {
            background: Color::Reset,
            foreground: Color::Gray,
            accent: Color::Yellow,
            warning: Color::Yellow,
            error: Color::Red,
            info: Color::Blue,
            success: Color::Green,
            selected_style: TextStyle::fg_only(style::green()),
            normal_style: TextStyle::fg_only(style::text_color()),
            title_style: TextStyle {
                fg: Some(style::yellow()),
                bold: true,
                italic: false,
                underlined: false,
                crossed_out: false,
            },
            header_style: TextStyle {
                fg: Some(style::sky()),
                bold: true,
                italic: false,
                underlined: false,
                crossed_out: false,
            },
        }
    }

    pub fn light() -> (t: AppTheme)
        ensures
            t == spec_light_theme(),
    {
        AppTheme {
            background: Color::White,
            foreground: Color::Black,
            accent: Color::Blue,
            warning: Color::Yellow,
            error: Color::Red,
            info: Color::Cyan,
            success: Color::Green,
            selected_style: TextStyle::fg_only(Color::Blue),
            normal_style: TextStyle::fg_only(Color::Black),
            title_style: TextStyle {
                fg: Some(Color::Blue),
                bold: true,
                italic: false,
                underlined: false,
                crossed_out: false,
            },
            header_style: TextStyle {
                fg: Some(Color::Magenta),
                bold: true,
                italic: false,
                underlined: false,
                crossed_out: false,
            },
        }
    }
}

impl Default for AppTheme {
    /// The default theme is the dark one.
    fn default() -> (t: AppTheme)
        ensures
            t == spec_dark_theme(),
    {
        AppTheme::dark()
    }
}

} // verus!
