//! Colour themes: the palette a grid paints with.

use vstd::prelude::*;

verus! {

/// An RGB colour with eight bits per channel.
#[derive(Clone, Copy, Debug, PartialEq, Eq, Structural)]
pub struct Color {
    pub r: u8,
    pub g: u8,
    pub b: u8,
}

impl Color {
    /// The colour with the given channels.
    pub open spec fn rgb(r: u8, g: u8, b: u8) -> Color {
        Color { r, g, b }
    }
}

/// Supported colour themes.
#[derive(Clone, Copy, Debug, PartialEq, Eq, Structural)]
pub enum Theme {
    Light,
    Dark,
}

/// Whether `code` is one of the sixteen SGR foreground colour codes,
/// 30 to 37 and 90 to 97.
pub open spec fn is_ansi_code(code: int) -> bool {
    30 <= code <= 37 || 90 <= code <= 97
}

/// What `str::to_lowercase` returns for a string with the characters `s`: its
/// lowercase equivalent.
pub uninterp spec fn lowercase_of(s: Seq<char>) -> Seq<char>;

/// Calls `str::to_lowercase` on `s`.
///
/// Trusted: the result is the lowercase equivalent that the standard library
/// gives, a function of the characters of `s` alone.
#[verifier::external_body]
fn to_lowercase(s: &str) -> (lower: String)
    ensures
        lower@ == lowercase_of(s@),
{
    s.to_lowercase()
}

impl Theme {
    /// The theme that the lowercase name `lower` stands for: the dark theme
    /// for `dark`, the light theme for anything else.
    pub open spec fn named(lower: Seq<char>) -> Theme {
        if lower == seq!['d', 'a', 'r', 'k'] {
            Theme::Dark
        } else {
            Theme::Light
        }
    }

    /// The theme with the lowercase name `lower`: the dark theme for `dark`,
    /// the light theme for any other name.
    pub fn from_lowercase(lower: &str) -> (theme: Theme)
        ensures
            theme == Theme::named(lower@),
    {
        if lower.unicode_len() == 4 && lower.get_char(0) == 'd' && lower.get_char(1) == 'a'
            && lower.get_char(2) == 'r' && lower.get_char(3) == 'k' {
            assert(lower@ =~= seq!['d', 'a', 'r', 'k']);
            Theme::Dark
        } else {
            Theme::Light
        }
    }

    /// The theme with the name `s`, whatever its case: the dark theme for
    /// `dark`, the light theme for any other name.
    pub fn from_str(s: &str) -> (theme: Theme)
        ensures
            theme == Theme::named(lowercase_of(s@)),
    {
        let lower = to_lowercase(s);
        Theme::from_lowercase(lower.as_str())
    }

    /// The background colour of the theme.
    pub open spec fn background(self) -> Color {
        match self {
            Theme::Light => Color::rgb(255, 255, 255),
            Theme::Dark => Color::rgb(20, 20, 20),
        }
    }

    /// The colour of text that no SGR sequence has coloured.
    pub open spec fn foreground(self) -> Color {
        match self {
            Theme::Light => Color::rgb(0, 0, 0),
            Theme::Dark => Color::rgb(255, 255, 255),
        }
    }

    /// The colour that the theme gives to the SGR foreground code `code`.
    /// A code outside 30 to 37 and 90 to 97 gets the theme's foreground.
    pub open spec fn ansi(self, code: int) -> Color {
        match self {
            Theme::Light => {
                if code == 30 {
                    Color::rgb(0, 0, 0)
                } else if code == 31 {
                    Color::rgb(205, 49, 49)
                } else if code == 32 {
                    Color::rgb(13, 188, 121)
                } else if code == 33 {
                    Color::rgb(180, 180, 0)
                } else if code == 34 {
                    Color::rgb(36, 114, 200)
                } else if code == 35 {
                    Color::rgb(188, 63, 188)
                } else if code == 36 {
                    Color::rgb(17, 168, 205)
                } else if code == 37 {
                    Color::rgb(100, 100, 100)
                } else if code == 90 {
                    Color::rgb(102, 102, 102)
                } else if code == 91 {
                    Color::rgb(241, 76, 76)
                } else if code == 92 {
                    Color::rgb(35, 209, 139)
                } else if code == 93 {
                    Color::rgb(200, 200, 0)
                } else if code == 94 {
                    Color::rgb(59, 142, 234)
                } else if code == 95 {
                    Color::rgb(214, 112, 214)
                } else if code == 96 {
                    Color::rgb(41, 184, 219)
                } else if code == 97 {
                    Color::rgb(0, 0, 0)
                } else {
                    self.foreground()
                }
            },
            Theme::Dark => {
                if code == 30 {
                    Color::rgb(0, 0, 0)
                } else if code == 31 {
                    Color::rgb(205, 49, 49)
                } else if code == 32 {
                    Color::rgb(13, 188, 121)
                } else if code == 33 {
                    Color::rgb(229, 229, 16)
                } else if code == 34 {
                    Color::rgb(36, 114, 200)
                } else if code == 35 {
                    Color::rgb(188, 63, 188)
                } else if code == 36 {
                    Color::rgb(17, 168, 205)
                } else if code == 37 {
                    Color::rgb(229, 229, 229)
                } else if code == 90 {
                    Color::rgb(102, 102, 102)
                } else if code == 91 {
                    Color::rgb(241, 76, 76)
                } else if code == 92 {
                    Color::rgb(35, 209, 139)
                } else if code == 93 {
                    Color::rgb(245, 245, 67)
                } else if code == 94 {
                    Color::rgb(59, 142, 234)
                } else if code == 95 {
                    Color::rgb(214, 112, 214)
                } else if code == 96 {
                    Color::rgb(41, 184, 219)
                } else if code == 97 {
                    Color::rgb(255, 255, 255)
                } else {
                    self.foreground()
                }
            },
        }
    }

    /// The background colour of the theme.
    pub fn bg_color(&self) -> (c: Color)
        ensures
            c == self.background(),
    {
        match self {
            Theme::Light => Color { r: 255, g: 255, b: 255 },
            Theme::Dark => Color { r: 20, g: 20, b: 20 },
        }
    }

    /// The colour of text that no SGR sequence has coloured.
    pub fn default_fg(&self) -> (c: Color)
        ensures
            c == self.foreground(),
    {
        match self {
            Theme::Light => Color { r: 0, g: 0, b: 0 },
            Theme::Dark => Color { r: 255, g: 255, b: 255 },
        }
    }

    /// The colour that the theme gives to the SGR foreground code `code`: one
    /// of the sixteen colours of the theme for a code from 30 to 37 or from 90
    /// to 97, the theme's foreground for any other.
    pub fn get_ansi_color(&self, code: u8) -> (c: Color)
        ensures
            c == self.ansi(code as int),
            !is_ansi_code(code as int) ==> c == self.foreground(),
    {
        match self {
            Theme::Light => match code {
                30 => Color { r: 0, g: 0, b: 0 },
                31 => Color { r: 205, g: 49, b: 49 },
                32 => Color { r: 13, g: 188, b: 121 },
                33 => Color { r: 180, g: 180, b: 0 },
                34 => Color { r: 36, g: 114, b: 200 },
                35 => Color { r: 188, g: 63, b: 188 },
                36 => Color { r: 17, g: 168, b: 205 },
                37 => Color { r: 100, g: 100, b: 100 },
                90 => Color { r: 102, g: 102, b: 102 },
                91 => Color { r: 241, g: 76, b: 76 },
                92 => Color { r: 35, g: 209, b: 139 },
                93 => Color { r: 200, g: 200, b: 0 },
                94 => Color { r: 59, g: 142, b: 234 },
                95 => Color { r: 214, g: 112, b: 214 },
                96 => Color { r: 41, g: 184, b: 219 },
                97 => Color { r: 0, g: 0, b: 0 },
                _ => Color { r: 0, g: 0, b: 0 },
            },
            Theme::Dark => match code {
                30 => Color { r: 0, g: 0, b: 0 },
                31 => Color { r: 205, g: 49, b: 49 },
                32 => Color { r: 13, g: 188, b: 121 },
                33 => Color { r: 229, g: 229, b: 16 },
                34 => Color { r: 36, g: 114, b: 200 },
                35 => Color { r: 188, g: 63, b: 188 },
                36 => Color { r: 17, g: 168, b: 205 },
                37 => Color { r: 229, g: 229, b: 229 },
                90 => Color { r: 102, g: 102, b: 102 },
                91 => Color { r: 241, g: 76, b: 76 },
                92 => Color { r: 35, g: 209, b: 139 },
                93 => Color { r: 245, g: 245, b: 67 },
                94 => Color { r: 59, g: 142, b: 234 },
                95 => Color { r: 214, g: 112, b: 214 },
                96 => Color { r: 41, g: 184, b: 219 },
                97 => Color { r: 255, g: 255, b: 255 },
                _ => Color { r: 255, g: 255, b: 255 },
            },
        }
    }
}

} // verus!
