//! The editor's settings: the colour theme and the line-number gutter.

use crate::color::Color;
use vstd::prelude::*;

verus! {

/// The colours that the panels draw with.
#[derive(Clone, Copy, Debug, PartialEq, Eq, Structural)]
pub struct Theme {
    pub stress_fclr: Color,
    pub stress_bclr: Color,
    pub normal_fclr: Color,
    pub normal_bclr: Color,
    pub weak_fclr: Color,
    pub weak_bclr: Color,
    pub black: Color,
    pub red: Color,
    pub green: Color,
    pub yellow: Color,
    pub blue: Color,
    pub magenta: Color,
    pub cyan: Color,
    pub white: Color,
    pub bright_black: Color,
    pub bright_red: Color,
    pub bright_green: Color,
    pub bright_yellow: Color,
    pub bright_blue: Color,
    pub bright_magenta: Color,
    pub bright_cyan: Color,
    pub bright_white: Color,
}

impl Theme {
    /// The dusk variant of the nightfox palette.
    pub fn duskfox() -> (theme: Theme)
        ensures
            theme == Theme::duskfox_spec(),
    {
        Theme {
            stress_fclr: Color::new(0x56, 0x9f, 0xba),
            stress_bclr: Color::new(0x43, 0x3c, 0x59),
            normal_fclr: Color::new(0xe0, 0xde, 0xf4),
            normal_bclr: Color::new(0x23, 0x21, 0x36),
            weak_fclr: Color::new(0x44, 0x4a, 0x73),
            weak_bclr: Color::new(0x2f, 0x33, 0x4d),
            black: Color::new(0x39, 0x35, 0x52),
            red: Color::new(0xeb, 0x6f, 0x92),
            green: Color::new(0xa3, 0xbe, 0x8c),
            yellow: Color::new(0xf6, 0xc1, 0x77),
            blue: Color::new(0x56, 0x9f, 0xba),
            magenta: Color::new(0xc4, 0xa7, 0xe7),
            cyan: Color::new(0x9c, 0xcf, 0xd8),
            white: Color::new(0xe0, 0xde, 0xf4),
            bright_black: Color::new(0x47, 0x40, 0x7d),
            bright_red: Color::new(0xf0, 0x83, 0xa2),
            bright_green: Color::new(0xb1, 0xd1, 0x96),
            bright_yellow: Color::new(0xf9, 0xcb, 0x8c),
            bright_blue: Color::new(0x65, 0xb1, 0xcd),
            bright_magenta: Color::new(0xcc, 0xb1, 0xed),
            bright_cyan: Color::new(0xa6, 0xda, 0xe3),
            bright_white: Color::new(0xe2, 0xe0, 0xf7),
        }
    }

    /// The colours of [`Theme::duskfox`].
    pub open spec fn duskfox_spec() -> Theme {
        Theme {
            stress_fclr: Color { r: 0x56, g: 0x9f, b: 0xba },
            stress_bclr: Color { r: 0x43, g: 0x3c, b: 0x59 },
            normal_fclr: Color { r: 0xe0, g: 0xde, b: 0xf4 },
            normal_bclr: Color { r: 0x23, g: 0x21, b: 0x36 },
            weak_fclr: Color { r: 0x44, g: 0x4a, b: 0x73 },
            weak_bclr: Color { r: 0x2f, g: 0x33, b: 0x4d },
            black: Color { r: 0x39, g: 0x35, b: 0x52 },
            red: Color { r: 0xeb, g: 0x6f, b: 0x92 },
            green: Color { r: 0xa3, g: 0xbe, b: 0x8c },
            yellow: Color { r: 0xf6, g: 0xc1, b: 0x77 },
            blue: Color { r: 0x56, g: 0x9f, b: 0xba },
            magenta: Color { r: 0xc4, g: 0xa7, b: 0xe7 },
            cyan: Color { r: 0x9c, g: 0xcf, b: 0xd8 },
            white: Color { r: 0xe0, g: 0xde, b: 0xf4 },
            bright_black: Color { r: 0x47, g: 0x40, b: 0x7d },
            bright_red: Color { r: 0xf0, g: 0x83, b: 0xa2 },
            bright_green: Color { r: 0xb1, g: 0xd1, b: 0x96 },
            bright_yellow: Color { r: 0xf9, g: 0xcb, b: 0x8c },
            bright_blue: Color { r: 0x65, g: 0xb1, b: 0xcd },
            bright_magenta: Color { r: 0xcc, g: 0xb1, b: 0xed },
            bright_cyan: Color { r: 0xa6, g: 0xda, b: 0xe3 },
            bright_white: Color { r: 0xe2, g: 0xe0, b: 0xf7 },
        }
    }

    /// The tokyonight palette.
    pub fn tokyonight() -> (theme: Theme)
        ensures
            theme == Theme::tokyonight_spec(),
    {
        Theme {
            stress_fclr: Color::new(0x82, 0xaa, 0xff),
            stress_bclr: Color::new(0x2d, 0x3f, 0x76),
            normal_fclr: Color::new(0xc8, 0xd3, 0xf5),
            normal_bclr: Color::new(0x22, 0x24, 0x36),
            weak_fclr: Color::new(0x54, 0x5c, 0x7e),
            weak_bclr: Color::new(0x2f, 0x33, 0x4d),
            black: Color::new(0x1b, 0x1d, 0x2b),
            red: Color::new(0xff, 0x75, 0x7f),
            green: Color::new(0xc3, 0xe8, 0x8d),
            yellow: Color::new(0xff, 0xc7, 0x77),
            blue: Color::new(0x82, 0xaa, 0xff),
            magenta: Color::new(0xc0, 0x99, 0xff),
            cyan: Color::new(0x86, 0xe1, 0xfc),
            white: Color::new(0x82, 0x8b, 0xb8),
            bright_black: Color::new(0x44, 0x4a, 0x73),
            bright_red: Color::new(0xff, 0x8d, 0x94),
            bright_green: Color::new(0xc7, 0xfb, 0x6d),
            bright_yellow: Color::new(0xff, 0xd8, 0xab),
            bright_blue: Color::new(0x9a, 0xb8, 0xff),
            bright_magenta: Color::new(0xca, 0xab, 0xff),
            bright_cyan: Color::new(0xb2, 0xeb, 0xff),
            bright_white: Color::new(0xc8, 0xd3, 0xf5),
        }
    }

    /// The colours of [`Theme::tokyonight`].
    pub open spec fn tokyonight_spec() -> Theme {
        Theme {
            stress_fclr: Color { r: 0x82, g: 0xaa, b: 0xff },
            stress_bclr: Color { r: 0x2d, g: 0x3f, b: 0x76 },
            normal_fclr: Color { r: 0xc8, g: 0xd3, b: 0xf5 },
            normal_bclr: Color { r: 0x22, g: 0x24, b: 0x36 },
            weak_fclr: Color { r: 0x54, g: 0x5c, b: 0x7e },
            weak_bclr: Color { r: 0x2f, g: 0x33, b: 0x4d },
            black: Color { r: 0x1b, g: 0x1d, b: 0x2b },
            red: Color { r: 0xff, g: 0x75, b: 0x7f },
            green: Color { r: 0xc3, g: 0xe8, b: 0x8d },
            yellow: Color { r: 0xff, g: 0xc7, b: 0x77 },
            blue: Color { r: 0x82, g: 0xaa, b: 0xff },
            magenta: Color { r: 0xc0, g: 0x99, b: 0xff },
            cyan: Color { r: 0x86, g: 0xe1, b: 0xfc },
            white: Color { r: 0x82, g: 0x8b, b: 0xb8 },
            bright_black: Color { r: 0x44, g: 0x4a, b: 0x73 },
            bright_red: Color { r: 0xff, g: 0x8d, b: 0x94 },
            bright_green: Color { r: 0xc7, g: 0xfb, b: 0x6d },
            bright_yellow: Color { r: 0xff, g: 0xd8, b: 0xab },
            bright_blue: Color { r: 0x9a, g: 0xb8, b: 0xff },
            bright_magenta: Color { r: 0xca, g: 0xab, b: 0xff },
            bright_cyan: Color { r: 0xb2, g: 0xeb, b: 0xff },
            bright_white: Color { r: 0xc8, g: 0xd3, b: 0xf5 },
        }
    }
}

impl Default for Theme {
    /// The theme in use: change this to change the editor's colours.
    fn default() -> (theme: Theme)
        ensures
            theme == Theme::tokyonight_spec(),
    {
        Theme::tokyonight()
    }
}

/// What every panel may read: the theme, and whether and how wide the text
/// viewport draws its line-number gutter.
#[derive(Clone, Copy, Debug, PartialEq, Eq, Structural)]
pub struct Settings {
    pub theme: Theme,
    pub is_show_num: bool,
    pub num_offset: u16,
}

impl Default for Settings {
    /// The default theme, no gutter.
    fn default() -> (settings: Settings)
        ensures
            settings.theme == Theme::tokyonight_spec(),
            !settings.is_show_num,
            settings.num_offset == 0,
    {
        Settings { theme: Theme::default(), is_show_num: false, num_offset: 0 }
    }
}

impl Settings {
    /// Switches the gutter on, five cells wide.
    pub fn init(&mut self)
        ensures
            final(self).num_offset == 5,
            final(self).is_show_num,
            final(self).theme == old(self).theme,
    {
        self.num_offset = 5;
        self.is_show_num = true;
    }
}

} // verus!
