//! Themes and their RGB palettes.
//!
//! [`Rgb`] is the single source of truth for every color a widget shows: both
//! the terminal colors and the CSS tokens of the theme stylesheets are derived
//! from these values, so the two paths never drift.

use vstd::prelude::*;

use crate::text::push_char;

verus! {

/// An RGB color.
#[derive(Debug, Clone, Copy, PartialEq, Eq, Structural)]
pub struct Rgb(pub u8, pub u8, pub u8);

/// The lower-case hexadecimal digit of `n` (`n < 16`).
pub open spec fn hex_digit(n: int) -> char {
    if n < 10 {
        (n + 48) as char
    } else {
        (n - 10 + 97) as char
    }
}

/// The two lower-case hex digits of a byte.
pub open spec fn hex_byte(b: u8) -> Seq<char> {
    seq![hex_digit(b as int / 16), hex_digit(b as int % 16)]
}

/// `#rrggbb` for a color.
pub open spec fn hex_of(c: Rgb) -> Seq<char> {
    seq!['#'] + hex_byte(c.0) + hex_byte(c.1) + hex_byte(c.2)
}

fn hex_digit_exec(n: u8) -> (c: char)
    requires
        n < 16,
    ensures
        c == hex_digit(n as int),
{
    if n < 10 {
        (n + 48) as char
    } else {
        (n - 10 + 97) as char
    }
}

fn push_hex_byte(s: &mut String, b: u8)
    ensures
        final(s)@ == old(s)@ + hex_byte(b),
{
    push_char(s, hex_digit_exec(b / 16));
    push_char(s, hex_digit_exec(b % 16));
    assert(final(s)@ =~= old(s)@ + hex_byte(b));
}

impl Rgb {
    /// `#rrggbb` (lower-case hex), as written into the `:root { --token: … }`
    /// block of the theme stylesheets.
    pub fn hex(self) -> (s: String)
        ensures
            s@ == hex_of(self),
    {
        let mut s = String::new();
        push_char(&mut s, '#');
        push_hex_byte(&mut s, self.0);
        push_hex_byte(&mut s, self.1);
        push_hex_byte(&mut s, self.2);
        assert(s@ =~= hex_of(self));
        s
    }
}

/// The value of a lower-case hexadecimal digit.
pub open spec fn hex_value(c: char) -> int {
    if '0' <= c <= '9' {
        c as int - 48
    } else {
        c as int - 97 + 10
    }
}

/// The byte spelled by two hex digits.
pub open spec fn hex_byte_value(hi: char, lo: char) -> int {
    16 * hex_value(hi) + hex_value(lo)
}

/// Reading `#rrggbb` back gives the color: the hex string is `#` followed by
/// two digits per channel, and each digit pair spells that channel's byte.
pub proof fn lemma_hex_roundtrip(c: Rgb)
    ensures
        hex_of(c).len() == 7,
        hex_of(c)[0] == '#',
        hex_byte_value(hex_of(c)[1], hex_of(c)[2]) == c.0,
        hex_byte_value(hex_of(c)[3], hex_of(c)[4]) == c.1,
        hex_byte_value(hex_of(c)[5], hex_of(c)[6]) == c.2,
{
    lemma_hex_byte_value(c.0);
    lemma_hex_byte_value(c.1);
    lemma_hex_byte_value(c.2);
}

proof fn lemma_hex_digit_value(n: int)
    requires
        0 <= n < 16,
    ensures
        hex_value(hex_digit(n)) == n,
{
}

proof fn lemma_hex_byte_value(b: u8)
    ensures
        hex_byte_value(hex_byte(b)[0], hex_byte(b)[1]) == b,
{
    lemma_hex_digit_value(b as int / 16);
    lemma_hex_digit_value(b as int % 16);
}

/// A complete palette. Fields are semantic, not themed, so every widget can
/// refer to e.g. `palette.accent` regardless of which theme is active.
#[derive(Debug, Clone, Copy, PartialEq, Eq)]
pub struct Palette {
    /// Primary accent (the theme's signature color).
    pub accent: Rgb,
    /// Secondary accent for contrast / highlights.
    pub accent2: Rgb,
    /// App background.
    pub bg: Rgb,
    /// Panel / frame background.
    pub panel: Rgb,
    /// Primary foreground / text.
    pub fg: Rgb,
    /// Dimmed labels, scanlines, borders.
    pub muted: Rgb,
    /// "Ok" / nominal state.
    pub ok: Rgb,
    /// "Warn" state.
    pub warn: Rgb,
    /// "Alert" / danger state.
    pub alert: Rgb,
}

/// The built-in themes.
#[derive(Debug, Clone, Copy, PartialEq, Eq, Structural)]
pub enum Theme {
    /// Fluorescent pink / neon blue (the default).
    Cyberpunk,
    /// Phosphor green on black.
    Fallout,
    /// Amber gold / grey-white / dark red.
    Weyland,
    /// Deep blue / white / alert red.
    DeepSpace,
    /// Crimson / ember on near-black red.
    Bloodmoon,
    /// Violet / ice-cyan on indigo-black.
    Nebula,
    /// Aqua-teal / pale ice on cold black.
    Arctic,
    /// Monochrome white / silver on charcoal.
    Sentinel,
}

impl Default for Theme {
    fn default() -> (t: Theme)
        ensures
            t == Theme::Cyberpunk,
    {
        Theme::Cyberpunk
    }
}

/// The palette of each theme.
pub open spec fn palette_of(t: Theme) -> Palette {
    match t {
            Theme::Cyberpunk => Palette {
                accent: Rgb(0xff, 0x00, 0x7f),
                accent2: Rgb(0x00, 0xf0, 0xff),
                bg: Rgb(0x08, 0x04, 0x14),
                panel: Rgb(0x14, 0x0a, 0x22),
                fg: Rgb(0xf0, 0xe6, 0xff),
                muted: Rgb(0x6a, 0x3a, 0x7a),
                ok: Rgb(0x39, 0xff, 0x14),
                warn: Rgb(0xff, 0xb0, 0x00),
                alert: Rgb(0xff, 0x20, 0x60),
            },
            Theme::Fallout => Palette {
                accent: Rgb(0x33, 0xff, 0x33),
                accent2: Rgb(0x22, 0xcc, 0x22),
                bg: Rgb(0x00, 0x00, 0x00),
                panel: Rgb(0x05, 0x12, 0x05),
                fg: Rgb(0x33, 0xff, 0x33),
                muted: Rgb(0x12, 0x66, 0x12),
                ok: Rgb(0x33, 0xff, 0x33),
                warn: Rgb(0xcc, 0xdd, 0x22),
                alert: Rgb(0xff, 0x44, 0x44),
            },
            Theme::Weyland => Palette {
                accent: Rgb(0xff, 0xb0, 0x00),
                accent2: Rgb(0xd0, 0xd0, 0xc8),
                bg: Rgb(0x0a, 0x08, 0x04),
                panel: Rgb(0x16, 0x10, 0x06),
                fg: Rgb(0xe6, 0xd8, 0xb0),
                muted: Rgb(0x70, 0x5a, 0x30),
                ok: Rgb(0xb0, 0xd0, 0x60),
                warn: Rgb(0xff, 0xb0, 0x00),
                alert: Rgb(0xb0, 0x20, 0x18),
            },
            Theme::DeepSpace => Palette {
                accent: Rgb(0x00, 0x55, 0xff),
                accent2: Rgb(0x66, 0xaa, 0xff),
                bg: Rgb(0x02, 0x05, 0x12),
                panel: Rgb(0x06, 0x0e, 0x22),
                fg: Rgb(0xea, 0xf2, 0xff),
                muted: Rgb(0x34, 0x4a, 0x78),
                ok: Rgb(0x33, 0xdd, 0x88),
                warn: Rgb(0xff, 0xc0, 0x3a),
                alert: Rgb(0xff, 0x30, 0x30),
            },
            Theme::Bloodmoon => Palette {
                accent: Rgb(0xff, 0x33, 0x44),
                accent2: Rgb(0xff, 0x88, 0x55),
                bg: Rgb(0x0c, 0x02, 0x04),
                panel: Rgb(0x1c, 0x06, 0x08),
                fg: Rgb(0xff, 0xe2, 0xdc),
                muted: Rgb(0x80, 0x2e, 0x32),
                ok: Rgb(0x66, 0xee, 0x77),
                warn: Rgb(0xff, 0xc0, 0x3a),
                alert: Rgb(0xff, 0x22, 0x2a),
            },
            Theme::Nebula => Palette {
                accent: Rgb(0xbb, 0x66, 0xff),
                accent2: Rgb(0x66, 0xee, 0xff),
                bg: Rgb(0x07, 0x04, 0x12),
                panel: Rgb(0x14, 0x0c, 0x24),
                fg: Rgb(0xee, 0xe6, 0xff),
                muted: Rgb(0x5e, 0x48, 0x8c),
                ok: Rgb(0x55, 0xff, 0xaa),
                warn: Rgb(0xff, 0xcc, 0x44),
                alert: Rgb(0xff, 0x44, 0x88),
            },
            Theme::Arctic => Palette {
                accent: Rgb(0x44, 0xee, 0xdd),
                accent2: Rgb(0xaa, 0xee, 0xff),
                bg: Rgb(0x02, 0x0a, 0x0c),
                panel: Rgb(0x06, 0x16, 0x1a),
                fg: Rgb(0xe6, 0xf6, 0xff),
                muted: Rgb(0x2e, 0x60, 0x6c),
                ok: Rgb(0x44, 0xff, 0x99),
                warn: Rgb(0xff, 0xd0, 0x44),
                alert: Rgb(0xff, 0x44, 0x66),
            },
            Theme::Sentinel => Palette {
                accent: Rgb(0xe8, 0xe8, 0xec),
                accent2: Rgb(0x9a, 0x9a, 0xa6),
                bg: Rgb(0x04, 0x04, 0x06),
                panel: Rgb(0x10, 0x10, 0x14),
                fg: Rgb(0xd8, 0xd8, 0xde),
                muted: Rgb(0x4e, 0x4e, 0x58),
                ok: Rgb(0x66, 0xee, 0x88),
                warn: Rgb(0xff, 0xcc, 0x3a),
                alert: Rgb(0xff, 0x55, 0x55),
            },
    }
}

impl Theme {
    /// This theme's palette.
    pub fn palette(self) -> (p: Palette)
        ensures
            p == palette_of(self),
    {
        match self {
            Theme::Cyberpunk => Palette {
                    accent: Rgb(0xff, 0x00, 0x7f),
                    accent2: Rgb(0x00, 0xf0, 0xff),
                    bg: Rgb(0x08, 0x04, 0x14),
                    panel: Rgb(0x14, 0x0a, 0x22),
                    fg: Rgb(0xf0, 0xe6, 0xff),
                    muted: Rgb(0x6a, 0x3a, 0x7a),
                    ok: Rgb(0x39, 0xff, 0x14),
                    warn: Rgb(0xff, 0xb0, 0x00),
                    alert: Rgb(0xff, 0x20, 0x60),
                },
                Theme::Fallout => Palette {
                    accent: Rgb(0x33, 0xff, 0x33),
                    accent2: Rgb(0x22, 0xcc, 0x22),
                    bg: Rgb(0x00, 0x00, 0x00),
                    panel: Rgb(0x05, 0x12, 0x05),
                    fg: Rgb(0x33, 0xff, 0x33),
                    muted: Rgb(0x12, 0x66, 0x12),
                    ok: Rgb(0x33, 0xff, 0x33),
                    warn: Rgb(0xcc, 0xdd, 0x22),
                    alert: Rgb(0xff, 0x44, 0x44),
                },
                Theme::Weyland => Palette {
                    accent: Rgb(0xff, 0xb0, 0x00),
                    accent2: Rgb(0xd0, 0xd0, 0xc8),
                    bg: Rgb(0x0a, 0x08, 0x04),
                    panel: Rgb(0x16, 0x10, 0x06),
                    fg: Rgb(0xe6, 0xd8, 0xb0),
                    muted: Rgb(0x70, 0x5a, 0x30),
                    ok: Rgb(0xb0, 0xd0, 0x60),
                    warn: Rgb(0xff, 0xb0, 0x00),
                    alert: Rgb(0xb0, 0x20, 0x18),
                },
                Theme::DeepSpace => Palette {
                    accent: Rgb(0x00, 0x55, 0xff),
                    accent2: Rgb(0x66, 0xaa, 0xff),
                    bg: Rgb(0x02, 0x05, 0x12),
                    panel: Rgb(0x06, 0x0e, 0x22),
                    fg: Rgb(0xea, 0xf2, 0xff),
                    muted: Rgb(0x34, 0x4a, 0x78),
                    ok: Rgb(0x33, 0xdd, 0x88),
                    warn: Rgb(0xff, 0xc0, 0x3a),
                    alert: Rgb(0xff, 0x30, 0x30),
                },
                Theme::Bloodmoon => Palette {
                    accent: Rgb(0xff, 0x33, 0x44),
                    accent2: Rgb(0xff, 0x88, 0x55),
                    bg: Rgb(0x0c, 0x02, 0x04),
                    panel: Rgb(0x1c, 0x06, 0x08),
                    fg: Rgb(0xff, 0xe2, 0xdc),
                    muted: Rgb(0x80, 0x2e, 0x32),
                    ok: Rgb(0x66, 0xee, 0x77),
                    warn: Rgb(0xff, 0xc0, 0x3a),
                    alert: Rgb(0xff, 0x22, 0x2a),
                },
                Theme::Nebula => Palette {
                    accent: Rgb(0xbb, 0x66, 0xff),
                    accent2: Rgb(0x66, 0xee, 0xff),
                    bg: Rgb(0x07, 0x04, 0x12),
                    panel: Rgb(0x14, 0x0c, 0x24),
                    fg: Rgb(0xee, 0xe6, 0xff),
                    muted: Rgb(0x5e, 0x48, 0x8c),
                    ok: Rgb(0x55, 0xff, 0xaa),
                    warn: Rgb(0xff, 0xcc, 0x44),
                    alert: Rgb(0xff, 0x44, 0x88),
                },
                Theme::Arctic => Palette {
                    accent: Rgb(0x44, 0xee, 0xdd),
                    accent2: Rgb(0xaa, 0xee, 0xff),
                    bg: Rgb(0x02, 0x0a, 0x0c),
                    panel: Rgb(0x06, 0x16, 0x1a),
                    fg: Rgb(0xe6, 0xf6, 0xff),
                    muted: Rgb(0x2e, 0x60, 0x6c),
                    ok: Rgb(0x44, 0xff, 0x99),
                    warn: Rgb(0xff, 0xd0, 0x44),
                    alert: Rgb(0xff, 0x44, 0x66),
                },
                Theme::Sentinel => Palette {
                    accent: Rgb(0xe8, 0xe8, 0xec),
                    accent2: Rgb(0x9a, 0x9a, 0xa6),
                    bg: Rgb(0x04, 0x04, 0x06),
                    panel: Rgb(0x10, 0x10, 0x14),
                    fg: Rgb(0xd8, 0xd8, 0xde),
                    muted: Rgb(0x4e, 0x4e, 0x58),
                    ok: Rgb(0x66, 0xee, 0x88),
                    warn: Rgb(0xff, 0xcc, 0x3a),
                    alert: Rgb(0xff, 0x55, 0x55),
                },
        }
    }

    /// Every built-in theme, in declaration order.
    pub fn all() -> (v: Vec<Theme>)
        ensures
            v@ == seq![
                Theme::Cyberpunk,
                Theme::Fallout,
                Theme::Weyland,
                Theme::DeepSpace,
                Theme::Bloodmoon,
                Theme::Nebula,
                Theme::Arctic,
                Theme::Sentinel,
            ],
    {
        vec![
            Theme::Cyberpunk,
            Theme::Fallout,
            Theme::Weyland,
            Theme::DeepSpace,
            Theme::Bloodmoon,
            Theme::Nebula,
            Theme::Arctic,
            Theme::Sentinel,
        ]
    }
}

/// Severity level of a readout: selects the palette token it is drawn in.
#[derive(Debug, Clone, Copy, PartialEq, Eq, Structural)]
pub enum Level {
    /// Nominal readout (`fg`). The default.
    Normal,
    /// Healthy (`ok`).
    Okay,
    /// Cautionary (`warn`).
    Warn,
    /// Danger (`alert`).
    Alert,
}

impl Default for Level {
    fn default() -> (l: Level)
        ensures
            l == Level::Normal,
    {
        Level::Normal
    }
}

/// The palette color of a level.
pub open spec fn level_rgb(p: Palette, l: Level) -> Rgb {
    match l {
        Level::Normal => p.fg,
        Level::Okay => p.ok,
        Level::Warn => p.warn,
        Level::Alert => p.alert,
    }
}

impl Level {
    /// The palette color this level is drawn in.
    pub fn color_in(self, p: Palette) -> (c: Rgb)
        ensures
            c == level_rgb(p, self),
    {
        match self {
            Level::Normal => p.fg,
            Level::Okay => p.ok,
            Level::Warn => p.warn,
            Level::Alert => p.alert,
        }
    }
}

} // verus!
