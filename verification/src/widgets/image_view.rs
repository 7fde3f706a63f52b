//! **ImageView**: multi-line ASCII art, centered in its area and drawn in a
//! palette color.
//!
//! The art is split into lines the way `str::lines` does; the block of lines
//! is centered vertically and each line horizontally, and only non-space
//! chars are drawn.

use vstd::prelude::*;

use crate::geom::Area;
use crate::text::chars_of;
use crate::theme::{palette_of, Rgb, Theme};

verus! {

/// Color form of an [`ImageView`].
#[derive(Debug, Clone, Copy, PartialEq, Eq, Structural)]
pub enum ImageViewShape {
    /// The palette's accent (the default).
    Accent,
    /// The palette's muted color.
    Muted,
    /// The palette's foreground.
    Fg,
}

impl Default for ImageViewShape {
    fn default() -> (s: ImageViewShape)
        ensures
            s == ImageViewShape::Accent,
    {
        ImageViewShape::Accent
    }
}

/// An ASCII-art viewer.
#[derive(Debug, Clone)]
pub struct ImageView {
    /// The art, lines separated by `\n`.
    pub art: String,
    /// Color form.
    pub shape: ImageViewShape,
    /// Theme whose palette drives the color.
    pub theme: Theme,
}

/// A line with one trailing `\r` removed.
pub open spec fn strip_cr(l: Seq<char>) -> Seq<char> {
    if l.len() > 0 && l.last() == '\r' {
        l.drop_last()
    } else {
        l
    }
}

/// Splitting state after reading `s`: the finished lines (each without its
/// `\n` and one `\r` before it) and the line still open.
pub open spec fn split_state(s: Seq<char>) -> (Seq<Seq<char>>, Seq<char>)
    decreases s.len(),
{
    if s.len() == 0 {
        (seq![], seq![])
    } else {
        let (done, cur) = split_state(s.drop_last());
        if s.last() == '\n' {
            (done.push(strip_cr(cur)), seq![])
        } else {
            (done, cur.push(s.last()))
        }
    }
}

/// The lines of `s` as `str::lines` yields them: split at `\n` (and `\r\n`);
/// a final line ending adds no empty line.
pub open spec fn art_lines(s: Seq<char>) -> Seq<Seq<char>> {
    let (done, cur) = split_state(s);
    if cur.len() == 0 {
        done
    } else {
        done.push(cur)
    }
}

/// The first row of a block of `n` lines centered vertically in `area` (the
/// count taken as a `u16`, as the renderer does).
pub open spec fn image_top(area: Area, n: int) -> int {
    let h = n as u16;
    let shown = if h < area.height { h } else { area.height };
    area.y + (area.height - shown) / 2
}

/// The first column of a line of `w` chars centered horizontally in `area`.
pub open spec fn image_left(area: Area, w: int) -> int {
    let lw = w as u16;
    let shown = if lw < area.width { lw } else { area.width };
    area.x + (area.width - shown) / 2
}

impl ImageView {
    /// A viewer for `art`, default shape, default theme.
    pub fn new(art: &str) -> (v: ImageView)
        ensures
            v.art@ == art@,
            v.shape == ImageViewShape::Accent,
            v.theme == Theme::Cyberpunk,
    {
        ImageView { art: String::from_str(art), shape: ImageViewShape::Accent, theme: Theme::Cyberpunk }
    }

    /// Set the color form.
    pub fn shape(self, shape: ImageViewShape) -> (v: ImageView)
        ensures
            v.art@ == self.art@,
            v.shape == shape,
            v.theme == self.theme,
    {
        ImageView { shape, ..self }
    }

    /// Set the theme.
    pub fn theme(self, theme: Theme) -> (v: ImageView)
        ensures
            v.art@ == self.art@,
            v.shape == self.shape,
            v.theme == theme,
    {
        ImageView { theme, ..self }
    }

    /// The color the art is drawn in.
    pub fn color(&self) -> (c: Rgb)
        ensures
            c == (match self.shape {
                ImageViewShape::Accent => palette_of(self.theme).accent,
                ImageViewShape::Muted => palette_of(self.theme).muted,
                ImageViewShape::Fg => palette_of(self.theme).fg,
            }),
    {
        let p = self.theme.palette();
        match self.shape {
            ImageViewShape::Accent => p.accent,
            ImageViewShape::Muted => p.muted,
            ImageViewShape::Fg => p.fg,
        }
    }

    /// The lines of the art.
    pub fn lines(&self) -> (v: Vec<Vec<char>>)
        ensures
            v@.len() == art_lines(self.art@).len(),
            forall|i: int| 0 <= i < v@.len() ==> #[trigger] v@[i]@ == art_lines(self.art@)[i],
    {
        let chars = chars_of(self.art.as_str());
        let ghost s = self.art@;
        let mut done: Vec<Vec<char>> = Vec::new();
        let mut cur: Vec<char> = Vec::new();
        let mut i: usize = 0;
        while i < chars.len()
            invariant
                chars@ == s,
                i <= s.len(),
                done@.len() == split_state(s.subrange(0, i as int)).0.len(),
                forall|j: int|
                    0 <= j < done@.len() ==> #[trigger] done@[j]@ == split_state(
                        s.subrange(0, i as int),
                    ).0[j],
                cur@ == split_state(s.subrange(0, i as int)).1,
            decreases s.len() - i,
        {
            let c = chars[i];
            let ghost pre = s.subrange(0, i as int);
            assert(s.subrange(0, i + 1).drop_last() == pre);
            if c == '\n' {
                let mut line = cur;
                let n = line.len();
                if n > 0 && line[n - 1] == '\r' {
                    line.pop();
                }
                assert(line@ == strip_cr(split_state(pre).1));
                done.push(line);
                cur = Vec::new();
            } else {
                cur.push(c);
            }
            i = i + 1;
        }
        assert(s.subrange(0, s.len() as int) == s);
        if cur.len() > 0 {
            done.push(cur);
        }
        done
    }

    /// The first row of the centered block of `n` lines.
    pub fn top(area: Area, n: usize) -> (y: u16)
        requires
            area.y + area.height <= u16::MAX,
        ensures
            y == image_top(area, n as int),
    {
        let h = n as u16;
        let shown = if h < area.height {
            h
        } else {
            area.height
        };
        area.y + (area.height - shown) / 2
    }

    /// The first column of a centered line of `w` chars.
    pub fn left(area: Area, w: usize) -> (x: u16)
        requires
            area.x + area.width <= u16::MAX,
        ensures
            x == image_left(area, w as int),
    {
        let lw = w as u16;
        let shown = if lw < area.width {
            lw
        } else {
            area.width
        };
        area.x + (area.width - shown) / 2
    }
}

} // verus!
