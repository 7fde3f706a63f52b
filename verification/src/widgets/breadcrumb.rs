//! **Breadcrumb**: a navigation trail, `ROOT > SYS > NET`.
//!
//! Ancestors and separators are drawn in the label style, the last segment
//! (the current location) in the value style.

use vstd::prelude::*;

use crate::text::{push_str, strings_of};
use crate::theme::Theme;

verus! {

/// Separator of the default shape.
pub const SEP_CHEVRON: char = '>';

/// Separator glyph of a [`Breadcrumb`].
#[derive(Debug, Clone, Copy, PartialEq, Eq, Structural)]
pub enum BreadcrumbShape {
    /// `>` (the default).
    Chevron,
    /// `/`.
    Slash,
    /// `►`.
    Arrow,
}

impl Default for BreadcrumbShape {
    fn default() -> (s: BreadcrumbShape)
        ensures
            s == BreadcrumbShape::Chevron,
    {
        BreadcrumbShape::Chevron
    }
}

/// The separator of each shape.
pub open spec fn crumb_sep(s: BreadcrumbShape) -> char {
    match s {
        BreadcrumbShape::Chevron => '>',
        BreadcrumbShape::Slash => '/',
        BreadcrumbShape::Arrow => '►',
    }
}

impl BreadcrumbShape {
    /// The separator glyph.
    pub fn sep(self) -> (c: char)
        ensures
            c == crumb_sep(self),
    {
        match self {
            BreadcrumbShape::Chevron => SEP_CHEVRON,
            BreadcrumbShape::Slash => '/',
            BreadcrumbShape::Arrow => '►',
        }
    }
}

/// A navigation trail.
#[derive(Debug, Clone)]
pub struct Breadcrumb {
    /// Path segments, root first.
    pub path: Vec<String>,
    /// Separator glyph.
    pub shape: BreadcrumbShape,
    /// Theme whose palette drives colors.
    pub theme: Theme,
}

/// Segments joined by ` <sep> `.
pub open spec fn joined(path: Seq<Seq<char>>, sep: char) -> Seq<char>
    decreases path.len(),
{
    if path.len() == 0 {
        Seq::empty()
    } else if path.len() == 1 {
        path[0]
    } else {
        joined(path.drop_last(), sep) + seq![' ', sep, ' '] + path.last()
    }
}

/// The segments of a path as char sequences.
pub open spec fn path_view(path: Seq<String>) -> Seq<Seq<char>> {
    path.map_values(|s: String| s@)
}

impl Breadcrumb {
    /// A trail over the given segments.
    pub fn new(path: &[&str]) -> (b: Breadcrumb)
        ensures
            b.path@.len() == path@.len(),
            forall|i: int| 0 <= i < path@.len() ==> (#[trigger] b.path@[i])@ == path@[i]@,
            b.shape == BreadcrumbShape::Chevron,
            b.theme == Theme::Cyberpunk,
    {
        Breadcrumb { path: strings_of(path), shape: BreadcrumbShape::Chevron, theme: Theme::Cyberpunk }
    }

    /// Set the separator glyph.
    pub fn shape(self, shape: BreadcrumbShape) -> (b: Breadcrumb)
        ensures
            b == (Breadcrumb { shape, ..self }),
    {
        Breadcrumb { shape, ..self }
    }

    /// Set the theme.
    pub fn theme(self, theme: Theme) -> (b: Breadcrumb)
        ensures
            b == (Breadcrumb { theme, ..self }),
    {
        Breadcrumb { theme, ..self }
    }

    /// The trail text and the index where the current (last) segment starts.
    pub fn trail(&self) -> (r: (Vec<char>, usize))
        ensures
            r.0@ == joined(path_view(self.path@), crumb_sep(self.shape)),
            self.path@.len() > 0 ==> r.1 == r.0@.len() - self.path@.last()@.len(),
            self.path@.len() == 0 ==> r.1 == 0,
    {
        let sep = self.shape.sep();
        let mut r: Vec<char> = Vec::new();
        let mut start: usize = 0;
        let n = self.path.len();
        let mut i: usize = 0;
        while i < n
            invariant
                n == self.path@.len(),
                sep == crumb_sep(self.shape),
                i <= n,
                r@ == joined(path_view(self.path@.take(i as int)), sep),
                i > 0 ==> start == r@.len() - self.path@[i - 1]@.len(),
                i == 0 ==> start == 0,
            decreases n - i,
        {
            if i > 0 {
                r.push(' ');
                r.push(sep);
                r.push(' ');
            }
            start = r.len();
            push_str(&mut r, self.path[i].as_str());
            proof {
                let pv = path_view(self.path@.take(i + 1));
                assert(pv.drop_last() =~= path_view(self.path@.take(i as int)));
                assert(pv.last() == self.path@[i as int]@);
                if i == 0 {
                    assert(pv.len() == 1);
                }
            }
            i = i + 1;
        }
        assert(self.path@.take(n as int) =~= self.path@);
        (r, start)
    }
}

} // verus!
