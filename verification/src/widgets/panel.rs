//! **Panel**: a titled container frame whose border and padding come from
//! the theme stylesheet's `Frame` rule.
//!
//! The frame is double-lined by default; [`PanelShape`] swaps only the border
//! glyphs, so the content area ([`Panel::inner`]) is the same for every shape.

use vstd::prelude::*;

use ratatui::layout::Rect;
use ratatui_style::{ComputeScratch, NodeRef, Stylesheet};

use crate::geom::Area;
use crate::css::css_parses;
use crate::stylesheet::{theme_css, theme_css_of};
use crate::theme::{palette_of, Palette, Theme};

verus! {

/// Border-glyph form of a [`Panel`].
#[derive(Debug, Clone, Copy, PartialEq, Eq, Structural)]
pub enum PanelShape {
    /// Double-line border (`╔` … `╝`), the stylesheet's own look (the
    /// default).
    Double,
    /// Plain single-line border (`┌` … `┘`).
    Single,
    /// Rounded single-line border (`╭` … `╯`).
    Rounded,
    /// Thick single-line border (`┏` … `┛`).
    Thick,
}

impl Default for PanelShape {
    fn default() -> (s: PanelShape)
        ensures
            s == PanelShape::Double,
    {
        PanelShape::Double
    }
}

/// A titled container panel.
#[derive(Debug, Clone)]
pub struct Panel {
    /// Optional title drawn on the top border.
    pub title: Option<String>,
    /// Border-glyph form.
    pub shape: PanelShape,
    /// Theme whose stylesheet drives the frame.
    pub theme: Theme,
}

impl Default for Panel {
    fn default() -> (p: Panel)
        ensures
            p.title is None,
            p.shape == PanelShape::Double,
            p.theme == Theme::Cyberpunk,
    {
        Panel { title: None, shape: PanelShape::Double, theme: Theme::Cyberpunk }
    }
}

/// The content area that a theme stylesheet leaves inside `area` for the
/// widget node `node`: `None` when the source does not parse.
pub uninterp spec fn styled_inner(css: Seq<char>, node: Seq<char>, area: Area) -> Option<Area>;

/// The node name of the panel frame rule.
pub open spec fn frame_node() -> Seq<char> {
    seq!['F', 'r', 'a', 'm', 'e']
}

/// `ratatui_style::Stylesheet::parse` of `css`, then `compute_with` on the
/// node `node`, the computed style's `to_block`, and
/// `ratatui::widgets::Block::inner` of `area`. The parsed sheet, the
/// computed style and the block are opaque, so the chain is one step here,
/// from plain values to plain values.
///
/// Trusted: the result is a function of the source, the node name and the
/// area alone, named [`styled_inner`]; it is `Some` exactly when the parse
/// succeeds; and `Block::inner` only moves the corner in and shrinks the
/// extent (saturating), so a non-empty result also keeps its right and
/// bottom edges inside the area (an empty one may have its corner pushed
/// past an edge by the padding). The parser recurses on nested at-rules with no depth
/// limit, so only the generated theme sources (which hold none) are handed in.
#[verifier::external_body]
fn node_inner(css: &str, node: &str, area: Area) -> (r: Option<Area>)
    requires
        exists|p: Palette| css@ == #[trigger] theme_css_of(p),
    ensures
        r == styled_inner(css@, node@, area),
        r is Some <==> css_parses(css@),
        r matches Some(a) ==> a.x >= area.x && a.y >= area.y && a.width <= area.width
            && a.height <= area.height,
        r matches Some(a) ==> (a.width > 0 ==> a.x + a.width <= area.x + area.width) && (a.height
            > 0 ==> a.y + a.height <= area.y + area.height),
{
    let sheet = Stylesheet::parse(css).ok()?;
    let mut scratch = ComputeScratch::new();
    let computed = sheet.compute_with(&NodeRef::new(node), None, &mut scratch);
    let rect = Rect { x: area.x, y: area.y, width: area.width, height: area.height };
    let r = computed.to_block().inner(rect);
    Some(Area { x: r.x, y: r.y, width: r.width, height: r.height })
}

impl Panel {
    /// An untitled, double-bordered panel in the default theme.
    pub fn new() -> (p: Panel)
        ensures
            p.title is None,
            p.shape == PanelShape::Double,
            p.theme == Theme::Cyberpunk,
    {
        Panel { title: None, shape: PanelShape::Double, theme: Theme::Cyberpunk }
    }

    /// Set the title drawn on the top border.
    pub fn title(self, title: &str) -> (p: Panel)
        ensures
            p.title matches Some(t) && t@ == title@,
            p.shape == self.shape,
            p.theme == self.theme,
    {
        Panel { title: Some(String::from_str(title)), ..self }
    }

    /// Set the border-glyph form.
    pub fn shape(self, shape: PanelShape) -> (p: Panel)
        ensures
            p == (Panel { shape, ..self }),
    {
        Panel { shape, ..self }
    }

    /// Set the theme.
    pub fn theme(self, theme: Theme) -> (p: Panel)
        ensures
            p == (Panel { theme, ..self }),
    {
        Panel { theme, ..self }
    }

    /// The content area inside the frame: `area` shrunk by the border and
    /// padding of the theme stylesheet's `Frame` rule; never larger than
    /// `area`, never outside its corner, and, when not empty, inside its right
    /// and bottom edges; the same for every shape. `None`
    /// exactly when the theme's stylesheet does not parse.
    pub fn inner(&self, area: Area) -> (r: Option<Area>)
        ensures
            r == styled_inner(theme_css_of(palette_of(self.theme)), frame_node(), area),
            r is Some <==> css_parses(theme_css_of(palette_of(self.theme))),
            r matches Some(a) ==> a.x >= area.x && a.y >= area.y && a.width <= area.width
                && a.height <= area.height,
            r matches Some(a) ==> (a.width > 0 ==> a.x + a.width <= area.x + area.width) && (
            a.height > 0 ==> a.y + a.height <= area.y + area.height),
    {
        let p = self.theme.palette();
        let css = theme_css(p);
        assert(css@ == theme_css_of(p));
        proof {
            reveal_strlit("Frame");
        }
        assert("Frame"@ == frame_node());
        node_inner(css.as_str(), "Frame", area)
    }
}

} // verus!
