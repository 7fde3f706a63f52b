//! **Button**: a focusable push button.
//!
//! Inline shapes draw `<l> label <r>` centered on the middle row, with marker
//! glyphs that change when focused. Boxed shapes (`Pill`, `Framed`) draw a
//! bordered box with the label centered inside, when the area has at least 3
//! rows and 2 columns; otherwise they fall back to the inline form.

use vstd::prelude::*;

use crate::text::{push_prefix, push_repeat, push_str, repeat_char};
use crate::theme::Theme;

verus! {

/// Glyph form of a [`Button`].
#[derive(Debug, Clone, Copy, PartialEq, Eq, Structural)]
pub enum ButtonShape {
    /// `[ label ]`, focused `▶ label ◀` (the default).
    Bracket,
    /// `< label >`, focused `► label ◄`.
    Angle,
    /// `« label »`, focused `▶ label ◀`.
    Chevron,
    /// `| label |`, focused `▐ label ▌`.
    Pipe,
    /// `> label <`, focused `▸ label ◂`.
    Arrow,
    /// A rounded box.
    Pill,
    /// A square box.
    Framed,
}

impl Default for ButtonShape {
    fn default() -> (s: ButtonShape)
        ensures
            s == ButtonShape::Bracket,
    {
        ButtonShape::Bracket
    }
}

/// Border glyphs of a boxed button.
#[derive(Debug, Clone, Copy, PartialEq, Eq, Structural)]
pub struct BoxGlyphs {
    /// Top-left corner.
    pub tl: char,
    /// Top-right corner.
    pub tr: char,
    /// Bottom-left corner.
    pub bl: char,
    /// Bottom-right corner.
    pub br: char,
    /// Vertical side.
    pub side: char,
    /// Horizontal edge.
    pub horizontal: char,
}

/// Whether a shape draws a box.
pub open spec fn shape_boxed(s: ButtonShape) -> bool {
    s == ButtonShape::Pill || s == ButtonShape::Framed
}

/// The border glyphs of each boxed shape.
pub open spec fn shape_box_glyphs(s: ButtonShape) -> Option<BoxGlyphs> {
    match s {
        ButtonShape::Pill => Some(
            BoxGlyphs { tl: '╭', tr: '╮', bl: '╰', br: '╯', side: '│', horizontal: '─' },
        ),
        ButtonShape::Framed => Some(
            BoxGlyphs { tl: '┌', tr: '┐', bl: '└', br: '┘', side: '│', horizontal: '─' },
        ),
        _ => None,
    }
}

/// The `(left, right)` inline markers of each shape (boxed shapes use the
/// bracket pair in their inline fallback).
pub open spec fn shape_markers(s: ButtonShape, focused: bool) -> (char, char) {
    match s {
        ButtonShape::Bracket => if focused { ('▶', '◀') } else { ('[', ']') },
        ButtonShape::Angle => if focused { ('►', '◄') } else { ('<', '>') },
        ButtonShape::Chevron => if focused { ('▶', '◀') } else { ('«', '»') },
        ButtonShape::Pipe => if focused { ('▐', '▌') } else { ('|', '|') },
        ButtonShape::Arrow => if focused { ('▸', '◂') } else { ('>', '<') },
        _ => if focused { ('▶', '◀') } else { ('[', ']') },
    }
}

impl ButtonShape {
    /// Whether this shape draws a box.
    pub fn is_boxed(self) -> (b: bool)
        ensures
            b == shape_boxed(self),
    {
        match self {
            ButtonShape::Pill | ButtonShape::Framed => true,
            _ => false,
        }
    }

    /// The border glyphs of a boxed shape.
    pub fn box_glyphs(self) -> (g: Option<BoxGlyphs>)
        ensures
            g == shape_box_glyphs(self),
    {
        match self {
            ButtonShape::Pill => Some(
                BoxGlyphs { tl: '╭', tr: '╮', bl: '╰', br: '╯', side: '│', horizontal: '─' },
            ),
            ButtonShape::Framed => Some(
                BoxGlyphs { tl: '┌', tr: '┐', bl: '└', br: '┘', side: '│', horizontal: '─' },
            ),
            _ => None,
        }
    }

    /// The `(left, right)` inline markers.
    pub fn markers(self, focused: bool) -> (m: (char, char))
        ensures
            m == shape_markers(self, focused),
    {
        match self {
            ButtonShape::Bracket => if focused {
                ('▶', '◀')
            } else {
                ('[', ']')
            },
            ButtonShape::Angle => if focused {
                ('►', '◄')
            } else {
                ('<', '>')
            },
            ButtonShape::Chevron => if focused {
                ('▶', '◀')
            } else {
                ('«', '»')
            },
            ButtonShape::Pipe => if focused {
                ('▐', '▌')
            } else {
                ('|', '|')
            },
            ButtonShape::Arrow => if focused {
                ('▸', '◂')
            } else {
                ('>', '<')
            },
            _ => if focused {
                ('▶', '◀')
            } else {
                ('[', ']')
            },
        }
    }
}

/// A sci-fi push button.
#[derive(Debug, Clone)]
pub struct Button {
    /// Button text.
    pub label: String,
    /// Whether the button has focus.
    pub focused: bool,
    /// Glyph form.
    pub shape: ButtonShape,
    /// Theme whose palette drives colors.
    pub theme: Theme,
}

impl Default for Button {
    fn default() -> (b: Button)
        ensures
            b.label@.len() == 0,
            !b.focused,
            b.shape == ButtonShape::Bracket,
            b.theme == Theme::Cyberpunk,
    {
        Button {
            label: String::new(),
            focused: false,
            shape: ButtonShape::Bracket,
            theme: Theme::Cyberpunk,
        }
    }
}

/// The label of a boxed button clipped to `inner` cells.
pub open spec fn clipped_label(label: Seq<char>, inner: nat) -> Seq<char> {
    if inner >= label.len() {
        label
    } else {
        label.take(inner as int)
    }
}

/// Row `r` of a boxed button `width` wide and `height` tall (see
/// [`Button::boxed_row`]).
pub open spec fn boxed_row_of(label: Seq<char>, g: BoxGlyphs, width: nat, height: nat, r: nat) -> Seq<char> {
    let inner = (width - 2) as nat;
    let shown = clipped_label(label, inner);
    let pad = (inner - shown.len()) as nat;
    if r == 0 {
        seq![g.tl] + repeat_char(g.horizontal, inner) + seq![g.tr]
    } else if r == height - 1 {
        seq![g.bl] + repeat_char(g.horizontal, inner) + seq![g.br]
    } else if r == height / 2 {
        seq![g.side] + repeat_char(' ', pad / 2) + shown + repeat_char(' ', (pad - pad / 2) as nat)
            + seq![g.side]
    } else {
        seq![g.side] + repeat_char(' ', inner) + seq![g.side]
    }
}

impl Button {
    /// An unfocused button labelled `label`.
    pub fn new(label: &str) -> (b: Button)
        ensures
            b.label@ == label@,
            !b.focused,
            b.shape == ButtonShape::Bracket,
            b.theme == Theme::Cyberpunk,
    {
        Button {
            label: String::from_str(label),
            focused: false,
            shape: ButtonShape::Bracket,
            theme: Theme::Cyberpunk,
        }
    }

    /// Set the focus.
    pub fn focused(self, focused: bool) -> (b: Button)
        ensures
            b == (Button { focused, ..self }),
    {
        Button { focused, ..self }
    }

    /// Set the glyph form.
    pub fn shape(self, shape: ButtonShape) -> (b: Button)
        ensures
            b == (Button { shape, ..self }),
    {
        Button { shape, ..self }
    }

    /// Set the theme.
    pub fn theme(self, theme: Theme) -> (b: Button)
        ensures
            b == (Button { theme, ..self }),
    {
        Button { theme, ..self }
    }

    /// Whether the button is drawn boxed in a `width × height` area: a boxed
    /// shape with at least 3 rows and 2 columns.
    pub fn draws_box(&self, width: u16, height: u16) -> (b: bool)
        ensures
            b == (shape_boxed(self.shape) && height >= 3 && width >= 2),
    {
        self.shape.is_boxed() && height >= 3 && width >= 2
    }

    /// The inline readout: `<left> <label> <right>`.
    pub fn inline_content(&self) -> (r: Vec<char>)
        ensures
            r@ == seq![shape_markers(self.shape, self.focused).0, ' '] + self.label@ + seq![
                ' ',
                shape_markers(self.shape, self.focused).1,
            ],
    {
        let (l, rt) = self.shape.markers(self.focused);
        let mut r: Vec<char> = Vec::new();
        r.push(l);
        r.push(' ');
        push_str(&mut r, self.label.as_str());
        r.push(' ');
        r.push(rt);
        r
    }

    /// Row `r` of the boxed form: the top edge, the bottom edge, the middle
    /// row with the label (clipped to the inner width) centered between the
    /// sides, and blank rows between the sides elsewhere.
    pub fn boxed_row(&self, width: u16, height: u16, r: u16) -> (row: Vec<char>)
        requires
            shape_boxed(self.shape),
            width >= 2,
            height >= 3,
            r < height,
        ensures
            row@ == boxed_row_of(
                self.label@,
                shape_box_glyphs(self.shape).unwrap(),
                width as nat,
                height as nat,
                r as nat,
            ),
    {
        let g = match self.shape.box_glyphs() {
            Some(g) => g,
            None => BoxGlyphs { tl: ' ', tr: ' ', bl: ' ', br: ' ', side: ' ', horizontal: ' ' },
        };
        let inner = (width - 2) as usize;
        let mut row: Vec<char> = Vec::new();
        if r == 0 {
            row.push(g.tl);
            push_repeat(&mut row, g.horizontal, inner);
            row.push(g.tr);
        } else if r == height - 1 {
            row.push(g.bl);
            push_repeat(&mut row, g.horizontal, inner);
            row.push(g.br);
        } else if r == height / 2 {
            let n = crate::text::char_count(self.label.as_str());
            let shown_len = if inner >= n {
                n
            } else {
                inner
            };
            let pad = inner - shown_len;
            row.push(g.side);
            push_repeat(&mut row, ' ', pad / 2);
            push_prefix(&mut row, self.label.as_str(), inner);
            push_repeat(&mut row, ' ', pad - pad / 2);
            row.push(g.side);
        } else {
            row.push(g.side);
            push_repeat(&mut row, ' ', inner);
            row.push(g.side);
        }
        row
    }
}

} // verus!
