//! **BigText**: large 5×7 dot-matrix digits.
//!
//! Each char is a 5×7 glyph (digits `0`–`9` and `:`; anything else is blank)
//! on a 6-column pitch, centered in the area. Lit dots draw `█`; in the grid
//! form unlit dots draw `░`.

use vstd::prelude::*;

use crate::text::{char_count, chars_of};
use crate::theme::Theme;

verus! {

/// Column pitch of one glyph (5 dots plus a gap).
pub const CHAR_W: u16 = 6;

/// Rows of one glyph.
pub const CHAR_H: u16 = 7;

/// The seven rows of the glyph of `c` (`#` = lit dot).
pub open spec fn glyph_rows(c: char) -> Seq<Seq<char>> {
    if c == '0' {
        seq![" ### "@, "#   #"@, "#   #"@, "#   #"@, "#   #"@, "#   #"@, " ### "@]
    } else if c == '1' {
        seq!["  #  "@, " ##  "@, "  #  "@, "  #  "@, "  #  "@, "  #  "@, " ### "@]
    } else if c == '2' {
        seq![" ### "@, "#   #"@, "    #"@, "   # "@, "  #  "@, " #   "@, "#####"@]
    } else if c == '3' {
        seq![" ### "@, "#   #"@, "    #"@, "  ## "@, "    #"@, "#   #"@, " ### "@]
    } else if c == '4' {
        seq!["   # "@, "  ## "@, " # # "@, "#  # "@, "#####"@, "   # "@, "   # "@]
    } else if c == '5' {
        seq!["#####"@, "#    "@, "#### "@, "    #"@, "    #"@, "#   #"@, " ### "@]
    } else if c == '6' {
        seq![" ### "@, "#    "@, "#    "@, "#### "@, "#   #"@, "#   #"@, " ### "@]
    } else if c == '7' {
        seq!["#####"@, "    #"@, "   # "@, "  #  "@, " #   "@, "#    "@, "#    "@]
    } else if c == '8' {
        seq![" ### "@, "#   #"@, "#   #"@, " ### "@, "#   #"@, "#   #"@, " ### "@]
    } else if c == '9' {
        seq![" ### "@, "#   #"@, "#   #"@, " ####"@, "    #"@, "    #"@, " ### "@]
    } else if c == ':' {
        seq!["     "@, "     "@, "  #  "@, "     "@, "  #  "@, "     "@, "     "@]
    } else {
        seq!["     "@, "     "@, "     "@, "     "@, "     "@, "     "@, "     "@]
    }
}

/// Whether dot `(row, col)` of the glyph of `c` is lit.
pub open spec fn dot_lit(c: char, row: int, col: int) -> bool {
    glyph_rows(c)[row][col] == '#'
}

/// Visual form of a [`BigText`].
#[derive(Debug, Clone, Copy, PartialEq, Eq, Structural)]
pub enum BigTextShape {
    /// Lit dots only (the default).
    Glow,
    /// Lit dots over a dim `░` grid of the unlit ones.
    Grid,
}

impl Default for BigTextShape {
    fn default() -> (s: BigTextShape)
        ensures
            s == BigTextShape::Glow,
    {
        BigTextShape::Glow
    }
}

/// Large dot-matrix text.
#[derive(Debug, Clone)]
pub struct BigText {
    /// The text (digits and `:`).
    pub text: String,
    /// Visual form.
    pub shape: BigTextShape,
    /// Theme whose palette drives colors.
    pub theme: Theme,
}

/// The rows of the glyph of `c`.
fn glyph(c: char) -> (g: [&'static str; 7])
    ensures
        forall|r: int| 0 <= r < 7 ==> (#[trigger] g[r])@ == glyph_rows(c)[r],
{
    match c {
        '0' => [" ### ", "#   #", "#   #", "#   #", "#   #", "#   #", " ### "],
        '1' => ["  #  ", " ##  ", "  #  ", "  #  ", "  #  ", "  #  ", " ### "],
        '2' => [" ### ", "#   #", "    #", "   # ", "  #  ", " #   ", "#####"],
        '3' => [" ### ", "#   #", "    #", "  ## ", "    #", "#   #", " ### "],
        '4' => ["   # ", "  ## ", " # # ", "#  # ", "#####", "   # ", "   # "],
        '5' => ["#####", "#    ", "#### ", "    #", "    #", "#   #", " ### "],
        '6' => [" ### ", "#    ", "#    ", "#### ", "#   #", "#   #", " ### "],
        '7' => ["#####", "    #", "   # ", "  #  ", " #   ", "#    ", "#    "],
        '8' => [" ### ", "#   #", "#   #", " ### ", "#   #", "#   #", " ### "],
        '9' => [" ### ", "#   #", "#   #", " ####", "    #", "    #", " ### "],
        ':' => ["     ", "     ", "  #  ", "     ", "  #  ", "     ", "     "],
        _ => ["     ", "     ", "     ", "     ", "     ", "     ", "     "],
    }
}

/// What a big text draws at `(row, col)` of its `(n·6 − 1) × 7` block:
/// `Some(true)` for a lit dot, `Some(false)` for an unlit dot in the grid
/// form, `None` for untouched cells (gaps, and unlit dots in the glow form).
pub open spec fn big_cell(text: Seq<char>, grid: bool, row: int, col: int) -> Option<bool> {
    let ci = col / 6;
    let dx = col % 6;
    if dx == 5 {
        None
    } else if dot_lit(text[ci], row, dx) {
        Some(true)
    } else if grid {
        Some(false)
    } else {
        None
    }
}

impl BigText {
    /// Big text reading `text`, default form and theme.
    pub fn new(text: &str) -> (b: BigText)
        ensures
            b.text@ == text@,
            b.shape == BigTextShape::Glow,
            b.theme == Theme::Cyberpunk,
    {
        BigText { text: String::from_str(text), shape: BigTextShape::Glow, theme: Theme::Cyberpunk }
    }

    /// Set the visual form.
    pub fn shape(self, shape: BigTextShape) -> (b: BigText)
        ensures
            b == (BigText { shape, ..self }),
    {
        BigText { shape, ..self }
    }

    /// Set the theme.
    pub fn theme(self, theme: Theme) -> (b: BigText)
        ensures
            b == (BigText { theme, ..self }),
    {
        BigText { theme, ..self }
    }

    /// Columns the text spans: `6n − 1` for `n` chars (no gap after the last),
    /// 0 for empty text.
    pub fn total_width(&self) -> (w: usize)
        requires
            self.text@.len() * 6 <= usize::MAX,
        ensures
            self.text@.len() == 0 ==> w == 0,
            self.text@.len() > 0 ==> w == self.text@.len() * 6 - 1,
    {
        let n = char_count(self.text.as_str());
        if n == 0 {
            0
        } else {
            n * 6 - 1
        }
    }

    /// The cell at `(row, col)` of the text block (see [`big_cell`]).
    pub fn cell(&self, row: u16, col: usize) -> (r: Option<bool>)
        requires
            row < CHAR_H,
            col / 6 < self.text@.len(),
        ensures
            r == big_cell(self.text@, self.shape == BigTextShape::Grid, row as int, col as int),
    {
        let chars = chars_of(self.text.as_str());
        let ci = col / 6;
        let dx = col % 6;
        if dx == 5 {
            return None;
        }
        let g = glyph(chars[ci]);
        let line = g[row as usize];
        let rc = chars_of(line);
        proof {
            reveal_strlit(" ### ");
            reveal_strlit("#   #");
            reveal_strlit("  #  ");
            reveal_strlit(" ##  ");
            reveal_strlit("    #");
            reveal_strlit("   # ");
            reveal_strlit(" #   ");
            reveal_strlit("#####");
            reveal_strlit("  ## ");
            reveal_strlit(" # # ");
            reveal_strlit("#  # ");
            reveal_strlit("#    ");
            reveal_strlit("#### ");
            reveal_strlit(" ####");
            reveal_strlit("     ");
            assert(rc@.len() == 5);
        }
        if rc[dx] == '#' {
            Some(true)
        } else if self.shape == BigTextShape::Grid {
            Some(false)
        } else {
            None
        }
    }
}

} // verus!

verus! {

/// Whether char `c` has a glyph of its own: a digit or `:`.
pub open spec fn has_glyph(c: char) -> bool {
    ('0' <= c && c <= '9') || c == ':'
}

/// The number of lit dots in a glyph row.
pub open spec fn row_dots(row: Seq<char>) -> nat
    decreases row.len(),
{
    if row.len() == 0 {
        0
    } else {
        row_dots(row.drop_last()) + if row.last() == '#' { 1nat } else { 0 }
    }
}

/// Every glyph is 7 rows of 5 dots, each `#` (lit) or a space; a char has
/// a lit dot exactly when it has a glyph of its own (a digit or `:`), so
/// any other char draws blank; `:` lights exactly two dots, one in its
/// third row and one in its fifth.
pub proof fn lemma_glyph_shape(c: char)
    ensures
        glyph_rows(c).len() == 7,
        forall|r: int, k: int| 0 <= r < 7 && 0 <= k < 5 ==> (#[trigger] glyph_rows(c)[r][k] == '#' || glyph_rows(c)[r][k] == ' '),
        forall|r: int| 0 <= r < 7 ==> (#[trigger] glyph_rows(c)[r]).len() == 5,
        has_glyph(c) <==> exists|r: int, k: int| 0 <= r < 7 && 0 <= k < 5 && #[trigger] dot_lit(c, r, k),
        !has_glyph(c) ==> forall|r: int, k: int| 0 <= r < 7 && 0 <= k < 5 ==> #[trigger] glyph_rows(c)[r][k] == ' ',
        c == ':' ==> forall|r: int| 0 <= r < 7 ==> #[trigger] row_dots(glyph_rows(c)[r]) == if r == 2 || r == 4 { 1nat } else { 0 },
{
    reveal_strlit("     ");
    reveal_strlit("    #");
    reveal_strlit("   # ");
    reveal_strlit("  #  ");
    reveal_strlit("  ## ");
    reveal_strlit(" #   ");
    reveal_strlit(" # # ");
    reveal_strlit(" ##  ");
    reveal_strlit(" ### ");
    reveal_strlit(" ####");
    reveal_strlit("#    ");
    reveal_strlit("#   #");
    reveal_strlit("#  # ");
    reveal_strlit("#### ");
    reveal_strlit("#####");
    let g = glyph_rows(c);
    assert forall|r: int| 0 <= r < 7 implies (#[trigger] g[r]).len() == 5 by {}
    assert forall|r: int, k: int| 0 <= r < 7 && 0 <= k < 5 implies (#[trigger] g[r][k] == '#' || g[r][k] == ' ') by {}
    if has_glyph(c) {
        if c == ':' {
            assert(dot_lit(c, 2, 2));
        } else if c == '1' {
            assert(dot_lit(c, 0, 2));
        } else if c == '4' {
            assert(dot_lit(c, 0, 3));
        } else if c == '5' || c == '7' {
            assert(dot_lit(c, 0, 0));
        } else {
            assert(dot_lit(c, 0, 1));
        }
    } else {
        assert forall|r: int, k: int| 0 <= r < 7 && 0 <= k < 5 implies !#[trigger] dot_lit(c, r, k) by {}
    }
    if c == ':' {
        assert forall|r: int| 0 <= r < 7 implies #[trigger] row_dots(g[r]) == if r == 2 || r == 4 { 1nat } else { 0 } by {
            reveal_with_fuel(row_dots, 6);
        }
    }
}

} // verus!

verus! {

/// The eleven glyphs are told apart: different chars that have glyphs of
/// their own draw different dot patterns.
pub proof fn lemma_glyphs_distinct(c1: char, c2: char)
    requires
        has_glyph(c1),
        has_glyph(c2),
        c1 != c2,
    ensures
        glyph_rows(c1) != glyph_rows(c2),
{
    reveal_strlit("     ");
    reveal_strlit("    #");
    reveal_strlit("   # ");
    reveal_strlit("  #  ");
    reveal_strlit("  ## ");
    reveal_strlit(" #   ");
    reveal_strlit(" # # ");
    reveal_strlit(" ##  ");
    reveal_strlit(" ### ");
    reveal_strlit(" ####");
    reveal_strlit("#    ");
    reveal_strlit("#   #");
    reveal_strlit("#  # ");
    reveal_strlit("#### ");
    reveal_strlit("#####");
    if glyph_rows(c1) == glyph_rows(c2) {
        let g1 = glyph_rows(c1);
        let g2 = glyph_rows(c2);
        assert(g1[0] == g2[0] && g1[1] == g2[1] && g1[2] == g2[2] && g1[3] == g2[3]);
        assert(g1[4] == g2[4] && g1[5] == g2[5] && g1[6] == g2[6]);
        assert(g1[0][0] == g2[0][0] && g1[0][1] == g2[0][1] && g1[0][3] == g2[0][3] && g1[0][4] == g2[0][4]);
        assert(g1[1][0] == g2[1][0] && g1[1][1] == g2[1][1] && g1[1][4] == g2[1][4]);
        assert(g1[2][0] == g2[2][0] && g1[2][2] == g2[2][2] && g1[2][4] == g2[2][4]);
        assert(g1[3][0] == g2[3][0] && g1[3][1] == g2[3][1] && g1[3][2] == g2[3][2] && g1[3][4] == g2[3][4]);
        assert(g1[4][0] == g2[4][0] && g1[4][4] == g2[4][4]);
        assert(g1[5][0] == g2[5][0] && g1[6][0] == g2[6][0] && g1[6][1] == g2[6][1]);
    }
}

} // verus!
