//! **Barcode**: a decorative barcode of a data string.
//!
//! Each char's 8 low bits, least significant first, become a run of bars: a
//! 1-bit draws a 2-cell bar `██`, a 0-bit leaves a 1-cell gap. The bars fill
//! the top row from the left, clipped at the right edge; the `WithCaption`
//! form also prints the data centered one row below the middle.

use vstd::prelude::*;

use crate::text::chars_of;
use crate::theme::Theme;

verus! {

/// The bar glyph.
pub const BAR: char = '█';

/// Visual form of a [`Barcode`].
#[derive(Debug, Clone, Copy, PartialEq, Eq, Structural)]
pub enum BarcodeShape {
    /// Bars only (the default).
    Bars,
    /// Bars plus the data as a caption.
    WithCaption,
}

impl Default for BarcodeShape {
    fn default() -> (s: BarcodeShape)
        ensures
            s == BarcodeShape::Bars,
    {
        BarcodeShape::Bars
    }
}

/// A decorative barcode.
#[derive(Debug, Clone)]
pub struct Barcode {
    /// The encoded data.
    pub data: String,
    /// Visual form.
    pub shape: BarcodeShape,
    /// Theme whose palette drives colors.
    pub theme: Theme,
}

/// Cells of the `k` low bits of `code`, least significant first: `[bar, bar]`
/// for a 1-bit, `[gap]` for a 0-bit.
pub open spec fn bit_cells(code: nat, k: nat) -> Seq<bool>
    decreases k,
{
    if k == 0 {
        Seq::empty()
    } else {
        (if code % 2 == 1 {
            seq![true, true]
        } else {
            seq![false]
        }) + bit_cells(code / 2, (k - 1) as nat)
    }
}

/// Cells of a whole data string: each char's 8 low bits in turn.
pub open spec fn bar_cells(data: Seq<char>) -> Seq<bool>
    decreases data.len(),
{
    if data.len() == 0 {
        Seq::empty()
    } else {
        bar_cells(data.drop_last()) + bit_cells((data.last() as u32) as nat, 8)
    }
}

fn push_bits(v: &mut Vec<bool>, code: u32, k: u32)
    ensures
        final(v)@ == old(v)@ + bit_cells(code as nat, k as nat),
    decreases k,
{
    if k == 0 {
        assert(final(v)@ =~= old(v)@ + bit_cells(code as nat, k as nat));
        return;
    }
    if code % 2 == 1 {
        v.push(true);
        v.push(true);
    } else {
        v.push(false);
    }
    let ghost mid = v@;
    push_bits(v, code / 2, k - 1);
    assert(final(v)@ =~= old(v)@ + bit_cells(code as nat, k as nat));
}

impl Barcode {
    /// A barcode of `data`, default form and theme.
    pub fn new(data: &str) -> (b: Barcode)
        ensures
            b.data@ == data@,
            b.shape == BarcodeShape::Bars,
            b.theme == Theme::Cyberpunk,
    {
        Barcode { data: String::from_str(data), shape: BarcodeShape::Bars, theme: Theme::Cyberpunk }
    }

    /// Set the visual form.
    pub fn shape(self, shape: BarcodeShape) -> (b: Barcode)
        ensures
            b == (Barcode { shape, ..self }),
    {
        Barcode { shape, ..self }
    }

    /// Set the theme.
    pub fn theme(self, theme: Theme) -> (b: Barcode)
        ensures
            b == (Barcode { theme, ..self }),
    {
        Barcode { theme, ..self }
    }

    /// The top row in a `width`-cell area: `true` where a bar is drawn, for
    /// the first `width` cells of [`bar_cells`] (fewer when the bars end
    /// sooner).
    pub fn bars(&self, width: u16) -> (r: Vec<bool>)
        ensures
            r@ == (if bar_cells(self.data@).len() <= width {
                bar_cells(self.data@)
            } else {
                bar_cells(self.data@).take(width as int)
            }),
    {
        let chars = chars_of(self.data.as_str());
        let mut all: Vec<bool> = Vec::new();
        let mut i: usize = 0;
        while i < chars.len()
            invariant
                chars@ == self.data@,
                i <= chars@.len(),
                all@ == bar_cells(chars@.take(i as int)),
            decreases chars@.len() - i,
        {
            push_bits(&mut all, chars[i] as u32, 8);
            assert(chars@.take(i + 1).drop_last() =~= chars@.take(i as int));
            assert(chars@.take(i + 1).last() == chars@[i as int]);
            i = i + 1;
        }
        assert(chars@.take(chars@.len() as int) =~= chars@);
        let w = width as usize;
        if all.len() <= w {
            all
        } else {
            let mut r: Vec<bool> = Vec::new();
            let mut k: usize = 0;
            while k < w
                invariant
                    w < all@.len(),
                    k <= w,
                    r@ == all@.take(k as int),
                decreases w - k,
            {
                r.push(all[k]);
                k = k + 1;
                assert(r@ =~= all@.take(k as int));
            }
            r
        }
    }

    /// The caption row in an area `height` rows tall: one below the middle,
    /// in the caption form when it fits.
    pub fn caption_row(&self, height: u16) -> (r: Option<u16>)
        ensures
            r == (if self.shape == BarcodeShape::WithCaption && height / 2 + 1 < height {
                Some((height / 2 + 1) as u16)
            } else {
                None
            }),
    {
        if self.shape == BarcodeShape::WithCaption && height / 2 + 1 < height {
            Some(height / 2 + 1)
        } else {
            None
        }
    }
}

} // verus!
