//! The CSS parser of `ratatui_style`, as the library sees it: whether a
//! source text parses, and a parsed sheet that records its source.

use vstd::prelude::*;

use ratatui_style::{CssError, Stylesheet};

use crate::stylesheet::theme_css_of;
use crate::theme::Palette;

verus! {

#[verifier::external_type_specification]
#[verifier::external_body]
pub struct ExStylesheet(Stylesheet);

#[verifier::external_type_specification]
#[verifier::external_body]
pub struct ExCssError(CssError);

/// Whether `ratatui_style`'s lenient CSS parser accepts a source text.
pub uninterp spec fn css_parses(css: Seq<char>) -> bool;

/// A parsed stylesheet together with the source text it was parsed from.
/// Only the parser wrapper makes one, so the recorded source is always the
/// text that was handed to the parser.
pub struct ParsedSheet {
    sheet: Stylesheet,
    source: Ghost<Seq<char>>,
}

impl ParsedSheet {
    /// The text the sheet was parsed from.
    pub closed spec fn source(&self) -> Seq<char> {
        self.source@
    }

    /// The parsed sheet.
    pub fn sheet(&self) -> &Stylesheet {
        &self.sheet
    }

    /// The parsed sheet, taken out.
    pub fn into_sheet(self) -> Stylesheet {
        self.sheet
    }
}

/// `ratatui_style::Stylesheet::parse`.
///
/// Trusted: the parser is a pure function of its input text, so whether it
/// succeeds is named by [`css_parses`] of that text, and a sheet it returns
/// is recorded as parsed from that text. Nothing is stated about the rules
/// of the parsed sheet: it is opaque here (it holds hash maps seeded per
/// instance, so two parses of one text are not equal values). The parser
/// recurses once per nested `@media` / `@supports` block with no depth
/// limit, so it is only called on the generated theme sources, which hold no
/// at-rule.
#[verifier::external_body]
pub(crate) fn parse_css(css: &str) -> (r: Result<ParsedSheet, CssError>)
    requires
        exists|p: Palette| css@ == #[trigger] theme_css_of(p),
    ensures
        r is Ok <==> css_parses(css@),
        r matches Ok(s) ==> s.source() == css@,
{
    match Stylesheet::parse(css) {
        Ok(sheet) => Ok(ParsedSheet { sheet, source: Ghost(css@) }),
        Err(e) => Err(e),
    }
}

} // verus!
