//! Theme stylesheet sources.
//!
//! Each theme injects its palette as CSS custom properties (`:root { --… }`),
//! followed by the shared [`COMPONENT_CSS`] rules, which reference those
//! tokens via `var(--…)` and so apply uniformly across all themes.

use vstd::prelude::*;

use crate::css::{css_parses, parse_css, ParsedSheet};
use crate::theme::{hex_of, palette_of, Palette, Rgb, Theme};

verus! {

/// Shared component rules, token-driven so they apply to every theme.
///
/// The selectors cover the whole widget roster: they reserve the node-type and
/// state-class names (e.g. `Radar.threat`, `List.selected`) each widget
/// queries.
pub const COMPONENT_CSS: &'static str = r#"
    Root        { background: var(--bg); }

    Frame       { color: var(--muted); border: double; padding: 1; }
    Frame.main  { color: var(--accent); }
    Frame.title { color: var(--accent); font-weight: bold; }

    Label       { color: var(--muted); }
    Value       { color: var(--fg); }
    Value.ok    { color: var(--ok); }
    Value.warn  { color: var(--warn); }
    Value.alert { color: var(--alert); }

    Button        { color: var(--accent); background: var(--bg); }
    Button.focus  { color: var(--bg); background: var(--accent); font-weight: bold; }

    /* Toggle — boolean control mirroring Button's two-state shape. Off reads as
       a quiet muted idle; on escalates to ok + bold. */
    Toggle        { color: var(--muted); }
    Toggle.on     { color: var(--ok); font-weight: bold; }
    Toggle.off    { color: var(--muted); }

    Bar         { color: var(--accent); }
    Bar.warn    { color: var(--warn); }
    Bar.alert   { color: var(--alert); }

    Scanline    { color: var(--muted); }
    Cursor      { color: var(--accent); }
    Alert       { color: var(--alert); border: double; }

    /* Text input — value text is fg; empty placeholder dims to muted; the
       caret reuses the `Cursor` rule above (accent). */
    Input             { color: var(--fg); }
    Input.placeholder { color: var(--muted); }

    /* Energy gauge — segmented energy bar (`Bar` above is the legacy alias).
       The base node supplies the gap-cell background; level/empty/label
       classes color the bar cells, empty cells, and the left label. */
    Gauge        { color: var(--accent); background: var(--bg); }
    Gauge.ok     { color: var(--ok); }
    Gauge.warn   { color: var(--warn); }
    Gauge.alert  { color: var(--alert); }
    Gauge.empty  { color: var(--muted); }
    Gauge.label  { color: var(--fg); }

    /* Biometric multi-trace chart — grid/axes use muted, block bg is panel,
       traces cycle tokens. */
    Biometric         { color: var(--muted); background: var(--panel); }
    Biometric.trace0  { color: var(--accent); }
    Biometric.trace1  { color: var(--accent2); }
    Biometric.trace2  { color: var(--ok); }
    Biometric.trace3  { color: var(--warn); }
    Biometric.trace4  { color: var(--alert); }

    /* Scan list — selected row gets an accent-on-panel highlight. */
    List          { color: var(--fg); }
    List.selected { color: var(--accent); background: var(--panel); }
    List.scan     { color: var(--muted); }

    /* Matrix rain — head uses accent, trail fades toward bg in the widget. */
    Matrix        { color: var(--accent); }

    /* Glitch text — clean glyphs use fg, corrupted glyphs use alert. */
    Glitch          { color: var(--fg); }
    Glitch.corrupt  { color: var(--alert); }

    /* Target lock HUD — brackets use accent, crosshair uses muted, locked
       state escalates to alert. */
    Target            { color: var(--accent); }
    Target.crosshair  { color: var(--muted); }
    Target.locked     { color: var(--alert); font-weight: bold; }

    /* Sci-fi radar — sweep accent, grid muted, friendly blips ok, threats alert. */
    Radar         { color: var(--accent); }
    Radar.grid    { color: var(--muted); }
    Radar.blip    { color: var(--ok); }
    Radar.threat  { color: var(--alert); }

    /* Boot sequence — line color follows its status class; flicker forces muted. */
    Boot          { color: var(--fg); }
    Boot.ok       { color: var(--ok); }
    Boot.warn     { color: var(--warn); }
    Boot.fail     { color: var(--alert); }
    Boot.flicker  { color: var(--muted); }

    /* Alert popup — panel interior, alert title, full-alert flash fill. */
    Popup         { color: var(--fg); background: var(--panel); border: double; }
    Popup.title   { color: var(--alert); font-weight: bold; }
    Popup.flash   { color: var(--alert); background: var(--alert); }
"#;

/// One `--name: #rrggbb;` line of the `:root` block.
pub open spec fn token_line(name: Seq<char>, c: Rgb) -> Seq<char> {
    "            --"@ + name + ": "@ + hex_of(c) + ";\n"@
}

/// The `:root` token block for a palette.
pub open spec fn root_tokens_of(p: Palette) -> Seq<char> {
    "\n        :root {\n"@
    + token_line("accent"@, p.accent)
    + token_line("accent2"@, p.accent2)
    + token_line("bg"@, p.bg)
    + token_line("panel"@, p.panel)
    + token_line("fg"@, p.fg)
    + token_line("muted"@, p.muted)
    + token_line("ok"@, p.ok)
    + token_line("warn"@, p.warn)
    + token_line("alert"@, p.alert)
    + "        }\n        "@
}

/// The full stylesheet source of a palette: its token block, a newline, then
/// the shared component rules.
pub open spec fn theme_css_of(p: Palette) -> Seq<char> {
    root_tokens_of(p) + "\n"@ + COMPONENT_CSS@
}

fn push_token(s: &mut String, name: &str, c: Rgb)
    ensures
        final(s)@ == old(s)@ + token_line(name@, c),
{
    s.append("            --");
    s.append(name);
    s.append(": ");
    let h = c.hex();
    s.append(h.as_str());
    s.append(";\n");
    assert(final(s)@ =~= old(s)@ + token_line(name@, c));
}

/// The `:root` token block for a palette.
pub fn root_tokens(p: Palette) -> (s: String)
    ensures
        s@ == root_tokens_of(p),
{
    let mut s = String::new();
    s.append("\n        :root {\n");
    push_token(&mut s, "accent", p.accent);
    push_token(&mut s, "accent2", p.accent2);
    push_token(&mut s, "bg", p.bg);
    push_token(&mut s, "panel", p.panel);
    push_token(&mut s, "fg", p.fg);
    push_token(&mut s, "muted", p.muted);
    push_token(&mut s, "ok", p.ok);
    push_token(&mut s, "warn", p.warn);
    push_token(&mut s, "alert", p.alert);
    s.append("        }\n        ");
    assert(s@ =~= root_tokens_of(p));
    s
}

/// The full stylesheet source of a palette.
pub fn theme_css(p: Palette) -> (s: String)
    ensures
        s@ == theme_css_of(p),
{
    let mut s = root_tokens(p);
    s.append("\n");
    s.append(COMPONENT_CSS);
    s
}


/// Why a theme stylesheet could not be built.
#[derive(Debug, Clone, Copy, PartialEq, Eq)]
pub enum StylesheetError {
    /// The CSS parser rejected the generated source.
    Parse,
}

/// Build the stylesheet of a palette: parse its token block plus the shared
/// component rules. Fails exactly when the parser rejects that source; a
/// sheet it returns was parsed from that source.
pub fn build(p: Palette) -> (r: Result<ParsedSheet, StylesheetError>)
    ensures
        r is Ok <==> css_parses(theme_css_of(p)),
        r matches Ok(s) ==> s.source() == theme_css_of(p),
        r matches Err(e) ==> e == StylesheetError::Parse,
{
    let css = theme_css(p);
    assert(css@ == theme_css_of(p));
    match parse_css(css.as_str()) {
        Ok(sheet) => Ok(sheet),
        Err(_) => Err(StylesheetError::Parse),
    }
}

/// Build the stylesheet of a theme (its palette's stylesheet).
pub fn theme_stylesheet(t: Theme) -> (r: Result<ParsedSheet, StylesheetError>)
    ensures
        r is Ok <==> css_parses(theme_css_of(palette_of(t))),
        r matches Ok(s) ==> s.source() == theme_css_of(palette_of(t)),
{
    build(t.palette())
}

} // verus!

verus! {

/// Whether `t` occurs in `s` as a contiguous run.
#[verifier::opaque]
pub open spec fn has_part(s: Seq<char>, t: Seq<char>) -> bool {
    exists|i: int| 0 <= i && i + t.len() <= s.len() && #[trigger] s.subrange(i, i + t.len()) == t
}

/// The declaration `--name: #rrggbb;` of a token.
pub open spec fn token_decl(name: Seq<char>, c: Rgb) -> Seq<char> {
    "--"@ + name + ": "@ + hex_of(c) + ";"@
}

proof fn lemma_part_of(x: Seq<char>, t: Seq<char>, y: Seq<char>)
    ensures
        has_part(x + t + y, t),
{
    reveal(has_part);
    let s = x + t + y;
    assert(s.subrange(x.len() as int, (x.len() + t.len()) as int) =~= t);
}

proof fn lemma_part_left(s: Seq<char>, u: Seq<char>, t: Seq<char>)
    requires
        has_part(s, t),
    ensures
        has_part(s + u, t),
{
    reveal(has_part);
    let i = choose|i: int| 0 <= i && i + t.len() <= s.len() && #[trigger] s.subrange(i, i + t.len()) == t;
    assert((s + u).subrange(i, i + t.len()) =~= s.subrange(i, i + t.len()));
}

proof fn lemma_part_right(u: Seq<char>, s: Seq<char>, t: Seq<char>)
    requires
        has_part(s, t),
    ensures
        has_part(u + s, t),
{
    reveal(has_part);
    let i = choose|i: int| 0 <= i && i + t.len() <= s.len() && #[trigger] s.subrange(i, i + t.len()) == t;
    assert((u + s).subrange(u.len() + i, u.len() + i + t.len()) =~= s.subrange(i, i + t.len()));
}

proof fn lemma_token_line_has_decl(name: Seq<char>, c: Rgb)
    ensures
        has_part(token_line(name, c), token_decl(name, c)),
{
    reveal_strlit("            --");
    reveal_strlit("--");
    reveal_strlit(";\n");
    reveal_strlit(";");
    let sp = seq![' ', ' ', ' ', ' ', ' ', ' ', ' ', ' ', ' ', ' ', ' ', ' '];
    assert(token_line(name, c) =~= sp + token_decl(name, c) + seq!['\n']);
    lemma_part_of(sp, token_decl(name, c), seq!['\n']);
}

/// The `:root` block declares every palette token: it holds `:root {` and,
/// for each of the nine tokens, `--name: #rrggbb;` with that color's hex.
pub proof fn lemma_root_tokens_declare(p: Palette)
    ensures
        has_part(root_tokens_of(p), ":root {"@),
        has_part(root_tokens_of(p), token_decl("accent"@, p.accent)),
        has_part(root_tokens_of(p), token_decl("accent2"@, p.accent2)),
        has_part(root_tokens_of(p), token_decl("bg"@, p.bg)),
        has_part(root_tokens_of(p), token_decl("panel"@, p.panel)),
        has_part(root_tokens_of(p), token_decl("fg"@, p.fg)),
        has_part(root_tokens_of(p), token_decl("muted"@, p.muted)),
        has_part(root_tokens_of(p), token_decl("ok"@, p.ok)),
        has_part(root_tokens_of(p), token_decl("warn"@, p.warn)),
        has_part(root_tokens_of(p), token_decl("alert"@, p.alert)),
{
    lemma_token_line_has_decl("accent"@, p.accent);
    lemma_part_right("\n        :root {\n"@, token_line("accent"@, p.accent), token_decl("accent"@, p.accent));
    lemma_part_left("\n        :root {\n"@ + token_line("accent"@, p.accent), token_line("accent2"@, p.accent2), token_decl("accent"@, p.accent));
    lemma_part_left("\n        :root {\n"@ + token_line("accent"@, p.accent) + token_line("accent2"@, p.accent2), token_line("bg"@, p.bg), token_decl("accent"@, p.accent));
    lemma_part_left("\n        :root {\n"@ + token_line("accent"@, p.accent) + token_line("accent2"@, p.accent2) + token_line("bg"@, p.bg), token_line("panel"@, p.panel), token_decl("accent"@, p.accent));
    lemma_part_left("\n        :root {\n"@ + token_line("accent"@, p.accent) + token_line("accent2"@, p.accent2) + token_line("bg"@, p.bg) + token_line("panel"@, p.panel), token_line("fg"@, p.fg), token_decl("accent"@, p.accent));
    lemma_part_left("\n        :root {\n"@ + token_line("accent"@, p.accent) + token_line("accent2"@, p.accent2) + token_line("bg"@, p.bg) + token_line("panel"@, p.panel) + token_line("fg"@, p.fg), token_line("muted"@, p.muted), token_decl("accent"@, p.accent));
    lemma_part_left("\n        :root {\n"@ + token_line("accent"@, p.accent) + token_line("accent2"@, p.accent2) + token_line("bg"@, p.bg) + token_line("panel"@, p.panel) + token_line("fg"@, p.fg) + token_line("muted"@, p.muted), token_line("ok"@, p.ok), token_decl("accent"@, p.accent));
    lemma_part_left("\n        :root {\n"@ + token_line("accent"@, p.accent) + token_line("accent2"@, p.accent2) + token_line("bg"@, p.bg) + token_line("panel"@, p.panel) + token_line("fg"@, p.fg) + token_line("muted"@, p.muted) + token_line("ok"@, p.ok), token_line("warn"@, p.warn), token_decl("accent"@, p.accent));
    lemma_part_left("\n        :root {\n"@ + token_line("accent"@, p.accent) + token_line("accent2"@, p.accent2) + token_line("bg"@, p.bg) + token_line("panel"@, p.panel) + token_line("fg"@, p.fg) + token_line("muted"@, p.muted) + token_line("ok"@, p.ok) + token_line("warn"@, p.warn), token_line("alert"@, p.alert), token_decl("accent"@, p.accent));
    lemma_part_left("\n        :root {\n"@ + token_line("accent"@, p.accent) + token_line("accent2"@, p.accent2) + token_line("bg"@, p.bg) + token_line("panel"@, p.panel) + token_line("fg"@, p.fg) + token_line("muted"@, p.muted) + token_line("ok"@, p.ok) + token_line("warn"@, p.warn) + token_line("alert"@, p.alert), "        }\n        "@, token_decl("accent"@, p.accent));
    lemma_token_line_has_decl("accent2"@, p.accent2);
    lemma_part_right("\n        :root {\n"@ + token_line("accent"@, p.accent), token_line("accent2"@, p.accent2), token_decl("accent2"@, p.accent2));
    lemma_part_left("\n        :root {\n"@ + token_line("accent"@, p.accent) + token_line("accent2"@, p.accent2), token_line("bg"@, p.bg), token_decl("accent2"@, p.accent2));
    lemma_part_left("\n        :root {\n"@ + token_line("accent"@, p.accent) + token_line("accent2"@, p.accent2) + token_line("bg"@, p.bg), token_line("panel"@, p.panel), token_decl("accent2"@, p.accent2));
    lemma_part_left("\n        :root {\n"@ + token_line("accent"@, p.accent) + token_line("accent2"@, p.accent2) + token_line("bg"@, p.bg) + token_line("panel"@, p.panel), token_line("fg"@, p.fg), token_decl("accent2"@, p.accent2));
    lemma_part_left("\n        :root {\n"@ + token_line("accent"@, p.accent) + token_line("accent2"@, p.accent2) + token_line("bg"@, p.bg) + token_line("panel"@, p.panel) + token_line("fg"@, p.fg), token_line("muted"@, p.muted), token_decl("accent2"@, p.accent2));
    lemma_part_left("\n        :root {\n"@ + token_line("accent"@, p.accent) + token_line("accent2"@, p.accent2) + token_line("bg"@, p.bg) + token_line("panel"@, p.panel) + token_line("fg"@, p.fg) + token_line("muted"@, p.muted), token_line("ok"@, p.ok), token_decl("accent2"@, p.accent2));
    lemma_part_left("\n        :root {\n"@ + token_line("accent"@, p.accent) + token_line("accent2"@, p.accent2) + token_line("bg"@, p.bg) + token_line("panel"@, p.panel) + token_line("fg"@, p.fg) + token_line("muted"@, p.muted) + token_line("ok"@, p.ok), token_line("warn"@, p.warn), token_decl("accent2"@, p.accent2));
    lemma_part_left("\n        :root {\n"@ + token_line("accent"@, p.accent) + token_line("accent2"@, p.accent2) + token_line("bg"@, p.bg) + token_line("panel"@, p.panel) + token_line("fg"@, p.fg) + token_line("muted"@, p.muted) + token_line("ok"@, p.ok) + token_line("warn"@, p.warn), token_line("alert"@, p.alert), token_decl("accent2"@, p.accent2));
    lemma_part_left("\n        :root {\n"@ + token_line("accent"@, p.accent) + token_line("accent2"@, p.accent2) + token_line("bg"@, p.bg) + token_line("panel"@, p.panel) + token_line("fg"@, p.fg) + token_line("muted"@, p.muted) + token_line("ok"@, p.ok) + token_line("warn"@, p.warn) + token_line("alert"@, p.alert), "        }\n        "@, token_decl("accent2"@, p.accent2));
    lemma_token_line_has_decl("bg"@, p.bg);
    lemma_part_right("\n        :root {\n"@ + token_line("accent"@, p.accent) + token_line("accent2"@, p.accent2), token_line("bg"@, p.bg), token_decl("bg"@, p.bg));
    lemma_part_left("\n        :root {\n"@ + token_line("accent"@, p.accent) + token_line("accent2"@, p.accent2) + token_line("bg"@, p.bg), token_line("panel"@, p.panel), token_decl("bg"@, p.bg));
    lemma_part_left("\n        :root {\n"@ + token_line("accent"@, p.accent) + token_line("accent2"@, p.accent2) + token_line("bg"@, p.bg) + token_line("panel"@, p.panel), token_line("fg"@, p.fg), token_decl("bg"@, p.bg));
    lemma_part_left("\n        :root {\n"@ + token_line("accent"@, p.accent) + token_line("accent2"@, p.accent2) + token_line("bg"@, p.bg) + token_line("panel"@, p.panel) + token_line("fg"@, p.fg), token_line("muted"@, p.muted), token_decl("bg"@, p.bg));
    lemma_part_left("\n        :root {\n"@ + token_line("accent"@, p.accent) + token_line("accent2"@, p.accent2) + token_line("bg"@, p.bg) + token_line("panel"@, p.panel) + token_line("fg"@, p.fg) + token_line("muted"@, p.muted), token_line("ok"@, p.ok), token_decl("bg"@, p.bg));
    lemma_part_left("\n        :root {\n"@ + token_line("accent"@, p.accent) + token_line("accent2"@, p.accent2) + token_line("bg"@, p.bg) + token_line("panel"@, p.panel) + token_line("fg"@, p.fg) + token_line("muted"@, p.muted) + token_line("ok"@, p.ok), token_line("warn"@, p.warn), token_decl("bg"@, p.bg));
    lemma_part_left("\n        :root {\n"@ + token_line("accent"@, p.accent) + token_line("accent2"@, p.accent2) + token_line("bg"@, p.bg) + token_line("panel"@, p.panel) + token_line("fg"@, p.fg) + token_line("muted"@, p.muted) + token_line("ok"@, p.ok) + token_line("warn"@, p.warn), token_line("alert"@, p.alert), token_decl("bg"@, p.bg));
    lemma_part_left("\n        :root {\n"@ + token_line("accent"@, p.accent) + token_line("accent2"@, p.accent2) + token_line("bg"@, p.bg) + token_line("panel"@, p.panel) + token_line("fg"@, p.fg) + token_line("muted"@, p.muted) + token_line("ok"@, p.ok) + token_line("warn"@, p.warn) + token_line("alert"@, p.alert), "        }\n        "@, token_decl("bg"@, p.bg));
    lemma_token_line_has_decl("panel"@, p.panel);
    lemma_part_right("\n        :root {\n"@ + token_line("accent"@, p.accent) + token_line("accent2"@, p.accent2) + token_line("bg"@, p.bg), token_line("panel"@, p.panel), token_decl("panel"@, p.panel));
    lemma_part_left("\n        :root {\n"@ + token_line("accent"@, p.accent) + token_line("accent2"@, p.accent2) + token_line("bg"@, p.bg) + token_line("panel"@, p.panel), token_line("fg"@, p.fg), token_decl("panel"@, p.panel));
    lemma_part_left("\n        :root {\n"@ + token_line("accent"@, p.accent) + token_line("accent2"@, p.accent2) + token_line("bg"@, p.bg) + token_line("panel"@, p.panel) + token_line("fg"@, p.fg), token_line("muted"@, p.muted), token_decl("panel"@, p.panel));
    lemma_part_left("\n        :root {\n"@ + token_line("accent"@, p.accent) + token_line("accent2"@, p.accent2) + token_line("bg"@, p.bg) + token_line("panel"@, p.panel) + token_line("fg"@, p.fg) + token_line("muted"@, p.muted), token_line("ok"@, p.ok), token_decl("panel"@, p.panel));
    lemma_part_left("\n        :root {\n"@ + token_line("accent"@, p.accent) + token_line("accent2"@, p.accent2) + token_line("bg"@, p.bg) + token_line("panel"@, p.panel) + token_line("fg"@, p.fg) + token_line("muted"@, p.muted) + token_line("ok"@, p.ok), token_line("warn"@, p.warn), token_decl("panel"@, p.panel));
    lemma_part_left("\n        :root {\n"@ + token_line("accent"@, p.accent) + token_line("accent2"@, p.accent2) + token_line("bg"@, p.bg) + token_line("panel"@, p.panel) + token_line("fg"@, p.fg) + token_line("muted"@, p.muted) + token_line("ok"@, p.ok) + token_line("warn"@, p.warn), token_line("alert"@, p.alert), token_decl("panel"@, p.panel));
    lemma_part_left("\n        :root {\n"@ + token_line("accent"@, p.accent) + token_line("accent2"@, p.accent2) + token_line("bg"@, p.bg) + token_line("panel"@, p.panel) + token_line("fg"@, p.fg) + token_line("muted"@, p.muted) + token_line("ok"@, p.ok) + token_line("warn"@, p.warn) + token_line("alert"@, p.alert), "        }\n        "@, token_decl("panel"@, p.panel));
    lemma_token_line_has_decl("fg"@, p.fg);
    lemma_part_right("\n        :root {\n"@ + token_line("accent"@, p.accent) + token_line("accent2"@, p.accent2) + token_line("bg"@, p.bg) + token_line("panel"@, p.panel), token_line("fg"@, p.fg), token_decl("fg"@, p.fg));
    lemma_part_left("\n        :root {\n"@ + token_line("accent"@, p.accent) + token_line("accent2"@, p.accent2) + token_line("bg"@, p.bg) + token_line("panel"@, p.panel) + token_line("fg"@, p.fg), token_line("muted"@, p.muted), token_decl("fg"@, p.fg));
    lemma_part_left("\n        :root {\n"@ + token_line("accent"@, p.accent) + token_line("accent2"@, p.accent2) + token_line("bg"@, p.bg) + token_line("panel"@, p.panel) + token_line("fg"@, p.fg) + token_line("muted"@, p.muted), token_line("ok"@, p.ok), token_decl("fg"@, p.fg));
    lemma_part_left("\n        :root {\n"@ + token_line("accent"@, p.accent) + token_line("accent2"@, p.accent2) + token_line("bg"@, p.bg) + token_line("panel"@, p.panel) + token_line("fg"@, p.fg) + token_line("muted"@, p.muted) + token_line("ok"@, p.ok), token_line("warn"@, p.warn), token_decl("fg"@, p.fg));
    lemma_part_left("\n        :root {\n"@ + token_line("accent"@, p.accent) + token_line("accent2"@, p.accent2) + token_line("bg"@, p.bg) + token_line("panel"@, p.panel) + token_line("fg"@, p.fg) + token_line("muted"@, p.muted) + token_line("ok"@, p.ok) + token_line("warn"@, p.warn), token_line("alert"@, p.alert), token_decl("fg"@, p.fg));
    lemma_part_left("\n        :root {\n"@ + token_line("accent"@, p.accent) + token_line("accent2"@, p.accent2) + token_line("bg"@, p.bg) + token_line("panel"@, p.panel) + token_line("fg"@, p.fg) + token_line("muted"@, p.muted) + token_line("ok"@, p.ok) + token_line("warn"@, p.warn) + token_line("alert"@, p.alert), "        }\n        "@, token_decl("fg"@, p.fg));
    lemma_token_line_has_decl("muted"@, p.muted);
    lemma_part_right("\n        :root {\n"@ + token_line("accent"@, p.accent) + token_line("accent2"@, p.accent2) + token_line("bg"@, p.bg) + token_line("panel"@, p.panel) + token_line("fg"@, p.fg), token_line("muted"@, p.muted), token_decl("muted"@, p.muted));
    lemma_part_left("\n        :root {\n"@ + token_line("accent"@, p.accent) + token_line("accent2"@, p.accent2) + token_line("bg"@, p.bg) + token_line("panel"@, p.panel) + token_line("fg"@, p.fg) + token_line("muted"@, p.muted), token_line("ok"@, p.ok), token_decl("muted"@, p.muted));
    lemma_part_left("\n        :root {\n"@ + token_line("accent"@, p.accent) + token_line("accent2"@, p.accent2) + token_line("bg"@, p.bg) + token_line("panel"@, p.panel) + token_line("fg"@, p.fg) + token_line("muted"@, p.muted) + token_line("ok"@, p.ok), token_line("warn"@, p.warn), token_decl("muted"@, p.muted));
    lemma_part_left("\n        :root {\n"@ + token_line("accent"@, p.accent) + token_line("accent2"@, p.accent2) + token_line("bg"@, p.bg) + token_line("panel"@, p.panel) + token_line("fg"@, p.fg) + token_line("muted"@, p.muted) + token_line("ok"@, p.ok) + token_line("warn"@, p.warn), token_line("alert"@, p.alert), token_decl("muted"@, p.muted));
    lemma_part_left("\n        :root {\n"@ + token_line("accent"@, p.accent) + token_line("accent2"@, p.accent2) + token_line("bg"@, p.bg) + token_line("panel"@, p.panel) + token_line("fg"@, p.fg) + token_line("muted"@, p.muted) + token_line("ok"@, p.ok) + token_line("warn"@, p.warn) + token_line("alert"@, p.alert), "        }\n        "@, token_decl("muted"@, p.muted));
    lemma_token_line_has_decl("ok"@, p.ok);
    lemma_part_right("\n        :root {\n"@ + token_line("accent"@, p.accent) + token_line("accent2"@, p.accent2) + token_line("bg"@, p.bg) + token_line("panel"@, p.panel) + token_line("fg"@, p.fg) + token_line("muted"@, p.muted), token_line("ok"@, p.ok), token_decl("ok"@, p.ok));
    lemma_part_left("\n        :root {\n"@ + token_line("accent"@, p.accent) + token_line("accent2"@, p.accent2) + token_line("bg"@, p.bg) + token_line("panel"@, p.panel) + token_line("fg"@, p.fg) + token_line("muted"@, p.muted) + token_line("ok"@, p.ok), token_line("warn"@, p.warn), token_decl("ok"@, p.ok));
    lemma_part_left("\n        :root {\n"@ + token_line("accent"@, p.accent) + token_line("accent2"@, p.accent2) + token_line("bg"@, p.bg) + token_line("panel"@, p.panel) + token_line("fg"@, p.fg) + token_line("muted"@, p.muted) + token_line("ok"@, p.ok) + token_line("warn"@, p.warn), token_line("alert"@, p.alert), token_decl("ok"@, p.ok));
    lemma_part_left("\n        :root {\n"@ + token_line("accent"@, p.accent) + token_line("accent2"@, p.accent2) + token_line("bg"@, p.bg) + token_line("panel"@, p.panel) + token_line("fg"@, p.fg) + token_line("muted"@, p.muted) + token_line("ok"@, p.ok) + token_line("warn"@, p.warn) + token_line("alert"@, p.alert), "        }\n        "@, token_decl("ok"@, p.ok));
    lemma_token_line_has_decl("warn"@, p.warn);
    lemma_part_right("\n        :root {\n"@ + token_line("accent"@, p.accent) + token_line("accent2"@, p.accent2) + token_line("bg"@, p.bg) + token_line("panel"@, p.panel) + token_line("fg"@, p.fg) + token_line("muted"@, p.muted) + token_line("ok"@, p.ok), token_line("warn"@, p.warn), token_decl("warn"@, p.warn));
    lemma_part_left("\n        :root {\n"@ + token_line("accent"@, p.accent) + token_line("accent2"@, p.accent2) + token_line("bg"@, p.bg) + token_line("panel"@, p.panel) + token_line("fg"@, p.fg) + token_line("muted"@, p.muted) + token_line("ok"@, p.ok) + token_line("warn"@, p.warn), token_line("alert"@, p.alert), token_decl("warn"@, p.warn));
    lemma_part_left("\n        :root {\n"@ + token_line("accent"@, p.accent) + token_line("accent2"@, p.accent2) + token_line("bg"@, p.bg) + token_line("panel"@, p.panel) + token_line("fg"@, p.fg) + token_line("muted"@, p.muted) + token_line("ok"@, p.ok) + token_line("warn"@, p.warn) + token_line("alert"@, p.alert), "        }\n        "@, token_decl("warn"@, p.warn));
    lemma_token_line_has_decl("alert"@, p.alert);
    lemma_part_right("\n        :root {\n"@ + token_line("accent"@, p.accent) + token_line("accent2"@, p.accent2) + token_line("bg"@, p.bg) + token_line("panel"@, p.panel) + token_line("fg"@, p.fg) + token_line("muted"@, p.muted) + token_line("ok"@, p.ok) + token_line("warn"@, p.warn), token_line("alert"@, p.alert), token_decl("alert"@, p.alert));
    lemma_part_left("\n        :root {\n"@ + token_line("accent"@, p.accent) + token_line("accent2"@, p.accent2) + token_line("bg"@, p.bg) + token_line("panel"@, p.panel) + token_line("fg"@, p.fg) + token_line("muted"@, p.muted) + token_line("ok"@, p.ok) + token_line("warn"@, p.warn) + token_line("alert"@, p.alert), "        }\n        "@, token_decl("alert"@, p.alert));
    reveal_strlit("\n        :root {\n");
    reveal_strlit(":root {");
    lemma_part_of(seq!['\n', ' ', ' ', ' ', ' ', ' ', ' ', ' ', ' '], ":root {"@, seq!['\n']);
    assert("\n        :root {\n"@ =~= seq!['\n', ' ', ' ', ' ', ' ', ' ', ' ', ' ', ' '] + ":root {"@ + seq!['\n']);
    lemma_part_left("\n        :root {\n"@, token_line("accent"@, p.accent), ":root {"@);
    lemma_part_left("\n        :root {\n"@ + token_line("accent"@, p.accent), token_line("accent2"@, p.accent2), ":root {"@);
    lemma_part_left("\n        :root {\n"@ + token_line("accent"@, p.accent) + token_line("accent2"@, p.accent2), token_line("bg"@, p.bg), ":root {"@);
    lemma_part_left("\n        :root {\n"@ + token_line("accent"@, p.accent) + token_line("accent2"@, p.accent2) + token_line("bg"@, p.bg), token_line("panel"@, p.panel), ":root {"@);
    lemma_part_left("\n        :root {\n"@ + token_line("accent"@, p.accent) + token_line("accent2"@, p.accent2) + token_line("bg"@, p.bg) + token_line("panel"@, p.panel), token_line("fg"@, p.fg), ":root {"@);
    lemma_part_left("\n        :root {\n"@ + token_line("accent"@, p.accent) + token_line("accent2"@, p.accent2) + token_line("bg"@, p.bg) + token_line("panel"@, p.panel) + token_line("fg"@, p.fg), token_line("muted"@, p.muted), ":root {"@);
    lemma_part_left("\n        :root {\n"@ + token_line("accent"@, p.accent) + token_line("accent2"@, p.accent2) + token_line("bg"@, p.bg) + token_line("panel"@, p.panel) + token_line("fg"@, p.fg) + token_line("muted"@, p.muted), token_line("ok"@, p.ok), ":root {"@);
    lemma_part_left("\n        :root {\n"@ + token_line("accent"@, p.accent) + token_line("accent2"@, p.accent2) + token_line("bg"@, p.bg) + token_line("panel"@, p.panel) + token_line("fg"@, p.fg) + token_line("muted"@, p.muted) + token_line("ok"@, p.ok), token_line("warn"@, p.warn), ":root {"@);
    lemma_part_left("\n        :root {\n"@ + token_line("accent"@, p.accent) + token_line("accent2"@, p.accent2) + token_line("bg"@, p.bg) + token_line("panel"@, p.panel) + token_line("fg"@, p.fg) + token_line("muted"@, p.muted) + token_line("ok"@, p.ok) + token_line("warn"@, p.warn), token_line("alert"@, p.alert), ":root {"@);
    lemma_part_left("\n        :root {\n"@ + token_line("accent"@, p.accent) + token_line("accent2"@, p.accent2) + token_line("bg"@, p.bg) + token_line("panel"@, p.panel) + token_line("fg"@, p.fg) + token_line("muted"@, p.muted) + token_line("ok"@, p.ok) + token_line("warn"@, p.warn) + token_line("alert"@, p.alert), "        }\n        "@, ":root {"@);
}

} // verus!
