# scifi_widgets

Sci-fi styled terminal widgets (ratatui): themes and palettes, a CSS
stylesheet per theme, widget configuration and state machines, and the layout
computations behind every glyph the widgets draw.

## Layout

- `src/` is the library, written in Verus. Its functions carry
  `requires` / `ensures` contracts over plain mathematical models (`Seq`,
  `int`, spec functions), and the laws the widgets keep (key handling that
  stays in range, toggles that undo themselves, scrolling that round-trips,
  word wrapping that fits the width and keeps every visible char, Bresenham
  steps that stay adjacent, and so on) are public proof functions.
  - `theme`, `stylesheet`: palettes, hex colors, and the theme CSS handed to
    `ratatui-style`.
  - `geom`, `keys`, `text`, `audio`: rectangles, key events, string editing,
    the sound catalog.
  - `widgets/`: one module per widget. Markdown rendering, the comm log and
    its chat layout (CommonMark read through `pulldown-cmark`), rasterised lines and braille canvases, dials and charts
    (their integer layout), lists, dropdowns, steppers and popups.
- `app/` is ordinary Rust around the library: drawing into a ratatui
  `Buffer`, crossterm key conversion, the cached stylesheets, and the widgets
  whose geometry is floating point.
- `tests/` runs the library on concrete values.
