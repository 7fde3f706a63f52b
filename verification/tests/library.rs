use scifi_widgets::geom::{bordered, Area};
use scifi_widgets::widgets::hbar_chart::{bar_row, BarCell, HBarShape};
use scifi_widgets::widgets::big_text::BigText;
use scifi_widgets::widgets::checkbox::Checkbox;
use scifi_widgets::widgets::marquee::{Marquee, MarqueeShape, MarqueeState};
use scifi_widgets::keys::{KeyCode, KeyEvent};
use scifi_widgets::stylesheet::{theme_css, COMPONENT_CSS};
use scifi_widgets::theme::{Rgb, Theme};
use scifi_widgets::widgets::battery_indicator::{battery_row, BatteryGlyph, BatteryShape};
use scifi_widgets::widgets::comm_log::{CommKind, CommLogMessage, CommLogState};
use scifi_widgets::widgets::dropdown::{Dropdown, DropdownState};
use scifi_widgets::widgets::glitch_text::GlitchTextState;
use scifi_widgets::widgets::graph::GraphShape;
use scifi_widgets::widgets::heat_grid::HeatShape;
use scifi_widgets::widgets::image_view::{ImageView, ImageViewShape};
use scifi_widgets::widgets::line_chart::LineChartShape;
use scifi_widgets::widgets::digital_clock::{DigitalClock, DigitalClockState};
use scifi_widgets::widgets::markdown::{markdown_to_lines, Markdown};
use scifi_widgets::widgets::multi_select_list::MultiSelectListState;
use scifi_widgets::widgets::number_stepper::{NumberStepper, NumberStepperState};
use scifi_widgets::widgets::panel::{Panel, PanelShape};
use scifi_widgets::widgets::pie_chart::PieShape;
use scifi_widgets::widgets::popup::AlertPopupState;
use scifi_widgets::widgets::raster::{braille, line_points, BrailleCanvas};

fn area(x: u16, y: u16, width: u16, height: u16) -> Area {
    Area { x, y, width, height }
}

#[test]
fn hex_is_lowercase_hash_rrggbb() {
    assert_eq!(Rgb(255, 0, 16).hex(), "#ff0010");
    assert_eq!(Rgb(0, 0, 0).hex(), "#000000");
    assert_eq!(Rgb(171, 205, 239).hex(), "#abcdef");
}

#[test]
fn hex_roundtrips_for_every_palette_color() {
    for t in Theme::all() {
        let p = t.palette();
        for c in [p.accent, p.accent2, p.bg, p.panel, p.fg, p.muted, p.ok, p.warn, p.alert] {
            let h = c.hex();
            let v = u32::from_str_radix(&h[1..], 16).unwrap();
            assert_eq!(Rgb((v >> 16) as u8, (v >> 8) as u8, v as u8), c);
        }
    }
}

#[test]
fn theme_css_is_token_block_then_component_rules() {
    let p = Theme::Fallout.palette();
    let css = theme_css(p);
    let expected_first = format!("\n        :root {{\n            --accent: {};\n", p.accent.hex());
    assert!(css.starts_with(&expected_first), "{css:?}");
    assert!(css.contains(&format!("            --alert: {};\n", p.alert.hex())));
    assert!(css.ends_with(COMPONENT_CSS));
}

#[test]
fn bresenham_shallow_line_exact() {
    assert_eq!(line_points(0, 0, 3, 1), vec![(0, 0), (1, 0), (2, 1), (3, 1)]);
}

#[test]
fn bresenham_reverse_and_vertical_and_point() {
    assert_eq!(line_points(3, 1, 0, 0), vec![(3, 1), (2, 1), (1, 0), (0, 0)]);
    assert_eq!(line_points(2, 0, 2, 3), vec![(2, 0), (2, 1), (2, 2), (2, 3)]);
    assert_eq!(line_points(5, 5, 5, 5), vec![(5, 5)]);
    assert_eq!(line_points(0, 0, -2, -2), vec![(0, 0), (-1, -1), (-2, -2)]);
}

#[test]
fn bresenham_steps_are_adjacent_and_end_on_target() {
    let pts = line_points(-7, 4, 13, -9);
    assert_eq!(pts[0], (-7, 4));
    assert_eq!(*pts.last().unwrap(), (13, -9));
    for w in pts.windows(2) {
        assert!((w[1].0 - w[0].0).abs() <= 1 && (w[1].1 - w[0].1).abs() <= 1);
    }
    assert_eq!(pts.len(), 21, "the major axis advances every step");
}

#[test]
fn braille_glyph_code_points() {
    assert_eq!(braille(0), '\u{2800}');
    assert_eq!(braille(129), '\u{2881}');
    assert_eq!(braille(255), '\u{28FF}');
}

#[test]
fn canvas_packs_sub_pixels_by_weight() {
    let mut c = BrailleCanvas::new(2, 1);
    assert_eq!(c.cell_bits(0, 0), 0);
    c.set(0, 0);
    assert_eq!(c.cell_bits(0, 0), 1);
    c.set(1, 3);
    assert_eq!(c.cell_bits(0, 0), 129);
    c.set(2, 1);
    assert_eq!(c.cell_bits(1, 0), 4);
    // Outside the 4×4 pixel canvas: ignored.
    c.set(4, 0);
    c.set(-1, 0);
    c.set(0, 4);
    assert_eq!(c.cell_bits(0, 0), 129);
    assert_eq!(c.cell_bits(1, 0), 4);
}

#[test]
fn canvas_plots_a_line() {
    let mut c = BrailleCanvas::new(1, 1);
    c.plot(&line_points(0, 0, 1, 3));
    // (0,0) (0,1)? Bresenham from (0,0) to (1,3): (0,0),(0,1),(1,2),(1,3).
    assert_eq!(line_points(0, 0, 1, 3), vec![(0, 0), (0, 1), (1, 2), (1, 3)]);
    assert_eq!(c.cell_bits(0, 0), 1 + 4 + 32 + 128);
}

#[test]
fn graph_node_pixels() {
    assert_eq!(GraphShape::default(), GraphShape::Dot);
    assert_eq!(GraphShape::Dot.node_pixels(3, 4), vec![(3, 4)]);
    assert_eq!(GraphShape::Cross.node_pixels(3, 4), vec![(3, 4), (4, 4), (2, 4), (3, 5), (3, 3)]);
}

#[test]
fn line_chart_plot_area() {
    assert_eq!(LineChartShape::default(), LineChartShape::Axes);
    assert_eq!(LineChartShape::Axes.plot_area(area(2, 3, 20, 8)), area(3, 3, 19, 7));
    assert_eq!(LineChartShape::Bare.plot_area(area(2, 3, 20, 8)), area(2, 3, 20, 8));
    assert_eq!(LineChartShape::Axes.plot_area(area(2, 3, 1, 8)), area(2, 3, 1, 8));
}

#[test]
fn battery_row_layout_and_clipping() {
    assert_eq!(BatteryShape::default(), BatteryShape::Cells);
    assert_eq!(BatteryShape::Cells.segments(16), 6);
    assert_eq!(BatteryShape::Bar.segments(16), 13);
    assert_eq!(BatteryShape::Bar.segments(2), 0);
    assert_eq!(battery_row(16, 6, 3), vec![BatteryGlyph::Open, BatteryGlyph::Full, BatteryGlyph::Full, BatteryGlyph::Full, BatteryGlyph::Empty, BatteryGlyph::Empty, BatteryGlyph::Empty, BatteryGlyph::Close, BatteryGlyph::Nub]);
    assert_eq!(battery_row(4, 6, 3), vec![BatteryGlyph::Open, BatteryGlyph::Full, BatteryGlyph::Full, BatteryGlyph::Full]);
    assert_eq!(battery_row(8, 6, 6), vec![BatteryGlyph::Open, BatteryGlyph::Full, BatteryGlyph::Full, BatteryGlyph::Full, BatteryGlyph::Full, BatteryGlyph::Full, BatteryGlyph::Full, BatteryGlyph::Close]);
    assert_eq!(battery_row(0, 6, 6), vec![]);
    let glyphs: String = battery_row(16, 2, 1).iter().map(|g| g.glyph()).collect();
    assert_eq!(glyphs, "[█░]▐");
}

#[test]
fn image_view_lines_follow_str_lines() {
    for art in ["a\r\nbc\n\nd\n", "", "\n", "x\ry", "one", "a\n\nb", "tail\r"] {
        let lines: Vec<String> = ImageView::new(art).lines().iter().map(|l| l.iter().collect()).collect();
        let expected: Vec<String> = art.lines().map(String::from).collect();
        assert_eq!(lines, expected, "{art:?}");
    }
}

#[test]
fn image_view_centering() {
    let a = area(0, 0, 16, 6);
    assert_eq!(ImageView::top(a, 1), 2);
    assert_eq!(ImageView::top(a, 3), 1);
    assert_eq!(ImageView::top(a, 10), 0);
    assert_eq!(ImageView::left(a, 1), 7);
    assert_eq!(ImageView::left(a, 20), 0);
    assert_eq!(ImageView::left(area(4, 0, 10, 1), 4), 7);
}

#[test]
fn image_view_colors() {
    let p = Theme::Cyberpunk.palette();
    assert_eq!(ImageView::new("X").color(), p.accent);
    assert_eq!(ImageView::new("X").shape(ImageViewShape::Muted).color(), p.muted);
    let q = Theme::Weyland.palette();
    assert_eq!(ImageView::new("X").shape(ImageViewShape::Fg).theme(Theme::Weyland).color(), q.fg);
}

#[test]
fn panel_frame_insets_border_and_padding() {
    let p = Panel::new().title("TELEM").shape(PanelShape::Rounded).theme(Theme::Weyland);
    assert_eq!(p.title.as_deref(), Some("TELEM"));
    assert_eq!(p.shape, PanelShape::Rounded);
    assert_eq!(PanelShape::default(), PanelShape::Double);
    // Border (1) plus padding (1) on every side.
    assert_eq!(p.inner(area(0, 0, 16, 5)), Some(area(2, 2, 12, 1)));
    assert_eq!(p.inner(area(3, 4, 10, 10)), Some(area(5, 6, 6, 6)));
}

#[test]
fn bordered_insets_one_cell_and_saturates() {
    assert_eq!(bordered(area(0, 0, 20, 5)), area(1, 1, 18, 3));
    assert_eq!(bordered(area(0, 0, 1, 1)), area(1, 1, 0, 0));
    assert_eq!(bordered(area(0, 0, 0, 0)), area(0, 0, 0, 0));
    assert_eq!(bordered(area(u16::MAX, 0, 1, 3)), area(u16::MAX, 1, 0, 1));
}

#[test]
fn markdown_and_pie_config() {
    let m = Markdown::new("# Hi").theme(Theme::Fallout);
    assert_eq!(m.text, "# Hi");
    assert_eq!(m.theme, Theme::Fallout);
    assert_eq!(Markdown::default().theme, Theme::Cyberpunk);
    assert_eq!(PieShape::default(), PieShape::Filled);
}

#[test]
fn heat_ramp_levels() {
    assert_eq!(HeatShape::Block.levels(), 5);
    assert_eq!(HeatShape::Ascii.levels(), 9);
    assert_eq!(HeatShape::Dot.levels(), 2);
    assert_eq!(HeatShape::Block.ramp_glyph(0), " ");
    assert_eq!(HeatShape::Shade.ramp_glyph(2), "▒");
    assert_eq!(HeatShape::Ascii.ramp_glyph(8), "@");
    assert_eq!(HeatShape::Ascii.ramp_glyph(100), "@");
    assert_eq!(HeatShape::Dot.ramp_glyph(0), "·");
    assert_eq!(HeatShape::Dot.ramp_glyph(1), "●");
}

#[test]
fn scroll_down_undoes_scroll_up() {
    let mut s = CommLogState::new();
    s.scroll_up(3);
    s.scroll_up(4);
    s.scroll_down(4);
    assert_eq!(s.scroll, 3);
    s.scroll_down(10);
    assert_eq!(s.scroll, 0, "stops at the bottom");
    s.scroll = usize::MAX - 1;
    s.scroll_up(5);
    assert_eq!(s.scroll, usize::MAX, "saturates");
}

#[test]
fn streaming_reveals_until_complete() {
    let mut s = CommLogState::new();
    s.push_streaming(CommLogMessage::new("N", "abcdefg", CommKind::Agent));
    assert_eq!(s.messages[0].revealed, 0);
    s.tick(3);
    assert_eq!(s.messages[0].revealed, 3);
    s.tick(0);
    assert_eq!(s.messages[0].revealed, 3, "a zero rate reveals nothing");
    s.tick(1);
    assert_eq!(s.messages[0].revealed, 4);
    s.tick(100);
    assert_eq!(s.messages[0].revealed, 7);
    assert!(!s.is_streaming());
    s.tick(1);
    assert_eq!(s.messages[0].revealed, 7);
}

#[test]
fn at_most_the_tail_streams() {
    let mut s = CommLogState::new();
    s.push(CommLogMessage::new("A", "done", CommKind::User));
    s.push_streaming(CommLogMessage::new("B", "bbb", CommKind::Agent));
    s.push_streaming(CommLogMessage::new("C", "ccc", CommKind::Agent));
    s.tick(1);
    let n = s.messages.len();
    for m in &s.messages[..n - 1] {
        assert!(!m.is_streaming());
    }
    assert!(s.messages[n - 1].is_streaming());
}

#[test]
fn dropdown_up_then_down_restores_hover() {
    let dd = Dropdown::new(&["A", "B", "C"]);
    for h in 0..3 {
        let mut s = DropdownState { expanded: true, hover: h, ..DropdownState::default() };
        dd.handle_key(&mut s, KeyEvent::new(KeyCode::Up));
        assert!(s.hover < 3);
        dd.handle_key(&mut s, KeyEvent::new(KeyCode::Down));
        assert_eq!(s.hover, h);
    }
}

#[test]
fn stepper_stays_in_range() {
    let st = NumberStepper::new().min(-5).max(5).step(4);
    let mut s = NumberStepperState { value: 0 };
    for code in [KeyCode::Right, KeyCode::Right, KeyCode::Up, KeyCode::Left, KeyCode::Left, KeyCode::Left, KeyCode::Down] {
        st.handle_key(&mut s, KeyEvent::new(code));
        assert!((-5..=5).contains(&s.value), "{}", s.value);
    }
    assert_eq!(s.value, -5);
}

#[test]
fn flash_lasts_exactly_n_ticks() {
    let mut s = AlertPopupState::default();
    s.flash(5);
    for k in 1..5 {
        assert!(s.tick(), "still flashing after {k} ticks");
    }
    assert!(!s.tick());
    assert_eq!(s.flash_remaining, 0);
}

#[test]
fn toggling_twice_restores_the_mask() {
    let mut s = MultiSelectListState::new(3);
    s.toggle(1);
    assert!(s.is_checked(1) && !s.is_checked(0) && !s.is_checked(2));
    s.toggle(1);
    assert!(!s.is_checked(1));
    s.toggle(7);
    assert_eq!(s.checked, vec![false, false, false]);
}

#[test]
fn glitch_prng_is_xorshift32() {
    let mut s = GlitchTextState::default();
    let mut x: u32 = s.prng();
    for _ in 0..10 {
        x ^= x << 13;
        x ^= x >> 17;
        x ^= x << 5;
        assert_eq!(s.next_u32(), x);
    }
}

#[test]
fn glitch_burst_lookup() {
    let mut s = GlitchTextState::default();
    s.set_burst(5, vec![(1, 'A'), (3, 'B'), (1, 'C')]);
    assert_eq!(s.glyph_at(1), None, "no burst lives yet");
    for _ in 0..6 {
        s.tick();
    }
    assert_eq!(s.life(), 3);
    assert_eq!(s.burst_len(), 0, "the re-roll tick clears the old burst");
    s.set_burst(5, vec![(1, 'A'), (3, 'B'), (1, 'C')]);
    assert_eq!(s.glyph_at(1), Some('A'), "first entry at the position wins");
    assert_eq!(s.glyph_at(3), Some('B'));
    assert_eq!(s.glyph_at(2), None);
}

#[test]
fn stepper_clamps_an_out_of_range_value() {
    let st = NumberStepper::new().min(0).max(100).step(1);
    let mut s = NumberStepperState { value: 200 };
    st.handle_key(&mut s, KeyEvent::new(KeyCode::Left));
    assert_eq!(s.value, 100, "a step down from above the range lands on max");
    let mut s = NumberStepperState { value: -50 };
    st.handle_key(&mut s, KeyEvent::new(KeyCode::Up));
    assert_eq!(s.value, 0, "a step up from below the range lands on min");
}

#[test]
fn plain_clock_shows_the_last_two_hour_digits() {
    let c = DigitalClock::new(123, 4, 5);
    let text = c.plain_text(&DigitalClockState::new());
    assert_eq!(text, "23:04:05");
}

#[test]
fn markdown_lines_never_exceed_the_width() {
    let md = "> - a long item inside a quote\n>   with more words\n\n1. one\n   - nested bullet text\n\n```\nlet x = 1;\n```\n\n---";
    for width in [0u16, 1, 2, 3, 4, 6, 9, 20] {
        let lines = markdown_to_lines(md, Theme::Cyberpunk, width);
        assert!(!lines.is_empty());
        let w = width.max(1) as usize;
        for l in &lines {
            let n: usize = l.iter().map(|s| s.text.len()).sum();
            assert!(n <= w, "line of {n} cells at width {width}");
        }
    }
    let lines = markdown_to_lines("- a", Theme::Cyberpunk, 1);
    let text: String = lines[0].iter().flat_map(|s| s.text.iter()).collect();
    assert_eq!(text, "a", "a prefix that leaves no room is dropped");
}

#[test]
fn marquee_row_repeats_after_a_full_period() {
    for shape in [MarqueeShape::Left, MarqueeShape::Right] {
        let m = Marquee::new("ABC").speed(2).shape(shape);
        let period = (3 + 10) * 2;
        for t in [0u64, 1, 5, 17] {
            let a = m.row(10, &MarqueeState { tick: t });
            let b = m.row(10, &MarqueeState { tick: t + period });
            assert_eq!(a, b, "tick {t}");
        }
    }
    let first: String = Marquee::new("ABC").row(10, &MarqueeState { tick: 0 }).into_iter().collect();
    assert_eq!(first, "ABC       ");
}

#[test]
fn line_has_one_point_per_cell_of_its_longer_extent() {
    assert_eq!(line_points(0, 0, 3, 1), vec![(0, 0), (1, 0), (2, 1), (3, 1)]);
    for (x0, y0, x1, y1) in [(0i64, 0i64, 7i64, -3i64), (5, 5, -2, 9), (1, 1, 1, 1), (-4, 0, -4, -6)] {
        let pts = line_points(x0, y0, x1, y1);
        let n = (x1 - x0).abs().max((y1 - y0).abs()) as usize + 1;
        assert_eq!(pts.len(), n);
        for w in pts.windows(2) {
            let (dx, dy) = (w[1].0 - w[0].0, w[1].1 - w[0].1);
            assert!(dx == 0 || dx == (x1 - x0).signum());
            assert!(dy == 0 || dy == (y1 - y0).signum());
            assert!(dx != 0 || dy != 0);
        }
    }
}

#[test]
fn glitch_bursts_live_on_the_first_three_ticks_of_each_period() {
    let mut s = GlitchTextState::default();
    for k in 1u32..=40 {
        s.tick();
        let expect = if k >= 6 && k % 6 < 3 { 3 - k % 6 } else { 0 };
        assert_eq!(s.life(), expect, "after {k} ticks");
    }
}

#[test]
fn root_block_declares_every_token() {
    let css = theme_css(Theme::Cyberpunk.palette());
    assert!(css.contains(":root {"));
    let p = Theme::Cyberpunk.palette();
    for (name, c) in [("accent", p.accent), ("accent2", p.accent2), ("bg", p.bg), ("panel", p.panel), ("fg", p.fg), ("muted", p.muted), ("ok", p.ok), ("warn", p.warn), ("alert", p.alert)] {
        assert!(css.contains(&format!("--{name}: {};", c.hex())), "{name}");
    }
    assert!(css.contains("--accent: #ff007f;"));
}

#[test]
fn big_text_glyphs_are_distinct_and_blank_for_other_chars() {
    let pattern = |c: char| -> Vec<Option<bool>> {
        let b = BigText::new(&c.to_string());
        (0..7u16).flat_map(|r| (0..5usize).map(move |k| (r, k))).map(|(r, k)| b.cell(r, k)).collect()
    };
    let chars = ['0', '1', '2', '3', '4', '5', '6', '7', '8', '9', ':'];
    for (i, a) in chars.iter().enumerate() {
        assert!(pattern(*a).contains(&Some(true)));
        for b in &chars[i + 1..] {
            assert_ne!(pattern(*a), pattern(*b), "{a} vs {b}");
        }
    }
    assert!(!pattern('x').contains(&Some(true)));
    assert_eq!(pattern(':').iter().filter(|d| **d == Some(true)).count(), 2);
}

#[test]
fn checkbox_state_class_follows_the_check() {
    let c = Checkbox::new("x");
    assert_eq!(c.state_classes(), &["off"]);
    let mut d = Checkbox::new("x");
    d.checked = true;
    assert_eq!(d.state_classes(), &["on"]);
}

#[test]
fn dial_square_and_caption_row() {
    let a = Area { x: 3, y: 2, width: 20, height: 9 };
    assert_eq!(scifi_widgets::geom::dial_square(a), Area { x: 3, y: 2, width: 9, height: 9 });
    assert_eq!(scifi_widgets::geom::caption_row(a), None, "no row left under a square as tall as the area");
    let b = Area { x: 0, y: 4, width: 6, height: 9 };
    assert_eq!(scifi_widgets::geom::caption_row(b), Some(10));
}

#[test]
fn panel_inner_keeps_a_non_empty_result_inside_every_edge() {
    for theme in Theme::all() {
        let p = Panel::new().theme(theme);
        for (x, y, w, h) in [(0u16, 0u16, 16u16, 5u16), (3, 7, 40, 12), (1, 1, 3, 3), (0, 0, 2, 2), (5, 5, 1, 9)] {
            let area = Area { x, y, width: w, height: h };
            let r = p.inner(area).expect("the bundled theme CSS parses");
            assert!(r.x >= x && r.y >= y && r.width <= w && r.height <= h);
            if r.width > 0 {
                assert!(r.x + r.width <= x + w);
            }
            if r.height > 0 {
                assert!(r.y + r.height <= y + h);
            }
        }
    }
}

#[test]
fn hbar_row_lays_out_label_then_bar() {
    let r = bar_row("GAMMA", 3, 10, 4, HBarShape::Ascii);
    let text: String = r.iter().map(|c| c.0).collect();
    assert_eq!(text, "GAM####---");
    assert_eq!(r[0].1, BarCell::Label);
    assert_eq!(r[3].1, BarCell::Filled);
    assert_eq!(r[9].1, BarCell::Empty);
    let r = bar_row("AB", 4, 6, 9, HBarShape::Block);
    let text: String = r.iter().map(|c| c.0).collect();
    assert_eq!(text, "AB  ██", "short label padded, fill capped at the bar width");
    let r = bar_row("ALPHA", 6, 4, 2, HBarShape::Cell);
    let text: String = r.iter().map(|c| c.0).collect();
    assert_eq!(text, "ALPH", "no room for a bar");
}

#[test]
fn n_downs_bring_the_cursor_back() {
    let l = scifi_widgets::widgets::multi_select_list::MultiSelectList::new(&["a", "b", "c", "d"]);
    let mut s = MultiSelectListState::new(4);
    s.cursor = 2;
    for _ in 0..4 {
        l.handle_key(&mut s, KeyEvent::new(KeyCode::Down));
    }
    assert_eq!(s.cursor, 2);
    l.handle_key(&mut s, KeyEvent::new(KeyCode::Down));
    l.handle_key(&mut s, KeyEvent::new(KeyCode::Up));
    assert_eq!(s.cursor, 2);
}

#[test]
fn theme_stylesheet_parses_its_own_theme() {
    for t in Theme::all() {
        let s = scifi_widgets::stylesheet::theme_stylesheet(t).expect("parses");
        let _sheet = s.into_sheet();
    }
}
