use std::collections::HashSet;

use scifi_widgets::audio::{catalog, Sound};
use scifi_widgets::theme::{Rgb, Theme};
use scifi_widgets::widgets::activity_rings::{ActivityRings, RingShape};
use scifi_widgets::widgets::area_chart::{AreaChart, AreaShape};
use scifi_widgets::widgets::candlestick::{CandlestickChart, CandlestickShape};
use scifi_widgets::widgets::collapsible_panel::CollapsiblePanelState;
use scifi_widgets::widgets::comm_log::{CommKind, CommLogMessage, CommLogState};
use scifi_widgets::widgets::compass::{Compass, CompassShape};
use scifi_widgets::widgets::countdown_timer::CountdownTimerState;
use scifi_widgets::widgets::donut_chart::{DonutChart, DonutShape};
use scifi_widgets::widgets::glitch_text::GlitchTextState;
use scifi_widgets::widgets::hbar_chart::{HBarChart, HBarShape};
use scifi_widgets::widgets::heat_grid::{HeatGrid, HeatShape};
use scifi_widgets::widgets::marquee::MarqueeState;
use scifi_widgets::widgets::noise::NoiseState;
use scifi_widgets::widgets::oscilloscope::OscilloscopeState;
use scifi_widgets::widgets::popup::{AlertPopup, AlertPopupState};
use scifi_widgets::widgets::progress_bar::ProgressBarState;
use scifi_widgets::widgets::radial_bar::{RBarShape, RadialBarChart};
use scifi_widgets::widgets::radial_gauge::{DialShape, RadialGauge};

#[test]
fn catalog_is_complete_and_unique() {
    let mut ids = HashSet::new();
    let mut files = HashSet::new();
    for s in catalog() {
        assert!(ids.insert(s.id), "duplicate id {}", s.id);
        assert!(files.insert(s.filename), "duplicate filename {}", s.filename);
    }
    // Every Sound variant must map to a catalog entry.
    assert_eq!(Sound::AmbientHum.spec().id, "ambient_hum");
    assert_eq!(Sound::AlertSiren.spec().id, "alert_siren");
    assert!(Sound::AmbientHum.filename().ends_with(".wav"));
}

#[test]
fn hex_roundtrips() {
    let rgb = Theme::Bloodmoon.palette().accent;
    let parsed = u32::from_str_radix(&rgb.hex()[1..], 16).unwrap();
    let roundtrip = Rgb(
        ((parsed >> 16) & 0xff) as u8,
        ((parsed >> 8) & 0xff) as u8,
        (parsed & 0xff) as u8,
    );
    assert_eq!(rgb, roundtrip);
}

#[test]
fn activity_rings_builder_setters_work() {
    let w = ActivityRings::new()
        .rings(5)
        .shape(RingShape::Track)
        .theme(Theme::Weyland)
        .label("GOALS");
    assert_eq!(w.rings, 5);
    assert_eq!(w.shape, RingShape::Track);
    assert_eq!(w.theme, Theme::Weyland);
    assert_eq!(w.label.as_deref(), Some("GOALS"));
}

#[test]
fn rings_builder_clamps_to_one() {
    let w = ActivityRings::new().rings(0);
    assert_eq!(w.rings, 1, "rings(0) should clamp to 1");
}

#[test]
fn activity_rings_default_is_cyberpunk() {
    let w = ActivityRings::default();
    assert_eq!(w.theme, Theme::Cyberpunk);
    assert_eq!(w.rings, 3);
    assert!(w.label.is_none());
}

#[test]
fn activity_rings_default_shape_is_arc() {
    let w = ActivityRings::default();
    assert_eq!(w.shape, RingShape::Arc);
}

#[test]
fn area_chart_default_is_cyberpunk() {
    let w = AreaChart::default();
    assert_eq!(w.window, 64);
    assert_eq!(w.theme, Theme::Cyberpunk);
    assert!(w.label.is_none());
}

#[test]
fn default_shape_is_solid() {
    let w = AreaChart::default();
    assert_eq!(w.shape, AreaShape::Solid);
}

#[test]
fn candlestick_builder_setters_work() {
    let w = CandlestickChart::new()
        .capacity(16)
        .shape(CandlestickShape::Hollow)
        .theme(Theme::Weyland)
        .label("MARKET");
    assert_eq!(w.capacity, 16);
    assert_eq!(w.shape, CandlestickShape::Hollow);
    assert_eq!(w.theme, Theme::Weyland);
    assert_eq!(w.label.as_deref(), Some("MARKET"));
}

#[test]
fn capacity_clamps_to_two() {
    let w = CandlestickChart::new().capacity(0);
    assert_eq!(w.capacity, 2, "capacity should clamp to at least 2");
    let w = CandlestickChart::new().capacity(1);
    assert_eq!(w.capacity, 2);
}

#[test]
fn candlestick_default_is_cyberpunk() {
    let w = CandlestickChart::default();
    assert_eq!(w.theme, Theme::Cyberpunk);
    assert_eq!(w.capacity, 32);
    assert!(w.label.is_none());
}

#[test]
fn default_shape_is_filled() {
    let w = CandlestickChart::default();
    assert_eq!(w.shape, CandlestickShape::Filled);
}

#[test]
fn toggle_flips_state() {
    let mut s = CollapsiblePanelState::new();
    assert!(!s.collapsed);
    s.toggle();
    assert!(s.collapsed);
    s.toggle();
    assert!(!s.collapsed);
}

#[test]
fn finish_streaming_completes_tail() {
    let mut s = CommLogState::new();
    s.push_streaming(CommLogMessage::new("NEXUS", "hello", CommKind::Agent));
    assert!(s.is_streaming());
    s.finish_streaming();
    assert!(!s.is_streaming(), "finish_streaming must fully reveal the tail");
}

#[test]
fn tick_wraps_blink_clock_without_panic() {
    let mut s = CommLogState { messages: Vec::new(), blink: u64::MAX, scroll: 0 };
    s.tick(1);
    assert_eq!(s.blink, 0);
}

#[test]
fn push_auto_follows_to_bottom() {
    let mut s = CommLogState::new();
    for i in 0..20u32 {
        s.push(CommLogMessage::new("A", &format!("m{i}"), CommKind::Agent));
    }
    s.scroll_up(5);
    assert_eq!(s.scroll, 5);
    s.push(CommLogMessage::new("A", "new", CommKind::Agent));
    assert_eq!(s.scroll, 0, "push should auto-follow back to the bottom");
}

#[test]
fn compass_builder_setters_work() {
    let w = Compass::new()
        .shape(CompassShape::Arrow)
        .theme(Theme::Weyland)
        .label("HEADING");
    assert_eq!(w.shape, CompassShape::Arrow);
    assert_eq!(w.theme, Theme::Weyland);
    assert_eq!(w.label.as_deref(), Some("HEADING"));
}

#[test]
fn compass_default_is_cyberpunk() {
    let w = Compass::default();
    assert_eq!(w.theme, Theme::Cyberpunk);
}

#[test]
fn compass_default_shape_is_needle() {
    let w = Compass::default();
    assert_eq!(w.shape, CompassShape::Needle);
}

#[test]
fn tick_advances_blink_clock() {
    let mut s = CountdownTimerState::new(10);
    s.tick();
    assert_eq!(s.blink_tick, 1);
}

#[test]
fn done_at_zero() {
    let s = CountdownTimerState::new(0);
    assert!(s.done());
    let s = CountdownTimerState::new(5);
    assert!(!s.done());
}

#[test]
fn donut_chart_builder_setters_work() {
    let w = DonutChart::new()
        .slices(4)
        .shape(DonutShape::Thick)
        .theme(Theme::Weyland)
        .label("LOAD");
    assert_eq!(w.slices, 4);
    assert_eq!(w.shape, DonutShape::Thick);
    assert_eq!(w.theme, Theme::Weyland);
    assert_eq!(w.label.as_deref(), Some("LOAD"));
}

#[test]
fn donut_chart_default_is_cyberpunk() {
    let w = DonutChart::default();
    assert_eq!(w.theme, Theme::Cyberpunk);
    assert_eq!(w.slices, 5);
}

#[test]
fn donut_chart_default_shape_is_arc() {
    let w = DonutChart::default();
    assert_eq!(w.shape, DonutShape::Arc);
}

#[test]
fn slices_clamps_to_at_least_one() {
    assert_eq!(DonutChart::new().slices(0).slices, 1, "slices should clamp to >= 1");
}

#[test]
fn tick_does_not_panic_on_long_run() {
    // wrapping_add should keep us safe across u32::MAX.
    let mut state = GlitchTextState::default();
    for _ in 0..1_000_000 {
        state.tick();
    }
    // Just assert it didn't panic and the prng stayed non-zero.
    assert_ne!(state.prng(), 0);
}

#[test]
fn hbar_chart_builder_setters_work() {
    let w = HBarChart::new().label_width(8).shape(HBarShape::Block).theme(Theme::Weyland);
    assert_eq!(w.label_width, 8);
    assert_eq!(w.shape, HBarShape::Block);
    assert_eq!(w.theme, Theme::Weyland);
}

#[test]
fn default_shape_is_cell() {
    let w = HBarChart::default();
    assert_eq!(w.shape, HBarShape::Cell);
}

#[test]
fn categories_builder_replaces_list() {
    let w = HBarChart::new().categories(&["X", "Y", "Z"]);
    assert_eq!(w.categories, vec!["X".to_string(), "Y".to_string(), "Z".to_string()]);
    assert_eq!(w.category_count(), 3);
}

#[test]
fn heat_grid_builder_setters_work() {
    let w = HeatGrid::new().rows(5).cols(9).shape(HeatShape::Ascii).theme(Theme::Weyland);
    assert_eq!(w.rows, 5);
    assert_eq!(w.cols, 9);
    assert_eq!(w.shape, HeatShape::Ascii);
    assert_eq!(w.theme, Theme::Weyland);
}

#[test]
fn builder_clamps_rows_and_cols() {
    let w = HeatGrid::new().rows(0).cols(0);
    assert_eq!(w.rows, 1, "rows clamps to >= 1");
    assert_eq!(w.cols, 1, "cols clamps to >= 1");
}

#[test]
fn heat_grid_default_is_cyberpunk() {
    let w = HeatGrid::default();
    assert_eq!(w.theme, Theme::Cyberpunk);
    assert_eq!(w.rows, 8);
    assert_eq!(w.cols, 16);
}

#[test]
fn default_shape_is_block() {
    let w = HeatGrid::default();
    assert_eq!(w.shape, HeatShape::Block);
    // And the default glyph for max intensity (1.0, the top of the ramp) is
    // the full block.
    let top = ((1.0f64 * (HeatShape::Block.levels() as f64 - 1.0)).round()) as usize;
    assert_eq!(HeatShape::Block.ramp_glyph(top), "█");
}

#[test]
fn marquee_tick_wraps_without_panic() {
    let mut s = MarqueeState { tick: u64::MAX };
    s.tick();
    assert_eq!(s.tick, 0);
}

#[test]
fn noise_tick_advances_clock() {
    let mut s = NoiseState::new();
    s.tick();
    assert_eq!(s.tick, 1);
}

#[test]
fn oscilloscope_tick_advances_clock() {
    let mut s = OscilloscopeState::new();
    s.tick();
    assert_eq!(s.tick, 1);
}

#[test]
fn tick_counts_down() {
    let mut s = AlertPopupState::default();
    s.flash(2);
    assert!(s.tick(), "still flashing after first tick (1 left)");
    assert!(!s.tick(), "flash expired after second tick");
    // Ticking past zero stays expired and never underflows.
    assert!(!s.tick());
    assert_eq!(s.flash_remaining, 0);
}

#[test]
fn theme_builder_overrides_default() {
    let p = AlertPopup::new("X").theme(Theme::DeepSpace);
    assert_eq!(p.theme, Theme::DeepSpace);
    // Default is Cyberpunk.
    assert_eq!(AlertPopup::new("X").theme, Theme::Cyberpunk);
}

#[test]
fn progress_bar_tick_wraps_without_panic() {
    let mut s = ProgressBarState { tick: u64::MAX };
    s.tick();
    assert_eq!(s.tick, 0);
}

#[test]
fn radial_bar_builder_setters_work() {
    let w = RadialBarChart::new()
        .bars(8)
        .shape(RBarShape::Arc)
        .theme(Theme::Weyland)
        .label("SUBSYSTEMS");
    assert_eq!(w.bars, 8);
    assert_eq!(w.shape, RBarShape::Arc);
    assert_eq!(w.theme, Theme::Weyland);
    assert_eq!(w.label.as_deref(), Some("SUBSYSTEMS"));
}

#[test]
fn radial_bar_default_is_cyberpunk() {
    let w = RadialBarChart::default();
    assert_eq!(w.theme, Theme::Cyberpunk);
    assert_eq!(w.bars, 6);
}

#[test]
fn default_shape_is_bar() {
    let w = RadialBarChart::default();
    assert_eq!(w.shape, RBarShape::Bar);
}

#[test]
fn bars_setter_clamps_to_one() {
    let w = RadialBarChart::new().bars(0);
    assert_eq!(w.bars, 1, "bars(0) should clamp to 1");
}

#[test]
fn radial_gauge_builder_setters_work() {
    let w = RadialGauge::new().shape(DialShape::Arc).theme(Theme::Weyland).label("REACTOR");
    assert_eq!(w.shape, DialShape::Arc);
    assert_eq!(w.theme, Theme::Weyland);
    assert_eq!(w.label.as_deref(), Some("REACTOR"));
}

#[test]
fn radial_gauge_default_is_cyberpunk() {
    let w = RadialGauge::default();
    assert_eq!(w.theme, Theme::Cyberpunk);
}

#[test]
fn radial_gauge_default_shape_is_needle() {
    let w = RadialGauge::default();
    assert_eq!(w.shape, DialShape::Needle);
}
