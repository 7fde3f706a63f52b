use scifi_widgets::geom::Area;
use scifi_widgets::keys::{KeyCode, KeyEvent};
use scifi_widgets::stylesheet::theme_stylesheet;
use scifi_widgets::theme::Theme;
use scifi_widgets::widgets::area_chart::{AreaChart, AreaShape};
use scifi_widgets::widgets::collapsible_panel::{CollapsiblePanel, CollapsiblePanelState};
use scifi_widgets::widgets::combo_box::{ComboBox, ComboBoxState};
use scifi_widgets::widgets::comm_log::{CommKind, CommLogMessage, CommLogState};
use scifi_widgets::widgets::dropdown::{Dropdown, DropdownState};
use scifi_widgets::widgets::hbar_chart::HBarChart;
use scifi_widgets::widgets::multi_select_list::{MultiSelectList, MultiSelectListState};
use scifi_widgets::widgets::number_stepper::{NumberStepper, NumberStepperState};
use scifi_widgets::widgets::panel::Panel;

fn key(code: KeyCode) -> KeyEvent {
    KeyEvent::new(code)
}

fn area(x: u16, y: u16, width: u16, height: u16) -> Area {
    Area { x, y, width, height }
}

#[test]
fn accents_are_pairwise_distinct() {
    let accents: Vec<_> = Theme::all().into_iter().map(|t| t.palette().accent).collect();
    assert_eq!(accents.len(), 8);
    for i in 0..accents.len() {
        for j in (i + 1)..accents.len() {
            assert_ne!(accents[i], accents[j], "duplicate accent between palettes #{i} and #{j}");
        }
    }
}

#[test]
fn all_themes_parse() {
    for theme in [
        Theme::Cyberpunk,
        Theme::Fallout,
        Theme::Weyland,
        Theme::DeepSpace,
        Theme::Bloodmoon,
        Theme::Nebula,
        Theme::Arctic,
        Theme::Sentinel,
    ] {
        assert!(theme_stylesheet(theme).is_ok(), "the bundled CSS must parse");
    }
}

#[test]
fn area_chart_builder_setters_work() {
    let w = AreaChart::new().window(32).shape(AreaShape::Line).theme(Theme::Weyland).label("TELEMETRY");
    assert_eq!(w.window, 32);
    assert_eq!(w.shape, AreaShape::Line);
    assert_eq!(w.theme, Theme::Weyland);
    assert_eq!(w.label.as_deref(), Some("TELEMETRY"));
}

#[test]
fn inner_is_zero_when_collapsed() {
    let panel = CollapsiblePanel::new("X");
    let state = CollapsiblePanelState { collapsed: true };
    let inner = panel.inner(area(0, 0, 20, 5), &state);
    assert_eq!(inner.height, 0, "no body area when collapsed");
}

#[test]
fn inner_is_nonzero_when_expanded() {
    let panel = CollapsiblePanel::new("X");
    let state = CollapsiblePanelState { collapsed: false };
    let inner = panel.inner(area(0, 0, 20, 5), &state);
    assert!(inner.height > 0 && inner.width > 0, "body area present when expanded");
    assert_eq!(inner.width, 20 - 2);
    assert_eq!(inner.height, 5 - 2);
}

#[test]
fn handle_key_enter_toggles() {
    let panel = CollapsiblePanel::new("X");
    let mut s = CollapsiblePanelState::new();
    panel.handle_key(&mut s, key(KeyCode::Enter));
    assert!(s.collapsed, "Enter collapses");
}

#[test]
fn handle_char_types_into_value() {
    let cb = ComboBox::new(&["A"]);
    let mut s = ComboBoxState::new();
    cb.handle_key(&mut s, key(KeyCode::Char('x')));
    assert_eq!(s.value, "x");
}

#[test]
fn handle_enter_opens_then_commits() {
    let cb = ComboBox::new(&["A", "B"]);
    let mut s = ComboBoxState::new();
    cb.handle_key(&mut s, key(KeyCode::Enter));
    assert!(s.open);
    cb.handle_key(&mut s, key(KeyCode::Down));
    cb.handle_key(&mut s, key(KeyCode::Enter));
    assert!(!s.open);
    assert_eq!(s.value, "B", "committed hover becomes value");
}

#[test]
fn handle_up_down_move_hover_when_open() {
    let cb = ComboBox::new(&["A", "B", "C"]);
    let mut s = ComboBoxState { open: true, ..ComboBoxState::new() };
    cb.handle_key(&mut s, key(KeyCode::Down));
    assert_eq!(s.hover, 1);
    cb.handle_key(&mut s, key(KeyCode::Up));
    assert_eq!(s.hover, 0);
}

#[test]
fn esc_closes() {
    let cb = ComboBox::new(&["A"]);
    let mut s = ComboBoxState { open: true, ..ComboBoxState::new() };
    cb.handle_key(&mut s, key(KeyCode::Esc));
    assert!(!s.open);
}

#[test]
fn push_streaming_finishes_previous_stream_first() {
    let mut s = CommLogState::new();
    s.push_streaming(CommLogMessage::new("A", "aaa", CommKind::Agent));
    s.push_streaming(CommLogMessage::new("B", "bbb", CommKind::Agent));
    assert!(s.is_streaming());
    assert_eq!(s.messages.len(), 2);
    assert!(!s.messages[0].is_streaming(), "previous streaming message must be finished");
    assert!(s.messages[1].is_streaming());
}

#[test]
fn handle_enter_expands_then_commits_and_collapses() {
    let dd = Dropdown::new(&["A", "B", "C"]);
    let mut s = DropdownState::new();
    dd.handle_key(&mut s, key(KeyCode::Enter));
    assert!(s.expanded, "Enter expands");
    dd.handle_key(&mut s, key(KeyCode::Down));
    dd.handle_key(&mut s, key(KeyCode::Down));
    dd.handle_key(&mut s, key(KeyCode::Enter));
    assert!(!s.expanded, "Enter collapses");
    assert_eq!(s.selected, 2, "committed hover becomes selected");
}

#[test]
fn handle_up_down_moves_hover_when_expanded() {
    let dd = Dropdown::new(&["A", "B", "C"]);
    let mut s = DropdownState { expanded: true, hover: 0, ..DropdownState::default() };
    dd.handle_key(&mut s, key(KeyCode::Down));
    assert_eq!(s.hover, 1);
    dd.handle_key(&mut s, key(KeyCode::Down));
    dd.handle_key(&mut s, key(KeyCode::Down));
    assert_eq!(s.hover, 0, "Down wraps");
    dd.handle_key(&mut s, key(KeyCode::Up));
    assert_eq!(s.hover, 2, "Up wraps backwards");
}

#[test]
fn handle_up_down_ignored_when_collapsed() {
    let dd = Dropdown::new(&["A", "B", "C"]);
    let mut s = DropdownState::default();
    dd.handle_key(&mut s, key(KeyCode::Down));
    assert_eq!(s.hover, 0, "Down is a no-op while collapsed");
}

#[test]
fn handle_esc_collapses() {
    let dd = Dropdown::new(&["A", "B"]);
    let mut s = DropdownState { expanded: true, ..DropdownState::default() };
    dd.handle_key(&mut s, key(KeyCode::Esc));
    assert!(!s.expanded);
}

#[test]
fn hbar_chart_default_is_cyberpunk() {
    let w = HBarChart::default();
    assert_eq!(w.theme, Theme::Cyberpunk);
    assert_eq!(w.label_width, 6);
    assert_eq!(w.categories.len(), 4);
}

#[test]
fn handle_key_down_moves_cursor() {
    let list = MultiSelectList::new(&["A", "B", "C"]);
    let mut s = MultiSelectListState::new(3);
    list.handle_key(&mut s, key(KeyCode::Down));
    assert_eq!(s.cursor, 1);
    list.handle_key(&mut s, key(KeyCode::Down));
    list.handle_key(&mut s, key(KeyCode::Down));
    assert_eq!(s.cursor, 0, "Down wraps");
}

#[test]
fn handle_key_space_toggles_cursor_item() {
    let list = MultiSelectList::new(&["A", "B"]);
    let mut s = MultiSelectListState::new(2);
    assert!(!s.is_checked(0));
    list.handle_key(&mut s, key(KeyCode::Char(' ')));
    assert!(s.is_checked(0), "Space toggles item 0");
    list.handle_key(&mut s, key(KeyCode::Char(' ')));
    assert!(!s.is_checked(0), "Space toggles back");
}

#[test]
fn handle_key_right_increases_by_step() {
    let stepper = NumberStepper::new().step(5);
    let mut s = NumberStepperState::new();
    stepper.handle_key(&mut s, key(KeyCode::Right));
    assert_eq!(s.value, 5, "one Right nudge = step");
}

#[test]
fn handle_key_left_decreases_by_step() {
    let stepper = NumberStepper::new().step(5);
    let mut s = NumberStepperState { value: 20 };
    stepper.handle_key(&mut s, key(KeyCode::Left));
    assert_eq!(s.value, 15);
}

#[test]
fn handle_key_right_clamps_at_max() {
    let stepper = NumberStepper::new().max(10).step(3);
    let mut s = NumberStepperState { value: 9 };
    stepper.handle_key(&mut s, key(KeyCode::Right));
    assert_eq!(s.value, 10, "clamps at max");
}

#[test]
fn handle_key_left_clamps_at_min() {
    let stepper = NumberStepper::new().min(0).step(3);
    let mut s = NumberStepperState { value: 1 };
    stepper.handle_key(&mut s, key(KeyCode::Left));
    assert_eq!(s.value, 0, "clamps at min");
}

#[test]
fn handle_key_home_end() {
    let stepper = NumberStepper::new().min(5).max(50);
    let mut s = NumberStepperState { value: 20 };
    stepper.handle_key(&mut s, key(KeyCode::Home));
    assert_eq!(s.value, 5);
    stepper.handle_key(&mut s, key(KeyCode::End));
    assert_eq!(s.value, 50);
}

#[test]
fn inner_is_strictly_smaller_and_contained() {
    let a = area(0, 0, 16, 5);
    let panel = Panel::new().theme(Theme::Cyberpunk);
    let inner = panel.inner(a).expect("theme stylesheet parses");
    assert!(inner.width < 16, "inner must be narrower than the frame");
    assert!(inner.height < 5, "inner must be shorter than the frame");
    assert!(inner.x >= a.x && inner.x + inner.width <= a.x + a.width);
    assert!(inner.y >= a.y && inner.y + inner.height <= a.y + a.height);
}

#[test]
fn inner_on_tiny_area_is_zero_size_without_panic() {
    let panel = Panel::new().theme(Theme::Cyberpunk);
    let inner = panel.inner(area(0, 0, 2, 2)).expect("theme stylesheet parses");
    assert_eq!(inner.width, 0);
    assert_eq!(inner.height, 0);
}
