use scifi_widgets::theme::Theme;
use scifi_widgets::widgets::comm_log::{CommKind, CommLog, CommLogMessage, CommLogState, CommStyle};
use scifi_widgets::widgets::markdown::{markdown_to_lines, wrap_segment, MdSpan, MdStyle};

fn line_strings(lines: &[Vec<MdSpan>]) -> Vec<String> {
    lines.iter().map(|l| l.iter().flat_map(|s| s.text.iter()).collect::<String>()).collect()
}

#[test]
fn empty_yields_one_blank_line() {
    let lines = markdown_to_lines("", Theme::Cyberpunk, 40);
    assert_eq!(lines.len(), 1);
    assert!(line_strings(&lines)[0].is_empty());
}

#[test]
fn paragraph_wraps_to_width() {
    let md = "the quick brown fox jumps over the lazy dog again";
    let lines = markdown_to_lines(md, Theme::Cyberpunk, 20);
    for s in line_strings(&lines) {
        assert!(s.chars().count() <= 20, "line exceeded width: {s:?} ({})", s.chars().count());
    }
    assert!(lines.len() > 1, "long paragraph should wrap to multiple lines");
    let joined: String = line_strings(&lines).join(" ");
    assert!(joined.contains("quick") && joined.contains("dog"));
}

#[test]
fn heading_is_bold_accent_and_prefixed() {
    let lines = markdown_to_lines("# Title", Theme::Cyberpunk, 40);
    let accent = Theme::Cyberpunk.palette().accent;
    let bodies = line_strings(&lines);
    assert_eq!(bodies.len(), 1);
    assert!(bodies[0].contains('#'), "heading should carry its # marker: {:?}", bodies[0]);
    assert!(bodies[0].contains("Title"));
    let first_span = &lines[0][0];
    assert_eq!(first_span.text.first(), Some(&'#'), "heading span should start with '#'");
    assert_eq!(first_span.style.fg, Some(accent));
    assert!(first_span.style.bold);
}

#[test]
fn inline_code_uses_accent2_on_panel() {
    let p = Theme::Cyberpunk.palette();
    let lines = markdown_to_lines("run `evasive` now", Theme::Cyberpunk, 40);
    let code_span = lines[0]
        .iter()
        .find(|s| s.text.iter().collect::<String>().contains("evasive"))
        .unwrap();
    assert_eq!(code_span.style.fg, Some(p.accent2));
    assert_eq!(code_span.style.bg, Some(p.panel));
}

#[test]
fn fenced_code_block_each_line_on_panel_bg() {
    let md = "```\nfn main() {}\nlet x = 1;\n```";
    let p = Theme::Cyberpunk.palette();
    let lines = markdown_to_lines(md, Theme::Cyberpunk, 40);
    let bodies = line_strings(&lines);
    assert!(bodies.iter().any(|s| s.contains("fn main")), "code line present");
    let i = bodies.iter().position(|s| s.contains("fn main")).unwrap();
    assert_eq!(lines[i][0].style.bg, Some(p.panel));
}

#[test]
fn unordered_list_emits_bullets() {
    let lines = markdown_to_lines("- one\n- two\n- three", Theme::Cyberpunk, 40);
    let bodies = line_strings(&lines);
    assert_eq!(bodies.len(), 3);
    assert!(bodies[0].starts_with("• one"), "first item should be bulleted: {:?}", bodies[0]);
    assert!(bodies[2].starts_with("• three"));
}

#[test]
fn ordered_list_numbers_items() {
    let lines = markdown_to_lines("1. alpha\n2. beta", Theme::Cyberpunk, 40);
    let bodies = line_strings(&lines);
    assert!(bodies[0].starts_with("1. alpha"));
    assert!(bodies[1].starts_with("2. beta"));
}

#[test]
fn blockquote_bars_each_line() {
    let lines = markdown_to_lines("> wisdom\n> more wisdom", Theme::Cyberpunk, 40);
    let bodies = line_strings(&lines);
    assert!(bodies.iter().all(|s| s.starts_with("▏")), "every quote line gets a bar");
}

#[test]
fn thematic_break_is_a_rule_line() {
    let lines = markdown_to_lines("above\n\n---\n\nbelow", Theme::Cyberpunk, 12);
    let bodies = line_strings(&lines);
    assert!(
        bodies.iter().any(|s| s.chars().all(|c| c == '─') && !s.is_empty()),
        "a full-width rule line exists"
    );
}

#[test]
fn tiny_width_does_not_panic() {
    let md = "# Heading\n\n- a long item that must wrap hard\n\n```\ncode\n```";
    let _ = markdown_to_lines(md, Theme::Cyberpunk, 1);
    let _ = markdown_to_lines(md, Theme::Cyberpunk, 2);
}

#[test]
fn quoted_paragraph_is_dimmed_with_muted_bars() {
    let p = Theme::Fallout.palette();
    let lines = markdown_to_lines("> calm", Theme::Fallout, 20);
    assert_eq!(lines.len(), 1);
    assert_eq!(lines[0][0].text.iter().collect::<String>(), "▏ ");
    assert_eq!(lines[0][0].style.fg, Some(p.muted));
    assert!(lines[0][1].style.dim);
    assert_eq!(lines[0][1].style.fg, Some(p.fg));
}

#[test]
fn long_word_is_cut_and_code_rows_are_padded() {
    let lines = markdown_to_lines("abcdefghij", Theme::Cyberpunk, 4);
    assert_eq!(line_strings(&lines), vec!["abcd", "efgh", "ij"]);
    let code = markdown_to_lines("```\nabcdef\n```", Theme::Cyberpunk, 4);
    assert_eq!(line_strings(&code), vec!["abcd", "ef  ", "    "]);
}

#[test]
fn nested_list_continuation_aligns_under_the_body() {
    let lines = markdown_to_lines("- outer\n  - inner item wraps here", Theme::Cyberpunk, 14);
    let bodies = line_strings(&lines);
    // The outer item's text is emitted when the inner item starts, so it
    // already carries the nested indent.
    assert_eq!(bodies, vec!["  • outer", "  • inner item", "    wraps here"]);
}

#[test]
fn chat_cards_stack_with_gaps_and_user_cards_are_narrow() {
    let log = CommLog::new().style(CommStyle::Chat);
    let mut s = CommLogState::new();
    s.push(CommLogMessage::new("NEXUS", "hello there", CommKind::Agent));
    s.push(CommLogMessage::new("YOU", "hi", CommKind::User));
    let l = log.chat_layout_of(40, 20, &mut s);
    assert_eq!(l.content_width, 40);
    assert_eq!(l.cards.len(), 2);
    assert_eq!(l.cards[0].width, 40);
    assert_eq!(l.cards[0].x_offset, 0);
    assert_eq!(l.cards[0].top, 0);
    assert_eq!(l.cards[0].height, 3, "border rows plus one body line");
    assert_eq!(l.cards[1].top, 4, "one gap row below the first card");
    assert_eq!(l.cards[1].width, 28, "seven tenths of the feed");
    assert_eq!(l.cards[1].x_offset, 12);
    assert_eq!(l.start, 0);
    assert!(l.thumb.is_none());
    assert_eq!(l.drawn, vec![true, true]);
}

#[test]
fn chat_scrollbar_appears_when_cards_overflow() {
    let log = CommLog::new().style(CommStyle::Chat).scrollbar(true);
    let mut s = CommLogState::new();
    for i in 0..5 {
        s.push(CommLogMessage::new("A", &format!("message {i}"), CommKind::System));
    }
    s.scroll = 1000;
    let l = log.chat_layout_of(30, 6, &mut s);
    assert_eq!(l.content_width, 29);
    // Five cards of height 3 plus gaps: 20 rows; 14 can scroll.
    assert_eq!(s.scroll, 14, "scroll clamps to the scrollable range");
    assert_eq!(l.start, 0);
    assert_eq!(l.thumb, Some((0, 1)));
    assert_eq!(l.drawn, vec![true, true, false, false, false]);
}

#[test]
fn wrapping_keeps_every_visible_char_in_order() {
    let st = MdStyle { fg: None, bg: None, bold: true, italic: false, crossed: false, underlined: false, dim: false };
    let seg: Vec<(char, MdStyle)> = "  the quick   brownfox jumps ".chars().map(|c| (c, st)).collect();
    for width in [0usize, 1, 3, 5, 9, 40] {
        let lines = wrap_segment(&seg, width);
        let ink: String =
            lines.iter().flat_map(|l| l.iter()).flat_map(|s| s.text.iter()).filter(|c| **c != ' ').collect();
        assert_eq!(ink, "thequickbrownfoxjumps", "width {width}");
        if width > 0 {
            for l in &lines {
                let n: usize = l.iter().map(|s| s.text.len()).sum();
                assert!(n <= width, "row wider than {width}");
            }
        }
    }
}
