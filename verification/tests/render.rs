use omne_tui::approvals::SubagentPendingSummary;
use omne_tui::palette::{CommandPaletteOverlay, PaletteCommand, PaletteItem};
use omne_tui::render::{
    build_command_palette_lines, build_input_lines, build_palette_item_line,
    format_role_lines, format_subagent_pending_overlay_hint, format_transcript_entry_lines,
    normalize_single_line, pad_to_width, right_elide, truncate_to_width, wrap_plain_text,
    wrap_prefixed_lines, TranscriptEntry, TranscriptRole,
};
use omne_tui::style::{Color, SpanStyle, StyledLine};

fn texts(line: &StyledLine) -> Vec<String> {
    line.spans.iter().map(|s| s.content.clone()).collect()
}

fn plain() -> SpanStyle {
    SpanStyle { fg: None, bg: None, reversed: false }
}

fn fg(c: Color) -> SpanStyle {
    SpanStyle { fg: Some(c), bg: None, reversed: false }
}

#[test]
fn wrap_plain_text_breaks_at_the_width() {
    assert_eq!(wrap_plain_text("hello world", 5), vec!["hello", " worl", "d"]);
    assert_eq!(wrap_plain_text("abc", 10), vec!["abc"]);
}

#[test]
fn wrap_plain_text_keeps_one_segment_for_empty_text() {
    assert_eq!(wrap_plain_text("", 3), vec![""]);
}

#[test]
fn wrap_plain_text_treats_zero_width_as_one() {
    assert_eq!(wrap_plain_text("ab", 0), vec!["a", "b"]);
}

#[test]
fn wrap_plain_text_gives_wide_characters_their_own_segment() {
    assert_eq!(wrap_plain_text("日本", 3), vec!["日", "本"]);
    assert_eq!(wrap_plain_text("日", 1), vec!["日"]);
}

#[test]
fn wrap_plain_text_segments_put_back_together_give_the_text() {
    for (text, w) in [("hello wonderful world", 4), ("日本語のテキスト", 5), ("a\tb c", 2), ("", 1)] {
        let segs = wrap_plain_text(text, w);
        assert!(!segs.is_empty());
        assert_eq!(segs.concat(), text);
    }
}

#[test]
fn truncate_to_width_ends_with_an_ellipsis_when_cut() {
    assert_eq!(truncate_to_width("hello world", 8), "hello w…");
    assert_eq!(truncate_to_width("hi", 5), "hi");
    assert_eq!(truncate_to_width("hello", 0), "");
    assert_eq!(truncate_to_width("hello", 1), "h");
    assert_eq!(truncate_to_width("hello", 5), "hello");
    assert_eq!(truncate_to_width("hello!", 5), "hell…");
}

#[test]
fn pad_to_width_pads_only_short_text() {
    assert_eq!(pad_to_width("ab", 5), "ab   ");
    assert_eq!(pad_to_width("abcdef", 3), "abcdef");
}

#[test]
fn normalize_single_line_collapses_whitespace() {
    assert_eq!(normalize_single_line("  a \n b\t c  "), "a b c");
    assert_eq!(normalize_single_line("   "), "-");
    assert_eq!(normalize_single_line(""), "-");
}

#[test]
fn right_elide_keeps_the_end() {
    assert_eq!(right_elide("abcdef", 4), "…def");
    assert_eq!(right_elide("abc", 3), "abc");
    assert_eq!(right_elide("abcdef", 1), "…");
    assert_eq!(right_elide("abc", 0), "");
}

#[test]
fn pending_overlay_hint_lists_three_states() {
    let summary = SubagentPendingSummary {
        total: 5,
        states: vec![
            ("a".to_string(), 1),
            ("b".to_string(), 2),
            ("c".to_string(), 1),
            ("d".to_string(), 1),
        ],
    };
    assert_eq!(format_subagent_pending_overlay_hint(&summary), " sub=5(a:1,b:2,c:1,...)");
    let summary = SubagentPendingSummary {
        total: 3,
        states: vec![("failed".to_string(), 1), ("running".to_string(), 2)],
    };
    assert_eq!(format_subagent_pending_overlay_hint(&summary), " sub=3(failed:1,running:2)");
    let summary = SubagentPendingSummary { total: 0, states: vec![] };
    assert_eq!(format_subagent_pending_overlay_hint(&summary), " sub=0()");
}

#[test]
fn role_lines_put_the_prefix_on_the_first_line_only() {
    let lines = format_role_lines(TranscriptRole::User, "hi\nthere", 20);
    assert_eq!(lines.len(), 2);
    assert_eq!(texts(&lines[0]), vec!["user: ", "hi"]);
    assert_eq!(texts(&lines[1]), vec!["", "there"]);
    assert_eq!(lines[0].spans[0].style, fg(Color::Yellow));
    assert_eq!(lines[0].spans[1].style, plain());

    let tool = format_transcript_entry_lines(
        &TranscriptEntry { role: TranscriptRole::Tool, text: "ok".to_string() },
        20,
    );
    assert_eq!(texts(&tool[0]), vec!["tool: ", "ok"]);
    assert_eq!(tool[0].spans[1].style, fg(Color::Blue));
}

#[test]
fn prefixed_lines_wrap_the_first_line_to_what_the_prefix_leaves() {
    let lines = wrap_prefixed_lines("ab: ", plain(), None, "abcdef", 6);
    let rows = lines.iter().map(texts).collect::<Vec<_>>();
    assert_eq!(
        rows,
        vec![
            vec!["ab: ".to_string(), "ab".to_string()],
            vec!["".to_string(), "cd".to_string()],
            vec!["".to_string(), "ef".to_string()],
        ]
    );
    let empty = wrap_prefixed_lines("x: ", plain(), None, "", 10);
    assert_eq!(empty.len(), 1);
    assert_eq!(texts(&empty[0]), vec!["x: ", ""]);
}

#[test]
fn palette_item_line_fills_the_width() {
    let item = PaletteItem::with_detail("alpha".to_string(), "beta".to_string(), PaletteCommand::Help);
    let line = build_palette_item_line(&item, false, 20);
    assert_eq!(texts(&line), vec!["  ", "alpha", "  ", "beta", "       "]);
    assert_eq!(line.spans[3].style, fg(Color::DarkGray));
    let selected = build_palette_item_line(&item, true, 20);
    assert_eq!(texts(&selected)[0], "> ");
    assert!(selected.spans.iter().all(|s| s.style.reversed));
    let narrow = build_palette_item_line(&item, false, 6);
    assert_eq!(texts(&narrow), vec!["  ", "alp…"]);
}

#[test]
fn command_palette_lines_show_header_and_window() {
    let items = vec![
        PaletteItem::new("one".to_string(), PaletteCommand::Help),
        PaletteItem::new("two".to_string(), PaletteCommand::Help),
        PaletteItem::new("three".to_string(), PaletteCommand::Help),
    ];
    let mut view = CommandPaletteOverlay::new("Models", items);
    let r = build_command_palette_lines(&view, 30, 3);
    assert_eq!(r.lines.len(), 3);
    assert_eq!(texts(&r.lines[0]), vec!["models: (type to search)", "      "]);
    assert_eq!(texts(&r.lines[1])[0], "> ");
    assert_eq!(texts(&r.lines[1])[1], "one");
    assert_eq!(texts(&r.lines[2])[1], "two");

    view.selected = 2;
    let r = build_command_palette_lines(&view, 30, 3);
    assert_eq!(texts(&r.lines[1])[1], "two");
    assert_eq!(texts(&r.lines[2])[1], "three");
    assert_eq!(texts(&r.lines[2])[0], "> ");

    assert!(build_command_palette_lines(&view, 30, 0).lines.is_empty());
    assert_eq!(build_command_palette_lines(&view, 30, 1).lines.len(), 1);

    let empty = CommandPaletteOverlay::new("  ", vec![]);
    let r = build_command_palette_lines(&empty, 20, 5);
    assert_eq!(r.lines.len(), 2);
    assert_eq!(texts(&r.lines[0]), vec!["commands: (type to …"]);
    assert_eq!(texts(&r.lines[1]), vec!["  (no matches)", "      "]);
}

#[test]
fn input_lines_place_the_cursor() {
    let r = build_input_lines("hello", 5, 20);
    assert_eq!(r.lines.len(), 3);
    assert_eq!(r.cursor_line, 1);
    assert_eq!(r.cursor_col, 7);
    assert_eq!(texts(&r.lines[0]), vec![" ".repeat(20)]);
    assert_eq!(texts(&r.lines[1]), vec!["› ".to_string(), "hello".to_string(), " ".repeat(13)]);

    let r = build_input_lines("ab\ncd", 100, 20);
    assert_eq!(r.lines.len(), 4);
    assert_eq!(r.cursor_line, 2);
    assert_eq!(r.cursor_col, 4);
    assert_eq!(texts(&r.lines[2])[0], "  ");

    let r = build_input_lines("abcdef", 6, 5);
    // Three columns are left after the prompt: "abc" and "def".
    assert_eq!(r.lines.len(), 4);
    assert_eq!(r.cursor_line, 2);
    assert_eq!(r.cursor_col, 4);
}
