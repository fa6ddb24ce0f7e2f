use omne_tui::inline_exec::{InlineCommandFollowUp, InlineFollowUp, ListFollowUp};
use omne_tui::keys::{KeyCode, KeyInput};
use omne_tui::thread_view::{ThreadViewFollowUp, TurnStartOutcome};
use omne_tui::ui_state::UiCore;

fn key(code: KeyCode) -> KeyInput {
    KeyInput::plain(code)
}

fn ctrl(code: KeyCode) -> KeyInput {
    KeyInput { code, ctrl: true }
}

fn state() -> UiCore {
    let mut s = UiCore::new(false);
    s.active_thread = Some(5);
    s
}

#[test]
fn control_letters_open_the_overlays() {
    let mut s = state();
    assert!(matches!(s.handle_thread_view_key(ctrl(KeyCode::Char('a'))), ThreadViewFollowUp::OpenApprovals));
    assert!(matches!(s.handle_thread_view_key(ctrl(KeyCode::Char('p'))), ThreadViewFollowUp::OpenProcesses));
    assert!(matches!(s.handle_thread_view_key(ctrl(KeyCode::Char('o'))), ThreadViewFollowUp::OpenArtifacts));
    assert!(matches!(s.handle_thread_view_key(ctrl(KeyCode::Char('x'))), ThreadViewFollowUp::Nothing));
    assert_eq!(s.input, "");
}

#[test]
fn scrolling_stops_and_resumes_following() {
    let mut s = state();
    s.transcript_max_scroll = 30;
    s.transcript_scroll = 30;
    s.transcript_viewport_height = 11;
    s.handle_thread_view_key(key(KeyCode::PageUp));
    assert_eq!(s.transcript_scroll, 20);
    assert!(!s.transcript_follow);
    s.handle_thread_view_key(key(KeyCode::Up));
    assert_eq!(s.transcript_scroll, 19);
    s.handle_thread_view_key(key(KeyCode::Home));
    assert_eq!(s.transcript_scroll, 0);
    s.handle_thread_view_key(ctrl(KeyCode::Down));
    assert_eq!(s.transcript_scroll, 1);
    assert!(!s.transcript_follow);
    s.handle_thread_view_key(key(KeyCode::PageDown));
    s.handle_thread_view_key(key(KeyCode::PageDown));
    s.handle_thread_view_key(key(KeyCode::PageDown));
    assert_eq!(s.transcript_scroll, 30);
    assert!(s.transcript_follow);
    s.transcript_viewport_height = 0;
    assert_eq!(s.transcript_page(), 1);
}

#[test]
fn typing_edits_the_composer_and_opens_the_inline_palette() {
    let mut s = state();
    s.transcript_follow = false;
    assert!(matches!(s.handle_thread_view_key(key(KeyCode::Char('/'))), ThreadViewFollowUp::Update(InlineFollowUp::Nothing)));
    assert_eq!(s.input, "/");
    assert!(s.transcript_follow);
    assert!(s.inline_palette.is_some());
    s.handle_thread_view_key(key(KeyCode::Char('h')));
    assert_eq!(s.inline_palette.as_ref().map(|p| p.view.query.clone()), Some("h".to_string()));
    s.handle_thread_view_key(key(KeyCode::Backspace));
    s.handle_thread_view_key(key(KeyCode::Backspace));
    assert_eq!(s.input, "");
    assert!(s.inline_palette.is_none());
    s.handle_thread_view_key(key(KeyCode::Char('h')));
    s.handle_thread_view_key(ctrl(KeyCode::Enter));
    assert_eq!(s.input, "h\n");
}

#[test]
fn escape_clears_then_leaves() {
    let mut s = state();
    s.input = "draft".to_string();
    assert!(matches!(s.handle_thread_view_key(key(KeyCode::Esc)), ThreadViewFollowUp::Update(_)));
    assert_eq!(s.input, "");
    assert!(matches!(s.handle_thread_view_key(key(KeyCode::Esc)), ThreadViewFollowUp::Quit));
}

#[test]
fn enter_starts_a_turn_once() {
    let mut s = state();
    s.input = "hello".to_string();
    match s.handle_thread_view_key(key(KeyCode::Enter)) {
        ThreadViewFollowUp::StartTurn(5, text) => assert_eq!(text, "hello"),
        _ => panic!("expected a turn start"),
    }
    s.turn_started();
    assert_eq!(s.input, "");
    s.input = "again".to_string();
    assert!(matches!(s.handle_thread_view_key(key(KeyCode::Enter)), ThreadViewFollowUp::Nothing));
    assert_eq!(s.status.as_deref(), Some("turn/start pending"));

    s.input = String::new();
    s.finish_turn_start(5, "hello".to_string(), TurnStartOutcome::Failed("busy".to_string()));
    assert_eq!(s.input, "hello");
    assert_eq!(s.status.as_deref(), Some("turn/start error: busy"));
    assert!(!s.turn_start_pending);

    s.finish_turn_start(5, "x".to_string(), TurnStartOutcome::Started(77));
    assert_eq!(s.active_turn_id, Some(77));
    assert_eq!(s.input, "hello");
}

#[test]
fn enter_in_the_inline_palette_runs_its_selection() {
    let mut s = state();
    for c in "/allowed-tools a".chars() {
        s.handle_thread_view_key(key(KeyCode::Char(c)));
    }
    assert!(matches!(s.handle_thread_view_key(key(KeyCode::Enter)), ThreadViewFollowUp::List(ListFollowUp::Configure(5, _))));

    let mut s = state();
    for c in "/approval-policy".chars() {
        s.handle_thread_view_key(key(KeyCode::Char(c)));
    }
    s.handle_thread_view_key(key(KeyCode::Char(' ')));
    s.handle_thread_view_key(key(KeyCode::Down));
    assert_eq!(s.inline_palette.as_ref().map(|p| p.view.selected), Some(1));
    match s.handle_thread_view_key(key(KeyCode::Enter)) {
        ThreadViewFollowUp::Inline(InlineCommandFollowUp::Configure(5, _)) => {}
        _ => panic!("expected a configuration change"),
    }
}

#[test]
fn tab_cycles_the_thinking_level() {
    let mut s = state();
    match s.handle_thread_view_key(key(KeyCode::Tab)) {
        ThreadViewFollowUp::SetThinking(5, level) => {
            assert_eq!(level, "high");
            s.finish_cycle_thinking(level);
        }
        _ => panic!("expected a thinking change"),
    }
    assert_eq!(s.header.thinking.as_deref(), Some("high"));
    assert_eq!(s.status.as_deref(), Some("thinking=high"));
}
