use omne_tui::key_routing::OverlayKeyFollowUp;
use omne_tui::keys::{KeyCode, KeyInput};
use omne_tui::ui_state::{Overlay, TextOverlay, UiCore};

fn key(code: KeyCode) -> KeyInput {
    KeyInput::plain(code)
}

fn with_text() -> UiCore {
    let mut s = UiCore::new(false);
    s.overlays.push(Overlay::Text(TextOverlay { title: "t".to_string(), text: "x".to_string(), scroll: 0 }));
    s
}

#[test]
fn no_overlay_takes_no_key() {
    let mut s = UiCore::new(false);
    assert!(matches!(s.handle_overlay_key(key(KeyCode::Esc)), OverlayKeyFollowUp::Nothing));
}

#[test]
fn text_overlay_scrolls_and_closes() {
    let mut s = with_text();
    assert!(matches!(s.handle_overlay_key(key(KeyCode::PageDown)), OverlayKeyFollowUp::Nothing));
    match s.overlays.last() {
        Some(Overlay::Text(t)) => assert_eq!(t.scroll, 10),
        _ => panic!("text overlay expected"),
    }
    assert!(matches!(s.handle_overlay_key(key(KeyCode::Char('q'))), OverlayKeyFollowUp::Closed));
    assert!(s.overlays.is_empty());
    let mut s = with_text();
    assert!(matches!(s.handle_overlay_key(key(KeyCode::Esc)), OverlayKeyFollowUp::Closed));
    assert!(s.overlays.is_empty());
}

#[test]
fn palette_takes_q_as_text_and_esc_stops_the_model_fetch() {
    let mut s = UiCore::new(false);
    s.toggle_command_palette();
    s.model_fetch_active = true;
    s.model_fetch_pending = true;
    assert!(matches!(s.handle_overlay_key(key(KeyCode::Char('q'))), OverlayKeyFollowUp::Nothing));
    match s.overlays.last() {
        Some(Overlay::CommandPalette(p)) => assert_eq!(p.query, "q"),
        _ => panic!("palette expected"),
    }
    assert!(matches!(s.handle_overlay_key(key(KeyCode::Esc)), OverlayKeyFollowUp::Closed));
    assert!(s.overlays.is_empty());
    assert!(!s.model_fetch_active && !s.model_fetch_pending);
}

#[test]
fn palette_enter_begins_the_chosen_command() {
    let mut s = UiCore::new(false);
    s.toggle_command_palette();
    let f = s.handle_overlay_key(key(KeyCode::Enter));
    assert!(matches!(f, OverlayKeyFollowUp::Palette { .. }));
}
