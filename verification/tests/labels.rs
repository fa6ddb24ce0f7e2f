use omne_tui::labels::context_left_text;

#[test]
fn context_left_shows_the_share_or_the_tokens_used() {
    assert_eq!(context_left_text(500, Some(87)), "87% context left");
    assert_eq!(context_left_text(500, None), "500 used");
    assert_eq!(context_left_text(0, None), "100% context left");
}
