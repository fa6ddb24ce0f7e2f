use omne_tui::inline_context::{
    inline_token_span, last_line_bounds, parse_inline_context, parse_inline_list_command,
    parse_inline_list_command_setting, InlineListCommandKind, InlineListCommandSetting,
    InlinePaletteKind,
};

#[test]
fn parse_inline_context_allows_trailing_space_for_slash_commands() {
    let ctx = parse_inline_context("/model ").expect("context");
    assert!(matches!(ctx.kind, InlinePaletteKind::Model));
    assert_eq!(ctx.query, "");
}

#[test]
fn parse_inline_context_supports_allowed_tools_and_execpolicy_rules() {
    let ctx = parse_inline_context("/allowed-tools file/read").expect("context");
    assert!(matches!(ctx.kind, InlinePaletteKind::AllowedTools));
    assert_eq!(ctx.query, "file/read");

    let ctx = parse_inline_context("/execpolicy-rules rules/a.rules").expect("context");
    assert!(matches!(ctx.kind, InlinePaletteKind::ExecpolicyRules));
    assert_eq!(ctx.query, "rules/a.rules");
}

#[test]
fn parse_inline_list_command_supports_clear_and_list() {
    let cmd = parse_inline_list_command("/allowed-tools file/read, file/glob").expect("cmd");
    assert!(matches!(cmd.kind, InlineListCommandKind::AllowedTools));
    assert_eq!(
        cmd.setting,
        InlineListCommandSetting::Values(vec!["file/read".to_string(), "file/glob".to_string()])
    );

    let cmd = parse_inline_list_command("/execpolicy-rules clear").expect("cmd");
    assert!(matches!(cmd.kind, InlineListCommandKind::ExecpolicyRules));
    assert_eq!(cmd.setting, InlineListCommandSetting::Clear);
}

#[test]
fn last_line_bounds_reports_byte_offset_of_last_line() {
    assert_eq!(last_line_bounds("abc"), (0, "abc"));
    assert_eq!(last_line_bounds("ab\ncd"), (3, "cd"));
    assert_eq!(last_line_bounds("é\nxy"), (3, "xy"));
    assert_eq!(last_line_bounds("a\n"), (2, ""));
}

#[test]
fn parse_inline_context_reads_role_and_skill_tokens() {
    let ctx = parse_inline_context("hello @rev").expect("role");
    assert_eq!(ctx.kind, InlinePaletteKind::Role);
    assert_eq!(ctx.query, "rev");
    let ctx = parse_inline_context("first\nrun $sk").expect("skill");
    assert_eq!(ctx.kind, InlinePaletteKind::Skill);
    assert_eq!(ctx.query, "sk");
    assert!(parse_inline_context("hello @rev ").is_none());
    assert!(parse_inline_context("hello world").is_none());
    assert!(parse_inline_context("").is_none());
    assert!(parse_inline_context("text\n   ").is_none());
}

#[test]
fn parse_inline_context_slash_forms() {
    let ctx = parse_inline_context("/").expect("bare slash");
    assert_eq!(ctx.kind, InlinePaletteKind::Command);
    assert_eq!(ctx.query, "");
    let ctx = parse_inline_context("//  mod").expect("command query");
    assert_eq!(ctx.kind, InlinePaletteKind::Command);
    assert_eq!(ctx.query, "mod");
    let ctx = parse_inline_context("/mode   rev").expect("mode");
    assert_eq!(ctx.kind, InlinePaletteKind::Role);
    assert_eq!(ctx.query, "rev");
    let ctx = parse_inline_context("/sandbox-network al").expect("network");
    assert_eq!(ctx.kind, InlinePaletteKind::SandboxNetworkAccess);
    assert_eq!(ctx.query, "al");
}

#[test]
fn inline_token_span_covers_trigger_token() {
    assert_eq!(inline_token_span("say @ro", '@'), Some((4, 7)));
    assert_eq!(inline_token_span("a\nb $x  ", '$'), Some((4, 6)));
    assert_eq!(inline_token_span("say ro", '@'), None);
    assert_eq!(inline_token_span("   ", '@'), None);
}

#[test]
fn list_setting_dedupes_and_handles_missing() {
    assert_eq!(parse_inline_list_command_setting("   "), InlineListCommandSetting::Missing);
    assert_eq!(parse_inline_list_command_setting(" , ,"), InlineListCommandSetting::Missing);
    assert_eq!(parse_inline_list_command_setting("NONE"), InlineListCommandSetting::Clear);
    assert_eq!(parse_inline_list_command_setting("Null"), InlineListCommandSetting::Clear);
    assert_eq!(
        parse_inline_list_command_setting("a, b ,a,,c"),
        InlineListCommandSetting::Values(vec!["a".to_string(), "b".to_string(), "c".to_string()])
    );
    assert!(parse_inline_list_command("/model x").is_none());
    assert!(parse_inline_list_command("allowed-tools x").is_none());
    let cmd = parse_inline_list_command("/allowed-tools").expect("cmd");
    assert_eq!(cmd.setting, InlineListCommandSetting::Missing);
}
