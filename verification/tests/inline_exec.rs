use omne_tui::inline_context::InlinePaletteKind;
use omne_tui::inline_exec::{InlineCommandFollowUp, InlineFollowUp, ListChange, ListFollowUp, ModelFetchOutcome};
use omne_tui::palette::PaletteCommand;
use omne_tui::palette_exec::ConfigChange;
use omne_tui::ui_state::{Overlay, UiCore};

fn state_with_thread() -> UiCore {
    let mut state = UiCore::new(false);
    state.active_thread = Some(9);
    state
}

fn inline_kind(state: &UiCore) -> Option<InlinePaletteKind> {
    state.inline_palette.as_ref().map(|p| p.kind)
}

#[test]
fn slash_opens_the_command_palette_with_the_query() {
    let mut state = UiCore::new(false);
    state.input = "/mo".to_string();
    assert!(matches!(state.update_inline_palette(), InlineFollowUp::Nothing));
    let inline = state.inline_palette.as_ref().expect("palette");
    assert_eq!(inline.kind, InlinePaletteKind::Command);
    assert_eq!(inline.view.query, "mo");

    state.input = "plain text".to_string();
    assert!(matches!(state.update_inline_palette(), InlineFollowUp::Nothing));
    assert!(state.inline_palette.is_none());
}

#[test]
fn role_palette_waits_for_the_mode_catalog() {
    let mut state = state_with_thread();
    state.input = "@pl".to_string();
    assert!(matches!(state.update_inline_palette(), InlineFollowUp::LoadModeCatalog));
    assert!(state.inline_palette.is_none());
    state.set_mode_catalog(vec![" plan ".to_string(), "  ".to_string(), "code".to_string()]);
    assert_eq!(state.mode_catalog, vec!["plan".to_string(), "code".to_string()]);
    assert!(state.mode_catalog_loaded);
    assert!(matches!(state.update_inline_palette(), InlineFollowUp::Nothing));
    let inline = state.inline_palette.as_ref().expect("palette");
    assert_eq!(inline.kind, InlinePaletteKind::Role);
    assert_eq!(inline.view.title, "roles");
    assert_eq!(inline.view.query, "pl");
}

#[test]
fn skill_palette_waits_for_the_skills_and_inserts_one() {
    let mut state = state_with_thread();
    state.input = "use $sk".to_string();
    assert!(matches!(state.update_inline_palette(), InlineFollowUp::LoadSkillCatalog));
    state.set_skill_catalog(vec!["skill-a".to_string()]);
    assert!(matches!(state.update_inline_palette(), InlineFollowUp::Nothing));
    assert_eq!(inline_kind(&state), Some(InlinePaletteKind::Skill));
    let f = state.begin_inline_command(PaletteCommand::InsertSkill("skill-a".to_string()));
    assert!(matches!(f, InlineCommandFollowUp::Done));
    assert_eq!(state.input, "use $skill-a ");
    assert!(state.inline_palette.is_none());
}

#[test]
fn model_palette_starts_one_fetch() {
    let mut state = state_with_thread();
    state.input = "/model gp".to_string();
    assert!(matches!(state.update_inline_palette(), InlineFollowUp::FetchModels(9)));
    assert!(state.model_fetch_pending);
    assert_eq!(state.inline_palette.as_ref().map(|p| p.view.title.clone()), Some("model".to_string()));
    assert!(matches!(state.update_inline_palette(), InlineFollowUp::Nothing));

    state.finish_model_fetch(9, ModelFetchOutcome::Models(vec!["gpt-b".to_string(), "gpt-a".to_string()]));
    assert!(!state.model_fetch_pending);
    assert!(state.model_list_loaded);
    let view = &state.inline_palette.as_ref().expect("palette").view;
    assert_eq!(view.items[0].label, "gpt-a");
}

#[test]
fn model_fetch_errors_are_shown() {
    let mut state = state_with_thread();
    state.input = "/model ".to_string();
    state.update_inline_palette();
    state.finish_model_fetch(9, ModelFetchOutcome::Failed("offline".to_string()));
    assert_eq!(state.status.as_deref(), Some("thread/models error: offline"));
    let view = &state.inline_palette.as_ref().expect("palette").view;
    assert_eq!(view.items[0].label, "error: offline");
    assert!(!state.model_fetch_pending);

    let mut empty = state_with_thread();
    empty.model_fetch_pending = true;
    empty.apply_model_list(vec![]);
    assert_eq!(empty.status.as_deref(), Some("thread/models error: empty model list"));
    assert!(!empty.model_list_loaded);
}

#[test]
fn inline_configuration_is_reported_and_clears_the_line() {
    let mut state = state_with_thread();
    state.input = "first line\n@pl".to_string();
    match state.begin_inline_command(PaletteCommand::SetMode("Plan Mode".to_string())) {
        InlineCommandFollowUp::Configure(9, change) => {
            state.finish_inline_configure(&change);
        }
        _ => panic!("expected a configuration change"),
    }
    assert_eq!(state.header.mode.as_deref(), Some("Plan Mode"));
    assert_eq!(state.status.as_deref(), Some("mode=plan-mode"));
    assert_eq!(state.input, "first line\n");
    assert!(state.inline_palette.is_none());

    state.finish_inline_configure(&ConfigChange::ClearExecpolicyRules);
    assert_eq!(state.status.as_deref(), Some("execpolicy_rules=<cleared>"));
    assert!(state.header_needs_refresh);
}

#[test]
fn inline_configuration_needs_a_thread() {
    let mut state = UiCore::new(false);
    let f = state.begin_inline_command(PaletteCommand::SetModel("m".to_string()));
    assert!(matches!(f, InlineCommandFollowUp::Done));
    assert_eq!(state.status.as_deref(), Some("no active thread"));
}

#[test]
fn pick_commands_rewrite_the_composer() {
    let mut state = state_with_thread();
    state.input = "/".to_string();
    let f = state.begin_inline_command(PaletteCommand::PickApprovalPolicy);
    assert!(matches!(f, InlineCommandFollowUp::Update(InlineFollowUp::Nothing)));
    assert_eq!(state.input, "/approval-policy ");
    assert_eq!(inline_kind(&state), Some(InlinePaletteKind::ApprovalPolicy));
}

#[test]
fn other_commands_run_as_palette_commands() {
    let mut state = state_with_thread();
    state.input = "/help".to_string();
    match state.begin_inline_command(PaletteCommand::Help) {
        InlineCommandFollowUp::Palette(_) => {}
        _ => panic!("expected a palette command"),
    }
    assert!(matches!(state.overlays.last(), Some(Overlay::Text(_))));
    state.finish_inline_palette_command();
    assert_eq!(state.input, "");
}

#[test]
fn list_commands_set_or_clear() {
    let mut state = state_with_thread();
    state.input = "/allowed-tools a, b".to_string();
    match state.begin_inline_list_command() {
        ListFollowUp::Configure(9, change) => {
            match &change {
                ListChange::AllowedTools(v) => assert_eq!(v, &vec!["a".to_string(), "b".to_string()]),
                _ => panic!("expected values"),
            }
            state.finish_inline_list_command(&change);
        }
        _ => panic!("expected a configuration change"),
    }
    assert_eq!(state.status.as_deref(), Some("allowed_tools=[\"a\",\"b\"]"));
    assert!(state.header_needs_refresh);
    assert_eq!(state.input, "");

    state.input = "/execpolicy-rules".to_string();
    assert!(matches!(state.begin_inline_list_command(), ListFollowUp::Handled));
    assert_eq!(state.status.as_deref(), Some("usage: /execpolicy-rules <a,b> | /execpolicy-rules clear"));

    state.input = "/execpolicy-rules none".to_string();
    assert!(matches!(
        state.begin_inline_list_command(),
        ListFollowUp::Configure(9, ListChange::ClearExecpolicyRules)
    ));

    state.input = "hello".to_string();
    assert!(matches!(state.begin_inline_list_command(), ListFollowUp::NotList));
}

#[test]
fn models_for_another_thread_only_stop_the_fetch() {
    let mut state = state_with_thread();
    state.model_fetch_active = true;
    state.model_fetch_pending = true;
    state.finish_model_fetch(8, ModelFetchOutcome::Models(vec!["m".to_string()]));
    assert!(!state.model_fetch_active && !state.model_fetch_pending);
    assert!(state.model_list.is_empty());
    assert!(!state.model_list_loaded);
    state.model_fetch_pending = true;
    state.finish_model_fetch(9, ModelFetchOutcome::Models(vec!["m".to_string()]));
    assert_eq!(state.model_list, vec!["m".to_string()]);
    assert!(state.model_list_loaded);
}

#[test]
fn list_status_escapes_json_strings() {
    let mut state = state_with_thread();
    state.finish_inline_list_command(&ListChange::ExecpolicyRules(vec![
        "say \"hi\"".to_string(),
        "a\\b".to_string(),
        "t\tn\nu\u{1}".to_string(),
    ]));
    assert_eq!(
        state.status.as_deref(),
        Some("execpolicy_rules=[\"say \\\"hi\\\"\",\"a\\\\b\",\"t\\tn\\nu\\u0001\"]")
    );
    state.finish_inline_list_command(&ListChange::AllowedTools(vec![]));
    assert_eq!(state.status.as_deref(), Some("allowed_tools=[]"));
}
