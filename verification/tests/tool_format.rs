use omne_tui::json::{JsonNumber, JsonValue};
use omne_tui::tool_format::{
    extract_primary_tool_text, extract_shell_command, format_argv, format_artifact_write,
    format_cwd_display, format_file_action, format_file_grep, format_fs_mkdir, format_mcp_call,
    format_path_with_root, format_process_started_line, format_shell_arg, format_tool_result_line,
    format_tool_started_line, is_denied, is_shell_wrapper, normalize_agent_tool_name, param_bool,
    param_str, root_tag, should_suppress_tool_completed, should_suppress_tool_started,
    summarize_tool_kv, summarize_tool_value, tool_meta_brief, truncate_multiline_output,
    truncate_tool_text, usage_cache_input_tokens, usage_input_tokens, usage_output_tokens,
    usage_total_tokens,
};

fn s(v: &str) -> JsonValue {
    JsonValue::String(v.to_string())
}

fn n(v: u64) -> JsonValue {
    JsonValue::Number(JsonNumber { text: v.to_string(), as_u64: Some(v), as_i64: Some(v as i64) })
}

fn i(v: i64) -> JsonValue {
    JsonValue::Number(JsonNumber {
        text: v.to_string(),
        as_u64: if v >= 0 { Some(v as u64) } else { None },
        as_i64: Some(v),
    })
}

fn obj(entries: Vec<(&str, JsonValue)>) -> JsonValue {
    JsonValue::Object(entries.into_iter().map(|(k, v)| (k.to_string(), v)).collect())
}

fn strings(v: &[&str]) -> Vec<String> {
    v.iter().map(|x| x.to_string()).collect()
}

#[test]
fn is_denied_reads_the_denied_flag() {
    assert!(is_denied(&obj(vec![("denied", JsonValue::Bool(true))])));
    assert!(!is_denied(&obj(vec![("denied", JsonValue::Bool(false))])));
    assert!(!is_denied(&obj(vec![("denied", s("true"))])));
    assert!(!is_denied(&JsonValue::Null));
}

#[test]
fn summarize_tool_value_covers_each_kind() {
    assert_eq!(summarize_tool_value(&JsonValue::Null), None);
    assert_eq!(summarize_tool_value(&JsonValue::Bool(true)), Some("true".to_string()));
    assert_eq!(summarize_tool_value(&n(42)), Some("42".to_string()));
    assert_eq!(summarize_tool_value(&s("  a \n b ")), Some("a b".to_string()));
    assert_eq!(summarize_tool_value(&s("   ")), Some("-".to_string()));
    assert_eq!(summarize_tool_value(&JsonValue::Array(vec![n(1), n(2)])), Some("[2]".to_string()));
    assert_eq!(summarize_tool_value(&obj(vec![("a", n(1))])), Some("{1}".to_string()));
}

#[test]
fn truncate_tool_text_caps_at_120_characters() {
    let long = "x".repeat(130);
    let out = truncate_tool_text(&long);
    assert_eq!(out.chars().count(), 121);
    assert!(out.ends_with('…'));
    assert_eq!(truncate_tool_text("short"), "short");
    let exact = "y".repeat(120);
    assert_eq!(truncate_tool_text(&exact), exact);
}

#[test]
fn summarize_tool_kv_lists_at_most_six_entries() {
    let v = obj(vec![("path", s("src/main.rs")), ("lines", n(10)), ("x", JsonValue::Null)]);
    assert_eq!(summarize_tool_kv(&v), "[path=src/main.rs, lines=10]");
    let many = obj(vec![
        ("a", n(1)),
        ("b", n(2)),
        ("c", n(3)),
        ("d", n(4)),
        ("e", n(5)),
        ("f", n(6)),
        ("g", n(7)),
    ]);
    assert_eq!(summarize_tool_kv(&many), "[a=1, b=2, c=3, d=4, e=5, f=6]");
    assert_eq!(summarize_tool_kv(&obj(vec![("x", JsonValue::Null)])), "");
    assert_eq!(summarize_tool_kv(&n(5)), "5");
    assert_eq!(summarize_tool_kv(&JsonValue::Null), "");
}

#[test]
fn normalize_agent_tool_name_splits_at_the_first_underscore() {
    assert_eq!(normalize_agent_tool_name("file_read"), "file/read");
    assert_eq!(normalize_agent_tool_name("file/read"), "file/read");
    assert_eq!(normalize_agent_tool_name("shell"), "shell");
    assert_eq!(normalize_agent_tool_name("file_"), "file_");
    assert_eq!(normalize_agent_tool_name("a_b_c"), "a/b_c");
}

#[test]
fn truncate_multiline_output_limits_lines_and_characters() {
    assert_eq!(truncate_multiline_output("a\nb\nc\n", 2, 100), "a\nb\n…");
    assert_eq!(truncate_multiline_output("abcdef", 5, 3), "abc…");
    assert_eq!(truncate_multiline_output("", 3, 3), "");
    assert_eq!(truncate_multiline_output("a\nb", 0, 0), "a\n…");
    assert_eq!(truncate_multiline_output("ab\ncd\n\n", 10, 100), "ab\ncd");
    // The line break counts toward the budget.
    assert_eq!(truncate_multiline_output("ab\ncd", 10, 3), "ab\n…");
}

#[test]
fn extract_primary_tool_text_prefers_text_then_streams_then_fallbacks() {
    assert_eq!(extract_primary_tool_text(&s("  ")), None);
    assert_eq!(extract_primary_tool_text(&s("hi")), Some("hi".to_string()));
    assert_eq!(extract_primary_tool_text(&obj(vec![("text", s(""))])), Some("".to_string()));
    let streams = obj(vec![("stdout", s("out\n")), ("stderr", s("err  "))]);
    assert_eq!(extract_primary_tool_text(&streams), Some("out\n\n[stderr]\nerr".to_string()));
    let tails = obj(vec![("stdout_tail", s("tail")), ("stderr", s(" "))]);
    assert_eq!(extract_primary_tool_text(&tails), Some("tail".to_string()));
    let blank = obj(vec![("stdout", s("  ")), ("output", s("o"))]);
    assert_eq!(extract_primary_tool_text(&blank), None);
    let fallback = obj(vec![("output", s("  ")), ("content", s("c"))]);
    assert_eq!(extract_primary_tool_text(&fallback), Some("c".to_string()));
    assert_eq!(extract_primary_tool_text(&n(3)), None);
}

#[test]
fn tool_meta_brief_lists_the_facts_present() {
    let v = obj(vec![
        ("process_id", s(" p1 ")),
        ("exit_code", i(-2)),
        ("truncated", JsonValue::Bool(true)),
        ("path", s("a.txt")),
    ]);
    assert_eq!(tool_meta_brief(&v), " [process_id=p1, path=a.txt, exit_code=-2, truncated=true]");
    let resolved = obj(vec![("path", s("a")), ("resolved_path", s("/abs/a")), ("denied", JsonValue::Bool(true))]);
    assert_eq!(tool_meta_brief(&resolved), " [path=/abs/a, denied=true]");
    assert_eq!(tool_meta_brief(&obj(vec![])), "");
    assert_eq!(tool_meta_brief(&s("x")), "");
}

#[test]
fn tool_started_lines_for_known_tools() {
    let p = obj(vec![("path", s(" a.rs ")), ("root", s("reference"))]);
    assert_eq!(format_tool_started_line("file/read", Some(&p)).as_deref(), Some("read ref:a.rs"));
    let g = obj(vec![("pattern", s("*.rs")), ("root", s("reference"))]);
    assert_eq!(format_tool_started_line("file/glob", Some(&g)).as_deref(), Some("glob \"*.rs\" (ref)"));
    let q = obj(vec![("query", s("todo")), ("include_glob", s("*.md"))]);
    assert_eq!(format_file_grep(Some(&q)).as_deref(), Some("grep \"todo\" in *.md"));
    assert_eq!(format_tool_started_line("repo/index", None).as_deref(), Some("repo index"));
    let m = obj(vec![("path", s("d")), ("recursive", JsonValue::Bool(true))]);
    assert_eq!(format_fs_mkdir(Some(&m)).as_deref(), Some("mkdir -p d"));
    assert_eq!(format_tool_started_line("mcp/call", None).as_deref(), Some("mcp -.-"));
    let c = obj(vec![("server", s("gh")), ("tool", s("search"))]);
    assert_eq!(format_mcp_call(Some(&c)).as_deref(), Some("mcp gh.search"));
    assert_eq!(format_tool_started_line("artifact/list", None).as_deref(), Some("artifact list"));
    let k = obj(vec![("process_id", s("p9"))]);
    assert_eq!(format_tool_started_line("process/kill", Some(&k)).as_deref(), Some("kill p9"));
}

#[test]
fn tool_started_lines_fall_back_to_a_summary() {
    let p = obj(vec![("x", n(1))]);
    assert_eq!(format_tool_started_line("custom/tool", Some(&p)).as_deref(), Some("custom/tool [x=1]"));
    // A known tool missing its parameter falls back too.
    assert_eq!(format_tool_started_line("file/read", Some(&obj(vec![]))).as_deref(), Some("file/read"));
    assert_eq!(format_tool_started_line("custom/tool", None).as_deref(), Some("custom/tool"));
}

#[test]
fn artifact_write_line_adds_type_and_quoted_summary() {
    let p = obj(vec![("artifact_type", s("report")), ("summary", s(" weekly "))]);
    assert_eq!(format_artifact_write(Some(&p)).as_deref(), Some("artifact write report \"weekly\""));
    assert_eq!(format_artifact_write(None).as_deref(), Some("artifact write"));
}

#[test]
fn tool_result_lines_skip_process_tools_and_blank_summaries() {
    let r = obj(vec![("bytes", n(3))]);
    assert_eq!(format_tool_result_line("file/read", &r).as_deref(), Some("file/read → [bytes=3]"));
    assert_eq!(format_tool_result_line("process/tail", &r), None);
    assert_eq!(format_tool_result_line("process/start", &r), None);
    assert_eq!(format_tool_result_line("file/read", &obj(vec![])), None);
}

#[test]
fn suppression_lists() {
    assert!(should_suppress_tool_started("process/start"));
    assert!(!should_suppress_tool_completed("process/start"));
    assert!(should_suppress_tool_completed("process/follow"));
    assert!(!should_suppress_tool_started("file/read"));
}

#[test]
fn shell_words_are_quoted_only_when_needed() {
    assert_eq!(format_shell_arg(""), "\"\"");
    assert_eq!(format_shell_arg("ls"), "ls");
    assert_eq!(format_shell_arg("a/b-c_d.e:f"), "a/b-c_d.e:f");
    assert_eq!(format_shell_arg("a b"), "\"a b\"");
    assert_eq!(format_shell_arg("say \"hi\""), "\"say \\\"hi\\\"\"");
    assert_eq!(format_argv(&strings(&["ls", "-la", "a b"])), "ls -la \"a b\"");
    assert_eq!(format_argv(&[]), "");
}

#[test]
fn shell_commands_are_unwrapped() {
    assert!(is_shell_wrapper("/bin/zsh"));
    assert!(!is_shell_wrapper("fish"));
    assert_eq!(extract_shell_command(&strings(&["bash", "-lc", " echo hi "])), Some("echo hi".to_string()));
    assert_eq!(extract_shell_command(&strings(&["/usr/bin/env", "zsh", "-lc", "x"])), Some("x".to_string()));
    assert_eq!(extract_shell_command(&strings(&["bash", "-lc", "  "])), None);
    assert_eq!(extract_shell_command(&strings(&["ls"])), None);
}

#[test]
fn cwd_and_process_lines() {
    assert_eq!(format_cwd_display(" /tmp ", Some("/home")), Some("/tmp".to_string()));
    assert_eq!(format_cwd_display(".", None), None);
    assert_eq!(format_cwd_display("/a", Some(" /a ")), None);
    assert_eq!(
        format_process_started_line(&strings(&["bash", "-lc", "make"]), "/w", Some("/x")),
        Some("$ make (cwd=/w)".to_string())
    );
    assert_eq!(
        format_process_started_line(&strings(&["cargo", "test"]), "", None),
        Some("$ cargo test".to_string())
    );
    assert_eq!(format_process_started_line(&[], "/w", None), None);
}

#[test]
fn parameters_and_roots() {
    let p = obj(vec![("a", s("  v ")), ("b", s("   ")), ("c", JsonValue::Bool(true))]);
    assert_eq!(param_str(Some(&p), "a"), Some("v".to_string()));
    assert_eq!(param_str(Some(&p), "b"), None);
    assert_eq!(param_str(Some(&p), "c"), None);
    assert_eq!(param_str(None, "a"), None);
    assert_eq!(param_bool(Some(&p), "c"), Some(true));
    assert_eq!(param_bool(Some(&p), "a"), None);
    assert_eq!(root_tag(Some("reference")), Some("ref"));
    assert_eq!(root_tag(Some("workspace")), None);
    assert_eq!(format_path_with_root(Some("reference"), "x"), "ref:x");
    assert_eq!(format_path_with_root(None, "x"), "x");
    let f = obj(vec![("path", s("p"))]);
    assert_eq!(format_file_action("edit", Some(&f)).as_deref(), Some("edit p"));
}

#[test]
fn usage_token_counts() {
    let u = obj(vec![("prompt_tokens", n(3)), ("completion_tokens", n(4))]);
    assert_eq!(usage_input_tokens(&u), Some(3));
    assert_eq!(usage_output_tokens(&u), Some(4));
    assert_eq!(usage_total_tokens(&u), Some(7));
    let t = obj(vec![("total_tokens", n(10)), ("input_tokens", n(1))]);
    assert_eq!(usage_total_tokens(&t), Some(10));
    assert_eq!(usage_output_tokens(&t), None);
    assert_eq!(usage_total_tokens(&obj(vec![("input_tokens", n(1))])), None);
    let big = obj(vec![("input_tokens", n(u64::MAX)), ("output_tokens", n(5))]);
    assert_eq!(usage_total_tokens(&big), Some(u64::MAX));
    let c = obj(vec![("input_tokens_details", obj(vec![("cached_tokens", n(5))]))]);
    assert_eq!(usage_cache_input_tokens(&c), Some(5));
    let c2 = obj(vec![("cache_input_tokens", n(2)), ("prompt_tokens_details", obj(vec![("cached_tokens", n(5))]))]);
    assert_eq!(usage_cache_input_tokens(&c2), Some(2));
    // A present but non-numeric `input_tokens` hides `prompt_tokens`.
    let odd = obj(vec![("input_tokens", s("x")), ("prompt_tokens", n(9))]);
    assert_eq!(usage_input_tokens(&odd), None);
}
