//! Scenarios made of sessions.
use steve::blocks::{AssistantPart, MessageBlock, ToolCall, ToolGroup, ToolGroupStatus};
use steve::export::{is_valid_scenario_name, SCENARIO_NAME_MAX_LEN};
use steve::message::{Message, Role};
use steve::scenario::{
    build_session_trace, collect_fixture_paths, collect_user_turns, is_fixture_candidate_tool,
    is_multi_path_read_summary, path_from_args_summary, strip_tail_suffix, UserTurnError,
};
use steve::tool::ToolName;

#[test]
fn collect_user_turns_filters_and_trims_normal_alternation() {
    // Plain alternating User/Assistant pattern with whitespace on
    // the user side. Asserts trim semantics; the alternation check
    // is exercised separately.
    let msgs = vec![
        Message::user("s", "  first  "),
        Message::assistant("s", "ignored"),
        Message::user("s", "second"),
        Message::assistant("s", "ignored"),
        Message::user("s", "third"),
    ];
    assert_eq!(
        collect_user_turns(&msgs).expect("alternation OK"),
        vec![
            "first".to_string(),
            "second".to_string(),
            "third".to_string()
        ]
    );
}

#[test]
fn collect_user_turns_rejects_consecutive_user_messages() {
    // Mid-stream interjection: a second User message arrives without
    // an intervening Assistant turn. Refuse rather than produce a scenario that replays with
    // different semantics.
    let msgs = vec![
        Message::user("s", "initial"),
        Message::assistant("s", "starts replying..."),
        Message::user("s", "wait actually"), // interjection mid-stream
        Message::user("s", "do this instead"),
    ];
    assert_eq!(
        collect_user_turns(&msgs),
        Err(UserTurnError::MidStreamInterjection)
    );
}

#[test]
fn collect_user_turns_consecutive_with_empty_text_still_rejected() {
    // An interjection with whitespace-only text would otherwise be
    // dropped, but the SECOND User message that follows it (without
    // an intervening Assistant) is still a consecutive-User signal.
    // Detection must fire regardless of text content.
    let msgs = vec![
        Message::user("s", "real first"),
        Message::assistant("s", "..."),
        Message::user("s", "   "), // empty interjection
        Message::user("s", "real second"),
    ];
    assert_eq!(
        collect_user_turns(&msgs),
        Err(UserTurnError::MidStreamInterjection)
    );
}

#[test]
fn collect_user_turns_allows_system_messages_between_turns() {
    // System messages are framework-injected (`/new` system block,
    // session-started notice, etc.) and must not break the
    // User/Assistant alternation invariant.
    let msgs = vec![
        Message::user("s", "hi"),
        Message {
            session_id: "s".into(),
            role: Role::System,
            text: "system note".into(),
        },
        Message::assistant("s", "hello"),
        Message::user("s", "next"),
    ];
    assert_eq!(
        collect_user_turns(&msgs).expect("system doesn't break turns"),
        vec!["hi".to_string(), "next".to_string()]
    );
}

#[test]
fn collect_fixture_paths_walks_ui_message_blocks() {
    let mk_call = |tool: ToolName, summary: &str, is_error: bool, completed: bool| ToolCall {
        call_id: "c".into(),
        tool_name: tool,
        args_summary: summary.into(),
        full_output: if completed { Some("ok".into()) } else { None },
        result_summary: None,
        diff_content: None,
        is_error,
        expanded: false,
        agent_progress: None,
    };
    let blocks = vec![
        MessageBlock::User { text: "hi".into() },
        MessageBlock::Assistant {
            thinking: None,
            parts: vec![AssistantPart::ToolGroup(ToolGroup {
                status: ToolGroupStatus::Complete,
                calls: vec![
                    mk_call(ToolName::Read, "src/main.rs", false, true),
                    mk_call(ToolName::Edit, "src/lib.rs", false, true),
                    // Errored: skip
                    mk_call(ToolName::Read, "missing.rs", true, true),
                    // Not completed (no full_output): skip
                    mk_call(ToolName::Read, "in-flight.rs", false, false),
                    // Non-candidate tool: skip
                    mk_call(ToolName::Bash, "ls", false, true),
                    // Absolute path: skip (validation)
                    mk_call(ToolName::Read, "/etc/passwd", false, true),
                    // .. component: skip (validation)
                    mk_call(ToolName::Read, "../secret.txt", false, true),
                    // ./ prefix: skip (validation)
                    mk_call(ToolName::Read, "./foo.rs", false, true),
                    // Read with count suffix: keep the prefix path
                    mk_call(ToolName::Read, "src/log.txt (count)", false, true),
                    // Read with tail suffix: keep the prefix path
                    mk_call(ToolName::Read, "src/log.txt (tail 50)", false, true),
                    // Read with paths array shape: skip (can't recover)
                    mk_call(ToolName::Read, "3 files", false, true),
                    // Duplicate of src/main.rs: dedup
                    mk_call(ToolName::Read, "src/main.rs", false, true),
                ],
            })],
        },
    ];
    let paths = collect_fixture_paths(&blocks);
    assert_eq!(
        paths,
        vec![
            "src/main.rs".to_string(),
            "src/lib.rs".to_string(),
            "src/log.txt".to_string(),
        ]
    );
}

#[test]
fn collect_fixture_paths_empty_when_no_assistant_tool_calls() {
    let blocks = vec![
        MessageBlock::User { text: "hi".into() },
        MessageBlock::System {
            text: "system note".into(),
        },
    ];
    assert!(collect_fixture_paths(&blocks).is_empty());
}

#[test]
fn path_from_args_summary_handles_read_variants() {
    // Simple path
    assert_eq!(
        path_from_args_summary(ToolName::Read, "src/main.rs"),
        Some("src/main.rs".to_string())
    );
    // Paths-array form "{n} files" → no recoverable path
    assert_eq!(path_from_args_summary(ToolName::Read, "3 files"), None);
    // Exact "(count)" suffix is stripped
    assert_eq!(
        path_from_args_summary(ToolName::Read, "src/log.txt (count)"),
        Some("src/log.txt".to_string())
    );
    // Exact "(tail N)" suffix is stripped
    assert_eq!(
        path_from_args_summary(ToolName::Read, "src/log.txt (tail 50)"),
        Some("src/log.txt".to_string())
    );
    // Empty
    assert_eq!(path_from_args_summary(ToolName::Read, ""), None);
}

#[test]
fn path_from_args_summary_preserves_filenames_containing_parens() {
    // Real filename containing " (...)" — NOT a (count)/(tail N) suffix.
    // Must pass through verbatim, not get truncated at the first " (".
    assert_eq!(
        path_from_args_summary(ToolName::Read, "docs/foo (draft).md"),
        Some("docs/foo (draft).md".to_string())
    );
    assert_eq!(
        path_from_args_summary(ToolName::Read, "data (2024) snapshot.json"),
        Some("data (2024) snapshot.json".to_string())
    );
    // Edit/Write/Patch also pass parens through verbatim — they only
    // ever see the raw `file_path` value.
    assert_eq!(
        path_from_args_summary(ToolName::Edit, "src/foo (bar).rs"),
        Some("src/foo (bar).rs".to_string())
    );
}

#[test]
fn path_from_args_summary_rejects_lookalike_tail_suffix() {
    // "(tail abc)" is NOT a real suffix shape — N must be all digits.
    // Such a string must be treated as a real filename, not stripped.
    assert_eq!(
        path_from_args_summary(ToolName::Read, "log.txt (tail abc)"),
        Some("log.txt (tail abc)".to_string())
    );
    // " (count anything)" is NOT a real suffix shape either.
    assert_eq!(
        path_from_args_summary(ToolName::Read, "log.txt (count please)"),
        Some("log.txt (count please)".to_string())
    );
}

#[test]
fn is_multi_path_read_summary_only_matches_digit_prefix() {
    assert!(is_multi_path_read_summary("3 files"));
    assert!(is_multi_path_read_summary("100 files"));
    assert!(!is_multi_path_read_summary("files"));
    assert!(!is_multi_path_read_summary(" files")); // empty digit prefix
    assert!(!is_multi_path_read_summary("3files"));
    assert!(!is_multi_path_read_summary("about-3 files")); // non-digit prefix
    assert!(!is_multi_path_read_summary("foo.txt"));
}

#[test]
fn strip_tail_suffix_requires_exact_shape() {
    assert_eq!(strip_tail_suffix("log.txt (tail 50)"), Some("log.txt".to_string()));
    assert_eq!(strip_tail_suffix("a (tail 1)"), Some("a".to_string()));
    // Empty path prefix → reject.
    assert_eq!(strip_tail_suffix(" (tail 50)"), None);
    // Empty digit run → reject.
    assert_eq!(strip_tail_suffix("log.txt (tail )"), None);
    // Non-digit N → reject.
    assert_eq!(strip_tail_suffix("log.txt (tail abc)"), None);
    // Missing closing paren → reject.
    assert_eq!(strip_tail_suffix("log.txt (tail 50"), None);
    // No "(tail " at all → reject.
    assert_eq!(strip_tail_suffix("log.txt"), None);
}

#[test]
fn path_from_args_summary_handles_write_class_tools() {
    for tool in [ToolName::Edit, ToolName::Write, ToolName::Patch] {
        assert_eq!(
            path_from_args_summary(tool, "src/main.rs"),
            Some("src/main.rs".to_string())
        );
        assert_eq!(path_from_args_summary(tool, ""), None);
    }
}

#[test]
fn is_fixture_candidate_tool_is_exhaustive() {
    for tool in ToolName::all() {
        let is_candidate = is_fixture_candidate_tool(tool);
        if matches!(
            tool,
            ToolName::Read | ToolName::Edit | ToolName::Write | ToolName::Patch
        ) {
            assert!(is_candidate, "{tool:?} should be a fixture candidate");
        } else {
            assert!(!is_candidate, "{tool:?} should NOT be a fixture candidate");
        }
    }
}

#[test]
fn build_session_trace_renders_turns_with_tool_calls_and_final_message() {
    let blocks = vec![
        MessageBlock::User {
            text: "look at the report and tell me Q3 revenue".into(),
        },
        MessageBlock::Assistant {
            thinking: None,
            parts: vec![
                AssistantPart::ToolGroup(ToolGroup {
                    status: ToolGroupStatus::Complete,
                    calls: vec![ToolCall {
                        call_id: "c".into(),
                        tool_name: ToolName::Read,
                        args_summary: "report.txt".into(),
                        full_output: Some("Q1 revenue: $10,000\nQ3 revenue: $42,331".into()),
                        result_summary: None,
                        diff_content: None,
                        is_error: false,
                        expanded: false,
                        agent_progress: None,
                    }],
                }),
                AssistantPart::Text("The Q3 revenue was $42,331.".into()),
            ],
        },
    ];
    let trace = build_session_trace(&blocks);
    assert!(trace.starts_with("# Session trace"));
    assert!(trace.contains("## Turn 1"));
    assert!(trace.contains("**User:**"));
    assert!(trace.contains("> look at the report"));
    assert!(trace.contains("**Tool calls:**"));
    assert!(trace.contains("`read`"));
    assert!(trace.contains("`report.txt`"));
    assert!(trace.contains("Q3 revenue: $42,331"));
    assert!(trace.contains("**Assistant:**"));
    assert!(trace.contains("> The Q3 revenue was $42,331."));
}

#[test]
fn build_session_trace_truncates_long_tool_output() {
    let output: String = (1..=50).map(|i| format!("line {i}\n")).collect();
    let blocks = vec![
        MessageBlock::User { text: "hi".into() },
        MessageBlock::Assistant {
            thinking: None,
            parts: vec![AssistantPart::ToolGroup(ToolGroup {
                status: ToolGroupStatus::Complete,
                calls: vec![ToolCall {
                    call_id: "c".into(),
                    tool_name: ToolName::Read,
                    args_summary: "big.txt".into(),
                    full_output: Some(output),
                    result_summary: None,
                    diff_content: None,
                    is_error: false,
                    expanded: false,
                    agent_progress: None,
                }],
            })],
        },
    ];
    let trace = build_session_trace(&blocks);
    assert!(trace.contains("line 1"));
    assert!(trace.contains("line 20"));
    assert!(!trace.contains("line 21"));
    assert!(trace.contains("... (30 more lines)"));
}

#[test]
fn build_session_trace_marks_errored_tool_calls() {
    let blocks = vec![
        MessageBlock::User { text: "hi".into() },
        MessageBlock::Assistant {
            thinking: None,
            parts: vec![AssistantPart::ToolGroup(ToolGroup {
                status: ToolGroupStatus::Complete,
                calls: vec![ToolCall {
                    call_id: "c".into(),
                    tool_name: ToolName::Read,
                    args_summary: "missing.txt".into(),
                    full_output: Some("Error: not found".into()),
                    result_summary: None,
                    diff_content: None,
                    is_error: true,
                    expanded: false,
                    agent_progress: None,
                }],
            })],
        },
    ];
    let trace = build_session_trace(&blocks);
    assert!(trace.contains("[ERROR]"));
}

#[test]
fn build_session_trace_skips_system_and_other_block_kinds() {
    // System / Error / Permission / Question blocks are framework
    // chatter and must NOT show up in the trace.
    let blocks = vec![
        MessageBlock::System {
            text: "session started".into(),
        },
        MessageBlock::User { text: "hi".into() },
        MessageBlock::Error {
            text: "some error".into(),
        },
        MessageBlock::Permission {
            tool_name: "bash".into(),
            args_summary: "rm -rf /".into(),
            diff_content: None,
        },
    ];
    let trace = build_session_trace(&blocks);
    assert!(!trace.contains("session started"));
    assert!(!trace.contains("some error"));
    assert!(!trace.contains("rm -rf"));
    assert!(trace.contains("**User:**"));
}

#[test]
fn is_valid_scenario_name_accepts_canonical_slugs() {
    assert!(is_valid_scenario_name("recover-after-edit"));
    assert!(is_valid_scenario_name("a"));
    assert!(is_valid_scenario_name("scenario-1"));
    assert!(is_valid_scenario_name("0-leading-digit-ok"));
    // Leading underscore is intentional — matches the convention of
    // `_smoke` and `_judge-smoke` under eval/scenarios/.
    assert!(is_valid_scenario_name("_smoke"));
    assert!(is_valid_scenario_name("_judge-smoke"));
}

#[test]
fn is_valid_scenario_name_rejects_bad_slugs() {
    assert!(!is_valid_scenario_name(""));
    assert!(!is_valid_scenario_name("-leading-hyphen"));
    assert!(!is_valid_scenario_name("Capital"));
    assert!(!is_valid_scenario_name("has space"));
    assert!(!is_valid_scenario_name("has/slash"));
    // Underscores are NOT allowed in the body, only as the first char.
    assert!(!is_valid_scenario_name("has_underscore"));
    assert!(!is_valid_scenario_name("_has_underscore_inside"));
    assert!(!is_valid_scenario_name("has.dot"));
    assert!(!is_valid_scenario_name(".."));
    assert!(!is_valid_scenario_name("emoji-\u{1f600}"));
    // Bare "_" is rejected — a literal underscore directory is
    // visually confusing alongside the `_smoke` convention.
    assert!(!is_valid_scenario_name("_"));
    // Too long: NAME_MAX is 255 on ext4/APFS but 64 is a sane
    // human-readable cap that catches copy-paste accidents.
    let too_long = "a".repeat(SCENARIO_NAME_MAX_LEN + 1);
    assert!(!is_valid_scenario_name(&too_long));
    // Exactly the max length is accepted.
    let max_len = "a".repeat(SCENARIO_NAME_MAX_LEN);
    assert!(is_valid_scenario_name(&max_len));
}

fn user(text: &str) -> MessageBlock {
    MessageBlock::User { text: text.to_string() }
}

fn assistant(text: &str) -> MessageBlock {
    let parts = vec![AssistantPart::Text(text.to_string())];
    MessageBlock::Assistant { thinking: None, parts }
}

fn system(text: &str) -> MessageBlock {
    MessageBlock::System { text: text.to_string() }
}

#[test]
fn a_trace_only_grows() {
    let early = build_session_trace(&vec![assistant("hi"), user("one"), assistant("two")]);
    let late =
        build_session_trace(&vec![assistant("hi"), user("one"), assistant("two"), user("three")]);
    assert!(late.starts_with(&early));
    assert!(late.len() > early.len());
}

#[test]
fn only_spoken_blocks_are_traced() {
    let all = vec![
        system("a"),
        user("one"),
        system("b"),
        MessageBlock::Error { text: "c".to_string() },
        assistant("two"),
        system("d"),
    ];
    assert_eq!(
        build_session_trace(&all),
        build_session_trace(&vec![user("one"), assistant("two")])
    );
}
