//! The smaller pieces on exact values.
use steve::clipboard::{clipboard_sequence, osc52};
use steve::fixtures::{caller, foo_bar, Connection};
use steve::json::Json;
use steve::providers::{ModelConfig, ProviderEntry, ProviderError, ProviderRegistry};
use steve::scenario::{
    collect_fixture_paths, emit_quoted, path_from_args_summary, truncate_trace_output,
};
use steve::sidebar::count_diff_lines;
use steve::startup::{lsp_notice, mcp_notice, restart_notice, LanguageStatus};
use steve::state::MessageAreaState;
use steve::text::{
    byte_count, clipped, cut_bytes, decimal_text, is_space_char, parse_number, split_lines,
    split_words, trimmed,
};
use steve::tool::{ToolName, ToolOutput};
use steve::tool_display::{
    extract_args_summary, extract_result_summary, has_span_that_fits, DiffContent, DiffLine,
};

fn object(members: Vec<(&str, Json)>) -> Json {
    Json::Object(members.into_iter().map(|(k, v)| (k.to_string(), v)).collect())
}

fn text(s: &str) -> Json {
    Json::Str(s.to_string())
}

#[test]
fn text_goes_to_the_clipboard_in_base64() {
    assert_eq!(clipboard_sequence("hello"), "\x1b]52;c;aGVsbG8=\x07");
    assert_eq!(clipboard_sequence("é?>"), "\x1b]52;c;w6k/Pg==\x07");
    assert_eq!(osc52("YQ=="), "\x1b]52;c;YQ==\x07");
}

#[test]
fn every_space_is_known() {
    for n in 0..=0x10FFFFu32 {
        if let Some(c) = char::from_u32(n) {
            assert_eq!(is_space_char(c), c.is_whitespace(), "{n:x}");
        }
    }
}

#[test]
fn texts_split_as_the_language_does() {
    for s in ["", "a", "a\n", "a\r\nb", "\n\n", "a\nb\n\nc", " a  b\tc\u{3000}d ", "\r\n"] {
        let lines: Vec<String> = s.lines().map(|l| l.to_string()).collect();
        assert_eq!(split_lines(s), lines);
        let words: Vec<String> = s.split_whitespace().map(|w| w.to_string()).collect();
        assert_eq!(split_words(s), words);
        assert_eq!(trimmed(s), s.trim());
        assert_eq!(byte_count(s), s.len() as u128);
    }
}

#[test]
fn numbers_are_read_and_written() {
    for n in [0u64, 7, 10, 99, 1_000_000, u64::MAX] {
        assert_eq!(decimal_text(n), n.to_string());
    }
    assert_eq!(parse_number("+5"), None);
    for s in ["", "0", "007", "-1", "12x", "18446744073709551615", "18446744073709551616"] {
        assert_eq!(parse_number(s), s.parse::<usize>().ok(), "{s}");
    }
}

#[test]
fn long_texts_are_cut() {
    assert_eq!(clipped("abcdef", 5, 2), "ab...");
    assert_eq!(clipped("abcde", 5, 2), "abcde");
    assert_eq!(cut_bytes("aéb", 2), "a");
    assert_eq!(cut_bytes("aéb", 3), "aé");
}

#[test]
fn summaries_of_results_have_a_limit() {
    let output = |s: String| ToolOutput { title: String::new(), output: s, is_error: false };
    let short = output("y".repeat(80));
    assert_eq!(extract_result_summary(ToolName::Read, &short), "y".repeat(80));
    let long = output("y".repeat(81));
    assert_eq!(extract_result_summary(ToolName::Read, &long), format!("{}...", "y".repeat(77)));
}

#[test]
fn summaries_of_calls_name_what_matters() {
    let tail = object(vec![("path", text("log.txt")), ("tail", Json::UInt(50))]);
    assert_eq!(extract_args_summary(ToolName::Read, &tail), "log.txt (tail 50)");
    let count = object(vec![("path", text("log.txt")), ("count", Json::Bool(true))]);
    assert_eq!(extract_args_summary(ToolName::Read, &count), "log.txt (count)");
    let many = object(vec![("paths", Json::Array(vec![text("a"), text("b"), text("c")]))]);
    assert_eq!(extract_args_summary(ToolName::Read, &many), "3 files");
    let moved = object(vec![("from_path", text("a")), ("to_path", text("b"))]);
    assert_eq!(extract_args_summary(ToolName::Move, &moved), "a \u{2192} b");
    let scope = object(vec![
        ("path", text("a.rs")),
        ("operation", text("find_scope")),
        ("line", Json::UInt(7)),
    ]);
    assert_eq!(extract_args_summary(ToolName::Symbols, &scope), "a.rs scope@7");
    let hover =
        object(vec![("path", text("a.rs")), ("operation", text("hover")), ("line", Json::UInt(3))]);
    assert_eq!(extract_args_summary(ToolName::Lsp, &hover), "a.rs hover@3");
    let agent = object(vec![("task", text("look around"))]);
    assert_eq!(extract_args_summary(ToolName::Agent, &agent), "explore: look around");
}

#[test]
fn a_path_comes_back_from_its_summary() {
    let tail = object(vec![("path", text("log.txt")), ("tail", Json::UInt(50))]);
    let summary = extract_args_summary(ToolName::Read, &tail);
    assert_eq!(path_from_args_summary(ToolName::Read, &summary), Some("log.txt".to_string()));
    let many = object(vec![("paths", Json::Array(vec![text("a"), text("b"), text("c")]))]);
    let several = extract_args_summary(ToolName::Read, &many);
    assert_eq!(path_from_args_summary(ToolName::Read, &several), None);
    assert!(collect_fixture_paths(&Vec::new()).is_empty());
}

#[test]
fn spans_that_overflow_are_noticed() {
    let span = |start, end| {
        object(vec![
            ("operation", text("delete_lines")),
            ("start_line", Json::UInt(start)),
            ("end_line", Json::UInt(end)),
        ])
    };
    assert!(has_span_that_fits(&span(3, 7)));
    assert!(!has_span_that_fits(&span(0, u64::MAX)));
}

#[test]
fn tools_are_found_by_their_names() {
    let all = ToolName::all();
    assert_eq!(all.len(), 19);
    for tool in all {
        assert_eq!(ToolName::from_name(tool.as_str()), Some(tool));
    }
    assert_eq!(ToolName::from_name("Bash"), None);
    assert!(ToolName::Patch.is_write_tool());
    assert!(!ToolName::Read.is_write_tool());
}

#[test]
fn models_that_are_not_there_are_explained() {
    let registry = ProviderRegistry {
        providers: vec![
            ProviderEntry {
                id: "up".to_string(),
                models: vec![ModelConfig {
                    key: "a/b".to_string(),
                    id: "api-id".to_string(),
                    name: "Model".to_string(),
                    context_window: 9,
                }],
                connected: true,
            },
            ProviderEntry { id: "down".to_string(), models: Vec::new(), connected: false },
        ],
    };
    let resolved = registry.resolve_model("up/a/b").unwrap();
    assert_eq!(resolved.provider_id, "up");
    assert_eq!(resolved.model_id, "a/b");
    assert_eq!(resolved.api_model_id, "api-id");
    assert_eq!(resolved.context_window, 9);
    assert_eq!(registry.resolve_model("up"), Err(ProviderError::MalformedReference));
    assert_eq!(registry.resolve_model("no/x"), Err(ProviderError::UnknownProvider));
    assert_eq!(registry.resolve_model("up/x"), Err(ProviderError::UnknownModel));
    assert_eq!(registry.client("up"), Ok(()));
    assert_eq!(registry.client("down"), Err(ProviderError::NoClient));
    assert_eq!(registry.list_models(), vec![("up/a/b".to_string(), "Model".to_string())]);
}

#[test]
fn quotes_and_cuts_in_a_trace() {
    let mut out = String::new();
    emit_quoted(&mut out, "one\n\ntwo");
    assert!(out.contains("> one\n"));
    assert!(out.contains("> two\n"));
    assert_eq!(truncate_trace_output("a\nb", 2), "a\nb");
    assert!(truncate_trace_output("a\nb\nc", 2).contains("... (1 more lines)"));
}

#[test]
fn changed_lines_are_counted() {
    let diff = DiffContent::PatchDiff {
        lines: vec![
            DiffLine::HunkHeader("@@".to_string()),
            DiffLine::Addition("a".to_string()),
            DiffLine::Addition("b".to_string()),
            DiffLine::Removal("c".to_string()),
            DiffLine::Context("d".to_string()),
        ],
    };
    assert_eq!(count_diff_lines(&diff), (2, 1));
    assert_eq!(count_diff_lines(&DiffContent::WriteSummary { line_count: 4 }), (4, 0));
}

#[test]
fn servers_that_started_are_announced() {
    let status = |language: &str, running| LanguageStatus { language: language.to_string(), running };
    let some = vec![status("rust", true), status("go", false), status("yaml", true)];
    assert_eq!(lsp_notice(&some), Some("LSP servers started: rust, yaml".to_string()));
    assert_eq!(lsp_notice(&vec![status("go", false)]), None);
    assert_eq!(
        mcp_notice(&vec!["a (2 tools)".to_string()]),
        Some("MCP servers started: a (2 tools)".to_string())
    );
    assert_eq!(mcp_notice(&Vec::new()), None);
    assert_eq!(restart_notice("yaml"), "LSP yaml server restarted successfully");
}

#[test]
fn scrolling_back_and_forth_ends_where_it_began() {
    let mut area = MessageAreaState::default();
    area.update_dimensions(50, 10);
    area.scroll_to_bottom();
    assert_eq!(area.scroll_offset, 40);
    area.scroll_up(15);
    area.scroll_down(15);
    assert_eq!(area.scroll_offset, 40);
    area.scroll_up(1_000);
    assert_eq!(area.scroll_offset, 0);
    area.scroll_down(1_000);
    assert_eq!(area.scroll_offset, 40);
}

#[test]
fn fixtures_do_what_they_say() {
    let c = Connection::new("localhost".to_string(), 5432);
    assert_eq!((c.host.as_str(), c.port), ("localhost", 5432));
    assert_eq!(foo_bar(10), 20);
    assert_eq!(caller(), 10);
    for x in [i32::MIN, i32::MIN / 2 - 1, i32::MIN / 2, -1, 0, i32::MAX / 2, i32::MAX / 2 + 1, i32::MAX] {
        assert_eq!(foo_bar(x), x.saturating_mul(2));
    }
}
