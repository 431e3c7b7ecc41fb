//! What is shown of tool calls.
use steve::json::Json;
use steve::tool::ToolName;
use steve::tool_display::{
    extract_args_summary, extract_diff_content, parse_unified_diff_lines, DiffContent,
    DiffLine,
};

fn object(members: Vec<(&str, Json)>) -> Json {
    Json::Object(members.into_iter().map(|(k, v)| (k.to_string(), v)).collect())
}

fn text(s: &str) -> Json {
    Json::Str(s.to_string())
}

fn number(n: u64) -> Json {
    Json::UInt(n)
}

#[test]
fn app_extract_args_summary_read_path() {
    let args = object(vec![("path", text("src/main.rs"))]);
    assert_eq!(extract_args_summary(ToolName::Read, &args), "src/main.rs");
}

#[test]
fn app_extract_args_summary_list_path() {
    let args = object(vec![("path", text("/tmp/dir"))]);
    assert_eq!(extract_args_summary(ToolName::List, &args), "/tmp/dir");
}

#[test]
fn app_extract_args_summary_grep_pattern() {
    let args = object(vec![("pattern", text("fn main"))]);
    assert_eq!(extract_args_summary(ToolName::Grep, &args), "fn main");
}

#[test]
fn app_extract_args_summary_glob_pattern() {
    let args = object(vec![("pattern", text("**/*.rs"))]);
    assert_eq!(extract_args_summary(ToolName::Glob, &args), "**/*.rs");
}

#[test]
fn app_extract_args_summary_edit_path() {
    let args = object(vec![("file_path", text("src/lib.rs")), ("old_string", text("x")), ("new_string", text("y"))]);
    assert_eq!(extract_args_summary(ToolName::Edit, &args), "src/lib.rs");
}

#[test]
fn app_extract_args_summary_write_path() {
    let args = object(vec![("file_path", text("new_file.txt")), ("content", text("hello"))]);
    assert_eq!(extract_args_summary(ToolName::Write, &args), "new_file.txt");
}

#[test]
fn app_extract_args_summary_patch_path() {
    let args = object(vec![("file_path", text("src/app.rs")), ("diff", text("..."))]);
    assert_eq!(extract_args_summary(ToolName::Patch, &args), "src/app.rs");
}

#[test]
fn app_extract_args_summary_bash_short_command() {
    let args = object(vec![("command", text("ls -la"))]);
    assert_eq!(extract_args_summary(ToolName::Bash, &args), "ls -la");
}

#[test]
fn app_extract_args_summary_bash_long_command_truncates() {
    let long_cmd = "a".repeat(50);
    let args = object(vec![("command", text(&long_cmd))]);
    let result = extract_args_summary(ToolName::Bash, &args);
    assert_eq!(result.chars().count(), 40); // 37 + "..."
    assert!(result.ends_with("..."));
}

#[test]
fn app_extract_args_summary_bash_exactly_40_chars() {
    let cmd = "a".repeat(40);
    let args = object(vec![("command", text(&cmd))]);
    let result = extract_args_summary(ToolName::Bash, &args);
    assert_eq!(result.chars().count(), 40);
    assert!(!result.ends_with("..."));
}

#[test]
fn app_extract_args_summary_question_short() {
    let args = object(vec![("question", text("What is this?"))]);
    assert_eq!(
        extract_args_summary(ToolName::Question, &args),
        "What is this?"
    );
}

#[test]
fn app_extract_args_summary_question_long_truncates() {
    let long_text = "a".repeat(40);
    let args = object(vec![("question", text(&long_text))]);
    let result = extract_args_summary(ToolName::Question, &args);
    assert_eq!(result.chars().count(), 30); // 27 + "..."
    assert!(result.ends_with("..."));
}

#[test]
fn app_extract_args_summary_task_returns_action() {
    let args = object(vec![("action", text("create")), ("title", text("something"))]);
    assert_eq!(extract_args_summary(ToolName::Task, &args), "create");
}

#[test]
fn app_extract_args_summary_webfetch_url() {
    let args = object(vec![("url", text("https://example.com"))]);
    assert_eq!(
        extract_args_summary(ToolName::Webfetch, &args),
        "https://example.com"
    );
}

#[test]
fn app_extract_args_summary_missing_field_returns_empty() {
    let args = object(vec![]);
    assert_eq!(extract_args_summary(ToolName::Read, &args), "");
    assert_eq!(extract_args_summary(ToolName::Grep, &args), "");
    assert_eq!(extract_args_summary(ToolName::Edit, &args), "");
    assert_eq!(extract_args_summary(ToolName::Bash, &args), "");
    assert_eq!(extract_args_summary(ToolName::Question, &args), "");
    assert_eq!(extract_args_summary(ToolName::Webfetch, &args), "");
    assert_eq!(extract_args_summary(ToolName::Memory, &args), "");
}

#[test]
fn app_extract_args_summary_all_variants_covered() {
    // Ensure every ToolName variant is handled (exhaustive match).
    // This test will fail to compile if a new variant is added without
    // updating extract_args_summary.
    let args = object(vec![]);
    let all_tools = [
        ToolName::Read,
        ToolName::Grep,
        ToolName::Glob,
        ToolName::List,
        ToolName::Edit,
        ToolName::Write,
        ToolName::Patch,
        ToolName::Bash,
        ToolName::Question,
        ToolName::Task,
        ToolName::Webfetch,
        ToolName::Memory,
        ToolName::Symbols,
    ];
    for tool in all_tools {
        // Just ensure it doesn't panic
        let _ = extract_args_summary(tool, &args);
    }
}

#[test]
fn app_diff_content_edit_basic() {
    let args = object(vec![("file_path", text("src/main.rs")), ("old_string", text("use std::collections::HashMap;")), ("new_string", text("use std::collections::BTreeMap;"))]);
    let result = extract_diff_content(ToolName::Edit, &args);
    match result {
        Some(DiffContent::EditDiff { lines }) => {
            assert_eq!(lines.len(), 2);
            assert_eq!(
                lines[0],
                DiffLine::Removal("use std::collections::HashMap;".into())
            );
            assert_eq!(
                lines[1],
                DiffLine::Addition("use std::collections::BTreeMap;".into())
            );
        }
        other => panic!("expected EditDiff, got {other:?}"),
    }
}

#[test]
fn app_diff_content_edit_multiline() {
    let args = object(vec![("file_path", text("f.rs")), ("old_string", text("line1\nline2")), ("new_string", text("new1\nnew2\nnew3"))]);
    match extract_diff_content(ToolName::Edit, &args) {
        Some(DiffContent::EditDiff { lines }) => {
            assert_eq!(lines.len(), 5);
            assert_eq!(lines[0], DiffLine::Removal("line1".into()));
            assert_eq!(lines[1], DiffLine::Removal("line2".into()));
            assert_eq!(lines[2], DiffLine::Addition("new1".into()));
            assert_eq!(lines[3], DiffLine::Addition("new2".into()));
            assert_eq!(lines[4], DiffLine::Addition("new3".into()));
        }
        other => panic!("expected EditDiff, got {other:?}"),
    }
}

#[test]
fn app_diff_content_edit_empty_strings_returns_none() {
    let args = object(vec![("file_path", text("f.rs")), ("old_string", text("")), ("new_string", text(""))]);
    assert!(extract_diff_content(ToolName::Edit, &args).is_none());
}

#[test]
fn app_diff_content_edit_missing_args_returns_none() {
    let args = object(vec![("file_path", text("f.rs"))]);
    assert!(extract_diff_content(ToolName::Edit, &args).is_none());
}

#[test]
fn app_diff_content_edit_insert_lines() {
    let args = object(vec![("file_path", text("f.rs")), ("operation", text("insert_lines")), ("line", number(5)), ("content", text("new line 1\nnew line 2"))]);
    match extract_diff_content(ToolName::Edit, &args) {
        Some(DiffContent::EditDiff { lines }) => {
            assert_eq!(lines.len(), 3);
            assert_eq!(lines[0], DiffLine::HunkHeader("@@ +5 @@".into()));
            assert_eq!(lines[1], DiffLine::Addition("new line 1".into()));
            assert_eq!(lines[2], DiffLine::Addition("new line 2".into()));
        }
        other => panic!("expected EditDiff, got {other:?}"),
    }
}

#[test]
fn app_diff_content_edit_insert_lines_empty_content_returns_none() {
    let args = object(vec![("file_path", text("f.rs")), ("operation", text("insert_lines")), ("line", number(1)), ("content", text(""))]);
    assert!(extract_diff_content(ToolName::Edit, &args).is_none());
}

#[test]
fn app_diff_content_edit_delete_lines() {
    let args = object(vec![("file_path", text("f.rs")), ("operation", text("delete_lines")), ("start_line", number(3)), ("end_line", number(7))]);
    match extract_diff_content(ToolName::Edit, &args) {
        Some(DiffContent::EditDiff { lines }) => {
            assert_eq!(lines.len(), 2);
            assert_eq!(lines[0], DiffLine::HunkHeader("@@ -3,5 @@".into()));
            assert_eq!(lines[1], DiffLine::Removal("(5 line(s) deleted)".into()));
        }
        other => panic!("expected EditDiff, got {other:?}"),
    }
}

#[test]
fn app_diff_content_edit_replace_range() {
    let args = object(vec![("file_path", text("f.rs")), ("operation", text("replace_range")), ("start_line", number(2)), ("end_line", number(4)), ("content", text("replaced1\nreplaced2"))]);
    match extract_diff_content(ToolName::Edit, &args) {
        Some(DiffContent::EditDiff { lines }) => {
            assert_eq!(lines.len(), 4);
            assert_eq!(lines[0], DiffLine::HunkHeader("@@ -2,3 @@".into()));
            assert_eq!(lines[1], DiffLine::Removal("(3 line(s) replaced)".into()));
            assert_eq!(lines[2], DiffLine::Addition("replaced1".into()));
            assert_eq!(lines[3], DiffLine::Addition("replaced2".into()));
        }
        other => panic!("expected EditDiff, got {other:?}"),
    }
}

#[test]
fn app_diff_content_edit_unknown_operation_returns_none() {
    let args = object(vec![("file_path", text("f.rs")), ("operation", text("teleport"))]);
    assert!(extract_diff_content(ToolName::Edit, &args).is_none());
}

#[test]
fn app_diff_content_write_basic() {
    let args = object(vec![("file_path", text("new.txt")), ("content", text("line1\nline2\nline3"))]);
    match extract_diff_content(ToolName::Write, &args) {
        Some(DiffContent::WriteSummary { line_count }) => {
            assert_eq!(line_count, 3);
        }
        other => panic!("expected WriteSummary, got {other:?}"),
    }
}

#[test]
fn app_diff_content_write_empty_content() {
    let args = object(vec![("file_path", text("empty.txt")), ("content", text(""))]);
    match extract_diff_content(ToolName::Write, &args) {
        Some(DiffContent::WriteSummary { line_count }) => {
            assert_eq!(line_count, 0);
        }
        other => panic!("expected WriteSummary, got {other:?}"),
    }
}

#[test]
fn app_diff_content_write_missing_content() {
    let args = object(vec![("file_path", text("f.txt"))]);
    match extract_diff_content(ToolName::Write, &args) {
        Some(DiffContent::WriteSummary { line_count }) => {
            assert_eq!(line_count, 0);
        }
        other => panic!("expected WriteSummary, got {other:?}"),
    }
}

#[test]
fn app_diff_content_patch_basic() {
    let diff_str = "--- a/src/main.rs\n+++ b/src/main.rs\n@@ -1,3 +1,3 @@\n context\n-old line\n+new line\n context2";
    let args = object(vec![("file_path", text("src/main.rs")), ("diff", text(&diff_str))]);
    match extract_diff_content(ToolName::Patch, &args) {
        Some(DiffContent::PatchDiff { lines }) => {
            assert_eq!(lines.len(), 5);
            assert_eq!(lines[0], DiffLine::HunkHeader("@@ -1,3 +1,3 @@".into()));
            assert_eq!(lines[1], DiffLine::Context("context".into()));
            assert_eq!(lines[2], DiffLine::Removal("old line".into()));
            assert_eq!(lines[3], DiffLine::Addition("new line".into()));
            assert_eq!(lines[4], DiffLine::Context("context2".into()));
        }
        other => panic!("expected PatchDiff, got {other:?}"),
    }
}

#[test]
fn app_diff_content_patch_empty_returns_none() {
    let args = object(vec![("file_path", text("f.rs")), ("diff", text(""))]);
    assert!(extract_diff_content(ToolName::Patch, &args).is_none());
}

#[test]
fn app_diff_content_non_write_tools_return_none() {
    let args = object(vec![("path", text("src/main.rs"))]);
    for tool in [
        ToolName::Read,
        ToolName::Grep,
        ToolName::Glob,
        ToolName::List,
        ToolName::Bash,
        ToolName::Question,
        ToolName::Task,
        ToolName::Webfetch,
        ToolName::Memory,
    ] {
        assert!(
            extract_diff_content(tool, &args).is_none(),
            "{tool:?} should return None"
        );
    }
}

#[test]
fn app_diff_content_all_variants_covered() {
    let args = object(vec![]);
    let all_tools = [
        ToolName::Read,
        ToolName::Grep,
        ToolName::Glob,
        ToolName::List,
        ToolName::Edit,
        ToolName::Write,
        ToolName::Patch,
        ToolName::Bash,
        ToolName::Question,
        ToolName::Task,
        ToolName::Webfetch,
        ToolName::Memory,
    ];
    for tool in all_tools {
        let result = extract_diff_content(tool, &args);
        // Write tools produce diff content; all others return None.
        // Empty args produce None for write tools too, but the exhaustive
        // match is the point — a new variant without a match arm won't compile.
        if matches!(tool, ToolName::Edit | ToolName::Write | ToolName::Patch) {
            // With empty args, write tools may return None (no old_string etc.)
            // — the key assertion is that this doesn't panic.
            let _ = result;
        } else {
            assert!(
                result.is_none(),
                "{tool:?} should return None for diff content"
            );
        }
    }
}

#[test]
fn app_parse_diff_skips_file_headers() {
    let patch = "--- a/file.rs\n+++ b/file.rs\n@@ -1 +1 @@\n-old\n+new";
    let lines = parse_unified_diff_lines(patch);
    assert_eq!(lines.len(), 3);
    assert_eq!(lines[0], DiffLine::HunkHeader("@@ -1 +1 @@".into()));
    assert_eq!(lines[1], DiffLine::Removal("old".into()));
    assert_eq!(lines[2], DiffLine::Addition("new".into()));
}

#[test]
fn app_parse_diff_context_lines() {
    let patch = "@@ -1,3 +1,3 @@\n unchanged\n-removed\n+added\n still here";
    let lines = parse_unified_diff_lines(patch);
    assert_eq!(lines.len(), 5);
    assert_eq!(lines[0], DiffLine::HunkHeader("@@ -1,3 +1,3 @@".into()));
    assert_eq!(lines[1], DiffLine::Context("unchanged".into()));
    assert_eq!(lines[2], DiffLine::Removal("removed".into()));
    assert_eq!(lines[3], DiffLine::Addition("added".into()));
    assert_eq!(lines[4], DiffLine::Context("still here".into()));
}

#[test]
fn app_parse_diff_empty_string() {
    let lines = parse_unified_diff_lines("");
    assert!(lines.is_empty());
}

#[test]
fn tests_extract_args_summary_read_path() {
    let args = object(vec![("path", text("src/main.rs"))]);
    assert_eq!(extract_args_summary(ToolName::Read, &args), "src/main.rs");
}

#[test]
fn tests_extract_args_summary_list_path() {
    let args = object(vec![("path", text("/tmp/dir"))]);
    assert_eq!(extract_args_summary(ToolName::List, &args), "/tmp/dir");
}

#[test]
fn tests_extract_args_summary_grep_pattern() {
    let args = object(vec![("pattern", text("fn main"))]);
    assert_eq!(extract_args_summary(ToolName::Grep, &args), "fn main");
}

#[test]
fn tests_extract_args_summary_glob_pattern() {
    let args = object(vec![("pattern", text("**/*.rs"))]);
    assert_eq!(extract_args_summary(ToolName::Glob, &args), "**/*.rs");
}

#[test]
fn tests_extract_args_summary_edit_path() {
    let args = object(vec![("file_path", text("src/lib.rs")), ("old_string", text("x")), ("new_string", text("y"))]);
    assert_eq!(extract_args_summary(ToolName::Edit, &args), "src/lib.rs");
}

#[test]
fn tests_extract_args_summary_write_path() {
    let args = object(vec![("file_path", text("new_file.txt")), ("content", text("hello"))]);
    assert_eq!(extract_args_summary(ToolName::Write, &args), "new_file.txt");
}

#[test]
fn tests_extract_args_summary_patch_path() {
    let args = object(vec![("file_path", text("src/app.rs")), ("diff", text("..."))]);
    assert_eq!(extract_args_summary(ToolName::Patch, &args), "src/app.rs");
}

#[test]
fn tests_extract_args_summary_bash_short_command() {
    let args = object(vec![("command", text("ls -la"))]);
    assert_eq!(extract_args_summary(ToolName::Bash, &args), "ls -la");
}

#[test]
fn tests_extract_args_summary_bash_long_command_truncates() {
    let long_cmd = "a".repeat(50);
    let args = object(vec![("command", text(&long_cmd))]);
    let result = extract_args_summary(ToolName::Bash, &args);
    assert_eq!(result.chars().count(), 40); // 37 + "..."
    assert!(result.ends_with("..."));
}

#[test]
fn tests_extract_args_summary_bash_exactly_40_chars() {
    let cmd = "a".repeat(40);
    let args = object(vec![("command", text(&cmd))]);
    let result = extract_args_summary(ToolName::Bash, &args);
    assert_eq!(result.chars().count(), 40);
    assert!(!result.ends_with("..."));
}

#[test]
fn tests_extract_args_summary_question_short() {
    let args = object(vec![("question", text("What is this?"))]);
    assert_eq!(
        extract_args_summary(ToolName::Question, &args),
        "What is this?"
    );
}

#[test]
fn tests_extract_args_summary_question_long_truncates() {
    let long_text = "a".repeat(40);
    let args = object(vec![("question", text(&long_text))]);
    let result = extract_args_summary(ToolName::Question, &args);
    assert_eq!(result.chars().count(), 30); // 27 + "..."
    assert!(result.ends_with("..."));
}

#[test]
fn tests_extract_args_summary_task_returns_action() {
    let args = object(vec![("action", text("create")), ("title", text("something"))]);
    assert_eq!(extract_args_summary(ToolName::Task, &args), "create");
}

#[test]
fn tests_extract_args_summary_webfetch_url() {
    let args = object(vec![("url", text("https://example.com"))]);
    assert_eq!(
        extract_args_summary(ToolName::Webfetch, &args),
        "https://example.com"
    );
}

#[test]
fn tests_extract_args_summary_missing_field_returns_empty() {
    let args = object(vec![]);
    assert_eq!(extract_args_summary(ToolName::Read, &args), "");
    assert_eq!(extract_args_summary(ToolName::Grep, &args), "");
    assert_eq!(extract_args_summary(ToolName::Edit, &args), "");
    assert_eq!(extract_args_summary(ToolName::Bash, &args), "");
    assert_eq!(extract_args_summary(ToolName::Question, &args), "");
    assert_eq!(extract_args_summary(ToolName::Webfetch, &args), "");
    assert_eq!(extract_args_summary(ToolName::Memory, &args), "");
}

#[test]
fn tests_extract_args_summary_all_variants_covered() {
    // Ensure every ToolName variant is handled (exhaustive match).
    // This test will fail to compile if a new variant is added without
    // updating extract_args_summary.
    let args = object(vec![]);
    for tool in ToolName::all() {
        // Just ensure it doesn't panic
        let _ = extract_args_summary(tool, &args);
    }
}

#[test]
fn tests_diff_content_edit_basic() {
    let args = object(vec![("file_path", text("src/main.rs")), ("old_string", text("use std::collections::HashMap;")), ("new_string", text("use std::collections::BTreeMap;"))]);
    let result = extract_diff_content(ToolName::Edit, &args);
    match result {
        Some(DiffContent::EditDiff { lines }) => {
            assert_eq!(lines.len(), 2);
            assert_eq!(
                lines[0],
                DiffLine::Removal("use std::collections::HashMap;".into())
            );
            assert_eq!(
                lines[1],
                DiffLine::Addition("use std::collections::BTreeMap;".into())
            );
        }
        other => panic!("expected EditDiff, got {other:?}"),
    }
}

#[test]
fn tests_diff_content_edit_multiline() {
    let args = object(vec![("file_path", text("f.rs")), ("old_string", text("line1\nline2")), ("new_string", text("new1\nnew2\nnew3"))]);
    match extract_diff_content(ToolName::Edit, &args) {
        Some(DiffContent::EditDiff { lines }) => {
            assert_eq!(lines.len(), 5);
            assert_eq!(lines[0], DiffLine::Removal("line1".into()));
            assert_eq!(lines[1], DiffLine::Removal("line2".into()));
            assert_eq!(lines[2], DiffLine::Addition("new1".into()));
            assert_eq!(lines[3], DiffLine::Addition("new2".into()));
            assert_eq!(lines[4], DiffLine::Addition("new3".into()));
        }
        other => panic!("expected EditDiff, got {other:?}"),
    }
}

#[test]
fn tests_diff_content_edit_empty_strings_returns_none() {
    let args = object(vec![("file_path", text("f.rs")), ("old_string", text("")), ("new_string", text(""))]);
    assert!(extract_diff_content(ToolName::Edit, &args).is_none());
}

#[test]
fn tests_diff_content_edit_missing_args_returns_none() {
    let args = object(vec![("file_path", text("f.rs"))]);
    assert!(extract_diff_content(ToolName::Edit, &args).is_none());
}

#[test]
fn tests_diff_content_edit_insert_lines() {
    let args = object(vec![("file_path", text("f.rs")), ("operation", text("insert_lines")), ("line", number(5)), ("content", text("new line 1\nnew line 2"))]);
    match extract_diff_content(ToolName::Edit, &args) {
        Some(DiffContent::EditDiff { lines }) => {
            assert_eq!(lines.len(), 3);
            assert_eq!(lines[0], DiffLine::HunkHeader("@@ +5 @@".into()));
            assert_eq!(lines[1], DiffLine::Addition("new line 1".into()));
            assert_eq!(lines[2], DiffLine::Addition("new line 2".into()));
        }
        other => panic!("expected EditDiff, got {other:?}"),
    }
}

#[test]
fn tests_diff_content_edit_insert_lines_empty_content_returns_none() {
    let args = object(vec![("file_path", text("f.rs")), ("operation", text("insert_lines")), ("line", number(1)), ("content", text(""))]);
    assert!(extract_diff_content(ToolName::Edit, &args).is_none());
}

#[test]
fn tests_diff_content_edit_delete_lines() {
    let args = object(vec![("file_path", text("f.rs")), ("operation", text("delete_lines")), ("start_line", number(3)), ("end_line", number(7))]);
    match extract_diff_content(ToolName::Edit, &args) {
        Some(DiffContent::EditDiff { lines }) => {
            assert_eq!(lines.len(), 2);
            assert_eq!(lines[0], DiffLine::HunkHeader("@@ -3,5 @@".into()));
            assert_eq!(lines[1], DiffLine::Removal("(5 line(s) deleted)".into()));
        }
        other => panic!("expected EditDiff, got {other:?}"),
    }
}

#[test]
fn tests_diff_content_edit_replace_range() {
    let args = object(vec![("file_path", text("f.rs")), ("operation", text("replace_range")), ("start_line", number(2)), ("end_line", number(4)), ("content", text("replaced1\nreplaced2"))]);
    match extract_diff_content(ToolName::Edit, &args) {
        Some(DiffContent::EditDiff { lines }) => {
            assert_eq!(lines.len(), 4);
            assert_eq!(lines[0], DiffLine::HunkHeader("@@ -2,3 @@".into()));
            assert_eq!(lines[1], DiffLine::Removal("(3 line(s) replaced)".into()));
            assert_eq!(lines[2], DiffLine::Addition("replaced1".into()));
            assert_eq!(lines[3], DiffLine::Addition("replaced2".into()));
        }
        other => panic!("expected EditDiff, got {other:?}"),
    }
}

#[test]
fn tests_diff_content_edit_unknown_operation_returns_none() {
    let args = object(vec![("file_path", text("f.rs")), ("operation", text("teleport"))]);
    assert!(extract_diff_content(ToolName::Edit, &args).is_none());
}

#[test]
fn tests_diff_content_write_basic() {
    let args = object(vec![("file_path", text("new.txt")), ("content", text("line1\nline2\nline3"))]);
    match extract_diff_content(ToolName::Write, &args) {
        Some(DiffContent::WriteSummary { line_count }) => {
            assert_eq!(line_count, 3);
        }
        other => panic!("expected WriteSummary, got {other:?}"),
    }
}

#[test]
fn tests_diff_content_write_empty_content() {
    let args = object(vec![("file_path", text("empty.txt")), ("content", text(""))]);
    match extract_diff_content(ToolName::Write, &args) {
        Some(DiffContent::WriteSummary { line_count }) => {
            assert_eq!(line_count, 0);
        }
        other => panic!("expected WriteSummary, got {other:?}"),
    }
}

#[test]
fn tests_diff_content_write_missing_content() {
    let args = object(vec![("file_path", text("f.txt"))]);
    match extract_diff_content(ToolName::Write, &args) {
        Some(DiffContent::WriteSummary { line_count }) => {
            assert_eq!(line_count, 0);
        }
        other => panic!("expected WriteSummary, got {other:?}"),
    }
}

#[test]
fn tests_diff_content_patch_basic() {
    let diff_str = "--- a/src/main.rs\n+++ b/src/main.rs\n@@ -1,3 +1,3 @@\n context\n-old line\n+new line\n context2";
    let args = object(vec![("file_path", text("src/main.rs")), ("diff", text(&diff_str))]);
    match extract_diff_content(ToolName::Patch, &args) {
        Some(DiffContent::PatchDiff { lines }) => {
            assert_eq!(lines.len(), 5);
            assert_eq!(lines[0], DiffLine::HunkHeader("@@ -1,3 +1,3 @@".into()));
            assert_eq!(lines[1], DiffLine::Context("context".into()));
            assert_eq!(lines[2], DiffLine::Removal("old line".into()));
            assert_eq!(lines[3], DiffLine::Addition("new line".into()));
            assert_eq!(lines[4], DiffLine::Context("context2".into()));
        }
        other => panic!("expected PatchDiff, got {other:?}"),
    }
}

#[test]
fn tests_diff_content_patch_empty_returns_none() {
    let args = object(vec![("file_path", text("f.rs")), ("diff", text(""))]);
    assert!(extract_diff_content(ToolName::Patch, &args).is_none());
}

#[test]
fn tests_diff_content_non_write_tools_return_none() {
    let args = object(vec![("path", text("src/main.rs"))]);
    for tool in [
        ToolName::Read,
        ToolName::Grep,
        ToolName::Glob,
        ToolName::List,
        ToolName::Bash,
        ToolName::Question,
        ToolName::Task,
        ToolName::Webfetch,
        ToolName::Memory,
    ] {
        assert!(
            extract_diff_content(tool, &args).is_none(),
            "{tool:?} should return None"
        );
    }
}

#[test]
fn tests_diff_content_all_variants_covered() {
    let args = object(vec![]);
    for tool in ToolName::all() {
        let result = extract_diff_content(tool, &args);
        // Write tools produce diff content; all others return None.
        // Empty args produce None for write tools too, but the exhaustive
        // match is the point — a new variant without a match arm won't compile.
        if matches!(tool, ToolName::Edit | ToolName::Write | ToolName::Patch) {
            // With empty args, write tools may return None (no old_string etc.)
            // — the key assertion is that this doesn't panic.
            let _ = result;
        } else {
            assert!(
                result.is_none(),
                "{tool:?} should return None for diff content"
            );
        }
    }
}

#[test]
fn tests_parse_diff_skips_file_headers() {
    let patch = "--- a/file.rs\n+++ b/file.rs\n@@ -1 +1 @@\n-old\n+new";
    let lines = parse_unified_diff_lines(patch);
    assert_eq!(lines.len(), 3);
    assert_eq!(lines[0], DiffLine::HunkHeader("@@ -1 +1 @@".into()));
    assert_eq!(lines[1], DiffLine::Removal("old".into()));
    assert_eq!(lines[2], DiffLine::Addition("new".into()));
}

#[test]
fn tests_parse_diff_context_lines() {
    let patch = "@@ -1,3 +1,3 @@\n unchanged\n-removed\n+added\n still here";
    let lines = parse_unified_diff_lines(patch);
    assert_eq!(lines.len(), 5);
    assert_eq!(lines[0], DiffLine::HunkHeader("@@ -1,3 +1,3 @@".into()));
    assert_eq!(lines[1], DiffLine::Context("unchanged".into()));
    assert_eq!(lines[2], DiffLine::Removal("removed".into()));
    assert_eq!(lines[3], DiffLine::Addition("added".into()));
    assert_eq!(lines[4], DiffLine::Context("still here".into()));
}

#[test]
fn tests_parse_diff_empty_string() {
    let lines = parse_unified_diff_lines("");
    assert!(lines.is_empty());
}

#[test]
fn tool_display_extract_args_summary_read_path() {
    let args = object(vec![("path", text("src/main.rs"))]);
    assert_eq!(extract_args_summary(ToolName::Read, &args), "src/main.rs");
}

#[test]
fn tool_display_extract_args_summary_list_path() {
    let args = object(vec![("path", text("/tmp/dir"))]);
    assert_eq!(extract_args_summary(ToolName::List, &args), "/tmp/dir");
}

#[test]
fn tool_display_extract_args_summary_grep_pattern() {
    let args = object(vec![("pattern", text("fn main"))]);
    assert_eq!(extract_args_summary(ToolName::Grep, &args), "fn main");
}

#[test]
fn tool_display_extract_args_summary_glob_pattern() {
    let args = object(vec![("pattern", text("**/*.rs"))]);
    assert_eq!(extract_args_summary(ToolName::Glob, &args), "**/*.rs");
}

#[test]
fn tool_display_extract_args_summary_edit_path() {
    let args = object(vec![("file_path", text("src/lib.rs")), ("old_string", text("x")), ("new_string", text("y"))]);
    assert_eq!(extract_args_summary(ToolName::Edit, &args), "src/lib.rs");
}

#[test]
fn tool_display_extract_args_summary_write_path() {
    let args = object(vec![("file_path", text("new_file.txt")), ("content", text("hello"))]);
    assert_eq!(extract_args_summary(ToolName::Write, &args), "new_file.txt");
}

#[test]
fn tool_display_extract_args_summary_patch_path() {
    let args = object(vec![("file_path", text("src/app.rs")), ("diff", text("..."))]);
    assert_eq!(extract_args_summary(ToolName::Patch, &args), "src/app.rs");
}

#[test]
fn tool_display_extract_args_summary_bash_short_command() {
    let args = object(vec![("command", text("ls -la"))]);
    assert_eq!(extract_args_summary(ToolName::Bash, &args), "ls -la");
}

#[test]
fn tool_display_extract_args_summary_bash_long_command_truncates() {
    let long_cmd = "a".repeat(50);
    let args = object(vec![("command", text(&long_cmd))]);
    let result = extract_args_summary(ToolName::Bash, &args);
    assert_eq!(result.chars().count(), 40); // 37 + "..."
    assert!(result.ends_with("..."));
}

#[test]
fn tool_display_extract_args_summary_bash_exactly_40_chars() {
    let cmd = "a".repeat(40);
    let args = object(vec![("command", text(&cmd))]);
    let result = extract_args_summary(ToolName::Bash, &args);
    assert_eq!(result.chars().count(), 40);
    assert!(!result.ends_with("..."));
}

#[test]
fn tool_display_extract_args_summary_question_short() {
    let args = object(vec![("question", text("What is this?"))]);
    assert_eq!(
        extract_args_summary(ToolName::Question, &args),
        "What is this?"
    );
}

#[test]
fn tool_display_extract_args_summary_question_long_truncates() {
    let long_text = "a".repeat(40);
    let args = object(vec![("question", text(&long_text))]);
    let result = extract_args_summary(ToolName::Question, &args);
    assert_eq!(result.chars().count(), 30); // 27 + "..."
    assert!(result.ends_with("..."));
}

#[test]
fn tool_display_extract_args_summary_task_returns_action() {
    let args = object(vec![("action", text("create")), ("title", text("something"))]);
    assert_eq!(extract_args_summary(ToolName::Task, &args), "create");
}

#[test]
fn tool_display_extract_args_summary_webfetch_url() {
    let args = object(vec![("url", text("https://example.com"))]);
    assert_eq!(
        extract_args_summary(ToolName::Webfetch, &args),
        "https://example.com"
    );
}

#[test]
fn tool_display_extract_args_summary_missing_field_returns_empty() {
    let args = object(vec![]);
    assert_eq!(extract_args_summary(ToolName::Read, &args), "");
    assert_eq!(extract_args_summary(ToolName::Grep, &args), "");
    assert_eq!(extract_args_summary(ToolName::Edit, &args), "");
    assert_eq!(extract_args_summary(ToolName::Bash, &args), "");
    assert_eq!(extract_args_summary(ToolName::Question, &args), "");
    assert_eq!(extract_args_summary(ToolName::Webfetch, &args), "");
    assert_eq!(extract_args_summary(ToolName::Memory, &args), "");
}

#[test]
fn tool_display_extract_args_summary_all_variants_covered() {
    // Ensure every ToolName variant is handled (exhaustive match).
    // This test will fail to compile if a new variant is added without
    // updating extract_args_summary.
    let args = object(vec![]);
    for tool in ToolName::all() {
        // Just ensure it doesn't panic
        let _ = extract_args_summary(tool, &args);
    }
}

#[test]
fn tool_display_diff_content_edit_basic() {
    let args = object(vec![("file_path", text("src/main.rs")), ("old_string", text("use std::collections::HashMap;")), ("new_string", text("use std::collections::BTreeMap;"))]);
    let result = extract_diff_content(ToolName::Edit, &args);
    match result {
        Some(DiffContent::EditDiff { lines }) => {
            assert_eq!(lines.len(), 2);
            assert_eq!(
                lines[0],
                DiffLine::Removal("use std::collections::HashMap;".into())
            );
            assert_eq!(
                lines[1],
                DiffLine::Addition("use std::collections::BTreeMap;".into())
            );
        }
        other => panic!("expected EditDiff, got {other:?}"),
    }
}

#[test]
fn tool_display_diff_content_edit_multiline() {
    let args = object(vec![("file_path", text("f.rs")), ("old_string", text("line1\nline2")), ("new_string", text("new1\nnew2\nnew3"))]);
    match extract_diff_content(ToolName::Edit, &args) {
        Some(DiffContent::EditDiff { lines }) => {
            assert_eq!(lines.len(), 5);
            assert_eq!(lines[0], DiffLine::Removal("line1".into()));
            assert_eq!(lines[1], DiffLine::Removal("line2".into()));
            assert_eq!(lines[2], DiffLine::Addition("new1".into()));
            assert_eq!(lines[3], DiffLine::Addition("new2".into()));
            assert_eq!(lines[4], DiffLine::Addition("new3".into()));
        }
        other => panic!("expected EditDiff, got {other:?}"),
    }
}

#[test]
fn tool_display_diff_content_edit_empty_strings_returns_none() {
    let args = object(vec![("file_path", text("f.rs")), ("old_string", text("")), ("new_string", text(""))]);
    assert!(extract_diff_content(ToolName::Edit, &args).is_none());
}

#[test]
fn tool_display_diff_content_edit_missing_args_returns_none() {
    let args = object(vec![("file_path", text("f.rs"))]);
    assert!(extract_diff_content(ToolName::Edit, &args).is_none());
}

#[test]
fn tool_display_diff_content_edit_insert_lines() {
    let args = object(vec![("file_path", text("f.rs")), ("operation", text("insert_lines")), ("line", number(5)), ("content", text("new line 1\nnew line 2"))]);
    match extract_diff_content(ToolName::Edit, &args) {
        Some(DiffContent::EditDiff { lines }) => {
            assert_eq!(lines.len(), 3);
            assert_eq!(lines[0], DiffLine::HunkHeader("@@ +5 @@".into()));
            assert_eq!(lines[1], DiffLine::Addition("new line 1".into()));
            assert_eq!(lines[2], DiffLine::Addition("new line 2".into()));
        }
        other => panic!("expected EditDiff, got {other:?}"),
    }
}

#[test]
fn tool_display_diff_content_edit_insert_lines_empty_content_returns_none() {
    let args = object(vec![("file_path", text("f.rs")), ("operation", text("insert_lines")), ("line", number(1)), ("content", text(""))]);
    assert!(extract_diff_content(ToolName::Edit, &args).is_none());
}

#[test]
fn tool_display_diff_content_edit_delete_lines() {
    let args = object(vec![("file_path", text("f.rs")), ("operation", text("delete_lines")), ("start_line", number(3)), ("end_line", number(7))]);
    match extract_diff_content(ToolName::Edit, &args) {
        Some(DiffContent::EditDiff { lines }) => {
            assert_eq!(lines.len(), 2);
            assert_eq!(lines[0], DiffLine::HunkHeader("@@ -3,5 @@".into()));
            assert_eq!(lines[1], DiffLine::Removal("(5 line(s) deleted)".into()));
        }
        other => panic!("expected EditDiff, got {other:?}"),
    }
}

#[test]
fn tool_display_diff_content_edit_replace_range() {
    let args = object(vec![("file_path", text("f.rs")), ("operation", text("replace_range")), ("start_line", number(2)), ("end_line", number(4)), ("content", text("replaced1\nreplaced2"))]);
    match extract_diff_content(ToolName::Edit, &args) {
        Some(DiffContent::EditDiff { lines }) => {
            assert_eq!(lines.len(), 4);
            assert_eq!(lines[0], DiffLine::HunkHeader("@@ -2,3 @@".into()));
            assert_eq!(lines[1], DiffLine::Removal("(3 line(s) replaced)".into()));
            assert_eq!(lines[2], DiffLine::Addition("replaced1".into()));
            assert_eq!(lines[3], DiffLine::Addition("replaced2".into()));
        }
        other => panic!("expected EditDiff, got {other:?}"),
    }
}

#[test]
fn tool_display_diff_content_edit_unknown_operation_returns_none() {
    let args = object(vec![("file_path", text("f.rs")), ("operation", text("teleport"))]);
    assert!(extract_diff_content(ToolName::Edit, &args).is_none());
}

#[test]
fn tool_display_diff_content_write_basic() {
    let args = object(vec![("file_path", text("new.txt")), ("content", text("line1\nline2\nline3"))]);
    match extract_diff_content(ToolName::Write, &args) {
        Some(DiffContent::WriteSummary { line_count }) => {
            assert_eq!(line_count, 3);
        }
        other => panic!("expected WriteSummary, got {other:?}"),
    }
}

#[test]
fn tool_display_diff_content_write_empty_content() {
    let args = object(vec![("file_path", text("empty.txt")), ("content", text(""))]);
    match extract_diff_content(ToolName::Write, &args) {
        Some(DiffContent::WriteSummary { line_count }) => {
            assert_eq!(line_count, 0);
        }
        other => panic!("expected WriteSummary, got {other:?}"),
    }
}

#[test]
fn tool_display_diff_content_write_missing_content() {
    let args = object(vec![("file_path", text("f.txt"))]);
    match extract_diff_content(ToolName::Write, &args) {
        Some(DiffContent::WriteSummary { line_count }) => {
            assert_eq!(line_count, 0);
        }
        other => panic!("expected WriteSummary, got {other:?}"),
    }
}

#[test]
fn tool_display_diff_content_patch_basic() {
    let diff_str = "--- a/src/main.rs\n+++ b/src/main.rs\n@@ -1,3 +1,3 @@\n context\n-old line\n+new line\n context2";
    let args = object(vec![("file_path", text("src/main.rs")), ("diff", text(&diff_str))]);
    match extract_diff_content(ToolName::Patch, &args) {
        Some(DiffContent::PatchDiff { lines }) => {
            assert_eq!(lines.len(), 5);
            assert_eq!(lines[0], DiffLine::HunkHeader("@@ -1,3 +1,3 @@".into()));
            assert_eq!(lines[1], DiffLine::Context("context".into()));
            assert_eq!(lines[2], DiffLine::Removal("old line".into()));
            assert_eq!(lines[3], DiffLine::Addition("new line".into()));
            assert_eq!(lines[4], DiffLine::Context("context2".into()));
        }
        other => panic!("expected PatchDiff, got {other:?}"),
    }
}

#[test]
fn tool_display_diff_content_patch_empty_returns_none() {
    let args = object(vec![("file_path", text("f.rs")), ("diff", text(""))]);
    assert!(extract_diff_content(ToolName::Patch, &args).is_none());
}

#[test]
fn tool_display_diff_content_non_write_tools_return_none() {
    let args = object(vec![("path", text("src/main.rs"))]);
    for tool in [
        ToolName::Read,
        ToolName::Grep,
        ToolName::Glob,
        ToolName::List,
        ToolName::Bash,
        ToolName::Question,
        ToolName::Task,
        ToolName::Webfetch,
        ToolName::Memory,
    ] {
        assert!(
            extract_diff_content(tool, &args).is_none(),
            "{tool:?} should return None"
        );
    }
}

#[test]
fn tool_display_diff_content_all_variants_covered() {
    let args = object(vec![]);
    for tool in ToolName::all() {
        let result = extract_diff_content(tool, &args);
        // Write tools produce diff content; all others return None.
        // Empty args produce None for write tools too, but the exhaustive
        // match is the point — a new variant without a match arm won't compile.
        if matches!(tool, ToolName::Edit | ToolName::Write | ToolName::Patch) {
            // With empty args, write tools may return None (no old_string etc.)
            // — the key assertion is that this doesn't panic.
            let _ = result;
        } else {
            assert!(
                result.is_none(),
                "{tool:?} should return None for diff content"
            );
        }
    }
}

#[test]
fn tool_display_parse_diff_skips_file_headers() {
    let patch = "--- a/file.rs\n+++ b/file.rs\n@@ -1 +1 @@\n-old\n+new";
    let lines = parse_unified_diff_lines(patch);
    assert_eq!(lines.len(), 3);
    assert_eq!(lines[0], DiffLine::HunkHeader("@@ -1 +1 @@".into()));
    assert_eq!(lines[1], DiffLine::Removal("old".into()));
    assert_eq!(lines[2], DiffLine::Addition("new".into()));
}

#[test]
fn tool_display_parse_diff_context_lines() {
    let patch = "@@ -1,3 +1,3 @@\n unchanged\n-removed\n+added\n still here";
    let lines = parse_unified_diff_lines(patch);
    assert_eq!(lines.len(), 5);
    assert_eq!(lines[0], DiffLine::HunkHeader("@@ -1,3 +1,3 @@".into()));
    assert_eq!(lines[1], DiffLine::Context("unchanged".into()));
    assert_eq!(lines[2], DiffLine::Removal("removed".into()));
    assert_eq!(lines[3], DiffLine::Addition("added".into()));
    assert_eq!(lines[4], DiffLine::Context("still here".into()));
}

#[test]
fn tool_display_parse_diff_empty_string() {
    let lines = parse_unified_diff_lines("");
    assert!(lines.is_empty());
}

#[test]
fn joined_diffs_are_shown_in_turn() {
    let first = "--- a\n+++ b\n@@ -1 +1 @@\n-x\n";
    let second = "+y\r\n z";
    let mut both = parse_unified_diff_lines(first);
    both.extend(parse_unified_diff_lines(second));
    assert_eq!(parse_unified_diff_lines(&format!("{first}{second}")), both);
    assert_eq!(both.len(), 4);
}

#[test]
fn a_single_replacement_is_shown_alike() {
    for (old, new) in [("a\nb", "c"), ("", "c"), ("", "")] {
        let edit = object(vec![("old_string", text(old)), ("new_string", text(new))]);
        let many = object(vec![
            ("operation", text("multi_find_replace")),
            ("edits", Json::Array(vec![edit])),
        ]);
        let one = object(vec![("old_string", text(old)), ("new_string", text(new))]);
        assert_eq!(
            extract_diff_content(ToolName::Edit, &many),
            extract_diff_content(ToolName::Edit, &one)
        );
    }
}
