//! How tool calls are shown: one-line summaries of arguments and results, and
//! the changes that a call makes to files.
use crate::json::Json;
use crate::text::{
    cat2, cat3, cat4, cat5, clip, clipped, decimal, decimal_text, lemma_lines_joined, lines,
    same_text, skip_chars, split_lines, starts_with, views,
};
use crate::tool::{ToolName, ToolOutput};
use vstd::prelude::*;
use vstd::string::*;

verus! {

/// One line of a shown change.
#[derive(Debug, PartialEq, Eq)]
pub enum DiffLine {
    HunkHeader(String),
    Removal(String),
    Addition(String),
    Context(String),
}

/// The kind and the text of a [`DiffLine`].
pub enum DiffLineView {
    HunkHeader(Seq<char>),
    Removal(Seq<char>),
    Addition(Seq<char>),
    Context(Seq<char>),
}

impl View for DiffLine {
    type V = DiffLineView;

    open spec fn view(&self) -> DiffLineView {
        match self {
            DiffLine::HunkHeader(s) => DiffLineView::HunkHeader(s@),
            DiffLine::Removal(s) => DiffLineView::Removal(s@),
            DiffLine::Addition(s) => DiffLineView::Addition(s@),
            DiffLine::Context(s) => DiffLineView::Context(s@),
        }
    }
}

/// The change that a tool call makes, as far as it is shown.
#[derive(Debug, PartialEq, Eq)]
pub enum DiffContent {
    EditDiff { lines: Vec<DiffLine> },
    WriteSummary { line_count: usize },
    PatchDiff { lines: Vec<DiffLine> },
}

/// What a [`DiffContent`] holds.
pub enum DiffContentView {
    EditDiff { lines: Seq<DiffLineView> },
    WriteSummary { line_count: nat },
    PatchDiff { lines: Seq<DiffLineView> },
}

/// The views of a sequence of lines.
pub open spec fn diff_views(v: Seq<DiffLine>) -> Seq<DiffLineView> {
    Seq::new(v.len(), |i: int| v[i]@)
}

pub proof fn lemma_diff_views_push(v: Seq<DiffLine>, d: DiffLine)
    ensures
        diff_views(v.push(d)) == diff_views(v).push(d@),
{
    assert(diff_views(v.push(d)) =~= diff_views(v).push(d@));
}

impl View for DiffContent {
    type V = DiffContentView;

    open spec fn view(&self) -> DiffContentView {
        match self {
            DiffContent::EditDiff { lines } => DiffContentView::EditDiff { lines: diff_views(lines@) },
            DiffContent::WriteSummary { line_count } => DiffContentView::WriteSummary {
                line_count: *line_count as nat,
            },
            DiffContent::PatchDiff { lines } => DiffContentView::PatchDiff {
                lines: diff_views(lines@),
            },
        }
    }
}

/// What the argument summary of a call of `tool` with `args` reads.
pub open spec fn args_summary(tool: ToolName, args: Json) -> Seq<char> {
    match tool {
        ToolName::Read => match args.array_field("paths"@) {
            Some(paths) => decimal(paths.len()) + " files"@,
            None => {
                let path = args.text_or("path"@, ""@);
                if args.flag("count"@) {
                    path + " (count)"@
                } else {
                    match args.uint_field("tail"@) {
                        Some(n) => path + " (tail "@ + decimal(n as nat) + ")"@,
                        None => path,
                    }
                }
            },
        },
        ToolName::List | ToolName::Delete | ToolName::Mkdir => args.text_or("path"@, ""@),
        ToolName::Symbols => {
            let path = args.text_or("path"@, ""@);
            let op = args.text_or("operation"@, "list_symbols"@);
            if op == "find_scope"@ {
                path + " scope@"@ + decimal(args.uint_or_zero("line"@) as nat)
            } else if op == "find_definition"@ {
                path + " def:"@ + args.text_or("name"@, ""@)
            } else {
                path
            }
        },
        ToolName::Grep | ToolName::Glob => args.text_or("pattern"@, ""@),
        ToolName::Edit | ToolName::Write | ToolName::Patch => args.text_or("file_path"@, ""@),
        ToolName::Move | ToolName::Copy => args.text_or("from_path"@, ""@) + " \u{2192} "@
            + args.text_or("to_path"@, ""@),
        ToolName::Bash => clip(args.text_or("command"@, ""@), 40, 37),
        ToolName::Question => clip(args.text_or("question"@, ""@), 30, 27),
        ToolName::Task | ToolName::Memory => args.text_or("action"@, ""@),
        ToolName::Webfetch => args.text_or("url"@, ""@),
        ToolName::Lsp => {
            let path = args.text_or("path"@, ""@);
            let op = args.text_or("operation"@, "diagnostics"@);
            if op == "diagnostics"@ {
                path + " diagnostics"@
            } else {
                path + " "@ + op + "@"@ + decimal(args.uint_or_zero("line"@) as nat)
            }
        },
        ToolName::Agent => args.text_or("agent_type"@, "explore"@) + ": "@ + clip(
            args.text_or("task"@, ""@),
            30,
            27,
        ),
    }
}

/// A one-line summary of the arguments of a tool call: the path of a read, the
/// pattern of a search, the start of a command.
pub fn extract_args_summary(tool_name: ToolName, args: &Json) -> (r: String)
    ensures
        r@ == args_summary(tool_name, *args),
{
    proof {
        reveal_strlit("");
        reveal_strlit("...");
    }
    match tool_name {
        ToolName::Read => {
            match args.get_array("paths") {
                Some(paths) => cat2(decimal_text(paths.len() as u64).as_str(), " files"),
                None => {
                    let path = args.get_text_or("path", "");
                    if args.get_flag("count") {
                        cat2(path, " (count)")
                    } else {
                        match args.get_uint("tail") {
                            Some(n) => cat4(path, " (tail ", decimal_text(n).as_str(), ")"),
                            None => path.to_owned(),
                        }
                    }
                },
            }
        },
        ToolName::List | ToolName::Delete | ToolName::Mkdir => {
            args.get_text_or("path", "").to_owned()
        },
        ToolName::Symbols => {
            let path = args.get_text_or("path", "");
            let op = args.get_text_or("operation", "list_symbols");
            if same_text(op, "find_scope") {
                let line: u64 = args.get_uint_or_zero("line");
                cat3(path, " scope@", decimal_text(line).as_str())
            } else if same_text(op, "find_definition") {
                cat3(path, " def:", args.get_text_or("name", ""))
            } else {
                path.to_owned()
            }
        },
        ToolName::Grep | ToolName::Glob => args.get_text_or("pattern", "").to_owned(),
        ToolName::Edit | ToolName::Write | ToolName::Patch => {
            args.get_text_or("file_path", "").to_owned()
        },
        ToolName::Move | ToolName::Copy => {
            cat3(
                args.get_text_or("from_path", ""),
                " \u{2192} ",
                args.get_text_or("to_path", ""),
            )
        },
        ToolName::Bash => clipped(args.get_text_or("command", ""), 40, 37),
        ToolName::Question => clipped(args.get_text_or("question", ""), 30, 27),
        ToolName::Task | ToolName::Memory => args.get_text_or("action", "").to_owned(),
        ToolName::Webfetch => args.get_text_or("url", "").to_owned(),
        ToolName::Lsp => {
            let path = args.get_text_or("path", "");
            let op = args.get_text_or("operation", "diagnostics");
            if same_text(op, "diagnostics") {
                cat2(path, " diagnostics")
            } else {
                let line: u64 = args.get_uint_or_zero("line");
                cat5(path, " ", op, "@", decimal_text(line).as_str())
            }
        },
        ToolName::Agent => {
            let task = clipped(args.get_text_or("task", ""), 30, 27);
            cat3(args.get_text_or("agent_type", "explore"), ": ", task.as_str())
        },
    }
}

/// A summary of what a tool call gave back, of at most 80 characters.
pub fn extract_result_summary(tool_name: ToolName, output: &ToolOutput) -> (r: String)
    ensures
        r@ == clip(output.output@, 80, 77),
        r@.len() <= 80,
{
    proof {
        reveal_strlit("...");
    }
    clipped(output.output.as_str(), 80, 77)
}

/// Each line of `s` as a removal.
pub open spec fn removals(s: Seq<char>) -> Seq<DiffLineView> {
    Seq::new(lines(s).len(), |i: int| DiffLineView::Removal(lines(s)[i]))
}

/// Each line of `s` as an addition.
pub open spec fn additions(s: Seq<char>) -> Seq<DiffLineView> {
    Seq::new(lines(s).len(), |i: int| DiffLineView::Addition(lines(s)[i]))
}

/// The removals and additions of each of `edits` in turn.
pub open spec fn replacements(edits: Seq<Json>) -> Seq<DiffLineView>
    decreases edits.len(),
{
    if edits.len() == 0 {
        Seq::empty()
    } else {
        let e = edits.last();
        replacements(edits.drop_last()) + removals(e.text_or("old_string"@, ""@)) + additions(
            e.text_or("new_string"@, ""@),
        )
    }
}

/// The number of lines from `start` to `end`, both included; one where `end`
/// comes before `start`.
pub open spec fn span_len(start: u64, end: u64) -> nat {
    if end >= start {
        (end - start + 1) as nat
    } else {
        1
    }
}

/// The change that an edit with the arguments `args` shows.
pub open spec fn edit_diff(args: Json) -> Option<DiffContentView> {
    let op = args.text_or("operation"@, "find_replace"@);
    let content = args.text_or("content"@, ""@);
    let start = args.uint_or_zero("start_line"@);
    let count = decimal(span_len(start, args.uint_or_zero("end_line"@)));
    let span = DiffLineView::HunkHeader("@@ -"@ + decimal(start as nat) + ","@ + count + " @@"@);
    if op == "find_replace"@ {
        let old_text = args.text_or("old_string"@, ""@);
        let new_text = args.text_or("new_string"@, ""@);
        if old_text.len() == 0 && new_text.len() == 0 {
            None
        } else {
            Some(DiffContentView::EditDiff { lines: removals(old_text) + additions(new_text) })
        }
    } else if op == "insert_lines"@ {
        if content.len() == 0 {
            None
        } else {
            let at = decimal(args.uint_or_zero("line"@) as nat);
            Some(
                DiffContentView::EditDiff {
                    lines: seq![DiffLineView::HunkHeader("@@ +"@ + at + " @@"@)] + additions(content),
                },
            )
        }
    } else if op == "delete_lines"@ {
        Some(
            DiffContentView::EditDiff {
                lines: seq![span, DiffLineView::Removal("("@ + count + " line(s) deleted)"@)],
            },
        )
    } else if op == "replace_range"@ {
        Some(
            DiffContentView::EditDiff {
                lines: seq![span, DiffLineView::Removal("("@ + count + " line(s) replaced)"@)]
                    + additions(content),
            },
        )
    } else if op == "multi_find_replace"@ {
        let all = match args.array_field("edits"@) {
            Some(edits) => replacements(edits),
            None => Seq::empty(),
        };
        if all.len() == 0 {
            None
        } else {
            Some(DiffContentView::EditDiff { lines: all })
        }
    } else {
        None
    }
}

/// The change that a call of `tool` with `args` shows.
pub open spec fn diff_content(tool: ToolName, args: Json) -> Option<DiffContentView> {
    match tool {
        ToolName::Edit => edit_diff(args),
        ToolName::Write => Some(
            DiffContentView::WriteSummary { line_count: lines(args.text_or("content"@, ""@)).len() },
        ),
        ToolName::Patch => {
            let diff = args.text_or("diff"@, ""@);
            if diff.len() == 0 {
                None
            } else {
                Some(DiffContentView::PatchDiff { lines: patch_lines(lines(diff)) })
            }
        },
        _ => None,
    }
}

/// Whether the lines that an edit takes out can be counted in 64 bits: only
/// those from line zero to the last number there is cannot.
pub open spec fn span_fits(args: Json) -> bool {
    let op = args.text_or("operation"@, "find_replace"@);
    (op == "delete_lines"@ || op == "replace_range"@) ==> args.uint_or_zero("start_line"@) > 0
        || args.uint_or_zero("end_line"@) < u64::MAX
}

/// Whether the lines that an edit takes out can be counted in 64 bits.
pub fn has_span_that_fits(args: &Json) -> (r: bool)
    ensures
        r == span_fits(*args),
{
    let op = args.get_text_or("operation", "find_replace");
    if same_text(op, "delete_lines") || same_text(op, "replace_range") {
        args.get_uint_or_zero("start_line") > 0 || args.get_uint_or_zero("end_line") < u64::MAX
    } else {
        true
    }
}

fn push_removals(out: &mut Vec<DiffLine>, s: &str)
    ensures
        diff_views(final(out)@) == diff_views(old(out)@) + removals(s@),
{
    let ls = split_lines(s);
    let ghost before = diff_views(out@);
    let mut i: usize = 0;
    proof {
        assert(before + removals(s@).take(0) =~= before);
    }
    while i < ls.len()
        invariant
            i <= ls@.len(),
            views(ls@) == lines(s@),
            diff_views(out@) == before + removals(s@).take(i as int),
        decreases ls@.len() - i,
    {
        let d = DiffLine::Removal(ls[i].as_str().to_owned());
        proof {
            assert(lines(s@)[i as int] == ls@[i as int]@);
            lemma_diff_views_push(out@, d);
            assert(removals(s@).take(i + 1) =~= removals(s@).take(i as int).push(d@));
            assert(before + removals(s@).take(i as int).push(d@) =~= (before + removals(s@).take(
                i as int,
            )).push(d@));
        }
        out.push(d);
        i = i + 1;
    }
    proof {
        assert(removals(s@).take(ls@.len() as int) =~= removals(s@));
    }
}

fn push_additions(out: &mut Vec<DiffLine>, s: &str)
    ensures
        diff_views(final(out)@) == diff_views(old(out)@) + additions(s@),
{
    let ls = split_lines(s);
    let ghost before = diff_views(out@);
    let mut i: usize = 0;
    proof {
        assert(before + additions(s@).take(0) =~= before);
    }
    while i < ls.len()
        invariant
            i <= ls@.len(),
            views(ls@) == lines(s@),
            diff_views(out@) == before + additions(s@).take(i as int),
        decreases ls@.len() - i,
    {
        let d = DiffLine::Addition(ls[i].as_str().to_owned());
        proof {
            assert(lines(s@)[i as int] == ls@[i as int]@);
            lemma_diff_views_push(out@, d);
            assert(additions(s@).take(i + 1) =~= additions(s@).take(i as int).push(d@));
            assert(before + additions(s@).take(i as int).push(d@) =~= (before + additions(s@).take(
                i as int,
            )).push(d@));
        }
        out.push(d);
        i = i + 1;
    }
    proof {
        assert(additions(s@).take(ls@.len() as int) =~= additions(s@));
    }
}

fn span_header(start: u64, count: u64) -> (r: DiffLine)
    ensures
        r@ == DiffLineView::HunkHeader(
            "@@ -"@ + decimal(start as nat) + ","@ + decimal(count as nat) + " @@"@,
        ),
{
    DiffLine::HunkHeader(
        cat5("@@ -", decimal_text(start).as_str(), ",", decimal_text(count).as_str(), " @@"),
    )
}

fn extract_edit_diff(args: &Json) -> (r: Option<DiffContent>)
    requires
        span_fits(*args),
    ensures
        match r {
            Some(d) => edit_diff(*args) == Some(d@),
            None => edit_diff(*args) is None,
        },
{
    proof {
        reveal_strlit("");
        reveal_strlit("find_replace");
        reveal_strlit("insert_lines");
        reveal_strlit("delete_lines");
        reveal_strlit("replace_range");
        reveal_strlit("multi_find_replace");
    }
    let op = args.get_text_or("operation", "find_replace");
    let content = args.get_text_or("content", "");
    let mut out: Vec<DiffLine> = Vec::new();
    proof {
        assert(diff_views(out@) =~= Seq::<DiffLineView>::empty());
    }
    if same_text(op, "find_replace") {
        let old_text = args.get_text_or("old_string", "");
        let new_text = args.get_text_or("new_string", "");
        if old_text.is_empty() && new_text.is_empty() {
            return None;
        }
        push_removals(&mut out, old_text);
        push_additions(&mut out, new_text);
        proof {
            assert(diff_views(out@) =~= removals(old_text@) + additions(new_text@));
        }
        Some(DiffContent::EditDiff { lines: out })
    } else if same_text(op, "insert_lines") {
        if content.is_empty() {
            return None;
        }
        let line: u64 = args.get_uint_or_zero("line");
        let header = DiffLine::HunkHeader(cat3("@@ +", decimal_text(line).as_str(), " @@"));
        proof {
            lemma_diff_views_push(out@, header);
            assert(diff_views(out@).push(header@) =~= seq![header@]);
        }
        out.push(header);
        push_additions(&mut out, content);
        Some(DiffContent::EditDiff { lines: out })
    } else if same_text(op, "delete_lines") || same_text(op, "replace_range") {
        let start: u64 = args.get_uint_or_zero("start_line");
        let end: u64 = args.get_uint_or_zero("end_line");
        let count: u64 = end.saturating_sub(start) + 1;
        let header = span_header(start, count);
        let is_delete = same_text(op, "delete_lines");
        let note = if is_delete {
            " line(s) deleted)"
        } else {
            " line(s) replaced)"
        };
        let body = DiffLine::Removal(cat3("(", decimal_text(count).as_str(), note));
        proof {
            assert(count as nat == span_len(start, end));
            lemma_diff_views_push(out@, header);
            lemma_diff_views_push(out@.push(header), body);
            assert(diff_views(out@).push(header@).push(body@) =~= seq![header@, body@]);
        }
        out.push(header);
        out.push(body);
        if !is_delete {
            push_additions(&mut out, content);
        }
        Some(DiffContent::EditDiff { lines: out })
    } else if same_text(op, "multi_find_replace") {
        match args.get_array("edits") {
            Some(edits) => {
                let mut i: usize = 0;
                while i < edits.len()
                    invariant
                        i <= edits@.len(),
                        diff_views(out@) == replacements(edits@.take(i as int)),
                    decreases edits@.len() - i,
                {
                    proof {
                        assert(edits@.take(i + 1).drop_last() =~= edits@.take(i as int));
                        assert(edits@.take(i + 1).last() == edits@[i as int]);
                    }
                    push_removals(&mut out, edits[i].get_text_or("old_string", ""));
                    push_additions(&mut out, edits[i].get_text_or("new_string", ""));
                    i = i + 1;
                }
                proof {
                    assert(edits@.take(edits@.len() as int) =~= edits@);
                }
            },
            None => {},
        }
        proof {
            assert(diff_views(out@).len() == out@.len());
        }
        if out.len() == 0 {
            None
        } else {
            Some(DiffContent::EditDiff { lines: out })
        }
    } else {
        None
    }
}

/// The change that a tool call shows; nothing for the tools that change no
/// text, and for edits that change nothing.
pub fn extract_diff_content(tool_name: ToolName, args: &Json) -> (r: Option<DiffContent>)
    requires
        tool_name == ToolName::Edit ==> span_fits(*args),
    ensures
        match r {
            Some(d) => diff_content(tool_name, *args) == Some(d@),
            None => diff_content(tool_name, *args) is None,
        },
{
    proof {
        reveal_strlit("");
    }
    match tool_name {
        ToolName::Edit => extract_edit_diff(args),
        ToolName::Write => {
            let ls = split_lines(args.get_text_or("content", ""));
            proof {
                assert(views(ls@).len() == ls@.len());
            }
            Some(DiffContent::WriteSummary { line_count: ls.len() })
        },
        ToolName::Patch => {
            let diff = args.get_text_or("diff", "");
            if diff.is_empty() {
                return None;
            }
            Some(DiffContent::PatchDiff { lines: parse_unified_diff_lines(diff) })
        },
        _ => None,
    }
}

/// What one line of a unified diff is shown as; nothing for the lines that name the files.
pub open spec fn patch_line(line: Seq<char>) -> Option<DiffLineView> {
    if "---"@.is_prefix_of(line) || "+++"@.is_prefix_of(line) {
        None
    } else if "@@"@.is_prefix_of(line) {
        Some(DiffLineView::HunkHeader(line))
    } else if line.len() > 0 && line[0] == '-' {
        Some(DiffLineView::Removal(line.skip(1)))
    } else if line.len() > 0 && line[0] == '+' {
        Some(DiffLineView::Addition(line.skip(1)))
    } else if line.len() > 0 && line[0] == ' ' {
        Some(DiffLineView::Context(line.skip(1)))
    } else {
        Some(DiffLineView::Context(line))
    }
}

/// What the lines of a unified diff are shown as, in their order.
pub open spec fn patch_lines(ls: Seq<Seq<char>>) -> Seq<DiffLineView>
    decreases ls.len(),
{
    if ls.len() == 0 {
        Seq::empty()
    } else {
        match patch_line(ls.last()) {
            Some(d) => patch_lines(ls.drop_last()).push(d),
            None => patch_lines(ls.drop_last()),
        }
    }
}

fn parse_diff_line(line: &str) -> (r: Option<DiffLine>)
    ensures
        match r {
            Some(d) => patch_line(line@) == Some(d@),
            None => patch_line(line@) is None,
        },
{
    if starts_with(line, "---") || starts_with(line, "+++") {
        return None;
    }
    if starts_with(line, "@@") {
        return Some(DiffLine::HunkHeader(line.to_owned()));
    }
    if line.is_empty() {
        return Some(DiffLine::Context(line.to_owned()));
    }
    let first: char = line.get_char(0);
    if first == '-' {
        Some(DiffLine::Removal(skip_chars(line, 1)))
    } else if first == '+' {
        Some(DiffLine::Addition(skip_chars(line, 1)))
    } else if first == ' ' {
        Some(DiffLine::Context(skip_chars(line, 1)))
    } else {
        Some(DiffLine::Context(line.to_owned()))
    }
}

/// The lines of a unified diff by kind. The lines that name the files are left
/// out; a line without a mark counts as context.
pub fn parse_unified_diff_lines(patch: &str) -> (r: Vec<DiffLine>)
    ensures
        diff_views(r@) == patch_lines(lines(patch@)),
{
    let ls = split_lines(patch);
    let mut out: Vec<DiffLine> = Vec::new();
    let mut i: usize = 0;
    proof {
        assert(diff_views(out@) =~= Seq::<DiffLineView>::empty());
    }
    while i < ls.len()
        invariant
            i <= ls@.len(),
            views(ls@) == lines(patch@),
            diff_views(out@) == patch_lines(lines(patch@).take(i as int)),
        decreases ls@.len() - i,
    {
        let ghost all = lines(patch@);
        proof {
            assert(all.take(i + 1).drop_last() =~= all.take(i as int));
            assert(all.take(i + 1).last() == ls@[i as int]@);
        }
        match parse_diff_line(ls[i].as_str()) {
            Some(d) => {
                proof {
                    lemma_diff_views_push(out@, d);
                }
                out.push(d);
            },
            None => {},
        }
        i = i + 1;
    }
    proof {
        assert(lines(patch@).take(ls@.len() as int) =~= lines(patch@));
    }
    out
}

/// The lines of two halves of a diff are shown one after the other.
proof fn lemma_patch_lines_joined(a: Seq<Seq<char>>, b: Seq<Seq<char>>)
    ensures
        patch_lines(a + b) == patch_lines(a) + patch_lines(b),
    decreases b.len(),
{
    if b.len() == 0 {
        assert(a + b =~= a);
        assert(patch_lines(a) + patch_lines(b) =~= patch_lines(a));
    } else {
        lemma_patch_lines_joined(a, b.drop_last());
        assert((a + b).drop_last() =~= a + b.drop_last());
        assert((a + b).last() == b.last());
        assert(patch_lines(a + b) =~= patch_lines(a) + patch_lines(b));
    }
}

/// A diff that was put together at the end of a line is shown as its two halves are.
pub proof fn joined_diffs_are_shown_in_turn(a: Seq<char>, b: Seq<char>)
    requires
        a.len() == 0 || a.last() == '\n',
    ensures
        patch_lines(lines(a + b)) == patch_lines(lines(a)) + patch_lines(lines(b)),
{
    lemma_lines_joined(a, b);
    lemma_patch_lines_joined(lines(a), lines(b));
}

/// One replacement among several is shown as it is by itself.
pub proof fn single_replacement_is_shown_alike(many: Json, edit: Json, one: Json)
    requires
        many.text_or("operation"@, "find_replace"@) == "multi_find_replace"@,
        many.array_field("edits"@) == Some(seq![edit]),
        one.text_or("operation"@, "find_replace"@) == "find_replace"@,
        one.text_or("old_string"@, ""@) == edit.text_or("old_string"@, ""@),
        one.text_or("new_string"@, ""@) == edit.text_or("new_string"@, ""@),
    ensures
        edit_diff(many) == edit_diff(one),
{
    reveal_strlit("find_replace");
    reveal_strlit("multi_find_replace");
    reveal_strlit("insert_lines");
    reveal_strlit("delete_lines");
    reveal_strlit("replace_range");
    let edits = seq![edit];
    let old_text = edit.text_or("old_string"@, ""@);
    let new_text = edit.text_or("new_string"@, ""@);
    assert(edits.drop_last() =~= Seq::<Json>::empty());
    assert(replacements(edits.drop_last()).len() == 0);
    assert(replacements(edits) =~= removals(old_text) + additions(new_text));
    assert(lines(old_text).len() == 0 <==> old_text.len() == 0);
    assert(lines(new_text).len() == 0 <==> new_text.len() == 0);
    let op = many.text_or("operation"@, "find_replace"@);
    assert(op.len() == 18);
    assert(op != "find_replace"@ && op != "insert_lines"@);
    assert(op != "delete_lines"@ && op != "replace_range"@);
    let all = removals(old_text) + additions(new_text);
    assert(all.len() == lines(old_text).len() + lines(new_text).len());
    if all.len() > 0 {
        assert(edit_diff(one) == Some(DiffContentView::EditDiff { lines: all }));
        assert(edit_diff(many) == Some(DiffContentView::EditDiff { lines: all }));
    }
}

} // verus!
