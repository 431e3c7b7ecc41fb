//! What holds of what is shown of tool calls.
use crate::json::{member, Json};
use crate::text::{clip, decimal, lines};
use crate::tool::ToolName;
use crate::tool_display::{
    additions, args_summary, diff_content, edit_diff, patch_line, patch_lines, removals,
    replacements, DiffContentView, DiffLineView,
};
use vstd::prelude::*;

verus! {

/// A text that goes is shown line by line as removed, one that comes as added.
pub proof fn lines_are_shown_as_what_they_are(s: Seq<char>, i: int)
    requires
        0 <= i < lines(s).len(),
    ensures
        removals(s).len() == lines(s).len(),
        additions(s).len() == lines(s).len(),
        removals(s)[i] == DiffLineView::Removal(lines(s)[i]),
        additions(s)[i] == DiffLineView::Addition(lines(s)[i]),
{
}

/// Several replacements are shown as the change of the first ones followed by
/// the change of the rest.
pub proof fn replacements_join(a: Seq<Json>, b: Seq<Json>)
    ensures
        replacements(a + b) == replacements(a) + replacements(b),
    decreases b.len(),
{
    if b.len() == 0 {
        assert(a + b =~= a);
        assert(replacements(a) + replacements(b) =~= replacements(a));
    } else {
        replacements_join(a, b.drop_last());
        assert((a + b).drop_last() =~= a + b.drop_last());
        assert((a + b).last() == b.last());
        assert(replacements(a + b) =~= replacements(a) + replacements(b));
    }
}

/// One replacement is shown as all lines of its old text removed and then all
/// lines of its new text added.
pub proof fn replacement_of_one(edit: Json)
    ensures
        ({
            let old_lines = lines(edit.text_or("old_string"@, ""@));
            let new_lines = lines(edit.text_or("new_string"@, ""@));
            let shown = replacements(seq![edit]);
            &&& shown.len() == old_lines.len() + new_lines.len()
            &&& forall|i: int|
                0 <= i < old_lines.len() ==> #[trigger] shown[i] == DiffLineView::Removal(
                    old_lines[i],
                )
            &&& forall|i: int|
                0 <= i < new_lines.len() ==> #[trigger] shown[old_lines.len() + i]
                    == DiffLineView::Addition(new_lines[i])
        }),
        replacements(Seq::empty()).len() == 0,
{
    let one = seq![edit];
    assert(one.drop_last() =~= Seq::<Json>::empty());
    assert(replacements(one.drop_last()) =~= Seq::<DiffLineView>::empty());
}

/// Several replacements at once are shown in turn, and not at all where they
/// hold no line.
pub proof fn several_replacements_are_shown(args: Json, edits: Seq<Json>)
    requires
        args.text_or("operation"@, "find_replace"@) == "multi_find_replace"@,
        args.array_field("edits"@) == Some(edits),
    ensures
        replacements(edits).len() > 0 ==> diff_content(ToolName::Edit, args) == Some(
            DiffContentView::EditDiff { lines: replacements(edits) },
        ),
        replacements(edits).len() == 0 ==> diff_content(ToolName::Edit, args) is None,
{
    reveal_strlit("find_replace");
    reveal_strlit("multi_find_replace");
    reveal_strlit("insert_lines");
    reveal_strlit("delete_lines");
    reveal_strlit("replace_range");
    let op = args.text_or("operation"@, "find_replace"@);
    assert(op.len() != "find_replace"@.len() && op.len() != "insert_lines"@.len());
    assert(op.len() != "delete_lines"@.len() && op.len() != "replace_range"@.len());
}

/// A replacement is shown as all old lines removed, then all new lines added.
pub proof fn replacement_is_shown(args: Json)
    requires
        args.text_or("operation"@, "find_replace"@) == "find_replace"@,
    ensures
        ({
            let old_text = args.text_or("old_string"@, ""@);
            let new_text = args.text_or("new_string"@, ""@);
            let m = lines(old_text).len() as int;
            &&& old_text.len() == 0 && new_text.len() == 0 ==> diff_content(ToolName::Edit, args)
                is None
            &&& old_text.len() > 0 || new_text.len() > 0 ==> {
                &&& diff_content(ToolName::Edit, args) matches Some(DiffContentView::EditDiff {
                    lines: shown,
                })
                &&& shown.len() == m + lines(new_text).len()
                &&& forall|i: int|
                    0 <= i < m ==> #[trigger] shown[i] == DiffLineView::Removal(lines(old_text)[i])
                &&& forall|i: int|
                    0 <= i < lines(new_text).len() ==> #[trigger] shown[m + i]
                        == DiffLineView::Addition(lines(new_text)[i])
            }
        }),
{
}

proof fn lemma_operations()
    ensures
        "insert_lines"@ != "find_replace"@,
        "delete_lines"@ != "find_replace"@,
        "delete_lines"@ != "insert_lines"@,
        "replace_range"@ != "find_replace"@,
        "replace_range"@ != "insert_lines"@,
        "replace_range"@ != "delete_lines"@,
{
    reveal_strlit("find_replace");
    reveal_strlit("insert_lines");
    reveal_strlit("delete_lines");
    reveal_strlit("replace_range");
    assert("insert_lines"@[0] != "find_replace"@[0]);
    assert("delete_lines"@[0] != "find_replace"@[0]);
    assert("delete_lines"@[0] != "insert_lines"@[0]);
    assert("replace_range"@[0] != "find_replace"@[0]);
    assert("replace_range"@[0] != "insert_lines"@[0]);
    assert("replace_range"@[0] != "delete_lines"@[0]);
}

/// Lines that are inserted are shown as added, behind where they go.
pub proof fn insertion_is_shown(args: Json)
    requires
        args.text_or("operation"@, "find_replace"@) == "insert_lines"@,
    ensures
        ({
            let content = args.text_or("content"@, ""@);
            &&& content.len() == 0 ==> diff_content(ToolName::Edit, args) is None
            &&& content.len() > 0 ==> {
                &&& diff_content(ToolName::Edit, args) matches Some(DiffContentView::EditDiff {
                    lines: shown,
                })
                &&& shown.len() == 1 + lines(content).len()
                &&& shown[0] == DiffLineView::HunkHeader(
                    "@@ +"@ + decimal(args.uint_or_zero("line"@) as nat) + " @@"@,
                )
                &&& forall|i: int|
                    0 <= i < lines(content).len() ==> #[trigger] shown[1 + i]
                        == DiffLineView::Addition(lines(content)[i])
            }
        }),
{
    lemma_operations();
}

/// Lines that are deleted are shown by where they begin and how many they are.
pub proof fn deletion_is_shown(args: Json)
    requires
        args.text_or("operation"@, "find_replace"@) == "delete_lines"@,
    ensures
        ({
            let start = args.uint_or_zero("start_line"@) as int;
            let end = args.uint_or_zero("end_line"@) as int;
            let n = decimal(
                (if end >= start {
                    end - start + 1
                } else {
                    1
                }) as nat,
            );
            &&& diff_content(ToolName::Edit, args) matches Some(DiffContentView::EditDiff {
                lines: shown,
            })
            &&& shown.len() == 2
            &&& shown[0] == DiffLineView::HunkHeader(
                "@@ -"@ + decimal(start as nat) + ","@ + n + " @@"@,
            )
            &&& shown[1] == DiffLineView::Removal("("@ + n + " line(s) deleted)"@)
        }),
{
    lemma_operations();
}

/// Lines that are replaced are shown by where they begin and how many they are,
/// and the new ones as added.
pub proof fn range_replacement_is_shown(args: Json)
    requires
        args.text_or("operation"@, "find_replace"@) == "replace_range"@,
    ensures
        ({
            let start = args.uint_or_zero("start_line"@) as int;
            let end = args.uint_or_zero("end_line"@) as int;
            let n = decimal(
                (if end >= start {
                    end - start + 1
                } else {
                    1
                }) as nat,
            );
            let content = args.text_or("content"@, ""@);
            &&& diff_content(ToolName::Edit, args) matches Some(DiffContentView::EditDiff {
                lines: shown,
            })
            &&& shown.len() == 2 + lines(content).len()
            &&& shown[0] == DiffLineView::HunkHeader(
                "@@ -"@ + decimal(start as nat) + ","@ + n + " @@"@,
            )
            &&& shown[1] == DiffLineView::Removal("("@ + n + " line(s) replaced)"@)
            &&& forall|i: int|
                0 <= i < lines(content).len() ==> #[trigger] shown[2 + i] == DiffLineView::Addition(
                    lines(content)[i],
                )
        }),
{
    lemma_operations();
}

/// A file that is written is shown by its number of lines; tools that change no
/// file show no change.
pub proof fn written_lines_are_counted(args: Json, tool: ToolName)
    ensures
        diff_content(ToolName::Write, args) == Some(
            DiffContentView::WriteSummary { line_count: lines(args.text_or("content"@, ""@)).len() },
        ),
        args.text_or("diff"@, ""@).len() == 0 ==> diff_content(ToolName::Patch, args) is None,
        args.text_or("diff"@, ""@).len() > 0 ==> diff_content(ToolName::Patch, args) == Some(
            DiffContentView::PatchDiff { lines: patch_lines(lines(args.text_or("diff"@, ""@))) },
        ),
        tool != ToolName::Edit && tool != ToolName::Write && tool != ToolName::Patch
            ==> diff_content(tool, args) is None,
{
}

/// A line of a diff is what its mark says, and shown without it; the lines that
/// name the files are left out.
pub proof fn marks_say_what_lines_are(rest: Seq<char>)
    requires
        rest.len() == 0 || (rest[0] != '-' && rest[0] != '+'),
    ensures
        patch_line(seq!['+'] + rest) == Some(DiffLineView::Addition(rest)),
        patch_line(seq!['-'] + rest) == Some(DiffLineView::Removal(rest)),
        patch_line(seq![' '] + rest) == Some(DiffLineView::Context(rest)),
        patch_line("@@"@ + rest) == Some(DiffLineView::HunkHeader("@@"@ + rest)),
        patch_line("---"@ + rest) is None,
        patch_line("+++"@ + rest) is None,
        patch_line(Seq::empty()) == Some(DiffLineView::Context(Seq::empty())),
{
    reveal_strlit("---");
    reveal_strlit("+++");
    reveal_strlit("@@");
    let plus = seq!['+'] + rest;
    let minus = seq!['-'] + rest;
    let blank = seq![' '] + rest;
    let none = Seq::<char>::empty();
    assert(plus.skip(1) =~= rest);
    assert(minus.skip(1) =~= rest);
    assert(blank.skip(1) =~= rest);
    if "---"@.is_prefix_of(minus) {
        assert(minus.subrange(0, 3)[1] == '-');
    }
    if "+++"@.is_prefix_of(plus) {
        assert(plus.subrange(0, 3)[1] == '+');
    }
    if "---"@.is_prefix_of(plus) {
        assert(plus.subrange(0, 3)[0] == '-');
    }
    if "+++"@.is_prefix_of(minus) {
        assert(minus.subrange(0, 3)[0] == '+');
    }
    if "@@"@.is_prefix_of(plus) {
        assert(plus.subrange(0, 2)[0] == '@');
    }
    if "@@"@.is_prefix_of(minus) {
        assert(minus.subrange(0, 2)[0] == '@');
    }
    if "---"@.is_prefix_of(blank) {
        assert(blank.subrange(0, 3)[0] == '-');
    }
    if "+++"@.is_prefix_of(blank) {
        assert(blank.subrange(0, 3)[0] == '+');
    }
    if "@@"@.is_prefix_of(blank) {
        assert(blank.subrange(0, 2)[0] == '@');
    }
    let hunk = "@@"@ + rest;
    assert(hunk.subrange(0, 2) =~= "@@"@);
    if "---"@.is_prefix_of(hunk) {
        assert(hunk.subrange(0, 3)[0] == '-');
    }
    if "+++"@.is_prefix_of(hunk) {
        assert(hunk.subrange(0, 3)[0] == '+');
    }
    assert(("---"@ + rest).subrange(0, 3) =~= "---"@);
    assert(("+++"@ + rest).subrange(0, 3) =~= "+++"@);
}

/// Every line of a diff that names no file is shown, in order.
pub proof fn diff_lines_are_shown(a: Seq<Seq<char>>, line: Seq<char>, b: Seq<Seq<char>>)
    ensures
        patch_lines(a + seq![line] + b) == patch_lines(a) + (match patch_line(line) {
            Some(d) => seq![d],
            None => Seq::empty(),
        }) + patch_lines(b),
    decreases b.len(),
{
    let all = a + seq![line] + b;
    let one = match patch_line(line) {
        Some(d) => seq![d],
        None => Seq::empty(),
    };
    if b.len() == 0 {
        assert(all =~= a.push(line));
        assert(a.push(line).drop_last() =~= a);
        assert(patch_lines(all) =~= patch_lines(a) + one + patch_lines(b));
    } else {
        diff_lines_are_shown(a, line, b.drop_last());
        assert(all.drop_last() =~= a + seq![line] + b.drop_last());
        assert(all.last() == b.last());
        assert(patch_lines(all) =~= patch_lines(a) + one + patch_lines(b));
    }
}

/// A member of an object is the first one with its name.
pub proof fn members_are_found_by_name(members: Seq<(String, Json)>, key: Seq<char>)
    ensures
        member(members, key) is None <==> forall|i: int|
            0 <= i < members.len() ==> (#[trigger] members[i]).0@ != key,
        member(members, key) matches Some(v) ==> exists|i: int|
            {
                &&& 0 <= i < members.len()
                &&& (#[trigger] members[i]).0@ == key
                &&& members[i].1 == v
                &&& forall|j: int| 0 <= j < i ==> (#[trigger] members[j]).0@ != key
            },
    decreases members.len(),
{
    if members.len() > 0 && members[0].0@ != key {
        let rest = members.skip(1);
        members_are_found_by_name(rest, key);
        if member(rest, key) is None {
            assert forall|i: int| 0 <= i < members.len() implies (#[trigger] members[i]).0@
                != key by {
                if i > 0 {
                    assert(rest[i - 1] == members[i]);
                }
            }
        } else {
            let v = member(rest, key)->Some_0;
            let i = choose|i: int|
                {
                    &&& 0 <= i < rest.len()
                    &&& (#[trigger] rest[i]).0@ == key
                    &&& rest[i].1 == v
                    &&& forall|j: int| 0 <= j < i ==> (#[trigger] rest[j]).0@ != key
                };
            assert(members[i + 1] == rest[i]);
            assert forall|j: int| 0 <= j < i + 1 implies (#[trigger] members[j]).0@ != key by {
                if j > 0 {
                    assert(rest[j - 1] == members[j]);
                }
            }
        }
    }
}

/// A field is read as what it is: a text, a number, a mark or a list; one of
/// another kind, or a missing one, does not count.
pub proof fn fields_are_read_as_they_are(
    members: Vec<(String, Json)>,
    key: Seq<char>,
    default: Seq<char>,
)
    ensures
        ({
            let args = Json::Object(members);
            match member(members@, key) {
                Some(Json::Str(s)) => {
                    &&& args.text_or(key, default) == s@
                    &&& args.uint_or_zero(key) == 0
                    &&& !args.flag(key)
                    &&& args.array_field(key) is None
                },
                Some(Json::UInt(n)) => {
                    &&& args.text_or(key, default) == default
                    &&& args.uint_field(key) == Some(n)
                    &&& args.uint_or_zero(key) == n
                    &&& !args.flag(key)
                },
                Some(Json::Bool(b)) => args.flag(key) == b && args.text_or(key, default)
                    == default,
                Some(Json::Array(items)) => args.array_field(key) == Some(items@),
                _ => {
                    &&& args.text_or(key, default) == default
                    &&& args.uint_field(key) is None
                    &&& args.uint_or_zero(key) == 0
                    &&& !args.flag(key)
                    &&& args.array_field(key) is None
                },
            }
        }),
{
}

/// A call is summed up by the path, the pattern, the command or the like that
/// it was made with.
pub proof fn calls_are_summed_up(args: Json)
    ensures
        args_summary(ToolName::Grep, args) == args.text_or("pattern"@, ""@),
        args_summary(ToolName::Glob, args) == args.text_or("pattern"@, ""@),
        args_summary(ToolName::List, args) == args.text_or("path"@, ""@),
        args_summary(ToolName::Delete, args) == args.text_or("path"@, ""@),
        args_summary(ToolName::Mkdir, args) == args.text_or("path"@, ""@),
        args_summary(ToolName::Edit, args) == args.text_or("file_path"@, ""@),
        args_summary(ToolName::Write, args) == args.text_or("file_path"@, ""@),
        args_summary(ToolName::Patch, args) == args.text_or("file_path"@, ""@),
        args_summary(ToolName::Move, args) == args.text_or("from_path"@, ""@) + " \u{2192} "@
            + args.text_or("to_path"@, ""@),
        args_summary(ToolName::Copy, args) == args.text_or("from_path"@, ""@) + " \u{2192} "@
            + args.text_or("to_path"@, ""@),
        args_summary(ToolName::Bash, args) == clip(args.text_or("command"@, ""@), 40, 37),
        args_summary(ToolName::Question, args) == clip(args.text_or("question"@, ""@), 30, 27),
        args_summary(ToolName::Task, args) == args.text_or("action"@, ""@),
        args_summary(ToolName::Memory, args) == args.text_or("action"@, ""@),
        args_summary(ToolName::Webfetch, args) == args.text_or("url"@, ""@),
        args_summary(ToolName::Agent, args) == args.text_or("agent_type"@, "explore"@) + ": "@
            + clip(args.text_or("task"@, ""@), 30, 27),
{
}

/// A question about code is summed up by its path and what it asks for there.
pub proof fn code_questions_are_summed_up(args: Json)
    ensures
        ({
            let path = args.text_or("path"@, ""@);
            let line = decimal(args.uint_or_zero("line"@) as nat);
            let about = args.text_or("operation"@, "list_symbols"@);
            let asked = args.text_or("operation"@, "diagnostics"@);
            &&& about == "find_scope"@ ==> args_summary(ToolName::Symbols, args) == path
                + " scope@"@ + line
            &&& about == "find_definition"@ ==> args_summary(ToolName::Symbols, args) == path
                + " def:"@ + args.text_or("name"@, ""@)
            &&& about != "find_scope"@ && about != "find_definition"@ ==> args_summary(
                ToolName::Symbols,
                args,
            ) == path
            &&& asked == "diagnostics"@ ==> args_summary(ToolName::Lsp, args) == path
                + " diagnostics"@
            &&& asked != "diagnostics"@ ==> args_summary(ToolName::Lsp, args) == path + " "@ + asked
                + "@"@ + line
        }),
{
    reveal_strlit("find_scope");
    reveal_strlit("find_definition");
    assert("find_scope"@.len() != "find_definition"@.len());
}

/// A read is summed up by its path, or by how many paths it names.
pub proof fn reads_are_summed_up(args: Json)
    ensures
        ({
            let path = args.text_or("path"@, ""@);
            let told = args_summary(ToolName::Read, args);
            let paths = args.array_field("paths"@);
            let tail = args.uint_field("tail"@);
            &&& paths is Some ==> told == decimal(paths->Some_0.len()) + " files"@
            &&& paths is None && args.flag("count"@) ==> told == path + " (count)"@
            &&& paths is None && !args.flag("count"@) && tail is None ==> told == path
            &&& paths is None && !args.flag("count"@) && tail is Some ==> told == path + " (tail "@
                + decimal(tail->Some_0 as nat) + ")"@
        }),
{
}

/// An edit of an unknown kind shows no change.
pub proof fn unknown_edits_show_nothing(args: Json)
    requires
        ({
            let op = args.text_or("operation"@, "find_replace"@);
            op != "find_replace"@ && op != "insert_lines"@ && op != "delete_lines"@ && op
                != "replace_range"@ && op != "multi_find_replace"@
        }),
    ensures
        edit_diff(args) is None,
{
}

} // verus!
