//! What holds of how a scenario is exported.
use crate::export::{
    asks_overwrite, cleanup, export_step, is_cancellation, is_scenario_name, is_slug_char, trace_warning,
    ExportAction, ExportEvent, ExportStage, QuestionRequest, ScenarioPaths, WriteResult,
};
use crate::text::{debug_quoted, trim};
use crate::text_laws::{middle_occurs, occurs};
use vstd::prelude::*;

verus! {

/// A scenario's name holds small letters, digits and hyphens, begins with none
/// of the hyphens, and is neither empty nor longer than sixty-four.
pub proof fn names_are_plain(s: Seq<char>)
    ensures
        is_scenario_name(s) ==> {
            &&& 0 < s.len() <= 64
            &&& s[0] != '-'
            &&& forall|i: int|
                0 <= i < s.len() ==> ('a' <= #[trigger] s[i] && s[i] <= 'z') || ('0' <= s[i] && s[i]
                    <= '9') || (i > 0 && s[i] == '-') || (i == 0 && s[i] == '_' && s.len() > 1)
        },
        0 < s.len() <= 64 && (forall|i: int|
            0 <= i < s.len() ==> ('a' <= #[trigger] s[i] && s[i] <= 'z') || ('0' <= s[i] && s[i]
                <= '9') || (i > 0 && s[i] == '-') || (i == 0 && s[i] == '_' && s.len() > 1))
            ==> is_scenario_name(s),
{
    if is_scenario_name(s) {
        assert forall|i: int| 0 <= i < s.len() implies ('a' <= #[trigger] s[i] && s[i] <= 'z') || (
        '0' <= s[i] && s[i] <= '9') || (i > 0 && s[i] == '-') || (i == 0 && s[i] == '_' && s.len()
            > 1) by {
            if i > 0 {
                assert(is_slug_char(s[i]) || s[i] == '-');
            }
        }
    }
}

/// An empty answer and the words for a refusal call the export off.
pub proof fn refusals_call_it_off(name: Seq<char>)
    ensures
        is_cancellation(name) <==> name.len() == 0 || name == "User cancelled."@ || name
            == "User declined to answer."@,
{
}

/// A good name is taken on trimmed, and the scaffold is made for it; any other
/// answer ends the export with a word on why.
pub proof fn name_is_taken_on(
    raw: String,
    post: ExportStage,
    actions: Seq<ExportAction>,
)
    requires
        export_step(
            ExportStage::AwaitName,
            ExportEvent::NameReply { reply: Some(raw) },
            post,
            actions,
        ),
    ensures
        actions.len() == 1,
        ({
            let name = trim(raw@);
            let good = is_scenario_name(name) && name != "User cancelled."@ && name
                != "User declined to answer."@;
            &&& good ==> {
                &&& post is AwaitScaffold
                &&& post->AwaitScaffold_name@ == name
                &&& actions[0] is BuildScaffold
                &&& actions[0]->BuildScaffold_name@ == name
            }
            &&& !good ==> post is Done && actions[0] is Report
        }),
{
}

/// What was built for a scenario is what is written, under the same name and to
/// the same place, and nothing that exists is replaced unasked.
pub proof fn what_was_built_is_written(
    name: String,
    toml: String,
    paths: ScenarioPaths,
    mid: ExportStage,
    first: Seq<ExportAction>,
    existed: bool,
    post: ExportStage,
    second: Seq<ExportAction>,
)
    requires
        export_step(
            ExportStage::AwaitScaffold { name },
            ExportEvent::Scaffold { toml: Ok(toml), exists: false, paths },
            mid,
            first,
        ),
        export_step(mid, ExportEvent::DirMade { existed, outcome: Ok(()) }, post, second),
    ensures
        first == seq![ExportAction::MakeDir],
        second == seq![ExportAction::WriteManifest { toml, replace: false }],
        post is AwaitManifest,
        post->AwaitManifest_name == name,
        post->AwaitManifest_paths == paths,
        post->dir_existed == existed,
        !post->AwaitManifest_overwrite,
{
}

/// Where a manifest exists the user is asked first; only with that word is it
/// replaced, and with any other it is left alone.
pub proof fn existing_scenario_is_asked_about(
    name: String,
    toml: String,
    paths: ScenarioPaths,
    mid: ExportStage,
    first: Seq<ExportAction>,
    reply: Option<String>,
    post: ExportStage,
    second: Seq<ExportAction>,
)
    requires
        export_step(
            ExportStage::AwaitScaffold { name },
            ExportEvent::Scaffold { toml: Ok(toml), exists: true, paths },
            mid,
            first,
        ),
        export_step(mid, ExportEvent::OverwriteReply { reply }, post, second),
    ensures
        first.len() == 1,
        first[0] is Ask,
        second.len() == 1,
        ({
            let yes = reply is Some && reply->Some_0@ == "Overwrite"@;
            &&& yes ==> second[0] is MakeDir && post == (ExportStage::AwaitDir {
                name,
                toml,
                paths,
                overwrite: true,
            })
            &&& !yes ==> post is Done && second[0] is Report
        }),
{
}

/// Whatever goes wrong before the manifest is written ends the export with a
/// word on what it was.
pub proof fn failures_are_reported(
    pre: ExportStage,
    event: ExportEvent,
    post: ExportStage,
    actions: Seq<ExportAction>,
    error: String,
)
    requires
        export_step(pre, event, post, actions),
        pre is AwaitScaffold && (event matches ExportEvent::Scaffold { toml, .. } && toml
            == Err::<String, String>(error)) || pre is AwaitDir && (event matches ExportEvent::DirMade { outcome, .. } && outcome
            == Err::<(), String>(error)) || pre is AwaitManifest && (event matches ExportEvent::ManifestWritten {
            result,
        } && result == (WriteResult::WriteFailed { error })),
    ensures
        post is Done,
        actions.len() > 0,
        actions.last() is Report,
        pre is AwaitScaffold ==> actions.last()->Report_0@ == "Failed to build scaffold: "@ + error@,
        pre is AwaitDir ==> actions.last()->Report_0@ == "Failed to create "@
            + pre->AwaitDir_paths.dir@ + ": "@ + error@,
        pre is AwaitManifest ==> actions.last()->Report_0@ == "Failed to write "@
            + pre->AwaitManifest_paths.manifest@ + ": "@ + error@,
{
    if pre is AwaitManifest {
        assert(seq![actions.last()][0] == actions.last());
    }
}

/// A manifest that was written is followed by the trace, and the scenario is
/// told of under its name.
pub proof fn written_scenario_is_finished(
    name: String,
    paths: ScenarioPaths,
    overwrite: bool,
    dir_existed: bool,
    mid: ExportStage,
    first: Seq<ExportAction>,
    result: WriteResult,
    post: ExportStage,
    second: Seq<ExportAction>,
)
    requires
        export_step(
            ExportStage::AwaitManifest { name, paths, overwrite, dir_existed },
            ExportEvent::ManifestWritten { result: WriteResult::Written },
            mid,
            first,
        ),
        export_step(mid, ExportEvent::TraceWritten { result }, post, second),
    ensures
        first == seq![ExportAction::WriteTrace { replace: overwrite }],
        post is Done,
        second.len() > 0,
        second.last() == (ExportAction::Finish { name }),
        result is Written ==> second.len() == 1,
        !(result is Written) ==> second.len() == 2 && second[0] is Warn,
{
    if !(result is Written) {
        assert(second.drop_last()[0] == second[0]);
    }
}

/// What is made in vain is taken away again: the manifest unless it replaced
/// one, the directory unless it was there before.
pub proof fn what_was_made_in_vain_is_removed(overwrite: bool, dir_existed: bool)
    ensures
        cleanup(overwrite, dir_existed).contains(ExportAction::RemoveManifest) <==> !overwrite,
        cleanup(overwrite, dir_existed).contains(ExportAction::RemoveDir) <==> !dir_existed,
{
    let c = cleanup(overwrite, dir_existed);
    if !overwrite {
        assert(c[0] == ExportAction::RemoveManifest);
    }
    if !dir_existed {
        assert(c[c.len() - 1] == ExportAction::RemoveDir);
    }
}

/// A trace that was not written is told of, with the reason.
pub proof fn missing_trace_is_told(result: WriteResult, overwrite: bool, trace: Seq<char>)
    ensures
        trace_warning(result, overwrite, trace) is None <==> result is Written,
        result matches WriteResult::WriteFailed { error } ==> trace_warning(
            result,
            overwrite,
            trace,
        ) == Some("scenario.toml was written, but SESSION_TRACE.md failed: "@ + error@),
        result matches WriteResult::OpenFailed { already_exists, error } ==> trace_warning(
            result,
            overwrite,
            trace,
        ) == Some(
            if already_exists && !overwrite {
                "scenario.toml was written, but "@ + trace + " already exists — left untouched."@
            } else {
                "scenario.toml was written, but SESSION_TRACE.md could not be opened: "@ + error@
            },
        ),
{
}

/// The user is asked about the manifest that is there, and can call it off or
/// have it replaced.
pub proof fn overwriting_is_the_users_choice(q: QuestionRequest, manifest: Seq<char>)
    requires
        asks_overwrite(q, manifest),
    ensures
        q.options@.len() == 2,
        q.options@[0]@ == "Cancel"@,
        q.options@[1]@ == "Overwrite"@,
        occurs(manifest, q.question@),
        q.call_id@ == "slash-export-scenario-overwrite"@,
{
    middle_occurs(
        "scenario.toml already exists at "@,
        manifest,
        ". Overwrite it (and SESSION_TRACE.md)? Other files in the directory (e.g. fixtures you've already copied in) are preserved."@,
    );
}

/// A name that cannot be used is told back, with what can be.
pub proof fn bad_names_are_told(raw: String, post: ExportStage, actions: Seq<ExportAction>)
    requires
        export_step(
            ExportStage::AwaitName,
            ExportEvent::NameReply { reply: Some(raw) },
            post,
            actions,
        ),
    ensures
        trim(raw@).len() > 0 && trim(raw@) != "User cancelled."@ && trim(raw@)
            != "User declined to answer."@ && !is_scenario_name(trim(raw@)) ==> actions.len() == 1
            && actions[0] is Report && occurs(debug_quoted(trim(raw@)), actions[0]->Report_0@),
        trim(raw@).len() == 0 ==> actions.len() == 1 && actions[0] is Report
            && actions[0]->Report_0@ == "Scenario export cancelled."@,
{
    let quoted = debug_quoted(trim(raw@));
    middle_occurs(
        "Invalid scenario name "@,
        quoted,
        ". Use lowercase letters, digits, hyphens (a leading underscore is also allowed, matching the convention used by `_smoke` and similar scenarios)."@,
    );
}

/// A manifest that cannot be opened ends the export: where there is one already
/// it is left alone, else what was made is taken away; either way the user is
/// told which file it is.
pub proof fn unopened_manifest_is_told(
    name: String,
    paths: ScenarioPaths,
    overwrite: bool,
    dir_existed: bool,
    already_exists: bool,
    error: String,
    post: ExportStage,
    actions: Seq<ExportAction>,
)
    requires
        export_step(
            ExportStage::AwaitManifest { name, paths, overwrite, dir_existed },
            ExportEvent::ManifestWritten {
                result: WriteResult::OpenFailed { already_exists, error },
            },
            post,
            actions,
        ),
    ensures
        post is Done,
        actions.len() > 0,
        actions.last() is Report,
        already_exists && !overwrite ==> actions.len() == 1 && actions.last()->Report_0@
            == paths.manifest@ + " already exists; pick another name or remove it first."@,
        !already_exists || overwrite ==> actions.drop_last() == cleanup(overwrite, dir_existed)
            && actions.last()->Report_0@ == "Failed to open "@ + paths.manifest@ + ": "@ + error@,
{
    if !already_exists || overwrite {
        assert(seq![actions.last()][0] == actions.last());
    }
}

/// A question that was dropped ends the export.
pub proof fn dropped_questions_end_the_export(
    pre: ExportStage,
    post: ExportStage,
    actions: Seq<ExportAction>,
)
    requires
        pre is AwaitName && export_step(
            pre,
            ExportEvent::NameReply { reply: None },
            post,
            actions,
        ) || pre is AwaitOverwrite && export_step(
            pre,
            ExportEvent::OverwriteReply { reply: None },
            post,
            actions,
        ),
    ensures
        post is Done,
        actions.len() == 1,
        actions[0] is Report,
        actions[0]->Report_0@ == "Scenario export aborted (session reset)."@,
{
}

} // verus!
