//! The dialogue that saves a session as a scenario. Each step takes what
//! happened outside and says what is to be done next.
use crate::text::{cat2, cat3, debug_quoted, debug_text, same_text, trim, trimmed};
use vstd::prelude::*;
use vstd::string::*;

verus! {

/// A question put to the user.
#[derive(Debug, PartialEq, Eq)]
pub struct QuestionRequest {
    pub call_id: String,
    pub question: String,
    pub options: Vec<String>,
}

/// The files of a scenario, as they are shown to the user.
#[derive(Debug, PartialEq, Eq)]
pub struct ScenarioPaths {
    pub dir: String,
    pub manifest: String,
    pub trace: String,
}

/// How an attempt to write a file ended.
#[derive(Debug, PartialEq, Eq)]
pub enum WriteResult {
    Written,
    WriteFailed { error: String },
    OpenFailed { already_exists: bool, error: String },
}

/// What the dialogue waits for.
#[derive(Debug, PartialEq, Eq)]
pub enum ExportStage {
    AwaitName,
    AwaitScaffold { name: String },
    AwaitOverwrite { name: String, toml: String, paths: ScenarioPaths },
    AwaitDir { name: String, toml: String, paths: ScenarioPaths, overwrite: bool },
    AwaitManifest { name: String, paths: ScenarioPaths, overwrite: bool, dir_existed: bool },
    AwaitTrace { name: String, paths: ScenarioPaths, overwrite: bool },
    Done,
}

/// What happened outside. A reply is missing where the question was dropped
/// without an answer.
#[derive(Debug, PartialEq, Eq)]
pub enum ExportEvent {
    NameReply { reply: Option<String> },
    Scaffold { toml: Result<String, String>, exists: bool, paths: ScenarioPaths },
    OverwriteReply { reply: Option<String> },
    DirMade { existed: bool, outcome: Result<(), String> },
    ManifestWritten { result: WriteResult },
    TraceWritten { result: WriteResult },
}

/// What is to be done next. A file that is not to be replaced is created only
/// where there is none.
#[derive(Debug, PartialEq, Eq)]
pub enum ExportAction {
    Ask(QuestionRequest),
    BuildScaffold { name: String },
    MakeDir,
    WriteManifest { toml: String, replace: bool },
    WriteTrace { replace: bool },
    RemoveManifest,
    RemoveDir,
    /// Tells the user why nothing was exported.
    Report(String),
    /// Tells the user what is missing in an export that is done.
    Warn(String),
    Finish { name: String },
}

/// How long the name of a scenario may be.
pub const SCENARIO_NAME_MAX_LEN: usize = 64;

/// Whether `c` may stand in a scenario's name.
pub open spec fn is_slug_char(c: char) -> bool {
    ('a' <= c && c <= 'z') || ('0' <= c && c <= '9')
}

/// Whether `s` can name a scenario: up to 64 small letters, digits and hyphens,
/// the first of them a letter, a digit or an underscore that does not stand alone.
pub open spec fn is_scenario_name(s: Seq<char>) -> bool {
    &&& 1 <= s.len() <= SCENARIO_NAME_MAX_LEN
    &&& is_slug_char(s[0]) || s[0] == '_'
    &&& forall|i: int| 1 <= i < s.len() ==> is_slug_char(#[trigger] s[i]) || s[i] == '-'
    &&& !(s[0] == '_' && s.len() == 1)
}

/// Whether `s` can name a scenario.
pub fn is_valid_scenario_name(s: &str) -> (r: bool)
    ensures
        r == is_scenario_name(s@),
{
    let n: usize = s.unicode_len();
    if n == 0 || n > SCENARIO_NAME_MAX_LEN {
        return false;
    }
    let first: char = s.get_char(0);
    if !(('a' <= first && first <= 'z') || ('0' <= first && first <= '9') || first == '_') {
        return false;
    }
    let mut i: usize = 1;
    while i < n
        invariant
            1 <= i <= n,
            n == s@.len(),
            forall|k: int| 1 <= k < i ==> is_slug_char(#[trigger] s@[k]) || s@[k] == '-',
        decreases n - i,
    {
        let c: char = s.get_char(i);
        if !(('a' <= c && c <= 'z') || ('0' <= c && c <= '9') || c == '-') {
            return false;
        }
        i = i + 1;
    }
    !(first == '_' && n == 1)
}

/// The question for the name.
pub const NAME_QUESTION: &'static str =
    "Scenario name (lowercase letters, digits, hyphens; leading _ ok):";

/// What the user is told of a name that cannot be used, given the name in quotes.
pub open spec fn invalid_name(quoted: Seq<char>) -> Seq<char> {
    "Invalid scenario name "@ + quoted
        + ". Use lowercase letters, digits, hyphens (a leading underscore is also allowed, matching the convention used by `_smoke` and similar scenarios)."@
}

/// What the user is told of a name that cannot be used, given the name in quotes.
pub fn invalid_name_message(quoted: &str) -> (r: String)
    ensures
        r@ == invalid_name(quoted@),
{
    cat3(
        "Invalid scenario name ",
        quoted,
        ". Use lowercase letters, digits, hyphens (a leading underscore is also allowed, matching the convention used by `_smoke` and similar scenarios).",
    )
}

/// Whether the user called the export off by what was answered.
pub open spec fn is_cancellation(name: Seq<char>) -> bool {
    name.len() == 0 || name == "User cancelled."@ || name == "User declined to answer."@
}

/// Whether all that is to be done is to tell the user `text`.
pub open spec fn reports(actions: Seq<ExportAction>, text: Seq<char>) -> bool {
    &&& actions.len() == 1
    &&& actions[0] matches ExportAction::Report(t)
    &&& t@ == text
}

/// Whether all that is to be done is to warn the user with `text`.
pub open spec fn warns(actions: Seq<ExportAction>, text: Seq<char>) -> bool {
    &&& actions.len() == 1
    &&& actions[0] matches ExportAction::Warn(t)
    &&& t@ == text
}

/// Whether `q` asks if the existing manifest is to be replaced.
pub open spec fn asks_overwrite(q: QuestionRequest, manifest: Seq<char>) -> bool {
    &&& q.call_id@ == "slash-export-scenario-overwrite"@
    &&& q.question@ == "scenario.toml already exists at "@ + manifest
        + ". Overwrite it (and SESSION_TRACE.md)? Other files in the directory (e.g. fixtures you've already copied in) are preserved."@
    &&& q.options@.len() == 2
    &&& q.options@[0]@ == "Cancel"@
    &&& q.options@[1]@ == "Overwrite"@
}

/// What is removed after the manifest could not be written: the manifest
/// where there was none before, the directory where there was none before.
pub open spec fn cleanup(overwrite: bool, dir_existed: bool) -> Seq<ExportAction> {
    (if overwrite {
        Seq::empty()
    } else {
        seq![ExportAction::RemoveManifest]
    }) + (if dir_existed {
        Seq::empty()
    } else {
        seq![ExportAction::RemoveDir]
    })
}

/// What the user is told of a trace that was not written.
pub open spec fn trace_warning(result: WriteResult, overwrite: bool, trace: Seq<char>) -> Option<
    Seq<char>,
> {
    match result {
        WriteResult::Written => None,
        WriteResult::WriteFailed { error } => Some(
            "scenario.toml was written, but SESSION_TRACE.md failed: "@ + error@,
        ),
        WriteResult::OpenFailed { already_exists, error } => if already_exists && !overwrite {
            Some("scenario.toml was written, but "@ + trace + " already exists — left untouched."@)
        } else {
            Some(
                "scenario.toml was written, but SESSION_TRACE.md could not be opened: "@ + error@,
            )
        },
    }
}

/// Whether the step from `pre` on `event` leads to `post` and to `actions`.
pub open spec fn export_step(
    pre: ExportStage,
    event: ExportEvent,
    post: ExportStage,
    actions: Seq<ExportAction>,
) -> bool {
    match (pre, event) {
        (ExportStage::AwaitName, ExportEvent::NameReply { reply }) => match reply {
            None => post is Done && reports(actions, "Scenario export aborted (session reset)."@),
            Some(raw) => {
                let name = trim(raw@);
                if is_cancellation(name) {
                    post is Done && reports(actions, "Scenario export cancelled."@)
                } else if !is_scenario_name(name) {
                    post is Done && reports(actions, invalid_name(debug_quoted(name)))
                } else {
                    &&& post matches ExportStage::AwaitScaffold { name: n }
                    &&& n@ == name
                    &&& actions.len() == 1
                    &&& actions[0] matches ExportAction::BuildScaffold { name: m }
                    &&& m@ == name
                }
            },
        },
        (
            ExportStage::AwaitScaffold { name },
            ExportEvent::Scaffold { toml, exists, paths },
        ) => match toml {
            Err(e) => post is Done && reports(actions, "Failed to build scaffold: "@ + e@),
            Ok(t) => if exists {
                &&& post == (ExportStage::AwaitOverwrite { name, toml: t, paths })
                &&& actions.len() == 1
                &&& actions[0] matches ExportAction::Ask(q)
                &&& asks_overwrite(q, paths.manifest@)
            } else {
                &&& post == (ExportStage::AwaitDir { name, toml: t, paths, overwrite: false })
                &&& actions == seq![ExportAction::MakeDir]
            },
        },
        (
            ExportStage::AwaitOverwrite { name, toml, paths },
            ExportEvent::OverwriteReply { reply },
        ) => match reply {
            None => post is Done && reports(actions, "Scenario export aborted (session reset)."@),
            Some(answer) => if answer@ == "Overwrite"@ {
                &&& post == (ExportStage::AwaitDir { name, toml, paths, overwrite: true })
                &&& actions == seq![ExportAction::MakeDir]
            } else {
                &&& post is Done
                &&& reports(actions, "Scenario export cancelled (existing scenario preserved)."@)
            },
        },
        (
            ExportStage::AwaitDir { name, toml, paths, overwrite },
            ExportEvent::DirMade { existed, outcome },
        ) => match outcome {
            Err(e) => post is Done && reports(
                actions,
                "Failed to create "@ + paths.dir@ + ": "@ + e@,
            ),
            Ok(_) => {
                &&& post == (ExportStage::AwaitManifest {
                    name,
                    paths,
                    overwrite,
                    dir_existed: existed,
                })
                &&& actions == seq![ExportAction::WriteManifest { toml, replace: overwrite }]
            },
        },
        (
            ExportStage::AwaitManifest { name, paths, overwrite, dir_existed },
            ExportEvent::ManifestWritten { result },
        ) => match result {
            WriteResult::Written => {
                &&& post == (ExportStage::AwaitTrace { name, paths, overwrite })
                &&& actions == seq![ExportAction::WriteTrace { replace: overwrite }]
            },
            WriteResult::WriteFailed { error } => {
                &&& post is Done
                &&& actions.len() > 0
                &&& actions.drop_last() == cleanup(overwrite, dir_existed)
                &&& reports(
                    seq![actions.last()],
                    "Failed to write "@ + paths.manifest@ + ": "@ + error@,
                )
            },
            WriteResult::OpenFailed { already_exists, error } => if already_exists && !overwrite {
                post is Done && reports(
                    actions,
                    paths.manifest@ + " already exists; pick another name or remove it first."@,
                )
            } else {
                &&& post is Done
                &&& actions.len() > 0
                &&& actions.drop_last() == cleanup(overwrite, dir_existed)
                &&& reports(
                    seq![actions.last()],
                    "Failed to open "@ + paths.manifest@ + ": "@ + error@,
                )
            },
        },
        (
            ExportStage::AwaitTrace { name, paths, overwrite },
            ExportEvent::TraceWritten { result },
        ) => {
            &&& post is Done
            &&& actions.len() > 0
            &&& actions.last() == (ExportAction::Finish { name })
            &&& match trace_warning(result, overwrite, paths.trace@) {
                None => actions.len() == 1,
                Some(w) => warns(actions.drop_last(), w),
            }
        },
        _ => post == pre && actions.len() == 0,
    }
}

fn report(text: String) -> (r: (ExportStage, Vec<ExportAction>))
    ensures
        r.0 is Done,
        reports(r.1@, text@),
{
    (ExportStage::Done, vec![ExportAction::Report(text)])
}

fn cleanup_actions(overwrite: bool, dir_existed: bool) -> (r: Vec<ExportAction>)
    ensures
        r@ == cleanup(overwrite, dir_existed),
{
    let mut v: Vec<ExportAction> = Vec::new();
    if !overwrite {
        v.push(ExportAction::RemoveManifest);
    }
    if !dir_existed {
        v.push(ExportAction::RemoveDir);
    }
    proof {
        assert(v@ =~= cleanup(overwrite, dir_existed));
    }
    v
}

fn warn_of_trace(result: &WriteResult, overwrite: bool, trace: &str) -> (r: Option<String>)
    ensures
        match r {
            Some(w) => trace_warning(*result, overwrite, trace@) == Some(w@),
            None => trace_warning(*result, overwrite, trace@) is None,
        },
{
    match result {
        WriteResult::Written => None,
        WriteResult::WriteFailed { error } => Some(
            cat2("scenario.toml was written, but SESSION_TRACE.md failed: ", error.as_str()),
        ),
        WriteResult::OpenFailed { already_exists, error } => {
            if *already_exists && !overwrite {
                Some(
                    cat3(
                        "scenario.toml was written, but ",
                        trace,
                        " already exists — left untouched.",
                    ),
                )
            } else {
                Some(
                    cat2(
                        "scenario.toml was written, but SESSION_TRACE.md could not be opened: ",
                        error.as_str(),
                    ),
                )
            }
        },
    }
}

fn overwrite_question(manifest: &str) -> (r: QuestionRequest)
    ensures
        asks_overwrite(r, manifest@),
{
    let options = vec!["Cancel".to_owned(), "Overwrite".to_owned()];
    QuestionRequest {
        call_id: "slash-export-scenario-overwrite".to_owned(),
        question: cat3(
            "scenario.toml already exists at ",
            manifest,
            ". Overwrite it (and SESSION_TRACE.md)? Other files in the directory (e.g. fixtures you've already copied in) are preserved.",
        ),
        options,
    }
}

/// The first step: the user is asked for the name of the scenario.
pub fn start_export() -> (r: (ExportStage, QuestionRequest))
    ensures
        r.0 is AwaitName,
        r.1.call_id@ == "slash-export-scenario"@,
        r.1.question@ == NAME_QUESTION@,
        r.1.options@.len() == 0,
{
    (
        ExportStage::AwaitName,
        QuestionRequest {
            call_id: "slash-export-scenario".to_owned(),
            question: NAME_QUESTION.to_owned(),
            options: Vec::new(),
        },
    )
}

/// One step of the dialogue. An event that the stage does not wait for changes nothing.
pub fn continue_export(stage: ExportStage, event: ExportEvent) -> (r: (
    ExportStage,
    Vec<ExportAction>,
))
    ensures
        export_step(stage, event, r.0, r.1@),
{
    match (stage, event) {
        (ExportStage::AwaitName, ExportEvent::NameReply { reply }) => match reply {
            None => report("Scenario export aborted (session reset).".to_owned()),
            Some(raw) => {
                let name = trimmed(raw.as_str());
                if name.as_str().is_empty() || same_text(name.as_str(), "User cancelled.")
                    || same_text(name.as_str(), "User declined to answer.") {
                    report("Scenario export cancelled.".to_owned())
                } else if !is_valid_scenario_name(name.as_str()) {
                    let quoted = debug_text(name.as_str());
                    report(invalid_name_message(quoted.as_str()))
                } else {
                    let actions = vec![ExportAction::BuildScaffold { name: name.clone() }];
                    (ExportStage::AwaitScaffold { name }, actions)
                }
            },
        },
        (ExportStage::AwaitScaffold { name }, ExportEvent::Scaffold { toml, exists, paths }) => {
            match toml {
                Err(e) => report(cat2("Failed to build scaffold: ", e.as_str())),
                Ok(t) => {
                    if exists {
                        let actions = vec![
                            ExportAction::Ask(overwrite_question(paths.manifest.as_str())),
                        ];
                        (ExportStage::AwaitOverwrite { name, toml: t, paths }, actions)
                    } else {
                        let actions = vec![ExportAction::MakeDir];
                        proof {
                            assert(actions@ =~= seq![ExportAction::MakeDir]);
                        }
                        (ExportStage::AwaitDir { name, toml: t, paths, overwrite: false }, actions)
                    }
                },
            }
        },
        (
            ExportStage::AwaitOverwrite { name, toml, paths },
            ExportEvent::OverwriteReply { reply },
        ) => match reply {
            None => report("Scenario export aborted (session reset).".to_owned()),
            Some(answer) => {
                if same_text(answer.as_str(), "Overwrite") {
                    let actions = vec![ExportAction::MakeDir];
                    proof {
                        assert(actions@ =~= seq![ExportAction::MakeDir]);
                    }
                    (ExportStage::AwaitDir { name, toml, paths, overwrite: true }, actions)
                } else {
                    report("Scenario export cancelled (existing scenario preserved).".to_owned())
                }
            },
        },
        (
            ExportStage::AwaitDir { name, toml, paths, overwrite },
            ExportEvent::DirMade { existed, outcome },
        ) => match outcome {
            Err(e) => {
                let text = cat3("Failed to create ", paths.dir.as_str(), ": ");
                report(cat2(text.as_str(), e.as_str()))
            },
            Ok(_) => {
                let ghost t = toml;
                let actions = vec![ExportAction::WriteManifest { toml, replace: overwrite }];
                proof {
                    assert(actions@ =~= seq![
                        ExportAction::WriteManifest { toml: t, replace: overwrite },
                    ]);
                }
                (
                    ExportStage::AwaitManifest { name, paths, overwrite, dir_existed: existed },
                    actions,
                )
            },
        },
        (
            ExportStage::AwaitManifest { name, paths, overwrite, dir_existed },
            ExportEvent::ManifestWritten { result },
        ) => match result {
            WriteResult::Written => {
                let actions = vec![ExportAction::WriteTrace { replace: overwrite }];
                proof {
                    assert(actions@ =~= seq![ExportAction::WriteTrace { replace: overwrite }]);
                }
                (ExportStage::AwaitTrace { name, paths, overwrite }, actions)
            },
            WriteResult::WriteFailed { error } => {
                let mut actions = cleanup_actions(overwrite, dir_existed);
                let head = cat3("Failed to write ", paths.manifest.as_str(), ": ");
                let last = ExportAction::Report(cat2(head.as_str(), error.as_str()));
                actions.push(last);
                proof {
                    assert(actions@.drop_last() =~= cleanup(overwrite, dir_existed));
                }
                (ExportStage::Done, actions)
            },
            WriteResult::OpenFailed { already_exists, error } => {
                if already_exists && !overwrite {
                    report(
                        cat2(
                            paths.manifest.as_str(),
                            " already exists; pick another name or remove it first.",
                        ),
                    )
                } else {
                    let mut actions = cleanup_actions(overwrite, dir_existed);
                    let head = cat3("Failed to open ", paths.manifest.as_str(), ": ");
                    let last = ExportAction::Report(cat2(head.as_str(), error.as_str()));
                    actions.push(last);
                    proof {
                        assert(actions@.drop_last() =~= cleanup(overwrite, dir_existed));
                    }
                    (ExportStage::Done, actions)
                }
            },
        },
        (
            ExportStage::AwaitTrace { name, paths, overwrite },
            ExportEvent::TraceWritten { result },
        ) => {
            let mut actions: Vec<ExportAction> = Vec::new();
            match warn_of_trace(&result, overwrite, paths.trace.as_str()) {
                Some(w) => {
                    actions.push(ExportAction::Warn(w));
                },
                None => {},
            }
            let ghost before = actions@;
            actions.push(ExportAction::Finish { name });
            proof {
                assert(actions@.drop_last() =~= before);
            }
            (ExportStage::Done, actions)
        },
        (other, _) => (other, Vec::new()),
    }
}

/// A manifest is replaced only where the user was asked and said so.
pub proof fn replaced_only_when_confirmed(
    pre: ExportStage,
    event: ExportEvent,
    post: ExportStage,
    actions: Seq<ExportAction>,
)
    requires
        export_step(pre, event, post, actions),
    ensures
        (post matches ExportStage::AwaitDir { overwrite, .. } && overwrite) && !(
        pre is AwaitDir) ==> {
            &&& pre is AwaitOverwrite
            &&& event matches ExportEvent::OverwriteReply { reply }
            &&& reply matches Some(answer)
            &&& answer@ == "Overwrite"@
        },
        forall|i: int|
            0 <= i < actions.len() && (#[trigger] actions[i] matches ExportAction::WriteManifest {
                replace,
                ..
            } && replace) ==> (pre matches ExportStage::AwaitDir { overwrite, .. } && overwrite),
{
    assert forall|i: int|
        0 <= i < actions.len() && (#[trigger] actions[i] matches ExportAction::WriteManifest {
            replace,
            ..
        } && replace) implies (pre matches ExportStage::AwaitDir { overwrite, .. }
        && overwrite) by {
        if i < actions.len() - 1 {
            assert(actions[i] == actions.drop_last()[i]);
            if let ExportStage::AwaitManifest { overwrite, dir_existed, .. } = pre {
                let c = cleanup(overwrite, dir_existed);
                assert(i < c.len() ==> c[i] is RemoveManifest || c[i] is RemoveDir);
            }
        } else {
            assert(seq![actions.last()][0] == actions[i]);
        }
    }
}

/// Nothing is removed but what the export made: the manifest only where there
/// was none to replace, the directory only where there was none before.
pub proof fn removes_only_its_own(
    pre: ExportStage,
    event: ExportEvent,
    post: ExportStage,
    actions: Seq<ExportAction>,
    i: int,
)
    requires
        export_step(pre, event, post, actions),
        0 <= i < actions.len(),
        actions[i] is RemoveManifest || actions[i] is RemoveDir,
    ensures
        pre matches ExportStage::AwaitManifest { overwrite, dir_existed, .. } && (if actions[i] is RemoveManifest {
            !overwrite
        } else {
            !dir_existed
        }),
{
    if let ExportStage::AwaitManifest { overwrite, dir_existed, .. } = pre {
        if i < actions.len() - 1 {
            assert(actions[i] == actions.drop_last()[i]);
        } else {
            assert(seq![actions.last()][0] == actions[i]);
        }
    }
}

/// A trace that could not be written undoes nothing: the scenario counts as
/// exported all the same, and no failure is reported.
pub proof fn trace_undoes_nothing(
    pre: ExportStage,
    event: ExportEvent,
    post: ExportStage,
    actions: Seq<ExportAction>,
)
    requires
        pre is AwaitTrace,
        event is TraceWritten,
        export_step(pre, event, post, actions),
    ensures
        post is Done,
        actions.len() > 0 && actions.last() is Finish,
        forall|i: int|
            0 <= i < actions.len() ==> #[trigger] actions[i] is Warn || actions[i] is Finish,
{
    assert forall|i: int| 0 <= i < actions.len() implies #[trigger] actions[i] is Warn
        || actions[i] is Finish by {
        if i < actions.len() - 1 {
            assert(actions[i] == actions.drop_last()[i]);
        }
    }
}

} // verus!
