//! The dialogue that saves a session as a scenario, against files in memory.
use std::collections::BTreeMap;
use steve::export::{
    continue_export, start_export, ExportAction, ExportEvent, ExportStage, QuestionRequest,
    ScenarioPaths, WriteResult,
};

const TRACE: &str = "# Session trace\n\n(test trace body)\n";

/// Files by path; a directory that stands in the way of a file is `None`.
struct Disk {
    files: BTreeMap<String, Option<String>>,
    dirs: Vec<String>,
}

fn disk() -> Disk {
    Disk { files: BTreeMap::new(), dirs: Vec::new() }
}

fn paths(name: &str) -> ScenarioPaths {
    ScenarioPaths {
        dir: format!("scenarios/{name}"),
        manifest: format!("scenarios/{name}/scenario.toml"),
        trace: format!("scenarios/{name}/SESSION_TRACE.md"),
    }
}

fn write(disk: &mut Disk, path: &str, content: &str, replace: bool) -> WriteResult {
    match disk.files.get(path) {
        Some(None) => WriteResult::OpenFailed {
            already_exists: false,
            error: "Is a directory".to_string(),
        },
        Some(Some(_)) if !replace => WriteResult::OpenFailed {
            already_exists: true,
            error: "File exists".to_string(),
        },
        _ => {
            disk.files.insert(path.to_string(), Some(content.to_string()));
            WriteResult::Written
        }
    }
}

struct Outcome {
    questions: Vec<QuestionRequest>,
    reports: Vec<String>,
    warnings: Vec<String>,
    finished: Option<String>,
}

fn drive(disk: &mut Disk, replies: &[Option<&str>]) -> Outcome {
    let (mut stage, first) = start_export();
    let mut out = Outcome {
        questions: vec![first],
        reports: Vec::new(),
        warnings: Vec::new(),
        finished: None,
    };
    let mut left = replies.iter();
    let mut name = String::new();
    let mut event = Some(ExportEvent::NameReply {
        reply: left.next().unwrap().map(|s| s.to_string()),
    });
    while let Some(e) = event.take() {
        let (next, actions) = continue_export(stage, e);
        stage = next;
        for action in actions {
            match action {
                ExportAction::Ask(q) => {
                    out.questions.push(q);
                    event = Some(ExportEvent::OverwriteReply {
                        reply: left.next().unwrap().map(|s| s.to_string()),
                    });
                }
                ExportAction::BuildScaffold { name: n } => {
                    name = n;
                    let p = paths(&name);
                    event = Some(ExportEvent::Scaffold {
                        toml: Ok(format!("name = \"{name}\"")),
                        exists: disk.files.contains_key(&p.manifest),
                        paths: p,
                    });
                }
                ExportAction::MakeDir => {
                    let dir = paths(&name).dir;
                    let existed = disk.dirs.contains(&dir);
                    if !existed {
                        disk.dirs.push(dir);
                    }
                    event = Some(ExportEvent::DirMade { existed, outcome: Ok(()) });
                }
                ExportAction::WriteManifest { toml, replace } => {
                    let result = write(disk, &paths(&name).manifest, &toml, replace);
                    event = Some(ExportEvent::ManifestWritten { result });
                }
                ExportAction::WriteTrace { replace } => {
                    let result = write(disk, &paths(&name).trace, TRACE, replace);
                    event = Some(ExportEvent::TraceWritten { result });
                }
                ExportAction::RemoveManifest => {
                    disk.files.remove(&paths(&name).manifest);
                }
                ExportAction::RemoveDir => {
                    let dir = paths(&name).dir;
                    disk.dirs.retain(|d| *d != dir);
                }
                ExportAction::Report(text) => out.reports.push(text),
                ExportAction::Warn(text) => out.warnings.push(text),
                ExportAction::Finish { name } => out.finished = Some(name),
            }
        }
    }
    assert_eq!(stage, ExportStage::Done);
    out
}

fn with_scenario(name: &str) -> Disk {
    let mut d = disk();
    d.dirs.push(paths(name).dir);
    d.files.insert(paths(name).manifest, Some("pre-existing content".to_string()));
    d
}

#[test]
fn export_scenario_task_emits_question_request_first() {
    let out = drive(&mut disk(), &[None]);
    assert_eq!(out.questions.len(), 1);
    assert_eq!(out.questions[0].call_id, "slash-export-scenario");
    assert!(out.questions[0].question.starts_with("Scenario name"));
    assert!(out.questions[0].options.is_empty());
    assert!(out.reports[0].contains("session reset"));
}

#[test]
fn export_scenario_task_treats_decline_sentinel_as_cancel() {
    let out = drive(&mut disk(), &[Some("User declined to answer.")]);
    assert_eq!(out.reports, vec!["Scenario export cancelled.".to_string()]);
}

#[test]
fn export_scenario_task_rejects_invalid_slug() {
    let out = drive(&mut disk(), &[Some("Has Caps And Spaces")]);
    assert!(out.reports[0].contains("Invalid scenario name"));
    assert!(out.reports[0].contains("Has Caps And Spaces"));
}

#[test]
fn export_scenario_task_writes_scaffold_on_happy_path() {
    let mut d = disk();
    let out = drive(&mut d, &[Some("my-scenario")]);
    assert_eq!(out.finished.as_deref(), Some("my-scenario"));
    assert!(out.reports.is_empty());
    let toml = d.files["scenarios/my-scenario/scenario.toml"].as_deref();
    assert_eq!(toml, Some("name = \"my-scenario\""));
    let trace = d.files["scenarios/my-scenario/SESSION_TRACE.md"].as_deref();
    assert!(trace.unwrap().starts_with("# Session trace"));
}

#[test]
fn export_scenario_task_overwrite_cancel_preserves_existing() {
    let mut d = with_scenario("my-scenario");
    let out = drive(&mut d, &[Some("my-scenario"), Some("Cancel")]);
    assert_eq!(out.questions[1].call_id, "slash-export-scenario-overwrite");
    assert!(out.questions[1].question.contains("already exists"));
    assert_eq!(out.questions[1].options, vec!["Cancel".to_string(), "Overwrite".to_string()]);
    assert!(out.reports[0].contains("cancelled"));
    let toml = d.files["scenarios/my-scenario/scenario.toml"].as_deref();
    assert_eq!(toml, Some("pre-existing content"));
}

#[test]
fn export_scenario_task_overwrite_confirm_replaces_existing() {
    let mut d = with_scenario("my-scenario");
    let out = drive(&mut d, &[Some("my-scenario"), Some("Overwrite")]);
    assert_eq!(out.finished.as_deref(), Some("my-scenario"));
    let toml = d.files["scenarios/my-scenario/scenario.toml"].as_deref();
    assert_eq!(toml, Some("name = \"my-scenario\""));
}

#[test]
fn export_scenario_task_overwrite_decline_sentinel_treated_as_cancel() {
    let mut d = with_scenario("my-scenario");
    let out = drive(&mut d, &[Some("my-scenario"), Some("User declined to answer.")]);
    assert!(out.finished.is_none());
    assert_eq!(out.reports.len(), 1);
    let toml = d.files["scenarios/my-scenario/scenario.toml"].as_deref();
    assert_eq!(toml, Some("pre-existing content"));
}

#[test]
fn export_scenario_task_overwrite_replaces_session_trace_too() {
    let mut d = with_scenario("my-scenario");
    d.files.insert(paths("my-scenario").trace, Some("old trace".to_string()));
    let out = drive(&mut d, &[Some("my-scenario"), Some("Overwrite")]);
    assert!(out.finished.is_some());
    let trace = d.files["scenarios/my-scenario/SESSION_TRACE.md"].as_deref();
    assert!(trace.unwrap().starts_with("# Session trace"));
}

#[test]
fn export_scenario_task_overwrite_preserves_unrelated_files_in_dir() {
    let mut d = with_scenario("my-scenario");
    let fixture = "scenarios/my-scenario/fixtures/data.json".to_string();
    d.files.insert(fixture.clone(), Some("{ \"key\": \"value\" }".to_string()));
    let out = drive(&mut d, &[Some("my-scenario"), Some("Overwrite")]);
    assert!(out.finished.is_some());
    assert_eq!(d.files[&fixture].as_deref(), Some("{ \"key\": \"value\" }"));
}

#[test]
fn export_scenario_task_preserves_preexisting_empty_dir_on_open_error() {
    let mut d = disk();
    d.dirs.push(paths("preexisting").dir);
    d.files.insert(paths("preexisting").manifest, None);
    let out = drive(&mut d, &[Some("preexisting"), Some("Overwrite")]);
    assert!(out.finished.is_none());
    assert_eq!(
        out.reports,
        vec!["Failed to open scenarios/preexisting/scenario.toml: Is a directory".to_string()]
    );
    assert!(d.dirs.contains(&paths("preexisting").dir));
    assert!(d.files.contains_key(&paths("preexisting").manifest));
}

#[test]
fn an_invalid_name_is_quoted_as_it_was_typed() {
    let out = drive(&mut disk(), &[Some("say \"hi\"\t")]);
    assert!(out.reports[0].starts_with("Invalid scenario name \"say \\\"hi\\\"\". Use lowercase"));
}

#[test]
fn a_trace_that_exists_is_left_untouched() {
    let mut d = disk();
    d.files.insert(paths("kept").trace, Some("mine".to_string()));
    let out = drive(&mut d, &[Some("kept")]);
    assert_eq!(out.finished.as_deref(), Some("kept"));
    assert!(out.reports.is_empty());
    assert_eq!(
        out.warnings,
        vec!["scenario.toml was written, but scenarios/kept/SESSION_TRACE.md already exists — left untouched."
            .to_string()]
    );
    assert_eq!(d.files["scenarios/kept/SESSION_TRACE.md"].as_deref(), Some("mine"));
}

fn step(stage: ExportStage, event: ExportEvent) -> Vec<ExportAction> {
    let (next, actions) = continue_export(stage, event);
    assert_eq!(next, ExportStage::Done);
    actions
}

#[test]
fn what_was_made_is_removed_after_a_failed_write() {
    let actions = step(
        ExportStage::AwaitManifest {
            name: "n".to_string(),
            paths: paths("n"),
            overwrite: false,
            dir_existed: false,
        },
        ExportEvent::ManifestWritten {
            result: WriteResult::WriteFailed { error: "disk full".to_string() },
        },
    );
    assert_eq!(
        actions,
        vec![
            ExportAction::RemoveManifest,
            ExportAction::RemoveDir,
            ExportAction::Report(
                "Failed to write scenarios/n/scenario.toml: disk full".to_string()
            ),
        ]
    );
}

#[test]
fn a_manifest_that_appeared_meanwhile_is_kept() {
    let actions = step(
        ExportStage::AwaitManifest {
            name: "n".to_string(),
            paths: paths("n"),
            overwrite: false,
            dir_existed: true,
        },
        ExportEvent::ManifestWritten {
            result: WriteResult::OpenFailed { already_exists: true, error: "exists".to_string() },
        },
    );
    assert_eq!(
        actions,
        vec![ExportAction::Report(
            "scenarios/n/scenario.toml already exists; pick another name or remove it first."
                .to_string()
        )]
    );
}

#[test]
fn a_scaffold_or_a_directory_that_fails_is_reported() {
    let failed = step(
        ExportStage::AwaitScaffold { name: "n".to_string() },
        ExportEvent::Scaffold {
            toml: Err("bad turn".to_string()),
            exists: false,
            paths: paths("n"),
        },
    );
    assert_eq!(
        failed,
        vec![ExportAction::Report("Failed to build scaffold: bad turn".to_string())]
    );
    let no_dir = step(
        ExportStage::AwaitDir {
            name: "n".to_string(),
            toml: String::new(),
            paths: paths("n"),
            overwrite: false,
        },
        ExportEvent::DirMade { existed: false, outcome: Err("denied".to_string()) },
    );
    assert_eq!(
        no_dir,
        vec![ExportAction::Report("Failed to create scenarios/n: denied".to_string())]
    );
}

#[test]
fn an_answer_that_nobody_waits_for_changes_nothing() {
    let (stage, actions) = continue_export(
        ExportStage::AwaitName,
        ExportEvent::TraceWritten { result: WriteResult::Written },
    );
    assert_eq!(stage, ExportStage::AwaitName);
    assert!(actions.is_empty());
}
