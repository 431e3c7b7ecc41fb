//! Tasks and epics: how they are listed, shown and edited.
use crate::blocks::{pushed, MessageBlock};
use crate::effects::Effect;
use crate::sidebar::{sidebar_updated, Task};
use crate::state::{App, Priority, TaskKind, TaskStatus};
use crate::text::{
    cat2, cat3, cat4, cat5, find_char, join, join_text, lemma_views_push, opt_text, same_text,
    split_at_char, split_words, trim_end, trimmed_end, views, words,
};
use vstd::prelude::*;
use vstd::string::*;

verus! {

/// A larger piece of work that tasks belong to.
#[derive(Debug, PartialEq, Eq)]
pub struct Epic {
    pub id: String,
    pub title: String,
    pub status: TaskStatus,
    pub external_ref: Option<String>,
}

/// The id and the title of a task or an epic that was just made or completed.
#[derive(Debug, PartialEq, Eq)]
pub struct Named {
    pub id: String,
    pub title: String,
}

impl Priority {
    pub open spec fn label(self) -> Seq<char> {
        match self {
            Priority::High => "high"@,
            Priority::Medium => "medium"@,
            Priority::Low => "low"@,
        }
    }

    /// The name of the priority.
    pub fn as_str(&self) -> (r: &'static str)
        ensures
            r@ == self.label(),
    {
        match self {
            Priority::High => "high",
            Priority::Medium => "medium",
            Priority::Low => "low",
        }
    }
}

impl TaskStatus {
    pub open spec fn label(self) -> Seq<char> {
        match self {
            TaskStatus::Open => "open"@,
            TaskStatus::InProgress => "in_progress"@,
            TaskStatus::Done => "done"@,
        }
    }

    /// The name of the status.
    pub fn as_str(&self) -> (r: &'static str)
        ensures
            r@ == self.label(),
    {
        match self {
            TaskStatus::Open => "open",
            TaskStatus::InProgress => "in_progress",
            TaskStatus::Done => "done",
        }
    }
}

impl TaskKind {
    pub open spec fn label(self) -> Seq<char> {
        match self {
            TaskKind::Task => "task"@,
            TaskKind::Bug => "bug"@,
        }
    }

    /// The name of the kind.
    pub fn as_str(&self) -> (r: &'static str)
        ensures
            r@ == self.label(),
    {
        match self {
            TaskKind::Task => "task",
            TaskKind::Bug => "bug",
        }
    }
}

/// The box in front of a task in a list.
pub open spec fn marker(t: Task) -> Seq<char> {
    if t.status == TaskStatus::Done {
        "x"@
    } else {
        " "@
    }
}

/// The line on a task within an epic.
pub open spec fn epic_task_line(t: Task) -> Seq<char> {
    "  - ["@ + marker(t) + "] "@ + t.id@ + ": "@ + t.title@ + (if t.kind == TaskKind::Bug {
        " [bug]"@
    } else {
        ""@
    }) + " ["@ + t.priority.label() + "]\n"@
}

/// The line on a task that belongs to no epic.
pub open spec fn standalone_line(t: Task) -> Seq<char> {
    "  - ["@ + marker(t) + "] "@ + t.id@ + ": "@ + t.title@ + " ["@ + t.priority.label() + "]\n"@
}

/// The lines on those of `tasks` that belong to the epic `id`.
pub open spec fn epic_lines(tasks: Seq<Task>, id: Seq<char>) -> Seq<char>
    decreases tasks.len(),
{
    if tasks.len() == 0 {
        Seq::empty()
    } else {
        let t = tasks.last();
        let before = epic_lines(tasks.drop_last(), id);
        if opt_text(t.epic_id) == Some(id) {
            before + epic_task_line(t)
        } else {
            before
        }
    }
}

/// The lines on those of `tasks` that belong to no epic.
pub open spec fn standalone_lines(tasks: Seq<Task>) -> Seq<char>
    decreases tasks.len(),
{
    if tasks.len() == 0 {
        Seq::empty()
    } else if tasks.last().epic_id is None {
        standalone_lines(tasks.drop_last()) + standalone_line(tasks.last())
    } else {
        standalone_lines(tasks.drop_last())
    }
}

/// The sections on the epics that have tasks.
pub open spec fn epic_sections(tasks: Seq<Task>, epics: Seq<Epic>) -> Seq<char>
    decreases epics.len(),
{
    if epics.len() == 0 {
        Seq::empty()
    } else {
        let e = epics.last();
        let before = epic_sections(tasks, epics.drop_last());
        let body = epic_lines(tasks, e.id@);
        if body.len() == 0 {
            before
        } else {
            before + ("## "@ + e.title@ + " ("@ + e.id@ + ")\n"@) + body
        }
    }
}

/// The list of all tasks: by epic, then those that belong to none.
pub open spec fn task_list(tasks: Seq<Task>, epics: Seq<Epic>) -> Seq<char> {
    if tasks.len() == 0 {
        "No tasks. Use /task-new <title> to create one."@
    } else {
        let grouped = epic_sections(tasks, epics);
        let alone = standalone_lines(tasks);
        trim_end(
            if alone.len() == 0 {
                grouped
            } else {
                grouped + (if grouped.len() == 0 {
                    ""@
                } else {
                    "\n"@
                }) + "## Standalone Tasks\n"@ + alone
            },
        )
    }
}

fn write_marker(t: &Task) -> (r: &'static str)
    ensures
        r@ == marker(*t),
{
    if t.status == TaskStatus::Done {
        "x"
    } else {
        " "
    }
}

fn write_epic_task(t: &Task) -> (r: String)
    ensures
        r@ == epic_task_line(*t),
{
    let mut out = cat5("  - [", write_marker(t), "] ", t.id.as_str(), ": ");
    out.append(t.title.as_str());
    if t.kind == TaskKind::Bug {
        out.append(" [bug]");
    } else {
        out.append("");
    }
    out.append(" [");
    out.append(t.priority.as_str());
    out.append("]\n");
    out
}

fn write_standalone(t: &Task) -> (r: String)
    ensures
        r@ == standalone_line(*t),
{
    let mut out = cat5("  - [", write_marker(t), "] ", t.id.as_str(), ": ");
    out.append(t.title.as_str());
    out.append(" [");
    out.append(t.priority.as_str());
    out.append("]\n");
    out
}

fn write_epic_lines(tasks: &Vec<Task>, id: &str) -> (r: String)
    ensures
        r@ == epic_lines(tasks@, id@),
{
    let mut out = String::new();
    let mut i: usize = 0;
    while i < tasks.len()
        invariant
            i <= tasks@.len(),
            out@ == epic_lines(tasks@.take(i as int), id@),
        decreases tasks@.len() - i,
    {
        let t = &tasks[i];
        proof {
            assert(tasks@.take(i + 1).drop_last() =~= tasks@.take(i as int));
            assert(tasks@.take(i + 1).last() == *t);
        }
        let belongs = match &t.epic_id {
            Some(e) => same_text(e.as_str(), id),
            None => false,
        };
        if belongs {
            out.append(write_epic_task(t).as_str());
        }
        i = i + 1;
    }
    proof {
        assert(tasks@.take(tasks@.len() as int) =~= tasks@);
    }
    out
}

fn write_standalone_lines(tasks: &Vec<Task>) -> (r: String)
    ensures
        r@ == standalone_lines(tasks@),
{
    let mut out = String::new();
    let mut i: usize = 0;
    while i < tasks.len()
        invariant
            i <= tasks@.len(),
            out@ == standalone_lines(tasks@.take(i as int)),
        decreases tasks@.len() - i,
    {
        let t = &tasks[i];
        proof {
            assert(tasks@.take(i + 1).drop_last() =~= tasks@.take(i as int));
            assert(tasks@.take(i + 1).last() == *t);
        }
        if t.epic_id.is_none() {
            out.append(write_standalone(t).as_str());
        }
        i = i + 1;
    }
    proof {
        assert(tasks@.take(tasks@.len() as int) =~= tasks@);
    }
    out
}

/// The list of all tasks: by epic, then those that belong to none.
pub fn render_tasks(tasks: &Vec<Task>, epics: &Vec<Epic>) -> (r: String)
    ensures
        r@ == task_list(tasks@, epics@),
{
    if tasks.len() == 0 {
        return "No tasks. Use /task-new <title> to create one.".to_owned();
    }
    let mut out = String::new();
    let mut i: usize = 0;
    while i < epics.len()
        invariant
            i <= epics@.len(),
            out@ == epic_sections(tasks@, epics@.take(i as int)),
        decreases epics@.len() - i,
    {
        let e = &epics[i];
        proof {
            assert(epics@.take(i + 1).drop_last() =~= epics@.take(i as int));
            assert(epics@.take(i + 1).last() == *e);
        }
        let body = write_epic_lines(tasks, e.id.as_str());
        if !body.as_str().is_empty() {
            let head = cat5("## ", e.title.as_str(), " (", e.id.as_str(), ")\n");
            out.append(head.as_str());
            out.append(body.as_str());
        }
        i = i + 1;
    }
    proof {
        assert(epics@.take(epics@.len() as int) =~= epics@);
    }
    let alone = write_standalone_lines(tasks);
    if !alone.as_str().is_empty() {
        if out.as_str().is_empty() {
            out.append("");
        } else {
            out.append("\n");
        }
        out.append("## Standalone Tasks\n");
        out.append(alone.as_str());
    }
    trimmed_end(out.as_str())
}

/// All that is known of a task.
pub open spec fn task_details(t: Task, epic: Option<Epic>) -> Seq<char> {
    "ID: "@ + t.id@ + "\nType: "@ + t.kind.label() + "\nTitle: "@ + t.title@ + "\nStatus: "@
        + t.status.label() + "\nPriority: "@ + t.priority.label() + "\nEpic: "@ + (match epic {
        Some(e) => e.title@ + " ("@ + e.id@ + ")"@,
        None => "(none)"@,
    }) + "\nDescription: "@ + (match t.description {
        Some(d) => d@,
        None => "(none)"@,
    }) + "\nCreated: "@ + t.created_at@
}

/// All that is known of a task.
pub fn render_task(t: &Task, epic: &Option<Epic>) -> (r: String)
    ensures
        r@ == task_details(*t, *epic),
{
    let mut out = cat4("ID: ", t.id.as_str(), "\nType: ", t.kind.as_str());
    out.append("\nTitle: ");
    out.append(t.title.as_str());
    out.append("\nStatus: ");
    out.append(t.status.as_str());
    out.append("\nPriority: ");
    out.append(t.priority.as_str());
    out.append("\nEpic: ");
    let epic_info = match epic {
        Some(e) => cat4(e.title.as_str(), " (", e.id.as_str(), ")"),
        None => "(none)".to_owned(),
    };
    out.append(epic_info.as_str());
    out.append("\nDescription: ");
    match &t.description {
        Some(d) => {
            out.append(d.as_str());
        },
        None => {
            out.append("(none)");
        },
    }
    out.append("\nCreated: ");
    out.append(t.created_at.as_str());
    out
}

/// The line on an epic.
pub open spec fn epic_line(e: Epic) -> Seq<char> {
    "  "@ + e.id@ + " \u{2014} "@ + e.title@ + " ["@ + e.status.label() + "]"@ + (
    match e.external_ref {
        Some(r) if r@.len() > 0 => " ("@ + r@ + ")"@,
        _ => ""@,
    })
}

/// The list of all epics.
pub open spec fn epic_list(epics: Seq<Epic>) -> Seq<char> {
    if epics.len() == 0 {
        "No epics. Use /epic-new <title> to create one."@
    } else {
        "## Epics\n"@ + join(Seq::new(epics.len(), |i: int| epic_line(epics[i])), "\n"@)
    }
}

/// The list of all epics.
pub fn render_epics(epics: &Vec<Epic>) -> (r: String)
    ensures
        r@ == epic_list(epics@),
{
    if epics.len() == 0 {
        return "No epics. Use /epic-new <title> to create one.".to_owned();
    }
    let mut parts: Vec<String> = Vec::new();
    let ghost all = Seq::new(epics@.len(), |i: int| epic_line(epics@[i]));
    let mut i: usize = 0;
    proof {
        assert(views(parts@) =~= all.take(0));
    }
    while i < epics.len()
        invariant
            i <= epics@.len(),
            all == Seq::new(epics@.len(), |i: int| epic_line(epics@[i])),
            views(parts@) == all.take(i as int),
        decreases epics@.len() - i,
    {
        let e = &epics[i];
        let mut line = cat5("  ", e.id.as_str(), " \u{2014} ", e.title.as_str(), " [");
        line.append(e.status.as_str());
        line.append("]");
        let tail = match &e.external_ref {
            Some(r) => {
                if r.as_str().is_empty() {
                    "".to_owned()
                } else {
                    cat3(" (", r.as_str(), ")")
                }
            },
            None => "".to_owned(),
        };
        line.append(tail.as_str());
        proof {
            lemma_views_push(parts@, line);
            assert(all.take(i + 1) =~= all.take(i as int).push(line@));
        }
        parts.push(line);
        i = i + 1;
    }
    proof {
        assert(all.take(all.len() as int) =~= all);
    }
    cat2("## Epics\n", join_text(&parts, "\n").as_str())
}

/// What a word "field=value" asks of a task.
pub enum FieldEdit {
    Title(Seq<char>),
    Priority(Priority),
    Status(TaskStatus),
    Problem(Seq<char>),
    Nothing,
}

/// What a word asks of a task. A word without an equals sign asks nothing.
pub open spec fn field_edit(word: Seq<char>) -> FieldEdit {
    let k = find_char(word, '=');
    if k >= word.len() {
        FieldEdit::Nothing
    } else {
        let key = word.take(k);
        let val = word.skip(k + 1);
        if key == "title"@ {
            FieldEdit::Title(val)
        } else if key == "priority"@ {
            if val == "high"@ {
                FieldEdit::Priority(Priority::High)
            } else if val == "medium"@ {
                FieldEdit::Priority(Priority::Medium)
            } else if val == "low"@ {
                FieldEdit::Priority(Priority::Low)
            } else {
                FieldEdit::Problem(
                    "Invalid priority '"@ + val + "'. Use high, medium, or low."@,
                )
            }
        } else if key == "status"@ {
            if val == "open"@ {
                FieldEdit::Status(TaskStatus::Open)
            } else if val == "in_progress"@ || val == "inprogress"@ {
                FieldEdit::Status(TaskStatus::InProgress)
            } else if val == "done"@ {
                FieldEdit::Status(TaskStatus::Done)
            } else {
                FieldEdit::Problem(
                    "Invalid status '"@ + val + "'. Use open, in_progress, or done."@,
                )
            }
        } else {
            FieldEdit::Problem("Unknown field '"@ + key + "'. Use title, priority, or status."@)
        }
    }
}

/// How far the edit of a task has come: what the task would be, the fields
/// that were changed, and what went wrong.
pub struct EditView {
    pub title: Seq<char>,
    pub priority: Priority,
    pub status: TaskStatus,
    pub changed: Seq<Seq<char>>,
    pub problems: Seq<Seq<char>>,
}

/// The edit of a task after one more word.
pub open spec fn edit_word(e: EditView, word: Seq<char>) -> EditView {
    match field_edit(word) {
        FieldEdit::Title(t) => EditView { title: t, changed: e.changed.push("title"@), ..e },
        FieldEdit::Priority(p) => EditView {
            priority: p,
            changed: e.changed.push("priority"@),
            ..e
        },
        FieldEdit::Status(s) => EditView { status: s, changed: e.changed.push("status"@), ..e },
        FieldEdit::Problem(p) => EditView { problems: e.problems.push(p), ..e },
        FieldEdit::Nothing => e,
    }
}

/// The edit of a task that `ws` ask for, one after the other.
pub open spec fn edit_words(t: Task, ws: Seq<Seq<char>>) -> EditView
    decreases ws.len(),
{
    if ws.len() == 0 {
        EditView {
            title: t.title@,
            priority: t.priority,
            status: t.status,
            changed: Seq::empty(),
            problems: Seq::empty(),
        }
    } else {
        edit_word(edit_words(t, ws.drop_last()), ws.last())
    }
}

/// Whether `new_blocks` is `old_blocks` and then one error for each of `texts`.
pub open spec fn errors_added(
    old_blocks: Seq<MessageBlock>,
    new_blocks: Seq<MessageBlock>,
    texts: Seq<Seq<char>>,
) -> bool {
    &&& new_blocks.len() == old_blocks.len() + texts.len()
    &&& new_blocks.take(old_blocks.len() as int) == old_blocks
    &&& forall|i: int|
        0 <= i < texts.len() ==> (#[trigger] new_blocks[old_blocks.len() + i]).is_error_text(
            texts[i],
        )
}

/// A task with the edit done, and the names of the fields that were changed.
#[derive(Debug, PartialEq, Eq)]
pub struct TaskEdit {
    pub task: Task,
    pub changed: Vec<String>,
}

/// Whether the edit that `ws` ask for was done to `before`.
pub open spec fn edited(before: Task, ws: Seq<Seq<char>>, r: TaskEdit) -> bool {
    let e = edit_words(before, ws);
    &&& r.task == (Task {
        title: r.task.title,
        priority: e.priority,
        status: e.status,
        ..before
    })
    &&& r.task.title@ == e.title
    &&& views(r.changed@) == e.changed
}

/// Whether the user was told `text`, as an error or not.
pub open spec fn told(pre: App, post: App, is_error: bool, text: Seq<char>) -> bool {
    &&& post == (App { messages: post.messages, ..pre })
    &&& pushed(pre.messages@, post.messages@)
    &&& if is_error {
        post.messages@.last().is_error_text(text)
    } else {
        post.messages@.last().is_system_text(text)
    }
}

/// Whether the user was told `text` and the sidebar was brought up to date.
pub open spec fn told_and_updated(
    pre: App,
    post: App,
    is_error: bool,
    text: Seq<char>,
    old_fx: Seq<Effect>,
    new_fx: Seq<Effect>,
) -> bool {
    &&& exists|mid: App| #[trigger] told(pre, mid, is_error, text) && post == sidebar_updated(mid)
    &&& new_fx == old_fx.push(Effect::RefreshSidebar)
}

/// The words that ask for an edit.
pub open spec fn asked_words(fields: Option<String>) -> Seq<Seq<char>> {
    match fields {
        Some(f) => words(f@),
        None => Seq::empty(),
    }
}

/// The application after the user was told of every word of `ws` that cannot
/// be done to `task`.
pub open spec fn problems_noted(pre: App, task: Task, ws: Seq<Seq<char>>, post: App) -> bool {
    &&& post == (App { messages: post.messages, ..pre })
    &&& errors_added(pre.messages@, post.messages@, edit_words(task, ws).problems)
}

/// What is done with a task that was loaded to be edited.
pub open spec fn load_handled(
    pre: App,
    loaded: Result<Task, String>,
    fields: Option<String>,
    r: Option<TaskEdit>,
    post: App,
    old_fx: Seq<Effect>,
    new_fx: Seq<Effect>,
) -> bool {
    match loaded {
        Err(e) => {
            &&& r is None
            &&& told(pre, post, true, "Task not found: "@ + e@)
            &&& new_fx == old_fx
        },
        Ok(task) => exists|noted: App|
            {
                &&& #[trigger] problems_noted(pre, task, asked_words(fields), noted)
                &&& if edit_words(task, asked_words(fields)).changed.len() == 0 {
                    &&& r is None
                    &&& told_and_updated(noted, post, true, NOTHING_TO_UPDATE@, old_fx, new_fx)
                } else {
                    &&& r matches Some(edit)
                    &&& edited(task, asked_words(fields), edit)
                    &&& post == noted
                    &&& new_fx == old_fx
                }
            },
    }
}

pub const NOTHING_TO_UPDATE: &'static str =
    "No valid fields to update. Usage: /task-edit <id> title=... priority=... status=...";

impl App {
    pub(crate) fn tell(&mut self, is_error: bool, text: String)
        ensures
            told(*old(self), *final(self), is_error, text@),
    {
        if is_error {
            self.complain(text);
        } else {
            self.say(text);
        }
    }

    pub(crate) fn tell_and_update(&mut self, is_error: bool, text: String, fx: &mut Vec<Effect>)
        ensures
            told_and_updated(
                *old(self),
                *final(self),
                is_error,
                text@,
                old(fx)@,
                final(fx)@,
            ),
    {
        self.tell(is_error, text);
        let ghost mid = *self;
        self.update_sidebar(fx);
        proof {
            assert(told(*old(self), mid, is_error, text@));
        }
    }

    /// Shows the list of all tasks.
    pub fn tasks_listed(&mut self, tasks: &Vec<Task>, epics: &Vec<Epic>, fx: &mut Vec<Effect>)
        ensures
            told_and_updated(
                *old(self),
                *final(self),
                false,
                task_list(tasks@, epics@),
                old(fx)@,
                final(fx)@,
            ),
    {
        self.tell_and_update(false, render_tasks(tasks, epics), fx);
    }

    /// Tells the user of a task that was made, or why it was not.
    pub fn task_created(&mut self, result: Result<Named, String>, fx: &mut Vec<Effect>)
        ensures
            match result {
                Ok(t) => told_and_updated(
                    *old(self),
                    *final(self),
                    false,
                    "Created task: "@ + t.id@ + " \u{2014} "@ + t.title@,
                    old(fx)@,
                    final(fx)@,
                ),
                Err(e) => told(*old(self), *final(self), true, "Failed to create task: "@ + e@)
                    && final(fx)@ == old(fx)@,
            },
    {
        match result {
            Ok(t) => {
                let text = cat4("Created task: ", t.id.as_str(), " \u{2014} ", t.title.as_str());
                self.tell_and_update(false, text, fx);
            },
            Err(e) => {
                self.tell(true, cat2("Failed to create task: ", e.as_str()));
            },
        }
    }

    /// Tells the user of a task that was completed, or why it was not.
    pub fn task_completed(&mut self, result: Result<Named, String>, fx: &mut Vec<Effect>)
        ensures
            match result {
                Ok(t) => told_and_updated(
                    *old(self),
                    *final(self),
                    false,
                    "Completed: "@ + t.id@ + " \u{2014} "@ + t.title@,
                    old(fx)@,
                    final(fx)@,
                ),
                Err(e) => told(*old(self), *final(self), true, "Failed to complete task: "@ + e@)
                    && final(fx)@ == old(fx)@,
            },
    {
        match result {
            Ok(t) => {
                let text = cat4("Completed: ", t.id.as_str(), " \u{2014} ", t.title.as_str());
                self.tell_and_update(false, text, fx);
            },
            Err(e) => {
                self.tell(true, cat2("Failed to complete task: ", e.as_str()));
            },
        }
    }

    /// Shows all that is known of a task, or why it was not found.
    pub fn task_shown(&mut self, result: Result<(Task, Option<Epic>), String>)
        ensures
            match result {
                Ok(t) => told(*old(self), *final(self), false, task_details(t.0, t.1)),
                Err(e) => told(*old(self), *final(self), true, "Task not found: "@ + e@),
            },
    {
        match result {
            Ok((t, epic)) => {
                self.tell(false, render_task(&t, &epic));
            },
            Err(e) => {
                self.tell(true, cat2("Task not found: ", e.as_str()));
            },
        }
    }

    fn apply_word(&mut self, edit: &mut TaskEdit, word: &str, Ghost(e): Ghost<EditView>)
        requires
            old(edit).task.title@ == e.title,
            old(edit).task.priority == e.priority,
            old(edit).task.status == e.status,
            views(old(edit).changed@) == e.changed,
        ensures
            final(edit).task == (Task {
                title: final(edit).task.title,
                priority: edit_word(e, word@).priority,
                status: edit_word(e, word@).status,
                ..old(edit).task
            }),
            final(edit).task.title@ == edit_word(e, word@).title,
            views(final(edit).changed@) == edit_word(e, word@).changed,
            *final(self) == (App { messages: final(self).messages, ..*old(self) }),
            match field_edit(word@) {
                FieldEdit::Problem(p) => pushed(old(self).messages@, final(self).messages@)
                    && final(self).messages@.last().is_error_text(p),
                _ => final(self).messages@ == old(self).messages@,
            },
    {
        match split_at_char(word, '=') {
            None => {},
            Some((key, val)) => {
                if same_text(key.as_str(), "title") {
                    edit.task.title = val;
                    proof {
                        lemma_views_push_lit(edit.changed@, "title"@);
                    }
                    edit.changed.push("title".to_owned());
                } else if same_text(key.as_str(), "priority") {
                    let p = if same_text(val.as_str(), "high") {
                        Some(Priority::High)
                    } else if same_text(val.as_str(), "medium") {
                        Some(Priority::Medium)
                    } else if same_text(val.as_str(), "low") {
                        Some(Priority::Low)
                    } else {
                        None
                    };
                    match p {
                        Some(p) => {
                            edit.task.priority = p;
                            proof {
                                lemma_views_push_lit(edit.changed@, "priority"@);
                            }
                            edit.changed.push("priority".to_owned());
                        },
                        None => {
                            self.complain(
                                cat3(
                                    "Invalid priority '",
                                    val.as_str(),
                                    "'. Use high, medium, or low.",
                                ),
                            );
                        },
                    }
                } else if same_text(key.as_str(), "status") {
                    let s = if same_text(val.as_str(), "open") {
                        Some(TaskStatus::Open)
                    } else if same_text(val.as_str(), "in_progress") || same_text(
                        val.as_str(),
                        "inprogress",
                    ) {
                        Some(TaskStatus::InProgress)
                    } else if same_text(val.as_str(), "done") {
                        Some(TaskStatus::Done)
                    } else {
                        None
                    };
                    match s {
                        Some(s) => {
                            edit.task.status = s;
                            proof {
                                lemma_views_push_lit(edit.changed@, "status"@);
                            }
                            edit.changed.push("status".to_owned());
                        },
                        None => {
                            self.complain(
                                cat3(
                                    "Invalid status '",
                                    val.as_str(),
                                    "'. Use open, in_progress, or done.",
                                ),
                            );
                        },
                    }
                } else {
                    self.complain(
                        cat3(
                            "Unknown field '",
                            key.as_str(),
                            "'. Use title, priority, or status.",
                        ),
                    );
                }
            },
        }
    }

    /// Does to a task what the words of `fields` ask for, and tells the user
    /// of every word that cannot be done.
    pub fn edit_fields(&mut self, task: Task, fields: &str) -> (r: TaskEdit)
        ensures
            edited(task, words(fields@), r),
            *final(self) == (App { messages: final(self).messages, ..*old(self) }),
            errors_added(
                old(self).messages@,
                final(self).messages@,
                edit_words(task, words(fields@)).problems,
            ),
    {
        let ghost before = task;
        let ghost start = *self;
        let ws = split_words(fields);
        let ghost all = words(fields@);
        let mut edit = TaskEdit { task, changed: Vec::new() };
        let mut i: usize = 0;
        proof {
            assert(views(edit.changed@) =~= Seq::<Seq<char>>::empty());
            assert(self.messages@.take(self.messages@.len() as int) =~= self.messages@);
        }
        while i < ws.len()
            invariant
                i <= ws@.len(),
                all == views(ws@),
                edited(before, all.take(i as int), edit),
                *self == (App { messages: self.messages, ..start }),
                errors_added(
                    start.messages@,
                    self.messages@,
                    edit_words(before, all.take(i as int)).problems,
                ),
            decreases ws@.len() - i,
        {
            let ghost e = edit_words(before, all.take(i as int));
            let ghost m0 = self.messages@;
            proof {
                assert(all.take(i + 1).drop_last() =~= all.take(i as int));
                assert(all.take(i + 1).last() == ws@[i as int]@);
            }
            self.apply_word(&mut edit, ws[i].as_str(), Ghost(e));
            proof {
                let n = start.messages@.len();
                let m1 = self.messages@;
                if let FieldEdit::Problem(p) = field_edit(ws@[i as int]@) {
                    let more = e.problems.push(p);
                    assert forall|k: int| 0 <= k < m0.len() implies m1[k] == m0[k] by {
                        assert(m1.drop_last()[k] == m0[k]);
                    }
                    assert(m1.take(n as int) =~= m0.take(n as int));
                    assert forall|k: int| 0 <= k < more.len() implies (#[trigger] m1[n
                        + k]).is_error_text(more[k]) by {
                        if k < e.problems.len() {
                            assert(m1[n + k] == m0[n + k]);
                        }
                    }
                    assert(errors_added(start.messages@, m1, more));
                }
            }
            i = i + 1;
        }
        proof {
            assert(all.take(all.len() as int) =~= all);
        }
        edit
    }

    /// Tells the user that an edit asked for nothing that can be done.
    fn task_unchanged(&mut self, fx: &mut Vec<Effect>)
        ensures
            told_and_updated(
                *old(self),
                *final(self),
                true,
                NOTHING_TO_UPDATE@,
                old(fx)@,
                final(fx)@,
            ),
    {
        self.tell_and_update(true, NOTHING_TO_UPDATE.to_owned(), fx);
    }

    /// Tells the user that a task to be edited was not found.
    fn task_missing(&mut self, error: &str)
        ensures
            told(*old(self), *final(self), true, "Task not found: "@ + error@),
    {
        self.tell(true, cat2("Task not found: ", error));
    }

    /// Does to a task that was to be loaded what `fields` ask for. What comes
    /// back is to be stored; where nothing is, the user is told why.
    pub fn task_loaded(
        &mut self,
        loaded: Result<Task, String>,
        fields: Option<String>,
        fx: &mut Vec<Effect>,
    ) -> (r: Option<TaskEdit>)
        ensures
            load_handled(*old(self), loaded, fields, r, *final(self), old(fx)@, final(fx)@),
    {
        let task = match loaded {
            Err(e) => {
                self.task_missing(e.as_str());
                return None;
            },
            Ok(task) => task,
        };
        let words_of = match fields {
            Some(f) => f,
            None => "".to_owned(),
        };
        proof {
            if fields is None {
                reveal_strlit("");
                reveal_with_fuel(words, 2);
                assert(words(""@) =~= Seq::<Seq<char>>::empty());
            }
        }
        let edit = self.edit_fields(task, words_of.as_str());
        let ghost noted = *self;
        proof {
            assert(problems_noted(*old(self), task, asked_words(fields), noted));
        }
        if edit.changed.len() == 0 {
            self.task_unchanged(fx);
            None
        } else {
            Some(edit)
        }
    }

    /// Tells the user of an edited task that was stored, or why it was not.
    pub fn task_updated(
        &mut self,
        id: &str,
        changed: &Vec<String>,
        result: Result<(), String>,
        fx: &mut Vec<Effect>,
    )
        ensures
            match result {
                Ok(_) => told_and_updated(
                    *old(self),
                    *final(self),
                    false,
                    "Updated task "@ + id@ + ": changed "@ + join(views(changed@), ", "@) + "."@,
                    old(fx)@,
                    final(fx)@,
                ),
                Err(e) => told_and_updated(
                    *old(self),
                    *final(self),
                    true,
                    "Failed to update task: "@ + e@,
                    old(fx)@,
                    final(fx)@,
                ),
            },
    {
        match result {
            Ok(_) => {
                let names = join_text(changed, ", ");
                let text = cat5("Updated task ", id, ": changed ", names.as_str(), ".");
                self.tell_and_update(false, text, fx);
            },
            Err(e) => {
                self.tell_and_update(true, cat2("Failed to update task: ", e.as_str()), fx);
            },
        }
    }

    /// Shows the list of all epics.
    pub fn epics_listed(&mut self, epics: &Vec<Epic>)
        ensures
            told(*old(self), *final(self), false, epic_list(epics@)),
    {
        self.tell(false, render_epics(epics));
    }

    /// Tells the user of an epic that was made, or why it was not.
    pub fn epic_created(&mut self, result: Result<Named, String>)
        ensures
            match result {
                Ok(e) => told(
                    *old(self),
                    *final(self),
                    false,
                    "Created epic: "@ + e.id@ + " \u{2014} "@ + e.title@,
                ),
                Err(e) => told(*old(self), *final(self), true, "Failed to create epic: "@ + e@),
            },
    {
        match result {
            Ok(e) => {
                let text = cat4("Created epic: ", e.id.as_str(), " \u{2014} ", e.title.as_str());
                self.tell(false, text);
            },
            Err(e) => {
                self.tell(true, cat2("Failed to create epic: ", e.as_str()));
            },
        }
    }
}

/// Whatever string is added, what it reads is added to the texts.
proof fn lemma_views_push_lit(v: Seq<String>, t: Seq<char>)
    ensures
        forall|s: String| s@ == t ==> views(#[trigger] v.push(s)) == views(v).push(t),
{
    assert forall|s: String| s@ == t implies views(#[trigger] v.push(s)) == views(v).push(t) by {
        lemma_views_push(v, s);
    }
}

} // verus!
