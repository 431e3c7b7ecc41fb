//! What the sidebar and the status line show.
use crate::effects::Effect;
use crate::state::{
    App, FileChange, Priority, SidebarState, SidebarTask, StatusLineState, TaskKind, TaskStatus,
    TokenUsage,
};
use crate::text::{holds, same_text, views};
use crate::tool_display::{DiffContent, DiffLine};
use vstd::prelude::*;
use vstd::string::*;

verus! {

/// A task as it is stored.
#[derive(Debug, PartialEq, Eq)]
pub struct Task {
    pub id: String,
    pub title: String,
    pub description: Option<String>,
    pub priority: Priority,
    pub status: TaskStatus,
    pub kind: TaskKind,
    pub epic_id: Option<String>,
    /// When it was made, as it is shown.
    pub created_at: String,
}

/// Where a task stands in the sidebar: what is still to do comes before what
/// is done, and within each the more urgent first.
pub open spec fn rank(t: SidebarTask) -> int {
    (if t.status == TaskStatus::Done {
        3int
    } else {
        0int
    }) + (match t.priority {
        Priority::High => 0int,
        Priority::Medium => 1int,
        Priority::Low => 2int,
    })
}

/// A task as the sidebar shows it.
pub open spec fn shown(t: Task) -> SidebarTask {
    SidebarTask {
        id: t.id,
        title: t.title,
        priority: t.priority,
        status: t.status,
        kind: t.kind,
    }
}

/// Whether the sidebar shows a task: it is not done, or it was closed in this session.
pub open spec fn is_listed(t: Task, closed: Seq<Seq<char>>) -> bool {
    t.status != TaskStatus::Done || closed.contains(t.id@)
}

/// Those of `tasks` that the sidebar shows and that stand at the place `r`, in their order.
pub open spec fn listed_at(tasks: Seq<Task>, closed: Seq<Seq<char>>, r: int) -> Seq<SidebarTask>
    decreases tasks.len(),
{
    if tasks.len() == 0 {
        Seq::empty()
    } else {
        let before = listed_at(tasks.drop_last(), closed, r);
        let t = tasks.last();
        if is_listed(t, closed) && rank(shown(t)) == r {
            before.push(shown(t))
        } else {
            before
        }
    }
}

/// The tasks that the sidebar shows at the places before `r`.
pub open spec fn listed_before(tasks: Seq<Task>, closed: Seq<Seq<char>>, r: int) -> Seq<SidebarTask>
    decreases r,
{
    if r <= 0 {
        Seq::empty()
    } else {
        listed_before(tasks, closed, r - 1) + listed_at(tasks, closed, r - 1)
    }
}

/// The tasks of the sidebar, in the order in which they stand there.
pub open spec fn sidebar_tasks(tasks: Seq<Task>, closed: Seq<Seq<char>>) -> Seq<SidebarTask> {
    listed_before(tasks, closed, 6)
}

/// The first `n` elements of `s`, or all of them where there are fewer.
pub open spec fn at_most<A>(s: Seq<A>, n: nat) -> Seq<A> {
    if s.len() > n {
        s.take(n as int)
    } else {
        s
    }
}

proof fn lemma_listed_at(tasks: Seq<Task>, closed: Seq<Seq<char>>, r: int)
    ensures
        forall|i: int|
            0 <= i < listed_at(tasks, closed, r).len() ==> rank(
                #[trigger] listed_at(tasks, closed, r)[i],
            ) == r,
        forall|k: int|
            0 <= k < tasks.len() && is_listed(#[trigger] tasks[k], closed) && rank(shown(tasks[k]))
                == r ==> listed_at(tasks, closed, r).contains(shown(tasks[k])),
    decreases tasks.len(),
{
    if tasks.len() > 0 {
        lemma_listed_at(tasks.drop_last(), closed, r);
        let before = listed_at(tasks.drop_last(), closed, r);
        let all = listed_at(tasks, closed, r);
        assert forall|k: int|
            0 <= k < tasks.len() && is_listed(#[trigger] tasks[k], closed) && rank(shown(tasks[k]))
                == r implies all.contains(shown(tasks[k])) by {
            if k < tasks.len() - 1 {
                assert(tasks.drop_last()[k] == tasks[k]);
                assert(before.contains(shown(tasks[k])));
                let j = choose|j: int| 0 <= j < before.len() && before[j] == shown(tasks[k]);
                assert(all[j] == shown(tasks[k]));
            } else {
                assert(all[all.len() - 1] == shown(tasks[k]));
            }
        }
    }
}

proof fn lemma_listed_before(tasks: Seq<Task>, closed: Seq<Seq<char>>, r: int)
    requires
        r >= 0,
    ensures
        forall|i: int|
            0 <= i < listed_before(tasks, closed, r).len() ==> rank(
                #[trigger] listed_before(tasks, closed, r)[i],
            ) < r,
        forall|i: int, j: int|
            0 <= i < j < listed_before(tasks, closed, r).len() ==> rank(
                #[trigger] listed_before(tasks, closed, r)[i],
            ) <= rank(#[trigger] listed_before(tasks, closed, r)[j]),
        forall|k: int|
            0 <= k < tasks.len() && is_listed(#[trigger] tasks[k], closed) && 0 <= rank(
                shown(tasks[k]),
            ) < r ==> listed_before(tasks, closed, r).contains(shown(tasks[k])),
    decreases r,
{
    if r > 0 {
        lemma_listed_before(tasks, closed, r - 1);
        lemma_listed_at(tasks, closed, r - 1);
        let low = listed_before(tasks, closed, r - 1);
        let high = listed_at(tasks, closed, r - 1);
        let all = listed_before(tasks, closed, r);
        assert forall|k: int|
            0 <= k < tasks.len() && is_listed(#[trigger] tasks[k], closed) && 0 <= rank(
                shown(tasks[k]),
            ) < r implies all.contains(shown(tasks[k])) by {
            let t = shown(tasks[k]);
            if rank(t) < r - 1 {
                let j = choose|j: int| 0 <= j < low.len() && low[j] == t;
                assert(all[j] == t);
            } else {
                assert(high.contains(t));
                let j = choose|j: int| 0 <= j < high.len() && high[j] == t;
                assert(all[low.len() + j] == t);
            }
        }
    }
}

/// In the sidebar no task stands below one that ranks behind it, and no task
/// that is to be shown is left out.
pub proof fn sidebar_tasks_are_ordered(tasks: Seq<Task>, closed: Seq<Seq<char>>)
    ensures
        forall|i: int, j: int|
            0 <= i < j < sidebar_tasks(tasks, closed).len() ==> rank(
                #[trigger] sidebar_tasks(tasks, closed)[i],
            ) <= rank(#[trigger] sidebar_tasks(tasks, closed)[j]),
        forall|k: int|
            0 <= k < tasks.len() && is_listed(#[trigger] tasks[k], closed) ==> sidebar_tasks(
                tasks,
                closed,
            ).contains(shown(tasks[k])),
{
    lemma_listed_before(tasks, closed, 6);
    assert forall|k: int| 0 <= k < tasks.len() implies 0 <= rank(shown(#[trigger] tasks[k])) < 6 by {
    }
}

fn rank_of(t: &Task) -> (r: usize)
    ensures
        r as int == rank(shown(*t)),
        r < 6,
{
    let base: usize = if t.status == TaskStatus::Done {
        3
    } else {
        0
    };
    match t.priority {
        Priority::High => base,
        Priority::Medium => base + 1,
        Priority::Low => base + 2,
    }
}

/// The additions and removals of a change.
pub open spec fn counted_lines(lines: Seq<DiffLine>) -> (nat, nat)
    decreases lines.len(),
{
    if lines.len() == 0 {
        (0, 0)
    } else {
        let (a, r) = counted_lines(lines.drop_last());
        match lines.last() {
            DiffLine::Addition(_) => (a + 1, r),
            DiffLine::Removal(_) => (a, r + 1),
            _ => (a, r),
        }
    }
}

/// How many lines a change adds and removes; a written file counts as added.
pub open spec fn diff_counts(diff: DiffContent) -> (nat, nat) {
    match diff {
        DiffContent::EditDiff { lines } => counted_lines(lines@),
        DiffContent::PatchDiff { lines } => counted_lines(lines@),
        DiffContent::WriteSummary { line_count } => (line_count as nat, 0),
    }
}

fn count_lines(lines: &Vec<DiffLine>) -> (r: (usize, usize))
    ensures
        (r.0 as nat, r.1 as nat) == counted_lines(lines@),
{
    let mut a: usize = 0;
    let mut d: usize = 0;
    let mut i: usize = 0;
    while i < lines.len()
        invariant
            i <= lines@.len(),
            a + d <= i,
            (a as nat, d as nat) == counted_lines(lines@.take(i as int)),
        decreases lines@.len() - i,
    {
        proof {
            assert(lines@.take(i + 1).drop_last() =~= lines@.take(i as int));
            assert(lines@.take(i + 1).last() == lines@[i as int]);
        }
        match &lines[i] {
            DiffLine::Addition(_) => {
                a = a + 1;
            },
            DiffLine::Removal(_) => {
                d = d + 1;
            },
            _ => {},
        }
        i = i + 1;
    }
    proof {
        assert(lines@.take(lines@.len() as int) =~= lines@);
    }
    (a, d)
}

/// How many lines a change adds and removes; a written file counts as added.
pub fn count_diff_lines(diff: &DiffContent) -> (r: (usize, usize))
    ensures
        (r.0 as nat, r.1 as nat) == diff_counts(*diff),
{
    match diff {
        DiffContent::EditDiff { lines } => count_lines(lines),
        DiffContent::PatchDiff { lines } => count_lines(lines),
        DiffContent::WriteSummary { line_count } => (*line_count, 0),
    }
}

/// The sum of two counts, or the highest number there is where that is less.
pub open spec fn capped_sum(a: usize, b: usize) -> usize {
    if a + b <= usize::MAX {
        (a + b) as usize
    } else {
        usize::MAX
    }
}

/// The index of the first change to `path`.
pub open spec fn change_to(changes: Seq<FileChange>, path: Seq<char>) -> Option<int>
    decreases changes.len(),
{
    if changes.len() == 0 {
        None
    } else if changes[0].path@ == path {
        Some(0int)
    } else {
        match change_to(changes.skip(1), path) {
            Some(i) => Some(i + 1),
            None => None,
        }
    }
}

/// The changes after one more to `path`: added to the earlier changes to it,
/// or at the end where there are none.
pub open spec fn change_recorded(
    old_changes: Seq<FileChange>,
    new_changes: Seq<FileChange>,
    path: String,
    additions: usize,
    removals: usize,
) -> bool {
    match change_to(old_changes, path@) {
        Some(i) => new_changes == old_changes.update(
            i,
            FileChange {
                path: old_changes[i].path,
                additions: capped_sum(old_changes[i].additions, additions),
                removals: capped_sum(old_changes[i].removals, removals),
            },
        ),
        None => new_changes == old_changes.push(FileChange { path, additions, removals }),
    }
}

impl SidebarState {
    /// Counts a change to a file.
    pub fn record_file_change(&mut self, path: String, additions: usize, removals: usize)
        ensures
            *final(self) == (SidebarState { changes: final(self).changes, ..*old(self) }),
            change_recorded(
                old(self).changes@,
                final(self).changes@,
                path,
                additions,
                removals,
            ),
    {
        let ghost before = self.changes@;
        let mut i: usize = 0;
        proof {
            assert(before.skip(0) =~= before);
        }
        while i < self.changes.len()
            invariant
                i <= before.len(),
                self.changes@ == before,
                *self == *old(self),
                change_to(before, path@) == (match change_to(before.skip(i as int), path@) {
                    Some(k) => Some(k + i),
                    None => None,
                }),
            decreases before.len() - i,
        {
            if same_text(self.changes[i].path.as_str(), path.as_str()) {
                let a: usize = self.changes[i].additions.saturating_add(additions);
                let d: usize = self.changes[i].removals.saturating_add(removals);
                let change = &mut self.changes[i];
                change.additions = a;
                change.removals = d;
                proof {
                    assert(change_to(before, path@) == Some(i as int));
                    assert(self.changes@ =~= before.update(i as int, self.changes@[i as int]));
                }
                return;
            }
            proof {
                assert(before.skip(i as int).skip(1) =~= before.skip(i + 1));
            }
            i = i + 1;
        }
        self.changes.push(FileChange { path, additions, removals });
    }

    /// Notes that a task was closed in this session.
    pub fn record_task_closed(&mut self, id: String)
        ensures
            *final(self) == (SidebarState {
                session_closed_task_ids: final(self).session_closed_task_ids,
                ..*old(self)
            }),
            final(self).session_closed_task_ids@ == (if views(
                old(self).session_closed_task_ids@,
            ).contains(id@) {
                old(self).session_closed_task_ids@
            } else {
                old(self).session_closed_task_ids@.push(id)
            }),
    {
        if !holds(&self.session_closed_task_ids, id.as_str()) {
            self.session_closed_task_ids.push(id);
        }
    }
}

/// The application with its sidebar and status line brought up to date.
pub open spec fn sidebar_updated(pre: App) -> App {
    App {
        sidebar_state: SidebarState {
            session_title: match pre.current_session {
                Some(s) => s.title,
                None => pre.sidebar_state.session_title,
            },
            model_name: match pre.current_model {
                Some(m) => m,
                None => pre.sidebar_state.model_name,
            },
            ..pre.sidebar_state
        },
        status_line_state: StatusLineState {
            model_name: match pre.current_model {
                Some(m) => m,
                None => pre.status_line_state.model_name,
            },
            total_tokens: match pre.current_session {
                Some(s) => s.token_usage.total_tokens,
                None => pre.status_line_state.total_tokens,
            },
            last_prompt_tokens: pre.last_prompt_tokens,
            ..pre.status_line_state
        },
        ..pre
    }
}

/// The application with the context window of its model in the status line;
/// unchanged where the model is not known.
pub open spec fn window_synced(pre: App) -> App {
    match (pre.current_model, pre.provider_registry) {
        (Some(model), Some(registry)) => match registry.lookup(model@) {
            Ok(c) => App {
                status_line_state: StatusLineState {
                    context_window: c.context_window as u64,
                    ..pre.status_line_state
                },
                ..pre
            },
            Err(_) => pre,
        },
        _ => pre,
    }
}

/// The application with the token counts of its session in the sidebar.
pub open spec fn tokens_synced(pre: App) -> App {
    let usage = match pre.current_session {
        Some(s) => s.token_usage,
        None => TokenUsage { prompt_tokens: 0, completion_tokens: 0, total_tokens: 0 },
    };
    App {
        sidebar_state: SidebarState {
            prompt_tokens: usage.prompt_tokens,
            completion_tokens: usage.completion_tokens,
            total_tokens: usage.total_tokens,
            ..pre.sidebar_state
        },
        ..pre
    }
}

/// The sidebar and the status line are brought up to date once and for all:
/// a second time changes nothing.
pub proof fn update_is_idempotent(pre: App)
    ensures
        sidebar_updated(sidebar_updated(pre)) == sidebar_updated(pre),
        tokens_synced(tokens_synced(pre)) == tokens_synced(pre),
        window_synced(window_synced(pre)) == window_synced(pre),
{
}

impl App {
    /// Brings the sidebar and the status line up to date.
    pub fn update_sidebar(&mut self, fx: &mut Vec<Effect>)
        ensures
            *final(self) == sidebar_updated(*old(self)),
            final(fx)@ == old(fx)@.push(Effect::RefreshSidebar),
    {
        match &self.current_session {
            Some(session) => {
                self.sidebar_state.session_title = session.title.clone();
                self.status_line_state.total_tokens = session.token_usage.total_tokens;
            },
            None => {},
        }
        match &self.current_model {
            Some(model) => {
                self.sidebar_state.model_name = model.clone();
                self.status_line_state.model_name = model.clone();
            },
            None => {},
        }
        self.status_line_state.last_prompt_tokens = self.last_prompt_tokens;
        fx.push(Effect::RefreshSidebar);
    }

    /// Shows the tasks: those that are not done and those that were closed in
    /// this session, no more than `max`.
    pub fn set_sidebar_tasks(&mut self, tasks: &Vec<Task>, max: usize)
        ensures
            *final(self) == (App {
                sidebar_state: SidebarState {
                    tasks: final(self).sidebar_state.tasks,
                    ..old(self).sidebar_state
                },
                ..*old(self)
            }),
            final(self).sidebar_state.tasks@ == at_most(
                sidebar_tasks(tasks@, views(old(self).sidebar_state.session_closed_task_ids@)),
                max as nat,
            ),
    {
        let ghost closed = views(self.sidebar_state.session_closed_task_ids@);
        let mut out: Vec<SidebarTask> = Vec::new();
        let mut r: usize = 0;
        while r < 6
            invariant
                r <= 6,
                closed == views(self.sidebar_state.session_closed_task_ids@),
                out@ == listed_before(tasks@, closed, r as int),
            decreases 6 - r,
        {
            let ghost before = out@;
            let mut i: usize = 0;
            proof {
                assert(before + listed_at(tasks@.take(0), closed, r as int) =~= before);
            }
            while i < tasks.len()
                invariant
                    i <= tasks@.len(),
                    closed == views(self.sidebar_state.session_closed_task_ids@),
                    out@ == before + listed_at(tasks@.take(i as int), closed, r as int),
                decreases tasks@.len() - i,
            {
                let t = &tasks[i];
                proof {
                    assert(tasks@.take(i + 1).drop_last() =~= tasks@.take(i as int));
                    assert(tasks@.take(i + 1).last() == *t);
                }
                let listed = t.status != TaskStatus::Done || holds(
                    &self.sidebar_state.session_closed_task_ids,
                    t.id.as_str(),
                );
                if listed && rank_of(t) == r {
                    out.push(
                        SidebarTask {
                            id: t.id.clone(),
                            title: t.title.clone(),
                            priority: t.priority,
                            status: t.status,
                            kind: t.kind,
                        },
                    );
                    proof {
                        assert(out@ =~= before + listed_at(tasks@.take(i + 1), closed, r as int));
                    }
                }
                i = i + 1;
            }
            proof {
                assert(tasks@.take(tasks@.len() as int) =~= tasks@);
            }
            r = r + 1;
        }
        out.truncate(max);
        self.sidebar_state.tasks = out;
    }

    /// Shows the context window of the model in use, where it is known.
    pub fn sync_context_window(&mut self)
        ensures
            *final(self) == window_synced(*old(self)),
    {
        match (&self.current_model, &self.provider_registry) {
            (Some(model), Some(registry)) => {
                match registry.resolve_model(model.as_str()) {
                    Ok(m) => {
                        self.status_line_state.context_window = m.context_window as u64;
                    },
                    Err(_) => {},
                }
            },
            _ => {},
        }
    }

    /// Shows the token counts of the session.
    pub fn sync_sidebar_tokens(&mut self)
        ensures
            *final(self) == tokens_synced(*old(self)),
    {
        match &self.current_session {
            Some(session) => {
                self.sidebar_state.prompt_tokens = session.token_usage.prompt_tokens;
                self.sidebar_state.completion_tokens = session.token_usage.completion_tokens;
                self.sidebar_state.total_tokens = session.token_usage.total_tokens;
            },
            None => {
                self.sidebar_state.prompt_tokens = 0;
                self.sidebar_state.completion_tokens = 0;
                self.sidebar_state.total_tokens = 0;
            },
        }
    }

    /// What the cost of the session is reckoned from: the model that is priced
    /// and the tokens that were used.
    pub fn cost_basis(&self) -> (r: Option<(&str, TokenUsage)>)
        ensures
            match r {
                Some((model, usage)) => {
                    &&& self.current_model matches Some(m)
                    &&& model@ == m@
                    &&& self.provider_registry matches Some(registry)
                    &&& registry.lookup(m@) is Ok
                    &&& self.current_session matches Some(s)
                    &&& usage == s.token_usage
                },
                None => !(self.current_model matches Some(m) && self.provider_registry matches Some(
                    registry,
                ) && registry.lookup(m@) is Ok && self.current_session is Some),
            },
    {
        match (&self.current_model, &self.provider_registry, &self.current_session) {
            (Some(model), Some(registry), Some(session)) => {
                match registry.resolve_model(model.as_str()) {
                    Ok(_) => Some((model.as_str(), session.token_usage)),
                    Err(_) => None,
                }
            },
            _ => None,
        }
    }

    /// Shows what is known of the repository.
    pub fn set_git_info(&mut self, branch: Option<String>, dirty: bool, repo_name: Option<String>)
        ensures
            *final(self) == (App {
                sidebar_state: SidebarState {
                    git_branch: branch,
                    git_dirty: dirty,
                    git_repo_name: repo_name,
                    ..old(self).sidebar_state
                },
                ..*old(self)
            }),
    {
        self.sidebar_state.git_branch = branch;
        self.sidebar_state.git_dirty = dirty;
        self.sidebar_state.git_repo_name = repo_name;
    }
}

} // verus!
