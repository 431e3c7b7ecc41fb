//! What holds of what the sidebar shows.
use crate::sidebar::{
    at_most, change_recorded, change_to, counted_lines, diff_counts, listed_at, listed_before,
    sidebar_tasks, sidebar_updated, tokens_synced, window_synced, Task,
};
use crate::state::{App, FileChange, Priority, SidebarTask, TaskStatus};
use crate::tool_display::{DiffContent, DiffLine};
use vstd::prelude::*;

verus! {

/// The tasks of one urgency that are to be shown, done or not, in their order.
pub open spec fn group(
    tasks: Seq<Task>,
    closed: Seq<Seq<char>>,
    done: bool,
    priority: Priority,
) -> Seq<SidebarTask> {
    tasks.filter(
        |t: Task|
            t.priority == priority && (t.status == TaskStatus::Done) == done && (!done
                || closed.contains(t.id@)),
    ).map_values(
        |t: Task|
            SidebarTask {
                id: t.id,
                title: t.title,
                priority: t.priority,
                status: t.status,
                kind: t.kind,
            },
    )
}

proof fn lemma_group(
    tasks: Seq<Task>,
    closed: Seq<Seq<char>>,
    done: bool,
    priority: Priority,
    r: int,
)
    requires
        r == (if done {
            3int
        } else {
            0int
        }) + (match priority {
            Priority::High => 0int,
            Priority::Medium => 1int,
            Priority::Low => 2int,
        }),
    ensures
        listed_at(tasks, closed, r) == group(tasks, closed, done, priority),
    decreases tasks.len(),
{
    reveal(Seq::filter);
    if tasks.len() > 0 {
        lemma_group(tasks.drop_last(), closed, done, priority, r);
    }
    assert(listed_at(tasks, closed, r) =~= group(tasks, closed, done, priority));
}

/// The sidebar shows every task that is not done, and of those that are done the
/// ones that were closed in this session: what is to do comes first, and within
/// each the more urgent first, else in the order of the tasks.
pub proof fn sidebar_shows_what_counts(tasks: Seq<Task>, closed: Seq<Seq<char>>)
    ensures
        sidebar_tasks(tasks, closed) == group(tasks, closed, false, Priority::High) + group(
            tasks,
            closed,
            false,
            Priority::Medium,
        ) + group(tasks, closed, false, Priority::Low) + group(tasks, closed, true, Priority::High)
            + group(tasks, closed, true, Priority::Medium) + group(
            tasks,
            closed,
            true,
            Priority::Low,
        ),
{
    lemma_group(tasks, closed, false, Priority::High, 0);
    lemma_group(tasks, closed, false, Priority::Medium, 1);
    lemma_group(tasks, closed, false, Priority::Low, 2);
    lemma_group(tasks, closed, true, Priority::High, 3);
    lemma_group(tasks, closed, true, Priority::Medium, 4);
    lemma_group(tasks, closed, true, Priority::Low, 5);
    reveal_with_fuel(listed_before, 7);
    assert(Seq::<SidebarTask>::empty() + listed_at(tasks, closed, 0) =~= listed_at(
        tasks,
        closed,
        0,
    ));
}

/// Where there is room for fewer tasks, the first ones are shown.
pub proof fn the_first_are_shown<A>(s: Seq<A>, n: nat)
    ensures
        at_most(s, n).is_prefix_of(s),
        s.len() <= n ==> at_most(s, n) == s,
        s.len() > n ==> at_most(s, n).len() == n,
{
    assert(s.subrange(0, at_most(s, n).len() as int) =~= at_most(s, n));
}

/// A change adds as many lines as it holds additions, and removes as many as it
/// holds removals.
pub proof fn changed_lines_are_counted(lines: Seq<DiffLine>)
    ensures
        counted_lines(lines).0 == lines.filter(|l: DiffLine| l is Addition).len(),
        counted_lines(lines).1 == lines.filter(|l: DiffLine| l is Removal).len(),
    decreases lines.len(),
{
    reveal(Seq::filter);
    if lines.len() > 0 {
        changed_lines_are_counted(lines.drop_last());
    }
}

/// A written file counts as added, line by line.
pub proof fn diffs_are_counted(diff: DiffContent)
    ensures
        match diff {
            DiffContent::WriteSummary { line_count } => diff_counts(diff) == (line_count as nat, 0nat),
            DiffContent::EditDiff { lines } => diff_counts(diff) == (
                lines@.filter(|l: DiffLine| l is Addition).len(),
                lines@.filter(|l: DiffLine| l is Removal).len(),
            ),
            DiffContent::PatchDiff { lines } => diff_counts(diff) == (
                lines@.filter(|l: DiffLine| l is Addition).len(),
                lines@.filter(|l: DiffLine| l is Removal).len(),
            ),
        },
{
    match diff {
        DiffContent::WriteSummary { .. } => {},
        DiffContent::EditDiff { lines } => {
            changed_lines_are_counted(lines@);
        },
        DiffContent::PatchDiff { lines } => {
            changed_lines_are_counted(lines@);
        },
    }
}

proof fn lemma_change_to(changes: Seq<FileChange>, path: Seq<char>)
    ensures
        match change_to(changes, path) {
            Some(i) => 0 <= i < changes.len() && changes[i].path@ == path && forall|j: int|
                0 <= j < i ==> (#[trigger] changes[j]).path@ != path,
            None => forall|j: int| 0 <= j < changes.len() ==> (#[trigger] changes[j]).path@ != path,
        },
    decreases changes.len(),
{
    if changes.len() > 0 && changes[0].path@ != path {
        let rest = changes.skip(1);
        lemma_change_to(rest, path);
        match change_to(rest, path) {
            Some(i) => {
                assert(changes[i + 1] == rest[i]);
                assert forall|j: int| 0 <= j < i + 1 implies (#[trigger] changes[j]).path@
                    != path by {
                    if j > 0 {
                        assert(rest[j - 1] == changes[j]);
                    }
                }
            },
            None => {
                assert forall|j: int| 0 <= j < changes.len() implies (#[trigger] changes[j]).path@
                    != path by {
                    if j > 0 {
                        assert(rest[j - 1] == changes[j]);
                    }
                }
            },
        }
    }
}

/// Whether no file stands twice among the changes.
pub open spec fn one_each(changes: Seq<FileChange>) -> bool {
    forall|i: int, j: int|
        #![trigger changes[i], changes[j]]
        0 <= i < j < changes.len() ==> changes[i].path@ != changes[j].path@
}

/// A change to a file that changed before is added to what it changed before;
/// the changes to other files stay as they are, and no file stands twice.
pub proof fn changes_add_up(
    old_changes: Seq<FileChange>,
    new_changes: Seq<FileChange>,
    path: String,
    additions: usize,
    removals: usize,
    i: int,
)
    requires
        one_each(old_changes),
        change_recorded(old_changes, new_changes, path, additions, removals),
        0 <= i < old_changes.len(),
    ensures
        one_each(new_changes),
        new_changes[i].path@ == old_changes[i].path@,
        old_changes[i].path@ != path@ ==> new_changes[i] == old_changes[i],
        old_changes[i].path@ == path@ ==> {
            &&& new_changes.len() == old_changes.len()
            &&& old_changes[i].additions + additions <= usize::MAX ==> new_changes[i].additions
                == old_changes[i].additions + additions
            &&& old_changes[i].removals + removals <= usize::MAX ==> new_changes[i].removals
                == old_changes[i].removals + removals
            &&& old_changes[i].additions + additions > usize::MAX ==> new_changes[i].additions
                == usize::MAX
            &&& old_changes[i].removals + removals > usize::MAX ==> new_changes[i].removals
                == usize::MAX
        },
{
    lemma_change_to(old_changes, path@);
    match change_to(old_changes, path@) {
        Some(k) => {
            assert(old_changes[k].path@ == path@);
            assert forall|a: int, b: int|
                #![trigger new_changes[a], new_changes[b]]
                0 <= a < b < new_changes.len() implies new_changes[a].path@
                != new_changes[b].path@ by {
                assert(old_changes[a].path@ != old_changes[b].path@);
            }
            if i != k {
                assert(old_changes[i].path@ != old_changes[k].path@);
            }
        },
        None => {
            assert forall|a: int, b: int|
                #![trigger new_changes[a], new_changes[b]]
                0 <= a < b < new_changes.len() implies new_changes[a].path@
                != new_changes[b].path@ by {
                assert(new_changes[a] == old_changes[a]);
                if b < old_changes.len() {
                    assert(new_changes[b] == old_changes[b]);
                }
            }
        },
    }
}

/// The first change to a file is shown at the end, as it is.
pub proof fn first_change_is_added(
    old_changes: Seq<FileChange>,
    new_changes: Seq<FileChange>,
    path: String,
    additions: usize,
    removals: usize,
)
    requires
        forall|i: int| 0 <= i < old_changes.len() ==> (#[trigger] old_changes[i]).path@ != path@,
        change_recorded(old_changes, new_changes, path, additions, removals),
    ensures
        new_changes.len() == old_changes.len() + 1,
        new_changes.drop_last() == old_changes,
        new_changes.last().path == path,
        new_changes.last().additions == additions,
        new_changes.last().removals == removals,
{
    lemma_change_to(old_changes, path@);
    assert(new_changes.drop_last() =~= old_changes);
}

/// Bringing the sidebar up to date shows the title and the tokens of the session
/// and the model in use, and changes nothing but what is shown.
pub proof fn sidebar_shows_the_session(pre: App)
    ensures
        ({
            let post = sidebar_updated(pre);
            &&& pre.current_session is Some ==> {
                &&& post.sidebar_state.session_title == pre.current_session->Some_0.title
                &&& post.status_line_state.total_tokens
                    == pre.current_session->Some_0.token_usage.total_tokens
            }
            &&& pre.current_session is None ==> {
                &&& post.sidebar_state.session_title == pre.sidebar_state.session_title
                &&& post.status_line_state.total_tokens == pre.status_line_state.total_tokens
            }
            &&& pre.current_model is Some ==> {
                &&& post.sidebar_state.model_name == pre.current_model->Some_0
                &&& post.status_line_state.model_name == pre.current_model->Some_0
            }
            &&& pre.current_model is None ==> {
                &&& post.sidebar_state.model_name == pre.sidebar_state.model_name
                &&& post.status_line_state.model_name == pre.status_line_state.model_name
            }
            &&& post.status_line_state.last_prompt_tokens == pre.last_prompt_tokens
            &&& post.messages == pre.messages
            &&& post.stored_messages == pre.stored_messages
            &&& post.current_session == pre.current_session
            &&& post.sidebar_state.tasks == pre.sidebar_state.tasks
            &&& post.sidebar_state.changes == pre.sidebar_state.changes
        }),
{
}

/// The token counts of the sidebar are those of the session, or none at all.
pub proof fn sidebar_counts_the_session(pre: App)
    ensures
        ({
            let post = tokens_synced(pre);
            &&& pre.current_session is Some ==> {
                let usage = pre.current_session->Some_0.token_usage;
                &&& post.sidebar_state.prompt_tokens == usage.prompt_tokens
                &&& post.sidebar_state.completion_tokens == usage.completion_tokens
                &&& post.sidebar_state.total_tokens == usage.total_tokens
            }
            &&& pre.current_session is None ==> {
                &&& post.sidebar_state.prompt_tokens == 0
                &&& post.sidebar_state.completion_tokens == 0
                &&& post.sidebar_state.total_tokens == 0
            }
            &&& post.messages == pre.messages
            &&& post.current_session == pre.current_session
            &&& post.status_line_state == pre.status_line_state
        }),
{
}

/// The status line shows the window of the model in use where that is known, and
/// else what it showed.
pub proof fn window_is_that_of_the_model(pre: App)
    ensures
        ({
            let post = window_synced(pre);
            let known = pre.current_model is Some && pre.provider_registry is Some
                && pre.provider_registry->Some_0.lookup(pre.current_model->Some_0@) is Ok;
            &&& !known ==> post == pre
            &&& known ==> post.status_line_state.context_window
                == pre.provider_registry->Some_0.lookup(
                pre.current_model->Some_0@,
            )->Ok_0.context_window
            &&& post.messages == pre.messages
            &&& post.sidebar_state == pre.sidebar_state
        }),
{
}

} // verus!
