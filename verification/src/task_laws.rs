//! What holds of how tasks and epics are listed, shown and edited.
use crate::effects::Effect;
use crate::sidebar::Task;
use crate::state::{App, Priority, TaskKind, TaskStatus};
use crate::tasks::{
    asked_words, edit_words, edited, epic_line, epic_lines, epic_list, epic_sections,
    epic_task_line, field_edit, load_handled, marker, problems_noted, standalone_line,
    standalone_lines, task_details, task_list, told_and_updated, Epic, FieldEdit, TaskEdit,
    NOTHING_TO_UPDATE,
};
use crate::text::{find_char, is_space, join, lemma_find_char, trim_end, words};
use crate::text_laws::{
    joined_parts_occur, middle_occurs, occurs, part_of_a_part_occurs, trimming_keeps_what_is_seen,
};
use vstd::prelude::*;

verus! {

/// The lines on the tasks of an epic are those on the first ones followed by
/// those on the rest.
pub proof fn epic_lines_join(a: Seq<Task>, b: Seq<Task>, id: Seq<char>)
    ensures
        epic_lines(a + b, id) == epic_lines(a, id) + epic_lines(b, id),
    decreases b.len(),
{
    if b.len() == 0 {
        assert(a + b =~= a);
        assert(epic_lines(a, id) + epic_lines(b, id) =~= epic_lines(a, id));
    } else {
        epic_lines_join(a, b.drop_last(), id);
        assert((a + b).drop_last() =~= a + b.drop_last());
        assert((a + b).last() == b.last());
        assert(epic_lines(a + b, id) =~= epic_lines(a, id) + epic_lines(b, id));
    }
}

/// A task has a line under its own epic and under no other: with a cross where
/// it is done, its id, its title, whether it is a bug, and how urgent it is.
pub proof fn epic_line_of_one(t: Task, id: Seq<char>)
    ensures
        ({
            let mark = if t.status == TaskStatus::Done {
                "x"@
            } else {
                " "@
            };
            let bug = if t.kind == TaskKind::Bug {
                " [bug]"@
            } else {
                ""@
            };
            let urgent = match t.priority {
                Priority::High => "high"@,
                Priority::Medium => "medium"@,
                Priority::Low => "low"@,
            };
            let told = epic_lines(seq![t], id);
            &&& t.epic_id is None ==> told.len() == 0
            &&& t.epic_id is Some && t.epic_id->Some_0@ != id ==> told.len() == 0
            &&& t.epic_id is Some && t.epic_id->Some_0@ == id ==> told == "  - ["@ + mark + "] "@
                + t.id@ + ": "@ + t.title@ + bug + " ["@ + urgent + "]\n"@
        }),
{
    let one = seq![t];
    assert(one.drop_last() =~= Seq::<Task>::empty());
    assert(epic_lines(one.drop_last(), id) =~= Seq::<char>::empty());
    assert(Seq::<char>::empty() + epic_task_line(t) =~= epic_task_line(t));
}

/// The lines on the tasks without an epic are those on the first ones followed
/// by those on the rest.
pub proof fn standalone_lines_join(a: Seq<Task>, b: Seq<Task>)
    ensures
        standalone_lines(a + b) == standalone_lines(a) + standalone_lines(b),
    decreases b.len(),
{
    if b.len() == 0 {
        assert(a + b =~= a);
        assert(standalone_lines(a) + standalone_lines(b) =~= standalone_lines(a));
    } else {
        standalone_lines_join(a, b.drop_last());
        assert((a + b).drop_last() =~= a + b.drop_last());
        assert((a + b).last() == b.last());
        assert(standalone_lines(a + b) =~= standalone_lines(a) + standalone_lines(b));
    }
}

/// A task without an epic has a line of its own, one with an epic has none here.
pub proof fn standalone_line_of_one(t: Task)
    ensures
        ({
            let mark = if t.status == TaskStatus::Done {
                "x"@
            } else {
                " "@
            };
            let urgent = match t.priority {
                Priority::High => "high"@,
                Priority::Medium => "medium"@,
                Priority::Low => "low"@,
            };
            &&& t.epic_id is Some ==> standalone_lines(seq![t]).len() == 0
            &&& t.epic_id is None ==> standalone_lines(seq![t]) == "  - ["@ + mark + "] "@ + t.id@
                + ": "@ + t.title@ + " ["@ + urgent + "]\n"@
        }),
{
    let one = seq![t];
    assert(one.drop_last() =~= Seq::<Task>::empty());
    assert(standalone_lines(one.drop_last()) =~= Seq::<char>::empty());
    assert(Seq::<char>::empty() + standalone_line(t) =~= standalone_line(t));
}

/// The sections on epics stand in the order of the epics.
pub proof fn sections_join(tasks: Seq<Task>, a: Seq<Epic>, b: Seq<Epic>)
    ensures
        epic_sections(tasks, a + b) == epic_sections(tasks, a) + epic_sections(tasks, b),
    decreases b.len(),
{
    if b.len() == 0 {
        assert(a + b =~= a);
        assert(epic_sections(tasks, a) + epic_sections(tasks, b) =~= epic_sections(tasks, a));
    } else {
        sections_join(tasks, a, b.drop_last());
        assert((a + b).drop_last() =~= a + b.drop_last());
        assert((a + b).last() == b.last());
        assert(epic_sections(tasks, a + b) =~= epic_sections(tasks, a) + epic_sections(tasks, b));
    }
}

/// An epic with tasks has a section with its title, its id and its tasks; one
/// without has none.
pub proof fn section_of_one(tasks: Seq<Task>, e: Epic)
    ensures
        epic_lines(tasks, e.id@).len() == 0 ==> epic_sections(tasks, seq![e]).len() == 0,
        epic_lines(tasks, e.id@).len() > 0 ==> epic_sections(tasks, seq![e]) == "## "@ + e.title@
            + " ("@ + e.id@ + ")\n"@ + epic_lines(tasks, e.id@),
{
    let one = seq![e];
    assert(one.drop_last() =~= Seq::<Epic>::empty());
    assert(epic_sections(tasks, one.drop_last()) =~= Seq::<char>::empty());
    let body = epic_lines(tasks, e.id@);
    if body.len() > 0 {
        assert(epic_sections(tasks, one) =~= "## "@ + e.title@ + " ("@ + e.id@ + ")\n"@ + body);
    }
}

proof fn lemma_lines_hold(tasks: Seq<Task>, i: int)
    requires
        0 <= i < tasks.len(),
    ensures
        tasks[i].epic_id is None ==> occurs(standalone_lines(seq![tasks[i]]), standalone_lines(tasks)),
        tasks[i].epic_id matches Some(id) ==> occurs(
            epic_lines(seq![tasks[i]], id@),
            epic_lines(tasks, id@),
        ),
{
    let a = tasks.take(i);
    let m = seq![tasks[i]];
    let b = tasks.skip(i + 1);
    assert(a + m + b =~= tasks);
    standalone_lines_join(a + m, b);
    standalone_lines_join(a, m);
    middle_occurs(standalone_lines(a), standalone_lines(m), standalone_lines(b));
    if tasks[i].epic_id is Some {
        let id = tasks[i].epic_id->Some_0@;
        epic_lines_join(a + m, b, id);
        epic_lines_join(a, m, id);
        middle_occurs(epic_lines(a, id), epic_lines(m, id), epic_lines(b, id));
    }
}

proof fn lemma_assoc(a: Seq<char>, b: Seq<char>, c: Seq<char>)
    ensures
        a + b + c == a + (b + c),
{
    assert(a + b + c =~= a + (b + c));
}

/// The text of a line up to the bracket that closes it.
spec fn seen_of(line: Seq<char>) -> Seq<char> {
    line.take(line.len() - 1)
}

proof fn lemma_line_names(
    before: Seq<char>,
    id: Seq<char>,
    title: Seq<char>,
    x: Seq<char>,
    y: Seq<char>,
    z: Seq<char>,
    line: Seq<char>,
)
    requires
        line == before + id + ": "@ + title + x + y + z + "]\n"@,
    ensures
        line.len() > 1,
        occurs(seen_of(line), line),
        occurs(id + ": "@ + title, seen_of(line)),
        !is_space(seen_of(line).last()),
{
    reveal_strlit("]\n");
    let named = id + ": "@ + title;
    let rest = x + y + z + seq![']'];
    assert(before + named + rest =~= seen_of(line));
    middle_occurs(before, named, rest);
    assert(line.subrange(0, 0int + seen_of(line).len()) =~= seen_of(line));
    assert(seen_of(line).last() == ']');
}

proof fn lemma_named_in(
    named: Seq<char>,
    line: Seq<char>,
    body: Seq<char>,
    front: Seq<char>,
    behind: Seq<char>,
)
    requires
        line.len() > 1,
        occurs(seen_of(line), line),
        occurs(named, seen_of(line)),
        !is_space(seen_of(line).last()),
        occurs(line, body),
    ensures
        occurs(named, trim_end(front + body + behind)),
{
    let seen = seen_of(line);
    let all = front + body + behind;
    middle_occurs(front, body, behind);
    part_of_a_part_occurs(seen, line, body);
    part_of_a_part_occurs(seen, body, all);
    trimming_keeps_what_is_seen(seen, all);
    part_of_a_part_occurs(named, seen, trim_end(all));
}

/// No task without an epic is missing from the list: its id and its title stand
/// in it.
pub proof fn standalone_task_is_listed(tasks: Seq<Task>, epics: Seq<Epic>, i: int)
    requires
        0 <= i < tasks.len(),
        tasks[i].epic_id is None,
    ensures
        occurs(tasks[i].id@ + ": "@ + tasks[i].title@, task_list(tasks, epics)),
{
    let t = tasks[i];
    let line = standalone_lines(seq![t]);
    let before = "  - ["@ + marker(t) + "] "@;
    let none = Seq::<char>::empty();
    lemma_lines_hold(tasks, i);
    standalone_line_of_one(t);
    assert(line == before + t.id@ + ": "@ + t.title@ + none + " ["@ + t.priority.label() + "]\n"@)
        by {
        let head = before + t.id@ + ": "@ + t.title@;
        assert(head + none =~= head);
    }
    lemma_line_names(before, t.id@, t.title@, none, " ["@, t.priority.label(), line);
    let grouped = epic_sections(tasks, epics);
    let alone = standalone_lines(tasks);
    let sep = if grouped.len() == 0 {
        ""@
    } else {
        "\n"@
    };
    let front = grouped + sep + "## Standalone Tasks\n"@;
    assert(alone.len() > 0);
    lemma_named_in(t.id@ + ": "@ + t.title@, line, alone, front, none);
    assert(front + alone + none =~= front + alone);
}

proof fn lemma_section_of(tasks: Seq<Task>, epics: Seq<Epic>, j: int)
    requires
        0 <= j < epics.len(),
        epic_lines(tasks, epics[j].id@).len() > 0,
    ensures
        occurs(epic_lines(tasks, epics[j].id@), epic_sections(tasks, epics)),
{
    let e = epics[j];
    let body = epic_lines(tasks, e.id@);
    let a = epics.take(j);
    let m = seq![e];
    let b = epics.skip(j + 1);
    assert(a + m + b =~= epics);
    sections_join(tasks, a + m, b);
    sections_join(tasks, a, m);
    middle_occurs(epic_sections(tasks, a), epic_sections(tasks, m), epic_sections(tasks, b));
    section_of_one(tasks, e);
    let titled = "## "@ + e.title@ + " ("@ + e.id@ + ")\n"@;
    let none = Seq::<char>::empty();
    middle_occurs(titled, body, none);
    assert(titled + body + none =~= epic_sections(tasks, m));
    part_of_a_part_occurs(body, epic_sections(tasks, m), epic_sections(tasks, epics));
}

/// No task of a known epic is missing from the list: its id and its title stand
/// in it.
pub proof fn epic_task_is_listed(tasks: Seq<Task>, epics: Seq<Epic>, i: int, j: int)
    requires
        0 <= i < tasks.len(),
        0 <= j < epics.len(),
        tasks[i].epic_id is Some,
        tasks[i].epic_id->Some_0@ == epics[j].id@,
    ensures
        occurs(tasks[i].id@ + ": "@ + tasks[i].title@, task_list(tasks, epics)),
{
    let t = tasks[i];
    let e = epics[j];
    let line = epic_lines(seq![t], e.id@);
    let before = "  - ["@ + marker(t) + "] "@;
    let none = Seq::<char>::empty();
    let bug = if t.kind == TaskKind::Bug {
        " [bug]"@
    } else {
        ""@
    };
    lemma_lines_hold(tasks, i);
    epic_line_of_one(t, e.id@);
    lemma_line_names(before, t.id@, t.title@, bug, " ["@, t.priority.label(), line);
    lemma_section_of(tasks, epics, j);
    let grouped = epic_sections(tasks, epics);
    part_of_a_part_occurs(line, epic_lines(tasks, e.id@), grouped);
    let alone = standalone_lines(tasks);
    let named = t.id@ + ": "@ + t.title@;
    assert(grouped.len() > 0);
    if alone.len() == 0 {
        lemma_named_in(named, line, grouped, none, none);
        assert(none + grouped + none =~= grouped);
    } else {
        let rest = "\n"@ + "## Standalone Tasks\n"@ + alone;
        lemma_named_in(named, line, grouped, none, rest);
        assert(none + grouped + rest =~= grouped + "\n"@ + "## Standalone Tasks\n"@ + alone);
    }
}

/// What is known of a task is told, each under its name.
pub proof fn details_are_told(t: Task, epic: Option<Epic>)
    ensures
        ({
            let told = task_details(t, epic);
            let kind = match t.kind {
                TaskKind::Task => "task"@,
                TaskKind::Bug => "bug"@,
            };
            let status = match t.status {
                TaskStatus::Open => "open"@,
                TaskStatus::InProgress => "in_progress"@,
                TaskStatus::Done => "done"@,
            };
            let urgent = match t.priority {
                Priority::High => "high"@,
                Priority::Medium => "medium"@,
                Priority::Low => "low"@,
            };
            &&& occurs("ID: "@ + t.id@ + "\nType: "@ + kind, told)
            &&& occurs("\nTitle: "@ + t.title@, told)
            &&& occurs("\nStatus: "@ + status, told)
            &&& occurs("\nPriority: "@ + urgent, told)
            &&& epic is Some ==> occurs(
                "\nEpic: "@ + epic->Some_0.title@ + " ("@ + epic->Some_0.id@ + ")"@,
                told,
            )
            &&& epic is None ==> occurs("\nEpic: "@ + "(none)"@, told)
            &&& t.description is Some ==> occurs("\nDescription: "@ + t.description->Some_0@, told)
            &&& t.description is None ==> occurs("\nDescription: "@ + "(none)"@, told)
            &&& occurs("\nCreated: "@ + t.created_at@, told)
        }),
{
    let p0 = "ID: "@ + t.id@ + "\nType: "@ + t.kind.label();
    let p1 = "\nTitle: "@ + t.title@;
    let p2 = "\nStatus: "@ + t.status.label();
    let p3 = "\nPriority: "@ + t.priority.label();
    let of = match epic {
        Some(e) => e.title@ + " ("@ + e.id@ + ")"@,
        None => "(none)"@,
    };
    let p4 = "\nEpic: "@ + of;
    let about = match t.description {
        Some(d) => d@,
        None => "(none)"@,
    };
    let p5 = "\nDescription: "@ + about;
    let p6 = "\nCreated: "@ + t.created_at@;
    lemma_seven(p0, p1, p2, p3, p4, p5, p6);
    lemma_assoc(p0, "\nTitle: "@, t.title@);
    lemma_assoc(p0 + p1, "\nStatus: "@, t.status.label());
    lemma_assoc(p0 + p1 + p2, "\nPriority: "@, t.priority.label());
    lemma_assoc(p0 + p1 + p2 + p3, "\nEpic: "@, of);
    lemma_assoc(p0 + p1 + p2 + p3 + p4, "\nDescription: "@, about);
    lemma_assoc(p0 + p1 + p2 + p3 + p4 + p5, "\nCreated: "@, t.created_at@);
    if epic is Some {
        let e = epic->Some_0;
        lemma_assoc("\nEpic: "@, e.title@ + " ("@ + e.id@, ")"@);
        lemma_assoc("\nEpic: "@, e.title@ + " ("@, e.id@);
        lemma_assoc("\nEpic: "@, e.title@, " ("@);
    }
}

proof fn lemma_seven(
    a: Seq<char>,
    b: Seq<char>,
    c: Seq<char>,
    d: Seq<char>,
    e: Seq<char>,
    f: Seq<char>,
    g: Seq<char>,
)
    ensures
        ({
            let all = a + b + c + d + e + f + g;
            occurs(a, all) && occurs(b, all) && occurs(c, all) && occurs(d, all) && occurs(e, all)
                && occurs(f, all) && occurs(g, all)
        }),
{
    let all = a + b + c + d + e + f + g;
    let none = Seq::<char>::empty();
    assert(all =~= none + a + (b + c + d + e + f + g));
    middle_occurs(none, a, b + c + d + e + f + g);
    assert(all =~= a + b + (c + d + e + f + g));
    middle_occurs(a, b, c + d + e + f + g);
    assert(all =~= (a + b) + c + (d + e + f + g));
    middle_occurs(a + b, c, d + e + f + g);
    assert(all =~= (a + b + c) + d + (e + f + g));
    middle_occurs(a + b + c, d, e + f + g);
    assert(all =~= (a + b + c + d) + e + (f + g));
    middle_occurs(a + b + c + d, e, f + g);
    assert(all =~= (a + b + c + d + e) + f + g);
    middle_occurs(a + b + c + d + e, f, g);
    assert(all =~= (a + b + c + d + e + f) + g + none);
    middle_occurs(a + b + c + d + e + f, g, none);
}

/// Every epic stands in the list of epics, with its id, its title and its status.
pub proof fn epics_are_all_listed(epics: Seq<Epic>, i: int)
    requires
        0 <= i < epics.len(),
    ensures
        ({
            let status = match epics[i].status {
                TaskStatus::Open => "open"@,
                TaskStatus::InProgress => "in_progress"@,
                TaskStatus::Done => "done"@,
            };
            occurs(
                "  "@ + epics[i].id@ + " \u{2014} "@ + epics[i].title@ + " ["@ + status + "]"@,
                epic_list(epics),
            )
        }),
{
    let e = epics[i];
    let parts = Seq::new(epics.len(), |k: int| epic_line(epics[k]));
    joined_parts_occur(parts, "\n"@, i);
    let told = "  "@ + e.id@ + " \u{2014} "@ + e.title@ + " ["@ + e.status.label() + "]"@;
    let more = match e.external_ref {
        Some(r) if r@.len() > 0 => " ("@ + r@ + ")"@,
        _ => ""@,
    };
    assert(Seq::<char>::empty() + told + more =~= epic_line(e));
    middle_occurs(Seq::empty(), told, more);
    let body = join(parts, "\n"@);
    part_of_a_part_occurs(told, parts[i], body);
    middle_occurs("## Epics\n"@, body, Seq::empty());
    assert("## Epics\n"@ + body + Seq::empty() =~= epic_list(epics));
    part_of_a_part_occurs(told, body, epic_list(epics));
}

/// What an epic is tracked under elsewhere is told behind it.
pub proof fn tracked_epic_tells_where(e: Epic)
    ensures
        e.external_ref matches Some(r) && r@.len() > 0 ==> occurs(
            " ("@ + e.external_ref->Some_0@ + ")"@,
            epic_line(e),
        ),
{
    if e.external_ref is Some && e.external_ref->Some_0@.len() > 0 {
        let told = "  "@ + e.id@ + " \u{2014} "@ + e.title@ + " ["@ + e.status.label() + "]"@;
        let more = " ("@ + e.external_ref->Some_0@ + ")"@;
        middle_occurs(told, more, Seq::empty());
        assert(told + more + Seq::empty() =~= epic_line(e));
    }
}

proof fn lemma_key(key: Seq<char>, val: Seq<char>)
    requires
        forall|i: int| 0 <= i < key.len() ==> #[trigger] key[i] != '=',
    ensures
        ({
            let word = key + seq!['='] + val;
            let k = find_char(word, '=');
            k < word.len() && word.take(k) == key && word.skip(k + 1) == val
        }),
{
    let word = key + seq!['='] + val;
    lemma_find_char(word, '=');
    let k = find_char(word, '=');
    assert(word[key.len() as int] == '=');
    if k < key.len() {
        assert(word[k] == key[k]);
    }
    assert(word.take(k) =~= key);
    assert(word.skip(k + 1) =~= val);
}

/// A word "title=..." asks for that title, whatever it is.
pub proof fn title_is_asked_for(val: Seq<char>)
    ensures
        field_edit("title="@ + val) == FieldEdit::Title(val),
{
    reveal_strlit("title=");
    reveal_strlit("title");
    lemma_key("title"@, val);
    assert("title"@ + seq!['='] + val =~= "title="@ + val);
}

/// How urgent a task is can be asked for by the name that it is told by.
pub proof fn priority_is_asked_for(p: Priority)
    ensures
        field_edit("priority="@ + p.label()) == FieldEdit::Priority(p),
{
    reveal_strlit("priority=");
    reveal_strlit("priority");
    reveal_strlit("title");
    reveal_strlit("high");
    reveal_strlit("medium");
    reveal_strlit("low");
    lemma_key("priority"@, p.label());
    assert("priority"@ + seq!['='] + p.label() =~= "priority="@ + p.label());
    assert("priority"@.len() != "title"@.len());
    assert("high"@.len() == 4 && "medium"@.len() == 6 && "low"@.len() == 3);
}

/// How far a task is can be asked for by the name that it is told by.
pub proof fn status_is_asked_for(s: TaskStatus)
    ensures
        field_edit("status="@ + s.label()) == FieldEdit::Status(s),
        field_edit("status="@ + "inprogress"@) == FieldEdit::Status(TaskStatus::InProgress),
{
    reveal_strlit("status=");
    reveal_strlit("status");
    reveal_strlit("priority");
    reveal_strlit("title");
    reveal_strlit("open");
    reveal_strlit("done");
    reveal_strlit("in_progress");
    reveal_strlit("inprogress");
    lemma_key("status"@, s.label());
    assert("status"@ + seq!['='] + s.label() =~= "status="@ + s.label());
    lemma_key("status"@, "inprogress"@);
    assert("status"@ + seq!['='] + "inprogress"@ =~= "status="@ + "inprogress"@);
    assert("status"@.len() == 6 && "title"@.len() == 5 && "priority"@.len() == 8);
    assert("open"@[0] == 'o' && "done"@[0] == 'd');
    assert("in_progress"@.len() == 11 && "inprogress"@.len() == 10);
}

/// A word without an equals sign asks for nothing, and one for another field is
/// refused.
pub proof fn other_words_change_nothing(word: Seq<char>, key: Seq<char>, val: Seq<char>)
    requires
        forall|i: int| 0 <= i < word.len() ==> #[trigger] word[i] != '=',
        forall|i: int| 0 <= i < key.len() ==> #[trigger] key[i] != '=',
    ensures
        field_edit(word) == FieldEdit::Nothing,
        key != "title"@ && key != "priority"@ && key != "status"@ ==> field_edit(
            key + seq!['='] + val,
        ) is Problem,
{
    lemma_find_char(word, '=');
    lemma_key(key, val);
}

/// Each word of an edit is done on what the words before it left: it changes
/// the field that it names and no other, and is counted as changed or as a
/// problem.
pub proof fn words_are_done_in_turn(t: Task, ws: Seq<Seq<char>>, w: Seq<char>)
    ensures
        ({
            let e = edit_words(t, ws);
            let r = edit_words(t, ws.push(w));
            match field_edit(w) {
                FieldEdit::Title(v) => r.title == v && r.priority == e.priority && r.status
                    == e.status && r.changed == e.changed.push("title"@) && r.problems
                    == e.problems,
                FieldEdit::Priority(p) => r.priority == p && r.title == e.title && r.status
                    == e.status && r.changed == e.changed.push("priority"@) && r.problems
                    == e.problems,
                FieldEdit::Status(s) => r.status == s && r.title == e.title && r.priority
                    == e.priority && r.changed == e.changed.push("status"@) && r.problems
                    == e.problems,
                FieldEdit::Problem(p) => r.title == e.title && r.priority == e.priority && r.status
                    == e.status && r.changed == e.changed && r.problems == e.problems.push(p),
                FieldEdit::Nothing => r == e,
            }
        }),
        ({
            let none = edit_words(t, Seq::empty());
            &&& none.title == t.title@
            &&& none.priority == t.priority
            &&& none.status == t.status
            &&& none.changed.len() == 0
            &&& none.problems.len() == 0
        }),
{
    assert(ws.push(w).drop_last() =~= ws);
}

/// A task that cannot be found is told of; one that is found is edited by each
/// word in turn, and the user is told of every word that cannot be done.
pub proof fn every_problem_is_told(
    pre: App,
    loaded: Result<Task, String>,
    fields: Option<String>,
    r: Option<TaskEdit>,
    post: App,
    old_fx: Seq<Effect>,
    new_fx: Seq<Effect>,
)
    requires
        load_handled(pre, loaded, fields, r, post, old_fx, new_fx),
    ensures
        loaded matches Err(e) ==> {
            &&& r is None
            &&& post.messages@.len() == pre.messages@.len() + 1
            &&& post.messages@.drop_last() == pre.messages@
            &&& post.messages@.last() is Error
            &&& post.messages@.last()->Error_text@ == "Task not found: "@ + e@
        },
        loaded matches Ok(task) ==> {
            let ws = match fields {
                Some(f) => words(f@),
                None => Seq::empty(),
            };
            let done = edit_words(task, ws);
            let n = pre.messages@.len();
            &&& r is Some <==> done.changed.len() > 0
            &&& post.messages@.len() == n + done.problems.len() + (if r is Some {
                0nat
            } else {
                1nat
            })
            &&& forall|i: int|
                0 <= i < done.problems.len() ==> (#[trigger] post.messages@[n + i]) is Error
                    && post.messages@[n + i]->Error_text@ == done.problems[i]
            &&& r is Some ==> {
                &&& r->Some_0.task.title@ == done.title
                &&& r->Some_0.task.priority == done.priority
                &&& r->Some_0.task.status == done.status
                &&& r->Some_0.task.id == task.id
                &&& r->Some_0.task.description == task.description
                &&& r->Some_0.task.epic_id == task.epic_id
                &&& r->Some_0.task.kind == task.kind
            }
        },
{
    if loaded is Ok {
        let task = loaded->Ok_0;
        let ws = asked_words(fields);
        let done = edit_words(task, ws);
        let n = pre.messages@.len();
        let noted = choose|noted: App|
            {
                &&& #[trigger] problems_noted(pre, task, ws, noted)
                &&& if done.changed.len() == 0 {
                    &&& r is None
                    &&& told_and_updated(noted, post, true, NOTHING_TO_UPDATE@, old_fx, new_fx)
                } else {
                    &&& r matches Some(edit)
                    &&& edited(task, ws, edit)
                    &&& post == noted
                    &&& new_fx == old_fx
                }
            };
        assert forall|i: int| 0 <= i < done.problems.len() implies (
        #[trigger] post.messages@[n + i]) is Error && post.messages@[n + i]->Error_text@
            == done.problems[i] by {
            assert(noted.messages@[n + i].is_error_text(done.problems[i]));
            if done.changed.len() == 0 {
                assert(post.messages@.drop_last() == noted.messages@);
                assert(post.messages@.drop_last()[n + i] == post.messages@[n + i]);
            }
        }
    }
}

/// What cannot be asked for is told back with what can.
pub proof fn bad_values_are_told(val: Seq<char>, key: Seq<char>)
    requires
        forall|i: int| 0 <= i < key.len() ==> #[trigger] key[i] != '=',
    ensures
        val != "high"@ && val != "medium"@ && val != "low"@ ==> field_edit("priority="@ + val)
            == FieldEdit::Problem("Invalid priority '"@ + val + "'. Use high, medium, or low."@),
        val != "open"@ && val != "in_progress"@ && val != "inprogress"@ && val != "done"@
            ==> field_edit("status="@ + val) == FieldEdit::Problem(
            "Invalid status '"@ + val + "'. Use open, in_progress, or done."@,
        ),
        key != "title"@ && key != "priority"@ && key != "status"@ ==> field_edit(
            key + seq!['='] + val,
        ) == FieldEdit::Problem(
            "Unknown field '"@ + key + "'. Use title, priority, or status."@,
        ),
{
    reveal_strlit("status=");
    reveal_strlit("status");
    reveal_strlit("priority=");
    reveal_strlit("priority");
    reveal_strlit("title");
    lemma_key("status"@, val);
    assert("status"@ + seq!['='] + val =~= "status="@ + val);
    lemma_key("priority"@, val);
    assert("priority"@ + seq!['='] + val =~= "priority="@ + val);
    lemma_key(key, val);
    assert("status"@.len() == 6 && "title"@.len() == 5 && "priority"@.len() == 8);
}

} // verus!
