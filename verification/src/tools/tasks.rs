//! The task-list tools: TaskCreate, TaskGet, TaskList and TaskUpdate on the
//! session's task store, and TaskOutput on the background tasks. Each works
//! on the store it is handed; taking the lock is left to the caller.

use vstd::prelude::*;
use crate::background_tasks::{bg_status_text, BackgroundTask, BackgroundTaskStatus};
use crate::task_store::{
    any_pos, cleaned_rel, detail_text, live_pos, marked, status_from_text, status_text, Task,
    TaskStatus, TaskStore,
};
use crate::text::{decimal, join, owned, push_str, str_eq, views};
use crate::tool_input::{member_views, opt_views, ToolInput};
use crate::tool_output::{empty_view, error_view, out_view, BodyV, OutV, ToolBody, ToolOutput};
use crate::toon::ToonValue;

verus! {

pub struct TaskCreateTool;

pub struct TaskGetTool;

pub struct TaskListTool;

pub struct TaskUpdateTool;

pub struct TaskOutputTool;

/// The text of an optional string.
pub open spec fn opt_text(o: Option<String>) -> Option<Seq<char>> {
    match o {
        Some(s) => Some(s@),
        None => None,
    }
}

/// Metadata entries as values.
pub open spec fn pair_views(m: Seq<(String, String)>) -> Seq<(Seq<char>, Seq<char>)> {
    m.map_values(|e: (String, String)| (e.0@, e.1@))
}

/// A successful output with a summary, a text and next steps.
pub open spec fn text_view(summary: Seq<char>, text: Seq<char>, steps: Seq<Seq<char>>) -> OutV {
    OutV { is_error: false, summary: Some(summary), body: BodyV::Text(text), truncation: None, steps }
}

/// `Task #<id> not found`.
pub open spec fn not_found_text(id: Seq<char>) -> Seq<char> {
    "Task #"@ + id + " not found"@
}

fn not_found(id: &str) -> (o: ToolOutput)
    ensures
        out_view(o) == error_view(not_found_text(id@)),
{
    let mut m = owned("Task #");
    push_str(&mut m, id);
    push_str(&mut m, " not found");
    let o = ToolOutput::error(m.as_str());
    assert(views(o.next_steps@) =~= Seq::<Seq<char>>::empty());
    o
}

// ─── TaskCreate ─────────────────────────────────────────────────────────────

impl TaskCreateTool {
    /// Creates a pending task from `subject`, `description` and `activeForm`;
    /// a missing subject or description fails the call.
    pub fn run(store: &mut TaskStore, input: &ToolInput) -> (r: Result<ToolOutput, String>)
        requires
            old(store).next_number() < u64::MAX,
        ensures
            match input.str_arg("subject"@) {
                None => r matches Err(m) && m@ == "Missing 'subject' parameter"@ && *final(store)
                    == *old(store),
                Some(subject) => match input.str_arg("description"@) {
                    None => r matches Err(m) && m@ == "Missing 'description' parameter"@
                        && *final(store) == *old(store),
                    Some(description) => r matches Ok(o) && {
                        let id = decimal(old(store).next_number());
                        let t = final(store).tasks().last();
                        &&& final(store).tasks() == old(store).tasks().push(t)
                        &&& final(store).next_number() == old(store).next_number() + 1
                        &&& t.id@ == id
                        &&& t.subject@ == subject
                        &&& t.description@ == description
                        &&& t.status == TaskStatus::Pending
                        &&& opt_text(t.active_form) == input.str_arg("activeForm"@)
                        &&& t.owner is None
                        &&& t.blocks@.len() == 0
                        &&& t.blocked_by@.len() == 0
                        &&& t.metadata@.len() == 0
                        &&& out_view(o) == text_view(
                            "Task #"@ + id + " created"@,
                            "Created task #"@ + id + ": "@ + subject,
                            seq!["Use TaskUpdate to set status=in_progress when you start working on it"@],
                        )
                    },
                },
            },
            old(store).wf() ==> final(store).wf(),
    {
        let subject = match input.get_str("subject") {
            Some(s) => s,
            None => {
                return Err(owned("Missing 'subject' parameter"));
            },
        };
        let description = match input.get_str("description") {
            Some(s) => s,
            None => {
                return Err(owned("Missing 'description' parameter"));
            },
        };
        let active_form = match input.get_str("activeForm") {
            Some(a) => Some(owned(a)),
            None => None,
        };
        let t = store.create(owned(subject), owned(description), active_form);
        let mut summary = owned("Task #");
        push_str(&mut summary, t.id.as_str());
        push_str(&mut summary, " created");
        let mut text = owned("Created task #");
        push_str(&mut text, t.id.as_str());
        push_str(&mut text, ": ");
        push_str(&mut text, subject);
        let o = ToolOutput::success().with_summary(summary.as_str()).with_text(text.as_str())
            .with_next_step("Use TaskUpdate to set status=in_progress when you start working on it");
        proof {
            assert(views(o.next_steps@) =~= seq![
                "Use TaskUpdate to set status=in_progress when you start working on it"@,
            ]);
        }
        Ok(o)
    }
}

// ─── TaskGet ────────────────────────────────────────────────────────────────

impl TaskGetTool {
    /// The full record of the live task `taskId`.
    pub fn run(store: &TaskStore, input: &ToolInput) -> (r: Result<ToolOutput, String>)
        ensures
            match input.str_arg("taskId"@) {
                None => r matches Err(m) && m@ == "Missing 'taskId' parameter"@,
                Some(id) => r matches Ok(o) && {
                    let k = live_pos(store.tasks(), id);
                    if k < store.tasks().len() {
                        let t = store.tasks()[k];
                        out_view(o) == text_view(
                            "Task #"@ + t.id@ + " ["@ + status_text(t.status) + "]: "@ + t.subject@,
                            detail_text(t),
                            seq!["Use TaskUpdate to change status or details"@],
                        )
                    } else {
                        out_view(o) == error_view(not_found_text(id))
                    }
                },
            },
    {
        let id = match input.get_str("taskId") {
            Some(s) => s,
            None => {
                return Err(owned("Missing 'taskId' parameter"));
            },
        };
        match store.get(id) {
            Some(t) => {
                let mut summary = owned("Task #");
                push_str(&mut summary, t.id.as_str());
                push_str(&mut summary, " [");
                push_str(&mut summary, t.status.as_str());
                push_str(&mut summary, "]: ");
                push_str(&mut summary, t.subject.as_str());
                let detail = t.format_detail();
                let o = ToolOutput::success().with_summary(summary.as_str()).with_text(
                    detail.as_str(),
                ).with_next_step("Use TaskUpdate to change status or details");
                proof {
                    assert(views(o.next_steps@) =~= seq!["Use TaskUpdate to change status or details"@]);
                }
                Ok(o)
            },
            None => Ok(not_found(id)),
        }
    }
}

// ─── TaskList ───────────────────────────────────────────────────────────────

/// The live tasks of a list.
pub open spec fn live_tasks(tasks: Seq<Task>) -> Seq<Task> {
    tasks.filter(|t: Task| t.status != TaskStatus::Deleted)
}

/// How many of `ts` have status `st`.
pub open spec fn count_status(ts: Seq<Task>, st: TaskStatus) -> nat
    decreases ts.len(),
{
    if ts.len() == 0 {
        0
    } else {
        count_status(ts.drop_last(), st) + if ts.last().status == st {
            1nat
        } else {
            0nat
        }
    }
}

/// A task's row: id, status, subject, owner, blockers.
pub open spec fn task_row(t: Task) -> Seq<Seq<char>> {
    seq![
        t.id@,
        status_text(t.status),
        t.subject@,
        match t.owner {
            Some(o) => o@,
            None => seq![],
        },
        join(views(t.blocked_by@), ","@),
    ]
}

/// The columns of the task table.
pub open spec fn task_columns() -> Seq<Seq<char>> {
    seq!["id"@, "status"@, "subject"@, "owner"@, "blocked_by"@]
}

/// The list's summary line.
pub open spec fn list_summary(ts: Seq<Task>) -> Seq<char> {
    decimal(count_status(ts, TaskStatus::Pending)) + " pending, "@ + decimal(
        count_status(ts, TaskStatus::InProgress),
    ) + " in_progress, "@ + decimal(count_status(ts, TaskStatus::Completed)) + " completed ("@
        + decimal(ts.len()) + " total)"@
}

/// The output of TaskList over the tasks `all`.
pub open spec fn list_view(all: Seq<Task>) -> OutV {
    let ts = live_tasks(all);
    if ts.len() == 0 {
        OutV {
            is_error: false,
            summary: Some("0 tasks"@),
            body: BodyV::Empty("No tasks found."@),
            truncation: None,
            steps: seq!["Use TaskCreate to add a task"@],
        }
    } else {
        OutV {
            is_error: false,
            summary: Some(list_summary(ts)),
            body: BodyV::Table {
                key: "tasks"@,
                columns: task_columns(),
                rows: ts.map_values(|t: Task| task_row(t)),
            },
            truncation: None,
            steps: seq!["Use TaskGet for full details on a specific task"@],
        }
    }
}

pub proof fn lemma_count_bound(ts: Seq<Task>, st: TaskStatus)
    ensures
        count_status(ts, st) <= ts.len(),
    decreases ts.len(),
{
    if ts.len() > 0 {
        lemma_count_bound(ts.drop_last(), st);
    }
}

impl TaskListTool {
    /// A table of the live tasks, with a count of each status.
    pub fn run(store: &TaskStore) -> (o: ToolOutput)
        ensures
            out_view(o) == list_view(store.tasks()),
    {
        let tasks = store.list();
        let ghost ts = live_tasks(store.tasks());
        assert(tasks@.map_values(|t: &Task| *t) == ts);
        if tasks.len() == 0 {
            let o = ToolOutput::empty("No tasks found.").with_summary("0 tasks").with_next_step(
                "Use TaskCreate to add a task",
            );
            proof {
                assert(views(o.next_steps@) =~= seq!["Use TaskCreate to add a task"@]);
            }
            return o;
        }
        let mut pending: usize = 0;
        let mut in_progress: usize = 0;
        let mut completed: usize = 0;
        let mut rows: Vec<Vec<String>> = Vec::new();
        let mut i: usize = 0;
        while i < tasks.len()
            invariant
                i <= tasks@.len(),
                ts == tasks@.map_values(|t: &Task| *t),
                pending == count_status(ts.take(i as int), TaskStatus::Pending),
                in_progress == count_status(ts.take(i as int), TaskStatus::InProgress),
                completed == count_status(ts.take(i as int), TaskStatus::Completed),
                rows@.len() == i,
                forall|j: int| 0 <= j < i ==> views(#[trigger] rows@[j]@) == task_row(ts[j]),
            decreases tasks@.len() - i,
        {
            let t = tasks[i];
            proof {
                assert(ts.take(i + 1).drop_last() =~= ts.take(i as int));
                assert(ts.take(i + 1).last() == *t);
                lemma_count_bound(ts.take(i as int), TaskStatus::Pending);
                lemma_count_bound(ts.take(i as int), TaskStatus::InProgress);
                lemma_count_bound(ts.take(i as int), TaskStatus::Completed);
            }
            match t.status {
                TaskStatus::Pending => {
                    pending += 1;
                },
                TaskStatus::InProgress => {
                    in_progress += 1;
                },
                TaskStatus::Completed => {
                    completed += 1;
                },
                TaskStatus::Deleted => {},
            }
            let mut blocked = String::new();
            crate::text::push_joined(&mut blocked, &t.blocked_by, ",");
            let owner = match &t.owner {
                Some(o) => o.clone(),
                None => String::new(),
            };
            let row = vec![
                t.id.clone(),
                owned(t.status.as_str()),
                t.subject.clone(),
                owner,
                blocked,
            ];
            proof {
                assert(views(row@) =~= task_row(*t));
            }
            rows.push(row);
            i += 1;
        }
        assert(ts.take(tasks@.len() as int) =~= ts);
        let n = tasks.len();
        let mut summary = crate::text::decimal_string(pending as u64);
        push_str(&mut summary, " pending, ");
        let a = crate::text::decimal_string(in_progress as u64);
        push_str(&mut summary, a.as_str());
        push_str(&mut summary, " in_progress, ");
        let b = crate::text::decimal_string(completed as u64);
        push_str(&mut summary, b.as_str());
        push_str(&mut summary, " completed (");
        let c = crate::text::decimal_string(n as u64);
        push_str(&mut summary, c.as_str());
        push_str(&mut summary, " total)");
        let columns = vec![
            owned("id"),
            owned("status"),
            owned("subject"),
            owned("owner"),
            owned("blocked_by"),
        ];
        proof {
            assert(views(columns@) =~= task_columns());
            assert(crate::tool_output::row_views(rows@) =~= ts.map_values(|t: Task| task_row(t)));
        }
        let table = ToonValue::Table { columns, rows };
        let body = ToolBody::Toon(ToonValue::Dict(vec![(owned("tasks"), table)]));
        let o = ToolOutput::success().with_summary(summary.as_str()).with_body(body).with_next_step(
            "Use TaskGet for full details on a specific task",
        );
        proof {
            assert(views(o.next_steps@) =~= seq!["Use TaskGet for full details on a specific task"@]);
        }
        o
    }
}

// ─── TaskUpdate ─────────────────────────────────────────────────────────────

/// `list` followed by each string of `items` that it does not yet hold.
pub open spec fn add_new(list: Seq<Seq<char>>, items: Seq<Option<Seq<char>>>) -> Seq<Seq<char>>
    decreases items.len(),
{
    if items.len() == 0 {
        list
    } else {
        let prev = add_new(list, items.drop_last());
        match items.last() {
            Some(x) => if prev.contains(x) {
                prev
            } else {
                prev.push(x)
            },
            None => prev,
        }
    }
}

/// Position of the first entry with key `k`, or `m.len()`.
pub open spec fn meta_pos(m: Seq<(Seq<char>, Seq<char>)>, k: Seq<char>) -> int
    decreases m.len(),
{
    if m.len() == 0 {
        0
    } else if m[0].0 == k {
        0
    } else {
        1 + meta_pos(m.drop_first(), k)
    }
}

/// The metadata with `k` set to `v`.
pub open spec fn meta_insert(m: Seq<(Seq<char>, Seq<char>)>, k: Seq<char>, v: Seq<char>) -> Seq<
    (Seq<char>, Seq<char>),
> {
    let i = meta_pos(m, k);
    if i < m.len() {
        m.update(i, (k, v))
    } else {
        m.push((k, v))
    }
}

/// The metadata without `k`.
pub open spec fn meta_remove(m: Seq<(Seq<char>, Seq<char>)>, k: Seq<char>) -> Seq<(Seq<char>, Seq<char>)> {
    m.filter(|e: (Seq<char>, Seq<char>)| e.0 != k)
}

/// The metadata once each member is merged in order: a null value removes
/// its key, any other sets it.
pub open spec fn meta_apply(
    m: Seq<(Seq<char>, Seq<char>)>,
    members: Seq<(Seq<char>, Option<Seq<char>>)>,
) -> Seq<(Seq<char>, Seq<char>)>
    decreases members.len(),
{
    if members.len() == 0 {
        m
    } else {
        let prev = meta_apply(m, members.drop_last());
        let (k, v) = members.last();
        match v {
            Some(t) => meta_insert(prev, k, t),
            None => meta_remove(prev, k),
        }
    }
}

/// The status a valid `status` argument asks for.
pub open spec fn new_status(input: ToolInput, t: Task) -> TaskStatus {
    match input.str_arg("status"@) {
        Some(s) => match status_from_text(s) {
            Some(st) => st,
            None => t.status,
        },
        None => t.status,
    }
}

/// The scalar fields of `n` are those of `t` changed as the call asks.
pub open spec fn fields_rel(t: Task, n: Task, input: ToolInput) -> bool {
    &&& n.id == t.id
    &&& n.status == new_status(input, t)
    &&& n.subject@ == match input.str_arg("subject"@) {
        Some(s) => s,
        None => t.subject@,
    }
    &&& n.description@ == match input.str_arg("description"@) {
        Some(s) => s,
        None => t.description@,
    }
    &&& opt_text(n.active_form) == match input.str_arg("activeForm"@) {
        Some(s) => Some(s),
        None => opt_text(t.active_form),
    }
    &&& opt_text(n.owner) == match input.str_arg("owner"@) {
        Some(s) => Some(s),
        None => opt_text(t.owner),
    }
}

/// The lists of `n` are those of `t` with what the call adds and merges.
pub open spec fn lists_rel(t: Task, n: Task, input: ToolInput) -> bool {
    &&& views(n.blocks@) == match input.array_arg("addBlocks"@) {
        Some(items) => add_new(views(t.blocks@), items),
        None => views(t.blocks@),
    }
    &&& views(n.blocked_by@) == match input.array_arg("addBlockedBy"@) {
        Some(items) => add_new(views(t.blocked_by@), items),
        None => views(t.blocked_by@),
    }
    &&& pair_views(n.metadata@) == match input.object_arg("metadata"@) {
        Some(ms) => meta_apply(pair_views(t.metadata@), ms),
        None => pair_views(t.metadata@),
    }
}

/// `n` is `t` with every field the call names changed as it asks.
pub open spec fn update_rel(t: Task, n: Task, input: ToolInput) -> bool {
    fields_rel(t, n, input) && lists_rel(t, n, input)
}

/// The names of the changes a call makes, in the order they are applied.
pub open spec fn change_list(input: ToolInput) -> Seq<Seq<char>> {
    let a = match input.str_arg("status"@) {
        Some(s) => seq!["status → "@ + s],
        None => seq![],
    };
    let b = if input.str_arg("subject"@) is Some { a.push("subject"@) } else { a };
    let c = if input.str_arg("description"@) is Some { b.push("description"@) } else { b };
    let d = if input.str_arg("activeForm"@) is Some { c.push("activeForm"@) } else { c };
    let e = if input.str_arg("owner"@) is Some { d.push("owner"@) } else { d };
    let f = if input.array_arg("addBlocks"@) is Some { e.push("blocks"@) } else { e };
    let g = if input.array_arg("addBlockedBy"@) is Some { f.push("blockedBy"@) } else { f };
    if input.object_arg("metadata"@) is Some { g.push("metadata"@) } else { g }
}

/// The message for a status that is not one of the four.
pub open spec fn invalid_status_text(s: Seq<char>) -> Seq<char> {
    "Invalid status '"@ + s + "'. Must be: pending, in_progress, completed, or deleted"@
}

/// The outcome of TaskUpdate on task `id`: the tasks before and after, and
/// the output.
pub open spec fn update_outcome(
    before: Seq<Task>,
    after: Seq<Task>,
    input: ToolInput,
    id: Seq<char>,
    o: OutV,
) -> bool {
    if input.str_arg("status"@) == Some("deleted"@) {
        if any_pos(before, id) < before.len() {
            &&& after.len() == before.len()
            &&& forall|k: int|
                0 <= k < before.len() ==> cleaned_rel(marked(before, id, k), #[trigger] after[k], id)
            &&& o == text_view("Task #"@ + id + " deleted"@, "Task #"@ + id + " was removed."@, seq![])
        } else {
            after == before && o == error_view(not_found_text(id))
        }
    } else {
        let k = live_pos(before, id);
        if k >= before.len() {
            after == before && o == error_view(not_found_text(id))
        } else if input.str_arg("status"@) matches Some(s) && status_from_text(s) is None {
            after == before && o == error_view(invalid_status_text(input.str_arg("status"@)->0))
        } else {
            &&& after.len() == before.len()
            &&& forall|j: int| 0 <= j < before.len() && j != k ==> after[j] == before[j]
            &&& update_rel(before[k], after[k], input)
            &&& if change_list(input).len() == 0 {
                o == empty_view("No changes applied to task #"@ + id)
            } else {
                o == text_view(
                    "Task #"@ + id + " updated"@,
                    "Updated task #"@ + id + ": "@ + join(change_list(input), ", "@),
                    seq![],
                )
            }
        }
    }
}

pub proof fn lemma_meta_pos(m: Seq<(Seq<char>, Seq<char>)>, k: Seq<char>, i: int)
    requires
        0 <= i <= m.len(),
        forall|j: int| 0 <= j < i ==> m[j].0 != k,
        i == m.len() || m[i].0 == k,
    ensures
        meta_pos(m, k) == i,
    decreases i,
{
    if i > 0 {
        lemma_meta_pos(m.drop_first(), k, i - 1);
    }
}

/// `list` with each string of `items` it does not yet hold added.
fn add_items(list: &mut Vec<String>, items: &Vec<Option<String>>)
    ensures
        views(final(list)@) == add_new(views(old(list)@), opt_views(items@)),
{
    let mut i: usize = 0;
    assert(opt_views(items@).take(0) =~= Seq::<Option<Seq<char>>>::empty());
    while i < items.len()
        invariant
            i <= items@.len(),
            views(list@) == add_new(views(old(list)@), opt_views(items@).take(i as int)),
        decreases items@.len() - i,
    {
        let ghost before = views(list@);
        proof {
            assert(opt_views(items@).take(i + 1).drop_last() =~= opt_views(items@).take(i as int));
        }
        match &items[i] {
            Some(x) => {
                let mut found = false;
                let mut j: usize = 0;
                while j < list.len()
                    invariant
                        j <= list@.len(),
                        before == views(list@),
                        found == exists|m: int| 0 <= m < j && list@[m]@ == x@,
                    decreases list@.len() - j,
                {
                    if str_eq(list[j].as_str(), x.as_str()) {
                        found = true;
                    }
                    j += 1;
                }
                proof {
                    if found {
                        let m = choose|m: int| 0 <= m < j && list@[m]@ == x@;
                        assert(before[m] == x@);
                    }
                    if before.contains(x@) {
                        let m = choose|m: int| 0 <= m < before.len() && before[m] == x@;
                        assert(list@[m]@ == x@);
                    }
                }
                if !found {
                    list.push(x.clone());
                    assert(views(list@) =~= before.push(x@));
                }
            },
            None => {},
        }
        i += 1;
    }
    assert(opt_views(items@).take(items@.len() as int) =~= opt_views(items@));
}

/// `m` with key `k` set to `v`.
fn meta_set(m: &mut Vec<(String, String)>, k: &String, v: &String)
    ensures
        pair_views(final(m)@) == meta_insert(pair_views(old(m)@), k@, v@),
{
    let ghost pv = pair_views(m@);
    let mut i: usize = 0;
    while i < m.len() && !str_eq(m[i].0.as_str(), k.as_str())
        invariant
            i <= m@.len(),
            pv == pair_views(m@),
            *m == *old(m),
            forall|j: int| 0 <= j < i ==> pv[j].0 != k@,
        decreases m@.len() - i,
    {
        i += 1;
    }
    proof {
        if i < m@.len() {
            assert(pv[i as int].0 == k@);
        }
        lemma_meta_pos(pv, k@, i as int);
    }
    if i < m.len() {
        m.set(i, (k.clone(), v.clone()));
        assert(pair_views(m@) =~= pv.update(i as int, (k@, v@)));
    } else {
        m.push((k.clone(), v.clone()));
        assert(pair_views(m@) =~= pv.push((k@, v@)));
    }
}

/// `m` without key `k`.
fn meta_drop(m: &mut Vec<(String, String)>, k: &String)
    ensures
        pair_views(final(m)@) == meta_remove(pair_views(old(m)@), k@),
{
    let ghost pv = pair_views(m@);
    let mut r: Vec<(String, String)> = Vec::new();
    let mut i: usize = 0;
    assert(pv.take(0).filter(|e: (Seq<char>, Seq<char>)| e.0 != k@) =~= Seq::<
        (Seq<char>, Seq<char>),
    >::empty());
    while i < m.len()
        invariant
            i <= m@.len(),
            pv == pair_views(m@),
            pair_views(r@) == pv.take(i as int).filter(|e: (Seq<char>, Seq<char>)| e.0 != k@),
        decreases m@.len() - i,
    {
        proof {
            assert(pv.take(i + 1).drop_last() =~= pv.take(i as int));
            reveal_with_fuel(vstd::seq::Seq::filter, 1);
        }
        let ghost before = pair_views(r@);
        if !str_eq(m[i].0.as_str(), k.as_str()) {
            r.push((m[i].0.clone(), m[i].1.clone()));
            assert(pair_views(r@) =~= before.push(pv[i as int]));
        }
        assert(pair_views(r@) =~= pv.take(i + 1).filter(|e: (Seq<char>, Seq<char>)| e.0 != k@));
        i += 1;
    }
    assert(pv.take(m@.len() as int) =~= pv);
    *m = r;
}

/// `m` with each member merged in order.
fn meta_merge(m: &mut Vec<(String, String)>, members: &Vec<(String, Option<String>)>)
    ensures
        pair_views(final(m)@) == meta_apply(pair_views(old(m)@), member_views(members@)),
{
    let mut i: usize = 0;
    assert(member_views(members@).take(0) =~= Seq::<(Seq<char>, Option<Seq<char>>)>::empty());
    while i < members.len()
        invariant
            i <= members@.len(),
            pair_views(m@) == meta_apply(pair_views(old(m)@), member_views(members@).take(i as int)),
        decreases members@.len() - i,
    {
        proof {
            assert(member_views(members@).take(i + 1).drop_last() =~= member_views(members@).take(
                i as int,
            ));
        }
        match &members[i].1 {
            Some(v) => meta_set(m, &members[i].0, v),
            None => meta_drop(m, &members[i].0),
        }
        i += 1;
    }
    assert(member_views(members@).take(members@.len() as int) =~= member_views(members@));
}

/// Sets the scalar fields the call names.
fn apply_fields(task: &mut Task, input: &ToolInput, status: Option<TaskStatus>)
    requires
        match input.str_arg("status"@) {
            Some(s) => status_from_text(s) == status && status is Some,
            None => status is None,
        },
    ensures
        fields_rel(*old(task), *final(task), *input),
        final(task).blocks == old(task).blocks,
        final(task).blocked_by == old(task).blocked_by,
        final(task).metadata == old(task).metadata,
{
    if let Some(st) = status {
        task.status = st;
    }
    if let Some(v) = input.get_str("subject") {
        task.subject = owned(v);
    }
    if let Some(v) = input.get_str("description") {
        task.description = owned(v);
    }
    if let Some(v) = input.get_str("activeForm") {
        task.active_form = Some(owned(v));
    }
    if let Some(v) = input.get_str("owner") {
        task.owner = Some(owned(v));
    }
}

/// Adds to the lists and merges the metadata as the call asks.
fn apply_lists(task: &mut Task, input: &ToolInput)
    ensures
        lists_rel(*old(task), *final(task), *input),
        final(task).id == old(task).id,
        final(task).status == old(task).status,
        final(task).subject == old(task).subject,
        final(task).description == old(task).description,
        final(task).active_form == old(task).active_form,
        final(task).owner == old(task).owner,
{
    if let Some(items) = input.get_array("addBlocks") {
        add_items(&mut task.blocks, items);
    }
    if let Some(items) = input.get_array("addBlockedBy") {
        add_items(&mut task.blocked_by, items);
    }
    if let Some(members) = input.get_object("metadata") {
        meta_merge(&mut task.metadata, members);
    }
}

/// The names of the changes the call makes.
fn change_names(input: &ToolInput) -> (changes: Vec<String>)
    ensures
        views(changes@) == change_list(*input),
{
    let mut changes: Vec<String> = Vec::new();
    if let Some(s) = input.get_str("status") {
        let mut c = owned("status → ");
        push_str(&mut c, s);
        changes.push(c);
    }
    if input.get_str("subject").is_some() {
        changes.push(owned("subject"));
    }
    if input.get_str("description").is_some() {
        changes.push(owned("description"));
    }
    if input.get_str("activeForm").is_some() {
        changes.push(owned("activeForm"));
    }
    if input.get_str("owner").is_some() {
        changes.push(owned("owner"));
    }
    if input.get_array("addBlocks").is_some() {
        changes.push(owned("blocks"));
    }
    if input.get_array("addBlockedBy").is_some() {
        changes.push(owned("blockedBy"));
    }
    if input.get_object("metadata").is_some() {
        changes.push(owned("metadata"));
    }
    proof {
        let l = change_list(*input);
        assert(views(changes@) =~= l);
    }
    changes
}

impl TaskUpdateTool {
    /// Changes the live task `taskId` as the call asks; the status `deleted`
    /// deletes it.
    pub fn run(store: &mut TaskStore, input: &ToolInput) -> (r: Result<ToolOutput, String>)
        ensures
            final(store).next_number() == old(store).next_number(),
            match input.str_arg("taskId"@) {
                None => r matches Err(m) && m@ == "Missing 'taskId' parameter"@
                    && final(store).tasks() == old(store).tasks(),
                Some(id) => r matches Ok(o) && update_outcome(
                    old(store).tasks(),
                    final(store).tasks(),
                    *input,
                    id,
                    out_view(o),
                ),
            },
    {
        let id = match input.get_str("taskId") {
            Some(s) => s,
            None => {
                return Err(owned("Missing 'taskId' parameter"));
            },
        };
        let status_arg = input.get_str("status");
        if let Some(s) = status_arg {
            if str_eq(s, "deleted") {
                if store.delete(id) {
                    let mut summary = owned("Task #");
                    push_str(&mut summary, id);
                    push_str(&mut summary, " deleted");
                    let mut text = owned("Task #");
                    push_str(&mut text, id);
                    push_str(&mut text, " was removed.");
                    let o = ToolOutput::success().with_summary(summary.as_str()).with_text(
                        text.as_str(),
                    );
                    assert(views(o.next_steps@) =~= Seq::<Seq<char>>::empty());
                    return Ok(o);
                } else {
                    return Ok(not_found(id));
                }
            }
        }
        if store.get(id).is_none() {
            return Ok(not_found(id));
        }
        let status = match status_arg {
            Some(s) => match TaskStatus::from_str(s) {
                Some(st) => Some(st),
                None => {
                    let mut m = owned("Invalid status '");
                    push_str(&mut m, s);
                    push_str(&mut m, "'. Must be: pending, in_progress, completed, or deleted");
                    let o = ToolOutput::error(m.as_str());
                    assert(views(o.next_steps@) =~= Seq::<Seq<char>>::empty());
                    return Ok(o);
                },
            },
            None => None,
        };
        let changes = change_names(input);
        if let Some(i) = store.live_index(id) {
            let mut task = Task {
                id: String::new(),
                subject: String::new(),
                description: String::new(),
                status: TaskStatus::Pending,
                active_form: None,
                owner: None,
                blocks: Vec::new(),
                blocked_by: Vec::new(),
                metadata: Vec::new(),
            };
            store.swap_task(i, &mut task);
            apply_fields(&mut task, input, status);
            apply_lists(&mut task, input);
            store.swap_task(i, &mut task);
        }
        if changes.len() == 0 {
            let mut m = owned("No changes applied to task #");
            push_str(&mut m, id);
            let o = ToolOutput::empty(m.as_str());
            assert(views(o.next_steps@) =~= Seq::<Seq<char>>::empty());
            Ok(o)
        } else {
            let mut summary = owned("Task #");
            push_str(&mut summary, id);
            push_str(&mut summary, " updated");
            let mut text = owned("Updated task #");
            push_str(&mut text, id);
            push_str(&mut text, ": ");
            crate::text::push_joined(&mut text, &changes, ", ");
            let o = ToolOutput::success().with_summary(summary.as_str()).with_text(text.as_str());
            assert(views(o.next_steps@) =~= Seq::<Seq<char>>::empty());
            Ok(o)
        }
    }
}

// ─── TaskOutput ─────────────────────────────────────────────────────────────

/// How long a blocking TaskOutput call waits for its task, in nanoseconds.
pub const TASK_OUTPUT_TIMEOUT_NANOS: u64 = 300_000_000_000;

/// What a TaskOutput call asks for.
pub struct TaskOutputRequest {
    pub task_id: String,
    pub block: bool,
}

/// The output for a background task; `elapsed` is its running time in
/// seconds, as text.
pub open spec fn task_output_view(t: BackgroundTask, elapsed: Seq<char>) -> OutV {
    let head = "Background task #"@ + t.id@ + " ["@ + bg_status_text(t.status) + "] — "@ + t.description@
        + " ("@ + elapsed;
    OutV {
        is_error: t.result is Some && t.status == BackgroundTaskStatus::Failed,
        summary: Some("task #"@ + t.id@ + " ["@ + bg_status_text(t.status) + "] "@ + elapsed + "s"@),
        body: BodyV::Text(
            match t.result {
                Some(r) => head + "s)\n\n"@ + r@,
                None => head + "s elapsed, still running)"@,
            },
        ),
        truncation: None,
        steps: match t.result {
            Some(_) => seq![],
            None => seq!["Wait for the completion notification, or call again with block=true"@],
        },
    }
}

/// `No background task found with id '<id>'`.
pub open spec fn no_task_text(id: Seq<char>) -> Seq<char> {
    "No background task found with id '"@ + id + "'"@
}

/// `Timed out waiting for background task #<id> to complete`.
pub open spec fn timed_out_text(id: Seq<char>) -> Seq<char> {
    "Timed out waiting for background task #"@ + id + " to complete"@
}

/// One look at the background task a TaskOutput call waits for.
pub enum TaskPoll {
    /// The call is answered.
    Done(ToolOutput),
    /// The task is still running: look again after a pause.
    Wait,
}

/// The output for a background task.
pub fn format_task_output(t: &BackgroundTask, elapsed: &str) -> (o: ToolOutput)
    ensures
        out_view(o) == task_output_view(*t, elapsed@),
{
    let mut summary = owned("task #");
    push_str(&mut summary, t.id.as_str());
    push_str(&mut summary, " [");
    push_str(&mut summary, t.status.as_str());
    push_str(&mut summary, "] ");
    push_str(&mut summary, elapsed);
    push_str(&mut summary, "s");
    let mut text = owned("Background task #");
    push_str(&mut text, t.id.as_str());
    push_str(&mut text, " [");
    push_str(&mut text, t.status.as_str());
    push_str(&mut text, "] — ");
    push_str(&mut text, t.description.as_str());
    push_str(&mut text, " (");
    push_str(&mut text, elapsed);
    match &t.result {
        Some(r) => {
            push_str(&mut text, "s)\n\n");
            push_str(&mut text, r.as_str());
            let mut o = ToolOutput::success().with_summary(summary.as_str()).with_text(text.as_str());
            if t.status == BackgroundTaskStatus::Failed {
                o.is_error = true;
            }
            assert(views(o.next_steps@) =~= Seq::<Seq<char>>::empty());
            o
        },
        None => {
            push_str(&mut text, "s elapsed, still running)");
            let o = ToolOutput::success().with_summary(summary.as_str()).with_text(text.as_str())
                .with_next_step("Wait for the completion notification, or call again with block=true");
            assert(views(o.next_steps@) =~= seq![
                "Wait for the completion notification, or call again with block=true"@,
            ]);
            o
        },
    }
}

impl TaskOutputTool {
    /// Reads the call's arguments; a missing `task_id` fails the call, and
    /// `block` defaults to true.
    pub fn request(input: &ToolInput) -> (r: Result<TaskOutputRequest, String>)
        ensures
            match input.str_arg("task_id"@) {
                None => r matches Err(m) && m@ == "Missing 'task_id' parameter"@,
                Some(id) => r matches Ok(q) && q.task_id@ == id && q.block == match input.bool_arg(
                    "block"@,
                ) {
                    Some(b) => b,
                    None => true,
                },
            },
    {
        let task_id = match input.get_str("task_id") {
            Some(s) => owned(s),
            None => {
                return Err(owned("Missing 'task_id' parameter"));
            },
        };
        let block = match input.get_bool("block") {
            Some(b) => b,
            None => true,
        };
        Ok(TaskOutputRequest { task_id, block })
    }

    /// One look at the task: `waited` is how long the call has waited so far
    /// (nanoseconds) and `elapsed` the task's running time in seconds, as
    /// text. A blocking call answers once the task has finished, and gives
    /// up after the timeout; a call that does not block answers at once.
    pub fn poll(
        req: &TaskOutputRequest,
        store: &crate::background_tasks::BackgroundTaskStore,
        waited: u64,
        elapsed: &str,
    ) -> (p: TaskPoll)
        ensures
            ({
                let k = crate::background_tasks::bg_pos(store.tasks(), req.task_id@);
                if k >= store.tasks().len() {
                    p matches TaskPoll::Done(o) && out_view(o) == error_view(no_task_text(req.task_id@))
                } else {
                    let t = store.tasks()[k];
                    if !req.block || t.status != BackgroundTaskStatus::Running {
                        p matches TaskPoll::Done(o) && out_view(o) == task_output_view(t, elapsed@)
                    } else if waited > TASK_OUTPUT_TIMEOUT_NANOS {
                        p matches TaskPoll::Done(o) && out_view(o) == error_view(
                            timed_out_text(req.task_id@),
                        )
                    } else {
                        p is Wait
                    }
                }
            }),
    {
        match store.get(req.task_id.as_str()) {
            None => {
                let mut m = owned("No background task found with id '");
                push_str(&mut m, req.task_id.as_str());
                push_str(&mut m, "'");
                let o = ToolOutput::error(m.as_str());
                assert(views(o.next_steps@) =~= Seq::<Seq<char>>::empty());
                TaskPoll::Done(o)
            },
            Some(t) => {
                if !req.block || t.status != BackgroundTaskStatus::Running {
                    TaskPoll::Done(format_task_output(t, elapsed))
                } else if waited > TASK_OUTPUT_TIMEOUT_NANOS {
                    let mut m = owned("Timed out waiting for background task #");
                    push_str(&mut m, req.task_id.as_str());
                    push_str(&mut m, " to complete");
                    let o = ToolOutput::error(m.as_str());
                    assert(views(o.next_steps@) =~= Seq::<Seq<char>>::empty());
                    TaskPoll::Done(o)
                } else {
                    TaskPoll::Wait
                }
            },
        }
    }
}

// ─── Laws ───────────────────────────────────────────────────────────────────

/// Once TaskUpdate deleted a task of a well-numbered store, no lookup finds
/// it any more.
pub proof fn law_deleted_task_is_gone(before: Seq<Task>, after: Seq<Task>, input: ToolInput, id: Seq<char>, o: OutV)
    requires
        forall|k: int| 0 <= k < before.len() ==> #[trigger] before[k].id@ == decimal((k + 1) as nat),
        input.str_arg("status"@) == Some("deleted"@),
        any_pos(before, id) < before.len(),
        update_outcome(before, after, input, id, o),
    ensures
        live_pos(after, id) == after.len(),
        !o.is_error,
{
    crate::task_store::law_delete_hides(before, after, id);
}

} // verus!
