//! The task list the model keeps while it works: numbered tasks with a
//! status, an owner, dependencies and metadata.

use vstd::prelude::*;
use crate::text::{decimal, decimal_string, join, json_quote, push_joined, push_json_quoted, push_str, str_eq, views};

verus! {

#[derive(Debug, Clone, Copy, PartialEq, Eq, Structural)]
pub enum TaskStatus {
    Pending,
    InProgress,
    Completed,
    Deleted,
}

pub open spec fn status_text(s: TaskStatus) -> Seq<char> {
    match s {
        TaskStatus::Pending => "pending"@,
        TaskStatus::InProgress => "in_progress"@,
        TaskStatus::Completed => "completed"@,
        TaskStatus::Deleted => "deleted"@,
    }
}

pub open spec fn status_from_text(s: Seq<char>) -> Option<TaskStatus> {
    if s == "pending"@ {
        Some(TaskStatus::Pending)
    } else if s == "in_progress"@ {
        Some(TaskStatus::InProgress)
    } else if s == "completed"@ {
        Some(TaskStatus::Completed)
    } else if s == "deleted"@ {
        Some(TaskStatus::Deleted)
    } else {
        None
    }
}

impl TaskStatus {
    pub fn as_str(&self) -> (s: &'static str)
        ensures
            s@ == status_text(*self),
    {
        match self {
            TaskStatus::Pending => "pending",
            TaskStatus::InProgress => "in_progress",
            TaskStatus::Completed => "completed",
            TaskStatus::Deleted => "deleted",
        }
    }

    pub fn from_str(s: &str) -> (r: Option<TaskStatus>)
        ensures
            r == status_from_text(s@),
    {
        if str_eq(s, "pending") {
            Some(TaskStatus::Pending)
        } else if str_eq(s, "in_progress") {
            Some(TaskStatus::InProgress)
        } else if str_eq(s, "completed") {
            Some(TaskStatus::Completed)
        } else if str_eq(s, "deleted") {
            Some(TaskStatus::Deleted)
        } else {
            None
        }
    }
}

/// Parsing the text of a status gives the status back.
pub proof fn law_status_roundtrip(s: TaskStatus)
    ensures
        status_from_text(status_text(s)) == Some(s),
{
    reveal_strlit("pending");
    reveal_strlit("in_progress");
    reveal_strlit("completed");
    reveal_strlit("deleted");
    assert("pending"@[0] != "deleted"@[0]);
    assert("pending"@.len() != "in_progress"@.len());
    assert("pending"@.len() != "completed"@.len());
    assert("in_progress"@.len() != "completed"@.len());
    assert("in_progress"@.len() != "deleted"@.len());
    assert("completed"@.len() != "deleted"@.len());
}

/// One task. `metadata` holds each key with the compact JSON text of its value.
#[derive(Debug)]
pub struct Task {
    pub id: String,
    pub subject: String,
    pub description: String,
    pub status: TaskStatus,
    pub active_form: Option<String>,
    pub owner: Option<String>,
    pub blocks: Vec<String>,
    pub blocked_by: Vec<String>,
    pub metadata: Vec<(String, String)>,
}


pub open spec fn owner_suffix(owner: Option<String>) -> Seq<char> {
    match owner {
        Some(o) => if o@.len() > 0 { " ["@ + o@ + "]"@ } else { Seq::empty() },
        None => Seq::empty(),
    }
}

pub open spec fn blocked_suffix(blocked_by: Seq<String>) -> Seq<char> {
    if blocked_by.len() == 0 {
        Seq::empty()
    } else {
        " (blocked by: "@ + join(views(blocked_by), ", "@) + ")"@
    }
}

/// `#<id>. [<status>] <subject>`, then ` [<owner>]` for a non-empty owner and
/// ` (blocked by: a, b)` when the task has blockers.
pub open spec fn summary_text(t: Task) -> Seq<char> {
    "#"@ + t.id@ + ". ["@ + status_text(t.status) + "] "@ + t.subject@ + owner_suffix(t.owner)
        + blocked_suffix(t.blocked_by@)
}

/// The metadata as a JSON object text.
pub open spec fn metadata_text(m: Seq<(String, String)>) -> Seq<char>
    decreases m.len(),
{
    if m.len() == 0 {
        "{"@
    } else {
        metadata_text(m.drop_last()) + (if m.len() > 1 { ","@ } else { Seq::empty() }) + json_quote(
            m.last().0@,
        ) + ":"@ + m.last().1@
    }
}

/// The detail view: id, subject, status and description, then each optional
/// part that is present.
pub open spec fn detail_text(t: Task) -> Seq<char> {
    let base = "Task #"@ + t.id@ + "\nSubject: "@ + t.subject@ + "\nStatus: "@ + status_text(
        t.status,
    ) + "\nDescription: "@ + t.description@;
    let a = match t.active_form {
        Some(af) => base + "\nActive Form: "@ + af@,
        None => base,
    };
    let b = match t.owner {
        Some(o) => a + "\nOwner: "@ + o@,
        None => a,
    };
    let c = if t.blocks@.len() > 0 { b + "\nBlocks: "@ + join(views(t.blocks@), ", "@) } else { b };
    let d = if t.blocked_by@.len() > 0 {
        c + "\nBlocked By: "@ + join(views(t.blocked_by@), ", "@)
    } else {
        c
    };
    if t.metadata@.len() > 0 {
        d + "\nMetadata: "@ + metadata_text(t.metadata@) + "}"@
    } else {
        d
    }
}

impl Task {
    pub fn format_summary(&self) -> (out: String)
        ensures
            out@ == summary_text(*self),
    {
        let mut out = "#".to_owned();
        push_str(&mut out, self.id.as_str());
        push_str(&mut out, ". [");
        push_str(&mut out, self.status.as_str());
        push_str(&mut out, "] ");
        push_str(&mut out, self.subject.as_str());
        match &self.owner {
            Some(o) => {
                if !o.as_str().is_empty() {
                    push_str(&mut out, " [");
                    push_str(&mut out, o.as_str());
                    push_str(&mut out, "]");
                }
            },
            None => {},
        }
        if self.blocked_by.len() > 0 {
            push_str(&mut out, " (blocked by: ");
            push_joined(&mut out, &self.blocked_by, ", ");
            push_str(&mut out, ")");
        }
        out
    }

    pub fn format_detail(&self) -> (out: String)
        ensures
            out@ == detail_text(*self),
    {
        let mut out = "Task #".to_owned();
        push_str(&mut out, self.id.as_str());
        push_str(&mut out, "\nSubject: ");
        push_str(&mut out, self.subject.as_str());
        push_str(&mut out, "\nStatus: ");
        push_str(&mut out, self.status.as_str());
        push_str(&mut out, "\nDescription: ");
        push_str(&mut out, self.description.as_str());
        if let Some(af) = &self.active_form {
            push_str(&mut out, "\nActive Form: ");
            push_str(&mut out, af.as_str());
        }
        if let Some(o) = &self.owner {
            push_str(&mut out, "\nOwner: ");
            push_str(&mut out, o.as_str());
        }
        if self.blocks.len() > 0 {
            push_str(&mut out, "\nBlocks: ");
            push_joined(&mut out, &self.blocks, ", ");
        }
        if self.blocked_by.len() > 0 {
            push_str(&mut out, "\nBlocked By: ");
            push_joined(&mut out, &self.blocked_by, ", ");
        }
        if self.metadata.len() > 0 {
            push_str(&mut out, "\nMetadata: ");
            let ghost start = out@;
            push_str(&mut out, "{");
            let mut i: usize = 0;
            assert(self.metadata@.take(0) =~= Seq::<(String, String)>::empty());
            while i < self.metadata.len()
                invariant
                    i <= self.metadata.len(),
                    out@ == start + metadata_text(self.metadata@.take(i as int)),
                decreases self.metadata.len() - i,
            {
                if i > 0 {
                    push_str(&mut out, ",");
                }
                push_json_quoted(&mut out, self.metadata[i].0.as_str());
                push_str(&mut out, ":");
                push_str(&mut out, self.metadata[i].1.as_str());
                assert(self.metadata@.take(i + 1).drop_last() =~= self.metadata@.take(i as int));
                i += 1;
            }
            assert(self.metadata@.take(self.metadata.len() as int) =~= self.metadata@);
            push_str(&mut out, "}");
        }
        out
    }
}

/// Store of tasks, numbered from 1 in creation order. Deleted tasks stay in
/// the list with status `Deleted` and are invisible to lookups.
pub struct TaskStore {
    tasks: Vec<Task>,
    next_id: u64,
}

/// Position of the first live (not deleted) task with `id`, or `tasks.len()`.
pub open spec fn live_pos(tasks: Seq<Task>, id: Seq<char>) -> int
    decreases tasks.len(),
{
    if tasks.len() == 0 {
        0
    } else if tasks[0].id@ == id && tasks[0].status != TaskStatus::Deleted {
        0
    } else {
        1 + live_pos(tasks.drop_first(), id)
    }
}

/// Position of the first task with `id`, deleted or not, or `tasks.len()`.
pub open spec fn any_pos(tasks: Seq<Task>, id: Seq<char>) -> int
    decreases tasks.len(),
{
    if tasks.len() == 0 {
        0
    } else if tasks[0].id@ == id {
        0
    } else {
        1 + any_pos(tasks.drop_first(), id)
    }
}

pub proof fn lemma_live_pos(tasks: Seq<Task>, id: Seq<char>, k: int)
    requires
        0 <= k <= tasks.len(),
        forall|i: int|
            0 <= i < k ==> !(tasks[i].id@ == id && tasks[i].status != TaskStatus::Deleted),
        k == tasks.len() || (tasks[k].id@ == id && tasks[k].status != TaskStatus::Deleted),
    ensures
        live_pos(tasks, id) == k,
    decreases k,
{
    if k > 0 {
        lemma_live_pos(tasks.drop_first(), id, k - 1);
    }
}

pub proof fn lemma_any_pos(tasks: Seq<Task>, id: Seq<char>, k: int)
    requires
        0 <= k <= tasks.len(),
        forall|i: int| 0 <= i < k ==> tasks[i].id@ != id,
        k == tasks.len() || tasks[k].id@ == id,
    ensures
        any_pos(tasks, id) == k,
    decreases k,
{
    if k > 0 {
        lemma_any_pos(tasks.drop_first(), id, k - 1);
    }
}

/// The references to `id` dropped from a list.
pub open spec fn without(v: Seq<String>, id: Seq<char>) -> Seq<String> {
    v.filter(not_ref(id))
}

/// The entry is not `id`.
pub open spec fn not_ref(id: Seq<char>) -> spec_fn(String) -> bool {
    |b: String| b@ != id
}

/// The task at `k` once the first task with `id` is marked deleted.
pub open spec fn marked(tasks: Seq<Task>, id: Seq<char>, k: int) -> Task {
    if k == any_pos(tasks, id) {
        Task { status: TaskStatus::Deleted, ..tasks[k] }
    } else {
        tasks[k]
    }
}

/// `b` is `t` with the references to `id` dropped from its lists (when `t` is
/// live), every other field unchanged.
pub open spec fn cleaned_rel(t: Task, b: Task, id: Seq<char>) -> bool {
    &&& b.id == t.id
    &&& b.subject == t.subject
    &&& b.description == t.description
    &&& b.status == t.status
    &&& b.active_form == t.active_form
    &&& b.owner == t.owner
    &&& b.metadata == t.metadata
    &&& if t.status != TaskStatus::Deleted {
        &&& b.blocks@ == without(t.blocks@, id)
        &&& b.blocked_by@ == without(t.blocked_by@, id)
    } else {
        &&& b.blocks == t.blocks
        &&& b.blocked_by == t.blocked_by
    }
}

impl TaskStore {
    /// The tasks, in creation order, deleted ones included.
    pub closed spec fn tasks(&self) -> Seq<Task> {
        self.tasks@
    }

    /// The number the next created task gets.
    pub closed spec fn next_number(&self) -> nat {
        self.next_id as nat
    }

    /// Each task is numbered by its position, from 1, and the next number
    /// follows the last.
    pub open spec fn wf(&self) -> bool {
        &&& self.next_number() == self.tasks().len() + 1
        &&& forall|k: int| 0 <= k < self.tasks().len() ==> #[trigger] self.tasks()[k].id@ == decimal(
            (k + 1) as nat,
        )
    }

    pub fn new() -> (s: Self)
        ensures
            s.wf(),
            s.tasks().len() == 0,
    {
        TaskStore { tasks: Vec::new(), next_id: 1 }
    }

    /// Creates a pending task numbered with the next number.
    pub fn create(&mut self, subject: String, description: String, active_form: Option<String>) -> (t: &Task)
        requires
            old(self).next_number() < u64::MAX,
        ensures
            final(self).tasks() == old(self).tasks().push(*t),
            final(self).next_number() == old(self).next_number() + 1,
            t.id@ == decimal(old(self).next_number()),
            t.subject == subject,
            t.description == description,
            t.status == TaskStatus::Pending,
            t.active_form == active_form,
            t.owner is None,
            t.blocks@.len() == 0,
            t.blocked_by@.len() == 0,
            t.metadata@.len() == 0,
            old(self).wf() ==> final(self).wf(),
    {
        let id = decimal_string(self.next_id);
        self.next_id = self.next_id + 1;
        let task = Task {
            id,
            subject,
            description,
            status: TaskStatus::Pending,
            active_form,
            owner: None,
            blocks: Vec::new(),
            blocked_by: Vec::new(),
            metadata: Vec::new(),
        };
        self.tasks.push(task);
        let n = self.tasks.len();
        &self.tasks[n - 1]
    }

    /// Whether another task can be numbered (`create` needs it).
    pub fn has_room(&self) -> (b: bool)
        ensures
            b == (self.next_number() < u64::MAX),
    {
        self.next_id < u64::MAX
    }

    fn find_live(&self, id: &str) -> (r: usize)
        ensures
            r == live_pos(self.tasks(), id@),
            r <= self.tasks().len(),
    {
        let mut i: usize = 0;
        while i < self.tasks.len()
            invariant
                i <= self.tasks@.len(),
                forall|j: int|
                    0 <= j < i ==> !(self.tasks@[j].id@ == id@ && self.tasks@[j].status
                        != TaskStatus::Deleted),
            decreases self.tasks@.len() - i,
        {
            if str_eq(self.tasks[i].id.as_str(), id) && self.tasks[i].status != TaskStatus::Deleted {
                proof {
                    lemma_live_pos(self.tasks@, id@, i as int);
                }
                return i;
            }
            i += 1;
        }
        proof {
            lemma_live_pos(self.tasks@, id@, i as int);
        }
        i
    }

    /// Position of the first live task with `id`.
    pub fn live_index(&self, id: &str) -> (r: Option<usize>)
        ensures
            match r {
                Some(i) => i == live_pos(self.tasks(), id@) && i < self.tasks().len(),
                None => live_pos(self.tasks(), id@) == self.tasks().len(),
            },
    {
        let i = self.find_live(id);
        if i < self.tasks.len() {
            Some(i)
        } else {
            None
        }
    }

    /// Exchanges `t` with the task at position `i`.
    pub fn swap_task(&mut self, i: usize, t: &mut Task)
        requires
            i < old(self).tasks().len(),
        ensures
            final(self).tasks() == old(self).tasks().update(i as int, *old(t)),
            *final(t) == old(self).tasks()[i as int],
            final(self).next_number() == old(self).next_number(),
    {
        std::mem::swap(&mut self.tasks[i], t);
    }

    /// The first live task with `id`.
    pub fn get(&self, id: &str) -> (r: Option<&Task>)
        ensures
            match r {
                Some(t) => live_pos(self.tasks(), id@) < self.tasks().len() && *t == self.tasks()[live_pos(self.tasks(), id@)],
                None => live_pos(self.tasks(), id@) == self.tasks().len(),
            },
    {
        let i = self.find_live(id);
        if i < self.tasks.len() {
            Some(&self.tasks[i])
        } else {
            None
        }
    }

    /// The first live task with `id`, for changing it in place.
    pub fn get_mut(&mut self, id: &str) -> (r: Option<&mut Task>)
        ensures
            match r {
                Some(t) => {
                    let k = live_pos(old(self).tasks(), id@);
                    &&& k < old(self).tasks().len()
                    &&& *t == old(self).tasks()[k]
                    &&& final(self).tasks() == old(self).tasks().update(k, *final(t))
                    &&& final(self).next_number() == old(self).next_number()
                },
                None => {
                    &&& live_pos(old(self).tasks(), id@) == old(self).tasks().len()
                    &&& *final(self) == *old(self)
                },
            },
    {
        let i = self.find_live(id);
        if i < self.tasks.len() {
            Some(&mut self.tasks[i])
        } else {
            None
        }
    }

    /// The live tasks, in creation order.
    pub fn list(&self) -> (r: Vec<&Task>)
        ensures
            r@.map_values(|t: &Task| *t) == self.tasks().filter(
                |t: Task| t.status != TaskStatus::Deleted,
            ),
    {
        let mut r: Vec<&Task> = Vec::new();
        let mut i: usize = 0;
        assert(self.tasks@.take(0).filter(|t: Task| t.status != TaskStatus::Deleted) =~= Seq::<
            Task,
        >::empty());
        while i < self.tasks.len()
            invariant
                i <= self.tasks@.len(),
                r@.map_values(|t: &Task| *t) == self.tasks@.take(i as int).filter(
                    |t: Task| t.status != TaskStatus::Deleted,
                ),
            decreases self.tasks@.len() - i,
        {
            proof {
                let s = self.tasks@.take(i + 1);
                assert(s.drop_last() =~= self.tasks@.take(i as int));
                reveal_with_fuel(vstd::seq::Seq::filter, 1);
            }
            if self.tasks[i].status != TaskStatus::Deleted {
                r.push(&self.tasks[i]);
            }
            assert(r@.map_values(|t: &Task| *t) =~= self.tasks@.take(i + 1).filter(
                |t: Task| t.status != TaskStatus::Deleted,
            ));
            i += 1;
        }
        assert(self.tasks@.take(self.tasks@.len() as int) =~= self.tasks@);
        r
    }

    /// Deletes the first task with `id` (marks it deleted) and removes every
    /// reference to `id` from the live tasks. False when no task has `id`.
    pub fn delete(&mut self, id: &str) -> (found: bool)
        ensures
            found == (any_pos(old(self).tasks(), id@) < old(self).tasks().len()),
            final(self).next_number() == old(self).next_number(),
            final(self).tasks().len() == old(self).tasks().len(),
            !found ==> final(self).tasks() == old(self).tasks(),
            found ==> forall|k: int|
                0 <= k < old(self).tasks().len() ==> cleaned_rel(
                    marked(old(self).tasks(), id@, k),
                    #[trigger] final(self).tasks()[k],
                    id@,
                ),
    {
        let mut pos: usize = 0;
        while pos < self.tasks.len() && !str_eq(self.tasks[pos].id.as_str(), id)
            invariant
                pos <= self.tasks@.len(),
                self.tasks == old(self).tasks,
                forall|j: int| 0 <= j < pos ==> self.tasks@[j].id@ != id@,
            decreases self.tasks@.len() - pos,
        {
            pos += 1;
        }
        proof {
            lemma_any_pos(self.tasks@, id@, pos as int);
        }
        if pos == self.tasks.len() {
            return false;
        }
        self.tasks[pos].status = TaskStatus::Deleted;
        let ghost marked_now = self.tasks@;
        let mut i: usize = 0;
        while i < self.tasks.len()
            invariant
                i <= self.tasks@.len(),
                self.tasks@.len() == marked_now.len(),
                self.next_id == old(self).next_id,
                forall|k: int| 0 <= k < i ==> #[trigger] cleaned_rel(marked_now[k], self.tasks@[k], id@),
                forall|k: int| i <= k < self.tasks@.len() ==> self.tasks@[k] == marked_now[k],
            decreases self.tasks@.len() - i,
        {
            if self.tasks[i].status != TaskStatus::Deleted {
                let nb = retain_not(&self.tasks[i].blocks, id);
                let nbb = retain_not(&self.tasks[i].blocked_by, id);
                self.tasks[i].blocks = nb;
                self.tasks[i].blocked_by = nbb;
            }
            i += 1;
        }
        assert forall|k: int| 0 <= k < old(self).tasks@.len() implies marked_now[k] == marked(
            old(self).tasks@,
            id@,
            k,
        ) by {}
        assert forall|k: int| 0 <= k < old(self).tasks@.len() implies cleaned_rel(
            marked(old(self).tasks@, id@, k),
            self.tasks@[k],
            id@,
        ) by {
            assert(cleaned_rel(marked_now[k], self.tasks@[k], id@));
        }
        true
    }
}

/// A task created in a well-formed store is the one a lookup of its number
/// then finds.
pub proof fn law_create_then_get(before: Seq<Task>, next: nat, t: Task)
    requires
        next == before.len() + 1,
        forall|k: int| 0 <= k < before.len() ==> #[trigger] before[k].id@ == decimal((k + 1) as nat),
        t.id@ == decimal(next),
        t.status == TaskStatus::Pending,
    ensures
        live_pos(before.push(t), decimal(next)) == before.len(),
{
    let after = before.push(t);
    assert forall|i: int| 0 <= i < before.len() implies !(after[i].id@ == decimal(next)
        && after[i].status != TaskStatus::Deleted) by {
        assert(after[i] == before[i]);
        if before[i].id@ == decimal(next) {
            crate::text::lemma_decimal_injective((i + 1) as nat, next);
        }
    }
    lemma_live_pos(after, decimal(next), before.len() as int);
}

/// In a well-formed store, once a task is deleted no live task has its
/// number, and no live task lists it as a blocker or as blocked.
pub proof fn law_delete_hides(before: Seq<Task>, after: Seq<Task>, id: Seq<char>)
    requires
        forall|k: int| 0 <= k < before.len() ==> #[trigger] before[k].id@ == decimal((k + 1) as nat),
        any_pos(before, id) < before.len(),
        after.len() == before.len(),
        forall|k: int|
            0 <= k < before.len() ==> cleaned_rel(marked(before, id, k), #[trigger] after[k], id),
    ensures
        live_pos(after, id) == after.len(),
        forall|k: int|
            0 <= k < after.len() && after[k].status != TaskStatus::Deleted ==> {
                &&& forall|j: int| 0 <= j < after[k].blocks@.len() ==> #[trigger] after[k].blocks@[j]@ != id
                &&& forall|j: int| 0 <= j < after[k].blocked_by@.len() ==> #[trigger] after[k].blocked_by@[j]@ != id
            },
{
    let p = any_pos(before, id);
    lemma_any_pos_bounds(before, id);
    assert forall|i: int| 0 <= i < after.len() implies !(after[i].id@ == id
        && after[i].status != TaskStatus::Deleted) by {
        assert(cleaned_rel(marked(before, id, i), after[i], id));
        if i != p && after[i].id@ == id {
            assert(before[p].id@ == id);
            crate::text::lemma_decimal_injective((i + 1) as nat, (p + 1) as nat);
        }
    }
    lemma_live_pos(after, id, after.len() as int);
    assert forall|k: int| 0 <= k < after.len() && after[k].status != TaskStatus::Deleted implies {
        &&& forall|j: int| 0 <= j < after[k].blocks@.len() ==> #[trigger] after[k].blocks@[j]@ != id
        &&& forall|j: int| 0 <= j < after[k].blocked_by@.len() ==> #[trigger] after[k].blocked_by@[j]@ != id
    } by {
        assert(cleaned_rel(marked(before, id, k), after[k], id));
        let t = marked(before, id, k);
        assert(t.status != TaskStatus::Deleted);
        assert forall|j: int| 0 <= j < after[k].blocks@.len() implies #[trigger] after[k].blocks@[j]@ != id by {
            t.blocks@.lemma_filter_pred(not_ref(id), j);
        }
        assert forall|j: int| 0 <= j < after[k].blocked_by@.len() implies #[trigger] after[k].blocked_by@[j]@ != id by {
            t.blocked_by@.lemma_filter_pred(not_ref(id), j);
        }
    }
}

pub proof fn lemma_any_pos_bounds(tasks: Seq<Task>, id: Seq<char>)
    ensures
        0 <= any_pos(tasks, id) <= tasks.len(),
        any_pos(tasks, id) < tasks.len() ==> tasks[any_pos(tasks, id)].id@ == id,
    decreases tasks.len(),
{
    if tasks.len() > 0 && tasks[0].id@ != id {
        lemma_any_pos_bounds(tasks.drop_first(), id);
    }
}

/// The entries of `v` that are not `id`, in order.
fn retain_not(v: &Vec<String>, id: &str) -> (r: Vec<String>)
    ensures
        r@ == without(v@, id@),
{
    let mut r: Vec<String> = Vec::new();
    let mut i: usize = 0;
    assert(v@.take(0).filter(not_ref(id@)) =~= Seq::<String>::empty());
    while i < v.len()
        invariant
            i <= v@.len(),
            r@ == v@.take(i as int).filter(not_ref(id@)),
        decreases v@.len() - i,
    {
        proof {
            assert(v@.take(i + 1).drop_last() =~= v@.take(i as int));
            reveal_with_fuel(vstd::seq::Seq::filter, 1);
        }
        if !str_eq(v[i].as_str(), id) {
            r.push(v[i].clone());
        }
        assert(r@ =~= v@.take(i + 1).filter(not_ref(id@)));
        i += 1;
    }
    assert(v@.take(v@.len() as int) =~= v@);
    r
}

} // verus!
