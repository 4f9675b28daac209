//! Bookkeeping for work that runs in the background (shell commands, sub-agents):
//! registration, completion or failure, and the queue of finished tasks the
//! model has not been told about yet.

use vstd::prelude::*;
use crate::text::{decimal, decimal_string, lemma_text_lt_total, lemma_text_lt_trans, push_str, str_eq, text_less, text_lt};

verus! {

#[derive(Debug, Clone, Copy, PartialEq, Eq, Structural)]
pub enum BackgroundTaskStatus {
    Running,
    Completed,
    Failed,
}

pub open spec fn bg_status_text(s: BackgroundTaskStatus) -> Seq<char> {
    match s {
        BackgroundTaskStatus::Running => "running"@,
        BackgroundTaskStatus::Completed => "completed"@,
        BackgroundTaskStatus::Failed => "failed"@,
    }
}

impl BackgroundTaskStatus {
    pub fn as_str(&self) -> (s: &'static str)
        ensures
            s@ == bg_status_text(*self),
    {
        match self {
            BackgroundTaskStatus::Running => "running",
            BackgroundTaskStatus::Completed => "completed",
            BackgroundTaskStatus::Failed => "failed",
        }
    }
}

/// A background task. Times are nanoseconds on a monotonic clock chosen by
/// the caller.
#[derive(Debug)]
pub struct BackgroundTask {
    pub id: String,
    pub description: String,
    pub agent_type: String,
    pub status: BackgroundTaskStatus,
    pub result: Option<String>,
    pub started_at: u64,
    pub completed_at: Option<u64>,
}

/// `#<id> [<status>] <description> (<elapsed>s)`.
pub open spec fn bg_summary_text(t: BackgroundTask, elapsed: Seq<char>) -> Seq<char> {
    "#"@ + t.id@ + " ["@ + bg_status_text(t.status) + "] "@ + t.description@ + " ("@ + elapsed
        + "s)"@
}

/// Nanoseconds from the start to the completion, or to `now` while running.
pub open spec fn elapsed_spec(t: BackgroundTask, now: u64) -> int {
    match t.completed_at {
        Some(end) => end - t.started_at,
        None => now - t.started_at,
    }
}

impl BackgroundTask {
    /// One-line summary; `elapsed` is the elapsed time in seconds, as text.
    pub fn format_summary(&self, elapsed: &str) -> (out: String)
        ensures
            out@ == bg_summary_text(*self, elapsed@),
    {
        let mut out = "#".to_owned();
        push_str(&mut out, self.id.as_str());
        push_str(&mut out, " [");
        push_str(&mut out, self.status.as_str());
        push_str(&mut out, "] ");
        push_str(&mut out, self.description.as_str());
        push_str(&mut out, " (");
        push_str(&mut out, elapsed);
        push_str(&mut out, "s)");
        out
    }

    /// Nanoseconds from the start to the completion, or to `now` while
    /// running (zero if the clock reads earlier than the start).
    pub fn elapsed_nanos(&self, now: u64) -> (d: u64)
        ensures
            d == if elapsed_spec(*self, now) >= 0 { elapsed_spec(*self, now) } else { 0 },
    {
        let end = match self.completed_at {
            Some(e) => e,
            None => now,
        };
        if end >= self.started_at {
            end - self.started_at
        } else {
            0
        }
    }

    /// A field-by-field copy.
    pub fn duplicate(&self) -> (c: BackgroundTask)
        ensures
            c == *self,
    {
        BackgroundTask {
            id: self.id.clone(),
            description: self.description.clone(),
            agent_type: self.agent_type.clone(),
            status: self.status,
            result: match &self.result {
                Some(r) => Some(r.clone()),
                None => None,
            },
            started_at: self.started_at,
            completed_at: self.completed_at,
        }
    }
}

/// Store of background tasks, numbered from 1 in registration order.
pub struct BackgroundTaskStore {
    tasks: Vec<BackgroundTask>,
    next_id: u64,
    /// IDs of finished tasks the model has not been notified of yet.
    pub completed_queue: Vec<String>,
}

/// Position of the task with `id`, or `tasks.len()`.
pub open spec fn bg_pos(tasks: Seq<BackgroundTask>, id: Seq<char>) -> int
    decreases tasks.len(),
{
    if tasks.len() == 0 {
        0
    } else if tasks[0].id@ == id {
        0
    } else {
        1 + bg_pos(tasks.drop_first(), id)
    }
}

pub proof fn lemma_bg_pos(tasks: Seq<BackgroundTask>, id: Seq<char>, k: int)
    requires
        0 <= k <= tasks.len(),
        forall|i: int| 0 <= i < k ==> tasks[i].id@ != id,
        k == tasks.len() || tasks[k].id@ == id,
    ensures
        bg_pos(tasks, id) == k,
    decreases k,
{
    if k > 0 {
        lemma_bg_pos(tasks.drop_first(), id, k - 1);
    }
}

/// The task after it finishes with `status` and `result` at `now`.
pub open spec fn finished(t: BackgroundTask, status: BackgroundTaskStatus, result: String, now: u64) -> BackgroundTask {
    BackgroundTask { status, result: Some(result), completed_at: Some(now), ..t }
}

impl BackgroundTaskStore {
    pub closed spec fn tasks(&self) -> Seq<BackgroundTask> {
        self.tasks@
    }

    /// The finished tasks not yet reported, oldest first.
    pub closed spec fn queue(&self) -> Seq<String> {
        self.completed_queue@
    }

    pub closed spec fn next_number(&self) -> nat {
        self.next_id as nat
    }

    /// Each task is numbered by its position, from 1.
    pub open spec fn wf(&self) -> bool {
        &&& self.next_number() == self.tasks().len() + 1
        &&& forall|k: int| 0 <= k < self.tasks().len() ==> #[trigger] self.tasks()[k].id@ == decimal(
            (k + 1) as nat,
        )
    }

    pub fn new() -> (s: Self)
        ensures
            s.wf(),
            s.tasks().len() == 0,
            s.queue().len() == 0,
    {
        BackgroundTaskStore { tasks: Vec::new(), next_id: 1, completed_queue: Vec::new() }
    }

    /// Registers a running task started at `now`; returns its number.
    pub fn register(&mut self, description: String, agent_type: String, now: u64) -> (id: String)
        requires
            old(self).next_number() < u64::MAX,
        ensures
            id@ == decimal(old(self).next_number()),
            final(self).next_number() == old(self).next_number() + 1,
            final(self).tasks() == old(self).tasks().push(BackgroundTask {
                id: final(self).tasks().last().id,
                description,
                agent_type,
                status: BackgroundTaskStatus::Running,
                result: None,
                started_at: now,
                completed_at: None,
            }),
            final(self).tasks().last().id@ == id@,
            final(self).queue() == old(self).queue(),
            old(self).wf() ==> final(self).wf(),
    {
        let id = decimal_string(self.next_id);
        self.next_id = self.next_id + 1;
        self.tasks.push(BackgroundTask {
            id: id.clone(),
            description,
            agent_type,
            status: BackgroundTaskStatus::Running,
            result: None,
            started_at: now,
            completed_at: None,
        });
        id
    }

    fn position(&self, id: &str) -> (r: usize)
        ensures
            r == bg_pos(self.tasks(), id@),
            r <= self.tasks().len(),
    {
        let mut i: usize = 0;
        while i < self.tasks.len() && !str_eq(self.tasks[i].id.as_str(), id)
            invariant
                i <= self.tasks@.len(),
                forall|j: int| 0 <= j < i ==> self.tasks@[j].id@ != id@,
            decreases self.tasks@.len() - i,
        {
            i += 1;
        }
        proof {
            lemma_bg_pos(self.tasks@, id@, i as int);
        }
        i
    }

    fn finish(&mut self, id: &str, status: BackgroundTaskStatus, result: String, now: u64)
        ensures
            ({
                let k = bg_pos(old(self).tasks(), id@);
                if k < old(self).tasks().len() {
                    &&& final(self).tasks() == old(self).tasks().update(
                        k,
                        finished(old(self).tasks()[k], status, result, now),
                    )
                    &&& final(self).queue().len() == old(self).queue().len() + 1
                    &&& final(self).queue().drop_last() == old(self).queue()
                    &&& final(self).queue().last()@ == id@
                } else {
                    &&& final(self).tasks() == old(self).tasks()
                    &&& final(self).queue() == old(self).queue()
                }
            }),
            final(self).next_number() == old(self).next_number(),
    {
        let k = self.position(id);
        if k < self.tasks.len() {
            let t = &self.tasks[k];
            let updated = BackgroundTask {
                id: t.id.clone(),
                description: t.description.clone(),
                agent_type: t.agent_type.clone(),
                status,
                result: Some(result),
                started_at: t.started_at,
                completed_at: Some(now),
            };
            self.tasks.set(k, updated);
            self.completed_queue.push(id.to_owned());
            assert(self.completed_queue@.drop_last() =~= old(self).queue());
        }
    }

    /// Marks a task completed with its result at `now` and queues it for
    /// notification; unknown ids change nothing.
    pub fn complete(&mut self, id: &str, result: String, now: u64)
        ensures
            ({
                let k = bg_pos(old(self).tasks(), id@);
                if k < old(self).tasks().len() {
                    &&& final(self).tasks() == old(self).tasks().update(
                        k,
                        finished(old(self).tasks()[k], BackgroundTaskStatus::Completed, result, now),
                    )
                    &&& final(self).queue().len() == old(self).queue().len() + 1
                    &&& final(self).queue().drop_last() == old(self).queue()
                    &&& final(self).queue().last()@ == id@
                } else {
                    &&& final(self).tasks() == old(self).tasks()
                    &&& final(self).queue() == old(self).queue()
                }
            }),
            final(self).next_number() == old(self).next_number(),
    {
        self.finish(id, BackgroundTaskStatus::Completed, result, now);
    }

    /// Marks a task failed with an error message at `now` and queues it for
    /// notification; unknown ids change nothing.
    pub fn fail(&mut self, id: &str, error: String, now: u64)
        ensures
            ({
                let k = bg_pos(old(self).tasks(), id@);
                if k < old(self).tasks().len() {
                    &&& final(self).tasks() == old(self).tasks().update(
                        k,
                        finished(old(self).tasks()[k], BackgroundTaskStatus::Failed, error, now),
                    )
                    &&& final(self).queue().len() == old(self).queue().len() + 1
                    &&& final(self).queue().drop_last() == old(self).queue()
                    &&& final(self).queue().last()@ == id@
                } else {
                    &&& final(self).tasks() == old(self).tasks()
                    &&& final(self).queue() == old(self).queue()
                }
            }),
            final(self).next_number() == old(self).next_number(),
    {
        self.finish(id, BackgroundTaskStatus::Failed, error, now);
    }

    /// The task with `id`.
    pub fn get(&self, id: &str) -> (r: Option<&BackgroundTask>)
        ensures
            match r {
                Some(t) => bg_pos(self.tasks(), id@) < self.tasks().len() && *t == self.tasks()[bg_pos(self.tasks(), id@)],
                None => bg_pos(self.tasks(), id@) == self.tasks().len(),
            },
    {
        let k = self.position(id);
        if k < self.tasks.len() {
            Some(&self.tasks[k])
        } else {
            None
        }
    }

    /// Every task, ordered by the text of its number.
    pub fn list(&self) -> (r: Vec<&BackgroundTask>)
        ensures
            r@.len() == self.tasks().len(),
            r@.map_values(|t: &BackgroundTask| *t).to_multiset() == self.tasks().to_multiset(),
            forall|i: int, j: int|
                0 <= i < j < r@.len() ==> !text_lt(r@[j].id@, r@[i].id@),
    {
        let mut r: Vec<&BackgroundTask> = Vec::new();
        let mut i: usize = 0;
        proof {
            broadcast use vstd::seq_lib::group_to_multiset_ensures;
            assert(self.tasks@.take(0) =~= Seq::<BackgroundTask>::empty());
            assert(r@.map_values(|t: &BackgroundTask| *t) =~= Seq::<BackgroundTask>::empty());
        }
        while i < self.tasks.len()
            invariant
                i <= self.tasks@.len(),
                r@.len() == i,
                r@.map_values(|t: &BackgroundTask| *t).to_multiset() == self.tasks@.take(
                    i as int,
                ).to_multiset(),
                forall|a: int, b: int| 0 <= a < b < r@.len() ==> !text_lt(r@[b].id@, r@[a].id@),
            decreases self.tasks@.len() - i,
        {
            insert_sorted(&mut r, &self.tasks[i]);
            proof {
                broadcast use vstd::seq_lib::group_to_multiset_ensures;
                assert(self.tasks@.take(i + 1) =~= self.tasks@.take(i as int).push(self.tasks@[i as int]));
            }
            i += 1;
        }
        assert(self.tasks@.take(self.tasks@.len() as int) =~= self.tasks@);
        r
    }

    /// The finished tasks not yet reported, in the order they finished; the
    /// queue is emptied.
    pub fn drain_completed(&mut self) -> (r: Vec<BackgroundTask>)
        ensures
            final(self).queue().len() == 0,
            final(self).tasks() == old(self).tasks(),
            final(self).next_number() == old(self).next_number(),
            r@ == drained(old(self).tasks(), old(self).queue()),
    {
        let mut queue: Vec<String> = Vec::new();
        std::mem::swap(&mut queue, &mut self.completed_queue);
        let mut r: Vec<BackgroundTask> = Vec::new();
        let mut i: usize = 0;
        assert(queue@.take(0) =~= Seq::<String>::empty());
        while i < queue.len()
            invariant
                i <= queue@.len(),
                r@ == drained(self.tasks(), queue@.take(i as int)),
            decreases queue@.len() - i,
        {
            assert(queue@.take(i + 1).drop_last() =~= queue@.take(i as int));
            match self.get(queue[i].as_str()) {
                Some(t) => {
                    r.push(t.duplicate());
                },
                None => {},
            }
            i += 1;
        }
        assert(queue@.take(queue@.len() as int) =~= queue@);
        r
    }
}

/// The tasks named by `queue`, in queue order, skipping unknown ids.
pub open spec fn drained(tasks: Seq<BackgroundTask>, queue: Seq<String>) -> Seq<BackgroundTask>
    decreases queue.len(),
{
    if queue.len() == 0 {
        seq![]
    } else {
        let k = bg_pos(tasks, queue.last()@);
        let rest = drained(tasks, queue.drop_last());
        if k < tasks.len() { rest.push(tasks[k]) } else { rest }
    }
}

/// Inserts `t` after every entry that does not come after it.
fn insert_sorted<'a>(r: &mut Vec<&'a BackgroundTask>, t: &'a BackgroundTask)
    requires
        forall|a: int, b: int| 0 <= a < b < old(r)@.len() ==> !text_lt(old(r)@[b].id@, old(r)@[a].id@),
    ensures
        final(r)@.len() == old(r)@.len() + 1,
        final(r)@.map_values(|x: &BackgroundTask| *x).to_multiset() == old(r)@.map_values(
            |x: &BackgroundTask| *x,
        ).to_multiset().insert(*t),
        forall|a: int, b: int| 0 <= a < b < final(r)@.len() ==> !text_lt(final(r)@[b].id@, final(r)@[a].id@),
{
    let mut k: usize = r.len();
    while k > 0 && text_less(t.id.as_str(), r[k - 1].id.as_str())
        invariant
            k <= r@.len(),
            r@ == old(r)@,
            forall|j: int| k <= j < r@.len() ==> text_lt(t.id@, r@[j].id@),
        decreases k,
    {
        k -= 1;
    }
    let ghost before = r@;
    r.insert(k, t);
    proof {
        broadcast use vstd::seq_lib::group_to_multiset_ensures;
        assert(r@ =~= before.insert(k as int, t));
        let m = before.map_values(|x: &BackgroundTask| *x);
        assert(r@.map_values(|x: &BackgroundTask| *x) =~= m.insert(k as int, *t));
        m.insert_ensures(k as int, *t);
        assert(m.insert(k as int, *t) =~= m.take(k as int).push(*t) + m.skip(k as int));
        assert(m =~= m.take(k as int) + m.skip(k as int));
        vstd::seq_lib::lemma_multiset_commutative(m.take(k as int).push(*t), m.skip(k as int));
        vstd::seq_lib::lemma_multiset_commutative(m.take(k as int), m.skip(k as int));
        assert forall|a: int, b: int| 0 <= a < b < r@.len() implies !text_lt(r@[b].id@, r@[a].id@) by {
            if a < k && b == k {
                if k > 0 {
                    lemma_text_lt_total(t.id@, before[k - 1].id@);
                    if a < k - 1 && text_lt(t.id@, before[a].id@) {
                        lemma_text_lt_total(before[a].id@, before[k - 1].id@);
                        if text_lt(before[k - 1].id@, before[a].id@) {
                        } else if before[a].id@ == before[k - 1].id@ {
                        } else {
                            lemma_text_lt_trans(t.id@, before[a].id@, before[k - 1].id@);
                        }
                    }
                }
            } else if a == k && b > k {
                lemma_text_lt_total(t.id@, before[b - 1].id@);
            }
        }
    }
}

} // verus!
