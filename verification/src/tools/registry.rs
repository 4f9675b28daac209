//! The names of the registered tools, kept sorted: the order in which tool
//! definitions are offered to the model. Holding the tools themselves is
//! left to the caller.

use vstd::prelude::*;
use crate::text::{
    insert_pos, lemma_insert_pos, lemma_text_lt_total, lemma_text_lt_trans, owned, str_eq, text_less,
    text_lt, text_sorted, views,
};

verus! {

/// The registered tool names, in ascending order, each once.
pub struct ToolNames {
    names: Vec<String>,
}

/// The tools a session starts with, in the order they are registered.
pub open spec fn default_tools() -> Seq<Seq<char>> {
    seq![
        "Bash"@,
        "Read"@,
        "Write"@,
        "Edit"@,
        "Glob"@,
        "Grep"@,
        "WebFetch"@,
        "AskUserQuestion"@,
        "TaskCreate"@,
        "TaskUpdate"@,
        "TaskList"@,
        "TaskGet"@,
        "TaskOutput"@,
        "Agent"@,
        "EnterPlanMode"@,
        "ExitPlanMode"@,
        "WebSearch"@,
        "LSP"@,
        "NotebookEdit"@,
        "EnterWorktree"@,
        "ExitWorktree"@,
        "Skill"@,
    ]
}

/// `s` with `x` registered: unchanged when it holds `x`, else with `x` at
/// its place in the order.
pub open spec fn with_name(s: Seq<Seq<char>>, x: Seq<char>) -> Seq<Seq<char>> {
    if s.contains(x) {
        s
    } else {
        s.insert(insert_pos(s, x), x)
    }
}

/// Inserting at the insertion point keeps a sorted list sorted.
pub proof fn lemma_insert_sorted(s: Seq<Seq<char>>, x: Seq<char>)
    requires
        text_sorted(s),
    ensures
        text_sorted(s.insert(insert_pos(s, x), x)),
{
    let p = insert_pos(s, x);
    lemma_insert_pos(s, x);
    let t = s.insert(p, x);
    assert forall|i: int, j: int| 0 <= i < j < t.len() implies !text_lt(#[trigger] t[j], #[trigger] t[i]) by {
        if i < p && j < p {
            assert(t[i] == s[i] && t[j] == s[j]);
        } else if i > p {
            assert(t[i] == s[i - 1] && t[j] == s[j - 1]);
        } else if i == p {
            assert(t[j] == s[j - 1]);
            assert(text_lt(x, s[j - 1]));
            lemma_text_lt_total(x, s[j - 1]);
        } else if j == p {
            assert(t[i] == s[i]);
            assert(!text_lt(x, s[p - 1]));
            lemma_text_lt_total(s[i], s[p - 1]);
            if i < p - 1 {
                assert(!text_lt(s[p - 1], s[i]));
            }
            if text_lt(x, s[i]) && s[i] != s[p - 1] {
                lemma_text_lt_trans(x, s[i], s[p - 1]);
            }
        } else {
            assert(t[i] == s[i] && t[j] == s[j - 1]);
        }
    }
}

impl ToolNames {
    /// The names, in order.
    pub closed spec fn view_names(&self) -> Seq<Seq<char>> {
        views(self.names@)
    }

    /// Sorted, each name once.
    pub open spec fn wf(&self) -> bool {
        text_sorted(self.view_names()) && self.view_names().no_duplicates()
    }

    /// No tools.
    pub fn new() -> (r: Self)
        ensures
            r.view_names() == Seq::<Seq<char>>::empty(),
            r.wf(),
    {
        let r = ToolNames { names: Vec::new() };
        assert(r.view_names() =~= Seq::<Seq<char>>::empty());
        r
    }

    /// Registers `name`; registering a name again changes nothing.
    pub fn register(&mut self, name: &str)
        requires
            old(self).wf(),
        ensures
            final(self).view_names() == with_name(old(self).view_names(), name@),
            final(self).wf(),
    {
        let ghost r = self.view_names();
        let mut i: usize = 0;
        while i < self.names.len()
            invariant
                i <= self.names@.len(),
                r == views(self.names@),
                *self == *old(self),
                old(self).wf(),
                forall|j: int| 0 <= j < i ==> r[j] != name@,
            decreases self.names@.len() - i,
        {
            if str_eq(self.names[i].as_str(), name) {
                assert(r[i as int] == name@);
                return;
            }
            i += 1;
        }
        assert(!r.contains(name@));
        let mut k: usize = self.names.len();
        assert(r.take(k as int) =~= r);
        while k > 0 && text_less(name, self.names[k - 1].as_str())
            invariant
                k <= self.names@.len(),
                r == views(self.names@),
                insert_pos(r, name@) == insert_pos(r.take(k as int), name@),
            decreases k,
        {
            assert(r.take(k as int).drop_last() =~= r.take(k - 1));
            k -= 1;
        }
        proof {
            if k > 0 {
                assert(r.take(k as int).last() == r[k - 1]);
            }
            lemma_insert_sorted(r, name@);
        }
        self.names.insert(k, owned(name));
        proof {
            assert(views(self.names@) =~= r.insert(k as int, name@));
            let t = r.insert(k as int, name@);
            assert forall|a: int, b: int| 0 <= a < b < t.len() implies t[a] != t[b] by {
                if a < k && b < k {
                    assert(t[a] == r[a] && t[b] == r[b]);
                } else if a > k {
                    assert(t[a] == r[a - 1] && t[b] == r[b - 1]);
                } else if a == k {
                    assert(t[b] == r[b - 1]);
                } else if b == k {
                    assert(t[a] == r[a]);
                } else {
                    assert(t[a] == r[a] && t[b] == r[b - 1]);
                }
            }
        }
    }

    /// Whether `name` is registered.
    pub fn contains(&self, name: &str) -> (b: bool)
        ensures
            b == self.view_names().contains(name@),
    {
        let ghost r = self.view_names();
        let mut i: usize = 0;
        while i < self.names.len()
            invariant
                i <= self.names@.len(),
                r == views(self.names@),
                forall|j: int| 0 <= j < i ==> r[j] != name@,
            decreases self.names@.len() - i,
        {
            if str_eq(self.names[i].as_str(), name) {
                assert(r[i as int] == name@);
                return true;
            }
            i += 1;
        }
        false
    }

    /// The registered names, in order.
    pub fn names(&self) -> (v: &Vec<String>)
        ensures
            views(v@) == self.view_names(),
    {
        &self.names
    }
}

/// The names of the tools a session starts with.
pub fn default_tool_names() -> (v: Vec<String>)
    ensures
        views(v@) == default_tools(),
{
    let v = vec![
        owned("Bash"),
        owned("Read"),
        owned("Write"),
        owned("Edit"),
        owned("Glob"),
        owned("Grep"),
        owned("WebFetch"),
        owned("AskUserQuestion"),
        owned("TaskCreate"),
        owned("TaskUpdate"),
        owned("TaskList"),
        owned("TaskGet"),
        owned("TaskOutput"),
        owned("Agent"),
        owned("EnterPlanMode"),
        owned("ExitPlanMode"),
        owned("WebSearch"),
        owned("LSP"),
        owned("NotebookEdit"),
        owned("EnterWorktree"),
        owned("ExitWorktree"),
        owned("Skill"),
    ];
    assert(views(v@) =~= default_tools());
    v
}

/// Registering a name twice is registering it once.
pub proof fn law_register_idempotent(s: Seq<Seq<char>>, x: Seq<char>)
    ensures
        with_name(with_name(s, x), x) == with_name(s, x),
{
    if !s.contains(x) {
        let p = insert_pos(s, x);
        lemma_insert_pos(s, x);
        assert(s.insert(p, x)[p] == x);
        assert(s.insert(p, x).contains(x));
    }
}

} // verus!
