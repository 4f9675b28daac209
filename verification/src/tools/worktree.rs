//! EnterWorktree and ExitWorktree: a git worktree to work in isolation, and
//! its removal. This module names the worktree and its branch, checks the
//! name, builds git's arguments and words the outcome; running git is left
//! to the caller.

use vstd::prelude::*;
use super::Early;
use crate::path_safety::{join_path, joined_path};
use crate::text::{chars_of, owned, prefix, prefix_chars, push_str, string_of, trim, trim_str, views};
use crate::tool_input::ToolInput;
use crate::tool_output::{error_view, out_view, BodyV, OutV, ToolOutput};

verus! {

pub struct EnterWorktreeTool;

pub struct ExitWorktreeTool;

/// Whether `c` is a lowercase hexadecimal digit.
pub open spec fn is_lower_hex(c: char) -> bool {
    ('0' <= c && c <= '9') || ('a' <= c && c <= 'f')
}

/// A fresh version-4 UUID in its hyphenated text form
/// (`uuid::Uuid::new_v4().to_string()`). The value is random; what holds of
/// every outcome is its length and that its first eight characters are
/// lowercase hex digits. The call panics when the system's random source
/// fails, which no argument can rule out.
#[verifier::external_body]
fn fresh_uuid() -> (s: String)
    ensures
        s@.len() == 36,
        forall|i: int| 0 <= i < 8 ==> is_lower_hex(#[trigger] s@[i]),
{
    uuid::Uuid::new_v4().to_string()
}

/// Whether `c` is alphanumeric (`char::is_alphanumeric`, by the Unicode
/// tables).
pub uninterp spec fn alphanumeric(c: char) -> bool;

/// `char::is_alphanumeric`: its result is named by `alphanumeric`; of the
/// Unicode tables only the ASCII case, which the documentation of
/// `is_alphabetic` and `is_numeric` fixes, is stated.
#[verifier::external_body]
fn is_alphanumeric(c: char) -> (b: bool)
    ensures
        b == alphanumeric(c),
        (c as u32) < 128 ==> (b <==> (('0' <= c && c <= '9') || ('a' <= c && c <= 'z') || ('A' <= c
            && c <= 'Z'))),
{
    c.is_alphanumeric()
}

/// A worktree name is made of alphanumeric characters, `-` and `_`.
pub open spec fn worktree_name_ok(name: Seq<char>) -> bool {
    forall|i: int| 0 <= i < name.len() ==> alphanumeric(#[trigger] name[i]) || name[i] == '-' || name[i] == '_'
}

/// Where the worktree named `name` is created.
pub open spec fn worktree_dir(cwd: Seq<char>, name: Seq<char>) -> Seq<char> {
    joined_path(name, joined_path("worktrees"@, joined_path(".arcee"@, cwd)))
}

/// The branch of the worktree named `name`.
pub open spec fn worktree_branch(name: Seq<char>) -> Seq<char> {
    "arcee-worktree-"@ + name
}

/// What creating a worktree needs: its name, directory and branch.
pub struct WorktreePlan {
    pub name: String,
    pub dir: String,
    pub branch: String,
}

impl EnterWorktreeTool {
    /// The error outside a git repository.
    pub fn not_a_repo() -> (o: ToolOutput)
        ensures
            out_view(o) == error_view("Not inside a git repository. EnterWorktree requires a git repo."@),
    {
        let o = ToolOutput::error("Not inside a git repository. EnterWorktree requires a git repo.");
        assert(views(o.next_steps@) =~= Seq::<Seq<char>>::empty());
        o
    }

    /// The worktree's name: the `name` argument, or `arcee-` and eight
    /// random hex digits.
    pub fn name(input: &ToolInput) -> (n: String)
        ensures
            match input.str_arg("name"@) {
                Some(s) => n@ == s,
                None => n@.len() == 14 && n@.take(6) == "arcee-"@ && forall|i: int|
                    6 <= i < 14 ==> is_lower_hex(#[trigger] n@[i]),
            },
    {
        match input.get_str("name") {
            Some(s) => owned(s),
            None => {
                let u = fresh_uuid();
                let head = prefix_chars(u.as_str(), 8);
                let mut n = owned("arcee-");
                push_str(&mut n, head.as_str());
                proof {
                    reveal_strlit("arcee-");
                    assert(n@.take(6) =~= "arcee-"@);
                    assert forall|i: int| 6 <= i < 14 implies is_lower_hex(#[trigger] n@[i]) by {
                        assert(n@[i] == u@[i - 6]);
                    }
                }
                n
            },
        }
    }

    /// The worktree to create for `name`, or the error for a name with other
    /// characters than alphanumerics, `-` and `_`.
    pub fn plan(name: String, cwd: &str) -> (r: Result<WorktreePlan, ToolOutput>)
        ensures
            worktree_name_ok(name@) ==> (r matches Ok(p) && p.name@ == name@ && p.dir@ == worktree_dir(
                cwd@,
                name@,
            ) && p.branch@ == worktree_branch(name@)),
            !worktree_name_ok(name@) ==> (r matches Err(o) && out_view(o) == error_view(
                "Worktree name must contain only alphanumeric characters, hyphens, and underscores."@,
            )),
    {
        let v = chars_of(name.as_str());
        let mut i: usize = 0;
        while i < v.len()
            invariant
                i <= v@.len(),
                v@ == name@,
                forall|j: int| 0 <= j < i ==> alphanumeric(#[trigger] name@[j]) || name@[j] == '-' || name@[j] == '_',
            decreases v@.len() - i,
        {
            let c = v[i];
            if !(is_alphanumeric(c) || c == '-' || c == '_') {
                let o = ToolOutput::error(
                    "Worktree name must contain only alphanumeric characters, hyphens, and underscores.",
                );
                assert(views(o.next_steps@) =~= Seq::<Seq<char>>::empty());
                return Err(o);
            }
            i += 1;
        }
        let a = join_path(".arcee", cwd);
        let b = join_path("worktrees", a.as_str());
        let dir = join_path(name.as_str(), b.as_str());
        let mut branch = owned("arcee-worktree-");
        push_str(&mut branch, name.as_str());
        Ok(WorktreePlan { name, dir, branch })
    }

    /// git's arguments that create the worktree on a new branch at `HEAD`.
    pub fn add_args(p: &WorktreePlan) -> (args: Vec<String>)
        ensures
            views(args@) == seq!["worktree"@, "add"@, "-b"@, p.branch@, p.dir@, "HEAD"@],
    {
        let args = vec![owned("worktree"), owned("add"), owned("-b"), p.branch.clone(), p.dir.clone(), owned("HEAD")];
        assert(views(args@) =~= seq!["worktree"@, "add"@, "-b"@, p.branch@, p.dir@, "HEAD"@]);
        args
    }

    /// The error for a worktree git could not create; `stderr` is what git
    /// printed.
    pub fn add_failed(stderr: &str) -> (o: ToolOutput)
        ensures
            out_view(o) == error_view("Failed to create worktree: "@ + stderr@),
    {
        let mut m = owned("Failed to create worktree: ");
        push_str(&mut m, stderr);
        let o = ToolOutput::error(m.as_str());
        assert(views(o.next_steps@) =~= Seq::<Seq<char>>::empty());
        o
    }

    /// The output for a created worktree.
    pub fn created(p: &WorktreePlan) -> (o: ToolOutput)
        ensures
            out_view(o) == (OutV {
                is_error: false,
                summary: Some("Worktree "@ + p.branch@ + " created"@),
                body: BodyV::Text("Created git worktree:\n - Path: "@ + p.dir@ + "\n - Branch: "@ + p.branch@),
                truncation: None,
                steps: seq!["Use ExitWorktree with path=... to clean up when done"@],
            }),
    {
        let mut summary = owned("Worktree ");
        push_str(&mut summary, p.branch.as_str());
        push_str(&mut summary, " created");
        let mut text = owned("Created git worktree:\n - Path: ");
        push_str(&mut text, p.dir.as_str());
        push_str(&mut text, "\n - Branch: ");
        push_str(&mut text, p.branch.as_str());
        let o = ToolOutput::success().with_summary(summary.as_str()).with_text(text.as_str()).with_next_step(
            "Use ExitWorktree with path=... to clean up when done",
        );
        assert(views(o.next_steps@) =~= seq!["Use ExitWorktree with path=... to clean up when done"@]);
        o
    }
}

/// What removing a worktree comes to, once git has reported its status.
pub enum ExitStep {
    /// The answer is known.
    Done(ToolOutput),
    /// Remove the worktree with `git worktree remove <path>`.
    Remove,
}

impl ExitWorktreeTool {
    /// The worktree's path; a missing `path` fails the call.
    pub fn request(input: &ToolInput) -> (r: Result<String, Early>)
        ensures
            match input.str_arg("path"@) {
                None => r matches Err(Early::Fail(m)) && m@ == "Missing 'path' parameter"@,
                Some(p) => r matches Ok(q) && q@ == p,
            },
    {
        match input.get_str("path") {
            Some(p) => Ok(owned(p)),
            None => Err(Early::Fail(owned("Missing 'path' parameter"))),
        }
    }

    /// The error for a path that does not exist.
    pub fn missing(path: &str) -> (o: ToolOutput)
        ensures
            out_view(o) == error_view("Worktree path does not exist: "@ + path@),
    {
        let mut m = owned("Worktree path does not exist: ");
        push_str(&mut m, path);
        let o = ToolOutput::error(m.as_str());
        assert(views(o.next_steps@) =~= Seq::<Seq<char>>::empty());
        o
    }

    /// After `git status --porcelain` printed `status`: a worktree with
    /// uncommitted changes is kept, else it is to be removed.
    pub fn after_status(path: &str, status: &str) -> (s: ExitStep)
        ensures
            trim(status@).len() > 0 ==> (s matches ExitStep::Done(o) && out_view(o) == OutV {
                is_error: false,
                summary: Some("Worktree kept (uncommitted changes)"@),
                body: BodyV::Text(
                    "Worktree at "@ + path@ + " has uncommitted changes. Commit or stash changes before removing."@,
                ),
                truncation: None,
                steps: seq![],
            }),
            trim(status@).len() == 0 ==> s is Remove,
    {
        let t = trim_str(status);
        if t.as_str().is_empty() {
            return ExitStep::Remove;
        }
        let mut text = owned("Worktree at ");
        push_str(&mut text, path);
        push_str(&mut text, " has uncommitted changes. Commit or stash changes before removing.");
        let o = ToolOutput::success().with_summary("Worktree kept (uncommitted changes)").with_text(text.as_str());
        assert(views(o.next_steps@) =~= Seq::<Seq<char>>::empty());
        ExitStep::Done(o)
    }

    /// The output once git removed the worktree (`ok`) or refused with
    /// `stderr`.
    pub fn removed(path: &str, ok: bool, stderr: &str) -> (o: ToolOutput)
        ensures
            !ok ==> out_view(o) == error_view("Failed to remove worktree: "@ + stderr@),
            ok ==> out_view(o) == (OutV {
                is_error: false,
                summary: Some("Removed worktree at "@ + path@),
                body: BodyV::Text("Worktree "@ + path@ + " removed."@),
                truncation: None,
                steps: seq![],
            }),
    {
        if !ok {
            let mut m = owned("Failed to remove worktree: ");
            push_str(&mut m, stderr);
            let o = ToolOutput::error(m.as_str());
            assert(views(o.next_steps@) =~= Seq::<Seq<char>>::empty());
            return o;
        }
        let mut summary = owned("Removed worktree at ");
        push_str(&mut summary, path);
        let mut text = owned("Worktree ");
        push_str(&mut text, path);
        push_str(&mut text, " removed.");
        let o = ToolOutput::success().with_summary(summary.as_str()).with_text(text.as_str());
        assert(views(o.next_steps@) =~= Seq::<Seq<char>>::empty());
        o
    }
}

} // verus!
