//! Saved sessions: where a session is stored, and which saved session is the
//! latest. Reading, writing and (de)serialising the files is left to the
//! caller.

use vstd::prelude::*;
use crate::path_safety::joined_path;
use crate::text::{owned, push_str};
use crate::tools::skill::last_dot;

verus! {

/// The extension of a file name: what follows its last `.`, unless that
/// `.` starts the name (`Path::extension`).
pub open spec fn extension_of(name: Seq<char>) -> Option<Seq<char>> {
    let k = last_dot(name);
    if k > 0 {
        Some(name.skip(k + 1))
    } else {
        None
    }
}

/// The file a session is saved to, in the sessions directory.
pub open spec fn session_file(dir: Seq<char>, id: Seq<char>) -> Seq<char> {
    joined_path(id + ".json"@, dir)
}

/// A file in the sessions directory: its name and when it was last
/// modified (nanoseconds).
pub struct SessionFile {
    pub name: String,
    pub modified: u128,
}

/// The file is a saved session (its extension is `json`).
pub open spec fn is_session(f: SessionFile) -> bool {
    extension_of(f.name@) == Some("json"@)
}

/// Position `i` holds the latest session: the first of those modified last.
pub open spec fn latest_at(fs: Seq<SessionFile>, i: int) -> bool {
    &&& 0 <= i < fs.len()
    &&& is_session(fs[i])
    &&& forall|j: int| 0 <= j < fs.len() && is_session(#[trigger] fs[j]) ==> fs[j].modified <= fs[i].modified
    &&& forall|j: int| 0 <= j < i && is_session(#[trigger] fs[j]) ==> fs[j].modified < fs[i].modified
}

/// The file a session is saved to.
pub fn session_path(dir: &str, id: &str) -> (p: String)
    ensures
        p@ == session_file(dir@, id@),
{
    let mut name = owned(id);
    push_str(&mut name, ".json");
    crate::path_safety::join_path(name.as_str(), dir)
}

/// Whether a file name has the extension `json`.
pub fn is_session_file(name: &str) -> (b: bool)
    ensures
        b == (extension_of(name@) == Some("json"@)),
{
    let v = crate::text::chars_of(name);
    let mut k = v.len();
    assert(v@.take(k as int) =~= v@);
    while k > 0 && v[k - 1] != '.'
        invariant
            k <= v@.len(),
            last_dot(v@) == last_dot(v@.take(k as int)),
        decreases k,
    {
        assert(v@.take(k as int).drop_last() =~= v@.take(k - 1));
        k -= 1;
    }
    if k <= 1 {
        proof {
            if k == 1 {
                assert(v@.take(1).last() == '.');
            }
        }
        return false;
    }
    proof {
        assert(v@.take(k as int).last() == '.');
        assert(last_dot(v@) == k - 1);
        reveal_strlit("json");
    }
    let ext = crate::text::string_of(&v, k, v.len());
    assert(v@.skip(k as int) =~= v@.subrange(k as int, v@.len() as int));
    crate::text::str_eq(ext.as_str(), "json")
}

/// The latest saved session among the directory's files: the first of the
/// sessions modified last; `None` when there is no session.
pub fn pick_latest(files: &Vec<SessionFile>) -> (r: Option<usize>)
    ensures
        match r {
            Some(i) => latest_at(files@, i as int),
            None => forall|j: int| 0 <= j < files@.len() ==> !is_session(#[trigger] files@[j]),
        },
{
    let mut best: Option<usize> = None;
    let mut i: usize = 0;
    while i < files.len()
        invariant
            i <= files@.len(),
            match best {
                Some(b) => b < i && is_session(files@[b as int]) && (forall|j: int|
                    0 <= j < i && is_session(#[trigger] files@[j]) ==> files@[j].modified <= files@[b as int].modified)
                    && (forall|j: int| 0 <= j < b && is_session(#[trigger] files@[j]) ==> files@[j].modified
                    < files@[b as int].modified),
                None => forall|j: int| 0 <= j < i ==> !is_session(#[trigger] files@[j]),
            },
        decreases files@.len() - i,
    {
        if is_session_file(files[i].name.as_str()) {
            match best {
                None => {
                    best = Some(i);
                },
                Some(b) => {
                    if files[i].modified > files[b].modified {
                        best = Some(i);
                    }
                },
            }
        }
        i += 1;
    }
    best
}

} // verus!
