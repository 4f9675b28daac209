//! Edit: exact string replacement in a file. This module reads the call's
//! arguments, decides the new content (with a fallback that tolerates curly
//! quotes) and words the result; reading and writing the file is left to the
//! caller.

use vstd::prelude::*;
use super::{error_output, Early};
use crate::text::{
    chars_of, decimal, decimal_string, find, first_at, has_sub, occurs_at, push_str, replace_all,
    replace_str, starts_with, str_eq, string_from, string_of, views,
};
use crate::tool_input::ToolInput;
use crate::tool_output::{error_view, out_view, BodyV, OutV, ToolOutput};

verus! {

pub struct EditTool;

/// What an Edit call asks for.
pub struct EditRequest {
    pub file_path: String,
    pub old_string: String,
    pub new_string: String,
    pub replace_all: bool,
}

impl EditTool {
    /// Reads the call's arguments: a missing path or string fails the call;
    /// identical strings and an empty `old_string` are answered with errors.
    pub fn request(input: &ToolInput) -> (r: Result<EditRequest, Early>)
        ensures
            match r {
                Ok(q) => {
                    &&& input.str_arg("file_path"@) == Some(q.file_path@)
                    &&& input.str_arg("old_string"@) == Some(q.old_string@)
                    &&& input.str_arg("new_string"@) == Some(q.new_string@)
                    &&& q.replace_all == match input.bool_arg("replace_all"@) {
                        Some(b) => b,
                        None => false,
                    }
                    &&& q.old_string@ != q.new_string@
                    &&& q.old_string@.len() > 0
                },
                Err(Early::Fail(m)) => if input.str_arg("file_path"@) is None {
                    m@ == "Missing 'file_path' parameter"@
                } else if input.str_arg("old_string"@) is None {
                    m@ == "Missing 'old_string' parameter"@
                } else {
                    input.str_arg("new_string"@) is None && m@ == "Missing 'new_string' parameter"@
                },
                Err(Early::Output(o)) => {
                    &&& input.str_arg("file_path"@) is Some
                    &&& input.str_arg("old_string"@) is Some
                    &&& input.str_arg("new_string"@) is Some
                    &&& out_view(o) == if input.str_arg("old_string"@) == input.str_arg("new_string"@) {
                        error_view("old_string and new_string are identical"@)
                    } else {
                        error_view("old_string cannot be empty"@)
                    }
                    &&& (input.str_arg("old_string"@) == input.str_arg("new_string"@)
                        || input.str_arg("old_string"@) == Some(Seq::<char>::empty()))
                },
            },
    {
        let file_path = match input.get_str("file_path") {
            Some(p) => p,
            None => {
                return Err(Early::Fail("Missing 'file_path' parameter".to_owned()));
            },
        };
        let old_string = match input.get_str("old_string") {
            Some(p) => p,
            None => {
                return Err(Early::Fail("Missing 'old_string' parameter".to_owned()));
            },
        };
        let new_string = match input.get_str("new_string") {
            Some(p) => p,
            None => {
                return Err(Early::Fail("Missing 'new_string' parameter".to_owned()));
            },
        };
        let replace_all = match input.get_bool("replace_all") {
            Some(b) => b,
            None => false,
        };
        if str_eq(old_string, new_string) {
            let o = ToolOutput::error("old_string and new_string are identical");
            assert(views(o.next_steps@) =~= Seq::<Seq<char>>::empty());
            return Err(Early::Output(o));
        }
        if old_string.is_empty() {
            let o = ToolOutput::error("old_string cannot be empty");
            assert(views(o.next_steps@) =~= Seq::<Seq<char>>::empty());
            return Err(Early::Output(o));
        }
        Ok(
            EditRequest {
                file_path: file_path.to_owned(),
                old_string: old_string.to_owned(),
                new_string: new_string.to_owned(),
                replace_all,
            },
        )
    }
}

// ─── Matching ──────────────────────────────────────────────────────────────

/// Non-overlapping occurrences of `p` in `s`, scanning from the left
/// (`str::matches(..).count()`).
pub open spec fn count_matches(s: Seq<char>, p: Seq<char>) -> nat
    decreases s.len(),
{
    if p.len() == 0 || s.len() == 0 {
        0
    } else if starts_with(s, p) {
        1 + count_matches(s.skip(p.len() as int), p)
    } else {
        count_matches(s.drop_first(), p)
    }
}

/// `s` with its first occurrence of `p` replaced by `t` (`replacen(p, t, 1)`).
pub open spec fn replace_first(s: Seq<char>, p: Seq<char>, t: Seq<char>) -> Seq<char>
    decreases s.len(),
{
    if p.len() == 0 || s.len() == 0 {
        s
    } else if starts_with(s, p) {
        t + s.skip(p.len() as int)
    } else {
        seq![s[0]] + replace_first(s.drop_first(), p, t)
    }
}

/// A curly quote read as the straight one.
pub open spec fn straight(c: char) -> char {
    if c == '\u{2018}' || c == '\u{2019}' {
        '\''
    } else if c == '\u{201C}' || c == '\u{201D}' {
        '"'
    } else {
        c
    }
}

/// `s` with curly quotes made straight.
pub open spec fn normalize_quotes_spec(s: Seq<char>) -> Seq<char> {
    s.map_values(|c: char| straight(c))
}

/// The text of `content` at the first place where it matches `old` once
/// quotes are made straight.
pub open spec fn actual_string(content: Seq<char>, old: Seq<char>) -> Option<Seq<char>> {
    let nc = normalize_quotes_spec(content);
    let no = normalize_quotes_spec(old);
    if has_sub(nc, no) {
        let k = choose|k: int| first_at(nc, no, k);
        Some(content.subrange(k, k + old.len()))
    } else {
        None
    }
}

/// Where `p` occurs, it has a leftmost occurrence.
pub proof fn lemma_first_exists(s: Seq<char>, p: Seq<char>, j: int)
    requires
        occurs_at(s, p, j),
    ensures
        exists|k: int| first_at(s, p, k),
    decreases j,
{
    if forall|i: int| 0 <= i < j ==> !occurs_at(s, p, i) {
        assert(first_at(s, p, j));
    } else {
        let i = choose|i: int| 0 <= i < j && occurs_at(s, p, i);
        lemma_first_exists(s, p, i);
    }
}

pub proof fn lemma_actual_len(content: Seq<char>, old: Seq<char>)
    ensures
        actual_string(content, old) matches Some(a) ==> a.len() == old.len(),
{
    let nc = normalize_quotes_spec(content);
    let no = normalize_quotes_spec(old);
    if has_sub(nc, no) {
        let j = choose|j: int| occurs_at(nc, no, j);
        lemma_first_exists(nc, no, j);
        let k = choose|k: int| first_at(nc, no, k);
        assert(occurs_at(nc, no, k));
        assert(nc.len() == content.len() && no.len() == old.len());
    }
}

/// `s` with curly quotes made straight.
pub fn normalize_quotes(s: &str) -> (out: String)
    ensures
        out@ == normalize_quotes_spec(s@),
{
    let v = chars_of(s);
    let mut out = String::new();
    let mut i: usize = 0;
    while i < v.len()
        invariant
            i <= v@.len(),
            v@ == s@,
            out@ == normalize_quotes_spec(v@.take(i as int)),
        decreases v@.len() - i,
    {
        let c = v[i];
        let d = if c == '\u{2018}' || c == '\u{2019}' {
            '\''
        } else if c == '\u{201C}' || c == '\u{201D}' {
            '"'
        } else {
            c
        };
        crate::text::push_char(&mut out, d);
        assert(normalize_quotes_spec(v@.take(i + 1)) =~= normalize_quotes_spec(v@.take(i as int)).push(d));
        i += 1;
    }
    assert(v@.take(v@.len() as int) =~= v@);
    out
}

/// The text of `content` matching `old` once quotes are made straight.
pub fn find_actual_string(content: &str, old_string: &str) -> (r: Option<String>)
    ensures
        match r {
            Some(a) => actual_string(content@, old_string@) == Some(a@),
            None => actual_string(content@, old_string@) is None,
        },
{
    let nc = chars_of(normalize_quotes(content).as_str());
    let no = chars_of(normalize_quotes(old_string).as_str());
    match find(&nc, &no) {
        Some(k) => {
            let cv = chars_of(content);
            proof {
                let kk = choose|j: int| first_at(nc@, no@, j);
                assert(first_at(nc@, no@, k as int));
                if kk != k as int {
                    if kk < k as int {
                        assert(!occurs_at(nc@, no@, kk));
                    } else {
                        assert(!occurs_at(nc@, no@, k as int));
                    }
                }
            }
            let nlen = no.len();
            let clen = cv.len();
            assert(nc@.len() == cv@.len() && no@.len() == old_string@.len());
            assert(occurs_at(nc@, no@, k as int));
            assert(k + nlen <= clen);
            Some(string_of(&cv, k, k + nlen))
        },
        None => None,
    }
}

/// Non-overlapping occurrences of `p` in `s`.
pub fn count_occurrences(s: &str, p: &str) -> (n: usize)
    requires
        p@.len() > 0,
    ensures
        n == count_matches(s@, p@),
{
    let sv = chars_of(s);
    let pv = chars_of(p);
    let mut i: usize = 0;
    let mut n: usize = 0;
    assert(sv@.skip(0) =~= sv@);
    while i < sv.len()
        invariant
            i <= sv@.len(),
            pv@.len() > 0,
            n <= i,
            count_matches(s@, p@) == n + count_matches(sv@.skip(i as int), pv@),
            sv@ == s@,
            pv@ == p@,
        decreases sv@.len() - i,
    {
        let ghost rest = sv@.skip(i as int);
        if crate::text::occurs_at_exec(&sv, &pv, i) {
            assert(rest.subrange(0, pv@.len() as int) =~= sv@.subrange(i as int, i + pv@.len()));
            assert(rest.skip(pv@.len() as int) =~= sv@.skip(i + pv@.len()));
            n += 1;
            i += pv.len();
        } else {
            proof {
                if pv@.len() <= rest.len() {
                    assert(rest.subrange(0, pv@.len() as int) =~= sv@.subrange(i as int, i + pv@.len()));
                }
            }
            assert(rest.drop_first() =~= sv@.skip(i + 1));
            i += 1;
        }
    }
    n
}

/// `s` with its first occurrence of `p` replaced by `t`.
pub fn replace_once(s: &str, p: &str, t: &str) -> (out: String)
    requires
        p@.len() > 0,
    ensures
        out@ == replace_first(s@, p@, t@),
{
    let sv = chars_of(s);
    let pv = chars_of(p);
    let mut out = String::new();
    let mut i: usize = 0;
    assert(sv@.skip(0) =~= sv@);
    while i < sv.len() && !crate::text::occurs_at_exec(&sv, &pv, i)
        invariant
            i <= sv@.len(),
            pv@.len() > 0,
            sv@ == s@,
            pv@ == p@,
            out@ == sv@.take(i as int),
            replace_first(s@, p@, t@) == out@ + replace_first(sv@.skip(i as int), pv@, t@),
        decreases sv@.len() - i,
    {
        let ghost rest = sv@.skip(i as int);
        proof {
            if pv@.len() <= rest.len() {
                assert(rest.subrange(0, pv@.len() as int) =~= sv@.subrange(i as int, i + pv@.len()));
            }
        }
        assert(rest.drop_first() =~= sv@.skip(i + 1));
        crate::text::push_char(&mut out, sv[i]);
        assert(sv@.take(i + 1) =~= sv@.take(i as int).push(sv@[i as int]));
        assert(out@ + replace_first(sv@.skip(i + 1), pv@, t@) =~= sv@.take(i as int) + (seq![sv@[i as int]]
            + replace_first(rest.drop_first(), pv@, t@)));
        i += 1;
    }
    let ghost rest = sv@.skip(i as int);
    if i < sv.len() {
        assert(rest.subrange(0, pv@.len() as int) =~= sv@.subrange(i as int, i + pv@.len()));
        push_str(&mut out, t);
        let tail = string_of(&sv, i + pv.len(), sv.len());
        assert(rest.skip(pv@.len() as int) =~= sv@.subrange(i + pv@.len(), sv@.len() as int));
        push_str(&mut out, tail.as_str());
    } else {
        assert(rest.len() == 0);
        assert(sv@.take(i as int) =~= sv@);
    }
    out
}

// ─── Deciding the edit ─────────────────────────────────────────────────────

/// What to do with the file.
pub enum EditPlan {
    /// Write `content`; the edit made `replacements` replacements.
    Write { content: String, replacements: usize },
    /// Leave the file; answer with this output.
    Refuse(ToolOutput),
}

/// The new content and replacement count for `old` → `new` in `content`,
/// or the error text; `path` names the file.
pub open spec fn edit_plan(
    path: Seq<char>,
    content: Seq<char>,
    old: Seq<char>,
    new: Seq<char>,
    all: bool,
) -> Result<(Seq<char>, nat), Seq<char>> {
    let occ = count_matches(content, old);
    if occ == 0 {
        let norm = count_matches(normalize_quotes_spec(content), normalize_quotes_spec(old));
        if norm > 0 {
            match actual_string(content, old) {
                Some(a) => Ok(
                    (
                        if all { replace_all(content, a, new) } else { replace_first(content, a, new) },
                        if all { norm } else { 1 },
                    ),
                ),
                None => Err(
                    "old_string not found exactly, but "@ + decimal(norm)
                        + " match(es) found after normalizing curly quotes. Use straight quotes."@,
                ),
            }
        } else {
            Err(
                "old_string not found in "@ + path
                    + ". Make sure it matches exactly. The file may have been modified since you last read it."@,
            )
        }
    } else if occ > 1 && !all {
        Err("old_string found "@ + decimal(occ) + " times in "@ + path + ". Use replace_all: true or add more context."@)
    } else {
        Ok(
            (
                if all { replace_all(content, old, new) } else { replace_first(content, old, new) },
                if all { occ } else { 1 },
            ),
        )
    }
}

impl EditTool {
    /// Decides the edit of a file holding `content`, shown as `path` (see
    /// `edit_plan`).
    pub fn plan(path: &str, content: &str, req: &EditRequest) -> (p: EditPlan)
        requires
            req.old_string@.len() > 0,
        ensures
            match edit_plan(path@, content@, req.old_string@, req.new_string@, req.replace_all) {
                Ok((c, n)) => p matches EditPlan::Write { content: x, replacements: m } && x@ == c && m == n,
                Err(e) => p matches EditPlan::Refuse(o) && out_view(o) == error_view(e),
            },
    {
        let old = req.old_string.as_str();
        let new = req.new_string.as_str();
        let occ = count_occurrences(content, old);
        if occ == 0 {
            let nold = normalize_quotes(old);
            let ncontent = normalize_quotes(content);
            proof {
                assert(nold@.len() == old@.len());
            }
            let norm = count_occurrences(ncontent.as_str(), nold.as_str());
            if norm > 0 {
                match find_actual_string(content, old) {
                    Some(actual) => {
                        proof {
                            lemma_actual_len(content@, old@);
                        }
                        let c = if req.replace_all {
                            replace_str(content, actual.as_str(), new)
                        } else {
                            replace_once(content, actual.as_str(), new)
                        };
                        let n = if req.replace_all { norm } else { 1 };
                        return EditPlan::Write { content: c, replacements: n };
                    },
                    None => {
                        let mut m = "old_string not found exactly, but ".to_owned();
                        push_str(&mut m, decimal_string(norm as u64).as_str());
                        push_str(&mut m, " match(es) found after normalizing curly quotes. Use straight quotes.");
                        let o = ToolOutput::error(m.as_str());
                        assert(views(o.next_steps@) =~= Seq::<Seq<char>>::empty());
                        return EditPlan::Refuse(o);
                    },
                }
            }
            let mut m = "old_string not found in ".to_owned();
            push_str(&mut m, path);
            push_str(
                &mut m,
                ". Make sure it matches exactly. The file may have been modified since you last read it.",
            );
            let o = ToolOutput::error(m.as_str());
            assert(views(o.next_steps@) =~= Seq::<Seq<char>>::empty());
            return EditPlan::Refuse(o);
        }
        if occ > 1 && !req.replace_all {
            let mut m = "old_string found ".to_owned();
            push_str(&mut m, decimal_string(occ as u64).as_str());
            push_str(&mut m, " times in ");
            push_str(&mut m, path);
            push_str(&mut m, ". Use replace_all: true or add more context.");
            let o = ToolOutput::error(m.as_str());
            assert(views(o.next_steps@) =~= Seq::<Seq<char>>::empty());
            return EditPlan::Refuse(o);
        }
        let c = if req.replace_all { replace_str(content, old, new) } else { replace_once(content, old, new) };
        let n = if req.replace_all { occ } else { 1 };
        EditPlan::Write { content: c, replacements: n }
    }
}

/// The output of a successful edit of `path` with `n` replacements.
pub open spec fn success_view(path: Seq<char>, n: nat) -> OutV {
    OutV {
        is_error: false,
        summary: Some(decimal(n) + " replacement"@ + (if n == 1 { seq![] } else { "s"@ }) + " in "@ + path),
        body: BodyV::Text("The file "@ + path + " has been updated successfully."@),
        truncation: None,
        steps: seq!["Use Read to verify the edit applied as expected"@],
    }
}

/// The output after a successful edit of `path` with `replacements`
/// replacements.
pub fn success_output(path: &str, replacements: usize) -> (o: ToolOutput)
    ensures
        out_view(o) == success_view(path@, replacements as nat),
{
    let mut summary = decimal_string(replacements as u64);
    push_str(&mut summary, " replacement");
    if replacements != 1 {
        push_str(&mut summary, "s");
    } else {
        proof {
            reveal_strlit("");
        }
    }
    push_str(&mut summary, " in ");
    push_str(&mut summary, path);
    let mut text = "The file ".to_owned();
    push_str(&mut text, path);
    push_str(&mut text, " has been updated successfully.");
    let o = ToolOutput::success().with_summary(summary.as_str()).with_text(text.as_str()).with_next_step(
        "Use Read to verify the edit applied as expected",
    );
    assert(views(o.next_steps@) =~= seq!["Use Read to verify the edit applied as expected"@]);
    o
}


// ─── Before editing ────────────────────────────────────────────────────────

/// Files over this many bytes (1 GiB) are not edited.
pub const MAX_EDIT_SIZE: u64 = 1073741824;

impl EditTool {
    /// Whether a file of `file_bytes` bytes is over the edit limit.
    pub fn too_large(file_bytes: u64) -> (b: bool)
        ensures
            b == (file_bytes > MAX_EDIT_SIZE),
    {
        file_bytes > MAX_EDIT_SIZE
    }

    /// The error for a file over the limit; `size_mb` is its size in
    /// megabytes, as text.
    pub fn too_large_output(size_mb: &str) -> (o: ToolOutput)
        ensures
            out_view(o) == error_view("File too large ("@ + size_mb@ + " MB). Edit limited to files under 1 GB."@),
    {
        let mut m = "File too large (".to_owned();
        push_str(&mut m, size_mb);
        push_str(&mut m, " MB). Edit limited to files under 1 GB.");
        error_output(m)
    }

    /// The error for a path where nothing exists.
    pub fn not_found(path: &str) -> (o: ToolOutput)
        ensures
            out_view(o) == error_view(
                "File not found: "@ + path@ + ". Read it again before attempting to write it."@,
            ),
    {
        let mut m = "File not found: ".to_owned();
        push_str(&mut m, path);
        push_str(&mut m, ". Read it again before attempting to write it.");
        error_output(m)
    }

    /// The error for a failed read, with the system's message.
    pub fn read_failed(path: &str, err: &str) -> (o: ToolOutput)
        ensures
            out_view(o) == error_view("Failed to read "@ + path@ + ": "@ + err@),
    {
        let mut m = "Failed to read ".to_owned();
        push_str(&mut m, path);
        push_str(&mut m, ": ");
        push_str(&mut m, err);
        error_output(m)
    }
}


impl EditTool {
    /// The error for a failed write, with the system's message.
    pub fn write_failed(path: &str, err: &str) -> (o: ToolOutput)
        ensures
            out_view(o) == error_view("Failed to write "@ + path@ + ": "@ + err@),
    {
        let mut m = "Failed to write ".to_owned();
        push_str(&mut m, path);
        push_str(&mut m, ": ");
        push_str(&mut m, err);
        error_output(m)
    }
}

} // verus!
