//! Paths and strings handled safely: resolving a path against the working
//! directory without reaching into system directories, and cutting text at
//! a character boundary.

use vstd::prelude::*;
use crate::text::{blen, ends_with, push_str, starts_with, str_ends_with, str_starts_with};

verus! {

/// `path` resolved against `cwd` as `Path::join` does on Unix: an absolute
/// path stands alone; otherwise a `/` separates the two unless `cwd` is empty
/// or already ends with one.
pub open spec fn joined_path(path: Seq<char>, cwd: Seq<char>) -> Seq<char> {
    if starts_with(path, "/"@) {
        path
    } else if cwd.len() == 0 || ends_with(cwd, "/"@) {
        cwd + path
    } else {
        cwd + "/"@ + path
    }
}

/// `path` resolved against `cwd` (see `joined_path`).
pub fn join_path(path: &str, cwd: &str) -> (out: String)
    ensures
        out@ == joined_path(path@, cwd@),
{
    let mut out = String::new();
    if str_starts_with(path, "/") {
        push_str(&mut out, path);
    } else {
        push_str(&mut out, cwd);
        if !cwd.is_empty() && !str_ends_with(cwd, "/") {
            push_str(&mut out, "/");
        }
        push_str(&mut out, path);
    }
    out
}

/// Whether `p` lies under `/dev/`, `/proc/` or `/sys/`.
pub open spec fn is_system_path(p: Seq<char>) -> bool {
    starts_with(p, "/dev/"@) || starts_with(p, "/proc/"@) || starts_with(p, "/sys/"@)
}

/// Resolves `path` against `cwd` and refuses system paths. The result is
/// then made canonical against the file system: `canonical_plan` says how,
/// and `canonical_whole` or `canonical_in_parent` take what it answered.
pub fn resolve_and_validate(path: &str, cwd: &str) -> (r: Result<String, String>)
    ensures
        match r {
            Ok(p) => p@ == joined_path(path@, cwd@) && !is_system_path(p@),
            Err(e) => is_system_path(joined_path(path@, cwd@)) && e@ == "Access denied: "@
                + joined_path(path@, cwd@) + " is a system path"@,
        },
{
    let resolved = join_path(path, cwd);
    let p = resolved.as_str();
    if str_starts_with(p, "/dev/") || str_starts_with(p, "/proc/") || str_starts_with(p, "/sys/") {
        let mut e = "Access denied: ".to_owned();
        push_str(&mut e, p);
        push_str(&mut e, " is a system path");
        Err(e)
    } else {
        Ok(resolved)
    }
}

// ─── Canonical paths ───────────────────────────────────────────────────────

/// Names what `Path::parent` gives for `p`, as text: the path without its
/// last component, `None` for a root or an empty path.
pub uninterp spec fn path_parent_of(p: Seq<char>) -> Option<Seq<char>>;

/// Names what `Path::file_name` gives for `p`, as text: its last component,
/// `None` when that is `..` or there is none.
pub uninterp spec fn path_file_name_of(p: Seq<char>) -> Option<Seq<char>>;

/// `std::path::Path::parent`, displayed back as text. The contract only ties
/// the result to the name `path_parent_of`; how components are split is not
/// restated.
#[verifier::external_body]
fn parent_of(p: &str) -> (r: Option<String>)
    ensures
        match r {
            Some(t) => path_parent_of(p@) == Some(t@),
            None => path_parent_of(p@) is None,
        },
{
    std::path::Path::new(p).parent().map(|q| q.display().to_string())
}

/// `std::path::Path::file_name`, as text. The contract only ties the result
/// to the name `path_file_name_of`.
#[verifier::external_body]
fn file_name_of(p: &str) -> (r: Option<String>)
    ensures
        match r {
            Some(t) => path_file_name_of(p@) == Some(t@),
            None => path_file_name_of(p@) is None,
        },
{
    std::path::Path::new(p).file_name().map(|n| n.to_string_lossy().into_owned())
}

/// How a resolved path is made canonical against the file system.
pub enum Canonicalize {
    /// The path exists: canonicalise it whole.
    Whole,
    /// It does not: canonicalise `parent` where that exists and append
    /// `name`; where the parent does not exist either, the path stays.
    Parent { parent: String, name: String },
}

/// How to canonicalise `resolved` when it does not exist: through its parent
/// (`/` when it has none), keeping its last component; a path without one is
/// refused.
pub open spec fn canonical_plan_spec(resolved: Seq<char>) -> Result<(Seq<char>, Seq<char>), Seq<char>> {
    match path_file_name_of(resolved) {
        None => Err("Invalid file path: "@ + resolved),
        Some(n) => Ok(
            (
                match path_parent_of(resolved) {
                    Some(q) => q,
                    None => "/"@,
                },
                n,
            ),
        ),
    }
}

/// The first step of canonicalising a resolved, validated path: whole when
/// it exists, else through its parent.
pub fn canonical_plan(resolved: &str, exists: bool) -> (r: Result<Canonicalize, String>)
    ensures
        exists ==> r matches Ok(Canonicalize::Whole),
        !exists ==> match (r, canonical_plan_spec(resolved@)) {
            (Ok(Canonicalize::Parent { parent, name }), Ok((q, n))) => parent@ == q && name@ == n,
            (Err(e), Err(m)) => e@ == m,
            _ => false,
        },
{
    if exists {
        return Ok(Canonicalize::Whole);
    }
    let parent = match parent_of(resolved) {
        Some(q) => q,
        None => "/".to_owned(),
    };
    match file_name_of(resolved) {
        Some(name) => Ok(Canonicalize::Parent { parent, name }),
        None => {
            let mut e = "Invalid file path: ".to_owned();
            push_str(&mut e, resolved);
            Err(e)
        },
    }
}

/// The path once the file system canonicalised it whole; its error is
/// reported with the path.
pub fn canonical_whole(resolved: &str, canonical: Result<String, String>) -> (r: Result<String, String>)
    ensures
        match canonical {
            Ok(c) => r == Ok::<String, String>(c),
            Err(e) => r matches Err(m) && m@ == "Cannot resolve path "@ + resolved@ + ": "@ + e@,
        },
{
    match canonical {
        Ok(c) => Ok(c),
        Err(e) => {
            let mut m = "Cannot resolve path ".to_owned();
            push_str(&mut m, resolved);
            push_str(&mut m, ": ");
            push_str(&mut m, e.as_str());
            Err(m)
        },
    }
}

/// The path of a file that does not exist yet: `resolved` itself where the
/// parent does not exist either (`canonical_parent` is `None`), else the
/// canonical parent joined with `name`; the parent's error is reported with
/// the parent.
pub fn canonical_in_parent(resolved: &str, parent: &str, name: &str, canonical_parent: Option<Result<String, String>>) -> (r:
    Result<String, String>)
    ensures
        match canonical_parent {
            None => r matches Ok(p) && p@ == resolved@,
            Some(Ok(c)) => r matches Ok(p) && p@ == joined_path(name@, c@),
            Some(Err(e)) => r matches Err(m) && m@ == "Cannot resolve parent "@ + parent@ + ": "@ + e@,
        },
{
    match canonical_parent {
        None => Ok(resolved.to_owned()),
        Some(Ok(c)) => Ok(join_path(name, c.as_str())),
        Some(Err(e)) => {
            let mut m = "Cannot resolve parent ".to_owned();
            push_str(&mut m, parent);
            push_str(&mut m, ": ");
            push_str(&mut m, e.as_str());
            Err(m)
        },
    }
}

/// What `Path::strip_prefix` leaves of `path` once the leading components
/// `base` are taken off, `None` when `base` is not a prefix of `path`.
pub uninterp spec fn path_strip_prefix(path: Seq<char>, base: Seq<char>) -> Option<Seq<char>>;

/// `std::path::Path::strip_prefix`, displayed back as text: its result is
/// named by `path_strip_prefix`, a function of the two paths alone; how it
/// compares components is not restated.
#[verifier::external_body]
pub fn strip_path_prefix(path: &str, base: &str) -> (r: Option<String>)
    ensures
        match r {
            Some(t) => path_strip_prefix(path@, base@) == Some(t@),
            None => path_strip_prefix(path@, base@) is None,
        },
{
    std::path::Path::new(path).strip_prefix(base).ok().map(|p| p.display().to_string())
}

/// `path` relative to `cwd` when it lies under it, else `path` itself.
pub open spec fn relative_to(path: Seq<char>, cwd: Seq<char>) -> Seq<char> {
    match path_strip_prefix(path, cwd) {
        Some(r) => r,
        None => path,
    }
}

/// `path` relative to `cwd` when it lies under it, else `path` itself.
pub fn relativize(path: &str, cwd: &str) -> (out: String)
    ensures
        out@ == relative_to(path@, cwd@),
{
    match strip_path_prefix(path, cwd) {
        Some(r) => r,
        None => path.to_owned(),
    }
}

/// The last character boundary of `b` at or before `n`.
pub open spec fn last_boundary(b: Seq<u8>, n: int) -> int
    decreases n,
{
    if n <= 0 {
        0
    } else if vstd::utf8::is_char_boundary(b, n) {
        n
    } else {
        last_boundary(b, n - 1)
    }
}

pub proof fn lemma_last_boundary_le(b: Seq<u8>, n: int)
    ensures
        0 <= last_boundary(b, n),
        n >= 0 ==> last_boundary(b, n) <= n,
    decreases n,
{
    if n > 0 && !vstd::utf8::is_char_boundary(b, n) {
        lemma_last_boundary_le(b, n - 1);
    }
}

/// The characters of `s` that fit in its first `max_bytes` bytes: those up
/// to the last character boundary at or before `max_bytes`.
pub open spec fn cut_to_bytes(s: Seq<char>, max_bytes: nat) -> Seq<char> {
    let b = vstd::utf8::encode_utf8(s);
    vstd::utf8::decode_utf8(b.subrange(0, last_boundary(b, max_bytes as int)))
}

/// `s` cut to at most `max_bytes` bytes at a character boundary: whole when
/// it fits, else up to the last boundary at or before `max_bytes`.
pub fn safe_truncate(s: &str, max_bytes: usize) -> (r: &str)
    ensures
        blen(s@) <= max_bytes ==> r@ == s@,
        blen(s@) > max_bytes ==> vstd::utf8::encode_utf8(r@) == vstd::utf8::encode_utf8(s@).subrange(
            0,
            last_boundary(vstd::utf8::encode_utf8(s@), max_bytes as int),
        ),
        blen(s@) > max_bytes ==> r@ == cut_to_bytes(s@, max_bytes as nat),
        blen(r@) <= max_bytes,
        vstd::utf8::encode_utf8(s@).subrange(0, vstd::utf8::encode_utf8(r@).len() as int)
            == vstd::utf8::encode_utf8(r@),
{
    if s.len() <= max_bytes {
        assert(vstd::utf8::encode_utf8(s@).subrange(0, vstd::utf8::encode_utf8(s@).len() as int)
            =~= vstd::utf8::encode_utf8(s@));
        return s;
    }
    let mut end = max_bytes;
    while end > 0 && !s.is_char_boundary(end)
        invariant
            end <= max_bytes,
            last_boundary(vstd::utf8::encode_utf8(s@), max_bytes as int) == last_boundary(vstd::utf8::encode_utf8(s@), end as int),
        decreases end,
    {
        end -= 1;
    }
    proof {
        vstd::utf8::encode_utf8_valid_utf8(s@);
    }
    let (head, _) = s.split_at(end);
    proof {
        vstd::utf8::encode_utf8_decode_utf8(head@);
        lemma_last_boundary_le(vstd::utf8::encode_utf8(s@), max_bytes as int);
    }
    head
}

} // verus!
