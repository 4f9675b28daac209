//! Read: a file's lines, numbered, in a window given by an offset and a
//! limit. This module reads the call's arguments and renders the window of
//! the file's text; finding and reading the file is left to the caller.

use vstd::prelude::*;
use super::{error_output, Early};
use crate::path_safety::{cut_to_bytes, safe_truncate};
use crate::text::{blen, decimal, decimal_string, lines, push_str, split_lines, views};
use crate::tool_input::ToolInput;
use crate::tool_output::{error_view, out_view, BodyV, OutV, ToolBody, ToolOutput, Truncation};

verus! {

pub struct ReadTool;

/// What a Read call asks for.
pub struct ReadRequest {
    pub file_path: String,
    pub full: bool,
    pub offset: Option<u64>,
    pub limit: Option<u64>,
}

impl ReadTool {
    /// Reads the call's arguments; a missing `file_path` fails the call.
    pub fn request(input: &ToolInput) -> (r: Result<ReadRequest, Early>)
        ensures
            match r {
                Ok(q) => input.str_arg("file_path"@) == Some(q.file_path@) && q.full == match input.bool_arg(
                    "full"@,
                ) {
                    Some(b) => b,
                    None => false,
                } && q.offset == input.u64_arg("offset"@) && q.limit == input.u64_arg("limit"@),
                Err(Early::Fail(m)) => input.str_arg("file_path"@) is None && m@ == "Missing 'file_path' parameter"@,
                Err(Early::Output(_)) => false,
            },
    {
        let file_path = match input.get_str("file_path") {
            Some(p) => p.to_owned(),
            None => {
                return Err(Early::Fail("Missing 'file_path' parameter".to_owned()));
            },
        };
        let full = match input.get_bool("full") {
            Some(b) => b,
            None => false,
        };
        Ok(ReadRequest { file_path, full, offset: input.get_u64("offset"), limit: input.get_u64("limit") })
    }
}

/// `n` spaces.
pub open spec fn spaces(n: nat) -> Seq<char>
    decreases n,
{
    if n == 0 { seq![] } else { spaces((n - 1) as nat).push(' ') }
}

/// `s` right-aligned in five columns (`{:>5}`).
pub open spec fn pad5(s: Seq<char>) -> Seq<char> {
    if s.len() >= 5 { s } else { spaces((5 - s.len()) as nat) + s }
}

/// A line as shown: lines over 2000 bytes are cut at a character boundary
/// and marked.
pub open spec fn line_display(l: Seq<char>) -> Seq<char> {
    if blen(l) > 2000 { cut_to_bytes(l, 2000) + "... (truncated)"@ } else { l }
}

/// The numbered lines `ls`, the first numbered `start + 1`.
pub open spec fn window_text(ls: Seq<Seq<char>>, start: nat) -> Seq<char>
    decreases ls.len(),
{
    if ls.len() == 0 {
        seq![]
    } else {
        window_text(ls.drop_last(), start) + pad5(decimal(start + ls.len())) + "→"@ + line_display(ls.last())
            + "\n"@
    }
}

/// The output of reading a file of text `content` (of `file_bytes` bytes,
/// `size_kb` its size in KB as text) shown as `path`.
pub open spec fn read_view(
    path: Seq<char>,
    content: Seq<char>,
    file_bytes: u64,
    size_kb: Seq<char>,
    req: ReadRequest,
) -> OutV {
    let ls = lines(content);
    let total = ls.len();
    if total == 0 {
        OutV {
            is_error: false,
            summary: Some(path + ": empty file"@),
            body: BodyV::Empty(path + " is empty (0 lines, "@ + decimal(file_bytes as nat) + " bytes)."@),
            truncation: None,
            steps: seq![],
        }
    } else {
        let offset: nat = match req.offset {
            Some(o) => if o >= 1 { o as nat } else { 1 },
            None => 1,
        };
        let limit: nat = if req.full {
            total
        } else {
            match req.limit {
                Some(l) => l as nat,
                None => 2000,
            }
        };
        let start: nat = if offset - 1 < total { (offset - 1) as nat } else { total };
        let end: nat = if start + limit < total { start + limit } else { total };
        if start >= total {
            error_view("Offset "@ + decimal(offset) + " exceeds file length ("@ + decimal(total) + " lines)."@)
        } else {
            let truncated = end < total && !req.full;
            OutV {
                is_error: false,
                summary: Some(path + ": "@ + decimal(total) + " lines ("@ + size_kb + " KB)"@),
                body: BodyV::Text(window_text(ls.subrange(start as int, end as int), start)),
                truncation: if truncated {
                    Some(
                        (
                            (end - start) as nat,
                            total,
                            "lines"@,
                            "call Read again with offset="@ + decimal(end + 1)
                                + ", or full=true for the whole file"@,
                        ),
                    )
                } else {
                    None
                },
                steps: if truncated {
                    seq!["Read more with offset="@ + decimal(end + 1) + " limit=2000"@]
                } else {
                    seq![]
                },
            }
        }
    }
}

fn pad5_exec(s: &str) -> (out: String)
    ensures
        out@ == pad5(s@),
{
    let n = s.unicode_len();
    let mut out = String::new();
    if n < 5 {
        let mut k: usize = 0;
        while k < 5 - n
            invariant
                n < 5,
                k <= 5 - n,
                out@ == spaces(k as nat),
            decreases 5 - n - k,
        {
            crate::text::push_char(&mut out, ' ');
            k += 1;
        }
    }
    push_str(&mut out, s);
    out
}

fn display_line(l: &str) -> (out: String)
    ensures
        out@ == line_display(l@),
{
    if l.len() > 2000 {
        let mut out = safe_truncate(l, 2000).to_owned();
        push_str(&mut out, "... (truncated)");
        out
    } else {
        l.to_owned()
    }
}

impl ReadTool {
    /// The output for a file of text `content`, of `file_bytes` bytes and
    /// `size_kb` KB (as text), shown as `path` (see `read_view`).
    pub fn render_window(
        path: &str,
        content: &str,
        file_bytes: u64,
        size_kb: &str,
        req: &ReadRequest,
    ) -> (out: ToolOutput)
        ensures
            out_view(out) == read_view(path@, content@, file_bytes, size_kb@, *req),
    {
        let ls = split_lines(content);
        let ghost lv = views(ls@);
        let total = ls.len();
        if total == 0 {
            let mut reason = path.to_owned();
            push_str(&mut reason, " is empty (0 lines, ");
            push_str(&mut reason, decimal_string(file_bytes).as_str());
            push_str(&mut reason, " bytes).");
            let mut summary = path.to_owned();
            push_str(&mut summary, ": empty file");
            let o = ToolOutput::empty(reason.as_str()).with_summary(summary.as_str());
            assert(views(o.next_steps@) =~= Seq::<Seq<char>>::empty());
            return o;
        }
        let offset: u64 = match req.offset {
            Some(o) => if o >= 1 { o } else { 1 },
            None => 1,
        };
        let start: usize = if offset - 1 < total as u64 { (offset - 1) as usize } else { total };
        if start >= total {
            let mut m = "Offset ".to_owned();
            push_str(&mut m, decimal_string(offset).as_str());
            push_str(&mut m, " exceeds file length (");
            push_str(&mut m, decimal_string(total as u64).as_str());
            push_str(&mut m, " lines).");
            let o = ToolOutput::error(m.as_str());
            assert(views(o.next_steps@) =~= Seq::<Seq<char>>::empty());
            return o;
        }
        let room = total - start;
        let end: usize = if req.full {
            total
        } else {
            let limit: u64 = match req.limit {
                Some(l) => l,
                None => 2000,
            };
            if limit < room as u64 { start + limit as usize } else { total }
        };
        let mut rendered = String::new();
        let mut i = start;
        assert(lv.subrange(start as int, start as int) =~= Seq::<Seq<char>>::empty());
        while i < end
            invariant
                start <= i <= end <= total,
                total == ls@.len(),
                lv == views(ls@),
                rendered@ == window_text(lv.subrange(start as int, i as int), start as nat),
            decreases end - i,
        {
            let num = pad5_exec(decimal_string((i + 1) as u64).as_str());
            push_str(&mut rendered, num.as_str());
            push_str(&mut rendered, "→");
            push_str(&mut rendered, display_line(ls[i].as_str()).as_str());
            push_str(&mut rendered, "\n");
            proof {
                let w = lv.subrange(start as int, i + 1);
                assert(w.drop_last() =~= lv.subrange(start as int, i as int));
                assert(w.last() == ls@[i as int]@);
                assert(start + w.len() == i + 1);
            }
            i += 1;
        }
        let truncated = end < total && !req.full;
        let mut summary = path.to_owned();
        push_str(&mut summary, ": ");
        push_str(&mut summary, decimal_string(total as u64).as_str());
        push_str(&mut summary, " lines (");
        push_str(&mut summary, size_kb);
        push_str(&mut summary, " KB)");
        let mut output = ToolOutput::success().with_summary(summary.as_str()).with_body(ToolBody::Text(rendered));
        if truncated {
            let next = decimal_string((end + 1) as u64);
            let mut how = "call Read again with offset=".to_owned();
            push_str(&mut how, next.as_str());
            push_str(&mut how, ", or full=true for the whole file");
            let mut step = "Read more with offset=".to_owned();
            push_str(&mut step, next.as_str());
            push_str(&mut step, " limit=2000");
            output = output.with_truncation(
                Truncation { shown: end - start, total, unit: "lines", how_to_see_more: how },
            ).with_next_step(step.as_str());
            proof {
                reveal_strlit("lines");
            }
        }
        assert(views(output.next_steps@) =~= read_view(path@, content@, file_bytes, size_kb@, *req).steps);
        output
    }
}


// ─── The window ────────────────────────────────────────────────────────────

/// Line `l` as the window shows it, numbered `n`.
pub open spec fn numbered_line(n: nat, l: Seq<char>) -> Seq<char> {
    pad5(decimal(n)) + "→"@ + line_display(l) + "\n"@
}

/// A window begins with its first line, numbered one past `start`, and goes
/// on with the rest numbered from there.
pub proof fn law_window_numbers_in_order(ls: Seq<Seq<char>>, start: nat)
    requires
        ls.len() > 0,
    ensures
        window_text(ls, start) == numbered_line(start + 1, ls[0]) + window_text(ls.drop_first(), start + 1),
    decreases ls.len(),
{
    if ls.len() == 1 {
        assert(ls.drop_last() =~= Seq::<Seq<char>>::empty());
        assert(ls.drop_first() =~= Seq::<Seq<char>>::empty());
        assert(window_text(ls.drop_last(), start) == Seq::<char>::empty());
        assert(window_text(ls.drop_first(), start + 1) == Seq::<char>::empty());
        assert(ls.last() == ls[0]);
        assert(window_text(ls, start) =~= numbered_line(start + 1, ls[0]));
    } else {
        let p = ls.drop_last();
        law_window_numbers_in_order(p, start);
        assert(p.drop_first() =~= ls.drop_first().drop_last());
        assert(ls.drop_first().last() == ls.last());
        assert(window_text(ls.drop_first(), start + 1) == window_text(p.drop_first(), start + 1) + numbered_line(
            start + 1 + ls.drop_first().len(),
            ls.last(),
        ));
        assert(window_text(ls, start) == window_text(p, start) + numbered_line(start + ls.len(), ls.last()));
        assert(window_text(ls, start) =~= numbered_line(start + 1, ls[0]) + window_text(ls.drop_first(), start + 1));
    }
}

/// The lines a read shows: from line `offset` (1 unless given), as many as
/// the limit allows (2000 unless given) and the file still has; the first
/// is numbered `offset`. A window that stops before the end reports how
/// many lines it shows out of how many.
pub proof fn law_read_window(path: Seq<char>, content: Seq<char>, file_bytes: u64, size_kb: Seq<char>, req: ReadRequest)
    requires
        !req.full,
        ({
            let o: nat = match req.offset {
                Some(o) => if o >= 1 { o as nat } else { 1 },
                None => 1,
            };
            o - 1 < lines(content).len()
        }),
    ensures
        ({
            let ls = lines(content);
            let total = ls.len();
            let o: nat = match req.offset {
                Some(o) => if o >= 1 { o as nat } else { 1 },
                None => 1,
            };
            let l: nat = match req.limit {
                Some(l) => l as nat,
                None => 2000,
            };
            let start = (o - 1) as nat;
            let n: nat = if l < total - start { l } else { (total - start) as nat };
            let v = read_view(path, content, file_bytes, size_kb, req);
            &&& !v.is_error
            &&& v.body == BodyV::Text(window_text(ls.subrange(start as int, (start + n) as int), start))
            &&& n > 0 ==> window_text(ls.subrange(start as int, (start + n) as int), start) == numbered_line(o, ls[start as int])
                + window_text(ls.subrange((start + 1) as int, (start + n) as int), o)
            &&& (v.truncation is Some <==> start + n < total)
            &&& v.truncation matches Some(t) ==> t.0 == n && t.1 == total
        }),
{
    let ls = lines(content);
    let o: nat = match req.offset {
        Some(o) => if o >= 1 { o as nat } else { 1 },
        None => 1,
    };
    let l: nat = match req.limit {
        Some(l) => l as nat,
        None => 2000,
    };
    let start = (o - 1) as nat;
    let n: nat = if l < ls.len() - start { l } else { (ls.len() - start) as nat };
    if n > 0 {
        let w = ls.subrange(start as int, (start + n) as int);
        law_window_numbers_in_order(w, start);
        assert(w.drop_first() =~= ls.subrange((start + 1) as int, (start + n) as int));
    }
}

/// With `full`, a read shows every line from the offset to the end, and
/// reports nothing cut off; an offset past the last line is an error; an
/// empty file is reported empty, not as an error.
pub proof fn law_read_full_and_bounds(path: Seq<char>, content: Seq<char>, file_bytes: u64, size_kb: Seq<char>, req: ReadRequest)
    ensures
        ({
            let ls = lines(content);
            let total = ls.len();
            let o: nat = match req.offset {
                Some(o) => if o >= 1 { o as nat } else { 1 },
                None => 1,
            };
            let v = read_view(path, content, file_bytes, size_kb, req);
            &&& (total > 0 && req.full && o - 1 < total) ==> {
                &&& !v.is_error
                &&& v.body == BodyV::Text(window_text(ls.subrange(o - 1, total as int), (o - 1) as nat))
                &&& v.truncation is None
                &&& v.steps.len() == 0
            }
            &&& (total > 0 && o - 1 >= total) ==> v.is_error
            &&& total == 0 ==> !v.is_error && v.body is Empty
        }),
{
}

// ─── Before reading ────────────────────────────────────────────────────────

/// Files over this many bytes (256 MiB) are not read.
pub const MAX_READ_SIZE: u64 = 268435456;

impl ReadTool {
    /// Whether a file of `file_bytes` bytes is over the read limit.
    pub fn too_large(file_bytes: u64) -> (b: bool)
        ensures
            b == (file_bytes > MAX_READ_SIZE),
    {
        file_bytes > MAX_READ_SIZE
    }

    /// The error for a file over the limit; `size_mb` is its size in
    /// megabytes, as text.
    pub fn too_large_output(size_mb: &str) -> (o: ToolOutput)
        ensures
            out_view(o) == error_view(
                "File too large ("@ + size_mb@ + " MB). Use offset/limit or Bash with 'head'/'tail'."@,
            ),
    {
        let mut m = "File too large (".to_owned();
        push_str(&mut m, size_mb);
        push_str(&mut m, " MB). Use offset/limit or Bash with 'head'/'tail'.");
        error_output(m)
    }

    /// The error for a path where nothing exists.
    pub fn not_found(path: &str) -> (o: ToolOutput)
        ensures
            out_view(o) == error_view("File not found: "@ + path@),
    {
        let mut m = "File not found: ".to_owned();
        push_str(&mut m, path);
        error_output(m)
    }

    /// The error for a path that names a directory.
    pub fn is_directory(path: &str) -> (o: ToolOutput)
        ensures
            out_view(o) == error_view(
                path@ + " is a directory, not a file. Use Bash with 'ls' to list directory contents."@,
            ),
    {
        let mut m = path.to_owned();
        push_str(&mut m, " is a directory, not a file. Use Bash with 'ls' to list directory contents.");
        error_output(m)
    }

    /// The error for a file whose bytes are not text.
    pub fn binary_file(path: &str) -> (o: ToolOutput)
        ensures
            out_view(o) == error_view(path@ + " appears to be a binary file and cannot be read as text."@),
    {
        let mut m = path.to_owned();
        push_str(&mut m, " appears to be a binary file and cannot be read as text.");
        error_output(m)
    }

    /// The error for any other failed read, with the system's message.
    pub fn read_failed(path: &str, err: &str) -> (o: ToolOutput)
        ensures
            out_view(o) == error_view("Failed to read "@ + path@ + ": "@ + err@),
    {
        let mut m = "Failed to read ".to_owned();
        push_str(&mut m, path);
        push_str(&mut m, ": ");
        push_str(&mut m, err);
        error_output(m)
    }
}

} // verus!
