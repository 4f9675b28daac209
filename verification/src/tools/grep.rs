//! Grep: a regex search over files with ripgrep. This module reads the
//! call's arguments, builds ripgrep's command line, and shapes its output
//! (paths relative to the working directory, paging, tables, a byte cap).

use vstd::prelude::*;
use super::Early;
use crate::path_safety::{cut_to_bytes, joined_path, safe_truncate};
use crate::text::{
    blen, debug_quote, debug_str, decimal, decimal_string, idx_of, index_of_char, join, lines,
    push_joined, push_str, replace_all, replace_str, split_lines, starts_with, str_eq,
    str_starts_with, string_of, chars_of, trim, trim_str, views,
};
use crate::tool_input::ToolInput;
use crate::tool_output::{
    error_view, empty_view, lemma_render_view, out_view, render_output, render_view, BodyV, OutV,
    ToolBody, ToolOutput, Truncation,
};
use crate::toon::ToonValue;

verus! {

pub struct GrepTool;

/// A search to run, read from the call's arguments.
pub struct GrepRequest {
    pub pattern: String,
    pub full: bool,
    pub search_path: String,
    pub glob: Option<String>,
    pub file_type: Option<String>,
    pub output_mode: String,
    pub context: u64,
    pub before: u64,
    pub after: u64,
    pub case_insensitive: bool,
    pub line_numbers: bool,
    pub head_limit: u64,
    pub offset: u64,
    pub multiline: bool,
}

/// How running ripgrep went.
pub enum RgOutcome {
    SpawnFailed(String),
    TimedOut,
    /// It ran; stdout and stderr are decoded as UTF-8, lossily.
    Exited { code: Option<i32>, success: bool, stdout: String, stderr: String },
}

pub open spec fn or_else<T>(o: Option<T>, d: T) -> T {
    match o {
        Some(x) => x,
        None => d,
    }
}

pub open spec fn opt_view(o: Option<String>) -> Option<Seq<char>> {
    match o {
        Some(s) => Some(s@),
        None => None,
    }
}

/// The request the arguments describe; `None` when `pattern` is missing.
pub open spec fn request_ok(r: GrepRequest, input: ToolInput, cwd: Seq<char>) -> bool {
    let full = or_else(input.bool_arg("full"@), false);
    &&& input.str_arg("pattern"@) == Some(r.pattern@)
    &&& r.full == full
    &&& r.search_path@ == match input.str_arg("path"@) {
        Some(p) => joined_path(p, cwd),
        None => cwd,
    }
    &&& opt_view(r.glob) == input.str_arg("glob"@)
    &&& opt_view(r.file_type) == input.str_arg("type"@)
    &&& r.output_mode@ == or_else(input.str_arg("output_mode"@), "files_with_matches"@)
    &&& r.context == or_else(input.u64_arg("context"@), or_else(input.u64_arg("-C"@), 0))
    &&& r.before == or_else(input.u64_arg("-B"@), 0)
    &&& r.after == or_else(input.u64_arg("-A"@), 0)
    &&& r.case_insensitive == or_else(input.bool_arg("-i"@), false)
    &&& r.line_numbers == or_else(input.bool_arg("-n"@), true)
    &&& r.head_limit == if full { 0 } else { or_else(input.u64_arg("head_limit"@), 250) }
    &&& r.offset == or_else(input.u64_arg("offset"@), 0)
    &&& r.multiline == or_else(input.bool_arg("multiline"@), false)
}

fn str_or(o: Option<&str>, d: &str) -> (r: String)
    ensures
        r@ == match o {
            Some(s) => s@,
            None => d@,
        },
{
    match o {
        Some(s) => s.to_owned(),
        None => d.to_owned(),
    }
}

fn owned_opt(o: Option<&str>) -> (r: Option<String>)
    ensures
        opt_view(r) == match o {
            Some(s) => Some(s@),
            None => None,
        },
{
    match o {
        Some(s) => Some(s.to_owned()),
        None => None,
    }
}

impl GrepTool {
    /// Reads the search from the call's arguments: a missing `pattern`
    /// fails the call, an empty one is answered with an error.
    pub fn request(input: &ToolInput, cwd: &str) -> (r: Result<GrepRequest, Early>)
        ensures
            match r {
                Ok(req) => request_ok(req, *input, cwd@) && req.pattern@.len() > 0,
                Err(Early::Fail(m)) => input.str_arg("pattern"@) is None && m@
                    == "Missing 'pattern' parameter"@,
                Err(Early::Output(o)) => input.str_arg("pattern"@) == Some(Seq::<char>::empty())
                    && out_view(o) == error_view("Pattern cannot be empty"@),
            },
    {
        let pattern = match input.get_str("pattern") {
            Some(p) => p,
            None => {
                return Err(Early::Fail("Missing 'pattern' parameter".to_owned()));
            },
        };
        if pattern.is_empty() {
            let o = ToolOutput::error("Pattern cannot be empty");
            assert(views(o.next_steps@) =~= Seq::<Seq<char>>::empty());
            return Err(Early::Output(o));
        }
        let full = match input.get_bool("full") {
            Some(b) => b,
            None => false,
        };
        let search_path = match input.get_str("path") {
            Some(p) => crate::path_safety::join_path(p, cwd),
            None => cwd.to_owned(),
        };
        let context = match input.get_u64("context") {
            Some(n) => n,
            None => match input.get_u64("-C") {
                Some(n) => n,
                None => 0,
            },
        };
        let head_limit = if full {
            0
        } else {
            match input.get_u64("head_limit") {
                Some(n) => n,
                None => 250,
            }
        };
        Ok(
            GrepRequest {
                pattern: pattern.to_owned(),
                full,
                search_path,
                glob: owned_opt(input.get_str("glob")),
                file_type: owned_opt(input.get_str("type")),
                output_mode: str_or(input.get_str("output_mode"), "files_with_matches"),
                context,
                before: match input.get_u64("-B") {
                    Some(n) => n,
                    None => 0,
                },
                after: match input.get_u64("-A") {
                    Some(n) => n,
                    None => 0,
                },
                case_insensitive: match input.get_bool("-i") {
                    Some(b) => b,
                    None => false,
                },
                line_numbers: match input.get_bool("-n") {
                    Some(b) => b,
                    None => true,
                },
                head_limit,
                offset: match input.get_u64("offset") {
                    Some(n) => n,
                    None => 0,
                },
                multiline: match input.get_bool("multiline") {
                    Some(b) => b,
                    None => false,
                },
            },
        )
    }
}

// ─── The command line ──────────────────────────────────────────────────────

pub open spec fn mode_args(r: GrepRequest) -> Seq<Seq<char>> {
    if r.output_mode@ == "files_with_matches"@ {
        seq!["--files-with-matches"@, "--sort=modified"@]
    } else if r.output_mode@ == "count"@ {
        seq!["--count"@]
    } else {
        (if r.line_numbers { seq!["--line-number"@] } else { seq![] }) + if r.context > 0 {
            seq!["-C"@, decimal(r.context as nat)]
        } else {
            (if r.before > 0 { seq!["-B"@, decimal(r.before as nat)] } else { seq![] }) + (if r.after
                > 0 {
                seq!["-A"@, decimal(r.after as nat)]
            } else {
                seq![]
            })
        }
    }
}

/// ripgrep's arguments for a request.
pub open spec fn rg_args_spec(r: GrepRequest) -> Seq<Seq<char>> {
    seq!["--no-heading"@, "--max-columns"@, "500"@, "--max-columns-preview"@] + mode_args(r) + tail_args(r)
}

fn push_arg(args: &mut Vec<String>, a: &str)
    ensures
        views(final(args)@) == views(old(args)@).push(a@),
{
    args.push(a.to_owned());
    assert(views(args@) =~= views(old(args)@).push(a@));
}

fn push_mode_args(args: &mut Vec<String>, req: &GrepRequest)
    ensures
        views(final(args)@) == views(old(args)@) + mode_args(*req),
{
    let mode = req.output_mode.as_str();
    if str_eq(mode, "files_with_matches") {
        push_arg(args, "--files-with-matches");
        push_arg(args, "--sort=modified");
        assert(views(args@) =~= views(old(args)@) + mode_args(*req));
    } else if str_eq(mode, "count") {
        push_arg(args, "--count");
        assert(views(args@) =~= views(old(args)@) + mode_args(*req));
    } else {
        if req.line_numbers {
            push_arg(args, "--line-number");
        }
        let ghost mid = views(args@);
        assert(mid =~= views(old(args)@) + (if req.line_numbers { seq!["--line-number"@] } else { seq![] }));
        if req.context > 0 {
            push_arg(args, "-C");
            push_arg(args, decimal_string(req.context).as_str());
            assert(views(args@) =~= mid + seq!["-C"@, decimal(req.context as nat)]);
        } else {
            let ghost m0 = views(args@);
            if req.before > 0 {
                push_arg(args, "-B");
                push_arg(args, decimal_string(req.before).as_str());
            }
            let ghost m1 = views(args@);
            assert(m1 =~= m0 + (if req.before > 0 { seq!["-B"@, decimal(req.before as nat)] } else { seq![] }));
            if req.after > 0 {
                push_arg(args, "-A");
                push_arg(args, decimal_string(req.after).as_str());
            }
            assert(views(args@) =~= m1 + (if req.after > 0 { seq!["-A"@, decimal(req.after as nat)] } else { seq![] }));
        }
        assert(views(args@) =~= views(old(args)@) + mode_args(*req));
    }
}

/// The filter and pattern arguments, after the output-mode ones.
pub open spec fn tail_args(r: GrepRequest) -> Seq<Seq<char>> {
    (if r.case_insensitive { seq!["-i"@] } else { seq![] }) + (if r.multiline {
        seq!["-U"@, "--multiline-dotall"@]
    } else {
        seq![]
    }) + match r.glob {
        Some(g) => seq!["--glob"@, g@],
        None => seq![],
    } + match r.file_type {
        Some(t) => seq!["--type"@, t@],
        None => seq![],
    } + (if starts_with(r.pattern@, "-"@) { seq!["-e"@] } else { seq![] }) + seq![
        r.pattern@,
        r.search_path@,
    ]
}

/// The case, multiline and filter arguments.
pub open spec fn filter_args(r: GrepRequest) -> Seq<Seq<char>> {
    (if r.case_insensitive { seq!["-i"@] } else { seq![] }) + (if r.multiline {
        seq!["-U"@, "--multiline-dotall"@]
    } else {
        seq![]
    }) + match r.glob {
        Some(g) => seq!["--glob"@, g@],
        None => seq![],
    } + match r.file_type {
        Some(t) => seq!["--type"@, t@],
        None => seq![],
    }
}

/// The pattern (after `-e` when it starts with `-`) and the path.
pub open spec fn pattern_args(r: GrepRequest) -> Seq<Seq<char>> {
    (if starts_with(r.pattern@, "-"@) { seq!["-e"@] } else { seq![] }) + seq![r.pattern@, r.search_path@]
}

fn push_filter_args(args: &mut Vec<String>, req: &GrepRequest)
    ensures
        views(final(args)@) == views(old(args)@) + filter_args(*req),
{
    let ghost a0 = views(args@);
    if req.case_insensitive {
        push_arg(args, "-i");
    }
    let ghost a1 = views(args@);
    assert(a1 =~= a0 + (if req.case_insensitive { seq!["-i"@] } else { seq![] }));
    if req.multiline {
        push_arg(args, "-U");
        push_arg(args, "--multiline-dotall");
    }
    let ghost a2 = views(args@);
    assert(a2 =~= a1 + (if req.multiline { seq!["-U"@, "--multiline-dotall"@] } else { seq![] }));
    match &req.glob {
        Some(g) => {
            push_arg(args, "--glob");
            push_arg(args, g.as_str());
        },
        None => {},
    }
    let ghost a3 = views(args@);
    assert(a3 =~= a2 + match req.glob {
        Some(g) => seq!["--glob"@, g@],
        None => seq![],
    });
    match &req.file_type {
        Some(t) => {
            push_arg(args, "--type");
            push_arg(args, t.as_str());
        },
        None => {},
    }
    assert(views(args@) =~= a3 + match req.file_type {
        Some(t) => seq!["--type"@, t@],
        None => seq![],
    });
    assert(views(args@) =~= a0 + filter_args(*req));
}

fn push_pattern_args(args: &mut Vec<String>, req: &GrepRequest)
    ensures
        views(final(args)@) == views(old(args)@) + pattern_args(*req),
{
    let ghost a0 = views(args@);
    if str_starts_with(req.pattern.as_str(), "-") {
        push_arg(args, "-e");
    }
    let ghost a1 = views(args@);
    assert(a1 =~= a0 + (if starts_with(req.pattern@, "-"@) { seq!["-e"@] } else { seq![] }));
    push_arg(args, req.pattern.as_str());
    push_arg(args, req.search_path.as_str());
    assert(views(args@) =~= a0 + pattern_args(*req));
}

fn push_tail_args(args: &mut Vec<String>, req: &GrepRequest)
    ensures
        views(final(args)@) == views(old(args)@) + tail_args(*req),
{
    let ghost a0 = views(args@);
    push_filter_args(args, req);
    push_pattern_args(args, req);
    assert(tail_args(*req) =~= filter_args(*req) + pattern_args(*req));
    assert(views(args@) =~= a0 + tail_args(*req));
}

impl GrepTool {
    /// ripgrep's command-line arguments for `req` (see `rg_args_spec`).
    pub fn rg_args(req: &GrepRequest) -> (args: Vec<String>)
        ensures
            views(args@) == rg_args_spec(*req),
    {
        let mut args: Vec<String> = Vec::new();
        push_arg(&mut args, "--no-heading");
        push_arg(&mut args, "--max-columns");
        push_arg(&mut args, "500");
        push_arg(&mut args, "--max-columns-preview");
        let ghost base = views(args@);
        assert(base =~= seq!["--no-heading"@, "--max-columns"@, "500"@, "--max-columns-preview"@]);
        push_mode_args(&mut args, req);
        push_tail_args(&mut args, req);
        assert(views(args@) =~= rg_args_spec(*req));
        args
    }
}

// ─── Shaping the result ────────────────────────────────────────────────────

/// A content line `file:line:text` split into its three columns (`splitn(3,
/// ':')`); missing columns are empty.
pub open spec fn content_cells(l: Seq<char>) -> Seq<Seq<char>> {
    let k1 = idx_of(l, ':');
    if k1 >= l.len() {
        seq![l, Seq::<char>::empty(), Seq::<char>::empty()]
    } else {
        let rest = l.skip(k1 + 1);
        let k2 = idx_of(rest, ':');
        if k2 >= rest.len() {
            seq![l.take(k1), rest, Seq::<char>::empty()]
        } else {
            seq![l.take(k1), rest.take(k2), rest.skip(k2 + 1)]
        }
    }
}

pub open spec fn file_rows(ls: Seq<Seq<char>>) -> Seq<Seq<Seq<char>>> {
    ls.map_values(|l: Seq<char>| seq![l])
}

pub open spec fn content_rows(ls: Seq<Seq<char>>) -> Seq<Seq<Seq<char>>> {
    ls.map_values(|l: Seq<char>| content_cells(l))
}

/// The output for result lines `ls` of a finished search.
pub open spec fn listing_view(r: GrepRequest, ls: Seq<Seq<char>>) -> OutV {
    let sliced = ls.skip(r.offset as int);
    let avail = sliced.len();
    let shown: nat = if r.head_limit > 0 && (r.head_limit as nat) < avail { r.head_limit as nat } else { avail };
    let shown_lines = sliced.take(shown as int);
    let mode = r.output_mode@;
    let body = if mode == "files_with_matches"@ {
        BodyV::Table { key: "files"@, columns: seq!["path"@], rows: file_rows(shown_lines) }
    } else if mode == "content"@ && r.line_numbers {
        BodyV::Table {
            key: "matches"@,
            columns: seq!["file"@, "line"@, "text"@],
            rows: content_rows(shown_lines),
        }
    } else {
        BodyV::Text(join(shown_lines, "\n"@))
    };
    let truncated = !r.full && shown < avail;
    let summary = if mode == "files_with_matches"@ {
        decimal(shown) + " file(s) with matches"@
    } else if mode == "count"@ {
        decimal(shown) + " file(s) reported match counts"@
    } else {
        decimal(shown) + " match line(s)"@
    };
    let steps = (if truncated {
        seq!["Pass full=true, or raise head_limit, or bump offset"@]
    } else {
        seq![]
    }) + if mode != "files_with_matches"@ {
        seq!["Switch output_mode=files_with_matches for a file list"@]
    } else {
        seq![]
    };
    OutV {
        is_error: false,
        summary: Some(summary),
        body,
        truncation: if truncated {
            Some((shown, avail, "lines"@, "raise head_limit, bump offset, or pass full=true"@))
        } else {
            None
        },
        steps,
    }
}

/// A listing whose rendering is over 20000 bytes, replaced by its rendering
/// cut to 20000 bytes.
pub open spec fn capped_view(v: OutV) -> OutV {
    let text = render_view(v);
    if blen(text) > 20000 {
        OutV {
            is_error: false,
            summary: Some("Grep (bytes-capped): "@ + decimal(blen(text)) + " total bytes"@),
            body: BodyV::Text(cut_to_bytes(text, 20000)),
            truncation: Some((20000, blen(text), "bytes"@, "narrow the regex or filter with glob/type"@)),
            steps: seq![],
        }
    } else {
        v
    }
}

/// The output of a search.
pub open spec fn grep_view(r: GrepRequest, outcome: RgOutcome, cwd: Seq<char>) -> OutV {
    match outcome {
        RgOutcome::SpawnFailed(e) => error_view(
            "Search command failed: "@ + e@ + ". Is ripgrep (rg) installed?"@,
        ),
        RgOutcome::TimedOut => error_view("Search timed out after 30s. Try a more specific pattern or path."@),
        RgOutcome::Exited { code, success, stdout, stderr } => {
            if code == Some(1i32) && stdout@.len() == 0 {
                OutV {
                    is_error: false,
                    summary: Some("0 matches for "@ + debug_str(r.pattern@)),
                    body: BodyV::Empty("No matches for "@ + debug_str(r.pattern@)),
                    truncation: None,
                    steps: seq!["Broaden the regex, try case-insensitive (-i), or search a wider path"@],
                }
            } else if !success && code != Some(1i32) {
                error_view(
                    "Search failed: "@ + if stderr@.len() == 0 {
                        "unknown error"@
                    } else {
                        trim(stderr@)
                    },
                )
            } else {
                let result = replace_all(trim(stdout@), cwd + "/"@, seq![]);
                if result.len() == 0 {
                    empty_view("No matches for "@ + debug_str(r.pattern@))
                } else {
                    let ls = lines(result);
                    if r.offset >= ls.len() && ls.len() > 0 {
                        empty_view(
                            "No results at offset "@ + decimal(r.offset as nat) + " (total: "@ + decimal(
                                ls.len(),
                            ) + ")"@,
                        )
                    } else {
                        capped_view(listing_view(r, ls))
                    }
                }
            }
        },
    }
}

/// Splits a content line into its three columns.
pub fn parse_content_line(line: &str) -> (cells: Vec<String>)
    ensures
        views(cells@) == content_cells(line@),
{
    let v = chars_of(line);
    let k1 = index_of_char(&v, ':', 0);
    assert(v@.skip(0) =~= v@);
    let mut cells: Vec<String> = Vec::new();
    if k1 == v.len() {
        cells.push(string_from_all(&v));
        cells.push(String::new());
        cells.push(String::new());
    } else {
        let k2 = index_of_char(&v, ':', k1 + 1);
        proof {
            crate::text::lemma_idx_of_bounds(v@, ':');
        }
        cells.push(string_of(&v, 0, k1));
        let ghost rest = v@.skip(k1 + 1);
        assert(v@.take(k1 as int) =~= v@.subrange(0, k1 as int));
        if k2 == v.len() {
            cells.push(string_of(&v, k1 + 1, v.len()));
            cells.push(String::new());
            assert(rest =~= v@.subrange(k1 + 1, v@.len() as int));
        } else {
            cells.push(string_of(&v, k1 + 1, k2));
            cells.push(string_of(&v, k2 + 1, v.len()));
            assert(rest.take(k2 - k1 - 1) =~= v@.subrange(k1 + 1, k2 as int));
            assert(rest.skip(k2 - k1) =~= v@.subrange(k2 + 1, v@.len() as int));
        }
    }
    assert(views(cells@) =~= content_cells(line@));
    cells
}

fn string_from_all(v: &Vec<char>) -> (s: String)
    ensures
        s@ == v@,
{
    let s = string_of(v, 0, v.len());
    assert(v@.subrange(0, v@.len() as int) =~= v@);
    s
}

fn single_table(key: &str, columns: Vec<String>, rows: Vec<Vec<String>>) -> (b: ToolBody)
    ensures
        body_view_is_table(b, key@, views(columns@), crate::tool_output::row_views(rows@)),
{
    let mut entries: Vec<(String, ToonValue)> = Vec::new();
    let k = key.to_owned();
    let ghost cv = views(columns@);
    let ghost rv = crate::tool_output::row_views(rows@);
    entries.push((k, ToonValue::Table { columns, rows }));
    assert(entries@.len() == 1);
    assert(entries@[0].0@ == key@);
    let v = ToonValue::Dict(entries);
    assert(crate::toon::heights(entries@) == 0) by {
        reveal_with_fuel(crate::toon::heights, 2);
        assert(entries@.drop_last().len() == 0);
    }
    ToolBody::Toon(v)
}

pub open spec fn body_view_is_table(
    b: ToolBody,
    key: Seq<char>,
    columns: Seq<Seq<char>>,
    rows: Seq<Seq<Seq<char>>>,
) -> bool {
    &&& crate::tool_output::body_view(b) == (BodyV::Table { key, columns, rows })
    &&& b matches ToolBody::Toon(v) && crate::toon::height(v) == 1
}

impl GrepTool {
    /// The output for `req` given how running ripgrep went (see `grep_view`);
    /// `cwd` is stripped from the reported paths.
    pub fn interpret(req: &GrepRequest, outcome: RgOutcome, cwd: &str) -> (out: ToolOutput)
        ensures
            out_view(out) == grep_view(*req, outcome, cwd@),
    {
        let ghost oc = outcome;
        match outcome {
            RgOutcome::SpawnFailed(e) => {
                let mut m = "Search command failed: ".to_owned();
                push_str(&mut m, e.as_str());
                push_str(&mut m, ". Is ripgrep (rg) installed?");
                let o = ToolOutput::error(m.as_str());
                assert(views(o.next_steps@) =~= Seq::<Seq<char>>::empty());
                o
            },
            RgOutcome::TimedOut => {
                let o = ToolOutput::error("Search timed out after 30s. Try a more specific pattern or path.");
                assert(views(o.next_steps@) =~= Seq::<Seq<char>>::empty());
                o
            },
            RgOutcome::Exited { code, success, stdout, stderr } => {
                let dbg = debug_quote(req.pattern.as_str());
                if code == Some(1i32) && stdout.as_str().is_empty() {
                    let mut reason = "No matches for ".to_owned();
                    push_str(&mut reason, dbg.as_str());
                    let mut summary = "0 matches for ".to_owned();
                    push_str(&mut summary, dbg.as_str());
                    let o = ToolOutput::empty(reason.as_str()).with_summary(summary.as_str()).with_next_step(
                        "Broaden the regex, try case-insensitive (-i), or search a wider path",
                    );
                    assert(views(o.next_steps@) =~= seq![
                        "Broaden the regex, try case-insensitive (-i), or search a wider path"@,
                    ]);
                    return o;
                }
                if !success && code != Some(1i32) {
                    let mut m = "Search failed: ".to_owned();
                    if stderr.as_str().is_empty() {
                        push_str(&mut m, "unknown error");
                    } else {
                        push_str(&mut m, trim_str(stderr.as_str()).as_str());
                    }
                    let o = ToolOutput::error(m.as_str());
                    assert(views(o.next_steps@) =~= Seq::<Seq<char>>::empty());
                    return o;
                }
                let trimmed = trim_str(stdout.as_str());
                let result = relativize_paths(trimmed.as_str(), cwd);
                if result.as_str().is_empty() {
                    let mut reason = "No matches for ".to_owned();
                    push_str(&mut reason, dbg.as_str());
                    let o = ToolOutput::empty(reason.as_str());
                    assert(views(o.next_steps@) =~= Seq::<Seq<char>>::empty());
                    return o;
                }
                let all = split_lines(result.as_str());
                let total = all.len();
                proof {
                    crate::text::lemma_lines_nonempty(result@);
                }
                if req.offset >= total as u64 && total > 0 {
                    let mut reason = "No results at offset ".to_owned();
                    push_str(&mut reason, decimal_string(req.offset).as_str());
                    push_str(&mut reason, " (total: ");
                    push_str(&mut reason, decimal_string(total as u64).as_str());
                    push_str(&mut reason, ")");
                    let o = ToolOutput::empty(reason.as_str());
                    assert(views(o.next_steps@) =~= Seq::<Seq<char>>::empty());
                    return o;
                }
                let listing = Self::listing(req, &all);
                Self::cap(listing)
            },
        }
    }

    fn listing(req: &GrepRequest, all: &Vec<String>) -> (out: ToolOutput)
        requires
            req.offset < all@.len(),
        ensures
            out_view(out) == listing_view(*req, views(all@)),
            crate::tool_output::renderable(out),
    {
        let ghost ls = views(all@);
        let start: usize = req.offset as usize;
        let avail = all.len() - start;
        let shown: usize = if req.head_limit > 0 && req.head_limit < avail as u64 {
            req.head_limit as usize
        } else {
            avail
        };
        let ghost shown_lines = ls.skip(start as int).take(shown as int);
        let mode = req.output_mode.as_str();
        let files = str_eq(mode, "files_with_matches");
        let body = if files {
            let mut rows: Vec<Vec<String>> = Vec::new();
            let mut i: usize = 0;
            while i < shown
                invariant
                    i <= shown,
                    start + shown <= all@.len(),
                    all@.len() <= usize::MAX,
                    ls == views(all@),
                    shown_lines == ls.skip(start as int).take(shown as int),
                    crate::tool_output::row_views(rows@) == file_rows(shown_lines.take(i as int)),
                decreases shown - i,
            {
                let mut row: Vec<String> = Vec::new();
                row.push(all[start + i].clone());
                rows.push(row);
                proof {
                    assert(views(row@) =~= seq![all@[start + i]@]);
                    assert(crate::tool_output::row_views(rows@) =~= crate::tool_output::row_views(
                        rows@.drop_last(),
                    ).push(views(row@)));
                    assert(shown_lines.take(i + 1) =~= shown_lines.take(i as int).push(all@[start + i]@));
                    assert(file_rows(shown_lines.take(i + 1)) =~= file_rows(shown_lines.take(i as int)).push(
                        seq![all@[start + i]@],
                    ));
                }
                i += 1;
            }
            assert(shown_lines.take(shown as int) =~= shown_lines);
            let mut cols: Vec<String> = Vec::new();
            cols.push("path".to_owned());
            assert(views(cols@) =~= seq!["path"@]);
            single_table("files", cols, rows)
        } else if str_eq(mode, "content") && req.line_numbers {
            let mut rows: Vec<Vec<String>> = Vec::new();
            let mut i: usize = 0;
            while i < shown
                invariant
                    i <= shown,
                    start + shown <= all@.len(),
                    all@.len() <= usize::MAX,
                    ls == views(all@),
                    shown_lines == ls.skip(start as int).take(shown as int),
                    crate::tool_output::row_views(rows@) == content_rows(shown_lines.take(i as int)),
                decreases shown - i,
            {
                let row = parse_content_line(all[start + i].as_str());
                rows.push(row);
                proof {
                    assert(crate::tool_output::row_views(rows@) =~= crate::tool_output::row_views(
                        rows@.drop_last(),
                    ).push(views(row@)));
                    assert(shown_lines.take(i + 1) =~= shown_lines.take(i as int).push(all@[start + i]@));
                    assert(content_rows(shown_lines.take(i + 1)) =~= content_rows(shown_lines.take(i as int)).push(
                        content_cells(all@[start + i]@),
                    ));
                }
                i += 1;
            }
            assert(shown_lines.take(shown as int) =~= shown_lines);
            let mut cols: Vec<String> = Vec::new();
            cols.push("file".to_owned());
            cols.push("line".to_owned());
            cols.push("text".to_owned());
            assert(views(cols@) =~= seq!["file"@, "line"@, "text"@]);
            single_table("matches", cols, rows)
        } else {
            let mut picked: Vec<String> = Vec::new();
            let mut i: usize = 0;
            while i < shown
                invariant
                    i <= shown,
                    start + shown <= all@.len(),
                    all@.len() <= usize::MAX,
                    ls == views(all@),
                    shown_lines == ls.skip(start as int).take(shown as int),
                    views(picked@) == shown_lines.take(i as int),
                decreases shown - i,
            {
                picked.push(all[start + i].clone());
                proof {
                    assert(views(picked@) =~= views(picked@.drop_last()).push(all@[start + i]@));
                    assert(shown_lines.take(i + 1) =~= shown_lines.take(i as int).push(all@[start + i]@));
                }
                i += 1;
            }
            assert(shown_lines.take(shown as int) =~= shown_lines);
            let mut text = String::new();
            push_joined(&mut text, &picked, "\n");
            ToolBody::Text(text)
        };
        let truncated = !req.full && shown < avail;
        let mut summary = decimal_string(shown as u64);
        if files {
            push_str(&mut summary, " file(s) with matches");
        } else if str_eq(mode, "count") {
            push_str(&mut summary, " file(s) reported match counts");
        } else {
            push_str(&mut summary, " match line(s)");
        }
        let mut out = ToolOutput::success().with_summary(summary.as_str()).with_body(body);
        if truncated {
            out = out.with_truncation(
                Truncation {
                    shown,
                    total: avail,
                    unit: "lines",
                    how_to_see_more: "raise head_limit, bump offset, or pass full=true".to_owned(),
                },
            ).with_next_step("Pass full=true, or raise head_limit, or bump offset");
        }
        if !files {
            out = out.with_next_step("Switch output_mode=files_with_matches for a file list");
        }
        proof {
            reveal_strlit("lines");
        }
        assert(views(out.next_steps@) =~= listing_view(*req, ls).steps);
        out
    }

    fn cap(listing: ToolOutput) -> (out: ToolOutput)
        requires
            crate::tool_output::renderable(listing),
        ensures
            out_view(out) == capped_view(out_view(listing)),
    {
        let rendered = listing.render();
        proof {
            lemma_render_view(listing);
        }
        let n = rendered.as_str().len();
        if n > 20000 {
            let safe = safe_truncate(rendered.as_str(), 20000);
            let mut summary = "Grep (bytes-capped): ".to_owned();
            push_str(&mut summary, decimal_string(n as u64).as_str());
            push_str(&mut summary, " total bytes");
            let o = ToolOutput::success().with_summary(summary.as_str()).with_text(safe).with_truncation(
                Truncation {
                    shown: 20000,
                    total: n,
                    unit: "bytes",
                    how_to_see_more: "narrow the regex or filter with glob/type".to_owned(),
                },
            );
            proof {
                reveal_strlit("bytes");
            }
            assert(views(o.next_steps@) =~= Seq::<Seq<char>>::empty());
            o
        } else {
            listing
        }
    }
}

/// `text` with every `cwd/` prefix removed (`str::replace`).
pub fn relativize_paths(text: &str, cwd: &str) -> (out: String)
    ensures
        out@ == replace_all(text@, cwd@ + "/"@, seq![]),
{
    let mut prefix_path = cwd.to_owned();
    push_str(&mut prefix_path, "/");
    proof {
        reveal_strlit("");
        reveal_strlit("/");
        assert(""@ =~= Seq::<char>::empty());
    }
    replace_str(text, prefix_path.as_str(), "")
}

} // verus!
