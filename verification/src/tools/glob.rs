//! Glob: files by name pattern, newest first. This module reads the call's
//! arguments, reads ripgrep's file list, and shapes the files into a table
//! of paths relative to the working directory; walking the directory and
//! reading the files' metadata is left to the caller.

use vstd::prelude::*;
use super::Early;
use crate::path_safety::{join_path, joined_path, relative_to, relativize};
use crate::text::{
    debug_quote, debug_str, decimal, decimal_string, lines, owned, push_str, split_lines,
    starts_with, str_starts_with, views,
};
use crate::tool_input::ToolInput;
use crate::tool_output::{error_view, out_view, BodyV, OutV, ToolBody, ToolOutput, Truncation};
use crate::toon::ToonValue;

verus! {

pub struct GlobTool;

/// Files shown without `full`.
pub const MAX_RESULTS: usize = 100;

/// What a Glob call asks for: the pattern, the directory to search (the
/// `path` argument resolved against the working directory), and `full`.
pub struct GlobRequest {
    pub pattern: String,
    pub base: String,
    pub full: bool,
}

/// ripgrep's file list: each non-empty line, resolved against `base`, the
/// last listed first.
pub open spec fn rg_listing(stdout: Seq<char>, base: Seq<char>) -> Seq<Seq<char>> {
    rg_paths(lines(stdout), base)
}

/// The non-empty lines, resolved against `base`, in reverse order.
pub open spec fn rg_paths(ls: Seq<Seq<char>>, base: Seq<char>) -> Seq<Seq<char>>
    decreases ls.len(),
{
    if ls.len() == 0 {
        seq![]
    } else {
        let rest = rg_paths(ls.drop_first(), base);
        if ls[0].len() == 0 {
            rest
        } else {
            rest.push(joined_path(ls[0], base))
        }
    }
}

/// A file's row: its path relative to `cwd`, its size and its modification
/// date (`?` for each when its metadata could not be read).
pub open spec fn file_row(f: Seq<char>, cwd: Seq<char>, stat: Option<(Seq<char>, Seq<char>)>) -> Seq<Seq<char>> {
    match stat {
        Some(st) => seq![relative_to(f, cwd), st.0, st.1],
        None => seq![relative_to(f, cwd), "?"@, "?"@],
    }
}

/// The rows of the first `n` files; the i-th takes the i-th metadata entry.
pub open spec fn file_rows(
    files: Seq<Seq<char>>,
    cwd: Seq<char>,
    stats: Seq<(Seq<char>, Seq<char>)>,
    n: nat,
) -> Seq<Seq<Seq<char>>> {
    Seq::new(
        n,
        |i: int| file_row(files[i], cwd, if i < stats.len() { Some(stats[i]) } else { None }),
    )
}

/// The output for the files a search found (newest first).
pub open spec fn glob_view(
    pattern: Seq<char>,
    full: bool,
    cwd: Seq<char>,
    files: Seq<Seq<char>>,
    stats: Seq<(Seq<char>, Seq<char>)>,
) -> OutV {
    if files.len() == 0 {
        OutV {
            is_error: false,
            summary: Some("0 files matched"@),
            body: BodyV::Empty("Pattern "@ + debug_str(pattern) + " did not match any files."@),
            truncation: None,
            steps: seq!["Try a broader pattern or verify the path; use Grep for content search"@],
        }
    } else {
        let total = files.len();
        let shown = if full || total <= MAX_RESULTS { total } else { MAX_RESULTS as nat };
        OutV {
            is_error: false,
            summary: Some(decimal(total) + " file(s) matched "@ + debug_str(pattern)),
            body: BodyV::Table {
                key: "files"@,
                columns: seq!["path"@, "size"@, "modified"@],
                rows: file_rows(files, cwd, stats, shown),
            },
            truncation: if shown < total {
                Some(
                    (
                        shown,
                        total,
                        "files"@,
                        "narrow the pattern (e.g. "@ + debug_str(pattern)
                            + " → tighter subdir), or pass full=true"@,
                    ),
                )
            } else {
                None
            },
            steps: if shown < total {
                seq!["Narrow with a more specific pattern or set full=true"@]
            } else {
                seq!["Use Read on individual files or Grep to search their content"@]
            },
        }
    }
}

impl GlobTool {
    /// Reads the call's arguments; a missing `pattern` fails the call. The
    /// directory is `path` resolved against `cwd`, or `cwd`.
    pub fn request(input: &ToolInput, cwd: &str) -> (r: Result<GlobRequest, Early>)
        ensures
            match input.str_arg("pattern"@) {
                None => r matches Err(Early::Fail(m)) && m@ == "Missing 'pattern' parameter"@,
                Some(p) => r matches Ok(q) && q.pattern@ == p && q.full == match input.bool_arg(
                    "full"@,
                ) {
                    Some(b) => b,
                    None => false,
                } && q.base@ == match input.str_arg("path"@) {
                    Some(d) => joined_path(d, cwd@),
                    None => cwd@,
                },
            },
    {
        let pattern = match input.get_str("pattern") {
            Some(p) => owned(p),
            None => {
                return Err(Early::Fail(owned("Missing 'pattern' parameter")));
            },
        };
        let full = match input.get_bool("full") {
            Some(b) => b,
            None => false,
        };
        let base = match input.get_str("path") {
            Some(d) => join_path(d, cwd),
            None => owned(cwd),
        };
        Ok(GlobRequest { pattern, base, full })
    }

    /// The error for a directory that does not exist.
    pub fn missing_dir(req: &GlobRequest) -> (o: ToolOutput)
        ensures
            out_view(o) == error_view("Directory does not exist: "@ + req.base@),
    {
        let mut m = owned("Directory does not exist: ");
        push_str(&mut m, req.base.as_str());
        let o = ToolOutput::error(m.as_str());
        assert(views(o.next_steps@) =~= Seq::<Seq<char>>::empty());
        o
    }

    /// The error for a search that failed.
    pub fn glob_failed(err: &str) -> (o: ToolOutput)
        ensures
            out_view(o) == error_view("Glob error: "@ + err@),
    {
        let mut m = owned("Glob error: ");
        push_str(&mut m, err);
        let o = ToolOutput::error(m.as_str());
        assert(views(o.next_steps@) =~= Seq::<Seq<char>>::empty());
        o
    }

    /// The files ripgrep listed (sorted oldest first), newest first and
    /// resolved against the directory searched.
    pub fn rg_files(stdout: &str, base: &str) -> (out: Vec<String>)
        ensures
            views(out@) == rg_listing(stdout@, base@),
    {
        let ls = split_lines(stdout);
        let ghost lv = views(ls@);
        let mut out: Vec<String> = Vec::new();
        let mut i: usize = ls.len();
        assert(lv.skip(lv.len() as int) =~= Seq::<Seq<char>>::empty());
        while i > 0
            invariant
                i <= ls@.len(),
                lv == views(ls@),
                views(out@) == rg_paths(lv.skip(i as int), base@),
            decreases i,
        {
            i -= 1;
            let ghost before = views(out@);
            proof {
                assert(lv.skip(i as int).drop_first() =~= lv.skip(i + 1));
                assert(lv.skip(i as int)[0] == ls@[i as int]@);
            }
            if !ls[i].as_str().is_empty() {
                let p = join_path(ls[i].as_str(), base);
                out.push(p);
                assert(views(out@) =~= before.push(p@));
            }
        }
        assert(lv.skip(0) =~= lv);
        out
    }

    /// The files found as a table, newest first: at most 100 unless `full`.
    /// `stats` holds the size and date of the first files, in order.
    pub fn shape(
        req: &GlobRequest,
        cwd: &str,
        files: &Vec<String>,
        stats: &Vec<(String, String)>,
    ) -> (o: ToolOutput)
        ensures
            out_view(o) == glob_view(
                req.pattern@,
                req.full,
                cwd@,
                views(files@),
                stats@.map_values(|s: (String, String)| (s.0@, s.1@)),
            ),
    {
        let q = debug_quote(req.pattern.as_str());
        if files.len() == 0 {
            let mut reason = owned("Pattern ");
            push_str(&mut reason, q.as_str());
            push_str(&mut reason, " did not match any files.");
            let o = ToolOutput::empty(reason.as_str()).with_summary("0 files matched").with_next_step(
                "Try a broader pattern or verify the path; use Grep for content search",
            );
            assert(views(o.next_steps@) =~= seq![
                "Try a broader pattern or verify the path; use Grep for content search"@,
            ]);
            return o;
        }
        let ghost sv = stats@.map_values(|s: (String, String)| (s.0@, s.1@));
        let total = files.len();
        let shown = if req.full || total <= MAX_RESULTS { total } else { MAX_RESULTS };
        let mut rows: Vec<Vec<String>> = Vec::new();
        let mut i: usize = 0;
        while i < shown
            invariant
                i <= shown <= files@.len(),
                sv == stats@.map_values(|s: (String, String)| (s.0@, s.1@)),
                rows@.len() == i,
                forall|j: int|
                    0 <= j < i ==> views(#[trigger] rows@[j]@) == file_row(
                        views(files@)[j],
                        cwd@,
                        if j < sv.len() { Some(sv[j]) } else { None },
                    ),
            decreases shown - i,
        {
            let rel = relativize(files[i].as_str(), cwd);
            let row = if i < stats.len() {
                vec![rel, stats[i].0.clone(), stats[i].1.clone()]
            } else {
                vec![rel, owned("?"), owned("?")]
            };
            assert(views(row@) =~= file_row(
                views(files@)[i as int],
                cwd@,
                if i < sv.len() { Some(sv[i as int]) } else { None },
            ));
            rows.push(row);
            i += 1;
        }
        let columns = vec![owned("path"), owned("size"), owned("modified")];
        proof {
            assert(views(columns@) =~= seq!["path"@, "size"@, "modified"@]);
            assert(crate::tool_output::row_views(rows@) =~= file_rows(views(files@), cwd@, sv, shown as nat));
        }
        let body = ToolBody::Toon(ToonValue::Dict(vec![(owned("files"), ToonValue::Table { columns, rows })]));
        let mut summary = decimal_string(total as u64);
        push_str(&mut summary, " file(s) matched ");
        push_str(&mut summary, q.as_str());
        let base = ToolOutput::success().with_summary(summary.as_str()).with_body(body);
        if shown < total {
            let mut how = owned("narrow the pattern (e.g. ");
            push_str(&mut how, q.as_str());
            push_str(&mut how, " → tighter subdir), or pass full=true");
            let o = base.with_truncation(Truncation { shown, total, unit: "files", how_to_see_more: how })
                .with_next_step("Narrow with a more specific pattern or set full=true");
            assert(views(o.next_steps@) =~= seq!["Narrow with a more specific pattern or set full=true"@]);
            o
        } else {
            let o = base.with_next_step("Use Read on individual files or Grep to search their content");
            assert(views(o.next_steps@) =~= seq![
                "Use Read on individual files or Grep to search their content"@,
            ]);
            o
        }
    }
}

} // verus!
