//! NotebookEdit: replacing, inserting and deleting cells of a Jupyter
//! notebook. This module reads the call's arguments, splits the new source
//! into the notebook's line format, decides the cell operation, applies it
//! to the notebook's JSON text and words the result; the caller reads and
//! writes the file.

use vstd::prelude::*;
use super::{early_view, Early, EarlyV};
use crate::streaming::opt_seq;
use crate::text::{decimal, decimal_string, join, lines, push_joined, push_str, split_lines, str_eq, views};
use crate::tool_input::ToolInput;
use crate::tool_output::{error_view, out_view, BodyV, OutV, ToolOutput};

verus! {

pub struct NotebookEditTool;

/// What a NotebookEdit call asks for.
pub struct NotebookRequest {
    pub notebook_path: String,
    pub new_source: String,
    pub cell_number: Option<u64>,
    /// `code` unless given.
    pub cell_type: String,
    /// `replace` unless given.
    pub edit_mode: String,
}

impl NotebookEditTool {
    /// Reads the call's arguments; a missing path or source fails the call.
    pub fn request(input: &ToolInput) -> (r: Result<NotebookRequest, Early>)
        ensures
            match r {
                Ok(q) => {
                    &&& input.str_arg("notebook_path"@) == Some(q.notebook_path@)
                    &&& input.str_arg("new_source"@) == Some(q.new_source@)
                    &&& q.cell_number == input.u64_arg("cell_number"@)
                    &&& q.cell_type@ == match input.str_arg("cell_type"@) {
                        Some(t) => t,
                        None => "code"@,
                    }
                    &&& q.edit_mode@ == match input.str_arg("edit_mode"@) {
                        Some(m) => m,
                        None => "replace"@,
                    }
                },
                Err(Early::Fail(m)) => if input.str_arg("notebook_path"@) is None {
                    m@ == "Missing 'notebook_path' parameter"@
                } else {
                    input.str_arg("new_source"@) is None && m@ == "Missing 'new_source' parameter"@
                },
                Err(Early::Output(_)) => false,
            },
    {
        let notebook_path = match input.get_str("notebook_path") {
            Some(p) => p.to_owned(),
            None => {
                return Err(Early::Fail("Missing 'notebook_path' parameter".to_owned()));
            },
        };
        let new_source = match input.get_str("new_source") {
            Some(p) => p.to_owned(),
            None => {
                return Err(Early::Fail("Missing 'new_source' parameter".to_owned()));
            },
        };
        let cell_type = match input.get_str("cell_type") {
            Some(t) => t.to_owned(),
            None => "code".to_owned(),
        };
        let edit_mode = match input.get_str("edit_mode") {
            Some(m) => m.to_owned(),
            None => "replace".to_owned(),
        };
        Ok(NotebookRequest { notebook_path, new_source, cell_number: input.get_u64("cell_number"), cell_type, edit_mode })
    }
}

/// A cell's source in the notebook format: its lines, each but the last
/// keeping its newline; an empty source has no lines.
pub open spec fn source_line_texts(src: Seq<char>) -> Seq<Seq<char>> {
    if src.len() == 0 {
        seq![]
    } else {
        let ls = lines(src);
        Seq::new(ls.len(), |i: int| if i < ls.len() - 1 { ls[i] + "\n"@ } else { ls[i] })
    }
}

/// A cell's source split into the notebook's lines.
pub fn source_lines(new_source: &str) -> (out: Vec<String>)
    ensures
        views(out@) == source_line_texts(new_source@),
{
    let mut out: Vec<String> = Vec::new();
    if new_source.is_empty() {
        assert(views(out@) =~= Seq::<Seq<char>>::empty());
        return out;
    }
    let ls = split_lines(new_source);
    let ghost lv = views(ls@);
    let total = ls.len();
    let mut i: usize = 0;
    while i < total
        invariant
            i <= total,
            total == ls@.len(),
            lv == views(ls@),
            lv == lines(new_source@),
            new_source@.len() > 0,
            views(out@) == source_line_texts(new_source@).take(i as int),
        decreases total - i,
    {
        let mut line = ls[i].clone();
        if i < total - 1 {
            push_str(&mut line, "\n");
        }
        out.push(line);
        proof {
            assert(views(out@) =~= views(out@.drop_last()).push(out@.last()@));
            assert(source_line_texts(new_source@).take(i + 1) =~= source_line_texts(new_source@).take(
                i as int,
            ).push(source_line_texts(new_source@)[i as int]));
        }
        i += 1;
    }
    assert(source_line_texts(new_source@).take(total as int) =~= source_line_texts(new_source@));
    out
}

/// The change to make to the notebook's cells.
pub enum CellEdit {
    /// Set the source of cell `index`, and its type when one is given.
    Replace { index: usize, cell_type: Option<String> },
    /// Insert a new cell (markdown, or else code) at `index`.
    Insert { index: usize, markdown: bool },
    /// Remove cell `index`.
    Delete { index: usize },
}

/// A cell change as values.
pub enum CellEditV {
    Replace(nat, Option<Seq<char>>),
    Insert(nat, bool),
    Delete(nat),
}

pub open spec fn edit_view(e: CellEdit) -> CellEditV {
    match e {
        CellEdit::Replace { index, cell_type } => CellEditV::Replace(
            index as nat,
            match cell_type {
                Some(t) => Some(t@),
                None => None,
            },
        ),
        CellEdit::Insert { index, markdown } => CellEditV::Insert(index as nat, markdown),
        CellEdit::Delete { index } => CellEditV::Delete(index as nat),
    }
}

/// The cell change for a notebook of `count` cells, or the error text.
pub open spec fn plan_spec(req: NotebookRequest, count: nat) -> Result<CellEditV, Seq<char>> {
    let mode = req.edit_mode@;
    let idx: nat = match req.cell_number {
        Some(n) => n as nat,
        None => 0,
    };
    let t = req.cell_type@;
    if mode == "replace"@ {
        if idx >= count {
            Err(out_of_range(idx, count))
        } else {
            Ok(CellEditV::Replace(idx, if t == "markdown"@ || t == "code"@ { Some(t) } else { None }))
        }
    } else if mode == "insert"@ {
        Ok(
            CellEditV::Insert(
                match req.cell_number {
                    Some(n) => if (n as nat) < count { n as nat } else { count },
                    None => count,
                },
                t == "markdown"@,
            ),
        )
    } else if mode == "delete"@ {
        if idx >= count {
            Err(out_of_range(idx, count))
        } else {
            Ok(CellEditV::Delete(idx))
        }
    } else {
        Err("Invalid edit_mode '"@ + mode + "'. Must be 'replace', 'insert', or 'delete'."@)
    }
}

pub open spec fn out_of_range(idx: nat, count: nat) -> Seq<char> {
    "Cell index "@ + decimal(idx) + " out of range (notebook has "@ + decimal(count) + " cells)"@
}

impl NotebookEditTool {
    /// The cell change for a notebook of `cell_count` cells: replace and
    /// delete need an existing cell (cell 0 unless one is given); insert goes
    /// at the given position, capped at the end (the end unless given).
    pub fn plan(req: &NotebookRequest, cell_count: usize) -> (r: Result<CellEdit, ToolOutput>)
        ensures
            match (r, plan_spec(*req, cell_count as nat)) {
                (Ok(e), Ok(v)) => edit_view(e) == v,
                (Err(o), Err(m)) => out_view(o) == error_view(m),
                _ => false,
            },
    {
        proof {
            reveal_strlit("replace");
            reveal_strlit("insert");
            reveal_strlit("delete");
            assert("insert"@[0] != "delete"@[0]);
            assert("insert"@.len() != "replace"@.len());
            assert("delete"@.len() != "replace"@.len());
        }
        let mode = req.edit_mode.as_str();
        let idx: u64 = match req.cell_number {
            Some(n) => n,
            None => 0,
        };
        if str_eq(mode, "replace") || str_eq(mode, "delete") {
            if idx >= cell_count as u64 {
                let mut m = "Cell index ".to_owned();
                push_str(&mut m, decimal_string(idx).as_str());
                push_str(&mut m, " out of range (notebook has ");
                push_str(&mut m, decimal_string(cell_count as u64).as_str());
                push_str(&mut m, " cells)");
                let o = ToolOutput::error(m.as_str());
                assert(views(o.next_steps@) =~= Seq::<Seq<char>>::empty());
                assert(m@ == out_of_range(idx as nat, cell_count as nat));
                assert(out_view(o) == error_view(m@));

                return Err(o);
            }
            if str_eq(mode, "replace") {
                let t = req.cell_type.as_str();
                let cell_type = if str_eq(t, "markdown") || str_eq(t, "code") { Some(t.to_owned()) } else { None };
                Ok(CellEdit::Replace { index: idx as usize, cell_type })
            } else {
                Ok(CellEdit::Delete { index: idx as usize })
            }
        } else if str_eq(mode, "insert") {
            let at: usize = match req.cell_number {
                Some(n) => if n < cell_count as u64 { n as usize } else { cell_count },
                None => cell_count,
            };
            Ok(CellEdit::Insert { index: at, markdown: str_eq(req.cell_type.as_str(), "markdown") })
        } else {
            let mut m = "Invalid edit_mode '".to_owned();
            push_str(&mut m, mode);
            push_str(&mut m, "'. Must be 'replace', 'insert', or 'delete'.");
            let o = ToolOutput::error(m.as_str());
            assert(views(o.next_steps@) =~= Seq::<Seq<char>>::empty());
            Err(o)
        }
    }

    /// The output after the notebook at `path` was changed and written;
    /// `cell_count` is its number of cells afterwards.
    pub fn done(req: &NotebookRequest, path: &str, cell_count: usize) -> (o: ToolOutput)
        ensures
            ({
                let mode = req.edit_mode@;
                let verb = if mode == "replace"@ {
                    "replaced"@
                } else if mode == "insert"@ {
                    "inserted"@
                } else if mode == "delete"@ {
                    "deleted"@
                } else {
                    mode
                };
                let idx = decimal(
                    match req.cell_number {
                        Some(n) => n as nat,
                        None => 0,
                    },
                );
                out_view(o) == (OutV {
                    is_error: false,
                    summary: Some(verb + " cell "@ + idx + " ("@ + decimal(cell_count as nat) + " total cells)"@),
                    body: BodyV::Text("Notebook "@ + path@ + ": "@ + verb + " cell at index "@ + idx),
                    truncation: None,
                    steps: seq![],
                })
            }),
    {
        let mode = req.edit_mode.as_str();
        let verb = if str_eq(mode, "replace") {
            "replaced"
        } else if str_eq(mode, "insert") {
            "inserted"
        } else if str_eq(mode, "delete") {
            "deleted"
        } else {
            mode
        };
        let idx = decimal_string(
            match req.cell_number {
                Some(n) => n,
                None => 0,
            },
        );
        let mut summary = verb.to_owned();
        push_str(&mut summary, " cell ");
        push_str(&mut summary, idx.as_str());
        push_str(&mut summary, " (");
        push_str(&mut summary, decimal_string(cell_count as u64).as_str());
        push_str(&mut summary, " total cells)");
        let mut text = "Notebook ".to_owned();
        push_str(&mut text, path);
        push_str(&mut text, ": ");
        push_str(&mut text, verb);
        push_str(&mut text, " cell at index ");
        push_str(&mut text, idx.as_str());
        let o = ToolOutput::success().with_summary(summary.as_str()).with_text(text.as_str());
        assert(views(o.next_steps@) =~= Seq::<Seq<char>>::empty());
        o
    }
}

// ─── The notebook's JSON ───────────────────────────────────────────────────

/// A notebook with no cells, as a notebook that does not exist yet starts.
pub const EMPTY_NOTEBOOK: &'static str = "{\"cells\":[],\"metadata\":{\"kernelspec\":{\"display_name\":\"Python 3\",\"language\":\"python\",\"name\":\"python3\"},\"language_info\":{\"name\":\"python\",\"version\":\"3.10.0\"}},\"nbformat\":4,\"nbformat_minor\":5}";

/// Names what `serde_json` reads from a notebook's text: the error's text
/// when it is not JSON, `None` when it has no `cells` array, else each cell
/// as compact JSON text.
pub uninterp spec fn notebook_cells(text: Seq<char>) -> Result<Option<Seq<Seq<char>>>, Seq<char>>;

/// Names the compact JSON text of the value parsed from `json` with member
/// `key` set to the value parsed from `member`; `None` when either is not
/// JSON, or `json` is neither an object nor `null`.
pub uninterp spec fn json_member_set(json: Seq<char>, key: Seq<char>, member: Seq<char>) -> Option<Seq<char>>;

/// Names the compact JSON text of an array of the given strings.
pub uninterp spec fn json_string_list(items: Seq<Seq<char>>) -> Seq<char>;

/// Names the pretty-printed JSON text of the value parsed from `json`;
/// `None` when it is not JSON.
pub uninterp spec fn json_pretty(json: Seq<char>) -> Option<Seq<char>>;

pub open spec fn cells_view(r: Result<Option<Vec<String>>, String>) -> Result<Option<Seq<Seq<char>>>, Seq<char>> {
    match r {
        Ok(Some(cs)) => Ok(Some(views(cs@))),
        Ok(None) => Ok(None),
        Err(e) => Err(e@),
    }
}

/// Parses `text` with `serde_json::from_str` and, where the value has a
/// `cells` array, prints each cell back with `to_string`; a parse error is
/// returned as its message. The contract only ties the result to the name
/// `notebook_cells`.
#[verifier::external_body]
fn read_cells(text: &str) -> (r: Result<Option<Vec<String>>, String>)
    ensures
        cells_view(r) == notebook_cells(text@),
{
    let v: serde_json::Value = serde_json::from_str(text).map_err(|e| e.to_string())?;
    Ok(v.get("cells").and_then(serde_json::Value::as_array).map(|cs| cs.iter().map(ToString::to_string).collect()))
}

/// Parses `json` and `member` with `serde_json::from_str`, sets member `key`
/// of the first (a `null` becomes an object, as `serde_json`'s indexing
/// does) and prints it back with `to_string`. The contract only ties the
/// result to the name `json_member_set`.
#[verifier::external_body]
fn with_member(json: &str, key: &str, member: &str) -> (r: Option<String>)
    ensures
        opt_seq(r) == json_member_set(json@, key@, member@),
{
    let mut v: serde_json::Value = serde_json::from_str(json).ok()?;
    let m: serde_json::Value = serde_json::from_str(member).ok()?;
    match v {
        serde_json::Value::Null | serde_json::Value::Object(_) => {
            v[key] = m;
            Some(v.to_string())
        },
        _ => None,
    }
}

/// Prints the strings as a JSON array with `serde_json`'s `to_string`. The
/// contract only ties the result to the name `json_string_list`.
#[verifier::external_body]
fn string_list_json(items: &Vec<String>) -> (r: String)
    ensures
        r@ == json_string_list(views(items@)),
{
    serde_json::Value::from(items.clone()).to_string()
}

/// Parses `json` with `serde_json::from_str` and prints it with
/// `serde_json::to_string_pretty`. The contract only ties the result to the
/// name `json_pretty`.
#[verifier::external_body]
fn pretty_json(json: &str) -> (r: Option<String>)
    ensures
        opt_seq(r) == json_pretty(json@),
{
    let v: serde_json::Value = serde_json::from_str(json).ok()?;
    serde_json::to_string_pretty(&v).ok()
}

pub open spec fn missing_cells() -> Seq<char> {
    "Invalid notebook: missing 'cells' array"@
}

pub open spec fn not_an_object(idx: nat) -> Seq<char> {
    "Invalid notebook: cell "@ + decimal(idx) + " is not an object"@
}

/// A new cell with the given source (a JSON array text).
pub open spec fn new_cell_text(markdown: bool, source: Seq<char>) -> Seq<char> {
    if markdown {
        "{\"cell_type\":\"markdown\",\"metadata\":{},\"source\":"@ + source + "}"@
    } else {
        "{\"cell_type\":\"code\",\"execution_count\":null,\"metadata\":{},\"outputs\":[],\"source\":"@ + source
            + "}"@
    }
}

/// The cells after the change, each as JSON text; `source` is the new
/// source as a JSON array. A replaced cell gets the new source, then the
/// new type when one is given; it must be an object (or `null`).
pub open spec fn edited_cells(cells: Seq<Seq<char>>, e: CellEditV, source: Seq<char>) -> Result<
    Seq<Seq<char>>,
    Seq<char>,
> {
    match e {
        CellEditV::Replace(i, t) => match json_member_set(cells[i as int], "source"@, source) {
            None => Err(not_an_object(i)),
            Some(c) => match t {
                None => Ok(cells.update(i as int, c)),
                Some(t) => match json_member_set(c, "cell_type"@, "\""@ + t + "\""@) {
                    None => Err(not_an_object(i)),
                    Some(c2) => Ok(cells.update(i as int, c2)),
                },
            },
        },
        CellEditV::Insert(i, md) => Ok(cells.insert(i as int, new_cell_text(md, source))),
        CellEditV::Delete(i) => Ok(cells.remove(i as int)),
    }
}

/// What editing the notebook text `content` (at `path`) gives: the new
/// pretty-printed text and its number of cells, or how the call ends early.
pub open spec fn notebook_edit_outcome(path: Seq<char>, content: Seq<char>, req: NotebookRequest) -> Result<
    (Seq<char>, nat),
    EarlyV,
> {
    match notebook_cells(content) {
        Err(e) => Err(EarlyV::Fail("Failed to parse notebook "@ + path + ": "@ + e)),
        Ok(None) => Err(EarlyV::Fail(missing_cells())),
        Ok(Some(cells)) => match plan_spec(req, cells.len()) {
            Err(m) => Err(EarlyV::Output(error_view(m))),
            Ok(e) => match edited_cells(cells, e, json_string_list(source_line_texts(req.new_source@))) {
                Err(m) => Err(EarlyV::Fail(m)),
                Ok(cs) => match json_member_set(content, "cells"@, "["@ + join(cs, ","@) + "]"@) {
                    None => Err(EarlyV::Fail(missing_cells())),
                    Some(t) => match json_pretty(t) {
                        None => Err(EarlyV::Fail("Failed to serialize notebook "@ + path)),
                        Some(p) => Ok((p, cs.len())),
                    },
                },
            },
        },
    }
}

fn not_an_object_error(idx: usize) -> (e: Early)
    ensures
        early_view(e) == EarlyV::Fail(not_an_object(idx as nat)),
{
    let mut m = "Invalid notebook: cell ".to_owned();
    push_str(&mut m, decimal_string(idx as u64).as_str());
    push_str(&mut m, " is not an object");
    Early::Fail(m)
}

fn new_cell(markdown: bool, source: &str) -> (c: String)
    ensures
        c@ == new_cell_text(markdown, source@),
{
    let mut c = if markdown {
        "{\"cell_type\":\"markdown\",\"metadata\":{},\"source\":".to_owned()
    } else {
        "{\"cell_type\":\"code\",\"execution_count\":null,\"metadata\":{},\"outputs\":[],\"source\":".to_owned()
    };
    push_str(&mut c, source);
    push_str(&mut c, "}");
    c
}

impl NotebookEditTool {
    /// Applies the call to the notebook text `content` read from `path`:
    /// the notebook's new text, pretty-printed, and its number of cells.
    /// A text that is not JSON, or has no `cells` array, fails the call; a
    /// change the notebook cannot take is answered as `plan` words it.
    pub fn apply_notebook_edit(path: &str, content: &str, req: &NotebookRequest) -> (r: Result<
        (String, usize),
        Early,
    >)
        ensures
            match (r, notebook_edit_outcome(path@, content@, *req)) {
                (Ok((t, n)), Ok((tv, nv))) => t@ == tv && n as nat == nv,
                (Err(e), Err(ev)) => early_view(e) == ev,
                _ => false,
            },
    {
        let mut cells = match read_cells(content) {
            Err(e) => {
                let mut m = "Failed to parse notebook ".to_owned();
                push_str(&mut m, path);
                push_str(&mut m, ": ");
                push_str(&mut m, e.as_str());
                return Err(Early::Fail(m));
            },
            Ok(None) => {
                return Err(Early::Fail("Invalid notebook: missing 'cells' array".to_owned()));
            },
            Ok(Some(cs)) => cs,
        };
        let ghost cells0 = views(cells@);
        let edit = match NotebookEditTool::plan(req, cells.len()) {
            Ok(e) => e,
            Err(o) => {
                return Err(Early::Output(o));
            },
        };
        let source = string_list_json(&source_lines(req.new_source.as_str()));
        match edit {
            CellEdit::Replace { index, cell_type } => {
                let c1 = match with_member(cells[index].as_str(), "source", source.as_str()) {
                    Some(c) => c,
                    None => {
                        return Err(not_an_object_error(index));
                    },
                };
                let c2 = match cell_type {
                    None => c1,
                    Some(t) => {
                        let mut q = "\"".to_owned();
                        push_str(&mut q, t.as_str());
                        push_str(&mut q, "\"");
                        match with_member(c1.as_str(), "cell_type", q.as_str()) {
                            Some(c) => c,
                            None => {
                                return Err(not_an_object_error(index));
                            },
                        }
                    },
                };
                cells.set(index, c2);
            },
            CellEdit::Insert { index, markdown } => {
                cells.insert(index, new_cell(markdown, source.as_str()));
            },
            CellEdit::Delete { index } => {
                cells.remove(index);
            },
        }
        proof {
            assert(views(cells@) =~= edited_cells(cells0, edit_view(edit), source@)->Ok_0);
        }
        let mut arr = "[".to_owned();
        push_joined(&mut arr, &cells, ",");
        push_str(&mut arr, "]");
        let whole = match with_member(content, "cells", arr.as_str()) {
            Some(w) => w,
            None => {
                return Err(Early::Fail("Invalid notebook: missing 'cells' array".to_owned()));
            },
        };
        match pretty_json(whole.as_str()) {
            Some(text) => Ok((text, cells.len())),
            None => {
                let mut m = "Failed to serialize notebook ".to_owned();
                push_str(&mut m, path);
                Err(Early::Fail(m))
            },
        }
    }
}


impl NotebookEditTool {
    /// The answer when the notebook does not exist: only an insert may
    /// create it; any other edit is refused.
    pub fn absent(req: &NotebookRequest, path: &str) -> (r: Option<ToolOutput>)
        ensures
            match r {
                None => req.edit_mode@ == "insert"@,
                Some(o) => req.edit_mode@ != "insert"@ && out_view(o) == error_view("Notebook not found: "@ + path@),
            },
    {
        if str_eq(req.edit_mode.as_str(), "insert") {
            None
        } else {
            let mut m = "Notebook not found: ".to_owned();
            push_str(&mut m, path);
            Some(super::error_output(m))
        }
    }
}

} // verus!
