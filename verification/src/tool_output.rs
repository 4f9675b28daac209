//! Structured output of a tool call: an optional one-line summary, a body
//! (text, TOON, or a definitive empty state), optional truncation metadata and
//! follow-up hints, rendered into the single string the model reads.

use vstd::prelude::*;
use crate::text::{decimal, decimal_string, first_line_of, join, prefix, push_str, trim, trim_str, views};
use crate::toon::{height, indent_text, render_spec, ToonValue};

verus! {

/// Canonical output of a tool execution.
#[derive(Debug)]
pub struct ToolOutput {
    /// One-line aggregate summary, e.g. `"42 matches in 7 files"`.
    pub summary: Option<String>,
    /// Main payload.
    pub body: ToolBody,
    /// Truncation metadata. When `None`, the output is complete.
    pub truncation: Option<Truncation>,
    /// Contextual hints the model can follow up with.
    pub next_steps: Vec<String>,
    /// Whether this result is reported to the model as an error.
    pub is_error: bool,
}

/// Payload of a [`ToolOutput`].
#[derive(Debug)]
pub enum ToolBody {
    /// Free-form text.
    Text(String),
    /// A TOON table or map.
    Toon(ToonValue),
    /// Definitive empty state, with why no data came back.
    Empty(String),
}

/// Truncation metadata, rendered as a `[truncated: ...]` footer.
#[derive(Debug)]
pub struct Truncation {
    pub shown: usize,
    pub total: usize,
    /// Unit: `"lines"`, `"matches"`, `"bytes"`, `"files"`, ...
    pub unit: &'static str,
    /// How the model can see more.
    pub how_to_see_more: String,
}

/// The body as the model reads it.
pub open spec fn body_text(b: ToolBody) -> Seq<char> {
    match b {
        ToolBody::Text(t) => t@,
        ToolBody::Toon(v) => render_spec(v, 0),
        ToolBody::Empty(reason) => "0 results. "@ + trim(reason@),
    }
}

/// The truncation footer.
pub open spec fn truncation_text(t: Truncation) -> Seq<char> {
    "[truncated: shown "@ + decimal(t.shown as nat) + "/"@ + decimal(t.total as nat) + " "@
        + t.unit@ + ". "@ + t.how_to_see_more@ + "]"@
}

/// The `Next:` block listing the follow-up hints.
pub open spec fn next_block(steps: Seq<String>) -> Seq<char>
    decreases steps.len(),
{
    if steps.len() == 0 {
        "Next:"@
    } else {
        next_block(steps.drop_last()) + "\n - "@ + steps.last()@
    }
}

/// The sections that are present, in order.
pub open spec fn sections(o: ToolOutput) -> Seq<Seq<char>> {
    let s1: Seq<Seq<char>> = match o.summary {
        Some(s) => if s@.len() > 0 { seq![s@] } else { seq![] },
        None => seq![],
    };
    let s2 = if body_text(o.body).len() > 0 { s1.push(body_text(o.body)) } else { s1 };
    let s3 = match o.truncation {
        Some(t) => s2.push(truncation_text(t)),
        None => s2,
    };
    if o.next_steps@.len() > 0 { s3.push(next_block(o.next_steps@)) } else { s3 }
}

/// The canonical rendering: present sections separated by blank lines.
pub open spec fn render_output(o: ToolOutput) -> Seq<char> {
    join(sections(o), "\n\n"@)
}

/// The text a preview is cut from.
pub open spec fn preview_source(b: ToolBody) -> Seq<char> {
    match b {
        ToolBody::Text(t) => t@,
        ToolBody::Toon(v) => render_spec(v, 0),
        ToolBody::Empty(reason) => "0 results. "@ + reason@,
    }
}

/// The text a preview is taken from: the summary when there is one, else the
/// body's text.
pub open spec fn preview_text(o: ToolOutput) -> Seq<char> {
    match o.summary {
        Some(s) => s@,
        None => preview_source(o.body),
    }
}

/// The short preview: the first line of the summary (or, without one, of the
/// body), cut to 500 characters.
pub open spec fn preview_spec(o: ToolOutput) -> Seq<char> {
    prefix(first_line_of(preview_text(o)), 500)
}

/// What every TOON body in the output needs to render.
pub open spec fn renderable(o: ToolOutput) -> bool {
    match o.body {
        ToolBody::Toon(v) => height(v) < usize::MAX,
        _ => true,
    }
}

impl ToolOutput {
    /// Blank successful output.
    pub fn success() -> (o: Self)
        ensures
            o.summary is None,
            o.body matches ToolBody::Text(t) && t@.len() == 0,
            o.truncation is None,
            o.next_steps@.len() == 0,
            !o.is_error,
    {
        ToolOutput {
            summary: None,
            body: ToolBody::Text(String::new()),
            truncation: None,
            next_steps: Vec::new(),
            is_error: false,
        }
    }

    /// Error output carrying an explanation.
    pub fn error(msg: &str) -> (o: Self)
        ensures
            o.summary is None,
            o.body matches ToolBody::Text(t) && t@ == msg@,
            o.truncation is None,
            o.next_steps@.len() == 0,
            o.is_error,
    {
        ToolOutput {
            summary: None,
            body: ToolBody::Text(msg.to_owned()),
            truncation: None,
            next_steps: Vec::new(),
            is_error: true,
        }
    }

    /// Definitive empty result.
    pub fn empty(reason: &str) -> (o: Self)
        ensures
            o.summary is None,
            o.body matches ToolBody::Empty(r) && r@ == reason@,
            o.truncation is None,
            o.next_steps@.len() == 0,
            !o.is_error,
    {
        ToolOutput {
            summary: None,
            body: ToolBody::Empty(reason.to_owned()),
            truncation: None,
            next_steps: Vec::new(),
            is_error: false,
        }
    }

    pub fn with_summary(self, s: &str) -> (o: Self)
        ensures
            o.summary matches Some(x) && x@ == s@,
            o.body == self.body,
            o.truncation == self.truncation,
            o.next_steps == self.next_steps,
            o.is_error == self.is_error,
    {
        ToolOutput { summary: Some(s.to_owned()), ..self }
    }

    pub fn with_body(self, b: ToolBody) -> (o: Self)
        ensures
            o.summary == self.summary,
            o.body == b,
            o.truncation == self.truncation,
            o.next_steps == self.next_steps,
            o.is_error == self.is_error,
    {
        ToolOutput { body: b, ..self }
    }

    pub fn with_text(self, t: &str) -> (o: Self)
        ensures
            o.summary == self.summary,
            o.body matches ToolBody::Text(x) && x@ == t@,
            o.truncation == self.truncation,
            o.next_steps == self.next_steps,
            o.is_error == self.is_error,
    {
        ToolOutput { body: ToolBody::Text(t.to_owned()), ..self }
    }

    pub fn with_toon(self, v: ToonValue) -> (o: Self)
        ensures
            o.summary == self.summary,
            o.body == ToolBody::Toon(v),
            o.truncation == self.truncation,
            o.next_steps == self.next_steps,
            o.is_error == self.is_error,
    {
        ToolOutput { body: ToolBody::Toon(v), ..self }
    }

    pub fn with_truncation(self, t: Truncation) -> (o: Self)
        ensures
            o.summary == self.summary,
            o.body == self.body,
            o.truncation == Some(t),
            o.next_steps == self.next_steps,
            o.is_error == self.is_error,
    {
        ToolOutput { truncation: Some(t), ..self }
    }

    pub fn with_next_step(self, s: &str) -> (o: Self)
        ensures
            o.summary == self.summary,
            o.body == self.body,
            o.truncation == self.truncation,
            o.next_steps@.len() == self.next_steps@.len() + 1,
            o.next_steps@.drop_last() == self.next_steps@,
            o.next_steps@.last()@ == s@,
            o.is_error == self.is_error,
    {
        let mut o = self;
        o.next_steps.push(s.to_owned());
        assert(o.next_steps@.drop_last() =~= self.next_steps@);
        o
    }

    /// Replace the next-steps list wholesale.
    pub fn with_next_steps(self, steps: Vec<String>) -> (o: Self)
        ensures
            o.summary == self.summary,
            o.body == self.body,
            o.truncation == self.truncation,
            o.next_steps == steps,
            o.is_error == self.is_error,
    {
        ToolOutput { next_steps: steps, ..self }
    }

    /// With `full`, drop pending truncation metadata so the whole body is
    /// emitted without a footer; otherwise leave the output unchanged.
    pub fn drop_truncation_if_full(self, full: bool) -> (o: Self)
        ensures
            o.summary == self.summary,
            o.body == self.body,
            o.truncation == (if full { None } else { self.truncation }),
            o.next_steps == self.next_steps,
            o.is_error == self.is_error,
    {
        if full {
            ToolOutput { truncation: None, ..self }
        } else {
            self
        }
    }

    /// The body as the model reads it.
    pub fn body_string(&self) -> (s: String)
        requires
            renderable(*self),
        ensures
            s@ == body_text(self.body),
    {
        match &self.body {
            ToolBody::Text(t) => t.clone(),
            ToolBody::Toon(v) => v.render(),
            ToolBody::Empty(reason) => {
                let mut s = "0 results. ".to_owned();
                let r = trim_str(reason.as_str());
                push_str(&mut s, r.as_str());
                s
            },
        }
    }

    /// Render the canonical string the model sees: summary, body,
    /// truncation footer and `Next:` block, each when present, separated by
    /// blank lines.
    pub fn render(&self) -> (out: String)
        requires
            renderable(*self),
        ensures
            out@ == render_output(*self),
    {
        let mut parts: Vec<String> = Vec::new();
        match &self.summary {
            Some(s) => {
                if !s.as_str().is_empty() {
                    parts.push(s.clone());
                }
            },
            None => {},
        }
        let b = self.body_string();
        if !b.as_str().is_empty() {
            parts.push(b);
        }
        match &self.truncation {
            Some(t) => {
                let mut f = "[truncated: shown ".to_owned();
                let a = decimal_string(t.shown as u64);
                push_str(&mut f, a.as_str());
                push_str(&mut f, "/");
                let c = decimal_string(t.total as u64);
                push_str(&mut f, c.as_str());
                push_str(&mut f, " ");
                push_str(&mut f, t.unit);
                push_str(&mut f, ". ");
                push_str(&mut f, t.how_to_see_more.as_str());
                push_str(&mut f, "]");
                parts.push(f);
            },
            None => {},
        }
        if self.next_steps.len() > 0 {
            let mut block = "Next:".to_owned();
            let mut i: usize = 0;
            assert(self.next_steps@.take(0) =~= Seq::<String>::empty());
            while i < self.next_steps.len()
                invariant
                    i <= self.next_steps.len(),
                    block@ == next_block(self.next_steps@.take(i as int)),
                decreases self.next_steps.len() - i,
            {
                push_str(&mut block, "\n - ");
                push_str(&mut block, self.next_steps[i].as_str());
                assert(self.next_steps@.take(i + 1).drop_last() =~= self.next_steps@.take(
                    i as int,
                ));
                i += 1;
            }
            assert(self.next_steps@.take(self.next_steps.len() as int) =~= self.next_steps@);
            parts.push(block);
        }
        assert(parts@.map_values(|s: String| s@) =~= sections(*self));
        let mut out = String::new();
        crate::text::push_joined(&mut out, &parts, "\n\n");
        out
    }

    /// A short preview for display: the first line of the summary when
    /// present, else of the body, cut to 500 characters.
    pub fn preview(&self) -> (out: String)
        requires
            renderable(*self),
        ensures
            out@ == preview_spec(*self),
    {
        if let Some(s) = &self.summary {
            let first = crate::text::first_line(s.as_str());
            return crate::text::prefix_chars(first.as_str(), 500);
        }
        let text = match &self.body {
            ToolBody::Text(t) => t.clone(),
            ToolBody::Toon(v) => v.render(),
            ToolBody::Empty(reason) => {
                let mut s = "0 results. ".to_owned();
                push_str(&mut s, reason.as_str());
                s
            },
        };
        let first = crate::text::first_line(text.as_str());
        crate::text::prefix_chars(first.as_str(), 500)
    }
}

// ─── Outputs as values ─────────────────────────────────────────────────────

/// A body as values: text, an empty state, a map holding a single table, or
/// any other TOON value by its rendering.
pub enum BodyV {
    Text(Seq<char>),
    Empty(Seq<char>),
    Table { key: Seq<char>, columns: Seq<Seq<char>>, rows: Seq<Seq<Seq<char>>> },
    Toon(Seq<char>),
}

pub open spec fn row_views(rows: Seq<Vec<String>>) -> Seq<Seq<Seq<char>>> {
    rows.map_values(|r: Vec<String>| views(r@))
}

pub open spec fn body_view(b: ToolBody) -> BodyV {
    match b {
        ToolBody::Text(t) => BodyV::Text(t@),
        ToolBody::Empty(r) => BodyV::Empty(r@),
        ToolBody::Toon(v) => match v {
            ToonValue::Dict(es) => if es@.len() == 1 {
                match es@[0].1 {
                    ToonValue::Table { columns, rows } => BodyV::Table {
                        key: es@[0].0@,
                        columns: views(columns@),
                        rows: row_views(rows@),
                    },
                    _ => BodyV::Toon(render_spec(v, 0)),
                }
            } else {
                BodyV::Toon(render_spec(v, 0))
            },
            _ => BodyV::Toon(render_spec(v, 0)),
        },
    }
}

/// Truncation metadata as values: shown, total, unit, how to see more.
pub open spec fn truncation_view(t: Option<Truncation>) -> Option<(nat, nat, Seq<char>, Seq<char>)> {
    match t {
        Some(t) => Some((t.shown as nat, t.total as nat, t.unit@, t.how_to_see_more@)),
        None => None,
    }
}

/// A tool output as values.
pub struct OutV {
    pub is_error: bool,
    pub summary: Option<Seq<char>>,
    pub body: BodyV,
    pub truncation: Option<(nat, nat, Seq<char>, Seq<char>)>,
    pub steps: Seq<Seq<char>>,
}

pub open spec fn out_view(o: ToolOutput) -> OutV {
    OutV {
        is_error: o.is_error,
        summary: match o.summary {
            Some(s) => Some(s@),
            None => None,
        },
        body: body_view(o.body),
        truncation: truncation_view(o.truncation),
        steps: views(o.next_steps@),
    }
}

/// An error output with `msg`.
pub open spec fn error_view(msg: Seq<char>) -> OutV {
    OutV { is_error: true, summary: None, body: BodyV::Text(msg), truncation: None, steps: seq![] }
}

/// An empty-state output with `reason`.
pub open spec fn empty_view(reason: Seq<char>) -> OutV {
    OutV { is_error: false, summary: None, body: BodyV::Empty(reason), truncation: None, steps: seq![] }
}

/// The cells a row shows, as values: exactly `n`, missing ones empty.
pub open spec fn cells_v(n: nat, row: Seq<Seq<char>>) -> Seq<Seq<char>> {
    Seq::new(n, |i: int| if i < row.len() { row[i] } else { Seq::<char>::empty() })
}

/// A table's text at `depth`, from values.
pub open spec fn table_text_v(depth: nat, columns: Seq<Seq<char>>, rows: Seq<Seq<Seq<char>>>) -> Seq<char>
    decreases rows.len(),
{
    if rows.len() == 0 {
        indent_text(depth) + join(columns, " | "@)
    } else {
        table_text_v(depth, columns, rows.drop_last()) + "\n"@ + indent_text(depth) + join(
            cells_v(columns.len(), rows.last()),
            " | "@,
        )
    }
}

/// A body's text, from values.
pub open spec fn body_text_v(b: BodyV) -> Seq<char> {
    match b {
        BodyV::Text(t) => t,
        BodyV::Empty(r) => "0 results. "@ + trim(r),
        BodyV::Table { key, columns, rows } => if rows.len() == 0 {
            key + " [0]: (empty)"@
        } else {
            key + " ["@ + decimal(rows.len()) + "]:\n"@ + table_text_v(1, columns, rows)
        },
        BodyV::Toon(t) => t,
    }
}

pub open spec fn next_block_v(steps: Seq<Seq<char>>) -> Seq<char>
    decreases steps.len(),
{
    if steps.len() == 0 {
        "Next:"@
    } else {
        next_block_v(steps.drop_last()) + "\n - "@ + steps.last()
    }
}

pub open spec fn sections_v(v: OutV) -> Seq<Seq<char>> {
    let s1: Seq<Seq<char>> = match v.summary {
        Some(s) => if s.len() > 0 { seq![s] } else { seq![] },
        None => seq![],
    };
    let s2 = if body_text_v(v.body).len() > 0 { s1.push(body_text_v(v.body)) } else { s1 };
    let s3 = match v.truncation {
        Some(t) => s2.push(
            "[truncated: shown "@ + decimal(t.0) + "/"@ + decimal(t.1) + " "@ + t.2 + ". "@ + t.3 + "]"@,
        ),
        None => s2,
    };
    if v.steps.len() > 0 { s3.push(next_block_v(v.steps)) } else { s3 }
}

/// The rendering of an output, from its values.
pub open spec fn render_view(v: OutV) -> Seq<char> {
    join(sections_v(v), "\n\n"@)
}

pub proof fn lemma_table_text_v(depth: nat, columns: Seq<String>, rows: Seq<Vec<String>>)
    ensures
        crate::toon::table_text(depth, columns, rows) == table_text_v(depth, views(columns), row_views(rows)),
    decreases rows.len(),
{
    if rows.len() > 0 {
        lemma_table_text_v(depth, columns, rows.drop_last());
        assert(row_views(rows.drop_last()) =~= row_views(rows).drop_last());
        assert(crate::toon::row_cells(columns.len(), rows.last()@) =~= cells_v(
            views(columns).len(),
            views(rows.last()@),
        ));
    }
}

pub proof fn lemma_next_block_v(steps: Seq<String>)
    ensures
        next_block(steps) == next_block_v(views(steps)),
    decreases steps.len(),
{
    if steps.len() > 0 {
        lemma_next_block_v(steps.drop_last());
        assert(views(steps.drop_last()) =~= views(steps).drop_last());
    }
}

/// The rendering of an output is the rendering of its values.
pub proof fn lemma_render_view(o: ToolOutput)
    ensures
        render_output(o) == render_view(out_view(o)),
{
    assert(body_text(o.body) == body_text_v(body_view(o.body))) by {
        match o.body {
            ToolBody::Toon(v) => {
                match v {
                    ToonValue::Dict(es) => {
                        if es@.len() == 1 {
                            match es@[0].1 {
                                ToonValue::Table { columns, rows } => {
                                    assert(es@.drop_last().len() == 0);
                                    assert(crate::toon::indent_text(0) == Seq::<char>::empty());
                                    lemma_table_text_v(1, columns@, rows@);
                                    assert(row_views(rows@).len() == rows@.len());
                                },
                                _ => {},
                            }
                        }
                    },
                    _ => {},
                }
            },
            _ => {},
        }
    }
    lemma_next_block_v(o.next_steps@);
    assert(sections(o) =~= sections_v(out_view(o)));
}

} // verus!
