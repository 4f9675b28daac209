//! TOON (Tabular Object Oriented Notation): a compact rendering of scalars,
//! ordered maps and tables, with a typed header row followed by
//! pipe-separated value rows.

use vstd::prelude::*;
use crate::text::{decimal, decimal_string, digit_char, join, lemma_join_push, push_char, push_joined, push_str, views};

verus! {

/// A TOON value: scalar, map, or table.
#[derive(Debug)]
pub enum ToonValue {
    /// Plain scalar (rendered as-is).
    Scalar(String),
    /// Ordered key→value map (insertion order is kept).
    Dict(Vec<(String, ToonValue)>),
    /// Tabular data: a header row followed by value rows.
    Table { columns: Vec<String>, rows: Vec<Vec<String>> },
}

/// `depth` levels of two-space indentation.
pub open spec fn indent_text(depth: nat) -> Seq<char>
    decreases depth,
{
    if depth == 0 {
        seq![]
    } else {
        indent_text((depth - 1) as nat) + "  "@
    }
}

/// The cells a row shows: exactly `n` of them, missing ones empty.
pub open spec fn row_cells(n: nat, row: Seq<String>) -> Seq<Seq<char>> {
    Seq::new(n, |i: int| if i < row.len() { row[i]@ } else { Seq::<char>::empty() })
}

/// A table at `depth`: the header line, then one line per row.
pub open spec fn table_text(depth: nat, columns: Seq<String>, rows: Seq<Vec<String>>) -> Seq<char>
    decreases rows.len(),
{
    if rows.len() == 0 {
        indent_text(depth) + join(views(columns), " | "@)
    } else {
        table_text(depth, columns, rows.drop_last()) + "\n"@ + indent_text(depth) + join(
            row_cells(columns.len(), rows.last()@),
            " | "@,
        )
    }
}

/// How one map entry renders after its indentation.
pub open spec fn entry_text(key: Seq<char>, v: ToonValue, depth: nat) -> Seq<char>
    decreases v, 1nat,
{
    match v {
        ToonValue::Scalar(s) => key + ": "@ + s@,
        ToonValue::Dict(_) => key + ":\n"@ + render_spec(v, depth + 1),
        ToonValue::Table { columns, rows } => if rows@.len() == 0 {
            key + " [0]: (empty)"@
        } else {
            key + " ["@ + decimal(rows@.len()) + "]:\n"@ + table_text(depth + 1, columns@, rows@)
        },
    }
}

/// The entries of a map at `depth`, one per line.
pub open spec fn map_text(entries: Seq<(String, ToonValue)>, depth: nat) -> Seq<char>
    decreases entries, 0nat,
{
    if entries.len() == 0 {
        seq![]
    } else {
        let sep = if entries.len() > 1 { "\n"@ } else { Seq::<char>::empty() };
        map_text(entries.drop_last(), depth) + sep + indent_text(depth) + entry_text(
            entries.last().0@,
            entries.last().1,
            depth,
        )
    }
}

/// The TOON rendering of `v` at `depth`.
pub open spec fn render_spec(v: ToonValue, depth: nat) -> Seq<char>
    decreases v, 0nat,
{
    match v {
        ToonValue::Scalar(s) => s@,
        ToonValue::Dict(entries) => map_text(entries@, depth),
        ToonValue::Table { columns, rows } => if rows@.len() == 0 {
            indent_text(depth) + "(empty)"@
        } else {
            table_text(depth, columns@, rows@)
        },
    }
}

/// How deeply maps nest inside `v`.
pub open spec fn height(v: ToonValue) -> nat
    decreases v, 1nat,
{
    match v {
        ToonValue::Dict(entries) => 1 + heights(entries@),
        _ => 0,
    }
}

/// The greatest height among the values of `entries`.
pub open spec fn heights(entries: Seq<(String, ToonValue)>) -> nat
    decreases entries, 0nat,
{
    if entries.len() == 0 {
        0
    } else {
        let a = heights(entries.drop_last());
        let b = height(entries.last().1);
        if a >= b { a } else { b }
    }
}

pub proof fn lemma_heights(entries: Seq<(String, ToonValue)>, i: int)
    requires
        0 <= i < entries.len(),
    ensures
        height(entries[i].1) <= heights(entries),
    decreases entries.len(),
{
    if i < entries.len() - 1 {
        lemma_heights(entries.drop_last(), i);
    }
}

fn push_indent(out: &mut String, depth: usize)
    ensures
        final(out)@ == old(out)@ + indent_text(depth as nat),
{
    let mut i: usize = 0;
    while i < depth
        invariant
            i <= depth,
            out@ == old(out)@ + indent_text(i as nat),
        decreases depth - i,
    {
        push_str(out, "  ");
        i += 1;
        assert(old(out)@ + indent_text(i as nat) =~= old(out)@ + indent_text((i - 1) as nat) + "  "@);
    }
}

fn push_table(out: &mut String, depth: usize, columns: &Vec<String>, rows: &Vec<Vec<String>>)
    ensures
        final(out)@ == old(out)@ + table_text(depth as nat, columns@, rows@),
{
    push_indent(out, depth);
    push_joined(out, columns, " | ");
    assert(rows@.take(0).len() == 0);
    let mut r: usize = 0;
    while r < rows.len()
        invariant
            r <= rows.len(),
            out@ == old(out)@ + table_text(depth as nat, columns@, rows@.take(r as int)),
        decreases rows.len() - r,
    {
        push_str(out, "\n");
        push_indent(out, depth);
        let row = &rows[r];
        let mut cells: Vec<String> = Vec::new();
        let mut c: usize = 0;
        while c < columns.len()
            invariant
                c <= columns.len(),
                cells@.len() == c,
                forall|k: int| 0 <= k < c ==> #[trigger] cells@[k]@ == row_cells(columns@.len(), row@)[k],
            decreases columns.len() - c,
        {
            if c < row.len() {
                cells.push(row[c].clone());
            } else {
                cells.push(String::new());
            }
            c += 1;
        }
        assert(views(cells@) =~= row_cells(columns@.len(), row@));
        push_joined(out, &cells, " | ");
        assert(rows@.take(r + 1).drop_last() =~= rows@.take(r as int));
        r += 1;
    }
    assert(rows@.take(rows.len() as int) =~= rows@);
}

impl ToonValue {
    /// Render this value as a TOON document (no leading indent).
    pub fn render(&self) -> (out: String)
        requires
            height(*self) < usize::MAX,
        ensures
            out@ == render_spec(*self, 0),
    {
        let mut out = String::new();
        self.write(&mut out, 0);
        out
    }

    /// Render this value at a given indent depth (two spaces per level).
    pub fn render_with_indent(&self, depth: usize) -> (out: String)
        requires
            depth + height(*self) < usize::MAX,
        ensures
            out@ == render_spec(*self, depth as nat),
    {
        let mut out = String::new();
        self.write(&mut out, depth);
        out
    }

    fn write(&self, out: &mut String, depth: usize)
        requires
            depth + height(*self) < usize::MAX,
        ensures
            final(out)@ == old(out)@ + render_spec(*self, depth as nat),
        decreases *self, 0nat,
    {
        match self {
            ToonValue::Scalar(s) => {
                push_str(out, s.as_str());
            },
            ToonValue::Dict(entries) => {
                assert(decreases_to!(*self => entries@));
                write_entries(entries, out, depth);
            },
            ToonValue::Table { columns, rows } => {
                if rows.len() == 0 {
                    push_indent(out, depth);
                    push_str(out, "(empty)");
                } else {
                    push_table(out, depth, columns, rows);
                }
            },
        }
    }
}

fn write_entries(entries: &Vec<(String, ToonValue)>, out: &mut String, depth: usize)
    requires
        depth + 1 + heights(entries@) < usize::MAX,
    ensures
        final(out)@ == old(out)@ + map_text(entries@, depth as nat),
    decreases entries@, 1nat,
{
    let mut i: usize = 0;
    assert(entries@.take(0) =~= Seq::<(String, ToonValue)>::empty());
    while i < entries.len()
        invariant
            i <= entries.len(),
            depth + 1 + heights(entries@) < usize::MAX,
            out@ == old(out)@ + map_text(entries@.take(i as int), depth as nat),
        decreases entries.len() - i,
    {
        let ghost before = out@;
        proof {
            lemma_heights(entries@, i as int);
        }
        if i > 0 {
            push_char(out, '\n');
        }
        let ghost sep: Seq<char> = if i > 0 { "\n"@ } else { Seq::<char>::empty() };
        proof {
            reveal_strlit("\n");
        }
        assert(out@ == before + sep);
        push_indent(out, depth);
        let ghost after_indent = out@;
        let (k, v) = &entries[i];
        assert(decreases_to!(entries@ => entries@[i as int]));
        write_entry(k, v, out, depth);
        assert(out@ == after_indent + entry_text(k@, *v, depth as nat));
        proof {
            let t = entries@.take(i + 1);
            assert(t.drop_last() =~= entries@.take(i as int));
            assert(t.last() == entries@[i as int]);
        }
        i += 1;
    }
    assert(entries@.take(entries.len() as int) =~= entries@);
}

fn write_entry(k: &String, v: &ToonValue, out: &mut String, depth: usize)
    requires
        depth + 1 + height(*v) < usize::MAX,
    ensures
        final(out)@ == old(out)@ + entry_text(k@, *v, depth as nat),
    decreases *v, 1nat,
{
    match v {
        ToonValue::Scalar(s) => {
            push_str(out, k.as_str());
            push_str(out, ": ");
            push_str(out, s.as_str());
        },
        ToonValue::Dict(_) => {
            push_str(out, k.as_str());
            push_str(out, ":\n");
            v.write(out, depth + 1);
        },
        ToonValue::Table { columns, rows } => {
            push_str(out, k.as_str());
            if rows.len() == 0 {
                push_str(out, " [0]: (empty)");
            } else {
                push_str(out, " [");
                let n = decimal_string(rows.len() as u64);
                push_str(out, n.as_str());
                push_str(out, "]:\n");
                push_table(out, depth + 1, columns, rows);
            }
        },
    }
}

// ─── Lines and indentation ─────────────────────────────────────────────────

/// Lines each preceded by `depth` levels of indentation.
pub open spec fn indented(ls: Seq<Seq<char>>, depth: nat) -> Seq<Seq<char>> {
    ls.map_values(|l: Seq<char>| indent_text(depth) + l)
}

/// A table's lines without indentation: the header, then one per row.
pub open spec fn table_lines(columns: Seq<String>, rows: Seq<Vec<String>>) -> Seq<Seq<char>>
    decreases rows.len(),
{
    if rows.len() == 0 {
        seq![join(views(columns), " | "@)]
    } else {
        table_lines(columns, rows.drop_last()).push(join(row_cells(columns.len(), rows.last()@), " | "@))
    }
}

/// The lines of one map entry whose value is a scalar or a table, without
/// the map's indentation.
pub open spec fn entry_lines(key: Seq<char>, v: ToonValue) -> Seq<Seq<char>> {
    match v {
        ToonValue::Scalar(s) => seq![key + ": "@ + s@],
        ToonValue::Dict(_) => seq![],
        ToonValue::Table { columns, rows } => if rows@.len() == 0 {
            seq![key + " [0]: (empty)"@]
        } else {
            seq![key + " ["@ + decimal(rows@.len()) + "]:"@] + indented(table_lines(columns@, rows@), 1)
        },
    }
}

pub open spec fn map_lines(entries: Seq<(String, ToonValue)>) -> Seq<Seq<char>>
    decreases entries.len(),
{
    if entries.len() == 0 {
        seq![]
    } else {
        map_lines(entries.drop_last()) + entry_lines(entries.last().0@, entries.last().1)
    }
}

/// The lines `v` renders to at depth 0.
pub open spec fn toon_lines(v: ToonValue) -> Seq<Seq<char>> {
    match v {
        ToonValue::Scalar(s) => seq![s@],
        ToonValue::Dict(entries) => map_lines(entries@),
        ToonValue::Table { columns, rows } => if rows@.len() == 0 {
            seq!["(empty)"@]
        } else {
            table_lines(columns@, rows@)
        },
    }
}

/// A table, or a map whose values are scalars or tables.
pub open spec fn is_flat(v: ToonValue) -> bool {
    match v {
        ToonValue::Scalar(_) => false,
        ToonValue::Dict(entries) => forall|i: int| 0 <= i < entries@.len() ==> !((#[trigger] entries@[i]).1 is Dict),
        ToonValue::Table { .. } => true,
    }
}

proof fn lemma_join_concat(a: Seq<Seq<char>>, b: Seq<Seq<char>>, sep: Seq<char>)
    requires
        a.len() > 0,
        b.len() > 0,
    ensures
        join(a + b, sep) == join(a, sep) + sep + join(b, sep),
    decreases b.len(),
{
    let b1 = b.drop_last();
    let x = b.last();
    assert(a + b =~= (a + b1).push(x));
    assert(b =~= b1.push(x));
    lemma_join_push(a + b1, sep, x);
    lemma_join_push(b1, sep, x);
    if b1.len() == 0 {
        assert(a + b1 =~= a);
    } else {
        lemma_join_concat(a, b1, sep);
        assert(join(a, sep) + sep + join(b1, sep) + sep + x =~= join(a, sep) + sep + (join(b1, sep) + sep + x));
    }
}

proof fn lemma_indented_push(ls: Seq<Seq<char>>, x: Seq<char>, depth: nat)
    ensures
        indented(ls.push(x), depth) =~= indented(ls, depth).push(indent_text(depth) + x),
{
}

proof fn lemma_indented_concat(a: Seq<Seq<char>>, b: Seq<Seq<char>>, depth: nat)
    ensures
        indented(a + b, depth) =~= indented(a, depth) + indented(b, depth),
{
}

proof fn lemma_indented_twice(ls: Seq<Seq<char>>, depth: nat)
    ensures
        indented(indented(ls, 1), depth) =~= indented(ls, depth + 1),
{
    assert(indent_text(0) =~= Seq::<char>::empty());
    assert(indent_text(1) =~= "  "@);
    assert forall|i: int| 0 <= i < ls.len() implies indent_text(depth) + (indent_text(1) + ls[i]) =~= indent_text(
        depth + 1,
    ) + ls[i] by {
        assert(indent_text(depth + 1) == indent_text(depth) + "  "@);
    }
}

proof fn lemma_table_lines(columns: Seq<String>, rows: Seq<Vec<String>>, depth: nat)
    ensures
        table_lines(columns, rows).len() == rows.len() + 1,
        table_text(depth, columns, rows) == join(indented(table_lines(columns, rows), depth), "\n"@),
    decreases rows.len(),
{
    if rows.len() > 0 {
        let ls = table_lines(columns, rows.drop_last());
        let x = join(row_cells(columns.len(), rows.last()@), " | "@);
        lemma_table_lines(columns, rows.drop_last(), depth);
        lemma_indented_push(ls, x, depth);
        lemma_join_push(indented(ls, depth), "\n"@, indent_text(depth) + x);
        assert(table_text(depth, columns, rows.drop_last()) + "\n"@ + indent_text(depth) + x =~= join(
            indented(ls, depth),
            "\n"@,
        ) + "\n"@ + (indent_text(depth) + x));
    }
}

proof fn lemma_entry_lines(key: Seq<char>, v: ToonValue, depth: nat)
    requires
        !(v is Dict),
    ensures
        entry_lines(key, v).len() > 0,
        indent_text(depth) + entry_text(key, v, depth) == join(indented(entry_lines(key, v), depth), "\n"@),
{
    match v {
        ToonValue::Scalar(s) => {
            assert(indented(entry_lines(key, v), depth) =~= seq![indent_text(depth) + (key + ": "@ + s@)]);
            assert(indent_text(depth) + entry_text(key, v, depth) =~= indent_text(depth) + (key + ": "@ + s@));
        },
        ToonValue::Dict(_) => {},
        ToonValue::Table { columns, rows } => {
            if rows@.len() == 0 {
                assert(indented(entry_lines(key, v), depth) =~= seq![indent_text(depth) + (key + " [0]: (empty)"@)]);
                assert(indent_text(depth) + entry_text(key, v, depth) =~= indent_text(depth) + (key
                    + " [0]: (empty)"@));
            } else {
                let h = key + " ["@ + decimal(rows@.len()) + "]:"@;
                let t = table_lines(columns@, rows@);
                lemma_table_lines(columns@, rows@, depth + 1);
                lemma_indented_concat(seq![h], indented(t, 1), depth);
                lemma_indented_twice(t, depth);
                assert(indented(seq![h], depth) =~= seq![indent_text(depth) + h]);
                lemma_join_concat(seq![indent_text(depth) + h], indented(t, depth + 1), "\n"@);
                assert(join(seq![indent_text(depth) + h], "\n"@) == indent_text(depth) + h);
                reveal_strlit("]:\n");
                reveal_strlit("]:");
                reveal_strlit("\n");
                assert("]:\n"@ =~= "]:"@ + "\n"@);
                assert(indent_text(depth) + entry_text(key, v, depth) =~= indent_text(depth) + h + "\n"@ + join(
                    indented(t, depth + 1),
                    "\n"@,
                ));
            }
        },
    }
}

proof fn lemma_map_lines(entries: Seq<(String, ToonValue)>, depth: nat)
    requires
        forall|i: int| 0 <= i < entries.len() ==> !((#[trigger] entries[i]).1 is Dict),
    ensures
        entries.len() > 0 ==> map_lines(entries).len() > 0,
        map_text(entries, depth) == join(indented(map_lines(entries), depth), "\n"@),
    decreases entries.len(),
{
    if entries.len() > 0 {
        let prev = entries.drop_last();
        let (k, v) = entries.last();
        assert(!(entries[entries.len() - 1].1 is Dict));
        assert forall|i: int| 0 <= i < prev.len() implies !((#[trigger] prev[i]).1 is Dict) by {
            assert(prev[i] == entries[i]);
        }
        lemma_map_lines(prev, depth);
        lemma_entry_lines(k@, v, depth);
        let a = map_lines(prev);
        let e = entry_lines(k@, v);
        lemma_indented_concat(a, e, depth);
        if prev.len() == 0 {
            assert(a =~= Seq::<Seq<char>>::empty());
            assert(indented(a, depth) + indented(e, depth) =~= indented(e, depth));
            assert(map_text(entries, depth) =~= indent_text(depth) + entry_text(k@, v, depth));
        } else {
            lemma_join_concat(indented(a, depth), indented(e, depth), "\n"@);
            assert(map_text(entries, depth) =~= map_text(prev, depth) + "\n"@ + (indent_text(depth) + entry_text(
                k@,
                v,
                depth,
            )));
        }
    }
}

/// `t` holds no newline.
pub open spec fn no_newline(t: Seq<char>) -> bool {
    forall|i: int| 0 <= i < t.len() ==> t[i] != '\n'
}

pub open spec fn all_no_newline(ts: Seq<Seq<char>>) -> bool {
    forall|i: int| 0 <= i < ts.len() ==> no_newline(#[trigger] ts[i])
}

/// No text of a scalar or a table (column or cell) holds a newline.
pub open spec fn value_texts_single_line(v: ToonValue) -> bool {
    match v {
        ToonValue::Scalar(s) => no_newline(s@),
        ToonValue::Dict(_) => false,
        ToonValue::Table { columns, rows } => all_no_newline(views(columns@)) && forall|r: int|
            0 <= r < rows@.len() ==> all_no_newline(views((#[trigger] rows@[r])@)),
    }
}

/// No key, scalar, column or cell of `v` holds a newline.
pub open spec fn texts_single_line(v: ToonValue) -> bool {
    match v {
        ToonValue::Dict(entries) => forall|i: int|
            0 <= i < entries@.len() ==> no_newline((#[trigger] entries@[i]).0@) && value_texts_single_line(
                entries@[i].1,
            ),
        _ => value_texts_single_line(v),
    }
}

proof fn lemma_concat_no_newline(a: Seq<char>, b: Seq<char>)
    requires
        no_newline(a),
        no_newline(b),
    ensures
        no_newline(a + b),
{
    assert forall|i: int| 0 <= i < (a + b).len() implies (a + b)[i] != '\n' by {
        if i >= a.len() {
            assert((a + b)[i] == b[i - a.len()]);
        }
    }
}

proof fn lemma_decimal_no_newline(n: nat)
    ensures
        no_newline(decimal(n)),
    decreases n,
{
    if n >= 10 {
        lemma_decimal_no_newline(n / 10);
        lemma_concat_no_newline(decimal(n / 10), seq![digit_char(n % 10)]);
    }
}

proof fn lemma_indent_no_newline(depth: nat)
    ensures
        no_newline(indent_text(depth)),
    decreases depth,
{
    if depth > 0 {
        reveal_strlit("  ");
        lemma_indent_no_newline((depth - 1) as nat);
        lemma_concat_no_newline(indent_text((depth - 1) as nat), "  "@);
    }
}

proof fn lemma_join_no_newline(ts: Seq<Seq<char>>, sep: Seq<char>)
    requires
        all_no_newline(ts),
        no_newline(sep),
    ensures
        no_newline(join(ts, sep)),
    decreases ts.len(),
{
    if ts.len() > 1 {
        let prev = ts.drop_last();
        assert forall|i: int| 0 <= i < prev.len() implies no_newline(#[trigger] prev[i]) by {
            assert(prev[i] == ts[i]);
        }
        lemma_join_no_newline(prev, sep);
        assert(no_newline(ts[ts.len() - 1]));
        lemma_concat_no_newline(join(prev, sep), sep);
        lemma_concat_no_newline(join(prev, sep) + sep, ts.last());
    } else if ts.len() == 1 {
        assert(no_newline(ts[0]));
    }
}

proof fn lemma_table_lines_no_newline(columns: Seq<String>, rows: Seq<Vec<String>>)
    requires
        all_no_newline(views(columns)),
        forall|r: int| 0 <= r < rows.len() ==> all_no_newline(views((#[trigger] rows[r])@)),
    ensures
        all_no_newline(table_lines(columns, rows)),
    decreases rows.len(),
{
    reveal_strlit(" | ");
    if rows.len() == 0 {
        lemma_join_no_newline(views(columns), " | "@);
    } else {
        let prev = rows.drop_last();
        assert forall|r: int| 0 <= r < prev.len() implies all_no_newline(views((#[trigger] prev[r])@)) by {
            assert(prev[r] == rows[r]);
        }
        lemma_table_lines_no_newline(columns, prev);
        let row = rows.last()@;
        let cells = row_cells(columns.len(), row);
        assert(all_no_newline(views(rows[rows.len() - 1]@)));
        assert forall|i: int| 0 <= i < cells.len() implies no_newline(#[trigger] cells[i]) by {
            if i < row.len() {
                assert(views(row)[i] == row[i]@);
            }
        }
        lemma_join_no_newline(cells, " | "@);
        let ls = table_lines(columns, rows);
        assert forall|i: int| 0 <= i < ls.len() implies no_newline(#[trigger] ls[i]) by {
            if i < ls.len() - 1 {
                assert(ls[i] == table_lines(columns, prev)[i]);
            }
        }
    }
}

proof fn lemma_indented_no_newline(ls: Seq<Seq<char>>, depth: nat)
    requires
        all_no_newline(ls),
    ensures
        all_no_newline(indented(ls, depth)),
{
    lemma_indent_no_newline(depth);
    assert forall|i: int| 0 <= i < indented(ls, depth).len() implies no_newline(#[trigger] indented(ls, depth)[i]) by {
        assert(no_newline(ls[i]));
        lemma_concat_no_newline(indent_text(depth), ls[i]);
    }
}

proof fn lemma_entry_lines_no_newline(key: Seq<char>, v: ToonValue)
    requires
        no_newline(key),
        value_texts_single_line(v),
    ensures
        all_no_newline(entry_lines(key, v)),
{
    match v {
        ToonValue::Scalar(s) => {
            reveal_strlit(": ");
            lemma_concat_no_newline(key, ": "@);
            lemma_concat_no_newline(key + ": "@, s@);
            assert(entry_lines(key, v)[0] == key + ": "@ + s@);
        },
        ToonValue::Dict(_) => {},
        ToonValue::Table { columns, rows } => {
            if rows@.len() == 0 {
                reveal_strlit(" [0]: (empty)");
                lemma_concat_no_newline(key, " [0]: (empty)"@);
                assert(entry_lines(key, v)[0] == key + " [0]: (empty)"@);
            } else {
                reveal_strlit(" [");
                reveal_strlit("]:");
                lemma_decimal_no_newline(rows@.len());
                lemma_concat_no_newline(key, " ["@);
                lemma_concat_no_newline(key + " ["@, decimal(rows@.len()));
                lemma_concat_no_newline(key + " ["@ + decimal(rows@.len()), "]:"@);
                let h = key + " ["@ + decimal(rows@.len()) + "]:"@;
                lemma_table_lines_no_newline(columns@, rows@);
                lemma_indented_no_newline(table_lines(columns@, rows@), 1);
                let t = indented(table_lines(columns@, rows@), 1);
                let ls = entry_lines(key, v);
                assert(ls == seq![h] + t);
                assert forall|i: int| 0 <= i < ls.len() implies no_newline(#[trigger] ls[i]) by {
                    if i > 0 {
                        assert(ls[i] == t[i - 1]);
                    }
                }
            }
        },
    }
}

proof fn lemma_map_lines_no_newline(entries: Seq<(String, ToonValue)>)
    requires
        forall|i: int|
            0 <= i < entries.len() ==> no_newline((#[trigger] entries[i]).0@) && value_texts_single_line(
                entries[i].1,
            ),
    ensures
        all_no_newline(map_lines(entries)),
    decreases entries.len(),
{
    if entries.len() > 0 {
        let prev = entries.drop_last();
        assert forall|i: int| 0 <= i < prev.len() implies no_newline((#[trigger] prev[i]).0@)
            && value_texts_single_line(prev[i].1) by {
            assert(prev[i] == entries[i]);
        }
        lemma_map_lines_no_newline(prev);
        let (k, v) = entries.last();
        assert(no_newline(entries[entries.len() - 1].0@));
        lemma_entry_lines_no_newline(k@, v);
        let a = map_lines(prev);
        let e = entry_lines(k@, v);
        assert forall|i: int| 0 <= i < (a + e).len() implies no_newline(#[trigger] (a + e)[i]) by {
            if i >= a.len() {
                assert((a + e)[i] == e[i - a.len()]);
            } else {
                assert((a + e)[i] == a[i]);
            }
        }
    }
}

/// Indentation shifts whole lines: a table, or a map whose values are
/// scalars or tables, renders at any depth as the lines it renders to at
/// depth 0 (`render`), each preceded by two spaces per level, joined by
/// newlines; a scalar renders the same at every depth. Where no key,
/// scalar, column or cell holds a newline, none of those lines does, so
/// they are exactly the lines of the rendering.
pub proof fn law_indent_shifts_lines(v: ToonValue, depth: nat)
    requires
        is_flat(v) || v is Scalar,
    ensures
        render_spec(v, 0) == join(toon_lines(v), "\n"@),
        texts_single_line(v) ==> all_no_newline(toon_lines(v)),
        is_flat(v) ==> render_spec(v, depth) == join(indented(toon_lines(v), depth), "\n"@),
        v is Scalar ==> render_spec(v, depth) == render_spec(v, 0),
{
    assert forall|ls: Seq<Seq<char>>| indented(ls, 0) =~= ls by {
        assert(indent_text(0) =~= Seq::<char>::empty());
        assert forall|i: int| 0 <= i < ls.len() implies indent_text(0) + ls[i] =~= ls[i] by {}
    }
    match v {
        ToonValue::Scalar(s) => {},
        ToonValue::Dict(entries) => {
            lemma_map_lines(entries@, 0);
            lemma_map_lines(entries@, depth);
            if texts_single_line(v) {
                lemma_map_lines_no_newline(entries@);
            }
        },
        ToonValue::Table { columns, rows } => {
            if texts_single_line(v) && rows@.len() > 0 {
                lemma_table_lines_no_newline(columns@, rows@);
            }
            if rows@.len() == 0 {
                reveal_strlit("(empty)");
                assert(indented(seq!["(empty)"@], depth) =~= seq![indent_text(depth) + "(empty)"@]);
                assert(indented(seq!["(empty)"@], 0) =~= seq![indent_text(0) + "(empty)"@]);
                assert(indent_text(0) + "(empty)"@ =~= "(empty)"@);
            } else {
                lemma_table_lines(columns@, rows@, 0);
                lemma_table_lines(columns@, rows@, depth);
            }
        },
    }
}

/// Fluent builder for TOON documents.
#[derive(Debug)]
pub struct ToonBuilder {
    pub entries: Vec<(String, ToonValue)>,
}

impl ToonBuilder {
    pub fn new() -> (b: Self)
        ensures
            b.entries@.len() == 0,
    {
        ToonBuilder { entries: Vec::new() }
    }

    /// Add a scalar field.
    pub fn field(self, key: &str, value: &str) -> (b: Self)
        ensures
            b.entries@.len() == self.entries@.len() + 1,
            b.entries@.drop_last() == self.entries@,
            b.entries@.last().0@ == key@,
            b.entries@.last().1 matches ToonValue::Scalar(s) && s@ == value@,
    {
        let mut entries = self.entries;
        entries.push((key.to_owned(), ToonValue::Scalar(value.to_owned())));
        assert(entries@.drop_last() =~= self.entries@);
        ToonBuilder { entries }
    }

    /// Add a nested value under `key`.
    pub fn map(self, key: &str, value: ToonValue) -> (b: Self)
        ensures
            b.entries@ == self.entries@.push((b.entries@.last().0, value)),
            b.entries@.last().0@ == key@,
    {
        let mut entries = self.entries;
        entries.push((key.to_owned(), value));
        ToonBuilder { entries }
    }

    /// Add a table under `key`.
    pub fn table(self, key: &str, columns: Vec<String>, rows: Vec<Vec<String>>) -> (b: Self)
        ensures
            b.entries@ == self.entries@.push(
                (b.entries@.last().0, ToonValue::Table { columns, rows }),
            ),
            b.entries@.last().0@ == key@,
    {
        let mut entries = self.entries;
        entries.push((key.to_owned(), ToonValue::Table { columns, rows }));
        ToonBuilder { entries }
    }

    /// The map holding every entry added, in order.
    pub fn build(self) -> (v: ToonValue)
        ensures
            v == ToonValue::Dict(self.entries),
    {
        ToonValue::Dict(self.entries)
    }
}

} // verus!
