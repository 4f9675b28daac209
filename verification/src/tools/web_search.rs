//! WebSearch: a web search through the Brave API or DuckDuckGo's HTML page.
//! This module reads the call's arguments, builds the query, reads the result
//! entries out of DuckDuckGo's page, and shapes the results into a table; the
//! HTTP requests are left to the caller.

use vstd::prelude::*;
use vstd::utf8::encode_utf8;
use super::Early;
use crate::text::{
    blen, chars_of, debug_quote, debug_str, decimal, find_pos, find_str, has_sub, idx_of,
    index_of_char, lemma_find_pos, owned, prefix, push_char, push_str, replace_all,
    replace_str, split_on_str, split_str, starts_with, str_starts_with, string_of, trim,
    trim_str, views,
};
use crate::tool_input::{opt_views, ToolInput};
use crate::tool_output::{out_view, BodyV, OutV, ToolBody, ToolOutput, Truncation};
use crate::toon::ToonValue;

verus! {

// ─── Percent-decoding ───────────────────────────────────────────────────────

/// The value of an ASCII hex digit.
pub open spec fn hex_val(c: u8) -> Option<u8> {
    if 48 <= c <= 57 {
        Some((c - 48) as u8)
    } else if 97 <= c <= 102 {
        Some((c - 87) as u8)
    } else if 65 <= c <= 70 {
        Some((c - 55) as u8)
    } else {
        None
    }
}

/// The byte two characters after a `%` stand for, as `u8::from_str_radix`
/// with radix 16 reads them (a leading `+` is allowed).
pub open spec fn pair_val(hi: u8, lo: u8) -> Option<u8> {
    match (hex_val(hi), hex_val(lo)) {
        (Some(h), Some(l)) => Some((h * 16 + l) as u8),
        (None, Some(l)) => if hi == 43 {
            Some(l)
        } else {
            None
        },
        _ => None,
    }
}

/// Percent-decoding byte by byte: `%XY` becomes the character with the code
/// 0xXY, and every other byte the character with that code; a `%` the end
/// cuts short reads the missing digits as `0`.
pub open spec fn url_decoded(b: Seq<u8>) -> Seq<char>
    decreases b.len(),
{
    if b.len() == 0 {
        seq![]
    } else if b[0] == 37 {
        let hi: u8 = if b.len() > 1 { b[1] } else { 48 };
        let lo: u8 = if b.len() > 2 { b[2] } else { 48 };
        let rest = if b.len() > 3 { b.skip(3) } else { seq![] };
        match pair_val(hi, lo) {
            Some(v) => seq![v as char] + url_decoded(rest),
            None => seq!['%', hi as char, lo as char] + url_decoded(rest),
        }
    } else {
        seq![b[0] as char] + url_decoded(b.skip(1))
    }
}

fn hex_digit(c: u8) -> (r: Option<u8>)
    ensures
        r == hex_val(c),
{
    if 48 <= c && c <= 57 {
        Some(c - 48)
    } else if 97 <= c && c <= 102 {
        Some(c - 87)
    } else if 65 <= c && c <= 70 {
        Some(c - 55)
    } else {
        None
    }
}

fn hex_pair(hi: u8, lo: u8) -> (r: Option<u8>)
    ensures
        r == pair_val(hi, lo),
{
    match (hex_digit(hi), hex_digit(lo)) {
        (Some(h), Some(l)) => Some(h * 16 + l),
        (None, Some(l)) => if hi == 43 {
            Some(l)
        } else {
            None
        },
        _ => None,
    }
}

/// Percent-decodes the bytes of `s`.
pub fn url_decode(s: &str) -> (out: String)
    ensures
        out@ == url_decoded(encode_utf8(s@)),
{
    let b = s.as_bytes();
    let n = b.len();
    let mut out = String::new();
    let mut i: usize = 0;
    assert(b@.skip(0) =~= b@);
    while i < n
        invariant
            i <= n == b@.len(),
            b@ == encode_utf8(s@),
            out@ + url_decoded(b@.skip(i as int)) == url_decoded(b@),
        decreases n - i,
    {
        let ghost rest = b@.skip(i as int);
        let ghost before = out@;
        let c = b[i];
        if c == 37 {
            let hi: u8 = if n - i > 1 { b[i + 1] } else { 48 };
            let lo: u8 = if n - i > 2 { b[i + 2] } else { 48 };
            match hex_pair(hi, lo) {
                Some(v) => {
                    push_char(&mut out, v as char);
                },
                None => {
                    push_char(&mut out, '%');
                    push_char(&mut out, hi as char);
                    push_char(&mut out, lo as char);
                },
            }
            let next = if n - i > 3 { i + 3 } else { n };
            proof {
                assert(rest[0] == c);
                if i + 3 < n {
                    assert(rest.skip(3) =~= b@.skip(next as int));
                } else {
                    assert(b@.skip(next as int) =~= Seq::<u8>::empty());
                }
                if i + 1 < n {
                    assert(rest[1] == hi);
                }
                if i + 2 < n {
                    assert(rest[2] == lo);
                }
            }
            i = next;
        } else {
            push_char(&mut out, c as char);
            proof {
                assert(rest[0] == c);
                assert(rest.skip(1) =~= b@.skip(i + 1));
            }
            i += 1;
        }
        assert(out@ + url_decoded(b@.skip(i as int)) =~= before + url_decoded(rest));
    }
    assert(url_decoded(b@.skip(n as int)) =~= Seq::<char>::empty());
    assert(out@ + Seq::<char>::empty() =~= out@);
    out
}

// ─── HTML text ──────────────────────────────────────────────────────────────

/// The characters of `s` outside `<...>` tags; `in_tag` says whether `s`
/// starts inside one.
pub open spec fn strip_tags_from(s: Seq<char>, in_tag: bool) -> Seq<char>
    decreases s.len(),
{
    if s.len() == 0 {
        seq![]
    } else if s[0] == '<' {
        strip_tags_from(s.drop_first(), true)
    } else if s[0] == '>' {
        strip_tags_from(s.drop_first(), false)
    } else if !in_tag {
        seq![s[0]] + strip_tags_from(s.drop_first(), in_tag)
    } else {
        strip_tags_from(s.drop_first(), in_tag)
    }
}

/// The common HTML entities replaced by their characters, in this order.
pub open spec fn unescape_entities(s: Seq<char>) -> Seq<char> {
    let a = replace_all(s, "&amp;"@, "&"@);
    let b = replace_all(a, "&lt;"@, "<"@);
    let c = replace_all(b, "&gt;"@, ">"@);
    let d = replace_all(c, "&quot;"@, "\""@);
    let e = replace_all(d, "&#x27;"@, "'"@);
    let f = replace_all(e, "&apos;"@, "'"@);
    replace_all(f, "&#39;"@, "'"@)
}

/// The text of an HTML fragment: tags dropped, entities replaced, trimmed.
pub open spec fn html_fragment_text(s: Seq<char>) -> Seq<char> {
    trim(unescape_entities(strip_tags_from(s, false)))
}

/// The text of an HTML fragment: tags dropped, entities replaced, trimmed.
pub fn strip_html_tags(s: &str) -> (out: String)
    ensures
        out@ == html_fragment_text(s@),
{
    let v = chars_of(s);
    let mut text = String::new();
    let mut in_tag = false;
    let mut i: usize = 0;
    assert(v@.skip(0) =~= v@);
    while i < v.len()
        invariant
            i <= v@.len(),
            v@ == s@,
            text@ + strip_tags_from(v@.skip(i as int), in_tag) == strip_tags_from(s@, false),
        decreases v@.len() - i,
    {
        let ghost rest = v@.skip(i as int);
        let ghost before = text@;
        let c = v[i];
        proof {
            assert(rest[0] == c);
            assert(rest.drop_first() =~= v@.skip(i + 1));
        }
        if c == '<' {
            in_tag = true;
        } else if c == '>' {
            in_tag = false;
        } else if !in_tag {
            push_char(&mut text, c);
            assert(before + strip_tags_from(rest, in_tag) =~= text@ + strip_tags_from(
                v@.skip(i + 1),
                in_tag,
            ));
        }
        i += 1;
    }
    assert(strip_tags_from(v@.skip(i as int), in_tag) =~= Seq::<char>::empty());
    assert(text@ + Seq::<char>::empty() =~= text@);
    proof {
        reveal_strlit("&amp;");
        reveal_strlit("&lt;");
        reveal_strlit("&gt;");
        reveal_strlit("&quot;");
        reveal_strlit("&#x27;");
        reveal_strlit("&apos;");
        reveal_strlit("&#39;");
    }
    let a = replace_str(text.as_str(), "&amp;", "&");
    let b = replace_str(a.as_str(), "&lt;", "<");
    let c = replace_str(b.as_str(), "&gt;", ">");
    let d = replace_str(c.as_str(), "&quot;", "\"");
    let e = replace_str(d.as_str(), "&#x27;", "'");
    let f = replace_str(e.as_str(), "&apos;", "'");
    let g = replace_str(f.as_str(), "&#39;", "'");
    trim_str(g.as_str())
}

/// A snippet on one line, cut to `max` characters with `…` when longer.
pub open spec fn snippet_text(s: Seq<char>, max: nat) -> Seq<char> {
    if s.len() <= max {
        trim(replace_all(s, "\n"@, " "@))
    } else {
        trim(replace_all(s.take(max as int), "\n"@, " "@)) + "…"@
    }
}

/// A snippet on one line, cut to `max` characters with `…` when longer.
pub fn truncate_snippet(s: &str, max: usize) -> (out: String)
    ensures
        out@ == snippet_text(s@, max as nat),
{
    proof {
        reveal_strlit("\n");
    }
    let v = chars_of(s);
    if v.len() <= max {
        let r = replace_str(s, "\n", " ");
        trim_str(r.as_str())
    } else {
        let head = string_of(&v, 0, max);
        assert(v@.subrange(0, max as int) =~= s@.take(max as int));
        let r = replace_str(head.as_str(), "\n", " ");
        let mut out = trim_str(r.as_str());
        push_str(&mut out, "…");
        out
    }
}

// ─── DuckDuckGo's result page ───────────────────────────────────────────────

/// The target of a DuckDuckGo result link: the decoded `uddg` parameter of a
/// redirect, or the link itself (made absolute when it starts with `//`).
pub open spec fn ddg_url(raw: Seq<char>) -> Seq<char> {
    if has_sub(raw, "uddg="@) {
        let enc = raw.skip(find_pos(raw, "uddg="@) + 5);
        url_decoded(encode_utf8(enc.take(idx_of(enc, '&'))))
    } else if starts_with(raw, "http"@) {
        raw
    } else if starts_with(raw, "//"@) {
        "https:"@ + raw
    } else {
        raw
    }
}

/// The target of a DuckDuckGo result link.
pub fn extract_ddg_url(raw: &str) -> (out: String)
    ensures
        out@ == ddg_url(raw@),
{
    match find_str(raw, "uddg=") {
        Some(p) => {
            proof {
                reveal_strlit("uddg=");
                lemma_find_pos(raw@, "uddg="@);
            }
            let v = chars_of(raw);
            let n = v.len();
            assert(p + 5 <= n);
            let enc = string_of(&v, p + 5, n);
            assert(v@.subrange(p + 5, v@.len() as int) =~= raw@.skip(p + 5));
            let ev = chars_of(enc.as_str());
            let amp = index_of_char(&ev, '&', 0);
            assert(ev@.skip(0) =~= ev@);
            let cut = string_of(&ev, 0, amp);
            assert(ev@.subrange(0, amp as int) =~= enc@.take(amp as int));
            url_decode(cut.as_str())
        },
        None => {
            if str_starts_with(raw, "http") {
                owned(raw)
            } else if str_starts_with(raw, "//") {
                let mut out = owned("https:");
                push_str(&mut out, raw);
                out
            } else {
                owned(raw)
            }
        },
    }
}

/// The text between the first `>` of `s` and the first `close` after it.
pub open spec fn tag_content(s: Seq<char>, close: Seq<char>) -> Seq<char> {
    let gt = idx_of(s, '>');
    if gt < s.len() {
        let after = s.skip(gt + 1);
        if has_sub(after, close) {
            html_fragment_text(after.take(find_pos(after, close)))
        } else {
            seq![]
        }
    } else {
        seq![]
    }
}

/// The target of the first `href="..."` of `s`.
pub open spec fn href_target(s: Seq<char>) -> Seq<char> {
    if has_sub(s, "href=\""@) {
        let hc = s.skip(find_pos(s, "href=\""@) + 6);
        let e = idx_of(hc, '"');
        if e < hc.len() {
            ddg_url(hc.take(e))
        } else {
            seq![]
        }
    } else {
        seq![]
    }
}

/// The result one block of the page holds: its link's title and target, and
/// its snippet; none without a link, a title or a target.
pub open spec fn block_result(b: Seq<char>) -> Option<(Seq<char>, Seq<char>, Seq<char>)> {
    if !has_sub(b, "class=\"result__a\""@) {
        None
    } else {
        let after_link = b.skip(find_pos(b, "class=\"result__a\""@));
        let url = href_target(after_link);
        let title = tag_content(after_link, "</a>"@);
        if url.len() == 0 || title.len() == 0 {
            None
        } else {
            let snippet = if has_sub(b, "class=\"result__snippet\""@) {
                tag_content(b.skip(find_pos(b, "class=\"result__snippet\""@)), "</"@)
            } else {
                seq![]
            };
            Some((title, url, snippet))
        }
    }
}

/// The results of the blocks, in order.
pub open spec fn block_results(blocks: Seq<Seq<char>>) -> Seq<(Seq<char>, Seq<char>, Seq<char>)>
    decreases blocks.len(),
{
    if blocks.len() == 0 {
        seq![]
    } else {
        let prev = block_results(blocks.drop_last());
        match block_result(blocks.last()) {
            Some(r) => prev.push(r),
            None => prev,
        }
    }
}

/// The first `limit` results of a DuckDuckGo result page.
pub open spec fn ddg_results(html: Seq<char>, limit: nat) -> Seq<(Seq<char>, Seq<char>, Seq<char>)> {
    let all = block_results(split_str(html, "class=\"result__body"@));
    if all.len() <= limit {
        all
    } else {
        all.take(limit as int)
    }
}

pub proof fn lemma_block_results_prefix(blocks: Seq<Seq<char>>, i: int)
    requires
        0 <= i <= blocks.len(),
    ensures
        block_results(blocks.take(i)).len() <= block_results(blocks).len(),
        block_results(blocks) .take(block_results(blocks.take(i)).len() as int) == block_results(
            blocks.take(i),
        ),
    decreases blocks.len() - i,
{
    if i == blocks.len() {
        assert(blocks.take(i) =~= blocks);
        assert(block_results(blocks).take(block_results(blocks).len() as int) =~= block_results(blocks));
    } else {
        let d = blocks.drop_last();
        assert(d.take(i) =~= blocks.take(i));
        lemma_block_results_prefix(d, i);
        let a = block_results(d.take(i));
        let full = block_results(blocks);
        assert(full.take(a.len() as int) =~= block_results(d).take(a.len() as int));
    }
}

/// `s` from position `k` on.
fn tail_from(v: &Vec<char>, k: usize) -> (out: String)
    requires
        k <= v@.len(),
    ensures
        out@ == v@.skip(k as int),
{
    let out = string_of(v, k, v.len());
    assert(v@.subrange(k as int, v@.len() as int) =~= v@.skip(k as int));
    out
}

/// `s` from the first occurrence of `p` on.
fn from_pattern(s: &str, p: &str) -> (r: Option<String>)
    ensures
        match r {
            Some(t) => has_sub(s@, p@) && t@ == s@.skip(find_pos(s@, p@)),
            None => !has_sub(s@, p@),
        },
{
    match find_str(s, p) {
        Some(k) => {
            let v = chars_of(s);
            proof {
                lemma_find_pos(s@, p@);
            }
            Some(tail_from(&v, k))
        },
        None => None,
    }
}

fn tag_content_of(s: &str, close: &str) -> (out: String)
    ensures
        out@ == tag_content(s@, close@),
{
    let v = chars_of(s);
    let gt = index_of_char(&v, '>', 0);
    assert(v@.skip(0) =~= v@);
    if gt == v.len() {
        return String::new();
    }
    let after = tail_from(&v, gt + 1);
    match find_str(after.as_str(), close) {
        Some(k) => {
            proof {
                lemma_find_pos(after@, close@);
            }
            let av = chars_of(after.as_str());
            let inner = string_of(&av, 0, k);
            assert(av@.subrange(0, k as int) =~= after@.take(k as int));
            strip_html_tags(inner.as_str())
        },
        None => String::new(),
    }
}

fn href_target_of(s: &str) -> (out: String)
    ensures
        out@ == href_target(s@),
{
    proof {
        reveal_strlit("href=\"");
    }
    match find_str(s, "href=\"") {
        Some(k) => {
            proof {
                lemma_find_pos(s@, "href=\""@);
            }
            let v = chars_of(s);
            let n = v.len();
            assert(k + 6 <= n);
            let hc = tail_from(&v, k + 6);
            let hv = chars_of(hc.as_str());
            let e = index_of_char(&hv, '"', 0);
            assert(hv@.skip(0) =~= hv@);
            if e == hv.len() {
                String::new()
            } else {
                let raw = string_of(&hv, 0, e);
                assert(hv@.subrange(0, e as int) =~= hc@.take(e as int));
                extract_ddg_url(raw.as_str())
            }
        },
        None => String::new(),
    }
}

/// The result a block of the page holds.
fn parse_block(b: &str) -> (r: Option<(String, String, String)>)
    ensures
        match r {
            Some(t) => block_result(b@) == Some((t.0@, t.1@, t.2@)),
            None => block_result(b@) is None,
        },
{
    let after_link = match from_pattern(b, "class=\"result__a\"") {
        Some(t) => t,
        None => {
            return None;
        },
    };
    let url = href_target_of(after_link.as_str());
    let title = tag_content_of(after_link.as_str(), "</a>");
    if url.as_str().is_empty() || title.as_str().is_empty() {
        return None;
    }
    let snippet = match from_pattern(b, "class=\"result__snippet\"") {
        Some(t) => tag_content_of(t.as_str(), "</"),
        None => String::new(),
    };
    Some((title, url, snippet))
}

/// The first `limit` results of a DuckDuckGo result page: title, target
/// and snippet of each.
pub fn parse_ddg_html(html: &str, limit: usize) -> (out: Vec<(String, String, String)>)
    ensures
        out@.map_values(|t: (String, String, String)| (t.0@, t.1@, t.2@)) == ddg_results(
            html@,
            limit as nat,
        ),
{
    proof {
        reveal_strlit("class=\"result__body");
    }
    let blocks = split_on_str(html, "class=\"result__body");
    let ghost bv = views(blocks@);
    let mut out: Vec<(String, String, String)> = Vec::new();
    let mut i: usize = 0;
    while i < blocks.len() && out.len() < limit
        invariant
            i <= blocks@.len(),
            bv == views(blocks@),
            bv == split_str(html@, "class=\"result__body"@),
            out@.map_values(|t: (String, String, String)| (t.0@, t.1@, t.2@)) == block_results(
                bv.take(i as int),
            ),
            out@.len() <= limit,
        decreases blocks@.len() - i,
    {
        let ghost before = out@.map_values(|t: (String, String, String)| (t.0@, t.1@, t.2@));
        proof {
            assert(bv.take(i + 1).drop_last() =~= bv.take(i as int));
            assert(bv.take(i + 1).last() == blocks@[i as int]@);
        }
        match parse_block(blocks[i].as_str()) {
            Some(t) => {
                out.push(t);
                assert(out@.map_values(|t: (String, String, String)| (t.0@, t.1@, t.2@)) =~= before.push(
                    (out@.last().0@, out@.last().1@, out@.last().2@),
                ));
            },
            None => {},
        }
        i += 1;
    }
    proof {
        let got = out@.map_values(|t: (String, String, String)| (t.0@, t.1@, t.2@));
        lemma_block_results_prefix(bv, i as int);
        if i == blocks@.len() {
            assert(bv.take(i as int) =~= bv);
        } else {
            assert(got.len() == limit);
        }
    }
    out
}

// ─── The tool ───────────────────────────────────────────────────────────────

pub struct WebSearchTool;

/// Results shown without `full`.
pub const DEFAULT_LIMIT: usize = 10;

/// Results shown with `full`.
pub const FULL_LIMIT: usize = 25;

/// What a WebSearch call asks for.
pub struct WebSearchRequest {
    pub query: String,
    pub full: bool,
    pub allowed_domains: Vec<String>,
    pub blocked_domains: Vec<String>,
}

/// One search result.
pub struct SearchResult {
    pub title: String,
    pub url: String,
    pub snippet: String,
}

/// The strings among array elements, in order.
pub open spec fn string_items(items: Seq<Option<Seq<char>>>) -> Seq<Seq<char>>
    decreases items.len(),
{
    if items.len() == 0 {
        seq![]
    } else {
        let prev = string_items(items.drop_last());
        match items.last() {
            Some(x) => prev.push(x),
            None => prev,
        }
    }
}

/// The domains an array argument lists (none when it is absent).
pub open spec fn domain_arg(input: ToolInput, key: Seq<char>) -> Seq<Seq<char>> {
    match input.array_arg(key) {
        Some(items) => string_items(items),
        None => seq![],
    }
}

/// ` <op><d>` for each domain `d`, in order.
pub open spec fn domain_terms(ds: Seq<Seq<char>>, op: Seq<char>) -> Seq<char>
    decreases ds.len(),
{
    if ds.len() == 0 {
        seq![]
    } else {
        domain_terms(ds.drop_last(), op) + " "@ + op + ds.last()
    }
}

/// The query sent to the search engine: the user's query, then a `site:`
/// term for each allowed domain and a `-site:` term for each blocked one.
pub open spec fn search_query_text(q: WebSearchRequest) -> Seq<char> {
    q.query@ + domain_terms(views(q.allowed_domains@), "site:"@) + domain_terms(
        views(q.blocked_domains@),
        "-site:"@,
    )
}

/// How many results a call shows at most.
pub open spec fn limit_for(full: bool) -> nat {
    if full { FULL_LIMIT as nat } else { DEFAULT_LIMIT as nat }
}

/// A result as values: title, target, snippet.
pub open spec fn result_view(r: SearchResult) -> (Seq<char>, Seq<char>, Seq<char>) {
    (r.title@, r.url@, r.snippet@)
}

/// A result's row in the table.
pub open spec fn result_row(r: (Seq<char>, Seq<char>, Seq<char>)) -> Seq<Seq<char>> {
    seq![r.0, r.1, snippet_text(r.2, 200)]
}

/// The output for the results of a search.
pub open spec fn search_view(query: Seq<char>, full: bool, rs: Seq<(Seq<char>, Seq<char>, Seq<char>)>) -> OutV {
    if rs.len() == 0 {
        OutV {
            is_error: false,
            summary: Some("0 results for "@ + debug_str(query)),
            body: BodyV::Empty("No results found for: "@ + query),
            truncation: None,
            steps: seq!["Broaden the query or remove domain filters"@],
        }
    } else {
        let limit = limit_for(full);
        let shown = if rs.len() <= limit { rs.len() } else { limit };
        let cut = !full && rs.len() > DEFAULT_LIMIT;
        OutV {
            is_error: false,
            summary: Some(decimal(shown) + " result(s) for "@ + debug_str(query)),
            body: BodyV::Table {
                key: "results"@,
                columns: seq!["title"@, "url"@, "snippet"@],
                rows: rs.take(shown as int).map_values(|r: (Seq<char>, Seq<char>, Seq<char>)| result_row(r)),
            },
            truncation: if cut {
                Some((shown, rs.len(), "results"@, "pass full=true for up to 25 results"@))
            } else {
                None
            },
            steps: if cut {
                seq![
                    "Pass full=true for up to 25 results"@,
                    "Refine with site:<domain> or -site:<domain> to narrow further"@,
                ]
            } else {
                seq!["Refine with site:<domain> or -site:<domain> to narrow further"@]
            },
        }
    }
}

/// The strings among `items`, in order.
fn strings_of(items: &Vec<Option<String>>) -> (out: Vec<String>)
    ensures
        views(out@) == string_items(opt_views(items@)),
{
    let mut out: Vec<String> = Vec::new();
    let mut i: usize = 0;
    assert(opt_views(items@).take(0) =~= Seq::<Option<Seq<char>>>::empty());
    while i < items.len()
        invariant
            i <= items@.len(),
            views(out@) == string_items(opt_views(items@).take(i as int)),
        decreases items@.len() - i,
    {
        assert(opt_views(items@).take(i + 1).drop_last() =~= opt_views(items@).take(i as int));
        match &items[i] {
            Some(x) => {
                out.push(x.clone());
                assert(views(out@) =~= views(out@.drop_last()).push(x@));
            },
            None => {},
        }
        i += 1;
    }
    assert(opt_views(items@).take(items@.len() as int) =~= opt_views(items@));
    out
}

fn push_terms(out: &mut String, ds: &Vec<String>, op: &str)
    ensures
        final(out)@ == old(out)@ + domain_terms(views(ds@), op@),
{
    let mut i: usize = 0;
    assert(views(ds@).take(0) =~= Seq::<Seq<char>>::empty());
    assert(old(out)@ + Seq::<char>::empty() =~= old(out)@);
    while i < ds.len()
        invariant
            i <= ds@.len(),
            out@ == old(out)@ + domain_terms(views(ds@).take(i as int), op@),
        decreases ds@.len() - i,
    {
        assert(views(ds@).take(i + 1).drop_last() =~= views(ds@).take(i as int));
        push_str(out, " ");
        push_str(out, op);
        push_str(out, ds[i].as_str());
        i += 1;
    }
    assert(views(ds@).take(ds@.len() as int) =~= views(ds@));
}

impl SearchResult {
    /// A result from a search API's entry: a missing title reads
    /// `(no title)`, a missing target or description is empty.
    pub fn from_fields(title: Option<String>, url: Option<String>, description: Option<String>) -> (r: SearchResult)
        ensures
            r.title@ == match title {
                Some(t) => t@,
                None => "(no title)"@,
            },
            r.url@ == match url {
                Some(u) => u@,
                None => seq![],
            },
            r.snippet@ == match description {
                Some(d) => d@,
                None => seq![],
            },
    {
        SearchResult {
            title: match title {
                Some(t) => t,
                None => owned("(no title)"),
            },
            url: match url {
                Some(u) => u,
                None => String::new(),
            },
            snippet: match description {
                Some(d) => d,
                None => String::new(),
            },
        }
    }
}

impl WebSearchTool {
    /// Reads the call's arguments: a missing `query` fails the call, and a
    /// query under two bytes is answered with an error.
    pub fn request(input: &ToolInput) -> (r: Result<WebSearchRequest, Early>)
        ensures
            match input.str_arg("query"@) {
                None => r matches Err(Early::Fail(m)) && m@ == "Missing 'query' parameter"@,
                Some(q) => if blen(q) < 2 {
                    r matches Err(Early::Output(o)) && out_view(o) == crate::tool_output::error_view(
                        "Query must be at least 2 characters long"@,
                    )
                } else {
                    r matches Ok(w) && w.query@ == q && w.full == match input.bool_arg("full"@) {
                        Some(b) => b,
                        None => false,
                    } && views(w.allowed_domains@) == domain_arg(*input, "allowed_domains"@) && views(
                        w.blocked_domains@,
                    ) == domain_arg(*input, "blocked_domains"@)
                },
            },
    {
        let query = match input.get_str("query") {
            Some(q) => q,
            None => {
                return Err(Early::Fail(owned("Missing 'query' parameter")));
            },
        };
        if query.len() < 2 {
            let o = ToolOutput::error("Query must be at least 2 characters long");
            assert(views(o.next_steps@) =~= Seq::<Seq<char>>::empty());
            return Err(Early::Output(o));
        }
        let full = match input.get_bool("full") {
            Some(b) => b,
            None => false,
        };
        let allowed_domains = match input.get_array("allowed_domains") {
            Some(items) => strings_of(items),
            None => {
                let v: Vec<String> = Vec::new();
                assert(views(v@) =~= Seq::<Seq<char>>::empty());
                v
            },
        };
        let blocked_domains = match input.get_array("blocked_domains") {
            Some(items) => strings_of(items),
            None => {
                let v: Vec<String> = Vec::new();
                assert(views(v@) =~= Seq::<Seq<char>>::empty());
                v
            },
        };
        Ok(WebSearchRequest { query: owned(query), full, allowed_domains, blocked_domains })
    }

    /// The query to send, with the domain filters as `site:` terms.
    pub fn search_query(req: &WebSearchRequest) -> (out: String)
        ensures
            out@ == search_query_text(*req),
    {
        let mut out = req.query.clone();
        push_terms(&mut out, &req.allowed_domains, "site:");
        push_terms(&mut out, &req.blocked_domains, "-site:");
        out
    }

    /// How many results to ask for.
    pub fn limit(req: &WebSearchRequest) -> (n: usize)
        ensures
            n == limit_for(req.full),
    {
        if req.full {
            FULL_LIMIT
        } else {
            DEFAULT_LIMIT
        }
    }

    /// The results on a DuckDuckGo result page, as many as the call shows.
    pub fn ddg_results(req: &WebSearchRequest, html: &str) -> (out: Vec<SearchResult>)
        ensures
            out@.map_values(|r: SearchResult| result_view(r)) == ddg_results(html@, limit_for(req.full)),
    {
        let parsed = parse_ddg_html(html, Self::limit(req));
        let mut out: Vec<SearchResult> = Vec::new();
        let mut i: usize = 0;
        while i < parsed.len()
            invariant
                i <= parsed@.len(),
                out@.map_values(|r: SearchResult| result_view(r)) == parsed@.take(i as int).map_values(
                    |t: (String, String, String)| (t.0@, t.1@, t.2@),
                ),
            decreases parsed@.len() - i,
        {
            let t = &parsed[i];
            let ghost before = out@.map_values(|r: SearchResult| result_view(r));
            out.push(SearchResult { title: t.0.clone(), url: t.1.clone(), snippet: t.2.clone() });
            assert(out@.map_values(|r: SearchResult| result_view(r)) =~= before.push((t.0@, t.1@, t.2@)));
            assert(parsed@.take(i + 1).map_values(|t: (String, String, String)| (t.0@, t.1@, t.2@))
                =~= parsed@.take(i as int).map_values(|t: (String, String, String)| (t.0@, t.1@, t.2@)).push(
                (t.0@, t.1@, t.2@),
            ));
            assert(out@.map_values(|r: SearchResult| result_view(r)) =~= parsed@.take(i + 1).map_values(
                |t: (String, String, String)| (t.0@, t.1@, t.2@),
            ));
            i += 1;
        }
        assert(parsed@.take(parsed@.len() as int) =~= parsed@);
        out
    }

    /// The error for a search that failed.
    pub fn search_failed(err: &str) -> (o: ToolOutput)
        ensures
            out_view(o) == crate::tool_output::error_view("Search failed: "@ + err@),
    {
        let mut m = owned("Search failed: ");
        push_str(&mut m, err);
        let o = ToolOutput::error(m.as_str());
        assert(views(o.next_steps@) =~= Seq::<Seq<char>>::empty());
        o
    }

    /// The results as a table of at most the call's limit, with a note when
    /// more were found than a call without `full` shows.
    pub fn shape(req: &WebSearchRequest, results: &Vec<SearchResult>) -> (o: ToolOutput)
        ensures
            out_view(o) == search_view(
                req.query@,
                req.full,
                results@.map_values(|r: SearchResult| result_view(r)),
            ),
    {
        let ghost rs = results@.map_values(|r: SearchResult| result_view(r));
        let q = debug_quote(req.query.as_str());
        if results.len() == 0 {
            let mut reason = owned("No results found for: ");
            push_str(&mut reason, req.query.as_str());
            let mut summary = owned("0 results for ");
            push_str(&mut summary, q.as_str());
            let o = ToolOutput::empty(reason.as_str()).with_summary(summary.as_str()).with_next_step(
                "Broaden the query or remove domain filters",
            );
            assert(views(o.next_steps@) =~= seq!["Broaden the query or remove domain filters"@]);
            return o;
        }
        let total = results.len();
        let limit = Self::limit(req);
        let shown = if total <= limit { total } else { limit };
        let mut rows: Vec<Vec<String>> = Vec::new();
        let mut i: usize = 0;
        while i < shown
            invariant
                i <= shown <= results@.len(),
                rs == results@.map_values(|r: SearchResult| result_view(r)),
                rows@.len() == i,
                forall|j: int| 0 <= j < i ==> views(#[trigger] rows@[j]@) == result_row(rs[j]),
            decreases shown - i,
        {
            let r = &results[i];
            let snip = truncate_snippet(r.snippet.as_str(), 200);
            let row = vec![r.title.clone(), r.url.clone(), snip];
            assert(views(row@) =~= result_row(rs[i as int]));
            rows.push(row);
            i += 1;
        }
        let columns = vec![owned("title"), owned("url"), owned("snippet")];
        proof {
            assert(views(columns@) =~= seq!["title"@, "url"@, "snippet"@]);
            assert(crate::tool_output::row_views(rows@) =~= rs.take(shown as int).map_values(
                |r: (Seq<char>, Seq<char>, Seq<char>)| result_row(r),
            ));
        }
        let body = ToolBody::Toon(ToonValue::Dict(vec![(owned("results"), ToonValue::Table { columns, rows })]));
        let mut summary = crate::text::decimal_string(shown as u64);
        push_str(&mut summary, " result(s) for ");
        push_str(&mut summary, q.as_str());
        let mut o = ToolOutput::success().with_summary(summary.as_str()).with_body(body);
        if !req.full && total > DEFAULT_LIMIT {
            o = o.with_truncation(
                Truncation {
                    shown,
                    total,
                    unit: "results",
                    how_to_see_more: owned("pass full=true for up to 25 results"),
                },
            ).with_next_step("Pass full=true for up to 25 results");
        }
        let o = o.with_next_step("Refine with site:<domain> or -site:<domain> to narrow further");
        proof {
            if !req.full && total > DEFAULT_LIMIT {
                assert(views(o.next_steps@) =~= seq![
                    "Pass full=true for up to 25 results"@,
                    "Refine with site:<domain> or -site:<domain> to narrow further"@,
                ]);
            } else {
                assert(views(o.next_steps@) =~= seq![
                    "Refine with site:<domain> or -site:<domain> to narrow further"@,
                ]);
            }
        }
        o
    }
}

} // verus!
