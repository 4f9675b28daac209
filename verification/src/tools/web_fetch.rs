//! WebFetch: a page's text. This module reads the call's arguments, turns an
//! HTML page into text with html2text, and shapes the result (a summary with
//! the page's domain and size, and a cap unless `full`); the HTTP request is
//! left to the caller.

use vstd::prelude::*;
use super::Early;
use crate::path_safety::{cut_to_bytes, safe_truncate};
use crate::text::{
    blen, chars_of, decimal, decimal_string, find_pos, find_str, has_sub, idx_of, index_of_char,
    lemma_find_pos, owned, push_str, str_contains, string_of, views,
};
use crate::tool_input::ToolInput;
use crate::tool_output::{error_view, out_view, BodyV, OutV, ToolOutput, Truncation};

verus! {

pub struct WebFetchTool;

/// Most bytes of text a call without `full` returns.
pub const DEFAULT_MAX_CHARS: usize = 50_000;

/// Columns the text of an HTML page is wrapped to.
pub const HTML_WIDTH: usize = 120;

/// What a WebFetch call asks for.
pub struct WebFetchRequest {
    pub url: String,
    pub full: bool,
}

/// The text html2text renders from an HTML document wrapped to `width`
/// columns, `None` when it reports an error.
pub uninterp spec fn html_text(html: Seq<char>, width: nat) -> Option<Seq<char>>;

/// `html2text::from_read` on the document's bytes: its result is named by
/// `html_text`, a function of the document and the width alone; nothing more
/// of the rendering is stated.
#[verifier::external_body]
fn render_html(html: &str, width: usize) -> (r: Option<String>)
    ensures
        match r {
            Some(t) => html_text(html@, width as nat) == Some(t@),
            None => html_text(html@, width as nat) is None,
        },
{
    html2text::from_read(html.as_bytes(), width).ok()
}

/// The host part of a URL: what follows the first `://` up to the next
/// `://` or `/`; the whole URL when it has no `://`.
pub open spec fn url_domain(url: Seq<char>) -> Seq<char> {
    if has_sub(url, "://"@) {
        let rest = url.skip(find_pos(url, "://"@) + 3);
        let piece = if has_sub(rest, "://"@) {
            rest.take(find_pos(rest, "://"@))
        } else {
            rest
        };
        piece.take(idx_of(piece, '/'))
    } else {
        url
    }
}

/// The output for a page whose text is `text`.
pub open spec fn fetch_view(url: Seq<char>, full: bool, text: Seq<char>) -> OutV {
    let cut = !full && blen(text) > DEFAULT_MAX_CHARS;
    OutV {
        is_error: false,
        summary: Some(url_domain(url) + " — "@ + decimal(text.len()) + " chars"@),
        body: BodyV::Text(
            if cut {
                cut_to_bytes(text, DEFAULT_MAX_CHARS as nat)
            } else {
                text
            },
        ),
        truncation: if cut {
            Some(
                (
                    DEFAULT_MAX_CHARS as nat,
                    text.len(),
                    "chars"@,
                    "pass full=true to return the entire page"@,
                ),
            )
        } else {
            None
        },
        steps: if cut {
            seq!["Pass full=true to return the entire page"@]
        } else {
            seq![]
        },
    }
}

/// The host part of a URL.
pub fn domain_of(url: &str) -> (out: String)
    ensures
        out@ == url_domain(url@),
{
    proof {
        reveal_strlit("://");
    }
    match find_str(url, "://") {
        None => owned(url),
        Some(k) => {
            proof {
                lemma_find_pos(url@, "://"@);
            }
            let v = chars_of(url);
            let n = v.len();
            assert(k + 3 <= n);
            let rest = string_of(&v, k + 3, n);
            assert(v@.subrange(k + 3, n as int) =~= url@.skip(k + 3));
            let rv = chars_of(rest.as_str());
            let end = match find_str(rest.as_str(), "://") {
                Some(j) => {
                    proof {
                        lemma_find_pos(rest@, "://"@);
                    }
                    j
                },
                None => rv.len(),
            };
            let piece = string_of(&rv, 0, end);
            proof {
                if has_sub(rest@, "://"@) {
                    assert(rv@.subrange(0, end as int) =~= rest@.take(find_pos(rest@, "://"@)));
                } else {
                    assert(rv@.subrange(0, end as int) =~= rest@);
                }
            }
            let pv = chars_of(piece.as_str());
            let slash = index_of_char(&pv, '/', 0);
            assert(pv@.skip(0) =~= pv@);
            let out = string_of(&pv, 0, slash);
            assert(pv@.subrange(0, slash as int) =~= piece@.take(slash as int));
            out
        },
    }
}

impl WebFetchTool {
    /// Reads the call's arguments; a missing `url` fails the call.
    pub fn request(input: &ToolInput) -> (r: Result<WebFetchRequest, Early>)
        ensures
            match input.str_arg("url"@) {
                None => r matches Err(Early::Fail(m)) && m@ == "Missing 'url' parameter"@,
                Some(u) => r matches Ok(q) && q.url@ == u && q.full == match input.bool_arg("full"@) {
                    Some(b) => b,
                    None => false,
                },
            },
    {
        let url = match input.get_str("url") {
            Some(u) => owned(u),
            None => {
                return Err(Early::Fail(owned("Missing 'url' parameter")));
            },
        };
        let full = match input.get_bool("full") {
            Some(b) => b,
            None => false,
        };
        Ok(WebFetchRequest { url, full })
    }

    /// The error for a request that could not be sent.
    pub fn fetch_failed(url: &str, err: &str) -> (o: ToolOutput)
        ensures
            out_view(o) == error_view("Failed to fetch "@ + url@ + ": "@ + err@),
    {
        let mut m = owned("Failed to fetch ");
        push_str(&mut m, url);
        push_str(&mut m, ": ");
        push_str(&mut m, err);
        let o = ToolOutput::error(m.as_str());
        assert(views(o.next_steps@) =~= Seq::<Seq<char>>::empty());
        o
    }

    /// The error for a response whose status is not a success; `status` is
    /// the status as text.
    pub fn http_error(status: &str, url: &str) -> (o: ToolOutput)
        ensures
            out_view(o) == error_view("HTTP "@ + status@ + " fetching "@ + url@),
    {
        let mut m = owned("HTTP ");
        push_str(&mut m, status);
        push_str(&mut m, " fetching ");
        push_str(&mut m, url);
        let o = ToolOutput::error(m.as_str());
        assert(views(o.next_steps@) =~= Seq::<Seq<char>>::empty());
        o
    }

    /// The error for a body that could not be read.
    pub fn body_failed(err: &str) -> (o: ToolOutput)
        ensures
            out_view(o) == error_view("Failed to read response body: "@ + err@),
    {
        let mut m = owned("Failed to read response body: ");
        push_str(&mut m, err);
        let o = ToolOutput::error(m.as_str());
        assert(views(o.next_steps@) =~= Seq::<Seq<char>>::empty());
        o
    }

    /// A page's text as the call returns it: a summary with the domain and
    /// the number of characters, the text cut at 50 000 bytes unless `full`.
    pub fn shape(req: &WebFetchRequest, text: &str) -> (o: ToolOutput)
        ensures
            out_view(o) == fetch_view(req.url@, req.full, text@),
    {
        let domain = domain_of(req.url.as_str());
        let total_chars = chars_of(text).len();
        let mut summary = domain;
        push_str(&mut summary, " — ");
        let n = decimal_string(total_chars as u64);
        push_str(&mut summary, n.as_str());
        push_str(&mut summary, " chars");
        if !req.full && text.len() > DEFAULT_MAX_CHARS {
            let shown = safe_truncate(text, DEFAULT_MAX_CHARS);
            let o = ToolOutput::success().with_summary(summary.as_str()).with_text(shown).with_truncation(
                Truncation {
                    shown: DEFAULT_MAX_CHARS,
                    total: total_chars,
                    unit: "chars",
                    how_to_see_more: owned("pass full=true to return the entire page"),
                },
            ).with_next_step("Pass full=true to return the entire page");
            assert(views(o.next_steps@) =~= seq!["Pass full=true to return the entire page"@]);
            o
        } else {
            let o = ToolOutput::success().with_summary(summary.as_str()).with_text(text);
            assert(views(o.next_steps@) =~= Seq::<Seq<char>>::empty());
            o
        }
    }

    /// The output for a fetched page: an HTML page (by its content type) is
    /// first turned into text; when that fails the call reports it.
    pub fn finish(req: &WebFetchRequest, content_type: &str, body: &str) -> (o: ToolOutput)
        ensures
            has_sub(content_type@, "html"@) ==> match html_text(body@, HTML_WIDTH as nat) {
                Some(t) => out_view(o) == fetch_view(req.url@, req.full, t),
                None => out_view(o) == error_view("Failed to convert the HTML of "@ + req.url@),
            },
            !has_sub(content_type@, "html"@) ==> out_view(o) == fetch_view(req.url@, req.full, body@),
    {
        if str_contains(content_type, "html") {
            match render_html(body, HTML_WIDTH) {
                Some(t) => Self::shape(req, t.as_str()),
                None => {
                    let mut m = owned("Failed to convert the HTML of ");
                    push_str(&mut m, req.url.as_str());
                    let o = ToolOutput::error(m.as_str());
                    assert(views(o.next_steps@) =~= Seq::<Seq<char>>::empty());
                    o
                },
            }
        } else {
            Self::shape(req, body)
        }
    }
}

} // verus!
