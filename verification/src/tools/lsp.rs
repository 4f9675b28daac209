//! LSP: code intelligence from language servers. This module holds what the
//! tool decides: which server serves a file, the file's URI, the request to
//! send for each operation, the JSON-RPC framing, and how results are
//! worded. Running the servers and moving the bytes is left to the caller.

use vstd::prelude::*;
use super::Early;
use crate::path_safety::{join_path, joined_path};
use crate::text::{
    chars_of, decimal, decimal_string, idx_of, json_quote, push_char, push_json_quoted, push_str,
    starts_with, str_eq, str_starts_with, string_of, views,
};
use crate::tool_input::ToolInput;
use crate::tool_output::{error_view, out_view, BodyV, OutV, ToolOutput};

verus! {

pub struct LspTool;

// ─── Servers and files ─────────────────────────────────────────────────────

/// The language id a server is told for a file extension.
pub open spec fn language_id(ext: Seq<char>) -> Seq<char> {
    if ext == "rs"@ {
        "rust"@
    } else if ext == "ts"@ {
        "typescript"@
    } else if ext == "tsx"@ {
        "typescriptreact"@
    } else if ext == "js"@ {
        "javascript"@
    } else if ext == "jsx"@ {
        "javascriptreact"@
    } else if ext == "py"@ {
        "python"@
    } else if ext == "go"@ {
        "go"@
    } else {
        ext
    }
}

pub fn extension_to_language_id(ext: &str) -> (id: String)
    ensures
        id@ == language_id(ext@),
{
    if str_eq(ext, "rs") {
        "rust".to_owned()
    } else if str_eq(ext, "ts") {
        "typescript".to_owned()
    } else if str_eq(ext, "tsx") {
        "typescriptreact".to_owned()
    } else if str_eq(ext, "js") {
        "javascript".to_owned()
    } else if str_eq(ext, "jsx") {
        "javascriptreact".to_owned()
    } else if str_eq(ext, "py") {
        "python".to_owned()
    } else if str_eq(ext, "go") {
        "go".to_owned()
    } else {
        ext.to_owned()
    }
}

/// The server command and arguments for a file extension, if one serves it.
pub open spec fn server_for(ext: Seq<char>) -> Option<(Seq<char>, Seq<Seq<char>>)> {
    if ext == "rs"@ {
        Some(("rust-analyzer"@, seq![]))
    } else if ext == "ts"@ || ext == "tsx"@ || ext == "js"@ || ext == "jsx"@ {
        Some(("typescript-language-server"@, seq!["--stdio"@]))
    } else if ext == "py"@ {
        Some(("pylsp"@, seq![]))
    } else if ext == "go"@ {
        Some(("gopls"@, seq!["serve"@]))
    } else {
        None
    }
}

pub fn server_command(ext: &str) -> (r: Option<(String, Vec<String>)>)
    ensures
        match r {
            Some((c, a)) => server_for(ext@) == Some((c@, views(a@))),
            None => server_for(ext@) is None,
        },
{
    let mut args: Vec<String> = Vec::new();
    if str_eq(ext, "rs") {
        assert(views(args@) =~= Seq::<Seq<char>>::empty());
        Some(("rust-analyzer".to_owned(), args))
    } else if str_eq(ext, "ts") || str_eq(ext, "tsx") || str_eq(ext, "js") || str_eq(ext, "jsx") {
        args.push("--stdio".to_owned());
        assert(views(args@) =~= seq!["--stdio"@]);
        Some(("typescript-language-server".to_owned(), args))
    } else if str_eq(ext, "py") {
        assert(views(args@) =~= Seq::<Seq<char>>::empty());
        Some(("pylsp".to_owned(), args))
    } else if str_eq(ext, "go") {
        args.push("serve".to_owned());
        assert(views(args@) =~= seq!["serve"@]);
        Some(("gopls".to_owned(), args))
    } else {
        None
    }
}

/// Position of the last `c` in `s`, or `-1`.
pub open spec fn last_idx(s: Seq<char>, c: char) -> int
    decreases s.len(),
{
    if s.len() == 0 {
        -1
    } else if s.last() == c {
        s.len() - 1
    } else {
        last_idx(s.drop_last(), c)
    }
}

/// `s` without its trailing `/`s.
pub open spec fn strip_slashes(s: Seq<char>) -> Seq<char>
    decreases s.len(),
{
    if s.len() > 0 && s.last() == '/' { strip_slashes(s.drop_last()) } else { s }
}

/// The file name of a path: its last component (`Path::file_name`), none
/// for `.` and `..`.
pub open spec fn file_name_of(p: Seq<char>) -> Seq<char> {
    let t = strip_slashes(p);
    t.skip(last_idx(t, '/') + 1)
}

/// The extension of a path (`Path::extension`): after the last `.` of the
/// file name, unless that dot starts the name; empty when there is none.
pub open spec fn extension_of(p: Seq<char>) -> Seq<char> {
    let name = file_name_of(p);
    let k = last_idx(name, '.');
    if name == "."@ || name == ".."@ || k <= 0 { seq![] } else { name.skip(k + 1) }
}

fn last_index(v: &Vec<char>, hi: usize, c: char) -> (k: i64)
    requires
        hi <= v@.len(),
        v@.len() < 0x7fff_ffff_ffff_ffff,
    ensures
        k == last_idx(v@.take(hi as int), c),
{
    let mut i = hi;
    while i > 0 && v[i - 1] != c
        invariant
            i <= hi <= v@.len(),
            last_idx(v@.take(hi as int), c) == last_idx(v@.take(i as int), c),
        decreases i,
    {
        assert(v@.take(i as int).drop_last() =~= v@.take(i - 1));
        i -= 1;
    }
    if i == 0 {
        -1
    } else {
        assert(v@.take(i as int).last() == v@[i - 1]);
        (i - 1) as i64
    }
}

/// The extension of `path`, or `""`.
pub fn file_extension(path: &str) -> (ext: String)
    requires
        path@.len() < 0x7fff_ffff_ffff_ffff,
    ensures
        ext@ == extension_of(path@),
{
    let v = chars_of(path);
    let mut end = v.len();
    assert(v@.take(end as int) =~= v@);
    while end > 0 && v[end - 1] == '/'
        invariant
            end <= v@.len(),
            strip_slashes(v@) == strip_slashes(v@.take(end as int)),
        decreases end,
    {
        assert(v@.take(end as int).drop_last() =~= v@.take(end - 1));
        end -= 1;
    }
    let ghost t = v@.take(end as int);
    assert(strip_slashes(t) == t);
    let slash = last_index(&v, end, '/');
    proof {
        lemma_last_idx_bounds(t, '/');
    }
    let start = (slash + 1) as usize;
    let name = string_of(&v, start, end);
    assert(name@ =~= file_name_of(path@));
    let nv = chars_of(name.as_str());
    let dot = last_index(&nv, nv.len(), '.');
    assert(nv@.take(nv@.len() as int) =~= nv@);
    proof {
        lemma_last_idx_bounds(nv@, '.');
        reveal_strlit(".");
        reveal_strlit("..");
    }
    if str_eq(name.as_str(), ".") || str_eq(name.as_str(), "..") || dot <= 0 {
        String::new()
    } else {
        string_of(&nv, (dot + 1) as usize, nv.len())
    }
}

pub proof fn lemma_last_idx_bounds(s: Seq<char>, c: char)
    ensures
        -1 <= last_idx(s, c) < s.len(),
    decreases s.len(),
{
    if s.len() > 0 && s.last() != c {
        lemma_last_idx_bounds(s.drop_last(), c);
    }
}

// ─── URIs ──────────────────────────────────────────────────────────────────

pub open spec fn hex_upper_digit(d: nat) -> char {
    if d < 10 {
        crate::text::digit_char(d)
    } else if d == 10 {
        'A'
    } else if d == 11 {
        'B'
    } else if d == 12 {
        'C'
    } else if d == 13 {
        'D'
    } else if d == 14 {
        'E'
    } else {
        'F'
    }
}

/// The upper-case hexadecimal digits of `n`.
pub open spec fn hex_upper(n: nat) -> Seq<char>
    decreases n,
{
    if n < 16 { seq![hex_upper_digit(n)] } else { hex_upper(n / 16) + seq![hex_upper_digit(n % 16)] }
}

pub open spec fn is_ascii_alnum(c: char) -> bool {
    ('0' <= c && c <= '9') || ('a' <= c && c <= 'z') || ('A' <= c && c <= 'Z')
}

/// How a character appears in a file URI.
pub open spec fn uri_char(c: char) -> Seq<char> {
    if c == ' ' {
        "%20"@
    } else if c == '#' {
        "%23"@
    } else if c == '?' {
        "%3F"@
    } else if c == '%' {
        "%25"@
    } else if c == '/' || c == ':' || c == '-' || c == '_' || c == '.' || c == '~' || is_ascii_alnum(c) {
        seq![c]
    } else {
        "%"@ + (if (c as u32) < 16 { seq!['0'] } else { seq![] }) + hex_upper(c as u32 as nat)
    }
}

pub open spec fn uri_encoded(s: Seq<char>) -> Seq<char>
    decreases s.len(),
{
    if s.len() == 0 { seq![] } else { uri_encoded(s.drop_last()) + uri_char(s.last()) }
}

/// The `file://` URI of a path, made absolute with a leading `/`.
pub open spec fn uri_of(path: Seq<char>) -> Seq<char> {
    let abs = if starts_with(path, "/"@) { path } else { "/"@ + path };
    "file://"@ + uri_encoded(abs)
}

fn hex_upper_digit_exec(d: u32) -> (c: char)
    requires
        d < 16,
    ensures
        c == hex_upper_digit(d as nat),
{
    if d == 0 { '0' } else if d == 1 { '1' } else if d == 2 { '2' } else if d == 3 { '3' }
    else if d == 4 { '4' } else if d == 5 { '5' } else if d == 6 { '6' } else if d == 7 { '7' }
    else if d == 8 { '8' } else if d == 9 { '9' } else if d == 10 { 'A' } else if d == 11 { 'B' }
    else if d == 12 { 'C' } else if d == 13 { 'D' } else if d == 14 { 'E' } else { 'F' }
}

fn push_hex(out: &mut String, n: u32)
    ensures
        final(out)@ == old(out)@ + hex_upper(n as nat),
    decreases n,
{
    if n < 16 {
        push_char(out, hex_upper_digit_exec(n));
    } else {
        push_hex(out, n / 16);
        push_char(out, hex_upper_digit_exec(n % 16));
    }
}

/// The `file://` URI of `path`, percent-encoding what a URI cannot hold.
pub fn path_to_uri(path: &str) -> (uri: String)
    ensures
        uri@ == uri_of(path@),
{
    let mut abs = String::new();
    if !str_starts_with(path, "/") {
        push_str(&mut abs, "/");
    }
    push_str(&mut abs, path);
    let v = chars_of(abs.as_str());
    let mut out = "file://".to_owned();
    let mut i: usize = 0;
    while i < v.len()
        invariant
            i <= v@.len(),
            out@ == "file://"@ + uri_encoded(v@.take(i as int)),
        decreases v@.len() - i,
    {
        let c = v[i];
        if c == ' ' {
            push_str(&mut out, "%20");
        } else if c == '#' {
            push_str(&mut out, "%23");
        } else if c == '?' {
            push_str(&mut out, "%3F");
        } else if c == '%' {
            push_str(&mut out, "%25");
        } else if c == '/' || c == ':' || c == '-' || c == '_' || c == '.' || c == '~' || ('0' <= c
            && c <= '9') || ('a' <= c && c <= 'z') || ('A' <= c && c <= 'Z') {
            push_char(&mut out, c);
        } else {
            push_str(&mut out, "%");
            let u = c as u32;
            if u < 16 {
                push_char(&mut out, '0');
            }
            push_hex(&mut out, u);
        }
        assert(v@.take(i + 1).drop_last() =~= v@.take(i as int));
        assert(v@.take(i + 1).last() == c);
        i += 1;
    }
    assert(v@.take(v@.len() as int) =~= v@);
    proof {
        reveal_strlit("");
    }
    out
}

// ─── Requests ──────────────────────────────────────────────────────────────

/// What an LSP call asks for; positions are 1-based.
pub struct LspRequest {
    pub operation: String,
    pub file_path: String,
    pub line: u32,
    pub character: u32,
}

impl LspTool {
    /// Reads the call's arguments (each is required, checked in order); a
    /// relative path is resolved against `cwd`. Line and column are taken
    /// modulo 2^32, as a cast to `u32` does.
    pub fn request(input: &ToolInput, cwd: &str) -> (r: Result<LspRequest, Early>)
        ensures
            match r {
                Ok(q) => {
                    &&& input.str_arg("operation"@) == Some(q.operation@)
                    &&& input.str_arg("filePath"@) matches Some(p) && q.file_path@ == joined_path(p, cwd@)
                    &&& input.u64_arg("line"@) matches Some(l) && q.line == l as u32
                    &&& input.u64_arg("character"@) matches Some(c) && q.character == c as u32
                },
                Err(Early::Fail(m)) => if input.str_arg("operation"@) is None {
                    m@ == "Missing 'operation' parameter"@
                } else if input.str_arg("filePath"@) is None {
                    m@ == "Missing 'filePath' parameter"@
                } else if input.u64_arg("line"@) is None {
                    m@ == "Missing 'line' parameter"@
                } else {
                    input.u64_arg("character"@) is None && m@ == "Missing 'character' parameter"@
                },
                Err(Early::Output(_)) => false,
            },
    {
        let operation = match input.get_str("operation") {
            Some(s) => s.to_owned(),
            None => {
                return Err(Early::Fail("Missing 'operation' parameter".to_owned()));
            },
        };
        let file_path = match input.get_str("filePath") {
            Some(s) => join_path(s, cwd),
            None => {
                return Err(Early::Fail("Missing 'filePath' parameter".to_owned()));
            },
        };
        let line = match input.get_u64("line") {
            Some(n) => #[verifier::truncate] (n as u32),
            None => {
                return Err(Early::Fail("Missing 'line' parameter".to_owned()));
            },
        };
        let character = match input.get_u64("character") {
            Some(n) => #[verifier::truncate] (n as u32),
            None => {
                return Err(Early::Fail("Missing 'character' parameter".to_owned()));
            },
        };
        Ok(LspRequest { operation, file_path, line, character })
    }
}

/// How an operation is asked of the server.
pub enum LspCall {
    /// One request: method and JSON params.
    Single { method: String, params: String },
    /// `prepareCallHierarchy` (with `params`), then, with the first item it
    /// returns, `callHierarchy/<direction>`.
    Hierarchy { params: String, method: String },
}

/// `{"position":{...},"textDocument":{"uri":...}}` for a 0-based position.
pub open spec fn position_params(uri: Seq<char>, line: nat, character: nat) -> Seq<char> {
    "{\"position\":{\"character\":"@ + decimal(character) + ",\"line\":"@ + decimal(line)
        + "},\"textDocument\":"@ + document_params(uri) + "}"@
}

/// `{"uri":...}`.
pub open spec fn document_params(uri: Seq<char>) -> Seq<char> {
    "{\"uri\":"@ + json_quote(uri) + "}"@
}

pub open spec fn zero_based(n: u32) -> nat {
    if n > 0 { (n - 1) as nat } else { 0 }
}

/// The request for an operation on a file at a 1-based position, or the
/// error text for an unknown operation.
pub open spec fn call_for(op: Seq<char>, uri: Seq<char>, line: u32, character: u32) -> Result<
    (bool, Seq<char>, Seq<char>),
    Seq<char>,
> {
    let l = zero_based(line);
    let c = zero_based(character);
    let tdp = position_params(uri, l, c);
    let td = document_params(uri);
    if op == "goToDefinition"@ {
        Ok((false, "textDocument/definition"@, tdp))
    } else if op == "findReferences"@ {
        Ok(
            (
                false,
                "textDocument/references"@,
                "{\"context\":{\"includeDeclaration\":true},\"position\":{\"character\":"@ + decimal(c)
                    + ",\"line\":"@ + decimal(l) + "},\"textDocument\":"@ + td + "}"@,
            ),
        )
    } else if op == "hover"@ {
        Ok((false, "textDocument/hover"@, tdp))
    } else if op == "documentSymbol"@ {
        Ok((false, "textDocument/documentSymbol"@, "{\"textDocument\":"@ + td + "}"@))
    } else if op == "workspaceSymbol"@ {
        Ok((false, "workspace/symbol"@, "{\"query\":\"\"}"@))
    } else if op == "goToImplementation"@ {
        Ok((false, "textDocument/implementation"@, tdp))
    } else if op == "prepareCallHierarchy"@ {
        Ok((false, "textDocument/prepareCallHierarchy"@, tdp))
    } else if op == "incomingCalls"@ {
        Ok((true, "callHierarchy/incomingCalls"@, tdp))
    } else if op == "outgoingCalls"@ {
        Ok((true, "callHierarchy/outgoingCalls"@, tdp))
    } else {
        Err(
            "Unknown LSP operation '"@ + op
                + "'. Supported: goToDefinition, findReferences, hover, documentSymbol, workspaceSymbol, goToImplementation, prepareCallHierarchy, incomingCalls, outgoingCalls"@,
        )
    }
}

fn push_u64(out: &mut String, n: u64)
    ensures
        final(out)@ == old(out)@ + decimal(n as nat),
{
    push_str(out, decimal_string(n).as_str());
}

fn single(method: &str, params: String) -> (r: LspCall)
    ensures
        r matches LspCall::Single { method: m, params: p } && m@ == method@ && p@ == params@,
{
    LspCall::Single { method: method.to_owned(), params }
}

impl LspTool {
    /// The request(s) for the operation of `req` on the file at `uri`.
    pub fn plan_call(req: &LspRequest, uri: &str) -> (r: Result<LspCall, ToolOutput>)
        ensures
            match (r, call_for(req.operation@, uri@, req.line, req.character)) {
                (Ok(LspCall::Single { method, params }), Ok((false, m, p))) => method@ == m && params@ == p,
                (Ok(LspCall::Hierarchy { params, method }), Ok((true, m, p))) => method@ == m && params@ == p,
                (Err(o), Err(e)) => out_view(o) == error_view(e),
                _ => false,
            },
    {
        let l = if req.line > 0 { req.line - 1 } else { 0 };
        let c = if req.character > 0 { req.character - 1 } else { 0 };
        let mut td = "{\"uri\":".to_owned();
        push_json_quoted(&mut td, uri);
        push_str(&mut td, "}");
        let mut tdp = "{\"position\":{\"character\":".to_owned();
        push_u64(&mut tdp, c as u64);
        push_str(&mut tdp, ",\"line\":");
        push_u64(&mut tdp, l as u64);
        push_str(&mut tdp, "},\"textDocument\":");
        push_str(&mut tdp, td.as_str());
        push_str(&mut tdp, "}");
        let op = req.operation.as_str();
        proof {
            reveal_strlit("goToDefinition");
            reveal_strlit("findReferences");
            reveal_strlit("hover");
            reveal_strlit("documentSymbol");
            reveal_strlit("workspaceSymbol");
            reveal_strlit("goToImplementation");
            reveal_strlit("prepareCallHierarchy");
            reveal_strlit("incomingCalls");
            reveal_strlit("outgoingCalls");
            assert("goToDefinition"@[0] != "findReferences"@[0]);
            assert("goToDefinition"@[0] != "documentSymbol"@[0]);
            assert("findReferences"@[0] != "documentSymbol"@[0]);
            assert("incomingCalls"@[0] != "outgoingCalls"@[0]);
        }
        if str_eq(op, "goToDefinition") {
            Ok(single("textDocument/definition", tdp))
        } else if str_eq(op, "findReferences") {
            let mut p = "{\"context\":{\"includeDeclaration\":true},\"position\":{\"character\":".to_owned();
            push_u64(&mut p, c as u64);
            push_str(&mut p, ",\"line\":");
            push_u64(&mut p, l as u64);
            push_str(&mut p, "},\"textDocument\":");
            push_str(&mut p, td.as_str());
            push_str(&mut p, "}");
            Ok(single("textDocument/references", p))
        } else if str_eq(op, "hover") {
            Ok(single("textDocument/hover", tdp))
        } else if str_eq(op, "documentSymbol") {
            let mut p = "{\"textDocument\":".to_owned();
            push_str(&mut p, td.as_str());
            push_str(&mut p, "}");
            Ok(single("textDocument/documentSymbol", p))
        } else if str_eq(op, "workspaceSymbol") {
            Ok(single("workspace/symbol", "{\"query\":\"\"}".to_owned()))
        } else if str_eq(op, "goToImplementation") {
            Ok(single("textDocument/implementation", tdp))
        } else if str_eq(op, "prepareCallHierarchy") {
            Ok(single("textDocument/prepareCallHierarchy", tdp))
        } else if str_eq(op, "incomingCalls") {
            Ok(LspCall::Hierarchy { params: tdp, method: "callHierarchy/incomingCalls".to_owned() })
        } else if str_eq(op, "outgoingCalls") {
            Ok(LspCall::Hierarchy { params: tdp, method: "callHierarchy/outgoingCalls".to_owned() })
        } else {
            let mut m = "Unknown LSP operation '".to_owned();
            push_str(&mut m, op);
            push_str(
                &mut m,
                "'. Supported: goToDefinition, findReferences, hover, documentSymbol, workspaceSymbol, goToImplementation, prepareCallHierarchy, incomingCalls, outgoingCalls",
            );
            let o = ToolOutput::error(m.as_str());
            assert(views(o.next_steps@) =~= Seq::<Seq<char>>::empty());
            Err(o)
        }
    }
}

// ─── JSON-RPC framing ──────────────────────────────────────────────────────

/// A request message: `{"id":..,"jsonrpc":"2.0","method":..,"params":..}`.
pub open spec fn request_text(id: u64, method: Seq<char>, params: Seq<char>) -> Seq<char> {
    "{\"id\":"@ + decimal(id as nat) + ",\"jsonrpc\":\"2.0\",\"method\":"@ + json_quote(method)
        + ",\"params\":"@ + params + "}"@
}

/// A notification: `{"jsonrpc":"2.0","method":..,"params":..}`.
pub open spec fn notification_text(method: Seq<char>, params: Seq<char>) -> Seq<char> {
    "{\"jsonrpc\":\"2.0\",\"method\":"@ + json_quote(method) + ",\"params\":"@ + params + "}"@
}

pub fn request_message(id: u64, method: &str, params: &str) -> (m: String)
    ensures
        m@ == request_text(id, method@, params@),
{
    let mut m = "{\"id\":".to_owned();
    push_u64(&mut m, id);
    push_str(&mut m, ",\"jsonrpc\":\"2.0\",\"method\":");
    push_json_quoted(&mut m, method);
    push_str(&mut m, ",\"params\":");
    push_str(&mut m, params);
    push_str(&mut m, "}");
    m
}

pub fn notification_message(method: &str, params: &str) -> (m: String)
    ensures
        m@ == notification_text(method@, params@),
{
    let mut m = "{\"jsonrpc\":\"2.0\",\"method\":".to_owned();
    push_json_quoted(&mut m, method);
    push_str(&mut m, ",\"params\":");
    push_str(&mut m, params);
    push_str(&mut m, "}");
    m
}

/// A message framed for the wire: its byte length in a `Content-Length`
/// header, a blank line, then the message.
pub fn frame(body: &str) -> (out: String)
    ensures
        out@ == "Content-Length: "@ + decimal(crate::text::blen(body@)) + "\r\n\r\n"@ + body@,
{
    let mut out = "Content-Length: ".to_owned();
    push_u64(&mut out, body.len() as u64);
    push_str(&mut out, "\r\n\r\n");
    push_str(&mut out, body);
    out
}

/// The `didOpen` notification's params for a document.
pub fn did_open_params(uri: &str, language_id: &str, content: &str) -> (p: String)
    ensures
        p@ == "{\"textDocument\":{\"languageId\":"@ + json_quote(language_id@) + ",\"text\":"@
            + json_quote(content@) + ",\"uri\":"@ + json_quote(uri@) + ",\"version\":1}}"@,
{
    let mut p = "{\"textDocument\":{\"languageId\":".to_owned();
    push_json_quoted(&mut p, language_id);
    push_str(&mut p, ",\"text\":");
    push_json_quoted(&mut p, content);
    push_str(&mut p, ",\"uri\":");
    push_json_quoted(&mut p, uri);
    push_str(&mut p, ",\"version\":1}}");
    p
}

// ─── Results ───────────────────────────────────────────────────────────────

/// Where a location points: `uri` (else `targetUri`), and the start of
/// `range` (else `targetRange`) as line and column when they are numbers;
/// `None` for a range key that is absent.
pub struct LspLocation {
    pub uri: Option<String>,
    pub target_uri: Option<String>,
    pub range_start: Option<(Option<u64>, Option<u64>)>,
    pub target_range_start: Option<(Option<u64>, Option<u64>)>,
}

/// What the wording of a result reads of the server's JSON reply.
pub struct LspResult {
    pub is_null: bool,
    /// `contents.value`, when it is a string.
    pub hover_value: Option<String>,
    /// `contents`, when it is a string.
    pub hover_text: Option<String>,
    /// The reply pretty-printed.
    pub pretty: String,
    /// The reply's elements when it is an array, else the reply itself.
    pub locations: Vec<LspLocation>,
}

pub open spec fn loc_start(l: LspLocation) -> (nat, nat) {
    let r = match l.range_start {
        Some(r) => Some(r),
        None => l.target_range_start,
    };
    match r {
        Some((a, b)) => (
            match a {
                Some(x) => x as nat,
                None => 0,
            },
            match b {
                Some(x) => x as nat,
                None => 0,
            },
        ),
        None => (0, 0),
    }
}

pub open spec fn loc_path(l: LspLocation) -> Seq<char> {
    let uri = match l.uri {
        Some(u) => u@,
        None => match l.target_uri {
            Some(u) => u@,
            None => "unknown"@,
        },
    };
    if starts_with(uri, "file://"@) { uri.skip(7) } else { uri }
}

/// One line per location: `path:line:column`, 1-based.
pub open spec fn locations_text(ls: Seq<LspLocation>) -> Seq<char>
    decreases ls.len(),
{
    if ls.len() == 0 {
        seq![]
    } else {
        let l = ls.last();
        locations_text(ls.drop_last()) + loc_path(l) + ":"@ + decimal(loc_start(l).0 + 1) + ":"@ + decimal(
            loc_start(l).1 + 1,
        ) + "\n"@
    }
}

/// A result's text for an operation.
pub open spec fn result_text(op: Seq<char>, r: LspResult) -> Seq<char> {
    if r.is_null {
        op + ": No results found."@
    } else if op == "hover"@ {
        match r.hover_value {
            Some(v) => "Hover info:\n"@ + v@,
            None => match r.hover_text {
                Some(s) => "Hover info:\n"@ + s@,
                None => "Hover:\n"@ + r.pretty@,
            },
        }
    } else if op == "goToDefinition"@ || op == "goToImplementation"@ || op == "findReferences"@ {
        if r.locations@.len() == 0 { "No locations found."@ } else { locations_text(r.locations@) }
    } else if op == "documentSymbol"@ {
        "Document symbols:\n"@ + r.pretty@
    } else {
        r.pretty@
    }
}

fn push_location(out: &mut String, l: &LspLocation)
    ensures
        final(out)@ == old(out)@ + loc_path(*l) + ":"@ + decimal(loc_start(*l).0 + 1) + ":"@ + decimal(
            loc_start(*l).1 + 1,
        ) + "\n"@,
{
    let uri: &str = match &l.uri {
        Some(u) => u.as_str(),
        None => match &l.target_uri {
            Some(u) => u.as_str(),
            None => "unknown",
        },
    };
    if str_starts_with(uri, "file://") {
        proof {
            reveal_strlit("file://");
        }
        let v = chars_of(uri);
        push_str(out, string_of(&v, 7, v.len()).as_str());
        assert(v@.subrange(7, v@.len() as int) =~= uri@.skip(7));
    } else {
        push_str(out, uri);
    }
    let r = match &l.range_start {
        Some(r) => Some(*r),
        None => l.target_range_start,
    };
    let (line, col): (u64, u64) = match r {
        Some((a, b)) => (
            match a {
                Some(x) => x,
                None => 0,
            },
            match b {
                Some(x) => x,
                None => 0,
            },
        ),
        None => (0, 0),
    };
    push_str(out, ":");
    push_str(out, crate::text::decimal_string_wide(line as u128 + 1).as_str());
    push_str(out, ":");
    push_str(out, crate::text::decimal_string_wide(col as u128 + 1).as_str());
    push_str(out, "\n");
}

impl LspTool {
    /// The text for the result of `operation` (see `result_text`).
    pub fn format_result(operation: &str, r: &LspResult) -> (text: String)
        ensures
            text@ == result_text(operation@, *r),
    {
        if r.is_null {
            let mut t = operation.to_owned();
            push_str(&mut t, ": No results found.");
            return t;
        }
        if str_eq(operation, "hover") {
            let mut t = String::new();
            match &r.hover_value {
                Some(v) => {
                    push_str(&mut t, "Hover info:\n");
                    push_str(&mut t, v.as_str());
                },
                None => match &r.hover_text {
                    Some(s) => {
                        push_str(&mut t, "Hover info:\n");
                        push_str(&mut t, s.as_str());
                    },
                    None => {
                        push_str(&mut t, "Hover:\n");
                        push_str(&mut t, r.pretty.as_str());
                    },
                },
            }
            proof {
                reveal_strlit("");
            }
            t
        } else if str_eq(operation, "goToDefinition") || str_eq(operation, "goToImplementation") || str_eq(
            operation,
            "findReferences",
        ) {
            if r.locations.len() == 0 {
                return "No locations found.".to_owned();
            }
            let mut out = String::new();
            let mut i: usize = 0;
            while i < r.locations.len()
                invariant
                    i <= r.locations@.len(),
                    out@ == locations_text(r.locations@.take(i as int)),
                decreases r.locations@.len() - i,
            {
                push_location(&mut out, &r.locations[i]);
                assert(r.locations@.take(i + 1).drop_last() =~= r.locations@.take(i as int));
                i += 1;
            }
            assert(r.locations@.take(r.locations@.len() as int) =~= r.locations@);
            out
        } else if str_eq(operation, "documentSymbol") {
            let mut t = "Document symbols:\n".to_owned();
            push_str(&mut t, r.pretty.as_str());
            t
        } else {
            r.pretty.clone()
        }
    }

    /// The output of an operation that returned `r`.
    pub fn result_output(operation: &str, r: &LspResult) -> (o: ToolOutput)
        ensures
            out_view(o) == (OutV {
                is_error: false,
                summary: Some("LSP "@ + operation@),
                body: BodyV::Text(result_text(operation@, *r)),
                truncation: None,
                steps: seq![],
            }),
    {
        let mut summary = "LSP ".to_owned();
        push_str(&mut summary, operation);
        let text = Self::format_result(operation, r);
        let o = ToolOutput::success().with_summary(summary.as_str()).with_text(text.as_str());
        assert(views(o.next_steps@) =~= Seq::<Seq<char>>::empty());
        o
    }
}

// ─── A server connection ────────────────────────────────────────────────────

/// The bookkeeping of one language server connection: the id of the next
/// request, whether the server accepted `initialize`, and the documents it
/// has been sent.
pub struct LspSession {
    next_id: u64,
    initialized: bool,
    open_documents: Vec<String>,
}

impl LspSession {
    /// The id the next request gets.
    pub closed spec fn next(&self) -> nat {
        self.next_id as nat
    }

    /// Whether the server accepted `initialize`.
    pub closed spec fn ready(&self) -> bool {
        self.initialized
    }

    /// Whether the server accepted `initialize`.
    pub fn is_initialized(&self) -> (b: bool)
        ensures
            b == self.ready(),
    {
        self.initialized
    }

    /// Records that the server accepted `initialize`.
    pub fn set_initialized(&mut self)
        ensures
            final(self).ready(),
            final(self).next() == old(self).next(),
            final(self).documents() == old(self).documents(),
    {
        self.initialized = true;
    }

    /// The documents opened so far, in order.
    pub closed spec fn documents(&self) -> Seq<Seq<char>> {
        views(self.open_documents@)
    }

    /// Each document is opened once.
    pub open spec fn wf(&self) -> bool {
        self.documents().no_duplicates()
    }

    /// A connection before anything was sent.
    pub fn new() -> (s: Self)
        ensures
            s.next() == 1,
            !s.ready(),
            s.documents() == Seq::<Seq<char>>::empty(),
            s.wf(),
    {
        let s = LspSession { next_id: 1, initialized: false, open_documents: Vec::new() };
        assert(s.documents() =~= Seq::<Seq<char>>::empty());
        s
    }

    /// Whether another request id is left.
    pub fn has_id(&self) -> (b: bool)
        ensures
            b == (self.next() < u64::MAX),
    {
        self.next_id < u64::MAX
    }

    /// Takes the next request id: ids count up from 1.
    pub fn take_id(&mut self) -> (id: u64)
        requires
            old(self).next() < u64::MAX,
        ensures
            id == old(self).next(),
            final(self).next() == old(self).next() + 1,
            final(self).documents() == old(self).documents(),
            final(self).ready() == old(self).ready(),
    {
        let id = self.next_id;
        self.next_id = self.next_id + 1;
        id
    }

    /// Records that `uri` is to be opened; false when it already was, in
    /// which case nothing is to be sent.
    pub fn open_document(&mut self, uri: &str) -> (fresh: bool)
        requires
            old(self).wf(),
        ensures
            fresh == !old(self).documents().contains(uri@),
            final(self).documents() == if fresh {
                old(self).documents().push(uri@)
            } else {
                old(self).documents()
            },
            final(self).wf(),
            final(self).next() == old(self).next(),
            final(self).ready() == old(self).ready(),
    {
        let ghost d = self.documents();
        let mut i: usize = 0;
        while i < self.open_documents.len()
            invariant
                i <= self.open_documents@.len(),
                d == views(self.open_documents@),
                d == old(self).documents(),
                old(self).wf(),
                *self == *old(self),
                forall|j: int| 0 <= j < i ==> d[j] != uri@,
            decreases self.open_documents@.len() - i,
        {
            if str_eq(self.open_documents[i].as_str(), uri) {
                assert(d[i as int] == uri@);
                return false;
            }
            i += 1;
        }
        self.open_documents.push(uri.to_owned());
        assert(views(self.open_documents@) =~= d.push(uri@));
        true
    }
}

// ─── Reading a reply ────────────────────────────────────────────────────────

/// How `str::parse::<usize>` reads a text.
pub enum ParsedCount {
    Value(usize),
    Empty,
    InvalidDigit,
    Overflow,
}

/// The value of an ASCII digit.
pub open spec fn digit_value(c: char) -> Option<nat> {
    if '0' <= c && c <= '9' {
        Some((c as u32 - '0' as u32) as nat)
    } else {
        None
    }
}

/// The digits of `s` read left to right onto `acc`, as `parse` does: the
/// first character that is not a digit, or the first digit that takes the
/// value past `usize::MAX`, ends the reading with an error.
pub open spec fn scan_digits(s: Seq<char>, acc: nat) -> ParsedCount
    decreases s.len(),
{
    if s.len() == 0 {
        if acc <= usize::MAX {
            ParsedCount::Value(acc as usize)
        } else {
            ParsedCount::Overflow
        }
    } else {
        match digit_value(s[0]) {
            None => ParsedCount::InvalidDigit,
            Some(d) => if acc * 10 + d > usize::MAX {
                ParsedCount::Overflow
            } else {
                scan_digits(s.drop_first(), acc * 10 + d)
            },
        }
    }
}

/// `str::parse::<usize>`: an optional `+`, then decimal digits.
pub open spec fn parse_count(s: Seq<char>) -> ParsedCount {
    if s.len() == 0 {
        ParsedCount::Empty
    } else if s[0] == '+' {
        if s.len() == 1 {
            ParsedCount::InvalidDigit
        } else {
            scan_digits(s.drop_first(), 0)
        }
    } else {
        scan_digits(s, 0)
    }
}

/// The message `ParseIntError` displays for a failed reading.
pub open spec fn parse_error_text(p: ParsedCount) -> Seq<char> {
    match p {
        ParsedCount::Empty => "cannot parse integer from empty string"@,
        ParsedCount::InvalidDigit => "invalid digit found in string"@,
        _ => "number too large to fit in target type"@,
    }
}

/// Reads a decimal count as `str::parse::<usize>` does.
pub fn parse_count_exec(s: &str) -> (r: ParsedCount)
    ensures
        r == parse_count(s@),
{
    let v = chars_of(s);
    if v.len() == 0 {
        return ParsedCount::Empty;
    }
    let mut i: usize = 0;
    if v[0] == '+' {
        if v.len() == 1 {
            return ParsedCount::InvalidDigit;
        }
        i = 1;
    }
    let ghost start = i;
    let mut acc: usize = 0;
    proof {
        if start == 1 {
            assert(v@.skip(1) =~= v@.drop_first());
        } else {
            assert(v@.skip(0) =~= v@);
        }
    }
    while i < v.len()
        invariant
            start <= i <= v@.len(),
            v@ == s@,
            parse_count(s@) == scan_digits(v@.skip(i as int), acc as nat),
        decreases v@.len() - i,
    {
        let c = v[i];
        proof {
            assert(v@.skip(i as int)[0] == c);
            assert(v@.skip(i as int).drop_first() =~= v@.skip(i + 1));
        }
        if c < '0' || c > '9' {
            return ParsedCount::InvalidDigit;
        }
        let d = (c as u32 - '0' as u32) as usize;
        if acc > (usize::MAX - d) / 10 {
            proof {
                assert(acc * 10 + d > usize::MAX) by (nonlinear_arith)
                    requires
                        acc > (usize::MAX - d) / 10,
                        d <= 9,
                ;
            }
            return ParsedCount::Overflow;
        }
        proof {
            assert(acc * 10 + d <= usize::MAX) by (nonlinear_arith)
                requires
                    acc <= (usize::MAX - d) / 10,
                    d <= 9,
            ;
        }
        acc = acc * 10 + d;
        i += 1;
    }
    ParsedCount::Value(acc)
}

/// What one header line of a reply says.
pub enum HeaderLine {
    /// The blank line that ends the headers.
    End,
    /// A `Content-Length` header and how its value reads.
    Length(ParsedCount),
    /// Any other header.
    Other,
}

/// What a header line says, once trimmed.
pub open spec fn header_line_spec(line: Seq<char>) -> HeaderLine {
    let t = crate::text::trim(line);
    if t.len() == 0 {
        HeaderLine::End
    } else if starts_with(t, "Content-Length: "@) {
        HeaderLine::Length(parse_count(t.skip(16)))
    } else {
        HeaderLine::Other
    }
}

/// What a header line says.
pub fn header_line(line: &str) -> (h: HeaderLine)
    ensures
        h == header_line_spec(line@),
{
    let t = crate::text::trim_str(line);
    if t.as_str().is_empty() {
        return HeaderLine::End;
    }
    proof {
        reveal_strlit("Content-Length: ");
    }
    if str_starts_with(t.as_str(), "Content-Length: ") {
        let v = chars_of(t.as_str());
        let rest = string_of(&v, 16, v.len());
        assert(v@.subrange(16, v@.len() as int) =~= t@.skip(16));
        HeaderLine::Length(parse_count_exec(rest.as_str()))
    } else {
        HeaderLine::Other
    }
}

/// What a reply says about itself: its `id` when it is an integer, and,
/// when it has an `error` member, that error's `message` when it is text.
pub struct ReplyHead {
    pub id: Option<i64>,
    pub error: Option<Option<String>>,
}

/// What to do with a reply while waiting for the answer to `expected`.
pub enum ReplyStep {
    /// A notification or another request's answer: read on.
    Skip,
    /// The server answered with an error.
    Fail(String),
    /// The answer: take its `result`.
    Take,
}

/// The error for a reply without a usable length.
pub open spec fn missing_length_text() -> Seq<char> {
    "Invalid LSP message: missing or zero Content-Length header"@
}

impl LspTool {
    /// What to do with a reply while waiting for the answer to `expected`.
    pub fn reply_step(head: &ReplyHead, expected: i64) -> (s: ReplyStep)
        ensures
            head.id != Some(expected) ==> s is Skip,
            head.id == Some(expected) ==> match head.error {
                None => s is Take,
                Some(m) => s matches ReplyStep::Fail(t) && t@ == "LSP error: "@ + match m {
                    Some(x) => x@,
                    None => "Unknown LSP error"@,
                },
            },
    {
        match head.id {
            Some(id) => {
                if id != expected {
                    return ReplyStep::Skip;
                }
            },
            None => {
                return ReplyStep::Skip;
            },
        }
        match &head.error {
            None => ReplyStep::Take,
            Some(m) => {
                let mut t = "LSP error: ".to_owned();
                match m {
                    Some(x) => push_str(&mut t, x.as_str()),
                    None => push_str(&mut t, "Unknown LSP error"),
                }
                ReplyStep::Fail(t)
            },
        }
    }

    /// The body length the headers gave, or the error for headers that gave
    /// none: `length` is the last `Content-Length` read (0 when none).
    pub fn body_length(length: usize) -> (r: Result<usize, String>)
        ensures
            length == 0 ==> (r matches Err(m) && m@ == missing_length_text()),
            length > 0 ==> r == Ok::<usize, String>(length),
    {
        if length == 0 {
            Err("Invalid LSP message: missing or zero Content-Length header".to_owned())
        } else {
            Ok(length)
        }
    }
}


// ─── When the server fails ─────────────────────────────────────────────────

impl LspTool {
    /// The error for a file type no server handles.
    pub fn no_server(extension: &str) -> (o: ToolOutput)
        ensures
            out_view(o) == error_view(
                "No LSP server available for ."@ + extension@
                    + " files. Supported: .rs (rust-analyzer), .ts/.js (typescript-language-server), .py (pylsp), .go (gopls)"@,
            ),
    {
        let mut m = "No LSP server available for .".to_owned();
        push_str(&mut m, extension);
        push_str(
            &mut m,
            " files. Supported: .rs (rust-analyzer), .ts/.js (typescript-language-server), .py (pylsp), .go (gopls)",
        );
        super::error_output(m)
    }

    /// The error for a server that would not start.
    pub fn start_failed(extension: &str, err: &str) -> (o: ToolOutput)
        ensures
            out_view(o) == error_view("Failed to start LSP server for ."@ + extension@ + ": "@ + err@),
    {
        let mut m = "Failed to start LSP server for .".to_owned();
        push_str(&mut m, extension);
        push_str(&mut m, ": ");
        push_str(&mut m, err);
        super::error_output(m)
    }

    /// The error for a document the server would not open.
    pub fn open_failed(err: &str) -> (o: ToolOutput)
        ensures
            out_view(o) == error_view("Failed to open document in LSP server: "@ + err@),
    {
        let mut m = "Failed to open document in LSP server: ".to_owned();
        push_str(&mut m, err);
        super::error_output(m)
    }

    /// The error for a request that failed.
    pub fn request_failed(err: &str) -> (o: ToolOutput)
        ensures
            out_view(o) == error_view("LSP request failed: "@ + err@),
    {
        let mut m = "LSP request failed: ".to_owned();
        push_str(&mut m, err);
        super::error_output(m)
    }
}

} // verus!
