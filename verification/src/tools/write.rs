//! Write: a file's whole content. This module reads the call's arguments,
//! enforces the size limit, and words the outcome; resolving the path on
//! the file system and writing it is left to the caller.

use vstd::prelude::*;
use super::Early;
use crate::text::{blen, decimal, decimal_string, lines, owned, push_str, split_lines, views};
use crate::tool_input::ToolInput;
use crate::tool_output::{error_view, out_view, BodyV, OutV, ToolOutput};

verus! {

pub struct WriteTool;

/// Largest content a call may write, in bytes (10 MB).
pub const MAX_WRITE_SIZE: usize = 10_485_760;

/// What a Write call asks for.
pub struct WriteRequest {
    pub file_path: String,
    pub content: String,
}

/// The output for a file written at `path`: `is_new` when it did not exist.
pub open spec fn written_view(path: Seq<char>, is_new: bool, content: Seq<char>) -> OutV {
    let n = lines(content).len();
    let line_count = if n > 1 { n } else { 1 };
    OutV {
        is_error: false,
        summary: Some(
            (if is_new { "Created "@ } else { "Updated "@ }) + path + " ("@ + decimal(line_count)
                + " lines, "@ + decimal(blen(content)) + " bytes)"@,
        ),
        body: BodyV::Text(
            "File "@ + path + " was "@ + (if is_new { "created"@ } else { "updated"@ }) + "."@,
        ),
        truncation: None,
        steps: seq!["Use Read to verify the new contents if needed"@],
    }
}

impl WriteTool {
    /// Reads the call's arguments; a missing `file_path` or `content` fails
    /// the call.
    pub fn request(input: &ToolInput) -> (r: Result<WriteRequest, Early>)
        ensures
            match input.str_arg("file_path"@) {
                None => r matches Err(Early::Fail(m)) && m@ == "Missing 'file_path' parameter"@,
                Some(p) => match input.str_arg("content"@) {
                    None => r matches Err(Early::Fail(m)) && m@ == "Missing 'content' parameter"@,
                    Some(c) => r matches Ok(q) && q.file_path@ == p && q.content@ == c,
                },
            },
    {
        let file_path = match input.get_str("file_path") {
            Some(p) => owned(p),
            None => {
                return Err(Early::Fail(owned("Missing 'file_path' parameter")));
            },
        };
        let content = match input.get_str("content") {
            Some(c) => owned(c),
            None => {
                return Err(Early::Fail(owned("Missing 'content' parameter")));
            },
        };
        Ok(WriteRequest { file_path, content })
    }

    /// Whether the content is over the size limit.
    pub fn too_large(req: &WriteRequest) -> (b: bool)
        ensures
            b == (blen(req.content@) > MAX_WRITE_SIZE),
    {
        req.content.as_str().len() > MAX_WRITE_SIZE
    }

    /// The error for content over the limit; `size_mb` is its size in
    /// megabytes, as text.
    pub fn too_large_output(size_mb: &str) -> (o: ToolOutput)
        ensures
            out_view(o) == error_view(
                "Content too large ("@ + size_mb@ + " MB). Max write size is 10 MB."@,
            ),
    {
        let mut m = owned("Content too large (");
        push_str(&mut m, size_mb);
        push_str(&mut m, " MB). Max write size is 10 MB.");
        let o = ToolOutput::error(m.as_str());
        assert(views(o.next_steps@) =~= Seq::<Seq<char>>::empty());
        o
    }

    /// The error for a parent directory that could not be created.
    pub fn dir_failed(parent: &str, err: &str) -> (o: ToolOutput)
        ensures
            out_view(o) == error_view("Failed to create directory "@ + parent@ + ": "@ + err@),
    {
        let mut m = owned("Failed to create directory ");
        push_str(&mut m, parent);
        push_str(&mut m, ": ");
        push_str(&mut m, err);
        let o = ToolOutput::error(m.as_str());
        assert(views(o.next_steps@) =~= Seq::<Seq<char>>::empty());
        o
    }

    /// The error for a file that could not be written.
    pub fn write_failed(path: &str, err: &str) -> (o: ToolOutput)
        ensures
            out_view(o) == error_view("Failed to write "@ + path@ + ": "@ + err@),
    {
        let mut m = owned("Failed to write ");
        push_str(&mut m, path);
        push_str(&mut m, ": ");
        push_str(&mut m, err);
        let o = ToolOutput::error(m.as_str());
        assert(views(o.next_steps@) =~= Seq::<Seq<char>>::empty());
        o
    }

    /// The output for a file written at `path`.
    pub fn written(path: &str, is_new: bool, content: &str) -> (o: ToolOutput)
        ensures
            out_view(o) == written_view(path@, is_new, content@),
    {
        let ls = split_lines(content);
        let n = ls.len();
        let line_count = if n > 1 { n } else { 1 };
        let mut summary = if is_new { owned("Created ") } else { owned("Updated ") };
        push_str(&mut summary, path);
        push_str(&mut summary, " (");
        let a = decimal_string(line_count as u64);
        push_str(&mut summary, a.as_str());
        push_str(&mut summary, " lines, ");
        let b = decimal_string(content.len() as u64);
        push_str(&mut summary, b.as_str());
        push_str(&mut summary, " bytes)");
        let mut text = owned("File ");
        push_str(&mut text, path);
        push_str(&mut text, " was ");
        push_str(&mut text, if is_new { "created" } else { "updated" });
        push_str(&mut text, ".");
        let o = ToolOutput::success().with_summary(summary.as_str()).with_text(text.as_str()).with_next_step(
            "Use Read to verify the new contents if needed",
        );
        assert(views(o.next_steps@) =~= seq!["Use Read to verify the new contents if needed"@]);
        o
    }
}

} // verus!
