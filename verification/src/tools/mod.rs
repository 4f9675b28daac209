//! The logic of the built-in tools: reading a call's arguments, deciding
//! what to run, and shaping what came back into the output the model reads.
//! Running processes, touching files and the network is left to the caller.

pub mod agent;
pub mod ask_user;
pub mod bash;
pub mod edit;
pub mod glob;
pub mod grep;
pub mod lsp;
pub mod notebook_edit;
pub mod plan_mode;
pub mod read;
pub mod registry;
pub mod skill;
pub mod tasks;
pub mod web_fetch;
pub mod web_search;
pub mod worktree;
pub mod write;

use vstd::prelude::*;
use crate::text::views;
use crate::tool_output::{error_view, out_view, OutV, ToolOutput};

verus! {

/// How a tool's call is gated.
#[derive(Debug, Clone, Copy, PartialEq, Eq, Structural)]
pub enum PermissionClass {
    /// Always allowed (a pure read).
    ReadOnly,
    /// Needs confirmation unless the permission mode skips it.
    Ask,
    /// Always denied.
    Forbidden,
}

impl PermissionClass {
    pub fn is_read_only(self) -> (b: bool)
        ensures
            b == (self == PermissionClass::ReadOnly),
    {
        self == PermissionClass::ReadOnly
    }
}

/// How a call ends before its work: a failed call, or an output for the
/// model.
pub enum Early {
    Fail(String),
    Output(ToolOutput),
}

/// An error output with the message `m` and nothing else.
pub(crate) fn error_output(m: String) -> (o: ToolOutput)
    ensures
        out_view(o) == error_view(m@),
{
    let o = ToolOutput::error(m.as_str());
    assert(views(o.next_steps@) =~= Seq::<Seq<char>>::empty());
    o
}

/// An early end as values.
pub enum EarlyV {
    Fail(Seq<char>),
    Output(OutV),
}

pub open spec fn early_view(e: Early) -> EarlyV {
    match e {
        Early::Fail(m) => EarlyV::Fail(m@),
        Early::Output(o) => EarlyV::Output(out_view(o)),
    }
}

} // verus!
