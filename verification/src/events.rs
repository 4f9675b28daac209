//! Severity of the status lines the agent reports while it works.

use vstd::prelude::*;

verus! {

/// Severity of a status message.
#[derive(Debug, Clone, Copy, PartialEq, Eq, Structural)]
pub enum StatusLevel {
    Info,
    Warning,
    Error,
    Dim,
}

} // verus!
