use vstd::prelude::*;

verus! {

/// Every failure a core operation can report. All of them are recoverable:
/// each operation returns a `Result` and leaves its receiver in a valid
/// state, so the caller may surface a message and retry.
#[derive(Debug, Clone, Copy, PartialEq, Eq, Structural)]
pub enum ConvitError {
    /// A navigation operation was applied to a list with no entries.
    EmptyList,
    /// A screen transition was requested that the state machine forbids.
    InvalidStateTransition,
    /// A description was empty, or blank after trimming whitespace.
    EmptyDescription,
    /// A keyword matched no entry of the footer catalog.
    UnknownFooterKind,
    /// A keyword matched no entry of the commit-type catalog.
    UnknownCommitType,
    /// The draft handed to the finalizer lacks a required field;
    /// the flags name the missing ones.
    IncompleteDraft { missing_type: bool, missing_description: bool },
}

} // verus!
