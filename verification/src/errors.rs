//! The kinds of failure, and how the application reacts to each.

use vstd::prelude::*;

verus! {

/// The kinds of failure the application knows.
#[derive(Clone, Copy, Debug, PartialEq, Eq, Structural)]
pub enum ErrorKind {
    /// Another instance holds the single-instance lock.
    AlreadyRunning,
    /// No task has the given id.
    NotFound,
    /// A task with the given id is stored already.
    Conflict,
    /// A stored value cannot be read.
    Malformed,
    /// The requested song has no file.
    AssetMissing,
    /// The store cannot be used.
    Fatal,
}

/// What the application does about a failure.
#[derive(Clone, Copy, Debug, PartialEq, Eq, Structural)]
pub enum Reaction {
    /// Report the failure and exit with a status that is not zero.
    Exit,
    /// Write the failure to the log and go on.
    Log,
    /// Try again with a fresh id.
    Retry,
    /// Pass over what cannot be read: a theme file is skipped, preferences
    /// give way to the built-in ones, a task row is left out.
    Skip,
    /// Report the failure and play nothing.
    Silence,
}

/// The reaction to each kind of failure.
pub open spec fn reaction_to(kind: ErrorKind) -> Reaction {
    match kind {
        ErrorKind::AlreadyRunning => Reaction::Exit,
        ErrorKind::NotFound => Reaction::Log,
        ErrorKind::Conflict => Reaction::Retry,
        ErrorKind::Malformed => Reaction::Skip,
        ErrorKind::AssetMissing => Reaction::Silence,
        ErrorKind::Fatal => Reaction::Exit,
    }
}

/// The reaction to a failure of kind `kind`.
pub fn reaction(kind: ErrorKind) -> (reaction: Reaction)
    ensures
        reaction == reaction_to(kind),
{
    match kind {
        ErrorKind::AlreadyRunning => Reaction::Exit,
        ErrorKind::NotFound => Reaction::Log,
        ErrorKind::Conflict => Reaction::Retry,
        ErrorKind::Malformed => Reaction::Skip,
        ErrorKind::AssetMissing => Reaction::Silence,
        ErrorKind::Fatal => Reaction::Exit,
    }
}

/// Whether the user interface passes over a failure without a message to the
/// user: a missing id is harmless.
pub fn is_benign(kind: ErrorKind) -> (benign: bool)
    ensures
        benign == (kind == ErrorKind::NotFound),
        benign == (reaction_to(kind) == Reaction::Log),
{
    match kind {
        ErrorKind::NotFound => true,
        _ => false,
    }
}

} // verus!
