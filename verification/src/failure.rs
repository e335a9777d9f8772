//! The kinds of failure and what each one ends.

use vstd::prelude::*;

verus! {

/// What can go wrong, by where it goes wrong.
#[derive(Clone, Copy, Debug, PartialEq, Eq, Structural)]
pub enum FailureKind {
    /// Before ingestion begins: the store cannot be opened or its table
    /// made, the subscription is refused, or the port does not read.
    Startup,
    /// A payload is malformed.
    Validation,
    /// An accepted message cannot be written to the store.
    StorageWrite,
    /// The broker session reports an error.
    Session,
}

/// How far a failure reaches.
#[derive(Clone, Copy, Debug, PartialEq, Eq, Structural)]
pub enum Disposition {
    /// The message is dropped and reported; the loop goes on.
    DropMessage,
    /// The loop ends; the process stays, idle.
    StopIngestion,
    /// The process ends.
    EndProcess,
}

/// The reach of each kind of failure.
pub open spec fn disposition_spec(kind: FailureKind) -> Disposition {
    match kind {
        FailureKind::Startup => Disposition::EndProcess,
        FailureKind::Validation => Disposition::DropMessage,
        FailureKind::StorageWrite => Disposition::EndProcess,
        FailureKind::Session => Disposition::StopIngestion,
    }
}

/// Decides how far a failure reaches.
pub fn disposition(kind: FailureKind) -> (reach: Disposition)
    ensures
        reach == disposition_spec(kind),
{
    match kind {
        FailureKind::Startup => Disposition::EndProcess,
        FailureKind::Validation => Disposition::DropMessage,
        FailureKind::StorageWrite => Disposition::EndProcess,
        FailureKind::Session => Disposition::StopIngestion,
    }
}

} // verus!
