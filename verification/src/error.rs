//! Error taxonomy of the reactor core.  Every error here is fatal to the
//! current tick and is surfaced to the caller unchanged; there is no local
//! retry or recovery.

use vstd::prelude::*;

verus! {

/// Which protocol a fault was observed in.
#[derive(Clone, Copy, Debug, PartialEq, Eq, Structural)]
pub enum ProtocolKind {
    VerificationGame,
    Partition,
    MemoryManager,
}

/// How an encoded state failed to match the field layout expected for the
/// protocol being decoded.
#[derive(Clone, Copy, Debug, PartialEq, Eq, Structural)]
pub enum DecodeFault {
    /// The field list has the wrong length.
    FieldCount { found: usize },
    /// The field at this position has the wrong kind.
    FieldKind { index: usize },
    /// The word-array field has the wrong number of words.
    WordCount { found: usize },
}

/// A structural precondition the protocol logic requires is violated: the
/// viewing party has no stake in the instance, a required sub-instance is
/// absent, or the current-state tag lies outside the protocol's enumerated
/// set.
#[derive(Clone, Debug, PartialEq, Eq)]
pub enum StateFault {
    /// The viewing concern's user is neither claimer nor challenger.
    NeitherParty,
    /// The sub-instance this phase requires is absent; carries the protocol
    /// the missing sub-instance belongs to.
    MissingSubInstance(ProtocolKind),
    /// The current-state tag holds a value outside the enumerated set;
    /// carries the offending tag.
    UnknownState(String),
}

/// A fatal fault of one reaction tick.
#[derive(Clone, Debug, PartialEq, Eq)]
pub enum Error {
    /// The encoded state does not match the expected shape or field layout.
    Decode(ProtocolKind, DecodeFault),
    /// A structural precondition of the decision logic is violated.
    InvalidContractState(StateFault),
}

} // verus!
