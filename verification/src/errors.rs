//! Error taxonomy of the signing-and-broadcast core.
//!
//! Each component reports failures through its own enum so that callers can
//! tell retryable conditions (connection loss, stale sequence) apart from
//! those that need operator intervention (unfunded account, invalid input,
//! unreadable key state).

use vstd::prelude::*;

verus! {

/// Failure of the persisted key-state store.
#[derive(Clone, Copy, Debug, PartialEq, Eq, Structural)]
pub enum StateError {
    /// The backing file could not be read or written.
    Io,
    /// The backing file held content that is not a valid state record.
    Parse,
    /// An attempt was made to replace an already-recorded public key with a
    /// different one: a programming-level invariant violation, never a
    /// silent overwrite.
    KeyOverwrite,
}

/// Failure reported by the external threshold signer.
///
/// `Keygen` must never be blindly retried against a store that already
/// believes it has a key; `Sign` is retryable with a fresh attempt.
#[derive(Clone, Copy, Debug, PartialEq, Eq, Structural)]
pub enum SignerError {
    Keygen,
    Sign,
}

/// Failure of the chain-node account query.
#[derive(Clone, Copy, Debug, PartialEq, Eq, Structural)]
pub enum ChainQueryError {
    /// The address has never been registered on chain: a legitimate,
    /// user-actionable condition (the address needs funding), not a
    /// transport fault.
    NotFound,
    /// The node could not be reached.
    Transport,
}

/// Failure of transaction assembly; raised before any network call is made.
#[derive(Clone, Copy, Debug, PartialEq, Eq, Structural)]
pub enum AssemblyError {
    InvalidInput,
}

/// Failure of the broadcast submission.
#[derive(Clone, Copy, Debug, PartialEq, Eq, Structural)]
pub enum BroadcastError {
    /// The chain rejected the transaction because its sequence number was
    /// stale; the one rejection that triggers a bounded re-resolution retry.
    SequenceMismatch,
    /// Any other rejection; terminal for the attempt.
    Other,
}

/// The failure of a whole broadcast run, tagged with the stage it came from.
#[derive(Clone, Copy, Debug, PartialEq, Eq, Structural)]
pub enum RunError {
    /// The signer or the chain node could not be reached.
    Connection,
    Signer(SignerError),
    ChainQuery(ChainQueryError),
    Assembly(AssemblyError),
    Broadcast(BroadcastError),
    State(StateError),
}

} // verus!
