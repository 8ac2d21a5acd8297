//! The broadcast state machine.
//!
//! A broadcast run turns an assembled transaction into a chain-accepted one:
//! resolve the account's current number and sequence, sign the payload,
//! submit, and — on the one specially-interpreted rejection, a sequence
//! mismatch — re-enter resolution with a fresh sequence, a bounded number of
//! times.  The machine decides; the caller performs the requested action
//! (fetch, sign, submit) and feeds the outcome back as the next event.
//!
//! A session owns the whole read-sequence/submit cycle for its identity:
//! broadcasts that race on the same account would capture the same sequence
//! and lose one transaction, so runs for one identity go through one session
//! at a time.

use vstd::prelude::*;

use crate::assemble::UnsignedTx;
use crate::errors::{BroadcastError, ChainQueryError, RunError, SignerError};

verus! {

/// The chain's bookkeeping numbers for an account, fetched fresh before
/// every submission and never cached across broadcasts.
#[derive(Clone, Copy, Debug, PartialEq, Eq, Structural)]
pub struct AccountInfo {
    pub account_number: u64,
    pub sequence: u64,
}

/// The immediate answer of the chain's broadcast RPC.
#[derive(Clone, Copy, Debug, PartialEq, Eq, Structural)]
pub enum SubmitResult {
    Accepted,
    /// Rejected with the machine-readable sequence-mismatch reason.
    RejectedSequenceMismatch,
    /// Rejected for any other reason.
    RejectedOther,
    /// The submission went out but its answer was never learned (for
    /// instance a cancellation right after the send).
    OutcomeUnknown,
}

/// What a broadcast run ends in.
#[derive(Clone, Copy, Debug, PartialEq, Eq, Structural)]
pub enum BroadcastOutcome {
    /// The broadcast RPC accepted the transaction.
    Confirmed,
    /// The chain rejected it for a reason other than a sequence mismatch.
    Rejected,
    /// Submitted, but whether the chain accepted it is unknown; retrying
    /// blindly risks a double submission, so this is distinct from failure.
    Unknown,
    /// The run failed at the named stage.
    Failed(RunError),
}

/// Where a run stands.  `attempts` counts the sequence-mismatch
/// re-resolutions taken so far.
#[derive(Clone, Copy, Debug, PartialEq, Eq, Structural)]
pub enum Phase {
    /// Waiting for the account's fresh number and sequence.
    FetchingAccount { attempts: u64 },
    /// Waiting for the threshold signature over the payload built from
    /// `account`.
    Signing { account: AccountInfo, attempts: u64 },
    /// Waiting for the broadcast RPC's answer to the envelope built from
    /// `account`.
    Submitting { account: AccountInfo, attempts: u64 },
    /// The run is over.
    Done { outcome: BroadcastOutcome },
}

/// The outcome of the action the caller was asked to perform.
#[derive(Clone, Copy, Debug)]
pub enum BroadcastEvent {
    AccountFetched(Result<AccountInfo, ChainQueryError>),
    Signed(Result<(), SignerError>),
    Submitted(SubmitResult),
}

/// What the caller must do next.
#[derive(Clone, Copy, Debug, PartialEq, Eq, Structural)]
pub enum BroadcastAction {
    /// Query the chain for the sender's account number and sequence.
    FetchAccount,
    /// Have the threshold signer sign the payload carrying `account`.
    Sign { account: AccountInfo },
    /// Submit the envelope sealed with the signature and `account`.
    Submit { account: AccountInfo },
    /// Nothing: the run ended with `outcome`.
    Report { outcome: BroadcastOutcome },
}

/// One broadcast run for one operator identity.
#[derive(Debug)]
pub struct BroadcastSession {
    /// The signer-side identifier of the signing key.
    pub key_uid: String,
    /// The sender address derived from the operator's public key.
    pub sender: String,
    /// The assembled transaction; rebuilt payloads for a retry come from
    /// this same value, so they are identical by construction.
    pub tx: UnsignedTx,
    /// How many sequence-mismatch re-resolutions are allowed.
    pub max_retries: u64,
    /// How many submissions were requested so far.
    pub submits: u64,
    pub phase: Phase,
}

/// Which event answers which phase.
pub open spec fn phase_expects(p: Phase, ev: BroadcastEvent) -> bool {
    match (p, ev) {
        (Phase::FetchingAccount { .. }, BroadcastEvent::AccountFetched(_)) => true,
        (Phase::Signing { .. }, BroadcastEvent::Signed(_)) => true,
        (Phase::Submitting { .. }, BroadcastEvent::Submitted(_)) => true,
        _ => false,
    }
}

/// The session's bookkeeping invariant: the retry budget is respected and
/// the submission count follows the phase.
pub open spec fn session_wf(s: BroadcastSession) -> bool {
    &&& s.max_retries <= 0xFFFF_FFFF
    &&& match s.phase {
        Phase::FetchingAccount { attempts } => attempts <= s.max_retries && s.submits == attempts,
        Phase::Signing { account, attempts } => attempts <= s.max_retries && s.submits == attempts,
        Phase::Submitting { account, attempts } => attempts <= s.max_retries && s.submits
            == attempts + 1,
        Phase::Done { outcome } => s.submits <= s.max_retries + 1,
    }
}

/// The transition relation of a run: what each event does to the phase and
/// what the caller must do next.
pub open spec fn spec_step(p: Phase, max_retries: u64, ev: BroadcastEvent) -> (
    Phase,
    BroadcastAction,
) {
    match (p, ev) {
        (
            Phase::FetchingAccount { attempts },
            BroadcastEvent::AccountFetched(Ok(account)),
        ) => (
            Phase::Signing { account, attempts },
            BroadcastAction::Sign { account },
        ),
        (Phase::FetchingAccount { attempts }, BroadcastEvent::AccountFetched(Err(e))) => {
            let outcome = BroadcastOutcome::Failed(RunError::ChainQuery(e));
            (Phase::Done { outcome }, BroadcastAction::Report { outcome })
        },
        (Phase::Signing { account, attempts }, BroadcastEvent::Signed(Ok(_))) => (
            Phase::Submitting { account, attempts },
            BroadcastAction::Submit { account },
        ),
        (Phase::Signing { account, attempts }, BroadcastEvent::Signed(Err(e))) => {
            let outcome = BroadcastOutcome::Failed(RunError::Signer(e));
            (Phase::Done { outcome }, BroadcastAction::Report { outcome })
        },
        (Phase::Submitting { account, attempts }, BroadcastEvent::Submitted(res)) => match res {
            SubmitResult::Accepted => {
                let outcome = BroadcastOutcome::Confirmed;
                (Phase::Done { outcome }, BroadcastAction::Report { outcome })
            },
            SubmitResult::RejectedSequenceMismatch => {
                if attempts < max_retries {
                    (
                        Phase::FetchingAccount { attempts: (attempts + 1) as u64 },
                        BroadcastAction::FetchAccount,
                    )
                } else {
                    let outcome = BroadcastOutcome::Failed(
                        RunError::Broadcast(BroadcastError::SequenceMismatch),
                    );
                    (Phase::Done { outcome }, BroadcastAction::Report { outcome })
                }
            },
            SubmitResult::RejectedOther => {
                let outcome = BroadcastOutcome::Rejected;
                (Phase::Done { outcome }, BroadcastAction::Report { outcome })
            },
            SubmitResult::OutcomeUnknown => {
                let outcome = BroadcastOutcome::Unknown;
                (Phase::Done { outcome }, BroadcastAction::Report { outcome })
            },
        },
        (_, _) => (p, BroadcastAction::FetchAccount),
    }
}

/// Opens a run for the identity `key_uid` sending `tx` from `sender`.  The
/// first thing to do is fetch the account, so the run starts there.
pub fn begin(key_uid: String, sender: String, tx: UnsignedTx, max_retries: u64) -> (s:
    BroadcastSession)
    requires
        max_retries <= 0xFFFF_FFFF,
    ensures
        s.key_uid == key_uid,
        s.sender == sender,
        s.tx == tx,
        s.max_retries == max_retries,
        s.submits == 0,
        s.phase == (Phase::FetchingAccount { attempts: 0u64 }),
        session_wf(s),
{
    BroadcastSession {
        key_uid,
        sender,
        tx,
        max_retries,
        submits: 0,
        phase: Phase::FetchingAccount { attempts: 0 },
    }
}

/// Advances the run by one event.
///
/// The returned action is what the caller must perform next; the phase,
/// the transaction and every other field move exactly as `spec_step` says.
/// A submission is requested exactly when the count grows by one.
pub fn step(s: &mut BroadcastSession, ev: BroadcastEvent) -> (a: BroadcastAction)
    requires
        session_wf(*old(s)),
        !(old(s).phase is Done),
        phase_expects(old(s).phase, ev),
    ensures
        session_wf(*final(s)),
        (final(s).phase, a) == spec_step(old(s).phase, old(s).max_retries, ev),
        final(s).key_uid == old(s).key_uid,
        final(s).sender == old(s).sender,
        final(s).tx == old(s).tx,
        final(s).max_retries == old(s).max_retries,
        final(s).submits == old(s).submits + (if a is Submit {
            1int
        } else {
            0int
        }),
        a matches BroadcastAction::Report { outcome } ==> final(s).phase == (Phase::Done { outcome }),
        a is Report <==> final(s).phase is Done,
{
    let phase = s.phase;
    match (phase, ev) {
        (Phase::FetchingAccount { attempts }, BroadcastEvent::AccountFetched(Ok(account))) => {
            s.phase = Phase::Signing { account, attempts };
            BroadcastAction::Sign { account }
        },
        (Phase::FetchingAccount { attempts: _ }, BroadcastEvent::AccountFetched(Err(e))) => {
            let outcome = BroadcastOutcome::Failed(RunError::ChainQuery(e));
            s.phase = Phase::Done { outcome };
            BroadcastAction::Report { outcome }
        },
        (Phase::Signing { account, attempts }, BroadcastEvent::Signed(Ok(_))) => {
            s.phase = Phase::Submitting { account, attempts };
            s.submits = s.submits + 1;
            BroadcastAction::Submit { account }
        },
        (Phase::Signing { account: _, attempts: _ }, BroadcastEvent::Signed(Err(e))) => {
            let outcome = BroadcastOutcome::Failed(RunError::Signer(e));
            s.phase = Phase::Done { outcome };
            BroadcastAction::Report { outcome }
        },
        (Phase::Submitting { account, attempts }, BroadcastEvent::Submitted(res)) => match res {
            SubmitResult::Accepted => {
                let outcome = BroadcastOutcome::Confirmed;
                s.phase = Phase::Done { outcome };
                BroadcastAction::Report { outcome }
            },
            SubmitResult::RejectedSequenceMismatch => {
                if attempts < s.max_retries {
                    s.phase = Phase::FetchingAccount { attempts: attempts + 1 };
                    BroadcastAction::FetchAccount
                } else {
                    let outcome = BroadcastOutcome::Failed(
                        RunError::Broadcast(BroadcastError::SequenceMismatch),
                    );
                    s.phase = Phase::Done { outcome };
                    BroadcastAction::Report { outcome }
                }
            },
            SubmitResult::RejectedOther => {
                let outcome = BroadcastOutcome::Rejected;
                s.phase = Phase::Done { outcome };
                BroadcastAction::Report { outcome }
            },
            SubmitResult::OutcomeUnknown => {
                let outcome = BroadcastOutcome::Unknown;
                s.phase = Phase::Done { outcome };
                BroadcastAction::Report { outcome }
            },
        },
        _ => {
            proof {
                assert(false);
            }
            BroadcastAction::FetchAccount
        },
    }
}

/// The submission-ready transaction: payload, account metadata and
/// signature, consumed exactly once.
#[derive(Debug)]
pub struct SignedTxEnvelope {
    pub tx: UnsignedTx,
    pub account: AccountInfo,
    pub signature: Vec<u8>,
}

/// Seals the envelope from its three parts.
pub fn seal_envelope(tx: UnsignedTx, account: AccountInfo, signature: Vec<u8>) -> (e:
    SignedTxEnvelope)
    ensures
        e.tx == tx,
        e.account == account,
        e.signature == signature,
{
    SignedTxEnvelope { tx, account, signature }
}

/// Sequence-mismatch recovery, one step: a mismatch rejection with retry
/// budget left does not end the run — it re-enters account resolution with
/// the attempt counted.
pub proof fn lemma_sequence_mismatch_recovery(account: AccountInfo, attempts: u64, max_retries: u64)
    requires
        attempts < max_retries,
    ensures
        spec_step(
            Phase::Submitting { account, attempts },
            max_retries,
            BroadcastEvent::Submitted(SubmitResult::RejectedSequenceMismatch),
        ) == (
            Phase::FetchingAccount { attempts: (attempts + 1) as u64 },
            BroadcastAction::FetchAccount,
        ),
{
}

/// Sequence-mismatch recovery, whole run: when the chain rejects the first
/// submission with a sequence mismatch and accepts the second, the run asks
/// for exactly two submissions — the second built from the freshly fetched
/// account state — and ends `Confirmed`.
pub proof fn lemma_recovers_after_one_mismatch(
    max_retries: u64,
    acct1: AccountInfo,
    acct2: AccountInfo,
)
    requires
        1 <= max_retries,
    ensures
        ({
            let p0 = Phase::FetchingAccount { attempts: 0u64 };
            let (p1, a1) = spec_step(p0, max_retries, BroadcastEvent::AccountFetched(Ok(acct1)));
            let (p2, a2) = spec_step(p1, max_retries, BroadcastEvent::Signed(Ok(())));
            let (p3, a3) = spec_step(
                p2,
                max_retries,
                BroadcastEvent::Submitted(SubmitResult::RejectedSequenceMismatch),
            );
            let (p4, a4) = spec_step(p3, max_retries, BroadcastEvent::AccountFetched(Ok(acct2)));
            let (p5, a5) = spec_step(p4, max_retries, BroadcastEvent::Signed(Ok(())));
            let (p6, a6) = spec_step(p5, max_retries, BroadcastEvent::Submitted(SubmitResult::Accepted));
            &&& a1 == (BroadcastAction::Sign { account: acct1 })
            &&& a2 == (BroadcastAction::Submit { account: acct1 })
            &&& a3 == BroadcastAction::FetchAccount
            &&& a4 == (BroadcastAction::Sign { account: acct2 })
            &&& a5 == (BroadcastAction::Submit { account: acct2 })
            &&& a6 == (BroadcastAction::Report { outcome: BroadcastOutcome::Confirmed })
            &&& p6 == (Phase::Done { outcome: BroadcastOutcome::Confirmed })
        }),
{
}

} // verus!
