//! Signing-state and broadcast core of a Cosmos-chain relayer daemon.
//!
//! The library turns a logical contract call into a signed, sequence-correct
//! transaction: it caches the operator's public key (produced on demand by an
//! external threshold signer), derives the operator's account address,
//! assembles deterministic contract-execution payloads, and drives the
//! broadcast state machine that resolves the account sequence, signs, submits
//! and recovers from sequence mismatches.  All network I/O stays outside: the
//! caller performs each requested action and feeds the outcome back in.

pub mod errors;
pub mod keys;
pub mod jsontext;
pub mod addr;
pub mod assemble;
pub mod state;
pub mod broadcast;
pub mod config;
pub mod args;
