//! Operator-command argument bundles.
//!
//! The values an operator supplies with each command, exactly as the
//! command surface hands them over: plain strings and numbers, validated
//! only once they reach the assembler.

use vstd::prelude::*;

verus! {

/// Arguments of the bond-worker command.
pub struct BondWorkerArgs {
    pub service_registry: String,
    pub service_name: String,
    pub amount: u128,
    pub denom: String,
}

/// Arguments of the declare-chain-support command.
pub struct DeclareChainSupportArgs {
    pub service_registry: String,
    pub service_name: String,
    pub chains: Vec<String>,
}

} // verus!
