//! Transaction assembly.
//!
//! Builds the chain-specific contract-invocation payload for each supported
//! logical action and wraps it with sender, contract and attached funds.
//! The payload is pinned character by character by spec functions, so equal
//! inputs always assemble to the identical message — a retry after a
//! sequence refresh rebuilds the very same bytes.  Malformed addresses and
//! empty required fields are rejected before any network call is spent.

use vstd::prelude::*;

use crate::addr::{check_addr, valid_addr};
use crate::errors::AssemblyError;
use crate::jsontext::{append_json_string, spec_quoted};
use crate::keys::{hex_encode, key_eqv, spec_hex, PublicKey};

verus! {

/// One attached coin: an amount of a denomination.
#[derive(Debug)]
pub struct Coin {
    pub amount: u128,
    pub denom: String,
}

impl Coin {
    /// A coin must name its denomination.
    pub open spec fn valid(&self) -> bool {
        self.denom@.len() > 0
    }
}

/// The logical actions the daemon can submit.
#[derive(Debug)]
pub enum WorkerAction {
    /// Bond the worker to a service.
    BondWorker { service_name: String },
    /// Declare which chains the worker supports for a service.
    DeclareChainSupport { service_name: String, chains: Vec<String> },
    /// Register the worker's public key with the multisig signer contract.
    RegisterPublicKey { public_key: PublicKey },
}

/// A chain-specific executable payload awaiting signature.
#[derive(Debug)]
pub struct UnsignedTx {
    pub sender: String,
    pub contract: String,
    pub msg: String,
    pub funds: Vec<Coin>,
}

/// The views of a vector of strings.
pub open spec fn chain_views(v: Seq<String>) -> Seq<Seq<char>> {
    v.map_values(|s: String| s@)
}

/// A comma-separated list of JSON string literals.
pub open spec fn spec_chain_list(cs: Seq<Seq<char>>) -> Seq<char>
    decreases cs.len(),
{
    if cs.len() == 0 {
        Seq::<char>::empty()
    } else if cs.len() == 1 {
        spec_quoted(cs[0])
    } else {
        spec_chain_list(cs.drop_last()) + seq![','] + spec_quoted(cs.last())
    }
}

/// Appending an element extends the list by a comma (if non-empty) and the
/// quoted element.
pub proof fn lemma_chain_list_push(cs: Seq<Seq<char>>, x: Seq<char>)
    ensures
        spec_chain_list(cs.push(x)) == if cs.len() == 0 {
            spec_quoted(x)
        } else {
            spec_chain_list(cs) + seq![','] + spec_quoted(x)
        },
{
    let t = cs.push(x);
    assert(t.drop_last() =~= cs);
    assert(t.last() == x);
}

/// The bond-worker invocation message.
pub open spec fn spec_bond_worker_msg(service_name: Seq<char>) -> Seq<char> {
    "{\"bond_worker\":{\"service_name\":"@ + spec_quoted(service_name) + "}}"@
}

/// The declare-chain-support invocation message.
pub open spec fn spec_declare_msg(service_name: Seq<char>, chains: Seq<Seq<char>>) -> Seq<char> {
    "{\"declare_chain_support\":{\"service_name\":"@ + spec_quoted(service_name)
        + ",\"chains\":["@ + spec_chain_list(chains) + "]}}"@
}

/// The register-public-key invocation message; the key travels as lowercase
/// hex under its key-type tag.
pub open spec fn spec_register_msg(key_bytes: Seq<u8>) -> Seq<char> {
    "{\"register_public_key\":{\"public_key\":{\"ecdsa\":\""@ + spec_hex(key_bytes) + "\"}}}"@
}

/// The invocation message of an action.
pub open spec fn spec_action_msg(a: WorkerAction) -> Seq<char> {
    match a {
        WorkerAction::BondWorker { service_name } => spec_bond_worker_msg(service_name@),
        WorkerAction::DeclareChainSupport { service_name, chains } => spec_declare_msg(
            service_name@,
            chain_views(chains@),
        ),
        WorkerAction::RegisterPublicKey { public_key } => spec_register_msg(public_key.bytes@),
    }
}

/// An action with all its required fields present: a non-empty service
/// name, at least one non-empty chain name, a well-formed public key.
pub open spec fn action_valid(a: WorkerAction) -> bool {
    match a {
        WorkerAction::BondWorker { service_name } => service_name@.len() > 0,
        WorkerAction::DeclareChainSupport { service_name, chains } => {
            &&& service_name@.len() > 0
            &&& chains@.len() > 0
            &&& forall|i: int| 0 <= i < chains@.len() ==> chains@[i]@.len() > 0
        },
        WorkerAction::RegisterPublicKey { public_key } => public_key.wf(),
    }
}

/// Two actions carry the same observable fields.
pub open spec fn action_eqv(a: WorkerAction, b: WorkerAction) -> bool {
    match (a, b) {
        (
            WorkerAction::BondWorker { service_name: n1 },
            WorkerAction::BondWorker { service_name: n2 },
        ) => n1@ == n2@,
        (
            WorkerAction::DeclareChainSupport { service_name: n1, chains: c1 },
            WorkerAction::DeclareChainSupport { service_name: n2, chains: c2 },
        ) => n1@ == n2@ && chain_views(c1@) == chain_views(c2@),
        (
            WorkerAction::RegisterPublicKey { public_key: k1 },
            WorkerAction::RegisterPublicKey { public_key: k2 },
        ) => key_eqv(k1, k2),
        _ => false,
    }
}

/// Deterministic assembly: the invocation message is a function of the
/// action's observable fields alone, so actions that agree on those fields
/// yield character-identical messages.
pub proof fn lemma_deterministic_assembly(a: WorkerAction, b: WorkerAction)
    requires
        action_eqv(a, b),
    ensures
        spec_action_msg(a) == spec_action_msg(b),
{
}

/// Whether all coins of `funds` are valid.
pub open spec fn funds_valid(funds: Seq<Coin>) -> bool {
    forall|i: int| 0 <= i < funds.len() ==> funds[i].valid()
}

/// The invocation message of `action`, exactly as `spec_action_msg` spells
/// it.
pub fn action_msg(action: &WorkerAction) -> (r: String)
    ensures
        r@ == spec_action_msg(*action),
{
    match action {
        WorkerAction::BondWorker { service_name } => {
            let mut out = String::from_str("{\"bond_worker\":{\"service_name\":");
            append_json_string(&mut out, service_name.as_str());
            out.append("}}");
            proof {
                assert(out@ =~= spec_action_msg(*action));
            }
            out
        },
        WorkerAction::DeclareChainSupport { service_name, chains } => {
            let mut out = String::from_str("{\"declare_chain_support\":{\"service_name\":");
            append_json_string(&mut out, service_name.as_str());
            out.append(",\"chains\":[");
            let mut i: usize = 0;
            while i < chains.len()
                invariant
                    i <= chains@.len(),
                    out@ == "{\"declare_chain_support\":{\"service_name\":"@ + spec_quoted(
                        service_name@,
                    ) + ",\"chains\":["@ + spec_chain_list(chain_views(chains@.subrange(0, i as int))),
                decreases chains@.len() - i,
            {
                if i > 0 {
                    proof {
                        reveal_strlit(",");
                    }
                    out.append(",");
                }
                append_json_string(&mut out, chains[i].as_str());
                proof {
                    let prefix = chains@.subrange(0, i as int);
                    lemma_chain_list_push(chain_views(prefix), chains@[i as int]@);
                    assert(chain_views(prefix).push(chains@[i as int]@) =~= chain_views(
                        chains@.subrange(0, i as int + 1),
                    ));
                    assert(out@ =~= "{\"declare_chain_support\":{\"service_name\":"@
                        + spec_quoted(service_name@) + ",\"chains\":["@ + spec_chain_list(
                        chain_views(chains@.subrange(0, i as int + 1)),
                    ));
                }
                i = i + 1;
            }
            out.append("]}}");
            proof {
                assert(chains@.subrange(0, chains@.len() as int) =~= chains@);
                assert(out@ =~= spec_action_msg(*action));
            }
            out
        },
        WorkerAction::RegisterPublicKey { public_key } => {
            let mut out = String::from_str("{\"register_public_key\":{\"public_key\":{\"ecdsa\":\"");
            let hex = hex_encode(&public_key.bytes);
            out.append(hex.as_str());
            out.append("\"}}}");
            proof {
                assert(out@ =~= spec_action_msg(*action));
            }
            out
        },
    }
}

/// Whether `action` has all its required fields present.
pub fn check_action(action: &WorkerAction) -> (b: bool)
    ensures
        b == action_valid(*action),
{
    match action {
        WorkerAction::BondWorker { service_name } => !service_name.as_str().is_empty(),
        WorkerAction::DeclareChainSupport { service_name, chains } => {
            if service_name.as_str().is_empty() {
                return false;
            }
            if chains.len() == 0 {
                return false;
            }
            let mut i: usize = 0;
            while i < chains.len()
                invariant
                    i <= chains@.len(),
                    (*action == WorkerAction::DeclareChainSupport {
                        service_name: *service_name,
                        chains: *chains,
                    }),
                    forall|j: int| 0 <= j < i ==> chains@[j]@.len() > 0,
                decreases chains@.len() - i,
            {
                if chains[i].as_str().is_empty() {
                    proof {
                        assert(chains@[i as int]@.len() == 0);
                        assert(!action_valid(*action));
                    }
                    return false;
                }
                i = i + 1;
            }
            true
        },
        WorkerAction::RegisterPublicKey { public_key } => {
            if public_key.bytes.len() != 33 {
                return false;
            }
            let b0 = public_key.bytes[0];
            match public_key.kind {
                crate::keys::KeyKind::Ecdsa => b0 == 2u8 || b0 == 3u8,
            }
        },
    }
}

/// Whether all coins of `funds` name a denomination.
pub fn check_funds(funds: &Vec<Coin>) -> (b: bool)
    ensures
        b == funds_valid(funds@),
{
    let mut i: usize = 0;
    while i < funds.len()
        invariant
            i <= funds@.len(),
            forall|j: int| 0 <= j < i ==> funds@[j].valid(),
        decreases funds@.len() - i,
    {
        if funds[i].denom.as_str().is_empty() {
            proof {
                assert(!funds@[i as int].valid());
            }
            return false;
        }
        i = i + 1;
    }
    true
}

/// Builds the executable-contract payload for `action`, bound for
/// `contract` and sent by `sender` with `funds` attached.
///
/// Fails fast with `InvalidInput` — before any network call would be made —
/// exactly when an address is malformed, a required field is empty, or the
/// key is not well-formed.
pub fn assemble(contract: String, action: &WorkerAction, sender: String, funds: Vec<Coin>) -> (r:
    Result<UnsignedTx, AssemblyError>)
    ensures
        r is Ok <==> valid_addr(contract@) && valid_addr(sender@) && action_valid(*action)
            && funds_valid(funds@),
        r matches Ok(tx) ==> tx.sender@ == sender@ && tx.contract@ == contract@ && tx.msg@
            == spec_action_msg(*action) && tx.funds == funds,
        r matches Err(e) ==> e == AssemblyError::InvalidInput,
{
    if !check_addr(contract.as_str()) {
        return Err(AssemblyError::InvalidInput);
    }
    if !check_addr(sender.as_str()) {
        return Err(AssemblyError::InvalidInput);
    }
    if !check_action(action) {
        return Err(AssemblyError::InvalidInput);
    }
    if !check_funds(&funds) {
        return Err(AssemblyError::InvalidInput);
    }
    let msg = action_msg(action);
    Ok(UnsignedTx { sender, contract, msg, funds })
}

/// The bond-worker transaction: bonds the worker to `service_name` at the
/// service registry, attaching `coin`.
pub fn bond_worker_tx(service_registry: String, service_name: String, coin: Coin, sender: String)
    -> (r: Result<UnsignedTx, AssemblyError>)
    ensures
        r is Ok <==> valid_addr(service_registry@) && valid_addr(sender@) && service_name@.len()
            > 0 && coin.valid(),
        r matches Ok(tx) ==> tx.sender@ == sender@ && tx.contract@ == service_registry@ && tx.msg@
            == spec_bond_worker_msg(service_name@) && tx.funds@.len() == 1 && tx.funds@[0] == coin,
        r matches Err(e) ==> e == AssemblyError::InvalidInput,
{
    let action = WorkerAction::BondWorker { service_name };
    let funds = vec![coin];
    assemble(service_registry, &action, sender, funds)
}

/// The declare-chain-support transaction: declares at the service registry
/// which chains the worker supports for `service_name`.  No funds attach.
pub fn declare_chain_support_tx(
    service_registry: String,
    service_name: String,
    chains: Vec<String>,
    sender: String,
) -> (r: Result<UnsignedTx, AssemblyError>)
    ensures
        r is Ok <==> valid_addr(service_registry@) && valid_addr(sender@) && service_name@.len()
            > 0 && chains@.len() > 0 && (forall|i: int|
            0 <= i < chains@.len() ==> chains@[i]@.len() > 0),
        r matches Ok(tx) ==> tx.sender@ == sender@ && tx.contract@ == service_registry@ && tx.msg@
            == spec_declare_msg(service_name@, chain_views(chains@)) && tx.funds@.len() == 0,
        r matches Err(e) ==> e == AssemblyError::InvalidInput,
{
    let action = WorkerAction::DeclareChainSupport { service_name, chains };
    assemble(service_registry, &action, sender, Vec::new())
}

/// The register-public-key transaction: registers the worker's key with the
/// multisig signer contract.  No funds attach.
pub fn register_public_key_tx(multisig_contract: String, public_key: PublicKey, sender: String)
    -> (r: Result<UnsignedTx, AssemblyError>)
    ensures
        r is Ok <==> valid_addr(multisig_contract@) && valid_addr(sender@) && public_key.wf(),
        r matches Ok(tx) ==> tx.sender@ == sender@ && tx.contract@ == multisig_contract@ && tx.msg@
            == spec_register_msg(public_key.bytes@) && tx.funds@.len() == 0,
        r matches Err(e) ==> e == AssemblyError::InvalidInput,
{
    let action = WorkerAction::RegisterPublicKey { public_key };
    assemble(multisig_contract, &action, sender, Vec::new())
}

} // verus!
