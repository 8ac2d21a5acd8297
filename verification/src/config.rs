//! Daemon configuration.
//!
//! What the core consumes from the operator's configuration: the chain
//! node endpoint, the signer endpoint with its party and key identifiers,
//! fee and gas parameters, and the configured handlers (of which the core
//! reads the multisig-signer contract address).  Loading and merging the
//! files is the caller's job; the fallback to defaults and every lookup
//! live here.

use vstd::prelude::*;

verus! {

/// The threshold signer's endpoint and identifiers.
pub struct TofndConfig {
    pub url: String,
    pub party_uid: String,
    pub key_uid: String,
}

/// Fee and gas parameters of a broadcast.
pub struct BroadcastConfig {
    pub chain_id: String,
    pub gas_limit: u64,
    pub fee_amount: u128,
    pub fee_denom: String,
}

/// One configured handler; the core reads only the multisig signer's
/// contract address.
pub enum HandlerConfig {
    MultisigSigner { cosmwasm_contract: String },
    Other,
}

/// The daemon configuration the core consumes.
pub struct Config {
    pub tm_grpc: String,
    pub broadcast: BroadcastConfig,
    pub tofnd_config: TofndConfig,
    pub handlers: Vec<HandlerConfig>,
}

/// The default configuration: every endpoint and identifier empty, every
/// number zero, no handlers.
pub open spec fn config_is_default(c: Config) -> bool {
    &&& c.tm_grpc@.len() == 0
    &&& c.broadcast.chain_id@.len() == 0
    &&& c.broadcast.gas_limit == 0
    &&& c.broadcast.fee_amount == 0
    &&& c.broadcast.fee_denom@.len() == 0
    &&& c.tofnd_config.url@.len() == 0
    &&& c.tofnd_config.party_uid@.len() == 0
    &&& c.tofnd_config.key_uid@.len() == 0
    &&& c.handlers@.len() == 0
}

impl Default for Config {
    fn default() -> (r: Config)
        ensures
            config_is_default(r),
    {
        Config {
            tm_grpc: String::new(),
            broadcast: BroadcastConfig {
                chain_id: String::new(),
                gas_limit: 0,
                fee_amount: 0,
                fee_denom: String::new(),
            },
            tofnd_config: TofndConfig {
                url: String::new(),
                party_uid: String::new(),
                key_uid: String::new(),
            },
            handlers: Vec::new(),
        }
    }
}

/// The configuration a run uses: what was loaded, or the default where
/// nothing could be.
pub fn init_config(parsed: Option<Config>) -> (r: Config)
    ensures
        match parsed {
            Some(c) => r == c,
            None => config_is_default(r),
        },
{
    match parsed {
        Some(c) => c,
        None => Config::default(),
    }
}

/// The position of the first multisig-signer handler.
pub open spec fn first_multisig(hs: Seq<HandlerConfig>) -> Option<int>
    decreases hs.len(),
{
    if hs.len() == 0 {
        None
    } else if hs[0] is MultisigSigner {
        Some(0)
    } else {
        match first_multisig(hs.drop_first()) {
            Some(i) => Some(i + 1),
            None => None,
        }
    }
}

/// A multisig handler at `k` preceded by none is the first one.
proof fn lemma_first_multisig_hit(hs: Seq<HandlerConfig>, k: int)
    requires
        0 <= k < hs.len(),
        hs[k] is MultisigSigner,
        forall|j: int| 0 <= j < k ==> !(hs[j] is MultisigSigner),
    ensures
        first_multisig(hs) == Some(k),
    decreases k,
{
    if k == 0 {
    } else {
        assert(!(hs[0] is MultisigSigner));
        assert(hs.drop_first()[k - 1] == hs[k]);
        lemma_first_multisig_hit(hs.drop_first(), k - 1);
    }
}

/// With no multisig handler there is no first one.
proof fn lemma_first_multisig_none(hs: Seq<HandlerConfig>)
    requires
        forall|j: int| 0 <= j < hs.len() ==> !(hs[j] is MultisigSigner),
    ensures
        first_multisig(hs) is None,
    decreases hs.len(),
{
    if hs.len() > 0 {
        lemma_first_multisig_none(hs.drop_first());
    }
}

/// The multisig signer's contract address: the one configured by the first
/// multisig-signer handler, if any handler is one.
pub fn multisig_contract(handlers: &Vec<HandlerConfig>) -> (r: Option<String>)
    ensures
        match r {
            Some(s) => first_multisig(handlers@) matches Some(i)
                && handlers@[i] matches HandlerConfig::MultisigSigner { cosmwasm_contract }
                && s@ == cosmwasm_contract@,
            None => first_multisig(handlers@) is None,
        },
{
    let mut i: usize = 0;
    while i < handlers.len()
        invariant
            i <= handlers@.len(),
            forall|j: int| 0 <= j < i ==> !(handlers@[j] is MultisigSigner),
        decreases handlers@.len() - i,
    {
        match &handlers[i] {
            HandlerConfig::MultisigSigner { cosmwasm_contract } => {
                proof {
                    lemma_first_multisig_hit(handlers@, i as int);
                }
                return Some(cosmwasm_contract.clone());
            },
            HandlerConfig::Other => {},
        }
        i = i + 1;
    }
    proof {
        lemma_first_multisig_none(handlers@);
    }
    None
}

/// What `~` expansion does: a path that is `~`, or starts with `~/`, has
/// the `~` replaced by the home directory when one is known; any other
/// path, or a missing home directory, leaves the path as it is.
pub open spec fn spec_expand_home(path: Seq<char>, home: Option<Seq<char>>) -> Seq<char> {
    match home {
        Some(h) => if path == seq!['~'] {
            h
        } else if path.len() >= 2 && path[0] == '~' && path[1] == '/' {
            h + path.skip(1)
        } else {
            path
        },
        None => path,
    }
}

/// Expands a leading `~` in `path` against the home directory.
pub fn expand_home_dir(path: &str, home: Option<&str>) -> (r: String)
    ensures
        home matches Some(h) ==> r@ == spec_expand_home(path@, Some(h@)),
        home is None ==> r@ == path@,
{
    let n = path.unicode_len();
    match home {
        None => String::from_str(path),
        Some(h) => {
            if n == 1 && path.get_char(0) == '~' {
                proof {
                    assert(path@ =~= seq!['~']);
                }
                String::from_str(h)
            } else if n >= 2 && path.get_char(0) == '~' && path.get_char(1) == '/' {
                let mut out = String::from_str(h);
                out.append(path.substring_char(1, n));
                proof {
                    assert(path@.subrange(1, n as int) =~= path@.skip(1));
                    assert(path@ != seq!['~']);
                }
                out
            } else {
                proof {
                    if path@ == seq!['~'] {
                        assert(path@.len() == 1 && path@[0] == '~');
                    }
                }
                String::from_str(path)
            }
        },
    }
}

} // verus!
