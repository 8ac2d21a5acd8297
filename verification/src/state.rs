//! The persisted key-state cache.
//!
//! One record per configured state path: the operator's public key, absent
//! until the first successful keygen and never replaced afterwards.  The
//! record travels as a canonical one-line JSON document; reading the file
//! and writing it back are the caller's job, the codec and every decision
//! about the record live here.

use vstd::prelude::*;

use crate::errors::{SignerError, StateError};
use crate::keys::{
    hex_encode, hex_val, key_eqv, lemma_spec_hex_digit_inj, lemma_spec_hex_index,
    lemma_spec_hex_len, spec_hex, spec_hex_digit, KeyKind, PublicKey,
};

verus! {

/// The on-disk record: the operator's public key, if one was ever derived.
#[derive(Debug)]
pub struct PersistedState {
    pub pub_key: Option<PublicKey>,
}

/// A recorded key, if any, is well-formed.
pub open spec fn state_wf(st: PersistedState) -> bool {
    st.pub_key matches Some(k) ==> k.wf()
}

/// Whether resolving the key requires a keygen call to the signer.
pub open spec fn spec_needs_keygen(st: PersistedState) -> bool {
    st.pub_key is None
}

/// Whether resolving the key requires a keygen call to the signer; when it
/// does not, resolution is a pure read.
pub fn needs_keygen(st: &PersistedState) -> (b: bool)
    ensures
        b == spec_needs_keygen(*st),
{
    match &st.pub_key {
        None => true,
        Some(_) => false,
    }
}

/// What key resolution does to the state: an already-recorded key is
/// returned as it is; otherwise the freshly generated key (if the signer
/// produced one) is recorded and returned; a missing generation result is
/// the signer's keygen failure.
pub open spec fn spec_get_or_init(st: PersistedState, generated: Option<PublicKey>) -> (
    PersistedState,
    Result<PublicKey, SignerError>,
) {
    match st.pub_key {
        Some(k) => (st, Ok(k)),
        None => match generated {
            Some(g) => (PersistedState { pub_key: Some(g) }, Ok(g)),
            None => (st, Err(SignerError::Keygen)),
        },
    }
}

/// Resolves the operator's key against the cache.
///
/// `generated` is the outcome of the signer's keygen call, which the caller
/// makes exactly when `needs_keygen` said so: `None` here means that call
/// failed.  A cached key makes the call a pure read; a fresh key is
/// recorded before it is returned.
pub fn get_or_init(st: &mut PersistedState, generated: Option<PublicKey>) -> (r: Result<
    PublicKey,
    SignerError,
>)
    ensures
        match old(st).pub_key {
            Some(k) => *final(st) == *old(st) && (r matches Ok(rk) && key_eqv(rk, k)),
            None => match generated {
                Some(g) => final(st).pub_key == Some(g) && (r matches Ok(rk) && key_eqv(rk, g)),
                None => *final(st) == *old(st) && r == Err::<PublicKey, SignerError>(
                    SignerError::Keygen,
                ),
            },
        },
{
    match &st.pub_key {
        Some(k) => Ok(k.duplicate()),
        None => match generated {
            Some(g) => {
                let r = g.duplicate();
                st.pub_key = Some(g);
                Ok(r)
            },
            None => Err(SignerError::Keygen),
        },
    }
}

/// What recording a key does to the state: an empty record takes the key; a
/// record holding the same key is untouched; a record holding a different
/// key is untouched and the attempt is reported as an invariant violation.
pub open spec fn spec_store_key(st: PersistedState, k: PublicKey) -> (
    PersistedState,
    Result<(), StateError>,
) {
    match st.pub_key {
        None => (PersistedState { pub_key: Some(k) }, Ok(())),
        Some(k0) => if key_eqv(k0, k) {
            (st, Ok(()))
        } else {
            (st, Err(StateError::KeyOverwrite))
        },
    }
}

/// Records a key in the state, refusing to overwrite a different one.
pub fn store_key(st: &mut PersistedState, k: PublicKey) -> (r: Result<(), StateError>)
    ensures
        match old(st).pub_key {
            None => final(st).pub_key == Some(k) && r is Ok,
            Some(k0) => *final(st) == *old(st) && if key_eqv(k0, k) {
                r is Ok
            } else {
                r == Err::<(), StateError>(StateError::KeyOverwrite)
            },
        },
{
    match &st.pub_key {
        None => {
            st.pub_key = Some(k);
            Ok(())
        },
        Some(k0) => {
            if k0 == &k {
                Ok(())
            } else {
                Err(StateError::KeyOverwrite)
            }
        },
    }
}

/// Idempotent key resolution: starting from an empty record, resolving
/// yields the generated key and records it; resolving again returns the
/// same key, leaves the record as it is, and needs no further keygen call.
pub proof fn lemma_idempotent_key_resolution(
    st0: PersistedState,
    k: PublicKey,
    later: Option<PublicKey>,
)
    requires
        st0.pub_key is None,
    ensures
        ({
            let (st1, r1) = spec_get_or_init(st0, Some(k));
            let (st2, r2) = spec_get_or_init(st1, later);
            &&& r1 == Ok::<PublicKey, SignerError>(k)
            &&& st1.pub_key == Some(k)
            &&& !spec_needs_keygen(st1)
            &&& r2 == Ok::<PublicKey, SignerError>(k)
            &&& st2 == st1
        }),
{
}

/// Never-overwrite: once the record holds a key, neither resolution nor a
/// further store changes it; storing a different key is refused.
pub proof fn lemma_never_overwrite(
    st: PersistedState,
    k0: PublicKey,
    generated: Option<PublicKey>,
    k: PublicKey,
)
    requires
        st.pub_key == Some(k0),
    ensures
        spec_get_or_init(st, generated).0 == st,
        spec_store_key(st, k).0 == st,
        !key_eqv(k, k0) ==> spec_store_key(st, k).1 == Err::<(), StateError>(
            StateError::KeyOverwrite,
        ),
{
}

/// The canonical one-line rendering of the record: the key as lowercase
/// hex, or `null` while no key is recorded.
pub open spec fn spec_state_text(pk: Option<PublicKey>) -> Seq<char> {
    match pk {
        None => "{\"pub_key\":null}"@,
        Some(k) => "{\"pub_key\":\""@ + spec_hex(k.bytes@) + "\"}"@,
    }
}

/// Renders the record in its canonical spelling.
pub fn encode_state(st: &PersistedState) -> (r: String)
    ensures
        r@ == spec_state_text(st.pub_key),
{
    match &st.pub_key {
        None => String::from_str("{\"pub_key\":null}"),
        Some(k) => {
            let mut out = String::from_str("{\"pub_key\":\"");
            let hex = hex_encode(&k.bytes);
            out.append(hex.as_str());
            out.append("\"}");
            proof {
                assert(out@ =~= spec_state_text(st.pub_key));
            }
            out
        },
    }
}

/// Reads a record back from its canonical rendering.
///
/// Accepts exactly what `encode_state` writes for a well-formed record —
/// the empty record, or a well-formed key in lowercase hex — and reports
/// anything else as `Parse`.
pub fn parse_state(text: &str) -> (r: Result<PersistedState, StateError>)
    ensures
        r matches Ok(st) ==> state_wf(st) && text@ == spec_state_text(st.pub_key),
        text@ == spec_state_text(Option::<PublicKey>::None) ==> (r matches Ok(st) && st.pub_key
            is None),
        forall|k: PublicKey|
            k.wf() && text@ == spec_state_text(Some(k)) ==> (r matches Ok(st)
                && st.pub_key matches Some(k2) && key_eqv(k2, k)),
        r matches Err(e) ==> e == StateError::Parse,
{
    proof {
        reveal_strlit("{\"pub_key\":null}");
        reveal_strlit("{\"pub_key\":\"");
        reveal_strlit("\"}");
    }
    let n = text.unicode_len();
    if n == 16 {
        let ok = text.get_char(0) == '{' && text.get_char(1) == '"' && text.get_char(2) == 'p'
            && text.get_char(3) == 'u' && text.get_char(4) == 'b' && text.get_char(5) == '_'
            && text.get_char(6) == 'k' && text.get_char(7) == 'e' && text.get_char(8) == 'y'
            && text.get_char(9) == '"' && text.get_char(10) == ':' && text.get_char(11) == 'n'
            && text.get_char(12) == 'u' && text.get_char(13) == 'l' && text.get_char(14) == 'l'
            && text.get_char(15) == '}';
        if ok {
            proof {
                assert(text@ =~= "{\"pub_key\":null}"@);
                assert forall|k: PublicKey|
                    k.wf() && text@ == spec_state_text(Some(k)) implies false by {
                    lemma_spec_hex_len(k.bytes@);
                }
            }
            Ok(PersistedState { pub_key: None })
        } else {
            proof {
                assert(text@ != "{\"pub_key\":null}"@);
                assert forall|k: PublicKey|
                    k.wf() && text@ == spec_state_text(Some(k)) implies false by {
                    lemma_spec_hex_len(k.bytes@);
                }
            }
            Err(StateError::Parse)
        }
    } else if n == 80 {
        let frame_ok = text.get_char(0) == '{' && text.get_char(1) == '"' && text.get_char(2)
            == 'p' && text.get_char(3) == 'u' && text.get_char(4) == 'b' && text.get_char(5) == '_'
            && text.get_char(6) == 'k' && text.get_char(7) == 'e' && text.get_char(8) == 'y'
            && text.get_char(9) == '"' && text.get_char(10) == ':' && text.get_char(11) == '"'
            && text.get_char(78) == '"' && text.get_char(79) == '}';
        if !frame_ok {
            proof {
                assert forall|k: PublicKey|
                    k.wf() && text@ == spec_state_text(Some(k)) implies false by {
                    lemma_spec_hex_len(k.bytes@);
                }
            }
            return Err(StateError::Parse);
        }
        let mut bytes: Vec<u8> = Vec::new();
        let mut i: usize = 0;
        while i < 33
            invariant
                i <= 33,
                n == text@.len(),
                n == 80,
                bytes@.len() == i,
                forall|j: int|
                    0 <= j < i ==> spec_hex_digit(#[trigger] bytes@[j] / 16) == text@[12 + 2 * j]
                        && spec_hex_digit(bytes@[j] % 16) == text@[12 + 2 * j + 1],
            decreases 33 - i,
        {
            let c1 = text.get_char(12 + 2 * i);
            let c2 = text.get_char(12 + 2 * i + 1);
            let h = hex_val(c1);
            let l = hex_val(c2);
            match (h, l) {
                (Some(hv), Some(lv)) => {
                    let b: u8 = hv * 16 + lv;
                    proof {
                        assert(b / 16 == hv && b % 16 == lv);
                    }
                    bytes.push(b);
                },
                _ => {
                    proof {
                        reveal_strlit("{\"pub_key\":null}");
                        reveal_strlit("{\"pub_key\":\"");
                        reveal_strlit("\"}");
                        assert forall|k: PublicKey|
                            k.wf() && text@ == spec_state_text(Some(k)) implies false by {
                            lemma_spec_hex_len(k.bytes@);
                            lemma_spec_hex_index(k.bytes@, i as int);
                            assert(text@[12 + 2 * i] == spec_hex(k.bytes@)[2 * i]);
                            assert(text@[12 + 2 * i + 1] == spec_hex(k.bytes@)[2 * i + 1]);
                            assert(k.bytes@[i as int] / 16 < 16);
                            assert(k.bytes@[i as int] % 16 < 16);
                        }
                    }
                    return Err(StateError::Parse);
                },
            }
            i = i + 1;
        }
        let b0 = bytes[0];
        if !(b0 == 2u8 || b0 == 3u8) {
            proof {
                reveal_strlit("{\"pub_key\":\"");
                reveal_strlit("\"}");
                assert forall|k: PublicKey|
                    k.wf() && text@ == spec_state_text(Some(k)) implies false by {
                    lemma_spec_hex_len(k.bytes@);
                    lemma_spec_hex_index(k.bytes@, 0);
                    assert(text@[12] == spec_hex_digit(k.bytes@[0] / 16));
                    assert(text@[13] == spec_hex_digit(k.bytes@[0] % 16));
                    lemma_spec_hex_digit_inj(k.bytes@[0] / 16, bytes@[0] / 16);
                    lemma_spec_hex_digit_inj(k.bytes@[0] % 16, bytes@[0] % 16);
                    assert(k.bytes@[0] == bytes@[0]);
                }
            }
            return Err(StateError::Parse);
        }
        let key = PublicKey { kind: KeyKind::Ecdsa, bytes };
        let st = PersistedState { pub_key: Some(key) };
        proof {
            let kb = st.pub_key->0.bytes@;
            lemma_spec_hex_len(kb);
            assert forall|t: int| 0 <= t < 66 implies #[trigger] spec_hex(kb)[t] == text@[12 + t] by {
                let j = t / 2;
                lemma_spec_hex_index(kb, j);
                if t % 2 == 0 {
                    assert(2 * j == t);
                } else {
                    assert(2 * j + 1 == t);
                }
            }
            assert(text@ =~= "{\"pub_key\":\""@ + spec_hex(kb) + "\"}"@);
            assert forall|k: PublicKey|
                k.wf() && text@ == spec_state_text(Some(k)) implies (st.pub_key matches Some(k2)
                && key_eqv(k2, k)) by {
                lemma_spec_hex_len(k.bytes@);
                assert forall|j: int| 0 <= j < 33 implies k.bytes@[j] == #[trigger] kb[j] by {
                    lemma_spec_hex_index(k.bytes@, j);
                    lemma_spec_hex_index(kb, j);
                    assert(spec_hex(k.bytes@)[2 * j] == text@[12 + 2 * j]);
                    assert(spec_hex(kb)[2 * j] == text@[12 + 2 * j]);
                    assert(spec_hex(k.bytes@)[2 * j + 1] == text@[12 + 2 * j + 1]);
                    assert(spec_hex(kb)[2 * j + 1] == text@[12 + 2 * j + 1]);
                    lemma_spec_hex_digit_inj(k.bytes@[j] / 16, kb[j] / 16);
                    lemma_spec_hex_digit_inj(k.bytes@[j] % 16, kb[j] % 16);
                }
                assert(k.bytes@ =~= kb);
            }
        }
        Ok(st)
    } else {
        proof {
            assert(text@ != spec_state_text(Option::<PublicKey>::None));
            assert forall|k: PublicKey|
                k.wf() && text@ == spec_state_text(Some(k)) implies false by {
                lemma_spec_hex_len(k.bytes@);
            }
        }
        Err(StateError::Parse)
    }
}

} // verus!
