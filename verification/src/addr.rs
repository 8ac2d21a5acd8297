//! Chain account addresses.
//!
//! An address is a bech32 string: a lowercase alphanumeric prefix, the
//! separator `1`, and a data part of at least six characters drawn from the
//! bech32 alphabet.  The assembler checks this shape before any network call
//! is spent.  Deriving the operator's own address from a public key is the
//! chain library's job and stands behind a trusted wrapper.

use vstd::prelude::*;

use crate::keys::PublicKey;

verus! {

/// Characters allowed in the human-readable prefix of an address.
pub open spec fn is_prefix_char(c: char) -> bool {
    ('a' <= c && c <= 'z') || ('0' <= c && c <= '9')
}

/// Characters of the bech32 data alphabet (no `1`, `b`, `i` or `o`).
pub open spec fn is_data_char(c: char) -> bool {
    ||| c == 'q' ||| c == 'p' ||| c == 'z' ||| c == 'r' ||| c == 'y' ||| c == '9'
    ||| c == 'x' ||| c == '8' ||| c == 'g' ||| c == 'f' ||| c == '2' ||| c == 't'
    ||| c == 'v' ||| c == 'd' ||| c == 'w' ||| c == '0' ||| c == 's' ||| c == '3'
    ||| c == 'j' ||| c == 'n' ||| c == '5' ||| c == '4' ||| c == 'k' ||| c == 'h'
    ||| c == 'c' ||| c == 'e' ||| c == '6' ||| c == 'm' ||| c == 'u' ||| c == 'a'
    ||| c == '7' ||| c == 'l'
}

/// The index of the last `1` in `s`, or -1 if there is none.
pub open spec fn last_sep(s: Seq<char>) -> int
    decreases s.len(),
{
    if s.len() == 0 {
        -1
    } else if s[s.len() - 1] == '1' {
        s.len() - 1
    } else {
        last_sep(s.take(s.len() - 1))
    }
}

/// A well-shaped bech32 account address: at most 90 characters, a non-empty
/// lowercase alphanumeric prefix, the separator `1`, and at least six data
/// characters from the bech32 alphabet after it.
pub open spec fn valid_addr(s: Seq<char>) -> bool {
    let i = last_sep(s);
    &&& s.len() <= 90
    &&& 1 <= i
    &&& i + 7 <= s.len()
    &&& forall|j: int| 0 <= j < i ==> is_prefix_char(s[j])
    &&& forall|j: int| i < j < s.len() ==> is_data_char(s[j])
}

/// `last_sep` looks only at the part of `s` from the last unscanned
/// character down: dropping a trailing non-`1` character keeps it.
proof fn lemma_last_sep_skip(s: Seq<char>, k: int)
    requires
        0 <= k < s.len(),
        forall|j: int| k <= j < s.len() ==> s[j] != '1',
    ensures
        last_sep(s) == last_sep(s.take(k)),
    decreases s.len() - k,
{
    if k == s.len() - 1 {
        assert(s.take(s.len() as int) =~= s);
        assert(last_sep(s) == last_sep(s.take(s.len() - 1)));
    } else {
        let t = s.take(s.len() - 1);
        assert(t[t.len() - 1] == s[s.len() - 2]);
        lemma_last_sep_skip(t, k);
        assert(t.take(k) =~= s.take(k));
    }
}

/// `last_sep` of a sequence ending in `1` is that position.
proof fn lemma_last_sep_hit(s: Seq<char>, k: int)
    requires
        0 <= k < s.len(),
        s[k] == '1',
        forall|j: int| k < j < s.len() ==> s[j] != '1',
    ensures
        last_sep(s) == k,
{
    if k == s.len() - 1 {
    } else {
        lemma_last_sep_skip(s, k + 1);
        let t = s.take(k + 1);
        assert(t[t.len() - 1] == '1');
        assert(last_sep(t) == k);
    }
}

/// Whether `s` is a well-shaped bech32 account address.
pub fn check_addr(s: &str) -> (b: bool)
    ensures
        b == valid_addr(s@),
{
    let n = s.unicode_len();
    if n > 90 {
        return false;
    }
    // Find the last '1'.
    let mut k: usize = n;
    let mut sep: usize = 0;
    let mut found = false;
    while k > 0 && !found
        invariant
            k <= n,
            n == s@.len(),
            !found ==> forall|j: int| k <= j < s@.len() ==> s@[j] != '1',
            found ==> k < n && s@[k as int] == '1' && sep == k && forall|j: int|
                k < j < s@.len() ==> s@[j] != '1',
        decreases k + (if found { 0int } else { 1int }),
    {
        let c = s.get_char(k - 1);
        if c == '1' {
            sep = k - 1;
            found = true;
            k = k - 1;
        } else {
            k = k - 1;
        }
    }
    if !found {
        proof {
            if s@.len() > 0 {
                lemma_last_sep_skip(s@, 0);
                assert(s@.take(0) =~= Seq::<char>::empty());
            }
            assert(last_sep(s@) == -1);
        }
        return false;
    }
    proof {
        lemma_last_sep_hit(s@, sep as int);
    }
    if sep < 1 || sep + 7 > n {
        return false;
    }
    // Check the prefix part.
    let mut i: usize = 0;
    while i < sep
        invariant
            i <= sep,
            sep < n,
            n == s@.len(),
            last_sep(s@) == sep,
            1 <= sep,
            sep + 7 <= n,
            forall|j: int| 0 <= j < i ==> is_prefix_char(s@[j]),
        decreases sep - i,
    {
        let c = s.get_char(i);
        if !(('a' <= c && c <= 'z') || ('0' <= c && c <= '9')) {
            proof {
                assert(!is_prefix_char(s@[i as int]));
                assert(!valid_addr(s@));
            }
            return false;
        }
        i = i + 1;
    }
    // Check the data part.
    let mut j: usize = sep + 1;
    while j < n
        invariant
            sep < j <= n,
            n == s@.len(),
            last_sep(s@) == sep,
            1 <= sep,
            sep + 7 <= n,
            forall|t: int| sep < t < j ==> is_data_char(s@[t]),
        decreases n - j,
    {
        let c = s.get_char(j);
        let ok = c == 'q' || c == 'p' || c == 'z' || c == 'r' || c == 'y' || c == '9' || c == 'x'
            || c == '8' || c == 'g' || c == 'f' || c == '2' || c == 't' || c == 'v' || c == 'd'
            || c == 'w' || c == '0' || c == 's' || c == '3' || c == 'j' || c == 'n' || c == '5'
            || c == '4' || c == 'k' || c == 'h' || c == 'c' || c == 'e' || c == '6' || c == 'm'
            || c == 'u' || c == 'a' || c == '7' || c == 'l';
        if !ok {
            proof {
                assert(!is_data_char(s@[j as int]));
                assert(!valid_addr(s@));
            }
            return false;
        }
        j = j + 1;
    }
    true
}

/// The bech32 account address that the chain library derives from the given
/// compressed public-key bytes and prefix; a function of its arguments alone.
pub uninterp spec fn derived_addr(key: Seq<u8>, prefix: Seq<char>) -> Seq<char>;

/// Whether the chain library can derive an address from the given
/// compressed public-key bytes and prefix.
pub uninterp spec fn addr_derivable(key: Seq<u8>, prefix: Seq<char>) -> bool;

/// Relies on tendermint's `PublicKey::from_raw_secp256k1` and cosmrs's
/// `PublicKey::account_id` / `AccountId::new`: parsing the SEC1 bytes and
/// bech32-encoding the derived account id read nothing but their arguments,
/// so both the success of the derivation and the address it yields are
/// functions of the key bytes and the prefix alone.
#[verifier::external_body]
fn derive_addr_raw(key_bytes: &Vec<u8>, prefix: &str) -> (r: Option<String>)
    ensures
        r matches Some(s) ==> addr_derivable(key_bytes@, prefix@) && s@ == derived_addr(
            key_bytes@,
            prefix@,
        ),
        r is None ==> !addr_derivable(key_bytes@, prefix@),
{
    let pk = cosmrs::tendermint::PublicKey::from_raw_secp256k1(key_bytes.as_slice())?;
    let pk = cosmrs::crypto::PublicKey::from(pk);
    match pk.account_id(prefix) {
        Ok(account) => Some(account.to_string()),
        Err(_) => None,
    }
}

/// The chain account address of `key` under the human-readable `prefix`,
/// if the chain library can derive one.
pub fn worker_address(key: &PublicKey, prefix: &str) -> (r: Option<String>)
    ensures
        r matches Some(s) ==> addr_derivable(key.bytes@, prefix@) && s@ == derived_addr(
            key.bytes@,
            prefix@,
        ),
        r is None ==> !addr_derivable(key.bytes@, prefix@),
{
    derive_addr_raw(&key.bytes, prefix)
}

} // verus!
