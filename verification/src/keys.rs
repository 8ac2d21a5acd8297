//! Public keys produced by the external threshold signer.
//!
//! A key is carried as the compressed curve-point bytes together with its
//! key-type tag.  The module also holds the lowercase hex rendering used by
//! both the persisted state file and the key-registration payload.

use vstd::prelude::*;

verus! {

/// Key-type tag of a verified public key.
#[derive(Clone, Copy, Debug, PartialEq, Eq, Structural)]
pub enum KeyKind {
    Ecdsa,
}

/// A verified ECDSA public key: compressed curve-point bytes plus type tag.
/// Immutable once obtained.
#[derive(Debug)]
pub struct PublicKey {
    pub kind: KeyKind,
    pub bytes: Vec<u8>,
}

impl PublicKey {
    /// A well-formed key is an ECDSA key in compressed SEC1 form: exactly
    /// 33 bytes, the first one the parity tag 0x02 or 0x03.
    pub open spec fn wf(&self) -> bool {
        &&& self.kind == KeyKind::Ecdsa
        &&& self.bytes@.len() == 33
        &&& (self.bytes@[0] == 2u8 || self.bytes@[0] == 3u8)
    }

    /// Builds a key from compressed-point bytes, checking well-formedness.
    pub fn from_compressed_bytes(bytes: Vec<u8>) -> (r: Option<PublicKey>)
        ensures
            match r {
                Some(k) => k.wf() && k.bytes@ == bytes@,
                None => !(bytes@.len() == 33 && (bytes@[0] == 2u8 || bytes@[0] == 3u8)),
            },
    {
        if bytes.len() == 33 && (bytes[0] == 2u8 || bytes[0] == 3u8) {
            Some(PublicKey { kind: KeyKind::Ecdsa, bytes })
        } else {
            None
        }
    }

    /// An independent copy, equivalent to the original.
    pub fn duplicate(&self) -> (r: PublicKey)
        ensures
            key_eqv(r, *self),
    {
        PublicKey { kind: self.kind, bytes: copy_bytes(&self.bytes) }
    }
}

/// Two keys carry the same type tag and the same bytes.
pub open spec fn key_eqv(a: PublicKey, b: PublicKey) -> bool {
    a.kind == b.kind && a.bytes@ == b.bytes@
}

impl PartialEq for PublicKey {
    fn eq(&self, other: &PublicKey) -> (r: bool) {
        let kind_eq = match (self.kind, other.kind) {
            (KeyKind::Ecdsa, KeyKind::Ecdsa) => true,
        };
        kind_eq && bytes_eq(&self.bytes, &other.bytes)
    }
}

impl vstd::std_specs::cmp::PartialEqSpecImpl for PublicKey {
    open spec fn obeys_eq_spec() -> bool {
        true
    }

    open spec fn eq_spec(&self, other: &PublicKey) -> bool {
        self.kind == other.kind && self.bytes@ == other.bytes@
    }
}

/// A fresh byte vector holding the same bytes.
pub fn copy_bytes(v: &Vec<u8>) -> (r: Vec<u8>)
    ensures
        r@ == v@,
{
    let mut r: Vec<u8> = Vec::new();
    let mut i: usize = 0;
    while i < v.len()
        invariant
            i <= v.len(),
            r@ == v@.subrange(0, i as int),
        decreases v.len() - i,
    {
        r.push(v[i]);
        i = i + 1;
    }
    proof {
        assert(r@ =~= v@);
    }
    r
}

/// Whether two byte vectors hold the same bytes.
pub fn bytes_eq(a: &Vec<u8>, b: &Vec<u8>) -> (r: bool)
    ensures
        r == (a@ == b@),
{
    if a.len() != b.len() {
        proof {
            assert(a@.len() != b@.len());
        }
        return false;
    }
    let mut i: usize = 0;
    while i < a.len()
        invariant
            i <= a.len(),
            a@.len() == b@.len(),
            forall|j: int| 0 <= j < i ==> a@[j] == b@[j],
        decreases a.len() - i,
    {
        if a[i] != b[i] {
            return false;
        }
        i = i + 1;
    }
    proof {
        assert(a@ =~= b@);
    }
    true
}

/// The lowercase hex digit of a value below 16.
pub open spec fn spec_hex_digit(n: u8) -> char
    recommends
        n < 16,
{
    if n == 0 {
        '0'
    } else if n == 1 {
        '1'
    } else if n == 2 {
        '2'
    } else if n == 3 {
        '3'
    } else if n == 4 {
        '4'
    } else if n == 5 {
        '5'
    } else if n == 6 {
        '6'
    } else if n == 7 {
        '7'
    } else if n == 8 {
        '8'
    } else if n == 9 {
        '9'
    } else if n == 10 {
        'a'
    } else if n == 11 {
        'b'
    } else if n == 12 {
        'c'
    } else if n == 13 {
        'd'
    } else if n == 14 {
        'e'
    } else {
        'f'
    }
}

/// The lowercase hex rendering of a byte sequence, two digits per byte.
pub open spec fn spec_hex(s: Seq<u8>) -> Seq<char>
    decreases s.len(),
{
    if s.len() == 0 {
        Seq::<char>::empty()
    } else {
        seq![spec_hex_digit(s[0] / 16), spec_hex_digit(s[0] % 16)] + spec_hex(s.drop_first())
    }
}

/// A one-character string holding the lowercase hex digit of `n`.
pub fn hex_digit_str(n: u8) -> (r: &'static str)
    requires
        n < 16,
    ensures
        r@ == seq![spec_hex_digit(n)],
{
    proof {
        reveal_strlit("0");
        reveal_strlit("1");
        reveal_strlit("2");
        reveal_strlit("3");
        reveal_strlit("4");
        reveal_strlit("5");
        reveal_strlit("6");
        reveal_strlit("7");
        reveal_strlit("8");
        reveal_strlit("9");
        reveal_strlit("a");
        reveal_strlit("b");
        reveal_strlit("c");
        reveal_strlit("d");
        reveal_strlit("e");
        reveal_strlit("f");
    }
    match n {
        0 => "0",
        1 => "1",
        2 => "2",
        3 => "3",
        4 => "4",
        5 => "5",
        6 => "6",
        7 => "7",
        8 => "8",
        9 => "9",
        10 => "a",
        11 => "b",
        12 => "c",
        13 => "d",
        14 => "e",
        _ => "f",
    }
}

/// The hex rendering has two characters per byte.
pub proof fn lemma_spec_hex_len(s: Seq<u8>)
    ensures
        spec_hex(s).len() == 2 * s.len(),
    decreases s.len(),
{
    if s.len() > 0 {
        lemma_spec_hex_len(s.drop_first());
    }
}

/// The two characters at positions `2i` and `2i + 1` of the hex rendering
/// are the digits of byte `i`.
pub proof fn lemma_spec_hex_index(s: Seq<u8>, i: int)
    requires
        0 <= i < s.len(),
    ensures
        spec_hex(s)[2 * i] == spec_hex_digit(s[i] / 16),
        spec_hex(s)[2 * i + 1] == spec_hex_digit(s[i] % 16),
    decreases i,
{
    lemma_spec_hex_len(s.drop_first());
    if i == 0 {
    } else {
        lemma_spec_hex_index(s.drop_first(), i - 1);
        assert(s.drop_first()[i - 1] == s[i]);
    }
}

/// Distinct values below 16 have distinct hex digits.
pub proof fn lemma_spec_hex_digit_inj(a: u8, b: u8)
    requires
        a < 16,
        b < 16,
        spec_hex_digit(a) == spec_hex_digit(b),
    ensures
        a == b,
{
}

/// The value of a lowercase hex digit, or `None` for any other character.
pub fn hex_val(c: char) -> (r: Option<u8>)
    ensures
        match r {
            Some(v) => v < 16 && spec_hex_digit(v) == c,
            None => forall|v: u8| v < 16 ==> spec_hex_digit(v) != c,
        },
{
    if c == '0' {
        Some(0)
    } else if c == '1' {
        Some(1)
    } else if c == '2' {
        Some(2)
    } else if c == '3' {
        Some(3)
    } else if c == '4' {
        Some(4)
    } else if c == '5' {
        Some(5)
    } else if c == '6' {
        Some(6)
    } else if c == '7' {
        Some(7)
    } else if c == '8' {
        Some(8)
    } else if c == '9' {
        Some(9)
    } else if c == 'a' {
        Some(10)
    } else if c == 'b' {
        Some(11)
    } else if c == 'c' {
        Some(12)
    } else if c == 'd' {
        Some(13)
    } else if c == 'e' {
        Some(14)
    } else if c == 'f' {
        Some(15)
    } else {
        None
    }
}

/// Appending one byte extends the hex rendering by its two digits.
pub proof fn lemma_spec_hex_push(s: Seq<u8>, b: u8)
    ensures
        spec_hex(s.push(b)) == spec_hex(s) + seq![spec_hex_digit(b / 16), spec_hex_digit(b % 16)],
    decreases s.len(),
{
    if s.len() == 0 {
        assert(s.push(b)[0] == b);
        assert(s.push(b).drop_first() =~= Seq::<u8>::empty());
        assert(spec_hex(Seq::<u8>::empty()) == Seq::<char>::empty());
        assert(spec_hex(s) == Seq::<char>::empty());
        assert(spec_hex(s.push(b)) == seq![spec_hex_digit(b / 16), spec_hex_digit(b % 16)]
            + Seq::<char>::empty());
        assert(spec_hex(s.push(b)) =~= spec_hex(s) + seq![
            spec_hex_digit(b / 16),
            spec_hex_digit(b % 16),
        ]);
    } else {
        let t = s.push(b);
        let digits = seq![spec_hex_digit(b / 16), spec_hex_digit(b % 16)];
        assert(t[0] == s[0]);
        assert(t.drop_first() =~= s.drop_first().push(b));
        lemma_spec_hex_push(s.drop_first(), b);
        assert(spec_hex(t) == seq![spec_hex_digit(s[0] / 16), spec_hex_digit(s[0] % 16)]
            + spec_hex(t.drop_first()));
        assert(spec_hex(t.drop_first()) == spec_hex(s.drop_first()) + digits);
        assert(spec_hex(s) == seq![spec_hex_digit(s[0] / 16), spec_hex_digit(s[0] % 16)]
            + spec_hex(s.drop_first()));
        assert(spec_hex(t) =~= spec_hex(s) + digits);
    }
}

/// The lowercase hex rendering of `bytes`.
pub fn hex_encode(bytes: &Vec<u8>) -> (r: String)
    ensures
        r@ == spec_hex(bytes@),
{
    let mut out = String::new();
    let mut i: usize = 0;
    while i < bytes.len()
        invariant
            i <= bytes.len(),
            out@ == spec_hex(bytes@.subrange(0, i as int)),
        decreases bytes.len() - i,
    {
        let b = bytes[i];
        out.append(hex_digit_str(b / 16));
        out.append(hex_digit_str(b % 16));
        proof {
            let prefix = bytes@.subrange(0, i as int);
            lemma_spec_hex_push(prefix, bytes@[i as int]);
            assert(prefix.push(bytes@[i as int]) =~= bytes@.subrange(0, i as int + 1));
        }
        i = i + 1;
    }
    proof {
        assert(bytes@.subrange(0, bytes@.len() as int) =~= bytes@);
    }
    out
}

} // verus!
