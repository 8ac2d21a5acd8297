//! Canonical JSON text fragments.
//!
//! The assembler and the state store render their payloads as JSON documents
//! in one canonical spelling: no insignificant whitespace, strings escaped
//! with a backslash before `"` and `\` and a `\u00XX` escape for control
//! characters.  The spelling is pinned character by character by the spec
//! functions here, which is what makes assembly reproducible.

use vstd::prelude::*;

use crate::keys::{hex_digit_str, spec_hex_digit};

verus! {

/// The JSON escape of one character: quote and backslash get a backslash,
/// control characters a `\u00XX` escape, everything else stands as itself.
pub open spec fn spec_escape_char(c: char) -> Seq<char> {
    if c == '"' {
        seq!['\\', '"']
    } else if c == '\\' {
        seq!['\\', '\\']
    } else if (c as u32) < 32 {
        seq![
            '\\',
            'u',
            '0',
            '0',
            spec_hex_digit((c as u32 / 16) as u8),
            spec_hex_digit((c as u32 % 16) as u8),
        ]
    } else {
        seq![c]
    }
}

/// The JSON escape of a whole string body.
pub open spec fn spec_escape(s: Seq<char>) -> Seq<char>
    decreases s.len(),
{
    if s.len() == 0 {
        Seq::<char>::empty()
    } else {
        spec_escape_char(s[0]) + spec_escape(s.drop_first())
    }
}

/// A JSON string literal: the escaped body between double quotes.
pub open spec fn spec_quoted(s: Seq<char>) -> Seq<char> {
    seq!['"'] + spec_escape(s) + seq!['"']
}

/// Appending one character extends the escape by that character's escape.
pub proof fn lemma_spec_escape_push(s: Seq<char>, c: char)
    ensures
        spec_escape(s.push(c)) == spec_escape(s) + spec_escape_char(c),
    decreases s.len(),
{
    if s.len() == 0 {
        assert(s.push(c)[0] == c);
        assert(s.push(c).drop_first() =~= Seq::<char>::empty());
        assert(spec_escape(Seq::<char>::empty()) == Seq::<char>::empty());
        assert(spec_escape(s) == Seq::<char>::empty());
        assert(spec_escape(s.push(c)) == spec_escape_char(c) + Seq::<char>::empty());
        assert(spec_escape(s.push(c)) =~= spec_escape(s) + spec_escape_char(c));
    } else {
        let t = s.push(c);
        assert(t[0] == s[0]);
        assert(t.drop_first() =~= s.drop_first().push(c));
        lemma_spec_escape_push(s.drop_first(), c);
        assert(spec_escape(t) == spec_escape_char(s[0]) + spec_escape(t.drop_first()));
        assert(spec_escape(t.drop_first()) == spec_escape(s.drop_first()) + spec_escape_char(c));
        assert(spec_escape(s) == spec_escape_char(s[0]) + spec_escape(s.drop_first()));
        assert(spec_escape(t) =~= spec_escape(s) + spec_escape_char(c));
    }
}

/// The escaped body of `s`, exactly as `spec_escape` spells it.
pub fn json_escape(s: &str) -> (r: String)
    ensures
        r@ == spec_escape(s@),
{
    let n = s.unicode_len();
    let mut out = String::new();
    let mut i: usize = 0;
    while i < n
        invariant
            i <= n,
            n == s@.len(),
            out@ == spec_escape(s@.subrange(0, i as int)),
        decreases n - i,
    {
        let c = s.get_char(i);
        if c == '"' {
            proof {
                reveal_strlit("\\\"");
            }
            out.append("\\\"");
        } else if c == '\\' {
            proof {
                reveal_strlit("\\\\");
            }
            out.append("\\\\");
        } else if (c as u32) < 32 {
            proof {
                reveal_strlit("\\u00");
            }
            let v = c as u32;
            out.append("\\u00");
            out.append(hex_digit_str((v / 16) as u8));
            out.append(hex_digit_str((v % 16) as u8));
        } else {
            out.append(s.substring_char(i, i + 1));
        }
        proof {
            let prefix = s@.subrange(0, i as int);
            lemma_spec_escape_push(prefix, s@[i as int]);
            assert(prefix.push(s@[i as int]) =~= s@.subrange(0, i as int + 1));
        }
        i = i + 1;
    }
    proof {
        assert(s@.subrange(0, s@.len() as int) =~= s@);
    }
    out
}

/// Appends the JSON string literal for `s` (quotes included) to `out`.
pub fn append_json_string(out: &mut String, s: &str)
    ensures
        final(out)@ == old(out)@ + spec_quoted(s@),
{
    proof {
        reveal_strlit("\"");
    }
    out.append("\"");
    let e = json_escape(s);
    out.append(e.as_str());
    out.append("\"");
    proof {
        assert(out@ =~= old(out)@ + spec_quoted(s@));
    }
}

} // verus!
