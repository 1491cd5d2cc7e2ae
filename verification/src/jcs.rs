//! RFC 8785 (JCS) canonical JSON text for the protocol's fixed-shape
//! documents: string and number literals come from `serde_jcs`; hex strings
//! and the key-sorted object layout are assembled here.

use vstd::prelude::*;

use crate::bytes::append_bytes;
use vstd::string::StringSliceAdditionalSpecFns;
use crate::primitives::{decimal_digits, hex_encode, hex_text, jcs_str, jcs_u64, jcs_u64_spec};

verus! {

/// ASCII byte of a lowercase hexadecimal digit `d < 16`.
pub open spec fn hex_digit_byte(d: nat) -> u8 {
    if d < 10 {
        (48 + d) as u8
    } else {
        (87 + d) as u8
    }
}

/// JSON escape of one UTF-8 byte, as RFC 8785 writes it: quote and backslash
/// are backslash-escaped, the control bytes below 0x20 use the short escapes
/// `\b \t \n \f \r` or `\u00xx` with lowercase hex, every other byte
/// (including the bytes of multi-byte characters) is copied.
pub open spec fn json_escape_byte(b: u8) -> Seq<u8> {
    if b == 0x22 {
        seq![0x5cu8, 0x22u8]
    } else if b == 0x5c {
        seq![0x5cu8, 0x5cu8]
    } else if b == 0x08 {
        seq![0x5cu8, 0x62u8]
    } else if b == 0x09 {
        seq![0x5cu8, 0x74u8]
    } else if b == 0x0a {
        seq![0x5cu8, 0x6eu8]
    } else if b == 0x0c {
        seq![0x5cu8, 0x66u8]
    } else if b == 0x0d {
        seq![0x5cu8, 0x72u8]
    } else if b < 0x20 {
        seq![0x5cu8, 0x75u8, 0x30u8, 0x30u8, hex_digit_byte((b / 16) as nat), hex_digit_byte((b % 16) as nat)]
    } else {
        seq![b]
    }
}

/// JSON escape of a UTF-8 byte string, byte by byte.
pub open spec fn json_escape(bytes: Seq<u8>) -> Seq<u8>
    decreases bytes.len(),
{
    if bytes.len() == 0 {
        Seq::empty()
    } else {
        json_escape_byte(bytes[0]) + json_escape(bytes.drop_first())
    }
}

/// The JSON string literal of the UTF-8 bytes `bytes`.
pub open spec fn json_quoted(bytes: Seq<u8>) -> Seq<u8> {
    seq![0x22u8] + json_escape(bytes) + seq![0x22u8]
}

/// A JSON string literal holding the text `s`.
pub open spec fn json_string(s: Seq<char>) -> Seq<u8> {
    json_quoted(vstd::utf8::encode_utf8(s))
}

/// The value of a lowercase hexadecimal digit byte.
spec fn hex_byte_value(b: u8) -> nat {
    if b < 58 {
        (b - 48) as nat
    } else {
        (b - 87) as nat
    }
}

/// The byte that a two-byte backslash escape `\c` stands for.
spec fn short_escape_value(c: u8) -> u8 {
    if c == 0x62 {
        0x08
    } else if c == 0x74 {
        0x09
    } else if c == 0x6e {
        0x0a
    } else if c == 0x66 {
        0x0c
    } else if c == 0x72 {
        0x0d
    } else {
        c
    }
}

/// Reads the content of a JSON string literal whose opening quote has been
/// consumed: the bytes it stands for, and what follows the closing quote.
spec fn unescape(s: Seq<u8>) -> Option<(Seq<u8>, Seq<u8>)>
    decreases s.len(),
{
    if s.len() == 0 {
        None
    } else if s[0] == 0x22 {
        Some((Seq::empty(), s.drop_first()))
    } else if s[0] == 0x5c {
        if s.len() < 2 {
            None
        } else if s[1] == 0x75 {
            if s.len() < 6 {
                None
            } else {
                match unescape(s.skip(6)) {
                    Some((x, r)) => Some((seq![(hex_byte_value(s[4]) * 16 + hex_byte_value(s[5])) as u8] + x, r)),
                    None => None,
                }
            }
        } else {
            match unescape(s.skip(2)) {
                Some((x, r)) => Some((seq![short_escape_value(s[1])] + x, r)),
                None => None,
            }
        }
    } else {
        match unescape(s.drop_first()) {
            Some((x, r)) => Some((seq![s[0]] + x, r)),
            None => None,
        }
    }
}

proof fn lemma_unescape(x: Seq<u8>, rest: Seq<u8>)
    ensures
        unescape(json_escape(x) + seq![0x22u8] + rest) == Some((x, rest)),
    decreases x.len(),
{
    let s = json_escape(x) + seq![0x22u8] + rest;
    if x.len() == 0 {
        assert(s =~= seq![0x22u8] + rest);
        assert(s.drop_first() =~= rest);
    } else {
        let b = x[0];
        let t = json_escape(x.drop_first()) + seq![0x22u8] + rest;
        lemma_unescape(x.drop_first(), rest);
        let e = json_escape_byte(b);
        assert(s =~= e + t);
        assert(seq![b] + x.drop_first() =~= x);
        if b == 0x22 || b == 0x5c || b == 0x08 || b == 0x09 || b == 0x0a || b == 0x0c || b == 0x0d {
            assert(s.skip(2) =~= t);
        } else if b < 0x20 {
            assert(s.skip(6) =~= t);
            assert(b / 16 < 2);
            assert(hex_byte_value(hex_digit_byte((b / 16) as nat)) == b / 16);
            assert(hex_byte_value(hex_digit_byte((b % 16) as nat)) == b % 16);
            assert((b / 16) * 16 + b % 16 == b);
        } else {
            assert(s.drop_first() =~= t);
        }
    }
}

/// A JSON string literal ends where its closing quote stands: when two texts
/// that begin with string literals are equal, so are the strings and what
/// follows them.
pub proof fn lemma_json_quoted_token(a: Seq<u8>, b: Seq<u8>, r1: Seq<u8>, r2: Seq<u8>)
    requires
        json_quoted(a) + r1 == json_quoted(b) + r2,
    ensures
        a == b,
        r1 == r2,
{
    lemma_unescape(a, r1);
    lemma_unescape(b, r2);
    assert((json_quoted(a) + r1).drop_first() =~= json_escape(a) + seq![0x22u8] + r1);
    assert((json_quoted(b) + r2).drop_first() =~= json_escape(b) + seq![0x22u8] + r2);
}

/// One object member: the key's string literal, a colon, the value's text.
pub open spec fn json_member(key: Seq<char>, value: Seq<u8>) -> Seq<u8> {
    json_string(key) + lit(":") + value
}

/// The members of an object in the given order, separated by commas.
pub open spec fn json_members(ms: Seq<(Seq<char>, Seq<u8>)>) -> Seq<u8>
    decreases ms.len(),
{
    if ms.len() == 0 {
        Seq::empty()
    } else if ms.len() == 1 {
        json_member(ms[0].0, ms[0].1)
    } else {
        json_members(ms.drop_last()) + lit(",") + json_member(ms.last().0, ms.last().1)
    }
}

/// A JSON object with the given members, in the given order.
pub open spec fn json_object(ms: Seq<(Seq<char>, Seq<u8>)>) -> Seq<u8> {
    lit("{") + json_members(ms) + lit("}")
}

/// Key order of RFC 8785 for keys of ASCII characters: lexicographic by
/// character code, a proper prefix first.
pub open spec fn key_less(a: Seq<char>, b: Seq<char>) -> bool
    decreases a.len(),
{
    if b.len() == 0 {
        false
    } else if a.len() == 0 {
        true
    } else if a[0] != b[0] {
        (a[0] as u32) < (b[0] as u32)
    } else {
        key_less(a.drop_first(), b.drop_first())
    }
}

/// The members' keys strictly ascend, as RFC 8785 orders them.
pub open spec fn keys_ascending(ms: Seq<(Seq<char>, Seq<u8>)>) -> bool {
    forall|i: int, j: int| 0 <= i < j < ms.len() ==> key_less(#[trigger] ms[i].0, #[trigger] ms[j].0)
}

/// Appends the separator (unless this is the first member), the key's string
/// literal and the colon of an object member.
pub fn push_member_key(out: &mut Vec<u8>, first: bool, key: &str)
    ensures
        final(out)@ == old(out)@ + (if first {
            Seq::empty()
        } else {
            lit(",")
        }) + json_string(key@) + lit(":"),
{
    let ghost start = out@;
    if !first {
        push_lit(out, ",");
    }
    push_json_string(out, key);
    push_lit(out, ":");
    assert(out@ =~= start + (if first {
        Seq::empty()
    } else {
        lit(",")
    }) + json_string(key@) + lit(":"));
}

/// A JSON string holding the lowercase hex text of `bytes`.
pub open spec fn json_hex(bytes: Seq<u8>) -> Seq<u8> {
    json_string(hex_text(bytes))
}

/// The UTF-8 bytes of a string literal.
pub open spec fn lit(s: &str) -> Seq<u8> {
    s.spec_bytes()
}

/// Appends the UTF-8 bytes of `s`.
pub fn push_lit(out: &mut Vec<u8>, s: &str)
    ensures
        final(out)@ == old(out)@ + lit(s),
{
    append_bytes(out, s.as_bytes());
}

/// Appends the JSON string literal of `s`.
pub fn push_json_string(out: &mut Vec<u8>, s: &str)
    ensures
        final(out)@ == old(out)@ + json_string(s@),
{
    match jcs_str(s) {
        Ok(text) => append_bytes(out, text.as_slice()),
        Err(_) => {
            proof {
                assert(false);
            }
        },
    }
}

/// Appends a JSON string holding the lowercase hex text of `bytes`.
pub fn push_json_hex(out: &mut Vec<u8>, bytes: &[u8])
    ensures
        final(out)@ == old(out)@ + json_hex(bytes@),
{
    let text = hex_encode(bytes);
    push_json_string(out, text.as_str());
}

/// Appends the canonical JSON number text of `n`.
pub fn push_json_u64(out: &mut Vec<u8>, n: u64)
    ensures
        final(out)@ == old(out)@ + jcs_u64_spec(n),
        n < 0x20_0000_0000_0000 ==> final(out)@ == old(out)@ + decimal_digits(n as nat),
{
    match jcs_u64(n) {
        Ok(text) => append_bytes(out, text.as_slice()),
        Err(_) => {
            proof {
                assert(false);
            }
        },
    }
}

} // verus!
