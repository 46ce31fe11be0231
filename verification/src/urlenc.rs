//! Percent-encoding in the `application/x-www-form-urlencoded` style used by
//! both the authorization-request query string and the token-endpoint form
//! bodies: ASCII alphanumerics and `*`, `-`, `.`, `_` pass through, a space
//! becomes `+`, and every other byte becomes `%` followed by two uppercase
//! hexadecimal digits.

use vstd::prelude::*;

verus! {

use vstd::string::StringSliceAdditionalSpecFns;
use vstd::string::StringExecFns;

/// Bytes that the form encoding leaves unchanged.
pub open spec fn is_form_unreserved_byte(b: u8) -> bool {
    (48 <= b && b <= 57)  // '0'..='9'
    || (65 <= b && b <= 90)  // 'A'..='Z'
    || (97 <= b && b <= 122)  // 'a'..='z'
    || b == 42 || b == 45 || b == 46 || b == 95  // '*' '-' '.' '_'
}

/// The uppercase hexadecimal digit for a value below sixteen, as a byte.
pub open spec fn spec_hex_upper(d: u8) -> u8
    recommends
        d < 16,
{
    if d < 10 {
        (48 + d) as u8
    } else {
        (55 + d) as u8
    }
}

/// How one byte is form-encoded.
pub open spec fn spec_form_byte(b: u8) -> Seq<u8> {
    if is_form_unreserved_byte(b) {
        seq![b]
    } else if b == 32 {
        seq![43u8]  // ' ' -> '+'
    } else {
        seq![37u8, spec_hex_upper(b / 16), spec_hex_upper(b % 16)]  // "%XY"
    }
}

/// The form encoding of a byte sequence: each byte encoded, in order.
pub open spec fn spec_form_encode(s: Seq<u8>) -> Seq<u8>
    decreases s.len(),
{
    if s.len() == 0 {
        Seq::empty()
    } else {
        spec_form_byte(s[0]) + spec_form_encode(s.drop_first())
    }
}

/// ASCII bytes read as the characters with the same code points.
pub open spec fn chars_of_ascii(bs: Seq<u8>) -> Seq<char> {
    bs.map(|_i: int, b: u8| b as char)
}

/// The encoding of a concatenation is the concatenation of the encodings.
pub proof fn lemma_form_encode_concat(a: Seq<u8>, b: Seq<u8>)
    ensures
        spec_form_encode(a + b) == spec_form_encode(a) + spec_form_encode(b),
    decreases a.len(),
{
    if a.len() == 0 {
        assert(a + b =~= b);
        assert(spec_form_encode(a) + spec_form_encode(b) =~= spec_form_encode(b));
    } else {
        assert((a + b).drop_first() =~= a.drop_first() + b);
        lemma_form_encode_concat(a.drop_first(), b);
        assert(spec_form_byte(a[0]) + (spec_form_encode(a.drop_first()) + spec_form_encode(b))
            =~= (spec_form_byte(a[0]) + spec_form_encode(a.drop_first())) + spec_form_encode(b));
    }
}

/// The encoding of a single byte is that byte's encoding.
pub proof fn lemma_form_encode_one(b: u8)
    ensures
        spec_form_encode(seq![b]) == spec_form_byte(b),
{
    assert(seq![b].len() == 1);
    assert(seq![b][0] == b);
    assert(seq![b].drop_first() =~= Seq::<u8>::empty());
    assert(spec_form_encode(seq![b].drop_first()) =~= Seq::<u8>::empty());
    assert(spec_form_byte(b) + Seq::<u8>::empty() =~= spec_form_byte(b));
}

/// Every byte of a form encoding is ASCII.
pub proof fn lemma_form_encode_ascii(s: Seq<u8>)
    ensures
        forall|i: int| 0 <= i < spec_form_encode(s).len() ==> spec_form_encode(s)[i] < 128,
    decreases s.len(),
{
    if s.len() > 0 {
        lemma_form_encode_ascii(s.drop_first());
        let e0 = spec_form_byte(s[0]);
        let rest = spec_form_encode(s.drop_first());
        assert(spec_form_encode(s) == e0 + rest);
        assert forall|j: int| 0 <= j < e0.len() implies e0[j] < 128 by {
            if is_form_unreserved_byte(s[0]) {
                assert(e0[0] == s[0]);
            } else if s[0] == 32 {
                assert(e0[0] == 43);
            } else {
                assert(e0[0] == 37);
                assert(e0[1] == spec_hex_upper(s[0] / 16));
                assert(e0[2] == spec_hex_upper(s[0] % 16));
                assert(s[0] / 16 < 16);
                assert(s[0] % 16 < 16);
            }
        }
        assert forall|i: int|
            0 <= i < spec_form_encode(s).len() implies spec_form_encode(s)[i] < 128 by {
            if i < e0.len() {
                assert(spec_form_encode(s)[i] == e0[i]);
            } else {
                assert(spec_form_encode(s)[i] == rest[i - e0.len()]);
            }
        }
    }
}

/// The uppercase hexadecimal digit for a value below sixteen.
fn hex_upper(d: u8) -> (r: u8)
    requires
        d < 16,
    ensures
        r == spec_hex_upper(d),
{
    if d < 10 {
        48 + d
    } else {
        55 + d
    }
}

/// Appends the form encoding of `s` to `out`.
fn push_form_encoded(out: &mut Vec<u8>, s: &[u8])
    ensures
        final(out)@ == old(out)@ + spec_form_encode(s@),
{
    let ghost orig = out@;
    let n = s.len();
    for i in 0..n
        invariant
            n == s@.len(),
            out@ == orig + spec_form_encode(s@.subrange(0, i as int)),
    {
        let b = s[i];
        proof {
            assert(s@.subrange(0, i + 1) =~= s@.subrange(0, i as int) + seq![s@[i as int]]);
            lemma_form_encode_concat(s@.subrange(0, i as int), seq![s@[i as int]]);
            lemma_form_encode_one(s@[i as int]);
        }
        if (48 <= b && b <= 57) || (65 <= b && b <= 90) || (97 <= b && b <= 122) || b == 42
            || b == 45 || b == 46 || b == 95 {
            out.push(b);
        } else if b == 32 {
            out.push(43);
        } else {
            out.push(37);
            out.push(hex_upper(b / 16));
            out.push(hex_upper(b % 16));
        }
        proof {
            assert(out@ =~= orig + spec_form_encode(s@.subrange(0, i + 1)));
        }
    }
    proof {
        assert(s@.subrange(0, n as int) =~= s@);
    }
}

/// Relies on `String::from_utf8`: bytes below 0x80 are valid UTF-8 and decode
/// to the characters with the same code points.
#[verifier::external_body]
fn string_from_ascii(v: Vec<u8>) -> (r: String)
    requires
        forall|i: int| 0 <= i < v@.len() ==> v@[i] < 128,
    ensures
        r@ == chars_of_ascii(v@),
{
    match String::from_utf8(v) {
        Ok(s) => s,
        Err(_) => String::new(),
    }
}

/// Appends the form encoding of `s`, read as characters, to `out`.
pub fn append_form_encoded(out: &mut String, s: &str)
    ensures
        final(out)@ == old(out)@ + chars_of_ascii(spec_form_encode(s.spec_bytes())),
{
    let bytes = s.as_bytes();
    let mut enc: Vec<u8> = Vec::new();
    push_form_encoded(&mut enc, bytes);
    proof {
        lemma_form_encode_ascii(s.spec_bytes());
        assert(Seq::<u8>::empty() + spec_form_encode(s.spec_bytes())
            =~= spec_form_encode(s.spec_bytes()));
    }
    let part = string_from_ascii(enc);
    out.append(part.as_str());
}

/// The form encoding of a string, as a string of its own.
pub fn form_urlencode(s: &str) -> (r: String)
    ensures
        r@ == chars_of_ascii(spec_form_encode(s.spec_bytes())),
{
    let mut out = String::new();
    append_form_encoded(&mut out, s);
    proof {
        assert(Seq::<char>::empty() + chars_of_ascii(spec_form_encode(s.spec_bytes()))
            =~= chars_of_ascii(spec_form_encode(s.spec_bytes())));
    }
    out
}

} // verus!
