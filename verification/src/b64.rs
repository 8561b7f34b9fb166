//! URL-safe, padding-free base64: a mathematical model of the encoding, the
//! trusted bindings to the `base64` crate, and the injectivity lemma that
//! round-trip reasoning rests on.

use vstd::prelude::*;
use base64::Engine;

verus! {

/// The URL-safe base64 alphabet: the character standing for a six-bit value.
pub open spec fn b64_char(x: u8) -> char
    recommends
        x < 64,
{
    if x < 26 {
        // 'A' ..= 'Z'
        ((65 + x) as u8) as char
    } else if x < 52 {
        // 'a' ..= 'z'
        ((71 + x) as u8) as char
    } else if x < 62 {
        // '0' ..= '9'
        ((x - 4) as u8) as char
    } else if x == 62 {
        '-'
    } else {
        '_'
    }
}

/// The six-bit groups that base64 splits a byte string into: three bytes make
/// four groups; a final single byte or pair makes two or three groups, with
/// the spare low bits of the last group set to zero.
pub open spec fn sextets(b: Seq<u8>) -> Seq<u8>
    decreases b.len(),
{
    if b.len() == 0 {
        Seq::empty()
    } else if b.len() == 1 {
        seq![b[0] >> 2, (b[0] & 3) << 4]
    } else if b.len() == 2 {
        seq![b[0] >> 2, ((b[0] & 3) << 4) | (b[1] >> 4), (b[1] & 15) << 2]
    } else {
        seq![
            b[0] >> 2,
            ((b[0] & 3) << 4) | (b[1] >> 4),
            ((b[1] & 15) << 2) | (b[2] >> 6),
            b[2] & 63,
        ] + sextets(b.skip(3))
    }
}

/// A byte string's URL-safe base64 encoding, without padding.
pub open spec fn b64_encode(b: Seq<u8>) -> Seq<char> {
    sextets(b).map_values(|x: u8| b64_char(x))
}

/// The length of the encoding of an `n`-byte string.
pub open spec fn b64_len(n: nat) -> nat {
    4 * (n / 3) + (if n % 3 == 0 {
        0nat
    } else if n % 3 == 1 {
        2nat
    } else {
        3nat
    })
}

/// The code point of `b64_char(x)`, as plain arithmetic on the value.
proof fn lemma_b64_char_code(x: u8)
    requires
        x < 64,
    ensures
        b64_char(x) as u32 == if x < 26 {
            65 + x as int
        } else if x < 52 {
            71 + x as int
        } else if x < 62 {
            x - 4
        } else if x == 62 {
            45int
        } else {
            95int
        },
{
}

/// Distinct six-bit values are encoded by distinct alphabet characters.
proof fn lemma_b64_char_injective(x: u8, y: u8)
    requires
        x < 64,
        y < 64,
        b64_char(x) == b64_char(y),
    ensures
        x == y,
{
    lemma_b64_char_code(x);
    lemma_b64_char_code(y);
}

/// Every six-bit group is below 64.
proof fn lemma_sextets_bounded(b: Seq<u8>)
    ensures
        forall|i: int| 0 <= i < sextets(b).len() ==> sextets(b)[i] < 64,
    decreases b.len(),
{
    assert(forall|x: u8| x >> 2 < 64) by (bit_vector);
    assert(forall|x: u8| (x & 3) << 4 < 64) by (bit_vector);
    assert(forall|x: u8, y: u8| ((x & 3) << 4) | (y >> 4) < 64) by (bit_vector);
    assert(forall|x: u8| (x & 15) << 2 < 64) by (bit_vector);
    assert(forall|x: u8, y: u8| ((x & 15) << 2) | (y >> 6) < 64) by (bit_vector);
    assert(forall|x: u8| x & 63 < 64) by (bit_vector);
    if b.len() >= 3 {
        let head = seq![
            b[0] >> 2,
            ((b[0] & 3) << 4) | (b[1] >> 4),
            ((b[1] & 15) << 2) | (b[2] >> 6),
            b[2] & 63,
        ];
        assert(sextets(b) == head + sextets(b.skip(3)));
        lemma_sextets_bounded(b.skip(3));
        assert forall|i: int| 0 <= i < sextets(b).len() implies sextets(b)[i] < 64 by {
            if i < 4 {
                assert(sextets(b)[i] == head[i]);
            } else {
                assert(sextets(b)[i] == sextets(b.skip(3))[i - 4]);
            }
        }
    }
}

/// The number of six-bit groups follows the length formula.
proof fn lemma_sextets_len(b: Seq<u8>)
    ensures
        sextets(b).len() == b64_len(b.len()),
    decreases b.len(),
{
    if b.len() >= 3 {
        lemma_sextets_len(b.skip(3));
    }
}

/// The length formula is strictly monotone, hence injective.
proof fn lemma_b64_len_injective(m: nat, n: nat)
    requires
        b64_len(m) == b64_len(n),
    ensures
        m == n,
    decreases m,
{
    if m >= 3 && n >= 3 {
        lemma_b64_len_injective((m - 3) as nat, (n - 3) as nat);
    } else if m >= 3 || n >= 3 {
        assert(m >= 3 ==> b64_len(m) >= 4);
        assert(n >= 3 ==> b64_len(n) >= 4);
        assert(m < 3 ==> b64_len(m) <= 3);
        assert(n < 3 ==> b64_len(n) <= 3);
    }
}

/// Equal six-bit group sequences come from equal byte strings.
#[verifier::rlimit(50)]
proof fn lemma_sextets_injective(a: Seq<u8>, b: Seq<u8>)
    requires
        sextets(a) == sextets(b),
    ensures
        a == b,
    decreases a.len(),
{
    lemma_sextets_len(a);
    lemma_sextets_len(b);
    lemma_b64_len_injective(a.len(), b.len());
    if a.len() == 0 {
        assert(a =~= b);
    } else if a.len() == 1 {
        assert(forall|x: u8, y: u8|
            x >> 2 == y >> 2 && (x & 3) << 4 == (y & 3) << 4 ==> x == y) by (bit_vector);
        assert(a =~= b);
    } else if a.len() == 2 {
        assert(forall|x0: u8, x1: u8, y0: u8, y1: u8|
            x0 >> 2 == y0 >> 2 && ((x0 & 3) << 4) | (x1 >> 4) == ((y0 & 3) << 4) | (y1 >> 4)
                && (x1 & 15) << 2 == (y1 & 15) << 2 ==> x0 == y0 && x1 == y1) by (bit_vector);
        assert(a =~= b);
    } else {
        assert(forall|x0: u8, x1: u8, x2: u8, y0: u8, y1: u8, y2: u8|
            x0 >> 2 == y0 >> 2 && ((x0 & 3) << 4) | (x1 >> 4) == ((y0 & 3) << 4) | (y1 >> 4)
                && ((x1 & 15) << 2) | (x2 >> 6) == ((y1 & 15) << 2) | (y2 >> 6)
                && x2 & 63 == y2 & 63 ==> x0 == y0 && x1 == y1 && x2 == y2) by (bit_vector);
        let ha = seq![
            a[0] >> 2,
            ((a[0] & 3) << 4) | (a[1] >> 4),
            ((a[1] & 15) << 2) | (a[2] >> 6),
            a[2] & 63,
        ];
        let hb = seq![
            b[0] >> 2,
            ((b[0] & 3) << 4) | (b[1] >> 4),
            ((b[1] & 15) << 2) | (b[2] >> 6),
            b[2] & 63,
        ];
        assert(sextets(a) == ha + sextets(a.skip(3)));
        assert(sextets(b) == hb + sextets(b.skip(3)));
        assert(ha[0] == sextets(a)[0] && ha[1] == sextets(a)[1] && ha[2] == sextets(a)[2]
            && ha[3] == sextets(a)[3]);
        assert(hb[0] == sextets(b)[0] && hb[1] == sextets(b)[1] && hb[2] == sextets(b)[2]
            && hb[3] == sextets(b)[3]);
        assert(a[0] == b[0] && a[1] == b[1] && a[2] == b[2]);
        assert(sextets(a).skip(4) =~= sextets(a.skip(3)));
        assert(sextets(b).skip(4) =~= sextets(b.skip(3)));
        lemma_sextets_injective(a.skip(3), b.skip(3));
        assert forall|i: int| 0 <= i < a.len() implies a[i] == b[i] by {
            if i >= 3 {
                assert(a[i] == a.skip(3)[i - 3]);
                assert(b[i] == b.skip(3)[i - 3]);
            }
        }
        assert(a =~= b);
    }
}

/// No two distinct byte strings share a base64 encoding, so decoding an
/// encoded value always recovers the original bytes exactly.
pub proof fn lemma_b64_encode_injective(a: Seq<u8>, b: Seq<u8>)
    requires
        b64_encode(a) == b64_encode(b),
    ensures
        a == b,
{
    lemma_sextets_bounded(a);
    lemma_sextets_bounded(b);
    assert(b64_encode(a).len() == sextets(a).len());
    assert(b64_encode(b).len() == sextets(b).len());
    assert(sextets(a).len() == sextets(b).len());
    assert forall|i: int| 0 <= i < sextets(a).len() implies sextets(a)[i] == sextets(b)[i] by {
        assert(b64_encode(a)[i] == b64_char(sextets(a)[i]));
        assert(b64_encode(b)[i] == b64_char(sextets(b)[i]));
        lemma_b64_char_injective(sextets(a)[i], sextets(b)[i]);
    }
    assert(sextets(a) =~= sextets(b));
    lemma_sextets_injective(a, b);
}

/// The encoding's length, restated over `b64_encode` for callers.
pub proof fn lemma_b64_encode_len(b: Seq<u8>)
    ensures
        b64_encode(b).len() == b64_len(b.len()),
{
    lemma_sextets_len(b);
}

/// Relies on base64's `URL_SAFE_NO_PAD` engine: `encode` produces the
/// URL-safe base64 encoding of the input bytes, without padding.
#[verifier::external_body]
pub(crate) fn b64_encode_bytes(bytes: &Vec<u8>) -> (r: String)
    ensures
        r@ == b64_encode(bytes@),
{
    base64::engine::general_purpose::URL_SAFE_NO_PAD.encode(bytes.as_slice())
}

/// Relies on base64's `URL_SAFE_NO_PAD` engine: `decode` rejects padding and
/// nonzero trailing bits, so it succeeds exactly on the canonical unpadded
/// encodings, returning the bytes whose encoding is the input.
#[verifier::external_body]
pub(crate) fn b64_decode_str(s: &str) -> (r: Option<Vec<u8>>)
    ensures
        match r {
            Some(v) => b64_encode(v@) == s@,
            None => !(exists|v: Seq<u8>| b64_encode(v) == s@),
        },
{
    match base64::engine::general_purpose::URL_SAFE_NO_PAD.decode(s) {
        Ok(v) => Some(v),
        Err(_) => None,
    }
}

} // verus!
