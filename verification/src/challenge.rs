//! Single-use random challenges. A challenge is 32 bytes from a
//! cryptographically secure source, generated fresh for one bridge operation
//! and carried as URL-safe, padding-free base64 text in transit.

use vstd::prelude::*;
use crate::b64::b64_decode_str;
use crate::b64::b64_encode;
use crate::b64::b64_encode_bytes;
use crate::b64::lemma_b64_encode_injective;
use crate::b64::lemma_b64_encode_len;
use rand::RngCore;

verus! {

/// The number of random bytes in a challenge.
pub const CHALLENGE_BYTES: usize = 32;

/// The length of a challenge's transport encoding in characters.
pub const CHALLENGE_TEXT_LEN: usize = 43;

/// A single-use random value bound into one bridge operation so that the
/// authenticator's answer proves freshness; never persisted, never reused.
pub struct Challenge {
    bytes: Vec<u8>,
}

impl View for Challenge {
    type V = Seq<u8>;

    closed spec fn view(&self) -> Seq<u8> {
        self.bytes@
    }
}

/// Relies on rand's thread-local CSPRNG (`RngCore::fill_bytes` on
/// `ThreadRng`): overwrites the whole slice with random bytes, aborting the
/// process if the entropy source fails; the length is unchanged.
#[verifier::external_body]
fn fill_random_bytes(buf: &mut Vec<u8>)
    ensures
        final(buf)@.len() == old(buf)@.len(),
{
    rand::thread_rng().fill_bytes(buf.as_mut_slice());
}

impl Challenge {
    /// A challenge holds exactly [`CHALLENGE_BYTES`] bytes.
    pub open spec fn wf(&self) -> bool {
        self@.len() == CHALLENGE_BYTES
    }

    /// Draws a fresh 32-byte challenge from the secure random source.
    pub fn generate() -> (c: Challenge)
        ensures
            c.wf(),
    {
        let mut bytes: Vec<u8> = Vec::new();
        let mut i: usize = 0;
        while i < CHALLENGE_BYTES
            invariant
                bytes@.len() == i,
                i <= CHALLENGE_BYTES,
            decreases CHALLENGE_BYTES - i,
        {
            bytes.push(0);
            i = i + 1;
        }
        fill_random_bytes(&mut bytes);
        Challenge { bytes }
    }

    /// The raw challenge bytes.
    pub fn as_bytes(&self) -> (r: &Vec<u8>)
        ensures
            r@ == self@,
    {
        &self.bytes
    }

    /// Encodes the challenge for transport: URL-safe base64 without padding,
    /// a fixed 43 characters for the 32 bytes.
    pub fn encode(&self) -> (r: String)
        requires
            self.wf(),
        ensures
            r@ == b64_encode(self@),
            r@.len() == CHALLENGE_TEXT_LEN,
    {
        let r = b64_encode_bytes(&self.bytes);
        proof {
            lemma_b64_encode_len(self@);
        }
        r
    }

    /// Decodes transport text back into a challenge: returns `Some` exactly
    /// when the text is the canonical encoding of some 32-byte value, and
    /// then carries those bytes.
    pub fn decode(s: &str) -> (r: Option<Challenge>)
        ensures
            match r {
                Some(c) => c.wf() && b64_encode(c@) == s@,
                None => !(exists|v: Seq<u8>|
                    v.len() == CHALLENGE_BYTES && b64_encode(v) == s@),
            },
    {
        match b64_decode_str(s) {
            Some(v) => {
                if v.len() == CHALLENGE_BYTES {
                    Some(Challenge { bytes: v })
                } else {
                    proof {
                        if exists|w: Seq<u8>|
                            w.len() == CHALLENGE_BYTES && b64_encode(w) == s@ {
                            let w = choose|w: Seq<u8>|
                                w.len() == CHALLENGE_BYTES && b64_encode(w) == s@;
                            lemma_b64_encode_injective(v@, w);
                        }
                    }
                    None
                }
            },
            None => None,
        }
    }
}

/// Round trip: decoding an encoded challenge recovers the original bytes.
/// Whenever a 32-byte value's encoding is decoded, the bytes that come back
/// are the value itself, because no two byte strings share an encoding.
pub proof fn lemma_challenge_round_trip(v: Seq<u8>, w: Seq<u8>)
    requires
        b64_encode(w) == b64_encode(v),
    ensures
        w == v,
{
    lemma_b64_encode_injective(w, v);
}

} // verus!
