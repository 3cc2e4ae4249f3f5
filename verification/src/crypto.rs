//! Hex decoding and ed25519 signature verification, the two cryptographic
//! ingredients of the request gate.

use vstd::prelude::*;

verus! {

/// An ASCII byte that is a hexadecimal digit, in either case.
pub open spec fn is_hex_digit(b: u8) -> bool {
    (48 <= b && b <= 57) || (97 <= b && b <= 102) || (65 <= b && b <= 70)
}

/// The numeric value of a hexadecimal digit byte.
pub open spec fn hex_digit_val(b: u8) -> u8 {
    if 48 <= b && b <= 57 {
        (b - 48) as u8
    } else if 97 <= b && b <= 102 {
        (b - 87) as u8
    } else {
        (b - 55) as u8
    }
}

/// A well-formed hex string: even length, every byte a hex digit.
pub open spec fn is_hex_seq(s: Seq<u8>) -> bool {
    s.len() % 2 == 0 && forall|i: int| 0 <= i < s.len() ==> is_hex_digit(#[trigger] s[i])
}

/// The bytes a hex string denotes: one byte per digit pair, high nibble first.
pub open spec fn spec_hex_decode(s: Seq<u8>) -> Seq<u8>
    decreases s.len(),
{
    if s.len() < 2 {
        Seq::empty()
    } else {
        seq![(hex_digit_val(s[0]) * 16 + hex_digit_val(s[1])) as u8] + spec_hex_decode(s.skip(2))
    }
}

/// The value of one hex digit byte, or nothing for any other byte.
fn hex_digit_value(b: u8) -> (r: Option<u8>)
    ensures
        r is Some <==> is_hex_digit(b),
        r matches Some(v) ==> v == hex_digit_val(b),
{
    if 48 <= b && b <= 57 {
        Some(b - 48)
    } else if 97 <= b && b <= 102 {
        Some(b - 87)
    } else if 65 <= b && b <= 70 {
        Some(b - 55)
    } else {
        None
    }
}

/// Decodes a hex string: succeeds exactly on even-length strings of hex
/// digits (either case), yielding one byte per digit pair, high nibble
/// first.
pub(crate) fn hex_decode(s: &[u8]) -> (r: Option<Vec<u8>>)
    ensures
        r is Some <==> is_hex_seq(s@),
        r matches Some(v) ==> v@ == spec_hex_decode(s@),
{
    let n = s.len();
    if n % 2 != 0 {
        return None;
    }
    let mut out: Vec<u8> = Vec::new();
    let mut i: usize = 0;
    proof {
        assert(s@.skip(0) =~= s@);
    }
    while i < n
        invariant
            i <= n,
            n == s@.len(),
            i % 2 == 0,
            n % 2 == 0,
            forall|j: int| 0 <= j < i ==> is_hex_digit(#[trigger] s@[j]),
            out@ + spec_hex_decode(s@.skip(i as int)) == spec_hex_decode(s@),
        decreases n - i,
    {
        let hi = match hex_digit_value(s[i]) {
            Some(v) => v,
            None => {
                return None;
            },
        };
        let lo = match hex_digit_value(s[i + 1]) {
            Some(v) => v,
            None => {
                return None;
            },
        };
        let ghost prev = out@;
        proof {
            assert(s@.skip(i as int).len() >= 2);
            assert(s@.skip(i as int)[0] == s@[i as int]);
            assert(s@.skip(i as int)[1] == s@[i + 1]);
            assert(s@.skip(i as int).skip(2) =~= s@.skip(i + 2));
        }
        out.push(hi * 16 + lo);
        proof {
            assert(out@ + spec_hex_decode(s@.skip(i + 2)) =~= prev + (seq![(hex_digit_val(s@[
                i as int]) * 16 + hex_digit_val(s@[i + 1])) as u8] + spec_hex_decode(s@.skip(i
                + 2))));
        }
        i += 2;
    }
    proof {
        assert(s@.skip(n as int) =~= Seq::<u8>::empty());
        assert(out@ =~= spec_hex_decode(s@));
    }
    Some(out)
}

/// Whether the 64-byte signature `sig` verifies under the 32-byte key `key`
/// for the message `msg`. The verdict of the ed25519 scheme is a function of
/// the three byte strings alone; key bytes that do not decode to a curve
/// point accept nothing.
pub uninterp spec fn ed25519_accepts(key: Seq<u8>, msg: Seq<u8>, sig: Seq<u8>) -> bool;

/// A 32-byte ed25519 verification key, held as plain bytes.
pub struct VerifyKey {
    bytes: Vec<u8>,
}

impl View for VerifyKey {
    type V = Seq<u8>;

    closed spec fn view(&self) -> Seq<u8> {
        self.bytes@
    }
}

impl VerifyKey {
    /// A verification key always holds exactly 32 bytes.
    pub closed spec fn wf(&self) -> bool {
        self.bytes@.len() == 32
    }

    /// Wraps raw key bytes; anything but exactly 32 bytes is refused.
    pub fn new(bytes: Vec<u8>) -> (r: Option<VerifyKey>)
        ensures
            r is Some <==> bytes@.len() == 32,
            r matches Some(k) ==> k.wf() && k@ == bytes@,
    {
        if bytes.len() == 32 {
            Some(VerifyKey { bytes })
        } else {
            None
        }
    }

    /// Reads a key from its hex encoding, as the configuration supplies it.
    pub fn from_hex(s: &[u8]) -> (r: Option<VerifyKey>)
        ensures
            r is Some <==> is_hex_seq(s@) && spec_hex_decode(s@).len() == 32,
            r matches Some(k) ==> k.wf() && k@ == spec_hex_decode(s@),
    {
        match hex_decode(s) {
            Some(v) => VerifyKey::new(v),
            None => None,
        }
    }
}

/// Relies on ed25519_dalek::VerifyingKey::{from_bytes, verify}: the verify
/// verdict is deterministic in the key, message and signature bytes, and a
/// key whose bytes do not decompress to a curve point verifies nothing.
#[verifier::external_body]
pub(crate) fn ed25519_verify(key: &VerifyKey, msg: &[u8], sig: &[u8]) -> (r: bool)
    requires
        key.wf(),
        sig@.len() == 64,
    ensures
        r == ed25519_accepts(key@, msg@, sig@),
{
    let key_arr: [u8; 32] = key.bytes.as_slice().try_into().unwrap();
    let sig_arr: [u8; 64] = sig.try_into().unwrap();
    match ed25519_dalek::VerifyingKey::from_bytes(&key_arr) {
        Ok(vk) => {
            let signature = ed25519_dalek::Signature::from_bytes(&sig_arr);
            ed25519_dalek::Verifier::verify(&vk, msg, &signature).is_ok()
        },
        Err(_) => false,
    }
}

} // verus!
