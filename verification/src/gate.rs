//! The request gate: ordered, short-circuiting checks that stand between the
//! network and the dispatcher. A request passes only if both headers are
//! present, the signature header is 64 bytes of hex, the timestamp header is
//! a decimal integer within the tolerance window, and the ed25519 signature
//! over timestamp ++ body verifies under the configured key.

use vstd::prelude::*;

use crate::crypto::{ed25519_accepts, ed25519_verify, hex_decode, is_hex_seq, spec_hex_decode,
    VerifyKey};
use crate::timestamp::{check_clock_skew, decimal_val, is_i64_decimal, parse_i64, skew_ok};

verus! {

/// Why a request was turned away. Every reason maps to the same 401
/// on the wire; they are distinguished for testing and observability.
#[derive(Clone, Copy, Debug, PartialEq, Eq, Structural)]
pub enum GateError {
    /// A required header is missing.
    MalformedHeader,
    /// The signature header is not hex or does not decode to 64 bytes.
    MalformedSignature,
    /// The timestamp header is not a decimal integer an i64 can hold.
    MalformedTimestamp,
    /// The claimed timestamp is further than the tolerance from now.
    ClockSkewExceeded,
    /// The signature does not verify under the configured key.
    SignatureMismatch,
}

/// The request gate's verdict on a request, check by check in the order the
/// checks run, stopping at the first failure.
pub open spec fn spec_gate(
    key: Seq<u8>,
    sig_header: Option<Seq<u8>>,
    ts_header: Option<Seq<u8>>,
    body: Seq<u8>,
    now: int,
    tolerance: int,
) -> Result<(), GateError> {
    match (sig_header, ts_header) {
        (Some(sig_hex), Some(ts)) => {
            if !(is_hex_seq(sig_hex) && spec_hex_decode(sig_hex).len() == 64) {
                Err(GateError::MalformedSignature)
            } else if !is_i64_decimal(ts) {
                Err(GateError::MalformedTimestamp)
            } else if !skew_ok(decimal_val(ts), now, tolerance) {
                Err(GateError::ClockSkewExceeded)
            } else if !ed25519_accepts(key, ts + body, spec_hex_decode(sig_hex)) {
                Err(GateError::SignatureMismatch)
            } else {
                Ok(())
            }
        },
        _ => Err(GateError::MalformedHeader),
    }
}

/// The view of an optional header value.
pub open spec fn opt_header(h: Option<&Vec<u8>>) -> Option<Seq<u8>> {
    match h {
        Some(v) => Some(v@),
        None => None,
    }
}

/// `a` followed by `b`, the message the signature is checked against:
/// the raw timestamp header bytes, then the raw body bytes, no separator.
fn concat_bytes(a: &[u8], b: &[u8]) -> (r: Vec<u8>)
    ensures
        r@ == a@ + b@,
{
    let mut r: Vec<u8> = Vec::new();
    let mut i: usize = 0;
    while i < a.len()
        invariant
            i <= a@.len(),
            r@ == a@.subrange(0, i as int),
        decreases a@.len() - i,
    {
        r.push(a[i]);
        i += 1;
        proof {
            assert(a@.subrange(0, i as int) =~= a@.subrange(0, i - 1).push(a@[i - 1]));
        }
    }
    proof {
        assert(a@.subrange(0, a@.len() as int) =~= a@);
    }
    let mut j: usize = 0;
    while j < b.len()
        invariant
            j <= b@.len(),
            r@ == a@ + b@.subrange(0, j as int),
        decreases b@.len() - j,
    {
        r.push(b[j]);
        j += 1;
        proof {
            assert(a@ + b@.subrange(0, j as int) =~= (a@ + b@.subrange(0, j - 1)).push(
                b@[j - 1]));
        }
    }
    proof {
        assert(a@ + b@.subrange(0, b@.len() as int) =~= a@ + b@);
    }
    r
}

/// The request gate. Checks run in order and stop at the first failure:
/// headers present, signature header 64 bytes of hex, timestamp header a
/// decimal integer, clock skew within tolerance, and finally the ed25519
/// verify over timestamp ++ body. The verdict is exactly `spec_gate`.
pub fn verify_signature(
    key: &VerifyKey,
    sig_header: Option<&Vec<u8>>,
    ts_header: Option<&Vec<u8>>,
    body: &Vec<u8>,
    now: i64,
    tolerance: i64,
) -> (r: Result<(), GateError>)
    requires
        key.wf(),
    ensures
        r == spec_gate(key@, opt_header(sig_header), opt_header(ts_header), body@, now as int,
            tolerance as int),
{
    let sig_hex = match sig_header {
        Some(v) => v,
        None => {
            return Err(GateError::MalformedHeader);
        },
    };
    let ts = match ts_header {
        Some(v) => v,
        None => {
            return Err(GateError::MalformedHeader);
        },
    };
    let sig_bytes = match hex_decode(sig_hex.as_slice()) {
        Some(v) => v,
        None => {
            return Err(GateError::MalformedSignature);
        },
    };
    if sig_bytes.len() != 64 {
        return Err(GateError::MalformedSignature);
    }
    let claimed = match parse_i64(ts.as_slice()) {
        Some(v) => v,
        None => {
            return Err(GateError::MalformedTimestamp);
        },
    };
    if !check_clock_skew(claimed, now, tolerance) {
        return Err(GateError::ClockSkewExceeded);
    }
    let message = concat_bytes(ts.as_slice(), body.as_slice());
    if !ed25519_verify(key, message.as_slice(), sig_bytes.as_slice()) {
        return Err(GateError::SignatureMismatch);
    }
    Ok(())
}

/// A signature that does not decode to exactly 64 bytes is rejected as
/// malformed, whatever the key: the cryptographic check is never reached.
pub proof fn lemma_wrong_signature_length_rejected(
    key: Seq<u8>,
    sig_hex: Seq<u8>,
    ts: Option<Seq<u8>>,
    body: Seq<u8>,
    now: int,
    tolerance: int,
)
    requires
        !(is_hex_seq(sig_hex) && spec_hex_decode(sig_hex).len() == 64),
        ts is Some,
    ensures
        spec_gate(key, Some(sig_hex), ts, body, now, tolerance) == Err::<(), GateError>(
            GateError::MalformedSignature,
        ),
{
}

/// The tolerance boundary as the request gate sees it: with both headers present, a
/// well-formed 64-byte hex signature that verifies, and a well-formed
/// timestamp, a claimed time exactly `tolerance` seconds from `now` passes,
/// while one second further is rejected for clock skew.
pub proof fn lemma_gate_tolerance_boundary(
    key: Seq<u8>,
    sig_hex: Seq<u8>,
    ts: Seq<u8>,
    body: Seq<u8>,
    now: int,
    tolerance: int,
)
    requires
        tolerance >= 0,
        is_hex_seq(sig_hex),
        spec_hex_decode(sig_hex).len() == 64,
        is_i64_decimal(ts),
        ed25519_accepts(key, ts + body, spec_hex_decode(sig_hex)),
    ensures
        decimal_val(ts) == now - tolerance ==> spec_gate(key, Some(sig_hex), Some(ts), body, now,
            tolerance) == Ok::<(), GateError>(()),
        decimal_val(ts) == now - tolerance - 1 ==> spec_gate(key, Some(sig_hex), Some(ts), body,
            now, tolerance) == Err::<(), GateError>(GateError::ClockSkewExceeded),
        decimal_val(ts) == now + tolerance ==> spec_gate(key, Some(sig_hex), Some(ts), body, now,
            tolerance) == Ok::<(), GateError>(()),
        decimal_val(ts) == now + tolerance + 1 ==> spec_gate(key, Some(sig_hex), Some(ts), body,
            now, tolerance) == Err::<(), GateError>(GateError::ClockSkewExceeded),
{
}

} // verus!
