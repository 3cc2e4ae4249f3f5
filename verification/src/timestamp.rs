//! The clock-skew guard: parsing the claimed timestamp and bounding how far
//! it may drift from the receiver's wall clock.

use vstd::prelude::*;

verus! {

/// An ASCII decimal digit byte.
pub open spec fn is_digit(b: u8) -> bool {
    48 <= b && b <= 57
}

/// Every byte of `s` is a decimal digit.
pub open spec fn is_digit_seq(s: Seq<u8>) -> bool {
    forall|i: int| 0 <= i < s.len() ==> is_digit(#[trigger] s[i])
}

/// The integer a digit string denotes, most significant digit first.
pub open spec fn digits_val(s: Seq<u8>) -> int
    decreases s.len(),
{
    if s.len() == 0 {
        0
    } else {
        digits_val(s.drop_last()) * 10 + (s.last() - 48)
    }
}

pub open spec fn pow10(n: nat) -> int
    decreases n,
{
    if n == 0 {
        1
    } else {
        10 * pow10((n - 1) as nat)
    }
}

/// The string starts with an explicit sign byte.
pub open spec fn has_sign(s: Seq<u8>) -> bool {
    s.len() > 0 && (s[0] == 43 || s[0] == 45)
}

/// The digits of a decimal string, the sign byte stripped if there is one.
pub open spec fn digits_part(s: Seq<u8>) -> Seq<u8> {
    if has_sign(s) {
        s.drop_first()
    } else {
        s
    }
}

pub open spec fn is_negative(s: Seq<u8>) -> bool {
    s.len() > 0 && s[0] == 45
}

/// The signed value a decimal string denotes.
pub open spec fn decimal_val(s: Seq<u8>) -> int {
    if is_negative(s) {
        -digits_val(digits_part(s))
    } else {
        digits_val(digits_part(s))
    }
}

/// A decimal string that denotes a value representable as an i64: an optional
/// sign, at least one digit, nothing else, value in range.
pub open spec fn is_i64_decimal(s: Seq<u8>) -> bool {
    &&& digits_part(s).len() > 0
    &&& is_digit_seq(digits_part(s))
    &&& i64::MIN <= decimal_val(s)
    &&& decimal_val(s) <= i64::MAX
}

proof fn lemma_digits_val_nonneg(s: Seq<u8>)
    requires
        is_digit_seq(s),
    ensures
        digits_val(s) >= 0,
    decreases s.len(),
{
    if s.len() > 0 {
        assert(is_digit_seq(s.drop_last()));
        lemma_digits_val_nonneg(s.drop_last());
    }
}

proof fn lemma_pow10_pos(n: nat)
    ensures
        pow10(n) >= 1,
    decreases n,
{
    if n > 0 {
        lemma_pow10_pos((n - 1) as nat);
    }
}

proof fn lemma_pow10_mono(a: nat, b: nat)
    requires
        a <= b,
    ensures
        pow10(a) <= pow10(b),
    decreases b,
{
    if a < b {
        lemma_pow10_mono(a, (b - 1) as nat);
        lemma_pow10_pos((b - 1) as nat);
    }
}

/// A digit string of length n denotes less than 10^n.
proof fn lemma_digits_val_upper(s: Seq<u8>)
    requires
        is_digit_seq(s),
    ensures
        digits_val(s) < pow10(s.len()),
    decreases s.len(),
{
    if s.len() > 0 {
        assert(is_digit_seq(s.drop_last()));
        lemma_digits_val_upper(s.drop_last());
    }
}

/// A digit string that does not start with a zero denotes at least
/// 10^(n-1), n its length.
proof fn lemma_digits_val_lower(s: Seq<u8>)
    requires
        is_digit_seq(s),
        s.len() > 0,
        s[0] != 48,
    ensures
        digits_val(s) >= pow10((s.len() - 1) as nat),
    decreases s.len(),
{
    if s.len() == 1 {
        assert(is_digit(s[0]));
    } else {
        assert(is_digit_seq(s.drop_last()));
        assert(s.drop_last()[0] == s[0]);
        lemma_digits_val_lower(s.drop_last());
        assert(digits_val(s.drop_last()) >= pow10((s.len() - 2) as nat));
        assert(pow10((s.len() - 1) as nat) == 10 * pow10((s.len() - 2) as nat));
        assert(is_digit(s.last()));
        assert(digits_val(s) == digits_val(s.drop_last()) * 10 + (s.last() - 48));
        lemma_pow10_pos((s.len() - 2) as nat);
    }
}

proof fn lemma_all_zeros_val(s: Seq<u8>)
    requires
        forall|i: int| 0 <= i < s.len() ==> s[i] == 48,
    ensures
        digits_val(s) == 0,
    decreases s.len(),
{
    if s.len() > 0 {
        lemma_all_zeros_val(s.drop_last());
    }
}

/// Leading zeros do not change the value of a digit string.
proof fn lemma_zero_prefix_val(z: Seq<u8>, t: Seq<u8>)
    requires
        forall|i: int| 0 <= i < z.len() ==> z[i] == 48,
    ensures
        digits_val(z + t) == digits_val(t),
    decreases t.len(),
{
    if t.len() == 0 {
        assert(z + t =~= z);
        lemma_all_zeros_val(z);
    } else {
        assert((z + t).drop_last() =~= z + t.drop_last());
        assert((z + t).last() == t.last());
        lemma_zero_prefix_val(z, t.drop_last());
    }
}

/// Parses a decimal i64, as the timestamp header carries one: an optional
/// sign, then digits. Returns None exactly when the string is not such a
/// number or its value does not fit in an i64.
pub fn parse_i64(s: &[u8]) -> (r: Option<i64>)
    ensures
        r is Some <==> is_i64_decimal(s@),
        r matches Some(v) ==> v as int == decimal_val(s@),
{
    let n = s.len();
    if n == 0 {
        return None;
    }
    let first = s[0];
    let neg = first == 45u8;
    let start: usize = if first == 43u8 || first == 45u8 {
        1
    } else {
        0
    };
    proof {
        assert(digits_part(s@) =~= s@.subrange(start as int, n as int));
    }
    if start == n {
        return None;
    }
    let mut i = start;
    while i < n
        invariant
            start <= i <= n,
            n == s@.len(),
            start < n,
            digits_part(s@) == s@.subrange(start as int, n as int),
            forall|j: int| start <= j < i ==> is_digit(#[trigger] s@[j]),
        decreases n - i,
    {
        let c = s[i];
        if c < 48 || c > 57 {
            proof {
                assert(digits_part(s@)[i - start] == s@[i as int]);
            }
            return None;
        }
        i += 1;
    }
    assert(is_digit_seq(s@.subrange(start as int, n as int)));
    let mut z = start;
    while z < n && s[z] == 48
        invariant
            start <= z <= n,
            n == s@.len(),
            forall|j: int| start <= j < z ==> s@[j] == 48,
        decreases n - z,
    {
        z += 1;
    }
    proof {
        assert(s@.subrange(start as int, n as int) =~= s@.subrange(start as int, z as int)
            + s@.subrange(z as int, n as int));
        lemma_zero_prefix_val(s@.subrange(start as int, z as int), s@.subrange(z as int, n as int));
        assert(is_digit_seq(s@.subrange(z as int, n as int)));
    }
    if n - z > 19 {
        proof {
            lemma_digits_val_lower(s@.subrange(z as int, n as int));
            lemma_pow10_mono(19, (n - z - 1) as nat);
            reveal_with_fuel(pow10, 21);
            assert(pow10(19) == 10_000_000_000_000_000_000);
        }
        return None;
    }
    let mut acc: u64 = 0;
    let mut k = z;
    proof {
        reveal_with_fuel(pow10, 21);
        assert(pow10(19) == 10_000_000_000_000_000_000);
    }
    while k < n
        invariant
            z <= k <= n,
            n == s@.len(),
            n - z <= 19,
            forall|j: int| z <= j < n ==> is_digit(#[trigger] s@[j]),
            acc as int == digits_val(s@.subrange(z as int, k as int)),
            acc < pow10((k - z) as nat),
        decreases n - k,
    {
        let d = s[k] - 48;
        proof {
            lemma_pow10_mono((k - z) as nat, 18);
            reveal_with_fuel(pow10, 21);
            assert(pow10(18) == 1_000_000_000_000_000_000);
            assert(s@.subrange(z as int, k + 1).drop_last() =~= s@.subrange(z as int, k as int));
            assert(s@.subrange(z as int, k + 1).last() == s@[k as int]);
        }
        acc = acc * 10 + d as u64;
        k += 1;
    }
    proof {
        assert(s@.subrange(z as int, n as int) =~= s@.subrange(z as int, k as int));
        assert(acc as int == digits_val(digits_part(s@)));
    }
    if neg {
        if acc > 9_223_372_036_854_775_808u64 {
            return None;
        }
        if acc == 9_223_372_036_854_775_808u64 {
            return Some(i64::MIN);
        }
        Some(0i64 - acc as i64)
    } else {
        if acc > 9_223_372_036_854_775_807u64 {
            return None;
        }
        Some(acc as i64)
    }
}

/// The claimed timestamp lies within `tolerance` seconds of `now`, on either
/// side.
pub open spec fn skew_ok(claimed: int, now: int, tolerance: int) -> bool {
    -tolerance <= now - claimed && now - claimed <= tolerance
}

/// The clock-skew guard: accepts iff |now - claimed| <= tolerance.
pub fn check_clock_skew(claimed: i64, now: i64, tolerance: i64) -> (r: bool)
    ensures
        r == skew_ok(claimed as int, now as int, tolerance as int),
{
    let diff: i128 = now as i128 - claimed as i128;
    let tol: i128 = tolerance as i128;
    -tol <= diff && diff <= tol
}

/// The tolerance window is closed at both ends: a timestamp exactly
/// `tolerance` seconds old (or ahead) passes, one second more is rejected.
pub proof fn lemma_tolerance_boundary(now: int, tolerance: int)
    requires
        tolerance >= 0,
    ensures
        skew_ok(now - tolerance, now, tolerance),
        !skew_ok(now - tolerance - 1, now, tolerance),
        skew_ok(now + tolerance, now, tolerance),
        !skew_ok(now + tolerance + 1, now, tolerance),
{
}

} // verus!
