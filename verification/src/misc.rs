//! Human-readable size strings and initiator-ID validation.
//!
//! A size string is a number (digits with at most one dot), optional blanks,
//! and a unit; binary units (`KiB`, also written `K` or `k`) scale by powers
//! of two, decimal units (`KB`) by powers of ten. Parsing is exact integer
//! arithmetic: fractional digits beyond the twentieth, which cannot move the
//! result by a whole byte for any supported unit, are dropped, and a number
//! whose integer part outgrows [`NUM_DIGIT_CAP`] is already beyond `u64`,
//! so the result saturates.

use vstd::prelude::*;

use crate::data::InitiatorType;
use crate::error::{LsmError, LsmErrorKind, LsmResult};
use crate::text::{dec_chars, dec_digit_char, lemma_pow10_increases, lemma_pow10_pos, pow10};

verus! {

use vstd::string::StringSliceAdditionalSpecFns;

/// Ten to the 24th: once the accumulated digits reach this, the number is
/// beyond any `u64` byte count and only the overflow needs tracking.
pub const NUM_DIGIT_CAP: u128 = 1_000_000_000_000_000_000_000_000;

pub open spec fn is_digit_byte(b: u8) -> bool {
    48 <= b <= 57
}

pub open spec fn is_num_byte(b: u8) -> bool {
    is_digit_byte(b) || b == 46
}

pub open spec fn is_blank_byte(b: u8) -> bool {
    b == 32 || b == 9
}

pub open spec fn is_alpha_byte(b: u8) -> bool {
    (65 <= b <= 90) || (97 <= b <= 122)
}

/// The ASCII upper-case form of a byte.
pub open spec fn upper_byte(b: u8) -> u8 {
    if 97 <= b <= 122 {
        (b - 32) as u8
    } else {
        b
    }
}


/// The length of the number part: the longest prefix of digits and dots.
pub open spec fn num_len(s: Seq<u8>) -> nat
    decreases s.len(),
{
    if s.len() > 0 && is_num_byte(s[0]) {
        1 + num_len(s.drop_first())
    } else {
        0
    }
}

proof fn lemma_num_len(s: Seq<u8>, k: int)
    requires
        0 <= k <= s.len(),
        forall|j: int| 0 <= j < k ==> is_num_byte(#[trigger] s[j]),
        k == s.len() || !is_num_byte(s[k]),
    ensures
        num_len(s) == k,
    decreases k,
{
    if k == 0 {
    } else {
        assert(is_num_byte(s[0]));
        let t = s.drop_first();
        assert forall|j: int| 0 <= j < k - 1 implies is_num_byte(#[trigger] t[j]) by {
            assert(t[j] == s[j + 1]);
        }
        if k - 1 < t.len() {
            assert(t[k - 1] == s[k]);
        }
        lemma_num_len(t, k - 1);
    }
}

/// The length of the blank run between number and unit.
pub open spec fn blank_len(s: Seq<u8>) -> nat
    decreases s.len(),
{
    if s.len() > 0 && is_blank_byte(s[0]) {
        1 + blank_len(s.drop_first())
    } else {
        0
    }
}

proof fn lemma_blank_len(s: Seq<u8>, k: int)
    requires
        0 <= k <= s.len(),
        forall|j: int| 0 <= j < k ==> is_blank_byte(#[trigger] s[j]),
        k == s.len() || !is_blank_byte(s[k]),
    ensures
        blank_len(s) == k,
    decreases k,
{
    if k == 0 {
    } else {
        assert(is_blank_byte(s[0]));
        let t = s.drop_first();
        assert forall|j: int| 0 <= j < k - 1 implies is_blank_byte(#[trigger] t[j]) by {
            assert(t[j] == s[j + 1]);
        }
        if k - 1 < t.len() {
            assert(t[k - 1] == s[k]);
        }
        lemma_blank_len(t, k - 1);
    }
}

/// Reads the digits of the number part, left to right: `d` and `f` carry
/// the digits read so far and the count of fractional digits kept, and
/// `exp` counts integer digits dropped once `d` reached [`NUM_DIGIT_CAP`]
/// (the value is then already beyond `u64`). Fractional digits beyond the
/// twentieth are dropped.
pub open spec fn num_parse(s: Seq<u8>, d: nat, f: Option<nat>, exp: nat) -> (nat, nat, nat)
    decreases s.len(),
{
    if s.len() == 0 {
        (
            d,
            match f {
                Some(k) => k,
                None => 0,
            },
            exp,
        )
    } else if s[0] == 46 {
        num_parse(s.drop_first(), d, Some(0), exp)
    } else {
        let dv = (if is_digit_byte(s[0]) {
            (s[0] - 48) as nat
        } else {
            0
        });
        match f {
            None => {
                if d < NUM_DIGIT_CAP {
                    num_parse(s.drop_first(), d * 10 + dv, None, exp)
                } else {
                    num_parse(s.drop_first(), d, None, exp + 1)
                }
            },
            Some(k) => {
                if d < NUM_DIGIT_CAP && k < 20 {
                    num_parse(s.drop_first(), d * 10 + dv, Some((k + 1) as nat), exp)
                } else {
                    num_parse(s.drop_first(), d, Some(k), exp)
                }
            },
        }
    }
}

/// How many dots the number part holds.
pub open spec fn dot_count(s: Seq<u8>) -> nat
    decreases s.len(),
{
    if s.len() == 0 {
        0
    } else {
        dot_count(s.drop_first()) + (if s[0] == 46 {
            1nat
        } else {
            0nat
        })
    }
}

/// The bytes a normalized unit stands for: `B` and the decimal and binary
/// prefixes the daemon's size notation uses.
pub open spec fn unit_bytes_value(u: Seq<u8>) -> Option<u64> {
    if u.len() == 1 && u[0] == 66 {
        Some(1u64)
    } else if u.len() == 2 && u[1] == 66 {
        if u[0] == 75 {
            Some(1_000u64)
        } else if u[0] == 77 {
            Some(1_000_000u64)
        } else if u[0] == 71 {
            Some(1_000_000_000u64)
        } else if u[0] == 84 {
            Some(1_000_000_000_000u64)
        } else if u[0] == 80 {
            Some(1_000_000_000_000_000u64)
        } else if u[0] == 69 {
            Some(1_000_000_000_000_000_000u64)
        } else {
            None
        }
    } else if u.len() == 3 && u[1] == 73 && u[2] == 66 {
        if u[0] == 75 {
            Some(1024u64)
        } else if u[0] == 77 {
            Some(1048576u64)
        } else if u[0] == 71 {
            Some(1073741824u64)
        } else if u[0] == 84 {
            Some(1099511627776u64)
        } else if u[0] == 80 {
            Some(1125899906842624u64)
        } else if u[0] == 69 {
            Some(1152921504606846976u64)
        } else {
            None
        }
    } else {
        None
    }
}

/// A unit, upper-cased, with `IB` appended when it does not end in `B`: so
/// `k` and `K` mean `KiB`, while `KB` stays decimal.
pub open spec fn normalize_unit(u: Seq<u8>) -> Seq<u8> {
    let up = Seq::new(u.len(), |i: int| upper_byte(u[i]));
    if up.len() > 0 && up.last() == 66 {
        up
    } else {
        up + seq![73u8, 66u8]
    }
}

/// The number of bytes a size string denotes; `0` when it cannot be read.
pub open spec fn size_bytes_of_human(s: Seq<u8>) -> nat {
    let nl = num_len(s);
    let rest = s.skip(nl as int);
    let sl = blank_len(rest);
    let unit_raw = rest.skip(sl as int);
    if nl == 0 || dot_count(s.take(nl as int)) > 1 || (forall|j: int|
        0 <= j < nl ==> !is_digit_byte(#[trigger] s[j])) || exists|j: int|
        0 <= j < unit_raw.len() && !is_alpha_byte(#[trigger] unit_raw[j]) {
        0
    } else {
        match unit_bytes_value(normalize_unit(unit_raw)) {
            None => 0,
            Some(b) => {
                let (d, f, exp) = num_parse(s.take(nl as int), 0, None, 0);
                let v = (d as int) * (b as int) / (pow10(f) as int);
                if exp > 0 || v > u64::MAX {
                    u64::MAX as nat
                } else {
                    v as nat
                }
            },
        }
    }
}

proof fn lemma_pow10_u128_values()
    ensures
        pow10(20) == 0x56bc75e2d63100000,
        pow10(24) == 1000000000000000000000000,
        pow10(25) == 0x84595161401484a000000,
        pow10(25) == 10 * pow10(24),
        pow10(26) < 0xffffffffffffffffffffffffffffffff,
{
    assert(pow10(0) == 1);
    assert(pow10(1) == 10);
    assert(pow10(2) == 100);
    assert(pow10(3) == 1000);
    assert(pow10(4) == 10000);
    assert(pow10(5) == 100000);
    assert(pow10(6) == 1000000);
    assert(pow10(7) == 10000000);
    assert(pow10(8) == 100000000);
    assert(pow10(9) == 1000000000);
    assert(pow10(10) == 10000000000);
    assert(pow10(11) == 100000000000);
    assert(pow10(12) == 1000000000000);
    assert(pow10(13) == 10000000000000);
    assert(pow10(14) == 100000000000000);
    assert(pow10(15) == 1000000000000000);
    assert(pow10(16) == 10000000000000000);
    assert(pow10(17) == 100000000000000000);
    assert(pow10(18) == 1000000000000000000);
    assert(pow10(19) == 10000000000000000000);
    assert(pow10(20) == 100000000000000000000);
    assert(pow10(21) == 1000000000000000000000);
    assert(pow10(22) == 10000000000000000000000);
    assert(pow10(23) == 100000000000000000000000);
    assert(pow10(24) == 1000000000000000000000000);
    assert(pow10(25) == 10000000000000000000000000);
    assert(pow10(26) == 100000000000000000000000000);
}

/// Ten to the `f`, for small `f`.
fn pow10_u128(f: u32) -> (r: u128)
    requires
        f <= 20,
    ensures
        r as nat == pow10(f as nat),
{
    proof {
        lemma_pow10_u128_values();
    }
    let mut r: u128 = 1;
    let mut i: u32 = 0;
    while i < f
        invariant
            i <= f <= 20,
            r as nat == pow10(i as nat),
            pow10(20) == 0x56bc75e2d63100000,
        decreases f - i,
    {
        proof {
            lemma_pow10_increases(i as nat + 1, 20);
        }
        r = r * 10;
        i += 1;
    }
    r
}

/// Convert a human readable size string into a size in bytes.
///
/// Binary prefixes scale by powers of two (`1KiB`, `1 KiB`, `2K` and `2k`
/// all mean 1024 times the number); `B` alone means bytes, and decimal
/// prefixes (`2KB`) scale by powers of ten. Returns 0 for a string that
/// cannot be read; a result beyond the range of `u64`, or a number whose
/// integer part already is, saturates to the largest `u64`.
#[verifier::rlimit(60)]
pub fn size_human_2_size_bytes(s: &str) -> (r: u64)
    ensures
        r as nat == size_bytes_of_human(s.spec_bytes()),
{
    let b = s.as_bytes();
    let n = b.len();
    let ghost sb = s.spec_bytes();

    // The number part: digits and dots.
    let mut nl: usize = 0;
    let mut dots: usize = 0;
    let mut seen_digit = false;
    while nl < n && (b[nl] == 46 || (48 <= b[nl] && b[nl] <= 57))
        invariant
            n == sb.len(),
            b@ == sb,
            nl <= n,
            forall|j: int| 0 <= j < nl ==> is_num_byte(#[trigger] sb[j]),
            dots as nat == dot_count(sb.take(nl as int)),
            dots <= nl,
            seen_digit == exists|j: int| 0 <= j < nl && is_digit_byte(#[trigger] sb[j]),
        decreases n - nl,
    {
        proof {
            lemma_dot_count_snoc(sb.take(nl as int + 1));
            assert(sb.take(nl as int + 1).drop_last() =~= sb.take(nl as int));
        }
        if b[nl] == 46 {
            dots += 1;
        } else {
            seen_digit = true;
        }
        nl += 1;
    }
    proof {
        lemma_num_len(sb, nl as int);
    }
    if nl == 0 || dots > 1 || !seen_digit {
        return 0;
    }
    // The blanks between number and unit.
    let mut sl: usize = nl;
    while sl < n && (b[sl] == 32 || b[sl] == 9)
        invariant
            n == sb.len(),
            b@ == sb,
            nl <= sl <= n,
            forall|j: int| nl <= j < sl ==> is_blank_byte(#[trigger] sb[j]),
        decreases n - sl,
    {
        sl += 1;
    }
    proof {
        let rest = sb.skip(nl as int);
        assert forall|j: int| 0 <= j < sl - nl implies is_blank_byte(#[trigger] rest[j]) by {
            assert(rest[j] == sb[j + nl]);
        }
        if (sl as int - nl as int) < rest.len() {
            assert(rest[sl as int - nl as int] == sb[sl as int]);
        }
        lemma_blank_len(rest, sl as int - nl as int);
    }
    // The unit: letters to the end, upper-cased; `IB` appended when it does
    // not already end in `B`.
    let ghost unit_raw = sb.skip(nl as int).skip(sl as int - nl as int);
    proof {
        assert(unit_raw =~= sb.skip(sl as int));
    }
    let mut unit: Vec<u8> = Vec::new();
    let mut k: usize = sl;
    while k < n
        invariant
            n == sb.len(),
            b@ == sb,
            sb == s.spec_bytes(),
            unit_raw == sb.skip(sl as int),
            num_len(sb) == nl as nat,
            blank_len(sb.skip(nl as int)) == sl - nl,
            sb.skip(nl as int).skip(sl as int - nl as int) == unit_raw,
            nl <= sl,
            0 < nl,
            dot_count(sb.take(nl as int)) <= 1,
            exists|j: int| 0 <= j < nl && is_digit_byte(#[trigger] sb[j]),
            sl <= k <= n,
            unit@.len() == k - sl,
            forall|j: int| sl <= j < k ==> is_alpha_byte(#[trigger] sb[j]),
            forall|j: int| 0 <= j < k - sl ==> #[trigger] unit@[j] == upper_byte(sb[j + sl]),
        decreases n - k,
    {
        let c = b[k];
        if !((65 <= c && c <= 90) || (97 <= c && c <= 122)) {
            proof {
                assert(!is_alpha_byte(unit_raw[k as int - sl as int]));
            }
            return 0;
        }
        if 97 <= c && c <= 122 {
            unit.push(c - 32);
        } else {
            unit.push(c);
        }
        k += 1;
    }
    proof {
        assert forall|j: int| 0 <= j < unit_raw.len() implies is_alpha_byte(
            #[trigger] unit_raw[j],
        ) by {
            assert(unit_raw[j] == sb[j + sl]);
        }
    }
    let ends_in_b = unit.len() > 0 && unit[unit.len() - 1] == 66;
    if !ends_in_b {
        unit.push(73);
        unit.push(66);
    }
    proof {
        let up = Seq::new(unit_raw.len(), |i: int| upper_byte(unit_raw[i]));
        assert forall|j: int| 0 <= j < up.len() implies up[j] == unit@[j] || unit@.len() > up.len()
            && up[j] == unit@[j] by {
            assert(unit_raw[j] == sb[j + sl]);
        }
        assert(unit@ =~= normalize_unit(unit_raw));
    }
    // The unit's scale.
    let bytes: u64 = {
        let u = &unit;
        if u.len() == 1 && u[0] == 66 {
            1u64
        } else if u.len() == 2 && u[1] == 66 {
            match u[0] {
                75 => 1_000u64,
                77 => 1_000_000u64,
                71 => 1_000_000_000u64,
                84 => 1_000_000_000_000u64,
                80 => 1_000_000_000_000_000u64,
                69 => 1_000_000_000_000_000_000u64,
                _ => {
                    return 0;
                },
            }
        } else if u.len() == 3 && u[1] == 73 && u[2] == 66 {
            match u[0] {
                75 => 1024u64,
                77 => 1048576u64,
                71 => 1073741824u64,
                84 => 1099511627776u64,
                80 => 1125899906842624u64,
                69 => 1152921504606846976u64,
                _ => {
                    return 0;
                },
            }
        } else {
            return 0;
        }
    };
    proof {
        assert(unit_bytes_value(unit@) == Some(bytes));
        assert(bytes <= 1152921504606846976u64);
    }
    // The number's value: digits as one integer, with the count of kept
    // fractional digits.
    let mut d: u128 = 0;
    let mut f: u32 = 0;
    let mut after_dot = false;
    let mut exp: usize = 0;
    let mut i: usize = 0;
    let ghost numpart = sb.take(nl as int);
    proof {
        lemma_pow10_u128_values();
        assert(numpart.skip(0) =~= numpart);
    }
    while i < nl
        invariant
            n == sb.len(),
            b@ == sb,
            numpart == sb.take(nl as int),
            nl <= n,
            i <= nl,
            f <= 20,
            !after_dot ==> f == 0,
            exp <= i,
            pow10(24) == 1000000000000000000000000,
            pow10(25) == 0x84595161401484a000000,
            pow10(25) == 10 * pow10(24),
            pow10(26) < 0xffffffffffffffffffffffffffffffff,
            (d as nat) < pow10(25),
            num_parse(numpart, 0, None, 0) == num_parse(
                numpart.skip(i as int),
                d as nat,
                if after_dot {
                    Some(f as nat)
                } else {
                    None
                },
                exp as nat,
            ),
            forall|j: int| 0 <= j < nl ==> is_num_byte(#[trigger] sb[j]),
        decreases nl - i,
    {
        let ghost rem = numpart.skip(i as int);
        proof {
            assert(numpart[i as int] == sb[i as int]);
            assert(rem[0] == numpart[i as int]);
            assert(rem.drop_first() =~= numpart.skip(i as int + 1));
        }
        let c = b[i];
        if c == 46 {
            after_dot = true;
            f = 0;
        } else {
            let dv = (c - 48) as u128;
            if !after_dot {
                if d < NUM_DIGIT_CAP {
                    d = d * 10 + dv;
                } else {
                    exp += 1;
                }
            } else {
                if d < NUM_DIGIT_CAP && f < 20 {
                    d = d * 10 + dv;
                    f += 1;
                }
            }
        }
        i += 1;
    }
    proof {
        assert(numpart.skip(nl as int) =~= Seq::<u8>::empty());
    }
    // A number whose integer part outgrew the cap is beyond any `u64` byte
    // count.
    if exp > 0 {
        return u64::MAX;
    }
    // The exact scaled value, clamped to the range of `u64`.
    let p10f = pow10_u128(f);
    proof {
        lemma_pow10_pos(f as nat);
    }
    let q = d / p10f;
    let r = d % p10f;
    if q > (u64::MAX as u128) / (bytes as u128) {
        proof {
            lemma_saturate(d as nat, f as nat, bytes as nat);
        }
        return u64::MAX;
    }
    proof {
        let m = (u64::MAX as u128 / bytes as u128) as nat;
        vstd::arithmetic::div_mod::lemma_fundamental_div_mod(u64::MAX as int, bytes as int);
        assert((q as nat) * (bytes as nat) <= m * (bytes as nat)) by (nonlinear_arith)
            requires
                q as nat <= m,
                bytes as nat >= 1,
        ;
        assert(m * (bytes as nat) <= u64::MAX as nat) by (nonlinear_arith)
            requires
                u64::MAX as nat == (bytes as nat) * m + u64::MAX as nat % (bytes as nat),
                0 <= u64::MAX as nat % (bytes as nat),
        ;
        lemma_pow10_increases(f as nat, 20);
        assert((r as nat) * (bytes as nat) < pow10(20) * 1152921504606846976) by (nonlinear_arith)
            requires
                (r as nat) < pow10(20),
                (bytes as nat) <= 1152921504606846976,
        ;
    }
    let scaled_rem = (r * (bytes as u128)) / p10f;
    let total = q * (bytes as u128) + scaled_rem;
    proof {
        lemma_exact_value(d as nat, f as nat, bytes as nat);
    }
    if total > u64::MAX as u128 {
        return u64::MAX;
    }
    total as u64
}

proof fn lemma_dot_count_snoc(s: Seq<u8>)
    requires
        s.len() > 0,
    ensures
        dot_count(s) == dot_count(s.drop_last()) + (if s.last() == 46 {
            1nat
        } else {
            0nat
        }),
    decreases s.len(),
{
    if s.len() == 1 {
        assert(s.drop_first() =~= Seq::<u8>::empty());
        assert(s.drop_last() =~= Seq::<u8>::empty());
    } else {
        lemma_dot_count_snoc(s.drop_first());
        assert(s.drop_first().drop_last() =~= s.drop_last().drop_first());
        assert(s.drop_first().last() == s.last());
        assert(s.drop_last()[0] == s[0]);
    }
}

/// When the integer quotient alone exceeds `u64`, so does the exact value.
proof fn lemma_saturate(d: nat, f: nat, bytes: nat)
    requires
        f <= 20,
        bytes >= 1,
        d / pow10(f) > u64::MAX as nat / bytes,
    ensures
        d * bytes / pow10(f) > u64::MAX,
{
    let p = pow10(f);
    lemma_pow10_pos(f);
    let q = d / p;
    let r = d % p;
    vstd::arithmetic::div_mod::lemma_fundamental_div_mod(d as int, p as int);
    assert(d == p * q + r);
    assert(q * bytes > u64::MAX) by {
        let m = u64::MAX as nat / bytes;
        vstd::arithmetic::div_mod::lemma_fundamental_div_mod(u64::MAX as int, bytes as int);
        assert(u64::MAX == bytes * m + u64::MAX as nat % bytes);
        assert(u64::MAX as nat % bytes < bytes);
        assert(q >= m + 1);
        assert(q * bytes >= (m + 1) * bytes) by (nonlinear_arith)
            requires
                q >= m + 1,
                bytes >= 1,
        ;
        assert((m + 1) * bytes == m * bytes + bytes) by (nonlinear_arith);
        assert(bytes * m == m * bytes) by (nonlinear_arith);
    }
    assert(d * bytes == (q * bytes) * p + r * bytes) by (nonlinear_arith)
        requires
            d == p * q + r,
    ;
    assert(d * bytes / p >= q * bytes) by {
        vstd::arithmetic::div_mod::lemma_hoist_over_denominator(
            (r * bytes) as int,
            (q * bytes) as int,
            p,
        );
        assert((r * bytes) as int / p as int + (q * bytes) as int == ((r * bytes) + (q * bytes) * p)
            as int / p as int);
        vstd::arithmetic::div_mod::lemma_div_pos_is_pos((r * bytes) as int, p as int);
    }
}

/// The split into quotient and remainder computes the exact floor.
proof fn lemma_exact_value(d: nat, f: nat, bytes: nat)
    requires
        f <= 20,
        bytes >= 1,
    ensures
        (d / pow10(f)) * bytes + (d % pow10(f)) * bytes / pow10(f) == d * bytes / pow10(f),
{
    let p = pow10(f);
    lemma_pow10_pos(f);
    let q = d / p;
    let r = d % p;
    vstd::arithmetic::div_mod::lemma_fundamental_div_mod(d as int, p as int);
    assert(d == p * q + r);
    assert(d * bytes == (r * bytes) + (q * bytes) * p) by (nonlinear_arith)
        requires
            d == p * q + r,
    ;
    vstd::arithmetic::div_mod::lemma_hoist_over_denominator(
        (r * bytes) as int,
        (q * bytes) as int,
        p,
    );
}

/// The binary unit a byte count is reported in: the largest one at or below
/// it, or bytes below `KiB`.
pub open spec fn human_unit_of(i: nat) -> (nat, Seq<char>) {
    if i >= 1152921504606846976 {
        (1152921504606846976 as nat, "EiB"@)
    } else if i >= 1125899906842624 {
        (1125899906842624 as nat, "PiB"@)
    } else if i >= 1099511627776 {
        (1099511627776 as nat, "TiB"@)
    } else if i >= 1073741824 {
        (1073741824 as nat, "GiB"@)
    } else if i >= 1048576 {
        (1048576 as nat, "MiB"@)
    } else if i >= 1024 {
        (1024 as nat, "KiB"@)
    } else {
        (1, "B"@)
    }
}

/// The scaled number in hundredths, rounded to the nearest with exact
/// halves to even.
pub open spec fn round_hundredths(i: nat, b: nat) -> nat
    recommends
        b > 0,
{
    let q = (100 * i) / b;
    let rem = (100 * i) % b;
    if 2 * rem < b {
        q
    } else if 2 * rem > b {
        q + 1
    } else if q % 2 == 0 {
        q
    } else {
        q + 1
    }
}

/// The rendering of a byte count: the scaled number rounded to two
/// decimals (ties to even), then the unit.
pub open spec fn size_human_chars(i: nat) -> Seq<char> {
    let (b, unit) = human_unit_of(i);
    let n100 = round_hundredths(i, b);
    dec_chars(n100 / 100) + seq!['.'] + seq![
        dec_digit_char(((n100 / 10) % 10) as int),
        dec_digit_char((n100 % 10) as int),
    ] + unit
}

/// Convert a size in bytes into a human readable string, scaled to the
/// largest binary unit at or below it and rounded to two decimals, with
/// exact halves to even.
pub fn size_bytes_2_size_human(i: u64) -> (r: String)
    ensures
        r@ == size_human_chars(i as nat),
{
    let (bytes, unit): (u64, &'static str) = if i >= 1152921504606846976 {
        (1152921504606846976u64, "EiB")
    } else if i >= 1125899906842624 {
        (1125899906842624u64, "PiB")
    } else if i >= 1099511627776 {
        (1099511627776u64, "TiB")
    } else if i >= 1073741824 {
        (1073741824u64, "GiB")
    } else if i >= 1048576 {
        (1048576u64, "MiB")
    } else if i >= 1024 {
        (1024u64, "KiB")
    } else {
        (1u64, "B")
    };
    let a: u128 = 100u128 * (i as u128);
    let b128: u128 = bytes as u128;
    let q = a / b128;
    let rem = a % b128;
    let n128: u128 = if 2 * rem < b128 {
        q
    } else if 2 * rem > b128 {
        q + 1
    } else if q % 2 == 0 {
        q
    } else {
        q + 1
    };
    proof {
        assert((i as int) < 1024 * (bytes as int));
        assert(100 * (i as int) < (bytes as int) * 102400) by (nonlinear_arith)
            requires
                (i as int) < 1024 * (bytes as int),
                bytes as int >= 1,
        ;
        vstd::arithmetic::div_mod::lemma_multiply_divide_lt(
            100 * (i as int),
            bytes as int,
            102400,
        );
        assert(human_unit_of(i as nat).0 == bytes as nat);
        assert(human_unit_of(i as nat).1 == unit@);
        assert(n128 as nat == round_hundredths(i as nat, bytes as nat));
    }
    let n100 = n128 as u64;
    let mut out = crate::text::u64_to_dec_string(n100 / 100);
    out.append(".");
    out.append(crate::text::u64_to_dec_string((n100 / 10) % 10).as_str());
    out.append(crate::text::u64_to_dec_string(n100 % 10).as_str());
    out.append(unit);
    proof {
        reveal_strlit(".");
        assert(dec_chars(((n100 / 10) % 10) as nat) =~= seq![
            dec_digit_char(((n100 / 10) % 10) as int),
        ]);
        assert(dec_chars((n100 % 10) as nat) =~= seq![dec_digit_char((n100 % 10) as int)]);
        assert(out@ =~= size_human_chars(i as nat));
    }
    out
}

pub open spec fn is_hex_byte(b: u8) -> bool {
    (48 <= b <= 57) || (65 <= b <= 70) || (97 <= b <= 102)
}

pub open spec fn is_wwpn_sep(b: u8) -> bool {
    b == 46 || b == 58 || b == 45
}

/// After the leading pair, a WWPN is `n` more groups of two hex digits,
/// each optionally preceded by one `.`, `:` or `-`.
pub open spec fn wwpn_groups(s: Seq<u8>, n: nat) -> bool
    decreases n,
{
    if n == 0 {
        s.len() == 0
    } else if s.len() > 0 && is_wwpn_sep(s[0]) {
        s.len() >= 3 && is_hex_byte(s[1]) && is_hex_byte(s[2]) && wwpn_groups(
            s.skip(3),
            (n - 1) as nat,
        )
    } else {
        s.len() >= 2 && is_hex_byte(s[0]) && is_hex_byte(s[1]) && wwpn_groups(
            s.skip(2),
            (n - 1) as nat,
        )
    }
}

/// A WWPN: an optional `0x`/`0X`, then eight two-hex-digit groups, the
/// later seven each optionally separated by one `.`, `:` or `-`.
pub open spec fn is_wwpn_bytes(s: Seq<u8>) -> bool {
    let t = if s.len() >= 2 && s[0] == 48 && (s[1] == 120 || s[1] == 88) {
        s.skip(2)
    } else {
        s
    };
    t.len() >= 2 && is_hex_byte(t[0]) && is_hex_byte(t[1]) && wwpn_groups(t.skip(2), 7)
}

fn hex_byte(b: u8) -> (r: bool)
    ensures
        r == is_hex_byte(b),
{
    (48 <= b && b <= 57) || (65 <= b && b <= 70) || (97 <= b && b <= 102)
}

/// Matches the trailing groups of a WWPN, from position `pos`.
fn wwpn_groups_match(b: &[u8], pos: usize, n: u32) -> (r: bool)
    requires
        pos <= b@.len(),
    ensures
        r == wwpn_groups(b@.skip(pos as int), n as nat),
    decreases n,
{
    let len = b.len();
    let ghost s = b@.skip(pos as int);
    if n == 0 {
        return pos == len;
    }
    if pos < len && (b[pos] == 46 || b[pos] == 58 || b[pos] == 45) {
        proof {
            assert(s[0] == b@[pos as int]);
            if len - pos >= 3 {
                assert(s[1] == b@[pos as int + 1]);
                assert(s[2] == b@[pos as int + 2]);
                assert(s.skip(3) =~= b@.skip(pos as int + 3));
            }
        }
        len - pos >= 3 && hex_byte(b[pos + 1]) && hex_byte(b[pos + 2]) && wwpn_groups_match(
            b,
            pos + 3,
            n - 1,
        )
    } else {
        proof {
            if pos < len {
                assert(s[0] == b@[pos as int]);
            }
            if len - pos >= 2 {
                assert(s[1] == b@[pos as int + 1]);
                assert(s.skip(2) =~= b@.skip(pos as int + 2));
            }
        }
        len - pos >= 2 && hex_byte(b[pos]) && hex_byte(b[pos + 1]) && wwpn_groups_match(
            b,
            pos + 2,
            n - 1,
        )
    }
}

/// Whether a string is a well-formed WWPN.
pub fn valid_wwpn(s: &str) -> (r: bool)
    ensures
        r == is_wwpn_bytes(s.spec_bytes()),
{
    let b = s.as_bytes();
    let ghost sb = s.spec_bytes();
    let start: usize = if b.len() >= 2 && b[0] == 48 && (b[1] == 120 || b[1] == 88) {
        2
    } else {
        0
    };
    let ghost t = if start == 2 {
        sb.skip(2)
    } else {
        sb
    };
    proof {
        if start == 2 {
            assert(t =~= sb.skip(2));
        } else {
            assert(t =~= sb.skip(0));
        }
    }
    if !(b.len() - start >= 2 && hex_byte(b[start]) && hex_byte(b[start + 1])) {
        proof {
            if sb.len() - start as int >= 2 {
                assert(t[0] == sb[start as int]);
                assert(t[1] == sb[start as int + 1]);
            }
        }
        return false;
    }
    proof {
        assert(t[0] == sb[start as int]);
        assert(t[1] == sb[start as int + 1]);
        assert(t.skip(2) =~= sb.skip(start as int + 2));
    }
    wwpn_groups_match(b, start + 2, 7)
}

/// Whether a string starts with one of the iSCSI qualified-name prefixes
/// `iqn`, `eui` or `naa`.
pub open spec fn has_iscsi_prefix(s: Seq<u8>) -> bool {
    s.len() >= 3 && ((s[0] == 105 && s[1] == 113 && s[2] == 110) || (s[0] == 101 && s[1] == 117
        && s[2] == 105) || (s[0] == 110 && s[1] == 97 && s[2] == 97))
}

/// Whether a string is an acceptable iSCSI IQN: it starts with `iqn`,
/// `eui` or `naa`.
pub fn valid_iscsi_iqn(s: &str) -> (r: bool)
    ensures
        r == has_iscsi_prefix(s.spec_bytes()),
{
    let b = s.as_bytes();
    b.len() >= 3 && ((b[0] == 105 && b[1] == 113 && b[2] == 110) || (b[0] == 101 && b[1] == 117
        && b[2] == 105) || (b[0] == 110 && b[1] == 97 && b[2] == 97))
}

/// Checks an initiator ID against its declared type, before any request is
/// sent: a WWPN must be eight hex pairs, an iSCSI IQN must carry a known
/// prefix, and any other initiator type cannot be validated here.
pub fn verify_init_id_str(init_id: &str, init_type: InitiatorType) -> (r: LsmResult<()>)
    ensures
        match init_type {
            InitiatorType::Wwpn => (r is Ok) == is_wwpn_bytes(init_id.spec_bytes()),
            InitiatorType::IscsiIqn => (r is Ok) == has_iscsi_prefix(init_id.spec_bytes()),
            _ => r is Err,
        },
        r matches Err(e) ==> e.kind == LsmErrorKind::InvalidArgument,
{
    let valid: bool = match init_type {
        InitiatorType::Wwpn => valid_wwpn(init_id),
        InitiatorType::IscsiIqn => valid_iscsi_iqn(init_id),
        _ => {
            return Err(
                LsmError::with_msg(
                    LsmErrorKind::InvalidArgument,
                    "initiator type must be a WWPN or an iSCSI IQN",
                ),
            );
        },
    };
    if valid {
        Ok(())
    } else {
        Err(LsmError::with_msg(LsmErrorKind::InvalidArgument, "invalid initiator ID string"))
    }
}

} // verus!
