//! IEEE-754 binary64 ("double") arithmetic on integers: rounding an integer to
//! the nearest double, and reading the integer value of a double given by its
//! bit pattern. BiDi carries every number as a double; this is how its
//! integers are recognised.

use vstd::prelude::*;
use vstd::arithmetic::power2::{pow2, lemma_pow2_unfold, lemma2_to64, lemma_pow2_strictly_increases, lemma_pow2_pos, lemma_pow2_adds};
use vstd::arithmetic::div_mod::{lemma_div_denominator, lemma_fundamental_div_mod, lemma_small_mod};
use crate::json::{JsonNumber, number_from_i64};

verus! {

/// 2^52: the weight of the hidden bit of a normal double.
pub open spec fn hidden_bit() -> nat {
    0x10000000000000
}

/// 2^53: integers below it are doubles exactly.
pub open spec fn exact_limit() -> nat {
    0x20000000000000
}

/// 2^63: the magnitude at which a signed 64-bit conversion saturates.
pub open spec fn saturation_limit() -> nat {
    0x8000000000000000
}

/// How many low bits a natural number has beyond the 53 that a double keeps.
pub open spec fn excess_bits(a: nat) -> nat
    decreases a,
{
    if a < exact_limit() {
        0
    } else {
        1 + excess_bits(a / 2)
    }
}

/// The value of the double nearest to `a` (ties to even), as conversion of
/// an integer to a double computes it.
pub open spec fn nearest_double(a: nat) -> nat {
    let k = excess_bits(a);
    if k == 0 {
        a
    } else {
        let q = a / pow2(k);
        let r = a % pow2(k);
        let half = pow2((k - 1) as nat);
        if r > half || (r == half && q % 2 == 1) {
            (q + 1) * pow2(k)
        } else {
            q * pow2(k)
        }
    }
}

/// The biased exponent field of a double's bit pattern.
pub open spec fn exponent_field(bits: u64) -> nat {
    ((bits as nat) / hidden_bit()) % 2048
}

/// The fraction field of a double's bit pattern.
pub open spec fn fraction_field(bits: u64) -> nat {
    (bits as nat) % hidden_bit()
}

/// The sign bit of a double's bit pattern.
pub open spec fn sign_bit(bits: u64) -> bool {
    bits as nat >= saturation_limit()
}

/// The double is neither infinite nor NaN.
pub open spec fn is_finite(bits: u64) -> bool {
    exponent_field(bits) != 2047
}

/// The magnitude of a finite double that has no fractional part; `None` for
/// a double with a fractional part, an infinity or a NaN.
pub open spec fn integral_magnitude(bits: u64) -> Option<nat> {
    let e = exponent_field(bits);
    let sig = hidden_bit() + fraction_field(bits);
    if e == 2047 {
        None
    } else if e == 0 {
        if fraction_field(bits) == 0 {
            Some(0)
        } else {
            None
        }
    } else if e >= 1075 {
        Some(sig * pow2((e - 1075) as nat))
    } else if sig % pow2((1075 - e) as nat) == 0 {
        Some(sig / pow2((1075 - e) as nat))
    } else {
        None
    }
}

/// The signed integer value of a double with no fractional part.
pub open spec fn integral_value(bits: u64) -> Option<int> {
    match integral_magnitude(bits) {
        Some(a) => Some(
            if sign_bit(bits) {
                -a
            } else {
                a as int
            },
        ),
        None => None,
    }
}

/// Conversion of an integer to a signed 64-bit integer, saturating at the ends.
pub open spec fn saturate(v: int) -> i64 {
    if v > i64::MAX {
        i64::MAX
    } else if v < i64::MIN {
        i64::MIN
    } else {
        v as i64
    }
}

/// The bit pattern of the double of value `d`, for `2^63 < d <= 2^64`
/// where `d` is a multiple of 2^11.
pub open spec fn high_double_bits(d: nat) -> u64 {
    if d >= 0x10000000000000000 {
        (1087 * hidden_bit()) as u64
    } else {
        (1086 * hidden_bit() + (d / 2048 - hidden_bit())) as u64
    }
}

/// The integer that a number keeps when it travels as a double and is read
/// back: integral doubles within the 64-bit range become integers; other
/// finite doubles stay as they are; anything else is no number.
pub open spec fn number_as_double(n: JsonNumber) -> Option<JsonNumber> {
    match n {
        JsonNumber::PosInt(u) => {
            let d = nearest_double(u as nat);
            if d <= saturation_limit() {
                Some(JsonNumber::PosInt(saturate(d as int) as u64))
            } else {
                Some(JsonNumber::Float(high_double_bits(d)))
            }
        },
        JsonNumber::NegInt(i) => {
            let d = if i < 0 {
                -nearest_double((-i) as nat)
            } else {
                nearest_double(i as nat) as int
            };
            Some(number_from_i64(saturate(d)))
        },
        JsonNumber::Float(bits) => match integral_value(bits) {
            Some(v) => if -(saturation_limit() as int) <= v <= saturation_limit() {
                Some(number_from_i64(saturate(v)))
            } else {
                Some(JsonNumber::Float(bits))
            },
            None => if is_finite(bits) {
                Some(JsonNumber::Float(bits))
            } else {
                None
            },
        },
    }
}

proof fn lemma_excess_step(a: nat)
    requires
        a >= exact_limit(),
    ensures
        excess_bits(a) == 1 + excess_bits(a / 2),
{
}

/// The value of the double nearest to `a`, computed.
fn nearest_double_of(a: u64) -> (d: u128)
    ensures
        d as nat == nearest_double(a as nat),
        d as nat <= 0x10000000000000000,
{
    let mut x: u64 = a;
    let mut k: u32 = 0;
    let mut p: u128 = 1;
    proof {
        lemma2_to64();
    }
    while x >= 0x20000000000000
        invariant
            x as nat == (a as nat) / pow2(k as nat),
            p as nat == pow2(k as nat),
            excess_bits(a as nat) == k + excess_bits(x as nat),
            x as nat * p as nat <= a as nat,
            p <= 0x800,
            k <= 11,
        decreases x,
    {
        proof {
            lemma2_to64();
            lemma_pow2_unfold((k + 1) as nat);
            lemma_pow2_pos(k as nat);
            lemma_div_denominator(a as int, pow2(k as nat) as int, 2);
            lemma_excess_step(x as nat);
            assert(p < 0x800) by (nonlinear_arith)
                requires
                    x as nat * p as nat <= a as nat,
                    a < 0x10000000000000000,
                    x >= 0x20000000000000,
            ;
            if k >= 11 {
                if k > 11 {
                    lemma_pow2_strictly_increases(11, k as nat);
                }
                assert(false);
            }
            lemma_fundamental_div_mod(x as int, 2);
            assert((x as nat / 2) * (p as nat * 2) <= x as nat * p as nat) by (nonlinear_arith)
                requires
                    (x as nat / 2) * 2 <= x as nat,
            ;
        }
        x = x / 2;
        k = k + 1;
        p = p * 2;
    }
    proof {
        lemma_pow2_pos(k as nat);
    }
    if k == 0 {
        proof {
            assert(x as nat == a as nat);
        }
        a as u128
    } else {
        let q: u128 = x as u128;
        let r: u128 = (a as u128) % p;
        let half: u128 = p / 2;
        proof {
            lemma_pow2_unfold(k as nat);
            assert(half as nat == pow2((k - 1) as nat));
            assert(q < 0x20000000000000);
        }
        if r > half || (r == half && q % 2 == 1) {
            assert((q + 1) * p <= 0x20000000000000 * 0x800) by (nonlinear_arith)
                requires
                    q < 0x20000000000000,
                    p <= 0x800,
            ;
            (q + 1) * p
        } else {
            assert(q * p <= 0x20000000000000 * 0x800) by (nonlinear_arith)
                requires
                    q < 0x20000000000000,
                    p <= 0x800,
            ;
            q * p
        }
    }
}

proof fn lemma_pow2_53()
    ensures
        pow2(53) == 0x20000000000000,
{
    lemma2_to64();
    lemma_pow2_adds(32, 21);
}

/// 2^k, computed.
fn power_of_two(k: u32) -> (r: u128)
    requires
        k <= 64,
    ensures
        r as nat == pow2(k as nat),
{
    let mut r: u128 = 1;
    let mut i: u32 = 0;
    proof {
        lemma2_to64();
    }
    while i < k
        invariant
            i <= k <= 64,
            r as nat == pow2(i as nat),
        decreases k - i,
    {
        proof {
            lemma2_to64();
            lemma_pow2_unfold((i + 1) as nat);
            lemma_pow2_strictly_increases((i + 1) as nat, 65);
            lemma_pow2_unfold(65);
        }
        r = r * 2;
        i = i + 1;
    }
    r
}

/// Saturating conversion of a (widened) integer to a signed 64-bit integer.
fn saturate_wide(v: i128) -> (r: i64)
    ensures
        r == saturate(v as int),
{
    if v > i64::MAX as i128 {
        i64::MAX
    } else if v < i64::MIN as i128 {
        i64::MIN
    } else {
        v as i64
    }
}

/// A number made from a signed integer.
fn from_signed(n: i64) -> (r: JsonNumber)
    ensures
        r == number_from_i64(n),
{
    if n >= 0 {
        JsonNumber::PosInt(n as u64)
    } else {
        JsonNumber::NegInt(n)
    }
}

/// The number as it reads back after travelling as a double (see
/// [`number_as_double`]).
pub fn double_rounded(n: JsonNumber) -> (r: Option<JsonNumber>)
    ensures
        r == number_as_double(n),
{
    proof {
        lemma2_to64();
    }
    match n {
        JsonNumber::PosInt(u) => {
            let d = nearest_double_of(u);
            if d <= 0x8000000000000000 {
                if d == 0x8000000000000000 {
                    assert(saturate(d as int) == i64::MAX);
                    let r = Some(JsonNumber::PosInt(i64::MAX as u64));
                    assert(r == number_as_double(n));
                    r
                } else {
                    assert(saturate(d as int) == d as i64);
                    let r = Some(JsonNumber::PosInt(d as u64));
                    assert(r == number_as_double(n));
                    r
                }
            } else if d >= 0x10000000000000000 {
                assert(high_double_bits(d as nat) == 1087 * 0x10000000000000);
                let r = Some(JsonNumber::Float(1087 * 0x10000000000000));
                assert(r == number_as_double(n));
                r
            } else {
                assert(d / 2048 >= 0x10000000000000) by (nonlinear_arith)
                    requires
                        d > 0x8000000000000000,
                ;
                assert(d / 2048 < 0x20000000000000) by (nonlinear_arith)
                    requires
                        d < 0x10000000000000000,
                ;
                let b: u64 = (1086 * 0x10000000000000 + (d / 2048 - 0x10000000000000)) as u64;
                assert(high_double_bits(d as nat) == b);
                let r = Some(JsonNumber::Float(b));
                assert(r == number_as_double(n));
                r
            }
        },
        JsonNumber::NegInt(i) => {
            if i < 0 {
                let magnitude: u64 = ((-(i + 1)) as u64) + 1;
                assert(magnitude as nat == (-i) as nat);
                let d = nearest_double_of(magnitude);
                assert(-(d as int) == -nearest_double((-i) as nat));
                Some(from_signed(saturate_wide(-(d as i128))))
            } else {
                let d = nearest_double_of(i as u64);
                Some(from_signed(saturate_wide(d as i128)))
            }
        },
        JsonNumber::Float(bits) => {
            let e: u64 = (bits / 0x10000000000000) % 2048;
            let m: u64 = bits % 0x10000000000000;
            let negative = bits >= 0x8000000000000000;
            let sig: u128 = 0x10000000000000 + m as u128;
            assert(e as nat == exponent_field(bits));
            assert(m as nat == fraction_field(bits));
            if e == 2047 {
                None
            } else if e == 0 {
                if m == 0 {
                    assert(integral_value(bits) == Some(0int));
                    Some(from_signed(0))
                } else {
                    Some(JsonNumber::Float(bits))
                }
            } else {
                let magnitude: Option<u128> = if e >= 1075 {
                    let k = (e - 1075) as u32;
                    if k <= 11 {
                        let p = power_of_two(k);
                        proof {
                            lemma_pow2_strictly_increases(k as nat, 12);
                        }
                        assert(sig * p <= 0x20000000000000 * 0x1000) by (nonlinear_arith)
                            requires
                                sig < 0x20000000000000,
                                p <= 0x1000,
                        ;
                        if sig * p <= 0x8000000000000000 {
                            Some(sig * p)
                        } else {
                            None
                        }
                    } else {
                        proof {
                            if k > 12 {
                                lemma_pow2_strictly_increases(12, k as nat);
                            }
                            assert(sig * pow2(k as nat) > 0x8000000000000000) by (nonlinear_arith)
                                requires
                                    sig >= 0x10000000000000,
                                    pow2(k as nat) >= 0x1000,
                            ;
                        }
                        None
                    }
                } else {
                    let s = (1075 - e) as u32;
                    if s >= 53 {
                        proof {
                            lemma2_to64();
                            if s > 53 {
                                lemma_pow2_strictly_increases(53, s as nat);
                            }
                            lemma_pow2_53();
                            lemma_small_mod(sig as nat, pow2(s as nat));
                        }
                        None
                    } else {
                        let p = power_of_two(s);
                        proof {
                            lemma_pow2_pos(s as nat);
                        }
                        if sig % p == 0 {
                            assert(sig / p <= sig) by (nonlinear_arith)
                                requires
                                    p >= 1,
                            ;
                            Some(sig / p)
                        } else {
                            None
                        }
                    }
                };
                match magnitude {
                    Some(a) => {
                        let v: i128 = if negative {
                            -(a as i128)
                        } else {
                            a as i128
                        };
                        Some(from_signed(saturate_wide(v)))
                    },
                    None => Some(JsonNumber::Float(bits)),
                }
            }
        },
    }
}

/// Integers travel through a double unchanged while their magnitude is
/// below 2^53.
pub proof fn law_exact_integers(u: u64, i: i64)
    ensures
        u < exact_limit() ==> number_as_double(JsonNumber::PosInt(u)) == Some(JsonNumber::PosInt(u)),
        i < 0 && -(exact_limit() as int) < i ==> number_as_double(JsonNumber::NegInt(i)) == Some(
            JsonNumber::NegInt(i),
        ),
{
}

} // verus!
