//! Multiply-then-divide in a 192-bit intermediate domain, narrowed to `u128`.
use vstd::arithmetic::div_mod::{
    lemma_div_denominator, lemma_div_is_ordered, lemma_fundamental_div_mod,
    lemma_fundamental_div_mod_converse,
};
use vstd::arithmetic::power2::{lemma2_to64, lemma_pow2_adds, lemma_pow2_unfold, pow2};
use vstd::bits::lemma_u128_shr_is_div;
use vstd::prelude::*;

verus! {

/// Largest value of the 192-bit intermediate domain.
pub open spec fn u192_max() -> int {
    two_64() * two_64() * two_64() - 1
}

/// 2 to the 64th.
pub open spec fn two_64() -> int {
    0x1_0000_0000_0000_0000
}

/// `a * b / c` computed with a 192-bit product: fails on a zero divisor, on a
/// product past 192 bits, and on a quotient past `u128`.
pub open spec fn mul_div_spec(a: int, b: int, c: int) -> Option<int> {
    if c == 0 || a * b > u192_max() || a * b / c > u128::MAX {
        None
    } else {
        Some(a * b / c)
    }
}

/// An optional integer result as the optional `u128` that carries it.
pub open spec fn narrow_u128(o: Option<int>) -> Option<u128> {
    match o {
        Some(v) => Some(v as u128),
        None => None,
    }
}

proof fn lemma_pow2_128()
    ensures
        pow2(128) == two_64() * two_64(),
{
    lemma2_to64();
    lemma_pow2_adds(64, 64);
}

/// `floor(a * b / c)` when it fits in `u128`, found bit by bit over `b` while
/// keeping `a * (leading bits of b) == q * c + r` with `r < c`.
fn mul_div_floor(a: u128, b: u128, c: u128) -> (r: Option<u128>)
    requires
        c > 0,
    ensures
        r == (if (a as int) * (b as int) / (c as int) <= u128::MAX {
            Some(((a as int) * (b as int) / (c as int)) as u128)
        } else {
            None::<u128>
        }),
{
    let aq: u128 = a / c;
    let ar: u128 = a % c;
    proof {
        lemma_fundamental_div_mod(a as int, c as int);
        assert(aq as int * c as int == c as int * aq as int) by (nonlinear_arith);
        lemma_pow2_128();
    }
    let mut q: u128 = 0;
    let mut rem: u128 = 0;
    let mut i: u128 = 128;
    let ghost mut bp: int = 0;
    proof {
        vstd::arithmetic::div_mod::lemma_basic_div(b as int, pow2(128) as int);
    }
    while i > 0
        invariant
            i <= 128,
            aq as int * c as int + ar as int == a as int,
            ar < c,
            rem < c,
            bp == b as nat / pow2(i as nat),
            0 <= bp <= b,
            (a as int) * bp == (q as int) * (c as int) + rem as int,
        decreases i,
    {
        i = i - 1;
        let cur: u128 = b >> i;
        let bit: u128 = cur & 1;
        let ghost old_bp = bp;
        proof {
            lemma_u128_shr_is_div(b, i);
            assert(bit == cur % 2) by (bit_vector)
                requires bit == cur & 1;
            lemma_pow2_unfold((i + 1) as nat);
            vstd::arithmetic::power2::lemma_pow2_pos(i as nat);
            lemma_div_denominator(b as int, pow2(i as nat) as int, 2);
            lemma_fundamental_div_mod(cur as int, 2);
            bp = cur as int;
            assert(bp == 2 * old_bp + bit);
            lemma_div_is_ordered(cur as int, b as int, 1);
            assert(pow2(i as nat) >= 1) by {
                vstd::arithmetic::power2::lemma_pow2_pos(i as nat);
            }
            vstd::arithmetic::div_mod::lemma_div_is_ordered_by_denominator(b as int, 1, pow2(i as nat) as int);
        }
        // doubling: 2 * rem == k1 * c + r1
        let k1: u128;
        let r1: u128;
        if rem >= c - rem {
            k1 = 1;
            r1 = rem - (c - rem);
        } else {
            k1 = 0;
            r1 = rem + rem;
        }
        // adding a when the bit is set: r1 + ar == k2 * c + r2
        let k2: u128;
        let r2: u128;
        if bit == 0 {
            k2 = 0;
            r2 = r1;
        } else if r1 >= c - ar {
            k2 = 1;
            r2 = r1 - (c - ar);
        } else {
            k2 = 0;
            r2 = r1 + ar;
        }
        let add: u128 = if bit == 0 { k1 } else { k1 + k2 };
        let ghost new_q: int = 2 * q as int + add as int + bit as int * aq as int;
        proof {
            assert((a as int) * bp == 2 * ((a as int) * old_bp) + bit as int * a as int)
                by (nonlinear_arith)
                requires
                    bp == 2 * old_bp + bit as int,
            ;
            assert(bit as int * a as int == bit as int * aq as int * c as int + bit as int * ar as int)
                by (nonlinear_arith)
                requires
                    aq as int * c as int + ar as int == a as int,
            ;
            assert((a as int) * bp == new_q * c as int + r2 as int) by (nonlinear_arith)
                requires
                    (a as int) * bp == 2 * ((a as int) * old_bp) + bit as int * a as int,
                    (a as int) * old_bp == (q as int) * (c as int) + rem as int,
                    bit as int * a as int == bit as int * aq as int * c as int + bit as int * ar as int,
                    2 * rem as int == k1 as int * c as int + r1 as int,
                    bit == 0 ==> r2 == r1 && k2 == 0,
                    bit == 1 ==> r1 as int + ar as int == k2 as int * c as int + r2 as int,
                    add as int == k1 as int + (if bit == 0 { 0 } else { k2 as int }),
                    bit == 0 || bit == 1,
                    new_q == 2 * q as int + add as int + bit as int * aq as int,
            ;
        }
        let step: u128 = if bit == 0 { 0 } else { aq };
        let doubled = q.checked_mul(2);
        let grown = match doubled {
            Some(d) => match d.checked_add(add) {
                Some(e) => e.checked_add(step),
                None => None,
            },
            None => None,
        };
        match grown {
            Some(nq) => {
                q = nq;
                rem = r2;
            },
            None => {
                proof {
                    assert(new_q > u128::MAX);
                    assert((a as int) * bp <= (a as int) * (b as int)) by (nonlinear_arith)
                        requires
                            0 <= bp <= b,
                            a >= 0,
                    ;
                    lemma_div_is_ordered((a as int) * bp, (a as int) * (b as int), c as int);
                    lemma_fundamental_div_mod_converse((a as int) * bp, c as int, new_q, r2 as int);
                }
                return None;
            },
        }
    }
    proof {
        vstd::arithmetic::power2::lemma_pow2(0);
        vstd::arithmetic::power::lemma_pow0(2);
        assert(pow2(0) == 1);
        vstd::arithmetic::div_mod::lemma_div_basics(b as int);
        assert(bp == b as int);
        lemma_fundamental_div_mod_converse((a as int) * (b as int), c as int, q as int, rem as int);
    }
    Some(q)
}

/// `a * b / c` with a 192-bit intermediate product: `None` on a zero divisor, on a
/// product that does not fit in 192 bits, or on a quotient that does not fit in `u128`.
pub fn checked_mul_div(a: u128, b: u128, c: u128) -> (r: Option<u128>)
    ensures
        r == narrow_u128(mul_div_spec(a as int, b as int, c as int)),
{
    if c == 0 {
        return None;
    }
    let high = mul_div_floor(a, b, 0x1_0000_0000_0000_0000u128);
    proof {
        let p = (a as int) * (b as int);
        lemma_fundamental_div_mod(p, 0x1_0000_0000_0000_0000int);
        assert(p >= 0) by (nonlinear_arith)
            requires
                a >= 0,
                b >= 0,
                p == (a as int) * (b as int),
        ;
    }
    if high.is_none() {
        return None;
    }
    mul_div_floor(a, b, c)
}

} // verus!
