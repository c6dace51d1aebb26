//! Fixed-point decimal arithmetic for money and share quantities.
//!
//! A [`Dec`] holds a signed number of micro-units: the represented value is
//! `units / 10^6`. All operations saturate at one trillion
//! (`|value| <= 10^12`), which bounds every intermediate product well inside
//! `i128`; within that range addition, subtraction and multiplication of
//! values with at most six fractional digits are exact, and division
//! truncates toward zero at the sixth fractional digit.

use vstd::arithmetic::div_mod::{
    lemma_div_denominator, lemma_div_is_ordered, lemma_fundamental_div_mod,
    lemma_fundamental_div_mod_converse, lemma_mod_multiples_basic,
};
use vstd::arithmetic::power2::{
    lemma2_to64, lemma2_to64_rest, lemma_pow2_adds, lemma_pow2_pos, lemma_pow2_strictly_increases,
    pow2,
};
use vstd::prelude::*;

verus! {

/// Micro-units per whole unit.
pub const DEC_SCALE: i128 = 1_000_000;

/// Largest magnitude, in micro-units, that a `Dec` can hold (one trillion).
pub const DEC_MAX_UNITS: i128 = 1_000_000_000_000_000_000;

/// Absolute value of a mathematical integer.
pub open spec fn abs_i(a: int) -> int {
    if a < 0 {
        -a
    } else {
        a
    }
}

/// Saturate a micro-unit count into the representable range.
pub open spec fn d_clip(v: int) -> int {
    if v > DEC_MAX_UNITS as int {
        DEC_MAX_UNITS as int
    } else if v < -(DEC_MAX_UNITS as int) {
        -(DEC_MAX_UNITS as int)
    } else {
        v
    }
}

/// Whether a micro-unit count is representable without saturation.
pub open spec fn d_in_range(v: int) -> bool {
    -(DEC_MAX_UNITS as int) <= v <= DEC_MAX_UNITS as int
}

/// Saturating addition on micro-units.
pub open spec fn d_add(a: int, b: int) -> int {
    d_clip(a + b)
}

/// Saturating subtraction on micro-units.
pub open spec fn d_sub(a: int, b: int) -> int {
    d_clip(a - b)
}

/// Negation on micro-units.
pub open spec fn d_neg(a: int) -> int {
    d_clip(-a)
}

/// Saturating product: `a * b / 10^6`, truncated toward zero.
pub open spec fn d_mul(a: int, b: int) -> int {
    let m = (abs_i(a) * abs_i(b)) / (DEC_SCALE as int);
    if (a < 0) <==> (b < 0) {
        d_clip(m)
    } else {
        d_clip(-m)
    }
}

/// Saturating quotient: `a * 10^6 / b`, truncated toward zero.
pub open spec fn d_div(a: int, b: int) -> int {
    let q = (abs_i(a) * (DEC_SCALE as int)) / abs_i(b);
    if (a < 0) <==> (b < 0) {
        d_clip(q)
    } else {
        d_clip(-q)
    }
}

/// Round toward negative infinity to a whole number of units.
pub open spec fn d_floor(a: int) -> int {
    if a >= 0 {
        (a / (DEC_SCALE as int)) * (DEC_SCALE as int)
    } else {
        -(((-a + (DEC_SCALE as int) - 1) / (DEC_SCALE as int)) * (DEC_SCALE as int))
    }
}

/// Round to the nearest whole number of units, ties to the even
/// neighbour (banker's rounding).
pub open spec fn d_round(a: int) -> int {
    let q = a / (DEC_SCALE as int);
    let r = a % (DEC_SCALE as int);
    if r < 500000 {
        q * (DEC_SCALE as int)
    } else if r > 500000 {
        (q + 1) * (DEC_SCALE as int)
    } else if q % 2 == 0 {
        q * (DEC_SCALE as int)
    } else {
        (q + 1) * (DEC_SCALE as int)
    }
}

/// Minimum of two micro-unit counts.
pub open spec fn d_min(a: int, b: int) -> int {
    if a <= b {
        a
    } else {
        b
    }
}

/// Maximum of two micro-unit counts.
pub open spec fn d_max(a: int, b: int) -> int {
    if a >= b {
        a
    } else {
        b
    }
}

/// Fixed-point decimal: value is `units / 10^6`.
#[derive(Clone, Copy, PartialEq, Eq, Structural, Debug, Hash)]
pub struct Dec {
    units: i128,
}

impl View for Dec {
    type V = int;

    closed spec fn view(&self) -> int {
        self.units as int
    }
}

#[verifier::type_invariant]
pub open spec fn dec_wf(d: Dec) -> bool {
    d_in_range(d@)
}

impl Dec {
    /// The value zero.
    pub fn zero() -> (r: Dec)
        ensures
            r@ == 0,
    {
        Dec { units: 0 }
    }

    /// The value one.
    pub fn one() -> (r: Dec)
        ensures
            r@ == DEC_SCALE as int,
    {
        Dec { units: DEC_SCALE }
    }

    /// The value one hundred.
    pub fn hundred() -> (r: Dec)
        ensures
            r@ == 100 * (DEC_SCALE as int),
    {
        Dec { units: 100_000_000 }
    }

    /// Build from a whole number of units.
    pub fn from_int(n: i64) -> (r: Dec)
        ensures
            r@ == d_clip(n as int * (DEC_SCALE as int)),
    {
        let wide: i128 = (n as i128) * DEC_SCALE;
        Dec::from_micro(wide)
    }

    /// Build from a count of micro-units (`u / 10^6` is the value).
    pub fn from_micro(u: i128) -> (r: Dec)
        ensures
            r@ == d_clip(u as int),
    {
        if u > DEC_MAX_UNITS {
            Dec { units: DEC_MAX_UNITS }
        } else if u < -DEC_MAX_UNITS {
            Dec { units: -DEC_MAX_UNITS }
        } else {
            Dec { units: u }
        }
    }

    /// The micro-unit count.
    pub fn micro(&self) -> (r: i128)
        ensures
            r as int == self@,
    {
        self.units
    }

    /// Saturating addition.
    pub fn add(&self, o: &Dec) -> (r: Dec)
        ensures
            r@ == d_add(self@, o@),
    {
        proof {
            use_type_invariant(*self);
            use_type_invariant(*o);
        }
        Dec::from_micro(self.units + o.units)
    }

    /// Saturating subtraction.
    pub fn sub(&self, o: &Dec) -> (r: Dec)
        ensures
            r@ == d_sub(self@, o@),
    {
        proof {
            use_type_invariant(*self);
            use_type_invariant(*o);
        }
        Dec::from_micro(self.units - o.units)
    }

    /// Negation.
    pub fn neg(&self) -> (r: Dec)
        ensures
            r@ == d_neg(self@),
    {
        proof {
            use_type_invariant(*self);
        }
        Dec { units: -self.units }
    }

    /// Absolute value.
    pub fn abs(&self) -> (r: Dec)
        ensures
            r@ == abs_i(self@),
    {
        proof {
            use_type_invariant(*self);
        }
        if self.units < 0 {
            Dec { units: -self.units }
        } else {
            *self
        }
    }

    /// Saturating multiplication, truncated toward zero at the sixth digit.
    pub fn mul(&self, o: &Dec) -> (r: Dec)
        ensures
            r@ == d_mul(self@, o@),
    {
        proof {
            use_type_invariant(*self);
            use_type_invariant(*o);
        }
        let ua: u128 = if self.units < 0 {
            (-self.units) as u128
        } else {
            self.units as u128
        };
        let ub: u128 = if o.units < 0 {
            (-o.units) as u128
        } else {
            o.units as u128
        };
        assert(ua * ub <= 1_000_000_000_000_000_000_000_000_000_000_000_000u128) by (nonlinear_arith)
            requires
                ua <= 1_000_000_000_000_000_000u128,
                ub <= 1_000_000_000_000_000_000u128,
        ;
        let m: u128 = (ua * ub) / 1_000_000u128;
        let mc: i128 = if m > DEC_MAX_UNITS as u128 {
            DEC_MAX_UNITS
        } else {
            m as i128
        };
        if (self.units < 0) != (o.units < 0) {
            Dec { units: -mc }
        } else {
            Dec { units: mc }
        }
    }

    /// Saturating division, truncated toward zero at the sixth digit.
    pub fn div(&self, o: &Dec) -> (r: Dec)
        requires
            o@ != 0,
        ensures
            r@ == d_div(self@, o@),
    {
        proof {
            use_type_invariant(*self);
            use_type_invariant(*o);
        }
        let ua: u128 = if self.units < 0 {
            (-self.units) as u128
        } else {
            self.units as u128
        };
        let ub: u128 = if o.units < 0 {
            (-o.units) as u128
        } else {
            o.units as u128
        };
        assert(ua * 1_000_000u128 <= 1_000_000_000_000_000_000_000_000u128) by (nonlinear_arith)
            requires
                ua <= 1_000_000_000_000_000_000u128,
        ;
        let q: u128 = (ua * 1_000_000u128) / ub;
        let qc: i128 = if q > DEC_MAX_UNITS as u128 {
            DEC_MAX_UNITS
        } else {
            q as i128
        };
        if (self.units < 0) != (o.units < 0) {
            Dec { units: -qc }
        } else {
            Dec { units: qc }
        }
    }

    /// Round toward negative infinity to a whole number of units.
    pub fn floor(&self) -> (r: Dec)
        ensures
            r@ == d_floor(self@),
    {
        proof {
            use_type_invariant(*self);
        }
        if self.units >= 0 {
            let a: u128 = self.units as u128;
            let q: u128 = a / 1_000_000u128;
            assert(q <= 1_000_000_000_000u128);
            let c: u128 = q * 1_000_000u128;
            Dec { units: c as i128 }
        } else {
            let a: u128 = (-self.units) as u128;
            let q: u128 = (a + 999_999u128) / 1_000_000u128;
            assert(q <= 1_000_000_000_000u128);
            let c: u128 = q * 1_000_000u128;
            Dec { units: -(c as i128) }
        }
    }

    /// Round to the nearest whole number of units, ties to the even
    /// neighbour.
    pub fn round(&self) -> (r: Dec)
        ensures
            r@ == d_round(self@),
    {
        proof {
            use_type_invariant(*self);
        }
        let (q, rem): (i128, u128) = if self.units >= 0 {
            let a: u128 = self.units as u128;
            ((a / 1_000_000u128) as i128, a % 1_000_000u128)
        } else {
            let a: u128 = (-self.units) as u128;
            let qa: u128 = a / 1_000_000u128;
            let ra: u128 = a % 1_000_000u128;
            if ra == 0 {
                (-(qa as i128), 0u128)
            } else {
                (-(qa as i128) - 1, 1_000_000u128 - ra)
            }
        };
        proof {
            lemma_fundamental_div_mod_converse(
                self@,
                DEC_SCALE as int,
                q as int,
                rem as int,
            );
        }
        let up: bool = if rem < 500_000u128 {
            false
        } else if rem > 500_000u128 {
            true
        } else {
            q % 2 != 0
        };
        let whole: i128 = if up {
            q + 1
        } else {
            q
        };
        proof {
            assert(q % 2 != 0 <==> (q as int) % 2 != 0) by {
                assert((q as int) % 2 == q as int - 2 * ((q as int) / 2));
            }
        }
        Dec { units: whole * DEC_SCALE }
    }

    /// Minimum of two values.
    pub fn min(&self, o: &Dec) -> (r: Dec)
        ensures
            r@ == d_min(self@, o@),
    {
        if self.units <= o.units {
            *self
        } else {
            *o
        }
    }

    /// Maximum of two values.
    pub fn max(&self, o: &Dec) -> (r: Dec)
        ensures
            r@ == d_max(self@, o@),
    {
        if self.units >= o.units {
            *self
        } else {
            *o
        }
    }

    /// Strictly less than.
    pub fn lt(&self, o: &Dec) -> (r: bool)
        ensures
            r == (self@ < o@),
    {
        self.units < o.units
    }

    /// Less than or equal.
    pub fn le(&self, o: &Dec) -> (r: bool)
        ensures
            r == (self@ <= o@),
    {
        self.units <= o.units
    }

    /// Strictly greater than.
    pub fn gt(&self, o: &Dec) -> (r: bool)
        ensures
            r == (self@ > o@),
    {
        self.units > o.units
    }

    /// Greater than or equal.
    pub fn ge(&self, o: &Dec) -> (r: bool)
        ensures
            r == (self@ >= o@),
    {
        self.units >= o.units
    }

    /// Whether the value is zero.
    pub fn is_zero(&self) -> (r: bool)
        ensures
            r == (self@ == 0),
    {
        self.units == 0
    }

}


/// Whether a `u64` bit pattern encodes a finite IEEE-754 binary64 value
/// (neither an infinity nor a NaN).
pub open spec fn f64_bits_finite(bits: u64) -> bool {
    (bits >> 52) & 0x7FF != 0x7FF
}

/// The exact value encoded by a finite IEEE-754 binary64 bit pattern,
/// times `10^6`, truncated toward zero: the significand is
/// `m` (plus the implicit leading bit for normal values) and the unbiased
/// power-of-two exponent is `e - 1075` against the integer significand.
pub open spec fn f64_bits_scaled(bits: u64) -> int {
    let e = ((bits >> 52) & 0x7FF) as nat;
    let m = (bits & 0xFFFFFFFFFFFFF) as nat;
    let num: nat = if e == 0 {
        m
    } else {
        (m + 0x10000000000000) as nat
    };
    let mag: int = if e >= 1075 {
        (num * 1000000 * pow2((e - 1075) as nat)) as int
    } else {
        let sh: nat = if e == 0 {
            1074
        } else {
            (1075 - e) as nat
        };
        ((num * 1000000) as int) / (pow2(sh) as int)
    };
    if bits >> 63 == 1 {
        -mag
    } else {
        mag
    }
}

impl Dec {
    /// Decode an IEEE-754 binary64 bit pattern into a saturating
    /// fixed-point value, truncating toward zero at the sixth fractional
    /// digit. Infinities and NaNs decode to nothing; callers fall back to
    /// zero, the documented conversion policy.
    pub fn from_f64_bits(bits: u64) -> (r: Option<Dec>)
        ensures
            match r {
                Some(d) => f64_bits_finite(bits) && d@ == d_clip(f64_bits_scaled(bits)),
                None => !f64_bits_finite(bits),
            },
    {
        let e: u64 = (bits >> 52) & 0x7FF;
        let m: u64 = bits & 0xFFFFFFFFFFFFF;
        if e == 0x7FF {
            return None;
        }
        let neg: bool = (bits >> 63) == 1;
        let num: u128 = if e == 0 {
            m as u128
        } else {
            (m as u128) + 0x10000000000000u128
        };
        proof {
            assert(bits & 0xFFFFFFFFFFFFF <= 0xFFFFFFFFFFFFFu64) by (bit_vector);
            assert(num <= 0x20000000000000u128);
        }
        if num == 0 {
            proof {
                lemma_pow2_pos(1074);
                if e >= 1075 {
                }
            }
            return Some(Dec { units: 0 });
        }
        let base: u128 = num * 1_000_000u128;
        let mag: u128 = if e >= 1075 {
            let ex: u64 = e - 1075;
            if ex >= 41 {
                proof {
                    lemma2_to64_rest();
                    if ex > 41 {
                        lemma_pow2_strictly_increases(41, ex as nat);
                    }
                    assert(pow2(41) >= 0x20000000000);
                    assert(num * 1000000 * pow2(ex as nat)
                        >= 1000000 * 0x20000000000) by (nonlinear_arith)
                        requires
                            num >= 1,
                            pow2(ex as nat) >= 0x20000000000,
                    ;
                }
                // Beyond the representable range: saturate.
                2_000_000_000_000_000_000u128
            } else {
                let mut v: u128 = base;
                let mut i: u64 = 0;
                proof {
                    lemma2_to64();
                }
                while i < ex
                    invariant
                        i <= ex,
                        ex <= 40,
                        base <= 0x20000000000000u128 * 1000000,
                        v == base * pow2(i as nat),
                    decreases ex - i,
                {
                    proof {
                        lemma2_to64_rest();
                        if (i as nat) < 40 {
                            lemma_pow2_strictly_increases(i as nat, 40);
                        }
                        assert(base * pow2(i as nat) <= 0x20000000000000u128 * 1000000
                            * 0x10000000000) by (nonlinear_arith)
                            requires
                                base <= 0x20000000000000u128 * 1000000,
                                pow2(i as nat) <= 0x10000000000,
                        ;
                    }
                    let ghost p_prev: nat = pow2(i as nat);
                    v = v * 2;
                    i += 1;
                    proof {
                        lemma_pow2_adds((i - 1) as nat, 1);
                        lemma2_to64();
                        assert(pow2(i as nat) == p_prev * 2);
                        assert(v == base * (p_prev * 2)) by (nonlinear_arith)
                            requires
                                v == (base * p_prev) * 2,
                        ;
                    }
                }
                v
            }
        } else {
            let sh: u64 = if e == 0 {
                1074
            } else {
                1075 - e
            };
            let mut v: u128 = base;
            let mut i: u64 = 0;
            proof {
                lemma2_to64();
                assert(v as int == (base as int) / (pow2(0) as int));
            }
            while i < sh
                invariant
                    i <= sh,
                    base <= 0x20000000000000u128 * 1000000,
                    v <= base,
                    v as int == (base as int) / (pow2(i as nat) as int),
                decreases sh - i,
            {
                proof {
                    lemma_pow2_pos(i as nat);
                    lemma_div_denominator(base as int, pow2(i as nat) as int, 2);
                    lemma_pow2_adds(i as nat, 1);
                    lemma2_to64();
                }
                v = v / 2;
                i += 1;
            }
            v
        };
        let clipped: i128 = if mag > DEC_MAX_UNITS as u128 {
            DEC_MAX_UNITS
        } else {
            mag as i128
        };
        if neg {
            Some(Dec { units: -clipped })
        } else {
            Some(Dec { units: clipped })
        }
    }
}


/// The floor operation yields a whole number of units and never exceeds
/// its argument.
pub proof fn lemma_floor_whole(a: int)
    ensures
        d_floor(a) % 1000000 == 0,
        d_floor(a) <= a,
{
    if a >= 0 {
        let k = a / 1000000;
        lemma_mod_multiples_basic(k, 1000000);
        lemma_fundamental_div_mod(a, 1000000);
    } else {
        let b = -a;
        let c = (b + 1000000 - 1) / 1000000;
        lemma_mod_multiples_basic(-c, 1000000);
        lemma_fundamental_div_mod(b + 1000000 - 1, 1000000);
        assert((-c) * 1000000 == -(c * 1000000)) by (nonlinear_arith);
        assert(((-c) * 1000000) % 1000000 == 0);
        assert(c * 1000000 >= b);
    }
}

/// The whole-share bound: a non-negative quantity at or below the
/// saturating quotient `budget / price` spends at most the budget, in
/// saturating fixed-point.
pub proof fn lemma_affordable(q: int, price: int, budget: int)
    requires
        price > 0,
        budget >= 0,
        q <= d_div(budget, price),
    ensures
        d_mul(q, price) <= budget,
{
    if q <= 0 {
        assert(abs_i(q) * abs_i(price) >= 0) by (nonlinear_arith)
            requires
                abs_i(q) >= 0,
                abs_i(price) >= 0,
        ;
        vstd::arithmetic::div_mod::lemma_div_pos_is_pos(abs_i(q) * abs_i(price), 1000000);
        let m = (abs_i(q) * abs_i(price)) / 1000000;
        if q == 0 {
            assert(abs_i(q) * abs_i(price) == 0) by (nonlinear_arith)
                requires
                    abs_i(q) == 0,
            ;
            assert(m == 0);
            assert(d_mul(q, price) == 0);
        } else {
            assert(d_mul(q, price) == d_clip(-m));
            assert(d_clip(-m) <= 0);
        }
    } else {
        let a = (budget * 1000000) / price;
        assert(budget * 1000000 >= 0) by (nonlinear_arith)
            requires
                budget >= 0,
        ;
        vstd::arithmetic::div_mod::lemma_div_pos_is_pos(budget * 1000000, price);
        // d_div clips the non-negative quotient downward only.
        assert(d_div(budget, price) <= a);
        assert(q <= a);
        // q * price <= a * price <= budget * 10^6
        assert(q * price <= a * price) by (nonlinear_arith)
            requires
                q <= a,
                price > 0,
        ;
        lemma_fundamental_div_mod(budget * 1000000, price);
        vstd::arithmetic::div_mod::lemma_mod_bound(budget * 1000000, price);
        assert(a * price <= budget * 1000000) by (nonlinear_arith)
            requires
                budget * 1000000 == price * a + (budget * 1000000) % price,
                (budget * 1000000) % price >= 0,
        ;
        assert(q * price <= budget * 1000000);
        lemma_div_is_ordered(q * price, budget * 1000000, 1000000);
        assert((budget * 1000000) / 1000000 == budget) by {
            vstd::arithmetic::div_mod::lemma_div_multiples_vanish(budget, 1000000);
        }
        assert((q * price) / 1000000 <= budget);
        assert(abs_i(q) * abs_i(price) == q * price) by (nonlinear_arith)
            requires
                q > 0,
                price > 0,
        ;
    }
}

} // verus!
