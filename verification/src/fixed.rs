//! Signed 16-bit fixed-point numbers with 8 fractional bits.

use vstd::prelude::*;

verus! {

/// The raw value of 1.0.
pub const FIXED_ONE: i16 = 256;

/// `x` wrapped into the range of `i16`, as two's complement arithmetic does.
pub open spec fn wrap_i16(x: int) -> int {
    (x + 32768) % 65536 - 32768
}

/// Division that rounds toward zero, as Rust's `/` on signed integers does.
pub open spec fn div_trunc(a: int, b: int) -> int {
    if a == 0 {
        0
    } else if a > 0 && b > 0 {
        a / b
    } else if a < 0 && b < 0 {
        (-a) / (-b)
    } else if a < 0 {
        -((-a) / b)
    } else {
        -(a / (-b))
    }
}

/// A fixed-point number: `raw / 256`, with 7 integral bits, 8 fractional
/// bits and a sign bit.
#[derive(Clone, Copy, PartialEq, Eq, Structural, Debug)]
pub struct Fixed(pub i16);

impl Fixed {
    /// The integral part, rounded toward negative infinity.
    pub open spec fn int_part(self) -> int {
        self.0 as int / 256
    }

    /// The fractional part in 256ths, always in `0..256`.
    pub open spec fn frac_part(self) -> int {
        self.0 as int % 256
    }

    /// 0.0
    pub fn zero() -> (r: Fixed)
        ensures
            r.0 == 0,
    {
        Fixed(0)
    }

    /// 1.0
    pub fn one() -> (r: Fixed)
        ensures
            r.0 == 256,
    {
        Fixed(FIXED_ONE)
    }

    /// Converts an integer to fixed point.
    pub fn from_int(x: i8) -> (r: Fixed)
        ensures
            r.0 == x * 256,
            r.int_part() == x,
            r.frac_part() == 0,
    {
        Fixed((x as i16) * 256)
    }

    /// The integral part, keeping the sign: the raw value shifted right by
    /// the number of fractional bits.
    pub fn to_int_lossy(self) -> (r: i16)
        ensures
            r == self.int_part(),
            -128 <= r <= 127,
    {
        let x = self.0;
        proof {
            assert(x >> 8u32 == x / 256) by (bit_vector);
        }
        x >> 8
    }

    /// The fractional part as a non-negative fixed-point number.
    pub fn fract(self) -> (r: Fixed)
        ensures
            r.0 == self.frac_part(),
            0 <= r.0 < 256,
            r.int_part() == 0,
    {
        let x = self.0;
        proof {
            assert(x & 0xff == x % 256) by (bit_vector);
        }
        Fixed(x & 0xff)
    }

    /// Sum, wrapping around on overflow.
    pub fn plus(self, other: Fixed) -> (r: Fixed)
        ensures
            r.0 == wrap_i16(self.0 + other.0),
    {
        Fixed(self.0.wrapping_add(other.0))
    }

    /// Difference, wrapping around on overflow.
    pub fn minus(self, other: Fixed) -> (r: Fixed)
        ensures
            r.0 == wrap_i16(self.0 - other.0),
    {
        Fixed(self.0.wrapping_sub(other.0))
    }

    /// Product, keeping 8 fractional bits (rounding toward negative
    /// infinity), wrapping around on overflow.
    pub fn times(self, other: Fixed) -> (r: Fixed)
        ensures
            r.0 == wrap_i16((self.0 * other.0) / 256),
    {
        let a: i32 = self.0 as i32;
        let b: i32 = other.0 as i32;
        proof {
            assert(-1073741824 <= a * b <= 1073741824) by (nonlinear_arith)
                requires -32768 <= a <= 32767, -32768 <= b <= 32767;
        }
        let c: i32 = a * b;
        let q: i32 = c >> 8;
        proof {
            assert(c >> 8u32 == c / 256) by (bit_vector);
            assert((q as i16) == (q + 32768) % 65536 - 32768) by (bit_vector)
                requires -4194304 <= q <= 4194304;
        }
        Fixed(#[verifier::truncate] (q as i16))
    }

    /// Quotient by an integer, rounded toward zero, wrapping around on
    /// overflow.
    pub fn div_by(self, d: i8) -> (r: Fixed)
        requires
            d != 0,
        ensures
            r.0 == wrap_i16(div_trunc(self.0 as int, d as int)),
    {
        let a: i32 = self.0 as i32;
        let b: i32 = d as i32;
        let q: i32 = a.checked_div(b).unwrap();
        proof {
            assert(-32768 <= q <= 32768) by (nonlinear_arith)
                requires q == div_trunc(a as int, b as int), -32768 <= a <= 32767, b != 0, -128 <= b <= 127;
            assert((q as i16) == (q + 32768) % 65536 - 32768) by (bit_vector)
                requires -32768 <= q <= 32768;
        }
        Fixed(#[verifier::truncate] (q as i16))
    }
}

/// The integral part times 256 plus the fractional part is the value:
/// `to_int_lossy` and `fract` split a number without loss.
pub proof fn law_int_fract_split(x: Fixed)
    ensures
        x.int_part() * 256 + x.frac_part() == x.0,
        0 <= x.frac_part() < 256,
        -128 <= x.int_part() <= 127,
{
}

/// Converting an integer to fixed point and taking the integral part gives
/// the integer back.
pub proof fn law_from_int_round_trip(x: i8)
    ensures
        Fixed((x * 256) as i16).int_part() == x,
        Fixed((x * 256) as i16).frac_part() == 0,
{
}

/// Adding and then subtracting the same number gives the start value back,
/// overflow included.
pub proof fn law_plus_minus_cancel(x: Fixed, y: Fixed)
    ensures
        wrap_i16(wrap_i16(x.0 + y.0) - y.0) == x.0,
{
}

/// `wrap_i16` is two's complement wrapping: it lands in the range of `i16`,
/// differs from its argument by a multiple of 2^16, and leaves values in
/// range alone.
pub proof fn law_wrap_i16_is_twos_complement(x: int)
    ensures
        -32768 <= wrap_i16(x) <= 32767,
        (x - wrap_i16(x)) % 65536 == 0,
        -32768 <= x <= 32767 ==> wrap_i16(x) == x,
{
    vstd::arithmetic::div_mod::lemma_fundamental_div_mod(x + 32768, 65536);
    vstd::arithmetic::div_mod::lemma_mod_multiples_basic((x + 32768) / 65536, 65536);
    assert(x - wrap_i16(x) == 65536 * ((x + 32768) / 65536));
    assert((65536 * ((x + 32768) / 65536)) % 65536 == 0) by {
        vstd::arithmetic::mul::lemma_mul_is_commutative(65536, (x + 32768) / 65536);
    }
}

/// `div_trunc` rounds toward zero: the remainder `a − q·b` has the sign of
/// `a` (or is zero) and is smaller than `b` in size.
pub proof fn law_div_trunc_rounds_toward_zero(a: int, b: int)
    requires
        b != 0,
    ensures
        ({
            let r = a - div_trunc(a, b) * b;
            &&& a >= 0 ==> 0 <= r
            &&& a <= 0 ==> r <= 0
            &&& b > 0 ==> -b < r < b
            &&& b < 0 ==> b < r < -b
        }),
{
    let q = div_trunc(a, b);
    if a == 0 {
    } else if a > 0 && b > 0 {
        vstd::arithmetic::div_mod::lemma_fundamental_div_mod(a, b);
        assert(q * b == b * q) by (nonlinear_arith);
    } else if a < 0 && b < 0 {
        vstd::arithmetic::div_mod::lemma_fundamental_div_mod(-a, -b);
        assert(q * b == -((-b) * q)) by (nonlinear_arith);
    } else if a < 0 {
        vstd::arithmetic::div_mod::lemma_fundamental_div_mod(-a, b);
        assert(q * b == -(b * ((-a) / b))) by (nonlinear_arith)
            requires q == -((-a) / b);
    } else {
        vstd::arithmetic::div_mod::lemma_fundamental_div_mod(a, -b);
        assert(q * b == (-b) * (a / (-b))) by (nonlinear_arith)
            requires q == -(a / (-b));
    }
}

} // verus!
