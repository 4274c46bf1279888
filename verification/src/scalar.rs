//! The geometric scalar: a signed fixed-point number counting 1/65536ths of
//! a unit. Every coordinate, dimension and stroke weight in the library is a
//! `Scalar`, so all tessellation arithmetic is exact integer arithmetic.

use vstd::prelude::*;
use vstd::arithmetic::div_mod::lemma_div_is_ordered;
use vstd::arithmetic::div_mod::lemma_div_pos_is_pos;
use vstd::arithmetic::mul::lemma_mul_upper_bound;

verus! {

/// Raw units per whole unit: a `Scalar` with raw value 65536 is `1.0`.
pub const SCALE: i64 = 65536;

/// Largest whole-unit magnitude `from_int` accepts.
pub const INT_MAX: i64 = 1_000_000_000;

/// Largest raw magnitude a scalar may carry while staying safe for
/// tessellation arithmetic (`INT_MAX * SCALE`): any such raw value times a
/// unit-circle coordinate still fits in 64 bits.
pub const RAW_MAX: i64 = 65_536_000_000_000;

/// A whole-number value could not be represented as a `Scalar`.
#[derive(Clone, Copy, Debug, PartialEq, Eq, Structural)]
pub struct ConversionError;

/// Signed fixed-point scalar; the raw value counts 1/65536ths of a unit.
#[derive(Clone, Copy, Debug, PartialEq, Eq, Structural)]
pub struct Scalar {
    raw: i64,
}

impl View for Scalar {
    type V = int;

    closed spec fn view(&self) -> int {
        self.raw as int
    }
}

/// Magnitude of a mathematical integer.
pub open spec fn abs_val(a: int) -> int {
    if a < 0 {
        -a
    } else {
        a
    }
}

/// `(a * c) / (2 * SCALE)`, rounded toward zero; `c` is a unit-circle
/// coordinate in raw units, so this scales `a / 2` by `c / SCALE`.
pub open spec fn scale_by_unit_spec(a: int, c: int) -> int {
    let m = (abs_val(a) * abs_val(c)) / (2 * (SCALE as int));
    if (a < 0) != (c < 0) {
        -m
    } else {
        m
    }
}

impl Scalar {
    /// Small enough for every product the tessellator forms.
    pub open spec fn in_range(self) -> bool {
        -RAW_MAX <= self@ <= RAW_MAX
    }

    /// The scalar zero.
    pub fn zero() -> (r: Scalar)
        ensures
            r@ == 0,
            r.in_range(),
    {
        Scalar { raw: 0 }
    }

    /// Fallible conversion from a whole number of units; rejects magnitudes
    /// beyond what tessellation arithmetic can carry.
    pub fn from_int(units: i64) -> (r: Result<Scalar, ConversionError>)
        ensures
            (r is Ok) <==> (-INT_MAX <= units && units <= INT_MAX),
            r matches Ok(s) ==> s@ == units * SCALE && s.in_range(),
    {
        if -INT_MAX <= units && units <= INT_MAX {
            Ok(Scalar { raw: units * SCALE })
        } else {
            Err(ConversionError)
        }
    }

    /// Build a scalar directly from raw 1/65536th units.
    pub fn from_raw(raw: i64) -> (r: Scalar)
        ensures
            r@ == raw,
    {
        Scalar { raw }
    }

    /// The raw 1/65536th-unit count.
    pub fn to_raw(&self) -> (r: i64)
        ensures
            r == self@,
    {
        self.raw
    }

    /// Sum of two scalars.
    pub fn plus(self, other: Scalar) -> (r: Scalar)
        requires
            self.in_range(),
            other.in_range(),
        ensures
            r@ == self@ + other@,
    {
        Scalar { raw: self.raw + other.raw }
    }

    /// Difference of two scalars.
    pub fn minus(self, other: Scalar) -> (r: Scalar)
        requires
            self.in_range(),
            other.in_range(),
        ensures
            r@ == self@ - other@,
    {
        Scalar { raw: self.raw - other.raw }
    }

    /// Additive inverse.
    pub fn negate(self) -> (r: Scalar)
        requires
            self.in_range(),
        ensures
            r@ == -self@,
    {
        Scalar { raw: -self.raw }
    }

    /// Twice the value.
    pub fn double(self) -> (r: Scalar)
        requires
            -RAW_MAX <= 2 * self@ <= RAW_MAX,
        ensures
            r@ == 2 * self@,
            r.in_range(),
    {
        Scalar { raw: 2 * self.raw }
    }

    /// Strict order on scalar values.
    pub fn less_than(&self, other: &Scalar) -> (r: bool)
        ensures
            r == (self@ < other@),
    {
        self.raw < other.raw
    }
}

/// Two scalars with one view are one value.
pub proof fn lemma_scalar_view_injective(a: Scalar, b: Scalar)
    ensures
        (a@ == b@) <==> (a == b),
{
}

/// Scaling by a unit-circle coordinate never leaves the half-extent:
/// `|a * c / (2 * SCALE)|` is at most `|a| / 2`.
pub proof fn lemma_scale_by_unit_bound(a: int, c: int)
    requires
        -SCALE <= c <= SCALE,
    ensures
        2 * abs_val(scale_by_unit_spec(a, c)) <= abs_val(a),
{
    let s = SCALE as int;
    let prod = abs_val(a) * abs_val(c);
    let m = prod / (2 * s);
    assert(prod <= abs_val(a) * s) by (nonlinear_arith)
        requires
            0 <= abs_val(a),
            abs_val(c) <= s,
            prod == abs_val(a) * abs_val(c),
    ;
    lemma_div_pos_is_pos(prod, 2 * s);
    vstd::arithmetic::div_mod::lemma_fundamental_div_mod(prod, 2 * s);
    assert(2 * s * m <= abs_val(a) * s);
    assert(2 * m <= abs_val(a)) by (nonlinear_arith)
        requires
            0 < s,
            2 * s * m <= abs_val(a) * s,
    ;
}

/// Scale `a` by `c / (2 * SCALE)` where `c` is a raw unit-circle coordinate:
/// the x step of ellipse sampling, `width * cos / (2 * SCALE)`.
pub(crate) fn scale_by_unit(a: Scalar, c: i64) -> (r: Scalar)
    requires
        a.in_range(),
        -SCALE <= c <= SCALE,
    ensures
        r@ == scale_by_unit_spec(a@, c as int),
        r.in_range(),
{
    let neg: bool = (a.raw < 0) != (c < 0);
    let am: u64 = if a.raw < 0 {
        (-a.raw) as u64
    } else {
        a.raw as u64
    };
    let cm: u64 = if c < 0 {
        (-c) as u64
    } else {
        c as u64
    };
    proof {
        lemma_mul_upper_bound(am as int, RAW_MAX as int, cm as int, SCALE as int);
    }
    let prod: u64 = am * cm;
    let m: u64 = prod / (2 * (SCALE as u64));
    proof {
        lemma_div_pos_is_pos(prod as int, 2 * (SCALE as int));
        lemma_div_is_ordered(prod as int, (RAW_MAX as int) * (SCALE as int), 2 * (SCALE as int));
        assert((RAW_MAX as int) * (SCALE as int) == (2 * (SCALE as int)) * 32_768_000_000_000);
        vstd::arithmetic::div_mod::lemma_div_multiples_vanish(
            32_768_000_000_000,
            2 * (SCALE as int),
        );
    }
    let mi: i64 = m as i64;
    if neg {
        Scalar { raw: -mi }
    } else {
        Scalar { raw: mi }
    }
}

} // verus!
