//! Fixed-point numbers.
//!
//! Every measured quantity of a match (positions, speeds, skills, scores, probabilities) is a
//! [`Scalar`]: a signed count of millionths. Sums, differences, products and quotients are the
//! exact results, cut towards zero to a whole number of millionths and held inside the range of
//! `i64`. All operations are total.
use core::ops::Add;
use core::ops::Div;
use core::ops::Mul;
use core::ops::Sub;
use std::cmp::Ordering;
use vstd::prelude::*;
use vstd::std_specs::cmp::PartialOrdSpecImpl;

verus! {

/// Millionths in one unit.
pub const SCALE: i64 = 1_000_000;

/// A number held as a count of millionths.
#[derive(Clone, Copy, PartialEq, Eq, Structural, Debug)]
pub struct Scalar {
    pub raw: i64,
}

/// The value of `i64` nearest to `v`.
pub open spec fn saturate(v: int) -> i64 {
    if v > i64::MAX {
        i64::MAX
    } else if v < i64::MIN {
        i64::MIN
    } else {
        v as i64
    }
}

/// The distance of `v` from zero.
pub open spec fn size(v: int) -> int {
    if v < 0 {
        -v
    } else {
        v
    }
}

/// The quotient of `a` by a positive `b`, cut towards zero.
pub open spec fn cut_div(a: int, b: int) -> int {
    if a < 0 {
        -((-a) / b)
    } else {
        a / b
    }
}

/// The largest integer whose square is at most `n`, for `n` from 0 on.
pub open spec fn is_floor_root(root: int, n: int) -> bool {
    0 <= root && root * root <= n < (root + 1) * (root + 1)
}

/// The floor of the square root of `n`.
pub open spec fn floor_root(n: int) -> int {
    choose|root: int| is_floor_root(root, n)
}

/// There is at most one floor of a square root.
pub proof fn floor_root_unique(a: int, b: int, n: int)
    requires
        is_floor_root(a, n),
        is_floor_root(b, n),
    ensures
        a == b,
{
    if a < b {
        assert((a + 1) * (a + 1) <= b * b) by (nonlinear_arith)
            requires
                0 <= a < b,
        ;
    } else if b < a {
        assert((b + 1) * (b + 1) <= a * a) by (nonlinear_arith)
            requires
                0 <= b < a,
        ;
    }
}

/// Every number from 0 on has a floor of its square root.
proof fn has_floor_root(n: int)
    requires
        0 <= n,
    ensures
        exists|root: int| is_floor_root(root, n),
    decreases n,
{
    if n == 0 {
        assert(is_floor_root(0, 0));
    } else {
        let before = n - 1;
        has_floor_root(before);
        let root = choose|root: int| is_floor_root(root, before);
        if n < (root + 1) * (root + 1) {
            assert(is_floor_root(root, n));
        } else {
            assert((root + 1) * (root + 1) < (root + 2) * (root + 2)) by (nonlinear_arith)
                requires
                    0 <= root,
            ;
            assert(is_floor_root(root + 1, n));
        }
    }
}

/// `floor_root` gives the floor of the square root.
pub proof fn floor_root_holds(n: int)
    requires
        0 <= n,
    ensures
        is_floor_root(floor_root(n), n),
{
    has_floor_root(n);
}

/// Holds a wide integer inside the range of `i64`.
fn narrow(v: i128) -> (r: i64)
    ensures
        r == saturate(v as int),
{
    if v > 9_223_372_036_854_775_807i128 {
        i64::MAX
    } else if v < -9_223_372_036_854_775_808i128 {
        i64::MIN
    } else {
        v as i64
    }
}

/// The size of a 64-bit integer.
pub(crate) fn size_of_raw(v: i64) -> (r: u128)
    ensures
        r == size(v as int),
        r <= 0x8000_0000_0000_0000,
{
    if v < 0 {
        (-(v as i128)) as u128
    } else {
        v as u128
    }
}

/// Puts a sign on a magnitude and holds the result inside the range of `i64`.
pub(crate) fn signed(negative: bool, magnitude: u128) -> (r: i64)
    ensures
        r == saturate(if negative { -(magnitude as int) } else { magnitude as int }),
{
    if magnitude > 0x8000_0000_0000_0000u128 {
        if negative {
            i64::MIN
        } else {
            i64::MAX
        }
    } else {
        let wide: i128 = magnitude as i128;
        if negative {
            narrow(-wide)
        } else {
            narrow(wide)
        }
    }
}

/// The floor of the square root of `n`, by halving the interval that holds it.
pub(crate) fn root_of(n: u128) -> (r: u64)
    ensures
        is_floor_root(r as int, n as int),
        r == floor_root(n as int),
{
    let mut low: u128 = 0;
    let mut high: u128 = 0x1_0000_0000_0000_0000;
    assert(0x1_0000_0000_0000_0000int * 0x1_0000_0000_0000_0000int > u128::MAX);
    while high - low > 1
        invariant
            low < high <= 0x1_0000_0000_0000_0000,
            low * low <= n,
            n < high * high,
        decreases high - low,
    {
        let middle: u128 = low + (high - low) / 2;
        assert(middle * middle <= u128::MAX) by (nonlinear_arith)
            requires
                0 <= middle <= 0xffff_ffff_ffff_ffff,
        ;
        if middle * middle <= n {
            low = middle;
        } else {
            high = middle;
        }
    }
    assert(high == low + 1);
    assert(is_floor_root(low as int, n as int));
    proof {
        let chosen = floor_root(n as int);
        floor_root_unique(low as int, chosen, n as int);
    }
    low as u64
}

impl Scalar {
    pub open spec fn spec_add(self, other: Scalar) -> Scalar {
        Scalar { raw: saturate(self.raw + other.raw) }
    }

    pub open spec fn spec_sub(self, other: Scalar) -> Scalar {
        Scalar { raw: saturate(self.raw - other.raw) }
    }

    pub open spec fn spec_mul(self, other: Scalar) -> Scalar {
        Scalar { raw: saturate(cut_div(self.raw * other.raw, SCALE as int)) }
    }

    /// Quotients by zero lie at the end of the range on the side of the dividend; zero by zero
    /// is zero.
    pub open spec fn spec_euclidean_or_real_div(self, other: Scalar) -> Scalar {
        if other.raw > 0 {
            Scalar { raw: saturate(cut_div(self.raw * SCALE, other.raw as int)) }
        } else if other.raw < 0 {
            Scalar { raw: saturate(cut_div(-(self.raw * SCALE), -(other.raw as int))) }
        } else if self.raw > 0 {
            Scalar { raw: i64::MAX }
        } else if self.raw < 0 {
            Scalar { raw: i64::MIN }
        } else {
            Scalar { raw: 0 }
        }
    }

    pub open spec fn spec_lt(self, other: Scalar) -> bool {
        self.raw < other.raw
    }

    pub open spec fn spec_le(self, other: Scalar) -> bool {
        self.raw <= other.raw
    }

    pub open spec fn spec_gt(self, other: Scalar) -> bool {
        self.raw > other.raw
    }

    pub open spec fn spec_ge(self, other: Scalar) -> bool {
        self.raw >= other.raw
    }
}

impl Add for Scalar {
    type Output = Scalar;

    fn add(self, other: Scalar) -> (r: Scalar) {
        Scalar { raw: narrow(self.raw as i128 + other.raw as i128) }
    }
}

impl vstd::std_specs::ops::AddSpecImpl for Scalar {
    open spec fn obeys_add_spec() -> bool {
        true
    }

    open spec fn add_req(self, other: Scalar) -> bool {
        true
    }

    open spec fn add_spec(self, other: Scalar) -> Scalar {
        self + other
    }
}

impl Sub for Scalar {
    type Output = Scalar;

    fn sub(self, other: Scalar) -> (r: Scalar) {
        Scalar { raw: narrow(self.raw as i128 - other.raw as i128) }
    }
}

impl vstd::std_specs::ops::SubSpecImpl for Scalar {
    open spec fn obeys_sub_spec() -> bool {
        true
    }

    open spec fn sub_req(self, other: Scalar) -> bool {
        true
    }

    open spec fn sub_spec(self, other: Scalar) -> Scalar {
        self - other
    }
}

impl Mul for Scalar {
    type Output = Scalar;

    fn mul(self, other: Scalar) -> (r: Scalar) {
        let a: u128 = size_of_raw(self.raw);
        let b: u128 = size_of_raw(other.raw);
        assert(a * b <= 0x8000_0000_0000_0000 * 0x8000_0000_0000_0000) by (nonlinear_arith)
            requires
                0 <= a <= 0x8000_0000_0000_0000,
                0 <= b <= 0x8000_0000_0000_0000,
        ;
        assert(a * b >= 0) by (nonlinear_arith)
            requires
                0 <= a,
                0 <= b,
        ;
        let product: u128 = a * b;
        let negative: bool = (self.raw < 0) != (other.raw < 0);
        let r = Scalar { raw: signed(negative, product / 1_000_000u128) };
        proof {
            let x = self.raw as int;
            let y = other.raw as int;
            assert(x * y == if negative { -(product as int) } else { product as int })
                by (nonlinear_arith)
                requires
                    a == size(x),
                    b == size(y),
                    product == a * b,
                    negative == ((x < 0) != (y < 0)),
            ;
        }
        r
    }
}

impl vstd::std_specs::ops::MulSpecImpl for Scalar {
    open spec fn obeys_mul_spec() -> bool {
        true
    }

    open spec fn mul_req(self, other: Scalar) -> bool {
        true
    }

    open spec fn mul_spec(self, other: Scalar) -> Scalar {
        self * other
    }
}

impl Div for Scalar {
    type Output = Scalar;

    fn div(self, other: Scalar) -> (r: Scalar) {
        if other.raw == 0 {
            if self.raw > 0 {
                Scalar { raw: i64::MAX }
            } else if self.raw < 0 {
                Scalar { raw: i64::MIN }
            } else {
                Scalar { raw: 0 }
            }
        } else {
            let a: u128 = size_of_raw(self.raw) * 1_000_000u128;
            let b: u128 = size_of_raw(other.raw);
            let negative: bool = (self.raw < 0) != (other.raw < 0);
            let quotient: u128 = a / b;
            proof {
                if a == 0 {
                    assert(0int / (b as int) == 0) by (nonlinear_arith)
                        requires
                            b > 0,
                    ;
                }
            }
            Scalar { raw: signed(negative, quotient) }
        }
    }
}

impl vstd::std_specs::ops::DivSpecImpl for Scalar {
    open spec fn obeys_div_spec() -> bool {
        true
    }

    open spec fn div_req(self, other: Scalar) -> bool {
        true
    }

    open spec fn div_spec(self, other: Scalar) -> Scalar {
        self / other
    }
}

impl PartialOrd for Scalar {
    fn partial_cmp(&self, other: &Scalar) -> (r: Option<Ordering>) {
        if self.raw < other.raw {
            Some(Ordering::Less)
        } else if self.raw > other.raw {
            Some(Ordering::Greater)
        } else {
            Some(Ordering::Equal)
        }
    }
}

impl PartialOrdSpecImpl for Scalar {
    open spec fn obeys_partial_cmp_spec() -> bool {
        true
    }

    open spec fn partial_cmp_spec(&self, other: &Scalar) -> Option<Ordering> {
        if self.raw < other.raw {
            Some(Ordering::Less)
        } else if self.raw > other.raw {
            Some(Ordering::Greater)
        } else {
            Some(Ordering::Equal)
        }
    }
}

pub open spec fn spec_units(n: i64) -> Scalar {
    Scalar { raw: saturate(n * SCALE) }
}

/// The whole number `n`.
#[verifier::when_used_as_spec(spec_units)]
pub fn units(n: i64) -> (r: Scalar)
    ensures
        r == spec_units(n),
{
    Scalar { raw: narrow(n as i128 * 1_000_000i128) }
}

pub open spec fn spec_milli(n: i64) -> Scalar {
    Scalar { raw: saturate(n * 1000) }
}

/// `n` thousandths.
#[verifier::when_used_as_spec(spec_milli)]
pub fn milli(n: i64) -> (r: Scalar)
    ensures
        r == spec_milli(n),
{
    Scalar { raw: narrow(n as i128 * 1000i128) }
}

pub open spec fn spec_micro(n: i64) -> Scalar {
    Scalar { raw: n }
}

/// `n` millionths.
#[verifier::when_used_as_spec(spec_micro)]
pub fn micro(n: i64) -> (r: Scalar)
    ensures
        r == spec_micro(n),
{
    Scalar { raw: n }
}

impl Scalar {
    /// Whether the number lies between two others or is one of them.
    pub open spec fn is_between(self, low: Scalar, high: Scalar) -> bool {
        low <= self && self <= high
    }

    pub open spec fn spec_max(self, other: Scalar) -> Scalar {
        if self < other {
            other
        } else {
            self
        }
    }

    /// The greater of two numbers.
    #[verifier::when_used_as_spec(spec_max)]
    pub fn max(self, other: Scalar) -> (r: Scalar)
        ensures
            r == self.spec_max(other),
    {
        if self < other {
            other
        } else {
            self
        }
    }

    pub open spec fn spec_min(self, other: Scalar) -> Scalar {
        if other < self {
            other
        } else {
            self
        }
    }

    /// The lesser of two numbers.
    #[verifier::when_used_as_spec(spec_min)]
    pub fn min(self, other: Scalar) -> (r: Scalar)
        ensures
            r == self.spec_min(other),
    {
        if other < self {
            other
        } else {
            self
        }
    }

    pub open spec fn spec_clamp(self, low: Scalar, high: Scalar) -> Scalar {
        if self < low {
            low
        } else if high < self {
            high
        } else {
            self
        }
    }

    /// The number nearest to this one between `low` and `high`.
    #[verifier::when_used_as_spec(spec_clamp)]
    pub fn clamp(self, low: Scalar, high: Scalar) -> (r: Scalar)
        ensures
            r == self.spec_clamp(low, high),
    {
        if self < low {
            low
        } else if high < self {
            high
        } else {
            self
        }
    }

    pub open spec fn spec_abs(self) -> Scalar {
        Scalar { raw: saturate(size(self.raw as int)) }
    }

    /// The distance from zero.
    #[verifier::when_used_as_spec(spec_abs)]
    pub fn abs(self) -> (r: Scalar)
        ensures
            r == self.spec_abs(),
    {
        Scalar { raw: signed(false, size_of_raw(self.raw)) }
    }

    pub open spec fn spec_negated(self) -> Scalar {
        Scalar { raw: saturate(-self.raw) }
    }

    /// The number on the other side of zero.
    #[verifier::when_used_as_spec(spec_negated)]
    pub fn negated(self) -> (r: Scalar)
        ensures
            r == self.spec_negated(),
    {
        Scalar { raw: narrow(-(self.raw as i128)) }
    }

    pub open spec fn spec_sqrt(self) -> Scalar {
        if self.raw <= 0 {
            Scalar { raw: 0 }
        } else {
            Scalar { raw: saturate(floor_root(self.raw * SCALE)) }
        }
    }

    /// The square root, cut to a whole number of millionths; zero for numbers below zero.
    #[verifier::when_used_as_spec(spec_sqrt)]
    pub fn sqrt(self) -> (r: Scalar)
        ensures
            r == self.spec_sqrt(),
    {
        if self.raw <= 0 {
            Scalar { raw: 0 }
        } else {
            let wide: u128 = size_of_raw(self.raw) * 1_000_000u128;
            Scalar { raw: signed(false, root_of(wide) as u128) }
        }
    }

    pub open spec fn spec_whole(self) -> i64 {
        cut_div(self.raw as int, SCALE as int) as i64
    }

    /// The whole part, cut towards zero.
    #[verifier::when_used_as_spec(spec_whole)]
    pub fn whole(self) -> (r: i64)
        ensures
            r == self.spec_whole(),
    {
        signed(self.raw < 0, size_of_raw(self.raw) / 1_000_000u128)
    }

    pub open spec fn spec_round(self) -> Scalar {
        if self.raw < 0 {
            units((self - milli(500)).whole())
        } else {
            units((self + milli(500)).whole())
        }
    }

    /// The nearest whole number; halves go away from zero.
    #[verifier::when_used_as_spec(spec_round)]
    pub fn round(self) -> (r: Scalar)
        ensures
            r == self.spec_round(),
    {
        if self.raw < 0 {
            units((self - milli(500)).whole())
        } else {
            units((self + milli(500)).whole())
        }
    }
}

/// Cutting keeps the order.
proof fn cut_div_keeps_order(a: int, b: int, d: int)
    requires
        a <= b,
        d > 0,
    ensures
        cut_div(a, d) <= cut_div(b, d),
{
    if a < 0 && b < 0 {
        vstd::arithmetic::div_mod::lemma_div_is_ordered(-b, -a, d);
    } else if a >= 0 {
        vstd::arithmetic::div_mod::lemma_div_is_ordered(a, b, d);
    } else {
        vstd::arithmetic::div_mod::lemma_div_pos_is_pos(-a, d);
        vstd::arithmetic::div_mod::lemma_div_pos_is_pos(b, d);
    }
}

/// Multiplying by a number from zero on keeps the order.
pub proof fn product_keeps_order(factor: Scalar, a: Scalar, b: Scalar)
    requires
        units(0) <= factor,
        a <= b,
    ensures
        factor * a <= factor * b,
{
    assert(factor.raw * a.raw <= factor.raw * b.raw) by (nonlinear_arith)
        requires
            0 <= factor.raw,
            a.raw <= b.raw,
    ;
    cut_div_keeps_order(factor.raw * a.raw, factor.raw * b.raw, SCALE as int);
}

/// The order of the factors does not matter.
pub proof fn product_commutes(a: Scalar, b: Scalar)
    ensures
        a * b == b * a,
{
    assert(a.raw * b.raw == b.raw * a.raw) by (nonlinear_arith);
}

/// A whole multiple is exact as long as it fits.
pub proof fn multiple_is_exact(a: Scalar, n: i64)
    requires
        units(0) <= a,
        0 <= n <= 1_000_000,
        a.raw * n <= i64::MAX,
    ensures
        (a * units(n)).raw == a.raw * n,
{
    let k: int = n as int;
    assert(a.raw * (k * 1_000_000) == a.raw * k * 1_000_000) by (nonlinear_arith);
    assert(0 <= a.raw * k) by (nonlinear_arith)
        requires
            0 <= a.raw,
            0 <= k,
    ;
    assert(a.raw * k * 1_000_000 / 1_000_000 == a.raw * k);
}

/// A share of a share is a share.
pub proof fn share_of_share(a: Scalar, b: Scalar)
    requires
        a.is_between(units(0), units(1)),
        b.is_between(units(0), units(1)),
    ensures
        (a * b).is_between(units(0), units(1)),
{
    product_keeps_order(a, units(0), b);
    product_keeps_order(a, b, units(1));
}

/// Dividing by a number above zero keeps the order.
pub proof fn quotient_keeps_order(a: Scalar, b: Scalar, divisor: Scalar)
    requires
        units(0) < divisor,
        a <= b,
    ensures
        a / divisor <= b / divisor,
{
    cut_div_keeps_order(a.raw * SCALE, b.raw * SCALE, divisor.raw as int);
}

/// Multiplying by a number from zero on keeps the order, whichever factor comes first.
pub proof fn scaling_keeps_order(a: Scalar, b: Scalar, factor: Scalar)
    requires
        units(0) <= factor,
        a <= b,
    ensures
        a * factor <= b * factor,
{
    product_keeps_order(factor, a, b);
    product_commutes(a, factor);
    product_commutes(b, factor);
}

/// Multiplying by one changes nothing.
pub proof fn one_changes_nothing(a: Scalar)
    ensures
        a * units(1) == a,
        units(1) * a == a,
{
    let x: int = a.raw as int;
    assert(x * 1_000_000 == 1_000_000 * x);
    if x < 0 {
        assert((-(x * 1_000_000)) / 1_000_000 == -x);
    } else {
        assert((x * 1_000_000) / 1_000_000 == x);
    }
}

/// Dividing a number from zero on by a greater one gives no more.
pub proof fn greater_divisor_gives_less(a: Scalar, small: Scalar, great: Scalar)
    requires
        units(0) <= a,
        units(0) < small,
        small <= great,
    ensures
        a / great <= a / small,
{
    let x: int = a.raw * SCALE;
    let s: int = small.raw as int;
    let g: int = great.raw as int;
    assert(x / g <= x / s) by (nonlinear_arith)
        requires
            0 <= x,
            0 < s <= g,
    ;
    assert(0 <= x / g) by (nonlinear_arith)
        requires
            0 <= x,
            0 < g,
    ;
}

/// Multiplying by a number from zero on keeps the sign.
pub proof fn product_keeps_sign(a: Scalar, factor: Scalar)
    requires
        units(0) <= factor,
    ensures
        units(0) <= a ==> units(0) <= a * factor,
        a <= units(0) ==> a * factor <= units(0),
{
    if units(0) <= a {
        scaling_keeps_order(units(0), a, factor);
    }
    if a <= units(0) {
        scaling_keeps_order(a, units(0), factor);
    }
}

/// A greater factor makes more of a number from zero on.
pub proof fn greater_factor_makes_more(a: Scalar, small: Scalar, great: Scalar)
    requires
        units(0) <= a,
        small <= great,
    ensures
        a * small <= a * great,
{
    product_keeps_order(a, small, great);
}

/// So many thousandths of a number from zero on are as much of it, cut to a whole millionth.
pub proof fn thousandths_of(a: Scalar, n: i64)
    requires
        0 <= a.raw <= 10_000_000_000_000_000,
        0 <= n <= 5000,
    ensures
        (a * milli(n)).raw == a.raw * n / 1000,
{
    let x: int = a.raw as int;
    let k: int = n as int;
    assert(milli(n).raw == k * 1000);
    assert(x * (k * 1000) == (x * k) * 1000) by (nonlinear_arith);
    assert(0 <= x * k <= 50_000_000_000_000_000_000) by (nonlinear_arith)
        requires
            0 <= x <= 10_000_000_000_000_000,
            0 <= k <= 5000,
    ;
    assert((x * k) * 1000 / 1_000_000 == (x * k) / 1000);
}

/// Two products with the same factor stay apart by what that factor leaves of the gap, but for the
/// cut of one millionth.
pub proof fn products_stay_apart(less: Scalar, more: Scalar, factor: Scalar)
    requires
        units(0) <= less,
        less <= more,
        units(0) <= factor,
        more <= units(1_000_000),
        factor <= units(1000),
    ensures
        (more * factor).raw - (less * factor).raw
            + 1 >= (more.raw - less.raw) * factor.raw / 1_000_000,
{
    let a: int = more.raw as int;
    let b: int = less.raw as int;
    let f: int = factor.raw as int;
    assert(0 <= b * f <= a * f <= 1_000_000_000_000 * 1_000_000_000) by (nonlinear_arith)
        requires
            0 <= b <= a <= 1_000_000_000_000,
            0 <= f <= 1_000_000_000,
    ;
    assert((a - b) * f == a * f - b * f) by (nonlinear_arith);
}

/// Nothing comes of multiplying by zero.
pub proof fn zero_stays_zero(a: Scalar)
    ensures
        a * units(0) == units(0),
        units(0) * a == units(0),
{
    let x: int = a.raw as int;
    assert(x * 0 == 0 && 0 * x == 0) by (nonlinear_arith);
}

/// A sum of parts that are no less is no less.
pub proof fn sums_keep_order(a: Scalar, b: Scalar, c: Scalar, d: Scalar, e: Scalar, f: Scalar)
    requires
        a <= b,
        c <= d,
        e <= f,
    ensures
        a + c <= b + d,
        a + c + e <= b + d + f,
        a + c - f <= b + d - e,
{
}

/// Multiplying by minus one turns the sign.
pub proof fn minus_one_turns_the_sign(a: Scalar)
    requires
        a.raw > i64::MIN,
    ensures
        a * units(1).negated() == a.negated(),
        units(1).negated() * a == a.negated(),
{
    let x: int = a.raw as int;
    assert(
        x * -1_000_000 == -(x * 1_000_000) && -1_000_000 * x == -(x * 1_000_000)
    ) by (nonlinear_arith);
    assert(crate::scalar::size(-(x * 1_000_000)) / 1_000_000 == crate::scalar::size(x));
}

/// A number above zero divided by itself is one, and zero divided by it zero.
pub proof fn whole_is_one(a: Scalar)
    requires
        units(0) < a,
    ensures
        a / a == units(1),
        units(0) / a == units(0),
{
    let x: int = a.raw as int;
    assert(x * 1_000_000 / x == 1_000_000 && 0int / x == 0) by (nonlinear_arith)
        requires
            x > 0,
    ;
}

} // verus!
