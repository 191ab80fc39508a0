//! Vectors on the pitch.
//!
//! The zero vector has no direction: [`Vec3::direction`] gives none of it, and
//! [`Vec3::normalize`] is not to be asked for one. A spot or a velocity that rests on a missing
//! direction is not a number, and stands as none wherever it can come up.
use crate::scalar::{
    floor_root,
    milli,
    root_of,
    saturate,
    signed,
    size,
    size_of_raw,
    units,
    Scalar,
};
use core::ops::Add;
use core::ops::Mul;
use core::ops::Sub;
use vstd::prelude::*;

verus! {

/// A position, a displacement or a velocity.
#[derive(Clone, Copy, PartialEq, Eq, Structural, Debug)]
pub struct Vec3 {
    pub x: Scalar,
    pub y: Scalar,
    pub z: Scalar,
}

pub open spec fn spec_vec3(x: Scalar, y: Scalar, z: Scalar) -> Vec3 {
    Vec3 { x, y, z }
}

/// The vector with the given components.
#[verifier::when_used_as_spec(spec_vec3)]
pub fn vec3(x: Scalar, y: Scalar, z: Scalar) -> (r: Vec3)
    ensures
        r == spec_vec3(x, y, z),
{
    Vec3 { x, y, z }
}

pub open spec fn spec_flat(x: Scalar, y: Scalar) -> Vec3 {
    Vec3 { x, y, z: units(0) }
}

/// The vector on the ground with the given components.
#[verifier::when_used_as_spec(spec_flat)]
pub fn flat(x: Scalar, y: Scalar) -> (r: Vec3)
    ensures
        r == spec_flat(x, y),
{
    Vec3 { x, y, z: units(0) }
}

impl Vec3 {
    pub open spec fn spec_add(self, other: Vec3) -> Vec3 {
        Vec3 { x: self.x + other.x, y: self.y + other.y, z: self.z + other.z }
    }

    pub open spec fn spec_sub(self, other: Vec3) -> Vec3 {
        Vec3 { x: self.x - other.x, y: self.y - other.y, z: self.z - other.z }
    }

    pub open spec fn spec_mul(self, factor: Scalar) -> Vec3 {
        Vec3 { x: self.x * factor, y: self.y * factor, z: self.z * factor }
    }
}

impl Add for Vec3 {
    type Output = Vec3;

    fn add(self, other: Vec3) -> (r: Vec3) {
        Vec3 { x: self.x + other.x, y: self.y + other.y, z: self.z + other.z }
    }
}

impl vstd::std_specs::ops::AddSpecImpl for Vec3 {
    open spec fn obeys_add_spec() -> bool {
        true
    }

    open spec fn add_req(self, other: Vec3) -> bool {
        true
    }

    open spec fn add_spec(self, other: Vec3) -> Vec3 {
        self + other
    }
}

impl Sub for Vec3 {
    type Output = Vec3;

    fn sub(self, other: Vec3) -> (r: Vec3) {
        Vec3 { x: self.x - other.x, y: self.y - other.y, z: self.z - other.z }
    }
}

impl vstd::std_specs::ops::SubSpecImpl for Vec3 {
    open spec fn obeys_sub_spec() -> bool {
        true
    }

    open spec fn sub_req(self, other: Vec3) -> bool {
        true
    }

    open spec fn sub_spec(self, other: Vec3) -> Vec3 {
        self - other
    }
}

impl Mul<Scalar> for Vec3 {
    type Output = Vec3;

    fn mul(self, factor: Scalar) -> (r: Vec3) {
        Vec3 { x: self.x * factor, y: self.y * factor, z: self.z * factor }
    }
}

impl vstd::std_specs::ops::MulSpecImpl<Scalar> for Vec3 {
    open spec fn obeys_mul_spec() -> bool {
        true
    }

    open spec fn mul_req(self, factor: Scalar) -> bool {
        true
    }

    open spec fn mul_spec(self, factor: Scalar) -> Vec3 {
        self * factor
    }
}

/// The square of the length of `v`, in squared millionths.
pub open spec fn raw_square(v: Vec3) -> int {
    v.x.raw * v.x.raw + v.y.raw * v.y.raw + v.z.raw * v.z.raw
}

/// The square of one component.
fn component_square(v: i64) -> (r: u128)
    ensures
        r == v * v,
        r <= 0x4000_0000_0000_0000_0000_0000_0000_0000,
{
    let a: u128 = size_of_raw(v);
    assert(a * a <= 0x8000_0000_0000_0000 * 0x8000_0000_0000_0000) by (nonlinear_arith)
        requires
            0 <= a <= 0x8000_0000_0000_0000,
    ;
    assert(a * a == v * v) by (nonlinear_arith)
        requires
            a == size(v as int),
    ;
    a * a
}

impl Vec3 {
    pub open spec fn spec_magnitude(self) -> Scalar {
        Scalar { raw: saturate(floor_root(raw_square(self))) }
    }

    /// The length.
    #[verifier::when_used_as_spec(spec_magnitude)]
    pub fn magnitude(self) -> (r: Scalar)
        ensures
            r == self.spec_magnitude(),
            self.is_zero() ==> r.raw == 0,
    {
        proof {
            if self.is_zero() {
                zero_has_no_length(self);
            }
        }
        let square: u128 = component_square(self.x.raw) + component_square(self.y.raw)
            + component_square(self.z.raw);
        Scalar { raw: signed(false, root_of(square) as u128) }
    }

    /// The length fits in a number.
    pub open spec fn is_measurable(self) -> bool {
        floor_root(raw_square(self)) <= i64::MAX
    }

    pub open spec fn spec_dot(self, other: Vec3) -> Scalar {
        self.x * other.x + self.y * other.y + self.z * other.z
    }

    /// The scalar product.
    #[verifier::when_used_as_spec(spec_dot)]
    pub fn dot(self, other: Vec3) -> (r: Scalar)
        ensures
            r == self.spec_dot(other),
    {
        self.x * other.x + self.y * other.y + self.z * other.z
    }

    pub open spec fn spec_norm_squared(self) -> Scalar {
        self.dot(self)
    }

    /// The square of the length.
    #[verifier::when_used_as_spec(spec_norm_squared)]
    pub fn norm_squared(self) -> (r: Scalar)
        ensures
            r == self.spec_norm_squared(),
    {
        self.dot(self)
    }

    pub open spec fn spec_is_zero(self) -> bool {
        self.x.raw == 0 && self.y.raw == 0 && self.z.raw == 0
    }

    /// Whether every component is zero.
    #[verifier::when_used_as_spec(spec_is_zero)]
    pub fn is_zero(self) -> (r: bool)
        ensures
            r == self.spec_is_zero(),
    {
        self.x.raw == 0 && self.y.raw == 0 && self.z.raw == 0
    }

    pub open spec fn spec_normalize(self) -> Vec3 {
        let length = self.magnitude();
        vec3(self.x / length, self.y / length, self.z / length)
    }

    /// The vector of length one in the same direction. The zero vector has none.
    #[verifier::when_used_as_spec(spec_normalize)]
    pub fn normalize(self) -> (r: Vec3)
        requires
            !self.is_zero(),
        ensures
            r == self.spec_normalize(),
    {
        let length = self.magnitude();
        vec3(self.x / length, self.y / length, self.z / length)
    }

    pub open spec fn spec_direction(self) -> Option<Vec3> {
        if self.is_zero() {
            None
        } else {
            Some(self.normalize())
        }
    }

    /// The vector of length one in the same direction; none of the zero vector.
    #[verifier::when_used_as_spec(spec_direction)]
    pub fn direction(self) -> (r: Option<Vec3>)
        ensures
            r == self.spec_direction(),
    {
        if self.is_zero() { None } else { Some(self.normalize()) }
    }

    pub open spec fn spec_distance_to(self, other: Vec3) -> Scalar {
        (self - other).magnitude()
    }

    /// The length of the way between two positions.
    #[verifier::when_used_as_spec(spec_distance_to)]
    pub fn distance_to(self, other: Vec3) -> (r: Scalar)
        ensures
            r == self.spec_distance_to(other),
    {
        (self - other).magnitude()
    }
}

/// The square of a length is not below zero.
pub proof fn square_is_not_negative(v: Vec3)
    ensures
        0 <= raw_square(v),
{
    assert(0 <= v.x.raw * v.x.raw && 0 <= v.y.raw * v.y.raw && 0 <= v.z.raw * v.z.raw)
        by (nonlinear_arith);
}

/// The zero vector has length zero.
pub proof fn zero_has_no_length(v: Vec3)
    requires
        v.is_zero(),
    ensures
        v.magnitude().raw == 0,
{
    assert(raw_square(v) == 0);
    crate::scalar::floor_root_holds(0);
    crate::scalar::floor_root_unique(floor_root(0), 0, 0);
}

/// A length is not below zero.
pub proof fn length_is_not_negative(v: Vec3)
    ensures
        units(0) <= v.magnitude(),
{
    square_is_not_negative(v);
    crate::scalar::floor_root_holds(raw_square(v));
}

/// A vector whose square stays below that of the next length is no longer than the given one.
pub proof fn short_vector(v: Vec3, length: Scalar)
    requires
        units(0) <= length,
        raw_square(v) < (length.raw + 1) * (length.raw + 1),
    ensures
        v.magnitude() <= length,
{
    let root = floor_root(raw_square(v));
    square_is_not_negative(v);
    crate::scalar::floor_root_holds(raw_square(v));
    assert(root <= length.raw) by (nonlinear_arith)
        requires
            0 <= root,
            root * root < (length.raw + 1) * (length.raw + 1),
            0 <= length.raw,
    ;
}

pub open spec fn spec_alignment(a: Vec3, b: Vec3) -> Option<Scalar> {
    if a.is_zero() || b.is_zero() {
        None
    } else {
        Some(a.normalize().dot(b.normalize()))
    }
}

/// The cosine of the angle between two vectors; none where one of them has no direction.
#[verifier::when_used_as_spec(spec_alignment)]
pub fn alignment(a: Vec3, b: Vec3) -> (r: Option<Scalar>)
    ensures
        r == spec_alignment(a, b),
{
    if a.is_zero() || b.is_zero() {
        None
    } else {
        Some(a.normalize().dot(b.normalize()))
    }
}

pub open spec fn spec_aligned_above(a: Vec3, b: Vec3, limit: Scalar) -> bool {
    match alignment(a, b) {
        Some(cosine) => cosine > limit,
        None => false,
    }
}

/// Whether the cosine of the angle between two vectors exceeds `limit`.
#[verifier::when_used_as_spec(spec_aligned_above)]
pub fn aligned_above(a: Vec3, b: Vec3, limit: Scalar) -> (r: bool)
    ensures
        r == spec_aligned_above(a, b, limit),
        r ==> !a.is_zero() && !b.is_zero(),
{
    match alignment(a, b) {
        Some(cosine) => cosine > limit,
        None => false,
    }
}

pub open spec fn spec_aligned_below(a: Vec3, b: Vec3, limit: Scalar) -> bool {
    match alignment(a, b) {
        Some(cosine) => cosine < limit,
        None => false,
    }
}

/// Whether the cosine of the angle between two vectors lies under `limit`.
#[verifier::when_used_as_spec(spec_aligned_below)]
pub fn aligned_below(a: Vec3, b: Vec3, limit: Scalar) -> (r: bool)
    ensures
        r == spec_aligned_below(a, b, limit),
{
    match alignment(a, b) {
        Some(cosine) => cosine < limit,
        None => false,
    }
}

pub open spec fn spec_reaches_beyond(v: Vec3, way: Vec3, limit: Scalar) -> bool {
    match way.direction() {
        Some(direction) => v.dot(direction) > limit,
        None => false,
    }
}

/// Whether a vector reaches further than `limit` along the direction of another; never where
/// that has none.
#[verifier::when_used_as_spec(spec_reaches_beyond)]
pub fn reaches_beyond(v: Vec3, way: Vec3, limit: Scalar) -> (r: bool)
    ensures
        r == spec_reaches_beyond(v, way, limit),
{
    match way.direction() {
        Some(direction) => v.dot(direction) > limit,
        None => false,
    }
}

pub open spec fn spec_aligned_at_least(a: Vec3, b: Vec3, limit: Scalar) -> bool {
    match alignment(a, b) {
        Some(cosine) => cosine >= limit,
        None => false,
    }
}

/// Whether the cosine of the angle between two vectors is `limit` or more.
#[verifier::when_used_as_spec(spec_aligned_at_least)]
pub fn aligned_at_least(a: Vec3, b: Vec3, limit: Scalar) -> (r: bool)
    ensures
        r == spec_aligned_at_least(a, b, limit),
{
    match alignment(a, b) {
        Some(cosine) => cosine >= limit,
        None => false,
    }
}

pub open spec fn spec_aligned_at_most(a: Vec3, b: Vec3, limit: Scalar) -> bool {
    match alignment(a, b) {
        Some(cosine) => cosine <= limit,
        None => false,
    }
}

/// Whether the cosine of the angle between two vectors is `limit` or less.
#[verifier::when_used_as_spec(spec_aligned_at_most)]
pub fn aligned_at_most(a: Vec3, b: Vec3, limit: Scalar) -> (r: bool)
    ensures
        r == spec_aligned_at_most(a, b, limit),
{
    match alignment(a, b) {
        Some(cosine) => cosine <= limit,
        None => false,
    }
}

/// Two vectors with a direction are aligned above a limit or at most by it, never both, and alike
/// below it or at least by it; ones without a direction are neither.
pub proof fn alignments_leave_no_gap(a: Vec3, b: Vec3, limit: Scalar)
    ensures
        (a.is_zero() || b.is_zero()) ==> !aligned_above(a, b, limit)
            && !aligned_at_most(a, b, limit)
            && !aligned_below(a, b, limit) && !aligned_at_least(a, b, limit),
        (!a.is_zero() && !b.is_zero()) ==> (
            aligned_above(a, b, limit) <==> !aligned_at_most(a, b, limit)
        ) && (
        aligned_below(a, b, limit) <==> !aligned_at_least(a, b, limit)),
        aligned_above(a, b, limit) ==> aligned_at_least(a, b, limit),
        aligned_below(a, b, limit) ==> aligned_at_most(a, b, limit),
        (
            aligned_at_least(a, b, limit) && aligned_at_most(a, b, limit)
        ) ==> alignment(a, b) == Some(limit),
        alignment(a, b) is None <==> a.is_zero() || b.is_zero(),
        b.is_zero() ==> !reaches_beyond(a, b, limit),
{
}

/// It does not matter which of two vectors is named first, neither for their product nor for how
/// they are aligned.
pub proof fn alignment_is_mutual(a: Vec3, b: Vec3)
    ensures
        a.dot(b) == b.dot(a),
        alignment(a, b) == alignment(b, a),
{
    crate::scalar::product_commutes(a.x, b.x);
    crate::scalar::product_commutes(a.y, b.y);
    crate::scalar::product_commutes(a.z, b.z);
    if !a.is_zero() && !b.is_zero() {
        let u = a.normalize();
        let v = b.normalize();
        crate::scalar::product_commutes(u.x, v.x);
        crate::scalar::product_commutes(u.y, v.y);
        crate::scalar::product_commutes(u.z, v.z);
    }
}

/// A way along the pitch or across it is as long as its one part, and its direction has length
/// one;
/// two ways along the pitch are aligned by one, or by minus one the other way, and by nothing with
/// a
/// way across.
pub proof fn straight_ways_are_exact(x: Scalar, y: Scalar)
    requires
        units(0) < x,
        x <= units(1_000_000),
        units(0) < y,
        y <= units(1_000_000),
    ensures
        flat(x, units(0)).magnitude() == x,
        flat(units(0), y).magnitude() == y,
        flat(x.negated(), units(0)).magnitude() == x,
        flat(x, units(0)).direction() == Some(flat(units(1), units(0))),
        flat(units(0), y).direction() == Some(flat(units(0), units(1))),
        alignment(flat(x, units(0)), flat(y, units(0))) == Some(units(1)),
        alignment(flat(x.negated(), units(0)), flat(y, units(0))) == Some(units(1).negated()),
        alignment(flat(x, units(0)), flat(units(0), y)) == Some(units(0)),
        reaches_beyond(flat(x, units(0)), flat(y, units(0)), units(0)),
        !reaches_beyond(flat(x.negated(), units(0)), flat(y, units(0)), units(0)),
{
    straight_length(flat(x, units(0)), x);
    straight_length(flat(y, units(0)), y);
    straight_length(flat(units(0), y), y);
    assert((-(x.raw as int)) * (-(x.raw as int)) == x.raw * x.raw) by (nonlinear_arith);
    straight_length(flat(x.negated(), units(0)), x);
    crate::scalar::whole_is_one(x);
    crate::scalar::whole_is_one(y);
    let r: int = x.raw as int;
    assert((x.negated() / x) == units(1).negated()) by {
        assert(
            -(r * 1_000_000) / r == -1_000_000 && r * 1_000_000 / r == 1_000_000
        ) by (nonlinear_arith)
            requires
                r > 0,
        ;
        assert(crate::scalar::size(-(r * 1_000_000)) == r * 1_000_000);
    }
    crate::scalar::one_changes_nothing(units(1));
    crate::scalar::minus_one_turns_the_sign(units(1));
    crate::scalar::zero_stays_zero(units(1));
    crate::scalar::zero_stays_zero(units(0));
    crate::scalar::one_changes_nothing(x);
    crate::scalar::one_changes_nothing(x.negated());
}

/// A vector whose square is that of a length is that long.
proof fn straight_length(v: Vec3, length: Scalar)
    requires
        units(0) <= length,
        raw_square(v) == length.raw * length.raw,
    ensures
        v.magnitude() == length,
{
    let l: int = length.raw as int;
    assert(0 <= l * l && (l + 1) * (l + 1) > l * l) by (nonlinear_arith)
        requires
            0 <= l,
    ;
    crate::scalar::floor_root_holds(l * l);
    crate::scalar::floor_root_unique(floor_root(l * l), l, l * l);
}

/// Two positions on the pitch are as far from each other one way as the other, and none from
/// itself.
pub proof fn distance_is_mutual(a: Vec3, b: Vec3)
    requires
        a.x.is_between(units(1_000_000).negated(), units(1_000_000)),
        a.y.is_between(units(1_000_000).negated(), units(1_000_000)),
        a.z.is_between(units(1_000_000).negated(), units(1_000_000)),
        b.x.is_between(units(1_000_000).negated(), units(1_000_000)),
        b.y.is_between(units(1_000_000).negated(), units(1_000_000)),
        b.z.is_between(units(1_000_000).negated(), units(1_000_000)),
    ensures
        a.distance_to(b) == b.distance_to(a),
        a.distance_to(a) == units(0),
        units(0) <= a.distance_to(b),
{
    let u = a - b;
    let v = b - a;
    assert(u.x.raw == -v.x.raw && u.y.raw == -v.y.raw && u.z.raw == -v.z.raw);
    assert(raw_square(u) == raw_square(v)) by (nonlinear_arith)
        requires
            u.x.raw == -v.x.raw,
            u.y.raw == -v.y.raw,
            u.z.raw == -v.z.raw,
            raw_square(u) == u.x.raw * u.x.raw + u.y.raw * u.y.raw + u.z.raw * u.z.raw,
            raw_square(v) == v.x.raw * v.x.raw + v.y.raw * v.y.raw + v.z.raw * v.z.raw,
    ;
    zero_has_no_length(a - a);
    length_is_not_negative(a - b);
}

/// The longer of two vectors by their parts is no shorter.
pub proof fn greater_parts_are_no_shorter(a: Vec3, b: Vec3)
    requires
        raw_square(a) <= raw_square(b),
    ensures
        a.magnitude() <= b.magnitude(),
{
    square_is_not_negative(a);
    square_is_not_negative(b);
    crate::scalar::floor_root_holds(raw_square(a));
    crate::scalar::floor_root_holds(raw_square(b));
    let r: int = floor_root(raw_square(a));
    let s: int = floor_root(raw_square(b));
    assert(r <= s) by (nonlinear_arith)
        requires
            0 <= r,
            0 <= s,
            r * r <= raw_square(a),
            raw_square(a) <= raw_square(b),
            raw_square(b) < (s + 1) * (s + 1),
    ;
}

} // verus!
