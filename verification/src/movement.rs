//! Movements that several states share.
use crate::context::{MatchPlayerLite, PlayerSide, StateProcessingContext};
use crate::outcome::{steer, Movement, Steering};
use crate::scalar::{units, Scalar};
use crate::scan;
use crate::vector::{aligned_above, flat, vec3, Vec3};
use vstd::prelude::*;

verus! {

pub open spec fn spec_wander_about(ctx: &StateProcessingContext, target: Vec3) -> Movement {
    steer(Steering::Wander {
            target,
            radius: ctx.rolls.wander_radius,
            jitter: ctx.rolls.wander_jitter,
            distance: ctx.rolls.wander_distance,
            angle: ctx.rolls.wander_angle,
    })
}

/// A stroll about a spot, as chance will have it.
#[verifier::when_used_as_spec(spec_wander_about)]
pub fn wander_about(ctx: &StateProcessingContext, target: Vec3) -> (r: Movement)
    ensures
        r == spec_wander_about(ctx, target),
{
    steer(Steering::Wander {
            target,
            radius: ctx.rolls.wander_radius,
            jitter: ctx.rolls.wander_jitter,
            distance: ctx.rolls.wander_distance,
            angle: ctx.rolls.wander_angle,
    })
}

pub open spec fn spec_inside(
    ctx: &StateProcessingContext,
    spot: Vec3,
    from_goal_line: i64,
    from_touchline: i64,
) -> Vec3 {
    flat(
        spot.x.clamp(units(from_goal_line), ctx.width() - units(from_goal_line)),
        spot.y.clamp(units(from_touchline), ctx.height() - units(from_touchline)),
    )
}

/// The spot nearest to `spot` that keeps the given distances from the edges of the pitch.
#[verifier::when_used_as_spec(spec_inside)]
pub fn inside(
    ctx: &StateProcessingContext,
    spot: Vec3,
    from_goal_line: i64,
    from_touchline: i64,
) -> (r: Vec3)
    requires
        0 <= from_goal_line,
        2 * from_goal_line <= ctx.field_size.width,
        0 <= from_touchline,
        2 * from_touchline <= ctx.field_size.height,
    ensures
        r == spec_inside(ctx, spot, from_goal_line, from_touchline),
        units(from_goal_line) <= r.x,
        r.x <= ctx.width() - units(from_goal_line),
        units(from_touchline) <= r.y,
        r.y <= ctx.height() - units(from_touchline),
{
    flat(
        spot.x.clamp(units(from_goal_line), ctx.width() - units(from_goal_line)),
        spot.y.clamp(units(from_touchline), ctx.height() - units(from_touchline)),
    )
}

pub open spec fn spec_rotated(direction: Vec3, cosine: Scalar, sine: Scalar) -> Vec3 {
    flat(
        direction.x * cosine - direction.y * sine,
        direction.x * sine + direction.y * cosine,
    )
}

/// A direction on the ground turned by the angle of the given cosine and sine.
#[verifier::when_used_as_spec(spec_rotated)]
pub fn rotated(direction: Vec3, cosine: Scalar, sine: Scalar) -> (r: Vec3)
    ensures
        r == spec_rotated(direction, cosine, sine),
{
    flat(
        direction.x * cosine - direction.y * sine,
        direction.x * sine + direction.y * cosine,
    )
}

pub open spec fn spec_attacking_direction(ctx: &StateProcessingContext) -> Scalar {
    match ctx.player.side {
        Some(PlayerSide::Left) => units(1),
        Some(PlayerSide::Right) => units(1).negated(),
        None => units(0),
    }
}

/// The sense of the attack along the pitch.
#[verifier::when_used_as_spec(spec_attacking_direction)]
pub fn attacking_direction(ctx: &StateProcessingContext) -> (r: Scalar)
    ensures
        r == spec_attacking_direction(ctx),
{
    match ctx.player.side {
        Some(PlayerSide::Left) => units(1),
        Some(PlayerSide::Right) => units(1).negated(),
        None => units(0),
    }
}

pub open spec fn spec_is_ahead_of(ctx: &StateProcessingContext, spot: Vec3, other: Vec3) -> bool {
    match ctx.player.side {
        Some(PlayerSide::Left) => spot.x > other.x,
        Some(PlayerSide::Right) => spot.x < other.x,
        None => false,
    }
}

/// Whether a spot lies further up the pitch than another.
#[verifier::when_used_as_spec(spec_is_ahead_of)]
pub fn is_ahead_of(ctx: &StateProcessingContext, spot: Vec3, other: Vec3) -> (r: bool)
    ensures
        r == spec_is_ahead_of(ctx, spot, other),
{
    match ctx.player.side {
        Some(PlayerSide::Left) => spot.x > other.x,
        Some(PlayerSide::Right) => spot.x < other.x,
        None => false,
    }
}

pub open spec fn spec_opponents_in_the_way(
    ctx: &StateProcessingContext,
    radius: Scalar,
    cosine: Scalar,
) -> usize {
    scan::count_where(
        ctx.opponents@,
        |o: MatchPlayerLite|
            o.distance <= radius
                && aligned_above(o.position - ctx.player.position, ctx.to_goal(), cosine),
    )
}

/// How many of the opponents within `radius` stand in the way to the goal, inside the angle of
/// the given cosine.
#[verifier::when_used_as_spec(spec_opponents_in_the_way)]
pub fn opponents_in_the_way(
    ctx: &StateProcessingContext,
    radius: Scalar,
    cosine: Scalar,
) -> (r: usize)
    ensures
        r == spec_opponents_in_the_way(ctx, radius, cosine),
{
    scan::count_if(
        &ctx.opponents,
        |o: MatchPlayerLite| -> (b: bool)
            ensures b == (
                o.distance <= radius
                    && aligned_above(o.position - ctx.player.position, ctx.to_goal(), cosine)
            )
        {
            o.distance <= radius
                && aligned_above(o.position - ctx.player.position, ctx.to_goal(), cosine)
        },
        Ghost(
            |o: MatchPlayerLite|
                o.distance <= radius
                    && aligned_above(o.position - ctx.player.position, ctx.to_goal(), cosine),
        ),
    )
}

pub open spec fn spec_is_on_the_line(spot: Vec3, from: Vec3, to: Vec3, reach: Scalar) -> bool {
    match (to - from).direction() {
        Some(direction) => {
            let along = (spot - from).dot(direction);
            along > units(0) && along < (to - from).magnitude()
            && (spot - (from + direction * along)).magnitude() < reach
        },
        None => false,
    }
}

/// Whether a spot comes closer than `reach` to the line of a pass between two others.
#[verifier::when_used_as_spec(spec_is_on_the_line)]
pub fn is_on_the_line(spot: Vec3, from: Vec3, to: Vec3, reach: Scalar) -> (r: bool)
    ensures
        r == spec_is_on_the_line(spot, from, to, reach),
{
    match (to - from).direction() {
        Some(direction) => {
            let along = (spot - from).dot(direction);
            along > units(0) && along < (to - from).magnitude()
            && (spot - (from + direction * along)).magnitude() < reach
        },
        None => false,
    }
}

pub open spec fn spec_is_behind_of(ctx: &StateProcessingContext, spot: Vec3, other: Vec3) -> bool {
    match ctx.player.side {
        Some(PlayerSide::Left) => spot.x < other.x,
        Some(PlayerSide::Right) => spot.x > other.x,
        None => false,
    }
}

/// Whether a spot lies further back than another.
#[verifier::when_used_as_spec(spec_is_behind_of)]
pub fn is_behind_of(ctx: &StateProcessingContext, spot: Vec3, other: Vec3) -> (r: bool)
    ensures
        r == spec_is_behind_of(ctx, spot, other),
{
    match ctx.player.side {
        Some(PlayerSide::Left) => spot.x < other.x,
        Some(PlayerSide::Right) => spot.x > other.x,
        None => false,
    }
}

pub open spec fn spec_outward(ctx: &StateProcessingContext) -> Scalar {
    if ctx.player.attacks_right() {
        units(1)
    } else {
        units(1).negated()
    }
}

/// The sense from the own goal into the pitch.
#[verifier::when_used_as_spec(spec_outward)]
pub fn outward(ctx: &StateProcessingContext) -> (r: Scalar)
    ensures
        r == spec_outward(ctx),
{
    if ctx.player.attacks_right() { units(1) } else { units(1).negated() }
}

pub open spec fn spec_clamp_to_field(ctx: &StateProcessingContext, spot: Vec3) -> Vec3 {
    vec3(
        spot.x.clamp(units(10), ctx.width() - units(10)),
        spot.y.clamp(units(10), ctx.height() - units(10)),
        spot.z,
    )
}

/// The spot nearest to `spot` on the pitch, away from its edges; the height stays.
#[verifier::when_used_as_spec(spec_clamp_to_field)]
pub fn clamp_to_field(ctx: &StateProcessingContext, spot: Vec3) -> (r: Vec3)
    requires
        ctx.field_size.width >= 20,
        ctx.field_size.height >= 20,
    ensures
        r == spec_clamp_to_field(ctx, spot),
        units(10) <= r.x,
        r.x <= ctx.width() - units(10),
        units(10) <= r.y,
        r.y <= ctx.height() - units(10),
{
    vec3(
        spot.x.clamp(units(10), ctx.width() - units(10)),
        spot.y.clamp(units(10), ctx.height() - units(10)),
        spot.z,
    )
}

/// Of two spots at different depths one is ahead and the other behind, and the attack goes that
/// way; where the side is not known, neither is.
pub proof fn ahead_is_the_other_way_round(ctx: &StateProcessingContext, a: Vec3, b: Vec3)
    ensures
        is_ahead_of(ctx, a, b) <==> is_behind_of(ctx, b, a),
        !(is_ahead_of(ctx, a, b) && is_ahead_of(ctx, b, a)),
        ctx.player.side == Some(PlayerSide::Left) && a.x > b.x ==> is_ahead_of(ctx, a, b),
        ctx.player.side == Some(PlayerSide::Right) && a.x < b.x ==> is_ahead_of(ctx, a, b),
        a.x == b.x
            || ctx.player.side is None ==> !is_ahead_of(ctx, a, b) && !is_behind_of(ctx, a, b),
        ctx.player.side == Some(PlayerSide::Left) ==> attacking_direction(ctx) == units(1),
        ctx.player.side == Some(PlayerSide::Right) ==> attacking_direction(ctx).raw == -1_000_000,
        ctx.player.side is None ==> attacking_direction(ctx) == units(0),
        outward(ctx).raw == (if ctx.player.side == Some(PlayerSide::Left) { 1_000_000int } else {
            -1_000_000
        }),
{
}

/// A spot that keeps the margins stays where it is, and any other moves no further than to them.
pub proof fn margins_hold(
    ctx: &StateProcessingContext,
    spot: Vec3,
    from_goal_line: i64,
    from_touchline: i64,
)
    requires
        0 <= from_goal_line,
        2 * from_goal_line <= ctx.field_size.width,
        0 <= from_touchline,
        2 * from_touchline <= ctx.field_size.height,
    ensures
        spot.x.is_between(units(from_goal_line), ctx.width() - units(from_goal_line)) ==> inside(
            ctx,
            spot,
            from_goal_line,
            from_touchline,
        ).x == spot.x,
        spot.y.is_between(units(from_touchline), ctx.height() - units(from_touchline)) ==> inside(
            ctx,
            spot,
            from_goal_line,
            from_touchline,
        ).y == spot.y,
        inside(ctx, spot, from_goal_line, from_touchline).z == units(0),
        spot.x <= units(from_goal_line) ==> inside(ctx, spot, from_goal_line, from_touchline).x
            == units(from_goal_line),
        spot.y <= units(from_touchline) ==> inside(ctx, spot, from_goal_line, from_touchline).y
            == units(from_touchline),
        spot.x >= ctx.width() - units(from_goal_line) ==> inside(
            ctx,
            spot,
            from_goal_line,
            from_touchline,
        ).x == ctx.width() - units(from_goal_line),
        spot.y >= ctx.height() - units(from_touchline) ==> inside(
            ctx,
            spot,
            from_goal_line,
            from_touchline,
        ).y == ctx.height() - units(from_touchline),
{
}

/// A spot on the pitch, away from its edges, stays where it is; the height always does.
pub proof fn field_holds(ctx: &StateProcessingContext, spot: Vec3)
    requires
        ctx.field_size.width >= 20,
        ctx.field_size.height >= 20,
    ensures
        spot.x.is_between(
            units(10),
            ctx.width() - units(10),
        ) ==> clamp_to_field(ctx, spot).x == spot.x,
        spot.y.is_between(
            units(10),
            ctx.height() - units(10),
        ) ==> clamp_to_field(ctx, spot).y == spot.y,
        spot.x < units(10) ==> clamp_to_field(ctx, spot).x == units(10),
        spot.y < units(10) ==> clamp_to_field(ctx, spot).y == units(10),
        clamp_to_field(ctx, spot).z == spot.z,
{
}

/// The way is free exactly where nobody within the radius stands inside the angle, and somebody
/// who stands in the way does so in every wider circle.
pub proof fn free_way_is_free(
    ctx: &StateProcessingContext,
    radius: Scalar,
    wider: Scalar,
    cosine: Scalar,
)
    requires
        radius <= wider,
    ensures
        opponents_in_the_way(ctx, radius, cosine) == 0 <==> forall|o: MatchPlayerLite| #[trigger]
            ctx.opponents@.contains(o) && o.distance <= radius ==> !aligned_above(
                o.position - ctx.player.position,
                ctx.player.opponent_goal_position - ctx.player.position,
                cosine,
            ),
        opponents_in_the_way(ctx, radius, cosine) <= opponents_in_the_way(ctx, wider, cosine),
{
    let p = |o: MatchPlayerLite|
        o.distance <= radius
            && aligned_above(o.position - ctx.player.position, ctx.to_goal(), cosine);
    let q = |o: MatchPlayerLite|
        o.distance <= wider
            && aligned_above(o.position - ctx.player.position, ctx.to_goal(), cosine);
    assert(ctx.opponents.len() == ctx.opponents@.len());
    scan::count_tells_some(ctx.opponents@, p);
    scan::count_keeps_order(ctx.opponents@, p, q);
}

/// A stroll stays about its spot.
pub proof fn strolls_stay(ctx: &StateProcessingContext, target: Vec3)
    ensures
        wander_about(ctx, target).steering matches Some(Steering::Wander { target: about, .. })
            && about == target,
        wander_about(ctx, target).factor == units(1),
{
}

} // verus!
