//! A goalkeeper who goes to claim a loose ball.
use crate::context::{headcount, MatchPlayerLite, PlayerSide, StateProcessingContext};
use crate::outcome::{
    exertion_with_velocity, seek, with_goalkeeper_state, ActivityIntensity, Exertion,
    GoalkeeperState, Movement, StateChangeResult, Steering,
};
use crate::scalar::{milli, units, Scalar};
use crate::scan;
use crate::vector::{flat, vec3, Vec3};
use vstd::prelude::*;

verus! {

pub open spec fn spec_separation_radius() -> Scalar {
    units(25)
}

/// How near another player has to be to be avoided.
#[verifier::when_used_as_spec(spec_separation_radius)]
pub fn separation_radius() -> (r: Scalar)
    ensures
        r == spec_separation_radius(),
{
    units(25)
}

pub open spec fn spec_ball_claim_distance() -> Scalar {
    units(10)
}

/// How near the ball the goalkeeper avoids others less.
#[verifier::when_used_as_spec(spec_ball_claim_distance)]
pub fn ball_claim_distance() -> (r: Scalar)
    ensures
        r == spec_ball_claim_distance(),
{
    units(10)
}

pub open spec fn spec_no_separation_distance() -> Scalar {
    units(5)
}

/// How near the ball the goalkeeper avoids nobody.
#[verifier::when_used_as_spec(spec_no_separation_distance)]
pub fn no_separation_distance() -> (r: Scalar)
    ensures
        r == spec_no_separation_distance(),
{
    units(5)
}

#[derive(Default, Clone, Copy)]
pub struct GoalkeeperTakeBallState {}

impl GoalkeeperTakeBallState {
    pub open spec fn spec_process(
        &self,
        ctx: &StateProcessingContext,
    ) -> Option<StateChangeResult> {
        if ctx.player.has_ball {
            Some(with_goalkeeper_state(GoalkeeperState::ReturningToGoal))
        } else if ctx.ball.distance < units(3) && !ctx.ball.is_owned {
            Some(with_goalkeeper_state(GoalkeeperState::Catching))
        } else if ctx.ball.is_owned {
            Some(with_goalkeeper_state(GoalkeeperState::ReturningToGoal))
        } else if ctx.in_state_time > 120 && ctx.ball.distance > units(10) {
            Some(with_goalkeeper_state(GoalkeeperState::Standing))
        } else if ctx.in_state_time > 200 {
            Some(with_goalkeeper_state(GoalkeeperState::Standing))
        } else {
            None
        }
    }

    /// The next state of a goalkeeper who claims the ball.
    #[verifier::when_used_as_spec(spec_process)]
    pub fn process(&self, ctx: &StateProcessingContext) -> (r: Option<StateChangeResult>)
        ensures
            r == self.spec_process(ctx),
    {
        if ctx.player.has_ball {
            return Some(with_goalkeeper_state(GoalkeeperState::ReturningToGoal));
        }
        if ctx.ball.distance < units(3) && !ctx.ball.is_owned {
            return Some(with_goalkeeper_state(GoalkeeperState::Catching));
        }
        if ctx.ball.is_owned {
            return Some(with_goalkeeper_state(GoalkeeperState::ReturningToGoal));
        }
        if ctx.in_state_time > 120 && ctx.ball.distance > units(10) {
            return Some(with_goalkeeper_state(GoalkeeperState::Standing));
        }
        if ctx.in_state_time > 200 {
            return Some(with_goalkeeper_state(GoalkeeperState::Standing));
        }
        None
    }

    pub open spec fn spec_chase_target(&self, ctx: &StateProcessingContext) -> Vec3 {
        let half = ctx.width() / units(2);
        let in_opponent_half = match ctx.player.side {
            Some(PlayerSide::Left) => ctx.ball.position.x > half,
            Some(PlayerSide::Right) => ctx.ball.position.x < half,
            None => false,
        };
        if in_opponent_half {
            vec3(ctx.player.chase_limit_x, ctx.ball.position.y, ctx.ball.position.z)
        } else {
            ctx.ball.position
        }
    }

    /// The ball, no deeper in the other half than the line allows.
    #[verifier::when_used_as_spec(spec_chase_target)]
    pub fn chase_target(&self, ctx: &StateProcessingContext) -> (r: Vec3)
        ensures
            r == self.spec_chase_target(ctx),
    {
        let half = ctx.width() / units(2);
        let in_opponent_half = match ctx.player.side {
            Some(PlayerSide::Left) => ctx.ball.position.x > half,
            Some(PlayerSide::Right) => ctx.ball.position.x < half,
            None => false,
        };
        if in_opponent_half {
            vec3(ctx.player.chase_limit_x, ctx.ball.position.y, ctx.ball.position.z)
        } else {
            ctx.ball.position
        }
    }

    pub open spec fn spec_separation_factor(&self, ctx: &StateProcessingContext) -> Scalar {
        let away = (ctx.player.position - self.chase_target(ctx)).magnitude();
        if away < no_separation_distance() {
            units(0)
        } else if away < ball_claim_distance() {
            (away - no_separation_distance()) / (
                ball_claim_distance() - no_separation_distance()
            ) * milli(300)
        } else {
            units(1)
        }
    }

    /// How much the goalkeeper avoids others: not at all at the ball, little near it.
    #[verifier::when_used_as_spec(spec_separation_factor)]
    pub fn separation_factor(&self, ctx: &StateProcessingContext) -> (r: Scalar)
        ensures
            r == self.spec_separation_factor(ctx),
    {
        let away = (ctx.player.position - self.chase_target(ctx)).magnitude();
        if away < no_separation_distance() {
            units(0)
        } else if away < ball_claim_distance() {
            (away - no_separation_distance()) / (
                ball_claim_distance() - no_separation_distance()
            ) * milli(300)
        } else {
            units(1)
        }
    }

    pub open spec fn spec_is_neighbor(
        &self,
        ctx: &StateProcessingContext,
        p: MatchPlayerLite,
    ) -> bool {
        let away = (ctx.player.position - p.position).magnitude();
        p.id != ctx.player.id && away > units(0) && away < separation_radius()
    }

    /// Another player close by.
    #[verifier::when_used_as_spec(spec_is_neighbor)]
    pub fn is_neighbor(&self, ctx: &StateProcessingContext, p: MatchPlayerLite) -> (r: bool)
        ensures
            r == self.spec_is_neighbor(ctx, p),
    {
        let away = (ctx.player.position - p.position).magnitude();
        p.id != ctx.player.id && away > units(0) && away < separation_radius()
    }

    pub open spec fn spec_push(&self, ctx: &StateProcessingContext, p: MatchPlayerLite) -> Vec3 {
        let way = ctx.player.position - p.position;
        if self.is_neighbor(ctx, p) {
            way.normalize() * ((separation_radius() - way.magnitude()) / separation_radius())
        } else {
            flat(units(0), units(0))
        }
    }

    /// The push away from a neighbour, stronger the nearer.
    #[verifier::when_used_as_spec(spec_push)]
    pub fn push(&self, ctx: &StateProcessingContext, p: MatchPlayerLite) -> (r: Vec3)
        ensures
            r == self.spec_push(ctx, p),
    {
        let way = ctx.player.position - p.position;
        if self.is_neighbor(ctx, p) {
            proof {
                if way.is_zero() {
                    crate::vector::zero_has_no_length(way);
                }
            }
            way.normalize() * ((separation_radius() - way.magnitude()) / separation_radius())
        } else {
            flat(units(0), units(0))
        }
    }

    pub open spec fn spec_neighbor_count(&self, ctx: &StateProcessingContext) -> Scalar {
        headcount(
            scan::count_where(ctx.teammates@, |p: MatchPlayerLite| self.is_neighbor(ctx, p)),
        ) + headcount(
            scan::count_where(ctx.opponents@, |p: MatchPlayerLite| self.is_neighbor(ctx, p)),
        )
    }

    /// How many players are close by.
    #[verifier::when_used_as_spec(spec_neighbor_count)]
    pub fn neighbor_count(&self, ctx: &StateProcessingContext) -> (r: Scalar)
        ensures
            r == self.spec_neighbor_count(ctx),
    {
        headcount(scan::count_if(
                &ctx.teammates,
                |p: MatchPlayerLite| -> (b: bool)
                    ensures b == (self.is_neighbor(ctx, p))
                {
                    self.is_neighbor(ctx, p)
                },
                Ghost(|p: MatchPlayerLite| self.is_neighbor(ctx, p)),
        )) + headcount(scan::count_if(
                &ctx.opponents,
                |p: MatchPlayerLite| -> (b: bool)
                    ensures b == (self.is_neighbor(ctx, p))
                {
                    self.is_neighbor(ctx, p)
                },
                Ghost(|p: MatchPlayerLite| self.is_neighbor(ctx, p)),
        ))
    }

    pub open spec fn spec_mean_push(&self, ctx: &StateProcessingContext) -> Vec3 {
        let n = self.neighbor_count(ctx);
        vec3(
            (
                scan::total(
                    ctx.teammates@,
                    |p: MatchPlayerLite| self.push(ctx, p).x,
                ) + scan::total(ctx.opponents@, |p: MatchPlayerLite| self.push(ctx, p).x)
            ) / n,
            (
                scan::total(
                    ctx.teammates@,
                    |p: MatchPlayerLite| self.push(ctx, p).y,
                ) + scan::total(ctx.opponents@, |p: MatchPlayerLite| self.push(ctx, p).y)
            ) / n,
            (
                scan::total(
                    ctx.teammates@,
                    |p: MatchPlayerLite| self.push(ctx, p).z,
                ) + scan::total(ctx.opponents@, |p: MatchPlayerLite| self.push(ctx, p).z)
            ) / n,
        )
    }

    /// The mean push away from the neighbours.
    #[verifier::when_used_as_spec(spec_mean_push)]
    pub fn mean_push(&self, ctx: &StateProcessingContext) -> (r: Vec3)
        ensures
            r == self.spec_mean_push(ctx),
    {
        let n = self.neighbor_count(ctx);
        vec3(
            (scan::total_of(
                    &ctx.teammates,
                    |p: MatchPlayerLite| -> (b: Scalar)
                        ensures b == (self.push(ctx, p).x)
                    {
                        self.push(ctx, p).x
                    },
                    Ghost(|p: MatchPlayerLite| self.push(ctx, p).x),
                ) + scan::total_of(
                    &ctx.opponents,
                    |p: MatchPlayerLite| -> (b: Scalar)
                        ensures b == (self.push(ctx, p).x)
                    {
                        self.push(ctx, p).x
                    },
                    Ghost(|p: MatchPlayerLite| self.push(ctx, p).x),
            )) / n,
            (scan::total_of(
                    &ctx.teammates,
                    |p: MatchPlayerLite| -> (b: Scalar)
                        ensures b == (self.push(ctx, p).y)
                    {
                        self.push(ctx, p).y
                    },
                    Ghost(|p: MatchPlayerLite| self.push(ctx, p).y),
                ) + scan::total_of(
                    &ctx.opponents,
                    |p: MatchPlayerLite| -> (b: Scalar)
                        ensures b == (self.push(ctx, p).y)
                    {
                        self.push(ctx, p).y
                    },
                    Ghost(|p: MatchPlayerLite| self.push(ctx, p).y),
            )) / n,
            (scan::total_of(
                    &ctx.teammates,
                    |p: MatchPlayerLite| -> (b: Scalar)
                        ensures b == (self.push(ctx, p).z)
                    {
                        self.push(ctx, p).z
                    },
                    Ghost(|p: MatchPlayerLite| self.push(ctx, p).z),
                ) + scan::total_of(
                    &ctx.opponents,
                    |p: MatchPlayerLite| -> (b: Scalar)
                        ensures b == (self.push(ctx, p).z)
                    {
                        self.push(ctx, p).z
                    },
                    Ghost(|p: MatchPlayerLite| self.push(ctx, p).z),
            )) / n,
        )
    }

    pub open spec fn spec_velocity(&self, ctx: &StateProcessingContext) -> Option<Movement> {
        let chase = seek(self.chase_target(ctx));
        if self.neighbor_count(ctx) > units(0) {
            Some(
                chase.plus(
                    self.mean_push(
                        ctx,
                    ) * ctx.player.max_speed * milli(400) * self.separation_factor(ctx),
                ).no_faster_than(
                    ctx.player.max_speed,
                ),
            )
        } else {
            Some(chase)
        }
    }

    /// At full speed after the ball, past the players around.
    #[verifier::when_used_as_spec(spec_velocity)]
    pub fn velocity(&self, ctx: &StateProcessingContext) -> (r: Option<Movement>)
        ensures
            r == self.spec_velocity(ctx),
    {
        let chase = seek(self.chase_target(ctx));
        if self.neighbor_count(ctx) > units(0) {
            Some(
                chase.plus(
                    self.mean_push(
                        ctx,
                    ) * ctx.player.max_speed * milli(400) * self.separation_factor(ctx),
                ).no_faster_than(
                    ctx.player.max_speed,
                ),
            )
        } else {
            Some(chase)
        }
    }

    pub open spec fn spec_process_conditions(&self) -> Exertion {
        exertion_with_velocity(ActivityIntensity::High)
    }

    /// The load of the state.
    #[verifier::when_used_as_spec(spec_process_conditions)]
    pub fn process_conditions(&self) -> (r: Exertion)
        ensures
            r == self.spec_process_conditions(),
    {
        exertion_with_velocity(ActivityIntensity::High)
    }
}

/// A chase ends: after the longest time the goalkeeper gives up or has met the ball.
pub proof fn chase_ends(state: GoalkeeperTakeBallState, ctx: &StateProcessingContext)
    requires
        ctx.in_state_time > 200,
    ensures
        state.process(ctx) is Some,
{
}

/// A goalkeeper who gives way to other players on the way to the ball is never faster than the
/// condition allows.
pub proof fn giving_way_is_no_faster(
    state: GoalkeeperTakeBallState,
    ctx: &StateProcessingContext,
    steered: Vec3,
)
    requires
        state.neighbor_count(ctx) > units(0),
        units(0) <= ctx.player.max_speed,
        state.velocity(ctx)->0.uncut_velocity(Some(steered)) matches Some(uncut)
            && uncut.is_measurable(),
    ensures
        state.velocity(ctx) matches Some(movement) && (movement.velocity(Some(steered)) matches Some(
            velocity,
        ) && velocity.magnitude() <= ctx.player.max_speed),
{
    crate::outcome::top_speed_holds(state.velocity(ctx)->0, Some(steered));
}

/// A goalkeeper after a loose ball goes back with it or once somebody has it, catches it at hand,
/// and gives up after 120 steps when it is not close, after 200 in any case.
pub proof fn chases_end_in_order(state: GoalkeeperTakeBallState, ctx: &StateProcessingContext)
    ensures
        ({
            let goes_to = |s: GoalkeeperState| state.process(ctx) == Some(
                with_goalkeeper_state(s),
            );
            let owned = ctx.player.has_ball || ctx.ball.is_owned;
            let late = ctx.in_state_time > 200
                || (ctx.in_state_time > 120 && ctx.ball.distance > units(10));
            &&& owned ==> goes_to(GoalkeeperState::ReturningToGoal)
            &&& !owned && ctx.ball.distance < units(3) ==> goes_to(GoalkeeperState::Catching)
            &&& !owned && ctx.ball.distance >= units(3)
                && late ==> goes_to(GoalkeeperState::Standing)
            &&& !owned && ctx.ball.distance >= units(3) && !late ==> state.process(ctx) is None
        }),
{
}

/// The chase goes for the ball, in the other half no deeper than the line allows.
pub proof fn chases_stop_at_the_line(state: GoalkeeperTakeBallState, ctx: &StateProcessingContext)
    ensures
        ({
            let half = ctx.width() / units(2);
            let gone = (
                ctx.player.side == Some(PlayerSide::Left) && ctx.ball.position.x > half
            ) || (
            ctx.player.side == Some(PlayerSide::Right) && ctx.ball.position.x < half);
            let target = state.chase_target(ctx);
            &&& !gone ==> target == ctx.ball.position
            &&& gone ==> target.x == ctx.player.chase_limit_x && target.y == ctx.ball.position.y
                && target.z
                == ctx.ball.position.z
            &&& state.velocity(ctx) matches Some(m)
                && m.steering == Some(Steering::Seek { target })
                && m.factor == units(1)
        }),
{
    crate::scalar::one_changes_nothing(units(1));
}

/// Another player is avoided within 25, and pushes the goalkeeper straight away; near the ball the
/// goalkeeper gives way less, at the ball not at all.
pub proof fn neighbours_are_avoided(
    state: GoalkeeperTakeBallState,
    ctx: &StateProcessingContext,
    p: MatchPlayerLite,
)
    ensures
        ({
            let away = (ctx.player.position - p.position).magnitude();
            let left = (ctx.player.position - state.chase_target(ctx)).magnitude();
            &&& state.is_neighbor(ctx, p) <==> p.id != ctx.player.id && units(0) < away
                && away < units(25)
            &&& !state.is_neighbor(ctx, p) ==> state.push(ctx, p) == flat(units(0), units(0))
            &&& left < units(5) ==> state.separation_factor(ctx) == units(0)
            &&& left >= units(10) ==> state.separation_factor(ctx) == units(1)
            &&& units(5) <= left && left < units(10) ==> state.separation_factor(ctx).is_between(
                units(0),
                milli(300),
            )
        }),
        ctx.teammates@.len() == 0
            && ctx.opponents@.len() == 0 ==> state.neighbor_count(ctx) == units(0),
        state.neighbor_count(ctx) > units(0) <==> (exists|q: MatchPlayerLite| #[trigger]
            ctx.teammates@.contains(q) && state.is_neighbor(ctx, q)) || (exists|q: MatchPlayerLite| #[trigger]
            ctx.opponents@.contains(q) && state.is_neighbor(ctx, q)),
{
    let left = (ctx.player.position - state.chase_target(ctx)).magnitude();
    if units(5) <= left && left < units(10) {
        crate::scalar::quotient_keeps_order(units(0), left - units(5), units(5));
        crate::scalar::quotient_keeps_order(left - units(5), units(5), units(5));
        let part = (left - units(5)) / units(5);
        crate::scalar::scaling_keeps_order(units(0), part, milli(300));
        crate::scalar::scaling_keeps_order(part, units(1), milli(300));
        crate::scalar::zero_stays_zero(milli(300));
        crate::scalar::one_changes_nothing(milli(300));
    }
    let near = |q: MatchPlayerLite| state.is_neighbor(ctx, q);
    assert(ctx.teammates.len() == ctx.teammates@.len());
    assert(ctx.opponents.len() == ctx.opponents@.len());
    scan::count_tells_some(ctx.teammates@, near);
    scan::count_tells_some(ctx.opponents@, near);
}

/// Of two neighbours in the same direction the nearer pushes no less, and each pushes away: along
/// the pitch to the side on which the goalkeeper is.
pub proof fn nearer_neighbours_push_more(
    state: GoalkeeperTakeBallState,
    ctx: &StateProcessingContext,
    near: MatchPlayerLite,
    far: MatchPlayerLite,
)
    requires
        state.is_neighbor(ctx, near),
        state.is_neighbor(ctx, far),
        (ctx.player.position - near.position).normalize() == (ctx.player.position
            - far.position).normalize(),
        (ctx.player.position - near.position).magnitude() <= (ctx.player.position
            - far.position).magnitude(),
    ensures
        ({
            let way = (ctx.player.position - near.position).normalize();
            &&& units(0) <= way.x ==> units(0) <= state.push(ctx, far).x && state.push(ctx, far).x
                <= state.push(ctx, near).x
            &&& way.x <= units(0) ==> state.push(ctx, near).x <= state.push(ctx, far).x
                && state.push(ctx, far).x
                <= units(0)
            &&& units(0) <= way.y ==> units(0) <= state.push(ctx, far).y && state.push(ctx, far).y
                <= state.push(ctx, near).y
            &&& way.y <= units(0) ==> state.push(ctx, near).y <= state.push(ctx, far).y
                && state.push(ctx, far).y
                <= units(0)
        }),
{
    let way = (ctx.player.position - near.position).normalize();
    let dn = (ctx.player.position - near.position).magnitude();
    let df = (ctx.player.position - far.position).magnitude();
    crate::scalar::quotient_keeps_order(units(25) - df, units(25) - dn, units(25));
    crate::scalar::quotient_keeps_order(units(0), units(25) - df, units(25));
    let sn = (units(25) - dn) / units(25);
    let sf = (units(25) - df) / units(25);
    strengths_keep_order(way.x, sf, sn);
    strengths_keep_order(way.y, sf, sn);
}

/// A greater strength moves a part of a direction further to its own side.
proof fn strengths_keep_order(part: Scalar, less: Scalar, more: Scalar)
    requires
        units(0) <= less,
        less <= more,
    ensures
        units(0) <= part ==> units(0) <= part * less && part * less <= part * more,
        part <= units(0) ==> part * more <= part * less && part * less <= units(0),
{
    crate::scalar::product_keeps_sign(part, less);
    crate::scalar::zero_stays_zero(less);
    crate::scalar::zero_stays_zero(more);
    if units(0) <= part {
        crate::scalar::greater_factor_makes_more(part, less, more);
    } else {
        let a: int = part.raw as int;
        let l: int = less.raw as int;
        let m: int = more.raw as int;
        assert(a * m <= a * l) by (nonlinear_arith)
            requires
                a <= 0,
                0 <= l <= m,
        ;
        assert(-(a * l) <= -(a * m));
    }
}

} // verus!
