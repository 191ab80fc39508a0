//! A forward who cuts out the ball.
use crate::context::{MatchPlayerLite, StateProcessingContext};
use crate::outcome::{
    exertion_with_velocity, pursue, with_forward_state, ActivityIntensity, Exertion, ForwardState,
    Movement, StateChangeResult, Steering,
};
use crate::scalar::{milli, units, Scalar};
use crate::scan;
use crate::vector::Vec3;
use vstd::prelude::*;

verus! {

#[derive(Default, Clone, Copy)]
pub struct ForwardInterceptingState {}

impl ForwardInterceptingState {
    pub open spec fn spec_process(
        &self,
        ctx: &StateProcessingContext,
    ) -> Option<StateChangeResult> {
        if ctx.player.has_ball {
            Some(with_forward_state(ForwardState::Running))
        } else if ctx.team.control_ball {
            Some(with_forward_state(ForwardState::Returning))
        } else if ctx.ball.opponent_restart {
            Some(with_forward_state(ForwardState::Pressing))
        } else if ctx.ball.distance > units(150) {
            Some(with_forward_state(ForwardState::Returning))
        } else if !ctx.ball.is_owned && ctx.ball.distance < units(50)
            && ctx.ball.speed < units(3) {
            Some(with_forward_state(ForwardState::TakeBall))
        } else if ctx.ball.distance < units(30) && ctx.ball.is_owned {
            Some(with_forward_state(ForwardState::Tackling))
        } else if !self.can_reach_before_opponent(ctx) {
            Some(with_forward_state(ForwardState::Pressing))
        } else {
            None
        }
    }

    /// The next state of an intercepting forward.
    #[verifier::when_used_as_spec(spec_process)]
    pub fn process(&self, ctx: &StateProcessingContext) -> (r: Option<StateChangeResult>)
        ensures
            r == self.spec_process(ctx),
    {
        if ctx.player.has_ball {
            return Some(with_forward_state(ForwardState::Running));
        }
        if ctx.team.control_ball {
            return Some(with_forward_state(ForwardState::Returning));
        }
        // A ball in the hands of the goalkeeper cannot be won.
        if ctx.ball.opponent_restart {
            return Some(with_forward_state(ForwardState::Pressing));
        }
        if ctx.ball.distance > units(150) {
            return Some(with_forward_state(ForwardState::Returning));
        }
        if !ctx.ball.is_owned && ctx.ball.distance < units(50) && ctx.ball.speed < units(3) {
            return Some(with_forward_state(ForwardState::TakeBall));
        }
        if ctx.ball.distance < units(30) && ctx.ball.is_owned {
            return Some(with_forward_state(ForwardState::Tackling));
        }
        if !self.can_reach_before_opponent(ctx) {
            return Some(with_forward_state(ForwardState::Pressing));
        }
        None
    }

    pub open spec fn spec_velocity(&self, ctx: &StateProcessingContext) -> Option<Movement> {
        Some(pursue(ctx.ball.position, ctx.ball.velocity))
    }

    /// After the ball.
    #[verifier::when_used_as_spec(spec_velocity)]
    pub fn velocity(&self, ctx: &StateProcessingContext) -> (r: Option<Movement>)
        ensures
            r == self.spec_velocity(ctx),
    {
        Some(pursue(ctx.ball.position, ctx.ball.velocity))
    }

    pub open spec fn spec_process_conditions(&self) -> Exertion {
        exertion_with_velocity(ActivityIntensity::Moderate)
    }

    /// The load of the state.
    #[verifier::when_used_as_spec(spec_process_conditions)]
    pub fn process_conditions(&self) -> (r: Exertion)
        ensures
            r == self.spec_process_conditions(),
    {
        exertion_with_velocity(ActivityIntensity::Moderate)
    }

    pub open spec fn spec_can_reach_before_opponent(&self, ctx: &StateProcessingContext) -> bool {
        let point = self.calculate_interception_point(ctx);
        let own_time = time_to(point, ctx.player.position, ctx.player.skills.physical.pace);
        match scan::least_where(
            ctx.opponents@,
            |o: MatchPlayerLite| true,
            |o: MatchPlayerLite| time_to(point, o.position, o.skills.physical.pace),
        ) {
            Some(o) => own_time < time_to(point, o.position, o.skills.physical.pace),
            None => true,
        }
    }

    /// Whether the forward is at the meeting point before every opponent.
    #[verifier::when_used_as_spec(spec_can_reach_before_opponent)]
    pub fn can_reach_before_opponent(&self, ctx: &StateProcessingContext) -> (r: bool)
        ensures
            r == self.spec_can_reach_before_opponent(ctx),
    {
        let point = self.calculate_interception_point(ctx);
        let own_time = time_to(point, ctx.player.position, ctx.player.skills.physical.pace);
        match scan::least_of(
            &ctx.opponents,
            |o: MatchPlayerLite| -> (b: bool)
                ensures b == (true)
            {
                true
            },
            |o: MatchPlayerLite| -> (b: Scalar)
                ensures b == (time_to(point, o.position, o.skills.physical.pace))
            {
                time_to(point, o.position, o.skills.physical.pace)
            },
            Ghost(|o: MatchPlayerLite| true),
            Ghost(|o: MatchPlayerLite| time_to(point, o.position, o.skills.physical.pace)),
        ) {
            Some(o) => own_time < time_to(point, o.position, o.skills.physical.pace),
            None => true,
        }
    }

    pub open spec fn spec_calculate_interception_point(
        &self,
        ctx: &StateProcessingContext,
    ) -> Vec3 {
        if (ctx.ball.position - ctx.ball.landing_position).norm_squared() > units(25) {
            ctx.ball.landing_position
        } else {
            let pace = ctx.player.skills.physical.pace.max(milli(100));
            let time = (ctx.ball.position - ctx.player.position).magnitude()
            / (pace + ctx.ball.velocity.magnitude()).max(milli(100));
            ctx.ball.position + ctx.ball.velocity * time
        }
    }

    /// Where the ball lands, or where it meets a forward who runs towards it.
    #[verifier::when_used_as_spec(spec_calculate_interception_point)]
    pub fn calculate_interception_point(&self, ctx: &StateProcessingContext) -> (r: Vec3)
        ensures
            r == self.spec_calculate_interception_point(ctx),
    {
        if (ctx.ball.position - ctx.ball.landing_position).norm_squared() > units(25) {
            ctx.ball.landing_position
        } else {
            let pace = ctx.player.skills.physical.pace.max(milli(100));
            let time = (ctx.ball.position - ctx.player.position).magnitude()
            / (pace + ctx.ball.velocity.magnitude()).max(milli(100));
            ctx.ball.position + ctx.ball.velocity * time
        }
    }
}

pub open spec fn spec_time_to(spot: Vec3, from: Vec3, pace: Scalar) -> Scalar {
    (spot - from).magnitude() / pace.max(milli(100))
}

/// The time to a spot at a given pace.
#[verifier::when_used_as_spec(spec_time_to)]
pub fn time_to(spot: Vec3, from: Vec3, pace: Scalar) -> (r: Scalar)
    ensures
        r == spec_time_to(spot, from, pace),
{
    (spot - from).magnitude() / pace.max(milli(100))
}

/// An intercepting forward runs with the ball, goes back once the team has it or it is far away,
/// does not contest a restart, takes a slow loose ball nearby, tackles for an owned one at hand,
/// and presses where an opponent gets to the meeting point as soon.
pub proof fn interceptions_end(state: ForwardInterceptingState, ctx: &StateProcessingContext)
    ensures
        ({
            let goes_to = |s: ForwardState| state.process(ctx) == Some(with_forward_state(s));
            let lost = !ctx.player.has_ball && !ctx.team.control_ball;
            let slow = !ctx.ball.is_owned && ctx.ball.distance < units(50)
                && ctx.ball.speed < units(3);
            let at_hand = ctx.ball.is_owned && ctx.ball.distance < units(30);
            &&& ctx.player.has_ball ==> goes_to(ForwardState::Running)
            &&& !ctx.player.has_ball && ctx.team.control_ball ==> goes_to(ForwardState::Returning)
            &&& lost && ctx.ball.opponent_restart ==> goes_to(ForwardState::Pressing)
            &&& lost && !ctx.ball.opponent_restart && ctx.ball.distance > units(150) ==> goes_to(
                ForwardState::Returning,
            )
            &&& lost && !ctx.ball.opponent_restart && ctx.ball.distance <= units(150) ==> {
                &&& slow ==> goes_to(ForwardState::TakeBall)
                &&& at_hand ==> goes_to(ForwardState::Tackling)
                &&& !slow && !at_hand
                    && state.can_reach_before_opponent(ctx) ==> state.process(ctx) is None
                &&& !slow && !at_hand && !state.can_reach_before_opponent(ctx) ==> goes_to(
                    ForwardState::Pressing,
                )
            }
        }),
        state.velocity(ctx) matches Some(m) && m.steering == Some(
            Steering::Pursuit { target: ctx.ball.position, target_velocity: ctx.ball.velocity },
        ) && m.factor == units(1),
{
}

/// The forward is first at the meeting point exactly where it takes every opponent longer.
pub proof fn first_means_sooner(state: ForwardInterceptingState, ctx: &StateProcessingContext)
    ensures
        state.can_reach_before_opponent(ctx) <==> forall|o: MatchPlayerLite| #[trigger]
            ctx.opponents@.contains(o) ==> time_to(
                state.calculate_interception_point(ctx),
                ctx.player.position,
                ctx.player.skills.physical.pace,
            ) < time_to(
                state.calculate_interception_point(ctx),
                o.position,
                o.skills.physical.pace,
            ),
        (ctx.ball.position - ctx.ball.landing_position).norm_squared() > units(25)
            ==> state.calculate_interception_point(ctx) == ctx.ball.landing_position,
        (ctx.ball.position == ctx.ball.landing_position && ctx.ball.velocity.is_zero())
            ==> state.calculate_interception_point(ctx) == ctx.ball.position,
{
    let point = state.calculate_interception_point(ctx);
    let k = |o: MatchPlayerLite| time_to(point, o.position, o.skills.physical.pace);
    scan::least_is_least(ctx.opponents@, |o: MatchPlayerLite| true, k);
    assert forall|o: MatchPlayerLite| #[trigger] ctx.opponents@.contains(o) implies k(
        scan::least_where(ctx.opponents@, |o: MatchPlayerLite| true, k)->0,
    ) <= k(o) by {}
    if ctx.ball.velocity.is_zero() {
        let pace = ctx.player.skills.physical.pace.max(milli(100));
        let time = (ctx.ball.position - ctx.player.position).magnitude() / (pace
            + ctx.ball.velocity.magnitude()).max(milli(100));
        crate::scalar::zero_stays_zero(time);
    }
}

/// The faster and the nearer, the sooner one is there.
pub proof fn faster_is_sooner(spot: Vec3, near: Vec3, far: Vec3, slow: Scalar, fast: Scalar)
    requires
        (spot - near).magnitude() <= (spot - far).magnitude(),
        slow <= fast,
    ensures
        time_to(spot, near, fast) <= time_to(spot, far, slow),
        units(0) <= time_to(spot, near, fast),
{
    crate::vector::length_is_not_negative(spot - near);
    let a = (spot - near).magnitude();
    let b = (spot - far).magnitude();
    crate::scalar::quotient_keeps_order(a, b, slow.max(milli(100)));
    crate::scalar::greater_divisor_gives_less(a, slow.max(milli(100)), fast.max(milli(100)));
    crate::scalar::quotient_keeps_order(units(0), a, fast.max(milli(100)));
    let z: int = fast.max(milli(100)).raw as int;
    assert(0int / z == 0) by (nonlinear_arith)
        requires
            z > 0,
    ;
}

/// A ball that has landed is met further along its way, never behind it; one that lies still, or
/// that the forward is at, is met where it is.
pub proof fn meetings_are_ahead_of_the_ball(
    state: ForwardInterceptingState,
    ctx: &StateProcessingContext,
)
    requires
        (ctx.ball.position - ctx.ball.landing_position).norm_squared() <= units(25),
    ensures
        ({
            let point = state.calculate_interception_point(ctx);
            let v = ctx.ball.velocity;
            &&& units(0) <= v.x ==> ctx.ball.position.x <= point.x
            &&& v.x <= units(0) ==> point.x <= ctx.ball.position.x
            &&& units(0) <= v.y ==> ctx.ball.position.y <= point.y
            &&& v.y <= units(0) ==> point.y <= ctx.ball.position.y
            &&& (ctx.ball.position - ctx.player.position).magnitude() == units(0) ==> point
                == ctx.ball.position
        }),
{
    let pace = ctx.player.skills.physical.pace.max(milli(100));
    let way = (ctx.ball.position - ctx.player.position).magnitude();
    let closing = (pace + ctx.ball.velocity.magnitude()).max(milli(100));
    let time = way / closing;
    crate::vector::length_is_not_negative(ctx.ball.position - ctx.player.position);
    crate::scalar::quotient_keeps_order(units(0), way, closing);
    crate::scalar::whole_is_one(closing);
    crate::scalar::product_keeps_sign(ctx.ball.velocity.x, time);
    crate::scalar::product_keeps_sign(ctx.ball.velocity.y, time);
    crate::scalar::zero_stays_zero(ctx.ball.velocity.x);
    crate::scalar::zero_stays_zero(ctx.ball.velocity.y);
    crate::scalar::zero_stays_zero(ctx.ball.velocity.z);
}

} // verus!
