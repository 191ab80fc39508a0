//! A goalkeeper who kicks the ball away from danger.
use crate::context::{share, StateProcessingContext};
use crate::outcome::{
    exertion, still, with_goalkeeper_state, ActivityIntensity, Exertion, GoalkeeperState,
    Movement, PlayerEvent, PlayerState, StateChangeResult,
};
use crate::scalar::{milli, units, Scalar};
use crate::vector::{flat, vec3, Vec3};
use vstd::prelude::*;

verus! {

#[derive(Default, Clone, Copy)]
pub struct GoalkeeperClearingState {}

impl GoalkeeperClearingState {
    pub open spec fn spec_process(
        &self,
        ctx: &StateProcessingContext,
    ) -> Option<StateChangeResult> {
        if !ctx.player.has_ball {
            Some(with_goalkeeper_state(GoalkeeperState::Standing))
        } else {
            Some(
                with_goalkeeper_state(GoalkeeperState::Standing).with_event(
                    self.execute_clearance(ctx),
                ),
            )
        }
    }

    /// A kick, and back to standing.
    #[verifier::when_used_as_spec(spec_process)]
    pub fn process(&self, ctx: &StateProcessingContext) -> (r: Option<StateChangeResult>)
        ensures
            r == self.spec_process(ctx),
    {
        if !ctx.player.has_ball {
            return Some(with_goalkeeper_state(GoalkeeperState::Standing));
        }
        Some(
            with_goalkeeper_state(GoalkeeperState::Standing).with_event(
                self.execute_clearance(ctx),
            ),
        )
    }

    pub open spec fn spec_velocity(&self, ctx: &StateProcessingContext) -> Option<Movement> {
        Some(still())
    }

    /// The goalkeeper stands still to kick.
    #[verifier::when_used_as_spec(spec_velocity)]
    pub fn velocity(&self, ctx: &StateProcessingContext) -> (r: Option<Movement>)
        ensures
            r == self.spec_velocity(ctx),
    {
        Some(still())
    }

    pub open spec fn spec_process_conditions(&self) -> Exertion {
        exertion(ActivityIntensity::Moderate)
    }

    /// The load of the state.
    #[verifier::when_used_as_spec(spec_process_conditions)]
    pub fn process_conditions(&self) -> (r: Exertion)
        ensures
            r == self.spec_process_conditions(),
    {
        exertion(ActivityIntensity::Moderate)
    }

    pub open spec fn spec_clearance_target(&self, ctx: &StateProcessingContext) -> Vec3 {
        let jitter = (ctx.rolls.clearance * units(2) - units(1)) * (ctx.height() * milli(150));
        flat(ctx.width() * milli(500), ctx.height() * milli(500) + jitter)
    }

    /// Where the kick is aimed: the halfway line, somewhat off the middle as chance will have
    /// it.
    #[verifier::when_used_as_spec(spec_clearance_target)]
    pub fn clearance_target(&self, ctx: &StateProcessingContext) -> (r: Vec3)
        ensures
            r == self.spec_clearance_target(ctx),
    {
        let jitter = (ctx.rolls.clearance * units(2) - units(1)) * (ctx.height() * milli(150));
        flat(ctx.width() * milli(500), ctx.height() * milli(500) + jitter)
    }

    pub open spec fn spec_ground_speed(&self, ctx: &StateProcessingContext) -> Scalar {
        milli(3800) + share(ctx.player.skills.goalkeeping.kicking) * units(1)
    }

    /// The speed along the ground, by the skill at kicking.
    #[verifier::when_used_as_spec(spec_ground_speed)]
    pub fn ground_speed(&self, ctx: &StateProcessingContext) -> (r: Scalar)
        ensures
            r == self.spec_ground_speed(ctx),
    {
        milli(3800) + share(ctx.player.skills.goalkeeping.kicking) * units(1)
    }

    pub open spec fn spec_lift_speed(&self, ctx: &StateProcessingContext) -> Scalar {
        let height = milli(4500) + share(ctx.player.skills.goalkeeping.kicking) * units(1);
        (units(2) * milli(9810) * height.max(units(0))).sqrt() * milli(10)
    }

    /// The upward speed of a ball that rises to the height that the skill at kicking allows: the
    /// root of twice the fall acceleration times the height, per step of a hundredth second.
    #[verifier::when_used_as_spec(spec_lift_speed)]
    pub fn lift_speed(&self, ctx: &StateProcessingContext) -> (r: Scalar)
        ensures
            r == self.spec_lift_speed(ctx),
    {
        let height = milli(4500) + share(ctx.player.skills.goalkeeping.kicking) * units(1);
        (units(2) * milli(9810) * height.max(units(0))).sqrt() * milli(10)
    }

    pub open spec fn spec_execute_clearance(&self, ctx: &StateProcessingContext) -> PlayerEvent {
        let target = self.clearance_target(ctx);
        let way = flat(target.x - ctx.player.position.x, target.y - ctx.player.position.y);
        let length = way.magnitude().max(milli(100));
        let speed = self.ground_speed(ctx);
        PlayerEvent::ClearBall {
            velocity: vec3(way.x / length * speed, way.y / length * speed, self.lift_speed(ctx)),
        }
    }

    /// A lofted kick towards the halfway line.
    #[verifier::when_used_as_spec(spec_execute_clearance)]
    pub fn execute_clearance(&self, ctx: &StateProcessingContext) -> (r: PlayerEvent)
        ensures
            r == self.spec_execute_clearance(ctx),
    {
        let target = self.clearance_target(ctx);
        let way = flat(target.x - ctx.player.position.x, target.y - ctx.player.position.y);
        let length = way.magnitude().max(milli(100));
        let speed = self.ground_speed(ctx);
        PlayerEvent::ClearBall {
            velocity: vec3(way.x / length * speed, way.y / length * speed, self.lift_speed(ctx)),
        }
    }
}

/// A clearance from the own half goes upfield: from the left half to the right, from the right
/// half to the left.
pub proof fn clearance_goes_upfield(state: GoalkeeperClearingState, ctx: &StateProcessingContext)
    requires
        units(0) <= ctx.player.skills.goalkeeping.kicking,
    ensures
        state.execute_clearance(ctx) matches PlayerEvent::ClearBall { velocity } && {
            &&& ctx.player.position.x <= ctx.width() * milli(500) ==> velocity.x >= units(0)
            &&& ctx.player.position.x >= ctx.width() * milli(500) ==> velocity.x <= units(0)
        },
{
    let target = state.clearance_target(ctx);
    let way = flat(target.x - ctx.player.position.x, target.y - ctx.player.position.y);
    let length = way.magnitude().max(milli(100));
    let speed = state.ground_speed(ctx);
    let part = way.x / length;
    crate::scalar::quotient_keeps_order(
        units(0),
        ctx.player.skills.goalkeeping.kicking,
        units(20),
    );
    crate::scalar::product_keeps_order(
        units(1),
        units(0),
        share(ctx.player.skills.goalkeeping.kicking),
    );
    if way.x >= units(0) {
        crate::scalar::quotient_keeps_order(units(0), way.x, length);
        crate::scalar::product_keeps_order(speed, units(0), part);
    }
    if way.x <= units(0) {
        crate::scalar::quotient_keeps_order(way.x, units(0), length);
        crate::scalar::product_keeps_order(speed, part, units(0));
    }
    assert(part.raw * speed.raw == speed.raw * part.raw) by (nonlinear_arith);
}

/// The ball is cleared exactly where the goalkeeper has it, and the goalkeeper stands afterwards.
pub proof fn clears_what_is_held(state: GoalkeeperClearingState, ctx: &StateProcessingContext)
    ensures
        state.process(ctx) matches Some(r)
            && r.state == PlayerState::Goalkeeper(GoalkeeperState::Standing)
            && (r.event matches Some(PlayerEvent::ClearBall { .. }) <==> ctx.player.has_ball) && (r.event
            is None <==> !ctx.player.has_ball),
{
}

/// The kick is aimed at the halfway line, in the middle on an even draw and within three tenths of
/// the pitch around it on any.
pub proof fn clearances_aim_at_the_middle(
    state: GoalkeeperClearingState,
    ctx: &StateProcessingContext,
    other: &StateProcessingContext,
)
    requires
        ctx.field_size == other.field_size,
        units(0) <= ctx.rolls.clearance,
        ctx.rolls.clearance <= other.rolls.clearance,
        other.rolls.clearance <= units(1),
    ensures
        state.clearance_target(ctx).x == ctx.width() * milli(500),
        state.clearance_target(ctx).z == units(0),
        state.clearance_target(ctx).y <= state.clearance_target(other).y,
        ctx.rolls.clearance == milli(500) ==> state.clearance_target(ctx).y
            == ctx.height() * milli(500),
        state.clearance_target(ctx).y >= ctx.height() * milli(500) - ctx.height() * milli(150),
        state.clearance_target(other).y <= ctx.height() * milli(500) + ctx.height() * milli(150),
{
    let room = ctx.height() * milli(150);
    let a = ctx.rolls.clearance * units(2) - units(1);
    let b = other.rolls.clearance * units(2) - units(1);
    crate::scalar::thousandths_of(ctx.height(), 150);
    crate::scalar::thousandths_of(ctx.height(), 500);
    crate::scalar::multiple_is_exact(ctx.rolls.clearance, 2);
    crate::scalar::multiple_is_exact(other.rolls.clearance, 2);
    crate::scalar::scaling_keeps_order(a, b, room);
    crate::scalar::scaling_keeps_order(b, units(1), room);
    crate::scalar::scaling_keeps_order(units(1).negated(), a, room);
    crate::scalar::one_changes_nothing(room);
    crate::scalar::zero_stays_zero(room);
    let r: int = room.raw as int;
    assert((-1_000_000) * r == -(r * 1_000_000)) by (nonlinear_arith);
    assert((units(1).negated() * room).raw == -r);
}

/// The better the kick, the faster along the ground and the higher.
pub proof fn better_kicks_go_further(
    state: GoalkeeperClearingState,
    ctx: &StateProcessingContext,
    other: &StateProcessingContext,
)
    requires
        units(0) <= ctx.player.skills.goalkeeping.kicking,
        ctx.player.skills.goalkeeping.kicking <= other.player.skills.goalkeeping.kicking,
        other.player.skills.goalkeeping.kicking <= units(100),
    ensures
        state.ground_speed(ctx) <= state.ground_speed(other),
        milli(3800) <= state.ground_speed(ctx),
        state.lift_speed(ctx) <= state.lift_speed(other),
        state.execute_clearance(ctx) matches PlayerEvent::ClearBall { velocity } && velocity.z
            == state.lift_speed(ctx),
{
    let a = share(ctx.player.skills.goalkeeping.kicking);
    let b = share(other.player.skills.goalkeeping.kicking);
    crate::scalar::quotient_keeps_order(
        ctx.player.skills.goalkeeping.kicking,
        other.player.skills.goalkeeping.kicking,
        units(20),
    );
    crate::scalar::quotient_keeps_order(
        units(0),
        ctx.player.skills.goalkeeping.kicking,
        units(20),
    );
    crate::scalar::quotient_keeps_order(
        other.player.skills.goalkeeping.kicking,
        units(100),
        units(20),
    );
    crate::scalar::one_changes_nothing(a);
    crate::scalar::one_changes_nothing(b);
    let g = units(2) * milli(9810);
    let h = milli(4500) + a * units(1);
    let i = milli(4500) + b * units(1);
    crate::scalar::product_keeps_sign(units(2), milli(9810));
    crate::scalar::product_keeps_order(g, h, i);
    crate::scalar::product_keeps_sign(g, h);
    crate::scalar::product_keeps_order(g, units(0), h);
    crate::scalar::zero_stays_zero(g);
    roots_keep_order(g * h.max(units(0)), g * i.max(units(0)));
    crate::scalar::scaling_keeps_order(
        (g * h.max(units(0))).sqrt(),
        (g * i.max(units(0))).sqrt(),
        milli(10),
    );
}

/// The root of a greater number is no less.
proof fn roots_keep_order(a: Scalar, b: Scalar)
    requires
        units(0) <= a,
        a <= b,
    ensures
        a.sqrt() <= b.sqrt(),
{
    let m: int = a.raw * 1_000_000;
    let n: int = b.raw * 1_000_000;
    crate::scalar::floor_root_holds(m);
    crate::scalar::floor_root_holds(n);
    let r = crate::scalar::floor_root(m);
    let s = crate::scalar::floor_root(n);
    assert(r <= s) by (nonlinear_arith)
        requires
            0 <= r,
            0 <= s,
            r * r <= m,
            m <= n,
            n < (s + 1) * (s + 1),
    ;
}

} // verus!
