//! A goalkeeper who gets ready for a save.
use crate::context::{headcount, StateProcessingContext};
use crate::outcome::{
    arrive, exertion_with_velocity, pursue, with_goalkeeper_state, ActivityIntensity, Exertion,
    GoalkeeperState, Movement, StateChangeResult, Steering,
};
use crate::scalar::{milli, units, Scalar};
use crate::vector::{aligned_above, flat, Vec3};
use vstd::prelude::*;

verus! {

pub open spec fn spec_dive_distance() -> Scalar {
    units(40)
}

/// How near the ball has to be for a dive.
#[verifier::when_used_as_spec(spec_dive_distance)]
pub fn dive_distance() -> (r: Scalar)
    ensures
        r == spec_dive_distance(),
{
    units(40)
}

pub open spec fn spec_catch_distance() -> Scalar {
    units(35)
}

/// How near the ball has to be for a catch.
#[verifier::when_used_as_spec(spec_catch_distance)]
pub fn catch_distance() -> (r: Scalar)
    ensures
        r == spec_catch_distance(),
{
    units(35)
}

pub open spec fn spec_punch_distance() -> Scalar {
    units(18)
}

/// How near the ball has to be for a punch.
#[verifier::when_used_as_spec(spec_punch_distance)]
pub fn punch_distance() -> (r: Scalar)
    ensures
        r == spec_punch_distance(),
{
    units(18)
}

pub open spec fn spec_max_distance_from_goal_to_catch() -> Scalar {
    units(50)
}

/// How far from the goal the goalkeeper still catches.
#[verifier::when_used_as_spec(spec_max_distance_from_goal_to_catch)]
pub fn max_distance_from_goal_to_catch() -> (r: Scalar)
    ensures
        r == spec_max_distance_from_goal_to_catch(),
{
    units(50)
}

/// What speaks for a punch over a catch.
#[derive(Clone, Copy, PartialEq, Eq, Structural, Debug)]
pub struct PunchQuestion {
    /// How likely a catch would be, from 0 to 1.
    pub catch_probability: Scalar,
    /// How crowded it is, from 0 to 1.
    pub crowd: Scalar,
    /// How hard the ball comes, from 0 to 1.
    pub power: Scalar,
}

#[derive(Default, Clone, Copy)]
pub struct GoalkeeperPreparingForSaveState {}

impl GoalkeeperPreparingForSaveState {
    pub open spec fn spec_process(
        &self,
        ctx: &StateProcessingContext,
        prefers_punch: bool,
    ) -> Option<StateChangeResult> {
        let near_goal = ctx.player.distance_from_start_position
            < max_distance_from_goal_to_catch();
        if ctx.player.has_ball {
            Some(with_goalkeeper_state(GoalkeeperState::Passing))
        } else if self.should_dive(ctx) {
            Some(with_goalkeeper_state(GoalkeeperState::Diving))
        } else if ctx.ball.shot_target.is_some() && near_goal {
            Some(with_goalkeeper_state(GoalkeeperState::Catching))
        } else if ctx.ball.distance < catch_distance() && near_goal {
            Some(with_goalkeeper_state(GoalkeeperState::Catching))
        } else if !ctx.ball.on_own_side {
            Some(with_goalkeeper_state(GoalkeeperState::ReturningToGoal))
        } else if ctx.team.control_ball {
            Some(with_goalkeeper_state(GoalkeeperState::Standing))
        } else if self.should_punch(ctx, prefers_punch) {
            Some(with_goalkeeper_state(GoalkeeperState::Punching))
        } else if !self.is_ball_toward_goal(ctx) && ctx.ball.distance < units(30)
            && ctx.ball.velocity.magnitude() < units(5) {
            Some(with_goalkeeper_state(GoalkeeperState::ComingOut))
        } else {
            None
        }
    }

    /// The next state of a goalkeeper who gets ready for a save. `prefers_punch` is the answer
    /// to `punch_question`.
    #[verifier::when_used_as_spec(spec_process)]
    pub fn process(
        &self,
        ctx: &StateProcessingContext,
        prefers_punch: bool,
    ) -> (r: Option<StateChangeResult>)
        ensures
            r == self.spec_process(ctx, prefers_punch),
    {
        let near_goal = ctx.player.distance_from_start_position
            < max_distance_from_goal_to_catch();
        if ctx.player.has_ball {
            return Some(with_goalkeeper_state(GoalkeeperState::Passing));
        }
        if self.should_dive(ctx) {
            return Some(with_goalkeeper_state(GoalkeeperState::Diving));
        }
        if ctx.ball.shot_target.is_some() && near_goal {
            return Some(with_goalkeeper_state(GoalkeeperState::Catching));
        }
        if ctx.ball.distance < catch_distance() && near_goal {
            return Some(with_goalkeeper_state(GoalkeeperState::Catching));
        }
        if !ctx.ball.on_own_side {
            return Some(with_goalkeeper_state(GoalkeeperState::ReturningToGoal));
        }
        if ctx.team.control_ball {
            return Some(with_goalkeeper_state(GoalkeeperState::Standing));
        }
        if self.should_punch(ctx, prefers_punch) {
            return Some(with_goalkeeper_state(GoalkeeperState::Punching));
        }
        if !self.is_ball_toward_goal(ctx) && ctx.ball.distance < units(30)
            && ctx.ball.velocity.magnitude() < units(5) {
            return Some(with_goalkeeper_state(GoalkeeperState::ComingOut));
        }
        None
    }

    pub open spec fn spec_speed_boost(&self, ctx: &StateProcessingContext) -> Scalar {
        (
            milli(1600) + ctx.player.goalkeeping.shot_stopping * milli(600)
                + ctx.player.goalkeeping.dive_reach * milli(500)
        )
        * ctx.player.goalkeeping.explosive_mult
    }

    /// How much faster than a run the goalkeeper moves.
    #[verifier::when_used_as_spec(spec_speed_boost)]
    pub fn speed_boost(&self, ctx: &StateProcessingContext) -> (r: Scalar)
        ensures
            r == self.spec_speed_boost(ctx),
    {
        (
            milli(1600) + ctx.player.goalkeeping.shot_stopping * milli(600)
                + ctx.player.goalkeeping.dive_reach * milli(500)
        )
        * ctx.player.goalkeeping.explosive_mult
    }

    pub open spec fn spec_velocity(&self, ctx: &StateProcessingContext) -> Option<Movement> {
        match ctx.ball.shot_target {
            Some(target) => Some(
                arrive(
                    flat(ctx.ball.direction_to_own_goal.x, target.goal_line_y),
                    units(3),
                ).scaled(self.speed_boost(ctx)),
            ),
            None => Some(
                pursue(
                    self.narrowing_spot(ctx),
                    ctx.ball.velocity * milli(300),
                ).scaled(self.speed_boost(ctx)),
            ),
        }
    }

    /// To where a shot crosses the line; without a shot, out towards the ball.
    #[verifier::when_used_as_spec(spec_velocity)]
    pub fn velocity(&self, ctx: &StateProcessingContext) -> (r: Option<Movement>)
        ensures
            r == self.spec_velocity(ctx),
    {
        match ctx.ball.shot_target {
            Some(target) => Some(
                arrive(
                    flat(ctx.ball.direction_to_own_goal.x, target.goal_line_y),
                    units(3),
                ).scaled(self.speed_boost(ctx)),
            ),
            None => Some(
                pursue(
                    self.narrowing_spot(ctx),
                    ctx.ball.velocity * milli(300),
                ).scaled(self.speed_boost(ctx)),
            ),
        }
    }

    pub open spec fn spec_intercept_distance(&self, ctx: &StateProcessingContext) -> Scalar {
        if ctx.ball.velocity.magnitude() > milli(1200) {
            units(20) + ctx.player.goalkeeping.shot_stopping * units(140)
                + ctx.player.goalkeeping.dive_reach * units(60)
        } else {
            units(25) + ctx.player.goalkeeping.shot_stopping * units(160)
                + ctx.player.goalkeeping.dive_reach * units(70)
        }
    }

    /// How far out the goalkeeper comes, further against a slow ball.
    #[verifier::when_used_as_spec(spec_intercept_distance)]
    pub fn intercept_distance(&self, ctx: &StateProcessingContext) -> (r: Scalar)
        ensures
            r == self.spec_intercept_distance(ctx),
    {
        if ctx.ball.velocity.magnitude() > milli(1200) {
            units(20) + ctx.player.goalkeeping.shot_stopping * units(140)
                + ctx.player.goalkeeping.dive_reach * units(60)
        } else {
            units(25) + ctx.player.goalkeeping.shot_stopping * units(160)
                + ctx.player.goalkeeping.dive_reach * units(70)
        }
    }

    pub open spec fn spec_narrowing_spot(&self, ctx: &StateProcessingContext) -> Vec3 {
        let goal = ctx.ball.direction_to_own_goal;
        let lead = milli(200) + ctx.player.goalkeeping.shot_stopping * milli(400);
        let way = ctx.ball.position + ctx.ball.velocity * lead - goal;
        if way.magnitude() > units(1) {
            goal + way.normalize() * self.intercept_distance(ctx).min(
                ctx.ball.distance * milli(500),
            )
        } else {
            goal
        }
    }

    /// The spot between the goal and where the ball will be that narrows the angle.
    #[verifier::when_used_as_spec(spec_narrowing_spot)]
    pub fn narrowing_spot(&self, ctx: &StateProcessingContext) -> (r: Vec3)
        ensures
            r == self.spec_narrowing_spot(ctx),
    {
        let goal = ctx.ball.direction_to_own_goal;
        let lead = milli(200) + ctx.player.goalkeeping.shot_stopping * milli(400);
        let way = ctx.ball.position + ctx.ball.velocity * lead - goal;
        if way.magnitude() > units(1) {
            goal + way.normalize() * self.intercept_distance(ctx).min(
                ctx.ball.distance * milli(500),
            )
        } else {
            goal
        }
    }

    pub open spec fn spec_process_conditions(&self) -> Exertion {
        exertion_with_velocity(ActivityIntensity::High)
    }

    /// The load of the state.
    #[verifier::when_used_as_spec(spec_process_conditions)]
    pub fn process_conditions(&self) -> (r: Exertion)
        ensures
            r == self.spec_process_conditions(),
    {
        exertion_with_velocity(ActivityIntensity::High)
    }

    pub open spec fn spec_should_dive(&self, ctx: &StateProcessingContext) -> bool {
        let speed = ctx.ball.velocity.magnitude();
        let reach = ctx.player.goalkeeping.effective_dive_distance;
        if ctx.ball.distance > dive_distance() || !self.is_ball_toward_goal(ctx)
            || speed < milli(300) {
            false
        } else if speed > milli(1500) {
            ctx.ball.distance < reach
            && ctx.ball.distance / speed.max(milli(500)) < units(18)
                + ctx.player.goalkeeping.shot_stopping * units(22)
        } else if speed > milli(800) {
            ctx.ball.distance < reach * milli(850)
        } else {
            ctx.ball.distance < reach * milli(650)
        }
    }

    /// A ball on its way to the goal within reach of a dive; a fast one also in time.
    #[verifier::when_used_as_spec(spec_should_dive)]
    pub fn should_dive(&self, ctx: &StateProcessingContext) -> (r: bool)
        ensures
            r == self.spec_should_dive(ctx),
    {
        let speed = ctx.ball.velocity.magnitude();
        let reach = ctx.player.goalkeeping.effective_dive_distance;
        if ctx.ball.distance > dive_distance() || !self.is_ball_toward_goal(ctx)
            || speed < milli(300) {
            return false;
        }
        if speed > milli(1500) {
            ctx.ball.distance < reach
            && ctx.ball.distance / speed.max(milli(500)) < units(18)
                + ctx.player.goalkeeping.shot_stopping * units(22)
        } else if speed > milli(800) {
            ctx.ball.distance < reach * milli(850)
        } else {
            ctx.ball.distance < reach * milli(650)
        }
    }

    pub open spec fn spec_crowd(&self, ctx: &StateProcessingContext) -> Scalar {
        if ctx.ball.distance < units(10) {
            (headcount(ctx.opponents_nearby(units(8))) / units(4)).clamp(units(0), units(1))
        } else {
            units(0)
        }
    }

    /// How crowded it is around a ball close by, from 0 to 1.
    #[verifier::when_used_as_spec(spec_crowd)]
    pub fn crowd(&self, ctx: &StateProcessingContext) -> (r: Scalar)
        ensures
            r == self.spec_crowd(ctx),
            units(0) <= r,
            r <= units(1),
    {
        if ctx.ball.distance < units(10) {
            (headcount(ctx.opponents_nearby(units(8))) / units(4)).clamp(units(0), units(1))
        } else {
            units(0)
        }
    }

    pub open spec fn spec_punch_question(&self, ctx: &StateProcessingContext) -> PunchQuestion {
        let power = (
            (ctx.ball.velocity.magnitude() - units(4)) / units(8)
        ).clamp(units(0), units(1));
        let crowd = self.crowd(ctx);
        PunchQuestion {
            catch_probability: (ctx.player.goalkeeping.handling_profile * milli(550)
                + ctx.player.goalkeeping.aerial_command * milli(450) - power * milli(200) - crowd * milli(200)).clamp(units(0), units(1)),
            crowd,
            power,
        }
    }

    /// What speaks for a punch over a catch.
    #[verifier::when_used_as_spec(spec_punch_question)]
    pub fn punch_question(&self, ctx: &StateProcessingContext) -> (r: PunchQuestion)
        ensures
            r == self.spec_punch_question(ctx),
    {
        let power = (
            (ctx.ball.velocity.magnitude() - units(4)) / units(8)
        ).clamp(units(0), units(1));
        let crowd = self.crowd(ctx);
        PunchQuestion {
            catch_probability: (ctx.player.goalkeeping.handling_profile * milli(550)
                + ctx.player.goalkeeping.aerial_command * milli(450) - power * milli(200) - crowd * milli(200)).clamp(units(0), units(1)),
            crowd,
            power,
        }
    }

    pub open spec fn spec_should_punch(
        &self,
        ctx: &StateProcessingContext,
        prefers_punch: bool,
    ) -> bool {
        let speed = ctx.ball.velocity.magnitude();
        let is_high = ctx.ball.position.z > units(2);
        if ctx.ball.distance > punch_distance() {
            false
        } else if is_high && speed > units(8) {
            true
        } else if self.crowd(ctx) >= milli(500) && ctx.ball.distance < units(10) {
            prefers_punch
        } else {
            ctx.player.goalkeeping.handling_profile < milli(500) && speed > units(6) && is_high
        }
    }

    /// A fast high ball, a crowd in which a punch is preferred, or a hard high ball for weak
    /// hands.
    #[verifier::when_used_as_spec(spec_should_punch)]
    pub fn should_punch(&self, ctx: &StateProcessingContext, prefers_punch: bool) -> (r: bool)
        ensures
            r == self.spec_should_punch(ctx, prefers_punch),
    {
        let speed = ctx.ball.velocity.magnitude();
        let is_high = ctx.ball.position.z > units(2);
        if ctx.ball.distance > punch_distance() {
            return false;
        }
        if is_high && speed > units(8) {
            return true;
        }
        if self.crowd(ctx) >= milli(500) && ctx.ball.distance < units(10) {
            return prefers_punch;
        }
        ctx.player.goalkeeping.handling_profile < milli(500) && speed > units(6) && is_high
    }

    pub open spec fn spec_is_ball_toward_goal(&self, ctx: &StateProcessingContext) -> bool {
        ctx.ball.velocity.magnitude() >= milli(500)
        && aligned_above(
            ctx.ball.velocity,
            ctx.ball.direction_to_own_goal - ctx.ball.position,
            milli(500),
        )
    }

    /// The ball moves, and from where it is towards the own goal.
    #[verifier::when_used_as_spec(spec_is_ball_toward_goal)]
    pub fn is_ball_toward_goal(&self, ctx: &StateProcessingContext) -> (r: bool)
        ensures
            r == self.spec_is_ball_toward_goal(ctx),
    {
        ctx.ball.velocity.magnitude() >= milli(500)
        && aligned_above(
            ctx.ball.velocity,
            ctx.ball.direction_to_own_goal - ctx.ball.position,
            milli(500),
        )
    }

    pub open spec fn spec_calculate_optimal_save_position(
        &self,
        ctx: &StateProcessingContext,
    ) -> Option<Vec3> {
        let goal = ctx.ball.direction_to_own_goal;
        let skill = ctx.player.goalkeeping.positioning;
        let ball = if ctx.ball.velocity.magnitude() > units(1) {
            ctx.ball.position + ctx.ball.velocity * (milli(300) + skill * milli(300))
        } else {
            ctx.ball.position
        };
        let spot = goal + (ball - goal) * (milli(150) + skill * milli(150));
        let furthest = units(8) + skill * units(4);
        if (spot - goal).magnitude() > furthest {
            match (spot - goal).direction() {
                Some(way) => Some(goal + way * furthest),
                None => None,
            }
        } else {
            Some(spot)
        }
    }

    /// A spot on the line from the goal to where the ball will be, not too far out; none where
    /// the line has no direction and the reach is below zero.
    #[verifier::when_used_as_spec(spec_calculate_optimal_save_position)]
    pub fn calculate_optimal_save_position(
        &self,
        ctx: &StateProcessingContext,
    ) -> (r: Option<Vec3>)
        ensures
            r == self.spec_calculate_optimal_save_position(ctx),
    {
        let goal = ctx.ball.direction_to_own_goal;
        let skill = ctx.player.goalkeeping.positioning;
        let ball = if ctx.ball.velocity.magnitude() > units(1) {
            ctx.ball.position + ctx.ball.velocity * (milli(300) + skill * milli(300))
        } else {
            ctx.ball.position
        };
        let spot = goal + (ball - goal) * (milli(150) + skill * milli(150));
        let furthest = units(8) + skill * units(4);
        if (spot - goal).magnitude() > furthest {
            match (spot - goal).direction() {
                Some(way) => Some(goal + way * furthest),
                None => None,
            }
        } else {
            Some(spot)
        }
    }
}

/// A goalkeeper ready for a save passes a ball in hand, dives for one within reach, catches a shot
/// and a ball close by near the goal, goes back when the ball is gone, stands when the team has
/// it,
/// punches where that is due, and comes out for a slow ball that does not go at the goal.
pub proof fn saves_come_in_order(
    state: GoalkeeperPreparingForSaveState,
    ctx: &StateProcessingContext,
    prefers_punch: bool,
)
    ensures
        ({
            let goes_to = |s: GoalkeeperState| state.process(ctx, prefers_punch) == Some(
                with_goalkeeper_state(s),
            );
            let dives = state.should_dive(ctx);
            let free = !ctx.player.has_ball && !dives;
            let catches = ctx.player.distance_from_start_position < units(50) && (ctx.ball.shot_target is Some
                || ctx.ball.distance < units(35));
            let ready = free && !catches && ctx.ball.on_own_side && !ctx.team.control_ball;
            let punches = state.should_punch(ctx, prefers_punch);
            &&& ctx.player.has_ball ==> goes_to(GoalkeeperState::Passing)
            &&& !ctx.player.has_ball && dives ==> goes_to(GoalkeeperState::Diving)
            &&& free && catches ==> goes_to(GoalkeeperState::Catching)
            &&& free && !catches
                && !ctx.ball.on_own_side ==> goes_to(GoalkeeperState::ReturningToGoal)
            &&& free && !catches && ctx.ball.on_own_side && ctx.team.control_ball ==> goes_to(
                GoalkeeperState::Standing,
            )
            &&& ready && punches ==> goes_to(GoalkeeperState::Punching)
            &&& ready && !punches ==> if !state.is_ball_toward_goal(ctx)
                && ctx.ball.distance < units(30)
                && ctx.ball.velocity.magnitude() < units(5) {
                goes_to(GoalkeeperState::ComingOut)
            } else {
                state.process(ctx, prefers_punch) is None
            }
        }),
{
}

/// A dive is for a ball within 40 that moves at the goal; a fast one has to be within the full
/// reach, a slower one within less of it.
pub proof fn dives_are_in_reach(
    state: GoalkeeperPreparingForSaveState,
    ctx: &StateProcessingContext,
)
    requires
        ctx.player.goalkeeping.effective_dive_distance.is_between(units(0), units(1000)),
        units(0) <= ctx.player.goalkeeping.shot_stopping,
        units(0) <= ctx.ball.distance,
    ensures
        ({
            let speed = ctx.ball.velocity.magnitude();
            let reach = ctx.player.goalkeeping.effective_dive_distance.raw;
            let away = ctx.ball.distance.raw;
            let comes = ctx.ball.distance <= units(40) && state.is_ball_toward_goal(ctx);
            &&& state.should_dive(ctx) ==> comes && away < reach
            &&& comes && speed > milli(1500) && away < reach && ctx.ball.distance <= units(27)
                ==> state.should_dive(ctx)
            &&& comes && speed > milli(800) && speed <= milli(1500) ==> (state.should_dive(ctx) <==> away
                < reach * 850 / 1000)
            &&& comes
                && speed <= milli(800) ==> (state.should_dive(ctx) <==> away < reach * 650 / 1000)
            &&& ctx.ball.velocity.magnitude() < milli(500) ==> !state.should_dive(ctx)
        }),
{
    crate::scalar::thousandths_of(ctx.player.goalkeeping.effective_dive_distance, 850);
    crate::scalar::thousandths_of(ctx.player.goalkeeping.effective_dive_distance, 650);
    crate::scalar::product_keeps_sign(ctx.player.goalkeeping.shot_stopping, units(22));
    let speed = ctx.ball.velocity.magnitude();
    if speed > milli(1500) && ctx.ball.distance <= units(27) {
        crate::scalar::greater_divisor_gives_less(ctx.ball.distance, milli(1500), speed);
        crate::scalar::quotient_keeps_order(ctx.ball.distance, units(27), milli(1500));
        let d: int = ctx.ball.distance.raw as int;
        let v: int = speed.raw as int;
        assert(d * 1_000_000 / v < 18_000_000) by (nonlinear_arith)
            requires
                0 <= d <= 27_000_000,
                1_500_000 < v,
        ;
    }
}

/// A ball further than 18 off is never punched; a fast high one within it always; in a crowd close
/// by the preference decides; and otherwise only weak hands punch, and only a hard high ball.
pub proof fn punches_have_their_reasons(
    state: GoalkeeperPreparingForSaveState,
    ctx: &StateProcessingContext,
    prefers_punch: bool,
)
    ensures
        ({
            let speed = ctx.ball.velocity.magnitude();
            let high = ctx.ball.position.z > units(2);
            let crowded = ctx.ball.distance < units(10) && ctx.opponents_nearby(units(8)) >= 2;
            &&& ctx.ball.distance > units(18) ==> !state.should_punch(ctx, prefers_punch)
            &&& ctx.ball.distance <= units(18) && high && speed > units(8) ==> state.should_punch(
                ctx,
                prefers_punch,
            )
            &&& ctx.ball.distance <= units(18) && !(high && speed > units(8)) && crowded
                ==> state.should_punch(ctx, prefers_punch) == prefers_punch
            &&& ctx.ball.distance <= units(18) && !(high && speed > units(8)) && !crowded ==> (
            state.should_punch(ctx, prefers_punch) <==> ctx.player.goalkeeping.handling_profile
                < milli(500)
                && speed > units(6) && high)
            &&& ctx.ball.distance >= units(10)
                || ctx.opponents_nearby(units(8)) == 0 ==> state.crowd(ctx)
                == units(0)
            &&& ctx.ball.distance < units(10)
                && ctx.opponents_nearby(units(8)) >= 4 ==> state.crowd(ctx)
                == units(1)
        }),
{
    let n = ctx.opponents_nearby(units(8));
    crate::context::counts_are_exact(n, 0, n, n);
    if n >= 2 {
        crate::scalar::quotient_keeps_order(units(2), headcount(n), units(4));
    } else {
        crate::scalar::quotient_keeps_order(headcount(n), units(1), units(4));
        crate::scalar::quotient_keeps_order(units(0), headcount(n), units(4));
    }
    if n >= 4 {
        crate::scalar::quotient_keeps_order(units(4), headcount(n), units(4));
    }
}

/// Safer hands make a catch likelier; a harder ball and a crowd make it less so.
pub proof fn safe_hands_catch(
    state: GoalkeeperPreparingForSaveState,
    ctx: &StateProcessingContext,
    other: &StateProcessingContext,
)
    requires
        ctx.player.goalkeeping.handling_profile <= other.player.goalkeeping.handling_profile,
        ctx.player.goalkeeping.aerial_command <= other.player.goalkeeping.aerial_command,
        other.ball.velocity.magnitude() <= ctx.ball.velocity.magnitude(),
        state.crowd(other) <= state.crowd(ctx),
    ensures
        state.punch_question(ctx).catch_probability
            <= state.punch_question(other).catch_probability,
        state.punch_question(other).power <= state.punch_question(ctx).power,
        state.punch_question(ctx).crowd == state.crowd(ctx),
        ctx.ball.velocity.magnitude() <= units(4) ==> state.punch_question(ctx).power == units(0),
        ctx.ball.velocity.magnitude() >= units(12) ==> state.punch_question(ctx).power == units(1),
        state.punch_question(ctx).catch_probability.is_between(units(0), units(1)),
{
    let a = ctx.player.goalkeeping;
    let b = other.player.goalkeeping;
    crate::scalar::scaling_keeps_order(a.handling_profile, b.handling_profile, milli(550));
    crate::scalar::scaling_keeps_order(a.aerial_command, b.aerial_command, milli(450));
    let sa = ctx.ball.velocity.magnitude();
    let sb = other.ball.velocity.magnitude();
    crate::scalar::quotient_keeps_order(sb - units(4), sa - units(4), units(8));
    if sa <= units(4) {
        crate::scalar::quotient_keeps_order(sa - units(4), units(0), units(8));
    }
    if sa >= units(12) {
        crate::scalar::quotient_keeps_order(units(8), sa - units(4), units(8));
    }
    let pa = state.punch_question(ctx).power;
    let pb = state.punch_question(other).power;
    crate::scalar::scaling_keeps_order(pb, pa, milli(200));
    crate::scalar::scaling_keeps_order(state.crowd(other), state.crowd(ctx), milli(200));
}

/// A better shot stopper with a longer reach moves faster and comes further out, and out further
/// against a slow ball.
pub proof fn better_keepers_come_out(
    state: GoalkeeperPreparingForSaveState,
    ctx: &StateProcessingContext,
    other: &StateProcessingContext,
)
    requires
        units(0) <= ctx.player.goalkeeping.shot_stopping,
        ctx.player.goalkeeping.shot_stopping <= other.player.goalkeeping.shot_stopping,
        units(0) <= ctx.player.goalkeeping.dive_reach,
        ctx.player.goalkeeping.dive_reach <= other.player.goalkeeping.dive_reach,
        units(0) <= ctx.player.goalkeeping.explosive_mult,
        ctx.player.goalkeeping.explosive_mult <= other.player.goalkeeping.explosive_mult,
        other.ball.velocity.magnitude() <= ctx.ball.velocity.magnitude(),
    ensures
        state.speed_boost(ctx) <= state.speed_boost(other),
        state.intercept_distance(ctx) <= state.intercept_distance(other),
        units(20) <= state.intercept_distance(ctx),
        (ctx.player.goalkeeping.explosive_mult == units(1) && ctx.player.goalkeeping.shot_stopping == units(1)
            && ctx.player.goalkeeping.dive_reach == units(1)) ==> state.speed_boost(ctx) == milli(2700),
        (ctx.player.goalkeeping.explosive_mult == units(1) && ctx.player.goalkeeping.shot_stopping == units(0)
            && ctx.player.goalkeeping.dive_reach == units(0)) ==> state.speed_boost(ctx) == milli(1600),
{
    let a = ctx.player.goalkeeping;
    let b = other.player.goalkeeping;
    crate::scalar::scaling_keeps_order(a.shot_stopping, b.shot_stopping, milli(600));
    crate::scalar::scaling_keeps_order(a.dive_reach, b.dive_reach, milli(500));
    crate::scalar::product_keeps_sign(a.shot_stopping, milli(600));
    crate::scalar::product_keeps_sign(a.dive_reach, milli(500));
    let x = milli(1600) + a.shot_stopping * milli(600) + a.dive_reach * milli(500);
    let y = milli(1600) + b.shot_stopping * milli(600) + b.dive_reach * milli(500);
    crate::scalar::scaling_keeps_order(x, y, a.explosive_mult);
    crate::scalar::greater_factor_makes_more(y, a.explosive_mult, b.explosive_mult);
    crate::scalar::one_changes_nothing(x);
    crate::scalar::one_changes_nothing(milli(600));
    crate::scalar::one_changes_nothing(milli(500));
    crate::scalar::zero_stays_zero(milli(600));
    crate::scalar::zero_stays_zero(milli(500));
    crate::scalar::scaling_keeps_order(a.shot_stopping, b.shot_stopping, units(140));
    crate::scalar::scaling_keeps_order(a.shot_stopping, b.shot_stopping, units(160));
    crate::scalar::greater_factor_makes_more(b.shot_stopping, units(140), units(160));
    crate::scalar::product_keeps_sign(a.shot_stopping, units(140));
    crate::scalar::product_keeps_sign(a.shot_stopping, units(160));
    crate::scalar::scaling_keeps_order(a.dive_reach, b.dive_reach, units(60));
    crate::scalar::scaling_keeps_order(a.dive_reach, b.dive_reach, units(70));
    crate::scalar::greater_factor_makes_more(b.dive_reach, units(60), units(70));
    crate::scalar::product_keeps_sign(a.dive_reach, units(60));
    crate::scalar::product_keeps_sign(a.dive_reach, units(70));
}

/// Against a shot the goalkeeper goes on the goal line to where the shot crosses it; a ball that
/// lies in the goal is met there.
pub proof fn shots_are_met_on_the_line(
    state: GoalkeeperPreparingForSaveState,
    ctx: &StateProcessingContext,
)
    ensures
        ctx.ball.shot_target matches Some(target) ==> (state.velocity(ctx) matches Some(m) && m.steering
            == Some(
            Steering::Arrive {
                target: flat(ctx.ball.direction_to_own_goal.x, target.goal_line_y),
                slowing_distance: units(3),
            },
        )),
        ctx.ball.shot_target is None ==> (state.velocity(ctx) matches Some(m) && m.steering == Some(
            Steering::Pursuit {
                target: state.narrowing_spot(ctx),
                target_velocity: ctx.ball.velocity * milli(300),
            },
        )),
        (ctx.ball.position == ctx.ball.direction_to_own_goal && ctx.ball.velocity.is_zero())
            ==> state.narrowing_spot(ctx) == ctx.ball.direction_to_own_goal,
        state.is_ball_toward_goal(ctx) ==> ctx.ball.velocity.magnitude() >= milli(500)
            && aligned_above(
            ctx.ball.velocity,
            ctx.ball.direction_to_own_goal - ctx.ball.position,
            milli(500),
        ),
{
    if ctx.ball.position == ctx.ball.direction_to_own_goal && ctx.ball.velocity.is_zero() {
        let lead = milli(200) + ctx.player.goalkeeping.shot_stopping * milli(400);
        crate::scalar::zero_stays_zero(lead);
        let way = ctx.ball.position + ctx.ball.velocity * lead - ctx.ball.direction_to_own_goal;
        crate::vector::zero_has_no_length(way);
    }
}

/// The spot for a save is no further out than the skill allows, and for a ball that lies still and
/// close it is on the way to it by a share that grows with the skill.
pub proof fn save_spots_stay_near(
    state: GoalkeeperPreparingForSaveState,
    ctx: &StateProcessingContext,
)
    ensures
        ({
            let goal = ctx.ball.direction_to_own_goal;
            let skill = ctx.player.goalkeeping.positioning;
            let spot = goal + (ctx.ball.position - goal) * (milli(150) + skill * milli(150));
            let furthest = units(8) + skill * units(4);
            &&& ctx.ball.velocity.magnitude() <= units(1) && (spot - goal).magnitude() <= furthest
                ==> state.calculate_optimal_save_position(ctx) == Some(spot)
            &&& ctx.ball.velocity.magnitude() <= units(1) && (spot - goal).magnitude() > furthest ==> (match (
            spot - goal).direction() {
                Some(way) => state.calculate_optimal_save_position(ctx)
                    == Some(goal + way * furthest),
                None => state.calculate_optimal_save_position(ctx) is None,
            })
        }),
{
}

} // verus!
