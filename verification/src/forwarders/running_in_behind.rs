//! A forward who runs in behind the defence.
use crate::context::{
    share, BehavioralDirective, MatchPlayerLite, PlayerSide, ShotDecision, ShotOccasion,
    StateProcessingContext,
};
use crate::outcome::{
    exertion_with_velocity, glide_along, with_forward_state, ActivityIntensity, Exertion,
    ForwardState, Movement, PlayerState, StateChangeResult,
};
use crate::scalar::{milli, units, Scalar};
use crate::scan;
use crate::vector::{aligned_above, flat, Vec3};
use vstd::prelude::*;

verus! {

#[derive(Default, Clone, Copy)]
pub struct ForwardRunningInBehindState {}

impl ForwardRunningInBehindState {
    pub open spec fn spec_process(
        &self,
        ctx: &StateProcessingContext,
    ) -> Option<StateChangeResult> {
        if ctx.player.has_ball {
            Some(self.on_the_ball(ctx))
        } else if self.passer_is_smothered(ctx) {
            Some(with_forward_state(ForwardState::CreatingSpace))
        } else if !self.is_run_viable(ctx) {
            Some(with_forward_state(ForwardState::CreatingSpace))
        } else {
            None
        }
    }

    /// The next state of a forward on a run in behind.
    #[verifier::when_used_as_spec(spec_process)]
    pub fn process(&self, ctx: &StateProcessingContext) -> (r: Option<StateChangeResult>)
        ensures
            r == self.spec_process(ctx),
    {
        if ctx.player.has_ball {
            return Some(self.on_the_ball(ctx));
        }
        // A passer under heavy pressure cannot deliver.
        if self.passer_is_smothered(ctx) {
            return Some(with_forward_state(ForwardState::CreatingSpace));
        }
        if !self.is_run_viable(ctx) {
            return Some(with_forward_state(ForwardState::CreatingSpace));
        }
        None
    }

    pub open spec fn spec_on_the_ball(&self, ctx: &StateProcessingContext) -> StateChangeResult {
        if ctx.ball.distance_to_opponent_goal >= units(80) {
            with_forward_state(ForwardState::Dribbling)
        } else {
            match ctx.evaluate_forward_shot_decision(ShotOccasion::RunInBehind) {
                ShotDecision::Shoot { reason } => with_forward_state(
                    ForwardState::Shooting,
                ).with_shot_reason(reason),
                ShotDecision::Pass => with_forward_state(ForwardState::Passing),
                ShotDecision::Hold => with_forward_state(ForwardState::Dribbling),
            }
        }
    }

    /// With the ball: on far from the goal; close to it the central rule on shots decides.
    #[verifier::when_used_as_spec(spec_on_the_ball)]
    pub fn on_the_ball(&self, ctx: &StateProcessingContext) -> (r: StateChangeResult)
        ensures
            r == self.spec_on_the_ball(ctx),
    {
        if ctx.ball.distance_to_opponent_goal >= units(80) {
            return with_forward_state(ForwardState::Dribbling);
        }
        match ctx.evaluate_forward_shot_decision(ShotOccasion::RunInBehind) {
            ShotDecision::Shoot { reason } => with_forward_state(
                ForwardState::Shooting,
            ).with_shot_reason(reason),
            ShotDecision::Pass => with_forward_state(ForwardState::Passing),
            ShotDecision::Hold => with_forward_state(ForwardState::Dribbling),
        }
    }

    pub open spec fn spec_passer_is_smothered(&self, ctx: &StateProcessingContext) -> bool {
        match ctx.owner_in_team() {
            Some(owner) => ctx.opponents_around(owner.position, units(10)) >= 3,
            None => false,
        }
    }

    /// Three opponents stand round the teammate with the ball.
    #[verifier::when_used_as_spec(spec_passer_is_smothered)]
    pub fn passer_is_smothered(&self, ctx: &StateProcessingContext) -> (r: bool)
        ensures
            r == self.spec_passer_is_smothered(ctx),
    {
        match ctx.owner_in_team() {
            Some(owner) => ctx.opponents_around(owner.position, units(10)) >= 3,
            None => false,
        }
    }

    pub open spec fn spec_run_target(&self, ctx: &StateProcessingContext) -> Vec3 {
        let goal_x = ctx.ball.direction_to_opponent_goal.x;
        let line = ctx.player.defensive_line;
        let x = if !ctx.teammate_on_ball() {
            goal_x
        } else {
            match ctx.player.side {
                Some(PlayerSide::Left) => goal_x.min(line - units(6)),
                Some(PlayerSide::Right) => goal_x.max(line + units(6)),
                None => goal_x,
            }
        };
        flat(x, ctx.player.start_position.y)
    }

    /// The end of the run: the goal line in the forward's own channel. While a teammate is
    /// still on the ball the run stops short of the last defender.
    #[verifier::when_used_as_spec(spec_run_target)]
    pub fn run_target(&self, ctx: &StateProcessingContext) -> (r: Vec3)
        ensures
            r == self.spec_run_target(ctx),
    {
        let goal_x = ctx.ball.direction_to_opponent_goal.x;
        let line = ctx.player.defensive_line;
        let x = if !ctx.teammate_on_ball() {
            goal_x
        } else {
            match ctx.player.side {
                Some(PlayerSide::Left) => goal_x.min(line - units(6)),
                Some(PlayerSide::Right) => goal_x.max(line + units(6)),
                None => goal_x,
            }
        };
        flat(x, ctx.player.start_position.y)
    }

    pub open spec fn spec_velocity(
        &self,
        ctx: &StateProcessingContext,
        free_target: Vec3,
    ) -> Option<Movement> {
        Some(glide_along((free_target - ctx.player.position).direction(), self.sprint_speed(ctx)))
    }

    /// A sprint to `free_target`, the end of the run moved out of the way of the ball carrier; it
    /// has no direction on that very spot.
    #[verifier::when_used_as_spec(spec_velocity)]
    pub fn velocity(
        &self,
        ctx: &StateProcessingContext,
        free_target: Vec3,
    ) -> (r: Option<Movement>)
        ensures
            r == self.spec_velocity(ctx, free_target),
    {
        Some(glide_along((free_target - ctx.player.position).direction(), self.sprint_speed(ctx)))
    }

    pub open spec fn spec_sprint_speed(&self, ctx: &StateProcessingContext) -> Scalar {
        let counter_bonus = if ctx.ball.ownership_duration < 15 { milli(300) } else { units(0) };
        ctx.player.skills.physical.pace
        * (
            milli(1500) + share(
                ctx.player.skills.physical.acceleration,
            ) * milli(500) + counter_bonus
        )
    }

    /// Pace, better by acceleration, and by the thrill of a counter-attack.
    #[verifier::when_used_as_spec(spec_sprint_speed)]
    pub fn sprint_speed(&self, ctx: &StateProcessingContext) -> (r: Scalar)
        ensures
            r == self.spec_sprint_speed(ctx),
    {
        let counter_bonus = if ctx.ball.ownership_duration < 15 { milli(300) } else { units(0) };
        ctx.player.skills.physical.pace
        * (
            milli(1500) + share(
                ctx.player.skills.physical.acceleration,
            ) * milli(500) + counter_bonus
        )
    }

    pub open spec fn spec_process_conditions(&self) -> Exertion {
        exertion_with_velocity(ActivityIntensity::VeryHigh)
    }

    /// The load of the state.
    #[verifier::when_used_as_spec(spec_process_conditions)]
    pub fn process_conditions(&self) -> (r: Exertion)
        ensures
            r == self.spec_process_conditions(),
    {
        exertion_with_velocity(ActivityIntensity::VeryHigh)
    }

    pub open spec fn spec_is_run_viable(&self, ctx: &StateProcessingContext) -> bool {
        (
            ctx.player.has_directive(BehavioralDirective::RunChannelInBehind)
                || self.space_ahead(ctx)
        )
        && self.in_passing_lane(ctx)
        && !ctx.player.tired
        && self.is_passer_capable(ctx)
    }

    /// Space or an order to run, a passing lane, stamina and a capable passer.
    #[verifier::when_used_as_spec(spec_is_run_viable)]
    pub fn is_run_viable(&self, ctx: &StateProcessingContext) -> (r: bool)
        ensures
            r == self.spec_is_run_viable(ctx),
    {
        (
            ctx.player.has_directive(BehavioralDirective::RunChannelInBehind)
                || self.space_ahead(ctx)
        )
        && self.in_passing_lane(ctx)
        && !ctx.player.tired
        && self.is_passer_capable(ctx)
    }

    pub open spec fn spec_is_passer_capable(&self, ctx: &StateProcessingContext) -> bool {
        match ctx.owner_in_team() {
            Some(owner) => (
                share(owner.skills.mental.vision) + share(owner.skills.technical.passing)
            )
            / units(2) > milli(300),
            None => true,
        }
    }

    /// The teammate with the ball, if there is one, has the skill for a through ball.
    #[verifier::when_used_as_spec(spec_is_passer_capable)]
    pub fn is_passer_capable(&self, ctx: &StateProcessingContext) -> (r: bool)
        ensures
            r == self.spec_is_passer_capable(ctx),
    {
        match ctx.owner_in_team() {
            Some(owner) => (
                share(owner.skills.mental.vision) + share(owner.skills.technical.passing)
            )
            / units(2) > milli(300),
            None => true,
        }
    }

    pub open spec fn spec_blockers(&self, ctx: &StateProcessingContext) -> usize {
        scan::count_where(
            ctx.opponents@,
            |o: MatchPlayerLite|
                o.distance <= units(30)
                    && aligned_above(o.position - ctx.player.position, ctx.to_goal(), milli(300)),
        )
    }

    /// How many opponents close by stand in the way to the goal.
    #[verifier::when_used_as_spec(spec_blockers)]
    pub fn blockers(&self, ctx: &StateProcessingContext) -> (r: usize)
        ensures
            r == self.spec_blockers(ctx),
    {
        scan::count_if(
            &ctx.opponents,
            |o: MatchPlayerLite| -> (b: bool)
                ensures b == (
                    o.distance <= units(30)
                        && aligned_above(
                            o.position - ctx.player.position,
                            ctx.to_goal(),
                            milli(300),
                        )
                )
            {
                o.distance <= units(30)
                    && aligned_above(o.position - ctx.player.position, ctx.to_goal(), milli(300))
            },
            Ghost(
                |o: MatchPlayerLite|
                    o.distance <= units(30)
                        && aligned_above(
                            o.position - ctx.player.position,
                            ctx.to_goal(),
                            milli(300),
                        ),
            ),
        )
    }

    pub open spec fn spec_space_ahead(&self, ctx: &StateProcessingContext) -> bool {
        self.blockers(ctx) == 0
            || (self.blockers(ctx) == 1 && ctx.rolls.beat_blocker < ctx.curves.pace_12)
    }

    /// Nobody in the way, or one whom the forward outruns.
    #[verifier::when_used_as_spec(spec_space_ahead)]
    pub fn space_ahead(&self, ctx: &StateProcessingContext) -> (r: bool)
        ensures
            r == self.spec_space_ahead(ctx),
    {
        self.blockers(ctx) == 0
            || (self.blockers(ctx) == 1 && ctx.rolls.beat_blocker < ctx.curves.pace_12)
    }

    pub open spec fn spec_in_passing_lane(&self, ctx: &StateProcessingContext) -> bool {
        match ctx.owner_in_team() {
            Some(owner) => aligned_above(
                ctx.player.position - owner.position,
                ctx.goal() - owner.position,
                units(0),
            ),
            None => true,
        }
    }

    /// Not behind the teammate with the ball.
    #[verifier::when_used_as_spec(spec_in_passing_lane)]
    pub fn in_passing_lane(&self, ctx: &StateProcessingContext) -> (r: bool)
        ensures
            r == self.spec_in_passing_lane(ctx),
    {
        match ctx.owner_in_team() {
            Some(owner) => aligned_above(
                ctx.player.position - owner.position,
                ctx.goal() - owner.position,
                units(0),
            ),
            None => true,
        }
    }
}

/// Reaching the ball close to the goal is no licence to shoot: the forward shoots exactly where
/// the central rule on shots says so, and passes exactly where it prefers the pass.
pub proof fn shots_follow_the_rule(
    state: ForwardRunningInBehindState,
    ctx: &StateProcessingContext,
)
    requires
        ctx.player.has_ball,
        ctx.ball.distance_to_opponent_goal < units(80),
    ensures
        state.process(ctx) matches Some(r) && {
            let decision = ctx.evaluate_forward_shot_decision(ShotOccasion::RunInBehind);
            &&& (r.state == PlayerState::Forward(ForwardState::Shooting) <==> decision is Shoot)
            &&& (r.state == PlayerState::Forward(ForwardState::Passing) <==> decision is Pass)
        },
{
}

/// While a teammate is on the ball the run never ends beyond the last defender.
pub proof fn run_stays_onside(state: ForwardRunningInBehindState, ctx: &StateProcessingContext)
    requires
        ctx.teammate_on_ball(),
    ensures
        ctx.player.side == Some(PlayerSide::Left) ==> state.run_target(ctx).x
            <= ctx.player.defensive_line - units(6),
        ctx.player.side == Some(PlayerSide::Right) ==> state.run_target(ctx).x
            >= ctx.player.defensive_line + units(6),
{
}

/// With the ball far from the goal the forward dribbles; close to it the shot carries the reason
/// of the central rule, and its hold is a dribble. Without the ball the run goes on exactly where
/// it is worth it and the passer is not smothered.
pub proof fn runs_in_behind_end(state: ForwardRunningInBehindState, ctx: &StateProcessingContext)
    ensures
        ctx.player.has_ball
            && ctx.ball.distance_to_opponent_goal >= units(80) ==> state.process(ctx)
            == Some(with_forward_state(ForwardState::Dribbling)),
        ctx.player.has_ball && ctx.ball.distance_to_opponent_goal < units(80) ==> (state.process(
            ctx,
        ) matches Some(r) && match ctx.shots.run_in_behind {
            ShotDecision::Shoot { reason } => r.state
                == PlayerState::Forward(ForwardState::Shooting)
                && r.shot_reason == Some(reason),
            ShotDecision::Pass => r == with_forward_state(ForwardState::Passing),
            ShotDecision::Hold => r == with_forward_state(ForwardState::Dribbling),
        }),
        !ctx.player.has_ball ==> {
            let smothered = ctx.owner_in_team() matches Some(p) && ctx.opponents_around(
                p.position,
                units(10),
            ) >= 3;
            if smothered || !state.is_run_viable(ctx) {
                state.process(ctx) == Some(with_forward_state(ForwardState::CreatingSpace))
            } else {
                state.process(ctx) is None
            }
        },
{
}

/// A run is worth it for a forward with strength left, ahead of a passer who can play the ball,
/// with nobody in the way or by order.
pub proof fn runs_are_worth_it(state: ForwardRunningInBehindState, ctx: &StateProcessingContext)
    ensures
        ctx.player.tired ==> !state.is_run_viable(ctx),
        state.is_run_viable(ctx) ==> {
            &&& ctx.player.behavioral_directive == Some(BehavioralDirective::RunChannelInBehind)
                || state.space_ahead(ctx)
            &&& ctx.owner_in_team() matches Some(p) ==> aligned_above(
                ctx.player.position - p.position,
                ctx.goal() - p.position,
                units(0),
            )
        },
        ({
            &&& !ctx.player.tired
            &&& ctx.owner_in_team() is None
            &&& forall|o: MatchPlayerLite| #[trigger]
                ctx.opponents@.contains(o) && o.distance <= units(30) ==> !aligned_above(
                    o.position - ctx.player.position,
                    ctx.to_goal(),
                    milli(300),
                )
        }) ==> state.is_run_viable(ctx),
        (!ctx.player.tired && ctx.owner_in_team() is None && ctx.player.behavioral_directive == Some(
            BehavioralDirective::RunChannelInBehind,
        )) ==> state.is_run_viable(ctx),
        state.blockers(ctx) >= 2 ==> !state.space_ahead(ctx),
        state.blockers(ctx) == 1 ==> (state.space_ahead(ctx) <==> ctx.rolls.beat_blocker
            < ctx.curves.pace_12),
{
    assert(ctx.opponents.len() == ctx.opponents@.len());
    scan::count_tells_some(
        ctx.opponents@,
        |o: MatchPlayerLite|
            o.distance <= units(30) && aligned_above(
                o.position - ctx.player.position,
                ctx.to_goal(),
                milli(300),
            ),
    );
}

/// A passer with more vision and a better pass is no less capable: one of six in both is not, one
/// of
/// seven is.
pub proof fn capable_passers(
    state: ForwardRunningInBehindState,
    ctx: &StateProcessingContext,
    p: MatchPlayerLite,
)
    requires
        ctx.owner_in_team() == Some(p),
        p.skills.mental.vision.is_between(units(0), units(20)),
        p.skills.technical.passing.is_between(units(0), units(20)),
    ensures
        p.skills.mental.vision >= units(7) && p.skills.technical.passing >= units(7)
            ==> state.is_passer_capable(ctx),
        p.skills.mental.vision <= units(6) && p.skills.technical.passing <= units(6)
            ==> !state.is_passer_capable(ctx),
{
    let v = share(p.skills.mental.vision);
    let q = share(p.skills.technical.passing);
    crate::context::shares_grow(units(0), p.skills.mental.vision, ctx);
    crate::context::shares_grow(units(0), p.skills.technical.passing, ctx);
    crate::context::shares_grow(p.skills.mental.vision, units(20), ctx);
    crate::context::shares_grow(p.skills.technical.passing, units(20), ctx);
    if p.skills.mental.vision >= units(7) && p.skills.technical.passing >= units(7) {
        crate::context::shares_grow(units(7), p.skills.mental.vision, ctx);
        crate::context::shares_grow(units(7), p.skills.technical.passing, ctx);
        crate::scalar::quotient_keeps_order(milli(700), v + q, units(2));
    }
    if p.skills.mental.vision <= units(6) && p.skills.technical.passing <= units(6) {
        crate::context::shares_grow(p.skills.mental.vision, units(6), ctx);
        crate::context::shares_grow(p.skills.technical.passing, units(6), ctx);
        crate::scalar::quotient_keeps_order(v + q, milli(600), units(2));
    }
}

/// The end of the run is the goal line in the own lane, short of the last defender only with a
/// teammate on the ball; the faster the forward, the faster the sprint, and faster just after the
/// ball is won.
pub proof fn sprints_lead_to_the_line(
    state: ForwardRunningInBehindState,
    ctx: &StateProcessingContext,
    other: &StateProcessingContext,
    spot: Vec3,
)
    requires
        units(0) <= ctx.player.skills.physical.pace,
        ctx.player.skills.physical.pace <= other.player.skills.physical.pace,
        units(0) <= ctx.player.skills.physical.acceleration,
        ctx.player.skills.physical.acceleration <= other.player.skills.physical.acceleration,
        other.ball.ownership_duration <= ctx.ball.ownership_duration,
    ensures
        state.run_target(ctx).y == ctx.player.start_position.y,
        !ctx.teammate_on_ball() ==> state.run_target(ctx).x
            == ctx.ball.direction_to_opponent_goal.x,
        (ctx.teammate_on_ball() && ctx.player.side == Some(PlayerSide::Left)
            && ctx.ball.direction_to_opponent_goal.x <= ctx.player.defensive_line - units(6))
            ==> state.run_target(ctx).x == ctx.ball.direction_to_opponent_goal.x,
        state.sprint_speed(ctx) <= state.sprint_speed(other),
        ctx.player.skills.physical.pace <= state.sprint_speed(ctx),
        state.velocity(ctx, spot) matches Some(m) && m.steering is None && m.extra == (if (spot
            - ctx.player.position).is_zero() {
            None
        } else {
            Some((spot - ctx.player.position).normalize() * state.sprint_speed(ctx))
        }),
{
    crate::scalar::quotient_keeps_order(
        ctx.player.skills.physical.acceleration,
        other.player.skills.physical.acceleration,
        units(20),
    );
    crate::scalar::quotient_keeps_order(
        units(0),
        ctx.player.skills.physical.acceleration,
        units(20),
    );
    crate::scalar::scaling_keeps_order(
        share(ctx.player.skills.physical.acceleration),
        share(other.player.skills.physical.acceleration),
        milli(500),
    );
    crate::scalar::scaling_keeps_order(
        units(0),
        share(ctx.player.skills.physical.acceleration),
        milli(500),
    );
    let a = if ctx.ball.ownership_duration < 15 {
        milli(300)
    } else {
        units(0)
    };
    let b = if other.ball.ownership_duration < 15 {
        milli(300)
    } else {
        units(0)
    };
    let f = milli(1500) + share(ctx.player.skills.physical.acceleration) * milli(500) + a;
    let g = milli(1500) + share(other.player.skills.physical.acceleration) * milli(500) + b;
    let p = ctx.player.skills.physical.pace;
    let q = other.player.skills.physical.pace;
    crate::scalar::scaling_keeps_order(p, q, f);
    crate::scalar::product_keeps_order(q, f, g);
    crate::scalar::product_keeps_order(p, units(1), f);
    crate::scalar::one_changes_nothing(p);
}

} // verus!
