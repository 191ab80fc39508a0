//! A forward who takes on a defender.
use crate::context::{
    share, turned, BehavioralDirective, MatchPlayerLite, ShotDecision, ShotOccasion,
    StateProcessingContext,
};
use crate::outcome::{
    arrive, arrive_if_any, exertion_with_velocity, with_forward_state, ActivityIntensity,
    Exertion, ForwardState, Movement, PlayerState, StateChangeResult, Steering,
};
use crate::scalar::{milli, units, Scalar};
use crate::vector::{flat, Vec3};
use vstd::prelude::*;

verus! {

/// The longest dribble before the forward looks for something else.
pub const DRIBBLE_TIMEOUT: u64 = 40;

#[derive(Default, Clone, Copy)]
pub struct ForwardDribblingState {}

pub open spec fn spec_dispatch_shot(
    ctx: &StateProcessingContext,
    occasion: ShotOccasion,
) -> Option<StateChangeResult> {
    match ctx.evaluate_forward_shot_decision(occasion) {
        ShotDecision::Shoot { reason } => Some(
            with_forward_state(ForwardState::Shooting).with_shot_reason(reason),
        ),
        ShotDecision::Pass => Some(with_forward_state(ForwardState::Passing)),
        ShotDecision::Hold => None,
    }
}

/// What follows from the central rule on shots: a shot, a pass to a better placed teammate, or
/// nothing.
#[verifier::when_used_as_spec(spec_dispatch_shot)]
pub fn dispatch_shot(
    ctx: &StateProcessingContext,
    occasion: ShotOccasion,
) -> (r: Option<StateChangeResult>)
    ensures
        r == spec_dispatch_shot(ctx, occasion),
{
    match ctx.evaluate_forward_shot_decision(occasion) {
        ShotDecision::Shoot { reason } => Some(
            with_forward_state(ForwardState::Shooting).with_shot_reason(reason),
        ),
        ShotDecision::Pass => Some(with_forward_state(ForwardState::Passing)),
        ShotDecision::Hold => None,
    }
}

impl ForwardDribblingState {
    pub open spec fn spec_process(
        &self,
        ctx: &StateProcessingContext,
    ) -> Option<StateChangeResult> {
        if !ctx.player.has_ball {
            Some(with_forward_state(ForwardState::Running))
        } else if self.must_lay_off(ctx) {
            Some(with_forward_state(ForwardState::Passing))
        } else if self.ordered_to_the_byline(ctx) {
            self.byline_run(ctx)
        } else if !ctx.opponent_exists(units(25)) {
            Some(with_forward_state(ForwardState::Running))
        } else {
            match self.near_goalkeeper(ctx) {
                Some(result) => {
                    Some(result)
                },
                None => {
                    match self.clear_shot(ctx) {
                        Some(result) => {
                            Some(result)
                        },
                        None => {
                            match self.shot_from_range(ctx) {
                                Some(result) => {
                                    Some(result)
                                },
                                None => {
                                    if self.committed_to_byline(ctx)
                                        && self.past_penalty_spot(ctx) {
                                        Some(with_forward_state(ForwardState::Crossing))
                                    } else if !self.committed_to_byline(ctx)
                                        && ctx.in_state_time > DRIBBLE_TIMEOUT {
                                        Some(self.time_is_up(ctx))
                                    } else if ctx.opponents_nearby(units(8)) >= 2 {
                                        Some(with_forward_state(ForwardState::Passing))
                                    } else if !self.committed_to_byline(ctx)
                                        && ctx.in_state_time >= 15
                                        && ctx.opponent_exists(units(10)) {
                                        Some(with_forward_state(ForwardState::Passing))
                                    } else if !self.committed_to_byline(ctx)
                                        && self.should_cross(ctx) {
                                        Some(with_forward_state(ForwardState::Crossing))
                                    } else {
                                        None
                                    }
                                },
                            }
                        },
                    }
                },
            }
        }
    }

    /// The next state of a dribbling forward.
    #[verifier::when_used_as_spec(spec_process)]
    pub fn process(&self, ctx: &StateProcessingContext) -> (r: Option<StateChangeResult>)
        ensures
            r == self.spec_process(ctx),
    {
        if !ctx.player.has_ball {
            return Some(with_forward_state(ForwardState::Running));
        }
        if self.must_lay_off(ctx) {
            return Some(with_forward_state(ForwardState::Passing));
        }
        if self.ordered_to_the_byline(ctx) {
            return self.byline_run(ctx);
        }
        // Without an opponent around there is nobody to beat.
        if !ctx.opponent_exists(units(25)) {
            return Some(with_forward_state(ForwardState::Running));
        }
        match self.near_goalkeeper(ctx) {
            Some(result) => {
                return Some(result);
            },
            None => {},
        }
        match self.clear_shot(ctx) {
            Some(result) => {
                return Some(result);
            },
            None => {},
        }
        match self.shot_from_range(ctx) {
            Some(result) => {
                return Some(result);
            },
            None => {},
        }
        // A committed run ends with a cross from beyond the penalty spot.
        if self.committed_to_byline(ctx) && self.past_penalty_spot(ctx) {
            return Some(with_forward_state(ForwardState::Crossing));
        }
        if !self.committed_to_byline(ctx) && ctx.in_state_time > DRIBBLE_TIMEOUT {
            return Some(self.time_is_up(ctx));
        }
        // Two defenders force the pass, a committed run included.
        if ctx.opponents_nearby(units(8)) >= 2 {
            return Some(with_forward_state(ForwardState::Passing));
        }
        if !self.committed_to_byline(ctx) && ctx.in_state_time >= 15
            && ctx.opponent_exists(units(10)) {
            return Some(with_forward_state(ForwardState::Passing));
        }
        if !self.committed_to_byline(ctx) && self.should_cross(ctx) {
            return Some(with_forward_state(ForwardState::Crossing));
        }
        None
    }

    pub open spec fn spec_must_lay_off(&self, ctx: &StateProcessingContext) -> bool {
        (ctx.player.has_directive(BehavioralDirective::LayItOffFirstTouch)
            && ctx.ball.ownership_duration < 30)
        || (ctx.player.has_directive(BehavioralDirective::LayOffOnLongBall)
            && ctx.ball.ownership_duration < 60 && ctx.ball.long_reception)
    }

    /// The manager wants the ball released: at once, or after a long ball only.
    #[verifier::when_used_as_spec(spec_must_lay_off)]
    pub fn must_lay_off(&self, ctx: &StateProcessingContext) -> (r: bool)
        ensures
            r == self.spec_must_lay_off(ctx),
    {
        (ctx.player.has_directive(BehavioralDirective::LayItOffFirstTouch)
            && ctx.ball.ownership_duration < 30)
        || (ctx.player.has_directive(BehavioralDirective::LayOffOnLongBall)
            && ctx.ball.ownership_duration < 60 && ctx.ball.long_reception)
    }

    pub open spec fn spec_ordered_to_the_byline(&self, ctx: &StateProcessingContext) -> bool {
        ctx.player.has_directive(BehavioralDirective::BylineAndCross)
        && in_outer_lane(ctx, ctx.player.start_position.y)
    }

    /// The manager wants runs to the byline from a player whose place is wide.
    #[verifier::when_used_as_spec(spec_ordered_to_the_byline)]
    pub fn ordered_to_the_byline(&self, ctx: &StateProcessingContext) -> (r: bool)
        ensures
            r == self.spec_ordered_to_the_byline(ctx),
    {
        ctx.player.has_directive(BehavioralDirective::BylineAndCross)
        && in_outer_lane(ctx, ctx.player.start_position.y)
    }

    pub open spec fn spec_byline_run(
        &self,
        ctx: &StateProcessingContext,
    ) -> Option<StateChangeResult> {
        if in_outer_lane(ctx, ctx.player.position.y) && goal_line_distance(ctx) < units(40) {
            Some(with_forward_state(ForwardState::Crossing))
        } else if ctx.opponents_nearby(units(8)) >= 2 {
            Some(with_forward_state(ForwardState::Passing))
        } else {
            None
        }
    }

    /// On a run that the manager ordered: a cross near the byline, a pass under pressure from
    /// two, or on with the run.
    #[verifier::when_used_as_spec(spec_byline_run)]
    pub fn byline_run(&self, ctx: &StateProcessingContext) -> (r: Option<StateChangeResult>)
        ensures
            r == self.spec_byline_run(ctx),
    {
        if in_outer_lane(ctx, ctx.player.position.y) && goal_line_distance(ctx) < units(40) {
            return Some(with_forward_state(ForwardState::Crossing));
        }
        if ctx.opponents_nearby(units(8)) >= 2 {
            return Some(with_forward_state(ForwardState::Passing));
        }
        None
    }

    pub open spec fn spec_near_goalkeeper(
        &self,
        ctx: &StateProcessingContext,
    ) -> Option<StateChangeResult> {
        match ctx.opponent_goalkeeper() {
            Some(goalkeeper) => {
                let distance = ctx.player.position.distance_to(goalkeeper.position);
                if distance < units(25) && ctx.ball.distance_to_opponent_goal < units(120)
                    && may_shoot(ctx) {
                    match dispatch_shot(ctx, ShotOccasion::DribbleNearGoalkeeper) {
                        Some(result) => Some(result),
                        None => if distance < units(12) {
                            Some(with_forward_state(ForwardState::Passing))
                        } else {
                            None
                        },
                    }
                } else {
                    None
                }
            },
            None => None,
        }
    }

    /// Close to the goalkeeper: a shot, a pass to a better placed teammate, and right in front
    /// of the goalkeeper a pass in any case.
    #[verifier::when_used_as_spec(spec_near_goalkeeper)]
    pub fn near_goalkeeper(&self, ctx: &StateProcessingContext) -> (r: Option<StateChangeResult>)
        ensures
            r == self.spec_near_goalkeeper(ctx),
    {
        match ctx.opponent_goalkeeper() {
            Some(goalkeeper) => {
                let distance = ctx.player.position.distance_to(goalkeeper.position);
                if distance < units(25) && ctx.ball.distance_to_opponent_goal < units(120)
                    && may_shoot(ctx) {
                    match dispatch_shot(ctx, ShotOccasion::DribbleNearGoalkeeper) {
                        Some(result) => Some(result),
                        None => if distance < units(12) {
                            Some(with_forward_state(ForwardState::Passing))
                        } else {
                            None
                        },
                    }
                } else {
                    None
                }
            },
            None => None,
        }
    }

    pub open spec fn spec_clear_shot(
        &self,
        ctx: &StateProcessingContext,
    ) -> Option<StateChangeResult> {
        if may_shoot(ctx) && ctx.player.in_shooting_range && ctx.player.clear_shot {
            dispatch_shot(ctx, ShotOccasion::DribbleClear)
        } else {
            None
        }
    }

    /// In range with a free lane.
    #[verifier::when_used_as_spec(spec_clear_shot)]
    pub fn clear_shot(&self, ctx: &StateProcessingContext) -> (r: Option<StateChangeResult>)
        ensures
            r == self.spec_clear_shot(ctx),
    {
        if may_shoot(ctx) && ctx.player.in_shooting_range && ctx.player.clear_shot {
            dispatch_shot(ctx, ShotOccasion::DribbleClear)
        } else {
            None
        }
    }

    pub open spec fn spec_shot_from_range(
        &self,
        ctx: &StateProcessingContext,
    ) -> Option<StateChangeResult> {
        if may_shoot(ctx) && ctx.player.should_attempt_shot && ctx.player.clear_shot {
            dispatch_shot(ctx, ShotOccasion::DribbleRange)
        } else {
            None
        }
    }

    /// Worth a try with a free lane.
    #[verifier::when_used_as_spec(spec_shot_from_range)]
    pub fn shot_from_range(&self, ctx: &StateProcessingContext) -> (r: Option<StateChangeResult>)
        ensures
            r == self.spec_shot_from_range(ctx),
    {
        if may_shoot(ctx) && ctx.player.should_attempt_shot && ctx.player.clear_shot {
            dispatch_shot(ctx, ShotOccasion::DribbleRange)
        } else {
            None
        }
    }

    pub open spec fn spec_committed_to_byline(&self, ctx: &StateProcessingContext) -> bool {
        ctx.player.byline_commitment_ticks > 0
    }

    #[verifier::when_used_as_spec(spec_committed_to_byline)]
    pub fn committed_to_byline(&self, ctx: &StateProcessingContext) -> (r: bool)
        ensures
            r == self.spec_committed_to_byline(ctx),
    {
        ctx.player.byline_commitment_ticks > 0
    }

    pub open spec fn spec_past_penalty_spot(&self, ctx: &StateProcessingContext) -> bool {
        let y = ctx.player.position.y;
        (y < ctx.height() * milli(380) || y > ctx.height() * milli(620))
        && goal_line_distance(ctx) <= units(100)
    }

    /// Wide, and deeper than the penalty spot.
    #[verifier::when_used_as_spec(spec_past_penalty_spot)]
    pub fn past_penalty_spot(&self, ctx: &StateProcessingContext) -> (r: bool)
        ensures
            r == self.spec_past_penalty_spot(ctx),
    {
        let y = ctx.player.position.y;
        (y < ctx.height() * milli(380) || y > ctx.height() * milli(620))
        && goal_line_distance(ctx) <= units(100)
    }

    pub open spec fn spec_time_is_up(&self, ctx: &StateProcessingContext) -> StateChangeResult {
        match self.late_shot(ctx) {
            Some(result) => result,
            None => with_forward_state(ForwardState::Passing),
        }
    }

    /// After a long dribble: a shot from close range, else a pass.
    #[verifier::when_used_as_spec(spec_time_is_up)]
    pub fn time_is_up(&self, ctx: &StateProcessingContext) -> (r: StateChangeResult)
        ensures
            r == self.spec_time_is_up(ctx),
    {
        match self.late_shot(ctx) {
            Some(result) => result,
            None => with_forward_state(ForwardState::Passing),
        }
    }

    pub open spec fn spec_late_shot(
        &self,
        ctx: &StateProcessingContext,
    ) -> Option<StateChangeResult> {
        if may_shoot(ctx) && ctx.ball.distance_to_opponent_goal < units(60)
            && ctx.player.clear_shot {
            dispatch_shot(ctx, ShotOccasion::DribbleTimeout)
        } else {
            None
        }
    }

    /// Close to the goal with a free lane.
    #[verifier::when_used_as_spec(spec_late_shot)]
    pub fn late_shot(&self, ctx: &StateProcessingContext) -> (r: Option<StateChangeResult>)
        ensures
            r == self.spec_late_shot(ctx),
    {
        if may_shoot(ctx) && ctx.ball.distance_to_opponent_goal < units(60)
            && ctx.player.clear_shot {
            dispatch_shot(ctx, ShotOccasion::DribbleTimeout)
        } else {
            None
        }
    }

    pub open spec fn spec_fits_pitch(&self, ctx: &StateProcessingContext) -> bool {
        self.keeps_wide(ctx) || !self.faces_goalkeeper(ctx)
        || (ctx.field_size.width >= 30 && ctx.field_size.height >= 30)
    }

    /// The pitch has room for the margins that the movement keeps: they matter only on the way
    /// round a goalkeeper.
    #[verifier::when_used_as_spec(spec_fits_pitch)]
    pub fn fits_pitch(&self, ctx: &StateProcessingContext) -> (r: bool)
        ensures
            r == self.spec_fits_pitch(ctx),
    {
        self.keeps_wide(ctx) || !self.faces_goalkeeper(ctx)
        || (ctx.field_size.width >= 30 && ctx.field_size.height >= 30)
    }

    pub open spec fn spec_velocity(&self, ctx: &StateProcessingContext) -> Option<Movement> {
        if self.keeps_wide(ctx) {
            Some(arrive(flat(ctx.goal().x, self.wide_channel(ctx)), units(30)))
        } else if self.faces_goalkeeper(ctx) {
            Some(arrive_if_any(self.sidestep(ctx), units(10)))
        } else if ctx.player.carry_target.distance_to(ctx.player.position) < units(6) {
            Some(arrive(ctx.goal(), units(150)))
        } else {
            Some(arrive(ctx.player.carry_target, units(20)))
        }
    }

    /// Along the touchline on a byline run, round a close goalkeeper, else to the best spot to
    /// carry the ball to.
    #[verifier::when_used_as_spec(spec_velocity)]
    pub fn velocity(&self, ctx: &StateProcessingContext) -> (r: Option<Movement>)
        requires
            self.fits_pitch(ctx),
        ensures
            r == self.spec_velocity(ctx),
    {
        if self.keeps_wide(ctx) {
            return Some(arrive(flat(ctx.goal().x, self.wide_channel(ctx)), units(30)));
        }
        if self.faces_goalkeeper(ctx) {
            return Some(arrive_if_any(self.sidestep(ctx), units(10)));
        }
        // The best spot is here: drift towards the goal.
        if ctx.player.carry_target.distance_to(ctx.player.position) < units(6) {
            return Some(arrive(ctx.goal(), units(150)));
        }
        Some(arrive(ctx.player.carry_target, units(20)))
    }

    pub open spec fn spec_keeps_wide(&self, ctx: &StateProcessingContext) -> bool {
        (ctx.player.has_directive(BehavioralDirective::BylineAndCross)
            || ctx.player.has_directive(BehavioralDirective::StayWideNoCutInside)
            || ctx.player.byline_commitment_ticks > 0)
        && (in_outer_lane(ctx, ctx.player.start_position.y)
            || in_outer_lane(ctx, ctx.player.position.y))
    }

    /// On a byline run or told to stay wide, in a wide place or lane.
    #[verifier::when_used_as_spec(spec_keeps_wide)]
    pub fn keeps_wide(&self, ctx: &StateProcessingContext) -> (r: bool)
        ensures
            r == self.spec_keeps_wide(ctx),
    {
        (ctx.player.has_directive(BehavioralDirective::BylineAndCross)
            || ctx.player.has_directive(BehavioralDirective::StayWideNoCutInside)
            || ctx.player.byline_commitment_ticks > 0)
        && (in_outer_lane(ctx, ctx.player.start_position.y)
            || in_outer_lane(ctx, ctx.player.position.y))
    }

    pub open spec fn spec_wide_channel(&self, ctx: &StateProcessingContext) -> Scalar {
        if in_outer_lane(ctx, ctx.player.start_position.y) {
            ctx.player.start_position.y
        } else {
            ctx.player.position.y
        }
    }

    /// The lane of the start position where it is wide, else the present one.
    #[verifier::when_used_as_spec(spec_wide_channel)]
    pub fn wide_channel(&self, ctx: &StateProcessingContext) -> (r: Scalar)
        ensures
            r == self.spec_wide_channel(ctx),
    {
        if in_outer_lane(ctx, ctx.player.start_position.y) {
            ctx.player.start_position.y
        } else {
            ctx.player.position.y
        }
    }

    pub open spec fn spec_faces_goalkeeper(&self, ctx: &StateProcessingContext) -> bool {
        match ctx.opponent_goalkeeper() {
            Some(goalkeeper) => goalkeeper.position.distance_to(ctx.player.position) < units(20)
            && ctx.ball.distance_to_opponent_goal < units(80),
            None => false,
        }
    }

    /// A goalkeeper blocks the way to a close goal.
    #[verifier::when_used_as_spec(spec_faces_goalkeeper)]
    pub fn faces_goalkeeper(&self, ctx: &StateProcessingContext) -> (r: bool)
        ensures
            r == self.spec_faces_goalkeeper(ctx),
    {
        match ctx.opponent_goalkeeper() {
            Some(goalkeeper) => goalkeeper.position.distance_to(ctx.player.position) < units(20)
            && ctx.ball.distance_to_opponent_goal < units(80),
            None => false,
        }
    }

    pub open spec fn spec_sidestep(&self, ctx: &StateProcessingContext) -> Option<Vec3> {
        match ctx.to_goal().direction() {
            Some(way) => {
                let side = if ctx.player.position.y
                    > ctx.height() / units(2) { units(1).negated() } else { units(1) };
                let target = ctx.player.position + turned(way) * side * units(18);
                Some(
                    flat(
                        target.x.clamp(units(15), ctx.width() - units(15)),
                        target.y.clamp(units(15), ctx.height() - units(15)),
                    ),
                )
            },
            None => None,
        }
    }

    /// The spot beside the goalkeeper that opens the angle, within the pitch; none on the very
    /// spot of the goal.
    #[verifier::when_used_as_spec(spec_sidestep)]
    pub fn sidestep(&self, ctx: &StateProcessingContext) -> (r: Option<Vec3>)
        requires
            ctx.field_size.width >= 30,
            ctx.field_size.height >= 30,
        ensures
            r == self.spec_sidestep(ctx),
            r is None <==> ctx.to_goal().is_zero(),
            r matches Some(spot) ==> units(15) <= spot.x && spot.x <= ctx.width() - units(15)
                && units(15) <= spot.y && spot.y <= ctx.height() - units(15),
    {
        match ctx.to_goal().direction() {
            Some(way) => {
                let side = if ctx.player.position.y
                    > ctx.height() / units(2) { units(1).negated() } else { units(1) };
                let target = ctx.player.position + turned(way) * side * units(18);
                Some(
                    flat(
                        target.x.clamp(units(15), ctx.width() - units(15)),
                        target.y.clamp(units(15), ctx.height() - units(15)),
                    ),
                )
            },
            None => None,
        }
    }

    pub open spec fn spec_process_conditions(&self) -> Exertion {
        exertion_with_velocity(ActivityIntensity::High)
    }

    /// The load of the state.
    #[verifier::when_used_as_spec(spec_process_conditions)]
    pub fn process_conditions(&self) -> (r: Exertion)
        ensures
            r == self.spec_process_conditions(),
    {
        exertion_with_velocity(ActivityIntensity::High)
    }

    pub open spec fn spec_should_cross(&self, ctx: &StateProcessingContext) -> bool {
        let y = ctx.player.position.y;
        let wide_margin = ctx.height() * milli(200);
        (y < wide_margin || y > ctx.height() - wide_margin)
        && ctx.ball.distance_to_opponent_goal <= units(300)
        && ctx.ball.distance_to_opponent_goal >= units(60)
        && ctx.teammates_around(ctx.goal(), units(120)) >= 1
        && share(ctx.player.skills.technical.crossing) > milli(400)
    }

    /// Wide in the last third with a teammate in the box and the skill to cross.
    #[verifier::when_used_as_spec(spec_should_cross)]
    pub fn should_cross(&self, ctx: &StateProcessingContext) -> (r: bool)
        ensures
            r == self.spec_should_cross(ctx),
    {
        let y = ctx.player.position.y;
        let wide_margin = ctx.height() * milli(200);
        (y < wide_margin || y > ctx.height() - wide_margin)
        && ctx.ball.distance_to_opponent_goal <= units(300)
        && ctx.ball.distance_to_opponent_goal >= units(60)
        && ctx.teammates_around(ctx.goal(), units(120)) >= 1
        && share(ctx.player.skills.technical.crossing) > milli(400)
    }
}

pub open spec fn spec_in_outer_lane(ctx: &StateProcessingContext, y: Scalar) -> bool {
    y < ctx.height() * milli(300) || y > ctx.height() * milli(700)
}

/// The outer lanes, three tenths of the pitch on either side.
#[verifier::when_used_as_spec(spec_in_outer_lane)]
pub fn in_outer_lane(ctx: &StateProcessingContext, y: Scalar) -> (r: bool)
    ensures
        r == spec_in_outer_lane(ctx, y),
{
    y < ctx.height() * milli(300) || y > ctx.height() * milli(700)
}

pub open spec fn spec_goal_line_distance(ctx: &StateProcessingContext) -> Scalar {
    (ctx.goal().x - ctx.player.position.x).abs()
}

/// How far the player is from the goal line under attack.
#[verifier::when_used_as_spec(spec_goal_line_distance)]
pub fn goal_line_distance(ctx: &StateProcessingContext) -> (r: Scalar)
    ensures
        r == spec_goal_line_distance(ctx),
{
    (ctx.goal().x - ctx.player.position.x).abs()
}

pub open spec fn spec_may_shoot(ctx: &StateProcessingContext) -> bool {
    ctx.team.can_shoot && ctx.player.can_shoot
}

/// Neither the team nor the player has to wait with a shot.
#[verifier::when_used_as_spec(spec_may_shoot)]
pub fn may_shoot(ctx: &StateProcessingContext) -> (r: bool)
    ensures
        r == spec_may_shoot(ctx),
{
    ctx.team.can_shoot && ctx.player.can_shoot
}

/// A dribbling forward only shoots where the central rule says so.
pub proof fn dribble_shots_follow_the_rule(
    state: ForwardDribblingState,
    ctx: &StateProcessingContext,
)
    ensures
        (
            state.process(ctx) matches Some(r)
                && r.state == PlayerState::Forward(ForwardState::Shooting)
        )
            ==> {
            &&& ctx.player.has_ball
            &&& may_shoot(ctx)
            &&& exists|o: ShotOccasion|
                (#[trigger] ctx.evaluate_forward_shot_decision(o) matches ShotDecision::Shoot {
                    reason,
                } && state.process(ctx)->0.shot_reason == Some(reason))
        },
{
    let a = ctx.evaluate_forward_shot_decision(ShotOccasion::DribbleNearGoalkeeper);
    let b = ctx.evaluate_forward_shot_decision(ShotOccasion::DribbleClear);
    let c = ctx.evaluate_forward_shot_decision(ShotOccasion::DribbleRange);
    let d = ctx.evaluate_forward_shot_decision(ShotOccasion::DribbleTimeout);
}

/// The forward has the ball with an opponent around, no order to lay it off and none to run to the
/// byline.
pub open spec fn is_on_the_dribble(ctx: &StateProcessingContext) -> bool {
    &&& ctx.player.has_ball
    &&& ctx.player.behavioral_directive is None
    &&& exists|o: MatchPlayerLite| #[trigger] ctx.opponents@.contains(o) && o.distance <= units(25)
}

/// A forward without the ball, or with nobody around to beat, runs; the ball is laid off by order,
/// right after it came or after a long ball.
pub proof fn dribbles_need_somebody_to_beat(
    state: ForwardDribblingState,
    ctx: &StateProcessingContext,
)
    ensures
        !ctx.player.has_ball ==> state.process(ctx) == Some(
            with_forward_state(ForwardState::Running),
        ),
        (ctx.player.has_ball && ctx.player.behavioral_directive is None && forall|o: MatchPlayerLite|
         #[trigger]
            ctx.opponents@.contains(o) ==> o.distance > units(25)) ==> state.process(ctx) == Some(
            with_forward_state(ForwardState::Running),
        ),
        (ctx.player.has_ball && ctx.player.behavioral_directive == Some(
            BehavioralDirective::LayItOffFirstTouch,
        ) && ctx.ball.ownership_duration < 30) ==> state.process(ctx) == Some(
            with_forward_state(ForwardState::Passing),
        ),
        (ctx.player.has_ball && ctx.player.behavioral_directive == Some(
            BehavioralDirective::LayOffOnLongBall,
        ) && ctx.ball.ownership_duration < 60 && ctx.ball.long_reception) ==> state.process(ctx) == Some(
            with_forward_state(ForwardState::Passing),
        ),
{
    crate::context::nearby_means_close(ctx, units(25), units(25));
}

/// A run to the byline by order, from a wide place, ends in a cross near the line, in a pass
/// between
/// two opponents, and goes on otherwise.
pub proof fn ordered_runs_end_at_the_byline(
    state: ForwardDribblingState,
    ctx: &StateProcessingContext,
)
    requires
        ctx.player.has_ball,
        ctx.player.behavioral_directive == Some(BehavioralDirective::BylineAndCross),
        ctx.player.start_position.y < ctx.height() * milli(300) || ctx.player.start_position.y
            > ctx.height() * milli(700),
    ensures
        ({
            let wide = ctx.player.position.y < ctx.height() * milli(300) || ctx.player.position.y
                > ctx.height() * milli(700);
            let at_the_line = (ctx.goal().x - ctx.player.position.x).abs() < units(40);
            if wide && at_the_line {
                state.process(ctx) == Some(with_forward_state(ForwardState::Crossing))
            } else if ctx.opponents_nearby(units(8)) >= 2 {
                state.process(ctx) == Some(with_forward_state(ForwardState::Passing))
            } else {
                state.process(ctx) is None
            }
        }),
{
}

/// Close to the goalkeeper, with permission, the central rule on shots decides, and right in front
/// of the goalkeeper its hold is a pass.
pub proof fn goalkeepers_are_beaten_by_the_rule(
    state: ForwardDribblingState,
    ctx: &StateProcessingContext,
    goalkeeper: MatchPlayerLite,
)
    requires
        is_on_the_dribble(ctx),
        ctx.opponent_goalkeeper() == Some(goalkeeper),
        ctx.player.position.distance_to(goalkeeper.position) < units(25),
        ctx.ball.distance_to_opponent_goal < units(120),
        ctx.team.can_shoot,
        ctx.player.can_shoot,
    ensures
        match ctx.shots.dribble_near_goalkeeper {
            ShotDecision::Shoot { reason } => state.process(ctx) matches Some(r) && r.state
                == PlayerState::Forward(ForwardState::Shooting) && r.shot_reason == Some(reason),
            ShotDecision::Pass => state.process(ctx) == Some(
                with_forward_state(ForwardState::Passing),
            ),
            ShotDecision::Hold => ctx.player.position.distance_to(goalkeeper.position) < units(12)
                ==> state.process(ctx) == Some(with_forward_state(ForwardState::Passing)),
        },
{
    crate::context::nearby_means_close(ctx, units(25), units(25));
}

/// Away from the goalkeeper, a clear shot in range is by the central rule, and so is one that is
/// worth a try; without permission there is none.
pub proof fn clear_shots_follow_the_rule(
    state: ForwardDribblingState,
    ctx: &StateProcessingContext,
)
    requires
        is_on_the_dribble(ctx),
        ctx.ball.distance_to_opponent_goal >= units(120),
        ctx.player.clear_shot,
        ctx.team.can_shoot,
        ctx.player.can_shoot,
    ensures
        ctx.player.in_shooting_range ==> match ctx.shots.dribble_clear {
            ShotDecision::Shoot { reason } => state.process(ctx) matches Some(r) && r.state
                == PlayerState::Forward(ForwardState::Shooting) && r.shot_reason == Some(reason),
            ShotDecision::Pass => state.process(ctx) == Some(
                with_forward_state(ForwardState::Passing),
            ),
            ShotDecision::Hold => true,
        },
        ctx.player.should_attempt_shot
            && !ctx.player.in_shooting_range ==> match ctx.shots.dribble_range {
            ShotDecision::Shoot { reason } => state.process(ctx) matches Some(r) && r.state
                == PlayerState::Forward(ForwardState::Shooting) && r.shot_reason == Some(reason),
            ShotDecision::Pass => state.process(ctx) == Some(
                with_forward_state(ForwardState::Passing),
            ),
            ShotDecision::Hold => true,
        },
{
    crate::context::nearby_means_close(ctx, units(25), units(25));
}

/// A dribble without a chance to shoot: committed to the byline, it ends in a cross beyond the
/// penalty spot; else after a while in a late shot by the rule or a pass; between two opponents,
/// and after some time with one tight, in a pass; and on the flank in a cross where somebody
/// waits.
pub proof fn dribbles_end(state: ForwardDribblingState, ctx: &StateProcessingContext)
    requires
        is_on_the_dribble(ctx),
        ctx.ball.distance_to_opponent_goal >= units(120) || !ctx.team.can_shoot
            || !ctx.player.can_shoot,
        !ctx.player.clear_shot || !ctx.team.can_shoot || !ctx.player.can_shoot,
    ensures
        ({
            let committed = ctx.player.byline_commitment_ticks > 0;
            let y = ctx.player.position.y;
            let deep = (y < ctx.height() * milli(380) || y > ctx.height() * milli(620)) && (ctx.goal().x
                - ctx.player.position.x).abs() <= units(100);
            let goes_to = |s: ForwardState| state.process(ctx) == Some(with_forward_state(s));
            &&& committed && deep ==> goes_to(ForwardState::Crossing)
            &&& committed && !deep
                && ctx.opponents_nearby(units(8)) >= 2 ==> goes_to(ForwardState::Passing)
            &&& committed && !deep
                && ctx.opponents_nearby(units(8)) < 2 ==> state.process(ctx) is None
            &&& !committed && ctx.in_state_time > 40 ==> goes_to(ForwardState::Passing)
            &&& !committed && ctx.in_state_time <= 40
                && ctx.opponents_nearby(units(8)) >= 2 ==> goes_to(
                ForwardState::Passing,
            )
            &&& !committed && 15 <= ctx.in_state_time <= 40 && (exists|o: MatchPlayerLite| #[trigger]
                ctx.opponents@.contains(o) && o.distance <= units(10)) ==> goes_to(ForwardState::Passing)
            &&& !committed && ctx.in_state_time < 15 && ctx.opponents_nearby(units(8)) < 2 ==> if
                state.should_cross(ctx) {
                goes_to(ForwardState::Crossing)
            } else {
                state.process(ctx) is None
            }
        }),
{
    crate::context::nearby_means_close(ctx, units(25), units(25));
    crate::context::nearby_means_close(ctx, units(10), units(10));
}

/// After a long dribble near the goal a clear shot is by the central rule, and else the ball is
/// passed.
pub proof fn late_shots_follow_the_rule(state: ForwardDribblingState, ctx: &StateProcessingContext)
    requires
        is_on_the_dribble(ctx),
        ctx.opponent_goalkeeper() is None,
        ctx.team.can_shoot,
        ctx.player.can_shoot,
        ctx.player.clear_shot,
        !ctx.player.in_shooting_range,
        !ctx.player.should_attempt_shot,
        ctx.player.byline_commitment_ticks == 0,
        ctx.in_state_time > 40,
    ensures
        state.process(ctx) matches Some(r) && (ctx.ball.distance_to_opponent_goal < units(60)
            ==> match ctx.shots.dribble_timeout {
            ShotDecision::Shoot { reason } => r.state
                == PlayerState::Forward(ForwardState::Shooting)
                && r.shot_reason == Some(reason),
            _ => r == with_forward_state(ForwardState::Passing),
        }) && (ctx.ball.distance_to_opponent_goal >= units(60) ==> r == with_forward_state(
            ForwardState::Passing,
        )),
{
    crate::context::nearby_means_close(ctx, units(25), units(25));
}

/// A cross is for the flank within 60 to 300 of the goal, with a teammate in front of it and the
/// skill.
pub proof fn crosses_find_somebody(state: ForwardDribblingState, ctx: &StateProcessingContext)
    ensures
        state.should_cross(ctx) ==> {
            &&& ctx.player.position.y < ctx.height() * milli(200)
                || ctx.player.position.y > ctx.height()
                - ctx.height() * milli(200)
            &&& ctx.ball.distance_to_opponent_goal.is_between(units(60), units(300))
            &&& ctx.player.skills.technical.crossing > units(8)
            &&& ctx.teammates_around(ctx.goal(), units(120)) > 0
        },
        (ctx.player.position.y < ctx.height() * milli(200) && ctx.ball.distance_to_opponent_goal.is_between(
            units(60),
            units(300),
        ) && ctx.player.skills.technical.crossing >= units(9) && ctx.teammates_around(
            ctx.goal(),
            units(120),
        ) > 0) ==> state.should_cross(ctx),
{
    if ctx.player.skills.technical.crossing <= units(8) {
        crate::scalar::quotient_keeps_order(
            ctx.player.skills.technical.crossing,
            units(8),
            units(20),
        );
    }
    if units(9) <= ctx.player.skills.technical.crossing {
        crate::scalar::quotient_keeps_order(
            units(9),
            ctx.player.skills.technical.crossing,
            units(20),
        );
    }
}

/// Round a goalkeeper who blocks the way the forward steps towards the middle of the pitch; on a
/// byline run the forward stays in the own lane, and else carries the ball to the best spot, and
/// towards the goal from there.
pub proof fn dribbles_lead_somewhere(state: ForwardDribblingState, ctx: &StateProcessingContext)
    requires
        state.fits_pitch(ctx),
    ensures
        ({
            let outer = |y: Scalar| y < ctx.height() * milli(300) || y > ctx.height() * milli(700);
            let told = ctx.player.behavioral_directive == Some(BehavioralDirective::BylineAndCross)
                ||
                    ctx.player.behavioral_directive == Some(
                        BehavioralDirective::StayWideNoCutInside,
                    )
                || ctx.player.byline_commitment_ticks > 0;
            let wide = told
                && (outer(ctx.player.start_position.y) || outer(ctx.player.position.y));
            let faced = ctx.opponent_goalkeeper() matches Some(g) && g.position.distance_to(
                ctx.player.position,
            ) < units(20) && ctx.ball.distance_to_opponent_goal < units(80);
            let to = |spot: Vec3, slowing: Scalar|
                state.velocity(ctx) matches Some(m) && m.steering == Some(
                    Steering::Arrive { target: spot, slowing_distance: slowing },
                ) && m.factor == units(1);
            &&& wide ==> to(
                flat(
                    ctx.goal().x,
                    if outer(ctx.player.start_position.y) {
                        ctx.player.start_position.y
                    } else {
                        ctx.player.position.y
                    },
                ),
                units(30),
            )
            &&& !wide && !faced
                && ctx.player.carry_target.distance_to(ctx.player.position) < units(6)
                ==> to(ctx.goal(), units(150))
            &&& !wide && !faced
                && ctx.player.carry_target.distance_to(ctx.player.position) >= units(6)
                ==> to(ctx.player.carry_target, units(20))
        }),
{
}

/// The ball is to be laid off by order within 30 steps of getting it, or within 60 after a long
/// ball; without such an order never.
pub proof fn orders_to_lay_off_run_out(state: ForwardDribblingState, ctx: &StateProcessingContext)
    ensures
        ctx.player.behavioral_directive == Some(BehavioralDirective::LayItOffFirstTouch)
            ==> (state.must_lay_off(ctx) <==> ctx.ball.ownership_duration < 30),
        ctx.player.behavioral_directive == Some(BehavioralDirective::LayOffOnLongBall)
            ==> (
                state.must_lay_off(ctx) <==> ctx.ball.ownership_duration < 60
                    && ctx.ball.long_reception
            ),
        ctx.player.behavioral_directive is None ==> !state.must_lay_off(ctx),
        state.ordered_to_the_byline(ctx) ==> ctx.player.behavioral_directive == Some(
            BehavioralDirective::BylineAndCross,
        ),
{
}

} // verus!
