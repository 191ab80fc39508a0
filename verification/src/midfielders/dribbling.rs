//! A midfielder who carries the ball past opponents.
use crate::context::{
    share, to_count, turned, BehavioralDirective, MatchPlayerLite, ShotDecision, ShotOccasion,
    StateProcessingContext,
};
use crate::outcome::{
    exertion_with_velocity, glide, glide_along, glide_if_any, with_midfielder_state,
    ActivityIntensity, Exertion, MidfielderState, Movement, PlayerState, StateChangeResult,
};
use crate::scalar::{milli, units, Scalar};
use crate::scan;
use crate::vector::{vec3, Vec3};
use vstd::prelude::*;

verus! {

#[derive(Default, Clone, Copy)]
pub struct MidfielderDribblingState {}

impl MidfielderDribblingState {
    pub open spec fn spec_process(
        &self,
        ctx: &StateProcessingContext,
    ) -> Option<StateChangeResult> {
        if !ctx.player.has_ball {
            Some(with_midfielder_state(MidfielderState::Running))
        } else if ctx.player.has_directive(BehavioralDirective::LayItOffFirstTouch)
            && ctx.ball.ownership_duration < 30 {
            Some(with_midfielder_state(MidfielderState::Passing))
        } else if ctx.player.has_directive(BehavioralDirective::BylineAndCross)
            && self.is_wide(ctx) {
            self.byline_run(ctx)
        } else {
            match ctx.evaluate_forward_shot_decision(ShotOccasion::MidfieldDribble) {
                ShotDecision::Shoot { reason } => {
                    Some(with_midfielder_state(MidfielderState::Shooting).with_shot_reason(reason))
                },
                _ => {
                    match self.point_blank(ctx) {
                        Some(result) => {
                            Some(result)
                        },
                        None => {
                            if ctx.opponents_nearby(units(15)) >= 2 {
                                Some(self.under_pressure(ctx))
                            } else if ctx.in_state_time > self.max_dribble_ticks(ctx) {
                                if ctx.best_pass.within_200.is_some() {
                                    Some(with_midfielder_state(MidfielderState::Passing))
                                } else {
                                    Some(with_midfielder_state(MidfielderState::Running))
                                }
                            } else if ctx.in_state_time > 15
                                && !ctx.player.midfield.allows_take_on_one
                                && ctx.best_pass.within_200.is_some() {
                                Some(with_midfielder_state(MidfielderState::Passing))
                            } else {
                                None
                            }
                        },
                    }
                },
            }
        }
    }

    /// The next state of a dribbling midfielder.
    #[verifier::when_used_as_spec(spec_process)]
    pub fn process(&self, ctx: &StateProcessingContext) -> (r: Option<StateChangeResult>)
        ensures
            r == self.spec_process(ctx),
    {
        if !ctx.player.has_ball {
            return Some(with_midfielder_state(MidfielderState::Running));
        }
        if ctx.player.has_directive(BehavioralDirective::LayItOffFirstTouch)
            && ctx.ball.ownership_duration < 30 {
            return Some(with_midfielder_state(MidfielderState::Passing));
        }
        if ctx.player.has_directive(BehavioralDirective::BylineAndCross) && self.is_wide(ctx) {
            return self.byline_run(ctx);
        }
        match ctx.evaluate_forward_shot_decision(ShotOccasion::MidfieldDribble) {
            ShotDecision::Shoot { reason } => {
                return Some(
                    with_midfielder_state(MidfielderState::Shooting).with_shot_reason(reason),
                );
            },
            _ => {},
        }
        match self.point_blank(ctx) {
            Some(result) => {
                return Some(result);
            },
            None => {},
        }
        if ctx.opponents_nearby(units(15)) >= 2 {
            return Some(self.under_pressure(ctx));
        }
        if ctx.in_state_time > self.max_dribble_ticks(ctx) {
            if ctx.best_pass.within_200.is_some() {
                return Some(with_midfielder_state(MidfielderState::Passing));
            } else {
                return Some(with_midfielder_state(MidfielderState::Running));
            }
        }
        if ctx.in_state_time > 15 && !ctx.player.midfield.allows_take_on_one
            && ctx.best_pass.within_200.is_some() {
            return Some(with_midfielder_state(MidfielderState::Passing));
        }
        None
    }

    pub open spec fn spec_is_wide(&self, ctx: &StateProcessingContext) -> bool {
        let y = ctx.player.position.y;
        y < ctx.height() * milli(260) || y > ctx.height() * milli(740)
    }

    /// In the outer quarter of the pitch, on either side.
    #[verifier::when_used_as_spec(spec_is_wide)]
    pub fn is_wide(&self, ctx: &StateProcessingContext) -> (r: bool)
        ensures
            r == self.spec_is_wide(ctx),
    {
        let y = ctx.player.position.y;
        y < ctx.height() * milli(260) || y > ctx.height() * milli(740)
    }

    pub open spec fn spec_byline_run(
        &self,
        ctx: &StateProcessingContext,
    ) -> Option<StateChangeResult> {
        if (ctx.goal().x - ctx.player.position.x).abs() < units(40) {
            Some(with_midfielder_state(MidfielderState::Crossing))
        } else if ctx.opponents_nearby(units(8)) >= 2 {
            Some(with_midfielder_state(MidfielderState::Passing))
        } else {
            None
        }
    }

    /// On a run that the manager ordered: a cross near the byline, a pass under pressure from
    /// two, or on with the run.
    #[verifier::when_used_as_spec(spec_byline_run)]
    pub fn byline_run(&self, ctx: &StateProcessingContext) -> (r: Option<StateChangeResult>)
        ensures
            r == self.spec_byline_run(ctx),
    {
        if (ctx.goal().x - ctx.player.position.x).abs() < units(40) {
            return Some(with_midfielder_state(MidfielderState::Crossing));
        }
        if ctx.opponents_nearby(units(8)) >= 2 {
            return Some(with_midfielder_state(MidfielderState::Passing));
        }
        None
    }

    pub open spec fn spec_point_blank_willingness(&self, ctx: &StateProcessingContext) -> Scalar {
        (milli(100) + ctx.player.shooting.selection_skill * milli(300)
            + ctx.player.midfield.mid_shot_selection * milli(200)).clamp(milli(120), milli(650))
    }

    /// How willing the midfielder is to shoot right in front of the goal.
    #[verifier::when_used_as_spec(spec_point_blank_willingness)]
    pub fn point_blank_willingness(&self, ctx: &StateProcessingContext) -> (r: Scalar)
        ensures
            r == self.spec_point_blank_willingness(ctx),
            milli(120) <= r,
            r <= milli(650),
    {
        (milli(100) + ctx.player.shooting.selection_skill * milli(300)
            + ctx.player.midfield.mid_shot_selection * milli(200)).clamp(milli(120), milli(650))
    }

    pub open spec fn spec_point_blank(
        &self,
        ctx: &StateProcessingContext,
    ) -> Option<StateChangeResult> {
        if ctx.ball.distance_to_opponent_goal >= units(22) {
            None
        } else if ctx.rolls.point_blank < self.point_blank_willingness(ctx) {
            Some(
                with_midfielder_state(
                    MidfielderState::Shooting,
                ).with_shot_reason("MID_DRIB_POINT_BLANK"),
            )
        } else if ctx.best_pass.within_60.is_some() {
            Some(with_midfielder_state(MidfielderState::Passing))
        } else {
            None
        }
    }

    /// Right in front of the goal: a shot by willingness, else a pass where there is one.
    #[verifier::when_used_as_spec(spec_point_blank)]
    pub fn point_blank(&self, ctx: &StateProcessingContext) -> (r: Option<StateChangeResult>)
        ensures
            r == self.spec_point_blank(ctx),
    {
        if ctx.ball.distance_to_opponent_goal >= units(22) {
            return None;
        }
        if ctx.rolls.point_blank < self.point_blank_willingness(ctx) {
            return Some(
                with_midfielder_state(
                    MidfielderState::Shooting,
                ).with_shot_reason("MID_DRIB_POINT_BLANK"),
            );
        }
        if ctx.best_pass.within_60.is_some() {
            return Some(with_midfielder_state(MidfielderState::Passing));
        }
        None
    }

    pub open spec fn spec_under_pressure(
        &self,
        ctx: &StateProcessingContext,
    ) -> StateChangeResult {
        if ctx.ball.distance_to_opponent_goal < units(32) && ctx.player.clear_shot
        && ctx.player.midfield.mid_shot_selection >= milli(420) {
            with_midfielder_state(MidfielderState::Shooting).with_shot_reason(
                "MID_DRIB_PRESSURED_SHOOT",
            )
        } else {
            with_midfielder_state(MidfielderState::Passing)
        }
    }

    /// Between two opponents: a shot from close by for those who can, else a pass.
    #[verifier::when_used_as_spec(spec_under_pressure)]
    pub fn under_pressure(&self, ctx: &StateProcessingContext) -> (r: StateChangeResult)
        ensures
            r == self.spec_under_pressure(ctx),
    {
        if ctx.ball.distance_to_opponent_goal < units(32) && ctx.player.clear_shot
        && ctx.player.midfield.mid_shot_selection >= milli(420) {
            with_midfielder_state(MidfielderState::Shooting).with_shot_reason(
                "MID_DRIB_PRESSURED_SHOOT",
            )
        } else {
            with_midfielder_state(MidfielderState::Passing)
        }
    }

    pub open spec fn spec_max_dribble_ticks(&self, ctx: &StateProcessingContext) -> u64 {
        to_count(units(25) + ctx.player.midfield.carry_selection * units(55)) as u64
    }

    /// How long the midfielder carries the ball, by the skill to do so.
    #[verifier::when_used_as_spec(spec_max_dribble_ticks)]
    pub fn max_dribble_ticks(&self, ctx: &StateProcessingContext) -> (r: u64)
        ensures
            r == self.spec_max_dribble_ticks(ctx),
    {
        to_count(units(25) + ctx.player.midfield.carry_selection * units(55)) as u64
    }

    pub open spec fn spec_velocity(&self, ctx: &StateProcessingContext) -> Option<Movement> {
        if !ctx.player.has_ball {
            Some(self.follow(ctx))
        } else {
            Some(
                glide_along(
                    self.carry_direction(ctx),
                    self.carry_speed(ctx),
                ).plus(ctx.player.separation_velocity),
            )
        }
    }

    /// After the ball without it; with it towards the goal or the byline, round the nearest
    /// opponent.
    #[verifier::when_used_as_spec(spec_velocity)]
    pub fn velocity(&self, ctx: &StateProcessingContext) -> (r: Option<Movement>)
        ensures
            r == self.spec_velocity(ctx),
    {
        if !ctx.player.has_ball {
            return Some(self.follow(ctx));
        }
        Some(
            glide_along(
                self.carry_direction(ctx),
                self.carry_speed(ctx),
            ).plus(ctx.player.separation_velocity),
        )
    }

    pub open spec fn spec_follow(&self, ctx: &StateProcessingContext) -> Movement {
        match (ctx.ball.position - ctx.player.position).direction() {
            Some(way) => glide(way * ctx.player.skills.physical.pace * milli(300)),
            None => glide_if_any(None),
        }
    }

    /// After the ball, without haste; there is no direction on the very spot of it.
    #[verifier::when_used_as_spec(spec_follow)]
    pub fn follow(&self, ctx: &StateProcessingContext) -> (r: Movement)
        ensures
            r == self.spec_follow(ctx),
    {
        match (ctx.ball.position - ctx.player.position).direction() {
            Some(way) => glide(way * ctx.player.skills.physical.pace * milli(300)),
            None => glide_if_any(None),
        }
    }

    pub open spec fn spec_carry_goal(&self, ctx: &StateProcessingContext) -> Vec3 {
        let goal = ctx.goal();
        let start_y = ctx.player.start_position.y;
        if (ctx.player.has_directive(BehavioralDirective::BylineAndCross)
            || ctx.player.has_directive(BehavioralDirective::StayWideNoCutInside)) && self.is_wide(ctx) {
            let lane = if start_y < ctx.height() * milli(300)
                || start_y > ctx.height() * milli(700) {
                start_y
            } else {
                ctx.player.position.y
            };
            vec3(goal.x, lane, goal.z)
        } else {
            goal
        }
    }

    /// The goal, or the byline in the midfielder's own lane where the manager wants it.
    #[verifier::when_used_as_spec(spec_carry_goal)]
    pub fn carry_goal(&self, ctx: &StateProcessingContext) -> (r: Vec3)
        ensures
            r == self.spec_carry_goal(ctx),
    {
        let goal = ctx.goal();
        let start_y = ctx.player.start_position.y;
        if (ctx.player.has_directive(BehavioralDirective::BylineAndCross)
            || ctx.player.has_directive(BehavioralDirective::StayWideNoCutInside)) && self.is_wide(ctx) {
            let lane = if start_y < ctx.height() * milli(300)
                || start_y > ctx.height() * milli(700) {
                start_y
            } else {
                ctx.player.position.y
            };
            vec3(goal.x, lane, goal.z)
        } else {
            goal
        }
    }

    pub open spec fn spec_carry_speed(&self, ctx: &StateProcessingContext) -> Scalar {
        milli(3500) * (milli(500) * share(ctx.player.skills.technical.dribbling)
            + milli(300) * share(ctx.player.skills.physical.pace)
            + milli(200) * share(ctx.player.skills.physical.agility))
    }

    /// The speed on the ball.
    #[verifier::when_used_as_spec(spec_carry_speed)]
    pub fn carry_speed(&self, ctx: &StateProcessingContext) -> (r: Scalar)
        ensures
            r == self.spec_carry_speed(ctx),
    {
        milli(3500) * (milli(500) * share(ctx.player.skills.technical.dribbling)
            + milli(300) * share(ctx.player.skills.physical.pace)
            + milli(200) * share(ctx.player.skills.physical.agility))
    }

    pub open spec fn spec_carry_direction(&self, ctx: &StateProcessingContext) -> Option<Vec3> {
        match (self.carry_goal(ctx) - ctx.player.position).direction() {
            Some(ahead) => match scan::least_where(
                ctx.opponents@,
                |o: MatchPlayerLite| o.distance <= units(30),
                |o: MatchPlayerLite| (o.position - ctx.player.position).magnitude(),
            ) {
                Some(opponent) => self.round(ctx, ahead, opponent.position - ctx.player.position),
                None => Some(ahead),
            },
            None => None,
        }
    }

    /// Straight on, in a curve round an opponent nearby, or aside from one who is close; none
    /// where the goal or the opponent is on the same spot.
    #[verifier::when_used_as_spec(spec_carry_direction)]
    pub fn carry_direction(&self, ctx: &StateProcessingContext) -> (r: Option<Vec3>)
        ensures
            r == self.spec_carry_direction(ctx),
    {
        match (self.carry_goal(ctx) - ctx.player.position).direction() {
            Some(ahead) => match scan::least_of(
                &ctx.opponents,
                |o: MatchPlayerLite| -> (b: bool)
                    ensures b == (o.distance <= units(30))
                {
                    o.distance <= units(30)
                },
                |o: MatchPlayerLite| -> (b: Scalar)
                    ensures b == ((o.position - ctx.player.position).magnitude())
                {
                    (o.position - ctx.player.position).magnitude()
                },
                Ghost(|o: MatchPlayerLite| o.distance <= units(30)),
                Ghost(|o: MatchPlayerLite| (o.position - ctx.player.position).magnitude()),
            ) {
                Some(opponent) => self.round(ctx, ahead, opponent.position - ctx.player.position),
                None => Some(ahead),
            },
            None => None,
        }
    }

    pub open spec fn spec_round(
        &self,
        ctx: &StateProcessingContext,
        ahead: Vec3,
        way: Vec3,
    ) -> Option<Vec3> {
        match way.direction() {
            Some(to_opponent) => if way.magnitude() < units(20) {
                self.dodge(ctx, ahead, to_opponent)
            } else {
                (ahead - to_opponent * milli(300)).direction()
            },
            None => None,
        }
    }

    /// The direction round an opponent who is some way off.
    #[verifier::when_used_as_spec(spec_round)]
    pub fn round(&self, ctx: &StateProcessingContext, ahead: Vec3, way: Vec3) -> (r: Option<Vec3>)
        ensures
            r == self.spec_round(ctx, ahead, way),
    {
        match way.direction() {
            Some(to_opponent) => if way.magnitude() < units(20) {
                self.dodge(ctx, ahead, to_opponent)
            } else {
                (ahead - to_opponent * milli(300)).direction()
            },
            None => None,
        }
    }

    pub open spec fn spec_dodge(
        &self,
        ctx: &StateProcessingContext,
        ahead: Vec3,
        to_opponent: Vec3,
    ) -> Option<Vec3> {
        let skill = share(ctx.player.skills.technical.dribbling);
        let left = turned(to_opponent);
        let right = left * units(1).negated();
        let side = if left.dot(ahead) > right.dot(ahead) { left } else { right };
        (ahead * skill + side * (units(1) - skill * milli(500))).direction()
    }

    /// Aside from a close opponent, to the side that leads to the goal; skilled dribblers stay
    /// on course.
    #[verifier::when_used_as_spec(spec_dodge)]
    pub fn dodge(
        &self,
        ctx: &StateProcessingContext,
        ahead: Vec3,
        to_opponent: Vec3,
    ) -> (r: Option<Vec3>)
        ensures
            r == self.spec_dodge(ctx, ahead, to_opponent),
    {
        let skill = share(ctx.player.skills.technical.dribbling);
        let left = turned(to_opponent);
        let right = left * units(1).negated();
        let side = if left.dot(ahead) > right.dot(ahead) { left } else { right };
        (ahead * skill + side * (units(1) - skill * milli(500))).direction()
    }

    pub open spec fn spec_process_conditions(&self) -> Exertion {
        exertion_with_velocity(ActivityIntensity::Moderate)
    }

    /// The load of the state.
    #[verifier::when_used_as_spec(spec_process_conditions)]
    pub fn process_conditions(&self) -> (r: Exertion)
        ensures
            r == self.spec_process_conditions(),
    {
        exertion_with_velocity(ActivityIntensity::Moderate)
    }

    pub open spec fn spec_find_open_teammate(
        &self,
        ctx: &StateProcessingContext,
    ) -> Option<MatchPlayerLite> {
        ctx.best_pass.within_200
    }

    /// The best receiver in range.
    #[verifier::when_used_as_spec(spec_find_open_teammate)]
    pub fn find_open_teammate(&self, ctx: &StateProcessingContext) -> (r: Option<MatchPlayerLite>)
        ensures
            r == self.spec_find_open_teammate(ctx),
    {
        ctx.best_pass.within_200
    }

    pub open spec fn spec_is_in_shooting_position(&self, ctx: &StateProcessingContext) -> bool {
        ctx.player.position.distance_to(ctx.goal()) <= units(25)
    }

    #[verifier::when_used_as_spec(spec_is_in_shooting_position)]
    pub fn is_in_shooting_position(&self, ctx: &StateProcessingContext) -> (r: bool)
        ensures
            r == self.spec_is_in_shooting_position(ctx),
    {
        ctx.player.position.distance_to(ctx.goal()) <= units(25)
    }

    pub open spec fn spec_should_return_to_position(&self, ctx: &StateProcessingContext) -> bool {
        ctx.player.distance_from_start_position > units(20) && !ctx.team.control_ball
    }

    #[verifier::when_used_as_spec(spec_should_return_to_position)]
    pub fn should_return_to_position(&self, ctx: &StateProcessingContext) -> (r: bool)
        ensures
            r == self.spec_should_return_to_position(ctx),
    {
        ctx.player.distance_from_start_position > units(20) && !ctx.team.control_ball
    }

    pub open spec fn spec_should_press(&self, ctx: &StateProcessingContext) -> bool {
        !ctx.team.control_ball && ctx.ball.distance < units(150)
    }

    #[verifier::when_used_as_spec(spec_should_press)]
    pub fn should_press(&self, ctx: &StateProcessingContext) -> (r: bool)
        ensures
            r == self.spec_should_press(ctx),
    {
        !ctx.team.control_ball && ctx.ball.distance < units(150)
    }
}

/// A midfielder without the ball runs; the ball is laid off by order right after it came; a run to
/// the byline by order ends in a cross near the line, in a pass between two opponents, and goes on
/// otherwise.
pub proof fn orders_come_first(state: MidfielderDribblingState, ctx: &StateProcessingContext)
    ensures
        !ctx.player.has_ball ==> state.process(ctx) == Some(
            with_midfielder_state(MidfielderState::Running),
        ),
        (ctx.player.has_ball && ctx.player.behavioral_directive == Some(
            BehavioralDirective::LayItOffFirstTouch,
        ) && ctx.ball.ownership_duration < 30) ==> state.process(ctx) == Some(
            with_midfielder_state(MidfielderState::Passing),
        ),
        (ctx.player.has_ball && ctx.player.behavioral_directive == Some(BehavioralDirective::BylineAndCross)
            && (ctx.player.position.y < ctx.height() * milli(260) || ctx.player.position.y > ctx.height()
            * milli(740))) ==> (if (ctx.goal().x - ctx.player.position.x).abs() < units(40) {
            state.process(ctx) == Some(with_midfielder_state(MidfielderState::Crossing))
        } else if ctx.opponents_nearby(units(8)) >= 2 {
            state.process(ctx) == Some(with_midfielder_state(MidfielderState::Passing))
        } else {
            state.process(ctx) is None
        }),
{
}

/// With the ball and no orders the midfielder shoots where the central rule on shots says so, for
/// its reason; else right in front of the goal on a draw below the willingness, or passes there to
/// whom there is; between two opponents shoots from close by with a clear lane and the eye for it,
/// or passes; and gives the ball up after a while.
pub proof fn dribbles_end(state: MidfielderDribblingState, ctx: &StateProcessingContext)
    requires
        ctx.player.has_ball,
        ctx.player.behavioral_directive is None,
    ensures
        ctx.shots.midfield_dribble matches ShotDecision::Shoot { reason } ==> (state.process(ctx) matches Some(
            r,
        ) && r.state == PlayerState::Midfielder(MidfielderState::Shooting)
            && r.shot_reason == Some(
            reason,
        )),
        !(ctx.shots.midfield_dribble is Shoot) ==> {
            let close = ctx.ball.distance_to_opponent_goal < units(22);
            let dares = close && ctx.rolls.point_blank < state.point_blank_willingness(ctx);
            let finds = close && !dares && ctx.best_pass.within_60 is Some;
            let pressed = ctx.opponents_nearby(units(15)) >= 2;
            let on = !dares && !finds && !pressed;
            let late = ctx.in_state_time > state.max_dribble_ticks(ctx);
            &&& dares ==> (state.process(ctx) matches Some(r) && r.state == PlayerState::Midfielder(
                MidfielderState::Shooting,
            ) && r.shot_reason == Some("MID_DRIB_POINT_BLANK"))
            &&& finds ==> state.process(ctx) == Some(
                with_midfielder_state(MidfielderState::Passing),
            )
            &&& !dares && !finds && pressed ==> if ctx.ball.distance_to_opponent_goal < units(32)
                && ctx.player.clear_shot && ctx.player.midfield.mid_shot_selection >= milli(420) {
                state.process(ctx) matches Some(r) && r.state == PlayerState::Midfielder(
                    MidfielderState::Shooting,
                ) && r.shot_reason == Some("MID_DRIB_PRESSURED_SHOOT")
            } else {
                state.process(ctx) == Some(with_midfielder_state(MidfielderState::Passing))
            }
            &&& on && late ==> state.process(ctx) == Some(
                with_midfielder_state(
                    if ctx.best_pass.within_200 is Some {
                        MidfielderState::Passing
                    } else {
                        MidfielderState::Running
                    },
                ),
            )
            &&& on && !late ==> if ctx.in_state_time > 15
                && !ctx.player.midfield.allows_take_on_one
                && ctx.best_pass.within_200 is Some {
                state.process(ctx) == Some(with_midfielder_state(MidfielderState::Passing))
            } else {
                state.process(ctx) is None
            }
        },
{
}

/// The better the judgement of a shot, the more willing; the better the carry, the longer the
/// dribble, from 25 steps on to 80; the more skilled, the faster.
pub proof fn skills_pay(
    state: MidfielderDribblingState,
    ctx: &StateProcessingContext,
    other: &StateProcessingContext,
)
    requires
        ctx.player.shooting.selection_skill <= other.player.shooting.selection_skill,
        ctx.player.midfield.mid_shot_selection <= other.player.midfield.mid_shot_selection,
        units(0) <= ctx.player.midfield.carry_selection,
        ctx.player.midfield.carry_selection <= other.player.midfield.carry_selection,
        other.player.midfield.carry_selection <= units(1),
        ctx.player.skills.technical.dribbling <= other.player.skills.technical.dribbling,
        ctx.player.skills.physical.pace <= other.player.skills.physical.pace,
        ctx.player.skills.physical.agility <= other.player.skills.physical.agility,
    ensures
        state.point_blank_willingness(ctx) <= state.point_blank_willingness(other),
        state.max_dribble_ticks(ctx) <= state.max_dribble_ticks(other),
        25 <= state.max_dribble_ticks(ctx) <= 80,
        ctx.player.midfield.carry_selection == units(0) ==> state.max_dribble_ticks(ctx) == 25,
        ctx.player.midfield.carry_selection == units(1) ==> state.max_dribble_ticks(ctx) == 80,
        state.carry_speed(ctx) <= state.carry_speed(other),
{
    crate::scalar::scaling_keeps_order(
        ctx.player.shooting.selection_skill,
        other.player.shooting.selection_skill,
        milli(300),
    );
    crate::scalar::scaling_keeps_order(
        ctx.player.midfield.mid_shot_selection,
        other.player.midfield.mid_shot_selection,
        milli(200),
    );
    crate::scalar::scaling_keeps_order(
        ctx.player.midfield.carry_selection,
        other.player.midfield.carry_selection,
        units(55),
    );
    crate::scalar::scaling_keeps_order(units(0), ctx.player.midfield.carry_selection, units(55));
    crate::scalar::scaling_keeps_order(other.player.midfield.carry_selection, units(1), units(55));
    crate::scalar::zero_stays_zero(units(55));
    crate::scalar::one_changes_nothing(units(55));
    let a = ctx.player.skills;
    let b = other.player.skills;
    crate::scalar::quotient_keeps_order(a.technical.dribbling, b.technical.dribbling, units(20));
    crate::scalar::quotient_keeps_order(a.physical.pace, b.physical.pace, units(20));
    crate::scalar::quotient_keeps_order(a.physical.agility, b.physical.agility, units(20));
    crate::scalar::product_keeps_order(
        milli(500),
        share(a.technical.dribbling),
        share(b.technical.dribbling),
    );
    crate::scalar::product_keeps_order(milli(300), share(a.physical.pace), share(b.physical.pace));
    crate::scalar::product_keeps_order(
        milli(200),
        share(a.physical.agility),
        share(b.physical.agility),
    );
    crate::scalar::sums_keep_order(
        milli(500) * share(a.technical.dribbling),
        milli(500) * share(b.technical.dribbling),
        milli(300) * share(a.physical.pace),
        milli(300) * share(b.physical.pace),
        milli(200) * share(a.physical.agility),
        milli(200) * share(b.physical.agility),
    );
    crate::scalar::product_keeps_order(
        milli(3500),
        milli(500) * share(a.technical.dribbling) + milli(300) * share(a.physical.pace)
            + milli(200)
            * share(a.physical.agility),
        milli(500) * share(b.technical.dribbling) + milli(300) * share(b.physical.pace)
            + milli(200)
            * share(b.physical.agility),
    );
}

/// With nobody around the ball is carried straight at the goal, or by order along the own lane; an
/// opponent further off is rounded, and a close one dodged to the side that leads to the goal.
pub proof fn carries_lead_to_goal(state: MidfielderDribblingState, ctx: &StateProcessingContext)
    ensures
        ctx.player.behavioral_directive is None ==> state.carry_goal(ctx) == ctx.goal(),
        state.carry_goal(ctx).x == ctx.goal().x,
        (ctx.player.behavioral_directive is None && !ctx.to_goal().is_zero() && forall|o: MatchPlayerLite|
         #[trigger]
            ctx.opponents@.contains(o) ==> o.distance > units(30)) ==> state.carry_direction(ctx) == Some(
            ctx.to_goal().normalize(),
        ),
        !ctx.player.has_ball && ctx.ball.position != ctx.player.position ==> (state.velocity(ctx) matches Some(
            m,
        ) && m.steering is None),
        state.should_press(ctx) <==> !ctx.team.control_ball && ctx.ball.distance < units(150),
        state.should_return_to_position(ctx) <==> !ctx.team.control_ball
            && ctx.player.distance_from_start_position > units(20),
        state.is_in_shooting_position(ctx) <==> ctx.player.position.distance_to(ctx.goal())
            <= units(25),
        state.find_open_teammate(ctx) == ctx.best_pass.within_200,
{
    let p = |o: MatchPlayerLite| o.distance <= units(30);
    let k = |o: MatchPlayerLite| (o.position - ctx.player.position).magnitude();
    scan::least_is_least(ctx.opponents@, p, k);
    if let Some(m) = scan::least_where(ctx.opponents@, p, k) {
        assert(ctx.opponents@.contains(m) && p(m));
    }
}

} // verus!
