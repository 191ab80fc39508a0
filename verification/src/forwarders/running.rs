//! A forward on the run, with the ball or without.
use crate::context::{
    headcount, share, ticks, to_count, turned, GamePhase, MatchPlayerLite,
    PlayerDistanceFromStartPosition, PlayerSide, PositionGroup, ShotDecision, ShotOccasion,
    StateProcessingContext,
};
use crate::gaps::{gaps_between, Gap};
use crate::movement::{attacking_direction, inside, is_ahead_of, opponents_in_the_way, rotated};
use crate::outcome::{
    arrive, arrive_if_any, exertion_with_velocity, glide, glide_if_any, pass_to, steer, still,
    with_forward_state, ActivityIntensity, Exertion, ForwardState, Movement, PlayerEvent,
    PlayerState, StateChangeResult, Steering,
};
use crate::scalar::{micro, milli, units, Scalar};
use crate::scan;
use crate::vector::{aligned_above, aligned_at_least, flat, reaches_beyond, Vec3};
use vstd::prelude::*;

verus! {

/// Steps of running after which fatigue counts.
pub const SPRINT_DURATION_THRESHOLD: u64 = 150;

/// The most defenders that are looked at in the search for a gap.
pub const MAX_OPPONENTS: usize = 11;

pub open spec fn spec_point_blank_distance() -> Scalar {
    units(36)
}

/// Inside the box: the forward has to decide.
#[verifier::when_used_as_spec(spec_point_blank_distance)]
pub fn point_blank_distance() -> (r: Scalar)
    ensures
        r == spec_point_blank_distance(),
{
    units(36)
}

pub open spec fn spec_close_range_distance() -> Scalar {
    units(48)
}

/// Close to the goal.
#[verifier::when_used_as_spec(spec_close_range_distance)]
pub fn close_range_distance() -> (r: Scalar)
    ensures
        r == spec_close_range_distance(),
{
    units(48)
}

pub open spec fn spec_shooting_zone_distance() -> Scalar {
    units(48)
}

/// The zone in which a forward under pressure still shoots.
#[verifier::when_used_as_spec(spec_shooting_zone_distance)]
pub fn shooting_zone_distance() -> (r: Scalar)
    ensures
        r == spec_shooting_zone_distance(),
{
    units(48)
}

pub open spec fn spec_max_shooting_distance() -> Scalar {
    units(220)
}

/// The longest shot from open play.
#[verifier::when_used_as_spec(spec_max_shooting_distance)]
pub fn max_shooting_distance() -> (r: Scalar)
    ensures
        r == spec_max_shooting_distance(),
{
    units(220)
}

#[derive(Default, Clone, Copy)]
pub struct ForwardRunningState {}

impl ForwardRunningState {
    pub open spec fn spec_process(
        &self,
        ctx: &StateProcessingContext,
    ) -> Option<StateChangeResult> {
        match self.opening(ctx) {
            Some(result) => Some(result),
            None => if ctx.player.has_ball { self.with_ball(ctx) } else { self.without_ball(ctx) },
        }
    }

    /// The next state of a running forward.
    #[verifier::when_used_as_spec(spec_process)]
    pub fn process(&self, ctx: &StateProcessingContext) -> (r: Option<StateChangeResult>)
        ensures
            r == self.spec_process(ctx),
    {
        match self.opening(ctx) {
            Some(result) => Some(result),
            None => if ctx.player.has_ball { self.with_ball(ctx) } else { self.without_ball(ctx) },
        }
    }

    pub open spec fn spec_opening(
        &self,
        ctx: &StateProcessingContext,
    ) -> Option<StateChangeResult> {
        if !ctx.player.has_ball && ctx.ball.opponent_restart {
            Some(with_forward_state(ForwardState::Returning))
        } else if !ctx.player.has_ball && ctx.player.stranded_offside {
            Some(with_forward_state(ForwardState::Returning))
        } else {
            self.phase_dispatch(ctx)
        }
    }

    /// What comes before all else: the retreat at an opponent's restart or from an offside
    /// position, and what the phase of the team asks for.
    #[verifier::when_used_as_spec(spec_opening)]
    pub fn opening(&self, ctx: &StateProcessingContext) -> (r: Option<StateChangeResult>)
        ensures
            r == self.spec_opening(ctx),
    {
        if !ctx.player.has_ball && ctx.ball.opponent_restart {
            return Some(with_forward_state(ForwardState::Returning));
        }
        if !ctx.player.has_ball && ctx.player.stranded_offside {
            return Some(with_forward_state(ForwardState::Returning));
        }
        self.phase_dispatch(ctx)
    }

    pub open spec fn spec_phase_dispatch(
        &self,
        ctx: &StateProcessingContext,
    ) -> Option<StateChangeResult> {
        if ctx.player.has_ball {
            None
        } else {
            match ctx.team.phase {
                GamePhase::AttackingTransition => if ctx.ball.distance_to_opponent_goal > units(30) {
                    Some(with_forward_state(ForwardState::RunningInBehind))
                } else {
                    None
                },
                GamePhase::DefensiveTransition => if ctx.ball.distance < units(35)
                    && ctx.team.best_player_to_chase_ball {
                    Some(with_forward_state(ForwardState::Pressing))
                } else {
                    None
                },
                GamePhase::HighPress => if ctx.ball.distance < units(80)
                    && ctx.team.best_player_to_chase_ball {
                    Some(with_forward_state(ForwardState::Pressing))
                } else {
                    None
                },
                _ => None,
            }
        }
    }

    /// What the phase of the team asks of a forward without the ball: a run in behind right
    /// after the ball is won, a press right after it is lost or under a high press.
    #[verifier::when_used_as_spec(spec_phase_dispatch)]
    pub fn phase_dispatch(&self, ctx: &StateProcessingContext) -> (r: Option<StateChangeResult>)
        ensures
            r == self.spec_phase_dispatch(ctx),
    {
        if ctx.player.has_ball {
            return None;
        }
        match ctx.team.phase {
            GamePhase::AttackingTransition => if ctx.ball.distance_to_opponent_goal > units(30) {
                Some(with_forward_state(ForwardState::RunningInBehind))
            } else {
                None
            },
            GamePhase::DefensiveTransition => if ctx.ball.distance < units(35)
                && ctx.team.best_player_to_chase_ball {
                Some(with_forward_state(ForwardState::Pressing))
            } else {
                None
            },
            GamePhase::HighPress => if ctx.ball.distance < units(80)
                && ctx.team.best_player_to_chase_ball {
                Some(with_forward_state(ForwardState::Pressing))
            } else {
                None
            },
            _ => None,
        }
    }

    pub open spec fn spec_with_ball(
        &self,
        ctx: &StateProcessingContext,
    ) -> Option<StateChangeResult> {
        match self.before_the_gates(ctx) {
            Some(answer) => answer,
            None => match self.clear_shot_in_range(ctx) {
                Some(answer) => answer,
                None => match self.box_shot(ctx) {
                    Some(result) => Some(result),
                    None => self.play_on(ctx),
                },
            },
        }
    }

    /// The decisions of a forward with the ball.
    #[verifier::when_used_as_spec(spec_with_ball)]
    pub fn with_ball(&self, ctx: &StateProcessingContext) -> (r: Option<StateChangeResult>)
        ensures
            r == self.spec_with_ball(ctx),
    {
        match self.before_the_gates(ctx) {
            Some(answer) => answer,
            None => match self.clear_shot_in_range(ctx) {
                Some(answer) => answer,
                None => match self.box_shot(ctx) {
                    Some(result) => Some(result),
                    None => self.play_on(ctx),
                },
            },
        }
    }

    pub open spec fn spec_may_shoot(&self, ctx: &StateProcessingContext) -> bool {
        ctx.team.can_shoot && ctx.player.can_shoot
    }

    /// Neither the team nor the player has to wait with a shot.
    #[verifier::when_used_as_spec(spec_may_shoot)]
    pub fn may_shoot(&self, ctx: &StateProcessingContext) -> (r: bool)
        ensures
            r == self.spec_may_shoot(ctx),
    {
        ctx.team.can_shoot && ctx.player.can_shoot
    }

    pub open spec fn spec_before_the_gates(
        &self,
        ctx: &StateProcessingContext,
    ) -> Option<Option<StateChangeResult>> {
        if ctx.ball.team_attacking_corner {
            Some(Some(with_forward_state(ForwardState::Crossing)))
        } else if self.should_cross_from_byline(ctx) {
            Some(Some(with_forward_state(ForwardState::Crossing)))
        } else if self.snapshot(ctx) {
            Some(
                Some(
                    with_forward_state(
                        ForwardState::Shooting,
                    ).with_shot_reason("FWD_SNAPSHOT_PRESSED"),
                ),
            )
        } else if self.holds_the_ball(ctx) {
            Some(None)
        } else {
            match self.patient_pass(ctx) {
                Some(result) => Some(Some(result)),
                None => self.cooldown_or_point_blank(ctx),
            }
        }
    }

    /// What is decided before a shot from the distance is weighed; none where it is weighed.
    #[verifier::when_used_as_spec(spec_before_the_gates)]
    pub fn before_the_gates(
        &self,
        ctx: &StateProcessingContext,
    ) -> (r: Option<Option<StateChangeResult>>)
        ensures
            r == self.spec_before_the_gates(ctx),
    {
        if ctx.ball.team_attacking_corner {
            return Some(Some(with_forward_state(ForwardState::Crossing)));
        }
        if self.should_cross_from_byline(ctx) {
            return Some(Some(with_forward_state(ForwardState::Crossing)));
        }
        if self.snapshot(ctx) {
            return Some(
                Some(
                    with_forward_state(
                        ForwardState::Shooting,
                    ).with_shot_reason("FWD_SNAPSHOT_PRESSED"),
                ),
            );
        }
        if self.holds_the_ball(ctx) {
            return Some(None);
        }
        match self.patient_pass(ctx) {
            Some(result) => Some(Some(result)),
            None => self.cooldown_or_point_blank(ctx),
        }
    }

    pub open spec fn spec_patient_pass(
        &self,
        ctx: &StateProcessingContext,
    ) -> Option<StateChangeResult> {
        if !self.is_stuck_in_possession(ctx) {
            None
        } else {
            match self.safe_outlet(ctx) {
                Some(target) => Some(self.pass(ctx, target.id, "FWD_PATIENT_POSSESSION")),
                None => None,
            }
        }
    }

    /// Boxed in without a way forward, the forward passes to the side or back.
    #[verifier::when_used_as_spec(spec_patient_pass)]
    pub fn patient_pass(&self, ctx: &StateProcessingContext) -> (r: Option<StateChangeResult>)
        ensures
            r == self.spec_patient_pass(ctx),
    {
        if !self.is_stuck_in_possession(ctx) {
            return None;
        }
        match self.safe_outlet(ctx) {
            Some(target) => Some(self.pass(ctx, target.id, "FWD_PATIENT_POSSESSION")),
            None => None,
        }
    }

    pub open spec fn spec_pass(
        &self,
        ctx: &StateProcessingContext,
        to: u32,
        reason: &'static str,
    ) -> StateChangeResult {
        with_forward_state(ForwardState::Running).with_event(pass_to(ctx.player.id, to, reason))
    }

    /// The forward stays on the run and passes to a teammate.
    #[verifier::when_used_as_spec(spec_pass)]
    pub fn pass(
        &self,
        ctx: &StateProcessingContext,
        to: u32,
        reason: &'static str,
    ) -> (r: StateChangeResult)
        ensures
            r == self.spec_pass(ctx, to, reason),
    {
        with_forward_state(ForwardState::Running).with_event(pass_to(ctx.player.id, to, reason))
    }

    pub open spec fn spec_cooldown_or_point_blank(
        &self,
        ctx: &StateProcessingContext,
    ) -> Option<Option<StateChangeResult>> {
        if !self.may_shoot(ctx) {
            Some(Some(with_forward_state(ForwardState::Passing)))
        } else if ctx.ball.distance_to_opponent_goal <= point_blank_distance() {
            Some(match ctx.evaluate_forward_shot_decision(ShotOccasion::RunPointBlank) {
                    ShotDecision::Shoot { reason } => Some(
                        with_forward_state(ForwardState::Shooting).with_shot_reason(reason),
                    ),
                    ShotDecision::Pass => Some(with_forward_state(ForwardState::Passing)),
                    ShotDecision::Hold => None,
            })
        } else {
            None
        }
    }

    /// Point blank the central rule on shots decides; a forward who may not shoot passes.
    #[verifier::when_used_as_spec(spec_cooldown_or_point_blank)]
    pub fn cooldown_or_point_blank(
        &self,
        ctx: &StateProcessingContext,
    ) -> (r: Option<Option<StateChangeResult>>)
        ensures
            r == self.spec_cooldown_or_point_blank(ctx),
    {
        if !self.may_shoot(ctx) {
            return Some(Some(with_forward_state(ForwardState::Passing)));
        }
        if ctx.ball.distance_to_opponent_goal <= point_blank_distance() {
            return Some(match ctx.evaluate_forward_shot_decision(ShotOccasion::RunPointBlank) {
                    ShotDecision::Shoot { reason } => Some(
                        with_forward_state(ForwardState::Shooting).with_shot_reason(reason),
                    ),
                    ShotDecision::Pass => Some(with_forward_state(ForwardState::Passing)),
                    ShotDecision::Hold => None,
            });
        }
        None
    }

    pub open spec fn spec_snapshot(&self, ctx: &StateProcessingContext) -> bool {
        self.may_shoot(ctx) && ctx.in_state_time < 8
        && ctx.ball.distance_to_opponent_goal < units(60)
        && match scan::least_where(
            ctx.opponents@,
            |o: MatchPlayerLite| o.distance <= units(10),
            |o: MatchPlayerLite| o.distance,
        ) {
            Some(threat) => ctx.player.skills.technical.first_touch
            < threat.skills.technical.tackling - milli(500),
            None => false,
        }
    }

    /// A shot at once: just on the ball near the goal, with a tackler at hand who is better at
    /// tackling than the forward at the first touch.
    #[verifier::when_used_as_spec(spec_snapshot)]
    pub fn snapshot(&self, ctx: &StateProcessingContext) -> (r: bool)
        ensures
            r == self.spec_snapshot(ctx),
    {
        self.may_shoot(ctx) && ctx.in_state_time < 8
        && ctx.ball.distance_to_opponent_goal < units(60)
        && match scan::least_of(
            &ctx.opponents,
            |o: MatchPlayerLite| -> (b: bool)
                ensures b == (o.distance <= units(10))
            {
                o.distance <= units(10)
            },
            |o: MatchPlayerLite| -> (b: Scalar)
                ensures b == (o.distance)
            {
                o.distance
            },
            Ghost(|o: MatchPlayerLite| o.distance <= units(10)),
            Ghost(|o: MatchPlayerLite| o.distance),
        ) {
            Some(threat) => ctx.player.skills.technical.first_touch
            < threat.skills.technical.tackling - milli(500),
            None => false,
        }
    }

    pub open spec fn spec_prefers_possession(&self, ctx: &StateProcessingContext) -> bool {
        (ctx.team.coach_prefers_possession || ctx.team.game_management_intensity > milli(550))
        && !ctx.team.counter_window
    }

    /// The coach wants possession or the result is to be kept, and no counter-attack is on.
    #[verifier::when_used_as_spec(spec_prefers_possession)]
    pub fn prefers_possession(&self, ctx: &StateProcessingContext) -> (r: bool)
        ensures
            r == self.spec_prefers_possession(ctx),
    {
        (ctx.team.coach_prefers_possession || ctx.team.game_management_intensity > milli(550))
        && !ctx.team.counter_window
    }

    pub open spec fn spec_min_hold(&self, ctx: &StateProcessingContext) -> u32 {
        let managed: u32 = to_count(ctx.team.game_management_intensity * units(80));
        if managed > ctx.team.coach_min_possession_ticks {
            managed
        } else {
            ctx.team.coach_min_possession_ticks
        }
    }

    /// How long the ball is kept for the sake of possession.
    #[verifier::when_used_as_spec(spec_min_hold)]
    pub fn min_hold(&self, ctx: &StateProcessingContext) -> (r: u32)
        ensures
            r == self.spec_min_hold(ctx),
    {
        let managed: u32 = to_count(ctx.team.game_management_intensity * units(80));
        if managed > ctx.team.coach_min_possession_ticks {
            managed
        } else {
            ctx.team.coach_min_possession_ticks
        }
    }

    pub open spec fn spec_holds_the_ball(&self, ctx: &StateProcessingContext) -> bool {
        self.prefers_possession(ctx)
        && ctx.ball.distance_to_opponent_goal > point_blank_distance()
        && ctx.ball.ownership_duration < self.min_hold(ctx)
    }

    /// Possession is preferred, the goal is not close, and the ball was not yet kept for long.
    #[verifier::when_used_as_spec(spec_holds_the_ball)]
    pub fn holds_the_ball(&self, ctx: &StateProcessingContext) -> (r: bool)
        ensures
            r == self.spec_holds_the_ball(ctx),
    {
        self.prefers_possession(ctx)
        && ctx.ball.distance_to_opponent_goal > point_blank_distance()
        && ctx.ball.ownership_duration < self.min_hold(ctx)
    }

    pub open spec fn spec_is_stuck_in_possession(&self, ctx: &StateProcessingContext) -> bool {
        !ctx.player.under_immediate_pressure
        && ctx.opponents_nearby(units(15)) >= 2
        && !self.has_open_space_ahead(ctx)
        && ctx.ball.distance_to_opponent_goal > units(50)
        && ctx.ball.ownership_duration > 10
        && ctx.team.should_play_possession
    }

    /// Boxed in without a way forward, away from the goal, in a spell of possession.
    #[verifier::when_used_as_spec(spec_is_stuck_in_possession)]
    pub fn is_stuck_in_possession(&self, ctx: &StateProcessingContext) -> (r: bool)
        ensures
            r == self.spec_is_stuck_in_possession(ctx),
    {
        !ctx.player.under_immediate_pressure
        && ctx.opponents_nearby(units(15)) >= 2
        && !self.has_open_space_ahead(ctx)
        && ctx.ball.distance_to_opponent_goal > units(50)
        && ctx.ball.ownership_duration > 10
        && ctx.team.should_play_possession
    }

    pub open spec fn spec_safe_outlet(
        &self,
        ctx: &StateProcessingContext,
    ) -> Option<MatchPlayerLite> {
        scan::greatest_where(
            ctx.teammates@,
            |t: MatchPlayerLite| t.distance <= units(180) && self.is_safe_outlet(ctx, t),
            |t: MatchPlayerLite|
                if t.tactical_positions.is_midfielder() { units(10) } else { units(0) },
        )
    }

    /// A free teammate to the side or behind, a midfielder if possible.
    #[verifier::when_used_as_spec(spec_safe_outlet)]
    pub fn safe_outlet(&self, ctx: &StateProcessingContext) -> (r: Option<MatchPlayerLite>)
        ensures
            r == self.spec_safe_outlet(ctx),
    {
        scan::greatest_of(
            &ctx.teammates,
            |t: MatchPlayerLite| -> (b: bool)
                ensures b == (t.distance <= units(180) && self.is_safe_outlet(ctx, t))
            {
                t.distance <= units(180) && self.is_safe_outlet(ctx, t)
            },
            |t: MatchPlayerLite| -> (b: Scalar)
                ensures b == (
                    if t.tactical_positions.is_midfielder() { units(10) } else { units(0) }
                )
            {
                if t.tactical_positions.is_midfielder() { units(10) } else { units(0) }
            },
            Ghost(|t: MatchPlayerLite| t.distance <= units(180) && self.is_safe_outlet(ctx, t)),
            Ghost(
                |t: MatchPlayerLite|
                    if t.tactical_positions.is_midfielder() { units(10) } else { units(0) },
            ),
        )
    }

    pub open spec fn spec_is_safe_outlet(
        &self,
        ctx: &StateProcessingContext,
        t: MatchPlayerLite,
    ) -> bool {
        let away = t.position - ctx.player.position;
        t.id != ctx.player.id
        && away.magnitude() >= units(25)
        && away.magnitude() <= units(180)
        && !aligned_at_least(away, ctx.to_goal(), milli(300))
        && ctx.opponents_around(t.position, units(12)) < 2
        && t.clear_pass
    }

    #[verifier::when_used_as_spec(spec_is_safe_outlet)]
    pub fn is_safe_outlet(&self, ctx: &StateProcessingContext, t: MatchPlayerLite) -> (r: bool)
        ensures
            r == self.spec_is_safe_outlet(ctx, t),
    {
        let away = t.position - ctx.player.position;
        t.id != ctx.player.id
        && away.magnitude() >= units(25)
        && away.magnitude() <= units(180)
        && !aligned_at_least(away, ctx.to_goal(), milli(300))
        && ctx.opponents_around(t.position, units(12)) < 2
        && t.clear_pass
    }

    pub open spec fn spec_has_settled(&self, ctx: &StateProcessingContext) -> bool {
        ctx.ball.ownership_duration >= 30
    }

    /// On the ball for long enough to judge a chance.
    #[verifier::when_used_as_spec(spec_has_settled)]
    pub fn has_settled(&self, ctx: &StateProcessingContext) -> (r: bool)
        ensures
            r == self.spec_has_settled(ctx),
    {
        ctx.ball.ownership_duration >= 30
    }

    pub open spec fn spec_shot_suppression(&self, ctx: &StateProcessingContext) -> Scalar {
        let intensity = ctx.team.game_management_intensity;
        if intensity > milli(400) {
            (
                units(1) - (intensity - milli(400)) / milli(600) * milli(700)
            ).clamp(milli(300), units(1))
        } else {
            units(1)
        }
    }

    /// A team that manages the result lets some shots go: the share of them that it takes.
    #[verifier::when_used_as_spec(spec_shot_suppression)]
    pub fn shot_suppression(&self, ctx: &StateProcessingContext) -> (r: Scalar)
        ensures
            r == self.spec_shot_suppression(ctx),
    {
        let intensity = ctx.team.game_management_intensity;
        if intensity > milli(400) {
            (
                units(1) - (intensity - milli(400)) / milli(600) * milli(700)
            ).clamp(milli(300), units(1))
        } else {
            units(1)
        }
    }

    pub open spec fn spec_passes_the_gates(&self, ctx: &StateProcessingContext) -> bool {
        self.has_settled(ctx) && self.may_shoot(ctx)
        && !self.has_teammate_with_much_better_shot(ctx, ctx.ball.distance_to_opponent_goal)
        && ctx.ball.distance_to_opponent_goal <= max_shooting_distance()
        && ctx.player.clear_shot
    }

    /// Settled, with no teammate in a much better place, in range and with a free lane.
    #[verifier::when_used_as_spec(spec_passes_the_gates)]
    pub fn passes_the_gates(&self, ctx: &StateProcessingContext) -> (r: bool)
        ensures
            r == self.spec_passes_the_gates(ctx),
    {
        self.has_settled(ctx) && self.may_shoot(ctx)
        && !self.has_teammate_with_much_better_shot(ctx, ctx.ball.distance_to_opponent_goal)
        && ctx.ball.distance_to_opponent_goal <= max_shooting_distance()
        && ctx.player.clear_shot
    }

    pub open spec fn spec_is_suppressed(&self, ctx: &StateProcessingContext) -> bool {
        self.shot_suppression(ctx) < units(1)
            && ctx.rolls.shot_suppression >= self.shot_suppression(ctx)
    }

    /// Chance lets a team that manages the result keep the ball.
    #[verifier::when_used_as_spec(spec_is_suppressed)]
    pub fn is_suppressed(&self, ctx: &StateProcessingContext) -> (r: bool)
        ensures
            r == self.spec_is_suppressed(ctx),
    {
        self.shot_suppression(ctx) < units(1)
            && ctx.rolls.shot_suppression >= self.shot_suppression(ctx)
    }

    pub open spec fn spec_lay_off_or_stay(
        &self,
        ctx: &StateProcessingContext,
    ) -> Option<StateChangeResult> {
        if ctx.player.under_immediate_pressure {
            Some(with_forward_state(ForwardState::Passing))
        } else {
            None
        }
    }

    /// Under pressure the ball is laid off, else the run goes on.
    #[verifier::when_used_as_spec(spec_lay_off_or_stay)]
    pub fn lay_off_or_stay(&self, ctx: &StateProcessingContext) -> (r: Option<StateChangeResult>)
        ensures
            r == self.spec_lay_off_or_stay(ctx),
    {
        if ctx.player.under_immediate_pressure {
            Some(with_forward_state(ForwardState::Passing))
        } else {
            None
        }
    }

    pub open spec fn spec_clear_shot_in_range(
        &self,
        ctx: &StateProcessingContext,
    ) -> Option<Option<StateChangeResult>> {
        if !self.passes_the_gates(ctx) {
            None
        } else {
            match ctx.evaluate_forward_shot_decision(ShotOccasion::RunClear) {
                ShotDecision::Shoot { reason } => if self.is_suppressed(ctx) {
                    Some(self.lay_off_or_stay(ctx))
                } else {
                    Some(Some(with_forward_state(ForwardState::Shooting).with_shot_reason(reason)))
                },
                ShotDecision::Pass => Some(Some(with_forward_state(ForwardState::Passing))),
                ShotDecision::Hold => if ctx.player.under_immediate_pressure {
                    Some(Some(with_forward_state(ForwardState::Passing)))
                } else {
                    None
                },
            }
        }
    }

    /// A clear shot in range: the central rule on shots decides, a team that manages the result
    /// lets some shots go; none where the forward looks for something else.
    #[verifier::when_used_as_spec(spec_clear_shot_in_range)]
    pub fn clear_shot_in_range(
        &self,
        ctx: &StateProcessingContext,
    ) -> (r: Option<Option<StateChangeResult>>)
        ensures
            r == self.spec_clear_shot_in_range(ctx),
    {
        if !self.passes_the_gates(ctx) {
            return None;
        }
        match ctx.evaluate_forward_shot_decision(ShotOccasion::RunClear) {
            ShotDecision::Shoot { reason } => if self.is_suppressed(ctx) {
                Some(self.lay_off_or_stay(ctx))
            } else {
                Some(Some(with_forward_state(ForwardState::Shooting).with_shot_reason(reason)))
            },
            ShotDecision::Pass => Some(Some(with_forward_state(ForwardState::Passing))),
            ShotDecision::Hold => if ctx.player.under_immediate_pressure {
                Some(Some(with_forward_state(ForwardState::Passing)))
            } else {
                None
            },
        }
    }

    pub open spec fn spec_box_shot(
        &self,
        ctx: &StateProcessingContext,
    ) -> Option<StateChangeResult> {
        if !self.may_shoot(ctx)
        || self.has_teammate_with_much_better_shot(ctx, ctx.ball.distance_to_opponent_goal)
        || ctx.ball.distance_to_opponent_goal >= units(45)
        || ctx.ball.distance_to_opponent_goal > max_shooting_distance()
        || !ctx.player.clear_shot {
            None
        } else {
            match ctx.evaluate_forward_shot_decision(ShotOccasion::RunBox) {
                ShotDecision::Shoot { reason } => Some(
                    with_forward_state(ForwardState::Shooting).with_shot_reason(reason),
                ),
                _ => Some(with_forward_state(ForwardState::Passing)),
            }
        }
    }

    /// A clear shot in the box: the forward shoots where the central rule says so and passes
    /// otherwise.
    #[verifier::when_used_as_spec(spec_box_shot)]
    pub fn box_shot(&self, ctx: &StateProcessingContext) -> (r: Option<StateChangeResult>)
        ensures
            r == self.spec_box_shot(ctx),
    {
        if !self.may_shoot(ctx)
        || self.has_teammate_with_much_better_shot(ctx, ctx.ball.distance_to_opponent_goal)
        || ctx.ball.distance_to_opponent_goal >= units(45)
        || ctx.ball.distance_to_opponent_goal > max_shooting_distance()
        || !ctx.player.clear_shot {
            return None;
        }
        match ctx.evaluate_forward_shot_decision(ShotOccasion::RunBox) {
            ShotDecision::Shoot { reason } => Some(
                with_forward_state(ForwardState::Shooting).with_shot_reason(reason),
            ),
            _ => Some(with_forward_state(ForwardState::Passing)),
        }
    }

    pub open spec fn spec_play_on(
        &self,
        ctx: &StateProcessingContext,
    ) -> Option<StateChangeResult> {
        match self.cutback(ctx) {
            Some(result) => {
                Some(result)
            },
            None => {
                if self.has_settled(ctx)
                && self.has_teammate_with_much_better_shot(
                    ctx,
                    ctx.ball.distance_to_opponent_goal,
                ) {
                    Some(with_forward_state(ForwardState::Passing))
                } else if self.carries_on(ctx) {
                    None
                } else {
                    match self.combination(ctx) {
                        Some(result) => {
                            Some(result)
                        },
                        None => {
                            self.last_resorts(ctx)
                        },
                    }
                }
            },
        }
    }

    /// What a forward does with the ball who does not shoot.
    #[verifier::when_used_as_spec(spec_play_on)]
    pub fn play_on(&self, ctx: &StateProcessingContext) -> (r: Option<StateChangeResult>)
        ensures
            r == self.spec_play_on(ctx),
    {
        match self.cutback(ctx) {
            Some(result) => {
                return Some(result);
            },
            None => {},
        }
        if self.has_settled(ctx)
        && self.has_teammate_with_much_better_shot(ctx, ctx.ball.distance_to_opponent_goal) {
            return Some(with_forward_state(ForwardState::Passing));
        }
        if self.carries_on(ctx) {
            return None;
        }
        match self.combination(ctx) {
            Some(result) => {
                return Some(result);
            },
            None => {},
        }
        self.last_resorts(ctx)
    }

    pub open spec fn spec_cutback(
        &self,
        ctx: &StateProcessingContext,
    ) -> Option<StateChangeResult> {
        if self.has_settled(ctx) && ctx.ball.distance_to_opponent_goal < units(130)
        && (ctx.player.under_immediate_pressure || !self.has_open_space_ahead(ctx)) {
            match ctx.cutback_runner {
                Some(runner) => Some(self.pass(ctx, runner, "FWD_RUNNING_CUTBACK_TO_RUNNER")),
                None => None,
            }
        } else {
            None
        }
    }

    /// A forward who is stuck near the goal finds the runner who arrives in the box.
    #[verifier::when_used_as_spec(spec_cutback)]
    pub fn cutback(&self, ctx: &StateProcessingContext) -> (r: Option<StateChangeResult>)
        ensures
            r == self.spec_cutback(ctx),
    {
        if self.has_settled(ctx) && ctx.ball.distance_to_opponent_goal < units(130)
        && (ctx.player.under_immediate_pressure || !self.has_open_space_ahead(ctx)) {
            match ctx.cutback_runner {
                Some(runner) => Some(self.pass(ctx, runner, "FWD_RUNNING_CUTBACK_TO_RUNNER")),
                None => None,
            }
        } else {
            None
        }
    }

    pub open spec fn spec_carries_on(&self, ctx: &StateProcessingContext) -> bool {
        ctx.ball.distance_to_opponent_goal > max_shooting_distance()
        && ctx.ball.distance_to_opponent_goal < units(180)
        && self.has_open_space_ahead(ctx)
        && self.carry_quality(ctx) > milli(550)
    }

    /// A way to the goal and the quality to carry the ball, out of range of a shot.
    #[verifier::when_used_as_spec(spec_carries_on)]
    pub fn carries_on(&self, ctx: &StateProcessingContext) -> (r: bool)
        ensures
            r == self.spec_carries_on(ctx),
    {
        ctx.ball.distance_to_opponent_goal > max_shooting_distance()
        && ctx.ball.distance_to_opponent_goal < units(180)
        && self.has_open_space_ahead(ctx)
        && self.carry_quality(ctx) > milli(550)
    }

    pub open spec fn spec_carry_quality(&self, ctx: &StateProcessingContext) -> Scalar {
        share(ctx.player.skills.technical.dribbling) * milli(350)
        + share(ctx.player.skills.mental.composure) * milli(250)
        + share(ctx.player.skills.mental.determination) * milli(200)
        + share(ctx.player.skills.physical.pace) * milli(200)
    }

    /// How well the forward carries the ball, from 0 to 1.
    #[verifier::when_used_as_spec(spec_carry_quality)]
    pub fn carry_quality(&self, ctx: &StateProcessingContext) -> (r: Scalar)
        ensures
            r == self.spec_carry_quality(ctx),
    {
        share(ctx.player.skills.technical.dribbling) * milli(350)
        + share(ctx.player.skills.mental.composure) * milli(250)
        + share(ctx.player.skills.mental.determination) * milli(200)
        + share(ctx.player.skills.physical.pace) * milli(200)
    }

    pub open spec fn spec_combination(
        &self,
        ctx: &StateProcessingContext,
    ) -> Option<StateChangeResult> {
        match self.one_two(ctx) {
            Some(result) => {
                Some(result)
            },
            None => {
                match self.hold_up(ctx) {
                    Some(result) => {
                        Some(result)
                    },
                    None => {
                        if ctx.ball.distance_to_opponent_goal > shooting_zone_distance()
                        && ctx.ball.ownership_duration > 15
                        && (ctx.player.congested_near_boundary || ctx.player.congested)
                        && ctx.teammates.len() > 0 {
                            Some(with_forward_state(ForwardState::Passing))
                        } else {
                            self.draw_and_release(ctx)
                        }
                    },
                }
            },
        }
    }

    /// A one-two, a lay-off from hold-up play, a way out of a crowd, or a pass into the space
    /// that a tackler leaves.
    #[verifier::when_used_as_spec(spec_combination)]
    pub fn combination(&self, ctx: &StateProcessingContext) -> (r: Option<StateChangeResult>)
        ensures
            r == self.spec_combination(ctx),
    {
        match self.one_two(ctx) {
            Some(result) => {
                return Some(result);
            },
            None => {},
        }
        match self.hold_up(ctx) {
            Some(result) => {
                return Some(result);
            },
            None => {},
        }
        if ctx.ball.distance_to_opponent_goal > shooting_zone_distance()
        && ctx.ball.ownership_duration > 15
        && (ctx.player.congested_near_boundary || ctx.player.congested)
        && ctx.teammates.len() > 0 {
            return Some(with_forward_state(ForwardState::Passing));
        }
        self.draw_and_release(ctx)
    }

    pub open spec fn spec_one_two(
        &self,
        ctx: &StateProcessingContext,
    ) -> Option<StateChangeResult> {
        if ctx.ball.stable_possession && ctx.ball.ownership_duration >= 2
        && ctx.ball.ownership_duration <= 10
        && ctx.ball.distance_to_opponent_goal > point_blank_distance() {
            match self.find_one_two_return(ctx) {
                Some(target) => Some(self.pass(ctx, target.id, "FWD_RUNNING_ONE_TWO_RETURN")),
                None => None,
            }
        } else {
            None
        }
    }

    /// Right after a pass: back to the passer who ran on.
    #[verifier::when_used_as_spec(spec_one_two)]
    pub fn one_two(&self, ctx: &StateProcessingContext) -> (r: Option<StateChangeResult>)
        ensures
            r == self.spec_one_two(ctx),
    {
        if ctx.ball.stable_possession && ctx.ball.ownership_duration >= 2
        && ctx.ball.ownership_duration <= 10
        && ctx.ball.distance_to_opponent_goal > point_blank_distance() {
            match self.find_one_two_return(ctx) {
                Some(target) => Some(self.pass(ctx, target.id, "FWD_RUNNING_ONE_TWO_RETURN")),
                None => None,
            }
        } else {
            None
        }
    }

    pub open spec fn spec_hold_up(
        &self,
        ctx: &StateProcessingContext,
    ) -> Option<StateChangeResult> {
        if ctx.ball.stable_possession
        && ctx.ball.distance_to_opponent_goal > close_range_distance()
        && ctx.ball.ownership_duration > 30 && !self.has_open_space_ahead(ctx) {
            match self.find_hold_up_layoff(ctx) {
                Some(target) => Some(self.pass(ctx, target.id, "FWD_RUNNING_HOLD_UP_LAYOFF")),
                None => None,
            }
        } else {
            None
        }
    }

    /// With the way blocked: a lay-off to a supporting teammate.
    #[verifier::when_used_as_spec(spec_hold_up)]
    pub fn hold_up(&self, ctx: &StateProcessingContext) -> (r: Option<StateChangeResult>)
        ensures
            r == self.spec_hold_up(ctx),
    {
        if ctx.ball.stable_possession
        && ctx.ball.distance_to_opponent_goal > close_range_distance()
        && ctx.ball.ownership_duration > 30 && !self.has_open_space_ahead(ctx) {
            match self.find_hold_up_layoff(ctx) {
                Some(target) => Some(self.pass(ctx, target.id, "FWD_RUNNING_HOLD_UP_LAYOFF")),
                None => None,
            }
        } else {
            None
        }
    }

    pub open spec fn spec_draw_and_release(
        &self,
        ctx: &StateProcessingContext,
    ) -> Option<StateChangeResult> {
        if ctx.ball.stable_possession && ctx.ball.ownership_duration > 20
        && ctx.ball.distance_to_opponent_goal > close_range_distance() {
            match self.find_draw_and_release_pass(ctx) {
                Some(target) => Some(self.pass(ctx, target.id, "FWD_RUNNING_DRAW_AND_RELEASE")),
                None => None,
            }
        } else {
            None
        }
    }

    /// A pass to a teammate near the space that a tackler leaves.
    #[verifier::when_used_as_spec(spec_draw_and_release)]
    pub fn draw_and_release(&self, ctx: &StateProcessingContext) -> (r: Option<StateChangeResult>)
        ensures
            r == self.spec_draw_and_release(ctx),
    {
        if ctx.ball.stable_possession && ctx.ball.ownership_duration > 20
        && ctx.ball.distance_to_opponent_goal > close_range_distance() {
            match self.find_draw_and_release_pass(ctx) {
                Some(target) => Some(self.pass(ctx, target.id, "FWD_RUNNING_DRAW_AND_RELEASE")),
                None => None,
            }
        } else {
            None
        }
    }

    pub open spec fn spec_last_resorts(
        &self,
        ctx: &StateProcessingContext,
    ) -> Option<StateChangeResult> {
        let pressed = ctx.player.under_immediate_pressure && !self.pressure_only_from_behind(ctx);
        if pressed && self.should_pass_under_pressure(ctx) {
            Some(with_forward_state(ForwardState::Passing))
        } else if pressed && self.can_dribble_out_of_pressure(ctx) {
            Some(with_forward_state(ForwardState::Dribbling))
        } else if ctx.ball.ownership_duration > 12 && self.should_pass(ctx) {
            Some(with_forward_state(ForwardState::Passing))
        } else if ctx.ball.ownership_duration > 20 && self.should_dribble(ctx) {
            Some(with_forward_state(ForwardState::Dribbling))
        } else if self.should_cross(ctx) {
            Some(with_forward_state(ForwardState::Crossing))
        } else if ctx.in_state_time > 120 {
            Some(self.forced_decision(ctx))
        } else {
            None
        }
    }

    /// Under pressure a pass or a dribble, then a pass, a dribble, a cross, and after long
    /// hesitation a decision in any case.
    #[verifier::when_used_as_spec(spec_last_resorts)]
    pub fn last_resorts(&self, ctx: &StateProcessingContext) -> (r: Option<StateChangeResult>)
        ensures
            r == self.spec_last_resorts(ctx),
    {
        let pressed = ctx.player.under_immediate_pressure && !self.pressure_only_from_behind(ctx);
        if pressed && self.should_pass_under_pressure(ctx) {
            return Some(with_forward_state(ForwardState::Passing));
        }
        if pressed && self.can_dribble_out_of_pressure(ctx) {
            return Some(with_forward_state(ForwardState::Dribbling));
        }
        if ctx.ball.ownership_duration > 12 && self.should_pass(ctx) {
            return Some(with_forward_state(ForwardState::Passing));
        }
        if ctx.ball.ownership_duration > 20 && self.should_dribble(ctx) {
            return Some(with_forward_state(ForwardState::Dribbling));
        }
        if self.should_cross(ctx) {
            return Some(with_forward_state(ForwardState::Crossing));
        }
        if ctx.in_state_time > 120 {
            return Some(self.forced_decision(ctx));
        }
        None
    }

    pub open spec fn spec_has_good_chance(&self, ctx: &StateProcessingContext) -> bool {
        self.may_shoot(ctx)
        && ctx.ball.distance_to_opponent_goal < point_blank_distance() * milli(1500)
        && share(ctx.player.skills.technical.finishing) > milli(500)
        && ctx.player.clear_shot && ctx.player.good_shooting_angle
    }

    /// A good finisher with a good chance.
    #[verifier::when_used_as_spec(spec_has_good_chance)]
    pub fn has_good_chance(&self, ctx: &StateProcessingContext) -> (r: bool)
        ensures
            r == self.spec_has_good_chance(ctx),
    {
        self.may_shoot(ctx)
        && ctx.ball.distance_to_opponent_goal < point_blank_distance() * milli(1500)
        && share(ctx.player.skills.technical.finishing) > milli(500)
        && ctx.player.clear_shot && ctx.player.good_shooting_angle
    }

    pub open spec fn spec_forced_decision(
        &self,
        ctx: &StateProcessingContext,
    ) -> StateChangeResult {
        match ctx.evaluate_forward_shot_decision(ShotOccasion::RunAntiOscillation) {
            ShotDecision::Shoot { reason } => if self.has_good_chance(ctx) {
                with_forward_state(ForwardState::Shooting).with_shot_reason(reason)
            } else {
                with_forward_state(ForwardState::Passing)
            },
            _ => with_forward_state(ForwardState::Passing),
        }
    }

    /// After long hesitation: a good finisher with a good chance may shoot, else a pass.
    #[verifier::when_used_as_spec(spec_forced_decision)]
    pub fn forced_decision(&self, ctx: &StateProcessingContext) -> (r: StateChangeResult)
        ensures
            r == self.spec_forced_decision(ctx),
    {
        match ctx.evaluate_forward_shot_decision(ShotOccasion::RunAntiOscillation) {
            ShotDecision::Shoot { reason } => if self.has_good_chance(ctx) {
                with_forward_state(ForwardState::Shooting).with_shot_reason(reason)
            } else {
                with_forward_state(ForwardState::Passing)
            },
            _ => with_forward_state(ForwardState::Passing),
        }
    }

    pub open spec fn spec_without_ball(
        &self,
        ctx: &StateProcessingContext,
    ) -> Option<StateChangeResult> {
        if ctx.ball.should_take_immediately && ctx.team.best_player_to_chase_ball {
            Some(with_forward_state(ForwardState::TakeBall))
        } else if ctx.ball.team_attacking_corner && ctx.player.corner_zone.is_some() {
            Some(with_forward_state(ForwardState::CornerRun))
        } else if self.high_ball_to_head(ctx) {
            Some(with_forward_state(ForwardState::Heading))
        } else if self.cross_on_its_way(ctx) {
            Some(with_forward_state(ForwardState::CrossReceiving))
        } else if self.can_intercept_ball(ctx) {
            Some(with_forward_state(ForwardState::Intercepting))
        } else if self.should_press(ctx) {
            Some(with_forward_state(ForwardState::Pressing))
        } else if ctx.team.control_ball && ctx.to_goal().magnitude() < units(80) {
            Some(with_forward_state(ForwardState::CreatingSpace))
        } else if ctx.team.control_ball && self.should_create_space(ctx) {
            Some(with_forward_state(ForwardState::CreatingSpace))
        } else if ctx.team.control_ball && self.should_make_run_in_behind(ctx) {
            Some(with_forward_state(ForwardState::RunningInBehind))
        } else if !ctx.team.control_ball && self.should_return_to_position(ctx) {
            Some(with_forward_state(ForwardState::Returning))
        } else if !ctx.team.control_ball && self.should_help_defend(ctx) {
            Some(with_forward_state(ForwardState::Pressing))
        } else if self.needs_recovery(ctx) {
            Some(with_forward_state(ForwardState::Resting))
        } else if ctx.in_state_time > 300 {
            if ctx.team.control_ball {
                Some(with_forward_state(ForwardState::CreatingSpace))
            } else {
                Some(with_forward_state(ForwardState::Walking))
            }
        } else {
            None
        }
    }

    /// The decisions of a forward without the ball.
    #[verifier::when_used_as_spec(spec_without_ball)]
    pub fn without_ball(&self, ctx: &StateProcessingContext) -> (r: Option<StateChangeResult>)
        ensures
            r == self.spec_without_ball(ctx),
    {
        if ctx.ball.should_take_immediately && ctx.team.best_player_to_chase_ball {
            return Some(with_forward_state(ForwardState::TakeBall));
        }
        if ctx.ball.team_attacking_corner && ctx.player.corner_zone.is_some() {
            return Some(with_forward_state(ForwardState::CornerRun));
        }
        if self.high_ball_to_head(ctx) {
            return Some(with_forward_state(ForwardState::Heading));
        }
        if self.cross_on_its_way(ctx) {
            return Some(with_forward_state(ForwardState::CrossReceiving));
        }
        if self.can_intercept_ball(ctx) {
            return Some(with_forward_state(ForwardState::Intercepting));
        }
        if self.should_press(ctx) {
            return Some(with_forward_state(ForwardState::Pressing));
        }
        if ctx.team.control_ball && ctx.to_goal().magnitude() < units(80) {
            return Some(with_forward_state(ForwardState::CreatingSpace));
        }
        if ctx.team.control_ball && self.should_create_space(ctx) {
            return Some(with_forward_state(ForwardState::CreatingSpace));
        }
        if ctx.team.control_ball && self.should_make_run_in_behind(ctx) {
            return Some(with_forward_state(ForwardState::RunningInBehind));
        }
        if !ctx.team.control_ball && self.should_return_to_position(ctx) {
            return Some(with_forward_state(ForwardState::Returning));
        }
        if !ctx.team.control_ball && self.should_help_defend(ctx) {
            return Some(with_forward_state(ForwardState::Pressing));
        }
        if self.needs_recovery(ctx) {
            return Some(with_forward_state(ForwardState::Resting));
        }
        if ctx.in_state_time > 300 {
            if ctx.team.control_ball {
                return Some(with_forward_state(ForwardState::CreatingSpace));
            } else {
                return Some(with_forward_state(ForwardState::Walking));
            }
        }
        None
    }

    pub open spec fn spec_high_ball_to_head(&self, ctx: &StateProcessingContext) -> bool {
        ctx.ball.position.z >= milli(1500)
        && ctx.ball.is_towards_player_with_angle(milli(500))
        && ctx.ball.distance < units(40)
        && ctx.ball.distance_to_opponent_goal < units(200)
    }

    /// A high ball comes close near the goal.
    #[verifier::when_used_as_spec(spec_high_ball_to_head)]
    pub fn high_ball_to_head(&self, ctx: &StateProcessingContext) -> (r: bool)
        ensures
            r == self.spec_high_ball_to_head(ctx),
    {
        ctx.ball.position.z >= milli(1500)
        && ctx.ball.is_towards_player_with_angle(milli(500))
        && ctx.ball.distance < units(40)
        && ctx.ball.distance_to_opponent_goal < units(200)
    }

    pub open spec fn spec_cross_on_its_way(&self, ctx: &StateProcessingContext) -> bool {
        ctx.ball.is_towards_player_with_angle(milli(600))
        && ctx.ball.distance > units(10)
        && ctx.ball.distance < units(100)
        && ctx.ball.distance_to_opponent_goal < units(150)
        && ctx.ball.position.z >= units(1)
        && !ctx.ball.is_owned
    }

    /// A cross comes in.
    #[verifier::when_used_as_spec(spec_cross_on_its_way)]
    pub fn cross_on_its_way(&self, ctx: &StateProcessingContext) -> (r: bool)
        ensures
            r == self.spec_cross_on_its_way(ctx),
    {
        ctx.ball.is_towards_player_with_angle(milli(600))
        && ctx.ball.distance > units(10)
        && ctx.ball.distance < units(100)
        && ctx.ball.distance_to_opponent_goal < units(150)
        && ctx.ball.position.z >= units(1)
        && !ctx.ball.is_owned
    }

    pub open spec fn spec_follows_waypoints(&self, ctx: &StateProcessingContext) -> bool {
        ctx.player.should_follow_waypoints && !ctx.player.has_ball && ctx.player.waypoint_count > 0
    }

    /// Without the ball, along the waypoints where there are any.
    #[verifier::when_used_as_spec(spec_follows_waypoints)]
    pub fn follows_waypoints(&self, ctx: &StateProcessingContext) -> (r: bool)
        ensures
            r == self.spec_follows_waypoints(ctx),
    {
        ctx.player.should_follow_waypoints && !ctx.player.has_ball && ctx.player.waypoint_count > 0
    }

    pub open spec fn spec_fits_pitch(&self, ctx: &StateProcessingContext) -> bool {
        self.follows_waypoints(ctx) || ctx.player.has_ball
        || (ctx.field_size.width >= 60 && ctx.field_size.height >= 80)
    }

    /// The pitch has room for the margins that the movement keeps: any pitch has along the
    /// waypoints and with the ball.
    #[verifier::when_used_as_spec(spec_fits_pitch)]
    pub fn fits_pitch(&self, ctx: &StateProcessingContext) -> (r: bool)
        ensures
            r == self.spec_fits_pitch(ctx),
    {
        self.follows_waypoints(ctx) || ctx.player.has_ball
        || (ctx.field_size.width >= 60 && ctx.field_size.height >= 80)
    }

    pub open spec fn spec_velocity(&self, ctx: &StateProcessingContext) -> Option<Movement> {
        let fatigue = self.calculate_fatigue_factor(ctx);
        if self.follows_waypoints(ctx) {
            Some(
                steer(Steering::FollowPath { path_offset: ctx.rolls.path_offset }).scaled(fatigue),
            )
        } else if ctx.player.has_ball {
            Some(self.calculate_ball_carrying_movement(ctx).scaled(fatigue))
        } else {
            match self.support_run(ctx) {
                Some(velocity) => {
                    Some(glide(velocity * fatigue))
                },
                None => {
                    if ctx.ball.distance < units(25) && ctx.team.control_ball {
                        Some(self.spread_run(ctx, fatigue))
                    } else {
                        let target = self.forward_slot(ctx);
                        if target.distance_to(ctx.player.position) < units(8) {
                            Some(still())
                        } else {
                            Some(arrive(target, units(15)).scaled(fatigue))
                        }
                    }
                },
            }
        }
    }

    /// Along the waypoints, with the ball towards the goal, or to a place of support.
    #[verifier::when_used_as_spec(spec_velocity)]
    pub fn velocity(&self, ctx: &StateProcessingContext) -> (r: Option<Movement>)
        requires
            self.fits_pitch(ctx),
        ensures
            r == self.spec_velocity(ctx),
    {
        let fatigue = self.calculate_fatigue_factor(ctx);
        if self.follows_waypoints(ctx) {
            return Some(
                steer(Steering::FollowPath { path_offset: ctx.rolls.path_offset }).scaled(fatigue),
            );
        }
        if ctx.player.has_ball {
            return Some(self.calculate_ball_carrying_movement(ctx).scaled(fatigue));
        }
        match self.support_run(ctx) {
            Some(velocity) => {
                return Some(glide(velocity * fatigue));
            },
            None => {},
        }
        if ctx.ball.distance < units(25) && ctx.team.control_ball {
            return Some(self.spread_run(ctx, fatigue));
        }
        let target = self.forward_slot(ctx);
        if target.distance_to(ctx.player.position) < units(8) {
            return Some(still());
        }
        Some(arrive(target, units(15)).scaled(fatigue))
    }

    pub open spec fn spec_support_run(&self, ctx: &StateProcessingContext) -> Option<Vec3> {
        match self.support_spot(ctx) {
            Some(spot) => {
                let way = spot - ctx.player.position;
                if way.magnitude() > units(3) {
                    Some(way.normalize() * (ctx.player.skills.physical.pace * milli(850)))
                } else {
                    None
                }
            },
            None => None,
        }
    }

    /// The velocity towards a spot of support, where a teammate close by is pressed on the ball.
    #[verifier::when_used_as_spec(spec_support_run)]
    pub fn support_run(&self, ctx: &StateProcessingContext) -> (r: Option<Vec3>)
        requires
            ctx.field_size.width >= 60,
            ctx.field_size.height >= 80,
        ensures
            r == self.spec_support_run(ctx),
    {
        match self.support_spot(ctx) {
            Some(spot) => {
                let way = spot - ctx.player.position;
                if way.magnitude() > units(3) {
                    Some(way.normalize() * (ctx.player.skills.physical.pace * milli(850)))
                } else {
                    None
                }
            },
            None => None,
        }
    }

    pub open spec fn spec_support_spot(&self, ctx: &StateProcessingContext) -> Option<Vec3> {
        if ctx.team.control_ball && ctx.ball.distance < units(80) && ctx.ball.distance > units(6) {
            match ctx.holder() {
                Some(carrier) => match scan::least_where(
                    ctx.opponents@,
                    |o: MatchPlayerLite| true,
                    |o: MatchPlayerLite| o.position.distance_to(carrier.position),
                ) {
                    Some(nearest) => if nearest.position.distance_to(carrier.position) < units(15) {
                        match self.beside(ctx, carrier.position, nearest.position) {
                            Some(spot) => Some(inside(ctx, spot, 30, 40)),
                            None => None,
                        }
                    } else {
                        None
                    },
                    None => None,
                },
                None => None,
            }
        } else {
            None
        }
    }

    /// A spot beside a pressed ball carrier, away from the nearest opponent and towards the
    /// goal; none where either has no direction.
    #[verifier::when_used_as_spec(spec_support_spot)]
    pub fn support_spot(&self, ctx: &StateProcessingContext) -> (r: Option<Vec3>)
        requires
            ctx.field_size.width >= 60,
            ctx.field_size.height >= 80,
        ensures
            r == self.spec_support_spot(ctx),
    {
        if ctx.team.control_ball && ctx.ball.distance < units(80) && ctx.ball.distance > units(6) {
            match ctx.holder() {
                Some(carrier) => match scan::least_of(
                    &ctx.opponents,
                    |o: MatchPlayerLite| -> (b: bool)
                        ensures b == (true)
                    {
                        true
                    },
                    |o: MatchPlayerLite| -> (b: Scalar)
                        ensures b == (o.position.distance_to(carrier.position))
                    {
                        o.position.distance_to(carrier.position)
                    },
                    Ghost(|o: MatchPlayerLite| true),
                    Ghost(|o: MatchPlayerLite| o.position.distance_to(carrier.position)),
                ) {
                    Some(nearest) => if nearest.position.distance_to(carrier.position) < units(15) {
                        match self.beside(ctx, carrier.position, nearest.position) {
                            Some(spot) => Some(inside(ctx, spot, 30, 40)),
                            None => None,
                        }
                    } else {
                        None
                    },
                    None => None,
                },
                None => None,
            }
        } else {
            None
        }
    }

    pub open spec fn spec_beside(
        &self,
        ctx: &StateProcessingContext,
        carrier: Vec3,
        opponent: Vec3,
    ) -> Option<Vec3> {
        match ((opponent - carrier).direction(), (ctx.goal() - carrier).direction()) {
            (Some(to_opponent), Some(to_goal)) => Some(
                carrier + to_opponent * units(22).negated() * milli(700) + to_goal * units(10),
            ),
            _ => None,
        }
    }

    /// Away from the opponent and a little towards the goal.
    #[verifier::when_used_as_spec(spec_beside)]
    pub fn beside(
        &self,
        ctx: &StateProcessingContext,
        carrier: Vec3,
        opponent: Vec3,
    ) -> (r: Option<Vec3>)
        ensures
            r == self.spec_beside(ctx, carrier, opponent),
    {
        match ((opponent - carrier).direction(), (ctx.goal() - carrier).direction()) {
            (Some(to_opponent), Some(to_goal)) => Some(
                carrier + to_opponent * units(22).negated() * milli(700) + to_goal * units(10),
            ),
            _ => None,
        }
    }

    pub open spec fn spec_spread_direction(&self, ctx: &StateProcessingContext) -> Option<Vec3> {
        match (ctx.player.position - ctx.ball.position).direction() {
            Some(away) => {
                let target = inside(
                    ctx,
                    ctx.player.position + away * units(30) + turned(away) * units(15),
                    30,
                    40,
                );
                (target - ctx.player.position).direction()
            },
            None => None,
        }
    }

    /// The direction away from a ball carrier who is too close; none on the very spot of the
    /// ball, or where the pitch leaves nowhere to go.
    #[verifier::when_used_as_spec(spec_spread_direction)]
    pub fn spread_direction(&self, ctx: &StateProcessingContext) -> (r: Option<Vec3>)
        requires
            ctx.field_size.width >= 60,
            ctx.field_size.height >= 80,
        ensures
            r == self.spec_spread_direction(ctx),
    {
        match (ctx.player.position - ctx.ball.position).direction() {
            Some(away) => {
                let target = inside(
                    ctx,
                    ctx.player.position + away * units(30) + turned(away) * units(15),
                    30,
                    40,
                );
                (target - ctx.player.position).direction()
            },
            None => None,
        }
    }

    pub open spec fn spec_spread_run(
        &self,
        ctx: &StateProcessingContext,
        fatigue: Scalar,
    ) -> Movement {
        match self.spread_direction(ctx) {
            Some(way) => glide(way * (ctx.player.skills.physical.pace * milli(500)) * fatigue),
            None => glide_if_any(None),
        }
    }

    /// At half pace away from a ball carrier who is too close.
    #[verifier::when_used_as_spec(spec_spread_run)]
    pub fn spread_run(&self, ctx: &StateProcessingContext, fatigue: Scalar) -> (r: Movement)
        requires
            ctx.field_size.width >= 60,
            ctx.field_size.height >= 80,
        ensures
            r == self.spec_spread_run(ctx, fatigue),
    {
        match self.spread_direction(ctx) {
            Some(way) => glide(way * (ctx.player.skills.physical.pace * milli(500)) * fatigue),
            None => glide_if_any(None),
        }
    }

    pub open spec fn spec_slot_index(&self, ctx: &StateProcessingContext) -> Scalar {
        headcount(
            scan::count_where(
                ctx.teammates@,
                |t: MatchPlayerLite| t.tactical_positions.is_forward() && t.id < ctx.player.id,
            ),
        )
    }

    /// How many forwards of the team have a lower number.
    #[verifier::when_used_as_spec(spec_slot_index)]
    pub fn slot_index(&self, ctx: &StateProcessingContext) -> (r: Scalar)
        ensures
            r == self.spec_slot_index(ctx),
    {
        headcount(scan::count_if(
                &ctx.teammates,
                |t: MatchPlayerLite| -> (b: bool)
                    ensures b == (t.tactical_positions.is_forward() && t.id < ctx.player.id)
                {
                    t.tactical_positions.is_forward() && t.id < ctx.player.id
                },
                Ghost(
                    |t: MatchPlayerLite| t.tactical_positions.is_forward() && t.id < ctx.player.id,
                ),
        ))
    }

    pub open spec fn spec_forward_count(&self, ctx: &StateProcessingContext) -> Scalar {
        headcount(
            scan::count_where(
                ctx.teammates@,
                |t: MatchPlayerLite| t.tactical_positions.is_forward(),
            ),
        ) + units(1)
    }

    /// How many forwards the team has.
    #[verifier::when_used_as_spec(spec_forward_count)]
    pub fn forward_count(&self, ctx: &StateProcessingContext) -> (r: Scalar)
        ensures
            r == self.spec_forward_count(ctx),
    {
        headcount(scan::count_if(
                &ctx.teammates,
                |t: MatchPlayerLite| -> (b: bool)
                    ensures b == (t.tactical_positions.is_forward())
                {
                    t.tactical_positions.is_forward()
                },
                Ghost(|t: MatchPlayerLite| t.tactical_positions.is_forward()),
        )) + units(1)
    }

    pub open spec fn spec_proximity(&self, ctx: &StateProcessingContext) -> Scalar {
        (units(1) - ctx.ball.distance / units(400)).clamp(milli(50), milli(450))
    }

    /// How much the ball draws the forward, less with the distance.
    #[verifier::when_used_as_spec(spec_proximity)]
    pub fn proximity(&self, ctx: &StateProcessingContext) -> (r: Scalar)
        ensures
            r == self.spec_proximity(ctx),
    {
        (units(1) - ctx.ball.distance / units(400)).clamp(milli(50), milli(450))
    }

    pub open spec fn spec_forward_slot(&self, ctx: &StateProcessingContext) -> Vec3 {
        inside(ctx, flat(self.slot_depth(ctx), self.slot_lane(ctx)), 30, 40)
    }

    /// The forward's own place in the line of forwards.
    #[verifier::when_used_as_spec(spec_forward_slot)]
    pub fn forward_slot(&self, ctx: &StateProcessingContext) -> (r: Vec3)
        requires
            ctx.field_size.width >= 60,
            ctx.field_size.height >= 80,
        ensures
            r == self.spec_forward_slot(ctx),
            units(30) <= r.x,
            r.x <= ctx.width() - units(30),
            units(40) <= r.y,
            r.y <= ctx.height() - units(40),
    {
        inside(ctx, flat(self.slot_depth(ctx), self.slot_lane(ctx)), 30, 40)
    }

    pub open spec fn spec_slot_depth(&self, ctx: &StateProcessingContext) -> Scalar {
        let ball_x = (ctx.ball.position.x / units(10)).round() * units(10);
        let direction = attacking_direction(ctx);
        let advanced = ball_x + direction * units(70) + direction * (
            self.slot_index(ctx) * units(20)
        );
        let lowest = match ctx.player.side {
            Some(PlayerSide::Left) => (ctx.width() * milli(450)).max(ball_x).min(ctx.width()),
            Some(PlayerSide::Right) => units(0),
            None => units(0),
        };
        let highest = match ctx.player.side {
            Some(PlayerSide::Left) => ctx.width(),
            Some(PlayerSide::Right) => (ctx.width() * milli(550)).min(ball_x).max(units(0)),
            None => ctx.width(),
        };
        ctx.player.start_position.x
        + (advanced.clamp(lowest, highest) - ctx.player.start_position.x) * self.proximity(ctx)
    }

    /// Well ahead of the ball, drawn from the start position.
    #[verifier::when_used_as_spec(spec_slot_depth)]
    pub fn slot_depth(&self, ctx: &StateProcessingContext) -> (r: Scalar)
        ensures
            r == self.spec_slot_depth(ctx),
    {
        let ball_x = (ctx.ball.position.x / units(10)).round() * units(10);
        let direction = attacking_direction(ctx);
        let advanced = ball_x + direction * units(70) + direction * (
            self.slot_index(ctx) * units(20)
        );
        let lowest = match ctx.player.side {
            Some(PlayerSide::Left) => (ctx.width() * milli(450)).max(ball_x).min(ctx.width()),
            Some(PlayerSide::Right) => units(0),
            None => units(0),
        };
        let highest = match ctx.player.side {
            Some(PlayerSide::Left) => ctx.width(),
            Some(PlayerSide::Right) => (ctx.width() * milli(550)).min(ball_x).max(units(0)),
            None => ctx.width(),
        };
        ctx.player.start_position.x
        + (advanced.clamp(lowest, highest) - ctx.player.start_position.x) * self.proximity(ctx)
    }

    pub open spec fn spec_slot_lane(&self, ctx: &StateProcessingContext) -> Scalar {
        let ball_y = (ctx.ball.position.y / units(10)).round() * units(10);
        let place = ctx.height() * milli(250)
        + (ctx.height() * milli(500)) * (
            self.slot_index(ctx) + milli(500)
        ) / self.forward_count(ctx);
        let start_y = ctx.player.start_position.y;
        let is_wide = (start_y - ctx.height() / units(2)).abs() > ctx.height() * milli(200);
        let place_weight = if is_wide { milli(400) } else { milli(500) };
        let ball_weight = self.proximity(ctx) * (units(1) - place_weight);
        let start_weight = (units(1) - place_weight - ball_weight).max(units(0));
        place * place_weight + ball_y * ball_weight + start_y * start_weight
    }

    /// A blend of the place in the line, the ball and the start position.
    #[verifier::when_used_as_spec(spec_slot_lane)]
    pub fn slot_lane(&self, ctx: &StateProcessingContext) -> (r: Scalar)
        ensures
            r == self.spec_slot_lane(ctx),
    {
        let ball_y = (ctx.ball.position.y / units(10)).round() * units(10);
        let place = ctx.height() * milli(250)
        + (ctx.height() * milli(500)) * (
            self.slot_index(ctx) + milli(500)
        ) / self.forward_count(ctx);
        let start_y = ctx.player.start_position.y;
        let is_wide = (start_y - ctx.height() / units(2)).abs() > ctx.height() * milli(200);
        let place_weight = if is_wide { milli(400) } else { milli(500) };
        let ball_weight = self.proximity(ctx) * (units(1) - place_weight);
        let start_weight = (units(1) - place_weight - ball_weight).max(units(0));
        place * place_weight + ball_y * ball_weight + start_y * start_weight
    }

    pub open spec fn spec_process_conditions(&self) -> Exertion {
        exertion_with_velocity(ActivityIntensity::High)
    }

    /// The load of the state.
    #[verifier::when_used_as_spec(spec_process_conditions)]
    pub fn process_conditions(&self) -> (r: Exertion)
        ensures
            r == self.spec_process_conditions(),
    {
        exertion_with_velocity(ActivityIntensity::High)
    }

    pub open spec fn spec_should_cross_from_byline(&self, ctx: &StateProcessingContext) -> bool {
        self.is_wide(ctx) && ctx.ball.distance_to_opponent_goal <= units(130)
        && ctx.ball.distance_to_opponent_goal >= units(15) && ctx.in_state_time >= 5
    }

    /// Wide near the goal line, where the angle is too narrow for a shot, and in control.
    #[verifier::when_used_as_spec(spec_should_cross_from_byline)]
    pub fn should_cross_from_byline(&self, ctx: &StateProcessingContext) -> (r: bool)
        ensures
            r == self.spec_should_cross_from_byline(ctx),
    {
        self.is_wide(ctx) && ctx.ball.distance_to_opponent_goal <= units(130)
        && ctx.ball.distance_to_opponent_goal >= units(15) && ctx.in_state_time >= 5
    }

    pub open spec fn spec_is_wide(&self, ctx: &StateProcessingContext) -> bool {
        let y = ctx.player.position.y;
        let wide_margin = ctx.height() * milli(200);
        y < wide_margin || y > ctx.height() - wide_margin
    }

    /// In the outer fifth of the pitch, on either side.
    #[verifier::when_used_as_spec(spec_is_wide)]
    pub fn is_wide(&self, ctx: &StateProcessingContext) -> (r: bool)
        ensures
            r == self.spec_is_wide(ctx),
    {
        let y = ctx.player.position.y;
        let wide_margin = ctx.height() * milli(200);
        y < wide_margin || y > ctx.height() - wide_margin
    }

    pub open spec fn spec_has_open_space_ahead(&self, ctx: &StateProcessingContext) -> bool {
        opponents_in_the_way(ctx, units(25), milli(400)) == 0
    }

    /// Nobody close by in the way to the goal.
    #[verifier::when_used_as_spec(spec_has_open_space_ahead)]
    pub fn has_open_space_ahead(&self, ctx: &StateProcessingContext) -> (r: bool)
        ensures
            r == self.spec_has_open_space_ahead(ctx),
    {
        opponents_in_the_way(ctx, units(25), milli(400)) == 0
    }

    pub open spec fn spec_is_under_immediate_pressure(
        &self,
        ctx: &StateProcessingContext,
    ) -> bool {
        ctx.player.under_immediate_pressure
    }

    #[verifier::when_used_as_spec(spec_is_under_immediate_pressure)]
    pub fn is_under_immediate_pressure(&self, ctx: &StateProcessingContext) -> (r: bool)
        ensures
            r == self.spec_is_under_immediate_pressure(ctx),
    {
        ctx.player.under_immediate_pressure
    }

    pub open spec fn spec_should_pass_under_pressure(&self, ctx: &StateProcessingContext) -> bool {
        scan::some_where(
            ctx.teammates@,
            |t: MatchPlayerLite| t.distance <= units(200) && t.clear_pass,
        )
        && (share(ctx.player.skills.mental.composure) < milli(700)
            || ctx.player.under_immediate_pressure)
    }

    /// A free teammate, and pressure or a lack of composure.
    #[verifier::when_used_as_spec(spec_should_pass_under_pressure)]
    pub fn should_pass_under_pressure(&self, ctx: &StateProcessingContext) -> (r: bool)
        ensures
            r == self.spec_should_pass_under_pressure(ctx),
    {
        scan::any_of(
            &ctx.teammates,
            |t: MatchPlayerLite| -> (b: bool)
                ensures b == (t.distance <= units(200) && t.clear_pass)
            {
                t.distance <= units(200) && t.clear_pass
            },
            Ghost(|t: MatchPlayerLite| t.distance <= units(200) && t.clear_pass),
        )
        && (share(ctx.player.skills.mental.composure) < milli(700)
            || ctx.player.under_immediate_pressure)
    }

    pub open spec fn spec_can_dribble_out_of_pressure(
        &self,
        ctx: &StateProcessingContext,
    ) -> bool {
        share(ctx.player.skills.technical.dribbling) * milli(500)
        + share(ctx.player.skills.physical.agility) * milli(300)
        + share(ctx.player.skills.mental.composure) * milli(200) > milli(500)
        && (ctx.to_goal().is_zero() || self.find_dribbling_space(ctx).is_some())
    }

    /// Skill and a way out.
    #[verifier::when_used_as_spec(spec_can_dribble_out_of_pressure)]
    pub fn can_dribble_out_of_pressure(&self, ctx: &StateProcessingContext) -> (r: bool)
        ensures
            r == self.spec_can_dribble_out_of_pressure(ctx),
    {
        share(ctx.player.skills.technical.dribbling) * milli(500)
        + share(ctx.player.skills.physical.agility) * milli(300)
        + share(ctx.player.skills.mental.composure) * milli(200) > milli(500)
        && (ctx.to_goal().is_zero() || self.find_dribbling_space(ctx).is_some())
    }

    pub open spec fn spec_pressure_only_from_behind(&self, ctx: &StateProcessingContext) -> bool {
        ctx.opponent_exists(units(20)) && opponents_in_the_way(ctx, units(20), units(0)) == 0
    }

    /// Somebody presses, and everybody who does is behind the forward.
    #[verifier::when_used_as_spec(spec_pressure_only_from_behind)]
    pub fn pressure_only_from_behind(&self, ctx: &StateProcessingContext) -> (r: bool)
        ensures
            r == self.spec_pressure_only_from_behind(ctx),
    {
        ctx.opponent_exists(units(20)) && opponents_in_the_way(ctx, units(20), units(0)) == 0
    }

    pub open spec fn spec_find_dribbling_space(
        &self,
        ctx: &StateProcessingContext,
    ) -> Option<Vec3> {
        match ctx.to_goal().direction() {
            Some(ahead) => self.space_along(ctx, ahead),
            None => None,
        }
    }

    /// The first free spot on the way to the goal, looked for from one side to the other.
    #[verifier::when_used_as_spec(spec_find_dribbling_space)]
    pub fn find_dribbling_space(&self, ctx: &StateProcessingContext) -> (r: Option<Vec3>)
        ensures
            r == self.spec_find_dribbling_space(ctx),
    {
        match ctx.to_goal().direction() {
            Some(ahead) => self.space_along(ctx, ahead),
            None => None,
        }
    }

    pub open spec fn spec_space_along(
        &self,
        ctx: &StateProcessingContext,
        ahead: Vec3,
    ) -> Option<Vec3> {
        let a = rotated(ahead, micro(707107), micro(707107).negated());
        let b = rotated(ahead, micro(866025), milli(500).negated());
        let c = rotated(ahead, units(1), units(0));
        let d = rotated(ahead, micro(866025), milli(500));
        let e = rotated(ahead, micro(707107), micro(707107));
        if self.is_lane_clear(ctx, a) {
            Some(ctx.player.position + a * units(15))
        } else if self.is_lane_clear(ctx, b) {
            Some(ctx.player.position + b * units(15))
        } else if self.is_lane_clear(ctx, c) {
            Some(ctx.player.position + c * units(15))
        } else if self.is_lane_clear(ctx, d) {
            Some(ctx.player.position + d * units(15))
        } else if self.is_lane_clear(ctx, e) {
            Some(ctx.player.position + e * units(15))
        } else {
            None
        }
    }

    /// The first free spot ahead, looked for from one side to the other.
    #[verifier::when_used_as_spec(spec_space_along)]
    pub fn space_along(&self, ctx: &StateProcessingContext, ahead: Vec3) -> (r: Option<Vec3>)
        ensures
            r == self.spec_space_along(ctx, ahead),
    {
        let a = rotated(ahead, micro(707107), micro(707107).negated());
        let b = rotated(ahead, micro(866025), milli(500).negated());
        let c = rotated(ahead, units(1), units(0));
        let d = rotated(ahead, micro(866025), milli(500));
        let e = rotated(ahead, micro(707107), micro(707107));
        if self.is_lane_clear(ctx, a) {
            return Some(ctx.player.position + a * units(15));
        }
        if self.is_lane_clear(ctx, b) {
            return Some(ctx.player.position + b * units(15));
        }
        if self.is_lane_clear(ctx, c) {
            return Some(ctx.player.position + c * units(15));
        }
        if self.is_lane_clear(ctx, d) {
            return Some(ctx.player.position + d * units(15));
        }
        if self.is_lane_clear(ctx, e) {
            return Some(ctx.player.position + e * units(15));
        }
        None
    }

    pub open spec fn spec_is_lane_clear(
        &self,
        ctx: &StateProcessingContext,
        direction: Vec3,
    ) -> bool {
        scan::count_where(
            ctx.opponents@,
            |o: MatchPlayerLite|
                o.distance <= units(20)
                    && reaches_beyond(direction, o.position - ctx.player.position, milli(700)),
        ) == 0
    }

    /// No opponent close by in that direction.
    #[verifier::when_used_as_spec(spec_is_lane_clear)]
    pub fn is_lane_clear(&self, ctx: &StateProcessingContext, direction: Vec3) -> (r: bool)
        ensures
            r == self.spec_is_lane_clear(ctx, direction),
    {
        scan::count_if(
            &ctx.opponents,
            |o: MatchPlayerLite| -> (b: bool)
                ensures b == (
                    o.distance <= units(20)
                        && reaches_beyond(direction, o.position - ctx.player.position, milli(700))
                )
            {
                o.distance <= units(20)
                    && reaches_beyond(direction, o.position - ctx.player.position, milli(700))
            },
            Ghost(
                |o: MatchPlayerLite|
                    o.distance <= units(20)
                        && reaches_beyond(direction, o.position - ctx.player.position, milli(700)),
            ),
        ) == 0
    }

    pub open spec fn spec_can_intercept_ball(&self, ctx: &StateProcessingContext) -> bool {
        if ctx.ball.is_owned && ctx.owner_in_team().is_some() {
            false
        } else if ctx.ball.distance < units(30) && ctx.ball.speed < units(2)
            && !self.teammate_is_closer(ctx) {
            true
        } else if ctx.ball.distance < units(150)
            && ctx.ball.is_towards_player_with_angle(milli(800)) {
            let pace = share(ctx.player.skills.physical.pace) * units(10);
            pace != units(0)
                && ctx.ball.speed * (ctx.ball.distance / pace) < ctx.ball.distance * milli(1500)
        } else {
            false
        }
    }

    /// A slow ball that no teammate is closer to, or one that comes this way slowly enough for a
    /// forward who can move.
    #[verifier::when_used_as_spec(spec_can_intercept_ball)]
    pub fn can_intercept_ball(&self, ctx: &StateProcessingContext) -> (r: bool)
        ensures
            r == self.spec_can_intercept_ball(ctx),
    {
        if ctx.ball.is_owned && ctx.owner_in_team().is_some() {
            return false;
        }
        if ctx.ball.distance < units(30) && ctx.ball.speed < units(2)
            && !self.teammate_is_closer(ctx) {
            return true;
        }
        if ctx.ball.distance < units(150) && ctx.ball.is_towards_player_with_angle(milli(800)) {
            let pace = share(ctx.player.skills.physical.pace) * units(10);
            return pace != units(0)
                && ctx.ball.speed * (ctx.ball.distance / pace) < ctx.ball.distance * milli(1500);
        }
        false
    }

    pub open spec fn spec_teammate_is_closer(&self, ctx: &StateProcessingContext) -> bool {
        let cutoff = ctx.ball.distance - units(5);
        cutoff > units(0)
        && scan::some_where(
            ctx.teammates@,
            |t: MatchPlayerLite|
                t.id != ctx.player.id
                    && (t.position - ctx.ball.position).norm_squared() < cutoff * cutoff,
        )
    }

    /// A teammate is clearly closer to the ball.
    #[verifier::when_used_as_spec(spec_teammate_is_closer)]
    pub fn teammate_is_closer(&self, ctx: &StateProcessingContext) -> (r: bool)
        ensures
            r == self.spec_teammate_is_closer(ctx),
    {
        let cutoff = ctx.ball.distance - units(5);
        cutoff > units(0)
        && scan::any_of(
            &ctx.teammates,
            |t: MatchPlayerLite| -> (b: bool)
                ensures b == (
                    t.id != ctx.player.id
                        && (t.position - ctx.ball.position).norm_squared() < cutoff * cutoff
                )
            {
                t.id != ctx.player.id
                    && (t.position - ctx.ball.position).norm_squared() < cutoff * cutoff
            },
            Ghost(
                |t: MatchPlayerLite|
                    t.id != ctx.player.id
                        && (t.position - ctx.ball.position).norm_squared() < cutoff * cutoff,
            ),
        )
    }

    pub open spec fn spec_press_distance(&self, ctx: &StateProcessingContext) -> Scalar {
        units(60) * ctx.stamina() * (milli(500) + share(ctx.player.skills.mental.work_rate))
        * (milli(500) + ctx.team.press_intensity * milli(500))
    }

    /// How far the forward presses: further with stamina, work rate and the intensity of the
    /// team's press.
    #[verifier::when_used_as_spec(spec_press_distance)]
    pub fn press_distance(&self, ctx: &StateProcessingContext) -> (r: Scalar)
        ensures
            r == self.spec_press_distance(ctx),
    {
        units(60) * ctx.stamina() * (milli(500) + share(ctx.player.skills.mental.work_rate))
        * (milli(500) + ctx.team.press_intensity * milli(500))
    }

    pub open spec fn spec_should_press(&self, ctx: &StateProcessingContext) -> bool {
        let reach = self.press_distance(ctx);
        if ctx.team.control_ball {
            false
        } else if ctx.ball.distance > units(30) && !ctx.team.best_player_to_chase_ball {
            false
        } else {
            match self.pressing_trap(ctx) {
                Some(answer) => {
                    answer
                },
                None => {
                    if ctx.team.high_pressing {
                        ctx.ball.distance < reach * milli(1300)
                    } else {
                        ctx.ball.distance < reach && !ctx.ball.on_own_third
                    }
                },
            }
        }
    }

    /// Whether to press: a ball carrier in trouble from further away, others by the style of
    /// the team.
    #[verifier::when_used_as_spec(spec_should_press)]
    pub fn should_press(&self, ctx: &StateProcessingContext) -> (r: bool)
        ensures
            r == self.spec_should_press(ctx),
    {
        let reach = self.press_distance(ctx);
        if ctx.team.control_ball {
            return false;
        }
        if ctx.ball.distance > units(30) && !ctx.team.best_player_to_chase_ball {
            return false;
        }
        match self.pressing_trap(ctx) {
            Some(answer) => {
                return answer;
            },
            None => {},
        }
        if ctx.team.high_pressing {
            ctx.ball.distance < reach * milli(1300)
        } else {
            ctx.ball.distance < reach && !ctx.ball.on_own_third
        }
    }

    pub open spec fn spec_pressing_trap(&self, ctx: &StateProcessingContext) -> Option<bool> {
        let reach = self.press_distance(ctx);
        if ctx.ball.distance >= reach * milli(1500) {
            None
        } else {
            match scan::first_where(
                ctx.opponents@,
                |o: MatchPlayerLite| o.distance <= reach * milli(1500) && o.has_ball,
            ) {
                Some(carrier) => {
                    if self.faces_own_goal(ctx, carrier)
                        || self.is_by_the_touchline(ctx, carrier) {
                        Some(true)
                    } else if self.is_exhausted(ctx, carrier) {
                        Some(ctx.ball.distance < reach * milli(1400))
                    } else {
                        None
                    }
                },
                None => None,
            }
        }
    }

    /// A carrier in reach who faces the own goal or is close to the touchline is pressed, a
    /// tired one from somewhat further away; none where there is no such carrier.
    #[verifier::when_used_as_spec(spec_pressing_trap)]
    pub fn pressing_trap(&self, ctx: &StateProcessingContext) -> (r: Option<bool>)
        ensures
            r == self.spec_pressing_trap(ctx),
    {
        let reach = self.press_distance(ctx);
        if ctx.ball.distance >= reach * milli(1500) {
            return None;
        }
        match scan::first_of(
            &ctx.opponents,
            |o: MatchPlayerLite| -> (b: bool)
                ensures b == (o.distance <= reach * milli(1500) && o.has_ball)
            {
                o.distance <= reach * milli(1500) && o.has_ball
            },
            Ghost(|o: MatchPlayerLite| o.distance <= reach * milli(1500) && o.has_ball),
        ) {
            Some(carrier) => {
                if self.faces_own_goal(ctx, carrier) || self.is_by_the_touchline(ctx, carrier) {
                    Some(true)
                } else if self.is_exhausted(ctx, carrier) {
                    Some(ctx.ball.distance < reach * milli(1400))
                } else {
                    None
                }
            },
            None => None,
        }
    }

    pub open spec fn spec_faces_own_goal(
        &self,
        ctx: &StateProcessingContext,
        carrier: MatchPlayerLite,
    ) -> bool {
        let own_goal = ctx.ball.position * units(2) - ctx.goal();
        carrier.velocity.magnitude() > milli(500)
        && aligned_above(carrier.velocity, own_goal - carrier.position, milli(400))
    }

    /// The carrier runs towards the own goal.
    #[verifier::when_used_as_spec(spec_faces_own_goal)]
    pub fn faces_own_goal(
        &self,
        ctx: &StateProcessingContext,
        carrier: MatchPlayerLite,
    ) -> (r: bool)
        ensures
            r == self.spec_faces_own_goal(ctx, carrier),
    {
        let own_goal = ctx.ball.position * units(2) - ctx.goal();
        carrier.velocity.magnitude() > milli(500)
        && aligned_above(carrier.velocity, own_goal - carrier.position, milli(400))
    }

    pub open spec fn spec_is_by_the_touchline(
        &self,
        ctx: &StateProcessingContext,
        carrier: MatchPlayerLite,
    ) -> bool {
        carrier.position.y < ctx.height() * milli(100)
            || carrier.position.y > ctx.height() * milli(900)
    }

    #[verifier::when_used_as_spec(spec_is_by_the_touchline)]
    pub fn is_by_the_touchline(
        &self,
        ctx: &StateProcessingContext,
        carrier: MatchPlayerLite,
    ) -> (r: bool)
        ensures
            r == self.spec_is_by_the_touchline(ctx, carrier),
    {
        carrier.position.y < ctx.height() * milli(100)
            || carrier.position.y > ctx.height() * milli(900)
    }

    pub open spec fn spec_is_exhausted(
        &self,
        ctx: &StateProcessingContext,
        carrier: MatchPlayerLite,
    ) -> bool {
        match ctx.by_id(carrier.id) {
            Some(p) => p.condition < 50,
            None => false,
        }
    }

    #[verifier::when_used_as_spec(spec_is_exhausted)]
    pub fn is_exhausted(
        &self,
        ctx: &StateProcessingContext,
        carrier: MatchPlayerLite,
    ) -> (r: bool)
        ensures
            r == self.spec_is_exhausted(ctx, carrier),
    {
        match ctx.by_id(carrier.id) {
            Some(p) => p.condition < 50,
            None => false,
        }
    }

    pub open spec fn spec_should_create_space(&self, ctx: &StateProcessingContext) -> bool {
        ctx.ball.distance >= units(5) && !ctx.ball.is_owned_by(ctx.player.id)
        && ctx.owner_in_team().is_some()
    }

    /// A teammate has the ball, and not right here.
    #[verifier::when_used_as_spec(spec_should_create_space)]
    pub fn should_create_space(&self, ctx: &StateProcessingContext) -> (r: bool)
        ensures
            r == self.spec_should_create_space(ctx),
    {
        ctx.ball.distance >= units(5) && !ctx.ball.is_owned_by(ctx.player.id)
        && ctx.owner_in_team().is_some()
    }

    pub open spec fn spec_is_counter_attack_opportunity(
        &self,
        ctx: &StateProcessingContext,
    ) -> bool {
        ctx.ball.ownership_duration < 15
        && scan::count_where(
            ctx.opponents@,
            |o: MatchPlayerLite|
                aligned_above(
                    o.position - ctx.ball.position,
                    ctx.goal() - ctx.ball.position,
                    milli(300),
                ),
        ) < 3
    }

    /// The ball was just won and few opponents are ahead of it.
    #[verifier::when_used_as_spec(spec_is_counter_attack_opportunity)]
    pub fn is_counter_attack_opportunity(&self, ctx: &StateProcessingContext) -> (r: bool)
        ensures
            r == self.spec_is_counter_attack_opportunity(ctx),
    {
        ctx.ball.ownership_duration < 15
        && scan::count_if(
            &ctx.opponents,
            |o: MatchPlayerLite| -> (b: bool)
                ensures b == (
                    aligned_above(
                        o.position - ctx.ball.position,
                        ctx.goal() - ctx.ball.position,
                        milli(300),
                    )
                )
            {
                aligned_above(
                    o.position - ctx.ball.position,
                    ctx.goal() - ctx.ball.position,
                    milli(300),
                )
            },
            Ghost(
                |o: MatchPlayerLite|
                    aligned_above(
                        o.position - ctx.ball.position,
                        ctx.goal() - ctx.ball.position,
                        milli(300),
                    ),
            ),
        ) < 3
    }

    pub open spec fn spec_should_make_run_in_behind(&self, ctx: &StateProcessingContext) -> bool {
        let is_counter = self.is_counter_attack_opportunity(ctx);
        let threshold = if is_counter { milli(250) } else { milli(400) };
        let ability = share(ctx.player.skills.physical.pace) * milli(400)
        + share(ctx.player.skills.mental.off_the_ball) * milli(400)
        + ctx.stamina() * milli(200);
        !ctx.player.on_own_side && ability >= threshold && ctx.owner_in_team().is_some()
        && (is_counter || self.check_space_behind_defense(ctx, self.find_defensive_line(ctx))
            || self.is_in_good_attacking_position(ctx))
    }

    /// In the other half, able enough, with a teammate on the ball and space behind the
    /// defence or a place up front; on a counter-attack more readily.
    #[verifier::when_used_as_spec(spec_should_make_run_in_behind)]
    pub fn should_make_run_in_behind(&self, ctx: &StateProcessingContext) -> (r: bool)
        ensures
            r == self.spec_should_make_run_in_behind(ctx),
    {
        let is_counter = self.is_counter_attack_opportunity(ctx);
        let threshold = if is_counter { milli(250) } else { milli(400) };
        let ability = share(ctx.player.skills.physical.pace) * milli(400)
        + share(ctx.player.skills.mental.off_the_ball) * milli(400)
        + ctx.stamina() * milli(200);
        !ctx.player.on_own_side && ability >= threshold && ctx.owner_in_team().is_some()
        && (is_counter || self.check_space_behind_defense(ctx, self.find_defensive_line(ctx))
            || self.is_in_good_attacking_position(ctx))
    }

    pub open spec fn spec_find_defensive_line(&self, ctx: &StateProcessingContext) -> Scalar {
        let middle = ctx.width() / units(2);
        match ctx.player.side {
            Some(PlayerSide::Left) => match scan::greatest_where(
                ctx.opponents@,
                |o: MatchPlayerLite| o.tactical_positions.is_defender(),
                |o: MatchPlayerLite| o.position.x,
            ) {
                Some(last) => last.position.x,
                None => middle,
            },
            Some(PlayerSide::Right) => match scan::least_where(
                ctx.opponents@,
                |o: MatchPlayerLite| o.tactical_positions.is_defender(),
                |o: MatchPlayerLite| o.position.x,
            ) {
                Some(last) => last.position.x,
                None => middle,
            },
            None => {
                let count: usize = scan::count_where(
                    ctx.opponents@,
                    |o: MatchPlayerLite| o.tactical_positions.is_defender(),
                );
                if count == 0 {
                    middle
                } else {
                    scan::total(
                        ctx.opponents@,
                        |o: MatchPlayerLite|
                            if o.tactical_positions.is_defender() {
                                o.position.x
                            } else {
                                units(0)
                            },
                    ) / headcount(count)
                }
            },
        }
    }

    /// The depth of the opponents' defence: the last defender, or the mean where the side is
    /// not known; the middle of the pitch where there is no defender.
    #[verifier::when_used_as_spec(spec_find_defensive_line)]
    pub fn find_defensive_line(&self, ctx: &StateProcessingContext) -> (r: Scalar)
        ensures
            r == self.spec_find_defensive_line(ctx),
    {
        let middle = ctx.width() / units(2);
        match ctx.player.side {
            Some(PlayerSide::Left) => match scan::greatest_of(
                &ctx.opponents,
                |o: MatchPlayerLite| -> (b: bool)
                    ensures b == (o.tactical_positions.is_defender())
                {
                    o.tactical_positions.is_defender()
                },
                |o: MatchPlayerLite| -> (b: Scalar)
                    ensures b == (o.position.x)
                {
                    o.position.x
                },
                Ghost(|o: MatchPlayerLite| o.tactical_positions.is_defender()),
                Ghost(|o: MatchPlayerLite| o.position.x),
            ) {
                Some(last) => last.position.x,
                None => middle,
            },
            Some(PlayerSide::Right) => match scan::least_of(
                &ctx.opponents,
                |o: MatchPlayerLite| -> (b: bool)
                    ensures b == (o.tactical_positions.is_defender())
                {
                    o.tactical_positions.is_defender()
                },
                |o: MatchPlayerLite| -> (b: Scalar)
                    ensures b == (o.position.x)
                {
                    o.position.x
                },
                Ghost(|o: MatchPlayerLite| o.tactical_positions.is_defender()),
                Ghost(|o: MatchPlayerLite| o.position.x),
            ) {
                Some(last) => last.position.x,
                None => middle,
            },
            None => {
                let count: usize = scan::count_if(
                    &ctx.opponents,
                    |o: MatchPlayerLite| -> (b: bool)
                        ensures b == (o.tactical_positions.is_defender())
                    {
                        o.tactical_positions.is_defender()
                    },
                    Ghost(|o: MatchPlayerLite| o.tactical_positions.is_defender()),
                );
                if count == 0 {
                    middle
                } else {
                    scan::total_of(
                        &ctx.opponents,
                        |o: MatchPlayerLite| -> (b: Scalar)
                            ensures b == (
                                if o.tactical_positions.is_defender() {
                                    o.position.x
                                } else {
                                    units(0)
                                }
                            )
                        {
                            if o.tactical_positions.is_defender() {
                                o.position.x
                            } else {
                                units(0)
                            }
                        },
                        Ghost(
                            |o: MatchPlayerLite|
                                if o.tactical_positions.is_defender() {
                                    o.position.x
                                } else {
                                    units(0)
                                },
                        ),
                    ) / headcount(count)
                }
            },
        }
    }

    pub open spec fn spec_check_space_behind_defense(
        &self,
        ctx: &StateProcessingContext,
        defensive_line: Scalar,
    ) -> bool {
        match ctx.player.side {
            Some(PlayerSide::Left) => defensive_line < ctx.width() * milli(700)
            && ctx.player.position.x < defensive_line + units(20),
            Some(PlayerSide::Right) => defensive_line > ctx.width() * milli(300)
            && ctx.player.position.x > defensive_line - units(20),
            None => false,
        }
    }

    /// The defence stands high and the forward is not far beyond it.
    #[verifier::when_used_as_spec(spec_check_space_behind_defense)]
    pub fn check_space_behind_defense(
        &self,
        ctx: &StateProcessingContext,
        defensive_line: Scalar,
    ) -> (r: bool)
        ensures
            r == self.spec_check_space_behind_defense(ctx, defensive_line),
    {
        match ctx.player.side {
            Some(PlayerSide::Left) => defensive_line < ctx.width() * milli(700)
            && ctx.player.position.x < defensive_line + units(20),
            Some(PlayerSide::Right) => defensive_line > ctx.width() * milli(300)
            && ctx.player.position.x > defensive_line - units(20),
            None => false,
        }
    }

    pub open spec fn spec_should_return_to_position(&self, ctx: &StateProcessingContext) -> bool {
        ctx.player.position_to_distance == PlayerDistanceFromStartPosition::Big
    }

    #[verifier::when_used_as_spec(spec_should_return_to_position)]
    pub fn should_return_to_position(&self, ctx: &StateProcessingContext) -> (r: bool)
        ensures
            r == self.spec_should_return_to_position(ctx),
    {
        ctx.player.position_to_distance == PlayerDistanceFromStartPosition::Big
    }

    pub open spec fn spec_should_help_defend(&self, ctx: &StateProcessingContext) -> bool {
        share(ctx.player.skills.mental.work_rate) > milli(700)
        && ctx.team.losing && ctx.time_is_running_out && ctx.ball.on_own_third
    }

    /// Behind late in the match, a hard-working forward helps in the own third.
    #[verifier::when_used_as_spec(spec_should_help_defend)]
    pub fn should_help_defend(&self, ctx: &StateProcessingContext) -> (r: bool)
        ensures
            r == self.spec_should_help_defend(ctx),
    {
        share(ctx.player.skills.mental.work_rate) > milli(700)
        && ctx.team.losing && ctx.time_is_running_out && ctx.ball.on_own_third
    }

    pub open spec fn spec_needs_recovery(&self, ctx: &StateProcessingContext) -> bool {
        ctx.player.condition < 60 && ctx.in_state_time > SPRINT_DURATION_THRESHOLD
    }

    /// Tired after a long run.
    #[verifier::when_used_as_spec(spec_needs_recovery)]
    pub fn needs_recovery(&self, ctx: &StateProcessingContext) -> (r: bool)
        ensures
            r == self.spec_needs_recovery(ctx),
    {
        ctx.player.condition < 60 && ctx.in_state_time > SPRINT_DURATION_THRESHOLD
    }

    pub open spec fn spec_calculate_fatigue_factor(&self, ctx: &StateProcessingContext) -> Scalar {
        (units(1) - ticks(ctx.in_state_time) / units(600)).max(milli(700))
    }

    /// What a long run leaves of the speed, seven tenths at the least.
    #[verifier::when_used_as_spec(spec_calculate_fatigue_factor)]
    pub fn calculate_fatigue_factor(&self, ctx: &StateProcessingContext) -> (r: Scalar)
        ensures
            r == self.spec_calculate_fatigue_factor(ctx),
    {
        (units(1) - ticks(ctx.in_state_time) / units(600)).max(milli(700))
    }

    pub open spec fn spec_calculate_ball_carrying_movement(
        &self,
        ctx: &StateProcessingContext,
    ) -> Movement {
        match self.find_optimal_attacking_path(ctx) {
            Some(target) => arrive(target, units(20)),
            None => if self.is_way_free(ctx) {
                arrive_if_any(None, units(20))
            } else {
                arrive(ctx.goal(), units(100))
            },
        }
    }

    /// Through a gap, straight on where the way is free, else slowly towards the goal. Straight on
    /// has no direction on the very spot of the goal.
    #[verifier::when_used_as_spec(spec_calculate_ball_carrying_movement)]
    pub fn calculate_ball_carrying_movement(&self, ctx: &StateProcessingContext) -> (r: Movement)
        ensures
            r == self.spec_calculate_ball_carrying_movement(ctx),
    {
        match self.find_optimal_attacking_path(ctx) {
            Some(target) => arrive(target, units(20)),
            None => if self.is_way_free(ctx) {
                arrive_if_any(None, units(20))
            } else {
                arrive(ctx.goal(), units(100))
            },
        }
    }

    pub open spec fn spec_is_way_free(&self, ctx: &StateProcessingContext) -> bool {
        !scan::some_where(
            ctx.opponents@,
            |o: MatchPlayerLite|
                o.distance <= units(30)
                    && aligned_above(o.position - ctx.player.position, ctx.to_goal(), milli(800))
                    && (o.position - ctx.player.position).magnitude() < units(40),
        )
    }

    /// Nobody is in the way to the goal.
    #[verifier::when_used_as_spec(spec_is_way_free)]
    pub fn is_way_free(&self, ctx: &StateProcessingContext) -> (r: bool)
        ensures
            r == self.spec_is_way_free(ctx),
    {
        !scan::any_of(
            &ctx.opponents,
            |o: MatchPlayerLite| -> (b: bool)
                ensures b == (
                    o.distance <= units(30)
                        && aligned_above(
                            o.position - ctx.player.position,
                            ctx.to_goal(),
                            milli(800),
                        )
                        && (o.position - ctx.player.position).magnitude() < units(40)
                )
            {
                o.distance <= units(30)
                    && aligned_above(o.position - ctx.player.position, ctx.to_goal(), milli(800))
                    && (o.position - ctx.player.position).magnitude() < units(40)
            },
            Ghost(
                |o: MatchPlayerLite|
                    o.distance <= units(30)
                        && aligned_above(
                            o.position - ctx.player.position,
                            ctx.to_goal(),
                            milli(800),
                        )
                        && (o.position - ctx.player.position).magnitude() < units(40),
            ),
        )
    }

    pub open spec fn spec_find_optimal_attacking_path(
        &self,
        ctx: &StateProcessingContext,
    ) -> Option<Vec3> {
        match self.find_best_gap_in_defense(ctx) {
            Some(gap) => Some(gap),
            None => if self.is_way_free(ctx) {
                match ctx.to_goal().direction() {
                    Some(way) => Some(ctx.player.position + way * units(50)),
                    None => None,
                }
            } else {
                None
            },
        }
    }

    /// A gap in the defence, or straight on where nobody is in the way and the way has a
    /// direction.
    #[verifier::when_used_as_spec(spec_find_optimal_attacking_path)]
    pub fn find_optimal_attacking_path(&self, ctx: &StateProcessingContext) -> (r: Option<Vec3>)
        ensures
            r == self.spec_find_optimal_attacking_path(ctx),
    {
        match self.find_best_gap_in_defense(ctx) {
            Some(gap) => Some(gap),
            None => if self.is_way_free(ctx) {
                match ctx.to_goal().direction() {
                    Some(way) => Some(ctx.player.position + way * units(50)),
                    None => None,
                }
            } else {
                None
            },
        }
    }

    pub open spec fn spec_is_in_the_way(
        &self,
        ctx: &StateProcessingContext,
        o: MatchPlayerLite,
    ) -> bool {
        let way = o.position - ctx.player.position;
        o.distance <= units(100) && way.norm_squared() >= micro(1)
        && aligned_above(ctx.to_goal(), way, milli(500))
    }

    /// The opponent stands in the way to the goal.
    #[verifier::when_used_as_spec(spec_is_in_the_way)]
    pub fn is_in_the_way(&self, ctx: &StateProcessingContext, o: MatchPlayerLite) -> (r: bool)
        ensures
            r == self.spec_is_in_the_way(ctx, o),
    {
        let way = o.position - ctx.player.position;
        o.distance <= units(100) && way.norm_squared() >= micro(1)
        && aligned_above(ctx.to_goal(), way, milli(500))
    }

    /// The opponents in the way to the goal that the search for a gap looks at.
    pub open spec fn line_ahead(&self, ctx: &StateProcessingContext) -> Seq<MatchPlayerLite> {
        let all = ctx.opponents@.filter(|o: MatchPlayerLite| self.is_in_the_way(ctx, o));
        if all.len() > MAX_OPPONENTS {
            all.take(MAX_OPPONENTS as int)
        } else {
            all
        }
    }

    pub open spec fn spec_find_best_gap_in_defense(
        &self,
        ctx: &StateProcessingContext,
    ) -> Option<Vec3> {
        if ctx.to_goal().norm_squared() < micro(1) {
            None
        } else {
            match scan::first_greatest_where(
                crate::gaps::gaps_from(self.line_ahead(ctx), 0),
                |g: Gap| g.width > units(20),
                |g: Gap| g.width,
            ) {
                Some(gap) => Some(gap.center),
                None => None,
            }
        }
    }

    /// The middle of the widest gap between two opponents in the way to the goal; of equally
    /// wide ones, the first. A gap is worth the name from a certain width on.
    #[verifier::when_used_as_spec(spec_find_best_gap_in_defense)]
    pub fn find_best_gap_in_defense(&self, ctx: &StateProcessingContext) -> (r: Option<Vec3>)
        ensures
            r == self.spec_find_best_gap_in_defense(ctx),
    {
        if ctx.to_goal().norm_squared() < micro(1) {
            return None;
        }
        let mut line = scan::select(
            &ctx.opponents,
            |o: MatchPlayerLite| -> (b: bool)
                ensures b == (self.is_in_the_way(ctx, o))
            {
                self.is_in_the_way(ctx, o)
            },
            Ghost(|o: MatchPlayerLite| self.is_in_the_way(ctx, o)),
        );
        if line.len() > MAX_OPPONENTS {
            line.truncate(MAX_OPPONENTS);
        }
        assert(line@ =~= self.line_ahead(ctx));
        let gaps = gaps_between(&line);
        match scan::first_greatest_of(
            &gaps,
            |g: Gap| -> (b: bool)
                ensures b == (g.width > units(20))
            {
                g.width > units(20)
            },
            |g: Gap| -> (b: Scalar)
                ensures b == (g.width)
            {
                g.width
            },
            Ghost(|g: Gap| g.width > units(20)),
            Ghost(|g: Gap| g.width),
        ) {
            Some(gap) => Some(gap.center),
            None => None,
        }
    }

    pub open spec fn spec_should_pass(&self, ctx: &StateProcessingContext) -> bool {
        let distance = ctx.ball.distance_to_opponent_goal;
        let pressed = ctx.player.under_immediate_pressure;
        if !ctx.teammate_exists(units(300)) {
            false
        } else if pressed
            && (
                ctx.rolls.pass_under_pressure < ctx.curves.passing_10 || ctx.stamina() < milli(400)
            ) {
            self.has_safe_passing_option(ctx)
        } else if distance < close_range_distance() && !pressed {
            self.has_better_positioned_teammate(ctx, distance)
        } else if distance < shooting_zone_distance() && !pressed {
            self.has_forward_pass_to_better_teammate(ctx, distance)
        } else if ctx.rolls.pass_quality < ctx.curves.vision_14.max(ctx.curves.passing_14)
        && self.has_teammate_in_dangerous_position(ctx, distance) {
            true
        } else if ctx.rolls.pass_teamwork < ctx.curves.teamwork_14 * ctx.curves.decisions_12 {
            self.has_good_passing_option(ctx)
        } else {
            false
        }
    }

    /// Whether to pass: under pressure to a safe teammate, near the goal only to one in a better
    /// place, else by vision and teamwork.
    #[verifier::when_used_as_spec(spec_should_pass)]
    pub fn should_pass(&self, ctx: &StateProcessingContext) -> (r: bool)
        ensures
            r == self.spec_should_pass(ctx),
    {
        let distance = ctx.ball.distance_to_opponent_goal;
        let pressed = ctx.player.under_immediate_pressure;
        if !ctx.teammate_exists(units(300)) {
            return false;
        }
        if pressed
            && (
                ctx.rolls.pass_under_pressure < ctx.curves.passing_10 || ctx.stamina() < milli(400)
            ) {
            return self.has_safe_passing_option(ctx);
        }
        if distance < close_range_distance() && !pressed {
            return self.has_better_positioned_teammate(ctx, distance);
        }
        if distance < shooting_zone_distance() && !pressed {
            return self.has_forward_pass_to_better_teammate(ctx, distance);
        }
        if ctx.rolls.pass_quality < ctx.curves.vision_14.max(ctx.curves.passing_14)
        && self.has_teammate_in_dangerous_position(ctx, distance) {
            return true;
        }
        if ctx.rolls.pass_teamwork < ctx.curves.teamwork_14 * ctx.curves.decisions_12 {
            return self.has_good_passing_option(ctx);
        }
        false
    }

    pub open spec fn spec_has_safe_passing_option(&self, ctx: &StateProcessingContext) -> bool {
        scan::some_where(
            ctx.teammates@,
            |t: MatchPlayerLite|
                t.distance <= units(300) && t.clear_pass
                    && !self.is_teammate_heavily_marked(ctx, t),
        )
    }

    /// A teammate with a free lane, and nobody tight on the ball.
    #[verifier::when_used_as_spec(spec_has_safe_passing_option)]
    pub fn has_safe_passing_option(&self, ctx: &StateProcessingContext) -> (r: bool)
        ensures
            r == self.spec_has_safe_passing_option(ctx),
    {
        scan::any_of(
            &ctx.teammates,
            |t: MatchPlayerLite| -> (b: bool)
                ensures b == (
                    t.distance <= units(300) && t.clear_pass
                        && !self.is_teammate_heavily_marked(ctx, t)
                )
            {
                t.distance <= units(300) && t.clear_pass
                    && !self.is_teammate_heavily_marked(ctx, t)
            },
            Ghost(
                |t: MatchPlayerLite|
                    t.distance <= units(300) && t.clear_pass
                        && !self.is_teammate_heavily_marked(ctx, t),
            ),
        )
    }

    pub open spec fn spec_has_teammate_with_much_better_shot(
        &self,
        ctx: &StateProcessingContext,
        own_distance: Scalar,
    ) -> bool {
        own_distance >= point_blank_distance()
        && (share(ctx.player.skills.mental.vision) >= milli(400)
            || share(ctx.player.skills.mental.teamwork) >= milli(400))
        && scan::some_where(
            ctx.teammates@,
            |t: MatchPlayerLite|
                t.distance <= units(200)
                    && t.position.distance_to(ctx.goal()) <= own_distance * milli(550)
                    && t.clear_pass && ctx.opponents_around(t.position, units(8)) < 2,
        )
    }

    /// A teammate has a much better chance: much closer to the goal, free and in sight. Point
    /// blank, or without vision and teamwork, nobody looks for one.
    #[verifier::when_used_as_spec(spec_has_teammate_with_much_better_shot)]
    pub fn has_teammate_with_much_better_shot(
        &self,
        ctx: &StateProcessingContext,
        own_distance: Scalar,
    ) -> (r: bool)
        ensures
            r == self.spec_has_teammate_with_much_better_shot(ctx, own_distance),
    {
        own_distance >= point_blank_distance()
        && (share(ctx.player.skills.mental.vision) >= milli(400)
            || share(ctx.player.skills.mental.teamwork) >= milli(400))
        && scan::any_of(
            &ctx.teammates,
            |t: MatchPlayerLite| -> (b: bool)
                ensures b == (
                    t.distance <= units(200)
                        && t.position.distance_to(ctx.goal()) <= own_distance * milli(550)
                        && t.clear_pass && ctx.opponents_around(t.position, units(8)) < 2
                )
            {
                t.distance <= units(200)
                    && t.position.distance_to(ctx.goal()) <= own_distance * milli(550)
                    && t.clear_pass && ctx.opponents_around(t.position, units(8)) < 2
            },
            Ghost(
                |t: MatchPlayerLite|
                    t.distance <= units(200)
                        && t.position.distance_to(ctx.goal()) <= own_distance * milli(550)
                        && t.clear_pass && ctx.opponents_around(t.position, units(8)) < 2,
            ),
        )
    }

    pub open spec fn spec_has_better_positioned_teammate(
        &self,
        ctx: &StateProcessingContext,
        current_distance: Scalar,
    ) -> bool {
        scan::some_where(
            ctx.teammates@,
            |t: MatchPlayerLite|
                t.distance <= units(300)
                    && t.position.distance_to(ctx.goal()) < current_distance * milli(600)
                    && !self.is_teammate_heavily_marked(ctx, t) && t.clear_pass,
        )
    }

    /// A free teammate much closer to the goal.
    #[verifier::when_used_as_spec(spec_has_better_positioned_teammate)]
    pub fn has_better_positioned_teammate(
        &self,
        ctx: &StateProcessingContext,
        current_distance: Scalar,
    ) -> (r: bool)
        ensures
            r == self.spec_has_better_positioned_teammate(ctx, current_distance),
    {
        scan::any_of(
            &ctx.teammates,
            |t: MatchPlayerLite| -> (b: bool)
                ensures b == (
                    t.distance <= units(300)
                        && t.position.distance_to(ctx.goal()) < current_distance * milli(600)
                        && !self.is_teammate_heavily_marked(ctx, t) && t.clear_pass
                )
            {
                t.distance <= units(300)
                    && t.position.distance_to(ctx.goal()) < current_distance * milli(600)
                    && !self.is_teammate_heavily_marked(ctx, t) && t.clear_pass
            },
            Ghost(
                |t: MatchPlayerLite|
                    t.distance <= units(300)
                        && t.position.distance_to(ctx.goal()) < current_distance * milli(600)
                        && !self.is_teammate_heavily_marked(ctx, t) && t.clear_pass,
            ),
        )
    }

    pub open spec fn spec_has_forward_pass_to_better_teammate(
        &self,
        ctx: &StateProcessingContext,
        current_distance: Scalar,
    ) -> bool {
        scan::some_where(
            ctx.teammates@,
            |t: MatchPlayerLite|
                t.distance <= units(300) && is_ahead_of(ctx, t.position, ctx.player.position)
                    && t.position.distance_to(ctx.goal()) < current_distance * milli(700)
                    && !self.is_teammate_heavily_marked(ctx, t) && t.clear_pass,
        )
    }

    /// A free teammate further up and closer to the goal.
    #[verifier::when_used_as_spec(spec_has_forward_pass_to_better_teammate)]
    pub fn has_forward_pass_to_better_teammate(
        &self,
        ctx: &StateProcessingContext,
        current_distance: Scalar,
    ) -> (r: bool)
        ensures
            r == self.spec_has_forward_pass_to_better_teammate(ctx, current_distance),
    {
        scan::any_of(
            &ctx.teammates,
            |t: MatchPlayerLite| -> (b: bool)
                ensures b == (
                    t.distance <= units(300) && is_ahead_of(ctx, t.position, ctx.player.position)
                        && t.position.distance_to(ctx.goal()) < current_distance * milli(700)
                        && !self.is_teammate_heavily_marked(ctx, t) && t.clear_pass
                )
            {
                t.distance <= units(300) && is_ahead_of(ctx, t.position, ctx.player.position)
                    && t.position.distance_to(ctx.goal()) < current_distance * milli(700)
                    && !self.is_teammate_heavily_marked(ctx, t) && t.clear_pass
            },
            Ghost(
                |t: MatchPlayerLite|
                    t.distance <= units(300) && is_ahead_of(ctx, t.position, ctx.player.position)
                        && t.position.distance_to(ctx.goal()) < current_distance * milli(700)
                        && !self.is_teammate_heavily_marked(ctx, t) && t.clear_pass,
            ),
        )
    }

    pub open spec fn spec_has_teammate_in_dangerous_position(
        &self,
        ctx: &StateProcessingContext,
        current_distance: Scalar,
    ) -> bool {
        scan::some_where(
            ctx.teammates@,
            |t: MatchPlayerLite|
                t.distance <= units(300) && t.clear_pass
                    && t.position.distance_to(ctx.goal()) < current_distance * milli(1100)
                    && (
                        ctx.opponents_around(t.position, units(12)) < 2 || self.makes_a_run(ctx, t)
                    ),
        )
    }

    /// A teammate in sight near the goal, free or on a run.
    #[verifier::when_used_as_spec(spec_has_teammate_in_dangerous_position)]
    pub fn has_teammate_in_dangerous_position(
        &self,
        ctx: &StateProcessingContext,
        current_distance: Scalar,
    ) -> (r: bool)
        ensures
            r == self.spec_has_teammate_in_dangerous_position(ctx, current_distance),
    {
        scan::any_of(
            &ctx.teammates,
            |t: MatchPlayerLite| -> (b: bool)
                ensures b == (
                    t.distance <= units(300) && t.clear_pass
                        && t.position.distance_to(ctx.goal()) < current_distance * milli(1100)
                        && (
                            ctx.opponents_around(t.position, units(12)) < 2
                                || self.makes_a_run(ctx, t)
                        )
                )
            {
                t.distance <= units(300) && t.clear_pass
                    && t.position.distance_to(ctx.goal()) < current_distance * milli(1100)
                    && (
                        ctx.opponents_around(t.position, units(12)) < 2 || self.makes_a_run(ctx, t)
                    )
            },
            Ghost(
                |t: MatchPlayerLite|
                    t.distance <= units(300) && t.clear_pass
                        && t.position.distance_to(ctx.goal()) < current_distance * milli(1100)
                        && (
                            ctx.opponents_around(t.position, units(12)) < 2
                                || self.makes_a_run(ctx, t)
                        ),
            ),
        )
    }

    pub open spec fn spec_makes_a_run(
        &self,
        ctx: &StateProcessingContext,
        t: MatchPlayerLite,
    ) -> bool {
        t.velocity.magnitude() > units(2)
        && aligned_above(t.velocity, ctx.goal() - t.position, milli(500))
    }

    /// The teammate runs towards the goal.
    #[verifier::when_used_as_spec(spec_makes_a_run)]
    pub fn makes_a_run(&self, ctx: &StateProcessingContext, t: MatchPlayerLite) -> (r: bool)
        ensures
            r == self.spec_makes_a_run(ctx, t),
    {
        t.velocity.magnitude() > units(2)
        && aligned_above(t.velocity, ctx.goal() - t.position, milli(500))
    }

    pub open spec fn spec_has_good_passing_option(&self, ctx: &StateProcessingContext) -> bool {
        scan::some_where(
            ctx.teammates@,
            |t: MatchPlayerLite|
                t.distance <= units(300) && t.clear_pass
                    && ctx.opponents_around(t.position, units(10)) < 2
                    && is_ahead_of(ctx, t.position, ctx.player.position),
        )
    }

    /// A free teammate in sight further up.
    #[verifier::when_used_as_spec(spec_has_good_passing_option)]
    pub fn has_good_passing_option(&self, ctx: &StateProcessingContext) -> (r: bool)
        ensures
            r == self.spec_has_good_passing_option(ctx),
    {
        scan::any_of(
            &ctx.teammates,
            |t: MatchPlayerLite| -> (b: bool)
                ensures b == (
                    t.distance <= units(300) && t.clear_pass
                        && ctx.opponents_around(t.position, units(10)) < 2
                        && is_ahead_of(ctx, t.position, ctx.player.position)
                )
            {
                t.distance <= units(300) && t.clear_pass
                    && ctx.opponents_around(t.position, units(10)) < 2
                    && is_ahead_of(ctx, t.position, ctx.player.position)
            },
            Ghost(
                |t: MatchPlayerLite|
                    t.distance <= units(300) && t.clear_pass
                        && ctx.opponents_around(t.position, units(10)) < 2
                        && is_ahead_of(ctx, t.position, ctx.player.position),
            ),
        )
    }

    pub open spec fn spec_is_teammate_heavily_marked(
        &self,
        ctx: &StateProcessingContext,
        _teammate: MatchPlayerLite,
    ) -> bool {
        ctx.opponents_nearby(units(8)) >= 2
        || (ctx.opponents_nearby(units(8)) >= 1 && ctx.opponents_nearby(units(3)) > 0)
    }

    /// Markers close to the ball carrier count, for whichever teammate: two, or one who is
    /// very close.
    #[verifier::when_used_as_spec(spec_is_teammate_heavily_marked)]
    pub fn is_teammate_heavily_marked(
        &self,
        ctx: &StateProcessingContext,
        _teammate: MatchPlayerLite,
    ) -> (r: bool)
        ensures
            r == self.spec_is_teammate_heavily_marked(ctx, _teammate),
    {
        ctx.opponents_nearby(units(8)) >= 2
        || (ctx.opponents_nearby(units(8)) >= 1 && ctx.opponents_nearby(units(3)) > 0)
    }

    pub open spec fn spec_should_cross(&self, ctx: &StateProcessingContext) -> bool {
        self.is_wide(ctx) && self.is_in_good_attacking_position(ctx)
        && ctx.teammates_around(ctx.goal(), units(120)) >= 1
        && share(ctx.player.skills.technical.crossing) > milli(400)
    }

    /// Wide up front with a teammate in the box and the skill to cross.
    #[verifier::when_used_as_spec(spec_should_cross)]
    pub fn should_cross(&self, ctx: &StateProcessingContext) -> (r: bool)
        ensures
            r == self.spec_should_cross(ctx),
    {
        self.is_wide(ctx) && self.is_in_good_attacking_position(ctx)
        && ctx.teammates_around(ctx.goal(), units(120)) >= 1
        && share(ctx.player.skills.technical.crossing) > milli(400)
    }

    pub open spec fn spec_blocking_opponents(&self, ctx: &StateProcessingContext) -> usize {
        scan::count_where(
            ctx.opponents@,
            |o: MatchPlayerLite|
                o.distance <= units(25)
                    && aligned_above(o.position - ctx.player.position, ctx.to_goal(), milli(500))
                    && (o.position - ctx.player.position).norm_squared() < units(400),
        )
    }

    /// How many opponents right ahead are to be beaten.
    #[verifier::when_used_as_spec(spec_blocking_opponents)]
    pub fn blocking_opponents(&self, ctx: &StateProcessingContext) -> (r: usize)
        ensures
            r == self.spec_blocking_opponents(ctx),
    {
        scan::count_if(
            &ctx.opponents,
            |o: MatchPlayerLite| -> (b: bool)
                ensures b == (
                    o.distance <= units(25)
                        && aligned_above(
                            o.position - ctx.player.position,
                            ctx.to_goal(),
                            milli(500),
                        )
                        && (o.position - ctx.player.position).norm_squared() < units(400)
                )
            {
                o.distance <= units(25)
                    && aligned_above(o.position - ctx.player.position, ctx.to_goal(), milli(500))
                    && (o.position - ctx.player.position).norm_squared() < units(400)
            },
            Ghost(
                |o: MatchPlayerLite|
                    o.distance <= units(25)
                        && aligned_above(
                            o.position - ctx.player.position,
                            ctx.to_goal(),
                            milli(500),
                        )
                        && (o.position - ctx.player.position).norm_squared() < units(400),
            ),
        )
    }

    pub open spec fn spec_should_dribble(&self, ctx: &StateProcessingContext) -> bool {
        let blocking: usize = self.blocking_opponents(ctx);
        if blocking == 0 {
            false
        } else if ctx.rolls.take_on < ctx.curves.dribbling_14 * ctx.curves.pace_12 {
            blocking <= 2
        } else if ctx.rolls.take_on < ctx.curves.dribbling_10 {
            blocking <= 1
        } else {
            false
        }
    }

    /// Whether to take on the opponents ahead: the best dare two, modest dribblers one.
    #[verifier::when_used_as_spec(spec_should_dribble)]
    pub fn should_dribble(&self, ctx: &StateProcessingContext) -> (r: bool)
        ensures
            r == self.spec_should_dribble(ctx),
    {
        let blocking: usize = self.blocking_opponents(ctx);
        if blocking == 0 {
            return false;
        }
        if ctx.rolls.take_on < ctx.curves.dribbling_14 * ctx.curves.pace_12 {
            blocking <= 2
        } else if ctx.rolls.take_on < ctx.curves.dribbling_10 {
            blocking <= 1
        } else {
            false
        }
    }

    pub open spec fn spec_is_in_good_attacking_position(
        &self,
        ctx: &StateProcessingContext,
    ) -> bool {
        match ctx.player.side {
            Some(PlayerSide::Left) => ctx.player.position.x > ctx.width() * milli(650),
            Some(PlayerSide::Right) => ctx.player.position.x < ctx.width() * milli(350),
            None => false,
        }
    }

    /// In the last third.
    #[verifier::when_used_as_spec(spec_is_in_good_attacking_position)]
    pub fn is_in_good_attacking_position(&self, ctx: &StateProcessingContext) -> (r: bool)
        ensures
            r == self.spec_is_in_good_attacking_position(ctx),
    {
        match ctx.player.side {
            Some(PlayerSide::Left) => ctx.player.position.x > ctx.width() * milli(650),
            Some(PlayerSide::Right) => ctx.player.position.x < ctx.width() * milli(350),
            None => false,
        }
    }

    pub open spec fn spec_calculate_tactical_run_position(
        &self,
        ctx: &StateProcessingContext,
    ) -> Option<Vec3> {
        match ctx.holder() {
            Some(holder) => {
                let lane = if ctx.player.position.y < ctx.height() / units(2) {
                    holder.position.y - units(40)
                } else {
                    holder.position.y + units(40)
                };
                let spot = match ctx.player.side {
                    Some(PlayerSide::Left) => flat(holder.position.x + units(80), lane),
                    Some(PlayerSide::Right) => flat(holder.position.x - units(80), lane),
                    None => flat(holder.position.x, holder.position.y + units(30)),
                };
                Some(inside(ctx, spot, 20, 20))
            },
            None => match ctx.to_goal().direction() {
                Some(way) => Some(ctx.player.position + way * units(50)),
                None => None,
            },
        }
    }

    /// A run beyond the teammate with the ball, inside the pitch; towards the goal where no
    /// teammate has it; none where that has no direction.
    #[verifier::when_used_as_spec(spec_calculate_tactical_run_position)]
    pub fn calculate_tactical_run_position(
        &self,
        ctx: &StateProcessingContext,
    ) -> (r: Option<Vec3>)
        requires
            ctx.holder().is_some() ==> ctx.field_size.width >= 40 && ctx.field_size.height >= 40,
        ensures
            r == self.spec_calculate_tactical_run_position(ctx),
    {
        match ctx.holder() {
            Some(holder) => {
                let lane = if ctx.player.position.y < ctx.height() / units(2) {
                    holder.position.y - units(40)
                } else {
                    holder.position.y + units(40)
                };
                let spot = match ctx.player.side {
                    Some(PlayerSide::Left) => flat(holder.position.x + units(80), lane),
                    Some(PlayerSide::Right) => flat(holder.position.x - units(80), lane),
                    None => flat(holder.position.x, holder.position.y + units(30)),
                };
                Some(inside(ctx, spot, 20, 20))
            },
            None => match ctx.to_goal().direction() {
                Some(way) => Some(ctx.player.position + way * units(50)),
                None => None,
            },
        }
    }

    pub open spec fn spec_calculate_defensive_position(
        &self,
        ctx: &StateProcessingContext,
    ) -> Vec3 {
        let line = match ctx.player.side {
            Some(PlayerSide::Left) => ctx.width() * milli(600),
            Some(PlayerSide::Right) => ctx.width() * milli(400),
            None => ctx.width() * milli(500),
        };
        flat(line, ctx.player.start_position.y)
    }

    /// High up the pitch in the forward's own lane.
    #[verifier::when_used_as_spec(spec_calculate_defensive_position)]
    pub fn calculate_defensive_position(&self, ctx: &StateProcessingContext) -> (r: Vec3)
        ensures
            r == self.spec_calculate_defensive_position(ctx),
    {
        let line = match ctx.player.side {
            Some(PlayerSide::Left) => ctx.width() * milli(600),
            Some(PlayerSide::Right) => ctx.width() * milli(400),
            None => ctx.width() * milli(500),
        };
        flat(line, ctx.player.start_position.y)
    }

    pub open spec fn spec_find_one_two_return(
        &self,
        ctx: &StateProcessingContext,
    ) -> Option<MatchPlayerLite> {
        match ctx.ball.last_passer {
            Some(passer_id) => match scan::first_where(
                ctx.teammates@,
                |t: MatchPlayerLite| t.id == passer_id,
            ) {
                Some(passer) => if self.is_own_player(ctx, passer_id)
                    && self.ran_on_into_space(ctx, passer) {
                    Some(passer)
                } else {
                    None
                },
                None => None,
            },
            None => None,
        }
    }

    /// The teammate who just passed, ran on into the open and can be found again.
    #[verifier::when_used_as_spec(spec_find_one_two_return)]
    pub fn find_one_two_return(
        &self,
        ctx: &StateProcessingContext,
    ) -> (r: Option<MatchPlayerLite>)
        ensures
            r == self.spec_find_one_two_return(ctx),
    {
        match ctx.ball.last_passer {
            Some(passer_id) => match scan::first_of(
                &ctx.teammates,
                |t: MatchPlayerLite| -> (b: bool)
                    ensures b == (t.id == passer_id)
                {
                    t.id == passer_id
                },
                Ghost(|t: MatchPlayerLite| t.id == passer_id),
            ) {
                Some(passer) => if self.is_own_player(ctx, passer_id)
                    && self.ran_on_into_space(ctx, passer) {
                    Some(passer)
                } else {
                    None
                },
                None => None,
            },
            None => None,
        }
    }

    pub open spec fn spec_is_own_player(&self, ctx: &StateProcessingContext, id: u32) -> bool {
        match ctx.by_id(id) {
            Some(p) => p.team_id == ctx.player.team_id,
            None => false,
        }
    }

    #[verifier::when_used_as_spec(spec_is_own_player)]
    pub fn is_own_player(&self, ctx: &StateProcessingContext, id: u32) -> (r: bool)
        ensures
            r == self.spec_is_own_player(ctx, id),
    {
        match ctx.by_id(id) {
            Some(p) => p.team_id == ctx.player.team_id,
            None => false,
        }
    }

    pub open spec fn spec_ran_on_into_space(
        &self,
        ctx: &StateProcessingContext,
        passer: MatchPlayerLite,
    ) -> bool {
        let away = (passer.position - ctx.player.position).magnitude();
        (ctx.goal() - passer.position).magnitude() < ctx.to_goal().magnitude() * milli(850)
        && ctx.opponents_around(passer.position, units(50)) < 1
        && passer.clear_pass && away <= units(180) && away >= units(25)
    }

    /// Clearly closer to the goal, with nobody around, in sight and at a fair distance.
    #[verifier::when_used_as_spec(spec_ran_on_into_space)]
    pub fn ran_on_into_space(
        &self,
        ctx: &StateProcessingContext,
        passer: MatchPlayerLite,
    ) -> (r: bool)
        ensures
            r == self.spec_ran_on_into_space(ctx, passer),
    {
        let away = (passer.position - ctx.player.position).magnitude();
        (ctx.goal() - passer.position).magnitude() < ctx.to_goal().magnitude() * milli(850)
        && ctx.opponents_around(passer.position, units(50)) < 1
        && passer.clear_pass && away <= units(180) && away >= units(25)
    }

    pub open spec fn spec_find_hold_up_layoff(
        &self,
        ctx: &StateProcessingContext,
    ) -> Option<MatchPlayerLite> {
        if opponents_in_the_way(ctx, units(25), milli(300)) < 1 {
            None
        } else {
            scan::greatest_where(
                ctx.teammates@,
                |t: MatchPlayerLite| t.distance <= units(150) && self.is_layoff_target(ctx, t),
                |t: MatchPlayerLite| (t.position - ctx.player.position).magnitude(),
            )
        }
    }

    /// With an opponent in the way: the furthest free midfielder or forward behind.
    #[verifier::when_used_as_spec(spec_find_hold_up_layoff)]
    pub fn find_hold_up_layoff(
        &self,
        ctx: &StateProcessingContext,
    ) -> (r: Option<MatchPlayerLite>)
        ensures
            r == self.spec_find_hold_up_layoff(ctx),
    {
        if opponents_in_the_way(ctx, units(25), milli(300)) < 1 {
            return None;
        }
        scan::greatest_of(
            &ctx.teammates,
            |t: MatchPlayerLite| -> (b: bool)
                ensures b == (t.distance <= units(150) && self.is_layoff_target(ctx, t))
            {
                t.distance <= units(150) && self.is_layoff_target(ctx, t)
            },
            |t: MatchPlayerLite| -> (b: Scalar)
                ensures b == ((t.position - ctx.player.position).magnitude())
            {
                (t.position - ctx.player.position).magnitude()
            },
            Ghost(|t: MatchPlayerLite| t.distance <= units(150) && self.is_layoff_target(ctx, t)),
            Ghost(|t: MatchPlayerLite| (t.position - ctx.player.position).magnitude()),
        )
    }

    pub open spec fn spec_is_layoff_target(
        &self,
        ctx: &StateProcessingContext,
        t: MatchPlayerLite,
    ) -> bool {
        (t.position - ctx.player.position).magnitude() >= units(30)
        && (ctx.goal() - t.position).magnitude() > ctx.to_goal().magnitude() * milli(1100)
        && ctx.opponents_around(t.position, units(10)) < 2
        && (t.tactical_positions.is_midfielder() || t.tactical_positions.is_forward())
        && t.clear_pass && t.recency_penalty > milli(300)
    }

    #[verifier::when_used_as_spec(spec_is_layoff_target)]
    pub fn is_layoff_target(&self, ctx: &StateProcessingContext, t: MatchPlayerLite) -> (r: bool)
        ensures
            r == self.spec_is_layoff_target(ctx, t),
    {
        (t.position - ctx.player.position).magnitude() >= units(30)
        && (ctx.goal() - t.position).magnitude() > ctx.to_goal().magnitude() * milli(1100)
        && ctx.opponents_around(t.position, units(10)) < 2
        && (t.tactical_positions.is_midfielder() || t.tactical_positions.is_forward())
        && t.clear_pass && t.recency_penalty > milli(300)
    }

    pub open spec fn spec_is_closing_in(
        &self,
        ctx: &StateProcessingContext,
        o: MatchPlayerLite,
    ) -> bool {
        let away = (o.position - ctx.player.position).magnitude();
        away >= units(15) && away <= units(35) && o.velocity.magnitude() >= units(1)
        && aligned_above(o.velocity, ctx.player.position - o.position, milli(600))
    }

    /// An opponent closes in on the forward.
    #[verifier::when_used_as_spec(spec_is_closing_in)]
    pub fn is_closing_in(&self, ctx: &StateProcessingContext, o: MatchPlayerLite) -> (r: bool)
        ensures
            r == self.spec_is_closing_in(ctx, o),
    {
        let away = (o.position - ctx.player.position).magnitude();
        away >= units(15) && away <= units(35) && o.velocity.magnitude() >= units(1)
        && aligned_above(o.velocity, ctx.player.position - o.position, milli(600))
    }

    pub open spec fn spec_find_draw_and_release_pass(
        &self,
        ctx: &StateProcessingContext,
    ) -> Option<MatchPlayerLite> {
        match scan::least_where(
            ctx.opponents@,
            |o: MatchPlayerLite| o.distance <= units(35) && self.is_closing_in(ctx, o),
            |o: MatchPlayerLite| (o.position - ctx.player.position).magnitude(),
        ) {
            Some(tackler) => match tackler.velocity.direction() {
                Some(way) => {
                    let vacated = tackler.position - way * units(30);
                    scan::least_where(
                        ctx.teammates@,
                        |t: MatchPlayerLite|
                            t.distance <= units(200) && self.is_release_target(ctx, t, vacated),
                        |t: MatchPlayerLite| (t.position - vacated).magnitude(),
                    )
                },
                None => None,
            },
            None => None,
        }
    }

    /// The teammate nearest to the space that the nearest tackler leaves.
    #[verifier::when_used_as_spec(spec_find_draw_and_release_pass)]
    pub fn find_draw_and_release_pass(
        &self,
        ctx: &StateProcessingContext,
    ) -> (r: Option<MatchPlayerLite>)
        ensures
            r == self.spec_find_draw_and_release_pass(ctx),
    {
        match scan::least_of(
            &ctx.opponents,
            |o: MatchPlayerLite| -> (b: bool)
                ensures b == (o.distance <= units(35) && self.is_closing_in(ctx, o))
            {
                o.distance <= units(35) && self.is_closing_in(ctx, o)
            },
            |o: MatchPlayerLite| -> (b: Scalar)
                ensures b == ((o.position - ctx.player.position).magnitude())
            {
                (o.position - ctx.player.position).magnitude()
            },
            Ghost(|o: MatchPlayerLite| o.distance <= units(35) && self.is_closing_in(ctx, o)),
            Ghost(|o: MatchPlayerLite| (o.position - ctx.player.position).magnitude()),
        ) {
            Some(tackler) => match tackler.velocity.direction() {
                Some(way) => {
                    let vacated = tackler.position - way * units(30);
                    scan::least_of(
                        &ctx.teammates,
                        |t: MatchPlayerLite| -> (b: bool)
                            ensures b == (
                                t.distance <= units(200) && self.is_release_target(ctx, t, vacated)
                            )
                        {
                            t.distance <= units(200) && self.is_release_target(ctx, t, vacated)
                        },
                        |t: MatchPlayerLite| -> (b: Scalar)
                            ensures b == ((t.position - vacated).magnitude())
                        {
                            (t.position - vacated).magnitude()
                        },
                        Ghost(
                            |t: MatchPlayerLite|
                                t.distance <= units(200)
                                    && self.is_release_target(ctx, t, vacated),
                        ),
                        Ghost(|t: MatchPlayerLite| (t.position - vacated).magnitude()),
                    )
                },
                None => None,
            },
            None => None,
        }
    }

    pub open spec fn spec_is_release_target(
        &self,
        ctx: &StateProcessingContext,
        t: MatchPlayerLite,
        vacated: Vec3,
    ) -> bool {
        (t.position - ctx.player.position).magnitude() > units(25)
        && (t.position - vacated).magnitude() < units(60)
        && t.clear_pass && t.recency_penalty > milli(300)
        && ctx.opponents_around(t.position, units(10)) < 2
    }

    #[verifier::when_used_as_spec(spec_is_release_target)]
    pub fn is_release_target(
        &self,
        ctx: &StateProcessingContext,
        t: MatchPlayerLite,
        vacated: Vec3,
    ) -> (r: bool)
        ensures
            r == self.spec_is_release_target(ctx, t, vacated),
    {
        (t.position - ctx.player.position).magnitude() > units(25)
        && (t.position - vacated).magnitude() < units(60)
        && t.clear_pass && t.recency_penalty > milli(300)
        && ctx.opponents_around(t.position, units(10)) < 2
    }

    pub open spec fn spec_is_congested_near_boundary(&self, ctx: &StateProcessingContext) -> bool {
        let p = ctx.player.position;
        let near_boundary = p.x < units(20) || p.x > ctx.width() - units(20) || p.y < units(20)
        || p.y > ctx.height() - units(20);
        let teammates: usize = scan::count_where(
            ctx.teammates@,
            |t: MatchPlayerLite| t.distance <= units(15),
        );
        let opponents: usize = ctx.opponents_nearby(units(15));
        near_boundary && (teammates >= 3 || opponents >= 3 || teammates + opponents >= 3)
    }

    /// Near an edge of the pitch with three or more players around.
    #[verifier::when_used_as_spec(spec_is_congested_near_boundary)]
    pub fn is_congested_near_boundary(&self, ctx: &StateProcessingContext) -> (r: bool)
        ensures
            r == self.spec_is_congested_near_boundary(ctx),
    {
        let p = ctx.player.position;
        let near_boundary = p.x < units(20) || p.x > ctx.width() - units(20) || p.y < units(20)
        || p.y > ctx.height() - units(20);
        let teammates: usize = scan::count_if(
            &ctx.teammates,
            |t: MatchPlayerLite| -> (b: bool)
                ensures b == (t.distance <= units(15))
            {
                t.distance <= units(15)
            },
            Ghost(|t: MatchPlayerLite| t.distance <= units(15)),
        );
        let opponents: usize = ctx.opponents_nearby(units(15));
        near_boundary && (teammates >= 3 || opponents >= 3 || teammates + opponents >= 3)
    }
}

/// Without the ball, a forward goes back at an opponent's restart and from an offside position,
/// whatever else is on.
pub proof fn retreat_comes_first(state: ForwardRunningState, ctx: &StateProcessingContext)
    requires
        !ctx.player.has_ball,
        ctx.ball.opponent_restart || ctx.player.stranded_offside,
    ensures
        state.process(ctx) == Some(with_forward_state(ForwardState::Returning)),
{
}

/// A running forward only shoots with the ball and with permission, and then either at once
/// under a tackle or because the central rule on shots says so.
pub proof fn shots_need_permission(state: ForwardRunningState, ctx: &StateProcessingContext)
    ensures
        (
            state.process(ctx) matches Some(r)
                && r.state == PlayerState::Forward(ForwardState::Shooting)
        )
            ==> {
            &&& ctx.player.has_ball
            &&& state.may_shoot(ctx)
            &&& state.snapshot(ctx) || exists|o: ShotOccasion|
                (#[trigger] ctx.evaluate_forward_shot_decision(o) matches ShotDecision::Shoot {
                    reason,
                } && state.process(ctx)->0.shot_reason == Some(reason))
        },
{
    let a = ctx.evaluate_forward_shot_decision(ShotOccasion::RunPointBlank);
    let b = ctx.evaluate_forward_shot_decision(ShotOccasion::RunClear);
    let c = ctx.evaluate_forward_shot_decision(ShotOccasion::RunBox);
    let d = ctx.evaluate_forward_shot_decision(ShotOccasion::RunAntiOscillation);
}

/// Whom a running forward finds for a pass is a teammate.
proof fn receivers_are_teammates(state: ForwardRunningState, ctx: &StateProcessingContext)
    ensures
        ctx.is_teammate_if_any(state.safe_outlet(ctx)),
        ctx.is_teammate_if_any(state.find_one_two_return(ctx)),
        ctx.is_teammate_if_any(state.find_hold_up_layoff(ctx)),
        ctx.is_teammate_if_any(state.find_draw_and_release_pass(ctx)),
{
    scan::greatest_is_greatest(
        ctx.teammates@,
        |t: MatchPlayerLite| t.distance <= units(180) && state.is_safe_outlet(ctx, t),
        |t: MatchPlayerLite|
            if t.tactical_positions.is_midfielder() {
                units(10)
            } else {
                units(0)
            },
    );
    if let Some(passer_id) = ctx.ball.last_passer {
        scan::first_is_one_of_them(ctx.teammates@, |t: MatchPlayerLite| t.id == passer_id);
    }
    scan::greatest_is_greatest(
        ctx.teammates@,
        |t: MatchPlayerLite| t.distance <= units(150) && state.is_layoff_target(ctx, t),
        |t: MatchPlayerLite| (t.position - ctx.player.position).magnitude(),
    );
    if let Some(tackler) = scan::least_where(
        ctx.opponents@,
        |o: MatchPlayerLite| o.distance <= units(35) && state.is_closing_in(ctx, o),
        |o: MatchPlayerLite| (o.position - ctx.player.position).magnitude(),
    ) {
        let vacated = tackler.position - tackler.velocity.direction()->0 * units(30);
        scan::least_is_least(
            ctx.teammates@,
            |t: MatchPlayerLite|
                t.distance <= units(200) && state.is_release_target(ctx, t, vacated),
            |t: MatchPlayerLite| (t.position - vacated).magnitude(),
        );
    }
}

/// Every pass of a running forward is made with the ball, by the forward, who runs on. It goes
/// to a teammate, or to the runner who arrives in the box; where what is seen agrees, to a
/// teammate who is not the forward.
pub proof fn passes_need_the_ball(state: ForwardRunningState, ctx: &StateProcessingContext)
    ensures
        state.process(ctx) matches Some(r) ==> (r.event matches Some(
            PlayerEvent::PassTo { from, to, .. },
        ) ==> {
            &&& ctx.player.has_ball
            &&& from == ctx.player.id
            &&& r.state == PlayerState::Forward(ForwardState::Running)
            &&& ctx.is_teammate(to) || ctx.cutback_runner == Some(to)
            &&& ctx.well_formed() ==> ctx.is_teammate(to) && to != ctx.player.id
        }),
{
    receivers_are_teammates(state, ctx);
}

/// A counter-attack is never held up for the sake of possession.
pub proof fn counter_attack_goes_on(state: ForwardRunningState, ctx: &StateProcessingContext)
    requires
        ctx.team.counter_window,
    ensures
        !state.holds_the_ball(ctx),
{
}

/// The forward has the ball away from a corner and from the byline, nobody is tight, and no order
/// keeps the ball.
pub open spec fn is_free_to_play(ctx: &StateProcessingContext) -> bool {
    &&& ctx.player.has_ball
    &&& !ctx.ball.team_attacking_corner
    &&& ctx.in_state_time < 5 || ctx.player.position.y.is_between(
        ctx.height() * milli(200),
        ctx.height() - ctx.height() * milli(200),
    )
    &&& ctx.in_state_time >= 8 || forall|o: MatchPlayerLite| #[trigger]
        ctx.opponents@.contains(o) ==> o.distance > units(10)
    &&& ctx.team.counter_window || (!ctx.team.coach_prefers_possession
        && ctx.team.game_management_intensity <= milli(550))
}

/// A teammate in reach of a pass is hardly more than half as far from the goal as the ball, free,
/// and the forward has the eye for it.
pub open spec fn has_much_better_teammate(ctx: &StateProcessingContext) -> bool {
    &&& ctx.ball.distance_to_opponent_goal >= units(36)
    &&& ctx.player.skills.mental.vision >= units(8)
        || ctx.player.skills.mental.teamwork >= units(8)
    &&& exists|t: MatchPlayerLite| #[trigger]
        ctx.teammates@.contains(t) && t.distance <= units(200) && t.clear_pass
            && t.position.distance_to(ctx.player.opponent_goal_position)
            <= ctx.ball.distance_to_opponent_goal * milli(550) && ctx.opponents_around(
            t.position,
            units(8),
        ) < 2
}

/// The forward defers to a teammate exactly where one is much better placed.
pub proof fn defers_to_the_better_placed(state: ForwardRunningState, ctx: &StateProcessingContext)
    ensures
        state.has_teammate_with_much_better_shot(ctx, ctx.ball.distance_to_opponent_goal)
            <==> has_much_better_teammate(ctx),
{
    let own = ctx.ball.distance_to_opponent_goal;
    scan::some_is_one_of_them(
        ctx.teammates@,
        |t: MatchPlayerLite|
            t.distance <= units(200) && t.position.distance_to(ctx.goal()) <= own * milli(550)
                && t.clear_pass && ctx.opponents_around(t.position, units(8)) < 2,
    );
    assert(forall|s: Scalar| #![trigger share(s)] share(s) >= milli(400) <==> s >= units(8));
}

/// A forward with nobody tight does not shoot at once, and one who is free to play is not held
/// back before the chance of a shot is weighed.
proof fn nothing_comes_before(state: ForwardRunningState, ctx: &StateProcessingContext)
    requires
        is_free_to_play(ctx),
    ensures
        state.opening(ctx) is None,
        !state.should_cross_from_byline(ctx),
        !state.snapshot(ctx),
        !state.holds_the_ball(ctx),
{
    scan::least_is_least(
        ctx.opponents@,
        |o: MatchPlayerLite| o.distance <= units(10),
        |o: MatchPlayerLite| o.distance,
    );
}

/// In the box a forward who may shoot and has a clear lane, before being settled on the ball,
/// strikes exactly where the central rule on shots says so, for the reason that it gives, and
/// passes otherwise.
pub proof fn box_shots_follow_the_rule(state: ForwardRunningState, ctx: &StateProcessingContext)
    requires
        is_free_to_play(ctx),
        ctx.team.can_shoot,
        ctx.player.can_shoot,
        ctx.player.clear_shot,
        units(36) < ctx.ball.distance_to_opponent_goal,
        ctx.ball.distance_to_opponent_goal < units(45),
        ctx.ball.ownership_duration < 30,
        !has_much_better_teammate(ctx),
    ensures
        state.process(ctx) matches Some(r) && r.event is None && match ctx.shots.run_box {
            ShotDecision::Shoot { reason } => r.state
                == PlayerState::Forward(ForwardState::Shooting)
                && r.shot_reason == Some(reason),
            _ => r.state == PlayerState::Forward(ForwardState::Passing) && r.shot_reason is None,
        },
{
    nothing_comes_before(state, ctx);
    defers_to_the_better_placed(state, ctx);
}

/// Right in front of the goal a forward who may shoot does as the central rule on shots says:
/// shoots for its reason, passes, or holds the ball.
pub proof fn point_blank_follows_the_rule(state: ForwardRunningState, ctx: &StateProcessingContext)
    requires
        is_free_to_play(ctx),
        ctx.team.can_shoot,
        ctx.player.can_shoot,
        ctx.ball.distance_to_opponent_goal <= units(36),
    ensures
        match ctx.shots.run_point_blank {
            ShotDecision::Shoot { reason } => state.process(ctx) matches Some(r) && r.state
                == PlayerState::Forward(ForwardState::Shooting) && r.shot_reason == Some(reason)
                && r.event is None,
            ShotDecision::Pass => state.process(ctx) == Some(
                with_forward_state(ForwardState::Passing),
            ),
            ShotDecision::Hold => state.process(ctx) is None,
        },
{
    nothing_comes_before(state, ctx);
}

/// A forward who may not shoot passes, unless boxed in with a free teammate to the side or
/// behind, who then gets the ball.
pub proof fn no_permission_means_a_pass(state: ForwardRunningState, ctx: &StateProcessingContext)
    requires
        is_free_to_play(ctx),
        !ctx.team.can_shoot || !ctx.player.can_shoot,
    ensures
        state.process(ctx) matches Some(r) && r.shot_reason is None && (r.state
            == PlayerState::Forward(ForwardState::Passing) || r.event matches Some(
            PlayerEvent::PassTo { .. },
        )),
        (ctx.player.under_immediate_pressure || !ctx.team.should_play_possession
            || ctx.ball.ownership_duration <= 10 || ctx.ball.distance_to_opponent_goal <= units(50))
            ==> state.process(ctx) == Some(with_forward_state(ForwardState::Passing)),
{
    nothing_comes_before(state, ctx);
}

/// Settled on the ball in range with a clear lane and nobody better placed, the forward does as
/// the central rule on shots says where the result need not be managed, and where it is, still
/// shoots by the rule on a low draw; the rule's pass is a pass, and its hold under pressure too.
pub proof fn settled_shots_follow_the_rule(
    state: ForwardRunningState,
    ctx: &StateProcessingContext,
)
    requires
        is_free_to_play(ctx),
        ctx.team.can_shoot,
        ctx.player.can_shoot,
        ctx.player.clear_shot,
        units(36) < ctx.ball.distance_to_opponent_goal,
        ctx.ball.distance_to_opponent_goal <= units(220),
        ctx.ball.ownership_duration >= 30,
        ctx.player.under_immediate_pressure || !ctx.team.should_play_possession,
        !has_much_better_teammate(ctx),
    ensures
        match ctx.shots.run_clear {
            ShotDecision::Shoot { reason } => {
                &&& (ctx.team.game_management_intensity <= milli(400) || ctx.rolls.shot_suppression
                    < milli(300)) ==> (state.process(ctx) matches Some(r) && r.state
                    == PlayerState::Forward(ForwardState::Shooting)
                        && r.shot_reason == Some(reason)
                    && r.event is None)
                &&& (ctx.team.game_management_intensity >= units(1) && ctx.rolls.shot_suppression
                    >= milli(300)) ==> (if ctx.player.under_immediate_pressure {
                    state.process(ctx) == Some(with_forward_state(ForwardState::Passing))
                } else {
                    state.process(ctx) is None
                })
            },
            ShotDecision::Pass => state.process(ctx) == Some(
                with_forward_state(ForwardState::Passing),
            ),
            ShotDecision::Hold => ctx.player.under_immediate_pressure ==> state.process(ctx)
                == Some(
                with_forward_state(ForwardState::Passing),
            ),
        },
{
    nothing_comes_before(state, ctx);
    defers_to_the_better_placed(state, ctx);
    suppression_falls(state, ctx, ctx);
    let i = ctx.team.game_management_intensity;
    if i >= units(1) {
        crate::scalar::quotient_keeps_order(units(1) - milli(400), i - milli(400), milli(600));
        crate::scalar::scaling_keeps_order(
            (units(1) - milli(400)) / milli(600),
            (i - milli(400)) / milli(600),
            milli(700),
        );
    }
}

/// The more a team manages the result, the fewer shots it takes: all of them up to a point, and
/// never fewer than three in ten.
pub proof fn suppression_falls(
    state: ForwardRunningState,
    ctx: &StateProcessingContext,
    other: &StateProcessingContext,
)
    requires
        ctx.team.game_management_intensity <= other.team.game_management_intensity,
    ensures
        state.shot_suppression(other) <= state.shot_suppression(ctx),
        milli(300) <= state.shot_suppression(ctx),
        state.shot_suppression(ctx) <= units(1),
        ctx.team.game_management_intensity <= milli(400) ==> state.shot_suppression(ctx)
            == units(1),
{
    let a = ctx.team.game_management_intensity;
    let b = other.team.game_management_intensity;
    if a > milli(400) {
        crate::scalar::quotient_keeps_order(a - milli(400), b - milli(400), milli(600));
        crate::scalar::scaling_keeps_order(
            (a - milli(400)) / milli(600),
            (b - milli(400)) / milli(600),
            milli(700),
        );
    } else if b > milli(400) {
        crate::scalar::quotient_keeps_order(units(0), b - milli(400), milli(600));
        crate::scalar::scaling_keeps_order(units(0), (b - milli(400)) / milli(600), milli(700));
    }
}

/// Settled on the ball with a teammate much better placed, the forward gives it up: to the runner
/// who arrives in the box, or in a pass.
pub proof fn better_placed_gets_the_ball(state: ForwardRunningState, ctx: &StateProcessingContext)
    requires
        is_free_to_play(ctx),
        ctx.team.can_shoot,
        ctx.player.can_shoot,
        units(36) < ctx.ball.distance_to_opponent_goal,
        ctx.ball.ownership_duration >= 30,
        ctx.player.under_immediate_pressure || !ctx.team.should_play_possession,
        has_much_better_teammate(ctx),
    ensures
        state.process(ctx) matches Some(r) && r.shot_reason is None && (r == with_forward_state(
            ForwardState::Passing,
        ) || (r.event matches Some(PlayerEvent::PassTo { from, to, .. }) && from == ctx.player.id
            && ctx.cutback_runner == Some(to) && ctx.ball.distance_to_opponent_goal < units(130))),
        ctx.cutback_runner is None ==> state.process(ctx) == Some(
            with_forward_state(ForwardState::Passing),
        ),
        (ctx.cutback_runner is Some && ctx.ball.distance_to_opponent_goal < units(130)
            && ctx.player.under_immediate_pressure) ==> (state.process(ctx) matches Some(r)
            && r.event matches Some(PlayerEvent::PassTo { to, .. }) && Some(to) == ctx.cutback_runner),
{
    nothing_comes_before(state, ctx);
    defers_to_the_better_placed(state, ctx);
}

/// A corner of the own team and a place by the byline are for a cross; right on the ball near the
/// goal, with only better tacklers tight, the forward shoots at once; for the sake of possession
/// the ball is kept at first.
pub proof fn first_things_first(state: ForwardRunningState, ctx: &StateProcessingContext)
    requires
        ctx.player.has_ball,
    ensures
        ctx.ball.team_attacking_corner ==> state.process(ctx) == Some(
            with_forward_state(ForwardState::Crossing),
        ),
        (ctx.in_state_time >= 5 && ctx.ball.distance_to_opponent_goal.is_between(units(15), units(130))
            && (ctx.player.position.y < ctx.height() * milli(200) || ctx.player.position.y
            > ctx.height() - ctx.height() * milli(200))) ==> state.process(ctx) == Some(
            with_forward_state(ForwardState::Crossing),
        ),
        ({
            &&& !ctx.ball.team_attacking_corner
            &&& ctx.in_state_time < 5
            &&& ctx.team.can_shoot && ctx.player.can_shoot
            &&& ctx.ball.distance_to_opponent_goal < units(60)
            &&& exists|o: MatchPlayerLite| #[trigger]
                ctx.opponents@.contains(o) && o.distance <= units(10)
            &&& forall|o: MatchPlayerLite| #[trigger]
                ctx.opponents@.contains(o) && o.distance <= units(10)
                    ==> ctx.player.skills.technical.first_touch < o.skills.technical.tackling
                        - milli(500)
        }) ==> (state.process(ctx) matches Some(r) && r.state == PlayerState::Forward(
            ForwardState::Shooting,
        ) && r.shot_reason == Some("FWD_SNAPSHOT_PRESSED")),
        ({
            &&& !ctx.ball.team_attacking_corner
            &&& ctx.in_state_time >= 8
            &&& ctx.player.position.y.is_between(
                ctx.height() * milli(200),
                ctx.height() - ctx.height() * milli(200),
            )
            &&& ctx.team.coach_prefers_possession && !ctx.team.counter_window
            &&& ctx.ball.distance_to_opponent_goal > units(36)
            &&& ctx.ball.ownership_duration < ctx.team.coach_min_possession_ticks
        }) ==> state.process(ctx) is None,
{
    scan::least_is_least(
        ctx.opponents@,
        |o: MatchPlayerLite| o.distance <= units(10),
        |o: MatchPlayerLite| o.distance,
    );
}

/// The forward has no ball, is onside, no restart is on, and the phase of the team asks for
/// nothing.
pub open spec fn is_left_to_choose(ctx: &StateProcessingContext) -> bool {
    &&& !ctx.player.has_ball
    &&& !ctx.ball.opponent_restart
    &&& !ctx.player.stranded_offside
    &&& ctx.team.phase != GamePhase::AttackingTransition
    &&& ctx.team.phase != GamePhase::DefensiveTransition
    &&& ctx.team.phase != GamePhase::HighPress
    &&& !ctx.ball.team_attacking_corner
}

/// What the phase of the team asks for is done: a run in behind once the ball is won away from the
/// goal, a press by the best placed once it is lost nearby or under a high press.
pub proof fn phases_are_obeyed(state: ForwardRunningState, ctx: &StateProcessingContext)
    requires
        !ctx.player.has_ball,
        !ctx.ball.opponent_restart,
        !ctx.player.stranded_offside,
    ensures
        ctx.team.phase == GamePhase::AttackingTransition
            && ctx.ball.distance_to_opponent_goal > units(30)
            ==> state.process(ctx) == Some(with_forward_state(ForwardState::RunningInBehind)),
        ctx.team.phase == GamePhase::DefensiveTransition && ctx.ball.distance < units(35)
            && ctx.team.best_player_to_chase_ball ==> state.process(ctx) == Some(
            with_forward_state(ForwardState::Pressing),
        ),
        ctx.team.phase == GamePhase::HighPress && ctx.ball.distance < units(80)
            && ctx.team.best_player_to_chase_ball ==> state.process(ctx) == Some(
            with_forward_state(ForwardState::Pressing),
        ),
{
}

/// A ball that is there to be taken is taken by the best placed, else a corner of the own team is
/// attacked in the forward's zone; a high ball that comes close near the goal is headed, and a
/// cross on its way is received.
pub proof fn balls_in_the_air_are_met(state: ForwardRunningState, ctx: &StateProcessingContext)
    requires
        is_left_to_choose(ctx) || (ctx.ball.team_attacking_corner && ctx.team.phase == GamePhase::Attack
            && !ctx.player.has_ball && !ctx.ball.opponent_restart && !ctx.player.stranded_offside),
    ensures
        ctx.ball.should_take_immediately
            && ctx.team.best_player_to_chase_ball ==> state.process(ctx)
            == Some(with_forward_state(ForwardState::TakeBall)),
        !(ctx.ball.should_take_immediately && ctx.team.best_player_to_chase_ball) ==> {
            &&& ctx.ball.team_attacking_corner
                && ctx.player.corner_zone is Some ==> state.process(ctx)
                == Some(with_forward_state(ForwardState::CornerRun))
            &&& (!ctx.ball.team_attacking_corner && ctx.ball.position.z >= milli(1500)
                && ctx.ball.heading >= milli(500) && ctx.ball.distance < units(40)
                && ctx.ball.distance_to_opponent_goal < units(200)) ==> state.process(ctx) == Some(
                with_forward_state(ForwardState::Heading),
            )
            &&& (!ctx.ball.team_attacking_corner && ctx.ball.position.z >= units(1)
                && ctx.ball.heading >= milli(600) && ctx.ball.distance >= units(40)
                && ctx.ball.distance < units(100)
                && ctx.ball.distance_to_opponent_goal < units(150)
                && !ctx.ball.is_owned) ==> state.process(ctx) == Some(
                with_forward_state(ForwardState::CrossReceiving),
            )
        },
{
}

/// A slow loose ball close by is gone for where no teammate is clearly nearer to it; a ball of the
/// own team never is.
pub proof fn loose_balls_are_intercepted(state: ForwardRunningState, ctx: &StateProcessingContext)
    requires
        is_left_to_choose(ctx),
        !ctx.ball.should_take_immediately,
        ctx.ball.position.z < units(1),
    ensures
        (!ctx.ball.is_owned && ctx.ball.distance < units(30) && ctx.ball.speed < units(2) && (
        ctx.ball.distance <= units(5) || forall|t: MatchPlayerLite| #[trigger]
            ctx.teammates@.contains(t) ==> t.id == ctx.player.id || (t.position
                - ctx.ball.position).norm_squared() >= (ctx.ball.distance - units(5)) * (
            ctx.ball.distance - units(5)))) ==> state.process(ctx) == Some(
            with_forward_state(ForwardState::Intercepting),
        ),
        ctx.ball.is_owned && ctx.owner_in_team() is Some ==> (state.process(ctx) matches Some(r)
            ==> r.state != PlayerState::Forward(ForwardState::Intercepting)),
        ctx.ball.distance >= units(150) ==> (state.process(ctx) matches Some(r) ==> r.state
            != PlayerState::Forward(ForwardState::Intercepting)),
{
    let cutoff = ctx.ball.distance - units(5);
    scan::some_is_one_of_them(
        ctx.teammates@,
        |t: MatchPlayerLite|
            t.id != ctx.player.id
                && (t.position - ctx.ball.position).norm_squared() < cutoff * cutoff,
    );
}

/// A ball that comes straight at the forward is the easier to cut out the faster the forward and
/// the slower the ball, and never for one who cannot move.
pub proof fn faster_forwards_cut_out_more(
    state: ForwardRunningState,
    ctx: &StateProcessingContext,
    other: &StateProcessingContext,
)
    requires
        ctx.ball == other.ball,
        ctx.players == other.players,
        ctx.teammates == other.teammates,
        ctx.player.id == other.player.id,
        ctx.player.team_id == other.player.team_id,
        units(0) < ctx.player.skills.physical.pace,
        units(0) <= ctx.ball.speed,
        units(0) <= ctx.ball.distance,
        ctx.player.skills.physical.pace <= other.player.skills.physical.pace,
        state.can_intercept_ball(ctx),
    ensures
        state.can_intercept_ball(other),
{
    let a = share(ctx.player.skills.physical.pace) * units(10);
    let b = share(other.player.skills.physical.pace) * units(10);
    crate::scalar::quotient_keeps_order(
        ctx.player.skills.physical.pace,
        other.player.skills.physical.pace,
        units(20),
    );
    crate::scalar::quotient_keeps_order(units(0), ctx.player.skills.physical.pace, units(20));
    crate::scalar::scaling_keeps_order(
        share(ctx.player.skills.physical.pace),
        share(other.player.skills.physical.pace),
        units(10),
    );
    crate::scalar::scaling_keeps_order(
        units(0),
        share(ctx.player.skills.physical.pace),
        units(10),
    );
    if a != units(0) {
        crate::scalar::greater_divisor_gives_less(ctx.ball.distance, a, b);
        crate::scalar::product_keeps_order(
            ctx.ball.speed,
            ctx.ball.distance / b,
            ctx.ball.distance / a,
        );
    }
}

/// The forward presses further the fresher, the harder working and the more the team presses.
pub proof fn press_grows(
    state: ForwardRunningState,
    ctx: &StateProcessingContext,
    other: &StateProcessingContext,
)
    requires
        ctx.player.condition <= other.player.condition,
        ctx.player.skills.mental.work_rate <= other.player.skills.mental.work_rate,
        ctx.team.press_intensity <= other.team.press_intensity,
        units(0) <= ctx.player.skills.mental.work_rate,
        units(0) <= ctx.team.press_intensity,
    ensures
        state.press_distance(ctx) <= state.press_distance(other),
        units(0) <= state.press_distance(ctx),
{
    press_is_not_negative(state, ctx);
    let a = milli(500) + share(ctx.player.skills.mental.work_rate);
    let b = milli(500) + share(other.player.skills.mental.work_rate);
    let i = milli(500) + ctx.team.press_intensity * milli(500);
    let j = milli(500) + other.team.press_intensity * milli(500);
    crate::scalar::quotient_keeps_order(
        units(ctx.player.condition as i64),
        units(other.player.condition as i64),
        units(100),
    );
    crate::scalar::quotient_keeps_order(
        ctx.player.skills.mental.work_rate,
        other.player.skills.mental.work_rate,
        units(20),
    );
    crate::scalar::quotient_keeps_order(units(0), ctx.player.skills.mental.work_rate, units(20));
    crate::scalar::scaling_keeps_order(
        ctx.team.press_intensity,
        other.team.press_intensity,
        milli(500),
    );
    crate::scalar::scaling_keeps_order(units(0), ctx.team.press_intensity, milli(500));
    crate::scalar::product_keeps_order(units(60), ctx.stamina(), other.stamina());
    crate::scalar::product_keeps_order(units(60), units(0), ctx.stamina());
    crate::scalar::scaling_keeps_order(units(60) * ctx.stamina(), units(60) * other.stamina(), a);
    crate::scalar::product_keeps_order(units(60) * other.stamina(), a, b);
    crate::scalar::scaling_keeps_order(
        units(60) * ctx.stamina() * a,
        units(60) * other.stamina() * b,
        i,
    );
    crate::scalar::scaling_keeps_order(units(0), units(60) * ctx.stamina(), a);
    crate::scalar::product_keeps_order(units(60) * other.stamina() * b, i, j);
}

/// The reach of a press is not below zero.
proof fn press_is_not_negative(state: ForwardRunningState, ctx: &StateProcessingContext)
    requires
        units(0) <= ctx.player.skills.mental.work_rate,
        units(0) <= ctx.team.press_intensity,
    ensures
        units(0) <= state.press_distance(ctx),
{
    crate::scalar::quotient_keeps_order(units(0), ctx.player.skills.mental.work_rate, units(20));
    crate::scalar::quotient_keeps_order(units(0), units(ctx.player.condition as i64), units(100));
    let a = milli(500) + share(ctx.player.skills.mental.work_rate);
    let i = milli(500) + ctx.team.press_intensity * milli(500);
    crate::scalar::scaling_keeps_order(units(0), ctx.team.press_intensity, milli(500));
    crate::scalar::product_keeps_order(units(60), units(0), ctx.stamina());
    crate::scalar::product_keeps_sign(units(60) * ctx.stamina(), a);
    crate::scalar::product_keeps_sign(units(60) * ctx.stamina() * a, i);
}

/// A forward never presses the own team, and from further away only as the best placed; outside
/// the own third every ball in reach is pressed, and a carrier in half as much again as that who
/// is close to the touchline.
pub proof fn press_has_its_reach(state: ForwardRunningState, ctx: &StateProcessingContext)
    requires
        units(0) <= ctx.player.skills.mental.work_rate,
        units(0) <= ctx.team.press_intensity,
    ensures
        ctx.team.control_ball ==> !state.should_press(ctx),
        ctx.ball.distance > units(30)
            && !ctx.team.best_player_to_chase_ball ==> !state.should_press(ctx),
        (!ctx.team.control_ball && (ctx.ball.distance <= units(30) || ctx.team.best_player_to_chase_ball)
            && ctx.ball.distance < state.press_distance(ctx) && !ctx.ball.on_own_third)
            ==> state.should_press(ctx),
        ctx.ball.distance >= state.press_distance(ctx) * milli(1500) ==> !state.should_press(ctx),
        ({
            &&& !ctx.team.control_ball
            &&& ctx.ball.distance <= units(30) || ctx.team.best_player_to_chase_ball
            &&& ctx.ball.distance < state.press_distance(ctx) * milli(1500)
            &&& ctx.carrier_within(
                state.press_distance(ctx) * milli(1500),
            ) matches Some(carrier) && (
            carrier.position.y < ctx.height() * milli(100)
                || carrier.position.y > ctx.height() * milli(
                900,
            ))
        }) ==> state.should_press(ctx),
{
    press_is_not_negative(state, ctx);
    let reach = state.press_distance(ctx);
    crate::scalar::one_changes_nothing(reach);
    crate::scalar::product_keeps_order(reach, units(1), milli(1300));
    crate::scalar::product_keeps_order(reach, units(1), milli(1400));
    crate::scalar::product_keeps_order(reach, units(1), milli(1500));
    crate::scalar::product_keeps_order(reach, milli(1300), milli(1500));
    crate::scalar::product_keeps_order(reach, milli(1400), milli(1500));
}

/// With a teammate on the ball and nothing in the air, the forward makes space right before the
/// goal and wherever the ball is not at hand.
pub proof fn space_is_made_for_the_holder(state: ForwardRunningState, ctx: &StateProcessingContext)
    requires
        is_left_to_choose(ctx),
        !ctx.ball.should_take_immediately,
        ctx.ball.position.z < units(1),
        ctx.team.control_ball,
        ctx.ball.is_owned,
        ctx.owner_in_team() is Some,
    ensures
        (ctx.player.opponent_goal_position - ctx.player.position).magnitude() < units(80)
            ==> state.process(ctx) == Some(with_forward_state(ForwardState::CreatingSpace)),
        ctx.ball.distance >= units(5)
            && ctx.ball.owner_id != Some(ctx.player.id) ==> state.process(ctx)
            == Some(with_forward_state(ForwardState::CreatingSpace)),
{
}

/// With the ball out of reach and the other team on it, a forward who has strayed far goes back, a
/// hard worker of a team that is behind late helps in the own third, a tired one rests after a
/// long run, and after a very long one the forward walks.
pub proof fn far_balls_are_left(state: ForwardRunningState, ctx: &StateProcessingContext)
    requires
        is_left_to_choose(ctx),
        !ctx.team.best_player_to_chase_ball,
        !ctx.team.control_ball,
        ctx.ball.distance >= units(150),
        ctx.ball.position.z < units(1),
    ensures
        ctx.player.position_to_distance
            == PlayerDistanceFromStartPosition::Big ==> state.process(ctx)
            == Some(with_forward_state(ForwardState::Returning)),
        ctx.player.position_to_distance != PlayerDistanceFromStartPosition::Big ==> {
            let helps = ctx.player.skills.mental.work_rate > units(14) && ctx.team.losing
                && ctx.time_is_running_out && ctx.ball.on_own_third;
            let tired = ctx.player.condition < 60 && ctx.in_state_time > 150;
            &&& helps ==> (state.process(ctx) == Some(with_forward_state(ForwardState::Pressing))
                || ctx.player.skills.mental.work_rate < units(14) + micro(20))
            &&& (!ctx.team.losing || !ctx.time_is_running_out || !ctx.ball.on_own_third) ==> {
                &&& tired ==> state.process(ctx) == Some(with_forward_state(ForwardState::Resting))
                &&& !tired && ctx.in_state_time > 300 ==> state.process(ctx) == Some(
                    with_forward_state(ForwardState::Walking),
                )
                &&& !tired && ctx.in_state_time <= 300 ==> state.process(ctx) is None
            }
        },
{
}

/// A run in behind is made from the other half with a teammate on the ball, by the able: on a
/// counter-attack, into space behind a high line, or from the last third.
pub proof fn runs_in_behind_have_a_point(state: ForwardRunningState, ctx: &StateProcessingContext)
    ensures
        state.should_make_run_in_behind(ctx) ==> !ctx.player.on_own_side
            && ctx.owner_in_team() is Some,
        (!ctx.player.on_own_side && ctx.owner_in_team() is Some && ctx.player.skills.physical.pace
            >= units(10) && ctx.player.skills.mental.off_the_ball >= units(10)
                && ctx.player.skills.physical.pace
            <= units(1000) && ctx.player.skills.mental.off_the_ball <= units(1000)
                && match ctx.player.side {
            Some(PlayerSide::Left) => ctx.player.position.x > ctx.width() * milli(650),
            Some(PlayerSide::Right) => ctx.player.position.x < ctx.width() * milli(350),
            None => false,
        }) ==> state.should_make_run_in_behind(ctx),
{
    if ctx.player.skills.physical.pace >= units(10)
        && ctx.player.skills.mental.off_the_ball >= units(10) {
        crate::scalar::quotient_keeps_order(units(10), ctx.player.skills.physical.pace, units(20));
        crate::scalar::quotient_keeps_order(
            units(10),
            ctx.player.skills.mental.off_the_ball,
            units(20),
        );
        crate::scalar::scaling_keeps_order(
            milli(500),
            share(ctx.player.skills.physical.pace),
            milli(400),
        );
        crate::scalar::scaling_keeps_order(
            milli(500),
            share(ctx.player.skills.mental.off_the_ball),
            milli(400),
        );
        crate::scalar::quotient_keeps_order(
            units(0),
            units(ctx.player.condition as i64),
            units(100),
        );
        crate::scalar::scaling_keeps_order(units(0), ctx.stamina(), milli(200));
    }
}

/// The line of the defence is that of the defender nearest to the own goal of the opponents, and
/// there is space behind it where it stands high and the forward is not far beyond it.
pub proof fn line_is_that_of_the_last(
    state: ForwardRunningState,
    ctx: &StateProcessingContext,
    o: MatchPlayerLite,
)
    requires
        ctx.opponents@.contains(o),
        o.tactical_positions.group == PositionGroup::Defender,
    ensures
        ctx.player.side == Some(PlayerSide::Left) ==> o.position.x
            <= state.find_defensive_line(ctx),
        ctx.player.side == Some(PlayerSide::Right) ==> o.position.x
            >= state.find_defensive_line(ctx),
        ctx.player.side is Some ==> exists|d: MatchPlayerLite| #[trigger]
            ctx.opponents@.contains(d) && d.tactical_positions.group == PositionGroup::Defender
                && d.position.x == state.find_defensive_line(ctx),
{
    scan::greatest_is_greatest(
        ctx.opponents@,
        |o: MatchPlayerLite| o.tactical_positions.is_defender(),
        |o: MatchPlayerLite| o.position.x,
    );
    scan::least_is_least(
        ctx.opponents@,
        |o: MatchPlayerLite| o.tactical_positions.is_defender(),
        |o: MatchPlayerLite| o.position.x,
    );
}

/// Space behind a defence is the more, the higher its line, and none from far beyond it.
pub proof fn higher_lines_leave_space(
    state: ForwardRunningState,
    ctx: &StateProcessingContext,
    deep: Scalar,
    high: Scalar,
)
    requires
        units(0) <= high,
        high <= deep,
        ctx.player.position.x <= high,
        ctx.player.side == Some(PlayerSide::Left),
        state.check_space_behind_defense(ctx, deep),
    ensures
        state.check_space_behind_defense(ctx, high),
        deep < ctx.width() * milli(700),
{
}

/// The ball that a forward lays back out of a crowd goes to a free teammate at a fair distance,
/// not towards the goal, and to a midfielder where one is among them.
pub proof fn outlets_are_safe(
    state: ForwardRunningState,
    ctx: &StateProcessingContext,
    m: MatchPlayerLite,
)
    requires
        state.safe_outlet(ctx) == Some(m),
    ensures
        ctx.teammates@.contains(m),
        m.clear_pass,
        (m.position - ctx.player.position).magnitude().is_between(units(25), units(180)),
        !aligned_at_least(m.position - ctx.player.position, ctx.to_goal(), milli(300)),
        ctx.opponents_around(m.position, units(12)) < 2,
        m.tactical_positions.group == PositionGroup::Midfielder || forall|t: MatchPlayerLite|
            ctx.teammates@.contains(t) && t.distance <= units(180)
                && #[trigger] state.is_safe_outlet(
                ctx,
                t,
            ) ==> t.tactical_positions.group != PositionGroup::Midfielder,
{
    scan::greatest_is_greatest(
        ctx.teammates@,
        |t: MatchPlayerLite| t.distance <= units(180) && state.is_safe_outlet(ctx, t),
        |t: MatchPlayerLite|
            if t.tactical_positions.is_midfielder() {
                units(10)
            } else {
                units(0)
            },
    );
}

/// A one-two goes back to the latest passer, of the own team, who has run on: clearly nearer to
/// the goal, with nobody around, in sight and at a fair distance; and to every such passer.
pub proof fn one_twos_go_back(state: ForwardRunningState, ctx: &StateProcessingContext)
    ensures
        state.find_one_two_return(ctx) matches Some(m) ==> {
            &&& ctx.teammates@.contains(m)
            &&& ctx.ball.last_passer == Some(m.id)
            &&& m.clear_pass
            &&& (ctx.goal() - m.position).magnitude() < ctx.to_goal().magnitude() * milli(850)
            &&& ctx.opponents_around(m.position, units(50)) == 0
            &&& (m.position - ctx.player.position).magnitude().is_between(units(25), units(180))
            &&& ctx.by_id(m.id) matches Some(p) && p.team_id == ctx.player.team_id
        },
        state.find_one_two_return(ctx) is None ==> forall|i: int|
            0 <= i < ctx.teammates@.len() && ctx.ball.last_passer == Some(
                (#[trigger] ctx.teammates@[i]).id,
            ) && (forall|j: int|
                0 <= j < i ==> Some((#[trigger] ctx.teammates@[j]).id) != ctx.ball.last_passer) && (
            ctx.by_id(ctx.teammates@[i].id) matches Some(p) && p.team_id == ctx.player.team_id)
                && ctx.teammates@[i].clear_pass && ctx.opponents_around(
                ctx.teammates@[i].position,
                units(50),
            ) == 0 && (ctx.teammates@[i].position - ctx.player.position).magnitude().is_between(
                units(25),
                units(180),
            ) ==> (
                ctx.goal() - ctx.teammates@[i].position
            ).magnitude() >= ctx.to_goal().magnitude()
                * milli(850),
{
    if let Some(id) = ctx.ball.last_passer {
        let p = |t: MatchPlayerLite| t.id == id;
        scan::first_is_one_of_them(ctx.teammates@, p);
        assert forall|i: int|
            0 <= i < ctx.teammates@.len() && ctx.ball.last_passer == Some(
                (#[trigger] ctx.teammates@[i]).id,
            ) && (forall|j: int|
                0 <= j < i ==> Some((#[trigger] ctx.teammates@[j]).id) != ctx.ball.last_passer)
            implies scan::first_where(ctx.teammates@, p) == Some(ctx.teammates@[i]) by {
            scan::first_comes_first(ctx.teammates@, p, i);
        }
    }
}

/// A lay-off goes back, with an opponent in the way: to a free midfielder or forward clearly
/// further from the goal who did not pass just now, the furthest of them.
pub proof fn lay_offs_go_back(
    state: ForwardRunningState,
    ctx: &StateProcessingContext,
    m: MatchPlayerLite,
)
    requires
        state.find_hold_up_layoff(ctx) == Some(m),
    ensures
        opponents_in_the_way(ctx, units(25), milli(300)) > 0,
        ctx.teammates@.contains(m),
        m.clear_pass,
        m.recency_penalty > milli(300),
        m.tactical_positions.group == PositionGroup::Midfielder || m.tactical_positions.group
            == PositionGroup::Forward,
        (ctx.goal() - m.position).magnitude() > ctx.to_goal().magnitude() * milli(1100),
        (m.position - ctx.player.position).magnitude() >= units(30),
        ctx.opponents_around(m.position, units(10)) < 2,
        forall|t: MatchPlayerLite|
            ctx.teammates@.contains(t) && t.distance <= units(150)
                && #[trigger] state.is_layoff_target(
                ctx,
                t,
            ) ==> (t.position - ctx.player.position).magnitude() <= (m.position
                - ctx.player.position).magnitude(),
{
    scan::greatest_is_greatest(
        ctx.teammates@,
        |t: MatchPlayerLite| t.distance <= units(150) && state.is_layoff_target(ctx, t),
        |t: MatchPlayerLite| (t.position - ctx.player.position).magnitude(),
    );
}

/// The ball that is released when a tackler comes goes to a free teammate nearby the space that
/// the tackler has left.
pub proof fn releases_find_the_space(
    state: ForwardRunningState,
    ctx: &StateProcessingContext,
    m: MatchPlayerLite,
)
    requires
        state.find_draw_and_release_pass(ctx) == Some(m),
    ensures
        ctx.teammates@.contains(m),
        m.clear_pass,
        m.recency_penalty > milli(300),
        (m.position - ctx.player.position).magnitude() > units(25),
        ctx.opponents_around(m.position, units(10)) < 2,
        exists|o: MatchPlayerLite| #[trigger]
            ctx.opponents@.contains(o)
                && (o.position - ctx.player.position).magnitude().is_between(
                units(15),
                units(35),
            ) && o.velocity.magnitude() >= units(1) && aligned_above(
                o.velocity,
                ctx.player.position - o.position,
                milli(600),
            ) && (m.position - (o.position - o.velocity.direction()->0 * units(30))).magnitude()
                < units(60),
{
    scan::least_is_least(
        ctx.opponents@,
        |o: MatchPlayerLite| o.distance <= units(35) && state.is_closing_in(ctx, o),
        |o: MatchPlayerLite| (o.position - ctx.player.position).magnitude(),
    );
    if let Some(tackler) = scan::least_where(
        ctx.opponents@,
        |o: MatchPlayerLite| o.distance <= units(35) && state.is_closing_in(ctx, o),
        |o: MatchPlayerLite| (o.position - ctx.player.position).magnitude(),
    ) {
        let vacated = tackler.position - tackler.velocity.direction()->0 * units(30);
        scan::least_is_least(
            ctx.teammates@,
            |t: MatchPlayerLite|
                t.distance <= units(200) && state.is_release_target(ctx, t, vacated),
            |t: MatchPlayerLite| (t.position - vacated).magnitude(),
        );
    }
}

/// A forward free to play who may shoot but has no lane for it, and no runner to find, combines
/// where there is somebody to combine with: back to the passer right after a pass, a lay-off with
/// the way blocked, a pass out of a crowd, a release when a tackler comes.
pub proof fn combinations_are_played(state: ForwardRunningState, ctx: &StateProcessingContext)
    requires
        is_free_to_play(ctx),
        ctx.team.can_shoot,
        ctx.player.can_shoot,
        !ctx.player.clear_shot,
        ctx.player.under_immediate_pressure || !ctx.team.should_play_possession,
        ctx.cutback_runner is None,
        !has_much_better_teammate(ctx) || ctx.ball.ownership_duration < 30,
        ctx.ball.distance_to_opponent_goal > units(48),
        ctx.ball.stable_possession,
    ensures
        2 <= ctx.ball.ownership_duration <= 10 ==> (state.find_one_two_return(ctx) matches Some(
            m,
        ) ==> state.process(ctx) == Some(
            with_forward_state(ForwardState::Running).with_event(
                pass_to(ctx.player.id, m.id, "FWD_RUNNING_ONE_TWO_RETURN"),
            ),
        )),
        (ctx.ball.ownership_duration > 30 && opponents_in_the_way(ctx, units(25), milli(400)) > 0)
            ==> (state.find_hold_up_layoff(ctx) matches Some(m) ==> state.process(ctx) == Some(
            with_forward_state(ForwardState::Running).with_event(
                pass_to(ctx.player.id, m.id, "FWD_RUNNING_HOLD_UP_LAYOFF"),
            ),
        )),
        (ctx.ball.ownership_duration > 15 && ctx.ball.ownership_duration <= 30 && (ctx.player.congested
            || ctx.player.congested_near_boundary) && ctx.teammates@.len() > 0) ==> state.process(ctx)
            == Some(with_forward_state(ForwardState::Passing)),
        (ctx.ball.ownership_duration > 20 && ctx.ball.ownership_duration <= 30 && !ctx.player.congested
            && !ctx.player.congested_near_boundary) ==> (state.find_draw_and_release_pass(ctx) matches Some(
            m,
        ) ==> state.process(ctx) == Some(
            with_forward_state(ForwardState::Running).with_event(
                pass_to(ctx.player.id, m.id, "FWD_RUNNING_DRAW_AND_RELEASE"),
            ),
        )),
{
    nothing_comes_before(state, ctx);
    defers_to_the_better_placed(state, ctx);
}

/// A forward free to play who may shoot but has no lane for it, with nobody to combine with,
/// passes under pressure from the side or the front to whoever is in sight, and comes to a
/// decision after long hesitation: a shot by the central rule at a good chance, else a pass.
pub proof fn hesitation_ends(state: ForwardRunningState, ctx: &StateProcessingContext)
    requires
        is_free_to_play(ctx),
        ctx.team.can_shoot,
        ctx.player.can_shoot,
        ctx.player.under_immediate_pressure || !ctx.team.should_play_possession,
        ctx.cutback_runner is None,
        !has_much_better_teammate(ctx) || ctx.ball.ownership_duration < 30,
        ctx.ball.distance_to_opponent_goal > units(45),
        !ctx.player.clear_shot || ctx.ball.ownership_duration < 30,
        !ctx.ball.stable_possession,
        ctx.ball.ownership_duration <= 15
            || (!ctx.player.congested && !ctx.player.congested_near_boundary),
    ensures
        ({
            &&& ctx.player.under_immediate_pressure
            &&& opponents_in_the_way(ctx, units(20), units(0)) > 0
            &&& exists|t: MatchPlayerLite| #[trigger]
                ctx.teammates@.contains(t) && t.distance <= units(200) && t.clear_pass
        }) ==> state.process(ctx) == Some(with_forward_state(ForwardState::Passing)),
        ctx.in_state_time > 120 ==> state.process(ctx) is Some,
        ({
            &&& ctx.in_state_time > 120
            &&& !ctx.player.under_immediate_pressure
            &&& ctx.ball.ownership_duration <= 12
            &&& ctx.player.side is None
        }) ==> (state.process(ctx) matches Some(r) && match ctx.shots.run_anti_oscillation {
            ShotDecision::Shoot { reason } => if ctx.ball.distance_to_opponent_goal < units(54)
                && ctx.player.skills.technical.finishing >= units(11) && ctx.player.clear_shot
                && ctx.player.good_shooting_angle {
                r.state == PlayerState::Forward(ForwardState::Shooting)
                    && r.shot_reason == Some(reason)
            } else if ctx.ball.distance_to_opponent_goal >= units(54)
                || ctx.player.skills.technical.finishing <= units(10) || !ctx.player.clear_shot
                || !ctx.player.good_shooting_angle {
                r == with_forward_state(ForwardState::Passing)
            } else {
                true
            },
            _ => r == with_forward_state(ForwardState::Passing),
        }),
{
    nothing_comes_before(state, ctx);
    defers_to_the_better_placed(state, ctx);
    scan::some_is_one_of_them(
        ctx.teammates@,
        |t: MatchPlayerLite| t.distance <= units(200) && t.clear_pass,
    );
    assert(ctx.opponents.len() == ctx.opponents@.len());
    if units(11) <= ctx.player.skills.technical.finishing {
        crate::scalar::quotient_keeps_order(
            units(11),
            ctx.player.skills.technical.finishing,
            units(20),
        );
    }
    if ctx.player.skills.technical.finishing <= units(10) {
        crate::scalar::quotient_keeps_order(
            ctx.player.skills.technical.finishing,
            units(10),
            units(20),
        );
    }
}

/// Only opponents who block the way are taken on, two at the most, and on a draw on which two are
/// dared one is too; a lower draw dares no less.
pub proof fn take_ons_are_few(
    state: ForwardRunningState,
    ctx: &StateProcessingContext,
    other: &StateProcessingContext,
)
    requires
        ctx.opponents == other.opponents,
        ctx.player == other.player,
        ctx.curves == other.curves,
        other.rolls.take_on <= ctx.rolls.take_on,
    ensures
        state.should_dribble(ctx) ==> 1 <= state.blocking_opponents(ctx) <= 2,
        state.should_dribble(ctx)
            && state.blocking_opponents(ctx) == 1 ==> state.should_dribble(other),
        state.blocking_opponents(ctx) == 1 && ctx.rolls.take_on < ctx.curves.dribbling_10
            ==> state.should_dribble(ctx),
        state.blocking_opponents(ctx) == 2 ==> (state.should_dribble(ctx) <==> ctx.rolls.take_on
            < ctx.curves.dribbling_14 * ctx.curves.pace_12),
        state.blocking_opponents(ctx) > 0 <==> exists|o: MatchPlayerLite| #[trigger]
            ctx.opponents@.contains(o) && o.distance <= units(25) && aligned_above(
                o.position - ctx.player.position,
                ctx.to_goal(),
                milli(500),
            ) && (o.position - ctx.player.position).norm_squared() < units(400),
{
    assert(ctx.opponents.len() == ctx.opponents@.len());
    scan::count_tells_some(
        ctx.opponents@,
        |o: MatchPlayerLite|
            o.distance <= units(25) && aligned_above(
                o.position - ctx.player.position,
                ctx.to_goal(),
                milli(500),
            ) && (o.position - ctx.player.position).norm_squared() < units(400),
    );
}

/// A forward crosses from a wide place in the last third, with the skill for it, where a teammate
/// is in front of the goal.
pub proof fn crosses_find_somebody(state: ForwardRunningState, ctx: &StateProcessingContext)
    ensures
        state.should_cross(ctx) ==> {
            &&& ctx.player.position.y < ctx.height() * milli(200)
                || ctx.player.position.y > ctx.height()
                - ctx.height() * milli(200)
            &&& ctx.player.skills.technical.crossing > units(8)
            &&& exists|t: MatchPlayerLite| #[trigger]
                ctx.teammates@.contains(t) && (t.position - ctx.goal()).magnitude() <= units(120)
            &&& ctx.player.side == Some(PlayerSide::Left) ==> ctx.player.position.x
                > ctx.width() * milli(
                650,
            )
            &&& ctx.player.side == Some(PlayerSide::Right) ==> ctx.player.position.x < ctx.width()
                * milli(350)
        },
        ({
            &&& ctx.player.position.y < ctx.height() * milli(200)
            &&& ctx.player.side == Some(PlayerSide::Left)
            &&& ctx.player.position.x > ctx.width() * milli(650)
            &&& ctx.player.skills.technical.crossing >= units(9)
            &&& ctx.teammates_around(ctx.goal(), units(120)) > 0
        }) ==> state.should_cross(ctx),
{
    crate::context::around_means_close(ctx, ctx.goal(), units(120), units(120));
    if ctx.player.skills.technical.crossing <= units(8) {
        crate::scalar::quotient_keeps_order(
            ctx.player.skills.technical.crossing,
            units(8),
            units(20),
        );
    }
    if units(9) <= ctx.player.skills.technical.crossing {
        crate::scalar::quotient_keeps_order(
            units(9),
            ctx.player.skills.technical.crossing,
            units(20),
        );
    }
}

/// A forward without a teammate in range does not pass; one with time right before the goal
/// passes exactly where a teammate who can be reached is much nearer to it and nobody marks tight.
pub proof fn passes_near_goal_help(state: ForwardRunningState, ctx: &StateProcessingContext)
    ensures
        (
            forall|t: MatchPlayerLite| #[trigger] ctx.teammates@.contains(t) ==> t.distance
                > units(300)
        )
            ==> !state.should_pass(ctx),
        (
            ctx.ball.distance_to_opponent_goal < units(48) && !ctx.player.under_immediate_pressure
        ) ==> (
        state.should_pass(ctx) <==> ctx.opponents_nearby(units(8)) < 2 && (ctx.opponents_nearby(units(8))
            == 0 || ctx.opponents_nearby(units(3)) == 0) && exists|t: MatchPlayerLite| #[trigger]
            ctx.teammates@.contains(t) && t.distance <= units(300) && t.clear_pass
                && t.position.distance_to(ctx.goal()) < ctx.ball.distance_to_opponent_goal * milli(600)),
        (ctx.player.under_immediate_pressure && ctx.player.condition < 40) ==> (state.should_pass(ctx)
            <==> ctx.opponents_nearby(units(8)) < 2 && (ctx.opponents_nearby(units(8)) == 0
            || ctx.opponents_nearby(units(3)) == 0) && exists|t: MatchPlayerLite| #[trigger]
            ctx.teammates@.contains(t) && t.distance <= units(300) && t.clear_pass),
{
    let own = ctx.ball.distance_to_opponent_goal;
    scan::some_is_one_of_them(ctx.teammates@, |t: MatchPlayerLite| t.distance <= units(300));
    scan::some_is_one_of_them(
        ctx.teammates@,
        |t: MatchPlayerLite|
            t.distance <= units(300) && t.position.distance_to(ctx.goal()) < own * milli(600)
                && !state.is_teammate_heavily_marked(ctx, t) && t.clear_pass,
    );
    scan::some_is_one_of_them(
        ctx.teammates@,
        |t: MatchPlayerLite|
            t.distance <= units(300) && t.clear_pass && !state.is_teammate_heavily_marked(ctx, t),
    );
}

/// Other passes go forward to the free, or to those near the goal who are free or on a run.
pub proof fn other_passes_go_forward(
    state: ForwardRunningState,
    ctx: &StateProcessingContext,
    d: Scalar,
)
    ensures
        state.has_good_passing_option(ctx) <==> exists|t: MatchPlayerLite| #[trigger]
            ctx.teammates@.contains(t) && t.distance <= units(300) && t.clear_pass
                && ctx.opponents_around(t.position, units(10)) < 2 && is_ahead_of(
                ctx,
                t.position,
                ctx.player.position,
            ),
        state.has_teammate_in_dangerous_position(ctx, d) <==> exists|t: MatchPlayerLite| #[trigger]
            ctx.teammates@.contains(t) && t.distance <= units(300) && t.clear_pass
                && t.position.distance_to(ctx.goal()) < d * milli(1100) && (ctx.opponents_around(
                t.position,
                units(12),
            ) < 2 || (t.velocity.magnitude() > units(2) && aligned_above(
                t.velocity,
                ctx.goal() - t.position,
                milli(500),
            ))),
        state.has_forward_pass_to_better_teammate(ctx, d) ==> exists|t: MatchPlayerLite| #[trigger]
            ctx.teammates@.contains(t) && t.clear_pass && is_ahead_of(
                ctx,
                t.position,
                ctx.player.position,
            ) && t.position.distance_to(ctx.goal()) < d * milli(700),
{
    scan::some_is_one_of_them(
        ctx.teammates@,
        |t: MatchPlayerLite|
            t.distance <= units(300) && t.clear_pass
                && ctx.opponents_around(t.position, units(10)) < 2
                && is_ahead_of(ctx, t.position, ctx.player.position),
    );
    scan::some_is_one_of_them(
        ctx.teammates@,
        |t: MatchPlayerLite|
            t.distance <= units(300) && t.clear_pass
                && t.position.distance_to(ctx.goal()) < d * milli(1100)
                && (ctx.opponents_around(t.position, units(12)) < 2 || state.makes_a_run(ctx, t)),
    );
    scan::some_is_one_of_them(
        ctx.teammates@,
        |t: MatchPlayerLite|
            t.distance <= units(300) && is_ahead_of(ctx, t.position, ctx.player.position)
                && t.position.distance_to(ctx.goal()) < d * milli(700)
                && !state.is_teammate_heavily_marked(ctx, t) && t.clear_pass,
    );
}

/// A long run leaves less and less of the speed, seven tenths at the least.
pub proof fn fatigue_grows(
    state: ForwardRunningState,
    ctx: &StateProcessingContext,
    other: &StateProcessingContext,
)
    requires
        ctx.in_state_time <= other.in_state_time,
    ensures
        state.calculate_fatigue_factor(other) <= state.calculate_fatigue_factor(ctx),
        milli(700) <= state.calculate_fatigue_factor(ctx),
        state.calculate_fatigue_factor(ctx) <= units(1),
        ctx.in_state_time == 0 ==> state.calculate_fatigue_factor(ctx) == units(1),
        180 <= ctx.in_state_time <= 1_000_000 ==> state.calculate_fatigue_factor(ctx)
            == milli(700),
{
    crate::scalar::quotient_keeps_order(
        ticks(ctx.in_state_time),
        ticks(other.in_state_time),
        units(600),
    );
    crate::scalar::quotient_keeps_order(units(0), ticks(ctx.in_state_time), units(600));
    if ctx.in_state_time >= 180 {
        crate::scalar::quotient_keeps_order(units(180), ticks(ctx.in_state_time), units(600));
    }
}

/// With the ball the forward runs for a gap where there is one, straight at the goal where nobody
/// is in the way, and else slows down long before it; the waypoints are for runs without the ball.
pub proof fn carries_go_for_goal(state: ForwardRunningState, ctx: &StateProcessingContext)
    ensures
        ctx.player.should_follow_waypoints && !ctx.player.has_ball
            && ctx.player.waypoint_count > 0 ==> (
        state.velocity(ctx) matches Some(m) && m.steering matches Some(Steering::FollowPath { .. })
            && m.factor == state.calculate_fatigue_factor(ctx)),
        ctx.player.has_ball ==> (state.velocity(ctx) matches Some(m) && m.factor
            == state.calculate_fatigue_factor(ctx) && match state.find_best_gap_in_defense(ctx) {
            Some(gap) => m.steering == Some(
                Steering::Arrive { target: gap, slowing_distance: units(20) },
            ),
            None => if exists|o: MatchPlayerLite| #[trigger]
                ctx.opponents@.contains(o) && o.distance <= units(30) && aligned_above(
                    o.position - ctx.player.position,
                    ctx.to_goal(),
                    milli(800),
                ) && (o.position - ctx.player.position).magnitude() < units(40) {
                m.steering == Some(
                    Steering::Arrive {
                        target: ctx.player.opponent_goal_position,
                        slowing_distance: units(100),
                    },
                )
            } else {
                !ctx.to_goal().is_zero() ==> m.steering == Some(
                    Steering::Arrive {
                        target: ctx.player.position + ctx.to_goal().normalize() * units(50),
                        slowing_distance: units(20),
                    },
                )
            },
        }),
{
    crate::scalar::one_changes_nothing(state.calculate_fatigue_factor(ctx));
    scan::some_is_one_of_them(
        ctx.opponents@,
        |o: MatchPlayerLite|
            o.distance <= units(30) && aligned_above(
                o.position - ctx.player.position,
                ctx.to_goal(),
                milli(800),
            ) && (o.position - ctx.player.position).magnitude() < units(40),
    );
}

/// The gap that a forward runs for lies half way between two opponents ahead who are far enough
/// apart, and no two of those that are looked at are further apart.
pub proof fn gaps_are_the_widest(state: ForwardRunningState, ctx: &StateProcessingContext)
    ensures
        state.find_best_gap_in_defense(ctx) matches Some(spot) ==> exists|i: int, j: int|
            0 <= i < j < state.line_ahead(ctx).len() && spot == (#[trigger] crate::gaps::gap_between(
                state.line_ahead(ctx)[i],
                state.line_ahead(ctx)[j],
            )).center && (state.line_ahead(ctx)[i].position - state.line_ahead(
                ctx,
            )[j].position).magnitude() > units(20) && forall|k: int, l: int|
                0 <= k < l < state.line_ahead(ctx).len() ==> (#[trigger] crate::gaps::gap_between(
                    state.line_ahead(ctx)[k],
                    state.line_ahead(ctx)[l],
                )).width <= (state.line_ahead(ctx)[i].position - state.line_ahead(
                    ctx,
                )[j].position).magnitude(),
        forall|i: int|
            0 <= i < state.line_ahead(ctx).len() ==> {
                let o = #[trigger] state.line_ahead(ctx)[i];
                &&& ctx.opponents@.contains(o)
                &&& o.distance <= units(100)
                &&& aligned_above(ctx.to_goal(), o.position - ctx.player.position, milli(500))
            },
{
    let line = state.line_ahead(ctx);
    let gaps = crate::gaps::gaps_from(line, 0);
    let wide = |g: Gap| g.width > units(20);
    let width = |g: Gap| g.width;
    scan::first_greatest_is_greatest(gaps, wide, width);
    if state.find_best_gap_in_defense(ctx) is Some {
        let g = scan::first_greatest_where(gaps, wide, width)->0;
        crate::gaps::gaps_are_between_two(line, g);
        let (i, j) = choose|i: int, j: int|
            0 <= i < j < line.len() && g == #[trigger] crate::gaps::gap_between(line[i], line[j]);
        assert forall|k: int, l: int| 0 <= k < l < line.len() implies (
        #[trigger] crate::gaps::gap_between(line[k], line[l])).width <= g.width by {
            let h = crate::gaps::gap_between(line[k], line[l]);
            crate::gaps::gaps_are_between_two(line, h);
            if h.width > units(20) {
                assert(gaps.contains(h) && wide(h));
                assert(width(h) <= width(g));
            }
        }
    }
    let p = |o: MatchPlayerLite| state.is_in_the_way(ctx, o);
    assert forall|i: int| 0 <= i < line.len() implies ({
        let o = #[trigger] line[i];
        &&& ctx.opponents@.contains(o)
        &&& o.distance <= units(100)
        &&& aligned_above(ctx.to_goal(), o.position - ctx.player.position, milli(500))
    }) by {
        scan::filter_comes_from(ctx.opponents@, p, i);
        assert(p(line[i]));
    }
}

/// Away from the goal line of the own half and of the touchlines, the forward who has nothing
/// better to do keeps a place in the line of forwards; close to a holder of the own team the
/// forward keeps away, and is still at the place.
pub proof fn places_are_kept(state: ForwardRunningState, ctx: &StateProcessingContext)
    requires
        ctx.field_size.width >= 60,
        ctx.field_size.height >= 80,
        !ctx.player.has_ball,
        !ctx.player.should_follow_waypoints,
        !ctx.team.control_ball,
    ensures
        state.velocity(ctx) matches Some(m) && {
            ||| m.steering is None && m.extra == Some(flat(units(0), units(0)))
                && state.forward_slot(
                ctx,
            ).distance_to(ctx.player.position) < units(8)
            ||| m.steering == Some(
                Steering::Arrive { target: state.forward_slot(ctx), slowing_distance: units(15) },
            ) && m.factor == state.calculate_fatigue_factor(ctx)
                && state.forward_slot(ctx).distance_to(
                ctx.player.position,
            ) >= units(8)
        },
{
    crate::scalar::one_changes_nothing(state.calculate_fatigue_factor(ctx));
}

/// The nearer the ball, the more it draws a forward from the start position.
pub proof fn ball_draws(
    state: ForwardRunningState,
    ctx: &StateProcessingContext,
    other: &StateProcessingContext,
)
    requires
        ctx.ball.distance <= other.ball.distance,
        units(0) <= ctx.ball.distance,
    ensures
        state.proximity(other) <= state.proximity(ctx),
        milli(50) <= state.proximity(other),
        state.proximity(ctx) <= milli(450),
        ctx.ball.distance <= units(220) ==> state.proximity(ctx) == milli(450),
        other.ball.distance >= units(380) && other.ball.distance <= units(100_000)
            ==> state.proximity(other) == milli(50),
{
    crate::scalar::quotient_keeps_order(ctx.ball.distance, other.ball.distance, units(400));
    if ctx.ball.distance <= units(220) {
        crate::scalar::quotient_keeps_order(ctx.ball.distance, units(220), units(400));
    }
    if other.ball.distance >= units(380) {
        crate::scalar::quotient_keeps_order(units(380), other.ball.distance, units(400));
    }
}

/// Well drawn, the place of a forward lies between the start position and a spot ahead of the
/// ball: a forward of the left side is never drawn further back than the nearer of the ball and
/// the middle, and the line of forwards is filled by number.
pub proof fn slots_are_ahead(state: ForwardRunningState, ctx: &StateProcessingContext)
    requires
        ctx.player.side == Some(PlayerSide::Left),
        ctx.player.start_position.x.is_between(units(0), ctx.width()),
        ctx.ball.position.x.is_between(units(0), ctx.width()),
        ctx.field_size.width <= 10_000,
        ctx.player.start_position.x <= ctx.width() * milli(450),
    ensures
        ctx.player.start_position.x <= state.slot_depth(ctx),
        state.slot_depth(ctx) <= ctx.width(),
        units(0) <= state.slot_index(ctx),
        state.slot_index(ctx) < state.forward_count(ctx),
{
    let start = ctx.player.start_position.x;
    let ball_x = (ctx.ball.position.x / units(10)).round() * units(10);
    let lowest = (ctx.width() * milli(450)).max(ball_x).min(ctx.width());
    let advanced = ball_x + units(1) * units(70) + units(1) * (state.slot_index(ctx) * units(20));
    let spot = advanced.clamp(lowest, ctx.width());
    assert(start <= spot);
    let p = state.proximity(ctx);
    crate::scalar::product_keeps_sign(spot - start, p);
    crate::scalar::product_keeps_order(spot - start, p, units(1));
    crate::scalar::one_changes_nothing(spot - start);
    assert(ctx.teammates.len() == ctx.teammates@.len());
    scan::count_keeps_order(
        ctx.teammates@,
        |t: MatchPlayerLite| t.tactical_positions.is_forward() && t.id < ctx.player.id,
        |t: MatchPlayerLite| t.tactical_positions.is_forward(),
    );
}

/// A forward supports a teammate on the ball, 6 to 80 off, whom the nearest opponent is closer
/// than
/// 15 to: 15.4 away from that opponent and ten towards the goal, on the pitch.
pub proof fn support_runs_relieve(state: ForwardRunningState, ctx: &StateProcessingContext)
    requires
        ctx.field_size.width >= 60,
        ctx.field_size.height >= 80,
    ensures
        state.support_spot(ctx) is Some ==> ctx.team.control_ball && ctx.ball.distance < units(80)
            && ctx.ball.distance > units(6) && ctx.holder() is Some
            && exists|o: MatchPlayerLite| #[trigger]
            ctx.opponents@.contains(o)
                && o.position.distance_to(ctx.holder()->0.position) < units(15)
                && state.beside(ctx, ctx.holder()->0.position, o.position) is Some
                && state.support_spot(
                ctx,
            ) == Some(
                inside(ctx, state.beside(ctx, ctx.holder()->0.position, o.position)->0, 30, 40),
            ),
        state.support_spot(ctx) matches Some(spot) ==> (if (spot - ctx.player.position).magnitude() > units(3) {
            state.support_run(ctx) == Some(
                (spot - ctx.player.position).normalize() * (
                    ctx.player.skills.physical.pace * milli(850)
                ),
            )
        } else {
            state.support_run(ctx) is None
        }),
        state.support_spot(ctx) is None ==> state.support_run(ctx) is None,
{
    if let Some(carrier) = ctx.holder() {
        let any = |o: MatchPlayerLite| true;
        let k = |o: MatchPlayerLite| o.position.distance_to(carrier.position);
        scan::least_is_least(ctx.opponents@, any, k);
        if let Some(o) = scan::least_where(ctx.opponents@, any, k) {
            assert(ctx.opponents@.contains(o));
        }
    }
}

/// The spot beside a carrier lies away from the opponent and towards the goal.
pub proof fn beside_is_away(
    state: ForwardRunningState,
    ctx: &StateProcessingContext,
    carrier: Vec3,
    opponent: Vec3,
)
    ensures
        state.beside(ctx, carrier, opponent) is Some <==> !(opponent - carrier).is_zero() && !(ctx.goal()
            - carrier).is_zero(),
        state.beside(ctx, carrier, opponent) matches Some(spot) ==> spot == carrier + (opponent
            - carrier).normalize() * units(22).negated() * milli(700) + (ctx.goal() - carrier).normalize()
            * units(10),
{
}

/// A forward too close to the ball of the team moves away from it at half pace: towards 30 further
/// off and 15 aside, on the pitch.
pub proof fn spreads_lead_away(
    state: ForwardRunningState,
    ctx: &StateProcessingContext,
    fatigue: Scalar,
)
    requires
        ctx.field_size.width >= 60,
        ctx.field_size.height >= 80,
    ensures
        (ctx.player.position - ctx.ball.position).direction() matches Some(away) ==> {
            let target = inside(
                ctx,
                ctx.player.position + away * units(30) + flat(
                    away.y.negated(),
                    away.x,
                ) * units(15),
                30,
                40,
            );
            state.spread_direction(ctx) == (target - ctx.player.position).direction()
        },
        ctx.player.position == ctx.ball.position && ctx.ball.position.x.raw > i64::MIN ==> (
        state.spread_direction(ctx) is None),
        state.spread_direction(ctx) matches Some(way) ==> state.spread_run(ctx, fatigue) == glide(
            way * (ctx.player.skills.physical.pace * milli(500)) * fatigue,
        ),
        (!ctx.player.has_ball && !ctx.player.should_follow_waypoints && state.support_run(ctx) is None
            && ctx.ball.distance < units(25) && ctx.team.control_ball) ==> state.velocity(ctx) == Some(
            state.spread_run(ctx, state.calculate_fatigue_factor(ctx)),
        ),
        (!ctx.player.has_ball && !ctx.player.should_follow_waypoints && state.support_run(ctx) is None
            && ctx.ball.distance >= units(25)
            && state.forward_slot(ctx).distance_to(ctx.player.position)
            < units(8)) ==> state.velocity(ctx) == Some(still()),
        (
            !ctx.player.has_ball && ctx.player.should_follow_waypoints
                && ctx.player.waypoint_count > 0
        )
            ==> state.velocity(ctx) is Some && state.velocity(ctx)->0.steering == Some(
            Steering::FollowPath { path_offset: ctx.rolls.path_offset },
        ),
{
}

/// A trap is sprung on a carrier who runs at the own goal or is within a tenth of the pitch of a
/// touchline; one who is spent, with less than half of the strength left, is pressed from close
/// by.
pub proof fn traps_are_for_the_weak(
    state: ForwardRunningState,
    ctx: &StateProcessingContext,
    o: MatchPlayerLite,
)
    ensures
        state.is_by_the_touchline(ctx, o) <==> o.position.y.raw < ctx.field_size.height * 100_000
            || o.position.y.raw > ctx.field_size.height * 900_000,
        ctx.by_id(o.id) matches Some(p) ==> (state.is_exhausted(ctx, o) <==> p.condition < 50),
        ctx.by_id(o.id) is None ==> !state.is_exhausted(ctx, o),
        state.faces_own_goal(ctx, o) ==> o.velocity.magnitude() > milli(500),
        (ctx.ball.distance < state.press_distance(ctx) * milli(1500) && ctx.carrier_within(
            state.press_distance(ctx) * milli(1500),
        ) == Some(o)) ==> (if state.faces_own_goal(ctx, o) || state.is_by_the_touchline(ctx, o) {
            state.pressing_trap(ctx) == Some(true)
        } else if state.is_exhausted(ctx, o) {
            state.pressing_trap(ctx) == Some(
                ctx.ball.distance < state.press_distance(ctx) * milli(1400),
            )
        } else {
            state.pressing_trap(ctx) is None
        }),
        ctx.ball.distance
            >= state.press_distance(ctx) * milli(1500) ==> state.pressing_trap(ctx) is None,
{
    crate::scalar::thousandths_of(ctx.height(), 100);
    crate::scalar::thousandths_of(ctx.height(), 900);
}

/// A forward who is better on the ball, calmer, more determined and faster carries it no worse.
pub proof fn better_carriers_carry_better(
    state: ForwardRunningState,
    ctx: &StateProcessingContext,
    other: &StateProcessingContext,
)
    requires
        ctx.player.skills.technical.dribbling <= other.player.skills.technical.dribbling,
        ctx.player.skills.mental.composure <= other.player.skills.mental.composure,
        ctx.player.skills.mental.determination <= other.player.skills.mental.determination,
        ctx.player.skills.physical.pace <= other.player.skills.physical.pace,
    ensures
        state.carry_quality(ctx) <= state.carry_quality(other),
{
    let a = ctx.player.skills;
    let b = other.player.skills;
    crate::context::shares_grow(a.technical.dribbling, b.technical.dribbling, ctx);
    crate::context::shares_grow(a.mental.composure, b.mental.composure, ctx);
    crate::context::shares_grow(a.mental.determination, b.mental.determination, ctx);
    crate::context::shares_grow(a.physical.pace, b.physical.pace, ctx);
    crate::scalar::scaling_keeps_order(
        share(a.technical.dribbling),
        share(b.technical.dribbling),
        milli(350),
    );
    crate::scalar::scaling_keeps_order(
        share(a.mental.composure),
        share(b.mental.composure),
        milli(250),
    );
    crate::scalar::scaling_keeps_order(
        share(a.mental.determination),
        share(b.mental.determination),
        milli(200),
    );
    crate::scalar::scaling_keeps_order(share(a.physical.pace), share(b.physical.pace), milli(200));
}

} // verus!
