//! A midfielder on the run, with the ball or without.
use crate::context::{
    turned, up_to_five, GamePhase, MatchPlayerLite, PositionGroup, ShotDecision, ShotOccasion,
    StateProcessingContext,
};
use crate::movement::{attacking_direction, inside, is_ahead_of, opponents_in_the_way, outward};
use crate::outcome::{
    arrive, arrive_if_any, exertion_with_velocity, pass_to, steer, still, with_midfielder_state,
    ActivityIntensity, Exertion, MidfielderState, Movement, PlayerEvent, PlayerState,
    StateChangeResult, Steering,
};
use crate::scalar::{milli, units, Scalar};
use crate::scan;
use crate::vector::{aligned_above, aligned_below, flat, Vec3};
use vstd::prelude::*;

verus! {

pub open spec fn spec_max_shooting_distance() -> Scalar {
    units(88)
}

/// The longest shot of a midfielder.
#[verifier::when_used_as_spec(spec_max_shooting_distance)]
pub fn max_shooting_distance() -> (r: Scalar)
    ensures
        r == spec_max_shooting_distance(),
{
    units(88)
}

pub open spec fn spec_standard_shooting_distance() -> Scalar {
    units(52)
}

/// The range of an ordinary shot.
#[verifier::when_used_as_spec(spec_standard_shooting_distance)]
pub fn standard_shooting_distance() -> (r: Scalar)
    ensures
        r == spec_standard_shooting_distance(),
{
    units(52)
}

pub open spec fn spec_point_blank_distance() -> Scalar {
    units(20)
}

/// Right in front of the goalkeeper.
#[verifier::when_used_as_spec(spec_point_blank_distance)]
pub fn point_blank_distance() -> (r: Scalar)
    ensures
        r == spec_point_blank_distance(),
{
    units(20)
}

pub open spec fn spec_zone_half_width() -> Scalar {
    units(80)
}

/// How far to each side the ball draws a midfielder without it.
#[verifier::when_used_as_spec(spec_zone_half_width)]
pub fn zone_half_width() -> (r: Scalar)
    ensures
        r == spec_zone_half_width(),
{
    units(80)
}

#[derive(Default, Clone, Copy)]
pub struct MidfielderRunningState {}

impl MidfielderRunningState {
    pub open spec fn spec_process(
        &self,
        ctx: &StateProcessingContext,
    ) -> Option<StateChangeResult> {
        match self.opening(ctx) {
            Some(result) => Some(result),
            None => if ctx.player.has_ball { self.with_ball(ctx) } else { self.without_ball(ctx) },
        }
    }

    /// The next state of a running midfielder.
    #[verifier::when_used_as_spec(spec_process)]
    pub fn process(&self, ctx: &StateProcessingContext) -> (r: Option<StateChangeResult>)
        ensures
            r == self.spec_process(ctx),
    {
        match self.opening(ctx) {
            Some(result) => Some(result),
            None => if ctx.player.has_ball { self.with_ball(ctx) } else { self.without_ball(ctx) },
        }
    }

    pub open spec fn spec_opening(
        &self,
        ctx: &StateProcessingContext,
    ) -> Option<StateChangeResult> {
        if ctx.player.has_ball {
            None
        } else if ctx.player.stranded_offside {
            Some(with_midfielder_state(MidfielderState::Returning))
        } else {
            match self.counterpress(ctx) {
                Some(result) => {
                    Some(result)
                },
                None => {
                    if ctx.ball.opponent_restart {
                        Some(with_midfielder_state(MidfielderState::Returning))
                    } else {
                        self.phase_dispatch(ctx)
                    }
                },
            }
        }
    }

    /// What comes before all else: the retreat from an offside position, the press right after
    /// the ball is lost, the retreat at an opponent's restart, and what the phase of the team
    /// asks for.
    #[verifier::when_used_as_spec(spec_opening)]
    pub fn opening(&self, ctx: &StateProcessingContext) -> (r: Option<StateChangeResult>)
        ensures
            r == self.spec_opening(ctx),
    {
        if ctx.player.has_ball {
            return None;
        }
        if ctx.player.stranded_offside {
            return Some(with_midfielder_state(MidfielderState::Returning));
        }
        match self.counterpress(ctx) {
            Some(result) => {
                return Some(result);
            },
            None => {},
        }
        if ctx.ball.opponent_restart {
            return Some(with_midfielder_state(MidfielderState::Returning));
        }
        self.phase_dispatch(ctx)
    }

    pub open spec fn spec_counterpress(
        &self,
        ctx: &StateProcessingContext,
    ) -> Option<StateChangeResult> {
        if !ctx.team.counterpress_window || ctx.team.control_ball {
            None
        } else if ctx.ball.distance < units(25) {
            Some(with_midfielder_state(MidfielderState::Tackling))
        } else if ctx.player.should_counterpress && ctx.team.best_player_to_chase_ball
            && ctx.ball.distance < units(80) {
            Some(with_midfielder_state(MidfielderState::Pressing))
        } else {
            None
        }
    }

    /// Right after the ball is lost: a tackle close by, a press of the one who is chosen for it.
    #[verifier::when_used_as_spec(spec_counterpress)]
    pub fn counterpress(&self, ctx: &StateProcessingContext) -> (r: Option<StateChangeResult>)
        ensures
            r == self.spec_counterpress(ctx),
    {
        if !ctx.team.counterpress_window || ctx.team.control_ball {
            return None;
        }
        if ctx.ball.distance < units(25) {
            return Some(with_midfielder_state(MidfielderState::Tackling));
        }
        if ctx.player.should_counterpress && ctx.team.best_player_to_chase_ball
            && ctx.ball.distance < units(80) {
            return Some(with_midfielder_state(MidfielderState::Pressing));
        }
        None
    }

    pub open spec fn spec_phase_dispatch(
        &self,
        ctx: &StateProcessingContext,
    ) -> Option<StateChangeResult> {
        if ctx.player.has_ball {
            None
        } else {
            match ctx.team.phase {
                GamePhase::DefensiveTransition => if ctx.ball.distance < units(45)
                    && ctx.team.best_player_to_chase_ball {
                    Some(with_midfielder_state(MidfielderState::Pressing))
                } else if ctx.ball.distance > units(80) {
                    Some(with_midfielder_state(MidfielderState::Returning))
                } else {
                    None
                },
                GamePhase::AttackingTransition => if ctx.ball.distance_to_opponent_goal > units(40) {
                    Some(with_midfielder_state(MidfielderState::AttackSupporting))
                } else {
                    None
                },
                GamePhase::HighPress => if ctx.ball.distance < units(70)
                    && ctx.team.best_player_to_chase_ball {
                    Some(with_midfielder_state(MidfielderState::Pressing))
                } else {
                    None
                },
                GamePhase::LowBlock => if ctx.ball.distance > units(50) {
                    Some(with_midfielder_state(MidfielderState::Returning))
                } else {
                    None
                },
                _ => None,
            }
        }
    }

    /// What the phase of the team asks of a midfielder without the ball.
    #[verifier::when_used_as_spec(spec_phase_dispatch)]
    pub fn phase_dispatch(&self, ctx: &StateProcessingContext) -> (r: Option<StateChangeResult>)
        ensures
            r == self.spec_phase_dispatch(ctx),
    {
        if ctx.player.has_ball {
            return None;
        }
        match ctx.team.phase {
            GamePhase::DefensiveTransition => if ctx.ball.distance < units(45)
                && ctx.team.best_player_to_chase_ball {
                Some(with_midfielder_state(MidfielderState::Pressing))
            } else if ctx.ball.distance > units(80) {
                Some(with_midfielder_state(MidfielderState::Returning))
            } else {
                None
            },
            GamePhase::AttackingTransition => if ctx.ball.distance_to_opponent_goal > units(40) {
                Some(with_midfielder_state(MidfielderState::AttackSupporting))
            } else {
                None
            },
            GamePhase::HighPress => if ctx.ball.distance < units(70)
                && ctx.team.best_player_to_chase_ball {
                Some(with_midfielder_state(MidfielderState::Pressing))
            } else {
                None
            },
            GamePhase::LowBlock => if ctx.ball.distance > units(50) {
                Some(with_midfielder_state(MidfielderState::Returning))
            } else {
                None
            },
            _ => None,
        }
    }

    pub open spec fn spec_with_ball(
        &self,
        ctx: &StateProcessingContext,
    ) -> Option<StateChangeResult> {
        if ctx.ball.team_attacking_corner {
            Some(with_midfielder_state(MidfielderState::Crossing))
        } else if self.snapshot(ctx) {
            Some(
                with_midfielder_state(
                    MidfielderState::Shooting,
                ).with_shot_reason("MID_SNAPSHOT_PRESSED"),
            )
        } else if ctx.player.under_heavy_pressure
            && ctx.ball.distance_to_own_goal < ctx.width() * milli(180) {
            Some(with_midfielder_state(MidfielderState::Passing))
        } else {
            match self.shot(ctx) {
                Some(result) => {
                    Some(result)
                },
                None => {
                    if self.holds_the_ball(ctx) {
                        None
                    } else if self.is_patient(ctx) {
                        self.patient_pass(ctx)
                    } else {
                        match self.escape_congestion(ctx) {
                            Some(result) => {
                                Some(result)
                            },
                            None => {
                                if self.carries_on(ctx) {
                                    None
                                } else {
                                    match self.play_on(ctx) {
                                        Some(result) => {
                                            Some(result)
                                        },
                                        None => {
                                            self.after_hesitation(ctx)
                                        },
                                    }
                                }
                            },
                        }
                    }
                },
            }
        }
    }

    /// The decisions of a midfielder with the ball.
    #[verifier::when_used_as_spec(spec_with_ball)]
    pub fn with_ball(&self, ctx: &StateProcessingContext) -> (r: Option<StateChangeResult>)
        ensures
            r == self.spec_with_ball(ctx),
    {
        if ctx.ball.team_attacking_corner {
            return Some(with_midfielder_state(MidfielderState::Crossing));
        }
        if self.snapshot(ctx) {
            return Some(
                with_midfielder_state(
                    MidfielderState::Shooting,
                ).with_shot_reason("MID_SNAPSHOT_PRESSED"),
            );
        }
        if ctx.player.under_heavy_pressure
            && ctx.ball.distance_to_own_goal < ctx.width() * milli(180) {
            return Some(with_midfielder_state(MidfielderState::Passing));
        }
        match self.shot(ctx) {
            Some(result) => {
                return Some(result);
            },
            None => {},
        }
        if self.holds_the_ball(ctx) {
            return None;
        }
        if self.is_patient(ctx) {
            return self.patient_pass(ctx);
        }
        match self.escape_congestion(ctx) {
            Some(result) => {
                return Some(result);
            },
            None => {},
        }
        if self.carries_on(ctx) {
            return None;
        }
        match self.play_on(ctx) {
            Some(result) => {
                return Some(result);
            },
            None => {},
        }
        self.after_hesitation(ctx)
    }

    pub open spec fn spec_snapshot(&self, ctx: &StateProcessingContext) -> bool {
        ctx.team.can_shoot && ctx.in_state_time < 8
            && ctx.ball.distance_to_opponent_goal < units(60)
        && match scan::least_where(
            ctx.opponents@,
            |o: MatchPlayerLite| o.distance <= units(10),
            |o: MatchPlayerLite| o.distance,
        ) {
            Some(threat) => ctx.player.skills.technical.first_touch
            < threat.skills.technical.tackling - milli(500),
            None => false,
        }
    }

    /// A shot at once: just on the ball near the goal, with a tackler at hand who is better at
    /// tackling than the midfielder at the first touch.
    #[verifier::when_used_as_spec(spec_snapshot)]
    pub fn snapshot(&self, ctx: &StateProcessingContext) -> (r: bool)
        ensures
            r == self.spec_snapshot(ctx),
    {
        ctx.team.can_shoot && ctx.in_state_time < 8
            && ctx.ball.distance_to_opponent_goal < units(60)
        && match scan::least_of(
            &ctx.opponents,
            |o: MatchPlayerLite| -> (b: bool)
                ensures b == (o.distance <= units(10))
            {
                o.distance <= units(10)
            },
            |o: MatchPlayerLite| -> (b: Scalar)
                ensures b == (o.distance)
            {
                o.distance
            },
            Ghost(|o: MatchPlayerLite| o.distance <= units(10)),
            Ghost(|o: MatchPlayerLite| o.distance),
        ) {
            Some(threat) => ctx.player.skills.technical.first_touch
            < threat.skills.technical.tackling - milli(500),
            None => false,
        }
    }

    pub open spec fn spec_is_clear_chance(&self, ctx: &StateProcessingContext) -> bool {
        ctx.ball.distance_to_opponent_goal <= standard_shooting_distance()
        && ctx.team.coach_shooting_reluctance < milli(500)
        && ctx.player.clear_shot && ctx.player.good_shooting_angle
        && ctx.player.shooting.clear_shot_xg >= milli(180)
        && ctx.player.shots_taken <= 4
    }

    /// A clear chance that nobody declines, for a player who has not shot too often yet.
    #[verifier::when_used_as_spec(spec_is_clear_chance)]
    pub fn is_clear_chance(&self, ctx: &StateProcessingContext) -> (r: bool)
        ensures
            r == self.spec_is_clear_chance(ctx),
    {
        ctx.ball.distance_to_opponent_goal <= standard_shooting_distance()
        && ctx.team.coach_shooting_reluctance < milli(500)
        && ctx.player.clear_shot && ctx.player.good_shooting_angle
        && ctx.player.shooting.clear_shot_xg >= milli(180)
        && ctx.player.shots_taken <= 4
    }

    pub open spec fn spec_shot(&self, ctx: &StateProcessingContext) -> Option<StateChangeResult> {
        if !ctx.team.can_shoot || ctx.ball.distance_to_opponent_goal > max_shooting_distance() {
            None
        } else if self.is_clear_chance(ctx) {
            Some(
                with_midfielder_state(
                    MidfielderState::Shooting,
                ).with_shot_reason("MID_CLEAR_CHANCE"),
            )
        } else {
            match ctx.evaluate_forward_shot_decision(ShotOccasion::MidfieldRun) {
                ShotDecision::Shoot { reason } => Some(
                    with_midfielder_state(self.strike(ctx)).with_shot_reason(reason),
                ),
                ShotDecision::Pass => match self.find_best_pass_option(ctx) {
                    Some(target) => Some(self.lay_off(ctx, target.id, "MID_SHOOT_LAYOFF")),
                    None => None,
                },
                ShotDecision::Hold => None,
            }
        }
    }

    /// In range: a clear chance is taken; otherwise the central rule on shots decides between a
    /// shot, a pass to a teammate who is better placed, and neither.
    #[verifier::when_used_as_spec(spec_shot)]
    pub fn shot(&self, ctx: &StateProcessingContext) -> (r: Option<StateChangeResult>)
        ensures
            r == self.spec_shot(ctx),
    {
        if !ctx.team.can_shoot || ctx.ball.distance_to_opponent_goal > max_shooting_distance() {
            return None;
        }
        if self.is_clear_chance(ctx) {
            return Some(
                with_midfielder_state(
                    MidfielderState::Shooting,
                ).with_shot_reason("MID_CLEAR_CHANCE"),
            );
        }
        match ctx.evaluate_forward_shot_decision(ShotOccasion::MidfieldRun) {
            ShotDecision::Shoot { reason } => Some(
                with_midfielder_state(self.strike(ctx)).with_shot_reason(reason),
            ),
            ShotDecision::Pass => match self.find_best_pass_option(ctx) {
                Some(target) => Some(self.lay_off(ctx, target.id, "MID_SHOOT_LAYOFF")),
                None => None,
            },
            ShotDecision::Hold => None,
        }
    }

    pub open spec fn spec_strike(&self, ctx: &StateProcessingContext) -> MidfielderState {
        if ctx.ball.distance_to_opponent_goal > standard_shooting_distance() {
            MidfielderState::DistanceShooting
        } else {
            MidfielderState::Shooting
        }
    }

    /// Beyond the ordinary range a shot is a long one.
    #[verifier::when_used_as_spec(spec_strike)]
    pub fn strike(&self, ctx: &StateProcessingContext) -> (r: MidfielderState)
        ensures
            r == self.spec_strike(ctx),
    {
        if ctx.ball.distance_to_opponent_goal > standard_shooting_distance() {
            MidfielderState::DistanceShooting
        } else {
            MidfielderState::Shooting
        }
    }

    pub open spec fn spec_lay_off(
        &self,
        ctx: &StateProcessingContext,
        to: u32,
        reason: &'static str,
    ) -> StateChangeResult {
        with_midfielder_state(MidfielderState::Standing).with_event(
            pass_to(ctx.player.id, to, reason),
        )
    }

    /// The midfielder passes to a teammate and stands.
    #[verifier::when_used_as_spec(spec_lay_off)]
    pub fn lay_off(
        &self,
        ctx: &StateProcessingContext,
        to: u32,
        reason: &'static str,
    ) -> (r: StateChangeResult)
        ensures
            r == self.spec_lay_off(ctx, to, reason),
    {
        with_midfielder_state(MidfielderState::Standing).with_event(
            pass_to(ctx.player.id, to, reason),
        )
    }

    pub open spec fn spec_pass(
        &self,
        ctx: &StateProcessingContext,
        to: u32,
        reason: &'static str,
    ) -> StateChangeResult {
        with_midfielder_state(MidfielderState::Running).with_event(
            pass_to(ctx.player.id, to, reason),
        )
    }

    /// The midfielder passes to a teammate and runs on.
    #[verifier::when_used_as_spec(spec_pass)]
    pub fn pass(
        &self,
        ctx: &StateProcessingContext,
        to: u32,
        reason: &'static str,
    ) -> (r: StateChangeResult)
        ensures
            r == self.spec_pass(ctx, to, reason),
    {
        with_midfielder_state(MidfielderState::Running).with_event(
            pass_to(ctx.player.id, to, reason),
        )
    }

    pub open spec fn spec_holds_the_ball(&self, ctx: &StateProcessingContext) -> bool {
        ctx.team.coach_prefers_possession
            && ctx.ball.distance_to_opponent_goal > point_blank_distance()
        && !ctx.team.counter_window
        && ctx.ball.ownership_duration < ctx.team.coach_min_possession_ticks
    }

    /// The coach wants possession, the goal is not close, no counter-attack is on, and the ball
    /// was not yet kept for long.
    #[verifier::when_used_as_spec(spec_holds_the_ball)]
    pub fn holds_the_ball(&self, ctx: &StateProcessingContext) -> (r: bool)
        ensures
            r == self.spec_holds_the_ball(ctx),
    {
        ctx.team.coach_prefers_possession
            && ctx.ball.distance_to_opponent_goal > point_blank_distance()
        && !ctx.team.counter_window
        && ctx.ball.ownership_duration < ctx.team.coach_min_possession_ticks
    }

    pub open spec fn spec_is_patient(&self, ctx: &StateProcessingContext) -> bool {
        !ctx.opponent_exists(units(15)) && ctx.ball.distance_to_opponent_goal > units(70)
        && ctx.ball.ownership_duration > 8 && ctx.team.should_play_possession
    }

    /// No pressure, away from the goal, in a spell of possession.
    #[verifier::when_used_as_spec(spec_is_patient)]
    pub fn is_patient(&self, ctx: &StateProcessingContext) -> (r: bool)
        ensures
            r == self.spec_is_patient(ctx),
    {
        !ctx.opponent_exists(units(15)) && ctx.ball.distance_to_opponent_goal > units(70)
        && ctx.ball.ownership_duration > 8 && ctx.team.should_play_possession
    }

    pub open spec fn spec_patient_pass(
        &self,
        ctx: &StateProcessingContext,
    ) -> Option<StateChangeResult> {
        match self.find_best_pass_option(ctx) {
            Some(target) => if aligned_below(
                target.position - ctx.player.position,
                ctx.to_goal(),
                milli(400),
            )
            && ctx.opponents_around(target.position, units(10)) < 2 {
                Some(self.lay_off(ctx, target.id, "MID_PATIENT_POSSESSION"))
            } else {
                None
            },
            None => None,
        }
    }

    /// A pass to the side or behind to a free teammate, else the ball is kept.
    #[verifier::when_used_as_spec(spec_patient_pass)]
    pub fn patient_pass(&self, ctx: &StateProcessingContext) -> (r: Option<StateChangeResult>)
        ensures
            r == self.spec_patient_pass(ctx),
    {
        match self.find_best_pass_option(ctx) {
            Some(target) => if aligned_below(
                target.position - ctx.player.position,
                ctx.to_goal(),
                milli(400),
            )
            && ctx.opponents_around(target.position, units(10)) < 2 {
                Some(self.lay_off(ctx, target.id, "MID_PATIENT_POSSESSION"))
            } else {
                None
            },
            None => None,
        }
    }

    pub open spec fn spec_is_boxed_in(&self, ctx: &StateProcessingContext) -> bool {
        (self.is_congested_near_boundary(ctx) || ctx.player.congested) && ctx.in_state_time > 20
        && ctx.ball.ownership_duration > 15
    }

    /// Boxed in for a while.
    #[verifier::when_used_as_spec(spec_is_boxed_in)]
    pub fn is_boxed_in(&self, ctx: &StateProcessingContext) -> (r: bool)
        ensures
            r == self.spec_is_boxed_in(ctx),
    {
        (self.is_congested_near_boundary(ctx) || ctx.player.congested) && ctx.in_state_time > 20
        && ctx.ball.ownership_duration > 15
    }

    pub open spec fn spec_escape_congestion(
        &self,
        ctx: &StateProcessingContext,
    ) -> Option<StateChangeResult> {
        if !self.is_boxed_in(ctx) {
            None
        } else {
            match self.far_pass_option(ctx) {
                Some(target) => Some(
                    self.lay_off(ctx, target.id, "MID_RUNNING_EMERGENCY_CLEARANCE_BEST"),
                ),
                None => match self.furthest_outlet(ctx) {
                    Some(target) => Some(
                        self.lay_off(ctx, target.id, "MID_RUNNING_EMERGENCY_CLEARANCE_NEARBY"),
                    ),
                    None => None,
                },
            }
        }
    }

    /// Boxed in: a pass out of the crowd, the best one if it goes far enough, else the furthest.
    #[verifier::when_used_as_spec(spec_escape_congestion)]
    pub fn escape_congestion(
        &self,
        ctx: &StateProcessingContext,
    ) -> (r: Option<StateChangeResult>)
        ensures
            r == self.spec_escape_congestion(ctx),
    {
        if !self.is_boxed_in(ctx) {
            return None;
        }
        match self.far_pass_option(ctx) {
            Some(target) => Some(
                self.lay_off(ctx, target.id, "MID_RUNNING_EMERGENCY_CLEARANCE_BEST"),
            ),
            None => match self.furthest_outlet(ctx) {
                Some(target) => Some(
                    self.lay_off(ctx, target.id, "MID_RUNNING_EMERGENCY_CLEARANCE_NEARBY"),
                ),
                None => None,
            },
        }
    }

    pub open spec fn spec_far_pass_option(
        &self,
        ctx: &StateProcessingContext,
    ) -> Option<MatchPlayerLite> {
        match self.find_best_pass_option(ctx) {
            Some(target) => if (target.position - ctx.player.position).magnitude() > units(40) {
                Some(target)
            } else {
                None
            },
            None => None,
        }
    }

    /// The best receiver, where the pass goes far enough to leave the crowd.
    #[verifier::when_used_as_spec(spec_far_pass_option)]
    pub fn far_pass_option(&self, ctx: &StateProcessingContext) -> (r: Option<MatchPlayerLite>)
        ensures
            r == self.spec_far_pass_option(ctx),
    {
        match self.find_best_pass_option(ctx) {
            Some(target) => if (target.position - ctx.player.position).magnitude() > units(40) {
                Some(target)
            } else {
                None
            },
            None => None,
        }
    }

    pub open spec fn spec_furthest_outlet(
        &self,
        ctx: &StateProcessingContext,
    ) -> Option<MatchPlayerLite> {
        scan::greatest_where(
            ctx.teammates@,
            |t: MatchPlayerLite| t.distance <= units(200) && self.is_outlet(ctx, t),
            |t: MatchPlayerLite| (t.position - ctx.player.position).magnitude(),
        )
    }

    /// The furthest free teammate outside the crowd who did not pass the ball just now.
    #[verifier::when_used_as_spec(spec_furthest_outlet)]
    pub fn furthest_outlet(&self, ctx: &StateProcessingContext) -> (r: Option<MatchPlayerLite>)
        ensures
            r == self.spec_furthest_outlet(ctx),
    {
        scan::greatest_of(
            &ctx.teammates,
            |t: MatchPlayerLite| -> (b: bool)
                ensures b == (t.distance <= units(200) && self.is_outlet(ctx, t))
            {
                t.distance <= units(200) && self.is_outlet(ctx, t)
            },
            |t: MatchPlayerLite| -> (b: Scalar)
                ensures b == ((t.position - ctx.player.position).magnitude())
            {
                (t.position - ctx.player.position).magnitude()
            },
            Ghost(|t: MatchPlayerLite| t.distance <= units(200) && self.is_outlet(ctx, t)),
            Ghost(|t: MatchPlayerLite| (t.position - ctx.player.position).magnitude()),
        )
    }

    pub open spec fn spec_is_outlet(
        &self,
        ctx: &StateProcessingContext,
        t: MatchPlayerLite,
    ) -> bool {
        (t.position - ctx.player.position).magnitude() > units(40)
            && t.recency_penalty > milli(300)
        && ctx.opponents_around(t.position, units(15)) < 2
    }

    #[verifier::when_used_as_spec(spec_is_outlet)]
    pub fn is_outlet(&self, ctx: &StateProcessingContext, t: MatchPlayerLite) -> (r: bool)
        ensures
            r == self.spec_is_outlet(ctx, t),
    {
        (t.position - ctx.player.position).magnitude() > units(40)
            && t.recency_penalty > milli(300)
        && ctx.opponents_around(t.position, units(15)) < 2
    }

    pub open spec fn spec_carries_on(&self, ctx: &StateProcessingContext) -> bool {
        ctx.ball.distance_to_opponent_goal > point_blank_distance()
        && ctx.ball.distance_to_opponent_goal < ctx.width() * milli(450)
        && self.has_open_space_ahead(ctx) && ctx.player.midfield.allows_carry_into_space
    }

    /// An open way to the goal, and the skill to carry the ball along it.
    #[verifier::when_used_as_spec(spec_carries_on)]
    pub fn carries_on(&self, ctx: &StateProcessingContext) -> (r: bool)
        ensures
            r == self.spec_carries_on(ctx),
    {
        ctx.ball.distance_to_opponent_goal > point_blank_distance()
        && ctx.ball.distance_to_opponent_goal < ctx.width() * milli(450)
        && self.has_open_space_ahead(ctx) && ctx.player.midfield.allows_carry_into_space
    }

    pub open spec fn spec_play_on(
        &self,
        ctx: &StateProcessingContext,
    ) -> Option<StateChangeResult> {
        if self.takes_on(ctx) {
            Some(with_midfielder_state(MidfielderState::Dribbling))
        } else {
            match self.combination(ctx) {
                Some(result) => {
                    Some(result)
                },
                None => {
                    match self.cutback(ctx) {
                        Some(result) => {
                            Some(result)
                        },
                        None => {
                            if ctx.ball.ownership_duration > 20 && ctx.ball.stable_possession
                                && self.should_cross(ctx) {
                                Some(with_midfielder_state(MidfielderState::Crossing))
                            } else if ctx.ball.ownership_duration > 20
                                && ctx.ball.stable_possession && self.should_switch(ctx)
                            && ctx.player.midfield.allows_switch_play {
                                Some(with_midfielder_state(MidfielderState::SwitchingPlay))
                            } else {
                                self.circulate(ctx)
                            }
                        },
                    }
                },
            }
        }
    }

    /// What a midfielder does with the ball who neither shoots nor carries it on.
    #[verifier::when_used_as_spec(spec_play_on)]
    pub fn play_on(&self, ctx: &StateProcessingContext) -> (r: Option<StateChangeResult>)
        ensures
            r == self.spec_play_on(ctx),
    {
        if self.takes_on(ctx) {
            return Some(with_midfielder_state(MidfielderState::Dribbling));
        }
        match self.combination(ctx) {
            Some(result) => {
                return Some(result);
            },
            None => {},
        }
        match self.cutback(ctx) {
            Some(result) => {
                return Some(result);
            },
            None => {},
        }
        if ctx.ball.ownership_duration > 20 && ctx.ball.stable_possession
            && self.should_cross(ctx) {
            return Some(with_midfielder_state(MidfielderState::Crossing));
        }
        if ctx.ball.ownership_duration > 20 && ctx.ball.stable_possession
            && self.should_switch(ctx)
        && ctx.player.midfield.allows_switch_play {
            return Some(with_midfielder_state(MidfielderState::SwitchingPlay));
        }
        self.circulate(ctx)
    }

    pub open spec fn spec_opponents_ahead(&self, ctx: &StateProcessingContext) -> usize {
        scan::count_where(
            ctx.opponents@,
            |o: MatchPlayerLite|
                o.distance <= units(40)
                    && aligned_above(o.position - ctx.player.position, ctx.to_goal(), milli(300))
                    && (o.position - ctx.player.position).norm_squared() < units(1225),
        )
    }

    /// How many opponents close by stand in the way to the goal.
    #[verifier::when_used_as_spec(spec_opponents_ahead)]
    pub fn opponents_ahead(&self, ctx: &StateProcessingContext) -> (r: usize)
        ensures
            r == self.spec_opponents_ahead(ctx),
    {
        scan::count_if(
            &ctx.opponents,
            |o: MatchPlayerLite| -> (b: bool)
                ensures b == (
                    o.distance <= units(40)
                        && aligned_above(
                            o.position - ctx.player.position,
                            ctx.to_goal(),
                            milli(300),
                        )
                        && (o.position - ctx.player.position).norm_squared() < units(1225)
                )
            {
                o.distance <= units(40)
                    && aligned_above(o.position - ctx.player.position, ctx.to_goal(), milli(300))
                    && (o.position - ctx.player.position).norm_squared() < units(1225)
            },
            Ghost(
                |o: MatchPlayerLite|
                    o.distance <= units(40)
                        && aligned_above(
                            o.position - ctx.player.position,
                            ctx.to_goal(),
                            milli(300),
                        )
                        && (o.position - ctx.player.position).norm_squared() < units(1225),
            ),
        )
    }

    pub open spec fn spec_dares_to_dribble(&self, ctx: &StateProcessingContext) -> bool {
        let ahead: usize = self.opponents_ahead(ctx);
        if ahead == 0 {
            false
        } else if ctx.player.midfield.allows_take_on_two {
            ahead <= 2
        } else if ctx.player.midfield.allows_take_on_one {
            ahead == 1
        } else {
            false
        }
    }

    /// Opponents stand in the way, no more than the midfielder has the skill to pass.
    #[verifier::when_used_as_spec(spec_dares_to_dribble)]
    pub fn dares_to_dribble(&self, ctx: &StateProcessingContext) -> (r: bool)
        ensures
            r == self.spec_dares_to_dribble(ctx),
    {
        let ahead: usize = self.opponents_ahead(ctx);
        if ahead == 0 {
            false
        } else if ctx.player.midfield.allows_take_on_two {
            ahead <= 2
        } else if ctx.player.midfield.allows_take_on_one {
            ahead == 1
        } else {
            false
        }
    }

    pub open spec fn spec_takes_on(&self, ctx: &StateProcessingContext) -> bool {
        ctx.ball.ownership_duration > 5 && ctx.ball.ownership_duration < 60
            && self.dares_to_dribble(ctx)
        && ctx.ball.distance_to_opponent_goal < ctx.width() * milli(750)
    }

    /// Soon after getting the ball, outside the own quarter, with opponents to pass.
    #[verifier::when_used_as_spec(spec_takes_on)]
    pub fn takes_on(&self, ctx: &StateProcessingContext) -> (r: bool)
        ensures
            r == self.spec_takes_on(ctx),
    {
        ctx.ball.ownership_duration > 5 && ctx.ball.ownership_duration < 60
            && self.dares_to_dribble(ctx)
        && ctx.ball.distance_to_opponent_goal < ctx.width() * milli(750)
    }

    pub open spec fn spec_combination(
        &self,
        ctx: &StateProcessingContext,
    ) -> Option<StateChangeResult> {
        match self.counter_attack(ctx) {
            Some(result) => {
                Some(result)
            },
            None => {
                match self.one_two(ctx) {
                    Some(result) => {
                        Some(result)
                    },
                    None => {
                        self.draw_and_release(ctx)
                    },
                }
            },
        }
    }

    /// A pass into a counter-attack, back to the passer, or to where an opponent has left.
    #[verifier::when_used_as_spec(spec_combination)]
    pub fn combination(&self, ctx: &StateProcessingContext) -> (r: Option<StateChangeResult>)
        ensures
            r == self.spec_combination(ctx),
    {
        match self.counter_attack(ctx) {
            Some(result) => {
                return Some(result);
            },
            None => {},
        }
        match self.one_two(ctx) {
            Some(result) => {
                return Some(result);
            },
            None => {},
        }
        self.draw_and_release(ctx)
    }

    pub open spec fn spec_counter_attack(
        &self,
        ctx: &StateProcessingContext,
    ) -> Option<StateChangeResult> {
        if ctx.ball.ownership_duration > 8 && ctx.ball.stable_possession
            && self.is_counter_attack_opportunity(ctx) {
            match self.find_counter_attack_pass(ctx) {
                Some(target) => Some(self.pass(ctx, target.id, "MID_RUNNING_COUNTER_ATTACK")),
                None => None,
            }
        } else {
            None
        }
    }

    /// Right after the ball is won: up the pitch before the opponents are back.
    #[verifier::when_used_as_spec(spec_counter_attack)]
    pub fn counter_attack(&self, ctx: &StateProcessingContext) -> (r: Option<StateChangeResult>)
        ensures
            r == self.spec_counter_attack(ctx),
    {
        if ctx.ball.ownership_duration > 8 && ctx.ball.stable_possession
            && self.is_counter_attack_opportunity(ctx) {
            match self.find_counter_attack_pass(ctx) {
                Some(target) => Some(self.pass(ctx, target.id, "MID_RUNNING_COUNTER_ATTACK")),
                None => None,
            }
        } else {
            None
        }
    }

    pub open spec fn spec_one_two(
        &self,
        ctx: &StateProcessingContext,
    ) -> Option<StateChangeResult> {
        if ctx.ball.ownership_duration >= 10 && ctx.ball.ownership_duration <= 30
            && ctx.ball.stable_possession {
            match self.find_one_two_return(ctx) {
                Some(target) => Some(self.pass(ctx, target.id, "MID_RUNNING_ONE_TWO_RETURN")),
                None => None,
            }
        } else {
            None
        }
    }

    /// Soon after a pass: back to the passer who ran on.
    #[verifier::when_used_as_spec(spec_one_two)]
    pub fn one_two(&self, ctx: &StateProcessingContext) -> (r: Option<StateChangeResult>)
        ensures
            r == self.spec_one_two(ctx),
    {
        if ctx.ball.ownership_duration >= 10 && ctx.ball.ownership_duration <= 30
            && ctx.ball.stable_possession {
            match self.find_one_two_return(ctx) {
                Some(target) => Some(self.pass(ctx, target.id, "MID_RUNNING_ONE_TWO_RETURN")),
                None => None,
            }
        } else {
            None
        }
    }

    pub open spec fn spec_draw_and_release(
        &self,
        ctx: &StateProcessingContext,
    ) -> Option<StateChangeResult> {
        if ctx.ball.ownership_duration > 30 && ctx.ball.stable_possession {
            match self.find_draw_and_release_pass(ctx) {
                Some(target) => Some(self.pass(ctx, target.id, "MID_RUNNING_DRAW_AND_RELEASE")),
                None => None,
            }
        } else {
            None
        }
    }

    /// A pass to a teammate near the space that an opponent has left.
    #[verifier::when_used_as_spec(spec_draw_and_release)]
    pub fn draw_and_release(&self, ctx: &StateProcessingContext) -> (r: Option<StateChangeResult>)
        ensures
            r == self.spec_draw_and_release(ctx),
    {
        if ctx.ball.ownership_duration > 30 && ctx.ball.stable_possession {
            match self.find_draw_and_release_pass(ctx) {
                Some(target) => Some(self.pass(ctx, target.id, "MID_RUNNING_DRAW_AND_RELEASE")),
                None => None,
            }
        } else {
            None
        }
    }

    pub open spec fn spec_cutback(
        &self,
        ctx: &StateProcessingContext,
    ) -> Option<StateChangeResult> {
        if ctx.ball.ownership_duration > 12 && ctx.ball.stable_possession
        && (ctx.goal().x - ctx.player.position.x).abs() < units(90)
        && (ctx.player.position.y - ctx.height() / units(2)).abs() > ctx.height() * milli(150) {
            match ctx.cutback_runner {
                Some(runner) => Some(self.lay_off(ctx, runner, "MID_CUTBACK_TO_RUNNER")),
                None => None,
            }
        } else {
            None
        }
    }

    /// Near the byline and off the centre, the runner who arrives in the box gets the ball.
    #[verifier::when_used_as_spec(spec_cutback)]
    pub fn cutback(&self, ctx: &StateProcessingContext) -> (r: Option<StateChangeResult>)
        ensures
            r == self.spec_cutback(ctx),
    {
        if ctx.ball.ownership_duration > 12 && ctx.ball.stable_possession
        && (ctx.goal().x - ctx.player.position.x).abs() < units(90)
        && (ctx.player.position.y - ctx.height() / units(2)).abs() > ctx.height() * milli(150) {
            match ctx.cutback_runner {
                Some(runner) => Some(self.lay_off(ctx, runner, "MID_CUTBACK_TO_RUNNER")),
                None => None,
            }
        } else {
            None
        }
    }

    pub open spec fn spec_should_switch(&self, ctx: &StateProcessingContext) -> bool {
        scan::count_where(
            ctx.teammates@,
            |t: MatchPlayerLite|
                (t.position.y > ctx.height() / units(2)) == (
                    ctx.player.position.y > ctx.height() / units(2)
                ),
        ) >= 3
        || ctx.player.congested
    }

    /// Many teammates are on the midfielder's half of the pitch, or it is crowded.
    #[verifier::when_used_as_spec(spec_should_switch)]
    pub fn should_switch(&self, ctx: &StateProcessingContext) -> (r: bool)
        ensures
            r == self.spec_should_switch(ctx),
    {
        scan::count_if(
            &ctx.teammates,
            |t: MatchPlayerLite| -> (b: bool)
                ensures b == (
                    (t.position.y > ctx.height() / units(2)) == (
                        ctx.player.position.y > ctx.height() / units(2)
                    )
                )
            {
                (t.position.y > ctx.height() / units(2)) == (
                    ctx.player.position.y > ctx.height() / units(2)
                )
            },
            Ghost(
                |t: MatchPlayerLite|
                    (t.position.y > ctx.height() / units(2)) == (
                        ctx.player.position.y > ctx.height() / units(2)
                    ),
            ),
        ) >= 3
        || ctx.player.congested
    }

    pub open spec fn spec_circulate(
        &self,
        ctx: &StateProcessingContext,
    ) -> Option<StateChangeResult> {
        match self.pass_back(ctx) {
            Some(result) => {
                Some(result)
            },
            None => {
                self.due_pass(ctx)
            },
        }
    }

    /// A pass back for a coach who wants possession, else the best pass where one is due.
    #[verifier::when_used_as_spec(spec_circulate)]
    pub fn circulate(&self, ctx: &StateProcessingContext) -> (r: Option<StateChangeResult>)
        ensures
            r == self.spec_circulate(ctx),
    {
        match self.pass_back(ctx) {
            Some(result) => {
                return Some(result);
            },
            None => {},
        }
        self.due_pass(ctx)
    }

    pub open spec fn spec_pass_back(
        &self,
        ctx: &StateProcessingContext,
    ) -> Option<StateChangeResult> {
        if ctx.team.coach_prefers_possession
            && ctx.ball.ownership_duration > ctx.team.coach_min_possession_ticks
        && ctx.ball.stable_possession {
            match self.find_safe_backward_pass(ctx) {
                Some(target) => Some(self.lay_off(ctx, target.id, "MID_COACH_TEMPO_PASS_BACK")),
                None => None,
            }
        } else {
            None
        }
    }

    /// The coach wants possession and the ball was kept for long enough: back to a safe
    /// teammate.
    #[verifier::when_used_as_spec(spec_pass_back)]
    pub fn pass_back(&self, ctx: &StateProcessingContext) -> (r: Option<StateChangeResult>)
        ensures
            r == self.spec_pass_back(ctx),
    {
        if ctx.team.coach_prefers_possession
            && ctx.ball.ownership_duration > ctx.team.coach_min_possession_ticks
        && ctx.ball.stable_possession {
            match self.find_safe_backward_pass(ctx) {
                Some(target) => Some(self.lay_off(ctx, target.id, "MID_COACH_TEMPO_PASS_BACK")),
                None => None,
            }
        } else {
            None
        }
    }

    pub open spec fn spec_due_pass(
        &self,
        ctx: &StateProcessingContext,
    ) -> Option<StateChangeResult> {
        if ctx.ball.ownership_duration > 15 && ctx.ball.stable_possession
            && self.should_pass(ctx) {
            match self.find_best_pass_option(ctx) {
                Some(target) => Some(self.pass(ctx, target.id, "MID_RUNNING_SHOULD_PASS")),
                None => None,
            }
        } else {
            None
        }
    }

    /// The best pass, where one is due.
    #[verifier::when_used_as_spec(spec_due_pass)]
    pub fn due_pass(&self, ctx: &StateProcessingContext) -> (r: Option<StateChangeResult>)
        ensures
            r == self.spec_due_pass(ctx),
    {
        if ctx.ball.ownership_duration > 15 && ctx.ball.stable_possession
            && self.should_pass(ctx) {
            match self.find_best_pass_option(ctx) {
                Some(target) => Some(self.pass(ctx, target.id, "MID_RUNNING_SHOULD_PASS")),
                None => None,
            }
        } else {
            None
        }
    }

    pub open spec fn spec_patience(&self, ctx: &StateProcessingContext) -> u64 {
        if self.should_retain_possession(ctx) {
            250
        } else {
            150
        }
    }

    /// How long a midfielder hesitates on the ball, longer in a spell of possession.
    #[verifier::when_used_as_spec(spec_patience)]
    pub fn patience(&self, ctx: &StateProcessingContext) -> (r: u64)
        ensures
            r == self.spec_patience(ctx),
    {
        if self.should_retain_possession(ctx) { 250 } else { 150 }
    }

    pub open spec fn spec_after_hesitation(
        &self,
        ctx: &StateProcessingContext,
    ) -> Option<StateChangeResult> {
        if ctx.in_state_time <= self.patience(ctx) {
            None
        } else {
            match self.find_best_pass_option(ctx) {
                Some(target) => {
                    Some(self.pass(ctx, target.id, "MID_RUNNING_ANTI_OSCILLATION"))
                },
                None => {
                    match self.hesitation_shot(ctx) {
                        Some(result) => {
                            Some(result)
                        },
                        None => {
                            match self.teammate_ahead(ctx) {
                                Some(target) => {
                                    Some(
                                        self.pass(
                                            ctx,
                                            target.id,
                                            "MID_RUNNING_ANTI_OSCILLATION_FALLBACK",
                                        ),
                                    )
                                },
                                None => {
                                    match self.any_teammate(ctx) {
                                        Some(target) => Some(
                                            self.pass(
                                                ctx,
                                                target.id,
                                                "MID_RUNNING_ANTI_OSCILLATION_FALLBACK_ANY",
                                            ),
                                        ),
                                        None => None,
                                    }
                                },
                            }
                        },
                    }
                },
            }
        }
    }

    /// After too long on the ball something has to happen: a pass, a shot, or any pass at all.
    #[verifier::when_used_as_spec(spec_after_hesitation)]
    pub fn after_hesitation(&self, ctx: &StateProcessingContext) -> (r: Option<StateChangeResult>)
        ensures
            r == self.spec_after_hesitation(ctx),
    {
        if ctx.in_state_time <= self.patience(ctx) {
            return None;
        }
        match self.find_best_pass_option(ctx) {
            Some(target) => {
                return Some(self.pass(ctx, target.id, "MID_RUNNING_ANTI_OSCILLATION"));
            },
            None => {},
        }
        match self.hesitation_shot(ctx) {
            Some(result) => {
                return Some(result);
            },
            None => {},
        }
        match self.teammate_ahead(ctx) {
            Some(target) => {
                return Some(self.pass(ctx, target.id, "MID_RUNNING_ANTI_OSCILLATION_FALLBACK"));
            },
            None => {},
        }
        match self.any_teammate(ctx) {
            Some(target) => Some(
                self.pass(ctx, target.id, "MID_RUNNING_ANTI_OSCILLATION_FALLBACK_ANY"),
            ),
            None => None,
        }
    }

    pub open spec fn spec_teammate_ahead(
        &self,
        ctx: &StateProcessingContext,
    ) -> Option<MatchPlayerLite> {
        scan::first_where(
            ctx.teammates@,
            |t: MatchPlayerLite|
                t.distance <= units(200)
                    && aligned_above(t.position - ctx.player.position, ctx.to_goal(), units(0)),
        )
    }

    /// The first teammate in range who is further up.
    #[verifier::when_used_as_spec(spec_teammate_ahead)]
    pub fn teammate_ahead(&self, ctx: &StateProcessingContext) -> (r: Option<MatchPlayerLite>)
        ensures
            r == self.spec_teammate_ahead(ctx),
    {
        scan::first_of(
            &ctx.teammates,
            |t: MatchPlayerLite| -> (b: bool)
                ensures b == (
                    t.distance <= units(200)
                        && aligned_above(t.position - ctx.player.position, ctx.to_goal(), units(0))
                )
            {
                t.distance <= units(200)
                    && aligned_above(t.position - ctx.player.position, ctx.to_goal(), units(0))
            },
            Ghost(
                |t: MatchPlayerLite|
                    t.distance <= units(200)
                        && aligned_above(
                            t.position - ctx.player.position,
                            ctx.to_goal(),
                            units(0),
                        ),
            ),
        )
    }

    pub open spec fn spec_any_teammate(
        &self,
        ctx: &StateProcessingContext,
    ) -> Option<MatchPlayerLite> {
        scan::first_where(ctx.teammates@, |t: MatchPlayerLite| t.distance <= units(200))
    }

    /// The first teammate in range.
    #[verifier::when_used_as_spec(spec_any_teammate)]
    pub fn any_teammate(&self, ctx: &StateProcessingContext) -> (r: Option<MatchPlayerLite>)
        ensures
            r == self.spec_any_teammate(ctx),
    {
        scan::first_of(
            &ctx.teammates,
            |t: MatchPlayerLite| -> (b: bool)
                ensures b == (t.distance <= units(200))
            {
                t.distance <= units(200)
            },
            Ghost(|t: MatchPlayerLite| t.distance <= units(200)),
        )
    }

    pub open spec fn spec_hesitation_shot(
        &self,
        ctx: &StateProcessingContext,
    ) -> Option<StateChangeResult> {
        match self.playmaker_shot(ctx) {
            Some(result) => Some(result),
            None => if ctx.ball.distance_to_opponent_goal < units(25) && ctx.player.clear_shot
            && ctx.player.midfield.mid_shot_selection >= milli(400) {
                Some(
                    with_midfielder_state(MidfielderState::Shooting).with_shot_reason(
                        "MID_RUN_ANTI_OSCILLATION",
                    ),
                )
            } else {
                None
            },
        }
    }

    /// A shot of a playmaker by the central rule, or from close by of those who can.
    #[verifier::when_used_as_spec(spec_hesitation_shot)]
    pub fn hesitation_shot(&self, ctx: &StateProcessingContext) -> (r: Option<StateChangeResult>)
        ensures
            r == self.spec_hesitation_shot(ctx),
    {
        match self.playmaker_shot(ctx) {
            Some(result) => Some(result),
            None => if ctx.ball.distance_to_opponent_goal < units(25) && ctx.player.clear_shot
            && ctx.player.midfield.mid_shot_selection >= milli(400) {
                Some(
                    with_midfielder_state(MidfielderState::Shooting).with_shot_reason(
                        "MID_RUN_ANTI_OSCILLATION",
                    ),
                )
            } else {
                None
            },
        }
    }

    pub open spec fn spec_playmaker_shot(
        &self,
        ctx: &StateProcessingContext,
    ) -> Option<StateChangeResult> {
        if !ctx.player.tactical_position.is_attacking_midfielder() {
            None
        } else {
            match ctx.evaluate_forward_shot_decision(ShotOccasion::MidfieldRunHesitation) {
                ShotDecision::Shoot { reason } => Some(
                    with_midfielder_state(MidfielderState::Shooting).with_shot_reason(reason),
                ),
                _ => None,
            }
        }
    }

    /// A shot of a playmaker, where the central rule says so.
    #[verifier::when_used_as_spec(spec_playmaker_shot)]
    pub fn playmaker_shot(&self, ctx: &StateProcessingContext) -> (r: Option<StateChangeResult>)
        ensures
            r == self.spec_playmaker_shot(ctx),
    {
        if !ctx.player.tactical_position.is_attacking_midfielder() {
            return None;
        }
        match ctx.evaluate_forward_shot_decision(ShotOccasion::MidfieldRunHesitation) {
            ShotDecision::Shoot { reason } => Some(
                with_midfielder_state(MidfielderState::Shooting).with_shot_reason(reason),
            ),
            _ => None,
        }
    }

    pub open spec fn spec_without_ball(
        &self,
        ctx: &StateProcessingContext,
    ) -> Option<StateChangeResult> {
        match self.chase(ctx) {
            Some(result) => {
                Some(result)
            },
            None => {
                if ctx.team.control_ball {
                    self.support(ctx)
                } else {
                    self.win_back(ctx)
                }
            },
        }
    }

    /// The decisions of a midfielder without the ball.
    #[verifier::when_used_as_spec(spec_without_ball)]
    pub fn without_ball(&self, ctx: &StateProcessingContext) -> (r: Option<StateChangeResult>)
        ensures
            r == self.spec_without_ball(ctx),
    {
        match self.chase(ctx) {
            Some(result) => {
                return Some(result);
            },
            None => {},
        }
        if ctx.team.control_ball {
            return self.support(ctx);
        }
        self.win_back(ctx)
    }

    pub open spec fn spec_chase(&self, ctx: &StateProcessingContext) -> Option<StateChangeResult> {
        match ctx.carrier_within(units(150)) {
            Some(carrier) => {
                let away = (carrier.position - ctx.player.position).magnitude();
                if away < units(30) {
                    Some(with_midfielder_state(MidfielderState::Tackling))
                } else if !ctx.team.best_player_to_chase_ball {
                    None
                } else if away < units(50) {
                    Some(with_midfielder_state(MidfielderState::Tackling))
                } else {
                    Some(with_midfielder_state(MidfielderState::Pressing))
                }
            },
            None => None,
        }
    }

    /// An opponent with the ball: a tackle close by, else only the best placed player goes.
    #[verifier::when_used_as_spec(spec_chase)]
    pub fn chase(&self, ctx: &StateProcessingContext) -> (r: Option<StateChangeResult>)
        ensures
            r == self.spec_chase(ctx),
    {
        match ctx.carrier_within(units(150)) {
            Some(carrier) => {
                let away = (carrier.position - ctx.player.position).magnitude();
                if away < units(30) {
                    Some(with_midfielder_state(MidfielderState::Tackling))
                } else if !ctx.team.best_player_to_chase_ball {
                    None
                } else if away < units(50) {
                    Some(with_midfielder_state(MidfielderState::Tackling))
                } else {
                    Some(with_midfielder_state(MidfielderState::Pressing))
                }
            },
            None => None,
        }
    }

    pub open spec fn spec_is_in_lateral_zone(&self, ctx: &StateProcessingContext) -> bool {
        (ctx.ball.position.y - ctx.player.start_position.y).abs() < units(100)
    }

    /// The ball is in the midfielder's own lane.
    #[verifier::when_used_as_spec(spec_is_in_lateral_zone)]
    pub fn is_in_lateral_zone(&self, ctx: &StateProcessingContext) -> (r: bool)
        ensures
            r == self.spec_is_in_lateral_zone(ctx),
    {
        (ctx.ball.position.y - ctx.player.start_position.y).abs() < units(100)
    }

    pub open spec fn spec_support(
        &self,
        ctx: &StateProcessingContext,
    ) -> Option<StateChangeResult> {
        if scan::count_where(ctx.teammates@, |t: MatchPlayerLite| t.distance <= units(25)) >= 2
            && ctx.ball.distance > units(30) {
            Some(with_midfielder_state(MidfielderState::CreatingSpace))
        } else if !self.is_in_lateral_zone(ctx) {
            None
        } else if ctx.ball.distance_to_opponent_goal < ctx.width() * milli(400)
            && ctx.ball.distance < units(300) {
            Some(with_midfielder_state(MidfielderState::AttackSupporting))
        } else if ctx.ball.distance > units(200) {
            Some(with_midfielder_state(MidfielderState::CreatingSpace))
        } else if ctx.in_state_time > 80 {
            Some(with_midfielder_state(MidfielderState::AttackSupporting))
        } else {
            None
        }
    }

    /// A teammate has the ball: out of a cluster, into the attack in the own lane, or in shape.
    #[verifier::when_used_as_spec(spec_support)]
    pub fn support(&self, ctx: &StateProcessingContext) -> (r: Option<StateChangeResult>)
        ensures
            r == self.spec_support(ctx),
    {
        if scan::count_if(
            &ctx.teammates,
            |t: MatchPlayerLite| -> (b: bool)
                ensures b == (t.distance <= units(25))
            {
                t.distance <= units(25)
            },
            Ghost(|t: MatchPlayerLite| t.distance <= units(25)),
        ) >= 2 && ctx.ball.distance > units(30) {
            return Some(with_midfielder_state(MidfielderState::CreatingSpace));
        }
        if !self.is_in_lateral_zone(ctx) {
            return None;
        }
        if ctx.ball.distance_to_opponent_goal < ctx.width() * milli(400)
            && ctx.ball.distance < units(300) {
            return Some(with_midfielder_state(MidfielderState::AttackSupporting));
        }
        if ctx.ball.distance > units(200) {
            return Some(with_midfielder_state(MidfielderState::CreatingSpace));
        }
        if ctx.in_state_time > 80 {
            return Some(with_midfielder_state(MidfielderState::AttackSupporting));
        }
        None
    }

    pub open spec fn spec_win_back(
        &self,
        ctx: &StateProcessingContext,
    ) -> Option<StateChangeResult> {
        if ctx.ball.distance < units(50) && !ctx.ball.is_owned
            && ctx.ball.velocity.magnitude() < units(3)
        && ctx.team.best_player_to_chase_ball {
            Some(with_midfielder_state(MidfielderState::TakeBall))
        } else if ctx.ball.should_take_immediately && ctx.team.best_player_to_chase_ball {
            Some(with_midfielder_state(MidfielderState::TakeBall))
        } else if ctx.ball.team_attacking_corner && ctx.player.corner_zone.is_some() {
            Some(with_midfielder_state(MidfielderState::CornerRun))
        } else if ctx.ball.on_own_side
            && (self.has_dangerous_runner(ctx) || ctx.ball.distance > units(100)) {
            Some(with_midfielder_state(MidfielderState::Guarding))
        } else {
            None
        }
    }

    /// Nobody of the team has the ball: a loose ball is taken, a corner attacked, a runner
    /// marked.
    #[verifier::when_used_as_spec(spec_win_back)]
    pub fn win_back(&self, ctx: &StateProcessingContext) -> (r: Option<StateChangeResult>)
        ensures
            r == self.spec_win_back(ctx),
    {
        if ctx.ball.distance < units(50) && !ctx.ball.is_owned
            && ctx.ball.velocity.magnitude() < units(3)
        && ctx.team.best_player_to_chase_ball {
            return Some(with_midfielder_state(MidfielderState::TakeBall));
        }
        if ctx.ball.should_take_immediately && ctx.team.best_player_to_chase_ball {
            return Some(with_midfielder_state(MidfielderState::TakeBall));
        }
        if ctx.ball.team_attacking_corner && ctx.player.corner_zone.is_some() {
            return Some(with_midfielder_state(MidfielderState::CornerRun));
        }
        if ctx.ball.on_own_side
            && (self.has_dangerous_runner(ctx) || ctx.ball.distance > units(100)) {
            return Some(with_midfielder_state(MidfielderState::Guarding));
        }
        None
    }

    pub open spec fn spec_has_dangerous_runner(&self, ctx: &StateProcessingContext) -> bool {
        scan::some_where(
            ctx.opponents@,
            |o: MatchPlayerLite|
                o.tactical_positions.is_forward() && self.is_dangerous_runner(ctx, o),
        )
    }

    /// A forward of the opponents nearby sprints at the own goal.
    #[verifier::when_used_as_spec(spec_has_dangerous_runner)]
    pub fn has_dangerous_runner(&self, ctx: &StateProcessingContext) -> (r: bool)
        ensures
            r == self.spec_has_dangerous_runner(ctx),
    {
        scan::any_of(
            &ctx.opponents,
            |o: MatchPlayerLite| -> (b: bool)
                ensures b == (
                    o.tactical_positions.is_forward() && self.is_dangerous_runner(ctx, o)
                )
            {
                o.tactical_positions.is_forward() && self.is_dangerous_runner(ctx, o)
            },
            Ghost(
                |o: MatchPlayerLite|
                    o.tactical_positions.is_forward() && self.is_dangerous_runner(ctx, o),
            ),
        )
    }

    pub open spec fn spec_is_dangerous_runner(
        &self,
        ctx: &StateProcessingContext,
        o: MatchPlayerLite,
    ) -> bool {
        (o.position - ctx.player.position).magnitude() <= units(60)
            && o.velocity.magnitude() >= units(2)
        && aligned_above(o.velocity, ctx.ball.direction_to_own_goal - o.position, milli(500))
    }

    #[verifier::when_used_as_spec(spec_is_dangerous_runner)]
    pub fn is_dangerous_runner(
        &self,
        ctx: &StateProcessingContext,
        o: MatchPlayerLite,
    ) -> (r: bool)
        ensures
            r == self.spec_is_dangerous_runner(ctx, o),
    {
        (o.position - ctx.player.position).magnitude() <= units(60)
            && o.velocity.magnitude() >= units(2)
        && aligned_above(o.velocity, ctx.ball.direction_to_own_goal - o.position, milli(500))
    }

    pub open spec fn spec_follows_waypoints(&self, ctx: &StateProcessingContext) -> bool {
        ctx.player.should_follow_waypoints && ctx.player.waypoint_count > 0
    }

    /// Along the waypoints where there are any.
    #[verifier::when_used_as_spec(spec_follows_waypoints)]
    pub fn follows_waypoints(&self, ctx: &StateProcessingContext) -> (r: bool)
        ensures
            r == self.spec_follows_waypoints(ctx),
    {
        ctx.player.should_follow_waypoints && ctx.player.waypoint_count > 0
    }

    pub open spec fn spec_fits_pitch(&self, ctx: &StateProcessingContext) -> bool {
        self.follows_waypoints(ctx) || ctx.player.has_ball
        || (ctx.field_size.width >= 60 && ctx.field_size.height >= 60)
    }

    /// The pitch has room for the margins that the movement keeps: any pitch has along the
    /// waypoints and with the ball.
    #[verifier::when_used_as_spec(spec_fits_pitch)]
    pub fn fits_pitch(&self, ctx: &StateProcessingContext) -> (r: bool)
        ensures
            r == self.spec_fits_pitch(ctx),
    {
        self.follows_waypoints(ctx) || ctx.player.has_ball
        || (ctx.field_size.width >= 60 && ctx.field_size.height >= 60)
    }

    pub open spec fn spec_velocity(&self, ctx: &StateProcessingContext) -> Option<Movement> {
        if self.follows_waypoints(ctx) {
            Some(steer(Steering::FollowPath { path_offset: units(5) }))
        } else if ctx.player.has_ball {
            if self.should_retain_possession(ctx) {
                Some(self.calculate_possession_retention_movement(ctx))
            } else {
                Some(self.calculate_simple_ball_movement(ctx))
            }
        } else if !ctx.team.control_ball {
            Some(
                arrive(self.block_target(ctx), units(25)).plus(
                    ctx.player.separation_velocity * milli(400),
                ),
            )
        } else {
            Some(self.settle_at(ctx, self.support_target(ctx)))
        }
    }

    /// Along the waypoints, with the ball forward, without it in the shape of the team.
    #[verifier::when_used_as_spec(spec_velocity)]
    pub fn velocity(&self, ctx: &StateProcessingContext) -> (r: Option<Movement>)
        requires
            self.fits_pitch(ctx),
        ensures
            r == self.spec_velocity(ctx),
    {
        if self.follows_waypoints(ctx) {
            return Some(steer(Steering::FollowPath { path_offset: units(5) }));
        }
        if ctx.player.has_ball {
            if self.should_retain_possession(ctx) {
                return Some(self.calculate_possession_retention_movement(ctx));
            } else {
                return Some(self.calculate_simple_ball_movement(ctx));
            }
        }
        if !ctx.team.control_ball {
            return Some(
                arrive(self.block_target(ctx), units(25)).plus(
                    ctx.player.separation_velocity * milli(400),
                ),
            );
        }
        Some(self.settle_at(ctx, self.support_target(ctx)))
    }

    pub open spec fn spec_settle_at(&self, ctx: &StateProcessingContext, spot: Vec3) -> Movement {
        if (spot - ctx.player.position).magnitude() < units(8) {
            still()
        } else {
            arrive(spot, units(20))
        }
    }

    /// To a spot; still when there.
    #[verifier::when_used_as_spec(spec_settle_at)]
    pub fn settle_at(&self, ctx: &StateProcessingContext, spot: Vec3) -> (r: Movement)
        ensures
            r == self.spec_settle_at(ctx, spot),
    {
        if (
            spot - ctx.player.position
        ).magnitude() < units(8) { still() } else { arrive(spot, units(20)) }
    }

    pub open spec fn spec_block_target(&self, ctx: &StateProcessingContext) -> Vec3 {
        let start = ctx.player.start_position;
        let middle = ctx.height() * milli(500);
        let pull = if ctx.ball.is_owned { milli(300) } else { milli(450) };
        let step = if (
            ctx.ball.position.y < middle
        ) == (start.y < middle) { units(10) } else { units(10).negated() };
        inside(
            ctx,
            flat(
                start.x + (
                    ctx.ball.position.x - ctx.width() * milli(500)
                ) * milli(150) + step * outward(ctx),
                start.y + (ctx.ball.position.y - middle) * pull,
            ),
            30,
            30,
        )
    }

    /// The place in the defensive block, which shifts with the ball; the ball's side of it is
    /// further up.
    #[verifier::when_used_as_spec(spec_block_target)]
    pub fn block_target(&self, ctx: &StateProcessingContext) -> (r: Vec3)
        requires
            ctx.field_size.width >= 60,
            ctx.field_size.height >= 60,
        ensures
            r == self.spec_block_target(ctx),
            units(30) <= r.x,
            r.x <= ctx.width() - units(30),
            units(30) <= r.y,
            r.y <= ctx.height() - units(30),
    {
        let start = ctx.player.start_position;
        let middle = ctx.height() * milli(500);
        let pull = if ctx.ball.is_owned { milli(300) } else { milli(450) };
        let step = if (
            ctx.ball.position.y < middle
        ) == (start.y < middle) { units(10) } else { units(10).negated() };
        inside(
            ctx,
            flat(
                start.x + (
                    ctx.ball.position.x - ctx.width() * milli(500)
                ) * milli(150) + step * outward(ctx),
                start.y + (ctx.ball.position.y - middle) * pull,
            ),
            30,
            30,
        )
    }

    pub open spec fn spec_on_grid(&self, coordinate: Scalar) -> Scalar {
        (coordinate / units(20)).round() * units(20)
    }

    /// A coordinate of the ball, in steps of 20.
    #[verifier::when_used_as_spec(spec_on_grid)]
    pub fn on_grid(&self, coordinate: Scalar) -> (r: Scalar)
        ensures
            r == self.spec_on_grid(coordinate),
    {
        (coordinate / units(20)).round() * units(20)
    }

    pub open spec fn spec_support_target(&self, ctx: &StateProcessingContext) -> Vec3 {
        let start = ctx.player.start_position;
        if ctx.ball.distance < units(40) {
            inside(ctx, start, 30, 30)
        } else {
            let ball_x = self.on_grid(ctx.ball.position.x);
            let ball_y = self.on_grid(ctx.ball.position.y);
            let pull = if (ball_y - start.y).abs()
                < zone_half_width() { milli(150) } else { units(0) };
            inside(
                ctx,
                flat(
                    start.x * (units(1) - milli(150)) + (
                        ball_x + attacking_direction(ctx) * units(40)
                    ) * milli(150),
                    (start.y + (ball_y - start.y) * pull).clamp(
                        start.y - zone_half_width(),
                        start.y + zone_half_width(),
                    ),
                ),
                30,
                30,
            )
        }
    }

    /// The place in the attacking shape: near the ball the start position, else drawn to the
    /// ball a little, to the side only inside the own lane.
    #[verifier::when_used_as_spec(spec_support_target)]
    pub fn support_target(&self, ctx: &StateProcessingContext) -> (r: Vec3)
        requires
            ctx.field_size.width >= 60,
            ctx.field_size.height >= 60,
        ensures
            r == self.spec_support_target(ctx),
            units(30) <= r.x,
            r.x <= ctx.width() - units(30),
            units(30) <= r.y,
            r.y <= ctx.height() - units(30),
    {
        let start = ctx.player.start_position;
        if ctx.ball.distance < units(40) {
            return inside(ctx, start, 30, 30);
        }
        let ball_x = self.on_grid(ctx.ball.position.x);
        let ball_y = self.on_grid(ctx.ball.position.y);
        let pull = if (ball_y - start.y).abs()
            < zone_half_width() { milli(150) } else { units(0) };
        inside(
            ctx,
            flat(
                start.x * (units(1) - milli(150)) + (
                    ball_x + attacking_direction(ctx) * units(40)
                ) * milli(150),
                (start.y + (ball_y - start.y) * pull).clamp(
                    start.y - zone_half_width(),
                    start.y + zone_half_width(),
                ),
            ),
            30,
            30,
        )
    }

    pub open spec fn spec_process_conditions(&self) -> Exertion {
        exertion_with_velocity(ActivityIntensity::High)
    }

    /// The load of the state.
    #[verifier::when_used_as_spec(spec_process_conditions)]
    pub fn process_conditions(&self) -> (r: Exertion)
        ensures
            r == self.spec_process_conditions(),
    {
        exertion_with_velocity(ActivityIntensity::High)
    }

    pub open spec fn spec_find_best_pass_option(
        &self,
        ctx: &StateProcessingContext,
    ) -> Option<MatchPlayerLite> {
        ctx.best_pass.within_300
    }

    /// The best receiver in range.
    #[verifier::when_used_as_spec(spec_find_best_pass_option)]
    pub fn find_best_pass_option(
        &self,
        ctx: &StateProcessingContext,
    ) -> (r: Option<MatchPlayerLite>)
        ensures
            r == self.spec_find_best_pass_option(ctx),
    {
        ctx.best_pass.within_300
    }

    pub open spec fn spec_calculate_simple_ball_movement(
        &self,
        ctx: &StateProcessingContext,
    ) -> Movement {
        arrive_if_any(self.swaying_spot(ctx), units(20))
    }

    /// At the goal, swaying from side to side.
    #[verifier::when_used_as_spec(spec_calculate_simple_ball_movement)]
    pub fn calculate_simple_ball_movement(&self, ctx: &StateProcessingContext) -> (r: Movement)
        ensures
            r == self.spec_calculate_simple_ball_movement(ctx),
    {
        arrive_if_any(self.swaying_spot(ctx), units(20))
    }

    pub open spec fn spec_swaying_spot(&self, ctx: &StateProcessingContext) -> Option<Vec3> {
        match ctx.to_goal().direction() {
            Some(ahead) => match (
                ahead + turned(ahead) * (ctx.quick_sway * milli(200))
            ).direction() {
                Some(way) => Some(ctx.player.position + way * units(40)),
                None => None,
            },
            None => None,
        }
    }

    /// A spot on the way to the goal, to one side or the other; none where there is no way.
    #[verifier::when_used_as_spec(spec_swaying_spot)]
    pub fn swaying_spot(&self, ctx: &StateProcessingContext) -> (r: Option<Vec3>)
        ensures
            r == self.spec_swaying_spot(ctx),
    {
        match ctx.to_goal().direction() {
            Some(ahead) => match (
                ahead + turned(ahead) * (ctx.quick_sway * milli(200))
            ).direction() {
                Some(way) => Some(ctx.player.position + way * units(40)),
                None => None,
            },
            None => None,
        }
    }

    pub open spec fn spec_should_pass(&self, ctx: &StateProcessingContext) -> bool {
        let pressure = self.calculate_pressing_intensity(ctx);
        let profile = ctx.player.midfield;
        let goal_distance = ctx.ball.distance_to_opponent_goal;
        if pressure > milli(700) {
            profile.press_resistance < milli(550) || profile.pass_execution > milli(300)
        } else if pressure > milli(500) && profile.press_resistance < milli(600) {
            true
        } else if profile.allows_killer_ball
            && self.has_better_positioned_teammate(ctx, goal_distance) {
            true
        } else if pressure > milli(300) && profile.pass_execution > milli(550) {
            self.find_best_pass_option(ctx).is_some()
        } else if pressure > milli(200) {
            profile.pass_execution > milli(450)
        } else if goal_distance > units(200) && profile.pass_execution > milli(450) {
            self.has_better_positioned_teammate(ctx, goal_distance)
        } else {
            ctx.ball.ownership_duration > 60
        }
    }

    /// Whether a pass is due: forced by pressure, worth it to a teammate in a better place, or
    /// in the nature of a good passer.
    #[verifier::when_used_as_spec(spec_should_pass)]
    pub fn should_pass(&self, ctx: &StateProcessingContext) -> (r: bool)
        ensures
            r == self.spec_should_pass(ctx),
    {
        let pressure = self.calculate_pressing_intensity(ctx);
        let profile = ctx.player.midfield;
        let goal_distance = ctx.ball.distance_to_opponent_goal;
        if pressure > milli(700) {
            return profile.press_resistance < milli(550) || profile.pass_execution > milli(300);
        }
        if pressure > milli(500) && profile.press_resistance < milli(600) {
            return true;
        }
        if profile.allows_killer_ball && self.has_better_positioned_teammate(ctx, goal_distance) {
            return true;
        }
        if pressure > milli(300) && profile.pass_execution > milli(550) {
            return self.find_best_pass_option(ctx).is_some();
        }
        if pressure > milli(200) {
            return profile.pass_execution > milli(450);
        }
        if goal_distance > units(200) && profile.pass_execution > milli(450) {
            return self.has_better_positioned_teammate(ctx, goal_distance);
        }
        ctx.ball.ownership_duration > 60
    }

    pub open spec fn spec_pressure_of(&self, o: MatchPlayerLite) -> Scalar {
        if o.distance > units(50) {
            units(0)
        } else if o.distance < units(15) {
            milli(500)
        } else if o.distance < units(30) {
            milli(300)
        } else {
            milli(100)
        }
    }

    /// The share of one opponent in the pressure, by distance.
    #[verifier::when_used_as_spec(spec_pressure_of)]
    pub fn pressure_of(&self, o: MatchPlayerLite) -> (r: Scalar)
        ensures
            r == self.spec_pressure_of(o),
    {
        if o.distance > units(50) {
            units(0)
        } else if o.distance < units(15) {
            milli(500)
        } else if o.distance < units(30) {
            milli(300)
        } else {
            milli(100)
        }
    }

    pub open spec fn spec_calculate_pressing_intensity(
        &self,
        ctx: &StateProcessingContext,
    ) -> Scalar {
        (
            scan::total(ctx.opponents@, |o: MatchPlayerLite| self.pressure_of(o)) / units(2)
        ).min(units(1))
    }

    /// The pressure on the midfielder, by how many opponents are how near.
    #[verifier::when_used_as_spec(spec_calculate_pressing_intensity)]
    pub fn calculate_pressing_intensity(&self, ctx: &StateProcessingContext) -> (r: Scalar)
        ensures
            r == self.spec_calculate_pressing_intensity(ctx),
            units(0) <= r,
            r <= units(1),
    {
        proof {
            scan::total_is_not_negative(ctx.opponents@, |o: MatchPlayerLite| self.pressure_of(o));
            crate::scalar::quotient_keeps_order(
                units(0),
                scan::total(ctx.opponents@, |o: MatchPlayerLite| self.pressure_of(o)),
                units(2),
            );
        }
        (scan::total_of(
                &ctx.opponents,
                |o: MatchPlayerLite| -> (b: Scalar)
                    ensures b == (self.pressure_of(o))
                {
                    self.pressure_of(o)
                },
                Ghost(|o: MatchPlayerLite| self.pressure_of(o)),
            ) / units(2)).min(units(1))
    }

    pub open spec fn spec_has_better_positioned_teammate(
        &self,
        ctx: &StateProcessingContext,
        current_distance: Scalar,
    ) -> bool {
        scan::some_where(
            ctx.teammates@,
            |t: MatchPlayerLite|
                t.distance <= units(300)
                    && t.position.distance_to(ctx.goal()) < current_distance * milli(800)
                    && ctx.opponents_around(t.position, units(30)) < 2 && t.clear_pass,
        )
    }

    /// A free teammate who can be reached is much nearer to the goal.
    #[verifier::when_used_as_spec(spec_has_better_positioned_teammate)]
    pub fn has_better_positioned_teammate(
        &self,
        ctx: &StateProcessingContext,
        current_distance: Scalar,
    ) -> (r: bool)
        ensures
            r == self.spec_has_better_positioned_teammate(ctx, current_distance),
    {
        scan::any_of(
            &ctx.teammates,
            |t: MatchPlayerLite| -> (b: bool)
                ensures b == (
                    t.distance <= units(300)
                        && t.position.distance_to(ctx.goal()) < current_distance * milli(800)
                        && ctx.opponents_around(t.position, units(30)) < 2 && t.clear_pass
                )
            {
                t.distance <= units(300)
                    && t.position.distance_to(ctx.goal()) < current_distance * milli(800)
                    && ctx.opponents_around(t.position, units(30)) < 2 && t.clear_pass
            },
            Ghost(
                |t: MatchPlayerLite|
                    t.distance <= units(300)
                        && t.position.distance_to(ctx.goal()) < current_distance * milli(800)
                        && ctx.opponents_around(t.position, units(30)) < 2 && t.clear_pass,
            ),
        )
    }

    pub open spec fn spec_find_one_two_return(
        &self,
        ctx: &StateProcessingContext,
    ) -> Option<MatchPlayerLite> {
        match ctx.ball.last_passer {
            Some(id) => match ctx.by_id(id) {
                Some(passer) => if passer.team_id == ctx.player.team_id
                    && self.has_run_ahead(ctx, self.teammate_by_id(ctx, id)) {
                    self.teammate_by_id(ctx, id)
                } else {
                    None
                },
                None => None,
            },
            None => None,
        }
    }

    /// The passer, where it is a teammate who has run on into space ahead.
    #[verifier::when_used_as_spec(spec_find_one_two_return)]
    pub fn find_one_two_return(
        &self,
        ctx: &StateProcessingContext,
    ) -> (r: Option<MatchPlayerLite>)
        ensures
            r == self.spec_find_one_two_return(ctx),
    {
        match ctx.ball.last_passer {
            Some(id) => match ctx.by_id(id) {
                Some(passer) => if passer.team_id == ctx.player.team_id
                    && self.has_run_ahead(ctx, self.teammate_by_id(ctx, id)) {
                    self.teammate_by_id(ctx, id)
                } else {
                    None
                },
                None => None,
            },
            None => None,
        }
    }

    pub open spec fn spec_teammate_by_id(
        &self,
        ctx: &StateProcessingContext,
        id: u32,
    ) -> Option<MatchPlayerLite> {
        scan::first_where(ctx.teammates@, |t: MatchPlayerLite| t.id == id)
    }

    /// The teammate with the given number.
    #[verifier::when_used_as_spec(spec_teammate_by_id)]
    pub fn teammate_by_id(
        &self,
        ctx: &StateProcessingContext,
        id: u32,
    ) -> (r: Option<MatchPlayerLite>)
        ensures
            r == self.spec_teammate_by_id(ctx, id),
    {
        scan::first_of(
            &ctx.teammates,
            |t: MatchPlayerLite| -> (b: bool)
                ensures b == (t.id == id)
            {
                t.id == id
            },
            Ghost(|t: MatchPlayerLite| t.id == id),
        )
    }

    pub open spec fn spec_has_run_ahead(
        &self,
        ctx: &StateProcessingContext,
        passer: Option<MatchPlayerLite>,
    ) -> bool {
        match passer {
            Some(t) => {
                let away = (t.position - ctx.player.position).magnitude();
                t.position.distance_to(ctx.goal())
                    < ctx.player.position.distance_to(ctx.goal()) * milli(900)
                && ctx.opponents_around(t.position, units(50)) < 1 && t.clear_pass
                && away <= units(200) && away >= units(10)
            },
            None => false,
        }
    }

    /// A passer who is ahead by now, in space, in reach and free to pass to.
    #[verifier::when_used_as_spec(spec_has_run_ahead)]
    pub fn has_run_ahead(
        &self,
        ctx: &StateProcessingContext,
        passer: Option<MatchPlayerLite>,
    ) -> (r: bool)
        ensures
            r == self.spec_has_run_ahead(ctx, passer),
    {
        match passer {
            Some(t) => {
                let away = (t.position - ctx.player.position).magnitude();
                t.position.distance_to(ctx.goal())
                    < ctx.player.position.distance_to(ctx.goal()) * milli(900)
                && ctx.opponents_around(t.position, units(50)) < 1 && t.clear_pass
                && away <= units(200) && away >= units(10)
            },
            None => false,
        }
    }

    pub open spec fn spec_find_draw_and_release_pass(
        &self,
        ctx: &StateProcessingContext,
    ) -> Option<MatchPlayerLite> {
        match scan::least_where(
            ctx.opponents@,
            |o: MatchPlayerLite| o.distance <= units(35) && self.is_closing_in(ctx, o),
            |o: MatchPlayerLite| (o.position - ctx.player.position).magnitude(),
        ) {
            Some(opponent) => match opponent.velocity.direction() {
                Some(way) => self.receiver_near(ctx, opponent.position - way * units(30)),
                None => None,
            },
            None => None,
        }
    }

    /// A teammate near the space that the nearest attacking opponent leaves behind.
    #[verifier::when_used_as_spec(spec_find_draw_and_release_pass)]
    pub fn find_draw_and_release_pass(
        &self,
        ctx: &StateProcessingContext,
    ) -> (r: Option<MatchPlayerLite>)
        ensures
            r == self.spec_find_draw_and_release_pass(ctx),
    {
        match scan::least_of(
            &ctx.opponents,
            |o: MatchPlayerLite| -> (b: bool)
                ensures b == (o.distance <= units(35) && self.is_closing_in(ctx, o))
            {
                o.distance <= units(35) && self.is_closing_in(ctx, o)
            },
            |o: MatchPlayerLite| -> (b: Scalar)
                ensures b == ((o.position - ctx.player.position).magnitude())
            {
                (o.position - ctx.player.position).magnitude()
            },
            Ghost(|o: MatchPlayerLite| o.distance <= units(35) && self.is_closing_in(ctx, o)),
            Ghost(|o: MatchPlayerLite| (o.position - ctx.player.position).magnitude()),
        ) {
            Some(opponent) => match opponent.velocity.direction() {
                Some(way) => self.receiver_near(ctx, opponent.position - way * units(30)),
                None => None,
            },
            None => None,
        }
    }

    pub open spec fn spec_is_closing_in(
        &self,
        ctx: &StateProcessingContext,
        o: MatchPlayerLite,
    ) -> bool {
        let away = (o.position - ctx.player.position).magnitude();
        away >= units(15) && away <= units(35) && o.velocity.magnitude() >= units(1)
        && aligned_above(o.velocity, ctx.player.position - o.position, milli(600))
    }

    /// An opponent at some distance who comes at the midfielder.
    #[verifier::when_used_as_spec(spec_is_closing_in)]
    pub fn is_closing_in(&self, ctx: &StateProcessingContext, o: MatchPlayerLite) -> (r: bool)
        ensures
            r == self.spec_is_closing_in(ctx, o),
    {
        let away = (o.position - ctx.player.position).magnitude();
        away >= units(15) && away <= units(35) && o.velocity.magnitude() >= units(1)
        && aligned_above(o.velocity, ctx.player.position - o.position, milli(600))
    }

    pub open spec fn spec_receiver_near(
        &self,
        ctx: &StateProcessingContext,
        spot: Vec3,
    ) -> Option<MatchPlayerLite> {
        scan::least_where(
            ctx.teammates@,
            |t: MatchPlayerLite|
                t.distance <= units(200) && (t.position - spot).magnitude() < units(60)
                    && t.clear_pass && ctx.opponents_around(t.position, units(10)) < 2,
            |t: MatchPlayerLite| (t.position - spot).magnitude(),
        )
    }

    /// The free teammate nearest to a spot.
    #[verifier::when_used_as_spec(spec_receiver_near)]
    pub fn receiver_near(
        &self,
        ctx: &StateProcessingContext,
        spot: Vec3,
    ) -> (r: Option<MatchPlayerLite>)
        ensures
            r == self.spec_receiver_near(ctx, spot),
    {
        scan::least_of(
            &ctx.teammates,
            |t: MatchPlayerLite| -> (b: bool)
                ensures b == (
                    t.distance <= units(200) && (t.position - spot).magnitude() < units(60)
                        && t.clear_pass && ctx.opponents_around(t.position, units(10)) < 2
                )
            {
                t.distance <= units(200) && (t.position - spot).magnitude() < units(60)
                    && t.clear_pass && ctx.opponents_around(t.position, units(10)) < 2
            },
            |t: MatchPlayerLite| -> (b: Scalar)
                ensures b == ((t.position - spot).magnitude())
            {
                (t.position - spot).magnitude()
            },
            Ghost(
                |t: MatchPlayerLite|
                    t.distance <= units(200) && (t.position - spot).magnitude() < units(60)
                        && t.clear_pass && ctx.opponents_around(t.position, units(10)) < 2,
            ),
            Ghost(|t: MatchPlayerLite| (t.position - spot).magnitude()),
        )
    }

    pub open spec fn spec_should_retain_possession(&self, ctx: &StateProcessingContext) -> bool {
        !ctx.team.losing && ctx.ball.distance_to_opponent_goal >= ctx.width() * milli(350)
        && self.calculate_pressing_intensity(ctx) <= milli(500) && !self.has_open_space_ahead(ctx)
        && ctx.team.control_ball
    }

    /// The team is in control, not behind, away from the goal, not pressed, and there is no way
    /// forward.
    #[verifier::when_used_as_spec(spec_should_retain_possession)]
    pub fn should_retain_possession(&self, ctx: &StateProcessingContext) -> (r: bool)
        ensures
            r == self.spec_should_retain_possession(ctx),
    {
        !ctx.team.losing && ctx.ball.distance_to_opponent_goal >= ctx.width() * milli(350)
        && self.calculate_pressing_intensity(ctx) <= milli(500) && !self.has_open_space_ahead(ctx)
        && ctx.team.control_ball
    }

    pub open spec fn spec_retention_spot(
        &self,
        ctx: &StateProcessingContext,
        ahead: Vec3,
    ) -> Vec3 {
        let y = if ctx.player.position.y < ctx.height() / units(2) {
            ctx.height() * milli(350)
        } else {
            ctx.height() * milli(650)
        };
        flat(ctx.player.position.x + ahead.x * units(15), y)
    }

    /// Where the ball is kept: to the side, a little forward in the given direction of the goal.
    #[verifier::when_used_as_spec(spec_retention_spot)]
    pub fn retention_spot(&self, ctx: &StateProcessingContext, ahead: Vec3) -> (r: Vec3)
        ensures
            r == self.spec_retention_spot(ctx, ahead),
    {
        let y = if ctx.player.position.y < ctx.height() / units(2) {
            ctx.height() * milli(350)
        } else {
            ctx.height() * milli(650)
        };
        flat(ctx.player.position.x + ahead.x * units(15), y)
    }

    pub open spec fn spec_calculate_possession_retention_movement(
        &self,
        ctx: &StateProcessingContext,
    ) -> Movement {
        arrive_if_any(self.retention_target(ctx), units(30)).scaled(milli(600))
    }

    /// Slowly and to the side, to keep the ball.
    #[verifier::when_used_as_spec(spec_calculate_possession_retention_movement)]
    pub fn calculate_possession_retention_movement(
        &self,
        ctx: &StateProcessingContext,
    ) -> (r: Movement)
        ensures
            r == self.spec_calculate_possession_retention_movement(ctx),
    {
        arrive_if_any(self.retention_target(ctx), units(30)).scaled(milli(600))
    }

    pub open spec fn spec_retention_target(&self, ctx: &StateProcessingContext) -> Option<Vec3> {
        match ctx.to_goal().direction() {
            Some(ahead) => match (
                self.retention_spot(ctx, ahead) - ctx.player.position
            ).direction() {
                Some(way) => Some(
                    ctx.player.position + way * units(20) + turned(ahead) * (
                        ctx.slow_sway * milli(500)
                    ) * units(10),
                ),
                None => None,
            },
            None => None,
        }
    }

    /// A step to where the ball is kept, to one side or the other of the way to the goal; none
    /// where either has no direction.
    #[verifier::when_used_as_spec(spec_retention_target)]
    pub fn retention_target(&self, ctx: &StateProcessingContext) -> (r: Option<Vec3>)
        ensures
            r == self.spec_retention_target(ctx),
    {
        match ctx.to_goal().direction() {
            Some(ahead) => match (
                self.retention_spot(ctx, ahead) - ctx.player.position
            ).direction() {
                Some(way) => Some(
                    ctx.player.position + way * units(20) + turned(ahead) * (
                        ctx.slow_sway * milli(500)
                    ) * units(10),
                ),
                None => None,
            },
            None => None,
        }
    }

    pub open spec fn spec_is_counter_attack_opportunity(
        &self,
        ctx: &StateProcessingContext,
    ) -> bool {
        let ball = ctx.ball.position;
        ctx.ball.ownership_duration < 15
        && (ctx.ball.on_own_side || ctx.ball.distance_to_opponent_goal >= ctx.width() * milli(400))
        && scan::count_where(
            ctx.opponents@,
            |o: MatchPlayerLite| aligned_above(o.position - ball, ctx.goal() - ball, milli(300)),
        ) < 3
    }

    /// The ball was just won, not near the goal, with few opponents ahead of it.
    #[verifier::when_used_as_spec(spec_is_counter_attack_opportunity)]
    pub fn is_counter_attack_opportunity(&self, ctx: &StateProcessingContext) -> (r: bool)
        ensures
            r == self.spec_is_counter_attack_opportunity(ctx),
    {
        let ball = ctx.ball.position;
        ctx.ball.ownership_duration < 15
        && (ctx.ball.on_own_side || ctx.ball.distance_to_opponent_goal >= ctx.width() * milli(400))
        && scan::count_if(
            &ctx.opponents,
            |o: MatchPlayerLite| -> (b: bool)
                ensures b == (aligned_above(o.position - ball, ctx.goal() - ball, milli(300)))
            {
                aligned_above(o.position - ball, ctx.goal() - ball, milli(300))
            },
            Ghost(
                |o: MatchPlayerLite|
                    aligned_above(o.position - ball, ctx.goal() - ball, milli(300)),
            ),
        ) < 3
    }

    pub open spec fn spec_find_counter_attack_pass(
        &self,
        ctx: &StateProcessingContext,
    ) -> Option<MatchPlayerLite> {
        scan::first_greatest_where(
            ctx.teammates@,
            |t: MatchPlayerLite| t.distance <= units(300) && self.is_counter_target(ctx, t),
            |t: MatchPlayerLite| self.counter_value(ctx, t),
        )
    }

    /// The best teammate ahead for a counter-attack; of equals, the first.
    #[verifier::when_used_as_spec(spec_find_counter_attack_pass)]
    pub fn find_counter_attack_pass(
        &self,
        ctx: &StateProcessingContext,
    ) -> (r: Option<MatchPlayerLite>)
        ensures
            r == self.spec_find_counter_attack_pass(ctx),
    {
        scan::first_greatest_of(
            &ctx.teammates,
            |t: MatchPlayerLite| -> (b: bool)
                ensures b == (t.distance <= units(300) && self.is_counter_target(ctx, t))
            {
                t.distance <= units(300) && self.is_counter_target(ctx, t)
            },
            |t: MatchPlayerLite| -> (b: Scalar)
                ensures b == (self.counter_value(ctx, t))
            {
                self.counter_value(ctx, t)
            },
            Ghost(|t: MatchPlayerLite| t.distance <= units(300) && self.is_counter_target(ctx, t)),
            Ghost(|t: MatchPlayerLite| self.counter_value(ctx, t)),
        )
    }

    pub open spec fn spec_is_counter_target(
        &self,
        ctx: &StateProcessingContext,
        t: MatchPlayerLite,
    ) -> bool {
        !aligned_below(t.position - ctx.player.position, ctx.to_goal(), milli(300))
        && ctx.opponents_around(t.position, units(10)) < 2 && t.clear_pass
    }

    #[verifier::when_used_as_spec(spec_is_counter_target)]
    pub fn is_counter_target(&self, ctx: &StateProcessingContext, t: MatchPlayerLite) -> (r: bool)
        ensures
            r == self.spec_is_counter_target(ctx, t),
    {
        !aligned_below(t.position - ctx.player.position, ctx.to_goal(), milli(300))
        && ctx.opponents_around(t.position, units(10)) < 2 && t.clear_pass
    }

    pub open spec fn spec_counter_value(
        &self,
        ctx: &StateProcessingContext,
        t: MatchPlayerLite,
    ) -> Scalar {
        let base = units(1000) - t.position.distance_to(ctx.goal());
        let forward = if t.tactical_positions.is_forward() { units(200) } else { units(0) };
        let run = if t.velocity.magnitude() > units(1)
            && aligned_above(t.velocity, ctx.to_goal(), milli(300)) {
            units(150)
        } else {
            units(0)
        };
        let free = if ctx.opponents_around(t.position, units(10))
            == 0 { units(100) } else { units(0) };
        base + forward + run + free
    }

    /// The worth of a teammate in a counter-attack: near the goal, a forward, on the run, free.
    #[verifier::when_used_as_spec(spec_counter_value)]
    pub fn counter_value(&self, ctx: &StateProcessingContext, t: MatchPlayerLite) -> (r: Scalar)
        ensures
            r == self.spec_counter_value(ctx, t),
    {
        let base = units(1000) - t.position.distance_to(ctx.goal());
        let forward = if t.tactical_positions.is_forward() { units(200) } else { units(0) };
        let run = if t.velocity.magnitude() > units(1)
            && aligned_above(t.velocity, ctx.to_goal(), milli(300)) {
            units(150)
        } else {
            units(0)
        };
        let free = if ctx.opponents_around(t.position, units(10))
            == 0 { units(100) } else { units(0) };
        base + forward + run + free
    }

    pub open spec fn spec_has_open_space_ahead(&self, ctx: &StateProcessingContext) -> bool {
        opponents_in_the_way(ctx, units(30), milli(400)) == 0
    }

    /// Nobody stands in the way to the goal.
    #[verifier::when_used_as_spec(spec_has_open_space_ahead)]
    pub fn has_open_space_ahead(&self, ctx: &StateProcessingContext) -> (r: bool)
        ensures
            r == self.spec_has_open_space_ahead(ctx),
    {
        opponents_in_the_way(ctx, units(30), milli(400)) == 0
    }

    pub open spec fn spec_is_near_boundary(&self, ctx: &StateProcessingContext) -> bool {
        let p = ctx.player.position;
        p.x < units(20) || p.x > ctx.width() - units(20) || p.y < units(20)
            || p.y > ctx.height() - units(20)
    }

    /// Near the edge of the pitch.
    #[verifier::when_used_as_spec(spec_is_near_boundary)]
    pub fn is_near_boundary(&self, ctx: &StateProcessingContext) -> (r: bool)
        ensures
            r == self.spec_is_near_boundary(ctx),
    {
        let p = ctx.player.position;
        p.x < units(20) || p.x > ctx.width() - units(20) || p.y < units(20)
            || p.y > ctx.height() - units(20)
    }

    pub open spec fn spec_is_congested_near_boundary(&self, ctx: &StateProcessingContext) -> bool {
        self.is_near_boundary(ctx)
        && up_to_five(
            scan::count_where(ctx.teammates@, |t: MatchPlayerLite| t.distance <= units(15)),
            ctx.opponents_nearby(units(15)),
        ) >= 3
    }

    /// Near the edge of the pitch with three or more players around.
    #[verifier::when_used_as_spec(spec_is_congested_near_boundary)]
    pub fn is_congested_near_boundary(&self, ctx: &StateProcessingContext) -> (r: bool)
        ensures
            r == self.spec_is_congested_near_boundary(ctx),
    {
        self.is_near_boundary(ctx)
        && up_to_five(scan::count_if(
                &ctx.teammates,
                |t: MatchPlayerLite| -> (b: bool)
                    ensures b == (t.distance <= units(15))
                {
                    t.distance <= units(15)
                },
                Ghost(|t: MatchPlayerLite| t.distance <= units(15)),
            ), ctx.opponents_nearby(units(15))) >= 3
    }

    pub open spec fn spec_should_cross(&self, ctx: &StateProcessingContext) -> bool {
        let margin = ctx.height() * milli(200);
        let y = ctx.player.position.y;
        (y < margin || y > ctx.height() - margin)
        && ctx.ball.distance_to_opponent_goal <= ctx.width() * milli(350)
        && ctx.teammates_around(ctx.goal(), units(150)) >= 1
        && ctx.rolls.cross < ctx.curves.crossing_8
    }

    /// Wide and high up the pitch, with a teammate in front of the goal; the skill at crossing
    /// and luck decide.
    #[verifier::when_used_as_spec(spec_should_cross)]
    pub fn should_cross(&self, ctx: &StateProcessingContext) -> (r: bool)
        ensures
            r == self.spec_should_cross(ctx),
    {
        let margin = ctx.height() * milli(200);
        let y = ctx.player.position.y;
        (y < margin || y > ctx.height() - margin)
        && ctx.ball.distance_to_opponent_goal <= ctx.width() * milli(350)
        && ctx.teammates_around(ctx.goal(), units(150)) >= 1
        && ctx.rolls.cross < ctx.curves.crossing_8
    }

    pub open spec fn spec_find_safe_backward_pass(
        &self,
        ctx: &StateProcessingContext,
    ) -> Option<MatchPlayerLite> {
        scan::first_greatest_where(
            ctx.teammates@,
            |t: MatchPlayerLite| t.distance <= units(250) && self.is_safe_target(ctx, t),
            |t: MatchPlayerLite| self.safety(ctx, t),
        )
    }

    /// The safest teammate to the side or behind; of equals, the first.
    #[verifier::when_used_as_spec(spec_find_safe_backward_pass)]
    pub fn find_safe_backward_pass(
        &self,
        ctx: &StateProcessingContext,
    ) -> (r: Option<MatchPlayerLite>)
        ensures
            r == self.spec_find_safe_backward_pass(ctx),
    {
        scan::first_greatest_of(
            &ctx.teammates,
            |t: MatchPlayerLite| -> (b: bool)
                ensures b == (t.distance <= units(250) && self.is_safe_target(ctx, t))
            {
                t.distance <= units(250) && self.is_safe_target(ctx, t)
            },
            |t: MatchPlayerLite| -> (b: Scalar)
                ensures b == (self.safety(ctx, t))
            {
                self.safety(ctx, t)
            },
            Ghost(|t: MatchPlayerLite| t.distance <= units(250) && self.is_safe_target(ctx, t)),
            Ghost(|t: MatchPlayerLite| self.safety(ctx, t)),
        )
    }

    pub open spec fn spec_is_safe_target(
        &self,
        ctx: &StateProcessingContext,
        t: MatchPlayerLite,
    ) -> bool {
        !is_ahead_of(ctx, t.position, ctx.player.position)
        && (t.position - ctx.player.position).magnitude() >= units(15) && t.clear_pass
        && ctx.opponents_around(t.position, units(12)) < 2
    }

    /// No further up the pitch than the midfielder, in sight and free.
    #[verifier::when_used_as_spec(spec_is_safe_target)]
    pub fn is_safe_target(&self, ctx: &StateProcessingContext, t: MatchPlayerLite) -> (r: bool)
        ensures
            r == self.spec_is_safe_target(ctx, t),
    {
        !is_ahead_of(ctx, t.position, ctx.player.position)
        && (t.position - ctx.player.position).magnitude() >= units(15) && t.clear_pass
        && ctx.opponents_around(t.position, units(12)) < 2
    }

    pub open spec fn spec_safety(
        &self,
        ctx: &StateProcessingContext,
        t: MatchPlayerLite,
    ) -> Scalar {
        let own_goal = ctx.ball.direction_to_own_goal;
        let line = match t.tactical_positions.group {
            PositionGroup::Goalkeeper => units(45),
            PositionGroup::Defender => units(35),
            PositionGroup::Midfielder => units(10),
            PositionGroup::Forward => units(0),
        };
        let back = if (own_goal - t.position).magnitude() < (
            own_goal - ctx.player.position
        ).magnitude() { units(20) } else { units(0) };
        let free = if ctx.opponents_around(t.position, units(12))
            == 0 { units(15) } else { units(0) };
        line + back + free
    }

    /// How safe a teammate is to pass to: by the line of the team, further back, free.
    #[verifier::when_used_as_spec(spec_safety)]
    pub fn safety(&self, ctx: &StateProcessingContext, t: MatchPlayerLite) -> (r: Scalar)
        ensures
            r == self.spec_safety(ctx, t),
    {
        let own_goal = ctx.ball.direction_to_own_goal;
        let line = match t.tactical_positions.group {
            PositionGroup::Goalkeeper => units(45),
            PositionGroup::Defender => units(35),
            PositionGroup::Midfielder => units(10),
            PositionGroup::Forward => units(0),
        };
        let back = if (own_goal - t.position).magnitude() < (
            own_goal - ctx.player.position
        ).magnitude() { units(20) } else { units(0) };
        let free = if ctx.opponents_around(t.position, units(12))
            == 0 { units(15) } else { units(0) };
        line + back + free
    }
}

/// Without the ball, a midfielder goes back from an offside position whatever else is on, and at
/// an opponent's restart unless the ball was lost just now.
pub proof fn retreat_comes_first(state: MidfielderRunningState, ctx: &StateProcessingContext)
    requires
        !ctx.player.has_ball,
        ctx.player.stranded_offside
            || (ctx.ball.opponent_restart && !ctx.team.counterpress_window),
    ensures
        state.process(ctx) == Some(with_midfielder_state(MidfielderState::Returning)),
{
}

/// A running midfielder only shoots with the ball, and then at once under a tackle, at a clear
/// chance, because the central rule on shots says so, or from close by after long hesitation.
pub proof fn shots_have_a_reason(state: MidfielderRunningState, ctx: &StateProcessingContext)
    ensures
        (state.process(ctx) matches Some(r) && (r.state == PlayerState::Midfielder(
            MidfielderState::Shooting,
        ) || r.state == PlayerState::Midfielder(MidfielderState::DistanceShooting))) ==> {
            &&& ctx.player.has_ball
            &&& {
                ||| state.snapshot(ctx)
                ||| ctx.team.can_shoot && state.is_clear_chance(ctx)
                ||| exists|o: ShotOccasion|
                    (#[trigger] ctx.evaluate_forward_shot_decision(o) matches ShotDecision::Shoot {
                        reason,
                    } && state.process(ctx)->0.shot_reason == Some(reason))
                ||| ctx.in_state_time > state.patience(ctx) && ctx.player.clear_shot
                    && ctx.ball.distance_to_opponent_goal < units(25)
            }
        },
{
    let a = ctx.evaluate_forward_shot_decision(ShotOccasion::MidfieldRun);
    let b = ctx.evaluate_forward_shot_decision(ShotOccasion::MidfieldRunHesitation);
}

/// A long shot is one with the ball and with permission, from beyond the ordinary range and
/// within the longest, by the central rule on shots and for the reason that the rule gives.
pub proof fn long_shots_are_in_range(state: MidfielderRunningState, ctx: &StateProcessingContext)
    requires
        state.process(ctx) matches Some(r) && r.state == PlayerState::Midfielder(
            MidfielderState::DistanceShooting,
        ),
    ensures
        ctx.player.has_ball,
        ctx.team.can_shoot,
        ctx.ball.distance_to_opponent_goal > standard_shooting_distance(),
        ctx.ball.distance_to_opponent_goal <= max_shooting_distance(),
        ctx.evaluate_forward_shot_decision(ShotOccasion::MidfieldRun) matches ShotDecision::Shoot {
            reason,
        } && state.process(ctx)->0.shot_reason == Some(reason),
{
}

/// A clear chance is taken as one only with the ball and with permission, from within the
/// ordinary range, with a free lane, a good angle and a shot of some worth, by a midfielder who
/// has not shot too often yet.
pub proof fn clear_chances_are_clear(state: MidfielderRunningState, ctx: &StateProcessingContext)
    requires
        ctx.rule_has_its_own_reasons(),
        state.process(ctx) matches Some(r) && (r.shot_reason matches Some(reason) && reason@
            == "MID_CLEAR_CHANCE"@),
    ensures
        state.process(ctx)->0.state == PlayerState::Midfielder(MidfielderState::Shooting),
        ctx.player.has_ball,
        ctx.team.can_shoot,
        ctx.ball.distance_to_opponent_goal <= standard_shooting_distance(),
        ctx.player.shots_taken <= 4,
        ctx.player.clear_shot,
        ctx.player.good_shooting_angle,
        ctx.player.shooting.clear_shot_xg >= milli(180),
{
    reveal_strlit("MID_CLEAR_CHANCE");
    reveal_strlit("MID_SNAPSHOT_PRESSED");
    reveal_strlit("MID_RUN_ANTI_OSCILLATION");
    assert("MID_CLEAR_CHANCE"@.len() != "MID_SNAPSHOT_PRESSED"@.len());
    assert("MID_CLEAR_CHANCE"@.len() != "MID_RUN_ANTI_OSCILLATION"@.len());
    let a = ctx.evaluate_forward_shot_decision(ShotOccasion::MidfieldRun);
    let b = ctx.evaluate_forward_shot_decision(ShotOccasion::MidfieldRunHesitation);
}

/// Whom a running midfielder finds for a pass is a teammate.
proof fn receivers_are_teammates(state: MidfielderRunningState, ctx: &StateProcessingContext)
    ensures
        ctx.is_teammate_if_any(state.furthest_outlet(ctx)),
        ctx.is_teammate_if_any(state.find_counter_attack_pass(ctx)),
        ctx.is_teammate_if_any(state.find_one_two_return(ctx)),
        ctx.is_teammate_if_any(state.find_draw_and_release_pass(ctx)),
        ctx.is_teammate_if_any(state.find_safe_backward_pass(ctx)),
        ctx.is_teammate_if_any(state.teammate_ahead(ctx)),
        ctx.is_teammate_if_any(state.any_teammate(ctx)),
{
    scan::greatest_is_greatest(
        ctx.teammates@,
        |t: MatchPlayerLite| t.distance <= units(200) && state.is_outlet(ctx, t),
        |t: MatchPlayerLite| (t.position - ctx.player.position).magnitude(),
    );
    scan::first_greatest_is_greatest(
        ctx.teammates@,
        |t: MatchPlayerLite| t.distance <= units(300) && state.is_counter_target(ctx, t),
        |t: MatchPlayerLite| state.counter_value(ctx, t),
    );
    scan::first_greatest_is_greatest(
        ctx.teammates@,
        |t: MatchPlayerLite| t.distance <= units(250) && state.is_safe_target(ctx, t),
        |t: MatchPlayerLite| state.safety(ctx, t),
    );
    if let Some(id) = ctx.ball.last_passer {
        scan::first_is_one_of_them(ctx.teammates@, |t: MatchPlayerLite| t.id == id);
    }
    if let Some(opponent) = scan::least_where(
        ctx.opponents@,
        |o: MatchPlayerLite| o.distance <= units(35) && state.is_closing_in(ctx, o),
        |o: MatchPlayerLite| (o.position - ctx.player.position).magnitude(),
    ) {
        let spot = opponent.position - opponent.velocity.direction()->0 * units(30);
        scan::least_is_least(
            ctx.teammates@,
            |t: MatchPlayerLite|
                t.distance <= units(200) && (t.position - spot).magnitude() < units(60)
                    && t.clear_pass
                    && ctx.opponents_around(t.position, units(10)) < 2,
            |t: MatchPlayerLite| (t.position - spot).magnitude(),
        );
    }
    scan::first_is_one_of_them(
        ctx.teammates@,
        |t: MatchPlayerLite|
            t.distance <= units(200) && aligned_above(
                t.position - ctx.player.position,
                ctx.to_goal(),
                units(0),
            ),
    );
    scan::first_is_one_of_them(ctx.teammates@, |t: MatchPlayerLite| t.distance <= units(200));
}

/// Every pass of a running midfielder is made with the ball, by the midfielder, who runs on or
/// stands. It goes to a teammate, to the best receiver, or to the runner who arrives in the box;
/// where what is seen agrees, to a teammate who is not the midfielder.
pub proof fn passes_need_the_ball(state: MidfielderRunningState, ctx: &StateProcessingContext)
    ensures
        state.process(ctx) matches Some(r) ==> (r.event matches Some(
            PlayerEvent::PassTo { from, to, .. },
        ) ==> {
            &&& ctx.player.has_ball
            &&& from == ctx.player.id
            &&& r.state == PlayerState::Midfielder(MidfielderState::Running) || r.state
                == PlayerState::Midfielder(MidfielderState::Standing)
            &&& {
                ||| ctx.is_teammate(to)
                ||| ctx.cutback_runner == Some(to)
                ||| ctx.best_pass.within_300 matches Some(best) && best.id == to
            }
            &&& ctx.well_formed() ==> ctx.is_teammate(to) && to != ctx.player.id
        }),
{
    receivers_are_teammates(state, ctx);
}

/// A counter-attack is never held up for the sake of possession.
pub proof fn counter_attack_goes_on(state: MidfielderRunningState, ctx: &StateProcessingContext)
    requires
        ctx.team.counter_window,
    ensures
        !state.holds_the_ball(ctx),
{
}

/// A counter-attack goes to a teammate ahead who is free to be passed to, and no other such
/// teammate in range is worth more.
pub proof fn counter_pass_is_the_best(
    state: MidfielderRunningState,
    ctx: &StateProcessingContext,
    target: MatchPlayerLite,
)
    requires
        state.find_counter_attack_pass(ctx) == Some(target),
    ensures
        ctx.teammates@.contains(target),
        state.is_counter_target(ctx, target),
        forall|t: MatchPlayerLite| #[trigger]
            ctx.teammates@.contains(t) && t.distance <= units(300)
                && state.is_counter_target(ctx, t)
                ==> state.counter_value(ctx, t) <= state.counter_value(ctx, target),
{
    scan::first_greatest_is_greatest(
        ctx.teammates@,
        |t: MatchPlayerLite| t.distance <= units(300) && state.is_counter_target(ctx, t),
        |t: MatchPlayerLite| state.counter_value(ctx, t),
    );
}

/// A pass back for the sake of possession goes to a free teammate to the side or behind, never
/// up the pitch, and no other one in range is safer.
pub proof fn pass_back_is_the_safest(
    state: MidfielderRunningState,
    ctx: &StateProcessingContext,
    target: MatchPlayerLite,
)
    requires
        state.find_safe_backward_pass(ctx) == Some(target),
    ensures
        ctx.teammates@.contains(target),
        state.is_safe_target(ctx, target),
        !is_ahead_of(ctx, target.position, ctx.player.position),
        forall|t: MatchPlayerLite| #[trigger]
            ctx.teammates@.contains(t) && t.distance <= units(250) && state.is_safe_target(ctx, t)
                ==> state.safety(ctx, t) <= state.safety(ctx, target),
{
    scan::first_greatest_is_greatest(
        ctx.teammates@,
        |t: MatchPlayerLite| t.distance <= units(250) && state.is_safe_target(ctx, t),
        |t: MatchPlayerLite| state.safety(ctx, t),
    );
}

/// The midfielder has no ball, is onside, no restart is on, the ball was not lost just now, and
/// the phase of the team asks for nothing.
pub open spec fn is_left_to_choose(ctx: &StateProcessingContext) -> bool {
    &&& !ctx.player.has_ball
    &&& !ctx.player.stranded_offside
    &&& !ctx.ball.opponent_restart
    &&& !ctx.team.counterpress_window || ctx.team.control_ball
    &&& ctx.team.phase != GamePhase::AttackingTransition
    &&& ctx.team.phase != GamePhase::DefensiveTransition
    &&& ctx.team.phase != GamePhase::HighPress
    &&& ctx.team.phase != GamePhase::LowBlock
}

/// A carrier at arm's length is tackled by any midfielder, one somewhat further away by the best
/// placed, who presses one further away still; the others leave such a carrier alone.
pub proof fn carriers_are_chased(
    state: MidfielderRunningState,
    ctx: &StateProcessingContext,
    carrier: MatchPlayerLite,
)
    requires
        is_left_to_choose(ctx),
        ctx.carrier_within(units(150)) == Some(carrier),
    ensures
        carrier.position.distance_to(ctx.player.position) < units(30) ==> state.process(ctx)
            == Some(
            with_midfielder_state(MidfielderState::Tackling),
        ),
        (ctx.team.best_player_to_chase_ball && carrier.position.distance_to(ctx.player.position)
            < units(50)) ==> state.process(ctx) == Some(
            with_midfielder_state(MidfielderState::Tackling),
        ),
        (ctx.team.best_player_to_chase_ball && carrier.position.distance_to(ctx.player.position)
            >= units(50)) ==> state.process(ctx) == Some(
            with_midfielder_state(MidfielderState::Pressing),
        ),
        (!ctx.team.best_player_to_chase_ball && carrier.position.distance_to(ctx.player.position)
            >= units(30)) ==> (state.process(ctx) matches Some(r) ==> r.state != PlayerState::Midfielder(
            MidfielderState::Tackling,
        ) && r.state != PlayerState::Midfielder(MidfielderState::Pressing)),
{
}

/// Right after the ball is lost it is tackled for close by, and pressed by the one who is chosen
/// for it; what the phase of the team asks for is done next.
pub proof fn phases_are_obeyed(state: MidfielderRunningState, ctx: &StateProcessingContext)
    requires
        !ctx.player.has_ball,
        !ctx.player.stranded_offside,
    ensures
        ctx.team.counterpress_window && !ctx.team.control_ball ==> {
            &&& ctx.ball.distance < units(25) ==> state.process(ctx) == Some(
                with_midfielder_state(MidfielderState::Tackling),
            )
            &&& ctx.ball.distance >= units(25) && ctx.ball.distance < units(80)
                && ctx.player.should_counterpress && ctx.team.best_player_to_chase_ball
                ==> state.process(ctx) == Some(with_midfielder_state(MidfielderState::Pressing))
        },
        (!ctx.team.counterpress_window || ctx.team.control_ball)
            && !ctx.ball.opponent_restart ==> {
            &&& ctx.team.phase == GamePhase::DefensiveTransition && ctx.ball.distance < units(45)
                && ctx.team.best_player_to_chase_ball ==> state.process(ctx) == Some(
                with_midfielder_state(MidfielderState::Pressing),
            )
            &&& ctx.team.phase == GamePhase::DefensiveTransition && ctx.ball.distance > units(80)
                ==> state.process(ctx) == Some(with_midfielder_state(MidfielderState::Returning))
            &&& ctx.team.phase == GamePhase::AttackingTransition
                && ctx.ball.distance_to_opponent_goal > units(40) ==> state.process(ctx) == Some(
                with_midfielder_state(MidfielderState::AttackSupporting),
            )
            &&& ctx.team.phase == GamePhase::HighPress && ctx.ball.distance < units(70)
                && ctx.team.best_player_to_chase_ball ==> state.process(ctx) == Some(
                with_midfielder_state(MidfielderState::Pressing),
            )
            &&& ctx.team.phase == GamePhase::LowBlock
                && ctx.ball.distance > units(50) ==> state.process(
                ctx,
            ) == Some(with_midfielder_state(MidfielderState::Returning))
        },
{
}

/// With the ball in the own team, a midfielder in a cluster away from it makes space; in the lane
/// of the ball the midfielder supports an attack, makes space for a far ball, and supports after a
/// while in any case; out of the lane the midfielder keeps the shape.
pub proof fn attacks_are_supported(state: MidfielderRunningState, ctx: &StateProcessingContext)
    requires
        is_left_to_choose(ctx),
        ctx.team.control_ball,
        forall|o: MatchPlayerLite| #[trigger] ctx.opponents@.contains(o) ==> !o.has_ball,
    ensures
        ({
            let crowded = exists|i: int, j: int|
                0 <= i < j < ctx.teammates@.len()
                    && (#[trigger] ctx.teammates@[i]).distance <= units(25)
                    && (#[trigger] ctx.teammates@[j]).distance <= units(25);
            let in_lane = (ctx.ball.position.y - ctx.player.start_position.y).abs() < units(100);
            let attack = ctx.ball.distance_to_opponent_goal < ctx.width() * milli(400)
                && ctx.ball.distance < units(300);
            if crowded && ctx.ball.distance > units(30) {
                state.process(ctx) == Some(with_midfielder_state(MidfielderState::CreatingSpace))
            } else if !in_lane {
                state.process(ctx) is None
            } else if attack {
                state.process(ctx) == Some(
                    with_midfielder_state(MidfielderState::AttackSupporting),
                )
            } else if ctx.ball.distance > units(200) {
                state.process(ctx) == Some(with_midfielder_state(MidfielderState::CreatingSpace))
            } else if ctx.in_state_time > 80 {
                state.process(ctx) == Some(
                    with_midfielder_state(MidfielderState::AttackSupporting),
                )
            } else {
                state.process(ctx) is None
            }
        }),
{
    crate::context::carriers_have_the_ball(ctx, units(150));
    assert(ctx.teammates.len() == ctx.teammates@.len());
    scan::count_tells_two(ctx.teammates@, |t: MatchPlayerLite| t.distance <= units(25));
}

/// A loose slow ball nearby, or one that is there to be taken, is taken by the best placed; else a
/// corner is attacked in the midfielder's zone, and on the own side a forward of the opponents who
/// sprints at the goal is marked, and a far ball guarded against.
pub proof fn balls_are_won_back(state: MidfielderRunningState, ctx: &StateProcessingContext)
    requires
        is_left_to_choose(ctx),
        !ctx.team.control_ball,
        forall|o: MatchPlayerLite| #[trigger] ctx.opponents@.contains(o) ==> !o.has_ball,
    ensures
        ({
            let loose = ctx.ball.distance < units(50) && !ctx.ball.is_owned
                && ctx.ball.velocity.magnitude()
                < units(3);
            if (loose || ctx.ball.should_take_immediately) && ctx.team.best_player_to_chase_ball {
                state.process(ctx) == Some(with_midfielder_state(MidfielderState::TakeBall))
            } else if ctx.ball.team_attacking_corner && ctx.player.corner_zone is Some {
                state.process(ctx) == Some(with_midfielder_state(MidfielderState::CornerRun))
            } else if ctx.ball.on_own_side && (ctx.ball.distance > units(100) || exists|
                o: MatchPlayerLite,
            | #[trigger]
                ctx.opponents@.contains(o)
                    && o.tactical_positions.group == PositionGroup::Forward && (
                o.position - ctx.player.position).magnitude() <= units(60) && o.velocity.magnitude()
                    >= units(2) && aligned_above(
                    o.velocity,
                    ctx.ball.direction_to_own_goal - o.position,
                    milli(500),
                )) {
                state.process(ctx) == Some(with_midfielder_state(MidfielderState::Guarding))
            } else {
                state.process(ctx) is None
            }
        }),
{
    crate::context::carriers_have_the_ball(ctx, units(150));
    scan::some_is_one_of_them(
        ctx.opponents@,
        |o: MatchPlayerLite|
            o.tactical_positions.is_forward() && state.is_dangerous_runner(ctx, o),
    );
}

/// The midfielder has the ball, away from a corner, with nobody tight and no danger at the own
/// goal.
pub open spec fn is_free_to_play(ctx: &StateProcessingContext) -> bool {
    &&& ctx.player.has_ball
    &&& !ctx.ball.team_attacking_corner
    &&& ctx.in_state_time >= 8 || forall|o: MatchPlayerLite| #[trigger]
        ctx.opponents@.contains(o) ==> o.distance > units(10)
    &&& !ctx.player.under_heavy_pressure
        || ctx.ball.distance_to_own_goal >= ctx.width() * milli(180)
}

/// A midfielder free to play is neither pressed into a shot nor into a pass.
proof fn nothing_comes_before(state: MidfielderRunningState, ctx: &StateProcessingContext)
    requires
        is_free_to_play(ctx),
    ensures
        state.opening(ctx) is None,
        !state.snapshot(ctx),
{
    scan::least_is_least(
        ctx.opponents@,
        |o: MatchPlayerLite| o.distance <= units(10),
        |o: MatchPlayerLite| o.distance,
    );
}

/// A corner of the own team is crossed; right on the ball near the goal with only better tacklers
/// tight, the midfielder shoots at once; under heavy pressure near the own goal the ball is
/// passed.
pub proof fn first_things_first(state: MidfielderRunningState, ctx: &StateProcessingContext)
    requires
        ctx.player.has_ball,
    ensures
        ctx.ball.team_attacking_corner ==> state.process(ctx) == Some(
            with_midfielder_state(MidfielderState::Crossing),
        ),
        ({
            &&& !ctx.ball.team_attacking_corner
            &&& ctx.team.can_shoot
            &&& ctx.in_state_time < 8
            &&& ctx.ball.distance_to_opponent_goal < units(60)
            &&& exists|o: MatchPlayerLite| #[trigger]
                ctx.opponents@.contains(o) && o.distance <= units(10)
            &&& forall|o: MatchPlayerLite| #[trigger]
                ctx.opponents@.contains(o) && o.distance <= units(10)
                    ==> ctx.player.skills.technical.first_touch < o.skills.technical.tackling
                        - milli(500)
        }) ==> (state.process(ctx) matches Some(r) && r.state == PlayerState::Midfielder(
            MidfielderState::Shooting,
        ) && r.shot_reason == Some("MID_SNAPSHOT_PRESSED")),
        (!ctx.ball.team_attacking_corner && ctx.in_state_time >= 8 && ctx.player.under_heavy_pressure
            && ctx.ball.distance_to_own_goal < ctx.width() * milli(180)) ==> state.process(ctx) == Some(
            with_midfielder_state(MidfielderState::Passing),
        ),
{
    scan::least_is_least(
        ctx.opponents@,
        |o: MatchPlayerLite| o.distance <= units(10),
        |o: MatchPlayerLite| o.distance,
    );
}

/// In range and with permission, a clear chance within the ordinary range is taken; otherwise the
/// central rule on shots decides: a shot for its reason, long beyond the ordinary range, or a
/// lay-off to the best receiver.
pub proof fn shots_follow_the_rule(state: MidfielderRunningState, ctx: &StateProcessingContext)
    requires
        is_free_to_play(ctx),
        ctx.team.can_shoot,
        ctx.ball.distance_to_opponent_goal <= units(88),
    ensures
        ({
            let clear = ctx.ball.distance_to_opponent_goal <= units(52)
                && ctx.team.coach_shooting_reluctance
                < milli(500) && ctx.player.clear_shot && ctx.player.good_shooting_angle
                && ctx.player.shooting.clear_shot_xg >= milli(180) && ctx.player.shots_taken <= 4;
            if clear {
                state.process(ctx) matches Some(r) && r.state == PlayerState::Midfielder(
                    MidfielderState::Shooting,
                ) && r.shot_reason == Some("MID_CLEAR_CHANCE")
            } else {
                match ctx.shots.midfield_run {
                    ShotDecision::Shoot { reason } => state.process(ctx) matches Some(r)
                        && r.shot_reason
                        == Some(reason) && r.event is None && r.state == PlayerState::Midfielder(
                        if ctx.ball.distance_to_opponent_goal > units(52) {
                            MidfielderState::DistanceShooting
                        } else {
                            MidfielderState::Shooting
                        },
                    ),
                    ShotDecision::Pass => ctx.best_pass.within_300 matches Some(best) ==> (
                    state.process(ctx) matches Some(r) && r.state == PlayerState::Midfielder(
                        MidfielderState::Standing,
                    ) && r.event == Some(
                        PlayerEvent::PassTo {
                            from: ctx.player.id,
                            to: best.id,
                            target: None,
                            reason: "MID_SHOOT_LAYOFF",
                        },
                    )),
                    ShotDecision::Hold => true,
                }
            }
        }),
{
    nothing_comes_before(state, ctx);
}

/// Out of range, a coach who wants possession has the ball kept at first, unless a counter-attack
/// is on; in a spell of possession without pressure it goes to the side or behind to a free
/// receiver, or is kept.
pub proof fn possession_is_kept(state: MidfielderRunningState, ctx: &StateProcessingContext)
    requires
        is_free_to_play(ctx),
        ctx.ball.distance_to_opponent_goal > units(88),
    ensures
        (ctx.team.coach_prefers_possession && !ctx.team.counter_window && ctx.ball.ownership_duration
            < ctx.team.coach_min_possession_ticks) ==> state.process(ctx) is None,
        ({
            &&& !ctx.team.coach_prefers_possession || ctx.team.counter_window
            &&& forall|o: MatchPlayerLite| #[trigger] ctx.opponents@.contains(o) ==> o.distance
                > units(15)
            &&& ctx.ball.ownership_duration > 8
            &&& ctx.team.should_play_possession
        }) ==> match state.process(ctx) {
            Some(r) => ctx.best_pass.within_300 matches Some(best)
                && r.state == PlayerState::Midfielder(
                MidfielderState::Standing,
            ) && r.event == Some(
                PlayerEvent::PassTo {
                    from: ctx.player.id,
                    to: best.id,
                    target: None,
                    reason: "MID_PATIENT_POSSESSION",
                },
            ) && aligned_below(best.position - ctx.player.position, ctx.to_goal(), milli(400))
                && ctx.opponents_around(best.position, units(10)) < 2,
            None => ctx.best_pass.within_300 matches Some(best) ==> !aligned_below(
                best.position - ctx.player.position,
                ctx.to_goal(),
                milli(400),
            ) || ctx.opponents_around(best.position, units(10)) >= 2,
        },
{
    nothing_comes_before(state, ctx);
    crate::context::nearby_means_close(ctx, units(15), units(15));
}

/// The midfielder is free to play out of range of a shot, with no wish to keep the ball for the
/// sake of possession, and not boxed in.
pub open spec fn is_to_play_on(ctx: &StateProcessingContext) -> bool {
    &&& is_free_to_play(ctx)
    &&& ctx.ball.distance_to_opponent_goal > units(88)
    &&& !ctx.team.coach_prefers_possession
    &&& !ctx.team.should_play_possession
}

/// Boxed in for a while, the ball goes out to the best receiver where that is far enough, else to
/// the furthest free teammate outside the crowd who did not pass just now.
pub proof fn crowds_are_left(state: MidfielderRunningState, ctx: &StateProcessingContext)
    requires
        is_to_play_on(ctx),
        ctx.player.congested,
        ctx.in_state_time > 20,
        ctx.ball.ownership_duration > 15,
    ensures
        (ctx.best_pass.within_300 matches Some(best) && (best.position - ctx.player.position).magnitude()
            > units(40)) ==> (state.process(ctx) matches Some(r) && r.event matches Some(
            PlayerEvent::PassTo { from, to, .. },
        ) && from == ctx.player.id && Some(to) == Some(ctx.best_pass.within_300->0.id)),
        (ctx.best_pass.within_300 is None && exists|t: MatchPlayerLite| #[trigger]
            ctx.teammates@.contains(t) && t.distance <= units(200) && (t.position
                - ctx.player.position).magnitude() > units(40) && t.recency_penalty > milli(300)
                && ctx.opponents_around(t.position, units(15)) < 2) ==> (state.process(ctx) matches Some(r)
            && r.event matches Some(PlayerEvent::PassTo { from, to, .. }) && from == ctx.player.id
            && exists|m: MatchPlayerLite|
            ctx.teammates@.contains(m) && m.id == to && m.recency_penalty > milli(300)
                && ctx.opponents_around(m.position, units(15)) < 2 && (m.position
                - ctx.player.position).magnitude() > units(40) && forall|t: MatchPlayerLite|
                ctx.teammates@.contains(t) && t.distance <= units(200)
                    && #[trigger] state.is_outlet(ctx, t)
                    ==> (t.position - ctx.player.position).magnitude() <= (#[trigger] m.position
                    - ctx.player.position).magnitude()),
{
    nothing_comes_before(state, ctx);
    let p = |t: MatchPlayerLite| t.distance <= units(200) && state.is_outlet(ctx, t);
    let k = |t: MatchPlayerLite| (t.position - ctx.player.position).magnitude();
    scan::greatest_is_greatest(ctx.teammates@, p, k);
    if exists|t: MatchPlayerLite| #[trigger]
        ctx.teammates@.contains(t) && t.distance <= units(200) && (t.position
            - ctx.player.position).magnitude() > units(40) && t.recency_penalty > milli(300)
            && ctx.opponents_around(t.position, units(15)) < 2 {
        let t = choose|t: MatchPlayerLite| #[trigger]
            ctx.teammates@.contains(t) && t.distance <= units(200) && (t.position
                - ctx.player.position).magnitude() > units(40) && t.recency_penalty > milli(300)
                && ctx.opponents_around(t.position, units(15)) < 2;
        assert(p(t));
        let m = state.furthest_outlet(ctx)->0;
        assert(ctx.teammates@.contains(m) && p(m));
        assert forall|t: MatchPlayerLite|
            ctx.teammates@.contains(t) && t.distance <= units(200)
                && #[trigger] state.is_outlet(ctx, t)
            implies (t.position - ctx.player.position).magnitude() <= (m.position
            - ctx.player.position).magnitude() by {
            assert(p(t));
            assert(k(t) <= k(m));
        }
    }
}

/// With the way to the goal open, near enough to it, a midfielder who can carries the ball on;
/// soon
/// after getting the ball, opponents in the way are taken on, two at the most and by those who
/// dare two, and never where nobody is.
pub proof fn ways_are_taken(state: MidfielderRunningState, ctx: &StateProcessingContext)
    requires
        is_to_play_on(ctx),
        ctx.in_state_time <= 20,
    ensures
        (ctx.ball.distance_to_opponent_goal < ctx.width() * milli(450) && opponents_in_the_way(
            ctx,
            units(30),
            milli(400),
        ) == 0 && ctx.player.midfield.allows_carry_into_space) ==> state.process(ctx) is None,
        (!ctx.player.midfield.allows_carry_into_space && 5 < ctx.ball.ownership_duration < 60
            && ctx.ball.distance_to_opponent_goal < ctx.width() * milli(750)) ==> {
            let ahead = state.opponents_ahead(ctx);
            &&& ahead == 1 && (ctx.player.midfield.allows_take_on_one
                || ctx.player.midfield.allows_take_on_two) ==> state.process(ctx) == Some(
                with_midfielder_state(MidfielderState::Dribbling),
            )
            &&& ahead == 2
                && ctx.player.midfield.allows_take_on_two ==> state.process(ctx) == Some(
                with_midfielder_state(MidfielderState::Dribbling),
            )
        },
        (state.opponents_ahead(ctx) == 0 || state.opponents_ahead(ctx) > 2 || (
        !ctx.player.midfield.allows_take_on_one && !ctx.player.midfield.allows_take_on_two)) ==> (
        state.process(ctx) matches Some(r) ==> r.state != PlayerState::Midfielder(
            MidfielderState::Dribbling,
        )),
        state.opponents_ahead(ctx) > 0 <==> exists|o: MatchPlayerLite| #[trigger]
            ctx.opponents@.contains(o) && o.distance <= units(40) && aligned_above(
                o.position - ctx.player.position,
                ctx.to_goal(),
                milli(300),
            ) && (o.position - ctx.player.position).norm_squared() < units(1225),
{
    nothing_comes_before(state, ctx);
    assert(ctx.opponents.len() == ctx.opponents@.len());
    scan::count_tells_some(
        ctx.opponents@,
        |o: MatchPlayerLite|
            o.distance <= units(40) && aligned_above(
                o.position - ctx.player.position,
                ctx.to_goal(),
                milli(300),
            ) && (o.position - ctx.player.position).norm_squared() < units(1225),
    );
}

/// A midfielder with the ball in control, nobody to take on and no open way, plays it: into a
/// counter-attack just after winning it, back to the passer soon after a pass, to where a tackler
/// has left later on, from near the byline back to a runner.
pub proof fn combinations_are_played(state: MidfielderRunningState, ctx: &StateProcessingContext)
    requires
        is_to_play_on(ctx),
        ctx.in_state_time <= 20,
        !ctx.player.midfield.allows_carry_into_space,
        !ctx.player.midfield.allows_take_on_one,
        !ctx.player.midfield.allows_take_on_two,
        ctx.ball.stable_possession,
    ensures
        (ctx.ball.ownership_duration > 8 && state.is_counter_attack_opportunity(ctx)) ==> (
        state.find_counter_attack_pass(ctx) matches Some(m) ==> state.process(ctx) == Some(
            with_midfielder_state(MidfielderState::Running).with_event(
                pass_to(ctx.player.id, m.id, "MID_RUNNING_COUNTER_ATTACK"),
            ),
        )),
        (15 <= ctx.ball.ownership_duration <= 30) ==> (state.find_one_two_return(ctx) matches Some(m)
            ==> state.process(ctx) == Some(
            with_midfielder_state(MidfielderState::Running).with_event(
                pass_to(ctx.player.id, m.id, "MID_RUNNING_ONE_TWO_RETURN"),
            ),
        )),
        ctx.ball.ownership_duration > 30 ==> (state.find_draw_and_release_pass(ctx) matches Some(m)
            ==> state.process(ctx) == Some(
            with_midfielder_state(MidfielderState::Running).with_event(
                pass_to(ctx.player.id, m.id, "MID_RUNNING_DRAW_AND_RELEASE"),
            ),
        )),
        ({
            &&& ctx.ball.ownership_duration > 30
            &&& state.find_draw_and_release_pass(ctx) is None
            &&& (ctx.goal().x - ctx.player.position.x).abs() < units(90)
            &&& (ctx.player.position.y - ctx.height() / units(2)).abs() > ctx.height() * milli(150)
        }) ==> (ctx.cutback_runner matches Some(runner) ==> state.process(ctx) == Some(
            with_midfielder_state(MidfielderState::Standing).with_event(
                pass_to(ctx.player.id, runner, "MID_CUTBACK_TO_RUNNER"),
            ),
        )),
{
    nothing_comes_before(state, ctx);
}

/// A midfielder in control who finds nobody to combine with crosses from a wide place near the
/// goal on a low draw, switches play with three teammates or more on the same half, and passes
/// where a pass is due.
pub proof fn other_plays_follow(state: MidfielderRunningState, ctx: &StateProcessingContext)
    requires
        is_to_play_on(ctx),
        ctx.in_state_time <= 20,
        !ctx.player.midfield.allows_carry_into_space,
        !ctx.player.midfield.allows_take_on_one,
        !ctx.player.midfield.allows_take_on_two,
        ctx.ball.stable_possession,
        ctx.ball.ownership_duration > 30,
        state.find_draw_and_release_pass(ctx) is None,
        ctx.cutback_runner is None,
    ensures
        ({
            let crosses = (ctx.player.position.y < ctx.height() * milli(200) || ctx.player.position.y
                > ctx.height() - ctx.height() * milli(200)) && ctx.ball.distance_to_opponent_goal
                <= ctx.width() * milli(350) && ctx.teammates_around(ctx.goal(), units(150)) > 0
                && ctx.rolls.cross < ctx.curves.crossing_8;
            if crosses {
                state.process(ctx) == Some(with_midfielder_state(MidfielderState::Crossing))
            } else if ctx.player.congested && ctx.player.midfield.allows_switch_play {
                state.process(ctx) == Some(with_midfielder_state(MidfielderState::SwitchingPlay))
            } else if !ctx.player.midfield.allows_switch_play {
                if state.should_pass(ctx) && ctx.best_pass.within_300 is Some {
                    state.process(ctx) == Some(
                        with_midfielder_state(MidfielderState::Running).with_event(
                            pass_to(
                                ctx.player.id,
                                ctx.best_pass.within_300->0.id,
                                "MID_RUNNING_SHOULD_PASS",
                            ),
                        ),
                    )
                } else {
                    state.process(ctx) is None
                }
            } else {
                true
            }
        }),
{
    nothing_comes_before(state, ctx);
}

/// After long hesitation something happens: a pass to the best receiver, a shot of a playmaker by
/// the central rule, or one from close by, or a pass to the first teammate in range.
pub proof fn hesitation_ends(state: MidfielderRunningState, ctx: &StateProcessingContext)
    requires
        is_to_play_on(ctx),
        ctx.in_state_time > 250,
        !ctx.ball.stable_possession,
        ctx.ball.ownership_duration <= 5,
        !ctx.player.midfield.allows_carry_into_space,
    ensures
        ctx.best_pass.within_300 matches Some(best) ==> state.process(ctx) == Some(
            with_midfielder_state(MidfielderState::Running).with_event(
                pass_to(ctx.player.id, best.id, "MID_RUNNING_ANTI_OSCILLATION"),
            ),
        ),
        (ctx.best_pass.within_300 is None && ctx.player.tactical_position.group
            == PositionGroup::Midfielder && ctx.player.tactical_position.attacking) ==> (
        ctx.shots.midfield_run_hesitation matches ShotDecision::Shoot { reason } ==> (state.process(
            ctx,
        ) matches Some(r) && r.state == PlayerState::Midfielder(MidfielderState::Shooting)
            && r.shot_reason == Some(reason))),
        (ctx.best_pass.within_300 is None && !ctx.player.tactical_position.attacking && exists|
            t: MatchPlayerLite,
        | #[trigger]
            ctx.teammates@.contains(t) && t.distance <= units(200)) ==> (state.process(ctx) matches Some(r)
            && r.state == PlayerState::Midfielder(MidfielderState::Running) && (r.event matches Some(
            PlayerEvent::PassTo { from, to, .. },
        ) && from == ctx.player.id && exists|m: MatchPlayerLite| #[trigger]
            ctx.teammates@.contains(m) && m.distance <= units(200) && m.id == to)),
        (ctx.best_pass.within_300 is None && !ctx.player.tactical_position.attacking && forall|
            t: MatchPlayerLite,
        | #[trigger]
            ctx.teammates@.contains(t) ==> t.distance > units(200)) ==> state.process(ctx) is None,
{
    nothing_comes_before(state, ctx);
    scan::first_is_one_of_them(
        ctx.teammates@,
        |t: MatchPlayerLite|
            t.distance <= units(200) && aligned_above(
                t.position - ctx.player.position,
                ctx.to_goal(),
                units(0),
            ),
    );
    scan::first_is_one_of_them(ctx.teammates@, |t: MatchPlayerLite| t.distance <= units(200));
}

/// A shot is also what long hesitation right before the goal ends in, with a clear lane and the
/// eye for it.
pub proof fn hesitation_before_goal_ends(
    state: MidfielderRunningState,
    ctx: &StateProcessingContext,
)
    requires
        is_free_to_play(ctx),
        !ctx.team.can_shoot,
        ctx.ball.distance_to_opponent_goal <= units(20),
        ctx.in_state_time > 250,
        !ctx.ball.stable_possession,
        ctx.ball.ownership_duration <= 5,
        ctx.best_pass.within_300 is None,
        !ctx.player.tactical_position.attacking,
        ctx.player.clear_shot,
        ctx.player.midfield.mid_shot_selection >= milli(400),
    ensures
        state.process(ctx) matches Some(r) && r.state == PlayerState::Midfielder(
            MidfielderState::Shooting,
        ) && r.shot_reason == Some("MID_RUN_ANTI_OSCILLATION"),
{
    nothing_comes_before(state, ctx);
}

/// The more and the nearer the opponents, the greater the pressure: none without any within reach,
/// and a nearer one presses no less.
pub proof fn nearer_opponents_press_more(
    state: MidfielderRunningState,
    a: MatchPlayerLite,
    b: MatchPlayerLite,
)
    requires
        a.distance <= b.distance,
    ensures
        state.pressure_of(b) <= state.pressure_of(a),
        units(0) <= state.pressure_of(b),
        state.pressure_of(a) <= milli(500),
        b.distance > units(50) ==> state.pressure_of(b) == units(0),
        a.distance <= units(50) ==> state.pressure_of(a) > units(0),
        a.distance < units(15)
            && b.distance >= units(15) ==> state.pressure_of(b) < state.pressure_of(a),
        a.distance < units(30)
            && b.distance >= units(30) ==> state.pressure_of(b) < state.pressure_of(a),
{
}

/// Nobody within reach, no pressure; and pressure adds up, opponent by opponent, up to one.
pub proof fn pressure_adds_up(state: MidfielderRunningState, ctx: &StateProcessingContext)
    ensures
        (
            forall|o: MatchPlayerLite| #[trigger] ctx.opponents@.contains(o) ==> o.distance
                > units(50)
        )
            ==> state.calculate_pressing_intensity(ctx) == units(0),
        (exists|o: MatchPlayerLite| #[trigger]
            ctx.opponents@.contains(o) && o.distance < units(15))
            ==> state.calculate_pressing_intensity(ctx) >= milli(250),
{
    let k = |o: MatchPlayerLite| state.pressure_of(o);
    if forall|o: MatchPlayerLite| #[trigger] ctx.opponents@.contains(o) ==> o.distance > units(50) {
        no_pressure(state, ctx.opponents@);
    }
    if exists|o: MatchPlayerLite| #[trigger] ctx.opponents@.contains(o) && o.distance < units(15) {
        let o = choose|o: MatchPlayerLite| #[trigger] ctx.opponents@.contains(o)
            && o.distance < units(15);
        one_presses(state, ctx.opponents@, o);
        crate::scalar::quotient_keeps_order(milli(500), scan::total(ctx.opponents@, k), units(2));
    }
}

/// Opponents out of reach press nothing.
proof fn no_pressure(state: MidfielderRunningState, s: Seq<MatchPlayerLite>)
    requires
        forall|o: MatchPlayerLite| #[trigger] s.contains(o) ==> o.distance > units(50),
    ensures
        scan::total(s, |o: MatchPlayerLite| state.pressure_of(o)) == units(0),
    decreases s.len(),
{
    if s.len() > 0 {
        assert(s.contains(s.last()));
        assert forall|o: MatchPlayerLite| #[trigger] s.drop_last().contains(o) implies o.distance
            > units(50) by {
            assert(s.contains(o));
        }
        no_pressure(state, s.drop_last());
    }
}

/// Together the opponents press no less than one of them who is very close.
proof fn one_presses(state: MidfielderRunningState, s: Seq<MatchPlayerLite>, o: MatchPlayerLite)
    requires
        s.contains(o),
        o.distance < units(15),
    ensures
        scan::total(s, |o: MatchPlayerLite| state.pressure_of(o)) >= milli(500),
    decreases s.len(),
{
    let k = |o: MatchPlayerLite| state.pressure_of(o);
    scan::total_is_not_negative(s.drop_last(), k);
    if s.last() != o {
        let i = choose|i: int| 0 <= i < s.len() && s[i] == o;
        assert(s.drop_last()[i] == o);
        one_presses(state, s.drop_last(), o);
    }
}

/// A pass is due under great pressure, but for the resistant who do not pass well; to a teammate
/// much better placed, by those who see a killer ball; and after long on the ball in any case.
pub proof fn passes_are_due(state: MidfielderRunningState, ctx: &StateProcessingContext)
    ensures
        state.calculate_pressing_intensity(ctx) > milli(700) ==> (state.should_pass(ctx)
            <==> ctx.player.midfield.press_resistance < milli(550)
                || ctx.player.midfield.pass_execution
            > milli(300)),
        (state.calculate_pressing_intensity(ctx) > milli(500) && ctx.player.midfield.press_resistance
            < milli(550)) ==> state.should_pass(ctx),
        (state.calculate_pressing_intensity(ctx) <= milli(500) && ctx.player.midfield.allows_killer_ball
            && exists|t: MatchPlayerLite| #[trigger]
            ctx.teammates@.contains(t) && t.distance <= units(300) && t.clear_pass
                && ctx.opponents_around(t.position, units(30)) < 2
                && t.position.distance_to(ctx.goal())
                < ctx.ball.distance_to_opponent_goal * milli(800)) ==> state.should_pass(ctx),
        (state.calculate_pressing_intensity(ctx) <= milli(200) && !ctx.player.midfield.allows_killer_ball
            && ctx.ball.distance_to_opponent_goal <= units(200)) ==> (state.should_pass(ctx)
            <==> ctx.ball.ownership_duration > 60),
        (milli(200) < state.calculate_pressing_intensity(ctx) && state.calculate_pressing_intensity(ctx)
            <= milli(300) && !ctx.player.midfield.allows_killer_ball) ==> (state.should_pass(ctx)
            <==> ctx.player.midfield.pass_execution > milli(450)),
{
    let own = ctx.ball.distance_to_opponent_goal;
    scan::some_is_one_of_them(
        ctx.teammates@,
        |t: MatchPlayerLite|
            t.distance <= units(300) && t.position.distance_to(ctx.goal()) < own * milli(800)
                && ctx.opponents_around(t.position, units(30)) < 2 && t.clear_pass,
    );
}

/// Of two teammates alike otherwise, the one nearer to the goal is worth no less in a
/// counter-attack, a forward more than another, one on the run more, and a free one more.
pub proof fn counter_values(
    state: MidfielderRunningState,
    ctx: &StateProcessingContext,
    t: MatchPlayerLite,
    m: MatchPlayerLite,
)
    requires
        t.position.distance_to(ctx.goal()) <= m.position.distance_to(ctx.goal()),
        m.position.distance_to(ctx.goal()) <= units(100_000),
        m.tactical_positions.group == PositionGroup::Forward ==> t.tactical_positions.group
            == PositionGroup::Forward,
        (
            m.velocity.magnitude() > units(1)
                && aligned_above(m.velocity, ctx.to_goal(), milli(300))
        ) ==> (
        t.velocity.magnitude() > units(1) && aligned_above(t.velocity, ctx.to_goal(), milli(300))),
        ctx.opponents_around(m.position, units(10))
            == 0 ==> ctx.opponents_around(t.position, units(10))
            == 0,
    ensures
        state.counter_value(ctx, m) <= state.counter_value(ctx, t),
        (t.tactical_positions.group == PositionGroup::Forward && m.tactical_positions.group
            != PositionGroup::Forward) ==> state.counter_value(ctx, m) + units(200)
            <= state.counter_value(ctx, t),
        (ctx.opponents_around(t.position, units(10)) == 0 && ctx.opponents_around(m.position, units(10))
            > 0) ==> state.counter_value(ctx, m) + units(100) <= state.counter_value(ctx, t),
        t.position.distance_to(ctx.goal()) < m.position.distance_to(ctx.goal())
            ==> state.counter_value(ctx, m) < state.counter_value(ctx, t),
{
    crate::vector::length_is_not_negative(t.position - ctx.goal());
}

/// A counter-attack goes to those ahead who can be reached and have at most one opponent on them.
pub proof fn counter_targets_are_ahead(
    state: MidfielderRunningState,
    ctx: &StateProcessingContext,
    t: MatchPlayerLite,
)
    ensures
        state.is_counter_target(ctx, t) <==> !aligned_below(
            t.position - ctx.player.position,
            ctx.player.opponent_goal_position - ctx.player.position,
            milli(300),
        ) && ctx.opponents_around(t.position, units(10)) <= 1 && t.clear_pass,
        state.is_counter_attack_opportunity(ctx) ==> ctx.ball.ownership_duration < 15 && (
        ctx.ball.on_own_side || ctx.ball.distance_to_opponent_goal >= ctx.width() * milli(400)),
        (ctx.ball.ownership_duration < 15 && ctx.ball.on_own_side && forall|o: MatchPlayerLite| #[trigger]
            ctx.opponents@.contains(o) ==> !aligned_above(
                o.position - ctx.ball.position,
                ctx.goal() - ctx.ball.position,
                milli(300),
            )) ==> state.is_counter_attack_opportunity(ctx),
{
    let ball = ctx.ball.position;
    assert(ctx.opponents.len() == ctx.opponents@.len());
    scan::count_tells_some(
        ctx.opponents@,
        |o: MatchPlayerLite| aligned_above(o.position - ball, ctx.goal() - ball, milli(300)),
    );
}

/// A one-two goes back to the latest passer, of the own team, who has run on: clearly nearer to
/// the goal, with nobody around, in sight and at a fair distance.
pub proof fn one_twos_go_back(state: MidfielderRunningState, ctx: &StateProcessingContext)
    ensures
        state.find_one_two_return(ctx) matches Some(m) ==> {
            &&& ctx.teammates@.contains(m)
            &&& ctx.ball.last_passer == Some(m.id)
            &&& m.clear_pass
            &&& m.position.distance_to(ctx.goal())
                < ctx.player.position.distance_to(ctx.goal()) * milli(900)
            &&& ctx.opponents_around(m.position, units(50)) == 0
            &&& (m.position - ctx.player.position).magnitude().is_between(units(10), units(200))
            &&& ctx.by_id(m.id) matches Some(p) && p.team_id == ctx.player.team_id
        },
        forall|i: int|
            0 <= i < ctx.teammates@.len() && ctx.ball.last_passer == Some(
                (#[trigger] ctx.teammates@[i]).id,
            ) && (forall|j: int|
                0 <= j < i ==> Some((#[trigger] ctx.teammates@[j]).id) != ctx.ball.last_passer) && (
            ctx.by_id(ctx.teammates@[i].id) matches Some(p) && p.team_id == ctx.player.team_id)
                && ctx.teammates@[i].clear_pass && ctx.opponents_around(
                ctx.teammates@[i].position,
                units(50),
            ) == 0 && (ctx.teammates@[i].position - ctx.player.position).magnitude().is_between(
                units(10),
                units(200),
            ) && ctx.teammates@[i].position.distance_to(ctx.goal())
                < ctx.player.position.distance_to(
                ctx.goal(),
            ) * milli(900) ==> state.find_one_two_return(ctx) == Some(ctx.teammates@[i]),
{
    if let Some(id) = ctx.ball.last_passer {
        let p = |t: MatchPlayerLite| t.id == id;
        scan::first_is_one_of_them(ctx.teammates@, p);
        assert forall|i: int|
            0 <= i < ctx.teammates@.len() && ctx.ball.last_passer == Some(
                (#[trigger] ctx.teammates@[i]).id,
            ) && (forall|j: int|
                0 <= j < i ==> Some((#[trigger] ctx.teammates@[j]).id) != ctx.ball.last_passer)
            implies scan::first_where(ctx.teammates@, p) == Some(ctx.teammates@[i]) by {
            scan::first_comes_first(ctx.teammates@, p, i);
        }
    }
}

/// The ball that is released when an opponent comes goes to a free teammate near the space that
/// the opponent has left.
pub proof fn releases_find_the_space(
    state: MidfielderRunningState,
    ctx: &StateProcessingContext,
    m: MatchPlayerLite,
)
    requires
        state.find_draw_and_release_pass(ctx) == Some(m),
    ensures
        ctx.teammates@.contains(m),
        m.clear_pass,
        ctx.opponents_around(m.position, units(10)) < 2,
        exists|o: MatchPlayerLite| #[trigger]
            ctx.opponents@.contains(o)
                && (o.position - ctx.player.position).magnitude().is_between(
                units(15),
                units(35),
            ) && o.velocity.magnitude() >= units(1) && aligned_above(
                o.velocity,
                ctx.player.position - o.position,
                milli(600),
            ) && (m.position - (o.position - o.velocity.direction()->0 * units(30))).magnitude()
                < units(60),
{
    let p = |o: MatchPlayerLite| o.distance <= units(35) && state.is_closing_in(ctx, o);
    let k = |o: MatchPlayerLite| (o.position - ctx.player.position).magnitude();
    scan::least_is_least(ctx.opponents@, p, k);
    if let Some(opponent) = scan::least_where(ctx.opponents@, p, k) {
        let spot = opponent.position - opponent.velocity.direction()->0 * units(30);
        scan::least_is_least(
            ctx.teammates@,
            |t: MatchPlayerLite|
                t.distance <= units(200) && (t.position - spot).magnitude() < units(60)
                    && t.clear_pass
                    && ctx.opponents_around(t.position, units(10)) < 2,
            |t: MatchPlayerLite| (t.position - spot).magnitude(),
        );
    }
}

/// A pass back is the safer the further back the line of the receiver, the goalkeeper before all;
/// nearer to the own goal than the passer is safer, and so is a free receiver.
pub proof fn safety_grows_to_the_back(
    state: MidfielderRunningState,
    ctx: &StateProcessingContext,
    t: MatchPlayerLite,
    m: MatchPlayerLite,
)
    requires
        t.position == m.position,
    ensures
        t.tactical_positions.group == m.tactical_positions.group ==> state.safety(ctx, t)
            == state.safety(ctx, m),
        t.tactical_positions.group == PositionGroup::Goalkeeper && m.tactical_positions.group
            != PositionGroup::Goalkeeper ==> state.safety(ctx, m) < state.safety(ctx, t),
        t.tactical_positions.group == PositionGroup::Defender && (m.tactical_positions.group
            == PositionGroup::Midfielder || m.tactical_positions.group == PositionGroup::Forward)
            ==> state.safety(ctx, m) + units(25) <= state.safety(ctx, t),
        t.tactical_positions.group == PositionGroup::Midfielder && m.tactical_positions.group
            == PositionGroup::Forward ==> state.safety(ctx, m) + units(10) == state.safety(ctx, t),
{
}

/// A safe receiver in range is not ahead, at some distance, in sight, with at most one opponent
/// on;
/// nearer to the own goal than the passer and free is worth the most of a line.
pub proof fn safe_is_free_and_back(
    state: MidfielderRunningState,
    ctx: &StateProcessingContext,
    t: MatchPlayerLite,
    m: MatchPlayerLite,
)
    requires
        t.tactical_positions.group == m.tactical_positions.group,
    ensures
        state.is_safe_target(ctx, t) ==> t.clear_pass
            && (t.position - ctx.player.position).magnitude()
            >= units(15) && ctx.opponents_around(t.position, units(12)) <= 1,
        ({
            let own_goal = ctx.ball.direction_to_own_goal;
            let back = (own_goal - t.position).magnitude() < (
                own_goal - ctx.player.position
            ).magnitude();
            let other = (own_goal - m.position).magnitude() < (
                own_goal - ctx.player.position
            ).magnitude();
            let free = ctx.opponents_around(t.position, units(12)) == 0;
            let open = ctx.opponents_around(m.position, units(12)) == 0;
            &&& back && !other
                && free == open ==> state.safety(ctx, m) + units(20) == state.safety(ctx, t)
            &&& back == other && free
                && !open ==> state.safety(ctx, m) + units(15) == state.safety(ctx, t)
        }),
{
}

/// Possession is kept by a team that is not behind, in control, away from the goal, without much
/// pressure, and with the way forward blocked.
pub proof fn possession_is_kept_for_a_reason(
    state: MidfielderRunningState,
    ctx: &StateProcessingContext,
)
    ensures
        state.should_retain_possession(ctx) <==> !ctx.team.losing && ctx.team.control_ball
            && ctx.ball.distance_to_opponent_goal >= ctx.width() * milli(350)
            && state.calculate_pressing_intensity(ctx) <= milli(500) && opponents_in_the_way(
            ctx,
            units(30),
            milli(400),
        ) > 0,
{
}

/// With the ball the midfielder goes forward, and slowly to keep it; without it to the place in
/// the
/// block, or in the attacking shape, and stays there.
pub proof fn places_are_kept(state: MidfielderRunningState, ctx: &StateProcessingContext)
    requires
        ctx.field_size.width >= 60,
        ctx.field_size.height >= 60,
        !ctx.player.should_follow_waypoints,
    ensures
        ctx.player.has_ball && state.should_retain_possession(ctx) ==> (state.velocity(ctx) matches Some(m)
            && m.factor == milli(600)),
        (ctx.player.has_ball && !state.should_retain_possession(ctx)) ==> (state.velocity(ctx) matches Some(m)
            && m.factor == units(1)),
        !ctx.player.has_ball && !ctx.team.control_ball ==> (state.velocity(ctx) matches Some(m)
            && m.steering == Some(
            Steering::Arrive { target: state.block_target(ctx), slowing_distance: units(25) },
        )),
        (!ctx.player.has_ball && ctx.team.control_ball && (state.support_target(ctx)
            - ctx.player.position).magnitude() >= units(8)) ==> (state.velocity(ctx) matches Some(m)
            && m.steering == Some(
            Steering::Arrive { target: state.support_target(ctx), slowing_distance: units(20) },
        )),
        (!ctx.player.has_ball && ctx.team.control_ball && ctx.ball.distance < units(40)
            && ctx.player.start_position.x.is_between(units(30), ctx.width() - units(30))
            && ctx.player.start_position.y.is_between(units(30), ctx.height() - units(30))) ==> (
        state.support_target(ctx).x == ctx.player.start_position.x && state.support_target(ctx).y
            == ctx.player.start_position.y),
{
    crate::scalar::one_changes_nothing(milli(600));
}

/// The block shifts with the ball: the further the ball on one side, the further the place of the
/// midfielder on that side, and deeper the nearer the ball to the own goal.
pub proof fn block_shifts_with_the_ball(
    state: MidfielderRunningState,
    ctx: &StateProcessingContext,
    other: &StateProcessingContext,
)
    requires
        ctx.field_size == other.field_size,
        ctx.player == other.player,
        ctx.ball.is_owned == other.ball.is_owned,
        ctx.field_size.width >= 60,
        ctx.field_size.height >= 60,
        ctx.ball.position.x <= other.ball.position.x,
        ctx.ball.position.y <= other.ball.position.y,
        (ctx.ball.position.y < ctx.height() * milli(500)) == (other.ball.position.y < ctx.height()
            * milli(500)),
    ensures
        state.block_target(ctx).x <= state.block_target(other).x,
        state.block_target(ctx).y <= state.block_target(other).y,
{
    let middle = ctx.height() * milli(500);
    let pull = if ctx.ball.is_owned {
        milli(300)
    } else {
        milli(450)
    };
    crate::scalar::scaling_keeps_order(
        ctx.ball.position.x - ctx.width() * milli(500),
        other.ball.position.x - ctx.width() * milli(500),
        milli(150),
    );
    crate::scalar::scaling_keeps_order(
        ctx.ball.position.y - middle,
        other.ball.position.y - middle,
        pull,
    );
}

/// A midfielder with waypoints to follow follows them, five off the path, and nobody else does; a
/// supporting one within eight of the place is still.
pub proof fn waypoints_come_first(state: MidfielderRunningState, ctx: &StateProcessingContext)
    requires
        state.fits_pitch(ctx),
    ensures
        (
            ctx.player.should_follow_waypoints && ctx.player.waypoint_count > 0
        ) ==> state.velocity(ctx) == Some(
            steer(Steering::FollowPath { path_offset: units(5) }),
        ),
        (
            !ctx.player.should_follow_waypoints || ctx.player.waypoint_count == 0
        ) ==> state.velocity(ctx) is Some
            && (state.velocity(ctx)->0.steering matches Some(s) ==> !(s is FollowPath)),
        (!ctx.player.should_follow_waypoints && !ctx.player.has_ball && ctx.team.control_ball && (
        state.support_target(ctx) - ctx.player.position).magnitude() < units(8)) ==> state.velocity(ctx)
            == Some(still()),
{
}

/// The ball is carried 40 on at the goal, a fifth of the sway to the side; and kept 20 on towards
/// the nearer half-space, 15 ahead.
pub proof fn carries_sway(state: MidfielderRunningState, ctx: &StateProcessingContext)
    ensures
        ctx.to_goal().direction() matches Some(ahead) ==> {
            let way = ahead + flat(ahead.y.negated(), ahead.x) * (ctx.quick_sway * milli(200));
            let spot = state.retention_spot(ctx, ahead);
            &&& way.direction() matches Some(w) ==> state.swaying_spot(ctx) == Some(
                ctx.player.position + w * units(40),
            )
            &&& spot.x == ctx.player.position.x + ahead.x * units(15)
            &&& ctx.player.position.y < ctx.height() / units(2) ==> spot.y.raw
                == ctx.field_size.height
                * 350_000
            &&& ctx.player.position.y >= ctx.height() / units(2) ==> spot.y.raw
                == ctx.field_size.height
                * 650_000
            &&& ctx.slow_sway == units(0) ==> ((spot - ctx.player.position).direction() matches Some(w)
                ==> state.retention_target(ctx) == Some(
                ctx.player.position + w * units(20) + flat(
                    ahead.y.negated(),
                    ahead.x,
                ) * units(0) * units(10),
            ))
        },
        ctx.to_goal().direction() is None ==> state.swaying_spot(ctx) is None
            && state.retention_target(ctx) is None,
{
    crate::scalar::thousandths_of(ctx.height(), 350);
    crate::scalar::thousandths_of(ctx.height(), 650);
    crate::scalar::zero_stays_zero(milli(500));
}

} // verus!
