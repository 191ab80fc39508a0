//! A midfielder who looks for a pass.
use crate::context::{
    headcount, is_player, share, turned, InterceptAssignment, MatchPlayerLite, PlayerSide,
    PositionGroup, ShotDecision, ShotOccasion, StateProcessingContext,
};
use crate::movement::{is_behind_of, is_on_the_line};
use crate::outcome::{
    arrive_if_any, exertion, glide_along, pass_to, still, with_midfielder_state,
    ActivityIntensity, Exertion, MidfielderState, Movement, PlayerEvent, PlayerState,
    StateChangeResult, Steering,
};
use crate::scalar::{micro, milli, units, Scalar};
use crate::scan;
use crate::vector::{flat, vec3, Vec3};
use vstd::prelude::*;

verus! {

#[derive(Default, Clone, Copy)]
pub struct MidfielderPassingState {}

impl MidfielderPassingState {
    pub open spec fn spec_process(
        &self,
        ctx: &StateProcessingContext,
    ) -> Option<StateChangeResult> {
        if !ctx.player.has_ball {
            Some(with_midfielder_state(MidfielderState::Running))
        } else {
            match ctx.evaluate_forward_shot_decision(ShotOccasion::MidfieldPass) {
                ShotDecision::Shoot { reason } => {
                    Some(with_midfielder_state(MidfielderState::Shooting).with_shot_reason(reason))
                },
                _ => {
                    if self.is_under_heavy_pressure(ctx) && self.in_box_danger_zone(ctx)
                        && !ctx.player.has_safe_pass {
                        Some(
                            with_midfielder_state(MidfielderState::Running).with_event(
                                self.emit_emergency_clearance(ctx),
                            ),
                        )
                    } else {
                        match self.pass_now(ctx) {
                            Some(result) => {
                                Some(result)
                            },
                            None => {
                                if ctx.in_state_time > self.bail_time(ctx) {
                                    Some(self.bail_out(ctx))
                                } else {
                                    None
                                }
                            },
                        }
                    }
                },
            }
        }
    }

    /// The next state of a passing midfielder.
    #[verifier::when_used_as_spec(spec_process)]
    pub fn process(&self, ctx: &StateProcessingContext) -> (r: Option<StateChangeResult>)
        ensures
            r == self.spec_process(ctx),
    {
        if !ctx.player.has_ball {
            return Some(with_midfielder_state(MidfielderState::Running));
        }
        match ctx.evaluate_forward_shot_decision(ShotOccasion::MidfieldPass) {
            ShotDecision::Shoot { reason } => {
                return Some(
                    with_midfielder_state(MidfielderState::Shooting).with_shot_reason(reason),
                );
            },
            _ => {},
        }
        // Right in front of the own goal, under pressure and without a safe pass: away with it.
        if self.is_under_heavy_pressure(ctx) && self.in_box_danger_zone(ctx)
            && !ctx.player.has_safe_pass {
            return Some(
                with_midfielder_state(MidfielderState::Running).with_event(
                    self.emit_emergency_clearance(ctx),
                ),
            );
        }
        match self.pass_now(ctx) {
            Some(result) => {
                return Some(result);
            },
            None => {},
        }
        if ctx.in_state_time > self.bail_time(ctx) {
            return Some(self.bail_out(ctx));
        }
        None
    }

    pub open spec fn spec_min_scan_time(&self, ctx: &StateProcessingContext) -> u64 {
        if self.is_under_heavy_pressure(ctx) {
            2
        } else {
            5
        }
    }

    /// Steps of looking about before a pass, fewer under pressure.
    #[verifier::when_used_as_spec(spec_min_scan_time)]
    pub fn min_scan_time(&self, ctx: &StateProcessingContext) -> (r: u64)
        ensures
            r == self.spec_min_scan_time(ctx),
    {
        if self.is_under_heavy_pressure(ctx) { 2 } else { 5 }
    }

    pub open spec fn spec_pass_now(
        &self,
        ctx: &StateProcessingContext,
    ) -> Option<StateChangeResult> {
        if ctx.in_state_time < self.min_scan_time(ctx) {
            None
        } else {
            match self.breakthrough(ctx) {
                Some(result) => {
                    Some(result)
                },
                None => {
                    match self.find_best_pass_option(ctx) {
                        Some(target) => Some(
                            with_midfielder_state(MidfielderState::Running).with_event(
                                pass_to(ctx.player.id, target.id, "MID_PASSING_STATE"),
                            ),
                        ),
                        None => None,
                    }
                },
            }
        }
    }

    /// A pass that breaks the lines in the other half, else the best pass.
    #[verifier::when_used_as_spec(spec_pass_now)]
    pub fn pass_now(&self, ctx: &StateProcessingContext) -> (r: Option<StateChangeResult>)
        ensures
            r == self.spec_pass_now(ctx),
    {
        if ctx.in_state_time < self.min_scan_time(ctx) {
            return None;
        }
        match self.breakthrough(ctx) {
            Some(result) => {
                return Some(result);
            },
            None => {},
        }
        match self.find_best_pass_option(ctx) {
            Some(target) => Some(
                with_midfielder_state(MidfielderState::Running).with_event(
                    pass_to(ctx.player.id, target.id, "MID_PASSING_STATE"),
                ),
            ),
            None => None,
        }
    }

    pub open spec fn spec_breakthrough(
        &self,
        ctx: &StateProcessingContext,
    ) -> Option<StateChangeResult> {
        if ctx.ball.on_own_side {
            None
        } else {
            match self.find_breakthrough_pass_option(ctx) {
                Some(target) => Some(
                    with_midfielder_state(MidfielderState::Standing).with_event(
                        pass_to(ctx.player.id, target.id, "MID_PASSING_BREAKTHROUGH"),
                    ),
                ),
                None => None,
            }
        }
    }

    /// A pass that breaks the lines, in the other half only.
    #[verifier::when_used_as_spec(spec_breakthrough)]
    pub fn breakthrough(&self, ctx: &StateProcessingContext) -> (r: Option<StateChangeResult>)
        ensures
            r == self.spec_breakthrough(ctx),
    {
        if ctx.ball.on_own_side {
            return None;
        }
        match self.find_breakthrough_pass_option(ctx) {
            Some(target) => Some(
                with_midfielder_state(MidfielderState::Standing).with_event(
                    pass_to(ctx.player.id, target.id, "MID_PASSING_BREAKTHROUGH"),
                ),
            ),
            None => None,
        }
    }

    pub open spec fn spec_bail_time(&self, ctx: &StateProcessingContext) -> u64 {
        if self.is_under_heavy_pressure(ctx) {
            10
        } else {
            20
        }
    }

    /// Steps after which the midfielder looks for something else, fewer under pressure.
    #[verifier::when_used_as_spec(spec_bail_time)]
    pub fn bail_time(&self, ctx: &StateProcessingContext) -> (r: u64)
        ensures
            r == self.spec_bail_time(ctx),
    {
        if self.is_under_heavy_pressure(ctx) { 10 } else { 20 }
    }

    pub open spec fn spec_bail_out(&self, ctx: &StateProcessingContext) -> StateChangeResult {
        match self.playmaker_shot(ctx) {
            Some(result) => result,
            None => self.bail_out_shot_or_dribble(ctx),
        }
    }

    /// Without a pass: a shot for those who can, in the right spot, else a dribble.
    #[verifier::when_used_as_spec(spec_bail_out)]
    pub fn bail_out(&self, ctx: &StateProcessingContext) -> (r: StateChangeResult)
        ensures
            r == self.spec_bail_out(ctx),
    {
        match self.playmaker_shot(ctx) {
            Some(result) => result,
            None => self.bail_out_shot_or_dribble(ctx),
        }
    }

    pub open spec fn spec_playmaker_shot(
        &self,
        ctx: &StateProcessingContext,
    ) -> Option<StateChangeResult> {
        if !ctx.player.tactical_position.is_attacking_midfielder() {
            None
        } else {
            match ctx.evaluate_forward_shot_decision(ShotOccasion::MidfieldPassBailout) {
                ShotDecision::Shoot { reason } => Some(
                    with_midfielder_state(MidfielderState::Shooting).with_shot_reason(reason),
                ),
                _ => None,
            }
        }
    }

    /// A shot of a playmaker, where the central rule says so.
    #[verifier::when_used_as_spec(spec_playmaker_shot)]
    pub fn playmaker_shot(&self, ctx: &StateProcessingContext) -> (r: Option<StateChangeResult>)
        ensures
            r == self.spec_playmaker_shot(ctx),
    {
        if !ctx.player.tactical_position.is_attacking_midfielder() {
            return None;
        }
        match ctx.evaluate_forward_shot_decision(ShotOccasion::MidfieldPassBailout) {
            ShotDecision::Shoot { reason } => Some(
                with_midfielder_state(MidfielderState::Shooting).with_shot_reason(reason),
            ),
            _ => None,
        }
    }

    pub open spec fn spec_bail_out_shot_or_dribble(
        &self,
        ctx: &StateProcessingContext,
    ) -> StateChangeResult {
        let away = ctx.ball.distance_to_opponent_goal;
        let chance = ctx.player.clear_shot && ctx.player.good_shooting_angle;
        if away < units(30) && chance && ctx.player.shooting.clear_shot_xg >= milli(130)
        && ctx.player.midfield.mid_shot_selection >= milli(420) {
            with_midfielder_state(
                MidfielderState::Shooting,
            ).with_shot_reason("MID_PASS_BAILOUT_SHOOT")
        } else if away < units(55) && chance
            && ctx.player.midfield.mid_shot_selection >= milli(580)
        && ctx.player.shooting.execution_skill >= milli(450) {
            with_midfielder_state(
                MidfielderState::DistanceShooting,
            ).with_shot_reason("MID_PASS_BAILOUT_DISTANCE")
        } else {
            with_midfielder_state(MidfielderState::Dribbling)
        }
    }

    /// A shot from close by or by a specialist from further away, else a dribble.
    #[verifier::when_used_as_spec(spec_bail_out_shot_or_dribble)]
    pub fn bail_out_shot_or_dribble(&self, ctx: &StateProcessingContext) -> (r: StateChangeResult)
        ensures
            r == self.spec_bail_out_shot_or_dribble(ctx),
    {
        let away = ctx.ball.distance_to_opponent_goal;
        let chance = ctx.player.clear_shot && ctx.player.good_shooting_angle;
        if away < units(30) && chance && ctx.player.shooting.clear_shot_xg >= milli(130)
        && ctx.player.midfield.mid_shot_selection >= milli(420) {
            with_midfielder_state(
                MidfielderState::Shooting,
            ).with_shot_reason("MID_PASS_BAILOUT_SHOOT")
        } else if away < units(55) && chance
            && ctx.player.midfield.mid_shot_selection >= milli(580)
        && ctx.player.shooting.execution_skill >= milli(450) {
            with_midfielder_state(
                MidfielderState::DistanceShooting,
            ).with_shot_reason("MID_PASS_BAILOUT_DISTANCE")
        } else {
            with_midfielder_state(MidfielderState::Dribbling)
        }
    }

    pub open spec fn spec_velocity(&self, ctx: &StateProcessingContext) -> Option<Movement> {
        match self.presser(ctx) {
            Some(opponent) => Some(
                glide_along(
                    self.escape_direction(ctx, opponent),
                    milli(2500),
                ).plus(ctx.player.separation_velocity),
            ),
            None => Some(self.seek_angle(ctx)),
        }
    }

    /// Away from the nearest opponent under pressure, to a better angle where there is no pass,
    /// else still.
    #[verifier::when_used_as_spec(spec_velocity)]
    pub fn velocity(&self, ctx: &StateProcessingContext) -> (r: Option<Movement>)
        ensures
            r == self.spec_velocity(ctx),
    {
        match self.presser(ctx) {
            Some(opponent) => Some(
                glide_along(
                    self.escape_direction(ctx, opponent),
                    milli(2500),
                ).plus(ctx.player.separation_velocity),
            ),
            None => Some(self.seek_angle(ctx)),
        }
    }

    pub open spec fn spec_presser(&self, ctx: &StateProcessingContext) -> Option<MatchPlayerLite> {
        if self.is_under_heavy_pressure(ctx) {
            scan::first_where(ctx.opponents@, |o: MatchPlayerLite| o.distance <= units(15))
        } else {
            None
        }
    }

    /// The opponent who presses heavily.
    #[verifier::when_used_as_spec(spec_presser)]
    pub fn presser(&self, ctx: &StateProcessingContext) -> (r: Option<MatchPlayerLite>)
        ensures
            r == self.spec_presser(ctx),
    {
        if self.is_under_heavy_pressure(ctx) {
            scan::first_of(
                &ctx.opponents,
                |o: MatchPlayerLite| -> (b: bool)
                    ensures b == (o.distance <= units(15))
                {
                    o.distance <= units(15)
                },
                Ghost(|o: MatchPlayerLite| o.distance <= units(15)),
            )
        } else {
            None
        }
    }

    pub open spec fn spec_escape_direction(
        &self,
        ctx: &StateProcessingContext,
        opponent: MatchPlayerLite,
    ) -> Option<Vec3> {
        match ((ctx.player.position - opponent.position).direction(), ctx.to_goal().direction()) {
            (Some(away), Some(to_goal)) => (
                away * milli(700) + turned(to_goal) * milli(300)
            ).direction(),
            _ => None,
        }
    }

    /// Away from an opponent, and aside from the way to the goal; none where either has no
    /// direction.
    #[verifier::when_used_as_spec(spec_escape_direction)]
    pub fn escape_direction(
        &self,
        ctx: &StateProcessingContext,
        opponent: MatchPlayerLite,
    ) -> (r: Option<Vec3>)
        ensures
            r == self.spec_escape_direction(ctx, opponent),
    {
        match ((ctx.player.position - opponent.position).direction(), ctx.to_goal().direction()) {
            (Some(away), Some(to_goal)) => (
                away * milli(700) + turned(to_goal) * milli(300)
            ).direction(),
            _ => None,
        }
    }

    pub open spec fn spec_seek_angle(&self, ctx: &StateProcessingContext) -> Movement {
        match ctx.most_advanced_teammate {
            Some(target) => if self.should_adjust_position(ctx) {
                arrive_if_any(self.calculate_better_passing_position(ctx, target), units(30)).plus(
                    ctx.player.separation_velocity,
                )
            } else {
                still()
            },
            None => still(),
        }
    }

    /// To a better angle to the teammate furthest up, where there is no pass; else still.
    #[verifier::when_used_as_spec(spec_seek_angle)]
    pub fn seek_angle(&self, ctx: &StateProcessingContext) -> (r: Movement)
        ensures
            r == self.spec_seek_angle(ctx),
    {
        match ctx.most_advanced_teammate {
            Some(target) => if self.should_adjust_position(ctx) {
                arrive_if_any(self.calculate_better_passing_position(ctx, target), units(30)).plus(
                    ctx.player.separation_velocity,
                )
            } else {
                still()
            },
            None => still(),
        }
    }

    pub open spec fn spec_process_conditions(&self) -> Exertion {
        exertion(ActivityIntensity::Low)
    }

    /// The load of the state.
    #[verifier::when_used_as_spec(spec_process_conditions)]
    pub fn process_conditions(&self) -> (r: Exertion)
        ensures
            r == self.spec_process_conditions(),
    {
        exertion(ActivityIntensity::Low)
    }

    pub open spec fn spec_find_breakthrough_pass_option(
        &self,
        ctx: &StateProcessingContext,
    ) -> Option<MatchPlayerLite> {
        if !ctx.player.midfield.allows_through_ball {
            None
        } else {
            scan::greatest_where(
                ctx.teammates@,
                |t: MatchPlayerLite| self.is_breakthrough_target(ctx, t),
                |t: MatchPlayerLite| self.calculate_breakthrough_value(ctx, t),
            )
        }
    }

    /// The best attacking teammate on the move behind the lines, for those who see such passes.
    #[verifier::when_used_as_spec(spec_find_breakthrough_pass_option)]
    pub fn find_breakthrough_pass_option(
        &self,
        ctx: &StateProcessingContext,
    ) -> (r: Option<MatchPlayerLite>)
        ensures
            r == self.spec_find_breakthrough_pass_option(ctx),
    {
        if !ctx.player.midfield.allows_through_ball {
            return None;
        }
        scan::greatest_of(
            &ctx.teammates,
            |t: MatchPlayerLite| -> (b: bool)
                ensures b == (self.is_breakthrough_target(ctx, t))
            {
                self.is_breakthrough_target(ctx, t)
            },
            |t: MatchPlayerLite| -> (b: Scalar)
                ensures b == (self.calculate_breakthrough_value(ctx, t))
            {
                self.calculate_breakthrough_value(ctx, t)
            },
            Ghost(|t: MatchPlayerLite| self.is_breakthrough_target(ctx, t)),
            Ghost(|t: MatchPlayerLite| self.calculate_breakthrough_value(ctx, t)),
        )
    }

    pub open spec fn spec_is_breakthrough_target(
        &self,
        ctx: &StateProcessingContext,
        t: MatchPlayerLite,
    ) -> bool {
        (
            t.position - ctx.player.position
        ).magnitude() < ctx.player.skills.mental.vision * units(20)
        && t.velocity.magnitude() > units(1)
        && (t.tactical_positions.is_forward() || t.tactical_positions.is_midfielder())
        && self.would_pass_break_defensive_lines(ctx, t)
    }

    /// In sight, on the move, an attacker or midfielder, and behind the lines.
    #[verifier::when_used_as_spec(spec_is_breakthrough_target)]
    pub fn is_breakthrough_target(
        &self,
        ctx: &StateProcessingContext,
        t: MatchPlayerLite,
    ) -> (r: bool)
        ensures
            r == self.spec_is_breakthrough_target(ctx, t),
    {
        (
            t.position - ctx.player.position
        ).magnitude() < ctx.player.skills.mental.vision * units(20)
        && t.velocity.magnitude() > units(1)
        && (t.tactical_positions.is_forward() || t.tactical_positions.is_midfielder())
        && self.would_pass_break_defensive_lines(ctx, t)
    }

    pub open spec fn spec_find_best_pass_option(
        &self,
        ctx: &StateProcessingContext,
    ) -> Option<MatchPlayerLite> {
        ctx.best_pass.within_400
    }

    /// The best receiver in range.
    #[verifier::when_used_as_spec(spec_find_best_pass_option)]
    pub fn find_best_pass_option(
        &self,
        ctx: &StateProcessingContext,
    ) -> (r: Option<MatchPlayerLite>)
        ensures
            r == self.spec_find_best_pass_option(ctx),
    {
        ctx.best_pass.within_400
    }

    pub open spec fn spec_calculate_improved_space_score(
        &self,
        ctx: &StateProcessingContext,
        t: MatchPlayerLite,
    ) -> Scalar {
        (
            units(1) - scan::total(
                ctx.opponents@,
                |o: MatchPlayerLite| self.crowding(o.position.distance_to(t.position)),
            )
        ).max(units(0))
    }

    /// The room around a player, from 1 down to 0, by how near the opponents are.
    #[verifier::when_used_as_spec(spec_calculate_improved_space_score)]
    pub fn calculate_improved_space_score(
        &self,
        ctx: &StateProcessingContext,
        t: MatchPlayerLite,
    ) -> (r: Scalar)
        ensures
            r == self.spec_calculate_improved_space_score(ctx, t),
            units(0) <= r,
            r <= units(1),
    {
        proof {
            scan::total_is_not_negative(
                ctx.opponents@,
                |o: MatchPlayerLite| self.crowding(o.position.distance_to(t.position)),
            );
        }
        (units(1) - scan::total_of(
                &ctx.opponents,
                |o: MatchPlayerLite| -> (b: Scalar)
                    ensures b == (self.crowding(o.position.distance_to(t.position)))
                {
                    self.crowding(o.position.distance_to(t.position))
                },
                Ghost(|o: MatchPlayerLite| self.crowding(o.position.distance_to(t.position))),
        )).max(units(0))
    }

    pub open spec fn spec_crowding(&self, away: Scalar) -> Scalar {
        if away < units(5) {
            milli(500)
        } else if away < units(10) {
            milli(300)
        } else if away <= units(15) {
            milli(100)
        } else {
            units(0)
        }
    }

    /// What an opponent at the given distance takes from the room.
    #[verifier::when_used_as_spec(spec_crowding)]
    pub fn crowding(&self, away: Scalar) -> (r: Scalar)
        ensures
            r == self.spec_crowding(away),
    {
        if away < units(5) {
            milli(500)
        } else if away < units(10) {
            milli(300)
        } else if away <= units(15) {
            milli(100)
        } else {
            units(0)
        }
    }

    pub open spec fn spec_would_pass_break_defensive_lines(
        &self,
        ctx: &StateProcessingContext,
        t: MatchPlayerLite,
    ) -> bool {
        let between: usize = scan::count_where(
            ctx.opponents@,
            |o: MatchPlayerLite|
                is_on_the_line(o.position, ctx.player.position, t.position, units(8)),
        );
        between >= 2
            && headcount(between) <= units(2)
                + ctx.player.midfield.progressive_selection * milli(2500)
    }

    /// At least two opponents stand along the line of the pass, and no more than the passer
    /// dares.
    #[verifier::when_used_as_spec(spec_would_pass_break_defensive_lines)]
    pub fn would_pass_break_defensive_lines(
        &self,
        ctx: &StateProcessingContext,
        t: MatchPlayerLite,
    ) -> (r: bool)
        ensures
            r == self.spec_would_pass_break_defensive_lines(ctx, t),
    {
        let between: usize = scan::count_if(
            &ctx.opponents,
            |o: MatchPlayerLite| -> (b: bool)
                ensures b == (
                    is_on_the_line(o.position, ctx.player.position, t.position, units(8))
                )
            {
                is_on_the_line(o.position, ctx.player.position, t.position, units(8))
            },
            Ghost(
                |o: MatchPlayerLite|
                    is_on_the_line(o.position, ctx.player.position, t.position, units(8)),
            ),
        );
        between >= 2
            && headcount(between) <= units(2)
                + ctx.player.midfield.progressive_selection * milli(2500)
    }

    pub open spec fn spec_calculate_breakthrough_value(
        &self,
        ctx: &StateProcessingContext,
        t: MatchPlayerLite,
    ) -> Scalar {
        let nearness = units(1) - (
            t.position.distance_to(ctx.goal()) / ctx.width()
        ).clamp(units(0), units(1));
        let base = nearness * milli(500) + self.calculate_improved_space_score(ctx, t) * milli(300)
        + share(t.skills.technical.finishing) * milli(200);
        let fed = if is_player(ctx.player.supply_target, t.id) { milli(1500) } else { units(1) };
        let covered = if self.is_covered(ctx, t) { milli(350) } else { units(1) };
        base * fed * covered
    }

    /// The worth of a pass that breaks the lines: near the goal, with room, to a finisher, in
    /// line with the manager's orders.
    #[verifier::when_used_as_spec(spec_calculate_breakthrough_value)]
    pub fn calculate_breakthrough_value(
        &self,
        ctx: &StateProcessingContext,
        t: MatchPlayerLite,
    ) -> (r: Scalar)
        ensures
            r == self.spec_calculate_breakthrough_value(ctx, t),
    {
        let nearness = units(1) - (
            t.position.distance_to(ctx.goal()) / ctx.width()
        ).clamp(units(0), units(1));
        let base = nearness * milli(500) + self.calculate_improved_space_score(ctx, t) * milli(300)
        + share(t.skills.technical.finishing) * milli(200);
        let fed = if is_player(ctx.player.supply_target, t.id) { milli(1500) } else { units(1) };
        let covered = if self.is_covered(ctx, t) { milli(350) } else { units(1) };
        base * fed * covered
    }

    pub open spec fn spec_is_covered(
        &self,
        ctx: &StateProcessingContext,
        t: MatchPlayerLite,
    ) -> bool {
        scan::some_where(
            ctx.intercept_assignments@,
            |a: InterceptAssignment|
                a.target == t.id && (a.interceptor_position - t.position).magnitude() < units(80),
        )
    }

    /// An opponent set on the teammate is in range to cut out the pass.
    #[verifier::when_used_as_spec(spec_is_covered)]
    pub fn is_covered(&self, ctx: &StateProcessingContext, t: MatchPlayerLite) -> (r: bool)
        ensures
            r == self.spec_is_covered(ctx, t),
    {
        scan::any_of(
            &ctx.intercept_assignments,
            |a: InterceptAssignment| -> (b: bool)
                ensures b == (
                    a.target == t.id
                        && (a.interceptor_position - t.position).magnitude() < units(80)
                )
            {
                a.target == t.id && (a.interceptor_position - t.position).magnitude() < units(80)
            },
            Ghost(
                |a: InterceptAssignment|
                    a.target == t.id
                        && (a.interceptor_position - t.position).magnitude() < units(80),
            ),
        )
    }

    pub open spec fn spec_has_clear_passing_lane(
        &self,
        ctx: &StateProcessingContext,
        t: MatchPlayerLite,
    ) -> bool {
        let lane = units(3) * (milli(600) + share(ctx.player.skills.technical.passing) * milli(200)
            + share(ctx.player.skills.mental.vision) * milli(200));
        scan::count_where(
            ctx.opponents@,
            |o: MatchPlayerLite|
                is_on_the_line(
                    o.position,
                    ctx.player.position,
                    t.position,
                    lane * (units(1) - share(o.skills.technical.tackling) * milli(300)),
                ),
        ) == 0
    }

    /// No opponent near the line of the pass; good tacklers reach less far into a good passer's
    /// lane.
    #[verifier::when_used_as_spec(spec_has_clear_passing_lane)]
    pub fn has_clear_passing_lane(
        &self,
        ctx: &StateProcessingContext,
        t: MatchPlayerLite,
    ) -> (r: bool)
        ensures
            r == self.spec_has_clear_passing_lane(ctx, t),
    {
        let lane = units(3) * (milli(600) + share(ctx.player.skills.technical.passing) * milli(200)
            + share(ctx.player.skills.mental.vision) * milli(200));
        scan::count_if(
            &ctx.opponents,
            |o: MatchPlayerLite| -> (b: bool)
                ensures b == (
                    is_on_the_line(
                        o.position,
                        ctx.player.position,
                        t.position,
                        lane * (units(1) - share(o.skills.technical.tackling) * milli(300)),
                    )
                )
            {
                is_on_the_line(
                    o.position,
                    ctx.player.position,
                    t.position,
                    lane * (units(1) - share(o.skills.technical.tackling) * milli(300)),
                )
            },
            Ghost(
                |o: MatchPlayerLite|
                    is_on_the_line(
                        o.position,
                        ctx.player.position,
                        t.position,
                        lane * (units(1) - share(o.skills.technical.tackling) * milli(300)),
                    ),
            ),
        ) == 0
    }

    pub open spec fn spec_is_heavily_marked(
        &self,
        ctx: &StateProcessingContext,
        t: MatchPlayerLite,
    ) -> bool {
        let markers: usize = ctx.opponents_around(t.position, units(5));
        if markers >= 2 {
            true
        } else {
            match scan::first_where(
                ctx.opponents@,
                |o: MatchPlayerLite| o.position.distance_to(t.position) <= units(5),
            ) {
                Some(marker) => marker.marking
                * (
                    units(1) - marker.position.distance_to(t.position) / units(5)
                ).clamp(units(0), units(1)) > milli(400),
                None => false,
            }
        }
    }

    /// Two markers, or one who marks well and close.
    #[verifier::when_used_as_spec(spec_is_heavily_marked)]
    pub fn is_heavily_marked(&self, ctx: &StateProcessingContext, t: MatchPlayerLite) -> (r: bool)
        ensures
            r == self.spec_is_heavily_marked(ctx, t),
    {
        let markers: usize = ctx.opponents_around(t.position, units(5));
        if markers >= 2 {
            return true;
        }
        match scan::first_of(
            &ctx.opponents,
            |o: MatchPlayerLite| -> (b: bool)
                ensures b == (o.position.distance_to(t.position) <= units(5))
            {
                o.position.distance_to(t.position) <= units(5)
            },
            Ghost(|o: MatchPlayerLite| o.position.distance_to(t.position) <= units(5)),
        ) {
            Some(marker) => marker.marking
            * (
                units(1) - marker.position.distance_to(t.position) / units(5)
            ).clamp(units(0), units(1)) > milli(400),
            None => false,
        }
    }

    pub open spec fn spec_is_in_good_position(
        &self,
        ctx: &StateProcessingContext,
        t: MatchPlayerLite,
    ) -> bool {
        if is_behind_of(ctx, t.position, ctx.player.position) {
            self.is_under_heavy_pressure(ctx) || ctx.player.midfield.allows_switch_play
        } else {
            t.position.distance_to(ctx.goal()) < ctx.player.position.distance_to(ctx.goal())
            && !scan::some_where(
                ctx.opponents@,
                |o: MatchPlayerLite|
                    o.position.distance_to(t.position) <= units(15)
                        && (
                            o.position + o.velocity * units(10) - t.position
                        ).magnitude() < units(5),
            )
        }
    }

    /// Nearer to the goal and not about to be pressed; further back only under pressure or for
    /// those who switch play.
    #[verifier::when_used_as_spec(spec_is_in_good_position)]
    pub fn is_in_good_position(
        &self,
        ctx: &StateProcessingContext,
        t: MatchPlayerLite,
    ) -> (r: bool)
        ensures
            r == self.spec_is_in_good_position(ctx, t),
    {
        if is_behind_of(ctx, t.position, ctx.player.position) {
            return self.is_under_heavy_pressure(ctx) || ctx.player.midfield.allows_switch_play;
        }
        t.position.distance_to(ctx.goal()) < ctx.player.position.distance_to(ctx.goal())
        && !scan::any_of(
            &ctx.opponents,
            |o: MatchPlayerLite| -> (b: bool)
                ensures b == (
                    o.position.distance_to(t.position) <= units(15)
                        && (
                            o.position + o.velocity * units(10) - t.position
                        ).magnitude() < units(5)
                )
            {
                o.position.distance_to(t.position) <= units(15)
                    && (o.position + o.velocity * units(10) - t.position).magnitude() < units(5)
            },
            Ghost(
                |o: MatchPlayerLite|
                    o.position.distance_to(t.position) <= units(15)
                        && (
                            o.position + o.velocity * units(10) - t.position
                        ).magnitude() < units(5),
            ),
        )
    }

    pub open spec fn spec_is_under_heavy_pressure(&self, ctx: &StateProcessingContext) -> bool {
        ctx.player.under_heavy_pressure
    }

    #[verifier::when_used_as_spec(spec_is_under_heavy_pressure)]
    pub fn is_under_heavy_pressure(&self, ctx: &StateProcessingContext) -> (r: bool)
        ensures
            r == self.spec_is_under_heavy_pressure(ctx),
    {
        ctx.player.under_heavy_pressure
    }

    pub open spec fn spec_in_box_danger_zone(&self, ctx: &StateProcessingContext) -> bool {
        (ctx.ball.position - ctx.ball.direction_to_own_goal).magnitude() < units(130)
    }

    /// The ball is in front of the own goal.
    #[verifier::when_used_as_spec(spec_in_box_danger_zone)]
    pub fn in_box_danger_zone(&self, ctx: &StateProcessingContext) -> (r: bool)
        ensures
            r == self.spec_in_box_danger_zone(ctx),
    {
        (ctx.ball.position - ctx.ball.direction_to_own_goal).magnitude() < units(130)
    }

    pub open spec fn spec_clearance_target(&self, ctx: &StateProcessingContext) -> Vec3 {
        let ball = ctx.ball.position;
        let halfway = ctx.width() * milli(500);
        let x = match ctx.player.side {
            Some(PlayerSide::Left) => halfway.max(ball.x + units(40)),
            Some(PlayerSide::Right) => halfway.min(ball.x - units(40)),
            None => halfway,
        };
        flat(x, ball.y + (ctx.height() * milli(500) - ball.y) * milli(600))
    }

    /// Where a clearance is aimed: the halfway line or beyond, towards the middle.
    #[verifier::when_used_as_spec(spec_clearance_target)]
    pub fn clearance_target(&self, ctx: &StateProcessingContext) -> (r: Vec3)
        ensures
            r == self.spec_clearance_target(ctx),
    {
        let ball = ctx.ball.position;
        let halfway = ctx.width() * milli(500);
        let x = match ctx.player.side {
            Some(PlayerSide::Left) => halfway.max(ball.x + units(40)),
            Some(PlayerSide::Right) => halfway.min(ball.x - units(40)),
            None => halfway,
        };
        flat(x, ball.y + (ctx.height() * milli(500) - ball.y) * milli(600))
    }

    pub open spec fn spec_clearance_way(&self, ctx: &StateProcessingContext) -> Vec3 {
        let target = self.clearance_target(ctx);
        flat(target.x - ctx.ball.position.x, target.y - ctx.ball.position.y)
    }

    /// The way of the ball to where a clearance is aimed.
    #[verifier::when_used_as_spec(spec_clearance_way)]
    pub fn clearance_way(&self, ctx: &StateProcessingContext) -> (r: Vec3)
        ensures
            r == self.spec_clearance_way(ctx),
    {
        let target = self.clearance_target(ctx);
        flat(target.x - ctx.ball.position.x, target.y - ctx.ball.position.y)
    }

    pub open spec fn spec_emit_emergency_clearance(
        &self,
        ctx: &StateProcessingContext,
    ) -> PlayerEvent {
        let way = self.clearance_way(ctx);
        let length = way.magnitude().max(milli(100));
        PlayerEvent::ClearBall {
            velocity: vec3(way.x / length * units(4), way.y / length * units(4), units(5)),
        }
    }

    /// A lofted kick towards the halfway line.
    #[verifier::when_used_as_spec(spec_emit_emergency_clearance)]
    pub fn emit_emergency_clearance(&self, ctx: &StateProcessingContext) -> (r: PlayerEvent)
        ensures
            r == self.spec_emit_emergency_clearance(ctx),
    {
        let way = self.clearance_way(ctx);
        let length = way.magnitude().max(milli(100));
        PlayerEvent::ClearBall {
            velocity: vec3(way.x / length * units(4), way.y / length * units(4), units(5)),
        }
    }

    pub open spec fn spec_should_adjust_position(&self, ctx: &StateProcessingContext) -> bool {
        self.find_best_pass_option(ctx).is_none()
            && self.find_breakthrough_pass_option(ctx).is_none()
        && !self.is_under_heavy_pressure(ctx)
    }

    /// No pass of either kind, and no pressure.
    #[verifier::when_used_as_spec(spec_should_adjust_position)]
    pub fn should_adjust_position(&self, ctx: &StateProcessingContext) -> (r: bool)
        ensures
            r == self.spec_should_adjust_position(ctx),
    {
        self.find_best_pass_option(ctx).is_none()
            && self.find_breakthrough_pass_option(ctx).is_none()
        && !self.is_under_heavy_pressure(ctx)
    }

    pub open spec fn spec_calculate_better_passing_position(
        &self,
        ctx: &StateProcessingContext,
        target: MatchPlayerLite,
    ) -> Option<Vec3> {
        match (target.position - ctx.player.position).direction() {
            Some(way) => Some(ctx.player.position + turned(way) * units(5)),
            None => None,
        }
    }

    /// A step aside from a teammate; none from one on the same spot.
    #[verifier::when_used_as_spec(spec_calculate_better_passing_position)]
    pub fn calculate_better_passing_position(
        &self,
        ctx: &StateProcessingContext,
        target: MatchPlayerLite,
    ) -> (r: Option<Vec3>)
        ensures
            r == self.spec_calculate_better_passing_position(ctx, target),
    {
        match (target.position - ctx.player.position).direction() {
            Some(way) => Some(ctx.player.position + turned(way) * units(5)),
            None => None,
        }
    }
}

/// The ball is cleared only under pressure in front of the own goal and without a safe pass. It
/// flies up and never back towards the own goal; it flies forward unless it goes a million times
/// as far to the side.
pub proof fn clearance_goes_forward(state: MidfielderPassingState, ctx: &StateProcessingContext)
    requires
        state.process(ctx) matches Some(r) && r.event matches Some(PlayerEvent::ClearBall { .. }),
    ensures
        ctx.player.under_heavy_pressure,
        state.in_box_danger_zone(ctx),
        !ctx.player.has_safe_pass,
        state.process(ctx)->0.event matches Some(PlayerEvent::ClearBall { velocity }) && {
            let way = state.clearance_way(ctx);
            let goes_far_aside = way.magnitude().max(milli(100)).raw > crate::scalar::size(
                way.x.raw as int,
            ) * 1_000_000;
            &&& velocity.z == units(5)
            &&& ctx.player.side == Some(PlayerSide::Left) ==> {
                &&& units(0) <= velocity.x
                &&& !goes_far_aside ==> units(0) < velocity.x
            }
            &&& ctx.player.side == Some(PlayerSide::Right) ==> {
                &&& velocity.x <= units(0)
                &&& !goes_far_aside ==> velocity.x < units(0)
            }
        },
{
    let way = state.clearance_way(ctx);
    let length = way.magnitude().max(milli(100));
    let a: int = crate::scalar::size(way.x.raw as int) * 1_000_000;
    let l: int = length.raw as int;
    assert(0 <= a / l && (l <= a ==> 1 <= a / l)) by (nonlinear_arith)
        requires
            0 <= a,
            0 < l,
    ;
    let forward = way.x / length;
    crate::scalar::product_commutes(forward, units(4));
    if ctx.player.side == Some(PlayerSide::Left) {
        assert(0 <= way.x.raw);
        crate::scalar::product_keeps_order(units(4), units(0), forward);
        if l <= a {
            crate::scalar::product_keeps_order(units(4), micro(1), forward);
        }
    } else if ctx.player.side == Some(PlayerSide::Right) {
        assert(way.x.raw <= 0);
        crate::scalar::product_keeps_order(units(4), forward, units(0));
        if l <= a {
            crate::scalar::product_keeps_order(units(4), forward, micro(1).negated());
        }
    }
}

/// A pass that breaks the lines goes to an attacker or midfielder on the move behind two
/// opponents or more, and no other such teammate is worth more.
pub proof fn breakthrough_is_the_best(
    state: MidfielderPassingState,
    ctx: &StateProcessingContext,
    target: MatchPlayerLite,
)
    requires
        state.find_breakthrough_pass_option(ctx) == Some(target),
    ensures
        ctx.player.midfield.allows_through_ball,
        ctx.teammates@.contains(target),
        ctx.well_formed() ==> target.id != ctx.player.id && target.team_id == ctx.player.team_id,
        state.is_breakthrough_target(ctx, target),
        forall|t: MatchPlayerLite| #[trigger]
            ctx.teammates@.contains(t) && state.is_breakthrough_target(ctx, t)
                ==> state.calculate_breakthrough_value(ctx, t)
                    <= state.calculate_breakthrough_value(
                ctx,
                target,
            ),
{
    scan::greatest_is_greatest(
        ctx.teammates@,
        |t: MatchPlayerLite| state.is_breakthrough_target(ctx, t),
        |t: MatchPlayerLite| state.calculate_breakthrough_value(ctx, t),
    );
}

/// A passing midfielder runs without the ball, and shoots where the central rule on shots says so,
/// for its reason; in front of the own goal, under pressure and without a safe pass, the ball is
/// cleared; after a look about it is passed, in the other half behind the lines first; without a
/// pass the midfielder gives up after a while, under pressure the sooner.
pub proof fn passes_come_in_order(state: MidfielderPassingState, ctx: &StateProcessingContext)
    ensures
        !ctx.player.has_ball ==> state.process(ctx) == Some(
            with_midfielder_state(MidfielderState::Running),
        ),
        ctx.player.has_ball ==> (ctx.shots.midfield_pass matches ShotDecision::Shoot { reason } ==> (
        state.process(ctx) matches Some(r)
            && r.state == PlayerState::Midfielder(MidfielderState::Shooting)
            && r.shot_reason == Some(reason))),
        (ctx.player.has_ball && !(ctx.shots.midfield_pass is Shoot)) ==> {
            let hot = ctx.player.under_heavy_pressure;
            let cleared = hot
                && (ctx.ball.position - ctx.ball.direction_to_own_goal).magnitude() < units(
                130,
            ) && !ctx.player.has_safe_pass;
            let seen = ctx.in_state_time >= (if hot { 2u64 } else { 5u64 });
            let through = if ctx.ball.on_own_side {
                None
            } else {
                state.find_breakthrough_pass_option(ctx)
            };
            let late = ctx.in_state_time > (if hot { 10u64 } else { 20u64 });
            let passed = seen && (through is Some || ctx.best_pass.within_400 is Some);
            &&& cleared ==> (state.process(ctx) matches Some(r) && r.state == PlayerState::Midfielder(
                MidfielderState::Running,
            ) && r.event is Some && r.event->0 is ClearBall)
            &&& !cleared && seen && through is Some ==> (state.process(ctx) matches Some(r) && r.state
                == PlayerState::Midfielder(MidfielderState::Standing) && r.event == Some(
                pass_to(ctx.player.id, through->0.id, "MID_PASSING_BREAKTHROUGH"),
            ))
            &&& !cleared && seen && through is None && ctx.best_pass.within_400 is Some ==> (state.process(
                ctx,
            ) matches Some(r) && r.state == PlayerState::Midfielder(MidfielderState::Running)
                && r.event
                == Some(pass_to(ctx.player.id, ctx.best_pass.within_400->0.id, "MID_PASSING_STATE")))
            &&& !cleared && !passed && !late ==> state.process(ctx) is None
            &&& !cleared && !passed && late ==> state.process(ctx) == Some(state.bail_out(ctx))
        },
{
}

/// Without a pass a playmaker shoots where the central rule on shots says so; anybody shoots from
/// close by with a good chance and the eye for it, and from further off with the skill; else the
/// ball is dribbled on.
pub proof fn ways_out_have_their_order(state: MidfielderPassingState, ctx: &StateProcessingContext)
    ensures
        ({
            let rule = ctx.player.tactical_position.is_attacking_midfielder()
                && ctx.shots.midfield_pass_bailout is Shoot;
            let away = ctx.ball.distance_to_opponent_goal;
            let chance = ctx.player.clear_shot && ctx.player.good_shooting_angle;
            let close = away < units(30) && chance
                && ctx.player.shooting.clear_shot_xg >= milli(130)
                && ctx.player.midfield.mid_shot_selection >= milli(420);
            let far = away < units(55) && chance
                && ctx.player.midfield.mid_shot_selection >= milli(580)
                && ctx.player.shooting.execution_skill >= milli(450);
            let r = state.bail_out(ctx);
            &&& rule ==> r.state == PlayerState::Midfielder(MidfielderState::Shooting)
                && r.shot_reason == Some(ctx.shots.midfield_pass_bailout->reason)
            &&& !rule && close ==> r.state == PlayerState::Midfielder(MidfielderState::Shooting)
                && r.shot_reason == Some("MID_PASS_BAILOUT_SHOOT")
            &&& !rule && !close && far ==> r.state == PlayerState::Midfielder(
                MidfielderState::DistanceShooting,
            ) && r.shot_reason == Some("MID_PASS_BAILOUT_DISTANCE")
            &&& !rule && !close && !far ==> r == with_midfielder_state(MidfielderState::Dribbling)
        }),
{
}

/// Nobody closer than 15 leaves all the room; an opponent takes some of it, more of it the closer,
/// and one closer than five at least half.
pub proof fn crowds_take_room(
    state: MidfielderPassingState,
    ctx: &StateProcessingContext,
    t: MatchPlayerLite,
)
    ensures
        (forall|o: MatchPlayerLite| #[trigger] ctx.opponents@.contains(o) ==> o.position.distance_to(t.position)
            > units(15)) ==> state.calculate_improved_space_score(ctx, t) == units(1),
        (exists|o: MatchPlayerLite| #[trigger]
            ctx.opponents@.contains(o) && o.position.distance_to(t.position) < units(5))
            ==> state.calculate_improved_space_score(ctx, t) <= milli(500),
        (exists|o: MatchPlayerLite| #[trigger]
            ctx.opponents@.contains(o) && o.position.distance_to(t.position) < units(10))
            ==> state.calculate_improved_space_score(ctx, t) <= milli(700),
        (exists|o: MatchPlayerLite| #[trigger]
            ctx.opponents@.contains(o) && o.position.distance_to(t.position) <= units(15))
            ==> state.calculate_improved_space_score(ctx, t) <= milli(900),
{
    let k = |o: MatchPlayerLite| state.crowding(o.position.distance_to(t.position));
    scan::total_holds_each(ctx.opponents@, k);
    assert forall|o: MatchPlayerLite| #[trigger] ctx.opponents@.contains(o) implies state.crowding(
        o.position.distance_to(t.position),
    ) <= scan::total(ctx.opponents@, k) by {
        assert(k(o) <= scan::total(ctx.opponents@, k));
    }
    if forall|o: MatchPlayerLite| #[trigger] ctx.opponents@.contains(o) ==> o.position.distance_to(
        t.position,
    )
        > units(15) {
        assert forall|o: MatchPlayerLite| #[trigger] ctx.opponents@.contains(o) implies k(o)
            == units(0) by {
        }
    }
}

/// An opponent takes the more room, the closer.
pub proof fn closer_opponents_crowd_more(state: MidfielderPassingState, near: Scalar, far: Scalar)
    requires
        near <= far,
    ensures
        state.crowding(far) <= state.crowding(near),
        near < units(5) ==> state.crowding(near) == milli(500),
        units(5) <= near && near < units(10) ==> state.crowding(near) == milli(300),
        units(10) <= near && near <= units(15) ==> state.crowding(near) == milli(100),
        near > units(15) ==> state.crowding(near) == units(0),
{
}

/// Of two receivers behind the lines the one nearer to the goal, with no less room, the better
/// finisher, no less the manager's choice and no more covered is worth no less; the manager's
/// choice is worth more than half as much again, and a covered one a bit over a third.
#[verifier::rlimit(40)]
#[verifier::spinoff_prover]
pub proof fn better_receivers_are_worth_more(
    state: MidfielderPassingState,
    ctx: &StateProcessingContext,
    a: MatchPlayerLite,
    b: MatchPlayerLite,
)
    requires
        ctx.field_size.width > 0,
        units(0) <= b.position.distance_to(ctx.goal()),
        b.position.distance_to(ctx.goal()) <= a.position.distance_to(ctx.goal()),
        state.calculate_improved_space_score(ctx, a)
            <= state.calculate_improved_space_score(ctx, b),
        units(0) <= a.skills.technical.finishing,
        a.skills.technical.finishing <= b.skills.technical.finishing,
        is_player(ctx.player.supply_target, a.id) ==> is_player(ctx.player.supply_target, b.id),
        state.is_covered(ctx, b) ==> state.is_covered(ctx, a),
    ensures
        state.calculate_breakthrough_value(ctx, a) <= state.calculate_breakthrough_value(ctx, b),
        units(0) <= state.calculate_breakthrough_value(ctx, a),
{
    let na = units(1) - (
        a.position.distance_to(ctx.goal()) / ctx.width()
    ).clamp(units(0), units(1));
    let nb = units(1) - (
        b.position.distance_to(ctx.goal()) / ctx.width()
    ).clamp(units(0), units(1));
    let sa = state.calculate_improved_space_score(ctx, a);
    let sb = state.calculate_improved_space_score(ctx, b);
    let fa = share(a.skills.technical.finishing);
    let fb = share(b.skills.technical.finishing);
    crate::scalar::quotient_keeps_order(
        b.position.distance_to(ctx.goal()),
        a.position.distance_to(ctx.goal()),
        ctx.width(),
    );
    crate::context::shares_grow(a.skills.technical.finishing, b.skills.technical.finishing, ctx);
    crate::scalar::quotient_keeps_order(units(0), a.skills.technical.finishing, units(20));
    scan::total_is_not_negative(
        ctx.opponents@,
        |o: MatchPlayerLite| state.crowding(o.position.distance_to(a.position)),
    );
    values_keep_order(
        na,
        nb,
        sa,
        sb,
        fa,
        fb,
        if is_player(ctx.player.supply_target, a.id) { milli(1500) } else { units(1) },
        if is_player(ctx.player.supply_target, b.id) { milli(1500) } else { units(1) },
        if state.is_covered(ctx, a) { milli(350) } else { units(1) },
        if state.is_covered(ctx, b) { milli(350) } else { units(1) },
    );
}

/// Products of weighted sums keep the order of their parts.
proof fn values_keep_order(
    na: Scalar,
    nb: Scalar,
    sa: Scalar,
    sb: Scalar,
    fa: Scalar,
    fb: Scalar,
    ga: Scalar,
    gb: Scalar,
    ca: Scalar,
    cb: Scalar,
)
    requires
        units(0) <= na,
        na <= nb,
        units(0) <= sa,
        sa <= sb,
        units(0) <= fa,
        fa <= fb,
        units(0) <= ga,
        ga <= gb,
        units(0) <= ca,
        ca <= cb,
    ensures
        units(0) <= (na * milli(500) + sa * milli(300) + fa * milli(200)) * ga * ca,
        (na * milli(500) + sa * milli(300) + fa * milli(200)) * ga * ca <= (nb * milli(500) + sb * milli(300)
            + fb * milli(200)) * gb * cb,
{
    crate::scalar::scaling_keeps_order(na, nb, milli(500));
    crate::scalar::scaling_keeps_order(sa, sb, milli(300));
    crate::scalar::scaling_keeps_order(fa, fb, milli(200));
    crate::scalar::product_keeps_sign(na, milli(500));
    crate::scalar::product_keeps_sign(sa, milli(300));
    crate::scalar::product_keeps_sign(fa, milli(200));
    let a = na * milli(500) + sa * milli(300) + fa * milli(200);
    let b = nb * milli(500) + sb * milli(300) + fb * milli(200);
    crate::scalar::scaling_keeps_order(a, b, ga);
    crate::scalar::greater_factor_makes_more(b, ga, gb);
    crate::scalar::product_keeps_sign(a, ga);
    crate::scalar::scaling_keeps_order(a * ga, b * gb, ca);
    crate::scalar::greater_factor_makes_more(b * gb, ca, cb);
    crate::scalar::product_keeps_sign(a * ga, ca);
}

/// The three merits of a receiver behind the lines add up to one: half of it is the nearness to
/// the
/// goal, three tenths the room and two tenths the finishing; the manager's choice counts half as
/// much again, and one whom an opponent is set on a little over a third.
pub proof fn merits_add_up(
    state: MidfielderPassingState,
    ctx: &StateProcessingContext,
    t: MatchPlayerLite,
)
    requires
        ctx.field_size.width > 0,
        t.position.distance_to(ctx.goal()) == units(0),
        state.calculate_improved_space_score(ctx, t) == units(1),
        t.skills.technical.finishing == units(20),
    ensures
        (!is_player(ctx.player.supply_target, t.id) && !state.is_covered(ctx, t))
            ==> state.calculate_breakthrough_value(ctx, t) == units(1),
        (is_player(ctx.player.supply_target, t.id) && !state.is_covered(ctx, t))
            ==> state.calculate_breakthrough_value(ctx, t) == milli(1500),
        (!is_player(ctx.player.supply_target, t.id) && state.is_covered(ctx, t))
            ==> state.calculate_breakthrough_value(ctx, t) == milli(350),
        state.is_covered(ctx, t) <==> exists|a: InterceptAssignment| #[trigger]
            ctx.intercept_assignments@.contains(a) && a.target == t.id && (a.interceptor_position
                - t.position).magnitude() < units(80),
{
    crate::scalar::one_changes_nothing(milli(500));
    crate::scalar::one_changes_nothing(milli(300));
    crate::scalar::one_changes_nothing(milli(200));
    crate::scalar::one_changes_nothing(units(1));
    crate::scalar::one_changes_nothing(milli(1500));
    crate::scalar::one_changes_nothing(milli(350));
    assert(units(0) / ctx.width() == units(0)) by {
        let w: int = ctx.width().raw as int;
        assert(0int / w == 0) by (nonlinear_arith)
            requires
                w > 0,
        ;
    }
    scan::some_is_one_of_them(
        ctx.intercept_assignments@,
        |a: InterceptAssignment|
            a.target == t.id && (a.interceptor_position - t.position).magnitude() < units(80),
    );
}

/// A receiver behind the lines is in sight, on the move, an attacker or midfielder, and behind at
/// least two opponents; who sees more passes further, who dares more passes between more.
pub proof fn through_balls_find_runners(
    state: MidfielderPassingState,
    ctx: &StateProcessingContext,
    t: MatchPlayerLite,
)
    requires
        state.is_breakthrough_target(ctx, t),
    ensures
        (
            t.position - ctx.player.position
        ).magnitude() < ctx.player.skills.mental.vision * units(20),
        t.velocity.magnitude() > units(1),
        t.tactical_positions.group == PositionGroup::Forward || t.tactical_positions.group
            == PositionGroup::Midfielder,
        exists|i: int, j: int|
            0 <= i < j < ctx.opponents@.len() && is_on_the_line(
                (#[trigger] ctx.opponents@[i]).position,
                ctx.player.position,
                t.position,
                units(8),
            ) && is_on_the_line(
                (#[trigger] ctx.opponents@[j]).position,
                ctx.player.position,
                t.position,
                units(8),
            ),
{
    let p = |o: MatchPlayerLite|
        is_on_the_line(o.position, ctx.player.position, t.position, units(8));
    assert(ctx.opponents.len() == ctx.opponents@.len());
    scan::count_tells_two(ctx.opponents@, p);
    let (i, j) = choose|i: int, j: int|
        0 <= i < j < ctx.opponents@.len() && p(#[trigger] ctx.opponents@[i]) && p(
            #[trigger] ctx.opponents@[j],
        );
    assert(p(ctx.opponents@[i]) && p(ctx.opponents@[j]));
}

/// A receiver further back is good only under pressure or for one who switches play; one further
/// up
/// is good where no opponent is about to close in.
pub proof fn good_positions_are_forward(
    state: MidfielderPassingState,
    ctx: &StateProcessingContext,
    t: MatchPlayerLite,
)
    ensures
        is_behind_of(ctx, t.position, ctx.player.position) ==> (state.is_in_good_position(ctx, t)
            <==> ctx.player.under_heavy_pressure || ctx.player.midfield.allows_switch_play),
        !is_behind_of(ctx, t.position, ctx.player.position) ==> (state.is_in_good_position(ctx, t)
            <==> t.position.distance_to(ctx.goal()) < ctx.player.position.distance_to(ctx.goal())
            && forall|o: MatchPlayerLite| #[trigger]
            ctx.opponents@.contains(o) && o.position.distance_to(t.position) <= units(15) ==> (o.position
                + o.velocity * units(10) - t.position).magnitude() >= units(5)),
        (exists|i: int, j: int|
            0 <= i < j < ctx.opponents@.len()
                && (#[trigger] ctx.opponents@[i]).position.distance_to(t.position)
                <= units(5) && (#[trigger] ctx.opponents@[j]).position.distance_to(t.position) <= units(5))
            ==> state.is_heavily_marked(ctx, t),
        (forall|o: MatchPlayerLite| #[trigger] ctx.opponents@.contains(o) ==> o.position.distance_to(t.position)
            > units(5)) ==> !state.is_heavily_marked(ctx, t),
        state.should_adjust_position(ctx) <==> ctx.best_pass.within_400 is None
            && state.find_breakthrough_pass_option(ctx) is None
            && !ctx.player.under_heavy_pressure,
{
    scan::some_is_one_of_them(
        ctx.opponents@,
        |o: MatchPlayerLite|
            o.position.distance_to(t.position) <= units(15) && (o.position + o.velocity * units(10)
                - t.position).magnitude() < units(5),
    );
    let p = |o: MatchPlayerLite| o.position.distance_to(t.position) <= units(5);
    assert(ctx.opponents.len() == ctx.opponents@.len());
    scan::count_tells_some(ctx.opponents@, p);
    scan::count_tells_two(ctx.opponents@, p);
    scan::first_is_one_of_them(ctx.opponents@, p);
}

/// The clearance is aimed at the halfway line or beyond, 40 or more ahead of the ball, and to the
/// side no further from the middle than the ball is.
pub proof fn clearances_are_aimed_forward(
    state: MidfielderPassingState,
    ctx: &StateProcessingContext,
)
    requires
        ctx.ball.position.x.is_between(units(0), ctx.width()),
        ctx.ball.position.y.is_between(units(0), ctx.height()),
    ensures
        ({
            let aim = state.clearance_target(ctx);
            let middle = ctx.height() * milli(500);
            &&& ctx.player.side == Some(PlayerSide::Left) ==> ctx.width() * milli(500) <= aim.x
                && ctx.ball.position.x + units(40) <= aim.x
            &&& ctx.player.side == Some(PlayerSide::Right) ==> aim.x <= ctx.width() * milli(500)
                && aim.x
                <= ctx.ball.position.x - units(40)
            &&& ctx.ball.position.y <= middle ==> ctx.ball.position.y <= aim.y && aim.y <= middle
            &&& middle <= ctx.ball.position.y ==> middle <= aim.y && aim.y <= ctx.ball.position.y
        }),
{
    let middle = ctx.height() * milli(500);
    crate::scalar::thousandths_of(ctx.height(), 500);
    let gap = middle - ctx.ball.position.y;
    crate::scalar::product_keeps_sign(gap, milli(600));
    if units(0) <= gap {
        crate::scalar::thousandths_of(gap, 600);
    } else {
        crate::scalar::greater_factor_makes_more(gap.negated(), milli(600), units(1));
        crate::scalar::scaling_keeps_order(gap, units(0), milli(600));
        crate::scalar::one_changes_nothing(gap.negated());
        assert(gap * milli(600) >= gap) by {
            let g: int = gap.raw as int;
            assert(g * 600_000 >= g * 1_000_000) by (nonlinear_arith)
                requires
                    g <= 0,
            ;
        }
    }
}

/// Under pressure the midfielder moves away from an opponent within 15; without pressure and with
/// a
/// pass at hand the midfielder is still, and without one steps aside from the teammate furthest
/// up.
pub proof fn passers_move_for_the_pass(state: MidfielderPassingState, ctx: &StateProcessingContext)
    ensures
        (
            !ctx.player.under_heavy_pressure && ctx.best_pass.within_400 is Some
        ) ==> state.velocity(ctx) == Some(
            still(),
        ),
        (
            !ctx.player.under_heavy_pressure && ctx.most_advanced_teammate is None
        ) ==> state.velocity(ctx)
            == Some(still()),
        state.presser(ctx) matches Some(o) ==> ctx.player.under_heavy_pressure
            && ctx.opponents@.contains(o)
            && o.distance <= units(15),
        (ctx.player.under_heavy_pressure && exists|o: MatchPlayerLite| #[trigger]
            ctx.opponents@.contains(o) && o.distance <= units(15)) ==> state.presser(ctx) is Some,
        (state.should_adjust_position(ctx) && ctx.most_advanced_teammate is Some
            && state.calculate_better_passing_position(ctx, ctx.most_advanced_teammate->0) is Some)
            ==> state.velocity(ctx) is Some && state.velocity(ctx)->0.steering == Some(
            Steering::Arrive {
                target: state.calculate_better_passing_position(
                    ctx,
                    ctx.most_advanced_teammate->0,
                )->0,
                slowing_distance: units(30),
            },
        ),
{
    scan::first_is_one_of_them(ctx.opponents@, |o: MatchPlayerLite| o.distance <= units(15));
}

/// A lane that a good tackler further off leaves clear is clear: without opponents it is, and an
/// opponent on the very line closes it for a passer of any skill.
pub proof fn lanes_are_closed_on_the_line(
    state: MidfielderPassingState,
    ctx: &StateProcessingContext,
    t: MatchPlayerLite,
)
    requires
        units(0) <= ctx.player.skills.technical.passing,
        ctx.player.skills.technical.passing <= units(20),
        units(0) <= ctx.player.skills.mental.vision,
        ctx.player.skills.mental.vision <= units(20),
    ensures
        ctx.opponents@.len() == 0 ==> state.has_clear_passing_lane(ctx, t),
        (exists|o: MatchPlayerLite| #[trigger]
            ctx.opponents@.contains(o) && o.skills.technical.tackling == units(0)
                && is_on_the_line(
                o.position,
                ctx.player.position,
                t.position,
                milli(1800),
            )) ==> !state.has_clear_passing_lane(ctx, t),
        (forall|o: MatchPlayerLite| #[trigger]
            ctx.opponents@.contains(o) ==> o.skills.technical.tackling == units(0)
                && !is_on_the_line(
                o.position,
                ctx.player.position,
                t.position,
                units(3),
            )) ==> state.has_clear_passing_lane(ctx, t),
{
    let pass = share(ctx.player.skills.technical.passing);
    let sight = share(ctx.player.skills.mental.vision);
    crate::scalar::quotient_keeps_order(units(0), ctx.player.skills.technical.passing, units(20));
    crate::scalar::quotient_keeps_order(ctx.player.skills.technical.passing, units(20), units(20));
    crate::scalar::quotient_keeps_order(units(0), ctx.player.skills.mental.vision, units(20));
    crate::scalar::quotient_keeps_order(ctx.player.skills.mental.vision, units(20), units(20));
    crate::scalar::thousandths_of(pass, 200);
    crate::scalar::thousandths_of(sight, 200);
    let width = milli(600) + pass * milli(200) + sight * milli(200);
    let lane = units(3) * width;
    crate::scalar::greater_factor_makes_more(units(3), milli(600), width);
    crate::scalar::greater_factor_makes_more(units(3), width, units(1));
    crate::scalar::thousandths_of(units(3), 600);
    crate::scalar::one_changes_nothing(units(3));
    crate::scalar::zero_stays_zero(milli(300));
    crate::scalar::one_changes_nothing(lane);
    let p = |o: MatchPlayerLite|
        is_on_the_line(
            o.position,
            ctx.player.position,
            t.position,
            lane * (units(1) - share(o.skills.technical.tackling) * milli(300)),
        );
    assert(ctx.opponents.len() == ctx.opponents@.len());
    scan::count_tells_some(ctx.opponents@, p);
    if exists|o: MatchPlayerLite| #[trigger]
        ctx.opponents@.contains(o) && o.skills.technical.tackling == units(0) && is_on_the_line(
            o.position,
            ctx.player.position,
            t.position,
            milli(1800),
        ) {
        let o = choose|o: MatchPlayerLite| #[trigger]
            ctx.opponents@.contains(o) && o.skills.technical.tackling == units(0)
                && is_on_the_line(
                o.position,
                ctx.player.position,
                t.position,
                milli(1800),
            );
        assert(p(o));
    }
}

/// The step to a better angle leads five to the side of the way to the teammate.
pub proof fn better_angles_are_aside(
    state: MidfielderPassingState,
    ctx: &StateProcessingContext,
    t: MatchPlayerLite,
)
    ensures
        (
            t.position - ctx.player.position
        ).direction() matches Some(way) ==> state.calculate_better_passing_position(
            ctx,
            t,
        ) == Some(ctx.player.position + flat(way.y.negated(), way.x) * units(5)),
        (
            t.position - ctx.player.position
        ).direction() is None ==> state.calculate_better_passing_position(
            ctx,
            t,
        ) is None,
{
}

} // verus!
