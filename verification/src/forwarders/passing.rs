//! A forward who looks for a pass.
use crate::context::{
    headcount, is_player, turned, up_to_five, InterceptAssignment, MatchPlayerLite, PositionGroup,
    StateProcessingContext,
};
use crate::gaps::{gaps_between, Gap};
use crate::movement::{is_behind_of, is_on_the_line};
use crate::outcome::{
    arrive_if_any, exertion, pass_to, with_forward_state, ActivityIntensity, Exertion,
    ForwardState, Movement, PlayerEvent, PlayerState, StateChangeResult,
};
use crate::scalar::{micro, milli, units, Scalar};
use crate::scan;
use crate::vector::{aligned_above, reaches_beyond, Vec3};
use vstd::prelude::*;

verus! {

/// Steps after which the forward looks for something else.
pub const MAX_PASS_DURATION: u64 = 30;

/// Steps before the forward moves for a better angle.
pub const MIN_POSITION_ADJUSTMENT_TIME: u64 = 5;

/// Steps after which the forward no longer does.
pub const MAX_POSITION_ADJUSTMENT_TIME: u64 = 20;

/// The most opponents that are looked at in the search for space.
pub const MAX_OPPONENT_POSITIONS: usize = 11;

pub open spec fn spec_min_forward_pass_score() -> Scalar {
    units(5)
}

/// The least score of a pass that is worth playing.
#[verifier::when_used_as_spec(spec_min_forward_pass_score)]
pub fn min_forward_pass_score() -> (r: Scalar)
    ensures
        r == spec_min_forward_pass_score(),
{
    units(5)
}

#[derive(Default, Clone, Copy)]
pub struct ForwardPassingState {}

impl ForwardPassingState {
    pub open spec fn spec_process(
        &self,
        ctx: &StateProcessingContext,
    ) -> Option<StateChangeResult> {
        if !ctx.player.has_ball {
            Some(with_forward_state(ForwardState::Running))
        } else if ctx.ball.distance_to_opponent_goal < units(40) && ctx.player.clear_shot {
            Some(with_forward_state(ForwardState::Shooting))
        } else {
            match self.pass_after_scan(ctx) {
                Some(result) => Some(result),
                None => self.without_option(ctx),
            }
        }
    }

    /// The next state of a passing forward.
    #[verifier::when_used_as_spec(spec_process)]
    pub fn process(&self, ctx: &StateProcessingContext) -> (r: Option<StateChangeResult>)
        ensures
            r == self.spec_process(ctx),
    {
        if !ctx.player.has_ball {
            return Some(with_forward_state(ForwardState::Running));
        }
        if ctx.ball.distance_to_opponent_goal < units(40) && ctx.player.clear_shot {
            return Some(with_forward_state(ForwardState::Shooting));
        }
        match self.pass_after_scan(ctx) {
            Some(result) => Some(result),
            None => self.without_option(ctx),
        }
    }

    pub open spec fn spec_pass_after_scan(
        &self,
        ctx: &StateProcessingContext,
    ) -> Option<StateChangeResult> {
        if ctx.in_state_time < self.min_scan_time(ctx) {
            None
        } else {
            match self.find_best_pass_option(ctx) {
                Some(target) => Some(
                    with_forward_state(ForwardState::Running).with_event(
                        pass_to(ctx.player.id, target.id, "FWD_PASSING_STATE"),
                    ),
                ),
                None => None,
            }
        }
    }

    /// The best pass, after a while of looking about.
    #[verifier::when_used_as_spec(spec_pass_after_scan)]
    pub fn pass_after_scan(&self, ctx: &StateProcessingContext) -> (r: Option<StateChangeResult>)
        ensures
            r == self.spec_pass_after_scan(ctx),
    {
        if ctx.in_state_time < self.min_scan_time(ctx) {
            return None;
        }
        match self.find_best_pass_option(ctx) {
            Some(target) => Some(
                with_forward_state(ForwardState::Running).with_event(
                    pass_to(ctx.player.id, target.id, "FWD_PASSING_STATE"),
                ),
            ),
            None => None,
        }
    }

    pub open spec fn spec_min_scan_time(&self, ctx: &StateProcessingContext) -> u64 {
        if ctx.player.under_immediate_pressure {
            3
        } else {
            8
        }
    }

    /// Steps of looking about before a pass, fewer under pressure.
    #[verifier::when_used_as_spec(spec_min_scan_time)]
    pub fn min_scan_time(&self, ctx: &StateProcessingContext) -> (r: u64)
        ensures
            r == self.spec_min_scan_time(ctx),
    {
        if ctx.player.under_immediate_pressure { 3 } else { 8 }
    }

    pub open spec fn spec_without_option(
        &self,
        ctx: &StateProcessingContext,
    ) -> Option<StateChangeResult> {
        if ctx.ball.distance_to_opponent_goal < units(200) {
            if ctx.opponent_exists(units(8)) && ctx.in_state_time >= 15 {
                Some(with_forward_state(ForwardState::Dribbling))
            } else {
                Some(with_forward_state(ForwardState::Running))
            }
        } else if self.is_under_heavy_pressure(ctx) {
            if self.can_dribble_effectively(ctx) {
                Some(with_forward_state(ForwardState::Dribbling))
            } else {
                Some(with_forward_state(ForwardState::Running))
            }
        } else if ctx.in_state_time > MAX_PASS_DURATION {
            Some(with_forward_state(ForwardState::Running))
        } else {
            None
        }
    }

    /// Without a good pass: a dribble past a very close defender, else on the run; far from the
    /// goal the forward waits a while.
    #[verifier::when_used_as_spec(spec_without_option)]
    pub fn without_option(&self, ctx: &StateProcessingContext) -> (r: Option<StateChangeResult>)
        ensures
            r == self.spec_without_option(ctx),
    {
        if ctx.ball.distance_to_opponent_goal < units(200) {
            if ctx.opponent_exists(units(8)) && ctx.in_state_time >= 15 {
                return Some(with_forward_state(ForwardState::Dribbling));
            } else {
                return Some(with_forward_state(ForwardState::Running));
            }
        }
        if self.is_under_heavy_pressure(ctx) {
            if self.can_dribble_effectively(ctx) {
                return Some(with_forward_state(ForwardState::Dribbling));
            } else {
                return Some(with_forward_state(ForwardState::Running));
            }
        }
        if ctx.in_state_time > MAX_PASS_DURATION {
            return Some(with_forward_state(ForwardState::Running));
        }
        None
    }

    pub open spec fn spec_velocity(&self, ctx: &StateProcessingContext) -> Option<Movement> {
        if self.should_adjust_position(ctx) {
            Some(
                arrive_if_any(self.calculate_better_passing_position(ctx), units(30)).plus(
                    ctx.player.separation_velocity * milli(300),
                ),
            )
        } else {
            None
        }
    }

    /// To a spot with a better angle, where there is no good pass and time to look for one.
    #[verifier::when_used_as_spec(spec_velocity)]
    pub fn velocity(&self, ctx: &StateProcessingContext) -> (r: Option<Movement>)
        ensures
            r == self.spec_velocity(ctx),
    {
        if self.should_adjust_position(ctx) {
            Some(
                arrive_if_any(self.calculate_better_passing_position(ctx), units(30)).plus(
                    ctx.player.separation_velocity * milli(300),
                ),
            )
        } else {
            None
        }
    }

    pub open spec fn spec_process_conditions(&self) -> Exertion {
        exertion(ActivityIntensity::Low)
    }

    /// The load of the state.
    #[verifier::when_used_as_spec(spec_process_conditions)]
    pub fn process_conditions(&self) -> (r: Exertion)
        ensures
            r == self.spec_process_conditions(),
    {
        exertion(ActivityIntensity::Low)
    }

    pub open spec fn spec_pass_score(
        &self,
        ctx: &StateProcessingContext,
        t: MatchPlayerLite,
    ) -> Scalar {
        self.evaluate_forward_pass(
            ctx,
            t,
        ) * t.recency_penalty * self.calculate_congestion_penalty(ctx, t)
    }

    /// The worth of a pass, less to a recent passer and into a crowd.
    #[verifier::when_used_as_spec(spec_pass_score)]
    pub fn pass_score(&self, ctx: &StateProcessingContext, t: MatchPlayerLite) -> (r: Scalar)
        ensures
            r == self.spec_pass_score(ctx, t),
    {
        self.evaluate_forward_pass(
            ctx,
            t,
        ) * t.recency_penalty * self.calculate_congestion_penalty(ctx, t)
    }

    pub open spec fn spec_is_pass_option(
        &self,
        ctx: &StateProcessingContext,
        t: MatchPlayerLite,
    ) -> bool {
        self.is_viable_pass_target(ctx, t) && !self.is_close_recent_passer(ctx, t)
        && self.pass_score(ctx, t) >= min_forward_pass_score()
    }

    /// In sight, free, a chance, and not the latest passer.
    #[verifier::when_used_as_spec(spec_is_pass_option)]
    pub fn is_pass_option(&self, ctx: &StateProcessingContext, t: MatchPlayerLite) -> (r: bool)
        ensures
            r == self.spec_is_pass_option(ctx, t),
    {
        self.is_viable_pass_target(ctx, t) && !self.is_close_recent_passer(ctx, t)
        && self.pass_score(ctx, t) >= min_forward_pass_score()
    }

    pub open spec fn spec_vision_range(&self, ctx: &StateProcessingContext) -> Scalar {
        (ctx.player.skills.mental.vision * units(30)).max(units(100))
    }

    /// How far the forward sees.
    #[verifier::when_used_as_spec(spec_vision_range)]
    pub fn vision_range(&self, ctx: &StateProcessingContext) -> (r: Scalar)
        ensures
            r == self.spec_vision_range(ctx),
    {
        (ctx.player.skills.mental.vision * units(30)).max(units(100))
    }

    pub open spec fn spec_find_best_pass_option(
        &self,
        ctx: &StateProcessingContext,
    ) -> Option<MatchPlayerLite> {
        match scan::greatest_where(
            ctx.teammates@,
            |t: MatchPlayerLite|
                t.distance >= units(25) && t.distance <= units(80)
                    && t.tactical_positions.is_forward() && self.is_pass_option(ctx, t),
            |t: MatchPlayerLite| self.pass_score(ctx, t),
        ) {
            Some(forward) => {
                Some(forward)
            },
            None => {
                scan::greatest_where(
                    ctx.teammates@,
                    |t: MatchPlayerLite|
                        t.distance >= units(25) && t.distance <= self.vision_range(ctx)
                            && self.is_pass_option(ctx, t),
                    |t: MatchPlayerLite| self.pass_score(ctx, t),
                )
            },
        }
    }

    /// The best pass to a forward nearby, else to any teammate in sight.
    #[verifier::when_used_as_spec(spec_find_best_pass_option)]
    pub fn find_best_pass_option(
        &self,
        ctx: &StateProcessingContext,
    ) -> (r: Option<MatchPlayerLite>)
        ensures
            r == self.spec_find_best_pass_option(ctx),
    {
        match scan::greatest_of(
            &ctx.teammates,
            |t: MatchPlayerLite| -> (b: bool)
                ensures b == (
                    t.distance >= units(25) && t.distance <= units(80)
                        && t.tactical_positions.is_forward() && self.is_pass_option(ctx, t)
                )
            {
                t.distance >= units(25) && t.distance <= units(80)
                    && t.tactical_positions.is_forward() && self.is_pass_option(ctx, t)
            },
            |t: MatchPlayerLite| -> (b: Scalar)
                ensures b == (self.pass_score(ctx, t))
            {
                self.pass_score(ctx, t)
            },
            Ghost(
                |t: MatchPlayerLite|
                    t.distance >= units(25) && t.distance <= units(80)
                        && t.tactical_positions.is_forward() && self.is_pass_option(ctx, t),
            ),
            Ghost(|t: MatchPlayerLite| self.pass_score(ctx, t)),
        ) {
            Some(forward) => {
                return Some(forward);
            },
            None => {},
        }
        scan::greatest_of(
            &ctx.teammates,
            |t: MatchPlayerLite| -> (b: bool)
                ensures b == (
                    t.distance >= units(25) && t.distance <= self.vision_range(ctx)
                        && self.is_pass_option(ctx, t)
                )
            {
                t.distance >= units(25) && t.distance <= self.vision_range(ctx)
                    && self.is_pass_option(ctx, t)
            },
            |t: MatchPlayerLite| -> (b: Scalar)
                ensures b == (self.pass_score(ctx, t))
            {
                self.pass_score(ctx, t)
            },
            Ghost(
                |t: MatchPlayerLite|
                    t.distance >= units(25) && t.distance <= self.vision_range(ctx)
                        && self.is_pass_option(ctx, t),
            ),
            Ghost(|t: MatchPlayerLite| self.pass_score(ctx, t)),
        )
    }

    pub open spec fn spec_is_close_recent_passer(
        &self,
        ctx: &StateProcessingContext,
        t: MatchPlayerLite,
    ) -> bool {
        t.recency_penalty <= milli(100)
    }

    /// The latest passer does not get the ball back.
    #[verifier::when_used_as_spec(spec_is_close_recent_passer)]
    pub fn is_close_recent_passer(
        &self,
        ctx: &StateProcessingContext,
        t: MatchPlayerLite,
    ) -> (r: bool)
        ensures
            r == self.spec_is_close_recent_passer(ctx, t),
    {
        t.recency_penalty <= milli(100)
    }

    pub open spec fn spec_space_multiplier(&self, receiver_space: Scalar) -> Scalar {
        if receiver_space > milli(800) {
            units(1)
        } else if receiver_space > milli(500) {
            milli(600)
        } else if receiver_space > milli(300) {
            milli(300)
        } else {
            milli(100)
        }
    }

    /// How much of the bonuses a receiver deserves, by the room around.
    #[verifier::when_used_as_spec(spec_space_multiplier)]
    pub fn space_multiplier(&self, receiver_space: Scalar) -> (r: Scalar)
        ensures
            r == self.spec_space_multiplier(receiver_space),
    {
        if receiver_space > milli(800) {
            units(1)
        } else if receiver_space > milli(500) {
            milli(600)
        } else if receiver_space > milli(300) {
            milli(300)
        } else {
            milli(100)
        }
    }

    pub open spec fn spec_evaluate_forward_pass(
        &self,
        ctx: &StateProcessingContext,
        t: MatchPlayerLite,
    ) -> Scalar {
        let room = self.space_multiplier(t.receiver_positioning);
        let streak = (units(ctx.player.pass_streak as i64) * units(2)).min(units(10));
        let sum = t.pass_value + self.progress_bonus(ctx, t, room)
            + self.forward_bonus(ctx, t, room)
        + self.attack_bonus(ctx, t, room) + streak + t.receiver_positioning * units(15)
        - self.back_pass_penalty(ctx, t);
        self.with_orders(ctx, t, sum)
    }

    /// The worth of a pass for a forward.
    #[verifier::when_used_as_spec(spec_evaluate_forward_pass)]
    pub fn evaluate_forward_pass(
        &self,
        ctx: &StateProcessingContext,
        t: MatchPlayerLite,
    ) -> (r: Scalar)
        ensures
            r == self.spec_evaluate_forward_pass(ctx, t),
    {
        let room = self.space_multiplier(t.receiver_positioning);
        let streak = (units(ctx.player.pass_streak as i64) * units(2)).min(units(10));
        let sum = t.pass_value + self.progress_bonus(ctx, t, room)
            + self.forward_bonus(ctx, t, room)
        + self.attack_bonus(ctx, t, room) + streak + t.receiver_positioning * units(15)
        - self.back_pass_penalty(ctx, t);
        self.with_orders(ctx, t, sum)
    }

    pub open spec fn spec_progress_bonus(
        &self,
        ctx: &StateProcessingContext,
        t: MatchPlayerLite,
        room: Scalar,
    ) -> Scalar {
        let own = ctx.ball.distance_to_opponent_goal;
        let theirs = t.position.distance_to(ctx.goal());
        if theirs < own {
            units(20) * (units(1) - theirs / own) * room
        } else {
            units(0)
        }
    }

    /// For coming closer to the goal.
    #[verifier::when_used_as_spec(spec_progress_bonus)]
    pub fn progress_bonus(
        &self,
        ctx: &StateProcessingContext,
        t: MatchPlayerLite,
        room: Scalar,
    ) -> (r: Scalar)
        ensures
            r == self.spec_progress_bonus(ctx, t, room),
    {
        let own = ctx.ball.distance_to_opponent_goal;
        let theirs = t.position.distance_to(ctx.goal());
        if theirs < own {
            units(20) * (units(1) - theirs / own) * room
        } else {
            units(0)
        }
    }

    pub open spec fn spec_forward_bonus(
        &self,
        ctx: &StateProcessingContext,
        t: MatchPlayerLite,
        room: Scalar,
    ) -> Scalar {
        if !t.tactical_positions.is_forward() {
            units(0)
        } else {
            let near_goal = if t.position.distance_to(ctx.goal())
                < units(300) { units(10) * room } else { units(0) };
            let on_the_run = if reaches_beyond(t.velocity, ctx.goal() - t.position, units(3)) {
                units(15) * room
            } else {
                units(0)
            };
            units(15) * room + near_goal + on_the_run
        }
    }

    /// For another forward, more so near the goal and on the run.
    #[verifier::when_used_as_spec(spec_forward_bonus)]
    pub fn forward_bonus(
        &self,
        ctx: &StateProcessingContext,
        t: MatchPlayerLite,
        room: Scalar,
    ) -> (r: Scalar)
        ensures
            r == self.spec_forward_bonus(ctx, t, room),
    {
        if !t.tactical_positions.is_forward() {
            return units(0);
        }
        let near_goal = if t.position.distance_to(ctx.goal())
            < units(300) { units(10) * room } else { units(0) };
        let on_the_run = if reaches_beyond(t.velocity, ctx.goal() - t.position, units(3)) {
            units(15) * room
        } else {
            units(0)
        };
        units(15) * room + near_goal + on_the_run
    }

    pub open spec fn spec_attack_bonus(
        &self,
        ctx: &StateProcessingContext,
        t: MatchPlayerLite,
        room: Scalar,
    ) -> Scalar {
        let line = if self.pass_breaks_defensive_line(ctx, t) {
            units(15) * room
        } else {
            units(0)
        };
        let shot = if self.teammate_has_clear_shot(ctx, t) { units(25) * room } else { units(0) };
        let through = if self.is_through_ball(ctx, t) { units(25) * room } else { units(0) };
        line + shot + through
    }

    /// For breaking a line, for a clear shot, and for a through ball.
    #[verifier::when_used_as_spec(spec_attack_bonus)]
    pub fn attack_bonus(
        &self,
        ctx: &StateProcessingContext,
        t: MatchPlayerLite,
        room: Scalar,
    ) -> (r: Scalar)
        ensures
            r == self.spec_attack_bonus(ctx, t, room),
    {
        let line = if self.pass_breaks_defensive_line(ctx, t) {
            units(15) * room
        } else {
            units(0)
        };
        let shot = if self.teammate_has_clear_shot(ctx, t) { units(25) * room } else { units(0) };
        let through = if self.is_through_ball(ctx, t) { units(25) * room } else { units(0) };
        line + shot + through
    }

    pub open spec fn spec_is_through_ball(
        &self,
        ctx: &StateProcessingContext,
        t: MatchPlayerLite,
    ) -> bool {
        t.velocity.magnitude() > units(2)
        && aligned_above(t.velocity, ctx.goal() - t.position, milli(500))
        && match (ctx.goal() - t.position).direction() {
            Some(way) => {
                let ahead = t.position + way * units(30);
                scan::count_where(
                    ctx.opponents@,
                    |o: MatchPlayerLite| (ahead - o.position).magnitude() < units(20),
                ) == 0
            },
            None => false,
        }
    }

    /// The teammate runs at the goal into free space.
    #[verifier::when_used_as_spec(spec_is_through_ball)]
    pub fn is_through_ball(&self, ctx: &StateProcessingContext, t: MatchPlayerLite) -> (r: bool)
        ensures
            r == self.spec_is_through_ball(ctx, t),
    {
        t.velocity.magnitude() > units(2)
        && aligned_above(t.velocity, ctx.goal() - t.position, milli(500))
        && match (ctx.goal() - t.position).direction() {
            Some(way) => {
                let ahead = t.position + way * units(30);
                scan::count_if(
                    &ctx.opponents,
                    |o: MatchPlayerLite| -> (b: bool)
                        ensures b == ((ahead - o.position).magnitude() < units(20))
                    {
                        (ahead - o.position).magnitude() < units(20)
                    },
                    Ghost(|o: MatchPlayerLite| (ahead - o.position).magnitude() < units(20)),
                ) == 0
            },
            None => false,
        }
    }

    pub open spec fn spec_back_pass_penalty(
        &self,
        ctx: &StateProcessingContext,
        t: MatchPlayerLite,
    ) -> Scalar {
        if is_behind_of(ctx, t.position, ctx.player.position)
            && !self.is_under_heavy_pressure(ctx) {
            if ctx.ball.distance_to_opponent_goal < units(350) {
                units(35)
            } else {
                units(20)
            }
        } else {
            units(0)
        }
    }

    /// For a pass back without heavy pressure, more so in the last third.
    #[verifier::when_used_as_spec(spec_back_pass_penalty)]
    pub fn back_pass_penalty(
        &self,
        ctx: &StateProcessingContext,
        t: MatchPlayerLite,
    ) -> (r: Scalar)
        ensures
            r == self.spec_back_pass_penalty(ctx, t),
    {
        if is_behind_of(ctx, t.position, ctx.player.position)
            && !self.is_under_heavy_pressure(ctx) {
            if ctx.ball.distance_to_opponent_goal < units(350) { units(35) } else { units(20) }
        } else {
            units(0)
        }
    }

    pub open spec fn spec_with_orders(
        &self,
        ctx: &StateProcessingContext,
        t: MatchPlayerLite,
        score: Scalar,
    ) -> Scalar {
        let linked = if is_player(
            ctx.player.link_target,
            t.id,
        ) { score * milli(1500) } else { score };
        let fed = if is_player(ctx.player.supply_target, t.id) {
            if (t.position - ctx.player.position).magnitude() >= units(60) {
                linked * milli(1600)
            } else {
                linked * milli(1150)
            }
        } else {
            linked
        };
        if self.is_covered(ctx, t) {
            fed * milli(350)
        } else {
            fed
        }
    }

    /// The manager's orders: partners and fed players count more, covered ones less.
    #[verifier::when_used_as_spec(spec_with_orders)]
    pub fn with_orders(
        &self,
        ctx: &StateProcessingContext,
        t: MatchPlayerLite,
        score: Scalar,
    ) -> (r: Scalar)
        ensures
            r == self.spec_with_orders(ctx, t, score),
    {
        let linked = if is_player(
            ctx.player.link_target,
            t.id,
        ) { score * milli(1500) } else { score };
        let fed = if is_player(ctx.player.supply_target, t.id) {
            if (t.position - ctx.player.position).magnitude() >= units(60) {
                linked * milli(1600)
            } else {
                linked * milli(1150)
            }
        } else {
            linked
        };
        if self.is_covered(ctx, t) { fed * milli(350) } else { fed }
    }

    pub open spec fn spec_is_covered(
        &self,
        ctx: &StateProcessingContext,
        t: MatchPlayerLite,
    ) -> bool {
        scan::some_where(
            ctx.intercept_assignments@,
            |a: InterceptAssignment|
                a.target == t.id && (a.interceptor_position - t.position).magnitude() < units(80),
        )
    }

    /// An opponent set on the teammate is in range to cut out the pass.
    #[verifier::when_used_as_spec(spec_is_covered)]
    pub fn is_covered(&self, ctx: &StateProcessingContext, t: MatchPlayerLite) -> (r: bool)
        ensures
            r == self.spec_is_covered(ctx, t),
    {
        scan::any_of(
            &ctx.intercept_assignments,
            |a: InterceptAssignment| -> (b: bool)
                ensures b == (
                    a.target == t.id
                        && (a.interceptor_position - t.position).magnitude() < units(80)
                )
            {
                a.target == t.id && (a.interceptor_position - t.position).magnitude() < units(80)
            },
            Ghost(
                |a: InterceptAssignment|
                    a.target == t.id
                        && (a.interceptor_position - t.position).magnitude() < units(80),
            ),
        )
    }

    pub open spec fn spec_pass_breaks_defensive_line(
        &self,
        ctx: &StateProcessingContext,
        t: MatchPlayerLite,
    ) -> bool {
        scan::count_where(
            ctx.opponents@,
            |o: MatchPlayerLite|
                is_on_the_line(o.position, ctx.player.position, t.position, units(3)),
        ) > 0
    }

    /// An opponent stands right in the line of the pass.
    #[verifier::when_used_as_spec(spec_pass_breaks_defensive_line)]
    pub fn pass_breaks_defensive_line(
        &self,
        ctx: &StateProcessingContext,
        t: MatchPlayerLite,
    ) -> (r: bool)
        ensures
            r == self.spec_pass_breaks_defensive_line(ctx, t),
    {
        scan::count_if(
            &ctx.opponents,
            |o: MatchPlayerLite| -> (b: bool)
                ensures b == (
                    is_on_the_line(o.position, ctx.player.position, t.position, units(3))
                )
            {
                is_on_the_line(o.position, ctx.player.position, t.position, units(3))
            },
            Ghost(
                |o: MatchPlayerLite|
                    is_on_the_line(o.position, ctx.player.position, t.position, units(3)),
            ),
        ) > 0
    }

    pub open spec fn spec_is_viable_pass_target(
        &self,
        ctx: &StateProcessingContext,
        t: MatchPlayerLite,
    ) -> bool {
        t.clear_pass && !self.is_heavily_marked(ctx, t) && self.pass_creates_opportunity(ctx, t)
    }

    /// In sight, not tightly marked, and of use.
    #[verifier::when_used_as_spec(spec_is_viable_pass_target)]
    pub fn is_viable_pass_target(
        &self,
        ctx: &StateProcessingContext,
        t: MatchPlayerLite,
    ) -> (r: bool)
        ensures
            r == self.spec_is_viable_pass_target(ctx, t),
    {
        t.clear_pass && !self.is_heavily_marked(ctx, t) && self.pass_creates_opportunity(ctx, t)
    }

    pub open spec fn spec_pass_creates_opportunity(
        &self,
        ctx: &StateProcessingContext,
        t: MatchPlayerLite,
    ) -> bool {
        let to_goal = t.position.distance_to(ctx.goal());
        let space = self.calculate_space_around_player(ctx, t);
        if to_goal < units(250) {
            true
        } else if t.tactical_positions.is_forward() && (space > units(5) || to_goal < units(500)) {
            true
        } else if is_behind_of(ctx, t.position, ctx.player.position) {
            self.is_under_heavy_pressure(ctx) || space > units(8)
        } else {
            space > units(6) || to_goal < ctx.ball.distance_to_opponent_goal - units(50)
        }
    }

    /// Near the goal, a forward with room or up front, a safe pass back, room or real progress.
    #[verifier::when_used_as_spec(spec_pass_creates_opportunity)]
    pub fn pass_creates_opportunity(
        &self,
        ctx: &StateProcessingContext,
        t: MatchPlayerLite,
    ) -> (r: bool)
        ensures
            r == self.spec_pass_creates_opportunity(ctx, t),
    {
        let to_goal = t.position.distance_to(ctx.goal());
        let space = self.calculate_space_around_player(ctx, t);
        if to_goal < units(250) {
            return true;
        }
        if t.tactical_positions.is_forward() && (space > units(5) || to_goal < units(500)) {
            return true;
        }
        if is_behind_of(ctx, t.position, ctx.player.position) {
            return self.is_under_heavy_pressure(ctx) || space > units(8);
        }
        space > units(6) || to_goal < ctx.ball.distance_to_opponent_goal - units(50)
    }

    pub open spec fn spec_is_heavily_marked(
        &self,
        ctx: &StateProcessingContext,
        t: MatchPlayerLite,
    ) -> bool {
        ctx.opponents_around(t.position, units(5)) >= 1
            || ctx.opponents_around(t.position, units(12)) >= 2
    }

    /// One opponent very close, or two around.
    #[verifier::when_used_as_spec(spec_is_heavily_marked)]
    pub fn is_heavily_marked(&self, ctx: &StateProcessingContext, t: MatchPlayerLite) -> (r: bool)
        ensures
            r == self.spec_is_heavily_marked(ctx, t),
    {
        ctx.opponents_around(t.position, units(5)) >= 1
            || ctx.opponents_around(t.position, units(12)) >= 2
    }

    pub open spec fn spec_teammate_has_clear_shot(
        &self,
        ctx: &StateProcessingContext,
        t: MatchPlayerLite,
    ) -> bool {
        t.clear_shot && (ctx.goal() - t.position).magnitude() < units(300)
    }

    /// Nothing between the teammate and a goal in range.
    #[verifier::when_used_as_spec(spec_teammate_has_clear_shot)]
    pub fn teammate_has_clear_shot(
        &self,
        ctx: &StateProcessingContext,
        t: MatchPlayerLite,
    ) -> (r: bool)
        ensures
            r == self.spec_teammate_has_clear_shot(ctx, t),
    {
        t.clear_shot && (ctx.goal() - t.position).magnitude() < units(300)
    }

    pub open spec fn spec_calculate_space_around_player(
        &self,
        ctx: &StateProcessingContext,
        p: MatchPlayerLite,
    ) -> Scalar {
        let opponents: usize = ctx.opponents_around(p.position, units(20));
        let teammates: usize = scan::count_where(
            ctx.teammates@,
            |t: MatchPlayerLite|
                t.id != p.id && (t.position - p.position).norm_squared() <= units(400),
        );
        (
            units(20) - (headcount(opponents) * units(3) + headcount(teammates) * milli(1500))
        ).max(units(0))
    }

    /// The room around a player: less for each opponent, and half as much less for each
    /// teammate.
    #[verifier::when_used_as_spec(spec_calculate_space_around_player)]
    pub fn calculate_space_around_player(
        &self,
        ctx: &StateProcessingContext,
        p: MatchPlayerLite,
    ) -> (r: Scalar)
        ensures
            r == self.spec_calculate_space_around_player(ctx, p),
    {
        let opponents: usize = ctx.opponents_around(p.position, units(20));
        let teammates: usize = scan::count_if(
            &ctx.teammates,
            |t: MatchPlayerLite| -> (b: bool)
                ensures b == (
                    t.id != p.id && (t.position - p.position).norm_squared() <= units(400)
                )
            {
                t.id != p.id && (t.position - p.position).norm_squared() <= units(400)
            },
            Ghost(
                |t: MatchPlayerLite|
                    t.id != p.id && (t.position - p.position).norm_squared() <= units(400),
            ),
        );
        (
            units(20) - (headcount(opponents) * units(3) + headcount(teammates) * milli(1500))
        ).max(units(0))
    }

    pub open spec fn spec_is_under_heavy_pressure(&self, ctx: &StateProcessingContext) -> bool {
        ctx.player.under_heavy_pressure
    }

    #[verifier::when_used_as_spec(spec_is_under_heavy_pressure)]
    pub fn is_under_heavy_pressure(&self, ctx: &StateProcessingContext) -> (r: bool)
        ensures
            r == self.spec_is_under_heavy_pressure(ctx),
    {
        ctx.player.under_heavy_pressure
    }

    pub open spec fn spec_can_dribble_effectively(&self, ctx: &StateProcessingContext) -> bool {
        !ctx.opponent_exists(units(15))
        && ctx.rolls.dribble_out < ctx.curves.dribbling_10 * milli(700)
            + ctx.curves.agility_10 * milli(300)
    }

    /// Room, and luck by the skill on the ball.
    #[verifier::when_used_as_spec(spec_can_dribble_effectively)]
    pub fn can_dribble_effectively(&self, ctx: &StateProcessingContext) -> (r: bool)
        ensures
            r == self.spec_can_dribble_effectively(ctx),
    {
        !ctx.opponent_exists(units(15))
        && ctx.rolls.dribble_out < ctx.curves.dribbling_10 * milli(700)
            + ctx.curves.agility_10 * milli(300)
    }

    pub open spec fn spec_should_adjust_position(&self, ctx: &StateProcessingContext) -> bool {
        ctx.in_state_time >= MIN_POSITION_ADJUSTMENT_TIME
        && ctx.in_state_time <= MAX_POSITION_ADJUSTMENT_TIME
        && self.find_best_pass_option(ctx).is_none()
        && !self.is_under_heavy_pressure(ctx)
    }

    /// No good pass, no heavy pressure, and the right moment.
    #[verifier::when_used_as_spec(spec_should_adjust_position)]
    pub fn should_adjust_position(&self, ctx: &StateProcessingContext) -> (r: bool)
        ensures
            r == self.spec_should_adjust_position(ctx),
    {
        ctx.in_state_time >= MIN_POSITION_ADJUSTMENT_TIME
        && ctx.in_state_time <= MAX_POSITION_ADJUSTMENT_TIME
        && self.find_best_pass_option(ctx).is_none()
        && !self.is_under_heavy_pressure(ctx)
    }

    pub open spec fn spec_calculate_better_passing_position(
        &self,
        ctx: &StateProcessingContext,
    ) -> Option<Vec3> {
        match self.space_near_goal(ctx) {
            Some(space) => Some(space),
            None => self.better_angle(ctx),
        }
    }

    /// Near the goal into space between the defenders, else to a better angle to a teammate,
    /// else towards the goal; none where that has no direction.
    #[verifier::when_used_as_spec(spec_calculate_better_passing_position)]
    pub fn calculate_better_passing_position(
        &self,
        ctx: &StateProcessingContext,
    ) -> (r: Option<Vec3>)
        ensures
            r == self.spec_calculate_better_passing_position(ctx),
    {
        match self.space_near_goal(ctx) {
            Some(space) => Some(space),
            None => self.better_angle(ctx),
        }
    }

    pub open spec fn spec_space_near_goal(&self, ctx: &StateProcessingContext) -> Option<Vec3> {
        if ctx.ball.distance_to_opponent_goal < units(250) {
            self.find_space_between_opponents_toward_goal(ctx)
        } else {
            None
        }
    }

    /// Near the goal, space between the defenders.
    #[verifier::when_used_as_spec(spec_space_near_goal)]
    pub fn space_near_goal(&self, ctx: &StateProcessingContext) -> (r: Option<Vec3>)
        ensures
            r == self.spec_space_near_goal(ctx),
    {
        if ctx.ball.distance_to_opponent_goal < units(250) {
            self.find_space_between_opponents_toward_goal(ctx)
        } else {
            None
        }
    }

    pub open spec fn spec_better_angle(&self, ctx: &StateProcessingContext) -> Option<Vec3> {
        match scan::first_where(ctx.teammates@, |t: MatchPlayerLite| t.distance <= units(150)) {
            Some(t) => match (t.position - ctx.player.position).direction() {
                Some(way) => Some(ctx.player.position + turned(way) * units(5)),
                None => None,
            },
            None => match ctx.to_goal().direction() {
                Some(way) => Some(ctx.player.position + way * units(5)),
                None => None,
            },
        }
    }

    /// A step aside from a teammate nearby, or towards the goal.
    #[verifier::when_used_as_spec(spec_better_angle)]
    pub fn better_angle(&self, ctx: &StateProcessingContext) -> (r: Option<Vec3>)
        ensures
            r == self.spec_better_angle(ctx),
    {
        match scan::first_of(
            &ctx.teammates,
            |t: MatchPlayerLite| -> (b: bool)
                ensures b == (t.distance <= units(150))
            {
                t.distance <= units(150)
            },
            Ghost(|t: MatchPlayerLite| t.distance <= units(150)),
        ) {
            Some(t) => match (t.position - ctx.player.position).direction() {
                Some(way) => Some(ctx.player.position + turned(way) * units(5)),
                None => None,
            },
            None => match ctx.to_goal().direction() {
                Some(way) => Some(ctx.player.position + way * units(5)),
                None => None,
            },
        }
    }

    pub open spec fn spec_calculate_congestion_penalty(
        &self,
        ctx: &StateProcessingContext,
        t: MatchPlayerLite,
    ) -> Scalar {
        let crowd: usize = up_to_five(
            ctx.opponents_around(t.position, units(20)),
            scan::count_where(
                ctx.teammates@,
                |m: MatchPlayerLite|
                    m.position.distance_to(t.position) <= units(20) && m.id != t.id,
            ),
        );
        if crowd == 0 {
            milli(1500)
        } else if crowd == 1 {
            milli(1200)
        } else if crowd == 2 {
            units(1)
        } else if crowd == 3 {
            milli(500)
        } else if crowd == 4 {
            milli(250)
        } else {
            milli(100)
        }
    }

    /// How much a crowd spoils a pass.
    #[verifier::when_used_as_spec(spec_calculate_congestion_penalty)]
    pub fn calculate_congestion_penalty(
        &self,
        ctx: &StateProcessingContext,
        t: MatchPlayerLite,
    ) -> (r: Scalar)
        ensures
            r == self.spec_calculate_congestion_penalty(ctx, t),
            milli(100) <= r,
            r <= milli(1500),
    {
        let crowd: usize = up_to_five(ctx.opponents_around(t.position, units(20)), scan::count_if(
                &ctx.teammates,
                |m: MatchPlayerLite| -> (b: bool)
                    ensures b == (m.position.distance_to(t.position) <= units(20) && m.id != t.id)
                {
                    m.position.distance_to(t.position) <= units(20) && m.id != t.id
                },
                Ghost(
                    |m: MatchPlayerLite|
                        m.position.distance_to(t.position) <= units(20) && m.id != t.id,
                ),
        ));
        if crowd == 0 {
            milli(1500)
        } else if crowd == 1 {
            milli(1200)
        } else if crowd == 2 {
            units(1)
        } else if crowd == 3 {
            milli(500)
        } else if crowd == 4 {
            milli(250)
        } else {
            milli(100)
        }
    }

    pub open spec fn spec_stands_before_goal(
        &self,
        ctx: &StateProcessingContext,
        o: MatchPlayerLite,
    ) -> bool {
        match ctx.to_goal().direction() {
            Some(way) => {
                let along = (o.position - ctx.player.position).dot(way);
                along > units(0) && along < ctx.to_goal().magnitude()
            },
            None => false,
        }
    }

    /// The opponent stands between the forward and the goal.
    #[verifier::when_used_as_spec(spec_stands_before_goal)]
    pub fn stands_before_goal(
        &self,
        ctx: &StateProcessingContext,
        o: MatchPlayerLite,
    ) -> (r: bool)
        ensures
            r == self.spec_stands_before_goal(ctx, o),
    {
        match ctx.to_goal().direction() {
            Some(way) => {
                let along = (o.position - ctx.player.position).dot(way);
                along > units(0) && along < ctx.to_goal().magnitude()
            },
            None => false,
        }
    }

    /// The opponents before the goal that the search for space looks at.
    pub open spec fn line_before_goal(
        &self,
        ctx: &StateProcessingContext,
    ) -> Seq<MatchPlayerLite> {
        let all = ctx.opponents@.filter(|o: MatchPlayerLite| self.stands_before_goal(ctx, o));
        if all.len() > MAX_OPPONENT_POSITIONS {
            all.take(MAX_OPPONENT_POSITIONS as int)
        } else {
            all
        }
    }

    pub open spec fn spec_find_space_between_opponents_toward_goal(
        &self,
        ctx: &StateProcessingContext,
    ) -> Option<Vec3> {
        match scan::first_greatest_where(
            crate::gaps::gaps_from(self.line_before_goal(ctx), 0),
            |g: Gap| self.is_gap_ahead(ctx, g),
            |g: Gap| g.width,
        ) {
            Some(gap) => Some(gap.center),
            None => None,
        }
    }

    /// The middle of the widest gap between two opponents before the goal; of equally wide
    /// ones, the first.
    #[verifier::when_used_as_spec(spec_find_space_between_opponents_toward_goal)]
    pub fn find_space_between_opponents_toward_goal(
        &self,
        ctx: &StateProcessingContext,
    ) -> (r: Option<Vec3>)
        ensures
            r == self.spec_find_space_between_opponents_toward_goal(ctx),
    {
        let mut line = scan::select(
            &ctx.opponents,
            |o: MatchPlayerLite| -> (b: bool)
                ensures b == (self.stands_before_goal(ctx, o))
            {
                self.stands_before_goal(ctx, o)
            },
            Ghost(|o: MatchPlayerLite| self.stands_before_goal(ctx, o)),
        );
        if line.len() > MAX_OPPONENT_POSITIONS {
            line.truncate(MAX_OPPONENT_POSITIONS);
        }
        assert(line@ =~= self.line_before_goal(ctx));
        let gaps = gaps_between(&line);
        match scan::first_greatest_of(
            &gaps,
            |g: Gap| -> (b: bool)
                ensures b == (self.is_gap_ahead(ctx, g))
            {
                self.is_gap_ahead(ctx, g)
            },
            |g: Gap| -> (b: Scalar)
                ensures b == (g.width)
            {
                g.width
            },
            Ghost(|g: Gap| self.is_gap_ahead(ctx, g)),
            Ghost(|g: Gap| g.width),
        ) {
            Some(gap) => Some(gap.center),
            None => None,
        }
    }

    pub open spec fn spec_is_gap_ahead(&self, ctx: &StateProcessingContext, g: Gap) -> bool {
        reaches_beyond(g.center - ctx.player.position, ctx.to_goal(), units(0))
            && g.width > units(0)
    }

    /// A gap whose middle lies ahead.
    #[verifier::when_used_as_spec(spec_is_gap_ahead)]
    pub fn is_gap_ahead(&self, ctx: &StateProcessingContext, g: Gap) -> (r: bool)
        ensures
            r == self.spec_is_gap_ahead(ctx, g),
    {
        reaches_beyond(g.center - ctx.player.position, ctx.to_goal(), units(0))
            && g.width > units(0)
    }
}

/// A pass always goes to a teammate in sight who is neither tightly marked nor the latest
/// passer, and no such teammate nearby up front offers a better one.
pub proof fn passes_are_worth_it(
    state: ForwardPassingState,
    ctx: &StateProcessingContext,
    m: MatchPlayerLite,
)
    requires
        state.find_best_pass_option(ctx) == Some(m),
    ensures
        ctx.teammates@.contains(m),
        state.is_pass_option(ctx, m),
        m.distance >= units(25),
        ctx.well_formed() ==> m.id != ctx.player.id && m.team_id == ctx.player.team_id,
        forall|t: MatchPlayerLite|
            ctx.teammates@.contains(t) && t.tactical_positions.is_forward()
                && t.distance >= units(25)
                && t.distance <= units(80)
                && #[trigger] state.is_pass_option(ctx, t) ==> state.pass_score(
                ctx,
                t,
            ) <= state.pass_score(ctx, m),
{
    let close = |t: MatchPlayerLite|
        t.distance >= units(25) && t.distance <= units(80) && t.tactical_positions.is_forward()
            && state.is_pass_option(ctx, t);
    let seen = |t: MatchPlayerLite|
        t.distance >= units(25) && t.distance <= state.vision_range(ctx)
            && state.is_pass_option(ctx, t);
    let score = |t: MatchPlayerLite| state.pass_score(ctx, t);
    scan::greatest_is_greatest(ctx.teammates@, close, score);
    scan::greatest_is_greatest(ctx.teammates@, seen, score);
}

/// A forward without the ball runs; one close to the goal with a clear lane shoots; after looking
/// about for eight steps, three under pressure, the best receiver gets the ball.
pub proof fn passes_come_after_a_look(state: ForwardPassingState, ctx: &StateProcessingContext)
    ensures
        !ctx.player.has_ball ==> state.process(ctx) == Some(
            with_forward_state(ForwardState::Running),
        ),
        ctx.player.has_ball && ctx.ball.distance_to_opponent_goal < units(40)
            && ctx.player.clear_shot
            ==> state.process(ctx) == Some(with_forward_state(ForwardState::Shooting)),
        ({
            &&& ctx.player.has_ball
            &&& ctx.ball.distance_to_opponent_goal >= units(40) || !ctx.player.clear_shot
            &&& ctx.in_state_time >= 8
                || (ctx.player.under_immediate_pressure && ctx.in_state_time >= 3)
        }) ==> (state.find_best_pass_option(ctx) matches Some(m) ==> state.process(ctx) matches Some(r)
            && r.state == PlayerState::Forward(ForwardState::Running) && r.event == Some(
            PlayerEvent::PassTo {
                from: ctx.player.id,
                to: m.id,
                target: None,
                reason: "FWD_PASSING_STATE",
            },
        )),
        (
            ctx.in_state_time < 3
                || (ctx.in_state_time < 8 && !ctx.player.under_immediate_pressure)
        ) ==> (
        state.process(ctx) matches Some(r) ==> r.event is None),
{
}

/// Without a receiver the forward dribbles past a very close opponent near the goal after a while,
/// else runs; far from the goal, under heavy pressure, dribbles with room and luck and else runs;
/// and else waits no longer than a while.
pub proof fn without_a_receiver(state: ForwardPassingState, ctx: &StateProcessingContext)
    requires
        ctx.player.has_ball,
        !ctx.player.clear_shot,
        state.find_best_pass_option(ctx) is None,
    ensures
        ctx.ball.distance_to_opponent_goal < units(200) ==> state.process(ctx) == Some(
            with_forward_state(
                if ctx.in_state_time >= 15 && exists|o: MatchPlayerLite| #[trigger]
                    ctx.opponents@.contains(o) && o.distance <= units(8) {
                    ForwardState::Dribbling
                } else {
                    ForwardState::Running
                },
            ),
        ),
        ctx.ball.distance_to_opponent_goal >= units(200) && ctx.player.under_heavy_pressure ==> {
            &&& state.process(ctx) is Some
            &&& (exists|o: MatchPlayerLite| #[trigger]
                ctx.opponents@.contains(o) && o.distance <= units(15)) ==> state.process(ctx) == Some(
                with_forward_state(ForwardState::Running),
            )
            &&& (forall|o: MatchPlayerLite| #[trigger]
                ctx.opponents@.contains(o) ==> o.distance > units(15)) && ctx.rolls.dribble_out
                < ctx.curves.dribbling_10 * milli(700) + ctx.curves.agility_10 * milli(300)
                ==> state.process(ctx) == Some(with_forward_state(ForwardState::Dribbling))
        },
        ctx.ball.distance_to_opponent_goal >= units(200) && !ctx.player.under_heavy_pressure ==> (
        if ctx.in_state_time > 30 {
            state.process(ctx) == Some(with_forward_state(ForwardState::Running))
        } else {
            state.process(ctx) is None
        }),
{
    crate::context::nearby_means_close(ctx, units(8), units(15));
    crate::context::nearby_means_close(ctx, units(15), units(15));
}

/// The manager's orders change the order of no two scores of one teammate, raise a score above
/// zero for a partner and a fed player, and lower it for a covered one.
pub proof fn orders_keep_the_order(
    state: ForwardPassingState,
    ctx: &StateProcessingContext,
    t: MatchPlayerLite,
    m: MatchPlayerLite,
    low: Scalar,
    high: Scalar,
)
    requires
        t.id == m.id,
        ((t.position - ctx.player.position).magnitude() >= units(60)) == ((m.position
            - ctx.player.position).magnitude() >= units(60)),
        state.is_covered(ctx, t) == state.is_covered(ctx, m),
        low <= high,
    ensures
        state.with_orders(ctx, t, low) <= state.with_orders(ctx, m, high),
        (
            units(0) <= high && !state.is_covered(ctx, t)
        ) ==> high <= state.with_orders(ctx, t, high),
        (
            units(0) <= high && ctx.player.link_target != Some(t.id)
                && ctx.player.supply_target != Some(t.id)
        )
            ==> state.with_orders(ctx, t, high) <= high,
        (ctx.player.link_target != Some(t.id) && ctx.player.supply_target != Some(t.id)
            && !state.is_covered(ctx, t)) ==> state.with_orders(ctx, t, high) == high,
        (ctx.player.link_target == Some(t.id) && ctx.player.supply_target != Some(t.id)
            && !state.is_covered(ctx, t) && units(2) <= high && high <= units(1000)) ==> high + units(1)
            <= state.with_orders(ctx, t, high),
        (ctx.player.link_target != Some(t.id) && ctx.player.supply_target == Some(t.id)
            && !state.is_covered(ctx, t) && units(10) <= high && high <= units(1000)) ==> high + units(1)
            <= state.with_orders(ctx, t, high),
        (ctx.player.link_target != Some(t.id) && ctx.player.supply_target != Some(t.id)
            && state.is_covered(ctx, t) && units(2) <= high && high <= units(1000))
            ==> state.with_orders(ctx, t, high) + units(1) <= high,
{
    let linked_low = if is_player(ctx.player.link_target, t.id) {
        low * milli(1500)
    } else {
        low
    };
    let linked_high = if is_player(ctx.player.link_target, t.id) {
        high * milli(1500)
    } else {
        high
    };
    crate::scalar::scaling_keeps_order(low, high, milli(1500));
    crate::scalar::scaling_keeps_order(linked_low, linked_high, milli(1600));
    crate::scalar::scaling_keeps_order(linked_low, linked_high, milli(1150));
    let far = (t.position - ctx.player.position).magnitude() >= units(60);
    let fed_low = if is_player(ctx.player.supply_target, t.id) {
        if far {
            linked_low * milli(1600)
        } else {
            linked_low * milli(1150)
        }
    } else {
        linked_low
    };
    let fed_high = if is_player(ctx.player.supply_target, t.id) {
        if far {
            linked_high * milli(1600)
        } else {
            linked_high * milli(1150)
        }
    } else {
        linked_high
    };
    crate::scalar::scaling_keeps_order(fed_low, fed_high, milli(350));
    if units(0) <= high {
        crate::scalar::one_changes_nothing(high);
        crate::scalar::one_changes_nothing(linked_high);
        crate::scalar::product_keeps_order(high, units(1), milli(1500));
        crate::scalar::product_keeps_order(linked_high, units(1), milli(1150));
        crate::scalar::product_keeps_order(linked_high, units(1), milli(1600));
        crate::scalar::product_keeps_order(high, milli(350), units(1));
    }
    if units(2) <= high && high <= units(1000) {
        crate::scalar::thousandths_of(high, 1500);
        crate::scalar::thousandths_of(high, 1600);
        crate::scalar::thousandths_of(high, 1150);
        crate::scalar::thousandths_of(high, 350);
    }
}

/// A player is covered where an opponent set on them is in range to cut out the pass.
pub proof fn covered_means_watched(
    state: ForwardPassingState,
    ctx: &StateProcessingContext,
    t: MatchPlayerLite,
)
    ensures
        state.is_covered(ctx, t) <==> exists|a: InterceptAssignment| #[trigger]
            ctx.intercept_assignments@.contains(a) && a.target == t.id && (a.interceptor_position
                - t.position).magnitude() < units(80),
{
    scan::some_is_one_of_them(
        ctx.intercept_assignments@,
        |a: InterceptAssignment|
            a.target == t.id && (a.interceptor_position - t.position).magnitude() < units(80),
    );
}

/// More room deserves more of the bonuses: all of them with plenty, a tenth with hardly any.
pub proof fn room_pays(state: ForwardPassingState, narrow: Scalar, wide: Scalar)
    requires
        narrow <= wide,
    ensures
        state.space_multiplier(narrow) <= state.space_multiplier(wide),
        milli(100) <= state.space_multiplier(narrow),
        state.space_multiplier(wide) <= units(1),
        wide > milli(800) ==> state.space_multiplier(wide) == units(1),
        narrow <= milli(300) ==> state.space_multiplier(narrow) == milli(100),
        narrow <= milli(500) && wide > milli(800) ==> state.space_multiplier(narrow)
            < state.space_multiplier(wide),
{
}

/// The bonus for progress grows with the nearness to the goal, and is nothing for a receiver no
/// nearer than the ball.
pub proof fn progress_pays(
    state: ForwardPassingState,
    ctx: &StateProcessingContext,
    near: MatchPlayerLite,
    far: MatchPlayerLite,
    room: Scalar,
)
    requires
        units(0) <= room,
        near.position.distance_to(ctx.goal()) <= far.position.distance_to(ctx.goal()),
    ensures
        state.progress_bonus(ctx, far, room) <= state.progress_bonus(ctx, near, room),
        units(0) <= state.progress_bonus(ctx, far, room),
        ctx.ball.distance_to_opponent_goal <= far.position.distance_to(ctx.goal())
            ==> state.progress_bonus(ctx, far, room) == units(0),
        (room == units(1) && near.position.distance_to(ctx.goal()) == units(0)
            && ctx.ball.distance_to_opponent_goal > units(0)) ==> state.progress_bonus(ctx, near, room)
            == units(20),
{
    let own = ctx.ball.distance_to_opponent_goal;
    let a = near.position.distance_to(ctx.goal());
    let b = far.position.distance_to(ctx.goal());
    crate::vector::length_is_not_negative(near.position - ctx.goal());
    crate::vector::length_is_not_negative(far.position - ctx.goal());
    if a < own {
        share_of_the_way(a, own);
        crate::scalar::product_keeps_order(units(20), units(0), units(1) - a / own);
        crate::scalar::product_keeps_sign(units(20) * (units(1) - a / own), room);
        if b < own {
            share_of_the_way(b, own);
            crate::scalar::quotient_keeps_order(a, b, own);
            crate::scalar::product_keeps_order(units(20), units(1) - b / own, units(1) - a / own);
            crate::scalar::product_keeps_order(units(20), units(0), units(1) - b / own);
            crate::scalar::scaling_keeps_order(
                units(20) * (units(1) - b / own),
                units(20) * (units(1) - a / own),
                room,
            );
            crate::scalar::product_keeps_sign(units(20) * (units(1) - b / own), room);
        }
    }
}

/// A part of a way is between nothing and all of it.
proof fn share_of_the_way(part: Scalar, whole: Scalar)
    requires
        units(0) <= part,
        part <= whole,
        units(0) < whole,
    ensures
        (part / whole).is_between(units(0), units(1)),
{
    crate::scalar::quotient_keeps_order(units(0), part, whole);
    crate::scalar::quotient_keeps_order(part, whole, whole);
    let w: int = whole.raw as int;
    assert(w * 1_000_000 / w == 1_000_000) by (nonlinear_arith)
        requires
            w > 0,
    ;
    assert(0int / w == 0) by (nonlinear_arith)
        requires
            w > 0,
    ;
}

/// Of two places of one teammate, with as much worth, room, crowd of orders and no bonus lost, the
/// one nearer to the goal scores no less: progress, a broken line, a clear shot, a through ball
/// and a run at the goal all count for a receiver, and a pass back counts against.
#[verifier::rlimit(40)]
#[verifier::spinoff_prover]
pub proof fn nearer_receivers_score_no_less(
    state: ForwardPassingState,
    ctx: &StateProcessingContext,
    t: MatchPlayerLite,
    m: MatchPlayerLite,
)
    requires
        t.id == m.id,
        t.tactical_positions == m.tactical_positions,
        m.pass_value <= t.pass_value,
        t.receiver_positioning == m.receiver_positioning,
        t.position.distance_to(ctx.goal()) <= m.position.distance_to(ctx.goal()),
        state.teammate_has_clear_shot(ctx, m) ==> state.teammate_has_clear_shot(ctx, t),
        state.pass_breaks_defensive_line(ctx, m) ==> state.pass_breaks_defensive_line(ctx, t),
        state.is_through_ball(ctx, m) ==> state.is_through_ball(ctx, t),
        reaches_beyond(m.velocity, ctx.goal() - m.position, units(3)) ==> reaches_beyond(
            t.velocity,
            ctx.goal() - t.position,
            units(3),
        ),
        is_behind_of(ctx, t.position, ctx.player.position) ==> is_behind_of(
            ctx,
            m.position,
            ctx.player.position,
        ),
        ((t.position - ctx.player.position).magnitude() >= units(60)) == ((m.position
            - ctx.player.position).magnitude() >= units(60)),
        state.is_covered(ctx, t) == state.is_covered(ctx, m),
    ensures
        state.evaluate_forward_pass(ctx, m) <= state.evaluate_forward_pass(ctx, t),
{
    let room = state.space_multiplier(t.receiver_positioning);
    progress_pays(state, ctx, t, m, room);
    kept_merits_pay(state, ctx, t, m, room);
    let streak = (units(ctx.player.pass_streak as i64) * units(2)).min(units(10));
    let place = t.receiver_positioning * units(15);
    let low = m.pass_value + state.progress_bonus(ctx, m, room) + state.forward_bonus(ctx, m, room)
        + state.attack_bonus(ctx, m, room) + streak + place - state.back_pass_penalty(ctx, m);
    let high = t.pass_value + state.progress_bonus(ctx, t, room)
        + state.forward_bonus(ctx, t, room)
        + state.attack_bonus(ctx, t, room) + streak + place - state.back_pass_penalty(ctx, t);
    greater_parts_make_more(
        m.pass_value,
        t.pass_value,
        state.progress_bonus(ctx, m, room),
        state.progress_bonus(ctx, t, room),
        state.forward_bonus(ctx, m, room),
        state.forward_bonus(ctx, t, room),
        state.attack_bonus(ctx, m, room),
        state.attack_bonus(ctx, t, room),
        streak,
        place,
        state.back_pass_penalty(ctx, m),
        state.back_pass_penalty(ctx, t),
    );
    orders_keep_the_order(state, ctx, m, t, low, high);
}

/// A sum of greater parts, less a lesser one, is no less.
proof fn greater_parts_make_more(
    a: Scalar,
    b: Scalar,
    c: Scalar,
    d: Scalar,
    e: Scalar,
    f: Scalar,
    g: Scalar,
    h: Scalar,
    i: Scalar,
    j: Scalar,
    k: Scalar,
    l: Scalar,
)
    requires
        a <= b,
        c <= d,
        e <= f,
        g <= h,
        l <= k,
    ensures
        a + c + e + g + i + j - k <= b + d + f + h + i + j - l,
{
}

/// The bonuses for what a receiver is and does fall nowhere where the receiver keeps the merits.
proof fn kept_merits_pay(
    state: ForwardPassingState,
    ctx: &StateProcessingContext,
    t: MatchPlayerLite,
    m: MatchPlayerLite,
    room: Scalar,
)
    requires
        units(0) <= room,
        t.tactical_positions == m.tactical_positions,
        t.position.distance_to(ctx.goal()) <= m.position.distance_to(ctx.goal()),
        state.teammate_has_clear_shot(ctx, m) ==> state.teammate_has_clear_shot(ctx, t),
        state.pass_breaks_defensive_line(ctx, m) ==> state.pass_breaks_defensive_line(ctx, t),
        state.is_through_ball(ctx, m) ==> state.is_through_ball(ctx, t),
        reaches_beyond(m.velocity, ctx.goal() - m.position, units(3)) ==> reaches_beyond(
            t.velocity,
            ctx.goal() - t.position,
            units(3),
        ),
        is_behind_of(ctx, t.position, ctx.player.position) ==> is_behind_of(
            ctx,
            m.position,
            ctx.player.position,
        ),
    ensures
        state.forward_bonus(ctx, m, room) <= state.forward_bonus(ctx, t, room),
        state.attack_bonus(ctx, m, room) <= state.attack_bonus(ctx, t, room),
        state.back_pass_penalty(ctx, t) <= state.back_pass_penalty(ctx, m),
{
    crate::scalar::product_keeps_order(units(10), units(0), room);
    crate::scalar::product_keeps_order(units(15), units(0), room);
    crate::scalar::product_keeps_order(units(25), units(0), room);
}

/// What a receiver is worth beside the worth of the pass, the room and the progress.
pub open spec fn merits(
    ctx: &StateProcessingContext,
    state: ForwardPassingState,
    p: MatchPlayerLite,
) -> int {
    let shot: int = if p.clear_shot
        && (ctx.goal() - p.position).magnitude() < units(300) { 25 } else { 0 };
    let through: int = if state.is_through_ball(ctx, p) { 25 } else { 0 };
    let line: int = if state.pass_breaks_defensive_line(ctx, p) { 15 } else { 0 };
    let run: int = if p.tactical_positions.group == PositionGroup::Forward && reaches_beyond(
        p.velocity,
        ctx.goal() - p.position,
        units(3),
    ) { 15 } else { 0 };
    let back: int = if is_behind_of(ctx, p.position, ctx.player.position)
        && !ctx.player.under_heavy_pressure {
        if ctx.ball.distance_to_opponent_goal < units(350) { 35 } else { 20 }
    } else {
        0
    };
    shot + through + line + run - back
}

/// The score of a receiver with plenty of room and no orders.
proof fn plain_score(state: ForwardPassingState, ctx: &StateProcessingContext, t: MatchPlayerLite)
    requires
        t.receiver_positioning > milli(800),
        t.receiver_positioning <= units(1),
        t.pass_value.is_between(units(1000).negated(), units(1000)),
        ctx.player.link_target != Some(t.id),
        ctx.player.supply_target != Some(t.id),
        !state.is_covered(ctx, t),
    ensures
        ({
            let forward: int = if t.tactical_positions.group == PositionGroup::Forward {
                if t.position.distance_to(ctx.goal()) < units(300) { 25 } else { 15 }
            } else {
                0
            };
            state.evaluate_forward_pass(ctx, t).raw == t.pass_value.raw + state.progress_bonus(
                ctx,
                t,
                units(1),
            ).raw + (units(ctx.player.pass_streak as i64) * units(2)).min(units(10)).raw + (
            t.receiver_positioning * units(15)).raw + (forward + merits(ctx, state, t)) * 1_000_000
        }),
{
    let room = units(1);
    assert(state.space_multiplier(t.receiver_positioning) == room);
    crate::scalar::one_changes_nothing(units(10));
    crate::scalar::one_changes_nothing(units(15));
    crate::scalar::one_changes_nothing(units(25));
    progress_is_bounded(state, ctx, t, room);
    let place = t.receiver_positioning * units(15);
    crate::scalar::scaling_keeps_order(t.receiver_positioning, units(1), units(15));
    crate::scalar::scaling_keeps_order(units(0), t.receiver_positioning, units(15));
    let streak = (units(ctx.player.pass_streak as i64) * units(2)).min(units(10));
    crate::scalar::scaling_keeps_order(units(0), units(ctx.player.pass_streak as i64), units(2));
    assert(streak.is_between(units(0), units(10)));
    assert(place.is_between(units(0), units(15)));
    let f = state.forward_bonus(ctx, t, room);
    let a = state.attack_bonus(ctx, t, room);
    let b = state.back_pass_penalty(ctx, t);
    let g = state.progress_bonus(ctx, t, room);
    assert(f.is_between(units(0), units(40)));
    assert(a.is_between(units(0), units(65)));
    assert(b.is_between(units(0), units(35)));
    let sum = t.pass_value + g + f + a + streak + place - b;
    assert(sum.raw == t.pass_value.raw + g.raw + f.raw + a.raw + streak.raw + place.raw - b.raw);
    assert(state.evaluate_forward_pass(ctx, t) == state.with_orders(ctx, t, sum));
    orders_keep_the_order(state, ctx, t, t, sum, sum);
}

/// What counts for a receiver counts by so much: with plenty of room and no orders, a clear shot
/// 25,
/// a through ball 25, a broken line 15, a run at the goal of another forward 15, and a pass back
/// without heavy pressure costs 35 near the goal and 20 further away.
pub proof fn bonuses_have_their_size(
    state: ForwardPassingState,
    ctx: &StateProcessingContext,
    t: MatchPlayerLite,
    m: MatchPlayerLite,
)
    requires
        t.id == m.id,
        t.tactical_positions == m.tactical_positions,
        t.pass_value == m.pass_value,
        t.receiver_positioning == m.receiver_positioning,
        t.receiver_positioning > milli(800),
        t.receiver_positioning <= units(1),
        t.pass_value.is_between(units(1000).negated(), units(1000)),
        t.position.distance_to(ctx.goal()) == m.position.distance_to(ctx.goal()),
        ctx.player.link_target != Some(t.id),
        ctx.player.supply_target != Some(t.id),
        !state.is_covered(ctx, t),
        !state.is_covered(ctx, m),
    ensures
        state.evaluate_forward_pass(ctx, t).raw - state.evaluate_forward_pass(ctx, m).raw == (merits(
            ctx,
            state,
            t,
        ) - merits(ctx, state, m)) * 1_000_000,
{
    plain_score(state, ctx, t);
    plain_score(state, ctx, m);
}

/// The bonus for progress is at most 20.
proof fn progress_is_bounded(
    state: ForwardPassingState,
    ctx: &StateProcessingContext,
    t: MatchPlayerLite,
    room: Scalar,
)
    requires
        room == units(1),
    ensures
        state.progress_bonus(ctx, t, room).is_between(units(0), units(20)),
{
    progress_pays(state, ctx, t, t, room);
    let own = ctx.ball.distance_to_opponent_goal;
    let a = t.position.distance_to(ctx.goal());
    crate::vector::length_is_not_negative(t.position - ctx.goal());
    if a < own {
        share_of_the_way(a, own);
        crate::scalar::product_keeps_order(units(20), units(1) - a / own, units(1));
        crate::scalar::one_changes_nothing(units(20));
        crate::scalar::one_changes_nothing(units(20) * (units(1) - a / own));
    }
}

/// The fewer around a receiver, the less a crowd spoils the pass: one alone gains half as much
/// again, one in a crowd of five keeps a tenth.
pub proof fn crowds_spoil_passes(
    state: ForwardPassingState,
    ctx: &StateProcessingContext,
    t: MatchPlayerLite,
    m: MatchPlayerLite,
)
    requires
        ctx.opponents_around(t.position, units(20)) <= ctx.opponents_around(m.position, units(20)),
        scan::count_where(
            ctx.teammates@,
            |o: MatchPlayerLite| o.position.distance_to(t.position) <= units(20) && o.id != t.id,
        ) <= scan::count_where(
            ctx.teammates@,
            |o: MatchPlayerLite| o.position.distance_to(m.position) <= units(20) && o.id != m.id,
        ),
    ensures
        state.calculate_congestion_penalty(ctx, m) <= state.calculate_congestion_penalty(ctx, t),
        milli(100) <= state.calculate_congestion_penalty(ctx, m),
        ctx.opponents_around(m.position, units(20))
            >= 5 ==> state.calculate_congestion_penalty(ctx, m)
            == milli(100),
        (ctx.opponents_around(t.position, units(20)) == 0 && forall|o: MatchPlayerLite| #[trigger]
            ctx.teammates@.contains(o) ==> o.id == t.id || o.position.distance_to(t.position) > units(20))
            ==> state.calculate_congestion_penalty(ctx, t) == milli(1500),
        ctx.opponents_around(m.position, units(20))
            >= 3 ==> state.calculate_congestion_penalty(ctx, m)
            <= milli(500),
        ctx.opponents_around(m.position, units(20))
            >= 1 ==> state.calculate_congestion_penalty(ctx, m)
            <= milli(1200),
{
    let p = |o: MatchPlayerLite| o.position.distance_to(t.position) <= units(20) && o.id != t.id;
    let q = |o: MatchPlayerLite| o.position.distance_to(m.position) <= units(20) && o.id != m.id;
    assert(ctx.teammates.len() == ctx.teammates@.len());
    scan::count_tells_some(ctx.teammates@, p);
    assert(scan::count_where(ctx.teammates@, p) == scan::count_where(
        ctx.teammates@,
        |m: MatchPlayerLite| m.position.distance_to(t.position) <= units(20) && m.id != t.id,
    ));
    assert(scan::count_where(ctx.teammates@, q) == scan::count_where(
        ctx.teammates@,
        |n: MatchPlayerLite| n.position.distance_to(m.position) <= units(20) && n.id != m.id,
    ));
}

/// A pass of some worth is worth the more the less recent the receiver's own pass, and the latest
/// passer is no option at all.
pub proof fn recent_passers_get_less(
    state: ForwardPassingState,
    ctx: &StateProcessingContext,
    t: MatchPlayerLite,
    recency: Scalar,
)
    requires
        units(0) <= state.evaluate_forward_pass(ctx, t),
        recency <= t.recency_penalty,
    ensures
        state.pass_score(
            ctx,
            MatchPlayerLite { recency_penalty: recency, ..t },
        ) <= state.pass_score(
            ctx,
            t,
        ),
        t.recency_penalty <= milli(100) ==> !state.is_pass_option(ctx, t),
        state.is_pass_option(ctx, t) ==> state.pass_score(ctx, t) >= units(5),
{
    let s = MatchPlayerLite { recency_penalty: recency, ..t };
    let worth = state.evaluate_forward_pass(ctx, t);
    assert(state.with_orders(ctx, s, worth) == state.with_orders(ctx, t, worth));
    assert(state.is_through_ball(ctx, s) == state.is_through_ball(ctx, t));
    assert(state.evaluate_forward_pass(ctx, s) == worth);
    assert(
        state.calculate_congestion_penalty(ctx, s) == state.calculate_congestion_penalty(ctx, t)
    );
    crate::scalar::product_keeps_order(worth, recency, t.recency_penalty);
    crate::scalar::scaling_keeps_order(
        worth * recency,
        worth * t.recency_penalty,
        state.calculate_congestion_penalty(ctx, t),
    );
}

/// A receiver is in sight, nobody within 5 and at most one opponent within 12 of them, and is near
/// the goal, a forward up front or with room, with room, clearly nearer to the goal than the ball,
/// or behind with room or for a passer under heavy pressure.
pub proof fn receivers_are_of_use(
    state: ForwardPassingState,
    ctx: &StateProcessingContext,
    t: MatchPlayerLite,
)
    ensures
        state.is_viable_pass_target(ctx, t) ==> t.clear_pass && ctx.opponents_around(
            t.position,
            units(5),
        ) == 0 && ctx.opponents_around(t.position, units(12)) <= 1,
        (t.clear_pass && ctx.opponents_around(t.position, units(12)) <= 1 && ctx.opponents_around(
            t.position,
            units(5),
        ) == 0) ==> {
            let to_goal = t.position.distance_to(ctx.goal());
            let behind = is_behind_of(ctx, t.position, ctx.player.position);
            let forward = t.tactical_positions.group == PositionGroup::Forward;
            let space = state.calculate_space_around_player(ctx, t);
            &&& to_goal < units(250) ==> state.is_viable_pass_target(ctx, t)
            &&& forward
                && (
                    to_goal < units(500) || space > units(5)
                ) ==> state.is_viable_pass_target(ctx, t)
            &&& to_goal >= units(250) && !forward && behind ==> (state.is_viable_pass_target(ctx, t)
                <==> ctx.player.under_heavy_pressure || space > units(8))
            &&& to_goal >= units(250) && !forward && !behind ==> (state.is_viable_pass_target(ctx, t)
                <==> space > units(6) || to_goal < ctx.ball.distance_to_opponent_goal - units(50))
        },
{
}

/// Each opponent around takes more room than each teammate: nobody around leaves 20, each opponent
/// takes 3 of it and each teammate half as much, until nothing is left.
pub proof fn room_is_taken(
    state: ForwardPassingState,
    ctx: &StateProcessingContext,
    p: MatchPlayerLite,
)
    requires
        ctx.opponents@.len() <= 1_000_000,
        ctx.teammates@.len() <= 1_000_000,
    ensures
        units(0) <= state.calculate_space_around_player(ctx, p),
        state.calculate_space_around_player(ctx, p) <= units(20),
        ({
            let others: int = scan::count_where(
                ctx.teammates@,
                |t: MatchPlayerLite|
                    t.id != p.id && (t.position - p.position).norm_squared() <= units(400),
            ) as int;
            let left: int = 20_000_000 - ctx.opponents_around(p.position, units(20)) * 3_000_000
                - others
                * 1_500_000;
            state.calculate_space_around_player(ctx, p).raw == if left > 0 { left } else { 0 }
        }),
{
    let others = scan::count_where(
        ctx.teammates@,
        |t: MatchPlayerLite|
            t.id != p.id && (t.position - p.position).norm_squared() <= units(400),
    );
    assert(ctx.opponents.len() == ctx.opponents@.len());
    assert(ctx.teammates.len() == ctx.teammates@.len());
    scan::count_tells_some(
        ctx.opponents@,
        |o: MatchPlayerLite| o.position.distance_to(p.position) <= units(20),
    );
    scan::count_tells_some(
        ctx.teammates@,
        |t: MatchPlayerLite|
            t.id != p.id && (t.position - p.position).norm_squared() <= units(400),
    );
    let o = ctx.opponents_around(p.position, units(20));
    crate::scalar::multiple_is_exact(headcount(o), 3);
    crate::scalar::thousandths_of(headcount(others), 1500);
}

/// A through ball is for a teammate who sprints at the goal with nobody near the spot ahead, and a
/// line is broken exactly where an opponent stands close to the line of the pass.
pub proof fn through_balls_find_space(
    state: ForwardPassingState,
    ctx: &StateProcessingContext,
    t: MatchPlayerLite,
)
    ensures
        state.is_through_ball(ctx, t) <==> t.velocity.magnitude() > units(2) && aligned_above(
            t.velocity,
            ctx.goal() - t.position,
            milli(500),
        ) && forall|o: MatchPlayerLite| #[trigger]
            ctx.opponents@.contains(o) ==> ((t.position + (ctx.goal() - t.position).normalize() * units(30))
                - o.position).magnitude() >= units(20),
        state.pass_breaks_defensive_line(ctx, t) <==> exists|o: MatchPlayerLite| #[trigger]
            ctx.opponents@.contains(o) && is_on_the_line(
                o.position,
                ctx.player.position,
                t.position,
                units(3),
            ),
{
    assert(ctx.opponents.len() == ctx.opponents@.len());
    let ahead = t.position + (ctx.goal() - t.position).normalize() * units(30);
    scan::count_tells_some(
        ctx.opponents@,
        |o: MatchPlayerLite| (ahead - o.position).magnitude() < units(20),
    );
    scan::count_tells_some(
        ctx.opponents@,
        |o: MatchPlayerLite|
            is_on_the_line(o.position, ctx.player.position, t.position, units(3)),
    );
}

/// Forwards nearby come before all others; without one among the options, the best of those in
/// sight gets the ball, and the forward sees no less than 100.
pub proof fn forwards_come_first(state: ForwardPassingState, ctx: &StateProcessingContext)
    ensures
        units(100) <= state.vision_range(ctx),
        (exists|t: MatchPlayerLite| #[trigger]
            ctx.teammates@.contains(t) && t.distance.is_between(units(25), units(80))
                && t.tactical_positions.group == PositionGroup::Forward && state.is_pass_option(ctx, t))
            ==> (state.find_best_pass_option(ctx) matches Some(m) && m.tactical_positions.group
            == PositionGroup::Forward && m.distance <= units(80)),
        (exists|t: MatchPlayerLite| #[trigger]
            ctx.teammates@.contains(t) && t.distance.is_between(units(25), state.vision_range(ctx))
                && state.is_pass_option(ctx, t)) ==> state.find_best_pass_option(ctx) is Some,
        (forall|t: MatchPlayerLite| #[trigger]
            ctx.teammates@.contains(t) ==> !state.is_pass_option(ctx, t) || t.distance < units(25))
            ==> state.find_best_pass_option(ctx) is None,
        (state.find_best_pass_option(ctx) matches Some(m) && m.tactical_positions.group
            != PositionGroup::Forward) ==> forall|t: MatchPlayerLite| #[trigger]
            ctx.teammates@.contains(t) && t.distance.is_between(units(25), state.vision_range(ctx))
                && state.is_pass_option(ctx, t) ==> state.pass_score(ctx, t) <= state.pass_score(
                ctx,
                state.find_best_pass_option(ctx)->0,
            ),
{
    let close = |t: MatchPlayerLite|
        t.distance >= units(25) && t.distance <= units(80) && t.tactical_positions.is_forward()
            && state.is_pass_option(ctx, t);
    let seen = |t: MatchPlayerLite|
        t.distance >= units(25) && t.distance <= state.vision_range(ctx)
            && state.is_pass_option(ctx, t);
    let score = |t: MatchPlayerLite| state.pass_score(ctx, t);
    scan::greatest_is_greatest(ctx.teammates@, close, score);
    scan::greatest_is_greatest(ctx.teammates@, seen, score);
    if exists|t: MatchPlayerLite| #[trigger]
        ctx.teammates@.contains(t) && t.distance.is_between(units(25), state.vision_range(ctx))
            && state.is_pass_option(ctx, t) {
        let t = choose|t: MatchPlayerLite| #[trigger]
            ctx.teammates@.contains(t) && t.distance.is_between(units(25), state.vision_range(ctx))
                && state.is_pass_option(ctx, t);
        assert(seen(t));
    }
    if exists|t: MatchPlayerLite| #[trigger]
        ctx.teammates@.contains(t) && t.distance.is_between(units(25), units(80))
            && t.tactical_positions.group == PositionGroup::Forward
            && state.is_pass_option(ctx, t) {
        let t = choose|t: MatchPlayerLite| #[trigger]
            ctx.teammates@.contains(t) && t.distance.is_between(units(25), units(80))
                && t.tactical_positions.group == PositionGroup::Forward
                && state.is_pass_option(ctx, t);
        assert(close(t));
    }
}

/// The forward only moves for a better angle without an option, after a moment and for a while,
/// and not under heavy pressure.
pub proof fn angles_are_sought_in_time(state: ForwardPassingState, ctx: &StateProcessingContext)
    ensures
        state.velocity(ctx) is Some <==> 5 <= ctx.in_state_time <= 20
            && !ctx.player.under_heavy_pressure
            && state.find_best_pass_option(ctx) is None,
{
}

/// Within 250 of the goal a forward without a pass moves into space between the defenders where
/// there is some; else five aside from a teammate within 150, and five towards the goal without
/// one.
pub proof fn better_places_have_their_order(
    state: ForwardPassingState,
    ctx: &StateProcessingContext,
)
    ensures
        ({
            let near = ctx.ball.distance_to_opponent_goal < units(250);
            let space = state.find_space_between_opponents_toward_goal(ctx);
            let r = state.calculate_better_passing_position(ctx);
            let alone = forall|t: MatchPlayerLite| #[trigger]
                ctx.teammates@.contains(t) ==> t.distance > units(150);
            &&& near && space is Some ==> r == space
            &&& (!near || space is None) && alone ==> (match ctx.to_goal().direction() {
                Some(way) => r == Some(ctx.player.position + way * units(5)),
                None => r is None,
            })
            &&& (!near || space is None) && !alone
                && r is Some ==> exists|t: MatchPlayerLite| #[trigger]
                ctx.teammates@.contains(t) && t.distance <= units(150) && (t.position
                    - ctx.player.position).direction() is Some && r == Some(
                    ctx.player.position + turned(
                        (t.position - ctx.player.position).normalize(),
                    ) * units(5),
                )
        }),
{
    let p = |t: MatchPlayerLite| t.distance <= units(150);
    scan::first_is_one_of_them(ctx.teammates@, p);
    if let Some(t) = scan::first_where(ctx.teammates@, p) {
        assert(ctx.teammates@.contains(t) && p(t));
    }
}

/// A pass creates something within 250 of the goal; to a forward with room or within 500;
/// backwards
/// with room or under pressure; and else with room or 50 nearer to the goal.
pub proof fn passes_have_a_purpose(
    state: ForwardPassingState,
    ctx: &StateProcessingContext,
    t: MatchPlayerLite,
)
    ensures
        ({
            let to_goal = t.position.distance_to(ctx.goal());
            let space = state.calculate_space_around_player(ctx, t);
            let forward = t.tactical_positions.group == PositionGroup::Forward && (space > units(5) || to_goal
                < units(500));
            let back = is_behind_of(ctx, t.position, ctx.player.position);
            let r = state.pass_creates_opportunity(ctx, t);
            &&& to_goal < units(250) || forward ==> r
            &&& to_goal >= units(250) && !forward && back ==> (r <==> ctx.player.under_heavy_pressure || space
                > units(8))
            &&& to_goal >= units(250) && !forward && !back ==> (r <==> space > units(6) || to_goal
                < ctx.ball.distance_to_opponent_goal - units(50))
        }),
        state.teammate_has_clear_shot(ctx, t) <==> t.clear_shot
            && (ctx.goal() - t.position).magnitude()
            < units(300),
        state.can_dribble_effectively(ctx) ==> forall|o: MatchPlayerLite| #[trigger]
            ctx.opponents@.contains(o) ==> o.distance > units(15),
{
    scan::some_is_one_of_them(ctx.opponents@, |o: MatchPlayerLite| o.distance <= units(15));
}

/// An opponent stands before the goal where they are ahead of the forward on the way to it and not
/// beyond it; a gap between two of them is found only ahead.
pub proof fn lines_stand_before_the_goal(
    state: ForwardPassingState,
    ctx: &StateProcessingContext,
    o: MatchPlayerLite,
)
    ensures
        state.stands_before_goal(ctx, o) ==> reaches_beyond(
            o.position - ctx.player.position,
            ctx.to_goal(),
            units(0),
        ) && !reaches_beyond(
            o.position - ctx.player.position,
            ctx.to_goal(),
            ctx.to_goal().magnitude(),
        ),
        (!ctx.to_goal().is_zero() && (o.position - ctx.player.position).dot(ctx.to_goal().normalize()).is_between(
            micro(1),
            ctx.to_goal().magnitude() - micro(1),
        )) ==> state.stands_before_goal(ctx, o),
        ctx.to_goal().is_zero() ==> !state.stands_before_goal(ctx, o),
{
    crate::vector::length_is_not_negative(ctx.to_goal());
}

} // verus!
