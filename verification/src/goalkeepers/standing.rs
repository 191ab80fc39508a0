//! A goalkeeper who watches the play.
use crate::context::{
    share, MatchPlayerLite, PlayerDistanceFromStartPosition, PlayerSide, StateProcessingContext,
};
use crate::movement::outward;
use crate::outcome::{
    arrive, exertion, with_goalkeeper_state, ActivityIntensity, Exertion, GoalkeeperState,
    Movement, StateChangeResult,
};
use crate::scalar::{milli, units, Scalar};
use crate::vector::{flat, vec3, Vec3};
use vstd::prelude::*;

verus! {

pub open spec fn spec_danger_zone_radius() -> Scalar {
    units(35)
}

#[verifier::when_used_as_spec(spec_danger_zone_radius)]
pub fn danger_zone_radius() -> (r: Scalar)
    ensures
        r == spec_danger_zone_radius(),
{
    units(35)
}

pub open spec fn spec_close_danger_distance() -> Scalar {
    units(100)
}

#[verifier::when_used_as_spec(spec_close_danger_distance)]
pub fn close_danger_distance() -> (r: Scalar)
    ensures
        r == spec_close_danger_distance(),
{
    units(100)
}

pub open spec fn spec_far_threat_distance() -> Scalar {
    units(300)
}

#[verifier::when_used_as_spec(spec_far_threat_distance)]
pub fn far_threat_distance() -> (r: Scalar)
    ensures
        r == spec_far_threat_distance(),
{
    units(300)
}

#[derive(Default, Clone, Copy)]
pub struct GoalkeeperStandingState {}

impl GoalkeeperStandingState {
    pub open spec fn spec_process(
        &self,
        ctx: &StateProcessingContext,
    ) -> Option<StateChangeResult> {
        if ctx.ball.is_shot_at(ctx.player.side) {
            Some(with_goalkeeper_state(GoalkeeperState::PreparingForSave))
        } else if ctx.ball.distance < units(10) && !ctx.ball.is_owned && ctx.ball.on_own_side
        && ctx.ball.velocity.magnitude() < units(10) {
            Some(with_goalkeeper_state(GoalkeeperState::Catching))
        } else if ctx.player.has_ball {
            Some(with_goalkeeper_state(GoalkeeperState::Distributing))
        } else {
            match self.close_attacker(ctx) {
                Some(opponent) => {
                    if self.should_rush_out_for_ball(ctx, opponent) {
                        Some(with_goalkeeper_state(GoalkeeperState::ComingOut))
                    } else {
                        Some(with_goalkeeper_state(GoalkeeperState::PreparingForSave))
                    }
                },
                None => {
                    if self.sees_ball_coming(ctx) {
                        Some(with_goalkeeper_state(GoalkeeperState::PreparingForSave))
                    } else if !ctx.ball.is_owned && ctx.ball.on_own_side
                    && ctx.ball.distance < units(40) * (
                        units(1) + share(
                            ctx.player.skills.goalkeeping.command_of_area,
                        ) * milli(300)
                    ) {
                        Some(with_goalkeeper_state(GoalkeeperState::ComingOut))
                    } else {
                        match ctx.player.position_to_distance {
                            PlayerDistanceFromStartPosition::Small => if self.is_opponent_in_danger_zone(
                                ctx,
                            ) {
                                Some(with_goalkeeper_state(GoalkeeperState::PreparingForSave))
                            } else {
                                None
                            },
                            PlayerDistanceFromStartPosition::Medium => Some(
                                with_goalkeeper_state(GoalkeeperState::Walking),
                            ),
                            PlayerDistanceFromStartPosition::Big => Some(
                                with_goalkeeper_state(GoalkeeperState::Walking),
                            ),
                        }
                    }
                },
            }
        }
    }

    /// The next state of a standing goalkeeper.
    #[verifier::when_used_as_spec(spec_process)]
    pub fn process(&self, ctx: &StateProcessingContext) -> (r: Option<StateChangeResult>)
        ensures
            r == self.spec_process(ctx),
    {
        if ctx.ball.is_shot_at(ctx.player.side) {
            return Some(with_goalkeeper_state(GoalkeeperState::PreparingForSave));
        }
        if ctx.ball.distance < units(10) && !ctx.ball.is_owned && ctx.ball.on_own_side
        && ctx.ball.velocity.magnitude() < units(10) {
            return Some(with_goalkeeper_state(GoalkeeperState::Catching));
        }
        if ctx.player.has_ball {
            return Some(with_goalkeeper_state(GoalkeeperState::Distributing));
        }
        match self.close_attacker(ctx) {
            Some(opponent) => {
                if self.should_rush_out_for_ball(ctx, opponent) {
                    return Some(with_goalkeeper_state(GoalkeeperState::ComingOut));
                } else {
                    return Some(with_goalkeeper_state(GoalkeeperState::PreparingForSave));
                }
            },
            None => {},
        }
        if self.sees_ball_coming(ctx) {
            return Some(with_goalkeeper_state(GoalkeeperState::PreparingForSave));
        }
        if !ctx.ball.is_owned && ctx.ball.on_own_side
        && ctx.ball.distance < units(40) * (
            units(1) + share(ctx.player.skills.goalkeeping.command_of_area) * milli(300)
        ) {
            return Some(with_goalkeeper_state(GoalkeeperState::ComingOut));
        }
        match ctx.player.position_to_distance {
            PlayerDistanceFromStartPosition::Small => if self.is_opponent_in_danger_zone(ctx) {
                Some(with_goalkeeper_state(GoalkeeperState::PreparingForSave))
            } else {
                None
            },
            PlayerDistanceFromStartPosition::Medium => Some(
                with_goalkeeper_state(GoalkeeperState::Walking),
            ),
            PlayerDistanceFromStartPosition::Big => Some(
                with_goalkeeper_state(GoalkeeperState::Walking),
            ),
        }
    }

    pub open spec fn spec_close_attacker(
        &self,
        ctx: &StateProcessingContext,
    ) -> Option<MatchPlayerLite> {
        match ctx.opponent_with_ball() {
            Some(opponent) => if opponent.distance
                < close_danger_distance() { Some(opponent) } else { None },
            None => None,
        }
    }

    /// An opponent with the ball close by.
    #[verifier::when_used_as_spec(spec_close_attacker)]
    pub fn close_attacker(&self, ctx: &StateProcessingContext) -> (r: Option<MatchPlayerLite>)
        ensures
            r == self.spec_close_attacker(ctx),
    {
        match ctx.opponent_with_ball() {
            Some(opponent) => if opponent.distance
                < close_danger_distance() { Some(opponent) } else { None },
            None => None,
        }
    }

    pub open spec fn spec_sees_ball_coming(&self, ctx: &StateProcessingContext) -> bool {
        ctx.ball.is_towards_player_with_angle(milli(600)) && ctx.ball.on_own_side
        && ctx.ball.velocity.magnitude() > milli(500)
        && ctx.ball.distance < far_threat_distance() * (
            units(1) + share(ctx.player.skills.mental.anticipation) * milli(500)
        )
    }

    /// A moving ball comes this way in the own half; seen the earlier, the better the
    /// anticipation.
    #[verifier::when_used_as_spec(spec_sees_ball_coming)]
    pub fn sees_ball_coming(&self, ctx: &StateProcessingContext) -> (r: bool)
        ensures
            r == self.spec_sees_ball_coming(ctx),
    {
        ctx.ball.is_towards_player_with_angle(milli(600)) && ctx.ball.on_own_side
        && ctx.ball.velocity.magnitude() > milli(500)
        && ctx.ball.distance < far_threat_distance() * (
            units(1) + share(ctx.player.skills.mental.anticipation) * milli(500)
        )
    }

    pub open spec fn spec_velocity(&self, ctx: &StateProcessingContext) -> Option<Movement> {
        let spot = self.calculate_optimal_position(ctx);
        let away = ctx.player.position.distance_to(spot);
        if away < units(5) {
            Some(arrive(spot, units(3)).scaled(milli(700)))
        } else if away < units(15) {
            Some(arrive(spot, units(6)).scaled(units(1)))
        } else {
            Some(arrive(spot, units(10)).scaled(milli(1300)))
        }
    }

    /// To the best spot, faster the further away it is.
    #[verifier::when_used_as_spec(spec_velocity)]
    pub fn velocity(&self, ctx: &StateProcessingContext) -> (r: Option<Movement>)
        requires
            ctx.player.penalty_area.well_formed(),
        ensures
            r == self.spec_velocity(ctx),
    {
        let spot = self.calculate_optimal_position(ctx);
        let away = ctx.player.position.distance_to(spot);
        if away < units(5) {
            Some(arrive(spot, units(3)).scaled(milli(700)))
        } else if away < units(15) {
            Some(arrive(spot, units(6)).scaled(units(1)))
        } else {
            Some(arrive(spot, units(10)).scaled(milli(1300)))
        }
    }

    pub open spec fn spec_process_conditions(&self) -> Exertion {
        exertion(ActivityIntensity::Recovery)
    }

    /// The load of the state.
    #[verifier::when_used_as_spec(spec_process_conditions)]
    pub fn process_conditions(&self) -> (r: Exertion)
        ensures
            r == self.spec_process_conditions(),
    {
        exertion(ActivityIntensity::Recovery)
    }

    pub open spec fn spec_is_opponent_in_danger_zone(&self, ctx: &StateProcessingContext) -> bool {
        match ctx.opponent_with_ball() {
            Some(opponent) => opponent.distance < danger_zone_radius(),
            None => false,
        }
    }

    /// An opponent with the ball very close by.
    #[verifier::when_used_as_spec(spec_is_opponent_in_danger_zone)]
    pub fn is_opponent_in_danger_zone(&self, ctx: &StateProcessingContext) -> (r: bool)
        ensures
            r == self.spec_is_opponent_in_danger_zone(ctx),
    {
        match ctx.opponent_with_ball() {
            Some(opponent) => opponent.distance < danger_zone_radius(),
            None => false,
        }
    }

    pub open spec fn spec_judgement(&self, ctx: &StateProcessingContext) -> Scalar {
        (
            share(
                ctx.player.skills.mental.anticipation,
            ) + share(ctx.player.skills.mental.decisions)
        ) / units(2)
    }

    /// How well the goalkeeper judges when to come out.
    #[verifier::when_used_as_spec(spec_judgement)]
    pub fn judgement(&self, ctx: &StateProcessingContext) -> (r: Scalar)
        ensures
            r == self.spec_judgement(ctx),
    {
        (
            share(
                ctx.player.skills.mental.anticipation,
            ) + share(ctx.player.skills.mental.decisions)
        ) / units(2)
    }

    pub open spec fn spec_can_reach_first(
        &self,
        ctx: &StateProcessingContext,
        opponent: MatchPlayerLite,
    ) -> bool {
        let own_way = (ctx.ball.position - ctx.player.position).magnitude();
        let their_way = (ctx.ball.position - opponent.position).magnitude();
        let own_speed = ctx.player.skills.physical.acceleration * (
            units(1) + self.judgement(ctx) * milli(300)
        );
        let their_speed = share(opponent.skills.physical.pace) * units(20);
        let allowance = units(1) + self.judgement(ctx) * milli(200);
        if own_speed == units(0) {
            false
        } else if their_speed == units(0) {
            their_way > units(0) && allowance > units(0)
        } else {
            own_way / own_speed < their_way / their_speed * allowance
        }
    }

    /// The goalkeeper is at the ball before the opponent. One who cannot move is never first; an
    /// opponent who cannot move is beaten unless already at the ball.
    #[verifier::when_used_as_spec(spec_can_reach_first)]
    pub fn can_reach_first(
        &self,
        ctx: &StateProcessingContext,
        opponent: MatchPlayerLite,
    ) -> (r: bool)
        ensures
            r == self.spec_can_reach_first(ctx, opponent),
    {
        let own_way = (ctx.ball.position - ctx.player.position).magnitude();
        let their_way = (ctx.ball.position - opponent.position).magnitude();
        let own_speed = ctx.player.skills.physical.acceleration * (
            units(1) + self.judgement(ctx) * milli(300)
        );
        let their_speed = share(opponent.skills.physical.pace) * units(20);
        let allowance = units(1) + self.judgement(ctx) * milli(200);
        if own_speed == units(0) {
            false
        } else if their_speed == units(0) {
            their_way > units(0) && allowance > units(0)
        } else {
            own_way / own_speed < their_way / their_speed * allowance
        }
    }

    pub open spec fn spec_should_rush_out_for_ball(
        &self,
        ctx: &StateProcessingContext,
        opponent: MatchPlayerLite,
    ) -> bool {
        let own_way = (ctx.ball.position - ctx.player.position).magnitude();
        self.can_reach_first(ctx, opponent)
        && (!ctx.ball.is_owned || share(opponent.skills.technical.first_touch) < milli(500))
        && own_way < close_danger_distance() * milli(1500)
    }

    /// The goalkeeper is at the ball first, it is loose or badly controlled, and not too far.
    #[verifier::when_used_as_spec(spec_should_rush_out_for_ball)]
    pub fn should_rush_out_for_ball(
        &self,
        ctx: &StateProcessingContext,
        opponent: MatchPlayerLite,
    ) -> (r: bool)
        ensures
            r == self.spec_should_rush_out_for_ball(ctx, opponent),
    {
        let own_way = (ctx.ball.position - ctx.player.position).magnitude();
        self.can_reach_first(ctx, opponent)
        && (!ctx.ball.is_owned || share(opponent.skills.technical.first_touch) < milli(500))
        && own_way < close_danger_distance() * milli(1500)
    }

    pub open spec fn spec_calculate_optimal_position(&self, ctx: &StateProcessingContext) -> Vec3 {
        if ctx.ball.on_own_side {
            self.clamp_to_penalty_area(ctx, self.angle_spot(ctx))
        } else {
            self.clamp_to_penalty_area(ctx, self.waiting_spot(ctx))
        }
    }

    /// The best spot inside the penalty area: on the line to a ball in the own half, out in
    /// front of the goal otherwise.
    #[verifier::when_used_as_spec(spec_calculate_optimal_position)]
    pub fn calculate_optimal_position(&self, ctx: &StateProcessingContext) -> (r: Vec3)
        requires
            ctx.player.penalty_area.well_formed(),
        ensures
            r == self.spec_calculate_optimal_position(ctx),
            ctx.player.penalty_area.min.x <= r.x,
            r.x <= ctx.player.penalty_area.max.x,
            ctx.player.penalty_area.min.y <= r.y,
            r.y <= ctx.player.penalty_area.max.y,
    {
        if ctx.ball.on_own_side {
            self.clamp_to_penalty_area(ctx, self.angle_spot(ctx))
        } else {
            self.clamp_to_penalty_area(ctx, self.waiting_spot(ctx))
        }
    }

    pub open spec fn spec_depth(&self, ctx: &StateProcessingContext) -> Scalar {
        let threat = (
            ctx.ball.position - ctx.ball.direction_to_own_goal
        ).magnitude().min(units(300)) / units(300);
        (
            units(10) + (units(1) - threat) * units(20) * share(
                ctx.player.skills.goalkeeping.command_of_area,
            )
        )
        * (milli(800) + share(ctx.player.skills.mental.positioning) * milli(400))
    }

    /// How far out of the goal, further for a near ball.
    #[verifier::when_used_as_spec(spec_depth)]
    pub fn depth(&self, ctx: &StateProcessingContext) -> (r: Scalar)
        ensures
            r == self.spec_depth(ctx),
    {
        let threat = (
            ctx.ball.position - ctx.ball.direction_to_own_goal
        ).magnitude().min(units(300)) / units(300);
        (
            units(10) + (units(1) - threat) * units(20) * share(
                ctx.player.skills.goalkeeping.command_of_area,
            )
        )
        * (milli(800) + share(ctx.player.skills.mental.positioning) * milli(400))
    }

    pub open spec fn spec_angle_spot(&self, ctx: &StateProcessingContext) -> Vec3 {
        let goal = ctx.ball.direction_to_own_goal;
        let way = ctx.ball.position - goal;
        let direction = if way.magnitude() > units(1) {
            way.normalize()
        } else {
            flat(units(1), units(0))
        };
        let spot = goal + direction * self.depth(ctx);
        vec3(spot.x, spot.y + self.lateral_adjustment(ctx), spot.z)
    }

    /// On the line from the goal to the ball, shifted to one side.
    #[verifier::when_used_as_spec(spec_angle_spot)]
    pub fn angle_spot(&self, ctx: &StateProcessingContext) -> (r: Vec3)
        ensures
            r == self.spec_angle_spot(ctx),
    {
        let goal = ctx.ball.direction_to_own_goal;
        let way = ctx.ball.position - goal;
        let direction = if way.magnitude() > units(1) {
            way.normalize()
        } else {
            flat(units(1), units(0))
        };
        let spot = goal + direction * self.depth(ctx);
        vec3(spot.x, spot.y + self.lateral_adjustment(ctx), spot.z)
    }

    pub open spec fn spec_lateral_adjustment(&self, ctx: &StateProcessingContext) -> Scalar {
        let goal = ctx.ball.direction_to_own_goal;
        let away = (ctx.ball.position - goal).magnitude();
        let offset = ctx.ball.position.y - goal.y;
        if ctx.ball.direct_free_kick && away <= units(280) {
            (
                offset / (away.max(units(1)) * milli(600))
            ).clamp(units(1).negated(), units(1)).negated() * units(11)
        } else {
            offset * milli(200) * share(ctx.player.skills.mental.positioning)
        }
    }

    /// Towards the side of the ball; behind the wall of a direct free kick towards the far post.
    #[verifier::when_used_as_spec(spec_lateral_adjustment)]
    pub fn lateral_adjustment(&self, ctx: &StateProcessingContext) -> (r: Scalar)
        ensures
            r == self.spec_lateral_adjustment(ctx),
    {
        let goal = ctx.ball.direction_to_own_goal;
        let away = (ctx.ball.position - goal).magnitude();
        let offset = ctx.ball.position.y - goal.y;
        if ctx.ball.direct_free_kick && away <= units(280) {
            (
                offset / (away.max(units(1)) * milli(600))
            ).clamp(units(1).negated(), units(1)).negated() * units(11)
        } else {
            offset * milli(200) * share(ctx.player.skills.mental.positioning)
        }
    }

    pub open spec fn spec_waiting_spot(&self, ctx: &StateProcessingContext) -> Vec3 {
        let goal = ctx.ball.direction_to_own_goal;
        let depth = units(12) + share(ctx.player.skills.goalkeeping.command_of_area) * units(8);
        vec3(goal.x + depth * outward(ctx), goal.y, goal.z)
    }

    /// In front of the goal.
    #[verifier::when_used_as_spec(spec_waiting_spot)]
    pub fn waiting_spot(&self, ctx: &StateProcessingContext) -> (r: Vec3)
        ensures
            r == self.spec_waiting_spot(ctx),
    {
        let goal = ctx.ball.direction_to_own_goal;
        let depth = units(12) + share(ctx.player.skills.goalkeeping.command_of_area) * units(8);
        vec3(goal.x + depth * outward(ctx), goal.y, goal.z)
    }

    pub open spec fn spec_clamp_to_penalty_area(
        &self,
        ctx: &StateProcessingContext,
        position: Vec3,
    ) -> Vec3 {
        flat(
            position.x.clamp(ctx.player.penalty_area.min.x, ctx.player.penalty_area.max.x),
            position.y.clamp(ctx.player.penalty_area.min.y, ctx.player.penalty_area.max.y),
        )
    }

    /// The nearest spot of the penalty area.
    #[verifier::when_used_as_spec(spec_clamp_to_penalty_area)]
    pub fn clamp_to_penalty_area(&self, ctx: &StateProcessingContext, position: Vec3) -> (r: Vec3)
        requires
            ctx.player.penalty_area.well_formed(),
        ensures
            r == self.spec_clamp_to_penalty_area(ctx, position),
    {
        flat(
            position.x.clamp(ctx.player.penalty_area.min.x, ctx.player.penalty_area.max.x),
            position.y.clamp(ctx.player.penalty_area.min.y, ctx.player.penalty_area.max.y),
        )
    }
}

/// A goalkeeper with the ball distributes it and never runs with it, unless a shot is on its
/// way.
pub proof fn ball_is_distributed(state: GoalkeeperStandingState, ctx: &StateProcessingContext)
    requires
        ctx.player_is_seen_right(),
        ctx.ball_is_seen_right(),
        ctx.player.has_ball,
        !ctx.ball.is_shot_at(ctx.player.side),
    ensures
        state.process(ctx) == Some(with_goalkeeper_state(GoalkeeperState::Distributing)),
{
}

/// A standing goalkeeper gets ready for a shot, catches a slow loose ball at hand, distributes one
/// in hand, comes out or gets ready before a carrier closer than 100, gets ready for a ball that
/// comes, and comes out for a loose one near by; else the goalkeeper stays at the goal, and walks
/// back from further off.
pub proof fn keepers_act_in_order(state: GoalkeeperStandingState, ctx: &StateProcessingContext)
    ensures
        ({
            let goes_to = |s: GoalkeeperState| state.process(ctx) == Some(
                with_goalkeeper_state(s),
            );
            let shot = ctx.ball.shot_target is Some && ctx.player.side is Some
                && ctx.ball.shot_target->0.defending_side == ctx.player.side->0;
            let hand = ctx.ball.distance < units(10) && !ctx.ball.is_owned && ctx.ball.on_own_side
                && ctx.ball.velocity.magnitude() < units(10);
            let free = !shot && !hand && !ctx.player.has_ball;
            let carrier = ctx.opponent_with_ball();
            let close = carrier is Some && carrier->0.distance < units(100);
            let comes = state.sees_ball_coming(ctx);
            let loose = !ctx.ball.is_owned && ctx.ball.on_own_side && ctx.ball.distance < units(40) * (units(
                1,
            ) + share(ctx.player.skills.goalkeeping.command_of_area) * milli(300));
            let quiet = free && !close && !comes && !loose;
            let at_goal = ctx.player.position_to_distance is Small;
            &&& shot ==> goes_to(GoalkeeperState::PreparingForSave)
            &&& !shot && hand ==> goes_to(GoalkeeperState::Catching)
            &&& !shot && !hand && ctx.player.has_ball ==> goes_to(GoalkeeperState::Distributing)
            &&& free && close ==> goes_to(
                if state.should_rush_out_for_ball(ctx, carrier->0) {
                    GoalkeeperState::ComingOut
                } else {
                    GoalkeeperState::PreparingForSave
                },
            )
            &&& free && !close && comes ==> goes_to(GoalkeeperState::PreparingForSave)
            &&& free && !close && !comes && loose ==> goes_to(GoalkeeperState::ComingOut)
            &&& quiet && !at_goal ==> goes_to(GoalkeeperState::Walking)
            &&& quiet && at_goal ==> state.process(ctx) is None
        }),
{
}

/// A ball is seen to come where it moves, in the own half, towards the goalkeeper, and from the
/// further off the better the anticipation: from 300 on to 450.
pub proof fn anticipation_sees_further(
    state: GoalkeeperStandingState,
    ctx: &StateProcessingContext,
    other: &StateProcessingContext,
)
    requires
        other.ball == ctx.ball,
        units(0) <= ctx.player.skills.mental.anticipation,
        ctx.player.skills.mental.anticipation <= other.player.skills.mental.anticipation,
        ctx.player.skills.mental.anticipation <= units(20),
    ensures
        state.sees_ball_coming(ctx) ==> state.sees_ball_coming(other),
        state.sees_ball_coming(ctx) ==> ctx.ball.on_own_side && ctx.ball.heading >= milli(600)
            && ctx.ball.velocity.magnitude() > milli(500) && ctx.ball.distance < units(450),
        (ctx.ball.on_own_side && ctx.ball.heading >= milli(600) && ctx.ball.velocity.magnitude() > milli(500)
            && ctx.ball.distance < units(300)) ==> state.sees_ball_coming(ctx),
        (ctx.ball.on_own_side && ctx.ball.heading >= milli(600) && ctx.ball.velocity.magnitude() > milli(500)
            && ctx.player.skills.mental.anticipation == units(20)) ==> (state.sees_ball_coming(ctx)
            <==> ctx.ball.distance < units(450)),
{
    let a = ctx.player.skills.mental.anticipation;
    let b = other.player.skills.mental.anticipation;
    crate::context::shares_grow(a, b, ctx);
    crate::scalar::quotient_keeps_order(units(0), a, units(20));
    crate::scalar::quotient_keeps_order(a, units(20), units(20));
    crate::scalar::scaling_keeps_order(share(a), share(b), milli(500));
    crate::scalar::thousandths_of(share(a), 500);
    let x = units(1) + share(a) * milli(500);
    let y = units(1) + share(b) * milli(500);
    crate::scalar::greater_factor_makes_more(units(300), x, y);
    crate::scalar::greater_factor_makes_more(units(300), units(1), x);
    crate::scalar::greater_factor_makes_more(units(300), x, milli(1500));
    crate::scalar::one_changes_nothing(units(300));
    crate::scalar::thousandths_of(units(300), 1500);
}

/// The goalkeeper rushes out only for a ball closer than 150 that is loose or badly controlled,
/// and
/// only when first at it; a faster goalkeeper is no later, and neither is one who is closer.
pub proof fn rushes_have_their_reasons(
    state: GoalkeeperStandingState,
    ctx: &StateProcessingContext,
    o: MatchPlayerLite,
)
    ensures
        state.should_rush_out_for_ball(ctx, o) ==> state.can_reach_first(ctx, o) && (ctx.ball.position
            - ctx.player.position).magnitude() < units(150) && (!ctx.ball.is_owned
            || o.skills.technical.first_touch < units(10)),
        (state.can_reach_first(ctx, o) && (ctx.ball.position - ctx.player.position).magnitude() < units(150)
            && !ctx.ball.is_owned) ==> state.should_rush_out_for_ball(ctx, o),
        (state.can_reach_first(ctx, o) && (ctx.ball.position - ctx.player.position).magnitude() < units(150)
            && o.skills.technical.first_touch == units(0)) ==> state.should_rush_out_for_ball(ctx, o),
        state.is_opponent_in_danger_zone(ctx) <==> ctx.opponent_with_ball() is Some
            && ctx.opponent_with_ball()->0.distance < units(35),
{
    crate::scalar::thousandths_of(units(100), 1500);
    if o.skills.technical.first_touch >= units(10) {
        crate::scalar::quotient_keeps_order(units(10), o.skills.technical.first_touch, units(20));
    }
}

/// A goalkeeper closer to the ball, faster and with better judgement is first wherever another is.
#[verifier::rlimit(40)]
#[verifier::spinoff_prover]
pub proof fn faster_keepers_are_first(
    state: GoalkeeperStandingState,
    ctx: &StateProcessingContext,
    other: &StateProcessingContext,
    o: MatchPlayerLite,
)
    requires
        ctx.ball.position == other.ball.position,
        (other.ball.position - other.player.position).magnitude() <= (ctx.ball.position
            - ctx.player.position).magnitude(),
        units(0) < ctx.player.skills.physical.acceleration,
        ctx.player.skills.physical.acceleration <= other.player.skills.physical.acceleration,
        units(0) <= ctx.player.skills.mental.anticipation,
        ctx.player.skills.mental.anticipation <= other.player.skills.mental.anticipation,
        units(0) <= ctx.player.skills.mental.decisions,
        ctx.player.skills.mental.decisions <= other.player.skills.mental.decisions,
        units(0) <= o.skills.physical.pace,
    ensures
        state.judgement(ctx) <= state.judgement(other),
        units(0) <= state.judgement(ctx),
        state.can_reach_first(ctx, o) ==> state.can_reach_first(other, o),
{
    let a = ctx.player.skills;
    let b = other.player.skills;
    crate::context::shares_grow(a.mental.anticipation, b.mental.anticipation, ctx);
    crate::context::shares_grow(a.mental.decisions, b.mental.decisions, ctx);
    crate::scalar::quotient_keeps_order(units(0), a.mental.anticipation, units(20));
    crate::scalar::quotient_keeps_order(units(0), a.mental.decisions, units(20));
    crate::scalar::quotient_keeps_order(
        share(a.mental.anticipation) + share(a.mental.decisions),
        share(b.mental.anticipation) + share(b.mental.decisions),
        units(2),
    );
    crate::scalar::quotient_keeps_order(
        units(0),
        share(a.mental.anticipation) + share(a.mental.decisions),
        units(2),
    );
    crate::scalar::quotient_keeps_order(units(0), o.skills.physical.pace, units(20));
    crate::scalar::product_keeps_sign(share(o.skills.physical.pace), units(20));
    crate::vector::length_is_not_negative(ctx.ball.position - ctx.player.position);
    crate::vector::length_is_not_negative(other.ball.position - other.player.position);
    crate::vector::length_is_not_negative(ctx.ball.position - o.position);
    races_keep_order(
        (ctx.ball.position - ctx.player.position).magnitude(),
        (other.ball.position - other.player.position).magnitude(),
        a.physical.acceleration,
        b.physical.acceleration,
        state.judgement(ctx),
        state.judgement(other),
        (ctx.ball.position - o.position).magnitude(),
        share(o.skills.physical.pace) * units(20),
    );
}

/// A shorter way at a higher speed takes no longer, and a better judgement allows no less.
proof fn races_keep_order(
    far: Scalar,
    near: Scalar,
    slow: Scalar,
    fast: Scalar,
    worse: Scalar,
    better: Scalar,
    theirs: Scalar,
    pace: Scalar,
)
    requires
        units(0) <= near,
        near <= far,
        units(0) < slow,
        slow <= fast,
        units(0) <= worse,
        worse <= better,
        units(0) <= theirs,
        units(0) <= pace,
    ensures
        ({
            let a = slow * (units(1) + worse * milli(300));
            let b = fast * (units(1) + better * milli(300));
            &&& units(0) < a && a <= b
            &&& near / b <= far / a
            &&& units(1) <= units(1) + worse * milli(200)
            &&& units(1) + worse * milli(200) <= units(1) + better * milli(200)
            &&& units(0) < pace ==> theirs / pace * (
                units(1) + worse * milli(200)
            ) <= theirs / pace * (
            units(1) + better * milli(200))
        }),
{
    crate::scalar::scaling_keeps_order(worse, better, milli(300));
    crate::scalar::scaling_keeps_order(worse, better, milli(200));
    crate::scalar::product_keeps_sign(worse, milli(300));
    crate::scalar::product_keeps_sign(worse, milli(200));
    let x = units(1) + worse * milli(300);
    let y = units(1) + better * milli(300);
    crate::scalar::greater_factor_makes_more(slow, units(1), x);
    crate::scalar::one_changes_nothing(slow);
    crate::scalar::greater_factor_makes_more(slow, x, y);
    crate::scalar::scaling_keeps_order(slow, fast, y);
    crate::scalar::greater_divisor_gives_less(near, slow * x, fast * y);
    crate::scalar::quotient_keeps_order(near, far, slow * x);
    if units(0) < pace {
        crate::scalar::quotient_keeps_order(units(0), theirs, pace);
        crate::scalar::greater_factor_makes_more(
            theirs / pace,
            units(1) + worse * milli(200),
            units(1) + better * milli(200),
        );
    }
}

/// A goalkeeper who cannot move is never first, and an opponent who cannot move is beaten unless
/// already at the ball.
pub proof fn who_cannot_move_is_late(
    state: GoalkeeperStandingState,
    ctx: &StateProcessingContext,
    o: MatchPlayerLite,
)
    requires
        units(0) <= ctx.player.skills.mental.anticipation,
        units(0) <= ctx.player.skills.mental.decisions,
    ensures
        ctx.player.skills.physical.acceleration == units(0) ==> !state.can_reach_first(ctx, o),
        (units(1) <= ctx.player.skills.physical.acceleration && o.skills.physical.pace == units(0) && (
        ctx.ball.position - o.position).magnitude() > units(0)) ==> state.can_reach_first(ctx, o),
        (
            o.skills.physical.pace == units(0)
                && (ctx.ball.position - o.position).magnitude() == units(0)
        )
            ==> !state.can_reach_first(ctx, o),
{
    let a = ctx.player.skills;
    crate::scalar::quotient_keeps_order(units(0), a.mental.anticipation, units(20));
    crate::scalar::quotient_keeps_order(units(0), a.mental.decisions, units(20));
    crate::scalar::quotient_keeps_order(
        units(0),
        share(a.mental.anticipation) + share(a.mental.decisions),
        units(2),
    );
    crate::scalar::product_keeps_sign(state.judgement(ctx), milli(300));
    crate::scalar::product_keeps_sign(state.judgement(ctx), milli(200));
    crate::scalar::zero_stays_zero(units(1) + state.judgement(ctx) * milli(300));
    crate::scalar::zero_stays_zero(units(20));
    if units(1) <= a.physical.acceleration {
        crate::scalar::greater_factor_makes_more(
            a.physical.acceleration,
            units(1),
            units(1) + state.judgement(ctx) * milli(300),
        );
        crate::scalar::one_changes_nothing(a.physical.acceleration);
    }
}

/// The goalkeeper stands the further out, the nearer the ball, the better the command of the area
/// and the better placed by skill.
#[verifier::rlimit(40)]
#[verifier::spinoff_prover]
pub proof fn near_balls_draw_keepers_out(
    state: GoalkeeperStandingState,
    ctx: &StateProcessingContext,
    other: &StateProcessingContext,
)
    requires
        (other.ball.position - other.ball.direction_to_own_goal).magnitude() <= (ctx.ball.position
            - ctx.ball.direction_to_own_goal).magnitude(),
        units(0) <= ctx.player.skills.goalkeeping.command_of_area,
        ctx.player.skills.goalkeeping.command_of_area
            <= other.player.skills.goalkeeping.command_of_area,
        units(0) <= ctx.player.skills.mental.positioning,
        ctx.player.skills.mental.positioning <= other.player.skills.mental.positioning,
    ensures
        state.depth(ctx) <= state.depth(other),
        units(8) <= state.depth(ctx),
{
    let a = ctx.player.skills;
    let b = other.player.skills;
    let da = (ctx.ball.position - ctx.ball.direction_to_own_goal).magnitude();
    let db = (other.ball.position - other.ball.direction_to_own_goal).magnitude();
    crate::vector::length_is_not_negative(other.ball.position - other.ball.direction_to_own_goal);
    crate::scalar::quotient_keeps_order(db.min(units(300)), da.min(units(300)), units(300));
    crate::scalar::quotient_keeps_order(da.min(units(300)), units(300), units(300));
    crate::context::shares_grow(a.goalkeeping.command_of_area, b.goalkeeping.command_of_area, ctx);
    crate::context::shares_grow(a.mental.positioning, b.mental.positioning, ctx);
    crate::scalar::quotient_keeps_order(units(0), a.goalkeeping.command_of_area, units(20));
    crate::scalar::quotient_keeps_order(units(0), a.mental.positioning, units(20));
    depths_keep_order(
        units(1) - da.min(units(300)) / units(300),
        units(1) - db.min(units(300)) / units(300),
        share(a.goalkeeping.command_of_area),
        share(b.goalkeeping.command_of_area),
        share(a.mental.positioning),
        share(b.mental.positioning),
    );
}

/// The depth keeps the order of its parts.
proof fn depths_keep_order(ta: Scalar, tb: Scalar, ca: Scalar, cb: Scalar, pa: Scalar, pb: Scalar)
    requires
        units(0) <= ta,
        ta <= tb,
        units(0) <= ca,
        ca <= cb,
        units(0) <= pa,
        pa <= pb,
    ensures
        (units(10) + ta * units(20) * ca) * (milli(800) + pa * milli(400)) <= (units(10) + tb * units(20)
            * cb) * (milli(800) + pb * milli(400)),
        units(8) <= (units(10) + ta * units(20) * ca) * (milli(800) + pa * milli(400)),
{
    crate::scalar::scaling_keeps_order(ta, tb, units(20));
    crate::scalar::product_keeps_sign(ta, units(20));
    crate::scalar::scaling_keeps_order(ta * units(20), tb * units(20), ca);
    crate::scalar::greater_factor_makes_more(tb * units(20), ca, cb);
    crate::scalar::product_keeps_sign(ta * units(20), ca);
    crate::scalar::scaling_keeps_order(pa, pb, milli(400));
    crate::scalar::product_keeps_sign(pa, milli(400));
    let x = units(10) + ta * units(20) * ca;
    let y = units(10) + tb * units(20) * cb;
    let f = milli(800) + pa * milli(400);
    let g = milli(800) + pb * milli(400);
    crate::scalar::scaling_keeps_order(x, y, f);
    crate::scalar::greater_factor_makes_more(y, f, g);
    crate::scalar::scaling_keeps_order(units(10), x, milli(800));
    crate::scalar::greater_factor_makes_more(x, milli(800), f);
    crate::scalar::thousandths_of(units(10), 800);
}

/// The goalkeeper shifts to the side of the ball, and at a direct free kick close by, behind the
/// wall, to the other; for a ball straight ahead there is no shift.
pub proof fn keepers_cover_their_side(state: GoalkeeperStandingState, ctx: &StateProcessingContext)
    requires
        units(0) <= ctx.player.skills.mental.positioning,
    ensures
        ({
            let goal = ctx.ball.direction_to_own_goal;
            let offset = ctx.ball.position.y - goal.y;
            let wall = ctx.ball.direct_free_kick
                && (ctx.ball.position - goal).magnitude() <= units(280);
            let shift = state.lateral_adjustment(ctx);
            &&& !wall && units(0) <= offset ==> units(0) <= shift
            &&& !wall && offset <= units(0) ==> shift <= units(0)
            &&& wall && units(0) <= offset ==> shift <= units(0)
            &&& wall && offset <= units(0) ==> units(0) <= shift
            &&& wall ==> shift.is_between(units(11).negated(), units(11))
            &&& offset == units(0) ==> shift == units(0)
        }),
{
    let goal = ctx.ball.direction_to_own_goal;
    let away = (ctx.ball.position - goal).magnitude();
    let offset = ctx.ball.position.y - goal.y;
    crate::scalar::quotient_keeps_order(units(0), ctx.player.skills.mental.positioning, units(20));
    crate::scalar::product_keeps_sign(offset, milli(200));
    crate::scalar::product_keeps_sign(
        offset * milli(200),
        share(ctx.player.skills.mental.positioning),
    );
    crate::scalar::zero_stays_zero(milli(200));
    crate::scalar::zero_stays_zero(share(ctx.player.skills.mental.positioning));
    let base = away.max(units(1)) * milli(600);
    crate::scalar::scaling_keeps_order(units(1), away.max(units(1)), milli(600));
    crate::scalar::one_changes_nothing(milli(600));
    if units(0) <= offset {
        crate::scalar::quotient_keeps_order(units(0), offset, base);
    }
    if offset <= units(0) {
        crate::scalar::quotient_keeps_order(offset, units(0), base);
    }
    assert(units(0) / base == units(0)) by {
        let w: int = base.raw as int;
        assert(0int / w == 0) by (nonlinear_arith)
            requires
                w > 0,
        ;
    }
    let turn = (offset / base).clamp(units(1).negated(), units(1)).negated();
    crate::scalar::product_keeps_sign(turn, units(11));
    crate::scalar::scaling_keeps_order(turn, units(1), units(11));
    crate::scalar::scaling_keeps_order(units(1).negated(), turn, units(11));
    crate::scalar::one_changes_nothing(units(11));
    crate::scalar::zero_stays_zero(units(11));
}

/// A ball in the other half is awaited in front of the goal, between 12 and 20 out for a
/// goalkeeper
/// of any command of the area, level with its middle; and the faster the goalkeeper goes there,
/// the
/// further off.
pub proof fn keepers_wait_in_front(state: GoalkeeperStandingState, ctx: &StateProcessingContext)
    requires
        ctx.player.penalty_area.well_formed(),
        ctx.player.skills.goalkeeping.command_of_area.is_between(units(0), units(20)),
        ctx.ball.direction_to_own_goal.x.is_between(units(0), units(100_000)),
    ensures
        ({
            let goal = ctx.ball.direction_to_own_goal;
            let spot = state.waiting_spot(ctx);
            &&& spot.y == goal.y
            &&& ctx.player.side == Some(PlayerSide::Left) ==> spot.x.is_between(
                goal.x + units(12),
                goal.x + units(20),
            )
            &&& ctx.player.side == Some(PlayerSide::Right) ==> spot.x.is_between(
                goal.x - units(20),
                goal.x - units(12),
            )
            &&& !ctx.ball.on_own_side && ctx.player.penalty_area.contains(flat(spot.x, spot.y))
                ==> state.calculate_optimal_position(ctx) == flat(spot.x, spot.y)
            &&& ctx.ball.on_own_side && ctx.player.penalty_area.contains(
                flat(state.angle_spot(ctx).x, state.angle_spot(ctx).y),
            ) ==> state.calculate_optimal_position(ctx) == flat(
                state.angle_spot(ctx).x,
                state.angle_spot(ctx).y,
            )
            &&& ctx.player.position.distance_to(state.calculate_optimal_position(ctx)) < units(5)
                ==> state.velocity(ctx)->0.factor == milli(700)
            &&& ctx.player.position.distance_to(state.calculate_optimal_position(ctx)) >= units(15)
                ==> state.velocity(ctx)->0.factor == milli(1300)
            &&& state.velocity(ctx) is Some && state.velocity(ctx)->0.steering is Some
                && state.velocity(ctx)->0.steering->0 is Arrive
                && state.velocity(ctx)->0.steering->0->Arrive_target
                    == state.calculate_optimal_position(ctx)
        }),
{
    let c = ctx.player.skills.goalkeeping.command_of_area;
    crate::scalar::quotient_keeps_order(units(0), c, units(20));
    crate::scalar::quotient_keeps_order(c, units(20), units(20));
    crate::scalar::scaling_keeps_order(units(0), share(c), units(8));
    crate::scalar::scaling_keeps_order(share(c), units(1), units(8));
    crate::scalar::zero_stays_zero(units(8));
    crate::scalar::one_changes_nothing(units(8));
    let depth = units(12) + share(c) * units(8);
    crate::scalar::one_changes_nothing(depth);
    assert((depth * units(1).negated()).raw == -depth.raw) by {
        let d: int = depth.raw as int;
        assert(d * -1_000_000 == -(d * 1_000_000)) by (nonlinear_arith);
    }
    crate::scalar::one_changes_nothing(milli(700));
    crate::scalar::one_changes_nothing(milli(1300));
}

/// Behind the wall of a direct free kick from right at the side the goalkeeper covers the far
/// post,
/// 11 off the middle; without a wall the shift is a fifth of the ball's own for full skill.
pub proof fn far_posts_are_covered(state: GoalkeeperStandingState, ctx: &StateProcessingContext)
    requires
        ctx.player.skills.mental.positioning == units(20),
    ensures
        ({
            let goal = ctx.ball.direction_to_own_goal;
            let away = (ctx.ball.position - goal).magnitude();
            let offset = ctx.ball.position.y - goal.y;
            let wall = ctx.ball.direct_free_kick && away <= units(280);
            &&& wall && units(1) <= away && offset >= away && away <= units(100_000)
                ==> state.lateral_adjustment(ctx) == units(11).negated()
            &&& !wall && offset == units(100) ==> state.lateral_adjustment(ctx) == units(20)
        }),
{
    let goal = ctx.ball.direction_to_own_goal;
    let away = (ctx.ball.position - goal).magnitude();
    let offset = ctx.ball.position.y - goal.y;
    crate::scalar::thousandths_of(units(100), 200);
    crate::scalar::one_changes_nothing(units(20));
    crate::scalar::whole_is_one(units(20));
    if units(1) <= away && offset >= away && away <= units(280) {
        crate::scalar::thousandths_of(away, 600);
        let base = away * milli(600);
        crate::scalar::quotient_keeps_order(base, offset, base);
        crate::scalar::whole_is_one(base);
        crate::scalar::minus_one_turns_the_sign(units(11));
    }
}

} // verus!
