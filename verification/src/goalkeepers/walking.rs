//! A goalkeeper who moves about the goal.
use crate::context::{share, Area, MatchPlayerLite, PlayerSide, StateProcessingContext};
use crate::movement::outward;
use crate::outcome::{
    arrive, exertion_with_velocity, steer, with_goalkeeper_state, ActivityIntensity, Exertion,
    GoalkeeperState, Movement, StateChangeResult, Steering,
};
use crate::scalar::{milli, units, Scalar};
use crate::scan;
use crate::vector::{flat, vec3, Vec3};
use vstd::prelude::*;

verus! {

#[derive(Default, Clone, Copy)]
pub struct GoalkeeperWalkingState {}

impl GoalkeeperWalkingState {
    pub open spec fn spec_urgent_change(
        &self,
        ctx: &StateProcessingContext,
    ) -> Option<StateChangeResult> {
        if ctx.ball.is_shot_at(ctx.player.side) {
            Some(with_goalkeeper_state(GoalkeeperState::PreparingForSave))
        } else if ctx.ball.distance < units(5) && !ctx.ball.is_owned && ctx.ball.on_own_side
        && ctx.ball.velocity.magnitude() < units(8) {
            Some(with_goalkeeper_state(GoalkeeperState::Catching))
        } else if ctx.player.has_ball {
            Some(with_goalkeeper_state(GoalkeeperState::Distributing))
        } else if ctx.ball.should_take_immediately {
            Some(with_goalkeeper_state(GoalkeeperState::TakeBall))
        } else if !ctx.ball.is_owned && ctx.ball.distance < units(30) && ctx.ball.on_own_side
        && ctx.ball.velocity.magnitude() < units(5) {
            Some(with_goalkeeper_state(GoalkeeperState::Catching))
        } else if ctx.ball.on_own_side {
            Some(with_goalkeeper_state(GoalkeeperState::Standing))
        } else if self.sees_ball_coming(ctx) {
            Some(with_goalkeeper_state(GoalkeeperState::PreparingForSave))
        } else if self.should_come_out_advanced(ctx) && ctx.ball.distance < units(60) {
            Some(with_goalkeeper_state(GoalkeeperState::ComingOut))
        } else {
            None
        }
    }

    /// The next state where it does not depend on the goalkeeper's place.
    #[verifier::when_used_as_spec(spec_urgent_change)]
    pub fn urgent_change(&self, ctx: &StateProcessingContext) -> (r: Option<StateChangeResult>)
        ensures
            r == self.spec_urgent_change(ctx),
    {
        if ctx.ball.is_shot_at(ctx.player.side) {
            return Some(with_goalkeeper_state(GoalkeeperState::PreparingForSave));
        }
        if ctx.ball.distance < units(5) && !ctx.ball.is_owned && ctx.ball.on_own_side
        && ctx.ball.velocity.magnitude() < units(8) {
            return Some(with_goalkeeper_state(GoalkeeperState::Catching));
        }
        if ctx.player.has_ball {
            return Some(with_goalkeeper_state(GoalkeeperState::Distributing));
        }
        if ctx.ball.should_take_immediately {
            return Some(with_goalkeeper_state(GoalkeeperState::TakeBall));
        }
        if !ctx.ball.is_owned && ctx.ball.distance < units(30) && ctx.ball.on_own_side
        && ctx.ball.velocity.magnitude() < units(5) {
            return Some(with_goalkeeper_state(GoalkeeperState::Catching));
        }
        if ctx.ball.on_own_side {
            return Some(with_goalkeeper_state(GoalkeeperState::Standing));
        }
        if self.sees_ball_coming(ctx) {
            return Some(with_goalkeeper_state(GoalkeeperState::PreparingForSave));
        }
        if self.should_come_out_advanced(ctx) && ctx.ball.distance < units(60) {
            return Some(with_goalkeeper_state(GoalkeeperState::ComingOut));
        }
        None
    }

    pub open spec fn spec_process(
        &self,
        ctx: &StateProcessingContext,
    ) -> Option<StateChangeResult> {
        match self.urgent_change(ctx) {
            Some(change) => {
                Some(change)
            },
            None => {
                if self.is_significantly_out_of_position(ctx) {
                    Some(with_goalkeeper_state(GoalkeeperState::ReturningToGoal))
                } else if self.assess_threat_level(ctx) > milli(700) {
                    Some(with_goalkeeper_state(GoalkeeperState::PreparingForSave))
                } else {
                    None
                }
            },
        }
    }

    /// The next state of a walking goalkeeper.
    #[verifier::when_used_as_spec(spec_process)]
    pub fn process(&self, ctx: &StateProcessingContext) -> (r: Option<StateChangeResult>)
        requires
            self.urgent_change(ctx).is_none() ==> self.extended_area(ctx).well_formed(),
        ensures
            r == self.spec_process(ctx),
    {
        match self.urgent_change(ctx) {
            Some(change) => {
                return Some(change);
            },
            None => {},
        }
        if self.is_significantly_out_of_position(ctx) {
            return Some(with_goalkeeper_state(GoalkeeperState::ReturningToGoal));
        }
        if self.assess_threat_level(ctx) > milli(700) {
            return Some(with_goalkeeper_state(GoalkeeperState::PreparingForSave));
        }
        None
    }

    pub open spec fn spec_sees_ball_coming(&self, ctx: &StateProcessingContext) -> bool {
        ctx.ball.is_towards_player_with_angle(milli(850)) && ctx.ball.distance < units(200)
        && ctx.ball.distance < units(250) + share(
            ctx.player.skills.mental.anticipation,
        ) * units(100)
    }

    /// The ball comes straight at the goalkeeper; better anticipation sees it from further away.
    #[verifier::when_used_as_spec(spec_sees_ball_coming)]
    pub fn sees_ball_coming(&self, ctx: &StateProcessingContext) -> (r: bool)
        ensures
            r == self.spec_sees_ball_coming(ctx),
    {
        ctx.ball.is_towards_player_with_angle(milli(850)) && ctx.ball.distance < units(200)
        && ctx.ball.distance < units(250) + share(
            ctx.player.skills.mental.anticipation,
        ) * units(100)
    }

    pub open spec fn spec_velocity(&self, ctx: &StateProcessingContext) -> Option<Movement> {
        let spot = self.calculate_intelligent_position(ctx);
        if ctx.player.position.distance_to(spot) < units(10) {
            Some(
                steer(Steering::Wander {
                        target: spot,
                        radius: units(50),
                        jitter: units(1),
                        distance: units(50),
                        angle: ctx.rolls.wander_angle,
                }).scaled(milli(700)),
            )
        } else {
            Some(arrive(spot, units(15)))
        }
    }

    /// About the best spot when near it, else to it.
    #[verifier::when_used_as_spec(spec_velocity)]
    pub fn velocity(&self, ctx: &StateProcessingContext) -> (r: Option<Movement>)
        requires
            self.extended_area(ctx).well_formed(),
        ensures
            r == self.spec_velocity(ctx),
    {
        let spot = self.calculate_intelligent_position(ctx);
        if ctx.player.position.distance_to(spot) < units(10) {
            Some(
                steer(Steering::Wander {
                        target: spot,
                        radius: units(50),
                        jitter: units(1),
                        distance: units(50),
                        angle: ctx.rolls.wander_angle,
                }).scaled(milli(700)),
            )
        } else {
            Some(arrive(spot, units(15)))
        }
    }

    pub open spec fn spec_process_conditions(&self) -> Exertion {
        exertion_with_velocity(ActivityIntensity::Low)
    }

    /// The load of the state.
    #[verifier::when_used_as_spec(spec_process_conditions)]
    pub fn process_conditions(&self) -> (r: Exertion)
        ensures
            r == self.spec_process_conditions(),
    {
        exertion_with_velocity(ActivityIntensity::Low)
    }

    pub open spec fn spec_assess_threat_level(&self, ctx: &StateProcessingContext) -> Scalar {
        let alertness = share(ctx.player.skills.goalkeeping.reflexes);
        let carrier = match ctx.opponent_with_ball() {
            Some(opponent) => {
                let away = opponent.position.distance_to(ctx.player.position);
                if away < units(50) {
                    milli(800) * alertness
                } else if away < units(100) {
                    milli(500) * alertness
                } else {
                    units(0)
                }
            },
            None => units(0),
        };
        let fast_ball = if ctx.ball.velocity.magnitude() > units(10)
            && ctx.ball.is_towards_player_with_angle(milli(600)) {
            milli(400) * share(ctx.player.skills.mental.anticipation)
        } else {
            units(0)
        };
        (carrier + fast_ball).min(units(1))
    }

    /// How threatening the situation is, from 0 to 1: an opponent with the ball nearby, a fast
    /// ball that comes this way.
    #[verifier::when_used_as_spec(spec_assess_threat_level)]
    pub fn assess_threat_level(&self, ctx: &StateProcessingContext) -> (r: Scalar)
        ensures
            r == self.spec_assess_threat_level(ctx),
            r <= units(1),
    {
        let alertness = share(ctx.player.skills.goalkeeping.reflexes);
        let carrier = match ctx.opponent_with_ball() {
            Some(opponent) => {
                let away = opponent.position.distance_to(ctx.player.position);
                if away < units(50) {
                    milli(800) * alertness
                } else if away < units(100) {
                    milli(500) * alertness
                } else {
                    units(0)
                }
            },
            None => units(0),
        };
        let fast_ball = if ctx.ball.velocity.magnitude() > units(10)
            && ctx.ball.is_towards_player_with_angle(milli(600)) {
            milli(400) * share(ctx.player.skills.mental.anticipation)
        } else {
            units(0)
        };
        (carrier + fast_ball).min(units(1))
    }

    pub open spec fn spec_coming_out_range(&self, ctx: &StateProcessingContext) -> Scalar {
        let ability = (share(ctx.player.skills.mental.decisions) + share(ctx.player.skills.goalkeeping.rushing_out)
            + share(ctx.player.skills.goalkeeping.command_of_area) + share(ctx.player.skills.mental.anticipation)) / units(4);
        units(100) * (milli(600) + ability * milli(800))
    }

    /// How far the goalkeeper comes out for a loose ball.
    #[verifier::when_used_as_spec(spec_coming_out_range)]
    pub fn coming_out_range(&self, ctx: &StateProcessingContext) -> (r: Scalar)
        ensures
            r == self.spec_coming_out_range(ctx),
    {
        let ability = (share(ctx.player.skills.mental.decisions) + share(ctx.player.skills.goalkeeping.rushing_out)
            + share(ctx.player.skills.goalkeeping.command_of_area) + share(ctx.player.skills.mental.anticipation)) / units(4);
        units(100) * (milli(600) + ability * milli(800))
    }

    pub open spec fn spec_should_come_out_advanced(&self, ctx: &StateProcessingContext) -> bool {
        let quickness = (
            ctx.player.skills.physical.acceleration + ctx.player.skills.physical.agility
        ) / units(40);
        let limit = ctx.ball.distance * (units(1) - quickness * milli(300));
        !ctx.ball.is_owned && ctx.ball.distance < self.coming_out_range(ctx)
        && !scan::some_where(
            ctx.opponents@,
            |o: MatchPlayerLite|
                o.distance <= units(150) && (o.position - ctx.ball.position).magnitude() < limit,
        )
    }

    /// A loose ball in range that no opponent nearby reaches first.
    #[verifier::when_used_as_spec(spec_should_come_out_advanced)]
    pub fn should_come_out_advanced(&self, ctx: &StateProcessingContext) -> (r: bool)
        ensures
            r == self.spec_should_come_out_advanced(ctx),
    {
        let quickness = (
            ctx.player.skills.physical.acceleration + ctx.player.skills.physical.agility
        ) / units(40);
        let limit = ctx.ball.distance * (units(1) - quickness * milli(300));
        !ctx.ball.is_owned && ctx.ball.distance < self.coming_out_range(ctx)
        && !scan::any_of(
            &ctx.opponents,
            |o: MatchPlayerLite| -> (b: bool)
                ensures b == (
                    o.distance <= units(150)
                        && (o.position - ctx.ball.position).magnitude() < limit
                )
            {
                o.distance <= units(150) && (o.position - ctx.ball.position).magnitude() < limit
            },
            Ghost(
                |o: MatchPlayerLite|
                    o.distance <= units(150)
                        && (o.position - ctx.ball.position).magnitude() < limit,
            ),
        )
    }

    pub open spec fn spec_is_significantly_out_of_position(
        &self,
        ctx: &StateProcessingContext,
    ) -> bool {
        ctx.player.position.distance_to(self.calculate_intelligent_position(ctx))
        > units(120) - share(ctx.player.skills.mental.positioning) * units(40)
    }

    /// Further from the best spot than the skill at positioning tolerates.
    #[verifier::when_used_as_spec(spec_is_significantly_out_of_position)]
    pub fn is_significantly_out_of_position(&self, ctx: &StateProcessingContext) -> (r: bool)
        requires
            self.extended_area(ctx).well_formed(),
        ensures
            r == self.spec_is_significantly_out_of_position(ctx),
    {
        ctx.player.position.distance_to(self.calculate_intelligent_position(ctx))
        > units(120) - share(ctx.player.skills.mental.positioning) * units(40)
    }

    pub open spec fn spec_calculate_intelligent_position(
        &self,
        ctx: &StateProcessingContext,
    ) -> Vec3 {
        if ctx.ball.on_own_side {
            self.limit_to_penalty_area(self.angle_spot(ctx), ctx)
        } else {
            self.limit_to_penalty_area(self.sweeper_spot(ctx), ctx)
        }
    }

    /// The best spot: on the line to a ball in the own half, out in front of the goal otherwise.
    #[verifier::when_used_as_spec(spec_calculate_intelligent_position)]
    pub fn calculate_intelligent_position(&self, ctx: &StateProcessingContext) -> (r: Vec3)
        requires
            self.extended_area(ctx).well_formed(),
        ensures
            r == self.spec_calculate_intelligent_position(ctx),
            self.extended_area(ctx).contains(r),
            r.z == units(0),
    {
        if ctx.ball.on_own_side {
            self.limit_to_penalty_area(self.angle_spot(ctx), ctx)
        } else {
            self.limit_to_penalty_area(self.sweeper_spot(ctx), ctx)
        }
    }

    pub open spec fn spec_angle_to_ball(&self, ctx: &StateProcessingContext) -> Vec3 {
        let way = ctx.ball.position - ctx.ball.direction_to_own_goal;
        if way.magnitude() > milli(100) {
            way.normalize()
        } else {
            ctx.player.start_position
        }
    }

    /// The direction from the goal to the ball; the start position stands in for it where the
    /// ball is in the goal mouth.
    #[verifier::when_used_as_spec(spec_angle_to_ball)]
    pub fn angle_to_ball(&self, ctx: &StateProcessingContext) -> (r: Vec3)
        ensures
            r == self.spec_angle_to_ball(ctx),
    {
        let way = ctx.ball.position - ctx.ball.direction_to_own_goal;
        if way.magnitude() > milli(100) { way.normalize() } else { ctx.player.start_position }
    }

    pub open spec fn spec_depth(&self, ctx: &StateProcessingContext) -> Scalar {
        let threat = (
            ctx.ball.position - ctx.ball.direction_to_own_goal
        ).magnitude() / (ctx.width() * milli(500));
        (
            units(10) + (units(100) - threat * units(60)) * share(
                ctx.player.skills.goalkeeping.command_of_area,
            )
        )
        * (milli(700) + share(ctx.player.skills.mental.positioning) * milli(600))
    }

    /// How far out of the goal, further for a near ball.
    #[verifier::when_used_as_spec(spec_depth)]
    pub fn depth(&self, ctx: &StateProcessingContext) -> (r: Scalar)
        ensures
            r == self.spec_depth(ctx),
    {
        let threat = (
            ctx.ball.position - ctx.ball.direction_to_own_goal
        ).magnitude() / (ctx.width() * milli(500));
        (
            units(10) + (units(100) - threat * units(60)) * share(
                ctx.player.skills.goalkeeping.command_of_area,
            )
        )
        * (milli(700) + share(ctx.player.skills.mental.positioning) * milli(600))
    }

    pub open spec fn spec_angle_spot(&self, ctx: &StateProcessingContext) -> Vec3 {
        let goal = ctx.ball.direction_to_own_goal;
        let angle = self.angle_to_ball(ctx);
        let spot = goal + angle * self.depth(ctx);
        let coverage = milli(600) + share(ctx.player.skills.mental.positioning) * milli(400);
        vec3(spot.x, goal.y + angle.y * units(100) * coverage, spot.z)
    }

    /// On the line from the goal to the ball, to the side as far as the angle asks for.
    #[verifier::when_used_as_spec(spec_angle_spot)]
    pub fn angle_spot(&self, ctx: &StateProcessingContext) -> (r: Vec3)
        ensures
            r == self.spec_angle_spot(ctx),
    {
        let goal = ctx.ball.direction_to_own_goal;
        let angle = self.angle_to_ball(ctx);
        let spot = goal + angle * self.depth(ctx);
        let coverage = milli(600) + share(ctx.player.skills.mental.positioning) * milli(400);
        vec3(spot.x, goal.y + angle.y * units(100) * coverage, spot.z)
    }

    pub open spec fn spec_sweeper_spot(&self, ctx: &StateProcessingContext) -> Vec3 {
        let goal = ctx.ball.direction_to_own_goal;
        let ability = (
            share(
                ctx.player.skills.goalkeeping.command_of_area,
            ) + share(ctx.player.skills.goalkeeping.communication)
        ) / units(2);
        vec3(goal.x + (units(14) + ability * units(16)) * outward(ctx), goal.y, goal.z)
    }

    /// Out in front of the goal, further for a goalkeeper who commands the area.
    #[verifier::when_used_as_spec(spec_sweeper_spot)]
    pub fn sweeper_spot(&self, ctx: &StateProcessingContext) -> (r: Vec3)
        ensures
            r == self.spec_sweeper_spot(ctx),
    {
        let goal = ctx.ball.direction_to_own_goal;
        let ability = (
            share(
                ctx.player.skills.goalkeeping.command_of_area,
            ) + share(ctx.player.skills.goalkeeping.communication)
        ) / units(2);
        vec3(goal.x + (units(14) + ability * units(16)) * outward(ctx), goal.y, goal.z)
    }

    pub open spec fn spec_extended_area(&self, ctx: &StateProcessingContext) -> Area {
        let area = ctx.player.penalty_area;
        let extension = units(2) * (
            units(1) + share(ctx.player.skills.goalkeeping.command_of_area) * milli(100)
        );
        Area {
            min: vec3(area.min.x - extension, area.min.y, area.min.z),
            max: vec3(area.max.x + extension, area.max.y, area.max.z),
        }
    }

    /// The penalty area, which a goalkeeper who commands it extends a little along the pitch.
    #[verifier::when_used_as_spec(spec_extended_area)]
    pub fn extended_area(&self, ctx: &StateProcessingContext) -> (r: Area)
        ensures
            r == self.spec_extended_area(ctx),
    {
        let area = ctx.player.penalty_area;
        let extension = units(2) * (
            units(1) + share(ctx.player.skills.goalkeeping.command_of_area) * milli(100)
        );
        Area {
            min: vec3(area.min.x - extension, area.min.y, area.min.z),
            max: vec3(area.max.x + extension, area.max.y, area.max.z),
        }
    }

    pub open spec fn spec_limit_to_penalty_area(
        &self,
        position: Vec3,
        ctx: &StateProcessingContext,
    ) -> Vec3 {
        let area = self.extended_area(ctx);
        flat(
            position.x.clamp(area.min.x, area.max.x),
            position.y.clamp(area.min.y, area.max.y),
        )
    }

    /// The nearest spot of the extended penalty area.
    #[verifier::when_used_as_spec(spec_limit_to_penalty_area)]
    pub fn limit_to_penalty_area(&self, position: Vec3, ctx: &StateProcessingContext) -> (r: Vec3)
        requires
            self.extended_area(ctx).well_formed(),
        ensures
            r == self.spec_limit_to_penalty_area(position, ctx),
            self.extended_area(ctx).contains(r),
            r.z == units(0),
    {
        let area = self.extended_area(ctx);
        flat(
            position.x.clamp(area.min.x, area.max.x),
            position.y.clamp(area.min.y, area.max.y),
        )
    }
}

/// A walking goalkeeper gets ready for a shot, catches a slow loose ball at hand or near by,
/// distributes one in hand, goes for one that is there to be taken, stands still for a ball in the
/// own half, gets ready for one that comes, and comes out for a loose one.
pub proof fn walks_end_at_once(state: GoalkeeperWalkingState, ctx: &StateProcessingContext)
    ensures
        ({
            let goes_to = |s: GoalkeeperState| state.process(ctx) == Some(
                with_goalkeeper_state(s),
            );
            let shot = ctx.ball.shot_target is Some && ctx.player.side is Some
                && ctx.ball.shot_target->0.defending_side == ctx.player.side->0;
            let own = !ctx.ball.is_owned && ctx.ball.on_own_side;
            let speed = ctx.ball.velocity.magnitude();
            let hand = own && ctx.ball.distance < units(5) && speed < units(8);
            let free = !shot && !hand && !ctx.player.has_ball;
            let taken = ctx.ball.should_take_immediately;
            let near = own && ctx.ball.distance < units(30) && speed < units(5);
            let away = free && !taken && !ctx.ball.on_own_side;
            let comes = state.sees_ball_coming(ctx);
            let out = state.should_come_out_advanced(ctx) && ctx.ball.distance < units(60);
            &&& shot ==> goes_to(GoalkeeperState::PreparingForSave)
            &&& !shot && hand ==> goes_to(GoalkeeperState::Catching)
            &&& !shot && !hand && ctx.player.has_ball ==> goes_to(GoalkeeperState::Distributing)
            &&& free && taken ==> goes_to(GoalkeeperState::TakeBall)
            &&& free && !taken && near ==> goes_to(GoalkeeperState::Catching)
            &&& free && !taken && !near
                && ctx.ball.on_own_side ==> goes_to(GoalkeeperState::Standing)
            &&& away && comes ==> goes_to(GoalkeeperState::PreparingForSave)
            &&& away && !comes && out ==> goes_to(GoalkeeperState::ComingOut)
            &&& away && !comes && !out && state.is_significantly_out_of_position(ctx) ==> goes_to(
                GoalkeeperState::ReturningToGoal,
            )
            &&& away && !comes && !out && !state.is_significantly_out_of_position(ctx) ==> if
                state.assess_threat_level(ctx) > milli(700) {
                goes_to(GoalkeeperState::PreparingForSave)
            } else {
                state.process(ctx) is None
            }
        }),
{
}

/// A ball that comes straight is seen within 200, whatever the anticipation.
pub proof fn straight_balls_are_seen(state: GoalkeeperWalkingState, ctx: &StateProcessingContext)
    requires
        units(0) <= ctx.player.skills.mental.anticipation,
    ensures
        state.sees_ball_coming(ctx) <==> ctx.ball.heading >= milli(850)
            && ctx.ball.distance < units(200),
{
    crate::scalar::quotient_keeps_order(
        units(0),
        ctx.player.skills.mental.anticipation,
        units(20),
    );
    crate::scalar::product_keeps_sign(share(ctx.player.skills.mental.anticipation), units(100));
}

/// The threat is none without a carrier within 100 and a fast ball that comes; for a goalkeeper of
/// full alertness it is 0.8 of a carrier within 50, 0.5 of one within 100, and 0.4 more of a fast
/// ball; it is the greater, the more alert the goalkeeper.
pub proof fn threats_are_seen_by_the_alert(
    state: GoalkeeperWalkingState,
    ctx: &StateProcessingContext,
    other: &StateProcessingContext,
)
    requires
        other.ball == ctx.ball,
        other.opponents@ == ctx.opponents@,
        other.player.position == ctx.player.position,
        units(0) <= ctx.player.skills.goalkeeping.reflexes,
        ctx.player.skills.goalkeeping.reflexes <= other.player.skills.goalkeeping.reflexes,
        units(0) <= ctx.player.skills.mental.anticipation,
        ctx.player.skills.mental.anticipation <= other.player.skills.mental.anticipation,
    ensures
        state.assess_threat_level(ctx) <= state.assess_threat_level(other),
        ({
            let carrier = ctx.opponent_with_ball();
            let away = carrier->0.position.distance_to(ctx.player.position);
            let fast = ctx.ball.velocity.magnitude() > units(10) && ctx.ball.heading >= milli(600);
            let full = ctx.player.skills.goalkeeping.reflexes == units(20)
                && ctx.player.skills.mental.anticipation == units(20);
            &&& carrier is None && !fast ==> state.assess_threat_level(ctx) == units(0)
            &&& carrier is Some && away >= units(100)
                && !fast ==> state.assess_threat_level(ctx) == units(0)
            &&& full && carrier is None && fast ==> state.assess_threat_level(ctx) == milli(400)
            &&& full && carrier is Some && away < units(50)
                && !fast ==> state.assess_threat_level(ctx)
                == milli(800)
            &&& full && carrier is Some && units(50) <= away && away < units(100) && !fast
                ==> state.assess_threat_level(ctx) == milli(500)
            &&& full && carrier is Some && units(50) <= away && away < units(100) && fast
                ==> state.assess_threat_level(ctx) == milli(900)
            &&& full && carrier is Some && away < units(50)
                && fast ==> state.assess_threat_level(ctx)
                == units(1)
        }),
{
    let a = ctx.player.skills;
    let b = other.player.skills;
    crate::context::shares_grow(a.goalkeeping.reflexes, b.goalkeeping.reflexes, ctx);
    crate::context::shares_grow(a.mental.anticipation, b.mental.anticipation, ctx);
    crate::scalar::product_keeps_order(
        milli(800),
        share(a.goalkeeping.reflexes),
        share(b.goalkeeping.reflexes),
    );
    crate::scalar::product_keeps_order(
        milli(500),
        share(a.goalkeeping.reflexes),
        share(b.goalkeeping.reflexes),
    );
    crate::scalar::product_keeps_order(
        milli(400),
        share(a.mental.anticipation),
        share(b.mental.anticipation),
    );
    crate::scalar::one_changes_nothing(milli(800));
    crate::scalar::one_changes_nothing(milli(500));
    crate::scalar::one_changes_nothing(milli(400));
}

/// The goalkeeper comes out only for a loose ball in range, and always for one within 60 while no
/// opponent is within 150; the better the goalkeeper, the further the range, from 60 on.
pub proof fn coming_out_has_its_range(
    state: GoalkeeperWalkingState,
    ctx: &StateProcessingContext,
    other: &StateProcessingContext,
)
    requires
        units(0) <= ctx.player.skills.mental.decisions,
        ctx.player.skills.mental.decisions <= other.player.skills.mental.decisions,
        units(0) <= ctx.player.skills.goalkeeping.rushing_out,
        ctx.player.skills.goalkeeping.rushing_out <= other.player.skills.goalkeeping.rushing_out,
        units(0) <= ctx.player.skills.goalkeeping.command_of_area,
        ctx.player.skills.goalkeeping.command_of_area
            <= other.player.skills.goalkeeping.command_of_area,
        units(0) <= ctx.player.skills.mental.anticipation,
        ctx.player.skills.mental.anticipation <= other.player.skills.mental.anticipation,
    ensures
        state.coming_out_range(ctx) <= state.coming_out_range(other),
        units(60) <= state.coming_out_range(ctx),
        state.should_come_out_advanced(ctx) ==> !ctx.ball.is_owned && ctx.ball.distance
            < state.coming_out_range(ctx),
        (!ctx.ball.is_owned && ctx.ball.distance < units(60) && forall|o: MatchPlayerLite| #[trigger]
            ctx.opponents@.contains(o) ==> o.distance > units(150)) ==> state.should_come_out_advanced(ctx),
{
    let a = ctx.player.skills;
    let b = other.player.skills;
    crate::context::shares_grow(a.mental.decisions, b.mental.decisions, ctx);
    crate::context::shares_grow(a.goalkeeping.rushing_out, b.goalkeeping.rushing_out, ctx);
    crate::context::shares_grow(a.goalkeeping.command_of_area, b.goalkeeping.command_of_area, ctx);
    crate::context::shares_grow(a.mental.anticipation, b.mental.anticipation, ctx);
    crate::scalar::quotient_keeps_order(units(0), a.mental.decisions, units(20));
    crate::scalar::quotient_keeps_order(units(0), a.goalkeeping.rushing_out, units(20));
    crate::scalar::quotient_keeps_order(units(0), a.goalkeeping.command_of_area, units(20));
    crate::scalar::quotient_keeps_order(units(0), a.mental.anticipation, units(20));
    let x = share(a.mental.decisions) + share(a.goalkeeping.rushing_out) + share(
        a.goalkeeping.command_of_area,
    ) + share(a.mental.anticipation);
    let y = share(b.mental.decisions) + share(b.goalkeeping.rushing_out) + share(
        b.goalkeeping.command_of_area,
    ) + share(b.mental.anticipation);
    crate::scalar::quotient_keeps_order(x, y, units(4));
    crate::scalar::quotient_keeps_order(units(0), x, units(4));
    crate::scalar::scaling_keeps_order(x / units(4), y / units(4), milli(800));
    crate::scalar::product_keeps_sign(x / units(4), milli(800));
    crate::scalar::greater_factor_makes_more(
        units(100),
        milli(600) + x / units(4) * milli(800),
        milli(600) + y / units(4) * milli(800),
    );
    crate::scalar::greater_factor_makes_more(
        units(100),
        milli(600),
        milli(600) + x / units(4) * milli(800),
    );
    crate::scalar::thousandths_of(units(100), 600);
    let quickness = (a.physical.acceleration + a.physical.agility) / units(40);
    let limit = ctx.ball.distance * (units(1) - quickness * milli(300));
    scan::some_is_one_of_them(
        ctx.opponents@,
        |o: MatchPlayerLite|
            o.distance <= units(150) && (o.position - ctx.ball.position).magnitude() < limit,
    );
}

/// An opponent within 150 who is closer to the ball than the goalkeeper's quickness makes up for
/// keeps the goalkeeper back, and otherwise a loose ball in range brings the goalkeeper out.
pub proof fn opponents_keep_keepers_back(
    state: GoalkeeperWalkingState,
    ctx: &StateProcessingContext,
)
    requires
        ctx.player.skills.physical.acceleration == units(0),
        ctx.player.skills.physical.agility == units(0),
    ensures
        state.should_come_out_advanced(ctx) <==> !ctx.ball.is_owned && ctx.ball.distance
            < state.coming_out_range(ctx) && forall|o: MatchPlayerLite| #[trigger]
            ctx.opponents@.contains(o) && o.distance <= units(150) ==> (o.position
                - ctx.ball.position).magnitude() >= ctx.ball.distance,
{
    let a = ctx.player.skills;
    let quickness = (a.physical.acceleration + a.physical.agility) / units(40);
    crate::scalar::zero_stays_zero(milli(300));
    crate::scalar::one_changes_nothing(ctx.ball.distance);
    let limit = ctx.ball.distance * (units(1) - quickness * milli(300));
    scan::some_is_one_of_them(
        ctx.opponents@,
        |o: MatchPlayerLite|
            o.distance <= units(150) && (o.position - ctx.ball.position).magnitude() < limit,
    );
}

/// A ball in the other half is awaited out in front of the goal, level with its middle, between 14
/// and 30 out; close to the best spot the goalkeeper strolls about it, and else goes there.
pub proof fn keepers_sweep_in_front(state: GoalkeeperWalkingState, ctx: &StateProcessingContext)
    requires
        state.extended_area(ctx).well_formed(),
        ctx.player.skills.goalkeeping.command_of_area.is_between(units(0), units(20)),
        ctx.player.skills.goalkeeping.communication.is_between(units(0), units(20)),
        ctx.ball.direction_to_own_goal.x.is_between(units(0), units(100_000)),
    ensures
        ({
            let goal = ctx.ball.direction_to_own_goal;
            let spot = state.sweeper_spot(ctx);
            let best = state.calculate_intelligent_position(ctx);
            &&& spot.y == goal.y
            &&& ctx.player.side == Some(PlayerSide::Left) ==> spot.x.is_between(
                goal.x + units(14),
                goal.x + units(30),
            )
            &&& ctx.player.side == Some(PlayerSide::Right) ==> spot.x.is_between(
                goal.x - units(30),
                goal.x - units(14),
            )
            &&& !ctx.ball.on_own_side
                && state.extended_area(ctx).contains(flat(spot.x, spot.y)) ==> best
                == flat(spot.x, spot.y)
            &&& ctx.player.position.distance_to(best) >= units(10) ==> state.velocity(ctx) == Some(
                arrive(best, units(15)),
            )
            &&& ctx.player.position.distance_to(best) < units(10) ==> (state.velocity(ctx) matches Some(m)
                && m.factor == milli(700) && m.steering == Some(
                Steering::Wander {
                    target: best,
                    radius: units(50),
                    jitter: units(1),
                    distance: units(50),
                    angle: ctx.rolls.wander_angle,
                },
            ))
        }),
{
    let c = ctx.player.skills.goalkeeping.command_of_area;
    let v = ctx.player.skills.goalkeeping.communication;
    crate::scalar::quotient_keeps_order(units(0), c, units(20));
    crate::scalar::quotient_keeps_order(c, units(20), units(20));
    crate::scalar::quotient_keeps_order(units(0), v, units(20));
    crate::scalar::quotient_keeps_order(v, units(20), units(20));
    crate::scalar::quotient_keeps_order(units(0), share(c) + share(v), units(2));
    crate::scalar::quotient_keeps_order(share(c) + share(v), units(2), units(2));
    let ability = (share(c) + share(v)) / units(2);
    crate::scalar::scaling_keeps_order(units(0), ability, units(16));
    crate::scalar::scaling_keeps_order(ability, units(1), units(16));
    crate::scalar::zero_stays_zero(units(16));
    crate::scalar::one_changes_nothing(units(16));
    let depth = units(14) + ability * units(16);
    crate::scalar::one_changes_nothing(depth);
    assert((depth * units(1).negated()).raw == -depth.raw) by {
        let d: int = depth.raw as int;
        assert(d * -1_000_000 == -(d * 1_000_000)) by (nonlinear_arith);
    }
    crate::scalar::one_changes_nothing(milli(700));
}

/// The area that the goalkeeper keeps to holds the penalty area, reaches two out of it along the
/// pitch at the least, 2.2 at the most, and nowhere further to the sides.
pub proof fn keepers_keep_to_the_area(state: GoalkeeperWalkingState, ctx: &StateProcessingContext)
    requires
        ctx.player.skills.goalkeeping.command_of_area.is_between(units(0), units(20)),
        ctx.player.penalty_area.min.x.is_between(units(100_000).negated(), units(100_000)),
        ctx.player.penalty_area.max.x.is_between(units(100_000).negated(), units(100_000)),
    ensures
        ({
            let area = ctx.player.penalty_area;
            let wide = state.extended_area(ctx);
            &&& wide.min.y == area.min.y && wide.max.y == area.max.y
            &&& wide.min.x.is_between(area.min.x - milli(2200), area.min.x - units(2))
            &&& wide.max.x.is_between(area.max.x + units(2), area.max.x + milli(2200))
        }),
{
    let c = ctx.player.skills.goalkeeping.command_of_area;
    crate::scalar::quotient_keeps_order(units(0), c, units(20));
    crate::scalar::quotient_keeps_order(c, units(20), units(20));
    crate::scalar::thousandths_of(share(c), 100);
    let f = units(1) + share(c) * milli(100);
    crate::scalar::greater_factor_makes_more(units(2), units(1), f);
    crate::scalar::greater_factor_makes_more(units(2), f, milli(1100));
    crate::scalar::one_changes_nothing(units(2));
    crate::scalar::thousandths_of(units(2), 1100);
}

/// The better placed a goalkeeper is by skill, the less far from the best spot is far: 120 without
/// any, 80 with all of it.
pub proof fn skill_tolerates_less(state: GoalkeeperWalkingState, ctx: &StateProcessingContext)
    requires
        state.extended_area(ctx).well_formed(),
        ctx.player.skills.mental.positioning.is_between(units(0), units(20)),
    ensures
        ({
            let away = ctx.player.position.distance_to(state.calculate_intelligent_position(ctx));
            &&& away > units(120) ==> state.is_significantly_out_of_position(ctx)
            &&& away <= units(80) ==> !state.is_significantly_out_of_position(ctx)
            &&& ctx.player.skills.mental.positioning == units(20) ==> (state.is_significantly_out_of_position(
                ctx,
            ) <==> away > units(80))
            &&& ctx.player.skills.mental.positioning == units(0) ==> (state.is_significantly_out_of_position(
                ctx,
            ) <==> away > units(120))
        }),
{
    let c = ctx.player.skills.mental.positioning;
    crate::scalar::quotient_keeps_order(units(0), c, units(20));
    crate::scalar::quotient_keeps_order(c, units(20), units(20));
    crate::scalar::scaling_keeps_order(units(0), share(c), units(40));
    crate::scalar::scaling_keeps_order(share(c), units(1), units(40));
    crate::scalar::zero_stays_zero(units(40));
    crate::scalar::one_changes_nothing(units(40));
}

/// The goalkeeper comes the further out for a ball in the own half, the nearer it is and the
/// better
/// the goalkeeper is placed by skill.
#[verifier::rlimit(40)]
#[verifier::spinoff_prover]
pub proof fn near_balls_draw_keepers_out(
    state: GoalkeeperWalkingState,
    ctx: &StateProcessingContext,
    other: &StateProcessingContext,
)
    requires
        ctx.field_size.width > 0,
        ctx.field_size.width == other.field_size.width,
        (other.ball.position - other.ball.direction_to_own_goal).magnitude() <= (ctx.ball.position
            - ctx.ball.direction_to_own_goal).magnitude(),
        (
            ctx.ball.position - ctx.ball.direction_to_own_goal
        ).magnitude() <= ctx.width() * milli(500),
        units(0) <= ctx.player.skills.goalkeeping.command_of_area,
        ctx.player.skills.goalkeeping.command_of_area
            == other.player.skills.goalkeeping.command_of_area,
        units(0) <= ctx.player.skills.mental.positioning,
        ctx.player.skills.mental.positioning <= other.player.skills.mental.positioning,
    ensures
        state.depth(ctx) <= state.depth(other),
        units(7) <= state.depth(ctx),
{
    let a = ctx.player.skills;
    let b = other.player.skills;
    let da = (ctx.ball.position - ctx.ball.direction_to_own_goal).magnitude();
    let db = (other.ball.position - other.ball.direction_to_own_goal).magnitude();
    let half = ctx.width() * milli(500);
    crate::scalar::thousandths_of(ctx.width(), 500);
    crate::scalar::quotient_keeps_order(db, da, half);
    crate::scalar::quotient_keeps_order(da, half, half);
    assert(half / half == units(1)) by {
        let h: int = half.raw as int;
        assert(h * 1_000_000 / h == 1_000_000) by (nonlinear_arith)
            requires
                h > 0,
        ;
    }
    crate::scalar::scaling_keeps_order(db / half, da / half, units(60));
    crate::scalar::scaling_keeps_order(da / half, units(1), units(60));
    crate::scalar::one_changes_nothing(units(60));
    crate::context::shares_grow(a.mental.positioning, b.mental.positioning, ctx);
    crate::scalar::quotient_keeps_order(units(0), a.goalkeeping.command_of_area, units(20));
    crate::scalar::quotient_keeps_order(units(0), a.mental.positioning, units(20));
    depths_keep_order(
        units(100) - da / half * units(60),
        units(100) - db / half * units(60),
        share(a.goalkeeping.command_of_area),
        share(a.mental.positioning),
        share(b.mental.positioning),
    );
}

/// The depth keeps the order of its parts.
proof fn depths_keep_order(ta: Scalar, tb: Scalar, c: Scalar, pa: Scalar, pb: Scalar)
    requires
        units(0) <= ta,
        ta <= tb,
        units(0) <= c,
        units(0) <= pa,
        pa <= pb,
    ensures
        (units(10) + ta * c) * (milli(700) + pa * milli(600)) <= (units(10) + tb * c) * (milli(700) + pb
            * milli(600)),
        units(7) <= (units(10) + ta * c) * (milli(700) + pa * milli(600)),
{
    crate::scalar::scaling_keeps_order(ta, tb, c);
    crate::scalar::product_keeps_sign(ta, c);
    crate::scalar::scaling_keeps_order(pa, pb, milli(600));
    crate::scalar::product_keeps_sign(pa, milli(600));
    let x = units(10) + ta * c;
    let y = units(10) + tb * c;
    let f = milli(700) + pa * milli(600);
    let g = milli(700) + pb * milli(600);
    crate::scalar::scaling_keeps_order(x, y, f);
    crate::scalar::greater_factor_makes_more(y, f, g);
    crate::scalar::scaling_keeps_order(units(10), x, milli(700));
    crate::scalar::greater_factor_makes_more(x, milli(700), f);
    crate::scalar::thousandths_of(units(10), 700);
}

} // verus!
