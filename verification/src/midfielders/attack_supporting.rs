//! A midfielder who supports an attack.
use crate::midfielders::running::{max_shooting_distance, standard_shooting_distance};
use crate::context::{
    headcount, MatchPlayerLite, PlayerDistanceFromStartPosition, PlayerSide, PositionGroup,
    Skills, StateProcessingContext,
};
use crate::gaps::{neighbours_of, Neighbours};
use crate::movement::{attacking_direction, clamp_to_field};
use crate::outcome::{
    arrive, exertion_with_velocity, glide_along, glide_if_any, pursue, seek, still,
    with_midfielder_state, ActivityIntensity, Exertion, MidfielderState, Movement,
    StateChangeResult, Steering,
};
use crate::scalar::{micro, milli, units, Scalar};
use crate::scan;
use crate::vector::{flat, Vec3};
use vstd::prelude::*;

verus! {

/// How long the midfielder supports one attack.
pub const ATTACK_SUPPORT_TIME_LIMIT: u64 = 300;

/// Steps for which the midfielder stays after the ball is lost, where nothing is urgent.
pub const MIN_STAY_TIME: u64 = 60;

pub open spec fn spec_tackle_range() -> Scalar {
    units(40)
}

/// How near a lost ball is tackled for.
#[verifier::when_used_as_spec(spec_tackle_range)]
pub fn tackle_range() -> (r: Scalar)
    ensures
        r == spec_tackle_range(),
{
    units(40)
}

pub open spec fn spec_channel_width() -> Scalar {
    units(15)
}

/// How wide a channel between two defenders has to be.
#[verifier::when_used_as_spec(spec_channel_width)]
pub fn channel_width() -> (r: Scalar)
    ensures
        r == spec_channel_width(),
{
    units(15)
}

/// The ways of running forward.
#[derive(Clone, Copy, PartialEq, Eq, Structural, Debug)]
pub enum AttackingRunType {
    /// Behind the line of the defenders.
    ThroughBall,
    /// Round the outside.
    OverlapRun,
    /// Late into the box.
    LateBoxRun,
    /// Into reach of a pass.
    SupportRun,
    /// Between the defenders.
    DiagonalRun,
}

/// A channel between two defenders.
#[derive(Clone, Copy, PartialEq, Eq, Structural, Debug)]
pub struct Channel {
    pub center_y: Scalar,
    pub width: Scalar,
    pub congestion: Scalar,
}

#[derive(Default, Clone, Copy)]
pub struct MidfielderAttackSupportingState {}

impl MidfielderAttackSupportingState {
    pub open spec fn spec_process(
        &self,
        ctx: &StateProcessingContext,
    ) -> Option<StateChangeResult> {
        if ctx.player.has_ball {
            Some(with_midfielder_state(MidfielderState::Running))
        } else if !ctx.team.control_ball {
            self.after_the_loss(ctx)
        } else if ctx.ball.is_towards_player_with_angle(milli(800))
            && ctx.ball.distance < units(100) {
            Some(with_midfielder_state(MidfielderState::Intercepting))
        } else if self.should_make_late_box_run(ctx) {
            None
        } else if ctx.ball.distance > units(300) {
            Some(with_midfielder_state(MidfielderState::CreatingSpace))
        } else if ctx.in_state_time > ATTACK_SUPPORT_TIME_LIMIT {
            if ctx.player.position_to_distance == PlayerDistanceFromStartPosition::Big {
                Some(with_midfielder_state(MidfielderState::Returning))
            } else {
                Some(with_midfielder_state(MidfielderState::Running))
            }
        } else {
            None
        }
    }

    /// The next state of a supporting midfielder.
    #[verifier::when_used_as_spec(spec_process)]
    pub fn process(&self, ctx: &StateProcessingContext) -> (r: Option<StateChangeResult>)
        ensures
            r == self.spec_process(ctx),
    {
        if ctx.player.has_ball {
            return Some(with_midfielder_state(MidfielderState::Running));
        }
        if !ctx.team.control_ball {
            return self.after_the_loss(ctx);
        }
        if ctx.ball.is_towards_player_with_angle(milli(800)) && ctx.ball.distance < units(100) {
            return Some(with_midfielder_state(MidfielderState::Intercepting));
        }
        if self.should_make_late_box_run(ctx) {
            return None;
        }
        if ctx.ball.distance > units(300) {
            return Some(with_midfielder_state(MidfielderState::CreatingSpace));
        }
        if ctx.in_state_time > ATTACK_SUPPORT_TIME_LIMIT {
            if ctx.player.position_to_distance == PlayerDistanceFromStartPosition::Big {
                return Some(with_midfielder_state(MidfielderState::Returning));
            } else {
                return Some(with_midfielder_state(MidfielderState::Running));
            }
        }
        None
    }

    pub open spec fn spec_after_the_loss(
        &self,
        ctx: &StateProcessingContext,
    ) -> Option<StateChangeResult> {
        if ctx.ball.distance < tackle_range() {
            Some(with_midfielder_state(MidfielderState::Tackling))
        } else if ctx.ball.distance < units(150) && ctx.team.best_player_to_chase_ball {
            Some(with_midfielder_state(MidfielderState::Pressing))
        } else if ctx.in_state_time < MIN_STAY_TIME {
            None
        } else if ctx.ball.on_own_side {
            if ctx.opponent_exists(units(100)) {
                Some(with_midfielder_state(MidfielderState::Guarding))
            } else {
                Some(with_midfielder_state(MidfielderState::Returning))
            }
        } else {
            Some(with_midfielder_state(MidfielderState::Running))
        }
    }

    /// The ball is lost: a tackle close by, a press of the best placed player, and after a while
    /// the way back.
    #[verifier::when_used_as_spec(spec_after_the_loss)]
    pub fn after_the_loss(&self, ctx: &StateProcessingContext) -> (r: Option<StateChangeResult>)
        ensures
            r == self.spec_after_the_loss(ctx),
    {
        if ctx.ball.distance < tackle_range() {
            return Some(with_midfielder_state(MidfielderState::Tackling));
        }
        if ctx.ball.distance < units(150) && ctx.team.best_player_to_chase_ball {
            return Some(with_midfielder_state(MidfielderState::Pressing));
        }
        if ctx.in_state_time < MIN_STAY_TIME {
            return None;
        }
        if ctx.ball.on_own_side {
            if ctx.opponent_exists(units(100)) {
                return Some(with_midfielder_state(MidfielderState::Guarding));
            } else {
                return Some(with_midfielder_state(MidfielderState::Returning));
            }
        }
        Some(with_midfielder_state(MidfielderState::Running))
    }

    pub open spec fn spec_velocity(
        &self,
        ctx: &StateProcessingContext,
        refined: Vec3,
    ) -> Option<Movement> {
        if ctx.player.has_ball {
            Some(self.calculate_ball_carrying_velocity(ctx))
        } else if ctx.owner_in_team().is_some() {
            Some(self.attacking_movement(ctx, refined))
        } else if self.pursues(ctx) {
            Some(pursue(ctx.ball.position, ctx.ball.velocity))
        } else {
            let target = self.calculate_optimal_support_position(ctx, refined);
            if (target - ctx.player.position).magnitude() < units(8) {
                Some(still())
            } else {
                Some(
                    arrive(
                        target,
                        units(30) * (units(1) - self.calculate_urgency_factor(ctx) * milli(500)),
                    ),
                )
            }
        }
    }

    /// Forward with the ball, on a run for a teammate who has it, after a loose ball, or in
    /// support. `refined` is the spot that comes of `proposed_target`, moved for the sake of
    /// spacing; it plays no part where there is none.
    #[verifier::when_used_as_spec(spec_velocity)]
    pub fn velocity(&self, ctx: &StateProcessingContext, refined: Vec3) -> (r: Option<Movement>)
        requires
            self.fits_pitch(ctx),
        ensures
            r == self.spec_velocity(ctx, refined),
    {
        if ctx.player.has_ball {
            return Some(self.calculate_ball_carrying_velocity(ctx));
        }
        if ctx.owner_in_team().is_some() {
            return Some(self.attacking_movement(ctx, refined));
        }
        if self.pursues(ctx) {
            return Some(pursue(ctx.ball.position, ctx.ball.velocity));
        }
        let target = self.calculate_optimal_support_position(ctx, refined);
        if (target - ctx.player.position).magnitude() < units(8) {
            return Some(still());
        }
        Some(
            arrive(
                target,
                units(30) * (units(1) - self.calculate_urgency_factor(ctx) * milli(500)),
            ),
        )
    }

    pub open spec fn spec_fits_pitch(&self, ctx: &StateProcessingContext) -> bool {
        let small = ctx.field_size.width >= 20 && ctx.field_size.height >= 20;
        if ctx.player.has_ball {
            !self.steps_aside(ctx) || small
        } else if ctx.owner_in_team().is_some() {
            !(self.recycles(ctx) || self.takes_central_slot(ctx)) || ctx.field_size.width >= 40
        } else {
            self.pursues(ctx) || !self.is_in_final_third(ctx) || small
        }
    }

    /// The pitch has room for the margins that the movement keeps: for those of the place at the
    /// edge or up front where a teammate has the ball, and for those of a step aside or a late
    /// run otherwise.
    #[verifier::when_used_as_spec(spec_fits_pitch)]
    pub fn fits_pitch(&self, ctx: &StateProcessingContext) -> (r: bool)
        ensures
            r == self.spec_fits_pitch(ctx),
    {
        let small = ctx.field_size.width >= 20 && ctx.field_size.height >= 20;
        if ctx.player.has_ball {
            !self.steps_aside(ctx) || small
        } else if ctx.owner_in_team().is_some() {
            !(self.recycles(ctx) || self.takes_central_slot(ctx)) || ctx.field_size.width >= 40
        } else {
            self.pursues(ctx) || !self.is_in_final_third(ctx) || small
        }
    }

    pub open spec fn spec_fits_proposal(&self, ctx: &StateProcessingContext) -> bool {
        let small = ctx.field_size.width >= 20 && ctx.field_size.height >= 20;
        if ctx.player.has_ball {
            true
        } else if ctx.owner_in_team().is_some() {
            if self.recycles(ctx) {
                true
            } else if self.takes_central_slot(ctx) && ctx.field_size.width < 40 {
                false
            } else {
                self.fills_a_slot(ctx) || small
            }
        } else {
            self.pursues(ctx) || self.is_in_final_third(ctx) || small
        }
    }

    /// The pitch has room for the margins of the proposed spot, where there is one.
    #[verifier::when_used_as_spec(spec_fits_proposal)]
    pub fn fits_proposal(&self, ctx: &StateProcessingContext) -> (r: bool)
        ensures
            r == self.spec_fits_proposal(ctx),
    {
        let small = ctx.field_size.width >= 20 && ctx.field_size.height >= 20;
        if ctx.player.has_ball {
            true
        } else if ctx.owner_in_team().is_some() {
            if self.recycles(ctx) {
                true
            } else if self.takes_central_slot(ctx) && ctx.field_size.width < 40 {
                false
            } else {
                self.fills_a_slot(ctx) || small
            }
        } else {
            self.pursues(ctx) || self.is_in_final_third(ctx) || small
        }
    }

    pub open spec fn spec_proposed_target(&self, ctx: &StateProcessingContext) -> Option<Vec3> {
        if ctx.player.has_ball {
            None
        } else if ctx.owner_in_team().is_some() {
            if self.recycles(ctx) || self.fills_a_slot(ctx) {
                None
            } else {
                Some(self.run_proposal(ctx))
            }
        } else if self.pursues(ctx) || self.is_in_final_third(ctx) {
            None
        } else {
            Some(self.support_proposal(ctx))
        }
    }

    /// The spot for which the midfielder asks to be spaced out from the teammates.
    #[verifier::when_used_as_spec(spec_proposed_target)]
    pub fn proposed_target(&self, ctx: &StateProcessingContext) -> (r: Option<Vec3>)
        requires
            self.fits_proposal(ctx),
        ensures
            r == self.spec_proposed_target(ctx),
    {
        if ctx.player.has_ball {
            return None;
        }
        if ctx.owner_in_team().is_some() {
            if self.recycles(ctx) || self.fills_a_slot(ctx) {
                return None;
            } else {
                return Some(self.run_proposal(ctx));
            }
        }
        if self.pursues(ctx) || self.is_in_final_third(ctx) {
            return None;
        }
        Some(self.support_proposal(ctx))
    }

    pub open spec fn spec_pursues(&self, ctx: &StateProcessingContext) -> bool {
        (!ctx.team.control_ball || !ctx.ball.is_owned) && ctx.team.best_player_to_chase_ball
        && ctx.ball.distance < units(100)
    }

    /// A loose ball or one that is lost, which the midfielder is best placed to get.
    #[verifier::when_used_as_spec(spec_pursues)]
    pub fn pursues(&self, ctx: &StateProcessingContext) -> (r: bool)
        ensures
            r == self.spec_pursues(ctx),
    {
        (!ctx.team.control_ball || !ctx.ball.is_owned) && ctx.team.best_player_to_chase_ball
        && ctx.ball.distance < units(100)
    }

    pub open spec fn spec_ball_to_goal(&self, ctx: &StateProcessingContext) -> Scalar {
        (ctx.ball.position - ctx.goal()).magnitude()
    }

    /// How far the ball is from the goal under attack.
    #[verifier::when_used_as_spec(spec_ball_to_goal)]
    pub fn ball_to_goal(&self, ctx: &StateProcessingContext) -> (r: Scalar)
        ensures
            r == self.spec_ball_to_goal(ctx),
    {
        (ctx.ball.position - ctx.goal()).magnitude()
    }

    pub open spec fn spec_is_in_final_third(&self, ctx: &StateProcessingContext) -> bool {
        self.ball_to_goal(ctx) < ctx.width() * milli(250)
    }

    #[verifier::when_used_as_spec(spec_is_in_final_third)]
    pub fn is_in_final_third(&self, ctx: &StateProcessingContext) -> (r: bool)
        ensures
            r == self.spec_is_in_final_third(ctx),
    {
        self.ball_to_goal(ctx) < ctx.width() * milli(250)
    }

    pub open spec fn spec_recycles(&self, ctx: &StateProcessingContext) -> bool {
        scan::count_where(
            ctx.teammates@,
            |t: MatchPlayerLite| (ctx.goal() - t.position).magnitude() < units(200),
        ) >= 3
    }

    /// Three or more teammates are near the goal already.
    #[verifier::when_used_as_spec(spec_recycles)]
    pub fn recycles(&self, ctx: &StateProcessingContext) -> (r: bool)
        ensures
            r == self.spec_recycles(ctx),
    {
        scan::count_if(
            &ctx.teammates,
            |t: MatchPlayerLite| -> (b: bool)
                ensures b == ((ctx.goal() - t.position).magnitude() < units(200))
            {
                (ctx.goal() - t.position).magnitude() < units(200)
            },
            Ghost(|t: MatchPlayerLite| (ctx.goal() - t.position).magnitude() < units(200)),
        ) >= 3
    }

    pub open spec fn spec_recycling_spot(&self, ctx: &StateProcessingContext) -> Vec3 {
        let center_y = ctx.height() / units(2);
        let left: usize = scan::count_where(
            ctx.teammates@,
            |t: MatchPlayerLite|
                (ctx.goal() - t.position).magnitude() < units(200) && t.position.y < center_y,
        );
        let right: usize = scan::count_where(
            ctx.teammates@,
            |t: MatchPlayerLite|
                (ctx.goal() - t.position).magnitude() < units(200) && t.position.y >= center_y,
        );
        let y = if left <= right {
            (center_y - units(110)).max(units(20))
        } else {
            (center_y + units(110)).min(ctx.height() - units(20))
        };
        flat(
            (
                ctx.goal().x - attacking_direction(ctx) * units(160)
            ).clamp(units(20), ctx.width() - units(20)),
            y,
        )
    }

    /// The wide spot at the edge of the attack, on the side with fewer teammates.
    #[verifier::when_used_as_spec(spec_recycling_spot)]
    pub fn recycling_spot(&self, ctx: &StateProcessingContext) -> (r: Vec3)
        requires
            ctx.field_size.width >= 40,
        ensures
            r == self.spec_recycling_spot(ctx),
    {
        let center_y = ctx.height() / units(2);
        let left: usize = scan::count_if(
            &ctx.teammates,
            |t: MatchPlayerLite| -> (b: bool)
                ensures b == (
                    (ctx.goal() - t.position).magnitude() < units(200) && t.position.y < center_y
                )
            {
                (ctx.goal() - t.position).magnitude() < units(200) && t.position.y < center_y
            },
            Ghost(
                |t: MatchPlayerLite|
                    (ctx.goal() - t.position).magnitude() < units(200) && t.position.y < center_y,
            ),
        );
        let right: usize = scan::count_if(
            &ctx.teammates,
            |t: MatchPlayerLite| -> (b: bool)
                ensures b == (
                    (ctx.goal() - t.position).magnitude() < units(200) && t.position.y >= center_y
                )
            {
                (ctx.goal() - t.position).magnitude() < units(200) && t.position.y >= center_y
            },
            Ghost(
                |t: MatchPlayerLite|
                    (ctx.goal() - t.position).magnitude() < units(200) && t.position.y >= center_y,
            ),
        );
        let y = if left <= right {
            (center_y - units(110)).max(units(20))
        } else {
            (center_y + units(110)).min(ctx.height() - units(20))
        };
        flat(
            (
                ctx.goal().x - attacking_direction(ctx) * units(160)
            ).clamp(units(20), ctx.width() - units(20)),
            y,
        )
    }

    pub open spec fn spec_forwards_in_all(&self, ctx: &StateProcessingContext) -> usize {
        scan::count_where(ctx.teammates@, |t: MatchPlayerLite| t.tactical_positions.is_forward())
    }

    /// How many forwards of the team there are.
    #[verifier::when_used_as_spec(spec_forwards_in_all)]
    pub fn forwards_in_all(&self, ctx: &StateProcessingContext) -> (r: usize)
        ensures
            r == self.spec_forwards_in_all(ctx),
    {
        scan::count_if(
            &ctx.teammates,
            |t: MatchPlayerLite| -> (b: bool)
                ensures b == (t.tactical_positions.is_forward())
            {
                t.tactical_positions.is_forward()
            },
            Ghost(|t: MatchPlayerLite| t.tactical_positions.is_forward()),
        )
    }

    pub open spec fn spec_forwards_near_goal(&self, ctx: &StateProcessingContext) -> usize {
        scan::count_where(
            ctx.teammates@,
            |t: MatchPlayerLite|
                t.tactical_positions.is_forward()
                    && (ctx.goal() - t.position).magnitude() < units(220),
        )
    }

    /// How many forwards of the team are near the goal.
    #[verifier::when_used_as_spec(spec_forwards_near_goal)]
    pub fn forwards_near_goal(&self, ctx: &StateProcessingContext) -> (r: usize)
        ensures
            r == self.spec_forwards_near_goal(ctx),
    {
        scan::count_if(
            &ctx.teammates,
            |t: MatchPlayerLite| -> (b: bool)
                ensures b == (
                    t.tactical_positions.is_forward()
                        && (ctx.goal() - t.position).magnitude() < units(220)
                )
            {
                t.tactical_positions.is_forward()
                    && (ctx.goal() - t.position).magnitude() < units(220)
            },
            Ghost(
                |t: MatchPlayerLite|
                    t.tactical_positions.is_forward()
                        && (ctx.goal() - t.position).magnitude() < units(220),
            ),
        )
    }

    pub open spec fn spec_has_closer_midfielder(&self, ctx: &StateProcessingContext) -> bool {
        scan::some_where(
            ctx.teammates@,
            |t: MatchPlayerLite|
                t.tactical_positions.is_midfielder() && t.id != ctx.player.id
                    && (ctx.goal() - t.position).magnitude() < (
                        ctx.goal() - ctx.player.position
                    ).magnitude() - units(15),
        )
    }

    /// Another midfielder is clearly nearer to the goal.
    #[verifier::when_used_as_spec(spec_has_closer_midfielder)]
    pub fn has_closer_midfielder(&self, ctx: &StateProcessingContext) -> (r: bool)
        ensures
            r == self.spec_has_closer_midfielder(ctx),
    {
        scan::any_of(
            &ctx.teammates,
            |t: MatchPlayerLite| -> (b: bool)
                ensures b == (
                    t.tactical_positions.is_midfielder() && t.id != ctx.player.id
                        && (ctx.goal() - t.position).magnitude() < (
                            ctx.goal() - ctx.player.position
                        ).magnitude() - units(15)
                )
            {
                t.tactical_positions.is_midfielder() && t.id != ctx.player.id
                    && (ctx.goal() - t.position).magnitude() < (
                        ctx.goal() - ctx.player.position
                    ).magnitude() - units(15)
            },
            Ghost(
                |t: MatchPlayerLite|
                    t.tactical_positions.is_midfielder() && t.id != ctx.player.id
                        && (ctx.goal() - t.position).magnitude() < (
                            ctx.goal() - ctx.player.position
                        ).magnitude() - units(15),
            ),
        )
    }

    pub open spec fn spec_has_open_slot(&self, ctx: &StateProcessingContext) -> bool {
        self.forwards_near_goal(ctx) < self.forwards_in_all(ctx)
            && !self.has_closer_midfielder(ctx)
    }

    /// A forward is missing from the attack, and the midfielder is the one to step in.
    #[verifier::when_used_as_spec(spec_has_open_slot)]
    pub fn has_open_slot(&self, ctx: &StateProcessingContext) -> (r: bool)
        ensures
            r == self.spec_has_open_slot(ctx),
    {
        self.forwards_near_goal(ctx) < self.forwards_in_all(ctx)
            && !self.has_closer_midfielder(ctx)
    }

    pub open spec fn spec_forward_up_front(
        &self,
        ctx: &StateProcessingContext,
    ) -> Option<MatchPlayerLite> {
        scan::first_where(
            ctx.teammates@,
            |t: MatchPlayerLite|
                t.tactical_positions.is_forward()
                    && (ctx.goal() - t.position).magnitude() < units(220),
        )
    }

    /// The first forward of the team who is near the goal.
    #[verifier::when_used_as_spec(spec_forward_up_front)]
    pub fn forward_up_front(&self, ctx: &StateProcessingContext) -> (r: Option<MatchPlayerLite>)
        ensures
            r == self.spec_forward_up_front(ctx),
    {
        scan::first_of(
            &ctx.teammates,
            |t: MatchPlayerLite| -> (b: bool)
                ensures b == (
                    t.tactical_positions.is_forward()
                        && (ctx.goal() - t.position).magnitude() < units(220)
                )
            {
                t.tactical_positions.is_forward()
                    && (ctx.goal() - t.position).magnitude() < units(220)
            },
            Ghost(
                |t: MatchPlayerLite|
                    t.tactical_positions.is_forward()
                        && (ctx.goal() - t.position).magnitude() < units(220),
            ),
        )
    }

    pub open spec fn spec_takes_central_slot(&self, ctx: &StateProcessingContext) -> bool {
        self.has_open_slot(ctx) && self.forward_up_front(ctx).is_none()
    }

    /// A forward is missing, and none is there: the central place is to be taken.
    #[verifier::when_used_as_spec(spec_takes_central_slot)]
    pub fn takes_central_slot(&self, ctx: &StateProcessingContext) -> (r: bool)
        ensures
            r == self.spec_takes_central_slot(ctx),
    {
        self.has_open_slot(ctx) && self.forward_up_front(ctx).is_none()
    }

    pub open spec fn spec_slot_spot(&self, ctx: &StateProcessingContext) -> Vec3 {
        let center_y = ctx.height() / units(2);
        match self.forward_up_front(ctx) {
            Some(forward) => {
                let y = if forward.position.y < center_y {
                    (center_y + units(100)).min(ctx.height() - units(20))
                } else {
                    (center_y - units(100)).max(units(20))
                };
                flat(forward.position.x, y)
            },
            None => flat(
                (
                    ctx.goal().x - attacking_direction(ctx) * units(120)
                ).clamp(units(20), ctx.width() - units(20)),
                center_y,
            ),
        }
    }

    /// The place of a missing forward: opposite the one who is there, or the central one.
    #[verifier::when_used_as_spec(spec_slot_spot)]
    pub fn slot_spot(&self, ctx: &StateProcessingContext) -> (r: Vec3)
        requires
            self.forward_up_front(ctx).is_none() ==> ctx.field_size.width >= 40,
        ensures
            r == self.spec_slot_spot(ctx),
    {
        let center_y = ctx.height() / units(2);
        match self.forward_up_front(ctx) {
            Some(forward) => {
                let y = if forward.position.y < center_y {
                    (center_y + units(100)).min(ctx.height() - units(20))
                } else {
                    (center_y - units(100)).max(units(20))
                };
                flat(forward.position.x, y)
            },
            None => flat(
                (
                    ctx.goal().x - attacking_direction(ctx) * units(120)
                ).clamp(units(20), ctx.width() - units(20)),
                center_y,
            ),
        }
    }

    pub open spec fn spec_fills_a_slot(&self, ctx: &StateProcessingContext) -> bool {
        self.has_open_slot(ctx)
            && (self.slot_spot(ctx) - ctx.player.position).magnitude() > units(8)
    }

    /// The midfielder is on the way to the place of a missing forward.
    #[verifier::when_used_as_spec(spec_fills_a_slot)]
    pub fn fills_a_slot(&self, ctx: &StateProcessingContext) -> (r: bool)
        requires
            self.takes_central_slot(ctx) ==> ctx.field_size.width >= 40,
        ensures
            r == self.spec_fills_a_slot(ctx),
    {
        self.has_open_slot(ctx)
            && (self.slot_spot(ctx) - ctx.player.position).magnitude() > units(8)
    }

    pub open spec fn spec_attacking_movement(
        &self,
        ctx: &StateProcessingContext,
        refined: Vec3,
    ) -> Movement {
        if self.recycles(ctx) {
            let spot = self.recycling_spot(ctx);
            if (spot - ctx.player.position).magnitude() > units(8) {
                arrive(spot, units(30))
            } else {
                still()
            }
        } else if self.fills_a_slot(ctx) {
            arrive(self.slot_spot(ctx), units(20))
        } else if (refined - ctx.player.position).magnitude() < units(8) {
            still()
        } else {
            arrive(
                refined,
                units(20) * (units(1) - self.calculate_urgency_factor(ctx) * milli(300)),
            )
        }
    }

    /// A teammate has the ball: to the edge of a crowded attack, to the place of a missing
    /// forward, or on a run.
    #[verifier::when_used_as_spec(spec_attacking_movement)]
    pub fn attacking_movement(&self, ctx: &StateProcessingContext, refined: Vec3) -> (r: Movement)
        requires
            self.recycles(ctx) || self.takes_central_slot(ctx) ==> ctx.field_size.width >= 40,
        ensures
            r == self.spec_attacking_movement(ctx, refined),
    {
        if self.recycles(ctx) {
            let spot = self.recycling_spot(ctx);
            if (spot - ctx.player.position).magnitude() > units(8) {
                return arrive(spot, units(30));
            } else {
                return still();
            }
        }
        if self.fills_a_slot(ctx) {
            return arrive(self.slot_spot(ctx), units(20));
        }
        if (refined - ctx.player.position).magnitude() < units(8) {
            return still();
        }
        arrive(refined, units(20) * (units(1) - self.calculate_urgency_factor(ctx) * milli(300)))
    }

    pub open spec fn spec_run_proposal(&self, ctx: &StateProcessingContext) -> Vec3 {
        let raw = self.calculate_attacking_run_position(ctx);
        clamp_to_field(
            ctx,
            flat(raw.x, raw.y * milli(400) + ctx.player.start_position.y * milli(600)),
        )
    }

    /// The spot of a run, drawn to the midfielder's own lane.
    #[verifier::when_used_as_spec(spec_run_proposal)]
    pub fn run_proposal(&self, ctx: &StateProcessingContext) -> (r: Vec3)
        requires
            ctx.field_size.width >= 20,
            ctx.field_size.height >= 20,
        ensures
            r == self.spec_run_proposal(ctx),
            units(10) <= r.x,
            r.x <= ctx.width() - units(10),
            units(10) <= r.y,
            r.y <= ctx.height() - units(10),
    {
        let raw = self.calculate_attacking_run_position(ctx);
        clamp_to_field(
            ctx,
            flat(raw.x, raw.y * milli(400) + ctx.player.start_position.y * milli(600)),
        )
    }

    pub open spec fn spec_process_conditions(&self) -> Exertion {
        exertion_with_velocity(ActivityIntensity::High)
    }

    /// The load of the state.
    #[verifier::when_used_as_spec(spec_process_conditions)]
    pub fn process_conditions(&self) -> (r: Exertion)
        ensures
            r == self.spec_process_conditions(),
    {
        exertion_with_velocity(ActivityIntensity::High)
    }

    pub open spec fn spec_calculate_attacking_run_position(
        &self,
        ctx: &StateProcessingContext,
    ) -> Vec3 {
        if self.ball_to_goal(ctx) < ctx.width() * milli(330)
            && self.should_make_attacking_run(ctx) {
            clamp_to_field(ctx, self.calculate_arriving_runner_target(ctx))
        } else {
            match self.determine_run_type(ctx, self.ball_to_goal(ctx)) {
                AttackingRunType::ThroughBall => clamp_to_field(ctx, self.through_ball_spot(ctx)),
                AttackingRunType::OverlapRun => clamp_to_field(ctx, self.overlap_spot(ctx)),
                AttackingRunType::LateBoxRun => clamp_to_field(
                    ctx,
                    self.find_box_entry_point(ctx, ctx.goal()),
                ),
                AttackingRunType::SupportRun => clamp_to_field(ctx, self.support_run_spot(ctx)),
                AttackingRunType::DiagonalRun => clamp_to_field(ctx, self.diagonal_spot(ctx)),
            }
        }
    }

    /// Where a run leads, by its kind.
    #[verifier::when_used_as_spec(spec_calculate_attacking_run_position)]
    pub fn calculate_attacking_run_position(&self, ctx: &StateProcessingContext) -> (r: Vec3)
        requires
            ctx.field_size.width >= 20,
            ctx.field_size.height >= 20,
        ensures
            r == self.spec_calculate_attacking_run_position(ctx),
            units(10) <= r.x,
            r.x <= ctx.width() - units(10),
            units(10) <= r.y,
            r.y <= ctx.height() - units(10),
    {
        if self.ball_to_goal(ctx) < ctx.width() * milli(330)
            && self.should_make_attacking_run(ctx) {
            return clamp_to_field(ctx, self.calculate_arriving_runner_target(ctx));
        }
        match self.determine_run_type(ctx, self.ball_to_goal(ctx)) {
            AttackingRunType::ThroughBall => clamp_to_field(ctx, self.through_ball_spot(ctx)),
            AttackingRunType::OverlapRun => clamp_to_field(ctx, self.overlap_spot(ctx)),
            AttackingRunType::LateBoxRun => clamp_to_field(
                ctx,
                self.find_box_entry_point(ctx, ctx.goal()),
            ),
            AttackingRunType::SupportRun => clamp_to_field(ctx, self.support_run_spot(ctx)),
            AttackingRunType::DiagonalRun => clamp_to_field(ctx, self.diagonal_spot(ctx)),
        }
    }

    pub open spec fn spec_is_on_left_half(&self, ctx: &StateProcessingContext, y: Scalar) -> bool {
        y < ctx.height() / units(2)
    }

    /// On the lower half of the pitch by the coordinate from touchline to touchline.
    #[verifier::when_used_as_spec(spec_is_on_left_half)]
    pub fn is_on_left_half(&self, ctx: &StateProcessingContext, y: Scalar) -> (r: bool)
        ensures
            r == self.spec_is_on_left_half(ctx, y),
    {
        y < ctx.height() / units(2)
    }

    pub open spec fn spec_through_ball_spot(&self, ctx: &StateProcessingContext) -> Vec3 {
        let spot = flat(
            ctx.goal().x - attacking_direction(ctx) * units(120),
            ctx.player.position.y + self.calculate_lateral_run_adjustment(ctx),
        );
        if self.is_offside_risk(ctx, spot) {
            flat(spot.x - attacking_direction(ctx) * units(20), spot.y)
        } else {
            spot
        }
    }

    /// Behind the line of the defenders, held back where that would be offside.
    #[verifier::when_used_as_spec(spec_through_ball_spot)]
    pub fn through_ball_spot(&self, ctx: &StateProcessingContext) -> (r: Vec3)
        ensures
            r == self.spec_through_ball_spot(ctx),
    {
        let spot = flat(
            ctx.goal().x - attacking_direction(ctx) * units(120),
            ctx.player.position.y + self.calculate_lateral_run_adjustment(ctx),
        );
        if self.is_offside_risk(ctx, spot) {
            flat(spot.x - attacking_direction(ctx) * units(20), spot.y)
        } else {
            spot
        }
    }

    pub open spec fn spec_overlap_spot(&self, ctx: &StateProcessingContext) -> Vec3 {
        let aside = if self.is_on_left_half(ctx, ctx.player.position.y) {
            (ctx.height() * milli(350)).negated()
        } else {
            ctx.height() * milli(350)
        };
        flat(
            ctx.ball.position.x + attacking_direction(ctx) * units(60),
            ctx.height() / units(2) + aside,
        )
    }

    /// Out on the flank, ahead of the ball.
    #[verifier::when_used_as_spec(spec_overlap_spot)]
    pub fn overlap_spot(&self, ctx: &StateProcessingContext) -> (r: Vec3)
        ensures
            r == self.spec_overlap_spot(ctx),
    {
        let aside = if self.is_on_left_half(ctx, ctx.player.position.y) {
            (ctx.height() * milli(350)).negated()
        } else {
            ctx.height() * milli(350)
        };
        flat(
            ctx.ball.position.x + attacking_direction(ctx) * units(60),
            ctx.height() / units(2) + aside,
        )
    }

    pub open spec fn spec_support_run_spot(&self, ctx: &StateProcessingContext) -> Vec3 {
        let aside = if ctx.player.position.y
            < ctx.ball.position.y { milli(500).negated() } else { milli(500) };
        ctx.ball.position + flat(
            units(40) * micro(866025) * attacking_direction(ctx),
            units(40) * aside,
        )
    }

    /// Ahead of the ball and a little aside, in reach of a pass.
    #[verifier::when_used_as_spec(spec_support_run_spot)]
    pub fn support_run_spot(&self, ctx: &StateProcessingContext) -> (r: Vec3)
        ensures
            r == self.spec_support_run_spot(ctx),
    {
        let aside = if ctx.player.position.y
            < ctx.ball.position.y { milli(500).negated() } else { milli(500) };
        ctx.ball.position + flat(
            units(40) * micro(866025) * attacking_direction(ctx),
            units(40) * aside,
        )
    }

    pub open spec fn spec_diagonal_spot(&self, ctx: &StateProcessingContext) -> Vec3 {
        let aside = if self.is_on_left_half(
            ctx,
            ctx.player.position.y,
        ) { units(40) } else { units(40).negated() };
        flat(
            ctx.ball.position.x + attacking_direction(ctx) * units(70),
            ctx.player.position.y + aside,
        )
    }

    /// Ahead of the ball, across towards the middle.
    #[verifier::when_used_as_spec(spec_diagonal_spot)]
    pub fn diagonal_spot(&self, ctx: &StateProcessingContext) -> (r: Vec3)
        ensures
            r == self.spec_diagonal_spot(ctx),
    {
        let aside = if self.is_on_left_half(
            ctx,
            ctx.player.position.y,
        ) { units(40) } else { units(40).negated() };
        flat(
            ctx.ball.position.x + attacking_direction(ctx) * units(70),
            ctx.player.position.y + aside,
        )
    }

    pub open spec fn spec_has_cover_behind(&self, ctx: &StateProcessingContext) -> bool {
        scan::some_where(
            ctx.teammates@,
            |t: MatchPlayerLite|
                (
                    t.tactical_positions.is_central_midfielder()
                        || t.tactical_positions.is_defender()
                )
                    && (ctx.goal() - t.position).magnitude() > (
                        ctx.goal() - ctx.player.position
                    ).magnitude() + units(8),
        )
    }

    /// A central midfielder or defender of the team is clearly further back.
    #[verifier::when_used_as_spec(spec_has_cover_behind)]
    pub fn has_cover_behind(&self, ctx: &StateProcessingContext) -> (r: bool)
        ensures
            r == self.spec_has_cover_behind(ctx),
    {
        scan::any_of(
            &ctx.teammates,
            |t: MatchPlayerLite| -> (b: bool)
                ensures b == (
                    (
                        t.tactical_positions.is_central_midfielder()
                            || t.tactical_positions.is_defender()
                    )
                        && (ctx.goal() - t.position).magnitude() > (
                            ctx.goal() - ctx.player.position
                        ).magnitude() + units(8)
                )
            {
                (
                    t.tactical_positions.is_central_midfielder()
                        || t.tactical_positions.is_defender()
                )
                    && (ctx.goal() - t.position).magnitude() > (
                        ctx.goal() - ctx.player.position
                    ).magnitude() + units(8)
            },
            Ghost(
                |t: MatchPlayerLite|
                    (
                        t.tactical_positions.is_central_midfielder()
                            || t.tactical_positions.is_defender()
                    )
                        && (ctx.goal() - t.position).magnitude() > (
                            ctx.goal() - ctx.player.position
                        ).magnitude() + units(8),
            ),
        )
    }

    pub open spec fn spec_drive_of(
        &self,
        ctx: &StateProcessingContext,
        t: MatchPlayerLite,
    ) -> Scalar {
        match ctx.by_id(t.id) {
            Some(known) => self.attacking_drive(known.skills),
            None => units(0),
        }
    }

    /// The drive of a teammate to get into the box.
    #[verifier::when_used_as_spec(spec_drive_of)]
    pub fn drive_of(&self, ctx: &StateProcessingContext, t: MatchPlayerLite) -> (r: Scalar)
        ensures
            r == self.spec_drive_of(ctx, t),
    {
        match ctx.by_id(t.id) {
            Some(known) => self.attacking_drive(known.skills),
            None => units(0),
        }
    }

    pub open spec fn spec_goes_before(
        &self,
        drive: Scalar,
        id: u32,
        other_drive: Scalar,
        other_id: u32,
    ) -> bool {
        drive > other_drive + milli(10)
            || ((drive - other_drive).abs() <= milli(10) && id < other_id)
    }

    /// A drive goes before another: it is clearly greater, or as great and of the lower number.
    #[verifier::when_used_as_spec(spec_goes_before)]
    pub fn goes_before(
        &self,
        drive: Scalar,
        id: u32,
        other_drive: Scalar,
        other_id: u32,
    ) -> (r: bool)
        ensures
            r == self.spec_goes_before(drive, id, other_drive, other_id),
    {
        drive > other_drive + milli(10)
            || ((drive - other_drive).abs() <= milli(10) && id < other_id)
    }

    pub open spec fn spec_should_make_attacking_run(&self, ctx: &StateProcessingContext) -> bool {
        ctx.player.tactical_position.is_central_midfielder() && self.has_cover_behind(ctx)
        && !scan::some_where(
            ctx.teammates@,
            |t: MatchPlayerLite|
                t.tactical_positions.is_central_midfielder()
                    && self.goes_before(
                        self.drive_of(ctx, t),
                        t.id,
                        self.attacking_drive(ctx.player.skills),
                        ctx.player.id,
                    ),
        )
    }

    /// A central midfielder with cover behind and the greatest drive of the central midfielders.
    #[verifier::when_used_as_spec(spec_should_make_attacking_run)]
    pub fn should_make_attacking_run(&self, ctx: &StateProcessingContext) -> (r: bool)
        ensures
            r == self.spec_should_make_attacking_run(ctx),
    {
        ctx.player.tactical_position.is_central_midfielder() && self.has_cover_behind(ctx)
        && !scan::any_of(
            &ctx.teammates,
            |t: MatchPlayerLite| -> (b: bool)
                ensures b == (
                    t.tactical_positions.is_central_midfielder()
                        && self.goes_before(
                            self.drive_of(ctx, t),
                            t.id,
                            self.attacking_drive(ctx.player.skills),
                            ctx.player.id,
                        )
                )
            {
                t.tactical_positions.is_central_midfielder()
                    && self.goes_before(
                        self.drive_of(ctx, t),
                        t.id,
                        self.attacking_drive(ctx.player.skills),
                        ctx.player.id,
                    )
            },
            Ghost(
                |t: MatchPlayerLite|
                    t.tactical_positions.is_central_midfielder()
                        && self.goes_before(
                            self.drive_of(ctx, t),
                            t.id,
                            self.attacking_drive(ctx.player.skills),
                            ctx.player.id,
                        ),
            ),
        )
    }

    pub open spec fn spec_attacking_drive(&self, skills: Skills) -> Scalar {
        skills.mental.off_the_ball * milli(420) + skills.mental.work_rate * milli(260)
        + (skills.technical.finishing + skills.technical.long_shots) * milli(500) * milli(320)
    }

    /// The drive to get into the box.
    #[verifier::when_used_as_spec(spec_attacking_drive)]
    pub fn attacking_drive(&self, skills: Skills) -> (r: Scalar)
        ensures
            r == self.spec_attacking_drive(skills),
    {
        skills.mental.off_the_ball * milli(420) + skills.mental.work_rate * milli(260)
        + (skills.technical.finishing + skills.technical.long_shots) * milli(500) * milli(320)
    }

    pub open spec fn spec_arrival_depth(&self, ctx: &StateProcessingContext) -> Scalar {
        units(40) + (
            (self.ball_to_goal(ctx) - units(55)) / (units(230) - units(55))
        ).clamp(units(0), units(1)) * units(42)
    }

    /// How far from the goal the runner arrives: nearer the further the ball has come.
    #[verifier::when_used_as_spec(spec_arrival_depth)]
    pub fn arrival_depth(&self, ctx: &StateProcessingContext) -> (r: Scalar)
        ensures
            r == self.spec_arrival_depth(ctx),
            units(40) <= r,
            r <= units(82),
    {
        proof {
            arrival_fits(*self, ctx);
        }
        units(40) + (
            (self.ball_to_goal(ctx) - units(55)) / (units(230) - units(55))
        ).clamp(units(0), units(1)) * units(42)
    }

    pub open spec fn spec_arrival_range(&self, ctx: &StateProcessingContext) -> Scalar {
        if self.ball_to_goal(ctx) <= units(55) {
            standard_shooting_distance()
        } else {
            max_shooting_distance()
        }
    }

    /// How far from the goal the arrival may be: within an ordinary shot when the ball is deep,
    /// else within the longest shot of a midfielder.
    #[verifier::when_used_as_spec(spec_arrival_range)]
    pub fn arrival_range(&self, ctx: &StateProcessingContext) -> (r: Scalar)
        ensures
            r == self.spec_arrival_range(ctx),
    {
        if self.ball_to_goal(ctx) <= units(55) {
            standard_shooting_distance()
        } else {
            max_shooting_distance()
        }
    }

    pub open spec fn spec_arrival_width(&self, ctx: &StateProcessingContext) -> Scalar {
        (
            self.arrival_range(ctx) * self.arrival_range(ctx)
                - self.arrival_depth(ctx) * self.arrival_depth(ctx)
        ).sqrt()
    }

    /// How far to the side of the goal the arrival may be at its depth without leaving its
    /// range.
    #[verifier::when_used_as_spec(spec_arrival_width)]
    pub fn arrival_width(&self, ctx: &StateProcessingContext) -> (r: Scalar)
        ensures
            r == self.spec_arrival_width(ctx),
    {
        (
            self.arrival_range(ctx) * self.arrival_range(ctx)
                - self.arrival_depth(ctx) * self.arrival_depth(ctx)
        ).sqrt()
    }

    pub open spec fn spec_arrival_spot(&self, ctx: &StateProcessingContext) -> Vec3 {
        let center_y = ctx.height() / units(2);
        let far_side = if ctx.ball.position.y < center_y { units(1) } else { units(1).negated() };
        let most = ctx.height() * milli(140);
        let drift = (
            center_y + far_side * ctx.height() * milli(70)
        ).clamp(center_y - most, center_y + most);
        flat(
            ctx.goal().x - attacking_direction(ctx) * self.arrival_depth(ctx),
            drift.clamp(
                ctx.goal().y - self.arrival_width(ctx),
                ctx.goal().y + self.arrival_width(ctx),
            ),
        )
    }

    /// In front of the goal, on the far side of the ball as far as the range allows.
    #[verifier::when_used_as_spec(spec_arrival_spot)]
    pub fn arrival_spot(&self, ctx: &StateProcessingContext) -> (r: Vec3)
        ensures
            r == self.spec_arrival_spot(ctx),
            ctx.goal().z == units(0) ==> r.distance_to(ctx.goal()) <= self.arrival_range(ctx),
    {
        proof {
            arrival_stays_in_range(*self, ctx);
        }
        let center_y = ctx.height() / units(2);
        let far_side = if ctx.ball.position.y < center_y { units(1) } else { units(1).negated() };
        let most = ctx.height() * milli(140);
        let drift = (
            center_y + far_side * ctx.height() * milli(70)
        ).clamp(center_y - most, center_y + most);
        flat(
            ctx.goal().x - attacking_direction(ctx) * self.arrival_depth(ctx),
            drift.clamp(
                ctx.goal().y - self.arrival_width(ctx),
                ctx.goal().y + self.arrival_width(ctx),
            ),
        )
    }

    /// The spot of the arrival, in front of a goal on the ground, is not offside.
    pub open spec fn arrives_onside(&self, ctx: &StateProcessingContext) -> bool {
        ctx.goal().z == units(0) && !self.is_offside_risk(ctx, self.arrival_spot(ctx))
    }

    pub open spec fn spec_calculate_arriving_runner_target(
        &self,
        ctx: &StateProcessingContext,
    ) -> Vec3 {
        let spot = self.arrival_spot(ctx);
        if self.is_offside_risk(ctx, spot) {
            flat(self.onside_x(ctx, spot.x - attacking_direction(ctx) * units(18)), spot.y)
        } else {
            spot
        }
    }

    /// The spot of the arrival, held back behind the last outfield opponent where that would be
    /// offside. Onside it is within an ordinary shot with the ball deep, else within the longest
    /// shot of a midfielder.
    #[verifier::when_used_as_spec(spec_calculate_arriving_runner_target)]
    pub fn calculate_arriving_runner_target(&self, ctx: &StateProcessingContext) -> (r: Vec3)
        ensures
            r == self.spec_calculate_arriving_runner_target(ctx),
            !self.is_offside_risk(ctx, r),
            self.arrives_onside(ctx)
                && self.ball_to_goal(ctx) <= units(55) ==> (r - ctx.goal()).magnitude()
                    <= standard_shooting_distance(),
            self.arrives_onside(ctx) ==> (r - ctx.goal()).magnitude() <= max_shooting_distance(),
    {
        let spot = self.arrival_spot(ctx);
        if self.is_offside_risk(ctx, spot) {
            flat(self.onside_x(ctx, spot.x - attacking_direction(ctx) * units(18)), spot.y)
        } else {
            spot
        }
    }

    pub open spec fn spec_onside_x(&self, ctx: &StateProcessingContext, x: Scalar) -> Scalar {
        match self.last_opponent(ctx) {
            Some(last) => match ctx.player.side {
                Some(PlayerSide::Left) => x.min(last.position.x),
                Some(PlayerSide::Right) => x.max(last.position.x),
                None => x,
            },
            None => x,
        }
    }

    /// A place along the pitch, no further up than the last outfield opponent.
    #[verifier::when_used_as_spec(spec_onside_x)]
    pub fn onside_x(&self, ctx: &StateProcessingContext, x: Scalar) -> (r: Scalar)
        ensures
            r == self.spec_onside_x(ctx, x),
    {
        match self.last_opponent(ctx) {
            Some(last) => match ctx.player.side {
                Some(PlayerSide::Left) => x.min(last.position.x),
                Some(PlayerSide::Right) => x.max(last.position.x),
                None => x,
            },
            None => x,
        }
    }

    pub open spec fn spec_determine_run_type(
        &self,
        ctx: &StateProcessingContext,
        distance_to_goal: Scalar,
    ) -> AttackingRunType {
        let pace = ctx.player.skills.physical.pace;
        let off_the_ball = ctx.player.skills.mental.off_the_ball;
        if distance_to_goal < ctx.width() * milli(250) {
            if off_the_ball > units(14) && pace > units(14) {
                AttackingRunType::ThroughBall
            } else if ctx.player.skills.mental.anticipation > units(13) {
                AttackingRunType::LateBoxRun
            } else {
                AttackingRunType::SupportRun
            }
        } else if distance_to_goal < ctx.width() * milli(500) {
            if self.check_wide_space(ctx) && pace > units(13) {
                AttackingRunType::OverlapRun
            } else if off_the_ball > units(12) {
                AttackingRunType::DiagonalRun
            } else {
                AttackingRunType::SupportRun
            }
        } else {
            AttackingRunType::SupportRun
        }
    }

    /// The kind of a run, by the distance of the ball from the goal and the skills.
    #[verifier::when_used_as_spec(spec_determine_run_type)]
    pub fn determine_run_type(
        &self,
        ctx: &StateProcessingContext,
        distance_to_goal: Scalar,
    ) -> (r: AttackingRunType)
        ensures
            r == self.spec_determine_run_type(ctx, distance_to_goal),
    {
        let pace = ctx.player.skills.physical.pace;
        let off_the_ball = ctx.player.skills.mental.off_the_ball;
        if distance_to_goal < ctx.width() * milli(250) {
            if off_the_ball > units(14) && pace > units(14) {
                AttackingRunType::ThroughBall
            } else if ctx.player.skills.mental.anticipation > units(13) {
                AttackingRunType::LateBoxRun
            } else {
                AttackingRunType::SupportRun
            }
        } else if distance_to_goal < ctx.width() * milli(500) {
            if self.check_wide_space(ctx) && pace > units(13) {
                AttackingRunType::OverlapRun
            } else if off_the_ball > units(12) {
                AttackingRunType::DiagonalRun
            } else {
                AttackingRunType::SupportRun
            }
        } else {
            AttackingRunType::SupportRun
        }
    }

    pub open spec fn spec_calculate_lateral_run_adjustment(
        &self,
        ctx: &StateProcessingContext,
    ) -> Scalar {
        let center_y = ctx.height() / units(2);
        let left_half = self.is_on_left_half(ctx, ctx.player.position.y);
        if scan::count_where(
            ctx.opponents@,
            |o: MatchPlayerLite|
                o.distance <= units(200) && o.tactical_positions.is_defender()
                    && (o.position.y - center_y).abs() < ctx.height() * milli(200),
        ) >= 2 {
            if left_half {
                units(30).negated()
            } else {
                units(30)
            }
        } else if (ctx.player.position.y - center_y).abs() > ctx.height() * milli(250) {
            if left_half {
                units(20)
            } else {
                units(20).negated()
            }
        } else {
            units(0)
        }
    }

    /// How far aside a run goes: outwards where the defenders crowd the middle, else inwards
    /// from the flank.
    #[verifier::when_used_as_spec(spec_calculate_lateral_run_adjustment)]
    pub fn calculate_lateral_run_adjustment(&self, ctx: &StateProcessingContext) -> (r: Scalar)
        ensures
            r == self.spec_calculate_lateral_run_adjustment(ctx),
    {
        let center_y = ctx.height() / units(2);
        let left_half = self.is_on_left_half(ctx, ctx.player.position.y);
        if scan::count_if(
            &ctx.opponents,
            |o: MatchPlayerLite| -> (b: bool)
                ensures b == (
                    o.distance <= units(200) && o.tactical_positions.is_defender()
                        && (o.position.y - center_y).abs() < ctx.height() * milli(200)
                )
            {
                o.distance <= units(200) && o.tactical_positions.is_defender()
                    && (o.position.y - center_y).abs() < ctx.height() * milli(200)
            },
            Ghost(
                |o: MatchPlayerLite|
                    o.distance <= units(200) && o.tactical_positions.is_defender()
                        && (o.position.y - center_y).abs() < ctx.height() * milli(200),
            ),
        ) >= 2 {
            if left_half { units(30).negated() } else { units(30) }
        } else if (ctx.player.position.y - center_y).abs() > ctx.height() * milli(250) {
            if left_half { units(20) } else { units(20).negated() }
        } else {
            units(0)
        }
    }

    /// The defenders near a goal, as they come.
    pub open spec fn box_defenders(
        &self,
        ctx: &StateProcessingContext,
        goal: Vec3,
    ) -> Seq<MatchPlayerLite> {
        ctx.opponents@.filter(
            |o: MatchPlayerLite|
                (o.position - goal).magnitude() < units(200) && o.tactical_positions.is_defender(),
        )
    }

    pub open spec fn spec_find_box_entry_point(
        &self,
        ctx: &StateProcessingContext,
        goal: Vec3,
    ) -> Vec3 {
        let defenders = self.box_defenders(ctx, goal);
        if defenders.len() == 0 {
            flat(goal.x - units(100), goal.y)
        } else {
            let widest = scan::first_greatest_where(
                crate::gaps::neighbours_in(defenders),
                |n: Neighbours| n.lateral_gap() > units(0),
                |n: Neighbours| n.lateral_gap(),
            );
            flat(
                goal.x - units(150),
                self.entry_y(ctx, goal, widest, defenders[0], defenders[defenders.len() - 1]),
            )
        }
    }

    /// In front of a goal, in the widest gap between two defenders who come one after the other,
    /// or past the first or the last of them.
    #[verifier::when_used_as_spec(spec_find_box_entry_point)]
    pub fn find_box_entry_point(&self, ctx: &StateProcessingContext, goal: Vec3) -> (r: Vec3)
        ensures
            r == self.spec_find_box_entry_point(ctx, goal),
    {
        let defenders = scan::select(
            &ctx.opponents,
            |o: MatchPlayerLite| -> (b: bool)
                ensures b == (
                    (o.position - goal).magnitude() < units(200)
                        && o.tactical_positions.is_defender()
                )
            {
                (o.position - goal).magnitude() < units(200) && o.tactical_positions.is_defender()
            },
            Ghost(
                |o: MatchPlayerLite|
                    (o.position - goal).magnitude() < units(200)
                        && o.tactical_positions.is_defender(),
            ),
        );
        assert(defenders@ == self.box_defenders(ctx, goal));
        if defenders.len() == 0 {
            return flat(goal.x - units(100), goal.y);
        }
        let pairs = neighbours_of(&defenders);
        let widest = scan::first_greatest_of(
            &pairs,
            |n: Neighbours| -> (b: bool)
                ensures b == (n.lateral_gap() > units(0))
            {
                n.lateral_gap() > units(0)
            },
            |n: Neighbours| -> (b: Scalar)
                ensures b == (n.lateral_gap())
            {
                n.lateral_gap()
            },
            Ghost(|n: Neighbours| n.lateral_gap() > units(0)),
            Ghost(|n: Neighbours| n.lateral_gap()),
        );
        flat(
            goal.x - units(150),
            self.entry_y(ctx, goal, widest, defenders[0], defenders[defenders.len() - 1]),
        )
    }

    pub open spec fn spec_entry_y(
        &self,
        ctx: &StateProcessingContext,
        goal: Vec3,
        widest: Option<Neighbours>,
        first: MatchPlayerLite,
        last: MatchPlayerLite,
    ) -> Scalar {
        let width = match widest {
            Some(n) => n.lateral_gap(),
            None => units(0),
        };
        if ctx.height() * milli(350) - first.position.y > width {
            goal.y - units(80)
        } else if ctx.height() * milli(650) - last.position.y > width {
            goal.y + units(80)
        } else {
            match widest {
                Some(n) => n.lateral_center(),
                None => goal.y,
            }
        }
    }

    /// How far aside the box is entered, given the widest gap and the outermost defenders.
    #[verifier::when_used_as_spec(spec_entry_y)]
    pub fn entry_y(
        &self,
        ctx: &StateProcessingContext,
        goal: Vec3,
        widest: Option<Neighbours>,
        first: MatchPlayerLite,
        last: MatchPlayerLite,
    ) -> (r: Scalar)
        ensures
            r == self.spec_entry_y(ctx, goal, widest, first, last),
    {
        let width = match widest {
            Some(n) => n.lateral_gap(),
            None => units(0),
        };
        if ctx.height() * milli(350) - first.position.y > width {
            goal.y - units(80)
        } else if ctx.height() * milli(650) - last.position.y > width {
            goal.y + units(80)
        } else {
            match widest {
                Some(n) => n.lateral_center(),
                None => goal.y,
            }
        }
    }

    pub open spec fn spec_check_wide_space(&self, ctx: &StateProcessingContext) -> bool {
        let flank_y = if self.is_on_left_half(ctx, ctx.player.position.y) {
            ctx.height() * milli(150)
        } else {
            ctx.height() * milli(850)
        };
        scan::count_where(
            ctx.opponents@,
            |o: MatchPlayerLite|
                o.distance <= units(200) && (o.position.y - flank_y).abs() < units(30),
        ) < 2
    }

    /// There are hardly any opponents on the midfielder's flank.
    #[verifier::when_used_as_spec(spec_check_wide_space)]
    pub fn check_wide_space(&self, ctx: &StateProcessingContext) -> (r: bool)
        ensures
            r == self.spec_check_wide_space(ctx),
    {
        let flank_y = if self.is_on_left_half(ctx, ctx.player.position.y) {
            ctx.height() * milli(150)
        } else {
            ctx.height() * milli(850)
        };
        scan::count_if(
            &ctx.opponents,
            |o: MatchPlayerLite| -> (b: bool)
                ensures b == (
                    o.distance <= units(200) && (o.position.y - flank_y).abs() < units(30)
                )
            {
                o.distance <= units(200) && (o.position.y - flank_y).abs() < units(30)
            },
            Ghost(
                |o: MatchPlayerLite|
                    o.distance <= units(200) && (o.position.y - flank_y).abs() < units(30),
            ),
        ) < 2
    }

    pub open spec fn spec_calculate_ball_carrying_velocity(
        &self,
        ctx: &StateProcessingContext,
    ) -> Movement {
        match self.escape(ctx) {
            Some(way_out) => way_out,
            None => self.drive_forward(ctx),
        }
    }

    /// With the ball: to face the goal or away from an opponent under pressure, else forward or
    /// round what blocks the way.
    #[verifier::when_used_as_spec(spec_calculate_ball_carrying_velocity)]
    pub fn calculate_ball_carrying_velocity(&self, ctx: &StateProcessingContext) -> (r: Movement)
        requires
            self.steps_aside(ctx) ==> ctx.field_size.width >= 20 && ctx.field_size.height >= 20,
        ensures
            r == self.spec_calculate_ball_carrying_velocity(ctx),
    {
        match self.escape(ctx) {
            Some(way_out) => way_out,
            None => self.drive_forward(ctx),
        }
    }

    pub open spec fn spec_escape(&self, ctx: &StateProcessingContext) -> Option<Movement> {
        if !ctx.player.under_immediate_pressure {
            None
        } else if ctx.player.clear_shot && ctx.ball.distance_to_opponent_goal < units(250) {
            Some(glide_along(ctx.to_goal().direction(), units(2)))
        } else {
            match scan::first_where(ctx.opponents@, |o: MatchPlayerLite| o.distance <= units(15)) {
                Some(opponent) => Some(
                    glide_along((ctx.player.position - opponent.position).direction(), units(3)),
                ),
                None => None,
            }
        }
    }

    /// Under pressure: at the goal with a clear shot in range, else away from the opponent.
    #[verifier::when_used_as_spec(spec_escape)]
    pub fn escape(&self, ctx: &StateProcessingContext) -> (r: Option<Movement>)
        ensures
            r == self.spec_escape(ctx),
    {
        if !ctx.player.under_immediate_pressure {
            return None;
        }
        if ctx.player.clear_shot && ctx.ball.distance_to_opponent_goal < units(250) {
            return Some(glide_along(ctx.to_goal().direction(), units(2)));
        }
        match scan::first_of(
            &ctx.opponents,
            |o: MatchPlayerLite| -> (b: bool)
                ensures b == (o.distance <= units(15))
            {
                o.distance <= units(15)
            },
            Ghost(|o: MatchPlayerLite| o.distance <= units(15)),
        ) {
            Some(opponent) => Some(
                glide_along((ctx.player.position - opponent.position).direction(), units(3)),
            ),
            None => None,
        }
    }

    pub open spec fn spec_is_way_blocked(&self, ctx: &StateProcessingContext) -> bool {
        let p = ctx.player.position;
        ctx.opponents_around(flat(p.x + attacking_direction(ctx) * units(40), p.y), units(20)) != 0
    }

    /// An opponent stands in the space ahead.
    #[verifier::when_used_as_spec(spec_is_way_blocked)]
    pub fn is_way_blocked(&self, ctx: &StateProcessingContext) -> (r: bool)
        ensures
            r == self.spec_is_way_blocked(ctx),
    {
        let p = ctx.player.position;
        ctx.opponents_around(flat(p.x + attacking_direction(ctx) * units(40), p.y), units(20)) != 0
    }

    pub open spec fn spec_steps_aside(&self, ctx: &StateProcessingContext) -> bool {
        self.escape(ctx).is_none() && self.is_way_blocked(ctx)
    }

    /// With the ball, not out of pressure but round what blocks the way.
    #[verifier::when_used_as_spec(spec_steps_aside)]
    pub fn steps_aside(&self, ctx: &StateProcessingContext) -> (r: bool)
        ensures
            r == self.spec_steps_aside(ctx),
    {
        self.escape(ctx).is_none() && self.is_way_blocked(ctx)
    }

    pub open spec fn spec_drive_at_goal(&self, ctx: &StateProcessingContext) -> Movement {
        if ctx.player.max_speed == units(0) {
            glide_if_any(None)
        } else {
            seek(ctx.goal()).scaled(
                ctx.player.skills.physical.pace * milli(350) / ctx.player.max_speed,
            )
        }
    }

    /// At the goal, at a share of the top speed; the share is not a number where that is zero.
    #[verifier::when_used_as_spec(spec_drive_at_goal)]
    pub fn drive_at_goal(&self, ctx: &StateProcessingContext) -> (r: Movement)
        ensures
            r == self.spec_drive_at_goal(ctx),
    {
        if ctx.player.max_speed == units(0) {
            glide_if_any(None)
        } else {
            seek(ctx.goal()).scaled(
                ctx.player.skills.physical.pace * milli(350) / ctx.player.max_speed,
            )
        }
    }

    pub open spec fn spec_drive_forward(&self, ctx: &StateProcessingContext) -> Movement {
        let p = ctx.player.position;
        if !self.is_way_blocked(ctx) {
            self.drive_at_goal(ctx)
        } else {
            let y = if self.is_on_left_half(ctx, p.y) { p.y + units(30) } else { p.y - units(30) };
            arrive(
                clamp_to_field(ctx, flat(p.x + attacking_direction(ctx) * units(20), y)),
                units(10),
            )
        }
    }

    /// At the goal where the way is free, else aside.
    #[verifier::when_used_as_spec(spec_drive_forward)]
    pub fn drive_forward(&self, ctx: &StateProcessingContext) -> (r: Movement)
        requires
            self.is_way_blocked(ctx) ==> ctx.field_size.width >= 20 && ctx.field_size.height >= 20,
        ensures
            r == self.spec_drive_forward(ctx),
    {
        let p = ctx.player.position;
        if !self.is_way_blocked(ctx) {
            return self.drive_at_goal(ctx);
        }
        let y = if self.is_on_left_half(ctx, p.y) { p.y + units(30) } else { p.y - units(30) };
        arrive(clamp_to_field(ctx, flat(p.x + attacking_direction(ctx) * units(20), y)), units(10))
    }

    pub open spec fn spec_calculate_optimal_support_position(
        &self,
        ctx: &StateProcessingContext,
        refined: Vec3,
    ) -> Vec3 {
        if self.is_in_final_third(ctx) {
            self.calculate_late_box_run_position(ctx)
        } else {
            refined
        }
    }

    /// Where to support an attack: in the final third on a late run, else spaced out.
    #[verifier::when_used_as_spec(spec_calculate_optimal_support_position)]
    pub fn calculate_optimal_support_position(
        &self,
        ctx: &StateProcessingContext,
        refined: Vec3,
    ) -> (r: Vec3)
        requires
            self.is_in_final_third(ctx) ==> ctx.field_size.width >= 20
                && ctx.field_size.height >= 20,
        ensures
            r == self.spec_calculate_optimal_support_position(ctx, refined),
    {
        if self.is_in_final_third(ctx) {
            self.calculate_late_box_run_position(ctx)
        } else {
            refined
        }
    }

    pub open spec fn spec_support_proposal(&self, ctx: &StateProcessingContext) -> Vec3 {
        if self.ball_to_goal(ctx) < ctx.width() * milli(500) {
            self.calculate_middle_third_support(ctx)
        } else {
            self.calculate_buildup_support_position(ctx)
        }
    }

    /// The spot of support before it is spaced out: in the middle of the pitch or at the start
    /// of an attack.
    #[verifier::when_used_as_spec(spec_support_proposal)]
    pub fn support_proposal(&self, ctx: &StateProcessingContext) -> (r: Vec3)
        requires
            ctx.field_size.width >= 20,
            ctx.field_size.height >= 20,
        ensures
            r == self.spec_support_proposal(ctx),
            units(10) <= r.x,
            r.x <= ctx.width() - units(10),
            units(10) <= r.y,
            r.y <= ctx.height() - units(10),
    {
        if self.ball_to_goal(ctx) < ctx.width() * milli(500) {
            self.calculate_middle_third_support(ctx)
        } else {
            self.calculate_buildup_support_position(ctx)
        }
    }

    pub open spec fn spec_calculate_late_box_run_position(
        &self,
        ctx: &StateProcessingContext,
    ) -> Vec3 {
        let spot = match self.best_channel(ctx) {
            Some(channel) => self.channel_spot(ctx, channel),
            None => self.box_edge_spot(ctx),
        };
        self.apply_teammate_spacing(ctx, clamp_to_field(ctx, spot))
    }

    /// A late run into the least crowded channel, onside, or the edge of the box.
    #[verifier::when_used_as_spec(spec_calculate_late_box_run_position)]
    pub fn calculate_late_box_run_position(&self, ctx: &StateProcessingContext) -> (r: Vec3)
        requires
            ctx.field_size.width >= 20,
            ctx.field_size.height >= 20,
        ensures
            r == self.spec_calculate_late_box_run_position(ctx),
            units(10) <= r.x,
            r.x <= ctx.width() - units(10),
            units(10) <= r.y,
            r.y <= ctx.height() - units(10),
    {
        let spot = match self.best_channel(ctx) {
            Some(channel) => self.channel_spot(ctx, channel),
            None => self.box_edge_spot(ctx),
        };
        self.apply_teammate_spacing(ctx, clamp_to_field(ctx, spot))
    }

    pub open spec fn spec_channel_spot(
        &self,
        ctx: &StateProcessingContext,
        channel: Channel,
    ) -> Vec3 {
        let x = ctx.goal().x - attacking_direction(ctx) * units(95);
        let curve = if self.is_offside_risk(ctx, flat(x, channel.center_y)) {
            units(20).negated() * attacking_direction(ctx)
        } else {
            units(0)
        };
        flat(x + curve, channel.center_y)
    }

    /// The end of a run through a channel, held back where that would be offside.
    #[verifier::when_used_as_spec(spec_channel_spot)]
    pub fn channel_spot(&self, ctx: &StateProcessingContext, channel: Channel) -> (r: Vec3)
        ensures
            r == self.spec_channel_spot(ctx, channel),
    {
        let x = ctx.goal().x - attacking_direction(ctx) * units(95);
        let curve = if self.is_offside_risk(ctx, flat(x, channel.center_y)) {
            units(20).negated() * attacking_direction(ctx)
        } else {
            units(0)
        };
        flat(x + curve, channel.center_y)
    }

    pub open spec fn spec_box_edge_spot(&self, ctx: &StateProcessingContext) -> Vec3 {
        let y = if self.is_on_left_half(ctx, ctx.player.position.y) {
            ctx.goal().y - units(100)
        } else {
            ctx.goal().y + units(100)
        };
        flat(ctx.goal().x - attacking_direction(ctx) * units(180), y)
    }

    /// The edge of the box, on the midfielder's side.
    #[verifier::when_used_as_spec(spec_box_edge_spot)]
    pub fn box_edge_spot(&self, ctx: &StateProcessingContext) -> (r: Vec3)
        ensures
            r == self.spec_box_edge_spot(ctx),
    {
        let y = if self.is_on_left_half(ctx, ctx.player.position.y) {
            ctx.goal().y - units(100)
        } else {
            ctx.goal().y + units(100)
        };
        flat(ctx.goal().x - attacking_direction(ctx) * units(180), y)
    }

    pub open spec fn spec_calculate_middle_third_support(
        &self,
        ctx: &StateProcessingContext,
    ) -> Vec3 {
        match self.valuable_triangle(ctx) {
            Some(corner) => self.apply_teammate_spacing(ctx, clamp_to_field(ctx, corner)),
            None => if self.is_center_congested(ctx) {
                self.apply_teammate_spacing(
                    ctx,
                    clamp_to_field(ctx, self.calculate_wide_support(ctx)),
                )
            } else {
                self.apply_teammate_spacing(
                    ctx,
                    clamp_to_field(ctx, self.position_between_lines(ctx)),
                )
            },
        }
    }

    /// In a triangle with the ball and the attack where that is worth it, else wide where the
    /// middle is crowded, else between the lines.
    #[verifier::when_used_as_spec(spec_calculate_middle_third_support)]
    pub fn calculate_middle_third_support(&self, ctx: &StateProcessingContext) -> (r: Vec3)
        requires
            ctx.field_size.width >= 20,
            ctx.field_size.height >= 20,
        ensures
            r == self.spec_calculate_middle_third_support(ctx),
            units(10) <= r.x,
            r.x <= ctx.width() - units(10),
            units(10) <= r.y,
            r.y <= ctx.height() - units(10),
    {
        match self.valuable_triangle(ctx) {
            Some(corner) => self.apply_teammate_spacing(ctx, clamp_to_field(ctx, corner)),
            None => if self.is_center_congested(ctx) {
                self.apply_teammate_spacing(
                    ctx,
                    clamp_to_field(ctx, self.calculate_wide_support(ctx)),
                )
            } else {
                self.apply_teammate_spacing(
                    ctx,
                    clamp_to_field(ctx, self.position_between_lines(ctx)),
                )
            },
        }
    }

    pub open spec fn spec_valuable_triangle(&self, ctx: &StateProcessingContext) -> Option<Vec3> {
        match self.find_ball_holder(ctx) {
            Some(holder) => if self.is_position_valuable(
                ctx,
                self.create_passing_triangle(ctx, holder),
            ) {
                Some(self.create_passing_triangle(ctx, holder))
            } else {
                None
            },
            None => None,
        }
    }

    /// The corner of a passing triangle with the teammate on the ball, where it is of value.
    #[verifier::when_used_as_spec(spec_valuable_triangle)]
    pub fn valuable_triangle(&self, ctx: &StateProcessingContext) -> (r: Option<Vec3>)
        ensures
            r == self.spec_valuable_triangle(ctx),
    {
        match self.find_ball_holder(ctx) {
            Some(holder) => if self.is_position_valuable(
                ctx,
                self.create_passing_triangle(ctx, holder),
            ) {
                Some(self.create_passing_triangle(ctx, holder))
            } else {
                None
            },
            None => None,
        }
    }

    pub open spec fn spec_calculate_buildup_support_position(
        &self,
        ctx: &StateProcessingContext,
    ) -> Vec3 {
        let spot = flat(
            ctx.ball.position.x + attacking_direction(ctx) * units(80),
            ctx.ball.position.y + self.calculate_lateral_movement(ctx),
        );
        clamp_to_field(ctx, self.apply_teammate_spacing(ctx, spot))
    }

    /// Ahead of the ball, away from the crowd.
    #[verifier::when_used_as_spec(spec_calculate_buildup_support_position)]
    pub fn calculate_buildup_support_position(&self, ctx: &StateProcessingContext) -> (r: Vec3)
        requires
            ctx.field_size.width >= 20,
            ctx.field_size.height >= 20,
        ensures
            r == self.spec_calculate_buildup_support_position(ctx),
            units(10) <= r.x,
            r.x <= ctx.width() - units(10),
            units(10) <= r.y,
            r.y <= ctx.height() - units(10),
    {
        let spot = flat(
            ctx.ball.position.x + attacking_direction(ctx) * units(80),
            ctx.ball.position.y + self.calculate_lateral_movement(ctx),
        );
        clamp_to_field(ctx, self.apply_teammate_spacing(ctx, spot))
    }

    pub open spec fn spec_channel_between(
        &self,
        ctx: &StateProcessingContext,
        n: Neighbours,
    ) -> Channel {
        Channel {
            center_y: n.lateral_center(),
            width: n.lateral_gap(),
            congestion: self.calculate_channel_congestion(
                ctx,
                n.first.position,
                n.second.position,
            ),
        }
    }

    /// The channel between two defenders.
    #[verifier::when_used_as_spec(spec_channel_between)]
    pub fn channel_between(&self, ctx: &StateProcessingContext, n: Neighbours) -> (r: Channel)
        ensures
            r == self.spec_channel_between(ctx, n),
    {
        Channel {
            center_y: n.lateral_center(),
            width: n.lateral_gap(),
            congestion: self.calculate_channel_congestion(
                ctx,
                n.first.position,
                n.second.position,
            ),
        }
    }

    /// The defenders of the opponents, from touchline to touchline.
    pub open spec fn defenders_across(
        &self,
        ctx: &StateProcessingContext,
    ) -> Seq<MatchPlayerLite> {
        scan::ranked(
            ctx.opponents@.filter(|o: MatchPlayerLite| o.tactical_positions.is_defender()),
            |o: MatchPlayerLite| o.position.y,
        )
    }

    /// The channels that are wide enough, from touchline to touchline.
    pub open spec fn channels_across(&self, ctx: &StateProcessingContext) -> Seq<Channel> {
        crate::gaps::neighbours_in(self.defenders_across(ctx)).filter(
            |n: Neighbours| n.lateral_gap() > channel_width(),
        ).map_values(|n: Neighbours| self.channel_between(ctx, n))
    }

    /// The channels that a run can take, the least crowded first.
    pub open spec fn free_channels(
        &self,
        ctx: &StateProcessingContext,
        goal: Vec3,
    ) -> Seq<Channel> {
        if self.defenders_across(ctx).len() < 2 {
            seq![Channel { center_y: goal.y, width: units(30), congestion: units(0) }]
        } else {
            scan::ranked(self.channels_across(ctx), |c: Channel| c.congestion)
        }
    }

    /// The channels that a run can take, the least crowded first: all of the middle where there
    /// are no two defenders.
    pub fn identify_free_channels(
        &self,
        ctx: &StateProcessingContext,
        goal: Vec3,
    ) -> (r: Vec<Channel>)
        ensures
            r@ == self.free_channels(ctx, goal),
    {
        let defenders = scan::select(
            &ctx.opponents,
            |o: MatchPlayerLite| -> (b: bool)
                ensures b == (o.tactical_positions.is_defender())
            {
                o.tactical_positions.is_defender()
            },
            Ghost(|o: MatchPlayerLite| o.tactical_positions.is_defender()),
        );
        let across = scan::rank(
            &defenders,
            |o: MatchPlayerLite| -> (b: Scalar)
                ensures b == o.position.y
            {
                o.position.y
            },
            Ghost(|o: MatchPlayerLite| o.position.y),
        );
        assert(across@ == self.defenders_across(ctx));
        if across.len() < 2 {
            let open = Channel { center_y: goal.y, width: units(30), congestion: units(0) };
            let mut all: Vec<Channel> = Vec::new();
            all.push(open);
            return all;
        }
        let pairs = neighbours_of(&across);
        let wide = scan::select(
            &pairs,
            |n: Neighbours| -> (b: bool)
                ensures b == (n.lateral_gap() > channel_width())
            {
                n.lateral_gap() > channel_width()
            },
            Ghost(|n: Neighbours| n.lateral_gap() > channel_width()),
        );
        let mut channels: Vec<Channel> = Vec::new();
        let mut i: usize = 0;
        while i < wide.len()
            invariant
                i == channels.len(),
                i <= wide.len(),
                forall|j: int|
                    0 <= j < i ==> #[trigger] channels@[j] == self.channel_between(ctx, wide@[j]),
            decreases wide.len() - i,
        {
            channels.push(self.channel_between(ctx, wide[i]));
            i = i + 1;
        }
        assert(channels@ =~= self.channels_across(ctx));
        scan::rank(
            &channels,
            |c: Channel| -> (b: Scalar)
                ensures b == c.congestion
            {
                c.congestion
            },
            Ghost(|c: Channel| c.congestion),
        )
    }

    pub open spec fn spec_best_channel(&self, ctx: &StateProcessingContext) -> Option<Channel> {
        if self.free_channels(ctx, ctx.goal()).len() > 0 {
            Some(self.free_channels(ctx, ctx.goal())[0])
        } else {
            None
        }
    }

    /// The least crowded channel.
    #[verifier::when_used_as_spec(spec_best_channel)]
    pub fn best_channel(&self, ctx: &StateProcessingContext) -> (r: Option<Channel>)
        ensures
            r == self.spec_best_channel(ctx),
    {
        let channels = self.identify_free_channels(ctx, ctx.goal());
        if channels.len() > 0 {
            Some(channels[0])
        } else {
            None
        }
    }

    pub open spec fn spec_depth_of(
        &self,
        ctx: &StateProcessingContext,
        o: MatchPlayerLite,
    ) -> Scalar {
        match ctx.player.side {
            Some(PlayerSide::Left) => o.position.x,
            Some(PlayerSide::Right) => o.position.x.negated(),
            None => units(0),
        }
    }

    /// How far up the pitch an opponent stands, as the attack sees it.
    #[verifier::when_used_as_spec(spec_depth_of)]
    pub fn depth_of(&self, ctx: &StateProcessingContext, o: MatchPlayerLite) -> (r: Scalar)
        ensures
            r == self.spec_depth_of(ctx, o),
    {
        match ctx.player.side {
            Some(PlayerSide::Left) => o.position.x,
            Some(PlayerSide::Right) => o.position.x.negated(),
            None => units(0),
        }
    }

    pub open spec fn spec_last_opponent(
        &self,
        ctx: &StateProcessingContext,
    ) -> Option<MatchPlayerLite> {
        scan::first_greatest_where(
            ctx.opponents@,
            |o: MatchPlayerLite| !o.tactical_positions.is_goalkeeper(),
            |o: MatchPlayerLite| self.depth_of(ctx, o),
        )
    }

    /// The last outfield opponent before the goal; of several, the first.
    #[verifier::when_used_as_spec(spec_last_opponent)]
    pub fn last_opponent(&self, ctx: &StateProcessingContext) -> (r: Option<MatchPlayerLite>)
        ensures
            r == self.spec_last_opponent(ctx),
    {
        scan::first_greatest_of(
            &ctx.opponents,
            |o: MatchPlayerLite| -> (b: bool)
                ensures b == (!o.tactical_positions.is_goalkeeper())
            {
                !o.tactical_positions.is_goalkeeper()
            },
            |o: MatchPlayerLite| -> (b: Scalar)
                ensures b == (self.depth_of(ctx, o))
            {
                self.depth_of(ctx, o)
            },
            Ghost(|o: MatchPlayerLite| !o.tactical_positions.is_goalkeeper()),
            Ghost(|o: MatchPlayerLite| self.depth_of(ctx, o)),
        )
    }

    pub open spec fn spec_is_offside_risk(
        &self,
        ctx: &StateProcessingContext,
        spot: Vec3,
    ) -> bool {
        match self.last_opponent(ctx) {
            Some(last) => match ctx.player.side {
                Some(PlayerSide::Left) => spot.x > last.position.x + units(5),
                Some(PlayerSide::Right) => spot.x < last.position.x - units(5),
                None => false,
            },
            None => false,
        }
    }

    /// A spot is clearly beyond the last outfield opponent.
    #[verifier::when_used_as_spec(spec_is_offside_risk)]
    pub fn is_offside_risk(&self, ctx: &StateProcessingContext, spot: Vec3) -> (r: bool)
        ensures
            r == self.spec_is_offside_risk(ctx, spot),
    {
        match self.last_opponent(ctx) {
            Some(last) => match ctx.player.side {
                Some(PlayerSide::Left) => spot.x > last.position.x + units(5),
                Some(PlayerSide::Right) => spot.x < last.position.x - units(5),
                None => false,
            },
            None => false,
        }
    }

    pub open spec fn spec_should_make_late_box_run(&self, ctx: &StateProcessingContext) -> bool {
        ctx.ball.distance_to_opponent_goal < ctx.width() * milli(300) && ctx.team.control_ball
        && !self.is_offside_risk(ctx, ctx.player.position)
        && ctx.rolls.late_box_run < ctx.curves.off_the_ball_12
    }

    /// An attack near the goal, from an onside place; the skill off the ball and luck decide.
    #[verifier::when_used_as_spec(spec_should_make_late_box_run)]
    pub fn should_make_late_box_run(&self, ctx: &StateProcessingContext) -> (r: bool)
        ensures
            r == self.spec_should_make_late_box_run(ctx),
    {
        ctx.ball.distance_to_opponent_goal < ctx.width() * milli(300) && ctx.team.control_ball
        && !self.is_offside_risk(ctx, ctx.player.position)
        && ctx.rolls.late_box_run < ctx.curves.off_the_ball_12
    }

    pub open spec fn spec_spearhead(
        &self,
        ctx: &StateProcessingContext,
    ) -> Option<MatchPlayerLite> {
        scan::greatest_where(
            ctx.teammates@,
            |t: MatchPlayerLite| t.distance <= units(300) && self.is_attacking_teammate(ctx, t),
            |t: MatchPlayerLite| t.position.x * attacking_direction(ctx),
        )
    }

    /// The attacking teammate furthest up the pitch.
    #[verifier::when_used_as_spec(spec_spearhead)]
    pub fn spearhead(&self, ctx: &StateProcessingContext) -> (r: Option<MatchPlayerLite>)
        ensures
            r == self.spec_spearhead(ctx),
    {
        scan::greatest_of(
            &ctx.teammates,
            |t: MatchPlayerLite| -> (b: bool)
                ensures b == (t.distance <= units(300) && self.is_attacking_teammate(ctx, t))
            {
                t.distance <= units(300) && self.is_attacking_teammate(ctx, t)
            },
            |t: MatchPlayerLite| -> (b: Scalar)
                ensures b == (t.position.x * attacking_direction(ctx))
            {
                t.position.x * attacking_direction(ctx)
            },
            Ghost(
                |t: MatchPlayerLite|
                    t.distance <= units(300) && self.is_attacking_teammate(ctx, t),
            ),
            Ghost(|t: MatchPlayerLite| t.position.x * attacking_direction(ctx)),
        )
    }

    pub open spec fn spec_create_passing_triangle(
        &self,
        ctx: &StateProcessingContext,
        holder: MatchPlayerLite,
    ) -> Vec3 {
        match self.spearhead(ctx) {
            Some(forward) => {
                let middle = (holder.position + forward.position) * milli(500);
                let aside = if self.is_on_left_half(ctx, middle.y) {
                    units(30)
                } else {
                    units(30).negated()
                };
                middle + flat(units(0), aside)
            },
            None => holder.position + flat(attacking_direction(ctx) * units(40), units(20)),
        }
    }

    /// Between the ball and the spearhead, a little towards the middle; ahead of the ball where
    /// nobody attacks.
    #[verifier::when_used_as_spec(spec_create_passing_triangle)]
    pub fn create_passing_triangle(
        &self,
        ctx: &StateProcessingContext,
        holder: MatchPlayerLite,
    ) -> (r: Vec3)
        ensures
            r == self.spec_create_passing_triangle(ctx, holder),
    {
        match self.spearhead(ctx) {
            Some(forward) => {
                let middle = (holder.position + forward.position) * milli(500);
                let aside = if self.is_on_left_half(ctx, middle.y) {
                    units(30)
                } else {
                    units(30).negated()
                };
                middle + flat(units(0), aside)
            },
            None => holder.position + flat(attacking_direction(ctx) * units(40), units(20)),
        }
    }

    pub open spec fn spec_is_attacking_teammate(
        &self,
        ctx: &StateProcessingContext,
        t: MatchPlayerLite,
    ) -> bool {
        t.tactical_positions.is_forward()
        || (t.tactical_positions.is_midfielder() && self.is_in_attacking_position(ctx, t))
    }

    /// A forward, or a midfielder who is high up the pitch.
    #[verifier::when_used_as_spec(spec_is_attacking_teammate)]
    pub fn is_attacking_teammate(
        &self,
        ctx: &StateProcessingContext,
        t: MatchPlayerLite,
    ) -> (r: bool)
        ensures
            r == self.spec_is_attacking_teammate(ctx, t),
    {
        t.tactical_positions.is_forward()
        || (t.tactical_positions.is_midfielder() && self.is_in_attacking_position(ctx, t))
    }

    /// The attacking teammates around.
    pub fn get_attacking_teammates(
        &self,
        ctx: &StateProcessingContext,
    ) -> (r: Vec<MatchPlayerLite>)
        ensures
            r@ == ctx.teammates@.filter(
                |t: MatchPlayerLite|
                    t.distance <= units(300) && self.is_attacking_teammate(ctx, t),
            ),
    {
        scan::select(
            &ctx.teammates,
            |t: MatchPlayerLite| -> (b: bool)
                ensures b == (t.distance <= units(300) && self.is_attacking_teammate(ctx, t))
            {
                t.distance <= units(300) && self.is_attacking_teammate(ctx, t)
            },
            Ghost(
                |t: MatchPlayerLite|
                    t.distance <= units(300) && self.is_attacking_teammate(ctx, t),
            ),
        )
    }

    pub open spec fn spec_is_position_valuable(
        &self,
        ctx: &StateProcessingContext,
        spot: Vec3,
    ) -> bool {
        ctx.opponents_around(spot, units(15)) < 2
        && scan::count_where(
            ctx.teammates@,
            |t: MatchPlayerLite|
                (t.position - spot).magnitude() > units(20)
                    && (t.position - spot).magnitude() < units(60),
        ) >= 2
    }

    /// A spot that is not crowded and within reach of two teammates.
    #[verifier::when_used_as_spec(spec_is_position_valuable)]
    pub fn is_position_valuable(&self, ctx: &StateProcessingContext, spot: Vec3) -> (r: bool)
        ensures
            r == self.spec_is_position_valuable(ctx, spot),
    {
        ctx.opponents_around(spot, units(15)) < 2
        && scan::count_if(
            &ctx.teammates,
            |t: MatchPlayerLite| -> (b: bool)
                ensures b == (
                    (t.position - spot).magnitude() > units(20)
                        && (t.position - spot).magnitude() < units(60)
                )
            {
                (t.position - spot).magnitude() > units(20)
                    && (t.position - spot).magnitude() < units(60)
            },
            Ghost(
                |t: MatchPlayerLite|
                    (t.position - spot).magnitude() > units(20)
                        && (t.position - spot).magnitude() < units(60),
            ),
        ) >= 2
    }

    pub open spec fn spec_is_center_congested(&self, ctx: &StateProcessingContext) -> bool {
        scan::count_where(
            ctx.opponents@,
            |o: MatchPlayerLite|
                o.distance <= units(150)
                    && (o.position.y - ctx.height() / units(2)).abs() < ctx.height() * milli(200)
                    && (o.position.x - ctx.ball.position.x).abs() < units(50),
        ) >= 3
    }

    /// Three or more opponents around the ball crowd the middle.
    #[verifier::when_used_as_spec(spec_is_center_congested)]
    pub fn is_center_congested(&self, ctx: &StateProcessingContext) -> (r: bool)
        ensures
            r == self.spec_is_center_congested(ctx),
    {
        scan::count_if(
            &ctx.opponents,
            |o: MatchPlayerLite| -> (b: bool)
                ensures b == (
                    o.distance <= units(150)
                        && (
                            o.position.y - ctx.height() / units(2)
                        ).abs() < ctx.height() * milli(200)
                        && (o.position.x - ctx.ball.position.x).abs() < units(50)
                )
            {
                o.distance <= units(150)
                    && (o.position.y - ctx.height() / units(2)).abs() < ctx.height() * milli(200)
                    && (o.position.x - ctx.ball.position.x).abs() < units(50)
            },
            Ghost(
                |o: MatchPlayerLite|
                    o.distance <= units(150)
                        && (
                            o.position.y - ctx.height() / units(2)
                        ).abs() < ctx.height() * milli(200)
                        && (o.position.x - ctx.ball.position.x).abs() < units(50),
            ),
        ) >= 3
    }

    pub open spec fn spec_calculate_wide_support(&self, ctx: &StateProcessingContext) -> Vec3 {
        let left: usize = scan::count_where(
            ctx.teammates@,
            |t: MatchPlayerLite| t.position.y < ctx.height() * milli(300),
        );
        let right: usize = scan::count_where(
            ctx.teammates@,
            |t: MatchPlayerLite| t.position.y > ctx.height() * milli(700),
        );
        let y = if left <= right { ctx.height() * milli(150) } else { ctx.height() * milli(850) };
        flat(ctx.ball.position.x + attacking_direction(ctx) * units(50), y)
    }

    /// Ahead of the ball on the flank with fewer teammates.
    #[verifier::when_used_as_spec(spec_calculate_wide_support)]
    pub fn calculate_wide_support(&self, ctx: &StateProcessingContext) -> (r: Vec3)
        ensures
            r == self.spec_calculate_wide_support(ctx),
    {
        let left: usize = scan::count_if(
            &ctx.teammates,
            |t: MatchPlayerLite| -> (b: bool)
                ensures b == (t.position.y < ctx.height() * milli(300))
            {
                t.position.y < ctx.height() * milli(300)
            },
            Ghost(|t: MatchPlayerLite| t.position.y < ctx.height() * milli(300)),
        );
        let right: usize = scan::count_if(
            &ctx.teammates,
            |t: MatchPlayerLite| -> (b: bool)
                ensures b == (t.position.y > ctx.height() * milli(700))
            {
                t.position.y > ctx.height() * milli(700)
            },
            Ghost(|t: MatchPlayerLite| t.position.y > ctx.height() * milli(700)),
        );
        let y = if left <= right { ctx.height() * milli(150) } else { ctx.height() * milli(850) };
        flat(ctx.ball.position.x + attacking_direction(ctx) * units(50), y)
    }

    pub open spec fn spec_average_depth(
        &self,
        ctx: &StateProcessingContext,
        group: PositionGroup,
    ) -> Scalar {
        scan::total(
            ctx.opponents@,
            |o: MatchPlayerLite|
                if o.tactical_positions.group == group { o.position.x } else { units(0) },
        )
        / headcount(
            scan::count_where(
                ctx.opponents@,
                |o: MatchPlayerLite| o.tactical_positions.group == group,
            ),
        )
    }

    /// The average depth of the opponents of one line.
    #[verifier::when_used_as_spec(spec_average_depth)]
    pub fn average_depth(&self, ctx: &StateProcessingContext, group: PositionGroup) -> (r: Scalar)
        ensures
            r == self.spec_average_depth(ctx, group),
    {
        scan::total_of(
            &ctx.opponents,
            |o: MatchPlayerLite| -> (b: Scalar)
                ensures b == (
                    if o.tactical_positions.group == group { o.position.x } else { units(0) }
                )
            {
                if o.tactical_positions.group == group { o.position.x } else { units(0) }
            },
            Ghost(
                |o: MatchPlayerLite|
                    if o.tactical_positions.group == group { o.position.x } else { units(0) },
            ),
        )
        / headcount(scan::count_if(
                &ctx.opponents,
                |o: MatchPlayerLite| -> (b: bool)
                    ensures b == (o.tactical_positions.group == group)
                {
                    o.tactical_positions.group == group
                },
                Ghost(|o: MatchPlayerLite| o.tactical_positions.group == group),
        ))
    }

    pub open spec fn spec_position_between_lines(&self, ctx: &StateProcessingContext) -> Vec3 {
        if scan::some_where(
            ctx.opponents@,
            |o: MatchPlayerLite| o.tactical_positions.is_defender(),
        )
            && scan::some_where(
                ctx.opponents@,
                |o: MatchPlayerLite| o.tactical_positions.is_midfielder(),
            ) {
            let between = (
                self.average_depth(ctx, PositionGroup::Defender) + self.average_depth(
                    ctx,
                    PositionGroup::Midfielder,
                )
            ) / units(2);
            flat(between, ctx.player.position.y)
        } else {
            ctx.player.position + flat(attacking_direction(ctx) * units(40), units(0))
        }
    }

    /// Half way between the defenders and the midfielders of the opponents; a step forward where
    /// one line is missing.
    #[verifier::when_used_as_spec(spec_position_between_lines)]
    pub fn position_between_lines(&self, ctx: &StateProcessingContext) -> (r: Vec3)
        ensures
            r == self.spec_position_between_lines(ctx),
    {
        if scan::any_of(
            &ctx.opponents,
            |o: MatchPlayerLite| -> (b: bool)
                ensures b == (o.tactical_positions.is_defender())
            {
                o.tactical_positions.is_defender()
            },
            Ghost(|o: MatchPlayerLite| o.tactical_positions.is_defender()),
        ) && scan::any_of(
            &ctx.opponents,
            |o: MatchPlayerLite| -> (b: bool)
                ensures b == (o.tactical_positions.is_midfielder())
            {
                o.tactical_positions.is_midfielder()
            },
            Ghost(|o: MatchPlayerLite| o.tactical_positions.is_midfielder()),
        ) {
            let between = (
                self.average_depth(ctx, PositionGroup::Defender) + self.average_depth(
                    ctx,
                    PositionGroup::Midfielder,
                )
            ) / units(2);
            return flat(between, ctx.player.position.y);
        }
        ctx.player.position + flat(attacking_direction(ctx) * units(40), units(0))
    }

    pub open spec fn spec_calculate_lateral_movement(
        &self,
        ctx: &StateProcessingContext,
    ) -> Scalar {
        let left_half = self.is_on_left_half(ctx, ctx.player.position.y);
        if self.calculate_crowd_factor(ctx, ctx.player.position) > milli(500) {
            if left_half {
                units(30).negated()
            } else {
                units(30)
            }
        } else if (
            ctx.player.position.y - ctx.height() / units(2)
        ).abs() < ctx.height() * milli(200) {
            if left_half {
                units(20).negated()
            } else {
                units(20)
            }
        } else {
            units(0)
        }
    }

    /// How far aside to move: outwards from a crowd and from the middle.
    #[verifier::when_used_as_spec(spec_calculate_lateral_movement)]
    pub fn calculate_lateral_movement(&self, ctx: &StateProcessingContext) -> (r: Scalar)
        ensures
            r == self.spec_calculate_lateral_movement(ctx),
    {
        let left_half = self.is_on_left_half(ctx, ctx.player.position.y);
        if self.calculate_crowd_factor(ctx, ctx.player.position) > milli(500) {
            if left_half { units(30).negated() } else { units(30) }
        } else if (
            ctx.player.position.y - ctx.height() / units(2)
        ).abs() < ctx.height() * milli(200) {
            if left_half { units(20).negated() } else { units(20) }
        } else {
            units(0)
        }
    }

    pub open spec fn spec_pushed_from(
        &self,
        ctx: &StateProcessingContext,
        spot: Vec3,
        t: MatchPlayerLite,
    ) -> Vec3 {
        let apart = spot - t.position;
        let distance = apart.magnitude();
        if t.id != ctx.player.id && distance < units(80) && distance > milli(10) {
            spot + apart.normalize() * ((units(80) - distance) / units(80)) * units(35)
        } else {
            spot
        }
    }

    /// A spot moved away from one teammate who is near it.
    #[verifier::when_used_as_spec(spec_pushed_from)]
    pub fn pushed_from(
        &self,
        ctx: &StateProcessingContext,
        spot: Vec3,
        t: MatchPlayerLite,
    ) -> (r: Vec3)
        ensures
            r == self.spec_pushed_from(ctx, spot, t),
    {
        let apart = spot - t.position;
        let distance = apart.magnitude();
        if t.id != ctx.player.id && distance < units(80) && distance > milli(10) {
            spot + apart.normalize() * ((units(80) - distance) / units(80)) * units(35)
        } else {
            spot
        }
    }

    /// A spot moved away from each of the teammates, from the first on.
    pub open spec fn pushed_apart(
        &self,
        ctx: &StateProcessingContext,
        spot: Vec3,
        s: Seq<MatchPlayerLite>,
    ) -> Vec3
        decreases s.len(),
    {
        if s.len() == 0 {
            spot
        } else {
            self.pushed_from(ctx, self.pushed_apart(ctx, spot, s.drop_last()), s.last())
        }
    }

    pub open spec fn spec_apply_teammate_spacing(
        &self,
        ctx: &StateProcessingContext,
        target: Vec3,
    ) -> Vec3 {
        clamp_to_field(ctx, self.pushed_apart(ctx, target, ctx.teammates@))
    }

    /// A spot moved away from the teammates, on the pitch.
    #[verifier::when_used_as_spec(spec_apply_teammate_spacing)]
    pub fn apply_teammate_spacing(&self, ctx: &StateProcessingContext, target: Vec3) -> (r: Vec3)
        requires
            ctx.field_size.width >= 20,
            ctx.field_size.height >= 20,
        ensures
            r == self.spec_apply_teammate_spacing(ctx, target),
            units(10) <= r.x,
            r.x <= ctx.width() - units(10),
            units(10) <= r.y,
            r.y <= ctx.height() - units(10),
    {
        let mut adjusted: Vec3 = target;
        let mut i: usize = 0;
        while i < ctx.teammates.len()
            invariant
                i <= ctx.teammates.len(),
                adjusted == self.pushed_apart(ctx, target, ctx.teammates@.take(i as int)),
            decreases ctx.teammates.len() - i,
        {
            let t = ctx.teammates[i];
            assert(ctx.teammates@.take(i + 1).drop_last() =~= ctx.teammates@.take(i as int));
            assert(ctx.teammates@.take(i + 1).last() == t);
            adjusted = self.pushed_from(ctx, adjusted, t);
            i = i + 1;
        }
        assert(ctx.teammates@.take(ctx.teammates.len() as int) =~= ctx.teammates@);
        clamp_to_field(ctx, adjusted)
    }

    pub open spec fn spec_calculate_urgency_factor(&self, ctx: &StateProcessingContext) -> Scalar {
        let behind = if ctx.team.losing { milli(200) } else { units(0) };
        let late = if ctx.time_is_running_out { milli(200) } else { units(0) };
        let near = if ctx.ball.distance_to_opponent_goal
            < units(200) { milli(100) } else { units(0) };
        (milli(500) + behind + late + near).min(units(1))
    }

    /// How urgent the run is: more so when behind, late, or near the goal.
    #[verifier::when_used_as_spec(spec_calculate_urgency_factor)]
    pub fn calculate_urgency_factor(&self, ctx: &StateProcessingContext) -> (r: Scalar)
        ensures
            r == self.spec_calculate_urgency_factor(ctx),
            milli(500) <= r,
            r <= units(1),
    {
        let behind = if ctx.team.losing { milli(200) } else { units(0) };
        let late = if ctx.time_is_running_out { milli(200) } else { units(0) };
        let near = if ctx.ball.distance_to_opponent_goal
            < units(200) { milli(100) } else { units(0) };
        (milli(500) + behind + late + near).min(units(1))
    }

    pub open spec fn spec_calculate_crowd_factor(
        &self,
        ctx: &StateProcessingContext,
        position: Vec3,
    ) -> Scalar {
        (
            (
                headcount(
                    ctx.teammates_around(position, units(30)),
                ) + headcount(ctx.opponents_around(position, units(30)))
            ) / units(8)
        ).min(units(1))
    }

    /// How crowded it is around a spot, up to 1.
    #[verifier::when_used_as_spec(spec_calculate_crowd_factor)]
    pub fn calculate_crowd_factor(
        &self,
        ctx: &StateProcessingContext,
        position: Vec3,
    ) -> (r: Scalar)
        ensures
            r == self.spec_calculate_crowd_factor(ctx, position),
            r <= units(1),
    {
        (
            (
                headcount(
                    ctx.teammates_around(position, units(30)),
                ) + headcount(ctx.opponents_around(position, units(30)))
            ) / units(8)
        ).min(units(1))
    }

    pub open spec fn spec_calculate_channel_congestion(
        &self,
        ctx: &StateProcessingContext,
        a: Vec3,
        b: Vec3,
    ) -> Scalar {
        let center = (a + b) * milli(500);
        headcount(
            scan::count_where(
                ctx.opponents@,
                |o: MatchPlayerLite| (o.position - center).magnitude() < units(20),
            ),
        ) / units(3)
    }

    /// How crowded the middle between two spots is.
    #[verifier::when_used_as_spec(spec_calculate_channel_congestion)]
    pub fn calculate_channel_congestion(
        &self,
        ctx: &StateProcessingContext,
        a: Vec3,
        b: Vec3,
    ) -> (r: Scalar)
        ensures
            r == self.spec_calculate_channel_congestion(ctx, a, b),
    {
        let center = (a + b) * milli(500);
        headcount(scan::count_if(
                &ctx.opponents,
                |o: MatchPlayerLite| -> (b: bool)
                    ensures b == ((o.position - center).magnitude() < units(20))
                {
                    (o.position - center).magnitude() < units(20)
                },
                Ghost(|o: MatchPlayerLite| (o.position - center).magnitude() < units(20)),
        )) / units(3)
    }

    pub open spec fn spec_is_in_attacking_position(
        &self,
        ctx: &StateProcessingContext,
        t: MatchPlayerLite,
    ) -> bool {
        match ctx.player.side {
            Some(PlayerSide::Left) => t.position.x > ctx.width() * milli(600),
            Some(PlayerSide::Right) => t.position.x < ctx.width() * milli(400),
            None => false,
        }
    }

    /// High up the pitch.
    #[verifier::when_used_as_spec(spec_is_in_attacking_position)]
    pub fn is_in_attacking_position(
        &self,
        ctx: &StateProcessingContext,
        t: MatchPlayerLite,
    ) -> (r: bool)
        ensures
            r == self.spec_is_in_attacking_position(ctx, t),
    {
        match ctx.player.side {
            Some(PlayerSide::Left) => t.position.x > ctx.width() * milli(600),
            Some(PlayerSide::Right) => t.position.x < ctx.width() * milli(400),
            None => false,
        }
    }

    pub open spec fn spec_find_ball_holder(
        &self,
        ctx: &StateProcessingContext,
    ) -> Option<MatchPlayerLite> {
        match ctx.owner_in_team() {
            Some(owner) => if owner.id != ctx.player.id { Some(owner) } else { None },
            None => None,
        }
    }

    /// The teammate with the ball.
    #[verifier::when_used_as_spec(spec_find_ball_holder)]
    pub fn find_ball_holder(&self, ctx: &StateProcessingContext) -> (r: Option<MatchPlayerLite>)
        ensures
            r == self.spec_find_ball_holder(ctx),
            r matches Some(holder) ==> holder.id != ctx.player.id
                && holder.team_id == ctx.player.team_id,
    {
        match ctx.owner_in_team() {
            Some(owner) => if owner.id != ctx.player.id { Some(owner) } else { None },
            None => None,
        }
    }
}

/// The depth and the width of the arrival, at right angles to each other, stay within its range.
proof fn arrival_fits(state: MidfielderAttackSupportingState, ctx: &StateProcessingContext)
    ensures
        units(40) <= state.arrival_depth(ctx),
        state.arrival_depth(ctx) <= units(82),
        units(0) <= state.arrival_width(ctx),
        state.arrival_depth(ctx).raw * state.arrival_depth(ctx).raw + state.arrival_width(ctx).raw
            * state.arrival_width(ctx).raw < (state.arrival_range(ctx).raw + 1) * (state.arrival_range(
            ctx,
        ).raw + 1),
{
    let progress = ((state.ball_to_goal(ctx) - units(55)) / (units(230) - units(55))).clamp(
        units(0),
        units(1),
    );
    crate::scalar::product_keeps_order(units(42), progress, units(1));
    crate::scalar::product_keeps_order(units(42), units(0), progress);
    let depth = state.arrival_depth(ctx);
    let range = state.arrival_range(ctx);
    let d: int = depth.raw as int;
    let r: int = range.raw as int;
    if state.ball_to_goal(ctx) <= units(55) {
        crate::scalar::quotient_keeps_order(
            state.ball_to_goal(ctx) - units(55),
            units(0),
            units(230) - units(55),
        );
        assert(progress == units(0));
        assert(d == 40_000_000);
        assert(r == 52_000_000);
        assert(d * d == 1_600_000_000_000_000) by (nonlinear_arith)
            requires
                d == 40_000_000,
        ;
    } else {
        assert(r == 88_000_000);
    }
    assert(1_600_000_000_000_000 <= d * d <= 6_724_000_000_000_000) by (nonlinear_arith)
        requires
            40_000_000 <= d <= 82_000_000,
    ;
    let square: int = d * d / 1_000_000;
    assert((depth * depth).raw == square);
    assert(r * r == if r == 52_000_000 { 2_704_000_000_000_000int } else { 7_744_000_000_000_000 })
        by (nonlinear_arith)
        requires
            r == 52_000_000 || r == 88_000_000,
    ;
    let left: int = r * r / 1_000_000 - square;
    assert((range * range - depth * depth).raw == left);
    assert(0 < left);
    crate::scalar::floor_root_holds(left * 1_000_000);
    let w: int = state.arrival_width(ctx).raw as int;
    let root = crate::scalar::floor_root(left * 1_000_000);
    assert(root <= 100_000_000) by (nonlinear_arith)
        requires
            0 <= root,
            root * root <= left * 1_000_000,
            left * 1_000_000 <= 10_000_000_000_000_000,
    ;
    assert(w == root);
    assert((r + 1) * (r + 1) == r * r + 2 * r + 1) by (nonlinear_arith);
}

/// The spot of the arrival is within its range.
proof fn arrival_stays_in_range(
    state: MidfielderAttackSupportingState,
    ctx: &StateProcessingContext,
)
    ensures
        ctx.goal().z == units(0) ==> state.arrival_spot(ctx).distance_to(ctx.goal())
            <= state.arrival_range(ctx),
{
    arrival_fits(state, ctx);
    let depth = state.arrival_depth(ctx);
    let width = state.arrival_width(ctx);
    let way = state.arrival_spot(ctx) - ctx.goal();
    let d: int = depth.raw as int;
    let w: int = width.raw as int;
    let dx: int = way.x.raw as int;
    let dy: int = way.y.raw as int;
    assert(1_000_000 * d / 1_000_000 == d);
    assert((units(1) * depth).raw == d);
    let back: int = units(1).negated().raw as int;
    assert(back == -1_000_000);
    assert(back * d == -(1_000_000 * d)) by (nonlinear_arith)
        requires
            back == -1_000_000,
    ;
    assert((units(1).negated() * depth).raw == -d);
    assert((units(0) * depth).raw == 0);
    assert(-d <= dx <= d);
    assert(-w <= dy <= w);
    assert(dx * dx <= d * d) by (nonlinear_arith)
        requires
            -d <= dx <= d,
    ;
    assert(dy * dy <= w * w) by (nonlinear_arith)
        requires
            -w <= dy <= w,
    ;
    if ctx.goal().z == units(0) {
        assert(way.z == units(0));
        crate::vector::short_vector(way, state.arrival_range(ctx));
    }
}

/// Where there are two defenders, each channel on offer is wide enough, and the least crowded
/// one comes first.
pub proof fn channels_are_wide_and_ordered(
    state: MidfielderAttackSupportingState,
    ctx: &StateProcessingContext,
    goal: Vec3,
)
    requires
        state.defenders_across(ctx).len() >= 2,
    ensures
        forall|i: int|
            0 <= i < state.free_channels(ctx, goal).len() ==> (#[trigger] state.free_channels(
                ctx,
                goal,
            )[i]).width > channel_width(),
        forall|i: int, j: int|
            0 <= i <= j < state.free_channels(ctx, goal).len() ==> (#[trigger] state.free_channels(
                ctx,
                goal,
            )[i]).congestion <= (#[trigger] state.free_channels(ctx, goal)[j]).congestion,
{
    let channels = state.channels_across(ctx);
    let key = |c: Channel| c.congestion;
    scan::ranking_rises(channels, key);
    assert forall|i: int| 0 <= i < scan::ranked(channels, key).len() implies (
    #[trigger] scan::ranked(channels, key)[i]).width > channel_width() by {
        scan::ranking_comes_from(channels, key, i);
        let j = choose|j: int| 0 <= j < channels.len()
            && channels[j] == scan::ranked(channels, key)[i];
        let wide = |n: Neighbours| n.lateral_gap() > channel_width();
        scan::filter_comes_from(crate::gaps::neighbours_in(state.defenders_across(ctx)), wide, j);
    }
    assert forall|i: int, j: int| 0 <= i <= j < scan::ranked(channels, key).len() implies (
    #[trigger] scan::ranked(channels, key)[i]).congestion <= (#[trigger] scan::ranked(
        channels,
        key,
    )[j]).congestion by {
        assert(key(scan::ranked(channels, key)[i]) <= key(scan::ranked(channels, key)[j]));
    }
}

/// Two central midfielders of a team who see each other never both make the run into the box:
/// one runs, the other holds.
pub proof fn never_two_runners(
    state: MidfielderAttackSupportingState,
    one: &StateProcessingContext,
    other: &StateProcessingContext,
    i: int,
    j: int,
)
    requires
        0 <= i < one.teammates@.len(),
        0 <= j < other.teammates@.len(),
        one.player.id != other.player.id,
        one.teammates@[i].id == other.player.id,
        other.teammates@[j].id == one.player.id,
        one.teammates@[i].tactical_positions == other.player.tactical_position,
        other.teammates@[j].tactical_positions == one.player.tactical_position,
        one.by_id(other.player.id) matches Some(seen) && seen.skills == other.player.skills,
        other.by_id(one.player.id) matches Some(seen) && seen.skills == one.player.skills,
    ensures
        !(state.should_make_attacking_run(one) && state.should_make_attacking_run(other)),
{
    assert(one.teammates@[i].id == other.player.id);
    assert(other.teammates@[j].id == one.player.id);
}

/// The spot for which a midfielder asks to be spaced out is on the pitch, away from its edges.
pub proof fn proposals_are_on_pitch(
    state: MidfielderAttackSupportingState,
    ctx: &StateProcessingContext,
)
    requires
        ctx.field_size.width >= 20,
        ctx.field_size.height >= 20,
    ensures
        state.proposed_target(ctx) matches Some(spot) ==> {
            &&& units(10) <= spot.x
            &&& spot.x <= ctx.width() - units(10)
            &&& units(10) <= spot.y
            &&& spot.y <= ctx.height() - units(10)
        },
{
}

/// A supporting midfielder runs with the ball, tackles or presses after a loss, cuts out a ball
/// that
/// comes, stays for a late run, finds room when the ball is far, and ends the support after its
/// time, on the way back from far out.
pub proof fn support_ends_in_order(
    state: MidfielderAttackSupportingState,
    ctx: &StateProcessingContext,
)
    ensures
        ({
            let goes_to = |s: MidfielderState| state.process(ctx) == Some(
                with_midfielder_state(s),
            );
            let lost = !ctx.player.has_ball && !ctx.team.control_ball;
            let ours = !ctx.player.has_ball && ctx.team.control_ball;
            let close = ctx.ball.distance < units(40);
            let chased = ctx.ball.distance < units(150) && ctx.team.best_player_to_chase_ball;
            let stays = lost && !close && !chased && ctx.in_state_time < 60;
            let leaves = lost && !close && !chased && ctx.in_state_time >= 60;
            let comes = ctx.ball.heading >= milli(800) && ctx.ball.distance < units(100);
            let runs = state.should_make_late_box_run(ctx);
            let on = ours && !comes && !runs && ctx.ball.distance <= units(300);
            let far = ctx.player.position_to_distance is Big;
            &&& ctx.player.has_ball ==> goes_to(MidfielderState::Running)
            &&& lost && close ==> goes_to(MidfielderState::Tackling)
            &&& lost && !close && chased ==> goes_to(MidfielderState::Pressing)
            &&& stays ==> state.process(ctx) is None
            &&& leaves && !ctx.ball.on_own_side ==> goes_to(MidfielderState::Running)
            &&& leaves && ctx.ball.on_own_side ==> goes_to(
                if exists|o: MatchPlayerLite| #[trigger]
                    ctx.opponents@.contains(o) && o.distance <= units(100) {
                    MidfielderState::Guarding
                } else {
                    MidfielderState::Returning
                },
            )
            &&& ours && comes ==> goes_to(MidfielderState::Intercepting)
            &&& ours && !comes && runs ==> state.process(ctx) is None
            &&& ours && !comes && !runs && ctx.ball.distance > units(300) ==> goes_to(
                MidfielderState::CreatingSpace,
            )
            &&& on && ctx.in_state_time <= 300 ==> state.process(ctx) is None
            &&& on && ctx.in_state_time > 300 ==> goes_to(
                if far {
                    MidfielderState::Returning
                } else {
                    MidfielderState::Running
                },
            )
        }),
{
    scan::some_is_one_of_them(ctx.opponents@, |o: MatchPlayerLite| o.distance <= units(100));
}

/// A late run into the box is on within three tenths of the pitch of the goal, while the team has
/// the ball, from onside, on a draw below the skill off the ball.
pub proof fn late_runs_are_on(state: MidfielderAttackSupportingState, ctx: &StateProcessingContext)
    ensures
        state.should_make_late_box_run(ctx) ==> ctx.ball.distance_to_opponent_goal
            < ctx.width() * milli(300)
            && ctx.team.control_ball && ctx.rolls.late_box_run < ctx.curves.off_the_ball_12,
        state.should_make_late_box_run(ctx) ==> !state.is_offside_risk(ctx, ctx.player.position),
        (ctx.ball.distance_to_opponent_goal < ctx.width() * milli(300) && ctx.team.control_ball
            && ctx.rolls.late_box_run < ctx.curves.off_the_ball_12 && !state.is_offside_risk(
            ctx,
            ctx.player.position,
        )) ==> state.should_make_late_box_run(ctx),
        (forall|o: MatchPlayerLite| #[trigger]
            ctx.opponents@.contains(o) ==> o.tactical_positions.group == PositionGroup::Goalkeeper)
            ==> !state.is_offside_risk(ctx, ctx.player.position),
{
    let p = |o: MatchPlayerLite| !o.tactical_positions.is_goalkeeper();
    scan::first_greatest_is_greatest(
        ctx.opponents@,
        p,
        |o: MatchPlayerLite| state.depth_of(ctx, o),
    );
    if let Some(last) = state.last_opponent(ctx) {
        assert(ctx.opponents@.contains(last) && p(last));
    }
}

/// A spot is offside where it is more than five further up than every outfield opponent, and only
/// where there is one.
pub proof fn offside_is_beyond_all(
    state: MidfielderAttackSupportingState,
    ctx: &StateProcessingContext,
    spot: Vec3,
)
    requires
        ctx.opponents@.len() > 0,
        forall|o: MatchPlayerLite| #[trigger]
            ctx.opponents@.contains(o) ==> o.tactical_positions.group != PositionGroup::Goalkeeper
                && o.position.x.is_between(units(0), units(100_000)),
    ensures
        ctx.player.side == Some(PlayerSide::Left) ==> (state.is_offside_risk(ctx, spot) <==> forall|
            o: MatchPlayerLite,
        | #[trigger]
            ctx.opponents@.contains(o) ==> spot.x > o.position.x + units(5)),
        ctx.player.side == Some(PlayerSide::Right) ==> (state.is_offside_risk(ctx, spot) <==> forall|
            o: MatchPlayerLite,
        | #[trigger]
            ctx.opponents@.contains(o) ==> spot.x < o.position.x - units(5)),
        ctx.player.side is None ==> !state.is_offside_risk(ctx, spot),
{
    let p = |o: MatchPlayerLite| !o.tactical_positions.is_goalkeeper();
    let k = |o: MatchPlayerLite| state.depth_of(ctx, o);
    scan::first_greatest_is_greatest(ctx.opponents@, p, k);
    assert(ctx.opponents@.contains(ctx.opponents@[0]));
    assert(p(ctx.opponents@[0]));
    let last = state.last_opponent(ctx)->0;
    assert(ctx.opponents@.contains(last));
    assert forall|o: MatchPlayerLite| #[
        trigger
    ] ctx.opponents@.contains(o) implies state.depth_of(ctx, o)
        <= state.depth_of(ctx, last) by {
        assert(p(o));
        assert(k(o) <= k(last));
    }
}

/// Of two midfielders the one better off the ball, who works harder, finishes and shoots better
/// from
/// afar has no less drive; a drive is the mean of the skills by their weights, which add up to
/// one.
pub proof fn better_runners_have_more_drive(
    state: MidfielderAttackSupportingState,
    a: Skills,
    b: Skills,
)
    requires
        a.mental.off_the_ball <= b.mental.off_the_ball,
        a.mental.work_rate <= b.mental.work_rate,
        a.technical.finishing <= b.technical.finishing,
        a.technical.long_shots <= b.technical.long_shots,
    ensures
        state.attacking_drive(a) <= state.attacking_drive(b),
        (a.mental.off_the_ball == units(10) && a.mental.work_rate == units(10) && a.technical.finishing
            == units(10) && a.technical.long_shots == units(10)) ==> state.attacking_drive(a) == units(10),
        (a.mental.off_the_ball == units(10) && a.mental.work_rate == units(0) && a.technical.finishing
            == units(0) && a.technical.long_shots == units(0)) ==> state.attacking_drive(a) == milli(4200),
        (a.mental.off_the_ball == units(0) && a.mental.work_rate == units(10) && a.technical.finishing
            == units(0) && a.technical.long_shots == units(0)) ==> state.attacking_drive(a) == milli(2600),
{
    crate::scalar::scaling_keeps_order(a.mental.off_the_ball, b.mental.off_the_ball, milli(420));
    crate::scalar::scaling_keeps_order(a.mental.work_rate, b.mental.work_rate, milli(260));
    let x = a.technical.finishing + a.technical.long_shots;
    let y = b.technical.finishing + b.technical.long_shots;
    crate::scalar::scaling_keeps_order(x, y, milli(500));
    crate::scalar::scaling_keeps_order(x * milli(500), y * milli(500), milli(320));
    crate::scalar::thousandths_of(units(10), 420);
    crate::scalar::thousandths_of(units(10), 260);
    crate::scalar::thousandths_of(units(20), 500);
    crate::scalar::thousandths_of(units(10), 320);
    crate::scalar::zero_stays_zero(milli(420));
    crate::scalar::zero_stays_zero(milli(260));
    crate::scalar::zero_stays_zero(milli(500));
    crate::scalar::zero_stays_zero(milli(320));
}

/// The greater drive goes first, and of two about as great the lower number: never both, and
/// always
/// one of two with different numbers.
pub proof fn one_of_two_goes_first(
    state: MidfielderAttackSupportingState,
    a: Scalar,
    i: u32,
    b: Scalar,
    j: u32,
)
    requires
        i != j,
        a.is_between(units(1000).negated(), units(1000)),
        b.is_between(units(1000).negated(), units(1000)),
    ensures
        state.goes_before(a, i, b, j) <==> !state.goes_before(b, j, a, i),
        a > b + milli(10) ==> state.goes_before(a, i, b, j),
        (a - b).abs() <= milli(10) ==> (state.goes_before(a, i, b, j) <==> i < j),
{
}

/// The run into the box is for a central midfielder with a central midfielder or defender of the
/// team more than eight behind, whom no other central midfielder goes before.
pub proof fn runners_have_cover(
    state: MidfielderAttackSupportingState,
    ctx: &StateProcessingContext,
)
    ensures
        state.should_make_attacking_run(
            ctx,
        ) <==> ctx.player.tactical_position.is_central_midfielder() && (
        exists|t: MatchPlayerLite| #[trigger]
            ctx.teammates@.contains(t) && (t.tactical_positions.is_central_midfielder()
                || t.tactical_positions.group == PositionGroup::Defender) && (ctx.goal()
                - t.position).magnitude() > (ctx.goal() - ctx.player.position).magnitude() + units(8)) && (
        forall|t: MatchPlayerLite| #[trigger]
            ctx.teammates@.contains(t)
                && t.tactical_positions.is_central_midfielder() ==> !state.goes_before(
                state.drive_of(ctx, t),
                t.id,
                state.attacking_drive(ctx.player.skills),
                ctx.player.id,
            )),
{
    scan::some_is_one_of_them(
        ctx.teammates@,
        |t: MatchPlayerLite|
            (
                t.tactical_positions.is_central_midfielder() || t.tactical_positions.is_defender()
            ) && (
            ctx.goal() - t.position).magnitude() > (ctx.goal() - ctx.player.position).magnitude()
                + units(8),
    );
    scan::some_is_one_of_them(
        ctx.teammates@,
        |t: MatchPlayerLite|
            t.tactical_positions.is_central_midfielder() && state.goes_before(
                state.drive_of(ctx, t),
                t.id,
                state.attacking_drive(ctx.player.skills),
                ctx.player.id,
            ),
    );
}

/// A run is of the kind that the skills and the distance of the ball from the goal ask for.
pub proof fn runs_suit_the_runner(
    state: MidfielderAttackSupportingState,
    ctx: &StateProcessingContext,
    away: Scalar,
)
    ensures
        ({
            let kind = state.determine_run_type(ctx, away);
            let skills = ctx.player.skills;
            let near = away < ctx.width() * milli(250);
            let mid = !near && away < ctx.width() * milli(500);
            let deep = skills.mental.off_the_ball > units(14) && skills.physical.pace > units(14);
            let wide = state.check_wide_space(ctx) && skills.physical.pace > units(13);
            &&& near && deep ==> kind == AttackingRunType::ThroughBall
            &&& near && !deep && skills.mental.anticipation > units(13) ==> kind
                == AttackingRunType::LateBoxRun
            &&& near && !deep && skills.mental.anticipation <= units(13) ==> kind
                == AttackingRunType::SupportRun
            &&& mid && wide ==> kind == AttackingRunType::OverlapRun
            &&& mid && !wide && skills.mental.off_the_ball > units(12) ==> kind
                == AttackingRunType::DiagonalRun
            &&& mid && !wide && skills.mental.off_the_ball <= units(12) ==> kind
                == AttackingRunType::SupportRun
            &&& !near && !mid ==> kind == AttackingRunType::SupportRun
        }),
{
}

/// The runner arrives the nearer to the goal, the further the ball has come: 40 out with the ball
/// within 55, 82 with it at 230 or more; on the far side of the ball.
pub proof fn arrivals_follow_the_ball(
    state: MidfielderAttackSupportingState,
    ctx: &StateProcessingContext,
    other: &StateProcessingContext,
)
    requires
        state.ball_to_goal(ctx) <= state.ball_to_goal(other),
    ensures
        state.arrival_depth(ctx) <= state.arrival_depth(other),
        state.ball_to_goal(ctx) <= units(55) ==> state.arrival_depth(ctx) == units(40),
        state.ball_to_goal(ctx) >= units(230) ==> state.arrival_depth(ctx) == units(82),
        state.ball_to_goal(ctx) <= units(55) ==> state.arrival_range(ctx)
            == standard_shooting_distance(),
        state.ball_to_goal(ctx) > units(55) ==> state.arrival_range(ctx)
            == max_shooting_distance(),
{
    let a = state.ball_to_goal(ctx) - units(55);
    let b = state.ball_to_goal(other) - units(55);
    let full = units(230) - units(55);
    crate::scalar::quotient_keeps_order(a, b, full);
    crate::scalar::scaling_keeps_order(
        (a / full).clamp(units(0), units(1)),
        (b / full).clamp(units(0), units(1)),
        units(42),
    );
    if a <= units(0) {
        crate::scalar::quotient_keeps_order(a, units(0), full);
    }
    if a >= full {
        crate::scalar::quotient_keeps_order(full, a, full);
        crate::scalar::whole_is_one(full);
    }
    crate::scalar::zero_stays_zero(units(42));
    crate::scalar::one_changes_nothing(units(42));
}

/// A team crowds the goal with three within 200 of it; a forward is missing where fewer are within
/// 220 than there are; and the midfielder steps in whom no other midfielder is nearer than by 15.
pub proof fn crowds_and_gaps_are_seen(
    state: MidfielderAttackSupportingState,
    ctx: &StateProcessingContext,
)
    ensures
        (forall|t: MatchPlayerLite| #[trigger] ctx.teammates@.contains(t) ==> (ctx.goal()
            - t.position).magnitude() >= units(200)) ==> !state.recycles(ctx),
        state.recycles(ctx) ==> exists|i: int, j: int|
            0 <= i < j < ctx.teammates@.len() && (ctx.goal() - (
            #[trigger] ctx.teammates@[i]).position).magnitude() < units(200) && (ctx.goal() - (
            #[trigger] ctx.teammates@[j]).position).magnitude() < units(200),
        state.has_closer_midfielder(ctx) <==> exists|t: MatchPlayerLite| #[trigger]
            ctx.teammates@.contains(t) && t.tactical_positions.group == PositionGroup::Midfielder
                && t.id
                != ctx.player.id && (ctx.goal() - t.position).magnitude() < (ctx.goal()
                - ctx.player.position).magnitude() - units(15),
        state.forwards_near_goal(ctx) <= state.forwards_in_all(ctx),
        state.has_open_slot(ctx) <==> state.forwards_near_goal(ctx) < state.forwards_in_all(ctx)
            && !state.has_closer_midfielder(ctx),
        (forall|t: MatchPlayerLite| #[trigger]
            ctx.teammates@.contains(t) && t.tactical_positions.group == PositionGroup::Forward ==> (ctx.goal()
                - t.position).magnitude() < units(220)) ==> !state.has_open_slot(ctx),
        state.forward_up_front(ctx) matches Some(t) ==> ctx.teammates@.contains(t)
            && t.tactical_positions.group == PositionGroup::Forward
            && (ctx.goal() - t.position).magnitude()
            < units(220),
        state.forward_up_front(ctx) is None ==> forall|t: MatchPlayerLite| #[trigger]
            ctx.teammates@.contains(t) && t.tactical_positions.group == PositionGroup::Forward ==> (ctx.goal()
                - t.position).magnitude() >= units(220),
        state.takes_central_slot(ctx) <==> state.has_open_slot(ctx)
            && state.forward_up_front(ctx) is None,
{
    let p = |t: MatchPlayerLite| (ctx.goal() - t.position).magnitude() < units(200);
    assert(ctx.teammates.len() == ctx.teammates@.len());
    scan::count_tells_some(ctx.teammates@, p);
    scan::count_tells_two(ctx.teammates@, p);
    if state.recycles(ctx) {
        let (i, j) = choose|i: int, j: int|
            0 <= i < j < ctx.teammates@.len() && p(#[trigger] ctx.teammates@[i]) && p(
                #[trigger] ctx.teammates@[j],
            );
        assert(p(ctx.teammates@[i]) && p(ctx.teammates@[j]));
    }
    scan::some_is_one_of_them(
        ctx.teammates@,
        |t: MatchPlayerLite|
            t.tactical_positions.is_midfielder() && t.id != ctx.player.id && (ctx.goal()
                - t.position).magnitude() < (ctx.goal() - ctx.player.position).magnitude() - units(15),
    );
    let all = |t: MatchPlayerLite| t.tactical_positions.is_forward();
    let near = |t: MatchPlayerLite|
        t.tactical_positions.is_forward() && (ctx.goal() - t.position).magnitude() < units(220);
    scan::count_keeps_order(ctx.teammates@, near, all);
    scan::first_is_one_of_them(ctx.teammates@, near);
    if forall|t: MatchPlayerLite| #[trigger]
        ctx.teammates@.contains(t) && t.tactical_positions.group == PositionGroup::Forward ==> (ctx.goal()
            - t.position).magnitude() < units(220) {
        assert forall|t: MatchPlayerLite| #[trigger] ctx.teammates@.contains(t) implies all(t)
            == near(t) by {
        }
        scan::counts_agree(ctx.teammates@, near, all);
    }
}

/// The spot at the edge of a crowded attack is 160 in front of the goal, 110 off the middle on a
/// pitch with that much room, on the side with fewer teammates of those near the goal.
pub proof fn edges_are_wide(state: MidfielderAttackSupportingState, ctx: &StateProcessingContext)
    requires
        ctx.field_size.width >= 200,
        ctx.field_size.height >= 260,
        ctx.goal().x == (if ctx.player.side == Some(PlayerSide::Left) {
            ctx.width()
        } else {
            units(0)
        }),
        ctx.player.side is Some,
    ensures
        ({
            let middle = ctx.height() / units(2);
            let spot = state.recycling_spot(ctx);
            let near = |t: MatchPlayerLite| (ctx.goal() - t.position).magnitude() < units(200);
            &&& spot.x == (if ctx.player.side == Some(PlayerSide::Left) {
                ctx.width() - units(160)
            } else {
                units(160)
            })
            &&& spot.y == middle - units(110) || spot.y == middle + units(110)
            &&& (forall|t: MatchPlayerLite| #[trigger]
                ctx.teammates@.contains(t) && near(t) ==> t.position.y >= middle) ==> spot.y == middle
                - units(110)
            &&& (forall|t: MatchPlayerLite| #[trigger]
                ctx.teammates@.contains(t) && near(t) ==> t.position.y < middle) && (exists|
                t: MatchPlayerLite,
            | #[trigger]
                ctx.teammates@.contains(t) && near(t)) ==> spot.y == middle + units(110)
        }),
{
    let middle = ctx.height() / units(2);
    let h: int = ctx.field_size.height as int;
    assert(middle.raw == h * 500_000);
    let left = |t: MatchPlayerLite|
        (ctx.goal() - t.position).magnitude() < units(200) && t.position.y < middle;
    let right = |t: MatchPlayerLite|
        (ctx.goal() - t.position).magnitude() < units(200) && t.position.y >= middle;
    assert(ctx.teammates.len() == ctx.teammates@.len());
    scan::count_tells_some(ctx.teammates@, left);
    scan::count_tells_some(ctx.teammates@, right);
    crate::scalar::one_changes_nothing(units(160));
    crate::scalar::minus_one_turns_the_sign(units(160));
    if exists|t: MatchPlayerLite| #[trigger]
        ctx.teammates@.contains(t) && (ctx.goal() - t.position).magnitude() < units(200) {
        let t = choose|t: MatchPlayerLite| #[trigger]
            ctx.teammates@.contains(t) && (ctx.goal() - t.position).magnitude() < units(200);
        assert(left(t) || right(t));
    }
}

/// The place of a missing forward is level with the one who is there, 100 off the middle on the
/// other side; with none there it is in the middle, 120 in front of the goal.
pub proof fn slots_are_opposite(
    state: MidfielderAttackSupportingState,
    ctx: &StateProcessingContext,
)
    requires
        ctx.field_size.width >= 200,
        ctx.field_size.height >= 260,
        ctx.goal().x == (if ctx.player.side == Some(PlayerSide::Left) {
            ctx.width()
        } else {
            units(0)
        }),
        ctx.player.side is Some,
    ensures
        ({
            let middle = ctx.height() / units(2);
            let spot = state.slot_spot(ctx);
            &&& state.forward_up_front(ctx) matches Some(t) ==> spot.x == t.position.x && spot.y == (if
                t.position.y < middle {
                middle + units(100)
            } else {
                middle - units(100)
            })
            &&& state.forward_up_front(ctx) is None ==> spot.y == middle && spot.x == (if ctx.player.side
                == Some(PlayerSide::Left) {
                ctx.width() - units(120)
            } else {
                units(120)
            })
            &&& state.fills_a_slot(ctx) <==> state.has_open_slot(ctx) && (spot
                - ctx.player.position).magnitude() > units(8)
        }),
{
    let middle = ctx.height() / units(2);
    let h: int = ctx.field_size.height as int;
    assert(middle.raw == h * 500_000);
    crate::scalar::one_changes_nothing(units(120));
    crate::scalar::minus_one_turns_the_sign(units(120));
}

/// The moves of a supporting midfielder without the ball: after a loose ball as the best placed,
/// to
/// the edge, to the place of a missing forward, to the spot that is left, or still once there.
pub proof fn supporters_move_in_order(
    state: MidfielderAttackSupportingState,
    ctx: &StateProcessingContext,
    refined: Vec3,
)
    requires
        state.fits_pitch(ctx),
        !ctx.player.has_ball,
    ensures
        ({
            let m = state.velocity(ctx, refined);
            let ours = ctx.owner_in_team() is Some;
            let edge = (state.recycling_spot(ctx) - ctx.player.position).magnitude();
            let there = (refined - ctx.player.position).magnitude() < units(8);
            let chase = (!ctx.team.control_ball || !ctx.ball.is_owned)
                && ctx.team.best_player_to_chase_ball
                && ctx.ball.distance < units(100);
            let last = (ctx.ball.position - ctx.goal()).magnitude() < ctx.width() * milli(250);
            let box_spot = state.calculate_late_box_run_position(ctx);
            &&& ours && state.recycles(ctx) && edge > units(8) ==> m == Some(
                arrive(state.recycling_spot(ctx), units(30)),
            )
            &&& ours && state.recycles(ctx) && edge <= units(8) ==> m == Some(still())
            &&& ours && !state.recycles(ctx) && state.fills_a_slot(ctx) ==> m == Some(
                arrive(state.slot_spot(ctx), units(20)),
            )
            &&& ours && !state.recycles(ctx) && !state.fills_a_slot(ctx)
                && there ==> m == Some(still())
            &&& ours && !state.recycles(ctx) && !state.fills_a_slot(ctx) && !there ==> m is Some
                && m->0.steering is Some && m->0.steering->0 is Arrive
                && m->0.steering->0->Arrive_target
                == refined
            &&& !ours && chase ==> m == Some(pursue(ctx.ball.position, ctx.ball.velocity))
            &&& !ours && !chase && !last && there ==> m == Some(still())
            &&& !ours && !chase && !last && !there ==> m is Some && m->0.steering is Some
                && m->0.steering->0 is Arrive && m->0.steering->0->Arrive_target == refined
            &&& !ours && !chase && last
                && (box_spot - ctx.player.position).magnitude() < units(8) ==> m
                == Some(still())
            &&& !ours && !chase && last
                && (box_spot - ctx.player.position).magnitude() >= units(8) ==> m is Some
                && m->0.steering is Some && m->0.steering->0 is Arrive
                && m->0.steering->0->Arrive_target
                == box_spot
        }),
{
}

/// With the ball under pressure the midfielder turns to the goal with a clear shot within 250, and
/// else away from an opponent within 15; otherwise the ball is carried at the goal on a free way,
/// and round an opponent within 20 of the space ahead.
pub proof fn carriers_find_a_way(
    state: MidfielderAttackSupportingState,
    ctx: &StateProcessingContext,
    refined: Vec3,
)
    requires
        state.fits_pitch(ctx),
        ctx.player.has_ball,
    ensures
        ({
            let m = state.velocity(ctx, refined);
            let hot = ctx.player.under_immediate_pressure;
            let shot = ctx.player.clear_shot && ctx.ball.distance_to_opponent_goal < units(250);
            let near = exists|o: MatchPlayerLite| #[trigger]
                ctx.opponents@.contains(o) && o.distance <= units(15);
            let blocked = state.is_way_blocked(ctx);
            &&& hot && shot ==> m == Some(glide_along(ctx.to_goal().direction(), units(2)))
            &&& hot && !shot && near ==> exists|o: MatchPlayerLite| #[trigger]
                ctx.opponents@.contains(o) && o.distance <= units(15) && m == Some(
                    glide_along((ctx.player.position - o.position).direction(), units(3)),
                )
            &&& (!hot || (!shot && !near)) && !blocked
                && ctx.player.max_speed != units(0) ==> m is Some
                && m->0.steering == Some(Steering::Seek { target: ctx.goal() })
            &&& (!hot || (!shot && !near)) && blocked ==> m is Some && m->0.steering is Some
                && m->0.steering->0 is Arrive
        }),
{
    let p = |o: MatchPlayerLite| o.distance <= units(15);
    scan::first_is_one_of_them(ctx.opponents@, p);
    if let Some(o) = scan::first_where(ctx.opponents@, p) {
        assert(ctx.opponents@.contains(o) && p(o));
    }
}

/// A run is the more urgent when behind, late, or near the goal: half of it always, a fifth each
/// for
/// the first two, a tenth for the last.
pub proof fn urgency_adds_up(state: MidfielderAttackSupportingState, ctx: &StateProcessingContext)
    ensures
        ({
            let sum = 500int + (if ctx.team.losing { 200int } else { 0 }) + (if ctx.time_is_running_out {
                200int
            } else {
                0
            }) + (if ctx.ball.distance_to_opponent_goal < units(200) { 100int } else { 0 });
            state.calculate_urgency_factor(ctx).raw == sum * 1000
        }),
{
}

/// Crowds grow with the players within 30, up to eight of them; a channel is the more crowded, the
/// more opponents are within 20 of its middle, three of them by one.
pub proof fn crowds_are_counted(
    state: MidfielderAttackSupportingState,
    ctx: &StateProcessingContext,
    spot: Vec3,
    a: Vec3,
    b: Vec3,
)
    ensures
        (forall|t: MatchPlayerLite| #[trigger] ctx.teammates@.contains(t) ==> t.position.distance_to(spot)
            > units(30)) && (forall|o: MatchPlayerLite| #[trigger]
            ctx.opponents@.contains(o) ==> o.position.distance_to(spot) > units(30))
            ==> state.calculate_crowd_factor(ctx, spot) == units(0),
        ctx.teammates_around(spot, units(30)) + ctx.opponents_around(spot, units(30)) == 4
            ==> state.calculate_crowd_factor(ctx, spot) == milli(500),
        ctx.opponents_around(spot, units(30)) >= 8 ==> state.calculate_crowd_factor(ctx, spot)
            == units(1),
        (forall|o: MatchPlayerLite| #[trigger] ctx.opponents@.contains(o) ==> (o.position - (a + b)
            * milli(500)).magnitude() >= units(20)) ==> state.calculate_channel_congestion(ctx, a, b)
            == units(0),
        (exists|o: MatchPlayerLite| #[trigger]
            ctx.opponents@.contains(o) && (o.position - (a + b) * milli(500)).magnitude() < units(20))
            ==> micro(333_333) <= state.calculate_channel_congestion(ctx, a, b),
{
    crate::context::around_means_close(ctx, spot, units(30), units(30));
    let n = ctx.teammates_around(spot, units(30));
    let m = ctx.opponents_around(spot, units(30));
    crate::context::counts_are_exact(n, 0, n, n);
    crate::context::counts_are_exact(m, 0, m, m);
    if m >= 8 {
        crate::scalar::quotient_keeps_order(units(8), headcount(n) + headcount(m), units(8));
        crate::scalar::whole_is_one(units(8));
    }
    let p = |o: MatchPlayerLite| (o.position - (a + b) * milli(500)).magnitude() < units(20);
    assert(ctx.opponents.len() == ctx.opponents@.len());
    scan::count_tells_some(ctx.opponents@, p);
    let c = scan::count_where(ctx.opponents@, p);
    if c > 0 {
        crate::scalar::quotient_keeps_order(units(1), headcount(c), units(3));
    }
}

/// Runs lead up the pitch: a run behind the line ends 120 in front of the goal, and 20 further
/// back
/// where that is offside; one round the outside 60 ahead of the ball, on the midfielder's flank;
/// one
/// across 70 ahead of it, 40 towards the middle; one in support about 35 ahead and 20 aside.
pub proof fn runs_lead_up_the_pitch(
    state: MidfielderAttackSupportingState,
    ctx: &StateProcessingContext,
)
    requires
        ctx.player.side is Some,
        ctx.goal().x.is_between(units(0), units(100_000)),
        ctx.ball.position.x.is_between(units(0), units(100_000)),
    ensures
        ({
            let right = ctx.player.side == Some(PlayerSide::Left);
            let ahead = |from: Scalar, by: i64| if right {
                from + units(by)
            } else {
                from - units(by)
            };
            let back = |from: Scalar, by: i64| if right {
                from - units(by)
            } else {
                from + units(by)
            };
            let lower = ctx.player.position.y < ctx.height() / units(2);
            let straight = flat(
                back(ctx.goal().x, 120),
                ctx.player.position.y + state.calculate_lateral_run_adjustment(ctx),
            );
            &&& !state.is_offside_risk(ctx, straight) ==> state.through_ball_spot(ctx) == straight
            &&& state.is_offside_risk(ctx, straight) ==> state.through_ball_spot(ctx) == flat(
                back(straight.x, 20),
                straight.y,
            )
            &&& state.overlap_spot(ctx).x == ahead(ctx.ball.position.x, 60)
            &&& lower ==> state.overlap_spot(ctx).y.raw == ctx.field_size.height * 150_000
            &&& !lower ==> state.overlap_spot(ctx).y.raw == ctx.field_size.height * 850_000
            &&& state.diagonal_spot(ctx) == flat(
                ahead(ctx.ball.position.x, 70),
                if lower {
                    ctx.player.position.y + units(40)
                } else {
                    ctx.player.position.y - units(40)
                },
            )
            &&& state.support_run_spot(ctx).x.raw == (if right {
                ctx.ball.position.x.raw + 34_641_000
            } else {
                ctx.ball.position.x.raw - 34_641_000
            })
            &&& state.support_run_spot(ctx).y == (if ctx.player.position.y < ctx.ball.position.y {
                ctx.ball.position.y + units(20).negated()
            } else {
                ctx.ball.position.y + units(20)
            })
        }),
{
    crate::scalar::one_changes_nothing(units(120));
    crate::scalar::minus_one_turns_the_sign(units(120));
    crate::scalar::one_changes_nothing(units(20));
    crate::scalar::minus_one_turns_the_sign(units(20));
    crate::scalar::one_changes_nothing(units(60));
    crate::scalar::minus_one_turns_the_sign(units(60));
    crate::scalar::one_changes_nothing(units(70));
    crate::scalar::minus_one_turns_the_sign(units(70));
    crate::scalar::thousandths_of(ctx.height(), 350);
    crate::scalar::multiple_is_exact(micro(866025), 40);
    crate::scalar::product_commutes(units(40), micro(866025));
    let step = units(40) * micro(866025);
    crate::scalar::one_changes_nothing(step);
    crate::scalar::minus_one_turns_the_sign(step);
    crate::scalar::thousandths_of(units(40), 500);
    assert(units(40) * milli(500).negated() == units(20).negated());
    let h: int = ctx.field_size.height as int;
    assert((ctx.height() / units(2)).raw == h * 500_000);
}

/// A run goes 30 outwards where two defenders or more crowd the middle, else 20 inwards from the
/// flank, else straight.
pub proof fn runs_avoid_crowds(
    state: MidfielderAttackSupportingState,
    ctx: &StateProcessingContext,
)
    ensures
        ({
            let middle = ctx.height() / units(2);
            let lower = ctx.player.position.y < middle;
            let crowds = |o: MatchPlayerLite|
                o.distance <= units(200)
                    && o.tactical_positions.group == PositionGroup::Defender && (
                o.position.y - middle).abs() < ctx.height() * milli(200);
            let out = (ctx.player.position.y - middle).abs() > ctx.height() * milli(250);
            &&& (exists|i: int, j: int|
                0 <= i < j < ctx.opponents@.len() && crowds(#[trigger] ctx.opponents@[i])
                    && crowds(
                    #[trigger] ctx.opponents@[j],
                )) ==> state.calculate_lateral_run_adjustment(ctx) == (if lower {
                units(30).negated()
            } else {
                units(30)
            })
            &&& (forall|o: MatchPlayerLite| #[trigger] ctx.opponents@.contains(o) ==> !crowds(o))
                && out
                ==> state.calculate_lateral_run_adjustment(ctx) == (if lower {
                units(20)
            } else {
                units(20).negated()
            })
            &&& (forall|o: MatchPlayerLite| #[trigger] ctx.opponents@.contains(o) ==> !crowds(o))
                && !out
                ==> state.calculate_lateral_run_adjustment(ctx) == units(0)
        }),
{
    let middle = ctx.height() / units(2);
    let p = |o: MatchPlayerLite|
        o.distance <= units(200) && o.tactical_positions.is_defender()
            && (o.position.y - middle).abs()
            < ctx.height() * milli(200);
    assert(ctx.opponents.len() == ctx.opponents@.len());
    scan::count_tells_some(ctx.opponents@, p);
    scan::count_tells_two(ctx.opponents@, p);
    let crowds = |o: MatchPlayerLite|
        o.distance <= units(200) && o.tactical_positions.group == PositionGroup::Defender && (
        o.position.y - middle).abs() < ctx.height() * milli(200);
    if exists|i: int, j: int|
        0 <= i < j < ctx.opponents@.len() && crowds(#[trigger] ctx.opponents@[i]) && crowds(
            #[trigger] ctx.opponents@[j],
        ) {
        let (i, j) = choose|i: int, j: int|
            0 <= i < j < ctx.opponents@.len() && crowds(#[trigger] ctx.opponents@[i]) && crowds(
                #[trigger] ctx.opponents@[j],
            );
        assert(p(ctx.opponents@[i]) && p(ctx.opponents@[j]));
    }
}

/// An arrival that would be offside is held back 18 and behind the last outfield opponent.
pub proof fn arrivals_stay_onside(
    state: MidfielderAttackSupportingState,
    ctx: &StateProcessingContext,
    x: Scalar,
)
    ensures
        ({
            let spot = state.arrival_spot(ctx);
            let r = state.calculate_arriving_runner_target(ctx);
            &&& !state.is_offside_risk(ctx, spot) ==> r == spot
            &&& state.is_offside_risk(ctx, spot) ==> r.y == spot.y
            &&& state.is_offside_risk(ctx, spot)
                && ctx.player.side == Some(PlayerSide::Left) ==> r.x
                <= spot.x - units(18) && r.x <= state.last_opponent(ctx)->0.position.x
            &&& state.is_offside_risk(ctx, spot)
                && ctx.player.side == Some(PlayerSide::Right) ==> r.x
                >= spot.x + units(18) && r.x >= state.last_opponent(ctx)->0.position.x
            &&& state.last_opponent(ctx) is None ==> state.onside_x(ctx, x) == x
            &&& state.last_opponent(ctx) matches Some(last) ==> {
                &&& ctx.player.side == Some(PlayerSide::Left) ==> state.onside_x(ctx, x) == x.min(
                    last.position.x,
                )
                &&& ctx.player.side == Some(PlayerSide::Right) ==> state.onside_x(ctx, x) == x.max(
                    last.position.x,
                )
            }
        }),
{
    crate::scalar::one_changes_nothing(units(18));
    crate::scalar::minus_one_turns_the_sign(units(18));
}

/// The arrival is on the far side of the ball: not below the middle for a ball below it, and not
/// above it for one above, where the goal is in the middle.
pub proof fn arrivals_are_far_from_the_ball(
    state: MidfielderAttackSupportingState,
    ctx: &StateProcessingContext,
)
    requires
        ctx.player.side is Some,
        ctx.goal().y == ctx.height() / units(2),
        ctx.goal().x.is_between(units(0), units(100_000)),
    ensures
        ({
            let middle = ctx.height() / units(2);
            let spot = state.arrival_spot(ctx);
            &&& ctx.ball.position.y < middle ==> middle <= spot.y && spot.y.raw <= middle.raw
                + ctx.field_size.height * 70_000
            &&& ctx.ball.position.y >= middle ==> spot.y <= middle
                && middle.raw - ctx.field_size.height
                * 70_000 <= spot.y.raw
            &&& ctx.player.side == Some(PlayerSide::Left) ==> spot.x == ctx.goal().x
                - state.arrival_depth(ctx)
            &&& ctx.player.side == Some(PlayerSide::Right) ==> spot.x == ctx.goal().x
                + state.arrival_depth(
                ctx,
            )
            &&& ctx.field_size.height * 70_000 <= state.arrival_width(ctx).raw
                && ctx.ball.position.y < middle
                ==> spot.y.raw == middle.raw + ctx.field_size.height * 70_000
        }),
{
    arrival_fits(state, ctx);
    let depth = state.arrival_depth(ctx);
    crate::scalar::one_changes_nothing(depth);
    crate::scalar::minus_one_turns_the_sign(depth);
    crate::scalar::thousandths_of(ctx.height(), 140);
    crate::scalar::thousandths_of(ctx.height(), 70);
    crate::scalar::one_changes_nothing(ctx.height());
    crate::scalar::minus_one_turns_the_sign(ctx.height());
    let h: int = ctx.field_size.height as int;
    assert((ctx.height() / units(2)).raw == h * 500_000);
    assert((ctx.height().negated() * milli(70)).raw == -(h * 70_000)) by {
        let x: int = ctx.height().raw as int;
        assert(x == h * 1_000_000);
        assert(-x * 70_000 == -(h * 70_000 * 1_000_000)) by (nonlinear_arith)
            requires
                x == h * 1_000_000,
        ;
        assert(crate::scalar::size(-(h * 70_000 * 1_000_000)) / 1_000_000 == h * 70_000);
    }
}

/// Without defenders near the goal the box is entered straight, 100 in front of it; else 150 in
/// front of it.
pub proof fn boxes_are_entered_in_gaps(
    state: MidfielderAttackSupportingState,
    ctx: &StateProcessingContext,
    goal: Vec3,
    widest: Option<Neighbours>,
    first: MatchPlayerLite,
    last: MatchPlayerLite,
)
    ensures
        (forall|o: MatchPlayerLite| #[trigger]
            ctx.opponents@.contains(o) && o.tactical_positions.group == PositionGroup::Defender ==> (o.position
                - goal).magnitude() >= units(200)) ==> state.find_box_entry_point(ctx, goal) == flat(
            goal.x - units(100),
            goal.y,
        ),
        (exists|o: MatchPlayerLite| #[trigger]
            ctx.opponents@.contains(o) && o.tactical_positions.group == PositionGroup::Defender && (o.position
                - goal).magnitude() < units(200)) ==> state.find_box_entry_point(ctx, goal).x == goal.x
            - units(150),
        ({
            let y = state.entry_y(ctx, goal, widest, first, last);
            let width = match widest {
                Some(n) => n.lateral_gap(),
                None => units(0),
            };
            let before = ctx.height() * milli(350) - first.position.y > width;
            let after = ctx.height() * milli(650) - last.position.y > width;
            &&& before ==> y == goal.y - units(80)
            &&& !before && after ==> y == goal.y + units(80)
            &&& !before && !after && widest is Some ==> y == widest->0.lateral_center()
            &&& !before && !after && widest is None ==> y == goal.y
        }),
{
    let p = |o: MatchPlayerLite|
        (o.position - goal).magnitude() < units(200) && o.tactical_positions.is_defender();
    assert(ctx.opponents.len() == ctx.opponents@.len());
    scan::count_tells_some(ctx.opponents@, p);
}

/// A flank is free with fewer than two opponents within 200 who are closer than 30 to its line;
/// the
/// middle is crowded with three opponents around the ball.
pub proof fn flanks_are_free(state: MidfielderAttackSupportingState, ctx: &StateProcessingContext)
    ensures
        ({
            let lower = ctx.player.position.y < ctx.height() / units(2);
            let line = if lower {
                ctx.height() * milli(150)
            } else {
                ctx.height() * milli(850)
            };
            let on_it = |o: MatchPlayerLite|
                o.distance <= units(200) && (o.position.y - line).abs() < units(30);
            &&& (forall|o: MatchPlayerLite| #[trigger] ctx.opponents@.contains(o) ==> !on_it(o))
                ==> state.check_wide_space(ctx)
            &&& (exists|i: int, j: int|
                0 <= i < j < ctx.opponents@.len() && on_it(#[trigger] ctx.opponents@[i]) && on_it(
                    #[trigger] ctx.opponents@[j],
                )) ==> !state.check_wide_space(ctx)
            &&& ctx.opponents@.len() == 1 ==> state.check_wide_space(ctx)
        }),
        (forall|o: MatchPlayerLite| #[trigger] ctx.opponents@.contains(o) ==> o.distance > units(150) || (
        o.position.x - ctx.ball.position.x).abs() >= units(50) || (o.position.y - ctx.height() / units(
            2,
        )).abs() >= ctx.height() * milli(200)) ==> !state.is_center_congested(ctx),
        state.is_center_congested(ctx) ==> ctx.opponents@.len() >= 3,
        (ctx.opponents@.len() == 3 && forall|o: MatchPlayerLite| #[trigger]
            ctx.opponents@.contains(o) ==> o.distance <= units(150)
                && (o.position.x - ctx.ball.position.x).abs()
                < units(50) && (o.position.y - ctx.height() / units(2)).abs() < ctx.height() * milli(200))
            ==> state.is_center_congested(ctx),
{
    let lower = ctx.player.position.y < ctx.height() / units(2);
    let flank_y = if lower {
        ctx.height() * milli(150)
    } else {
        ctx.height() * milli(850)
    };
    let p = |o: MatchPlayerLite|
        o.distance <= units(200) && (o.position.y - flank_y).abs() < units(30);
    assert(ctx.opponents.len() == ctx.opponents@.len());
    scan::count_tells_some(ctx.opponents@, p);
    scan::count_tells_two(ctx.opponents@, p);
    let q = |o: MatchPlayerLite|
        o.distance <= units(150)
            && (o.position.y - ctx.height() / units(2)).abs() < ctx.height() * milli(
            200,
        ) && (o.position.x - ctx.ball.position.x).abs() < units(50);
    scan::count_tells_some(ctx.opponents@, q);
    let all = |o: MatchPlayerLite| true;
    if ctx.opponents@.len() == 3 && forall|o: MatchPlayerLite| #[trigger]
        ctx.opponents@.contains(o) ==> o.distance <= units(150)
            && (o.position.x - ctx.ball.position.x).abs()
            < units(50)
                && (o.position.y - ctx.height() / units(2)).abs() < ctx.height() * milli(200) {
        assert forall|o: MatchPlayerLite| #[trigger] ctx.opponents@.contains(o) implies q(o)
            == all(o) by {
        }
        scan::counts_agree(ctx.opponents@, q, all);
        scan::all_are_counted(ctx.opponents@, all);
    }
}

/// A spot is of value with fewer than two opponents within 15 and at least two teammates between
/// 20
/// and 60 off.
pub proof fn values_need_company(
    state: MidfielderAttackSupportingState,
    ctx: &StateProcessingContext,
    spot: Vec3,
)
    ensures
        ({
            let joins = |t: MatchPlayerLite|
                units(20) < (t.position - spot).magnitude()
                    && (t.position - spot).magnitude() < units(60);
            &&& state.is_position_valuable(ctx, spot) ==> exists|i: int, j: int|
                0 <= i < j < ctx.teammates@.len() && joins(#[trigger] ctx.teammates@[i]) && joins(
                    #[trigger] ctx.teammates@[j],
                )
            &&& (forall|o: MatchPlayerLite| #[trigger]
                ctx.opponents@.contains(o) ==> o.position.distance_to(spot) > units(15)) && (exists|
                i: int,
                j: int,
            |
                0 <= i < j < ctx.teammates@.len() && joins(#[trigger] ctx.teammates@[i]) && joins(
                    #[trigger] ctx.teammates@[j],
                )) ==> state.is_position_valuable(ctx, spot)
            &&& (exists|i: int, j: int|
                0 <= i < j < ctx.opponents@.len()
                    && (#[trigger] ctx.opponents@[i]).position.distance_to(spot)
                    <= units(15) && (#[trigger] ctx.opponents@[j]).position.distance_to(spot) <= units(15))
                ==> !state.is_position_valuable(ctx, spot)
        }),
{
    let p = |t: MatchPlayerLite|
        (t.position - spot).magnitude() > units(20) && (t.position - spot).magnitude() < units(60);
    let joins = |t: MatchPlayerLite|
        units(20) < (t.position - spot).magnitude() && (t.position - spot).magnitude() < units(60);
    assert(ctx.teammates.len() == ctx.teammates@.len());
    assert(ctx.opponents.len() == ctx.opponents@.len());
    scan::count_tells_two(ctx.teammates@, p);
    if state.is_position_valuable(ctx, spot) {
        let (i, j) = choose|i: int, j: int|
            0 <= i < j < ctx.teammates@.len() && p(#[trigger] ctx.teammates@[i]) && p(
                #[trigger] ctx.teammates@[j],
            );
        assert(joins(ctx.teammates@[i]) && joins(ctx.teammates@[j]));
    }
    if exists|i: int, j: int|
        0 <= i < j < ctx.teammates@.len() && joins(#[trigger] ctx.teammates@[i]) && joins(
            #[trigger] ctx.teammates@[j],
        ) {
        let (i, j) = choose|i: int, j: int|
            0 <= i < j < ctx.teammates@.len() && joins(#[trigger] ctx.teammates@[i]) && joins(
                #[trigger] ctx.teammates@[j],
            );
        assert(p(ctx.teammates@[i]) && p(ctx.teammates@[j]));
    }
    let q = |o: MatchPlayerLite| o.position.distance_to(spot) <= units(15);
    scan::count_tells_some(ctx.opponents@, q);
    scan::count_tells_two(ctx.opponents@, q);
}

/// Support in the build-up is 80 ahead of the ball; out on the flank 50 ahead of it, on the side
/// with fewer teammates; a channel is run through to 95 in front of the goal and 20 short of that
/// where it is offside; and the edge of the box is 180 out and 100 off the middle.
pub proof fn supports_have_their_places(
    state: MidfielderAttackSupportingState,
    ctx: &StateProcessingContext,
    channel: Channel,
)
    requires
        ctx.player.side is Some,
        ctx.goal().x.is_between(units(0), units(100_000)),
        ctx.ball.position.x.is_between(units(0), units(100_000)),
    ensures
        ({
            let right = ctx.player.side == Some(PlayerSide::Left);
            let ahead = |from: Scalar, by: i64| if right {
                from + units(by)
            } else {
                from - units(by)
            };
            let back = |from: Scalar, by: i64| if right {
                from - units(by)
            } else {
                from + units(by)
            };
            let lower = ctx.player.position.y < ctx.height() / units(2);
            let end = flat(back(ctx.goal().x, 95), channel.center_y);
            &&& state.calculate_wide_support(ctx).x == ahead(ctx.ball.position.x, 50)
            &&& state.calculate_wide_support(ctx).y.raw == ctx.field_size.height * 150_000
                || state.calculate_wide_support(ctx).y.raw == ctx.field_size.height * 850_000
            &&& (forall|t: MatchPlayerLite| #[trigger]
                ctx.teammates@.contains(t) ==> t.position.y >= ctx.height() * milli(300))
                ==> state.calculate_wide_support(ctx).y.raw == ctx.field_size.height * 150_000
            &&& (forall|t: MatchPlayerLite| #[trigger]
                ctx.teammates@.contains(t) ==> t.position.y <= ctx.height() * milli(700)) && (exists|
                t: MatchPlayerLite,
            | #[trigger]
                ctx.teammates@.contains(t) && t.position.y < ctx.height() * milli(300))
                ==> state.calculate_wide_support(ctx).y.raw == ctx.field_size.height * 850_000
            &&& !state.is_offside_risk(ctx, end) ==> state.channel_spot(ctx, channel) == end
            &&& state.is_offside_risk(ctx, end) ==> state.channel_spot(ctx, channel) == flat(
                back(end.x, 20),
                end.y,
            )
            &&& state.box_edge_spot(ctx) == flat(
                back(ctx.goal().x, 180),
                if lower {
                    ctx.goal().y - units(100)
                } else {
                    ctx.goal().y + units(100)
                },
            )
        }),
{
    crate::scalar::one_changes_nothing(units(50));
    crate::scalar::minus_one_turns_the_sign(units(50));
    crate::scalar::one_changes_nothing(units(95));
    crate::scalar::minus_one_turns_the_sign(units(95));
    crate::scalar::one_changes_nothing(units(180));
    crate::scalar::minus_one_turns_the_sign(units(180));
    crate::scalar::one_changes_nothing(units(20).negated());
    crate::scalar::minus_one_turns_the_sign(units(20).negated());
    crate::scalar::thousandths_of(ctx.height(), 150);
    crate::scalar::thousandths_of(ctx.height(), 850);
    let left = |t: MatchPlayerLite| t.position.y < ctx.height() * milli(300);
    let right = |t: MatchPlayerLite| t.position.y > ctx.height() * milli(700);
    assert(ctx.teammates.len() == ctx.teammates@.len());
    scan::count_tells_some(ctx.teammates@, left);
    scan::count_tells_some(ctx.teammates@, right);
}

/// A midfielder moves 30 outwards from a crowd, 20 outwards from the middle, and else not at all.
pub proof fn crowds_are_left_outwards(
    state: MidfielderAttackSupportingState,
    ctx: &StateProcessingContext,
)
    ensures
        ({
            let lower = ctx.player.position.y < ctx.height() / units(2);
            let crowded = state.calculate_crowd_factor(ctx, ctx.player.position) > milli(500);
            let central = (
                ctx.player.position.y - ctx.height() / units(2)
            ).abs() < ctx.height() * milli(200);
            let shift = state.calculate_lateral_movement(ctx);
            &&& crowded ==> shift == (if lower { units(30).negated() } else { units(30) })
            &&& !crowded
                && central ==> shift == (if lower { units(20).negated() } else { units(20) })
            &&& !crowded && !central ==> shift == units(0)
        }),
{
}

/// The triangle has its corner half way between the ball and the attacker furthest up, 30 towards
/// the middle; without an attacker it is 40 ahead of the ball and 20 aside.
pub proof fn triangles_have_their_corner(
    state: MidfielderAttackSupportingState,
    ctx: &StateProcessingContext,
    holder: MatchPlayerLite,
)
    ensures
        state.spearhead(ctx) matches Some(t) ==> ctx.teammates@.contains(t)
            && t.distance <= units(300) && (
        t.tactical_positions.group == PositionGroup::Forward || t.tactical_positions.group
            == PositionGroup::Midfielder),
        state.spearhead(ctx) matches Some(t) ==> {
            let middle = (holder.position + t.position) * milli(500);
            let corner = state.create_passing_triangle(ctx, holder);
            &&& corner.x == middle.x + units(0)
            &&& middle.y < ctx.height() / units(2) ==> corner.y == middle.y + units(30)
            &&& middle.y >= ctx.height() / units(2) ==> corner.y == middle.y + units(30).negated()
        },
        state.spearhead(ctx) is None && ctx.player.side == Some(PlayerSide::Left)
            ==> state.create_passing_triangle(ctx, holder) == holder.position
                + flat(units(40), units(20)),
        state.spearhead(ctx) is None && ctx.player.side == Some(PlayerSide::Right)
            ==> state.create_passing_triangle(ctx, holder) == holder.position + flat(
            units(40).negated(),
            units(20),
        ),
        forall|t: MatchPlayerLite| #[trigger]
            ctx.teammates@.contains(t) && t.distance <= units(300) && t.tactical_positions.group
                == PositionGroup::Forward ==> (state.spearhead(ctx) matches Some(s) && t.position.x
                * attacking_direction(ctx) <= s.position.x * attacking_direction(ctx)),
        ({
            let high = |t: MatchPlayerLite| state.is_in_attacking_position(ctx, t);
            &&& ctx.player.side == Some(PlayerSide::Left) ==> (high(holder) <==> holder.position.x
                > ctx.width() * milli(600))
            &&& ctx.player.side == Some(PlayerSide::Right) ==> (high(holder) <==> holder.position.x
                < ctx.width() * milli(400))
        }),
        state.find_ball_holder(ctx) matches Some(t) ==> ctx.ball.owner_id == Some(t.id),
{
    let p = |t: MatchPlayerLite| t.distance <= units(300) && state.is_attacking_teammate(ctx, t);
    let k = |t: MatchPlayerLite| t.position.x * attacking_direction(ctx);
    scan::greatest_is_greatest(ctx.teammates@, p, k);
    if let Some(s) = state.spearhead(ctx) {
        assert(ctx.teammates@.contains(s) && p(s));
    }
    assert forall|t: MatchPlayerLite| #[trigger]
        ctx.teammates@.contains(t) && t.distance <= units(300) && t.tactical_positions.group
            == PositionGroup::Forward implies (state.spearhead(ctx) matches Some(s) && t.position.x
        * attacking_direction(ctx) <= s.position.x * attacking_direction(ctx)) by {
        assert(p(t));
        assert(k(t) <= k(state.spearhead(ctx)->0));
    }
    crate::scalar::one_changes_nothing(units(40));
    crate::scalar::minus_one_turns_the_sign(units(40));
    if let Some(id) = ctx.ball.owner_id {
        crate::context::owner_has_the_number(ctx, id);
    }
}

/// A spot is pushed straight away from a teammate within 80, the further the nearer, and from
/// nobody else.
pub proof fn spots_are_pushed_apart(
    state: MidfielderAttackSupportingState,
    ctx: &StateProcessingContext,
    spot: Vec3,
    t: MatchPlayerLite,
)
    ensures
        ({
            let apart = spot - t.position;
            let pushed = state.pushed_from(ctx, spot, t);
            let pushes = t.id != ctx.player.id && milli(10) < apart.magnitude()
                && apart.magnitude() < units(
                80,
            );
            &&& !pushes ==> pushed == spot
            &&& pushes && units(0) <= apart.normalize().x ==> spot.x <= pushed.x
            &&& pushes && apart.normalize().x <= units(0) ==> pushed.x <= spot.x
            &&& pushes && units(0) <= apart.normalize().y ==> spot.y <= pushed.y
            &&& pushes && apart.normalize().y <= units(0) ==> pushed.y <= spot.y
            &&& pushes
                && apart.magnitude() == units(40) ==> pushed == spot
                    + apart.normalize() * milli(500)
                * units(35)
        }),
        ctx.teammates@.len() == 0 ==> state.apply_teammate_spacing(ctx, spot)
            == clamp_to_field(ctx, spot),
{
    let apart = spot - t.position;
    let distance = apart.magnitude();
    if distance < units(80) {
        crate::scalar::quotient_keeps_order(units(0), units(80) - distance, units(80));
        let share_left = (units(80) - distance) / units(80);
        let way = apart.normalize();
        crate::scalar::product_keeps_sign(way.x, share_left);
        crate::scalar::product_keeps_sign(way.y, share_left);
        crate::scalar::product_keeps_sign(way.x * share_left, units(35));
        crate::scalar::product_keeps_sign(way.y * share_left, units(35));
    }
}

/// With a line of the opponents missing the midfielder steps 40 forward; between one defender and
/// one midfielder the place is half way between the two.
pub proof fn lines_have_a_middle(
    state: MidfielderAttackSupportingState,
    ctx: &StateProcessingContext,
)
    ensures
        ({
            let spot = state.position_between_lines(ctx);
            let missing = (forall|o: MatchPlayerLite| #[trigger]
                ctx.opponents@.contains(o) ==> o.tactical_positions.group != PositionGroup::Defender) || (
            forall|o: MatchPlayerLite| #[trigger]
                ctx.opponents@.contains(o) ==> o.tactical_positions.group != PositionGroup::Midfielder);
            &&& missing
                && ctx.player.side == Some(PlayerSide::Left) ==> spot == ctx.player.position + flat(
                units(40),
                units(0),
            )
            &&& missing
                && ctx.player.side == Some(PlayerSide::Right) ==> spot == ctx.player.position
                    + flat(
                units(40).negated(),
                units(0),
            )
            &&& !missing ==> spot.y == ctx.player.position.y && spot.x == (state.average_depth(
                ctx,
                PositionGroup::Defender,
            ) + state.average_depth(ctx, PositionGroup::Midfielder)) / units(2)
        }),
{
    scan::some_is_one_of_them(
        ctx.opponents@,
        |o: MatchPlayerLite| o.tactical_positions.is_defender(),
    );
    scan::some_is_one_of_them(
        ctx.opponents@,
        |o: MatchPlayerLite| o.tactical_positions.is_midfielder(),
    );
    crate::scalar::one_changes_nothing(units(40));
    crate::scalar::minus_one_turns_the_sign(units(40));
}

/// A midfielder without teammates around builds up 80 ahead of the ball, aside as far as the crowd
/// asks for; supports between the lines, or wide where the middle is crowded; and a run is drawn
/// six
/// parts in ten to the own lane.
pub proof fn proposals_have_their_places(
    state: MidfielderAttackSupportingState,
    ctx: &StateProcessingContext,
)
    requires
        ctx.field_size.width >= 20,
        ctx.field_size.height >= 20,
        ctx.player.side == Some(PlayerSide::Left),
        ctx.teammates@.len() == 0,
        state.find_ball_holder(ctx) is None,
    ensures
        state.calculate_buildup_support_position(ctx) == clamp_to_field(
            ctx,
            clamp_to_field(
                ctx,
                flat(
                    ctx.ball.position.x + units(80),
                    ctx.ball.position.y + state.calculate_lateral_movement(ctx),
                ),
            ),
        ),
        state.is_center_congested(ctx) ==> state.calculate_middle_third_support(ctx)
            == clamp_to_field(
            ctx,
            clamp_to_field(ctx, state.calculate_wide_support(ctx)),
        ),
        !state.is_center_congested(ctx) ==> state.calculate_middle_third_support(ctx)
            == clamp_to_field(
            ctx,
            clamp_to_field(ctx, state.position_between_lines(ctx)),
        ),
        state.ball_to_goal(ctx) < ctx.width() * milli(500) ==> state.support_proposal(ctx)
            == state.calculate_middle_third_support(ctx),
        state.ball_to_goal(ctx) >= ctx.width() * milli(500) ==> state.support_proposal(ctx)
            == state.calculate_buildup_support_position(ctx),
        ({
            let raw = state.calculate_attacking_run_position(ctx);
            state.run_proposal(ctx) == clamp_to_field(
                ctx,
                flat(raw.x, raw.y * milli(400) + ctx.player.start_position.y * milli(600)),
            )
        }),
{
    crate::scalar::one_changes_nothing(units(80));
}

/// Close to the goal a runner with cover arrives in front of it; any other run leads where its
/// kind
/// leads, on the pitch.
pub proof fn kinds_of_runs_lead_apart(
    state: MidfielderAttackSupportingState,
    ctx: &StateProcessingContext,
)
    requires
        ctx.field_size.width >= 20,
        ctx.field_size.height >= 20,
    ensures
        ({
            let r = state.calculate_attacking_run_position(ctx);
            let arrives = state.ball_to_goal(ctx) < ctx.width() * milli(330)
                && state.should_make_attacking_run(
                ctx,
            );
            let kind = state.determine_run_type(ctx, state.ball_to_goal(ctx));
            &&& arrives ==> r == clamp_to_field(ctx, state.calculate_arriving_runner_target(ctx))
            &&& !arrives && kind == AttackingRunType::ThroughBall ==> r == clamp_to_field(
                ctx,
                state.through_ball_spot(ctx),
            )
            &&& !arrives && kind == AttackingRunType::OverlapRun ==> r == clamp_to_field(
                ctx,
                state.overlap_spot(ctx),
            )
            &&& !arrives && kind == AttackingRunType::LateBoxRun ==> r == clamp_to_field(
                ctx,
                state.find_box_entry_point(ctx, ctx.goal()),
            )
            &&& !arrives && kind == AttackingRunType::SupportRun ==> r == clamp_to_field(
                ctx,
                state.support_run_spot(ctx),
            )
            &&& !arrives && kind == AttackingRunType::DiagonalRun ==> r == clamp_to_field(
                ctx,
                state.diagonal_spot(ctx),
            )
        }),
{
}

} // verus!
