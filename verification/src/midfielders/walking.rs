//! A midfielder who walks and keeps the shape.
use crate::context::{MatchPlayerLite, StateProcessingContext};
use crate::outcome::{
    arrive, exertion_with_velocity, steer, still, with_midfielder_state, ActivityIntensity,
    Exertion, MidfielderState, Movement, StateChangeResult, Steering,
};
use crate::scalar::{milli, units};
use crate::scan;
use crate::vector::{vec3, Vec3};
use vstd::prelude::*;

verus! {

#[derive(Default, Clone, Copy)]
pub struct MidfielderWalkingState {}

impl MidfielderWalkingState {
    pub open spec fn spec_process(
        &self,
        ctx: &StateProcessingContext,
    ) -> Option<StateChangeResult> {
        if ctx.player.has_ball {
            Some(with_midfielder_state(MidfielderState::Running))
        } else if ctx.ball.team_attacking_corner && ctx.player.corner_zone.is_some() {
            Some(with_midfielder_state(MidfielderState::CornerRun))
        } else if ctx.ball.opponent_goal_kick {
            None
        } else {
            match ctx.carrier_within(units(60)) {
                Some(carrier) => {
                    if (carrier.position - ctx.player.position).magnitude() < units(40) {
                        Some(with_midfielder_state(MidfielderState::Tackling))
                    } else {
                        Some(with_midfielder_state(MidfielderState::Pressing))
                    }
                },
                None => {
                    if !ctx.ball.is_owned && ctx.ball.in_flight
                    && (
                        ctx.ball.landing_position - ctx.player.position
                    ).norm_squared() < units(10000) {
                        Some(with_midfielder_state(MidfielderState::Intercepting))
                    } else if ctx.ball.should_take_immediately
                        && ctx.team.best_player_to_chase_ball {
                        Some(with_midfielder_state(MidfielderState::TakeBall))
                    } else if ctx.team.control_ball {
                        self.in_possession(ctx)
                    } else {
                        self.out_of_possession(ctx)
                    }
                },
            }
        }
    }

    /// The next state of a walking midfielder.
    #[verifier::when_used_as_spec(spec_process)]
    pub fn process(&self, ctx: &StateProcessingContext) -> (r: Option<StateChangeResult>)
        ensures
            r == self.spec_process(ctx),
    {
        if ctx.player.has_ball {
            return Some(with_midfielder_state(MidfielderState::Running));
        }
        if ctx.ball.team_attacking_corner && ctx.player.corner_zone.is_some() {
            return Some(with_midfielder_state(MidfielderState::CornerRun));
        }
        if ctx.ball.opponent_goal_kick {
            return None;
        }
        match ctx.carrier_within(units(60)) {
            Some(carrier) => {
                if (carrier.position - ctx.player.position).magnitude() < units(40) {
                    return Some(with_midfielder_state(MidfielderState::Tackling));
                } else {
                    return Some(with_midfielder_state(MidfielderState::Pressing));
                }
            },
            None => {},
        }
        if !ctx.ball.is_owned && ctx.ball.in_flight
        && (ctx.ball.landing_position - ctx.player.position).norm_squared() < units(10000) {
            return Some(with_midfielder_state(MidfielderState::Intercepting));
        }
        if ctx.ball.should_take_immediately && ctx.team.best_player_to_chase_ball {
            return Some(with_midfielder_state(MidfielderState::TakeBall));
        }
        if ctx.team.control_ball {
            self.in_possession(ctx)
        } else {
            self.out_of_possession(ctx)
        }
    }

    pub open spec fn spec_in_possession(
        &self,
        ctx: &StateProcessingContext,
    ) -> Option<StateChangeResult> {
        if ctx.ball.is_towards_player_with_angle(milli(800)) && ctx.ball.distance < units(250) {
            Some(with_midfielder_state(MidfielderState::Intercepting))
        } else if ctx.in_state_time > 120 {
            Some(with_midfielder_state(MidfielderState::Running))
        } else {
            None
        }
    }

    /// The team has the ball: the midfielder takes a ball that comes this way, and runs after a
    /// long walk.
    #[verifier::when_used_as_spec(spec_in_possession)]
    pub fn in_possession(&self, ctx: &StateProcessingContext) -> (r: Option<StateChangeResult>)
        ensures
            r == self.spec_in_possession(ctx),
    {
        if ctx.ball.is_towards_player_with_angle(milli(800)) && ctx.ball.distance < units(250) {
            return Some(with_midfielder_state(MidfielderState::Intercepting));
        }
        if ctx.in_state_time > 120 {
            return Some(with_midfielder_state(MidfielderState::Running));
        }
        None
    }

    pub open spec fn spec_out_of_possession(
        &self,
        ctx: &StateProcessingContext,
    ) -> Option<StateChangeResult> {
        if ctx.ball.distance < units(200) && ctx.ball.stopped {
            Some(with_midfielder_state(MidfielderState::Running))
        } else if ctx.ball.is_towards_player_with_angle(milli(800))
            && ctx.ball.distance < units(100) {
            Some(with_midfielder_state(MidfielderState::Intercepting))
        } else if ctx.ball.is_towards_player_with_angle(milli(800))
            && ctx.ball.distance < units(150) {
            Some(with_midfielder_state(MidfielderState::Pressing))
        } else if ctx.ball.distance < units(50)
            && scan::some_where(
                ctx.opponents@,
                |o: MatchPlayerLite| o.distance <= units(150) && o.distance < units(50),
            ) {
            Some(with_midfielder_state(MidfielderState::Tackling))
        } else if ctx.ball.on_own_side {
            if ctx.ball.distance < units(150) {
                Some(with_midfielder_state(MidfielderState::Pressing))
            } else {
                Some(with_midfielder_state(MidfielderState::Guarding))
            }
        } else if ctx.in_state_time > 20 {
            Some(with_midfielder_state(MidfielderState::Running))
        } else {
            None
        }
    }

    /// The others have the ball: the midfielder closes in, or runs after a short walk.
    #[verifier::when_used_as_spec(spec_out_of_possession)]
    pub fn out_of_possession(
        &self,
        ctx: &StateProcessingContext,
    ) -> (r: Option<StateChangeResult>)
        ensures
            r == self.spec_out_of_possession(ctx),
    {
        if ctx.ball.distance < units(200) && ctx.ball.stopped {
            return Some(with_midfielder_state(MidfielderState::Running));
        }
        if ctx.ball.is_towards_player_with_angle(milli(800)) && ctx.ball.distance < units(100) {
            return Some(with_midfielder_state(MidfielderState::Intercepting));
        }
        if ctx.ball.is_towards_player_with_angle(milli(800)) && ctx.ball.distance < units(150) {
            return Some(with_midfielder_state(MidfielderState::Pressing));
        }
        if ctx.ball.distance < units(50) && scan::any_of(
            &ctx.opponents,
            |o: MatchPlayerLite| -> (b: bool)
                ensures b == (o.distance <= units(150) && o.distance < units(50))
            {
                o.distance <= units(150) && o.distance < units(50)
            },
            Ghost(|o: MatchPlayerLite| o.distance <= units(150) && o.distance < units(50)),
        ) {
            return Some(with_midfielder_state(MidfielderState::Tackling));
        }
        if ctx.ball.on_own_side {
            if ctx.ball.distance < units(150) {
                return Some(with_midfielder_state(MidfielderState::Pressing));
            } else {
                return Some(with_midfielder_state(MidfielderState::Guarding));
            }
        }
        if ctx.in_state_time > 20 {
            return Some(with_midfielder_state(MidfielderState::Running));
        }
        None
    }

    pub open spec fn spec_shape_anchor(&self, ctx: &StateProcessingContext) -> Vec3 {
        let start = ctx.player.start_position;
        vec3(
            start.x + (ctx.ball.position.x - ctx.width() / units(2)) * milli(150),
            start.y,
            start.z,
        )
    }

    /// The place in the block of the team, which shifts with the ball.
    #[verifier::when_used_as_spec(spec_shape_anchor)]
    pub fn shape_anchor(&self, ctx: &StateProcessingContext) -> (r: Vec3)
        ensures
            r == self.spec_shape_anchor(ctx),
    {
        let start = ctx.player.start_position;
        vec3(
            start.x + (ctx.ball.position.x - ctx.width() / units(2)) * milli(150),
            start.y,
            start.z,
        )
    }

    pub open spec fn spec_velocity(&self, ctx: &StateProcessingContext) -> Option<Movement> {
        if ctx.ball.opponent_goal_kick {
            Some(arrive(ctx.player.start_position, units(30)))
        } else {
            match ctx.player.vacant_forward_slot {
                Some(slot) => {
                    Some(arrive(slot, units(30)))
                },
                None => {
                    if ctx.player.should_follow_waypoints && ctx.player.waypoint_count > 0 {
                        Some(steer(Steering::FollowPath { path_offset: units(5) }))
                    } else {
                        let anchor = self.shape_anchor(ctx);
                        if (anchor - ctx.player.position).magnitude() < units(5) {
                            Some(still())
                        } else {
                            Some(arrive(anchor, units(30)).scaled(milli(400)))
                        }
                    }
                },
            }
        }
    }

    /// Back at a goal kick, into an uncovered place up front, along the waypoints, or at a
    /// walk to the place in the block.
    #[verifier::when_used_as_spec(spec_velocity)]
    pub fn velocity(&self, ctx: &StateProcessingContext) -> (r: Option<Movement>)
        ensures
            r == self.spec_velocity(ctx),
    {
        if ctx.ball.opponent_goal_kick {
            return Some(arrive(ctx.player.start_position, units(30)));
        }
        match ctx.player.vacant_forward_slot {
            Some(slot) => {
                return Some(arrive(slot, units(30)));
            },
            None => {},
        }
        if ctx.player.should_follow_waypoints && ctx.player.waypoint_count > 0 {
            return Some(steer(Steering::FollowPath { path_offset: units(5) }));
        }
        let anchor = self.shape_anchor(ctx);
        if (anchor - ctx.player.position).magnitude() < units(5) {
            return Some(still());
        }
        Some(arrive(anchor, units(30)).scaled(milli(400)))
    }

    pub open spec fn spec_process_conditions(&self) -> Exertion {
        exertion_with_velocity(ActivityIntensity::Low)
    }

    /// The load of the state.
    #[verifier::when_used_as_spec(spec_process_conditions)]
    pub fn process_conditions(&self) -> (r: Exertion)
        ensures
            r == self.spec_process_conditions(),
    {
        exertion_with_velocity(ActivityIntensity::Low)
    }
}

/// At a goal kick of the opponents a walking midfielder without the ball lets the goalkeeper be.
pub proof fn goal_kick_is_not_pressed(state: MidfielderWalkingState, ctx: &StateProcessingContext)
    requires
        ctx.ball.opponent_goal_kick,
        !ctx.player.has_ball,
        !ctx.ball.team_attacking_corner,
    ensures
        state.process(ctx) is None,
{
}

/// A midfielder on a walk runs with the ball, joins a corner of the team, lets a goal kick of the
/// others be, tackles or presses a carrier within 60, cuts out a ball that drops close, and takes
/// a
/// loose one as the best placed.
pub proof fn walks_end_at_once(state: MidfielderWalkingState, ctx: &StateProcessingContext)
    ensures
        ({
            let goes_to = |s: MidfielderState| state.process(ctx) == Some(
                with_midfielder_state(s),
            );
            let free = !ctx.player.has_ball && !(ctx.ball.team_attacking_corner
                && ctx.player.corner_zone is Some);
            let open = free && !ctx.ball.opponent_goal_kick;
            let carrier = exists|o: MatchPlayerLite| #[trigger]
                ctx.opponents@.contains(o) && o.has_ball && o.distance <= units(60);
            let drops = !ctx.ball.is_owned && ctx.ball.in_flight && (ctx.ball.landing_position
                - ctx.player.position).norm_squared() < units(10_000);
            let taken = ctx.ball.should_take_immediately && ctx.team.best_player_to_chase_ball;
            &&& ctx.player.has_ball ==> goes_to(MidfielderState::Running)
            &&& !ctx.player.has_ball && !free ==> goes_to(MidfielderState::CornerRun)
            &&& free && ctx.ball.opponent_goal_kick ==> state.process(ctx) is None
            &&& open && carrier ==> goes_to(MidfielderState::Tackling)
                || goes_to(MidfielderState::Pressing)
            &&& open && carrier && (forall|o: MatchPlayerLite| #[trigger]
                ctx.opponents@.contains(o) && o.has_ball && o.distance <= units(60) ==> (o.position
                    - ctx.player.position).magnitude() < units(40)) ==> goes_to(MidfielderState::Tackling)
            &&& open && carrier && (forall|o: MatchPlayerLite| #[trigger]
                ctx.opponents@.contains(o) && o.has_ball && o.distance <= units(60) ==> (o.position
                    - ctx.player.position).magnitude() >= units(40)) ==> goes_to(MidfielderState::Pressing)
            &&& open && !carrier && drops ==> goes_to(MidfielderState::Intercepting)
            &&& open && !carrier && !drops && taken ==> goes_to(MidfielderState::TakeBall)
        }),
{
    crate::context::carriers_have_the_ball(ctx, units(60));
}

/// On a quiet walk the midfielder cuts out a ball that comes, runs after 120 steps while the team
/// has the ball; and without it closes in on a ball that lies, that comes or that is close to an
/// opponent, marks or presses in the own half, and runs after 20 steps.
pub proof fn walks_end(state: MidfielderWalkingState, ctx: &StateProcessingContext)
    requires
        !ctx.player.has_ball,
        !ctx.ball.team_attacking_corner,
        !ctx.ball.opponent_goal_kick,
        ctx.carrier_within(units(60)) is None,
        !ctx.ball.in_flight,
        !ctx.ball.should_take_immediately,
    ensures
        ({
            let goes_to = |s: MidfielderState| state.process(ctx) == Some(
                with_midfielder_state(s),
            );
            let comes = ctx.ball.heading >= milli(800);
            let ours = ctx.team.control_ball;
            let lies = ctx.ball.distance < units(200) && ctx.ball.stopped;
            let busy = lies || (comes && ctx.ball.distance < units(150));
            let close = ctx.ball.distance < units(50) && exists|o: MatchPlayerLite| #[trigger]
                ctx.opponents@.contains(o) && o.distance < units(50);
            &&& ours && comes
                && ctx.ball.distance < units(250) ==> goes_to(MidfielderState::Intercepting)
            &&& ours && !(comes && ctx.ball.distance < units(250)) ==> if ctx.in_state_time > 120 {
                goes_to(MidfielderState::Running)
            } else {
                state.process(ctx) is None
            }
            &&& !ours && lies ==> goes_to(MidfielderState::Running)
            &&& !ours && !lies && comes && ctx.ball.distance < units(100) ==> goes_to(
                MidfielderState::Intercepting,
            )
            &&& !ours && !lies && comes && units(100) <= ctx.ball.distance
                && ctx.ball.distance < units(150)
                ==> goes_to(MidfielderState::Pressing)
            &&& !ours && !busy && close ==> goes_to(MidfielderState::Tackling)
            &&& !ours && !busy && !close && ctx.ball.on_own_side ==> goes_to(
                if ctx.ball.distance < units(150) {
                    MidfielderState::Pressing
                } else {
                    MidfielderState::Guarding
                },
            )
            &&& !ours && !busy && !close && !ctx.ball.on_own_side ==> if ctx.in_state_time > 20 {
                goes_to(MidfielderState::Running)
            } else {
                state.process(ctx) is None
            }
        }),
{
    scan::some_is_one_of_them(
        ctx.opponents@,
        |o: MatchPlayerLite| o.distance <= units(150) && o.distance < units(50),
    );
}

/// At a goal kick of the others the midfielder goes back, else fills an uncovered place up front,
/// else follows the waypoints, and else strolls to the place in the block: it lies level with the
/// start position, is the start position itself while the ball is on the halfway line, and moves
/// with the ball along the pitch.
pub proof fn walks_keep_the_block(
    state: MidfielderWalkingState,
    ctx: &StateProcessingContext,
    other: &StateProcessingContext,
)
    requires
        ctx.player.start_position == other.player.start_position,
        ctx.width() == other.width(),
        ctx.ball.position.x <= other.ball.position.x,
    ensures
        state.shape_anchor(ctx).x <= state.shape_anchor(other).x,
        state.shape_anchor(ctx).y == ctx.player.start_position.y,
        state.shape_anchor(ctx).z == ctx.player.start_position.z,
        ctx.ball.position.x == ctx.width() / units(2) ==> state.shape_anchor(ctx)
            == ctx.player.start_position,
        ctx.ball.opponent_goal_kick ==> state.velocity(ctx) == Some(
            arrive(ctx.player.start_position, units(30)),
        ),
        (
            !ctx.ball.opponent_goal_kick && ctx.player.vacant_forward_slot is Some
        ) ==> state.velocity(ctx)
            == Some(arrive(ctx.player.vacant_forward_slot->0, units(30))),
        (!ctx.ball.opponent_goal_kick && ctx.player.vacant_forward_slot is None
            && ctx.player.should_follow_waypoints && ctx.player.waypoint_count > 0) ==> state.velocity(ctx)
            == Some(steer(Steering::FollowPath { path_offset: units(5) })),
        (!ctx.ball.opponent_goal_kick && ctx.player.vacant_forward_slot is None
            && !ctx.player.should_follow_waypoints) ==> (if (state.shape_anchor(ctx)
            - ctx.player.position).magnitude() < units(5) {
            state.velocity(ctx) == Some(still())
        } else {
            state.velocity(ctx) == Some(
                arrive(state.shape_anchor(ctx), units(30)).scaled(milli(400)),
            )
        }),
{
    crate::scalar::scaling_keeps_order(
        ctx.ball.position.x - ctx.width() / units(2),
        other.ball.position.x - ctx.width() / units(2),
        milli(150),
    );
    crate::scalar::zero_stays_zero(milli(150));
}

} // verus!
