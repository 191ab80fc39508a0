//! A forward who walks about.
use crate::context::StateProcessingContext;
use crate::movement::wander_about;
use crate::outcome::{
    arrive, exertion_with_velocity, seek, steer, with_forward_state, ActivityIntensity, Exertion,
    ForwardState, Movement, StateChangeResult, Steering,
};
use crate::scalar::units;
use vstd::prelude::*;

verus! {

#[derive(Default, Clone, Copy)]
pub struct ForwardWalkingState {}

impl ForwardWalkingState {
    pub open spec fn spec_process(
        &self,
        ctx: &StateProcessingContext,
    ) -> Option<StateChangeResult> {
        if ctx.player.stranded_offside {
            Some(with_forward_state(ForwardState::Returning))
        } else if ctx.ball.team_attacking_corner && ctx.player.has_ball {
            Some(with_forward_state(ForwardState::Crossing))
        } else if ctx.ball.team_attacking_corner && ctx.player.corner_zone.is_some() {
            Some(with_forward_state(ForwardState::CornerRun))
        } else if ctx.ball.opponent_goal_kick {
            None
        } else if ctx.ball.is_owned {
            if ctx.team.control_ball {
                Some(with_forward_state(ForwardState::CreatingSpace))
            } else {
                Some(with_forward_state(ForwardState::Running))
            }
        } else if ctx.ball.should_take_immediately && ctx.team.best_player_to_chase_ball {
            Some(with_forward_state(ForwardState::TakeBall))
        } else {
            None
        }
    }

    /// The next state of a walking forward.
    #[verifier::when_used_as_spec(spec_process)]
    pub fn process(&self, ctx: &StateProcessingContext) -> (r: Option<StateChangeResult>)
        ensures
            r == self.spec_process(ctx),
    {
        // Beyond the line every clearance would find the forward offside.
        if ctx.player.stranded_offside {
            return Some(with_forward_state(ForwardState::Returning));
        }
        if ctx.ball.team_attacking_corner && ctx.player.has_ball {
            return Some(with_forward_state(ForwardState::Crossing));
        }
        if ctx.ball.team_attacking_corner && ctx.player.corner_zone.is_some() {
            return Some(with_forward_state(ForwardState::CornerRun));
        }
        if ctx.ball.opponent_goal_kick {
            return None;
        }
        if ctx.ball.is_owned {
            if ctx.team.control_ball {
                return Some(with_forward_state(ForwardState::CreatingSpace));
            } else {
                return Some(with_forward_state(ForwardState::Running));
            }
        }
        if ctx.ball.should_take_immediately && ctx.team.best_player_to_chase_ball {
            return Some(with_forward_state(ForwardState::TakeBall));
        }
        None
    }

    pub open spec fn spec_velocity(&self, ctx: &StateProcessingContext) -> Option<Movement> {
        if ctx.ball.opponent_goal_kick {
            Some(seek(ctx.player.start_position))
        } else {
            match ctx.player.vacant_midfield_slot {
                Some(slot) => {
                    Some(arrive(slot, units(30)))
                },
                None => {
                    if ctx.player.should_follow_waypoints && ctx.player.waypoint_count > 0 {
                        Some(steer(Steering::FollowPath { path_offset: ctx.rolls.path_offset }))
                    } else {
                        Some(wander_about(ctx, ctx.player.start_position))
                    }
                },
            }
        }
    }

    /// Back at a goal kick, into an uncovered place in midfield, along the waypoints, or about
    /// the start position.
    #[verifier::when_used_as_spec(spec_velocity)]
    pub fn velocity(&self, ctx: &StateProcessingContext) -> (r: Option<Movement>)
        ensures
            r == self.spec_velocity(ctx),
    {
        if ctx.ball.opponent_goal_kick {
            return Some(seek(ctx.player.start_position));
        }
        match ctx.player.vacant_midfield_slot {
            Some(slot) => {
                return Some(arrive(slot, units(30)));
            },
            None => {},
        }
        if ctx.player.should_follow_waypoints && ctx.player.waypoint_count > 0 {
            return Some(steer(Steering::FollowPath { path_offset: ctx.rolls.path_offset }));
        }
        Some(wander_about(ctx, ctx.player.start_position))
    }

    pub open spec fn spec_process_conditions(&self) -> Exertion {
        exertion_with_velocity(ActivityIntensity::Low)
    }

    /// The load of the state.
    #[verifier::when_used_as_spec(spec_process_conditions)]
    pub fn process_conditions(&self) -> (r: Exertion)
        ensures
            r == self.spec_process_conditions(),
    {
        exertion_with_velocity(ActivityIntensity::Low)
    }
}

/// A walking forward never stays in an offside position.
pub proof fn offside_is_left(state: ForwardWalkingState, ctx: &StateProcessingContext)
    requires
        ctx.player.stranded_offside,
    ensures
        state.process(ctx) == Some(with_forward_state(ForwardState::Returning)),
{
}

/// An onside forward on a walk crosses a corner with the ball and attacks the zone without it,
/// lets
/// a goal kick of the opponents be, makes space once the team has the ball and runs once the
/// others
/// have it, and takes a loose one that is there to be taken as the best placed.
pub proof fn walks_end(state: ForwardWalkingState, ctx: &StateProcessingContext)
    requires
        !ctx.player.stranded_offside,
    ensures
        ({
            let goes_to = |s: ForwardState| state.process(ctx) == Some(with_forward_state(s));
            let corner = ctx.ball.team_attacking_corner && (ctx.player.has_ball
                || ctx.player.corner_zone is Some);
            &&& ctx.ball.team_attacking_corner
                && ctx.player.has_ball ==> goes_to(ForwardState::Crossing)
            &&& ctx.ball.team_attacking_corner && !ctx.player.has_ball
                && ctx.player.corner_zone is Some
                ==> goes_to(ForwardState::CornerRun)
            &&& !corner && ctx.ball.opponent_goal_kick ==> state.process(ctx) is None
            &&& !corner && !ctx.ball.opponent_goal_kick && ctx.ball.is_owned ==> goes_to(
                if ctx.team.control_ball {
                    ForwardState::CreatingSpace
                } else {
                    ForwardState::Running
                },
            )
            &&& !corner && !ctx.ball.opponent_goal_kick && !ctx.ball.is_owned ==> if
                ctx.ball.should_take_immediately && ctx.team.best_player_to_chase_ball {
                goes_to(ForwardState::TakeBall)
            } else {
                state.process(ctx) is None
            }
        }),
{
}

/// At a goal kick the forward goes back to the start position, else fills an uncovered place in
/// midfield, follows the waypoints, or strolls about the start position.
pub proof fn walks_lead_somewhere(state: ForwardWalkingState, ctx: &StateProcessingContext)
    ensures
        state.velocity(ctx) matches Some(m) && m.factor == units(1) && (if ctx.ball.opponent_goal_kick {
            m.steering == Some(Steering::Seek { target: ctx.player.start_position })
        } else if ctx.player.vacant_midfield_slot is Some {
            m.steering == Some(
                Steering::Arrive {
                    target: ctx.player.vacant_midfield_slot->0,
                    slowing_distance: units(30),
                },
            )
        } else if ctx.player.should_follow_waypoints && ctx.player.waypoint_count > 0 {
            m.steering matches Some(Steering::FollowPath { .. })
        } else {
            m.steering matches Some(Steering::Wander { target, .. }) && target
                == ctx.player.start_position
        }),
{
}

} // verus!
