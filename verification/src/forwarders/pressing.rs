//! A forward who presses the ball carrier.
use crate::context::{MatchPlayerLite, StateProcessingContext};
use crate::outcome::{
    arrive, exertion_with_velocity, pursue, with_forward_state, ActivityIntensity, Exertion,
    ForwardState, Movement, StateChangeResult, Steering,
};
use crate::scalar::{units, Scalar};
use vstd::prelude::*;

verus! {

#[derive(Default, Clone, Copy)]
pub struct ForwardPressingState {}

pub open spec fn spec_max_press_distance_from_start() -> Scalar {
    units(200)
}

/// How far from the start position a forward still presses.
#[verifier::when_used_as_spec(spec_max_press_distance_from_start)]
pub fn max_press_distance_from_start() -> (r: Scalar)
    ensures
        r == spec_max_press_distance_from_start(),
{
    units(200)
}

pub open spec fn spec_max_press_ball_distance() -> Scalar {
    units(120)
}

/// How far away the ball may be to be pressed.
#[verifier::when_used_as_spec(spec_max_press_ball_distance)]
pub fn max_press_ball_distance() -> (r: Scalar)
    ensures
        r == spec_max_press_ball_distance(),
{
    units(120)
}

impl ForwardPressingState {
    pub open spec fn spec_process(
        &self,
        ctx: &StateProcessingContext,
    ) -> Option<StateChangeResult> {
        if ctx.player.has_ball {
            Some(with_forward_state(ForwardState::Dribbling))
        } else if ctx.ball.in_flight && ctx.ball.is_owned {
            Some(with_forward_state(ForwardState::Running))
        } else if ctx.ball.opponent_restart {
            Some(with_forward_state(ForwardState::Returning))
        } else if !ctx.ball.is_owned && ctx.ball.distance < units(50)
            && ctx.ball.speed < units(3) {
            Some(with_forward_state(ForwardState::TakeBall))
        } else if ctx.ball.distance < units(30) && ctx.ball.is_owned {
            Some(with_forward_state(ForwardState::Tackling))
        } else if ctx.team.control_ball {
            Some(with_forward_state(ForwardState::Assisting))
        } else if ctx.ball.distance > max_press_ball_distance() {
            Some(with_forward_state(ForwardState::Returning))
        } else if ctx.player.distance_from_start_position > max_press_distance_from_start() {
            Some(with_forward_state(ForwardState::Returning))
        } else if ctx.ball.on_own_side {
            Some(with_forward_state(ForwardState::Returning))
        } else {
            None
        }
    }

    /// The next state of a pressing forward.
    #[verifier::when_used_as_spec(spec_process)]
    pub fn process(&self, ctx: &StateProcessingContext) -> (r: Option<StateChangeResult>)
        ensures
            r == self.spec_process(ctx),
    {
        if ctx.player.has_ball {
            return Some(with_forward_state(ForwardState::Dribbling));
        }
        // A free kick is not crowded.
        if ctx.ball.in_flight && ctx.ball.is_owned {
            return Some(with_forward_state(ForwardState::Running));
        }
        if ctx.ball.opponent_restart {
            return Some(with_forward_state(ForwardState::Returning));
        }
        if !ctx.ball.is_owned && ctx.ball.distance < units(50) && ctx.ball.speed < units(3) {
            return Some(with_forward_state(ForwardState::TakeBall));
        }
        if ctx.ball.distance < units(30) && ctx.ball.is_owned {
            return Some(with_forward_state(ForwardState::Tackling));
        }
        if ctx.team.control_ball {
            return Some(with_forward_state(ForwardState::Assisting));
        }
        if ctx.ball.distance > max_press_ball_distance() {
            return Some(with_forward_state(ForwardState::Returning));
        }
        if ctx.player.distance_from_start_position > max_press_distance_from_start() {
            return Some(with_forward_state(ForwardState::Returning));
        }
        if ctx.ball.on_own_side {
            return Some(with_forward_state(ForwardState::Returning));
        }
        None
    }

    pub open spec fn spec_velocity(&self, ctx: &StateProcessingContext) -> Option<Movement> {
        if self.chases(ctx) {
            Some(pursue(ctx.ball.position, ctx.ball.velocity).plus(ctx.player.separation_velocity))
        } else {
            Some(arrive(ctx.player.start_position, units(30)))
        }
    }

    /// After a ball that an opponent has or that is loose nearby, else back to the start
    /// position.
    #[verifier::when_used_as_spec(spec_velocity)]
    pub fn velocity(&self, ctx: &StateProcessingContext) -> (r: Option<Movement>)
        ensures
            r == self.spec_velocity(ctx),
    {
        if self.chases(ctx) {
            Some(pursue(ctx.ball.position, ctx.ball.velocity).plus(ctx.player.separation_velocity))
        } else {
            Some(arrive(ctx.player.start_position, units(30)))
        }
    }

    pub open spec fn spec_chases(&self, ctx: &StateProcessingContext) -> bool {
        if ctx.opponent_with_ball().is_some() {
            ctx.ball.distance < max_press_ball_distance()
        } else {
            !ctx.ball.is_owned && ctx.ball.distance < units(80)
        }
    }

    /// An opponent has the ball within range, or it is loose nearby.
    #[verifier::when_used_as_spec(spec_chases)]
    pub fn chases(&self, ctx: &StateProcessingContext) -> (r: bool)
        ensures
            r == self.spec_chases(ctx),
    {
        if ctx.opponent_with_ball().is_some() {
            ctx.ball.distance < max_press_ball_distance()
        } else {
            !ctx.ball.is_owned && ctx.ball.distance < units(80)
        }
    }

    pub open spec fn spec_process_conditions(&self) -> Exertion {
        exertion_with_velocity(ActivityIntensity::High)
    }

    /// The load of the state.
    #[verifier::when_used_as_spec(spec_process_conditions)]
    pub fn process_conditions(&self) -> (r: Exertion)
        ensures
            r == self.spec_process_conditions(),
    {
        exertion_with_velocity(ActivityIntensity::High)
    }
}

/// A pressing forward dribbles with the ball, leaves a free kick and a restart alone, takes a slow
/// loose ball nearby, tackles for an owned one at hand, helps out once the team has the ball, and
/// goes back from a far ball, from far out of place and from the own side; else the press goes on.
pub proof fn presses_end(state: ForwardPressingState, ctx: &StateProcessingContext)
    ensures
        ({
            let goes_to = |s: ForwardState| state.process(ctx) == Some(with_forward_state(s));
            let kick = ctx.ball.in_flight && ctx.ball.is_owned;
            let open = !ctx.player.has_ball && !kick && !ctx.ball.opponent_restart;
            let slow = !ctx.ball.is_owned && ctx.ball.distance < units(50)
                && ctx.ball.speed < units(3);
            let at_hand = ctx.ball.is_owned && ctx.ball.distance < units(30);
            let out_of_place = ctx.ball.distance > units(120)
                || ctx.player.distance_from_start_position
                > units(200) || ctx.ball.on_own_side;
            &&& ctx.player.has_ball ==> goes_to(ForwardState::Dribbling)
            &&& !ctx.player.has_ball && kick ==> goes_to(ForwardState::Running)
            &&& !ctx.player.has_ball && !kick && ctx.ball.opponent_restart ==> goes_to(
                ForwardState::Returning,
            )
            &&& open && slow ==> goes_to(ForwardState::TakeBall)
            &&& open && at_hand ==> goes_to(ForwardState::Tackling)
            &&& open && !slow && !at_hand
                && ctx.team.control_ball ==> goes_to(ForwardState::Assisting)
            &&& open && !slow && !at_hand && !ctx.team.control_ball ==> if out_of_place {
                goes_to(ForwardState::Returning)
            } else {
                state.process(ctx) is None
            }
        }),
{
}

/// A ball of the opponents in range, or a loose one nearby, is chased, and else the forward goes
/// back to the start position.
pub proof fn presses_chase(state: ForwardPressingState, ctx: &StateProcessingContext)
    ensures
        ({
            let theirs = exists|o: MatchPlayerLite| #[trigger] ctx.opponents@.contains(o)
                && o.has_ball;
            let chase = if theirs {
                ctx.ball.distance < units(120)
            } else {
                !ctx.ball.is_owned && ctx.ball.distance < units(80)
            };
            state.velocity(ctx) matches Some(m) && (if chase {
                m.steering == Some(
                    Steering::Pursuit {
                        target: ctx.ball.position,
                        target_velocity: ctx.ball.velocity,
                    },
                )
            } else {
                m.steering == Some(
                    Steering::Arrive {
                        target: ctx.player.start_position,
                        slowing_distance: units(30),
                    },
                )
            })
        }),
{
    crate::context::carriers_have_the_ball(ctx, units(0));
}

} // verus!
