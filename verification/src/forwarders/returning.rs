//! A forward who goes back to the start position.
use crate::context::StateProcessingContext;
use crate::outcome::{
    arrive, exertion_with_velocity, with_forward_state, ActivityIntensity, Exertion, ForwardState,
    Movement, PlayerState, StateChangeResult, Steering,
};
use crate::scalar::{milli, units};
use vstd::prelude::*;

verus! {

#[derive(Default, Clone, Copy)]
pub struct ForwardReturningState {}

impl ForwardReturningState {
    pub open spec fn spec_process(
        &self,
        ctx: &StateProcessingContext,
    ) -> Option<StateChangeResult> {
        if ctx.player.has_ball {
            Some(with_forward_state(ForwardState::Running))
        } else if ctx.ball.should_take_immediately && ctx.team.best_player_to_chase_ball {
            Some(with_forward_state(ForwardState::TakeBall))
        } else if ctx.team.control_ball {
            Some(with_forward_state(ForwardState::Running))
        } else if !ctx.ball.opponent_restart && ctx.ball.distance < units(200) {
            Some(with_forward_state(ForwardState::Intercepting))
        } else if ctx.player.distance_from_start_position < units(2) {
            Some(with_forward_state(ForwardState::Standing))
        } else if !ctx.ball.opponent_restart && ctx.ball.is_towards_player_with_angle(milli(900)) {
            Some(with_forward_state(ForwardState::Intercepting))
        } else {
            None
        }
    }

    /// The next state of a returning forward.
    #[verifier::when_used_as_spec(spec_process)]
    pub fn process(&self, ctx: &StateProcessingContext) -> (r: Option<StateChangeResult>)
        ensures
            r == self.spec_process(ctx),
    {
        if ctx.player.has_ball {
            return Some(with_forward_state(ForwardState::Running));
        }
        if ctx.ball.should_take_immediately && ctx.team.best_player_to_chase_ball {
            return Some(with_forward_state(ForwardState::TakeBall));
        }
        if ctx.team.control_ball {
            return Some(with_forward_state(ForwardState::Running));
        }
        // A ball in the hands of the goalkeeper cannot be won: the retreat goes on.
        if !ctx.ball.opponent_restart && ctx.ball.distance < units(200) {
            return Some(with_forward_state(ForwardState::Intercepting));
        }
        if ctx.player.distance_from_start_position < units(2) {
            return Some(with_forward_state(ForwardState::Standing));
        }
        if !ctx.ball.opponent_restart && ctx.ball.is_towards_player_with_angle(milli(900)) {
            return Some(with_forward_state(ForwardState::Intercepting));
        }
        None
    }

    pub open spec fn spec_velocity(&self, ctx: &StateProcessingContext) -> Option<Movement> {
        Some(arrive(ctx.player.start_position, units(10)))
    }

    /// To the start position.
    #[verifier::when_used_as_spec(spec_velocity)]
    pub fn velocity(&self, ctx: &StateProcessingContext) -> (r: Option<Movement>)
        ensures
            r == self.spec_velocity(ctx),
    {
        Some(arrive(ctx.player.start_position, units(10)))
    }

    pub open spec fn spec_process_conditions(&self) -> Exertion {
        exertion_with_velocity(ActivityIntensity::Moderate)
    }

    /// The load of the state.
    #[verifier::when_used_as_spec(spec_process_conditions)]
    pub fn process_conditions(&self) -> (r: Exertion)
        ensures
            r == self.spec_process_conditions(),
    {
        exertion_with_velocity(ActivityIntensity::Moderate)
    }
}

/// A ball at an opponent's restart is not contested: the retreat goes on until the forward is
/// back or the ball comes to the team.
pub proof fn restart_is_not_contested(state: ForwardReturningState, ctx: &StateProcessingContext)
    requires
        ctx.ball.opponent_restart,
    ensures
        state.process(ctx) matches Some(r) ==> r.state != PlayerState::Forward(
            ForwardState::Intercepting,
        ),
{
}

/// A returning forward runs with the ball or once the team has it, takes a ball that is there to
/// be
/// taken as the best placed, goes for one nearby or one that comes straight unless it is a
/// restart,
/// and stands once back.
pub proof fn returns_end(state: ForwardReturningState, ctx: &StateProcessingContext)
    ensures
        ({
            let goes_to = |s: ForwardState| state.process(ctx) == Some(with_forward_state(s));
            let taken = ctx.ball.should_take_immediately && ctx.team.best_player_to_chase_ball;
            let open = !ctx.player.has_ball && !taken && !ctx.team.control_ball;
            let near = !ctx.ball.opponent_restart && ctx.ball.distance < units(200);
            let back = ctx.player.distance_from_start_position < units(2);
            let comes = !ctx.ball.opponent_restart && ctx.ball.heading >= milli(900);
            &&& ctx.player.has_ball ==> goes_to(ForwardState::Running)
            &&& !ctx.player.has_ball && taken ==> goes_to(ForwardState::TakeBall)
            &&& !ctx.player.has_ball && !taken
                && ctx.team.control_ball ==> goes_to(ForwardState::Running)
            &&& open && near ==> goes_to(ForwardState::Intercepting)
            &&& open && !near && back ==> goes_to(ForwardState::Standing)
            &&& open && !near && !back && comes ==> goes_to(ForwardState::Intercepting)
            &&& open && !near && !back && !comes ==> state.process(ctx) is None
        }),
        state.velocity(ctx) matches Some(m) && m.steering == Some(
            Steering::Arrive { target: ctx.player.start_position, slowing_distance: units(10) },
        ),
{
}

} // verus!
