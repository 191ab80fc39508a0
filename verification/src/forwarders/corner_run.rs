//! A forward who runs to a zone at a corner.
use crate::context::StateProcessingContext;
use crate::outcome::{
    exertion, seek, still, with_forward_state, ActivityIntensity, Exertion, ForwardState,
    Movement, StateChangeResult, Steering,
};
use crate::scalar::units;
use vstd::prelude::*;

verus! {

/// The run ends when the corner is over or the ball changes hands.
#[derive(Default, Clone, Copy)]
pub struct ForwardCornerRunState {}

impl ForwardCornerRunState {
    pub open spec fn spec_process(
        &self,
        ctx: &StateProcessingContext,
    ) -> Option<StateChangeResult> {
        if ctx.player.has_ball {
            Some(with_forward_state(ForwardState::Running))
        } else if !ctx.ball.team_attacking_corner {
            Some(with_forward_state(ForwardState::Running))
        } else if ctx.player.corner_zone.is_none() && ctx.ball.owner_id.is_some() {
            Some(with_forward_state(ForwardState::Running))
        } else {
            None
        }
    }

    /// Back to running with the ball, after the corner, or when the zone is withdrawn while
    /// somebody has the ball. With the ball in the air the forward holds the zone.
    #[verifier::when_used_as_spec(spec_process)]
    pub fn process(&self, ctx: &StateProcessingContext) -> (r: Option<StateChangeResult>)
        ensures
            r == self.spec_process(ctx),
    {
        if ctx.player.has_ball {
            return Some(with_forward_state(ForwardState::Running));
        }
        if !ctx.ball.team_attacking_corner {
            return Some(with_forward_state(ForwardState::Running));
        }
        if ctx.player.corner_zone.is_none() && ctx.ball.owner_id.is_some() {
            return Some(with_forward_state(ForwardState::Running));
        }
        None
    }

    pub open spec fn spec_velocity(&self, ctx: &StateProcessingContext) -> Option<Movement> {
        match ctx.player.corner_zone {
            Some(zone) => {
                if zone.distance_to(ctx.player.position) < units(4) {
                    Some(still())
                } else {
                    Some(seek(zone))
                }
            },
            None => Some(still()),
        }
    }

    /// To the zone, and no further once there.
    #[verifier::when_used_as_spec(spec_velocity)]
    pub fn velocity(&self, ctx: &StateProcessingContext) -> (r: Option<Movement>)
        ensures
            r == self.spec_velocity(ctx),
    {
        match ctx.player.corner_zone {
            Some(zone) => {
                if zone.distance_to(ctx.player.position) < units(4) {
                    Some(still())
                } else {
                    Some(seek(zone))
                }
            },
            None => Some(still()),
        }
    }

    pub open spec fn spec_process_conditions(&self) -> Exertion {
        exertion(ActivityIntensity::High)
    }

    /// The load of the state.
    #[verifier::when_used_as_spec(spec_process_conditions)]
    pub fn process_conditions(&self) -> (r: Exertion)
        ensures
            r == self.spec_process_conditions(),
    {
        exertion(ActivityIntensity::High)
    }
}

/// The run to the zone goes on as long as the corner does and the forward has a zone or nobody the
/// ball; it leads into the zone, and no further.
pub proof fn zones_are_held(state: ForwardCornerRunState, ctx: &StateProcessingContext)
    ensures
        state.process(ctx) is None <==> !ctx.player.has_ball && ctx.ball.team_attacking_corner && (
        ctx.player.corner_zone is Some || ctx.ball.owner_id is None),
        state.process(ctx) is Some ==> state.process(ctx) == Some(
            with_forward_state(ForwardState::Running),
        ),
        ctx.player.corner_zone matches Some(zone) ==> (if zone.distance_to(ctx.player.position) < units(4) {
            state.velocity(ctx) == Some(still())
        } else {
            state.velocity(ctx) matches Some(m)
                && m.steering == Some(Steering::Seek { target: zone })
                && m.factor == units(1)
        }),
        ctx.player.corner_zone is None ==> state.velocity(ctx) == Some(still()),
{
}

} // verus!
