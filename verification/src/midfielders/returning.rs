//! A midfielder who goes back to the start position.
use crate::context::StateProcessingContext;
use crate::outcome::{
    arrive, exertion_with_velocity, still, with_midfielder_state, ActivityIntensity, Exertion,
    MidfielderState, Movement, PlayerState, StateChangeResult, Steering,
};
use crate::scalar::{milli, units};
use vstd::prelude::*;

verus! {

#[derive(Default, Clone, Copy)]
pub struct MidfielderReturningState {}

impl MidfielderReturningState {
    pub open spec fn spec_process(
        &self,
        ctx: &StateProcessingContext,
    ) -> Option<StateChangeResult> {
        if ctx.player.has_ball {
            Some(with_midfielder_state(MidfielderState::Running))
        } else if ctx.ball.should_take_immediately && ctx.team.best_player_to_chase_ball {
            Some(with_midfielder_state(MidfielderState::TakeBall))
        } else {
            match self.contest(ctx) {
                Some(result) => {
                    Some(result)
                },
                None => {
                    self.fall_back(ctx)
                },
            }
        }
    }

    /// The next state of a returning midfielder.
    #[verifier::when_used_as_spec(spec_process)]
    pub fn process(&self, ctx: &StateProcessingContext) -> (r: Option<StateChangeResult>)
        ensures
            r == self.spec_process(ctx),
    {
        if ctx.player.has_ball {
            return Some(with_midfielder_state(MidfielderState::Running));
        }
        if ctx.ball.should_take_immediately && ctx.team.best_player_to_chase_ball {
            return Some(with_midfielder_state(MidfielderState::TakeBall));
        }
        match self.contest(ctx) {
            Some(result) => {
                return Some(result);
            },
            None => {},
        }
        self.fall_back(ctx)
    }

    pub open spec fn spec_contest(
        &self,
        ctx: &StateProcessingContext,
    ) -> Option<StateChangeResult> {
        if ctx.ball.opponent_restart {
            None
        } else {
            match self.challenge(ctx) {
                Some(result) => {
                    Some(result)
                },
                None => {
                    if !ctx.team.control_ball && ctx.ball.distance < units(250)
                        && ctx.ball.is_towards_player_with_angle(milli(800)) {
                        Some(with_midfielder_state(MidfielderState::Intercepting))
                    } else {
                        None
                    }
                },
            }
        }
    }

    /// An opponent with the ball nearby is tackled or pressed, a ball that comes this way cut
    /// out. A ball in the hands of the goalkeeper cannot be won: the retreat goes on.
    #[verifier::when_used_as_spec(spec_contest)]
    pub fn contest(&self, ctx: &StateProcessingContext) -> (r: Option<StateChangeResult>)
        ensures
            r == self.spec_contest(ctx),
    {
        if ctx.ball.opponent_restart {
            return None;
        }
        match self.challenge(ctx) {
            Some(result) => {
                return Some(result);
            },
            None => {},
        }
        if !ctx.team.control_ball && ctx.ball.distance < units(250)
            && ctx.ball.is_towards_player_with_angle(milli(800)) {
            return Some(with_midfielder_state(MidfielderState::Intercepting));
        }
        None
    }

    pub open spec fn spec_challenge(
        &self,
        ctx: &StateProcessingContext,
    ) -> Option<StateChangeResult> {
        match ctx.carrier_within(units(100)) {
            Some(carrier) => {
                let away = (carrier.position - ctx.player.position).magnitude();
                if away < units(40) {
                    Some(with_midfielder_state(MidfielderState::Tackling))
                } else if away < units(100) {
                    Some(with_midfielder_state(MidfielderState::Pressing))
                } else {
                    None
                }
            },
            None => None,
        }
    }

    /// An opponent with the ball nearby is tackled from close by, else pressed.
    #[verifier::when_used_as_spec(spec_challenge)]
    pub fn challenge(&self, ctx: &StateProcessingContext) -> (r: Option<StateChangeResult>)
        ensures
            r == self.spec_challenge(ctx),
    {
        match ctx.carrier_within(units(100)) {
            Some(carrier) => {
                let away = (carrier.position - ctx.player.position).magnitude();
                if away < units(40) {
                    Some(with_midfielder_state(MidfielderState::Tackling))
                } else if away < units(100) {
                    Some(with_midfielder_state(MidfielderState::Pressing))
                } else {
                    None
                }
            },
            None => None,
        }
    }

    pub open spec fn spec_fall_back(
        &self,
        ctx: &StateProcessingContext,
    ) -> Option<StateChangeResult> {
        if ctx.in_state_time > 30 && !ctx.team.control_ball && ctx.ball.on_own_side {
            Some(with_midfielder_state(MidfielderState::Guarding))
        } else if ctx.team.control_ball && ctx.ball.distance < units(300) {
            if ctx.player.stranded_offside {
                None
            } else {
                Some(with_midfielder_state(MidfielderState::AttackSupporting))
            }
        } else if (ctx.player.position - ctx.player.start_position).magnitude() < units(80) {
            Some(with_midfielder_state(MidfielderState::Running))
        } else {
            None
        }
    }

    /// Marking in the own half, support of an attack from an onside position, and the run near
    /// the start position.
    #[verifier::when_used_as_spec(spec_fall_back)]
    pub fn fall_back(&self, ctx: &StateProcessingContext) -> (r: Option<StateChangeResult>)
        ensures
            r == self.spec_fall_back(ctx),
    {
        if ctx.in_state_time > 30 && !ctx.team.control_ball && ctx.ball.on_own_side {
            return Some(with_midfielder_state(MidfielderState::Guarding));
        }
        if ctx.team.control_ball && ctx.ball.distance < units(300) {
            if ctx.player.stranded_offside {
                return None;
            } else {
                return Some(with_midfielder_state(MidfielderState::AttackSupporting));
            }
        }
        if (ctx.player.position - ctx.player.start_position).magnitude() < units(80) {
            return Some(with_midfielder_state(MidfielderState::Running));
        }
        None
    }

    pub open spec fn spec_velocity(&self, ctx: &StateProcessingContext) -> Option<Movement> {
        let away = (ctx.player.position - ctx.player.start_position).magnitude();
        if away < units(8) {
            Some(still())
        } else {
            let way_back = arrive(ctx.player.start_position, units(50));
            if away > units(30) {
                Some(way_back.plus(ctx.player.separation_velocity * milli(300)))
            } else {
                Some(way_back)
            }
        }
    }

    /// To the start position; still when there.
    #[verifier::when_used_as_spec(spec_velocity)]
    pub fn velocity(&self, ctx: &StateProcessingContext) -> (r: Option<Movement>)
        ensures
            r == self.spec_velocity(ctx),
    {
        let away = (ctx.player.position - ctx.player.start_position).magnitude();
        if away < units(8) {
            return Some(still());
        }
        let way_back = arrive(ctx.player.start_position, units(50));
        if away > units(30) {
            Some(way_back.plus(ctx.player.separation_velocity * milli(300)))
        } else {
            Some(way_back)
        }
    }

    pub open spec fn spec_process_conditions(&self) -> Exertion {
        exertion_with_velocity(ActivityIntensity::Moderate)
    }

    /// The load of the state.
    #[verifier::when_used_as_spec(spec_process_conditions)]
    pub fn process_conditions(&self) -> (r: Exertion)
        ensures
            r == self.spec_process_conditions(),
    {
        exertion_with_velocity(ActivityIntensity::Moderate)
    }
}

/// A ball at an opponent's restart is not contested: the retreat goes on.
pub proof fn restart_is_not_contested(
    state: MidfielderReturningState,
    ctx: &StateProcessingContext,
)
    requires
        ctx.ball.opponent_restart,
    ensures
        state.process(ctx) matches Some(r) ==> {
            &&& r.state != PlayerState::Midfielder(MidfielderState::Tackling)
            &&& r.state != PlayerState::Midfielder(MidfielderState::Pressing)
            &&& r.state != PlayerState::Midfielder(MidfielderState::Intercepting)
        },
{
}

/// A midfielder in an offside position does not join the attack.
pub proof fn no_support_from_offside(state: MidfielderReturningState, ctx: &StateProcessingContext)
    requires
        ctx.player.stranded_offside,
    ensures
        state.process(ctx) matches Some(r) ==> r.state != PlayerState::Midfielder(
            MidfielderState::AttackSupporting,
        ),
{
}

/// A returning midfielder runs with the ball, takes a loose one as the best placed, tackles a
/// carrier closer than 40 and presses one closer than 100, cuts out a ball that comes, marks in
/// the
/// own half after 30 steps, joins an attack from onside, and runs near the start position.
pub proof fn returns_end(state: MidfielderReturningState, ctx: &StateProcessingContext)
    ensures
        ({
            let goes_to = |s: MidfielderState| state.process(ctx) == Some(
                with_midfielder_state(s),
            );
            let taken = ctx.ball.should_take_immediately && ctx.team.best_player_to_chase_ball;
            let free = !ctx.player.has_ball && !taken;
            let carrier = ctx.carrier_within(units(100));
            let away = (carrier->0.position - ctx.player.position).magnitude();
            let near = !ctx.ball.opponent_restart && carrier is Some && away < units(100);
            let comes = !ctx.ball.opponent_restart && !ctx.team.control_ball && ctx.ball.distance
                < units(250) && ctx.ball.heading >= milli(800);
            let quiet = free && !near && !comes;
            let marks = ctx.in_state_time > 30 && !ctx.team.control_ball && ctx.ball.on_own_side;
            let joins = ctx.team.control_ball && ctx.ball.distance < units(300);
            &&& ctx.player.has_ball ==> goes_to(MidfielderState::Running)
            &&& !ctx.player.has_ball && taken ==> goes_to(MidfielderState::TakeBall)
            &&& free && near ==> goes_to(
                if away < units(40) {
                    MidfielderState::Tackling
                } else {
                    MidfielderState::Pressing
                },
            )
            &&& free && !near && comes ==> goes_to(MidfielderState::Intercepting)
            &&& quiet && marks ==> goes_to(MidfielderState::Guarding)
            &&& quiet && joins
                && !ctx.player.stranded_offside ==> goes_to(MidfielderState::AttackSupporting)
            &&& quiet && joins && ctx.player.stranded_offside ==> state.process(ctx) is None
            &&& quiet && !marks && !joins ==> if (ctx.player.position
                - ctx.player.start_position).magnitude() < units(80) {
                goes_to(MidfielderState::Running)
            } else {
                state.process(ctx) is None
            }
        }),
{
}

/// A returning midfielder stops at the start position, goes straight to it from close by, and on
/// the longer way keeps off the others a little.
pub proof fn returns_lead_back(state: MidfielderReturningState, ctx: &StateProcessingContext)
    ensures
        ({
            let away = (ctx.player.position - ctx.player.start_position).magnitude();
            &&& away < units(8) ==> state.velocity(ctx) == Some(still())
            &&& units(8) <= away && away <= units(30) ==> state.velocity(ctx) == Some(
                arrive(ctx.player.start_position, units(50)),
            )
            &&& away > units(30) ==> (state.velocity(ctx) matches Some(m) && m.steering == Some(
                Steering::Arrive {
                    target: ctx.player.start_position,
                    slowing_distance: units(50),
                },
            ) && m.extra == Some(ctx.player.separation_velocity * milli(300)))
        }),
{
}

} // verus!
