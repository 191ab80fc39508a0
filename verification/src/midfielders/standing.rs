//! A midfielder who stands.
use crate::context::{MatchPlayerLite, PlayerSide, StateProcessingContext};
use crate::outcome::{
    exertion, still, with_midfielder_state, ActivityIntensity, Exertion, MidfielderState,
    Movement, StateChangeResult,
};
use crate::scalar::{milli, units, Scalar};
use crate::scan;
use vstd::prelude::*;

verus! {

pub open spec fn spec_pressing_distance_threshold() -> Scalar {
    units(80)
}

/// How near the ball has to be to be pressed.
#[verifier::when_used_as_spec(spec_pressing_distance_threshold)]
pub fn pressing_distance_threshold() -> (r: Scalar)
    ensures
        r == spec_pressing_distance_threshold(),
{
    units(80)
}

#[derive(Default, Clone, Copy)]
pub struct MidfielderStandingState {}

impl MidfielderStandingState {
    pub open spec fn spec_process(
        &self,
        ctx: &StateProcessingContext,
    ) -> Option<StateChangeResult> {
        if !ctx.player.has_ball && ctx.player.stranded_offside {
            Some(with_midfielder_state(MidfielderState::Returning))
        } else if ctx.player.has_ball {
            if self.has_passing_options(ctx) {
                Some(with_midfielder_state(MidfielderState::Passing))
            } else {
                Some(with_midfielder_state(MidfielderState::Running))
            }
        } else if ctx.team.control_ball {
            if scan::count_where(ctx.teammates@, |t: MatchPlayerLite| t.distance <= units(25)) >= 2
                && ctx.ball.distance > units(30) {
                Some(with_midfielder_state(MidfielderState::CreatingSpace))
            } else {
                Some(with_midfielder_state(MidfielderState::Running))
            }
        } else {
            match self.without_possession(ctx) {
                Some(result) => {
                    Some(result)
                },
                None => {
                    if self.should_support_attack(ctx) {
                        Some(with_midfielder_state(MidfielderState::AttackSupporting))
                    } else if ctx.in_state_time > 8 {
                        Some(with_midfielder_state(MidfielderState::Running))
                    } else {
                        None
                    }
                },
            }
        }
    }

    /// The next state of a standing midfielder.
    #[verifier::when_used_as_spec(spec_process)]
    pub fn process(&self, ctx: &StateProcessingContext) -> (r: Option<StateChangeResult>)
        ensures
            r == self.spec_process(ctx),
    {
        if !ctx.player.has_ball && ctx.player.stranded_offside {
            return Some(with_midfielder_state(MidfielderState::Returning));
        }
        if ctx.player.has_ball {
            if self.has_passing_options(ctx) {
                return Some(with_midfielder_state(MidfielderState::Passing));
            } else {
                return Some(with_midfielder_state(MidfielderState::Running));
            }
        }
        if ctx.team.control_ball {
            if scan::count_if(
                &ctx.teammates,
                |t: MatchPlayerLite| -> (b: bool)
                    ensures b == (t.distance <= units(25))
                {
                    t.distance <= units(25)
                },
                Ghost(|t: MatchPlayerLite| t.distance <= units(25)),
            ) >= 2 && ctx.ball.distance > units(30) {
                return Some(with_midfielder_state(MidfielderState::CreatingSpace));
            } else {
                return Some(with_midfielder_state(MidfielderState::Running));
            }
        }
        match self.without_possession(ctx) {
            Some(result) => {
                return Some(result);
            },
            None => {},
        }
        if self.should_support_attack(ctx) {
            return Some(with_midfielder_state(MidfielderState::AttackSupporting));
        }
        if ctx.in_state_time > 8 {
            return Some(with_midfielder_state(MidfielderState::Running));
        }
        None
    }

    pub open spec fn spec_without_possession(
        &self,
        ctx: &StateProcessingContext,
    ) -> Option<StateChangeResult> {
        if ctx.opponent_with_ball().is_some()
        && ((ctx.ball.distance < pressing_distance_threshold() && ctx.team.best_player_to_chase_ball)
            || ctx.ball.distance < units(20)) {
            Some(with_midfielder_state(MidfielderState::Pressing))
        } else if !ctx.ball.is_owned && ctx.ball.in_flight
        && (ctx.ball.landing_position - ctx.player.position).magnitude() < units(100) {
            Some(with_midfielder_state(MidfielderState::Intercepting))
        } else if !ctx.ball.is_owned && ctx.ball.distance < units(250)
            && ctx.ball.is_towards_player_with_angle(milli(800)) {
            Some(with_midfielder_state(MidfielderState::Intercepting))
        } else if ctx.ball.on_own_side {
            Some(with_midfielder_state(MidfielderState::Guarding))
        } else if self.carrier_is_near(ctx) && ctx.team.best_player_to_chase_ball {
            Some(with_midfielder_state(MidfielderState::Pressing))
        } else {
            None
        }
    }

    /// With the ball elsewhere: a press, a ball to cut out, an attacker to mark.
    #[verifier::when_used_as_spec(spec_without_possession)]
    pub fn without_possession(
        &self,
        ctx: &StateProcessingContext,
    ) -> (r: Option<StateChangeResult>)
        ensures
            r == self.spec_without_possession(ctx),
    {
        if ctx.opponent_with_ball().is_some()
        && ((ctx.ball.distance < pressing_distance_threshold() && ctx.team.best_player_to_chase_ball)
            || ctx.ball.distance < units(20)) {
            return Some(with_midfielder_state(MidfielderState::Pressing));
        }
        if !ctx.ball.is_owned && ctx.ball.in_flight
        && (ctx.ball.landing_position - ctx.player.position).magnitude() < units(100) {
            return Some(with_midfielder_state(MidfielderState::Intercepting));
        }
        if !ctx.ball.is_owned && ctx.ball.distance < units(250)
            && ctx.ball.is_towards_player_with_angle(milli(800)) {
            return Some(with_midfielder_state(MidfielderState::Intercepting));
        }
        if ctx.ball.on_own_side {
            return Some(with_midfielder_state(MidfielderState::Guarding));
        }
        if self.carrier_is_near(ctx) && ctx.team.best_player_to_chase_ball {
            return Some(with_midfielder_state(MidfielderState::Pressing));
        }
        None
    }

    pub open spec fn spec_carrier_is_near(&self, ctx: &StateProcessingContext) -> bool {
        match ctx.opponent_with_ball() {
            Some(carrier) => carrier.distance < pressing_distance_threshold(),
            None => false,
        }
    }

    #[verifier::when_used_as_spec(spec_carrier_is_near)]
    pub fn carrier_is_near(&self, ctx: &StateProcessingContext) -> (r: bool)
        ensures
            r == self.spec_carrier_is_near(ctx),
    {
        match ctx.opponent_with_ball() {
            Some(carrier) => carrier.distance < pressing_distance_threshold(),
            None => false,
        }
    }

    pub open spec fn spec_velocity(&self, ctx: &StateProcessingContext) -> Option<Movement> {
        Some(still())
    }

    /// The midfielder stands still.
    #[verifier::when_used_as_spec(spec_velocity)]
    pub fn velocity(&self, ctx: &StateProcessingContext) -> (r: Option<Movement>)
        ensures
            r == self.spec_velocity(ctx),
    {
        Some(still())
    }

    pub open spec fn spec_process_conditions(&self) -> Exertion {
        exertion(ActivityIntensity::Recovery)
    }

    /// The load of the state.
    #[verifier::when_used_as_spec(spec_process_conditions)]
    pub fn process_conditions(&self) -> (r: Exertion)
        ensures
            r == self.spec_process_conditions(),
    {
        exertion(ActivityIntensity::Recovery)
    }

    pub open spec fn spec_has_passing_options(&self, ctx: &StateProcessingContext) -> bool {
        ctx.teammate_exists(units(30))
    }

    /// A teammate is near.
    #[verifier::when_used_as_spec(spec_has_passing_options)]
    pub fn has_passing_options(&self, ctx: &StateProcessingContext) -> (r: bool)
        ensures
            r == self.spec_has_passing_options(ctx),
    {
        ctx.teammate_exists(units(30))
    }

    pub open spec fn spec_is_opponent_nearby(&self, ctx: &StateProcessingContext) -> bool {
        ctx.opponent_exists(pressing_distance_threshold())
    }

    /// An opponent is near.
    #[verifier::when_used_as_spec(spec_is_opponent_nearby)]
    pub fn is_opponent_nearby(&self, ctx: &StateProcessingContext) -> (r: bool)
        ensures
            r == self.spec_is_opponent_nearby(ctx),
    {
        ctx.opponent_exists(pressing_distance_threshold())
    }

    pub open spec fn spec_should_support_attack(&self, ctx: &StateProcessingContext) -> bool {
        if ctx.player.attacks_right() {
            ctx.ball.position.x > ctx.width() * units(2) / units(3)
        } else {
            ctx.ball.position.x < ctx.width() / units(3)
        }
    }

    /// The ball is in the last third.
    #[verifier::when_used_as_spec(spec_should_support_attack)]
    pub fn should_support_attack(&self, ctx: &StateProcessingContext) -> (r: bool)
        ensures
            r == self.spec_should_support_attack(ctx),
    {
        if ctx.player.attacks_right() {
            ctx.ball.position.x > ctx.width() * units(2) / units(3)
        } else {
            ctx.ball.position.x < ctx.width() / units(3)
        }
    }
}

/// A midfielder on the ball never stays put: the ball is passed or carried.
pub proof fn never_freezes_on_the_ball(
    state: MidfielderStandingState,
    ctx: &StateProcessingContext,
)
    requires
        ctx.player.has_ball,
    ensures
        state.process(ctx) is Some,
{
}

/// A midfielder who stands goes back from offside, passes or carries the ball on, runs or finds
/// room while the team has it, and otherwise presses a carrier near by, cuts out a ball that comes
/// or drops close, marks in the own half, supports an attack in the last third, and runs after a
/// while.
pub proof fn standing_ends(state: MidfielderStandingState, ctx: &StateProcessingContext)
    ensures
        ({
            let goes_to = |s: MidfielderState| state.process(ctx) == Some(
                with_midfielder_state(s),
            );
            let free = !ctx.player.has_ball && !ctx.player.stranded_offside;
            let theirs = free && !ctx.team.control_ball;
            let carrier = exists|o: MatchPlayerLite| #[trigger] ctx.opponents@.contains(o)
                && o.has_ball;
            let pressed = carrier && (ctx.ball.distance < units(20) || (ctx.ball.distance < units(80)
                && ctx.team.best_player_to_chase_ball));
            let comes = !ctx.ball.is_owned && ((ctx.ball.in_flight && (ctx.ball.landing_position
                - ctx.player.position).magnitude() < units(100)) || (ctx.ball.distance < units(250)
                && ctx.ball.heading >= milli(800)));
            let near = ctx.opponent_with_ball() matches Some(c) && c.distance < units(80)
                && ctx.team.best_player_to_chase_ball;
            let last_third = if ctx.player.side == Some(PlayerSide::Left) {
                ctx.ball.position.x > ctx.width() * units(2) / units(3)
            } else {
                ctx.ball.position.x < ctx.width() / units(3)
            };
            let quiet = theirs && !pressed && !comes && !ctx.ball.on_own_side && !near;
            &&& !ctx.player.has_ball
                && ctx.player.stranded_offside ==> goes_to(MidfielderState::Returning)
            &&& ctx.player.has_ball ==> goes_to(
                if exists|t: MatchPlayerLite| #[trigger]
                    ctx.teammates@.contains(t) && t.distance <= units(30) {
                    MidfielderState::Passing
                } else {
                    MidfielderState::Running
                },
            )
            &&& free && ctx.team.control_ball && ctx.ball.distance <= units(30) ==> goes_to(
                MidfielderState::Running,
            )
            &&& theirs && pressed ==> goes_to(MidfielderState::Pressing)
            &&& theirs && !pressed && comes ==> goes_to(MidfielderState::Intercepting)
            &&& theirs && !pressed && !comes
                && ctx.ball.on_own_side ==> goes_to(MidfielderState::Guarding)
            &&& theirs && !pressed && !comes && !ctx.ball.on_own_side && near ==> goes_to(
                MidfielderState::Pressing,
            )
            &&& quiet && last_third
                && ctx.player.side is Some ==> goes_to(MidfielderState::AttackSupporting)
            &&& quiet && !last_third && ctx.player.side is Some ==> if ctx.in_state_time > 8 {
                goes_to(MidfielderState::Running)
            } else {
                state.process(ctx) is None
            }
        }),
{
    crate::context::carriers_have_the_ball(ctx, units(100));
    scan::some_is_one_of_them(ctx.teammates@, |t: MatchPlayerLite| t.distance <= units(30));
    let p = |o: MatchPlayerLite| o.has_ball;
    scan::first_is_one_of_them(ctx.opponents@, p);
}

/// A midfielder who stands while the team has the ball makes room where two teammates or more are
/// close and the ball is not, and runs where none is.
pub proof fn crowds_part(state: MidfielderStandingState, ctx: &StateProcessingContext)
    requires
        !ctx.player.has_ball,
        !ctx.player.stranded_offside,
        ctx.team.control_ball,
    ensures
        (ctx.ball.distance > units(30) && exists|i: int, j: int|
            0 <= i < j < ctx.teammates@.len()
                && (#[trigger] ctx.teammates@[i]).distance <= units(25) && (
            #[trigger] ctx.teammates@[j]).distance <= units(25)) ==> state.process(ctx) == Some(
            with_midfielder_state(MidfielderState::CreatingSpace),
        ),
        (
            forall|t: MatchPlayerLite| #[trigger] ctx.teammates@.contains(t) ==> t.distance
                > units(25)
        )
            ==> state.process(ctx) == Some(with_midfielder_state(MidfielderState::Running)),
        state.velocity(ctx) == Some(still()),
        state.is_opponent_nearby(ctx) <==> exists|o: MatchPlayerLite| #[trigger]
            ctx.opponents@.contains(o) && o.distance <= units(80),
{
    let p = |t: MatchPlayerLite| t.distance <= units(25);
    assert(ctx.teammates.len() == ctx.teammates@.len());
    scan::count_tells_some(ctx.teammates@, p);
    scan::count_tells_two(ctx.teammates@, p);
    scan::some_is_one_of_them(ctx.opponents@, |o: MatchPlayerLite| o.distance <= units(80));
}

} // verus!
