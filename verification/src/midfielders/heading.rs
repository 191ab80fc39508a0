//! A midfielder who heads the ball.
use crate::context::{share, MatchPlayerLite, PositionGroup, StateProcessingContext};
use crate::outcome::{
    arrive, exertion, with_midfielder_state, ActivityIntensity, Exertion, MidfielderState,
    Movement, PlayerEvent, PlayerState, ShotType, StateChangeResult, Steering,
};
use crate::scalar::{milli, units, Scalar};
use crate::scan;
use vstd::prelude::*;

verus! {

pub open spec fn spec_heading_height_threshold() -> Scalar {
    milli(1500)
}

/// How high the ball has to be.
#[verifier::when_used_as_spec(spec_heading_height_threshold)]
pub fn heading_height_threshold() -> (r: Scalar)
    ensures
        r == spec_heading_height_threshold(),
{
    milli(1500)
}

pub open spec fn spec_heading_distance_threshold() -> Scalar {
    units(4)
}

/// How near the ball has to be.
#[verifier::when_used_as_spec(spec_heading_distance_threshold)]
pub fn heading_distance_threshold() -> (r: Scalar)
    ensures
        r == spec_heading_distance_threshold(),
{
    units(4)
}

#[derive(Default, Clone, Copy)]
pub struct MidfielderHeadingState {}

impl MidfielderHeadingState {
    pub open spec fn spec_process(
        &self,
        ctx: &StateProcessingContext,
        duel_won: bool,
    ) -> Option<StateChangeResult> {
        if ctx.ball.distance > heading_distance_threshold() {
            Some(with_midfielder_state(MidfielderState::Running))
        } else if ctx.ball.position.z < heading_height_threshold() {
            Some(with_midfielder_state(MidfielderState::Running))
        } else if ctx.ball.team_attacking_corner || ctx.player.aerial_contest_won > 0 {
            Some(self.head_if(ctx, ctx.rolls.heading_contest < self.clean_contact_chance(ctx)))
        } else {
            Some(
                self.head_if(
                    ctx,
                    self.wins_jump(ctx, duel_won) && self.attempt_heading(ctx, ctx.rolls.heading),
                ),
            )
        }
    }

    /// A header at goal, or on without one. `duel_won` tells whether the midfielder wins the
    /// jump against `nearest_marker`.
    #[verifier::when_used_as_spec(spec_process)]
    pub fn process(
        &self,
        ctx: &StateProcessingContext,
        duel_won: bool,
    ) -> (r: Option<StateChangeResult>)
        ensures
            r == self.spec_process(ctx, duel_won),
    {
        if ctx.ball.distance > heading_distance_threshold() {
            return Some(with_midfielder_state(MidfielderState::Running));
        }
        if ctx.ball.position.z < heading_height_threshold() {
            return Some(with_midfielder_state(MidfielderState::Running));
        }
        // A jump that is already won leaves only the contact to chance.
        if ctx.ball.team_attacking_corner || ctx.player.aerial_contest_won > 0 {
            return Some(
                self.head_if(ctx, ctx.rolls.heading_contest < self.clean_contact_chance(ctx)),
            );
        }
        Some(
            self.head_if(
                ctx,
                self.wins_jump(ctx, duel_won) && self.attempt_heading(ctx, ctx.rolls.heading),
            ),
        )
    }

    pub open spec fn spec_head_if(
        &self,
        ctx: &StateProcessingContext,
        clean: bool,
    ) -> StateChangeResult {
        if clean {
            with_midfielder_state(MidfielderState::Running).with_event(PlayerEvent::Shoot {
                    player: ctx.player.id,
                    spot: ctx.player.shooting_direction,
                    shot_type: ShotType::Header,
                    reason: "MID_HEADING_ON_GOAL",
            })
        } else {
            with_midfielder_state(MidfielderState::Running)
        }
    }

    /// A header at goal on clean contact, else on the run.
    #[verifier::when_used_as_spec(spec_head_if)]
    pub fn head_if(&self, ctx: &StateProcessingContext, clean: bool) -> (r: StateChangeResult)
        ensures
            r == self.spec_head_if(ctx, clean),
    {
        if clean {
            with_midfielder_state(MidfielderState::Running).with_event(PlayerEvent::Shoot {
                    player: ctx.player.id,
                    spot: ctx.player.shooting_direction,
                    shot_type: ShotType::Header,
                    reason: "MID_HEADING_ON_GOAL",
            })
        } else {
            with_midfielder_state(MidfielderState::Running)
        }
    }

    pub open spec fn spec_clean_contact_chance(&self, ctx: &StateProcessingContext) -> Scalar {
        (milli(620) + (share(ctx.player.skills.technical.heading) + share(ctx.player.skills.physical.jumping))
            * milli(500) * milli(300)).clamp(milli(550), milli(950))
    }

    /// The chance of clean contact after a jump that is won.
    #[verifier::when_used_as_spec(spec_clean_contact_chance)]
    pub fn clean_contact_chance(&self, ctx: &StateProcessingContext) -> (r: Scalar)
        ensures
            r == self.spec_clean_contact_chance(ctx),
            milli(550) <= r,
            r <= milli(950),
    {
        (milli(620) + (share(ctx.player.skills.technical.heading) + share(ctx.player.skills.physical.jumping))
            * milli(500) * milli(300)).clamp(milli(550), milli(950))
    }

    pub open spec fn spec_wins_jump(&self, ctx: &StateProcessingContext, duel_won: bool) -> bool {
        if ctx.by_id(ctx.player.id).is_some() {
            duel_won
        } else {
            self.attempt_heading(ctx, ctx.rolls.heading_duel)
        }
    }

    /// The duel decides for a player of the match, skill and luck for anybody else.
    #[verifier::when_used_as_spec(spec_wins_jump)]
    pub fn wins_jump(&self, ctx: &StateProcessingContext, duel_won: bool) -> (r: bool)
        ensures
            r == self.spec_wins_jump(ctx, duel_won),
    {
        if ctx.by_id(ctx.player.id).is_some() {
            duel_won
        } else {
            self.attempt_heading(ctx, ctx.rolls.heading_duel)
        }
    }

    pub open spec fn spec_nearest_marker(
        &self,
        ctx: &StateProcessingContext,
    ) -> Option<MatchPlayerLite> {
        match scan::least_where(
            ctx.opponents@,
            |o: MatchPlayerLite| self.is_outfield(ctx, o),
            |o: MatchPlayerLite| (o.position - ctx.player.position).magnitude(),
        ) {
            Some(marker) => ctx.by_id(marker.id),
            None => None,
        }
    }

    /// The nearest outfield opponent, against whom the jump goes.
    #[verifier::when_used_as_spec(spec_nearest_marker)]
    pub fn nearest_marker(&self, ctx: &StateProcessingContext) -> (r: Option<MatchPlayerLite>)
        ensures
            r == self.spec_nearest_marker(ctx),
    {
        match scan::least_of(
            &ctx.opponents,
            |o: MatchPlayerLite| -> (b: bool)
                ensures b == (self.is_outfield(ctx, o))
            {
                self.is_outfield(ctx, o)
            },
            |o: MatchPlayerLite| -> (b: Scalar)
                ensures b == ((o.position - ctx.player.position).magnitude())
            {
                (o.position - ctx.player.position).magnitude()
            },
            Ghost(|o: MatchPlayerLite| self.is_outfield(ctx, o)),
            Ghost(|o: MatchPlayerLite| (o.position - ctx.player.position).magnitude()),
        ) {
            Some(marker) => ctx.by_id(marker.id),
            None => None,
        }
    }

    pub open spec fn spec_is_outfield(
        &self,
        ctx: &StateProcessingContext,
        o: MatchPlayerLite,
    ) -> bool {
        match ctx.by_id(o.id) {
            Some(p) => !p.tactical_positions.is_goalkeeper(),
            None => true,
        }
    }

    #[verifier::when_used_as_spec(spec_is_outfield)]
    pub fn is_outfield(&self, ctx: &StateProcessingContext, o: MatchPlayerLite) -> (r: bool)
        ensures
            r == self.spec_is_outfield(ctx, o),
    {
        match ctx.by_id(o.id) {
            Some(p) => !p.tactical_positions.is_goalkeeper(),
            None => true,
        }
    }

    pub open spec fn spec_velocity(&self, ctx: &StateProcessingContext) -> Option<Movement> {
        Some(arrive(ctx.ball.position, units(3)))
    }

    /// To the ball.
    #[verifier::when_used_as_spec(spec_velocity)]
    pub fn velocity(&self, ctx: &StateProcessingContext) -> (r: Option<Movement>)
        ensures
            r == self.spec_velocity(ctx),
    {
        Some(arrive(ctx.ball.position, units(3)))
    }

    pub open spec fn spec_process_conditions(&self) -> Exertion {
        exertion(ActivityIntensity::VeryHigh)
    }

    /// The load of the state.
    #[verifier::when_used_as_spec(spec_process_conditions)]
    pub fn process_conditions(&self) -> (r: Exertion)
        ensures
            r == self.spec_process_conditions(),
    {
        exertion(ActivityIntensity::VeryHigh)
    }

    pub open spec fn spec_attempt_heading(
        &self,
        ctx: &StateProcessingContext,
        roll: Scalar,
    ) -> bool {
        roll < (
            share(ctx.player.skills.technical.heading) + share(ctx.player.skills.physical.jumping)
        ) / units(2)
    }

    /// Clean contact by skill and luck.
    #[verifier::when_used_as_spec(spec_attempt_heading)]
    pub fn attempt_heading(&self, ctx: &StateProcessingContext, roll: Scalar) -> (r: bool)
        ensures
            r == self.spec_attempt_heading(ctx, roll),
    {
        roll < (
            share(ctx.player.skills.technical.heading) + share(ctx.player.skills.physical.jumping)
        ) / units(2)
    }
}

/// Nobody heads a ball that is too far away or too low.
pub proof fn no_header_out_of_reach(
    state: MidfielderHeadingState,
    ctx: &StateProcessingContext,
    duel_won: bool,
)
    requires
        ctx.ball.distance > heading_distance_threshold()
            || ctx.ball.position.z < heading_height_threshold(),
    ensures
        state.process(ctx, duel_won) == Some(with_midfielder_state(MidfielderState::Running)),
{
}

/// Within reach, a ball after a jump that is won, or at a corner, is headed at goal on a draw
/// below
/// the chance of clean contact; any other where the duel is won and the contact is clean.
pub proof fn headers_go_at_goal(
    state: MidfielderHeadingState,
    ctx: &StateProcessingContext,
    duel_won: bool,
)
    requires
        ctx.ball.distance <= units(4),
        ctx.ball.position.z >= milli(1500),
    ensures
        ({
            let skill = (share(ctx.player.skills.technical.heading) + share(
                ctx.player.skills.physical.jumping,
            )) / units(2);
            let known = ctx.by_id(ctx.player.id) is Some;
            let jumped = ctx.ball.team_attacking_corner || ctx.player.aerial_contest_won > 0;
            let clean = if jumped {
                ctx.rolls.heading_contest < state.clean_contact_chance(ctx)
            } else {
                (if known { duel_won } else { ctx.rolls.heading_duel < skill })
                    && ctx.rolls.heading < skill
            };
            state.process(ctx, duel_won) matches Some(r) && r.state == PlayerState::Midfielder(
                MidfielderState::Running,
            ) && (if clean {
                r.event == Some(
                    PlayerEvent::Shoot {
                        player: ctx.player.id,
                        spot: ctx.player.shooting_direction,
                        shot_type: ShotType::Header,
                        reason: "MID_HEADING_ON_GOAL",
                    },
                )
            } else {
                r.event is None
            })
        }),
{
}

/// A better header and a higher jump make contact no less clean; the jump goes against the nearest
/// outfield opponent.
pub proof fn better_headers_make_contact(
    state: MidfielderHeadingState,
    ctx: &StateProcessingContext,
    other: &StateProcessingContext,
    roll: Scalar,
)
    requires
        ctx.player.skills.technical.heading <= other.player.skills.technical.heading,
        ctx.player.skills.physical.jumping <= other.player.skills.physical.jumping,
    ensures
        state.clean_contact_chance(ctx) <= state.clean_contact_chance(other),
        state.attempt_heading(ctx, roll) ==> state.attempt_heading(other, roll),
        (
            ctx.player.skills.technical.heading == units(20)
                && ctx.player.skills.physical.jumping == units(20)
        )
            ==> state.clean_contact_chance(ctx) == milli(920),
        (
            ctx.player.skills.technical.heading == units(0)
                && ctx.player.skills.physical.jumping == units(0)
        )
            ==> state.clean_contact_chance(ctx) == milli(620),
{
    let a = share(ctx.player.skills.technical.heading) + share(ctx.player.skills.physical.jumping);
    let b = share(
        other.player.skills.technical.heading,
    ) + share(other.player.skills.physical.jumping);
    crate::context::shares_grow(
        ctx.player.skills.technical.heading,
        other.player.skills.technical.heading,
        ctx,
    );
    crate::context::shares_grow(
        ctx.player.skills.physical.jumping,
        other.player.skills.physical.jumping,
        ctx,
    );
    crate::scalar::scaling_keeps_order(a, b, milli(500));
    crate::scalar::scaling_keeps_order(a * milli(500), b * milli(500), milli(300));
    crate::scalar::quotient_keeps_order(a, b, units(2));
    crate::scalar::thousandths_of(units(2), 500);
    crate::scalar::thousandths_of(units(1), 300);
    crate::scalar::zero_stays_zero(milli(500));
    crate::scalar::zero_stays_zero(milli(300));
}

/// The marker is an outfield opponent, and no other is nearer.
pub proof fn markers_are_the_nearest(state: MidfielderHeadingState, ctx: &StateProcessingContext)
    ensures
        state.nearest_marker(ctx) matches Some(p) ==> exists|m: MatchPlayerLite| #[trigger]
            ctx.opponents@.contains(m) && m.id == p.id && p.tactical_positions.group
                != PositionGroup::Goalkeeper && forall|o: MatchPlayerLite|
                ctx.opponents@.contains(o) && #[trigger] state.is_outfield(ctx, o) ==> (m.position
                    - ctx.player.position).magnitude() <= (o.position - ctx.player.position).magnitude(),
        state.velocity(ctx) matches Some(m) && m.steering == Some(
            Steering::Arrive { target: ctx.ball.position, slowing_distance: units(3) },
        ),
{
    let p = |o: MatchPlayerLite| state.is_outfield(ctx, o);
    let k = |o: MatchPlayerLite| (o.position - ctx.player.position).magnitude();
    scan::least_is_least(ctx.opponents@, p, k);
    if let Some(m) = scan::least_where(ctx.opponents@, p, k) {
        crate::context::owner_has_the_number(ctx, m.id);
        assert(ctx.opponents@.contains(m) && p(m));
        assert forall|o: MatchPlayerLite|
            ctx.opponents@.contains(o) && #[trigger] state.is_outfield(ctx, o) implies (m.position
            - ctx.player.position).magnitude() <= (o.position - ctx.player.position).magnitude() by {
            assert(p(o));
            assert(k(m) <= k(o));
        }
    }
}

} // verus!
