//! A goalkeeper with the ball in hand.
use crate::context::{share, to_count, MatchPlayerLite, StateProcessingContext};
use crate::outcome::{
    exertion, still, with_goalkeeper_state, ActivityIntensity, Exertion, GoalkeeperState,
    Movement, StateChangeResult,
};
use crate::scalar::{milli, units, Scalar};
use crate::scan;
use vstd::prelude::*;

verus! {

/// The hold of the quickest thinker.
pub const MIN_HOLDING_DURATION: u64 = 80;

/// The hold of the slowest thinker.
pub const MAX_HOLDING_DURATION: u64 = 160;

/// Steps before a quick release is possible.
pub const QUICK_RELEASE_MIN_HOLD: u64 = 12;

pub open spec fn spec_quick_release_chance() -> Scalar {
    milli(50)
}

/// The chance of a quick release in each step.
#[verifier::when_used_as_spec(spec_quick_release_chance)]
pub fn quick_release_chance() -> (r: Scalar)
    ensures
        r == spec_quick_release_chance(),
{
    milli(50)
}

#[derive(Default, Clone, Copy)]
pub struct GoalkeeperHoldingState {}

impl GoalkeeperHoldingState {
    pub open spec fn spec_quick_counter_option_exists(
        &self,
        ctx: &StateProcessingContext,
    ) -> bool {
        scan::some_where(ctx.teammates@, |t: MatchPlayerLite| self.is_counter_outlet(ctx, t))
    }

    /// A teammate far up the pitch whom no opponent is near.
    #[verifier::when_used_as_spec(spec_quick_counter_option_exists)]
    pub fn quick_counter_option_exists(&self, ctx: &StateProcessingContext) -> (r: bool)
        ensures
            r == self.spec_quick_counter_option_exists(ctx),
    {
        scan::any_of(
            &ctx.teammates,
            |t: MatchPlayerLite| -> (b: bool)
                ensures b == (self.is_counter_outlet(ctx, t))
            {
                self.is_counter_outlet(ctx, t)
            },
            Ghost(|t: MatchPlayerLite| self.is_counter_outlet(ctx, t)),
        )
    }

    pub open spec fn spec_is_counter_outlet(
        &self,
        ctx: &StateProcessingContext,
        t: MatchPlayerLite,
    ) -> bool {
        let upfield = if ctx.goal().x
            > ctx.player.position.x { units(1) } else { units(1).negated() };
        t.id != ctx.player.id && (t.position.x - ctx.player.position.x) * upfield >= units(300)
        && !scan::some_where(
            ctx.opponents@,
            |o: MatchPlayerLite| (o.position - t.position).magnitude() <= units(90),
        )
    }

    #[verifier::when_used_as_spec(spec_is_counter_outlet)]
    pub fn is_counter_outlet(&self, ctx: &StateProcessingContext, t: MatchPlayerLite) -> (r: bool)
        ensures
            r == self.spec_is_counter_outlet(ctx, t),
    {
        let upfield = if ctx.goal().x
            > ctx.player.position.x { units(1) } else { units(1).negated() };
        t.id != ctx.player.id && (t.position.x - ctx.player.position.x) * upfield >= units(300)
        && !scan::any_of(
            &ctx.opponents,
            |o: MatchPlayerLite| -> (b: bool)
                ensures b == ((o.position - t.position).magnitude() <= units(90))
            {
                (o.position - t.position).magnitude() <= units(90)
            },
            Ghost(|o: MatchPlayerLite| (o.position - t.position).magnitude() <= units(90)),
        )
    }

    pub open spec fn spec_saved_time(&self, ctx: &StateProcessingContext) -> u64 {
        to_count(units(80) * share(ctx.player.skills.mental.decisions)) as u64
    }

    /// The part of the longest hold that good decisions save.
    #[verifier::when_used_as_spec(spec_saved_time)]
    pub fn saved_time(&self, ctx: &StateProcessingContext) -> (r: u64)
        ensures
            r == self.spec_saved_time(ctx),
    {
        to_count(units(80) * share(ctx.player.skills.mental.decisions)) as u64
    }

    pub open spec fn spec_holding_duration(&self, ctx: &StateProcessingContext) -> u64 {
        let base: u64 = (MAX_HOLDING_DURATION - self.saved_time(ctx)) as u64;
        if ctx.team.losing {
            base / 2
        } else {
            base
        }
    }

    /// How long the goalkeeper holds the ball: the less, the better the decisions, and half as
    /// long when behind.
    #[verifier::when_used_as_spec(spec_holding_duration)]
    pub fn holding_duration(&self, ctx: &StateProcessingContext) -> (r: u64)
        requires
            self.saved_time(ctx) <= MAX_HOLDING_DURATION,
        ensures
            r == self.spec_holding_duration(ctx),
            r <= MAX_HOLDING_DURATION,
    {
        let base: u64 = (MAX_HOLDING_DURATION - self.saved_time(ctx)) as u64;
        if ctx.team.losing { base / 2 } else { base }
    }

    pub open spec fn spec_releases_quickly(&self, ctx: &StateProcessingContext) -> bool {
        ctx.in_state_time >= QUICK_RELEASE_MIN_HOLD && self.quick_counter_option_exists(ctx)
        && ctx.rolls.quick_release < quick_release_chance()
    }

    /// Somebody is free for a counter-attack, and chance has it that the ball is released early.
    #[verifier::when_used_as_spec(spec_releases_quickly)]
    pub fn releases_quickly(&self, ctx: &StateProcessingContext) -> (r: bool)
        ensures
            r == self.spec_releases_quickly(ctx),
    {
        ctx.in_state_time >= QUICK_RELEASE_MIN_HOLD && self.quick_counter_option_exists(ctx)
        && ctx.rolls.quick_release < quick_release_chance()
    }

    pub open spec fn spec_process(
        &self,
        ctx: &StateProcessingContext,
    ) -> Option<StateChangeResult> {
        if !ctx.player.has_ball {
            Some(with_goalkeeper_state(GoalkeeperState::Standing))
        } else if self.releases_quickly(ctx) {
            Some(with_goalkeeper_state(GoalkeeperState::Distributing))
        } else if ctx.in_state_time >= self.holding_duration(ctx) {
            Some(with_goalkeeper_state(GoalkeeperState::Distributing))
        } else {
            None
        }
    }

    /// The next state of a goalkeeper with the ball in hand.
    #[verifier::when_used_as_spec(spec_process)]
    pub fn process(&self, ctx: &StateProcessingContext) -> (r: Option<StateChangeResult>)
        requires
            ctx.player.has_ball
                && !self.releases_quickly(ctx) ==> self.saved_time(ctx) <= MAX_HOLDING_DURATION,
        ensures
            r == self.spec_process(ctx),
    {
        if !ctx.player.has_ball {
            return Some(with_goalkeeper_state(GoalkeeperState::Standing));
        }
        if self.releases_quickly(ctx) {
            return Some(with_goalkeeper_state(GoalkeeperState::Distributing));
        }
        if ctx.in_state_time >= self.holding_duration(ctx) {
            return Some(with_goalkeeper_state(GoalkeeperState::Distributing));
        }
        None
    }

    pub open spec fn spec_velocity(&self, ctx: &StateProcessingContext) -> Option<Movement> {
        Some(still())
    }

    /// The goalkeeper stands still.
    #[verifier::when_used_as_spec(spec_velocity)]
    pub fn velocity(&self, ctx: &StateProcessingContext) -> (r: Option<Movement>)
        ensures
            r == self.spec_velocity(ctx),
    {
        Some(still())
    }

    pub open spec fn spec_process_conditions(&self) -> Exertion {
        exertion(ActivityIntensity::Low)
    }

    /// The load of the state.
    #[verifier::when_used_as_spec(spec_process_conditions)]
    pub fn process_conditions(&self) -> (r: Exertion)
        ensures
            r == self.spec_process_conditions(),
    {
        exertion(ActivityIntensity::Low)
    }
}

/// The hold ends: after the longest hold the ball is always released.
pub proof fn hold_ends(state: GoalkeeperHoldingState, ctx: &StateProcessingContext)
    requires
        ctx.player.has_ball,
        state.releases_quickly(ctx) || state.saved_time(ctx) <= MAX_HOLDING_DURATION,
        ctx.in_state_time >= MAX_HOLDING_DURATION,
    ensures
        state.process(ctx) == Some(with_goalkeeper_state(GoalkeeperState::Distributing)),
{
}

/// Decisions of up to twice the top of the scale save no more than the longest hold.
pub proof fn saved_time_is_bounded(state: GoalkeeperHoldingState, ctx: &StateProcessingContext)
    requires
        ctx.player.skills.mental.decisions <= units(40),
    ensures
        state.saved_time(ctx) <= MAX_HOLDING_DURATION,
{
    let decisions = ctx.player.skills.mental.decisions;
    crate::scalar::quotient_keeps_order(decisions, units(40), units(20));
    crate::scalar::product_keeps_order(units(80), share(decisions), units(2));
}

/// Better decisions save more of the longest hold, a half of it at the top of the scale, and the
/// ball is held no longer for it; a team that is behind holds it half as long.
pub proof fn better_decisions_hold_less(
    state: GoalkeeperHoldingState,
    ctx: &StateProcessingContext,
    other: &StateProcessingContext,
)
    requires
        units(0) <= ctx.player.skills.mental.decisions,
        ctx.player.skills.mental.decisions <= other.player.skills.mental.decisions,
        other.player.skills.mental.decisions <= units(20),
        ctx.team.losing ==> other.team.losing,
    ensures
        state.saved_time(ctx) <= state.saved_time(other),
        state.saved_time(other) <= 80,
        state.holding_duration(other) <= state.holding_duration(ctx),
        state.holding_duration(ctx) <= 160,
        ctx.player.skills.mental.decisions == units(20) ==> state.saved_time(ctx) == 80,
        ctx.player.skills.mental.decisions == units(0) ==> state.saved_time(ctx) == 0,
        !ctx.team.losing ==> state.holding_duration(ctx) >= 80,
        ctx.team.losing == other.team.losing && !ctx.team.losing ==> state.holding_duration(ctx)
            + state.saved_time(ctx) == 160,
        ctx.team.losing ==> 2 * state.holding_duration(ctx) + state.saved_time(ctx) <= 160 <= 2
            * state.holding_duration(ctx) + state.saved_time(ctx) + 1,
{
    let a = share(ctx.player.skills.mental.decisions);
    let b = share(other.player.skills.mental.decisions);
    crate::context::shares_grow(
        ctx.player.skills.mental.decisions,
        other.player.skills.mental.decisions,
        ctx,
    );
    crate::context::shares_grow(units(0), ctx.player.skills.mental.decisions, ctx);
    crate::context::shares_grow(other.player.skills.mental.decisions, units(20), ctx);
    crate::scalar::product_keeps_order(units(80), a, b);
    crate::scalar::product_keeps_order(units(80), units(0), a);
    crate::scalar::product_keeps_order(units(80), b, units(1));
    crate::scalar::zero_stays_zero(units(80));
    crate::scalar::one_changes_nothing(units(80));
}

/// A goalkeeper without the ball stands; one with it releases it early only after a moment, on a
/// low draw, with a teammate far up the pitch whom nobody is near, and else when the hold is over.
pub proof fn holds_are_kept(state: GoalkeeperHoldingState, ctx: &StateProcessingContext)
    requires
        state.saved_time(ctx) <= 160,
    ensures
        ({
            let outlet = exists|t: MatchPlayerLite| #[trigger]
                ctx.teammates@.contains(t) && state.is_counter_outlet(ctx, t);
            let early = ctx.in_state_time >= 12 && ctx.rolls.quick_release < milli(50) && outlet;
            &&& !ctx.player.has_ball ==> state.process(ctx) == Some(
                with_goalkeeper_state(GoalkeeperState::Standing),
            )
            &&& ctx.player.has_ball && (early || ctx.in_state_time >= state.holding_duration(ctx))
                ==> state.process(ctx) == Some(
                    with_goalkeeper_state(GoalkeeperState::Distributing),
                )
            &&& ctx.player.has_ball && !early && ctx.in_state_time < state.holding_duration(ctx)
                ==> state.process(ctx) is None
        }),
{
    scan::some_is_one_of_them(
        ctx.teammates@,
        |t: MatchPlayerLite| state.is_counter_outlet(ctx, t),
    );
}

/// An outlet is another player, 300 or more up the pitch towards the goal under attack, with every
/// opponent more than 90 away.
pub proof fn outlets_are_free(
    state: GoalkeeperHoldingState,
    ctx: &StateProcessingContext,
    t: MatchPlayerLite,
)
    requires
        t.position.x.is_between(units(0), units(100_000)),
        ctx.player.position.x.is_between(units(0), units(100_000)),
    ensures
        state.is_counter_outlet(ctx, t) <==> {
            &&& t.id != ctx.player.id
            &&& if ctx.goal().x > ctx.player.position.x {
                t.position.x - ctx.player.position.x >= units(300)
            } else {
                ctx.player.position.x - t.position.x >= units(300)
            }
            &&& forall|o: MatchPlayerLite| #[trigger]
                ctx.opponents@.contains(o) ==> (o.position - t.position).magnitude() > units(90)
        },
{
    scan::some_is_one_of_them(
        ctx.opponents@,
        |o: MatchPlayerLite| (o.position - t.position).magnitude() <= units(90),
    );
    let d = t.position.x - ctx.player.position.x;
    crate::scalar::one_changes_nothing(d);
    let x: int = d.raw as int;
    assert(x * (-1_000_000) == -(x * 1_000_000)) by (nonlinear_arith);
    if x >= 0 {
        assert((x * 1_000_000) / 1_000_000 == x);
    } else {
        assert((-x * 1_000_000) / 1_000_000 == -x);
    }
    assert((d * units(1).negated()).raw == -x);
}

} // verus!
