//! How often players of each role tackle, and with what success.
use crate::context::StateProcessingContext;
use crate::counting::counted;
use crate::forwarders::tackling::ForwardTacklingState;
use crate::midfielders::tackling::MidfielderTacklingState;
use crate::outcome::StateChangeResult;
use crate::scalar::Scalar;
use vstd::prelude::*;

verus! {

/// The counters, by role: steps in a tackling state, tackles, and balls won.
#[derive(Clone, Copy, PartialEq, Eq, Structural, Debug)]
pub struct TackleStats {
    pub def_entries: u64,
    pub mid_entries: u64,
    pub fwd_entries: u64,
    pub gk_entries: u64,
    pub def_attempts: u64,
    pub mid_attempts: u64,
    pub fwd_attempts: u64,
    pub gk_attempts: u64,
    pub def_successes: u64,
    pub mid_successes: u64,
    pub fwd_successes: u64,
    pub gk_successes: u64,
}

impl TackleStats {
    /// The counters: steps, then tackles, then balls won, each from the defenders to the
    /// goalkeepers.
    pub open spec fn counters(self) -> Seq<u64> {
        seq![
            self.def_entries,
            self.mid_entries,
            self.fwd_entries,
            self.gk_entries,
            self.def_attempts,
            self.mid_attempts,
            self.fwd_attempts,
            self.gk_attempts,
            self.def_successes,
            self.mid_successes,
            self.fwd_successes,
            self.gk_successes,
        ]
    }

    /// In each role no more balls are won than tackles made, and no more of these than steps.
    pub open spec fn is_consistent(self) -> bool {
        &&& self.def_successes <= self.def_attempts <= self.def_entries
        &&& self.mid_successes <= self.mid_attempts <= self.mid_entries
        &&& self.fwd_successes <= self.fwd_attempts <= self.fwd_entries
        &&& self.gk_successes <= self.gk_attempts <= self.gk_entries
    }
}

impl Default for TackleStats {
    /// Nothing is counted yet.
    fn default() -> (r: Self)
        ensures
            forall|i: int| 0 <= i < 12 ==> #[trigger] r.counters()[i] == 0,
    {
        TackleStats {
            def_entries: 0,
            mid_entries: 0,
            fwd_entries: 0,
            gk_entries: 0,
            def_attempts: 0,
            mid_attempts: 0,
            fwd_attempts: 0,
            gk_attempts: 0,
            def_successes: 0,
            mid_successes: 0,
            fwd_successes: 0,
            gk_successes: 0,
        }
    }
}

/// Sets all counters to zero.
pub fn reset(stats: &mut TackleStats)
    ensures
        forall|i: int| 0 <= i < 12 ==> #[trigger] final(stats).counters()[i] == 0,
{
    *stats = TackleStats::default();
}

/// The counters: steps, then tackles, then balls won, each from the defenders to the
/// goalkeepers.
pub fn snapshot(stats: &TackleStats) -> (r: [u64; 12])
    ensures
        r@ == stats.counters(),
{
    let all: [u64; 12] = [
        stats.def_entries,
        stats.mid_entries,
        stats.fwd_entries,
        stats.gk_entries,
        stats.def_attempts,
        stats.mid_attempts,
        stats.fwd_attempts,
        stats.gk_attempts,
        stats.def_successes,
        stats.mid_successes,
        stats.fwd_successes,
        stats.gk_successes,
    ];
    assert(all@ =~= stats.counters());
    all
}

pub open spec fn spec_forward_tackles(
    state: &ForwardTacklingState,
    ctx: &StateProcessingContext,
) -> bool {
    state.reason_not_to_tackle(ctx).is_none() && state.tackle_target(ctx).is_some()
}

/// Whether a forward tackles in this step.
#[verifier::when_used_as_spec(spec_forward_tackles)]
pub fn forward_tackles(state: &ForwardTacklingState, ctx: &StateProcessingContext) -> (r: bool)
    ensures
        r == spec_forward_tackles(state, ctx),
{
    state.reason_not_to_tackle(ctx).is_none() && state.tackle_target(ctx).is_some()
}

pub open spec fn spec_forward_wins(
    state: &ForwardTacklingState,
    ctx: &StateProcessingContext,
) -> bool {
    forward_tackles(state, ctx) && match state.tackle_target(ctx) {
        Some(opponent) => {
            let attempt = state.attempt_tackle(ctx, opponent);
            attempt.success && !attempt.foul && !ctx.ball.in_flight
        },
        None => false,
    }
}

/// Whether a forward wins the ball in this step.
#[verifier::when_used_as_spec(spec_forward_wins)]
pub fn forward_wins(state: &ForwardTacklingState, ctx: &StateProcessingContext) -> (r: bool)
    ensures
        r == spec_forward_wins(state, ctx),
{
    forward_tackles(state, ctx) && match state.tackle_target(ctx) {
        Some(opponent) => {
            let attempt = state.attempt_tackle(ctx, opponent);
            attempt.success && !attempt.foul && !ctx.ball.in_flight
        },
        None => false,
    }
}

pub open spec fn spec_after_forward(
    stats: TackleStats,
    state: &ForwardTacklingState,
    ctx: &StateProcessingContext,
) -> TackleStats {
    TackleStats {
        fwd_entries: counted(stats.fwd_entries, true),
        fwd_attempts: counted(stats.fwd_attempts, forward_tackles(state, ctx)),
        fwd_successes: counted(stats.fwd_successes, forward_wins(state, ctx)),
        ..stats
    }
}

/// The counters after one step of a tackling forward.
#[verifier::when_used_as_spec(spec_after_forward)]
pub fn after_forward(
    stats: TackleStats,
    state: &ForwardTacklingState,
    ctx: &StateProcessingContext,
) -> (r: TackleStats)
    ensures
        r == spec_after_forward(stats, state, ctx),
{
    TackleStats {
        fwd_entries: counted(stats.fwd_entries, true),
        fwd_attempts: counted(stats.fwd_attempts, forward_tackles(state, ctx)),
        fwd_successes: counted(stats.fwd_successes, forward_wins(state, ctx)),
        ..stats
    }
}

pub open spec fn spec_after_midfielder(
    stats: TackleStats,
    state: &MidfielderTacklingState,
    ctx: &StateProcessingContext,
    odds: Scalar,
) -> TackleStats {
    let tackles: bool = state.tackles(ctx);
    let attempt = state.attempt_tackle(ctx, odds);
    TackleStats {
        mid_entries: counted(stats.mid_entries, true),
        mid_attempts: counted(stats.mid_attempts, tackles),
        mid_successes: counted(stats.mid_successes, tackles && attempt.success && !attempt.foul),
        ..stats
    }
}

/// The counters after one step of a tackling midfielder, given the odds of the tackle.
#[verifier::when_used_as_spec(spec_after_midfielder)]
pub fn after_midfielder(
    stats: TackleStats,
    state: &MidfielderTacklingState,
    ctx: &StateProcessingContext,
    odds: Scalar,
) -> (r: TackleStats)
    ensures
        r == spec_after_midfielder(stats, state, ctx, odds),
{
    let tackles: bool = state.tackles(ctx);
    let attempt = state.attempt_tackle(ctx, odds);
    TackleStats {
        mid_entries: counted(stats.mid_entries, true),
        mid_attempts: counted(stats.mid_attempts, tackles),
        mid_successes: counted(stats.mid_successes, tackles && attempt.success && !attempt.foul),
        ..stats
    }
}

/// One step of a tackling forward, with its tackle counted.
pub fn process_forward_counted(
    state: &ForwardTacklingState,
    ctx: &StateProcessingContext,
    stats: &mut TackleStats,
) -> (r: Option<StateChangeResult>)
    ensures
        r == state.process(ctx),
        *final(stats) == after_forward(*old(stats), state, ctx),
{
    *stats = after_forward(*stats, state, ctx);
    state.process(ctx)
}

/// One step of a tackling midfielder, with its tackle counted.
pub fn process_midfielder_counted(
    state: &MidfielderTacklingState,
    ctx: &StateProcessingContext,
    odds: Scalar,
    stats: &mut TackleStats,
) -> (r: Option<StateChangeResult>)
    ensures
        r == state.process(ctx, odds),
        *final(stats) == after_midfielder(*old(stats), state, ctx, odds),
{
    *stats = after_midfielder(*stats, state, ctx, odds);
    state.process(ctx, odds)
}

/// Counting keeps the counters consistent, as long as none is full.
pub proof fn counting_stays_consistent(
    stats: TackleStats,
    forward: &ForwardTacklingState,
    midfielder: &MidfielderTacklingState,
    ctx: &StateProcessingContext,
    odds: Scalar,
)
    requires
        stats.is_consistent(),
        stats.fwd_entries < u64::MAX,
        stats.mid_entries < u64::MAX,
    ensures
        after_forward(stats, forward, ctx).is_consistent(),
        after_midfielder(stats, midfielder, ctx, odds).is_consistent(),
{
}

/// The counted balls won are those that a tackle brings.
pub proof fn counted_balls_are_won(
    stats: TackleStats,
    forward: &ForwardTacklingState,
    midfielder: &MidfielderTacklingState,
    ctx: &StateProcessingContext,
    odds: Scalar,
)
    ensures
        after_forward(stats, forward, ctx).fwd_successes != stats.fwd_successes <==> (forward.process(
            ctx,
        ) matches Some(r) && r.event == Some(
            crate::outcome::PlayerEvent::TacklingBall { player: ctx.player.id },
        )),
        after_midfielder(stats, midfielder, ctx, odds).mid_successes != stats.mid_successes <==> (
        midfielder.process(ctx, odds) matches Some(r) && r.event == Some(
            crate::outcome::PlayerEvent::TacklingBall { player: ctx.player.id },
        )),
{
}

/// Each step in a tackling state is counted for its own role alone: one step, the tackle where one
/// is made, and the ball where it is won.
pub proof fn roles_are_counted_apart(
    stats: TackleStats,
    forward: &ForwardTacklingState,
    midfielder: &MidfielderTacklingState,
    ctx: &StateProcessingContext,
    odds: Scalar,
)
    requires
        forall|i: int| 0 <= i < 12 ==> #[trigger] stats.counters()[i] < u64::MAX,
    ensures
        ({
            let f = after_forward(stats, forward, ctx);
            let m = after_midfielder(stats, midfielder, ctx, odds);
            let tackled = forward.reason_not_to_tackle(ctx) is None
                && forward.tackle_target(ctx) is Some;
            &&& f.fwd_entries == stats.fwd_entries + 1
            &&& m.mid_entries == stats.mid_entries + 1
            &&& f.fwd_attempts == stats.fwd_attempts + (if tackled { 1int } else { 0 })
            &&& m.mid_attempts == stats.mid_attempts + (
                if midfielder.tackles(ctx) { 1int } else { 0 }
            )
            &&& f.def_entries == stats.def_entries && f.mid_entries == stats.mid_entries
                && f.gk_entries
                == stats.gk_entries
            &&& f.def_attempts == stats.def_attempts && f.mid_attempts == stats.mid_attempts
                && f.gk_attempts
                == stats.gk_attempts
            &&& f.def_successes == stats.def_successes && f.mid_successes == stats.mid_successes
                && f.gk_successes == stats.gk_successes
            &&& m.def_entries == stats.def_entries && m.fwd_entries == stats.fwd_entries
                && m.gk_entries
                == stats.gk_entries
            &&& m.def_attempts == stats.def_attempts && m.fwd_attempts == stats.fwd_attempts
                && m.gk_attempts
                == stats.gk_attempts
            &&& m.def_successes == stats.def_successes && m.fwd_successes == stats.fwd_successes
                && m.gk_successes == stats.gk_successes
            &&& f.fwd_successes != stats.fwd_successes ==> f.fwd_attempts != stats.fwd_attempts
            &&& m.mid_successes != stats.mid_successes ==> m.mid_attempts != stats.mid_attempts
        }),
{
    assert(stats.counters()[1] < u64::MAX);
    assert(stats.counters()[2] < u64::MAX);
    assert(stats.counters()[5] < u64::MAX);
    assert(stats.counters()[6] < u64::MAX);
}

} // verus!
