//! How far forwards with the ball in range get on the way to a shot.
//!
//! A step with the ball in range passes a series of gates. Each counter holds the steps that got
//! past one gate and all those before it, so the drop from one counter to the next shows how
//! often a gate stops a shot.
use crate::context::{ShotDecision, ShotOccasion, StateProcessingContext};
use crate::counting::counted;
use crate::forwarders::running::{max_shooting_distance, ForwardRunningState};
use crate::outcome::StateChangeResult;
use crate::scalar::units;
use vstd::prelude::*;

verus! {

/// The counters of the gates.
#[derive(Clone, Copy, PartialEq, Eq, Structural, Debug)]
pub struct ShotGateStats {
    pub has_ball_in_range: u64,
    pub passed_can_shoot: u64,
    pub passed_settled: u64,
    pub passed_not_possession: u64,
    pub passed_not_defer: u64,
    pub passed_max_dist: u64,
    pub passed_clear_shot: u64,
    pub passed_willingness: u64,
    pub fired: u64,
    pub helper_shoot: u64,
    pub helper_pass: u64,
    pub helper_hold: u64,
}

impl ShotGateStats {
    /// The counters, in the order of the gates.
    pub open spec fn counters(self) -> Seq<u64> {
        seq![
            self.has_ball_in_range,
            self.passed_can_shoot,
            self.passed_settled,
            self.passed_not_possession,
            self.passed_not_defer,
            self.passed_max_dist,
            self.passed_clear_shot,
            self.passed_willingness,
            self.fired,
            self.helper_shoot,
            self.helper_pass,
            self.helper_hold,
        ]
    }

    /// Nothing passes a gate that did not pass the one before it.
    pub open spec fn is_waterfall(self) -> bool {
        &&& self.passed_not_possession <= self.has_ball_in_range
        &&& self.passed_can_shoot <= self.has_ball_in_range
        &&& self.passed_settled <= self.passed_can_shoot
        &&& self.passed_not_defer <= self.passed_settled
        &&& self.passed_max_dist <= self.passed_not_defer
        &&& self.passed_clear_shot <= self.passed_max_dist
        &&& self.passed_willingness <= self.helper_shoot
        &&& self.fired <= self.passed_willingness
    }
}

impl Default for ShotGateStats {
    /// Nothing is counted yet.
    fn default() -> (r: Self)
        ensures
            forall|i: int| 0 <= i < 12 ==> #[trigger] r.counters()[i] == 0,
    {
        ShotGateStats {
            has_ball_in_range: 0,
            passed_can_shoot: 0,
            passed_settled: 0,
            passed_not_possession: 0,
            passed_not_defer: 0,
            passed_max_dist: 0,
            passed_clear_shot: 0,
            passed_willingness: 0,
            fired: 0,
            helper_shoot: 0,
            helper_pass: 0,
            helper_hold: 0,
        }
    }
}

/// Sets all counters to zero.
pub fn reset(stats: &mut ShotGateStats)
    ensures
        forall|i: int| 0 <= i < 12 ==> #[trigger] final(stats).counters()[i] == 0,
{
    *stats = ShotGateStats::default();
}

/// The counters, in the order of the gates.
pub fn snapshot(stats: &ShotGateStats) -> (r: [u64; 12])
    ensures
        r@ == stats.counters(),
{
    let all: [u64; 12] = [
        stats.has_ball_in_range,
        stats.passed_can_shoot,
        stats.passed_settled,
        stats.passed_not_possession,
        stats.passed_not_defer,
        stats.passed_max_dist,
        stats.passed_clear_shot,
        stats.passed_willingness,
        stats.fired,
        stats.helper_shoot,
        stats.helper_pass,
        stats.helper_hold,
    ];
    assert(all@ =~= stats.counters());
    all
}

pub open spec fn spec_comes_to_the_gates(
    state: &ForwardRunningState,
    ctx: &StateProcessingContext,
) -> bool {
    ctx.player.has_ball && state.opening(ctx).is_none() && state.before_the_gates(ctx).is_none()
}

/// Whether the step comes to the gates: a forward with the ball, with nothing decided before
/// them.
#[verifier::when_used_as_spec(spec_comes_to_the_gates)]
pub fn comes_to_the_gates(state: &ForwardRunningState, ctx: &StateProcessingContext) -> (r: bool)
    ensures
        r == spec_comes_to_the_gates(state, ctx),
{
    ctx.player.has_ball && state.opening(ctx).is_none() && state.before_the_gates(ctx).is_none()
}

pub open spec fn spec_rule_says_shoot(ctx: &StateProcessingContext) -> bool {
    match ctx.evaluate_forward_shot_decision(ShotOccasion::RunClear) {
        ShotDecision::Shoot { reason } => true,
        _ => false,
    }
}

/// Whether the central rule on shots says to shoot.
#[verifier::when_used_as_spec(spec_rule_says_shoot)]
pub fn rule_says_shoot(ctx: &StateProcessingContext) -> (r: bool)
    ensures
        r == spec_rule_says_shoot(ctx),
{
    match ctx.evaluate_forward_shot_decision(ShotOccasion::RunClear) {
        ShotDecision::Shoot { reason } => true,
        _ => false,
    }
}

pub open spec fn spec_rule_says_pass(ctx: &StateProcessingContext) -> bool {
    match ctx.evaluate_forward_shot_decision(ShotOccasion::RunClear) {
        ShotDecision::Pass => true,
        _ => false,
    }
}

/// Whether the central rule on shots says to pass.
#[verifier::when_used_as_spec(spec_rule_says_pass)]
pub fn rule_says_pass(ctx: &StateProcessingContext) -> (r: bool)
    ensures
        r == spec_rule_says_pass(ctx),
{
    match ctx.evaluate_forward_shot_decision(ShotOccasion::RunClear) {
        ShotDecision::Pass => true,
        _ => false,
    }
}

pub open spec fn spec_after_step(
    stats: ShotGateStats,
    state: &ForwardRunningState,
    ctx: &StateProcessingContext,
) -> ShotGateStats {
    if !comes_to_the_gates(state, ctx) {
        stats
    } else {
        let distance = ctx.ball.distance_to_opponent_goal;
        let in_range: bool = distance <= units(90);
        let can_shoot: bool = in_range && state.may_shoot(ctx);
        let settled: bool = can_shoot && state.has_settled(ctx);
        let not_defer: bool = settled && !state.has_teammate_with_much_better_shot(ctx, distance);
        let max_dist: bool = not_defer && distance <= max_shooting_distance();
        let clear: bool = max_dist && ctx.player.clear_shot;
        let asked: bool = state.passes_the_gates(ctx);
        let shoot: bool = asked && rule_says_shoot(ctx);
        let pass: bool = asked && rule_says_pass(ctx);
        let fires: bool = shoot && !state.is_suppressed(ctx);
        ShotGateStats {
            has_ball_in_range: counted(stats.has_ball_in_range, in_range),
            passed_can_shoot: counted(stats.passed_can_shoot, can_shoot),
            passed_settled: counted(stats.passed_settled, settled),
            passed_not_possession: counted(
                stats.passed_not_possession,
                in_range && !state.prefers_possession(ctx),
            ),
            passed_not_defer: counted(stats.passed_not_defer, not_defer),
            passed_max_dist: counted(stats.passed_max_dist, max_dist),
            passed_clear_shot: counted(stats.passed_clear_shot, clear),
            passed_willingness: counted(stats.passed_willingness, fires),
            fired: counted(stats.fired, fires),
            helper_shoot: counted(stats.helper_shoot, shoot),
            helper_pass: counted(stats.helper_pass, pass),
            helper_hold: counted(stats.helper_hold, asked && !shoot && !pass),
        }
    }
}

/// The counters after one step of a running forward.
#[verifier::when_used_as_spec(spec_after_step)]
pub fn after_step(
    stats: ShotGateStats,
    state: &ForwardRunningState,
    ctx: &StateProcessingContext,
) -> (r: ShotGateStats)
    ensures
        r == spec_after_step(stats, state, ctx),
{
    if !comes_to_the_gates(state, ctx) {
        return stats;
    }
    let distance = ctx.ball.distance_to_opponent_goal;
    let in_range: bool = distance <= units(90);
    let can_shoot: bool = in_range && state.may_shoot(ctx);
    let settled: bool = can_shoot && state.has_settled(ctx);
    let not_defer: bool = settled && !state.has_teammate_with_much_better_shot(ctx, distance);
    let max_dist: bool = not_defer && distance <= max_shooting_distance();
    let clear: bool = max_dist && ctx.player.clear_shot;
    let asked: bool = state.passes_the_gates(ctx);
    let shoot: bool = asked && rule_says_shoot(ctx);
    let pass: bool = asked && rule_says_pass(ctx);
    let fires: bool = shoot && !state.is_suppressed(ctx);
    ShotGateStats {
        has_ball_in_range: counted(stats.has_ball_in_range, in_range),
        passed_can_shoot: counted(stats.passed_can_shoot, can_shoot),
        passed_settled: counted(stats.passed_settled, settled),
        passed_not_possession: counted(
            stats.passed_not_possession,
            in_range && !state.prefers_possession(ctx),
        ),
        passed_not_defer: counted(stats.passed_not_defer, not_defer),
        passed_max_dist: counted(stats.passed_max_dist, max_dist),
        passed_clear_shot: counted(stats.passed_clear_shot, clear),
        passed_willingness: counted(stats.passed_willingness, fires),
        fired: counted(stats.fired, fires),
        helper_shoot: counted(stats.helper_shoot, shoot),
        helper_pass: counted(stats.helper_pass, pass),
        helper_hold: counted(stats.helper_hold, asked && !shoot && !pass),
    }
}

/// One step of a running forward, with its gates counted.
pub fn process_counted(
    state: &ForwardRunningState,
    ctx: &StateProcessingContext,
    stats: &mut ShotGateStats,
) -> (r: Option<StateChangeResult>)
    ensures
        r == state.process(ctx),
        *final(stats) == after_step(*old(stats), state, ctx),
{
    *stats = after_step(*stats, state, ctx);
    state.process(ctx)
}

/// Counting a step keeps the waterfall, as long as no counter is full.
pub proof fn counting_keeps_the_waterfall(
    stats: ShotGateStats,
    state: &ForwardRunningState,
    ctx: &StateProcessingContext,
)
    requires
        stats.is_waterfall(),
        stats.has_ball_in_range < u64::MAX,
        stats.helper_shoot < u64::MAX,
    ensures
        after_step(stats, state, ctx).is_waterfall(),
{
}

/// A step that is counted as fired is a shot, for the reason that the central rule on shots
/// gives.
pub proof fn fired_means_shot(
    stats: ShotGateStats,
    state: &ForwardRunningState,
    ctx: &StateProcessingContext,
)
    requires
        after_step(stats, state, ctx).fired != stats.fired,
    ensures
        ctx.evaluate_forward_shot_decision(
            ShotOccasion::RunClear,
        ) matches ShotDecision::Shoot { reason }
            && state.process(ctx) == Some(
            crate::outcome::with_forward_state(
                crate::outcome::ForwardState::Shooting,
            ).with_shot_reason(
                reason,
            ),
        ),
{
}

/// A step that does not come to the gates is not counted; one that does is counted in range within
/// 90 of the goal, past a gate only where it is past the one before, and where the central rule on
/// shots is asked, under just one of its three answers.
pub proof fn gates_are_counted(
    stats: ShotGateStats,
    state: &ForwardRunningState,
    ctx: &StateProcessingContext,
)
    requires
        forall|i: int| 0 <= i < 12 ==> #[trigger] stats.counters()[i] < u64::MAX,
    ensures
        ({
            let after = after_step(stats, state, ctx);
            let at_gates = ctx.player.has_ball && state.opening(ctx) is None
                && state.before_the_gates(
                ctx,
            ) is None;
            let moved = |old: u64, new: u64| new != old;
            let asked = at_gates && state.passes_the_gates(ctx);
            let answer = ctx.shots.run_clear;
            let distance = ctx.ball.distance_to_opponent_goal;
            let in_range = moved(stats.has_ball_in_range, after.has_ball_in_range);
            let settled = moved(stats.passed_settled, after.passed_settled);
            let close = moved(stats.passed_max_dist, after.passed_max_dist);
            let clear = moved(stats.passed_clear_shot, after.passed_clear_shot);
            &&& !at_gates ==> after == stats
            &&& at_gates ==> (in_range <==> distance <= units(90))
            &&& moved(stats.passed_can_shoot, after.passed_can_shoot) <==> in_range
                && state.may_shoot(ctx)
            &&& settled <==> in_range && state.may_shoot(ctx) && state.has_settled(ctx)
            &&& moved(stats.passed_not_possession, after.passed_not_possession) <==> in_range
                && !state.prefers_possession(ctx)
            &&& moved(stats.passed_not_defer, after.passed_not_defer) <==> settled
                && !state.has_teammate_with_much_better_shot(ctx, distance)
            &&& close ==> distance <= max_shooting_distance()
            &&& clear <==> close && ctx.player.clear_shot
            &&& moved(stats.helper_shoot, after.helper_shoot) <==> asked && answer is Shoot
            &&& moved(stats.helper_pass, after.helper_pass) <==> asked && answer is Pass
            &&& moved(stats.helper_hold, after.helper_hold) <==> asked && !(answer is Shoot)
                && !(answer is Pass)
            &&& moved(stats.fired, after.fired) <==> asked && answer is Shoot
                && !state.is_suppressed(ctx)
            &&& moved(stats.fired, after.fired) == moved(
                stats.passed_willingness,
                after.passed_willingness,
            )
            &&& in_range ==> after.has_ball_in_range == stats.has_ball_in_range + 1
            &&& clear ==> after.passed_clear_shot == stats.passed_clear_shot + 1
        }),
{
    assert(stats.counters()[0] < u64::MAX);
    assert(stats.counters()[6] < u64::MAX);
}

} // verus!
