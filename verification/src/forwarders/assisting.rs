//! A forward who supports the player on the ball.
use crate::context::{MatchPlayerLite, PositionGroup, StateProcessingContext};
use crate::outcome::{
    arrive, exertion_with_velocity, with_forward_state, ActivityIntensity, Exertion, ForwardState,
    Movement, StateChangeResult, Steering,
};
use crate::scalar::{milli, units, Scalar};
use crate::scan;
use crate::vector::vec3;
use vstd::prelude::*;

verus! {

#[derive(Default, Clone, Copy)]
pub struct ForwardAssistingState {}

impl ForwardAssistingState {
    pub open spec fn spec_process(
        &self,
        ctx: &StateProcessingContext,
    ) -> Option<StateChangeResult> {
        if ctx.ball.should_take_immediately && ctx.team.best_player_to_chase_ball {
            Some(with_forward_state(ForwardState::TakeBall))
        } else if !ctx.team.control_ball {
            Some(with_forward_state(ForwardState::Running))
        } else if ctx.ball.distance < units(200)
            && ctx.ball.is_towards_player_with_angle(milli(900)) {
            Some(with_forward_state(ForwardState::Intercepting))
        } else if !ctx.player.on_own_side && ctx.opponent_exists(units(100)) {
            Some(with_forward_state(ForwardState::CreatingSpace))
        } else if self.is_under_pressure(ctx) {
            Some(with_forward_state(ForwardState::Dribbling))
        } else if self.find_best_teammate_to_assist(ctx).is_some() {
            Some(with_forward_state(ForwardState::Passing))
        } else if self.is_in_shooting_range(ctx) && ctx.player.has_ball {
            Some(with_forward_state(ForwardState::Shooting))
        } else if self.should_create_space(ctx) {
            Some(with_forward_state(ForwardState::CreatingSpace))
        } else {
            None
        }
    }

    /// The next state of an assisting forward.
    #[verifier::when_used_as_spec(spec_process)]
    pub fn process(&self, ctx: &StateProcessingContext) -> (r: Option<StateChangeResult>)
        ensures
            r == self.spec_process(ctx),
    {
        // Only the best placed player goes for a loose ball.
        if ctx.ball.should_take_immediately && ctx.team.best_player_to_chase_ball {
            return Some(with_forward_state(ForwardState::TakeBall));
        }
        if !ctx.team.control_ball {
            return Some(with_forward_state(ForwardState::Running));
        }
        if ctx.ball.distance < units(200) && ctx.ball.is_towards_player_with_angle(milli(900)) {
            return Some(with_forward_state(ForwardState::Intercepting));
        }
        if !ctx.player.on_own_side && ctx.opponent_exists(units(100)) {
            return Some(with_forward_state(ForwardState::CreatingSpace));
        }
        // Under pressure the forward takes the opponent on.
        if self.is_under_pressure(ctx) {
            return Some(with_forward_state(ForwardState::Dribbling));
        }
        if self.find_best_teammate_to_assist(ctx).is_some() {
            return Some(with_forward_state(ForwardState::Passing));
        }
        if self.is_in_shooting_range(ctx) && ctx.player.has_ball {
            return Some(with_forward_state(ForwardState::Shooting));
        }
        if self.should_create_space(ctx) {
            return Some(with_forward_state(ForwardState::CreatingSpace));
        }
        None
    }

    pub open spec fn spec_velocity(&self, ctx: &StateProcessingContext) -> Option<Movement> {
        let goal = ctx.goal();
        let depth = if ctx.teammate_on_ball() {
            ctx.player.onside_hold_x
        } else {
            ctx.player.onside_free_x
        };
        Some(arrive(vec3(depth, goal.y, goal.z), units(10)))
    }

    /// Towards the goal, but no deeper than the line allows while a teammate keeps the ball.
    #[verifier::when_used_as_spec(spec_velocity)]
    pub fn velocity(&self, ctx: &StateProcessingContext) -> (r: Option<Movement>)
        ensures
            r == self.spec_velocity(ctx),
    {
        let goal = ctx.goal();
        let depth = if ctx.teammate_on_ball() {
            ctx.player.onside_hold_x
        } else {
            ctx.player.onside_free_x
        };
        Some(arrive(vec3(depth, goal.y, goal.z), units(10)))
    }

    pub open spec fn spec_process_conditions(&self) -> Exertion {
        exertion_with_velocity(ActivityIntensity::Moderate)
    }

    /// The load of the state.
    #[verifier::when_used_as_spec(spec_process_conditions)]
    pub fn process_conditions(&self) -> (r: Exertion)
        ensures
            r == self.spec_process_conditions(),
    {
        exertion_with_velocity(ActivityIntensity::Moderate)
    }

    pub open spec fn spec_is_under_pressure(&self, ctx: &StateProcessingContext) -> bool {
        ctx.player.under_immediate_pressure
    }

    #[verifier::when_used_as_spec(spec_is_under_pressure)]
    pub fn is_under_pressure(&self, ctx: &StateProcessingContext) -> (r: bool)
        ensures
            r == self.spec_is_under_pressure(ctx),
    {
        ctx.player.under_immediate_pressure
    }

    pub open spec fn spec_should_make_quick_pass(&self, ctx: &StateProcessingContext) -> bool {
        ctx.rolls.quick_pass < ctx.curves.passing_13 * ctx.curves.decisions_12
    }

    /// Whether the forward dares a first-time pass.
    #[verifier::when_used_as_spec(spec_should_make_quick_pass)]
    pub fn should_make_quick_pass(&self, ctx: &StateProcessingContext) -> (r: bool)
        ensures
            r == self.spec_should_make_quick_pass(ctx),
    {
        ctx.rolls.quick_pass < ctx.curves.passing_13 * ctx.curves.decisions_12
    }

    pub open spec fn spec_find_best_teammate_to_assist(
        &self,
        ctx: &StateProcessingContext,
    ) -> Option<u32> {
        match scan::least_where(
            ctx.teammates@,
            |t: MatchPlayerLite|
                t.distance <= units(200) && self.is_in_good_scoring_position(ctx, t),
            |t: MatchPlayerLite| t.distance,
        ) {
            Some(t) => Some(t.id),
            None => None,
        }
    }

    /// The nearest teammate in a good scoring position.
    #[verifier::when_used_as_spec(spec_find_best_teammate_to_assist)]
    pub fn find_best_teammate_to_assist(&self, ctx: &StateProcessingContext) -> (r: Option<u32>)
        ensures
            r == self.spec_find_best_teammate_to_assist(ctx),
    {
        match scan::least_of(
            &ctx.teammates,
            |t: MatchPlayerLite| -> (b: bool)
                ensures b == (t.distance <= units(200) && self.is_in_good_scoring_position(ctx, t))
            {
                t.distance <= units(200) && self.is_in_good_scoring_position(ctx, t)
            },
            |t: MatchPlayerLite| -> (b: Scalar)
                ensures b == (t.distance)
            {
                t.distance
            },
            Ghost(
                |t: MatchPlayerLite|
                    t.distance <= units(200) && self.is_in_good_scoring_position(ctx, t),
            ),
            Ghost(|t: MatchPlayerLite| t.distance),
        ) {
            Some(t) => Some(t.id),
            None => None,
        }
    }

    pub open spec fn spec_is_in_good_scoring_position(
        &self,
        ctx: &StateProcessingContext,
        teammate: MatchPlayerLite,
    ) -> bool {
        teammate.position.distance_to(ctx.goal()) < units(350)
        && (ctx.opponents_around(teammate.position, units(10)) < 2
            || teammate.tactical_positions.is_forward())
    }

    /// Near the goal, and free or a forward.
    #[verifier::when_used_as_spec(spec_is_in_good_scoring_position)]
    pub fn is_in_good_scoring_position(
        &self,
        ctx: &StateProcessingContext,
        teammate: MatchPlayerLite,
    ) -> (r: bool)
        ensures
            r == self.spec_is_in_good_scoring_position(ctx, teammate),
    {
        teammate.position.distance_to(ctx.goal()) < units(350)
        && (ctx.opponents_around(teammate.position, units(10)) < 2
            || teammate.tactical_positions.is_forward())
    }

    pub open spec fn spec_is_in_shooting_range(&self, ctx: &StateProcessingContext) -> bool {
        ctx.ball.distance_to_opponent_goal < units(25)
    }

    #[verifier::when_used_as_spec(spec_is_in_shooting_range)]
    pub fn is_in_shooting_range(&self, ctx: &StateProcessingContext) -> (r: bool)
        ensures
            r == self.spec_is_in_shooting_range(ctx),
    {
        ctx.ball.distance_to_opponent_goal < units(25)
    }

    pub open spec fn spec_should_create_space(&self, ctx: &StateProcessingContext) -> bool {
        ctx.teammate_exists(units(100)) && ctx.rolls.create_space < ctx.curves.off_the_ball_15
    }

    /// A forward with company looks for space the more, the better the movement off the ball.
    #[verifier::when_used_as_spec(spec_should_create_space)]
    pub fn should_create_space(&self, ctx: &StateProcessingContext) -> (r: bool)
        ensures
            r == self.spec_should_create_space(ctx),
    {
        ctx.teammate_exists(units(100)) && ctx.rolls.create_space < ctx.curves.off_the_ball_15
    }
}

/// An assisting forward who is best placed takes a ball that is there to be taken, runs once the
/// ball is lost, and meets one that comes straight; up front with opponents around the forward
/// makes space, and else takes on an opponent, passes to a teammate who can score, or shoots close
/// to the goal with the ball.
pub proof fn assists_in_order(state: ForwardAssistingState, ctx: &StateProcessingContext)
    ensures
        ({
            let taken = ctx.ball.should_take_immediately && ctx.team.best_player_to_chase_ball;
            let comes = ctx.ball.distance < units(200) && ctx.ball.heading >= milli(900);
            let crowded_up_front = !ctx.player.on_own_side && exists|o: MatchPlayerLite| #[trigger]
                ctx.opponents@.contains(o) && o.distance <= units(100);
            let scorer = exists|t: MatchPlayerLite| #[trigger]
                ctx.teammates@.contains(t) && t.distance <= units(200)
                    && t.position.distance_to(ctx.goal())
                    < units(350) && (ctx.opponents_around(t.position, units(10)) < 2
                    || t.tactical_positions.group == PositionGroup::Forward);
            let goes_to = |s: ForwardState| state.process(ctx) == Some(with_forward_state(s));
            let in_play = !taken && ctx.team.control_ball && !comes && !crowded_up_front;
            &&& taken ==> goes_to(ForwardState::TakeBall)
            &&& !taken && !ctx.team.control_ball ==> goes_to(ForwardState::Running)
            &&& !taken && ctx.team.control_ball && comes ==> goes_to(ForwardState::Intercepting)
            &&& !taken && ctx.team.control_ball && !comes && crowded_up_front ==> goes_to(
                ForwardState::CreatingSpace,
            )
            &&& in_play && ctx.player.under_immediate_pressure ==> goes_to(ForwardState::Dribbling)
            &&& in_play && !ctx.player.under_immediate_pressure
                && scorer ==> goes_to(ForwardState::Passing)
            &&& in_play && !ctx.player.under_immediate_pressure && !scorer && ctx.player.has_ball
                && ctx.ball.distance_to_opponent_goal
                    < units(25) ==> goes_to(ForwardState::Shooting)
            &&& in_play && !ctx.player.under_immediate_pressure && !scorer && !ctx.player.has_ball
                && ctx.rolls.create_space
                    >= ctx.curves.off_the_ball_15 ==> state.process(ctx) is None
            &&& in_play && !ctx.player.under_immediate_pressure && !scorer && !ctx.player.has_ball
                && ctx.rolls.create_space < ctx.curves.off_the_ball_15 && (exists|t: MatchPlayerLite|
             #[trigger]
                ctx.teammates@.contains(t) && t.distance <= units(100)) ==> goes_to(
                ForwardState::CreatingSpace,
            )
        }),
{
    crate::context::nearby_means_close(ctx, units(100), units(100));
    scan::least_is_least(
        ctx.teammates@,
        |t: MatchPlayerLite| t.distance <= units(200) && state.is_in_good_scoring_position(ctx, t),
        |t: MatchPlayerLite| t.distance,
    );
}

/// The teammate to assist is one near the goal, free or a forward, and no other such is nearer.
pub proof fn assists_the_nearest(
    state: ForwardAssistingState,
    ctx: &StateProcessingContext,
    id: u32,
)
    requires
        state.find_best_teammate_to_assist(ctx) == Some(id),
    ensures
        exists|m: MatchPlayerLite| #[trigger]
            ctx.teammates@.contains(m) && m.id == id && m.distance <= units(200)
                && m.position.distance_to(
                ctx.goal(),
            ) < units(350) && forall|t: MatchPlayerLite|
                ctx.teammates@.contains(t) && t.distance <= units(200)
                    && #[trigger] state.is_in_good_scoring_position(ctx, t) ==> m.distance
                        <= t.distance,
{
    let p = |t: MatchPlayerLite| t.distance <= units(200)
        && state.is_in_good_scoring_position(ctx, t);
    let k = |t: MatchPlayerLite| t.distance;
    scan::least_is_least(ctx.teammates@, p, k);
    let m = scan::least_where(ctx.teammates@, p, k)->0;
    assert forall|t: MatchPlayerLite|
        ctx.teammates@.contains(t) && t.distance <= units(200)
            && #[trigger] state.is_in_good_scoring_position(ctx, t) implies m.distance
                <= t.distance by {
        assert(p(t));
        assert(k(m) <= k(t));
    }
    assert(ctx.teammates@.contains(m) && p(m));
}

/// The run ends at the goal in its lane: held at the line with a teammate on the ball, as deep as
/// is
/// allowed without. A quick pass is dared on a draw below the skill for it.
pub proof fn runs_are_held(state: ForwardAssistingState, ctx: &StateProcessingContext)
    ensures
        state.velocity(ctx) matches Some(m) && (m.steering matches Some(
            Steering::Arrive { target, slowing_distance },
        ) && slowing_distance == units(10) && target.y == ctx.goal().y && target.x == (
        if ctx.teammate_on_ball() {
            ctx.player.onside_hold_x
        } else {
            ctx.player.onside_free_x
        })),
        state.should_make_quick_pass(ctx) ==> ctx.rolls.quick_pass < ctx.curves.passing_13
            * ctx.curves.decisions_12,
        ctx.rolls.quick_pass < ctx.curves.passing_13 * ctx.curves.decisions_12
            ==> state.should_make_quick_pass(ctx),
{
}

} // verus!
