//! A midfielder who marks an attacker.
use crate::context::{MatchPlayerLite, StateProcessingContext};
use crate::outcome::{
    exertion_with_velocity, glide, glide_if_any, still, with_midfielder_state, ActivityIntensity,
    Exertion, MidfielderState, Movement, StateChangeResult,
};
use crate::scalar::{milli, units, Scalar};
use crate::scan;
use crate::vector::{aligned_at_most, alignment, Vec3};
use vstd::prelude::*;

verus! {

pub open spec fn spec_guard_distance() -> Scalar {
    units(25)
}

/// How far from the attacker the midfielder stays.
#[verifier::when_used_as_spec(spec_guard_distance)]
pub fn guard_distance() -> (r: Scalar)
    ensures
        r == spec_guard_distance(),
{
    units(25)
}

pub open spec fn spec_max_guard_range() -> Scalar {
    units(100)
}

/// How far away an attacker is still marked.
#[verifier::when_used_as_spec(spec_max_guard_range)]
pub fn max_guard_range() -> (r: Scalar)
    ensures
        r == spec_max_guard_range(),
{
    units(100)
}

pub open spec fn spec_tackle_transition_distance() -> Scalar {
    units(15)
}

/// How near a marked attacker who gets the ball is tackled.
#[verifier::when_used_as_spec(spec_tackle_transition_distance)]
pub fn tackle_transition_distance() -> (r: Scalar)
    ensures
        r == spec_tackle_transition_distance(),
{
    units(15)
}

pub open spec fn spec_max_distance_from_start() -> Scalar {
    units(150)
}

/// How far from the start position the midfielder follows.
#[verifier::when_used_as_spec(spec_max_distance_from_start)]
pub fn max_distance_from_start() -> (r: Scalar)
    ensures
        r == spec_max_distance_from_start(),
{
    units(150)
}

pub open spec fn spec_boundary_margin() -> Scalar {
    units(15)
}

/// How near the edge of the pitch the midfielder turns back.
#[verifier::when_used_as_spec(spec_boundary_margin)]
pub fn boundary_margin() -> (r: Scalar)
    ensures
        r == spec_boundary_margin(),
{
    units(15)
}

#[derive(Default, Clone, Copy)]
pub struct MidfielderGuardingState {}

impl MidfielderGuardingState {
    pub open spec fn spec_process(
        &self,
        ctx: &StateProcessingContext,
    ) -> Option<StateChangeResult> {
        if ctx.player.has_ball {
            Some(with_midfielder_state(MidfielderState::Running))
        } else if ctx.team.control_ball {
            Some(with_midfielder_state(MidfielderState::Running))
        } else if ctx.ball.should_take_immediately && ctx.team.best_player_to_chase_ball {
            Some(with_midfielder_state(MidfielderState::TakeBall))
        } else if ctx.player.condition < 15 {
            Some(with_midfielder_state(MidfielderState::Returning))
        } else {
            match self.engage_carrier(ctx) {
                Some(result) => {
                    Some(result)
                },
                None => {
                    match self.find_guard_target(ctx) {
                        Some(opponent) => self.mark(ctx, opponent),
                        None => if ctx.ball.on_own_side {
                            Some(with_midfielder_state(MidfielderState::Returning))
                        } else {
                            Some(with_midfielder_state(MidfielderState::Running))
                        },
                    }
                },
            }
        }
    }

    /// The next state of a marking midfielder.
    #[verifier::when_used_as_spec(spec_process)]
    pub fn process(&self, ctx: &StateProcessingContext) -> (r: Option<StateChangeResult>)
        ensures
            r == self.spec_process(ctx),
    {
        if ctx.player.has_ball {
            return Some(with_midfielder_state(MidfielderState::Running));
        }
        if ctx.team.control_ball {
            return Some(with_midfielder_state(MidfielderState::Running));
        }
        if ctx.ball.should_take_immediately && ctx.team.best_player_to_chase_ball {
            return Some(with_midfielder_state(MidfielderState::TakeBall));
        }
        if ctx.player.condition < 15 {
            return Some(with_midfielder_state(MidfielderState::Returning));
        }
        match self.engage_carrier(ctx) {
            Some(result) => {
                return Some(result);
            },
            None => {},
        }
        match self.find_guard_target(ctx) {
            Some(opponent) => self.mark(ctx, opponent),
            None => if ctx.ball.on_own_side {
                Some(with_midfielder_state(MidfielderState::Returning))
            } else {
                Some(with_midfielder_state(MidfielderState::Running))
            },
        }
    }

    pub open spec fn spec_engage_carrier(
        &self,
        ctx: &StateProcessingContext,
    ) -> Option<StateChangeResult> {
        match ctx.opponent_with_ball() {
            Some(carrier) => if carrier.distance < units(25) {
                Some(with_midfielder_state(MidfielderState::Tackling))
            } else if carrier.distance < units(100) && ctx.team.best_player_to_chase_ball {
                Some(with_midfielder_state(MidfielderState::Pressing))
            } else {
                None
            },
            None => None,
        }
    }

    /// A carrier close by is tackled, one further away pressed by the best placed player.
    #[verifier::when_used_as_spec(spec_engage_carrier)]
    pub fn engage_carrier(&self, ctx: &StateProcessingContext) -> (r: Option<StateChangeResult>)
        ensures
            r == self.spec_engage_carrier(ctx),
    {
        match ctx.opponent_with_ball() {
            Some(carrier) => if carrier.distance < units(25) {
                Some(with_midfielder_state(MidfielderState::Tackling))
            } else if carrier.distance < units(100) && ctx.team.best_player_to_chase_ball {
                Some(with_midfielder_state(MidfielderState::Pressing))
            } else {
                None
            },
            None => None,
        }
    }

    pub open spec fn spec_mark(
        &self,
        ctx: &StateProcessingContext,
        opponent: MatchPlayerLite,
    ) -> Option<StateChangeResult> {
        if opponent.has_ball {
            if opponent.distance < tackle_transition_distance() {
                Some(with_midfielder_state(MidfielderState::Tackling))
            } else {
                Some(with_midfielder_state(MidfielderState::Pressing))
            }
        } else if ctx.ball.distance < units(80)
            && ctx.ball.is_towards_player_with_angle(milli(700)) {
            Some(with_midfielder_state(MidfielderState::Intercepting))
        } else if opponent.distance > max_guard_range() {
            Some(with_midfielder_state(MidfielderState::Returning))
        } else if !ctx.ball.on_own_side && ctx.ball.distance > units(300) {
            Some(with_midfielder_state(MidfielderState::Running))
        } else if (
            ctx.player.position - ctx.player.start_position
        ).magnitude() > max_distance_from_start() {
            Some(with_midfielder_state(MidfielderState::Returning))
        } else if self.is_at_boundary(ctx) {
            Some(with_midfielder_state(MidfielderState::Returning))
        } else {
            None
        }
    }

    /// What becomes of marking one attacker.
    #[verifier::when_used_as_spec(spec_mark)]
    pub fn mark(
        &self,
        ctx: &StateProcessingContext,
        opponent: MatchPlayerLite,
    ) -> (r: Option<StateChangeResult>)
        ensures
            r == self.spec_mark(ctx, opponent),
    {
        if opponent.has_ball {
            if opponent.distance < tackle_transition_distance() {
                return Some(with_midfielder_state(MidfielderState::Tackling));
            } else {
                return Some(with_midfielder_state(MidfielderState::Pressing));
            }
        }
        if ctx.ball.distance < units(80) && ctx.ball.is_towards_player_with_angle(milli(700)) {
            return Some(with_midfielder_state(MidfielderState::Intercepting));
        }
        if opponent.distance > max_guard_range() {
            return Some(with_midfielder_state(MidfielderState::Returning));
        }
        if !ctx.ball.on_own_side && ctx.ball.distance > units(300) {
            return Some(with_midfielder_state(MidfielderState::Running));
        }
        if (
            ctx.player.position - ctx.player.start_position
        ).magnitude() > max_distance_from_start() {
            return Some(with_midfielder_state(MidfielderState::Returning));
        }
        if self.is_at_boundary(ctx) {
            return Some(with_midfielder_state(MidfielderState::Returning));
        }
        None
    }

    pub open spec fn spec_is_at_boundary(&self, ctx: &StateProcessingContext) -> bool {
        let p = ctx.player.position;
        p.x < boundary_margin() || p.x > ctx.width() - boundary_margin() || p.y < boundary_margin()
        || p.y > ctx.height() - boundary_margin()
    }

    #[verifier::when_used_as_spec(spec_is_at_boundary)]
    pub fn is_at_boundary(&self, ctx: &StateProcessingContext) -> (r: bool)
        ensures
            r == self.spec_is_at_boundary(ctx),
    {
        let p = ctx.player.position;
        p.x < boundary_margin() || p.x > ctx.width() - boundary_margin() || p.y < boundary_margin()
        || p.y > ctx.height() - boundary_margin()
    }

    pub open spec fn spec_guard_spot(
        &self,
        ctx: &StateProcessingContext,
        opponent: MatchPlayerLite,
    ) -> Option<Vec3> {
        let ahead = opponent.position + opponent.velocity * milli(250);
        match (ctx.ball.direction_to_own_goal - ahead).direction() {
            Some(way) => Some(
                (
                    ahead + way * guard_distance()
                ) * (units(1) - milli(200)) + ctx.player.start_position * milli(200),
            ),
            None => None,
        }
    }

    /// Between the attacker's next steps and the own goal, tied a little to the start position;
    /// none where the next steps lead to the goal itself.
    #[verifier::when_used_as_spec(spec_guard_spot)]
    pub fn guard_spot(
        &self,
        ctx: &StateProcessingContext,
        opponent: MatchPlayerLite,
    ) -> (r: Option<Vec3>)
        ensures
            r == self.spec_guard_spot(ctx, opponent),
    {
        let ahead = opponent.position + opponent.velocity * milli(250);
        match (ctx.ball.direction_to_own_goal - ahead).direction() {
            Some(way) => Some(
                (
                    ahead + way * guard_distance()
                ) * (units(1) - milli(200)) + ctx.player.start_position * milli(200),
            ),
            None => None,
        }
    }

    pub open spec fn spec_velocity(&self, ctx: &StateProcessingContext) -> Option<Movement> {
        match self.find_guard_target(ctx) {
            Some(opponent) => match self.guard_spot(ctx, opponent) {
                Some(spot) => Some(self.close_up(ctx, spot)),
                None => Some(glide_if_any(None)),
            },
            None => Some(still()),
        }
    }

    /// To the spot beside the attacker, faster the further away; still when there.
    #[verifier::when_used_as_spec(spec_velocity)]
    pub fn velocity(&self, ctx: &StateProcessingContext) -> (r: Option<Movement>)
        ensures
            r == self.spec_velocity(ctx),
    {
        match self.find_guard_target(ctx) {
            Some(opponent) => match self.guard_spot(ctx, opponent) {
                Some(spot) => Some(self.close_up(ctx, spot)),
                None => Some(glide_if_any(None)),
            },
            None => Some(still()),
        }
    }

    pub open spec fn spec_close_up(&self, ctx: &StateProcessingContext, spot: Vec3) -> Movement {
        let way = spot - ctx.player.position;
        if way.magnitude() < units(8) {
            still()
        } else {
            let urgency = (way.magnitude() / guard_distance()).clamp(milli(400), units(1));
            glide(way.normalize() * (ctx.player.skills.physical.pace * milli(400)) * urgency)
        }
    }

    /// To a spot, faster the further away; still when there.
    #[verifier::when_used_as_spec(spec_close_up)]
    pub fn close_up(&self, ctx: &StateProcessingContext, spot: Vec3) -> (r: Movement)
        ensures
            r == self.spec_close_up(ctx, spot),
    {
        let way = spot - ctx.player.position;
        if way.magnitude() < units(8) {
            still()
        } else {
            let urgency = (way.magnitude() / guard_distance()).clamp(milli(400), units(1));
            glide(way.normalize() * (ctx.player.skills.physical.pace * milli(400)) * urgency)
        }
    }

    pub open spec fn spec_process_conditions(&self) -> Exertion {
        exertion_with_velocity(ActivityIntensity::High)
    }

    /// The load of the state.
    #[verifier::when_used_as_spec(spec_process_conditions)]
    pub fn process_conditions(&self) -> (r: Exertion)
        ensures
            r == self.spec_process_conditions(),
    {
        exertion_with_velocity(ActivityIntensity::High)
    }

    pub open spec fn spec_find_guard_target(
        &self,
        ctx: &StateProcessingContext,
    ) -> Option<MatchPlayerLite> {
        scan::first_greatest_where(
            ctx.opponents@,
            |o: MatchPlayerLite| o.distance <= max_guard_range() && !o.has_ball,
            |o: MatchPlayerLite| self.danger(ctx, o),
        )
    }

    /// The most dangerous attacker around without the ball; of equals, the first.
    #[verifier::when_used_as_spec(spec_find_guard_target)]
    pub fn find_guard_target(&self, ctx: &StateProcessingContext) -> (r: Option<MatchPlayerLite>)
        ensures
            r == self.spec_find_guard_target(ctx),
    {
        scan::first_greatest_of(
            &ctx.opponents,
            |o: MatchPlayerLite| -> (b: bool)
                ensures b == (o.distance <= max_guard_range() && !o.has_ball)
            {
                o.distance <= max_guard_range() && !o.has_ball
            },
            |o: MatchPlayerLite| -> (b: Scalar)
                ensures b == (self.danger(ctx, o))
            {
                self.danger(ctx, o)
            },
            Ghost(|o: MatchPlayerLite| o.distance <= max_guard_range() && !o.has_ball),
            Ghost(|o: MatchPlayerLite| self.danger(ctx, o)),
        )
    }

    pub open spec fn spec_danger(
        &self,
        ctx: &StateProcessingContext,
        o: MatchPlayerLite,
    ) -> Scalar {
        let own_goal = ctx.ball.direction_to_own_goal;
        let unmarked = if self.is_covered(ctx, o) { units(0) } else { units(35) };
        (units(400) - (o.position - own_goal).magnitude().min(units(400))) / units(8)
        + (units(200) - (o.position - ctx.ball.position).magnitude().min(units(200))) / units(8)
        + self.run_danger(ctx, o) + unmarked
        + (units(60) - o.distance.min(units(60))) / units(3)
    }

    /// How dangerous an attacker is: near the own goal, near the ball, on the run, unmarked and
    /// close by.
    #[verifier::when_used_as_spec(spec_danger)]
    pub fn danger(&self, ctx: &StateProcessingContext, o: MatchPlayerLite) -> (r: Scalar)
        ensures
            r == self.spec_danger(ctx, o),
    {
        let own_goal = ctx.ball.direction_to_own_goal;
        let unmarked = if self.is_covered(ctx, o) { units(0) } else { units(35) };
        (units(400) - (o.position - own_goal).magnitude().min(units(400))) / units(8)
        + (units(200) - (o.position - ctx.ball.position).magnitude().min(units(200))) / units(8)
        + self.run_danger(ctx, o) + unmarked
        + (units(60) - o.distance.min(units(60))) / units(3)
    }

    pub open spec fn spec_run_danger(
        &self,
        ctx: &StateProcessingContext,
        o: MatchPlayerLite,
    ) -> Scalar {
        let speed = o.velocity.magnitude();
        match alignment(o.velocity, ctx.ball.direction_to_own_goal - o.position) {
            Some(heading) => if speed > units(1)
                && heading > units(0) { heading * speed * units(8) } else { units(0) },
            None => units(0),
        }
    }

    /// For a run at the own goal.
    #[verifier::when_used_as_spec(spec_run_danger)]
    pub fn run_danger(&self, ctx: &StateProcessingContext, o: MatchPlayerLite) -> (r: Scalar)
        ensures
            r == self.spec_run_danger(ctx, o),
    {
        let speed = o.velocity.magnitude();
        match alignment(o.velocity, ctx.ball.direction_to_own_goal - o.position) {
            Some(heading) => if speed > units(1)
                && heading > units(0) { heading * speed * units(8) } else { units(0) },
            None => units(0),
        }
    }

    pub open spec fn spec_is_covered(
        &self,
        ctx: &StateProcessingContext,
        o: MatchPlayerLite,
    ) -> bool {
        scan::some_where(
            ctx.teammates@,
            |t: MatchPlayerLite|
                t.position.distance_to(o.position) <= units(15) && t.id != ctx.player.id,
        )
    }

    /// A teammate is near the attacker.
    #[verifier::when_used_as_spec(spec_is_covered)]
    pub fn is_covered(&self, ctx: &StateProcessingContext, o: MatchPlayerLite) -> (r: bool)
        ensures
            r == self.spec_is_covered(ctx, o),
    {
        scan::any_of(
            &ctx.teammates,
            |t: MatchPlayerLite| -> (b: bool)
                ensures b == (
                    t.position.distance_to(o.position) <= units(15) && t.id != ctx.player.id
                )
            {
                t.position.distance_to(o.position) <= units(15) && t.id != ctx.player.id
            },
            Ghost(
                |t: MatchPlayerLite|
                    t.position.distance_to(o.position) <= units(15) && t.id != ctx.player.id,
            ),
        )
    }
}

/// The marked attacker is around, has no ball, and nobody else like that is more dangerous.
pub proof fn marks_the_most_dangerous(
    state: MidfielderGuardingState,
    ctx: &StateProcessingContext,
    marked: MatchPlayerLite,
)
    requires
        state.find_guard_target(ctx) == Some(marked),
    ensures
        ctx.opponents@.contains(marked),
        marked.distance <= max_guard_range(),
        !marked.has_ball,
        forall|o: MatchPlayerLite| #[trigger]
            ctx.opponents@.contains(o) && o.distance <= max_guard_range() && !o.has_ball
                ==> state.danger(ctx, o) <= state.danger(ctx, marked),
{
    scan::first_greatest_is_greatest(
        ctx.opponents@,
        |o: MatchPlayerLite| o.distance <= max_guard_range() && !o.has_ball,
        |o: MatchPlayerLite| state.danger(ctx, o),
    );
}

/// A marking midfielder runs once the team has the ball, takes one that is there to be taken as
/// the
/// best placed, and goes back when exhausted; a carrier at hand is tackled, one in range pressed
/// by
/// the best placed; with nobody to mark the midfielder goes back on the own side and runs on the
/// other.
pub proof fn guards_are_left(state: MidfielderGuardingState, ctx: &StateProcessingContext)
    ensures
        ({
            let goes_to = |s: MidfielderState| state.process(ctx) == Some(
                with_midfielder_state(s),
            );
            let ours = ctx.player.has_ball || ctx.team.control_ball;
            let taken = ctx.ball.should_take_immediately && ctx.team.best_player_to_chase_ball;
            let fit = !ours && !taken && ctx.player.condition >= 15;
            let near = ctx.opponent_with_ball() matches Some(c) && c.distance < units(25);
            let chased = ctx.opponent_with_ball() matches Some(c) && c.distance < units(100)
                && ctx.team.best_player_to_chase_ball;
            let somebody = exists|o: MatchPlayerLite| #[trigger]
                ctx.opponents@.contains(o) && o.distance <= units(100) && !o.has_ball;
            &&& ours ==> goes_to(MidfielderState::Running)
            &&& !ours && taken ==> goes_to(MidfielderState::TakeBall)
            &&& !ours && !taken
                && ctx.player.condition < 15 ==> goes_to(MidfielderState::Returning)
            &&& fit && near ==> goes_to(MidfielderState::Tackling)
            &&& fit && !near && chased ==> goes_to(MidfielderState::Pressing)
            &&& fit && !near && !chased && !somebody ==> goes_to(
                if ctx.ball.on_own_side {
                    MidfielderState::Returning
                } else {
                    MidfielderState::Running
                },
            )
            &&& fit && !near && !chased && somebody ==> {
                let comes = ctx.ball.distance < units(80) && ctx.ball.heading >= milli(700);
                let far = !ctx.ball.on_own_side && ctx.ball.distance > units(300);
                let p = ctx.player.position;
                let out = (p - ctx.player.start_position).magnitude() > units(150)
                    || p.x < units(15) || p.x
                    > ctx.width() - units(15) || p.y < units(15) || p.y > ctx.height() - units(15);
                &&& comes ==> goes_to(MidfielderState::Intercepting)
                &&& !comes && far ==> goes_to(MidfielderState::Running)
                &&& !comes && !far && out ==> goes_to(MidfielderState::Returning)
                &&& !comes && !far && !out ==> state.process(ctx) is None
            }
        }),
{
    let p = |o: MatchPlayerLite| o.distance <= max_guard_range() && !o.has_ball;
    scan::first_greatest_is_greatest(ctx.opponents@, p, |o: MatchPlayerLite| state.danger(ctx, o));
    if exists|o: MatchPlayerLite| #[trigger]
        ctx.opponents@.contains(o) && o.distance <= units(100) && !o.has_ball {
        let o = choose|o: MatchPlayerLite| #[trigger]
            ctx.opponents@.contains(o) && o.distance <= units(100) && !o.has_ball;
        assert(p(o));
    }
}

/// Of two attackers, one nearer to the own goal, to the ball and to the midfielder, on no slower a
/// run at the goal and marked no tighter, is no less dangerous; an unmarked one is so by 35.
pub proof fn nearer_attackers_are_more_dangerous(
    state: MidfielderGuardingState,
    ctx: &StateProcessingContext,
    a: MatchPlayerLite,
    b: MatchPlayerLite,
)
    requires
        (a.position - ctx.ball.direction_to_own_goal).magnitude() <= (b.position
            - ctx.ball.direction_to_own_goal).magnitude(),
        (
            a.position - ctx.ball.position
        ).magnitude() <= (b.position - ctx.ball.position).magnitude(),
        a.distance <= b.distance,
        state.run_danger(ctx, b) <= state.run_danger(ctx, a),
        state.is_covered(ctx, a) ==> state.is_covered(ctx, b),
    ensures
        state.danger(ctx, b) <= state.danger(ctx, a),
        (state.is_covered(ctx, b) && !state.is_covered(ctx, a) && units(0) <= a.distance && state.run_danger(
            ctx,
            a,
        ).is_between(units(0), units(100_000)) && units(0) <= state.run_danger(ctx, b)) ==> state.danger(
            ctx,
            b,
        ) + units(35) <= state.danger(ctx, a),
{
    let goal = ctx.ball.direction_to_own_goal;
    let ga = units(400) - (a.position - goal).magnitude().min(units(400));
    let gb = units(400) - (b.position - goal).magnitude().min(units(400));
    let ba = units(200) - (a.position - ctx.ball.position).magnitude().min(units(200));
    let bb = units(200) - (b.position - ctx.ball.position).magnitude().min(units(200));
    let da = units(60) - a.distance.min(units(60));
    let db = units(60) - b.distance.min(units(60));
    crate::vector::length_is_not_negative(a.position - goal);
    crate::vector::length_is_not_negative(b.position - goal);
    crate::vector::length_is_not_negative(a.position - ctx.ball.position);
    crate::vector::length_is_not_negative(b.position - ctx.ball.position);
    crate::scalar::quotient_keeps_order(gb, ga, units(8));
    crate::scalar::quotient_keeps_order(bb, ba, units(8));
    crate::scalar::quotient_keeps_order(db, da, units(3));
    crate::scalar::quotient_keeps_order(units(0), gb, units(8));
    crate::scalar::quotient_keeps_order(ga, units(400), units(8));
    crate::scalar::quotient_keeps_order(units(0), bb, units(8));
    crate::scalar::quotient_keeps_order(ba, units(200), units(8));
    crate::scalar::quotient_keeps_order(units(0), db, units(3));
    if units(0) <= a.distance {
        crate::scalar::quotient_keeps_order(da, units(60), units(3));
    }
}

/// A run at the own goal counts by its speed, one away from it and a slow one not at all; an
/// attacker is covered where another teammate is close.
pub proof fn runs_at_goal_count(
    state: MidfielderGuardingState,
    ctx: &StateProcessingContext,
    o: MatchPlayerLite,
)
    ensures
        o.velocity.magnitude() <= units(1) ==> state.run_danger(ctx, o) == units(0),
        aligned_at_most(o.velocity, ctx.ball.direction_to_own_goal - o.position, units(0))
            ==> state.run_danger(ctx, o) == units(0),
        units(0) <= state.run_danger(ctx, o),
        (alignment(o.velocity, ctx.ball.direction_to_own_goal - o.position) == Some(units(1))
            && o.velocity.magnitude() == units(2)) ==> state.run_danger(ctx, o) == units(16),
        state.is_covered(ctx, o) <==> exists|t: MatchPlayerLite| #[trigger]
            ctx.teammates@.contains(t) && t.id != ctx.player.id
                && t.position.distance_to(o.position)
                <= units(15),
{
    scan::some_is_one_of_them(
        ctx.teammates@,
        |t: MatchPlayerLite|
            t.position.distance_to(o.position) <= units(15) && t.id != ctx.player.id,
    );
    if let Some(h) = alignment(o.velocity, ctx.ball.direction_to_own_goal - o.position) {
        if h > units(0) && o.velocity.magnitude() > units(1) {
            crate::scalar::product_keeps_sign(h, o.velocity.magnitude());
            crate::scalar::product_keeps_sign(h * o.velocity.magnitude(), units(8));
            crate::scalar::one_changes_nothing(o.velocity.magnitude());
            crate::scalar::multiple_is_exact(units(2), 8);
        }
    }
}

/// With nobody to mark, and at the spot, the midfielder is still, and otherwise goes towards it.
pub proof fn guards_close_up(
    state: MidfielderGuardingState,
    ctx: &StateProcessingContext,
    spot: Vec3,
)
    ensures
        state.find_guard_target(ctx) is None ==> state.velocity(ctx) == Some(still()),
        (
            spot - ctx.player.position
        ).magnitude() < units(8) ==> state.close_up(ctx, spot) == still(),
        (spot - ctx.player.position).magnitude() >= units(25)
            && (spot - ctx.player.position).magnitude()
            <= units(100_000) ==> (state.close_up(ctx, spot).extra == Some(
            (spot - ctx.player.position).normalize() * (
                ctx.player.skills.physical.pace * milli(400)
            )
                * units(1),
        )),
        state.close_up(ctx, spot).steering is None,
        state.find_guard_target(ctx) matches Some(o) ==> (state.guard_spot(ctx, o) matches Some(s)
            ==> state.velocity(ctx) == Some(state.close_up(ctx, s))),
{
    let way = (spot - ctx.player.position).magnitude();
    if way >= units(25) {
        crate::scalar::quotient_keeps_order(units(25), way, guard_distance());
    }
}

/// The spot to mark an attacker who stands is 25 from them towards the own goal, four parts of
/// that
/// to one of the start position; a moving one is met a quarter of a step ahead.
pub proof fn marks_are_goal_side(
    state: MidfielderGuardingState,
    ctx: &StateProcessingContext,
    o: MatchPlayerLite,
    still: MatchPlayerLite,
)
    ensures
        o.velocity.is_zero() ==> (match (ctx.ball.direction_to_own_goal - o.position).direction() {
            Some(way) => state.guard_spot(ctx, o) == Some(
                (
                    o.position + way * units(25)
                ) * milli(800) + ctx.player.start_position * milli(200),
            ),
            None => state.guard_spot(ctx, o) is None,
        }),
        (
            still.velocity.is_zero() && still.position == o.position + o.velocity * milli(250)
        ) ==> state.guard_spot(ctx, o) == state.guard_spot(ctx, still),
{
    crate::scalar::zero_stays_zero(milli(250));
}

/// An attacker far from the goal, from the ball and from the midfielder, covered and not on a run,
/// is no danger; eight nearer to the goal or to the ball is one more, three nearer to the
/// midfielder
/// one more, and an unmarked one 35 more.
pub proof fn danger_adds_up(
    state: MidfielderGuardingState,
    ctx: &StateProcessingContext,
    o: MatchPlayerLite,
)
    requires
        state.run_danger(ctx, o) == units(0),
    ensures
        ({
            let to_goal = (o.position - ctx.ball.direction_to_own_goal).magnitude();
            let to_ball = (o.position - ctx.ball.position).magnitude();
            let cover = if state.is_covered(ctx, o) { 0int } else { 35 };
            let far = to_goal >= units(400) && to_ball >= units(200);
            &&& far && o.distance >= units(60) ==> state.danger(ctx, o).raw == cover * 1_000_000
            &&& far
                && o.distance == units(57) ==> state.danger(ctx, o).raw == (cover + 1) * 1_000_000
            &&& to_goal == units(392) && to_ball >= units(200)
                && o.distance >= units(60) ==> state.danger(
                ctx,
                o,
            ).raw == (cover + 1) * 1_000_000
            &&& to_goal >= units(400) && to_ball == units(192)
                && o.distance >= units(60) ==> state.danger(
                ctx,
                o,
            ).raw == (cover + 1) * 1_000_000
            &&& to_goal == units(0) && to_ball == units(0)
                && o.distance == units(0) ==> state.danger(
                ctx,
                o,
            ).raw == (cover + 95) * 1_000_000
        }),
{
}

} // verus!
