//! A goalkeeper who goes for a catch or a save.
use crate::context::{PlayerDistanceFromStartPosition, ShotTarget, StateProcessingContext};
use crate::outcome::{
    arrive, exertion, pursue, with_goalkeeper_state, ActivityIntensity, Exertion, GoalkeeperState,
    Movement, PlayerEvent, PlayerState, StateChangeResult, Steering,
};
use crate::scalar::{milli, units, Scalar};
use crate::vector::flat;
use vstd::prelude::*;

verus! {

pub open spec fn spec_bar_height() -> Scalar {
    milli(2440)
}

/// The height of the bar.
#[verifier::when_used_as_spec(spec_bar_height)]
pub fn bar_height() -> (r: Scalar)
    ensures
        r == spec_bar_height(),
{
    milli(2440)
}

/// The chance of a save over a number of steps.
#[derive(Clone, Copy, PartialEq, Eq, Structural, Debug)]
pub struct SaveSpread {
    pub probability: Scalar,
    pub ticks: Scalar,
}

#[derive(Default, Clone, Copy)]
pub struct GoalkeeperCatchingState {}

impl GoalkeeperCatchingState {
    pub open spec fn spec_process(
        &self,
        ctx: &StateProcessingContext,
        chance: Scalar,
    ) -> Option<StateChangeResult> {
        if self.is_catch_successful(ctx, chance) {
            Some(
                with_goalkeeper_state(GoalkeeperState::HoldingBall).with_event(
                    PlayerEvent::CaughtBall { player: ctx.player.id },
                ),
            )
        } else if ctx.ball.shot_target.is_some() {
            None
        } else if ctx.ball.velocity.magnitude() > units(2)
            && !ctx.ball.is_towards_player_with_angle(milli(600)) {
            Some(with_goalkeeper_state(GoalkeeperState::Standing))
        } else if ctx.ball.distance > units(12) {
            if ctx.player.distance_from_start_position > units(40) {
                Some(with_goalkeeper_state(GoalkeeperState::ReturningToGoal))
            } else {
                Some(with_goalkeeper_state(GoalkeeperState::ComingOut))
            }
        } else if ctx.player.position_to_distance == PlayerDistanceFromStartPosition::Big {
            Some(with_goalkeeper_state(GoalkeeperState::ReturningToGoal))
        } else if ctx.in_state_time > 30 {
            Some(with_goalkeeper_state(GoalkeeperState::Standing))
        } else {
            None
        }
    }

    /// The next state of a catching goalkeeper. `chance` is the chance of the catch at the
    /// difficulty that `difficulty` tells, or that of the save in this step, which `spread`
    /// leads to.
    #[verifier::when_used_as_spec(spec_process)]
    pub fn process(
        &self,
        ctx: &StateProcessingContext,
        chance: Scalar,
    ) -> (r: Option<StateChangeResult>)
        ensures
            r == self.spec_process(ctx, chance),
    {
        if self.is_catch_successful(ctx, chance) {
            return Some(
                with_goalkeeper_state(GoalkeeperState::HoldingBall).with_event(
                    PlayerEvent::CaughtBall { player: ctx.player.id },
                ),
            );
        }
        // With a shot on its way the goalkeeper commits.
        if ctx.ball.shot_target.is_some() {
            return None;
        }
        if ctx.ball.velocity.magnitude() > units(2)
            && !ctx.ball.is_towards_player_with_angle(milli(600)) {
            return Some(with_goalkeeper_state(GoalkeeperState::Standing));
        }
        if ctx.ball.distance > units(12) {
            if ctx.player.distance_from_start_position > units(40) {
                return Some(with_goalkeeper_state(GoalkeeperState::ReturningToGoal));
            } else {
                return Some(with_goalkeeper_state(GoalkeeperState::ComingOut));
            }
        }
        if ctx.player.position_to_distance == PlayerDistanceFromStartPosition::Big {
            return Some(with_goalkeeper_state(GoalkeeperState::ReturningToGoal));
        }
        if ctx.in_state_time > 30 {
            return Some(with_goalkeeper_state(GoalkeeperState::Standing));
        }
        None
    }

    pub open spec fn spec_speed_boost(&self, ctx: &StateProcessingContext) -> Scalar {
        (
            milli(1600) + ctx.player.goalkeeping.shot_stopping * milli(500)
                + ctx.player.goalkeeping.dive_reach * milli(500)
        )
        * ctx.player.goalkeeping.explosive_mult
    }

    /// How much faster than a run the goalkeeper reacts.
    #[verifier::when_used_as_spec(spec_speed_boost)]
    pub fn speed_boost(&self, ctx: &StateProcessingContext) -> (r: Scalar)
        ensures
            r == self.spec_speed_boost(ctx),
    {
        (
            milli(1600) + ctx.player.goalkeeping.shot_stopping * milli(500)
                + ctx.player.goalkeeping.dive_reach * milli(500)
        )
        * ctx.player.goalkeeping.explosive_mult
    }

    pub open spec fn spec_velocity(&self, ctx: &StateProcessingContext) -> Option<Movement> {
        let boost = self.speed_boost(ctx);
        match ctx.ball.shot_target {
            Some(target) => {
                let spot = flat(ctx.ball.direction_to_own_goal.x, target.goal_line_y);
                let pace = if target.is_direct_free_kick { milli(200) } else { boost };
                Some(arrive(spot, units(2)).scaled(pace))
            },
            None => {
                if ctx.ball.distance > units(3) {
                    Some(pursue(ctx.ball.position, ctx.ball.velocity).scaled(boost))
                } else {
                    Some(arrive(ctx.ball.position, milli(1500)).scaled(boost * milli(800)))
                }
            },
        }
    }

    /// To where a shot crosses the line, only creeping at a direct free kick; else to the ball.
    #[verifier::when_used_as_spec(spec_velocity)]
    pub fn velocity(&self, ctx: &StateProcessingContext) -> (r: Option<Movement>)
        ensures
            r == self.spec_velocity(ctx),
    {
        let boost = self.speed_boost(ctx);
        match ctx.ball.shot_target {
            Some(target) => {
                let spot = flat(ctx.ball.direction_to_own_goal.x, target.goal_line_y);
                let pace = if target.is_direct_free_kick { milli(200) } else { boost };
                return Some(arrive(spot, units(2)).scaled(pace));
            },
            None => {},
        }
        if ctx.ball.distance > units(3) {
            Some(pursue(ctx.ball.position, ctx.ball.velocity).scaled(boost))
        } else {
            Some(arrive(ctx.ball.position, milli(1500)).scaled(boost * milli(800)))
        }
    }

    pub open spec fn spec_process_conditions(&self) -> Exertion {
        exertion(ActivityIntensity::Moderate)
    }

    /// The load of the state.
    #[verifier::when_used_as_spec(spec_process_conditions)]
    pub fn process_conditions(&self) -> (r: Exertion)
        ensures
            r == self.spec_process_conditions(),
    {
        exertion(ActivityIntensity::Moderate)
    }

    pub open spec fn spec_reach(&self, ctx: &StateProcessingContext) -> Scalar {
        units(10) + ctx.player.goalkeeping.dive_reach * units(12)
            + ctx.player.goalkeeping.shot_stopping * units(4)
    }

    /// How far to the side the goalkeeper gets a hand to a shot.
    #[verifier::when_used_as_spec(spec_reach)]
    pub fn reach(&self, ctx: &StateProcessingContext) -> (r: Scalar)
        ensures
            r == self.spec_reach(ctx),
    {
        units(10) + ctx.player.goalkeeping.dive_reach * units(12)
            + ctx.player.goalkeeping.shot_stopping * units(4)
    }

    pub open spec fn spec_lateral_error(
        &self,
        ctx: &StateProcessingContext,
        target: ShotTarget,
    ) -> Scalar {
        (ctx.player.position.y - target.goal_line_y).abs()
    }

    /// How far from the goalkeeper a shot crosses the line.
    #[verifier::when_used_as_spec(spec_lateral_error)]
    pub fn lateral_error(&self, ctx: &StateProcessingContext, target: ShotTarget) -> (r: Scalar)
        ensures
            r == self.spec_lateral_error(ctx, target),
    {
        (ctx.player.position.y - target.goal_line_y).abs()
    }

    pub open spec fn spec_is_savable(
        &self,
        ctx: &StateProcessingContext,
        target: ShotTarget,
    ) -> bool {
        target.goal_line_z <= bar_height() && self.lateral_error(ctx, target) <= self.reach(ctx)
    }

    /// A shot under the bar and within reach to the side.
    #[verifier::when_used_as_spec(spec_is_savable)]
    pub fn is_savable(&self, ctx: &StateProcessingContext, target: ShotTarget) -> (r: bool)
        ensures
            r == self.spec_is_savable(ctx, target),
    {
        target.goal_line_z <= bar_height() && self.lateral_error(ctx, target) <= self.reach(ctx)
    }

    pub open spec fn spec_shot_difficulty(
        &self,
        ctx: &StateProcessingContext,
        target: ShotTarget,
    ) -> Scalar {
        let placement = (
            self.lateral_error(ctx, target) / self.reach(ctx)
        ).clamp(units(0), units(1));
        let power = (
            (ctx.ball.velocity.magnitude() - units(2)) / units(6)
        ).clamp(units(0), units(1));
        let height = (target.goal_line_z / bar_height()).clamp(units(0), units(1));
        let reaction = (
            units(1) - ctx.player.goalkeeping.shot_stopping
        ).clamp(units(0), units(1)) * milli(400);
        (power * milli(280) + placement * milli(240) + placement * milli(180) + height * milli(100)
            + reaction * milli(100) + (units(1) - ctx.player.goalkeeping.condition_mult) * milli(100)).clamp(units(0), units(1))
    }

    /// How hard a shot is to save, from 0 to 1: by its power, its place, its height, and the
    /// goalkeeper's reactions and condition.
    #[verifier::when_used_as_spec(spec_shot_difficulty)]
    pub fn shot_difficulty(&self, ctx: &StateProcessingContext, target: ShotTarget) -> (r: Scalar)
        ensures
            r == self.spec_shot_difficulty(ctx, target),
            units(0) <= r,
            r <= units(1),
    {
        let placement = (
            self.lateral_error(ctx, target) / self.reach(ctx)
        ).clamp(units(0), units(1));
        let power = (
            (ctx.ball.velocity.magnitude() - units(2)) / units(6)
        ).clamp(units(0), units(1));
        let height = (target.goal_line_z / bar_height()).clamp(units(0), units(1));
        let reaction = (
            units(1) - ctx.player.goalkeeping.shot_stopping
        ).clamp(units(0), units(1)) * milli(400);
        (power * milli(280) + placement * milli(240) + placement * milli(180) + height * milli(100)
            + reaction * milli(100) + (units(1) - ctx.player.goalkeeping.condition_mult) * milli(100)).clamp(units(0), units(1))
    }

    pub open spec fn spec_spread(
        &self,
        target: ShotTarget,
        save_probability: Scalar,
    ) -> SaveSpread {
        SaveSpread {
            probability: if target.deflected {
                save_probability * milli(500)
            } else {
                save_probability
            },
            ticks: if target.is_direct_free_kick {
                target.total_flight_ticks.max(units(1))
            } else {
                units(3)
            },
        }
    }

    /// What the chance of a save in one step is worked out from, given the chance of saving the
    /// shot at its difficulty: that chance, halved for a deflected shot, and the number of steps
    /// over which it is spread.
    #[verifier::when_used_as_spec(spec_spread)]
    pub fn spread(&self, target: ShotTarget, save_probability: Scalar) -> (r: SaveSpread)
        ensures
            r == self.spec_spread(target, save_probability),
    {
        SaveSpread {
            probability: if target.deflected {
                save_probability * milli(500)
            } else {
                save_probability
            },
            ticks: if target.is_direct_free_kick {
                target.total_flight_ticks.max(units(1))
            } else {
                units(3)
            },
        }
    }

    pub open spec fn spec_is_catchable(&self, ctx: &StateProcessingContext) -> bool {
        ctx.ball.distance <= ctx.player.goalkeeping.effective_catch_distance
        && (
            ctx.ball.velocity.magnitude() <= milli(500)
                || ctx.ball.is_towards_player_with_angle(milli(600))
        )
    }

    /// Near enough, and not on its way past.
    #[verifier::when_used_as_spec(spec_is_catchable)]
    pub fn is_catchable(&self, ctx: &StateProcessingContext) -> (r: bool)
        ensures
            r == self.spec_is_catchable(ctx),
    {
        ctx.ball.distance <= ctx.player.goalkeeping.effective_catch_distance
        && (
            ctx.ball.velocity.magnitude() <= milli(500)
                || ctx.ball.is_towards_player_with_angle(milli(600))
        )
    }

    pub open spec fn spec_height_penalty(&self, height: Scalar) -> Scalar {
        if height >= milli(500) && height <= milli(1800) {
            units(0)
        } else if height < milli(200) {
            milli(180)
        } else if height > milli(2500) {
            milli(220)
        } else {
            milli(60)
        }
    }

    /// How awkward the height of the ball is.
    #[verifier::when_used_as_spec(spec_height_penalty)]
    pub fn height_penalty(&self, height: Scalar) -> (r: Scalar)
        ensures
            r == self.spec_height_penalty(height),
    {
        if height >= milli(500) && height <= milli(1800) {
            units(0)
        } else if height < milli(200) {
            milli(180)
        } else if height > milli(2500) {
            milli(220)
        } else {
            milli(60)
        }
    }

    pub open spec fn spec_catch_difficulty(&self, ctx: &StateProcessingContext) -> Scalar {
        let stretch = (
            ctx.ball.distance / ctx.player.goalkeeping.effective_catch_distance
        ).clamp(units(0), units(1));
        let power = (
            (ctx.ball.velocity.magnitude() - milli(1500)) / units(6)
        ).clamp(units(0), units(1));
        let direction = if ctx.ball.is_towards_player_with_angle(milli(700)) {
            units(0)
        } else {
            milli(180)
        };
        (power * milli(280) + stretch * milli(220) + self.height_penalty(ctx.ball.position.z) * milli(180)
            + direction * milli(120) + (
                units(1) - ctx.player.goalkeeping.condition_mult
            ) * milli(100)
            + ctx.player.goalkeeping.poor_skill_penalty * milli(100)).clamp(units(0), units(1))
    }

    /// How hard a ball is to catch, from 0 to 1.
    #[verifier::when_used_as_spec(spec_catch_difficulty)]
    pub fn catch_difficulty(&self, ctx: &StateProcessingContext) -> (r: Scalar)
        ensures
            r == self.spec_catch_difficulty(ctx),
            units(0) <= r,
            r <= units(1),
    {
        let stretch = (
            ctx.ball.distance / ctx.player.goalkeeping.effective_catch_distance
        ).clamp(units(0), units(1));
        let power = (
            (ctx.ball.velocity.magnitude() - milli(1500)) / units(6)
        ).clamp(units(0), units(1));
        let direction = if ctx.ball.is_towards_player_with_angle(milli(700)) {
            units(0)
        } else {
            milli(180)
        };
        (power * milli(280) + stretch * milli(220) + self.height_penalty(ctx.ball.position.z) * milli(180)
            + direction * milli(120) + (
                units(1) - ctx.player.goalkeeping.condition_mult
            ) * milli(100)
            + ctx.player.goalkeeping.poor_skill_penalty * milli(100)).clamp(units(0), units(1))
    }

    pub open spec fn spec_difficulty(&self, ctx: &StateProcessingContext) -> Option<Scalar> {
        match ctx.ball.shot_target {
            Some(target) => if self.is_savable(ctx, target) {
                Some(self.shot_difficulty(ctx, target))
            } else {
                None
            },
            None => if self.is_catchable(ctx) { Some(self.catch_difficulty(ctx)) } else { None },
        }
    }

    /// How hard the save or the catch is; none where it is out of the question.
    #[verifier::when_used_as_spec(spec_difficulty)]
    pub fn difficulty(&self, ctx: &StateProcessingContext) -> (r: Option<Scalar>)
        ensures
            r == self.spec_difficulty(ctx),
    {
        match ctx.ball.shot_target {
            Some(target) => if self.is_savable(ctx, target) {
                Some(self.shot_difficulty(ctx, target))
            } else {
                None
            },
            None => if self.is_catchable(ctx) { Some(self.catch_difficulty(ctx)) } else { None },
        }
    }

    pub open spec fn spec_is_catch_successful(
        &self,
        ctx: &StateProcessingContext,
        chance: Scalar,
    ) -> bool {
        self.difficulty(ctx).is_some() && ctx.rolls.save < chance
    }

    /// Whether the goalkeeper gets the ball, at the given chance.
    #[verifier::when_used_as_spec(spec_is_catch_successful)]
    pub fn is_catch_successful(&self, ctx: &StateProcessingContext, chance: Scalar) -> (r: bool)
        ensures
            r == self.spec_is_catch_successful(ctx, chance),
    {
        self.difficulty(ctx).is_some() && ctx.rolls.save < chance
    }
}

/// A shot over the bar or out of reach is never caught, whatever the chance.
pub proof fn no_save_out_of_reach(
    state: GoalkeeperCatchingState,
    ctx: &StateProcessingContext,
    target: ShotTarget,
    chance: Scalar,
)
    requires
        ctx.ball.shot_target == Some(target),
        target.goal_line_z > bar_height() || state.lateral_error(ctx, target) > state.reach(ctx),
    ensures
        state.process(ctx, chance) == None::<StateChangeResult>,
{
}

/// While a shot is on its way the goalkeeper either has the ball or stays committed.
pub proof fn shot_keeps_goalkeeper_committed(
    state: GoalkeeperCatchingState,
    ctx: &StateProcessingContext,
    chance: Scalar,
)
    requires
        ctx.ball.shot_target is Some,
    ensures
        state.process(ctx, chance) matches Some(r) ==> r.state == PlayerState::Goalkeeper(
            GoalkeeperState::HoldingBall,
        ) && r.event == Some(PlayerEvent::CaughtBall { player: ctx.player.id }),
{
}

/// A ball within the question is caught exactly on a draw below the chance; one who does not catch
/// it stays committed to a shot, and else lets a ball go past, comes out for a far one or goes
/// back
/// from far out, and gives up after a while.
pub proof fn catches_are_drawn(
    state: GoalkeeperCatchingState,
    ctx: &StateProcessingContext,
    chance: Scalar,
)
    ensures
        ({
            let caught = state.difficulty(ctx) is Some && ctx.rolls.save < chance;
            let goes_to = |s: GoalkeeperState|
                state.process(ctx, chance) == Some(with_goalkeeper_state(s));
            let free = !caught && ctx.ball.shot_target is None;
            let past = ctx.ball.velocity.magnitude() > units(2) && ctx.ball.heading < milli(600);
            let big = ctx.player.position_to_distance == PlayerDistanceFromStartPosition::Big;
            &&& caught ==> (state.process(ctx, chance) matches Some(r) && r.state
                == PlayerState::Goalkeeper(GoalkeeperState::HoldingBall) && r.event == Some(
                PlayerEvent::CaughtBall { player: ctx.player.id },
            ))
            &&& !caught && ctx.ball.shot_target is Some ==> state.process(ctx, chance) is None
            &&& free && past ==> goes_to(GoalkeeperState::Standing)
            &&& free && !past && ctx.ball.distance > units(12) ==> goes_to(
                if ctx.player.distance_from_start_position > units(40) {
                    GoalkeeperState::ReturningToGoal
                } else {
                    GoalkeeperState::ComingOut
                },
            )
            &&& free && !past && ctx.ball.distance <= units(12) && big ==> goes_to(
                GoalkeeperState::ReturningToGoal,
            )
            &&& free && !past && ctx.ball.distance <= units(12)
                && !big ==> if ctx.in_state_time > 30 {
                goes_to(GoalkeeperState::Standing)
            } else {
                state.process(ctx, chance) is None
            }
        }),
{
}

/// A shot can be saved exactly under the bar and within reach to the side, and the reach grows
/// with
/// the skills; a ball can be caught near enough, and slow or on its way to the goalkeeper.
pub proof fn reach_grows(
    state: GoalkeeperCatchingState,
    ctx: &StateProcessingContext,
    other: &StateProcessingContext,
)
    requires
        ctx.player.goalkeeping.dive_reach <= other.player.goalkeeping.dive_reach,
        ctx.player.goalkeeping.shot_stopping <= other.player.goalkeeping.shot_stopping,
    ensures
        state.reach(ctx) <= state.reach(other),
        (
            ctx.player.goalkeeping.dive_reach == units(0)
                && ctx.player.goalkeeping.shot_stopping == units(0)
        )
            ==> state.reach(ctx) == units(10),
        (
            ctx.player.goalkeeping.dive_reach == units(1)
                && ctx.player.goalkeeping.shot_stopping == units(1)
        )
            ==> state.reach(ctx) == units(26),
        match ctx.ball.shot_target {
            Some(t) => state.difficulty(ctx) is Some <==> t.goal_line_z <= milli(2440) && (
            ctx.player.position.y - t.goal_line_y).abs() <= state.reach(ctx),
            None => state.difficulty(ctx) is Some <==> ctx.ball.distance
                <= ctx.player.goalkeeping.effective_catch_distance && (ctx.ball.velocity.magnitude()
                <= milli(500) || ctx.ball.heading >= milli(600)),
        },
{
    crate::scalar::scaling_keeps_order(
        ctx.player.goalkeeping.dive_reach,
        other.player.goalkeeping.dive_reach,
        units(12),
    );
    crate::scalar::scaling_keeps_order(
        ctx.player.goalkeeping.shot_stopping,
        other.player.goalkeeping.shot_stopping,
        units(4),
    );
    crate::scalar::zero_stays_zero(units(12));
    crate::scalar::zero_stays_zero(units(4));
    crate::scalar::one_changes_nothing(units(12));
    crate::scalar::one_changes_nothing(units(4));
}

/// A shot is no easier to save the faster, the wider and the higher it is, and for a goalkeeper of
/// less skill or strength.
#[verifier::rlimit(50)]
#[verifier::spinoff_prover]
pub proof fn hard_shots_are_hard(
    state: GoalkeeperCatchingState,
    ctx: &StateProcessingContext,
    other: &StateProcessingContext,
    easy: ShotTarget,
    hard: ShotTarget,
)
    requires
        units(0) < state.reach(ctx),
        state.reach(ctx) == state.reach(other),
        state.lateral_error(ctx, easy) <= state.lateral_error(other, hard),
        ctx.ball.velocity.magnitude() <= other.ball.velocity.magnitude(),
        easy.goal_line_z <= hard.goal_line_z,
        other.player.goalkeeping.shot_stopping <= ctx.player.goalkeeping.shot_stopping,
        other.player.goalkeeping.condition_mult <= ctx.player.goalkeeping.condition_mult,
    ensures
        state.shot_difficulty(ctx, easy) <= state.shot_difficulty(other, hard),
{
    crate::scalar::quotient_keeps_order(
        state.lateral_error(ctx, easy),
        state.lateral_error(other, hard),
        state.reach(ctx),
    );
    crate::scalar::quotient_keeps_order(
        ctx.ball.velocity.magnitude() - units(2),
        other.ball.velocity.magnitude() - units(2),
        units(6),
    );
    crate::scalar::quotient_keeps_order(easy.goal_line_z, hard.goal_line_z, bar_height());
    let p = (state.lateral_error(ctx, easy) / state.reach(ctx)).clamp(units(0), units(1));
    let q = (state.lateral_error(other, hard) / state.reach(other)).clamp(units(0), units(1));
    let a = ((ctx.ball.velocity.magnitude() - units(2)) / units(6)).clamp(units(0), units(1));
    let b = ((other.ball.velocity.magnitude() - units(2)) / units(6)).clamp(units(0), units(1));
    let h = (easy.goal_line_z / bar_height()).clamp(units(0), units(1));
    let i = (hard.goal_line_z / bar_height()).clamp(units(0), units(1));
    let r = (units(1) - ctx.player.goalkeeping.shot_stopping).clamp(units(0), units(1));
    let s = (units(1) - other.player.goalkeeping.shot_stopping).clamp(units(0), units(1));
    let c = units(1) - ctx.player.goalkeeping.condition_mult;
    let d = units(1) - other.player.goalkeeping.condition_mult;
    crate::scalar::scaling_keeps_order(a, b, milli(280));
    crate::scalar::scaling_keeps_order(p, q, milli(240));
    crate::scalar::scaling_keeps_order(p, q, milli(180));
    crate::scalar::scaling_keeps_order(h, i, milli(100));
    crate::scalar::scaling_keeps_order(r, s, milli(400));
    crate::scalar::scaling_keeps_order(r * milli(400), s * milli(400), milli(100));
    crate::scalar::scaling_keeps_order(c, d, milli(100));
    six_parts(
        a * milli(280),
        b * milli(280),
        p * milli(240),
        q * milli(240),
        p * milli(180),
        q * milli(180),
        h * milli(100),
        i * milli(100),
        r * milli(400) * milli(100),
        s * milli(400) * milli(100),
        c * milli(100),
        d * milli(100),
    );
}

/// A sum of six parts that are no less is no less.
proof fn six_parts(
    a: Scalar,
    b: Scalar,
    c: Scalar,
    d: Scalar,
    e: Scalar,
    f: Scalar,
    g: Scalar,
    h: Scalar,
    i: Scalar,
    j: Scalar,
    k: Scalar,
    l: Scalar,
)
    requires
        a <= b,
        c <= d,
        e <= f,
        g <= h,
        i <= j,
        k <= l,
    ensures
        a + c + e + g + i + k <= b + d + f + h + j + l,
{
}

/// A ball is no easier to catch the faster and the further away it is, at an awkward height, from
/// aside, and for a goalkeeper of less strength or skill.
#[verifier::rlimit(50)]
#[verifier::spinoff_prover]
pub proof fn hard_balls_are_hard(
    state: GoalkeeperCatchingState,
    ctx: &StateProcessingContext,
    other: &StateProcessingContext,
)
    requires
        units(0) < ctx.player.goalkeeping.effective_catch_distance,
        ctx.player.goalkeeping.effective_catch_distance
            == other.player.goalkeeping.effective_catch_distance,
        ctx.ball.distance <= other.ball.distance,
        ctx.ball.velocity.magnitude() <= other.ball.velocity.magnitude(),
        state.height_penalty(ctx.ball.position.z) <= state.height_penalty(other.ball.position.z),
        other.ball.heading >= milli(700) ==> ctx.ball.heading >= milli(700),
        other.player.goalkeeping.condition_mult <= ctx.player.goalkeeping.condition_mult,
        ctx.player.goalkeeping.poor_skill_penalty <= other.player.goalkeeping.poor_skill_penalty,
    ensures
        state.catch_difficulty(ctx) <= state.catch_difficulty(other),
{
    let reach = ctx.player.goalkeeping.effective_catch_distance;
    crate::scalar::quotient_keeps_order(ctx.ball.distance, other.ball.distance, reach);
    crate::scalar::quotient_keeps_order(
        ctx.ball.velocity.magnitude() - milli(1500),
        other.ball.velocity.magnitude() - milli(1500),
        units(6),
    );
    let s = (ctx.ball.distance / reach).clamp(units(0), units(1));
    let t = (other.ball.distance / reach).clamp(units(0), units(1));
    let a = ((ctx.ball.velocity.magnitude() - milli(1500)) / units(6)).clamp(units(0), units(1));
    let b = ((other.ball.velocity.magnitude() - milli(1500)) / units(6)).clamp(units(0), units(1));
    let h = state.height_penalty(ctx.ball.position.z);
    let i = state.height_penalty(other.ball.position.z);
    let d = if ctx.ball.is_towards_player_with_angle(milli(700)) {
        units(0)
    } else {
        milli(180)
    };
    let e = if other.ball.is_towards_player_with_angle(milli(700)) {
        units(0)
    } else {
        milli(180)
    };
    let c = units(1) - ctx.player.goalkeeping.condition_mult;
    let f = units(1) - other.player.goalkeeping.condition_mult;
    let m = ctx.player.goalkeeping.poor_skill_penalty;
    let n = other.player.goalkeeping.poor_skill_penalty;
    crate::scalar::scaling_keeps_order(a, b, milli(280));
    crate::scalar::scaling_keeps_order(s, t, milli(220));
    crate::scalar::scaling_keeps_order(h, i, milli(180));
    crate::scalar::scaling_keeps_order(d, e, milli(120));
    crate::scalar::scaling_keeps_order(c, f, milli(100));
    crate::scalar::scaling_keeps_order(m, n, milli(100));
    six_parts(
        a * milli(280),
        b * milli(280),
        s * milli(220),
        t * milli(220),
        h * milli(180),
        i * milli(180),
        d * milli(120),
        e * milli(120),
        c * milli(100),
        f * milli(100),
        m * milli(100),
        n * milli(100),
    );
}

/// The height of the chest is the best, the ground and above the bar are the worst.
pub proof fn heights_matter(state: GoalkeeperCatchingState, z: Scalar)
    ensures
        units(0) <= state.height_penalty(z),
        state.height_penalty(z) == units(0) <==> z.is_between(milli(500), milli(1800)),
        z < milli(200) ==> state.height_penalty(z) == milli(180),
        z > milli(2500) ==> state.height_penalty(z) == milli(220),
        z.is_between(milli(200), milli(2500)) ==> state.height_penalty(z) <= milli(60),
{
}

/// A deflected shot is saved half as often; the chance is spread over three steps, at a direct
/// free
/// kick over the whole flight.
pub proof fn chances_are_spread(state: GoalkeeperCatchingState, target: ShotTarget, p: Scalar)
    requires
        p.is_between(units(0), units(1)),
    ensures
        !target.deflected ==> state.spread(target, p).probability == p,
        target.deflected ==> 2 * state.spread(target, p).probability.raw <= p.raw
            <= 2 * state.spread(
            target,
            p,
        ).probability.raw + 1,
        !target.is_direct_free_kick ==> state.spread(target, p).ticks == units(3),
        target.is_direct_free_kick && target.total_flight_ticks >= units(1) ==> state.spread(
            target,
            p,
        ).ticks == target.total_flight_ticks,
        units(1) <= state.spread(target, p).ticks,
{
    crate::scalar::thousandths_of(p, 500);
}

/// The goalkeeper goes to where a shot crosses the line, only creeping at a direct free kick, and
/// else to the ball, the faster the better.
pub proof fn goes_to_the_ball(
    state: GoalkeeperCatchingState,
    ctx: &StateProcessingContext,
    other: &StateProcessingContext,
)
    requires
        units(0) <= ctx.player.goalkeeping.shot_stopping,
        units(0) <= ctx.player.goalkeeping.dive_reach,
        ctx.player.goalkeeping.shot_stopping <= other.player.goalkeeping.shot_stopping,
        ctx.player.goalkeeping.dive_reach <= other.player.goalkeeping.dive_reach,
        units(0) <= ctx.player.goalkeeping.explosive_mult,
        ctx.player.goalkeeping.explosive_mult == other.player.goalkeeping.explosive_mult,
    ensures
        state.speed_boost(ctx) <= state.speed_boost(other),
        ctx.ball.shot_target matches Some(t) ==> (state.velocity(ctx) matches Some(m) && m.steering == Some(
            Steering::Arrive {
                target: flat(ctx.ball.direction_to_own_goal.x, t.goal_line_y),
                slowing_distance: units(2),
            },
        ) && m.factor == (if t.is_direct_free_kick {
            milli(200)
        } else {
            state.speed_boost(ctx)
        })),
        ctx.ball.shot_target is None && ctx.ball.distance > units(3) ==> (state.velocity(ctx) matches Some(m)
            && m.steering == Some(
            Steering::Pursuit { target: ctx.ball.position, target_velocity: ctx.ball.velocity },
        ) && m.factor == state.speed_boost(ctx)),
        ctx.ball.shot_target is None && ctx.ball.distance <= units(3) ==> (state.velocity(ctx) matches Some(
            m,
        ) && (m.steering matches Some(Steering::Arrive { target, .. }) && target == ctx.ball.position)),
{
    crate::scalar::one_changes_nothing(milli(200));
    crate::scalar::one_changes_nothing(state.speed_boost(ctx));
    crate::scalar::scaling_keeps_order(
        ctx.player.goalkeeping.shot_stopping,
        other.player.goalkeeping.shot_stopping,
        milli(500),
    );
    crate::scalar::scaling_keeps_order(
        ctx.player.goalkeeping.dive_reach,
        other.player.goalkeeping.dive_reach,
        milli(500),
    );
    crate::scalar::scaling_keeps_order(
        milli(1600) + ctx.player.goalkeeping.shot_stopping * milli(500)
            + ctx.player.goalkeeping.dive_reach * milli(500),
        milli(1600) + other.player.goalkeeping.shot_stopping * milli(500)
            + other.player.goalkeeping.dive_reach * milli(500),
        ctx.player.goalkeeping.explosive_mult,
    );
}

} // verus!
