//! A goalkeeper who brings the ball back into play.
use crate::context::{headcount, MatchPlayerLite, PositionGroup, StateProcessingContext};
use crate::movement::is_ahead_of;
use crate::outcome::{
    exertion, pass_to, still, with_goalkeeper_state, ActivityIntensity, Exertion, GoalkeeperState,
    Movement, PlayerEvent, PlayerState, StateChangeResult,
};
use crate::scalar::{milli, units, Scalar};
use crate::scan;
use vstd::prelude::*;

verus! {

pub open spec fn spec_min_receive_distance() -> Scalar {
    units(30)
}

/// How far away a receiver has to be.
#[verifier::when_used_as_spec(spec_min_receive_distance)]
pub fn min_receive_distance() -> (r: Scalar)
    ensures
        r == spec_min_receive_distance(),
{
    units(30)
}

pub open spec fn spec_block_corridor() -> Scalar {
    units(8)
}

/// How near an opponent has to be to the line of a pass to block it.
#[verifier::when_used_as_spec(spec_block_corridor)]
pub fn block_corridor() -> (r: Scalar)
    ensures
        r == spec_block_corridor(),
{
    units(8)
}

/// A teammate to kick to, with what makes the kick risky.
#[derive(Clone, Copy, PartialEq, Eq, Structural, Debug)]
pub struct KickOption {
    pub teammate: MatchPlayerLite,
    /// How long the kick is for this goalkeeper, from 0 to 1.
    pub difficulty: Scalar,
    /// How pressed the receiver is, from 0 to 1.
    pub pressure: Scalar,
}

/// A teammate with the weight in the draw.
#[derive(Clone, Copy, PartialEq, Eq, Structural, Debug)]
pub struct WeightedOption {
    pub teammate: MatchPlayerLite,
    pub weight: Scalar,
}

/// The first option whose share of the weights, laid end to end, `roll` falls into.
pub open spec fn drawn(options: Seq<WeightedOption>, roll: Scalar) -> Option<WeightedOption>
    decreases options.len(),
{
    if options.len() == 0 {
        None
    } else if roll < options[0].weight {
        Some(options[0])
    } else {
        drawn(options.skip(1), roll - options[0].weight)
    }
}

/// The option that `roll` falls into.
fn draw(options: &Vec<WeightedOption>, roll: Scalar) -> (r: Option<WeightedOption>)
    ensures
        r == drawn(options@, roll),
{
    let mut left: Scalar = roll;
    let mut i: usize = 0;
    assert(options@.skip(0) =~= options@);
    while i < options.len()
        invariant
            i <= options.len(),
            drawn(options@, roll) == drawn(options@.skip(i as int), left),
        decreases options.len() - i,
    {
        let option = options[i];
        assert(options@.skip(i as int)[0] == option);
        assert(options@.skip(i as int).skip(1) =~= options@.skip(i + 1));
        if left < option.weight {
            return Some(option);
        }
        left = left - option.weight;
        i = i + 1;
    }
    None
}

/// What is drawn is one of the options.
proof fn drawn_is_an_option(options: Seq<WeightedOption>, roll: Scalar)
    ensures
        drawn(options, roll) matches Some(option) ==> options.contains(option),
    decreases options.len(),
{
    if options.len() > 0 {
        assert(options.contains(options[0]));
        drawn_is_an_option(options.skip(1), roll - options[0].weight);
        if let Some(option) = drawn(options.skip(1), roll - options[0].weight) {
            let i = choose|i: int| 0 <= i < options.skip(1).len() && options.skip(1)[i] == option;
            assert(options[i + 1] == option);
        }
    }
}

#[derive(Default, Clone, Copy)]
pub struct GoalkeeperDistributingState {}

impl GoalkeeperDistributingState {
    pub open spec fn spec_process(
        &self,
        ctx: &StateProcessingContext,
        risks: &Vec<Scalar>,
    ) -> Option<StateChangeResult> {
        if !ctx.player.has_ball {
            Some(with_goalkeeper_state(GoalkeeperState::Standing))
        } else {
            match self.find_best_pass_option(ctx, risks) {
                Some(teammate) => Some(
                    with_goalkeeper_state(GoalkeeperState::ReturningToGoal).with_event(
                        pass_to(ctx.player.id, teammate.id, "GK_DISTRIBUTING"),
                    ),
                ),
                None => if ctx.in_state_time > 20 {
                    Some(with_goalkeeper_state(GoalkeeperState::Clearing))
                } else {
                    None
                },
            }
        }
    }

    /// A kick to a teammate, or after a while a clearance. `risks` holds the risk of losing the
    /// ball for each of `kick_options`, in that order.
    #[verifier::when_used_as_spec(spec_process)]
    pub fn process(
        &self,
        ctx: &StateProcessingContext,
        risks: &Vec<Scalar>,
    ) -> (r: Option<StateChangeResult>)
        requires
            risks.len() == self.options(ctx).len(),
        ensures
            r == self.spec_process(ctx, risks),
    {
        if !ctx.player.has_ball {
            return Some(with_goalkeeper_state(GoalkeeperState::Standing));
        }
        match self.find_best_pass_option(ctx, risks) {
            Some(teammate) => {
                return Some(
                    with_goalkeeper_state(GoalkeeperState::ReturningToGoal).with_event(
                        pass_to(ctx.player.id, teammate.id, "GK_DISTRIBUTING"),
                    ),
                );
            },
            None => {},
        }
        if ctx.in_state_time > 20 {
            return Some(with_goalkeeper_state(GoalkeeperState::Clearing));
        }
        None
    }

    pub open spec fn spec_velocity(&self, ctx: &StateProcessingContext) -> Option<Movement> {
        Some(still())
    }

    /// The goalkeeper stands still.
    #[verifier::when_used_as_spec(spec_velocity)]
    pub fn velocity(&self, ctx: &StateProcessingContext) -> (r: Option<Movement>)
        ensures
            r == self.spec_velocity(ctx),
    {
        Some(still())
    }

    pub open spec fn spec_process_conditions(&self) -> Exertion {
        exertion(ActivityIntensity::Moderate)
    }

    /// The load of the state.
    #[verifier::when_used_as_spec(spec_process_conditions)]
    pub fn process_conditions(&self) -> (r: Exertion)
        ensures
            r == self.spec_process_conditions(),
    {
        exertion(ActivityIntensity::Moderate)
    }

    pub open spec fn spec_max_search(&self, ctx: &StateProcessingContext) -> Scalar {
        units(380) + ctx.player.goalkeeping.distribution * units(240)
    }

    /// How far the goalkeeper looks, by the skill at distribution.
    #[verifier::when_used_as_spec(spec_max_search)]
    pub fn max_search(&self, ctx: &StateProcessingContext) -> (r: Scalar)
        ensures
            r == self.spec_max_search(ctx),
    {
        units(380) + ctx.player.goalkeeping.distribution * units(240)
    }

    pub open spec fn spec_is_kick_target(
        &self,
        ctx: &StateProcessingContext,
        t: MatchPlayerLite,
    ) -> bool {
        t.distance <= self.max_search(ctx) && !t.tactical_positions.is_goalkeeper()
        && (t.position - ctx.player.position).magnitude() >= min_receive_distance()
        && self.is_further_up(ctx, t) && !self.is_lane_blocked(ctx, t)
    }

    /// An outfield teammate in range, further up, with a free lane.
    #[verifier::when_used_as_spec(spec_is_kick_target)]
    pub fn is_kick_target(&self, ctx: &StateProcessingContext, t: MatchPlayerLite) -> (r: bool)
        ensures
            r == self.spec_is_kick_target(ctx, t),
    {
        t.distance <= self.max_search(ctx) && !t.tactical_positions.is_goalkeeper()
        && (t.position - ctx.player.position).magnitude() >= min_receive_distance()
        && self.is_further_up(ctx, t) && !self.is_lane_blocked(ctx, t)
    }

    pub open spec fn spec_is_further_up(
        &self,
        ctx: &StateProcessingContext,
        t: MatchPlayerLite,
    ) -> bool {
        ctx.player.side.is_none() || is_ahead_of(ctx, t.position, ctx.player.position)
    }

    /// Further from the own goal than the goalkeeper; anyone where the side is not known.
    #[verifier::when_used_as_spec(spec_is_further_up)]
    pub fn is_further_up(&self, ctx: &StateProcessingContext, t: MatchPlayerLite) -> (r: bool)
        ensures
            r == self.spec_is_further_up(ctx, t),
    {
        ctx.player.side.is_none() || is_ahead_of(ctx, t.position, ctx.player.position)
    }

    pub open spec fn spec_is_lane_blocked(
        &self,
        ctx: &StateProcessingContext,
        t: MatchPlayerLite,
    ) -> bool {
        scan::some_where(ctx.opponents@, |o: MatchPlayerLite| self.blocks(ctx, o, t))
    }

    /// An opponent stands in the lane, not right in front of the goalkeeper.
    #[verifier::when_used_as_spec(spec_is_lane_blocked)]
    pub fn is_lane_blocked(&self, ctx: &StateProcessingContext, t: MatchPlayerLite) -> (r: bool)
        ensures
            r == self.spec_is_lane_blocked(ctx, t),
    {
        scan::any_of(
            &ctx.opponents,
            |o: MatchPlayerLite| -> (b: bool)
                ensures b == (self.blocks(ctx, o, t))
            {
                self.blocks(ctx, o, t)
            },
            Ghost(|o: MatchPlayerLite| self.blocks(ctx, o, t)),
        )
    }

    pub open spec fn spec_blocks(
        &self,
        ctx: &StateProcessingContext,
        o: MatchPlayerLite,
        t: MatchPlayerLite,
    ) -> bool {
        let way = t.position - ctx.player.position;
        match way.direction() {
            Some(direction) => {
                let along = (o.position - ctx.player.position).dot(direction);
                along >= units(10) && along <= way.magnitude()
                && (
                    o.position - (ctx.player.position + direction * along)
                ).magnitude() < block_corridor()
            },
            None => false,
        }
    }

    #[verifier::when_used_as_spec(spec_blocks)]
    pub fn blocks(
        &self,
        ctx: &StateProcessingContext,
        o: MatchPlayerLite,
        t: MatchPlayerLite,
    ) -> (r: bool)
        ensures
            r == self.spec_blocks(ctx, o, t),
    {
        let way = t.position - ctx.player.position;
        match way.direction() {
            Some(direction) => {
                let along = (o.position - ctx.player.position).dot(direction);
                along >= units(10) && along <= way.magnitude()
                && (
                    o.position - (ctx.player.position + direction * along)
                ).magnitude() < block_corridor()
            },
            None => false,
        }
    }

    pub open spec fn spec_as_option(
        &self,
        ctx: &StateProcessingContext,
        t: MatchPlayerLite,
    ) -> KickOption {
        KickOption {
            teammate: t,
            difficulty: (
                (t.position - ctx.player.position).magnitude() / self.max_search(ctx)
            ).clamp(units(0), units(1)),
            pressure: (
                headcount(ctx.opponents_around(t.position, units(15))) / units(4)
            ).clamp(units(0), units(1)),
        }
    }

    /// A teammate to kick to, with what makes the kick risky.
    #[verifier::when_used_as_spec(spec_as_option)]
    pub fn as_option(&self, ctx: &StateProcessingContext, t: MatchPlayerLite) -> (r: KickOption)
        ensures
            r == self.spec_as_option(ctx, t),
    {
        KickOption {
            teammate: t,
            difficulty: (
                (t.position - ctx.player.position).magnitude() / self.max_search(ctx)
            ).clamp(units(0), units(1)),
            pressure: (
                headcount(ctx.opponents_around(t.position, units(15))) / units(4)
            ).clamp(units(0), units(1)),
        }
    }

    /// The teammates to kick to.
    pub open spec fn options(&self, ctx: &StateProcessingContext) -> Seq<KickOption> {
        ctx.teammates@.filter(|t: MatchPlayerLite| self.is_kick_target(ctx, t)).map_values(
            |t: MatchPlayerLite| self.as_option(ctx, t),
        )
    }

    /// The teammates to kick to, with what makes each kick risky.
    pub fn kick_options(&self, ctx: &StateProcessingContext) -> (r: Vec<KickOption>)
        ensures
            r@ == self.options(ctx),
    {
        let targets = scan::select(
            &ctx.teammates,
            |t: MatchPlayerLite| -> (b: bool)
                ensures b == (self.is_kick_target(ctx, t))
            {
                self.is_kick_target(ctx, t)
            },
            Ghost(|t: MatchPlayerLite| self.is_kick_target(ctx, t)),
        );
        let mut found: Vec<KickOption> = Vec::new();
        let mut i: usize = 0;
        while i < targets.len()
            invariant
                i <= targets.len(),
                found.len() == i,
                forall|k: int| 0 <= k < i ==> #[trigger] found@[k]
                    == self.as_option(ctx, targets@[k]),
            decreases targets.len() - i,
        {
            found.push(self.as_option(ctx, targets[i]));
            i = i + 1;
        }
        assert(found@ =~= self.options(ctx));
        found
    }

    pub open spec fn spec_kick_weight(
        &self,
        ctx: &StateProcessingContext,
        option: KickOption,
        risk: Scalar,
    ) -> Scalar {
        self.halfway_score(ctx, option.teammate) * self.space_bonus(ctx, option.teammate)
        * self.position_bonus(option.teammate) * option.teammate.recency_penalty
        * (units(1) - risk * milli(600)).max(milli(200))
    }

    /// The weight of a teammate in the draw: near the halfway line, free, a midfielder rather
    /// than a defender, no recent passer, at low risk.
    #[verifier::when_used_as_spec(spec_kick_weight)]
    pub fn kick_weight(
        &self,
        ctx: &StateProcessingContext,
        option: KickOption,
        risk: Scalar,
    ) -> (r: Scalar)
        ensures
            r == self.spec_kick_weight(ctx, option, risk),
    {
        self.halfway_score(ctx, option.teammate) * self.space_bonus(ctx, option.teammate)
        * self.position_bonus(option.teammate) * option.teammate.recency_penalty
        * (units(1) - risk * milli(600)).max(milli(200))
    }

    pub open spec fn spec_halfway_score(
        &self,
        ctx: &StateProcessingContext,
        t: MatchPlayerLite,
    ) -> Scalar {
        let halfway = ctx.width() * milli(500);
        if halfway == units(0) {
            milli(500)
        } else {
            (units(3) - ((t.position.x - halfway).abs() / halfway) * milli(2500)).max(milli(500))
        }
    }

    /// Greatest at the halfway line; least on a pitch without length.
    #[verifier::when_used_as_spec(spec_halfway_score)]
    pub fn halfway_score(&self, ctx: &StateProcessingContext, t: MatchPlayerLite) -> (r: Scalar)
        ensures
            r == self.spec_halfway_score(ctx, t),
    {
        let halfway = ctx.width() * milli(500);
        if halfway == units(0) {
            return milli(500);
        }
        (units(3) - ((t.position.x - halfway).abs() / halfway) * milli(2500)).max(milli(500))
    }

    pub open spec fn spec_space_bonus(
        &self,
        ctx: &StateProcessingContext,
        t: MatchPlayerLite,
    ) -> Scalar {
        let opponents: usize = ctx.opponents_around(t.position, units(15));
        if opponents == 0 {
            units(2)
        } else if opponents == 1 {
            milli(1200)
        } else {
            milli(500)
        }
    }

    /// For room around the receiver.
    #[verifier::when_used_as_spec(spec_space_bonus)]
    pub fn space_bonus(&self, ctx: &StateProcessingContext, t: MatchPlayerLite) -> (r: Scalar)
        ensures
            r == self.spec_space_bonus(ctx, t),
    {
        let opponents: usize = ctx.opponents_around(t.position, units(15));
        if opponents == 0 {
            units(2)
        } else if opponents == 1 {
            milli(1200)
        } else {
            milli(500)
        }
    }

    pub open spec fn spec_position_bonus(&self, t: MatchPlayerLite) -> Scalar {
        match t.tactical_positions.group {
            PositionGroup::Midfielder => milli(1600),
            PositionGroup::Forward => milli(1200),
            PositionGroup::Defender => milli(400),
            PositionGroup::Goalkeeper => units(0),
        }
    }

    /// For midfielders and forwards, against defenders.
    #[verifier::when_used_as_spec(spec_position_bonus)]
    pub fn position_bonus(&self, t: MatchPlayerLite) -> (r: Scalar)
        ensures
            r == self.spec_position_bonus(t),
    {
        match t.tactical_positions.group {
            PositionGroup::Midfielder => milli(1600),
            PositionGroup::Forward => milli(1200),
            PositionGroup::Defender => milli(400),
            PositionGroup::Goalkeeper => units(0),
        }
    }

    pub open spec fn spec_weighted(
        &self,
        ctx: &StateProcessingContext,
        option: KickOption,
        risk: Scalar,
    ) -> WeightedOption {
        WeightedOption { teammate: option.teammate, weight: self.kick_weight(ctx, option, risk) }
    }

    /// A teammate with the weight in the draw.
    #[verifier::when_used_as_spec(spec_weighted)]
    pub fn weighted(
        &self,
        ctx: &StateProcessingContext,
        option: KickOption,
        risk: Scalar,
    ) -> (r: WeightedOption)
        ensures
            r == self.spec_weighted(ctx, option, risk),
    {
        WeightedOption { teammate: option.teammate, weight: self.kick_weight(ctx, option, risk) }
    }

    /// The teammates in the draw: those with a weight above zero.
    pub open spec fn in_the_draw(
        &self,
        ctx: &StateProcessingContext,
        risks: Seq<Scalar>,
    ) -> Seq<WeightedOption> {
        Seq::new(
            self.options(ctx).len(),
            |k: int| self.weighted(ctx, self.options(ctx)[k], risks[k]),
        ).filter(|w: WeightedOption| w.weight > units(0))
    }

    pub open spec fn spec_find_best_pass_option(
        &self,
        ctx: &StateProcessingContext,
        risks: &Vec<Scalar>,
    ) -> Option<MatchPlayerLite> {
        let draw = self.in_the_draw(ctx, risks@);
        match drawn(
            draw,
            ctx.rolls.distribution * scan::total(draw, |w: WeightedOption| w.weight),
        ) {
            Some(option) => Some(option.teammate),
            None => match scan::greatest_where(
                draw,
                |w: WeightedOption| true,
                |w: WeightedOption| w.weight,
            ) {
                Some(option) => Some(option.teammate),
                None => None,
            },
        }
    }

    /// A teammate drawn by weight, the heaviest where the draw hits nobody.
    #[verifier::when_used_as_spec(spec_find_best_pass_option)]
    pub fn find_best_pass_option(
        &self,
        ctx: &StateProcessingContext,
        risks: &Vec<Scalar>,
    ) -> (r: Option<MatchPlayerLite>)
        requires
            risks.len() == self.options(ctx).len(),
        ensures
            r == self.spec_find_best_pass_option(ctx, risks),
    {
        let options = self.kick_options(ctx);
        let mut all: Vec<WeightedOption> = Vec::new();
        let mut i: usize = 0;
        while i < options.len()
            invariant
                i <= options.len(),
                risks.len() == options.len(),
                all.len() == i,
                forall|k: int|
                    0 <= k < i ==> #[trigger] all@[k] == self.weighted(
                        ctx,
                        options@[k],
                        risks@[k],
                    ),
            decreases options.len() - i,
        {
            all.push(self.weighted(ctx, options[i], risks[i]));
            i = i + 1;
        }
        assert(all@ =~= Seq::new(
            self.options(ctx).len(),
            |k: int| self.weighted(ctx, self.options(ctx)[k], risks@[k]),
        ));
        let candidates = scan::select(
            &all,
            |w: WeightedOption| -> (b: bool)
                ensures b == (w.weight > units(0))
            {
                w.weight > units(0)
            },
            Ghost(|w: WeightedOption| w.weight > units(0)),
        );
        let total = scan::total_of(
            &candidates,
            |w: WeightedOption| -> (b: Scalar)
                ensures b == (w.weight)
            {
                w.weight
            },
            Ghost(|w: WeightedOption| w.weight),
        );
        match draw(&candidates, ctx.rolls.distribution * total) {
            Some(option) => Some(option.teammate),
            None => match scan::greatest_of(
                &candidates,
                |w: WeightedOption| -> (b: bool)
                    ensures b == (true)
                {
                    true
                },
                |w: WeightedOption| -> (b: Scalar)
                    ensures b == (w.weight)
                {
                    w.weight
                },
                Ghost(|w: WeightedOption| true),
                Ghost(|w: WeightedOption| w.weight),
            ) {
                Some(option) => Some(option.teammate),
                None => None,
            },
        }
    }

    pub open spec fn spec_calculate_pass_power(
        &self,
        teammate_id: u32,
        ctx: &StateProcessingContext,
    ) -> Option<Scalar> {
        match ctx.by_id(teammate_id) {
            Some(p) => if ctx.player.skills.technical.passing == units(0) {
                None
            } else {
                Some(p.distance / ctx.player.skills.technical.passing * units(10))
            },
            None => None,
        }
    }

    /// The power of a pass to a player: by the distance and the skill at passing; none where
    /// nobody has that number, or where there is no skill to divide by.
    #[verifier::when_used_as_spec(spec_calculate_pass_power)]
    pub fn calculate_pass_power(
        &self,
        teammate_id: u32,
        ctx: &StateProcessingContext,
    ) -> (r: Option<Scalar>)
        ensures
            r == self.spec_calculate_pass_power(teammate_id, ctx),
    {
        match ctx.by_id(teammate_id) {
            Some(p) => if ctx.player.skills.technical.passing == units(0) {
                None
            } else {
                Some(p.distance / ctx.player.skills.technical.passing * units(10))
            },
            None => None,
        }
    }
}

/// The goalkeeper finds somebody exactly where somebody is in the draw, and never kicks to a
/// player who is not: one behind, too near, too far or with a blocked lane.
pub proof fn kick_goes_to_a_target(
    state: GoalkeeperDistributingState,
    ctx: &StateProcessingContext,
    risks: &Vec<Scalar>,
)
    requires
        risks.len() == state.options(ctx).len(),
    ensures
        state.find_best_pass_option(ctx, risks) is Some <==> state.in_the_draw(ctx, risks@).len()
            > 0,
        state.find_best_pass_option(ctx, risks) matches Some(t) ==> {
            &&& ctx.teammates@.contains(t)
            &&& state.is_kick_target(ctx, t)
            &&& ctx.well_formed() ==> t.id != ctx.player.id && t.team_id == ctx.player.team_id
        },
{
    let all = Seq::new(
        state.options(ctx).len(),
        |k: int| state.weighted(ctx, state.options(ctx)[k], risks@[k]),
    );
    let heavy = |w: WeightedOption| w.weight > units(0);
    let anyone = |w: WeightedOption| true;
    let weight = |w: WeightedOption| w.weight;
    let target = |t: MatchPlayerLite| state.is_kick_target(ctx, t);
    let draw = state.in_the_draw(ctx, risks@);
    drawn_is_an_option(draw, ctx.rolls.distribution * scan::total(draw, weight));
    scan::greatest_is_greatest(draw, anyone, weight);
    if draw.len() > 0 {
        assert(draw.contains(draw[0]));
    }
    if let Some(t) = state.find_best_pass_option(ctx, risks) {
        let i = choose|i: int| 0 <= i < draw.len() && draw[i].teammate == t;
        scan::filter_comes_from(all, heavy, i);
        let j = choose|j: int| 0 <= j < all.len() && all[j] == draw[i];
        assert(state.options(ctx)[j].teammate == ctx.teammates@.filter(target)[j]);
        scan::filter_comes_from(ctx.teammates@, target, j);
    }
}

/// The weight of a receiver is made of factors from zero on.
proof fn weights_are_not_negative(
    state: GoalkeeperDistributingState,
    ctx: &StateProcessingContext,
    option: KickOption,
    risk: Scalar,
)
    requires
        units(0) <= option.teammate.recency_penalty,
    ensures
        ({
            let t = option.teammate;
            let h = state.halfway_score(ctx, t);
            let p = state.position_bonus(t);
            let w = (units(1) - risk * milli(600)).max(milli(200));
            &&& h.is_between(milli(500), units(3))
            &&& p.is_between(units(0), milli(1600))
            &&& units(0) <= h * state.space_bonus(ctx, t)
            &&& units(0) <= h * state.space_bonus(ctx, t) * p
            &&& units(0) <= h * state.space_bonus(ctx, t) * p * t.recency_penalty
            &&& units(0) <= state.kick_weight(ctx, option, risk)
            &&& milli(200) <= w
        }),
{
    let t = option.teammate;
    halfway_is_best(state, ctx, t, t);
    let h = state.halfway_score(ctx, t);
    let s = state.space_bonus(ctx, t);
    let p = state.position_bonus(t);
    crate::scalar::product_keeps_sign(h, s);
    crate::scalar::product_keeps_sign(h * s, p);
    crate::scalar::product_keeps_sign(h * s * p, t.recency_penalty);
    crate::scalar::product_keeps_sign(
        h * s * p * t.recency_penalty,
        (units(1) - risk * milli(600)).max(milli(200)),
    );
}

/// The nearer a receiver to the halfway line, the greater the score of the place, from three at
/// the
/// line down to one half.
pub proof fn halfway_is_best(
    state: GoalkeeperDistributingState,
    ctx: &StateProcessingContext,
    near: MatchPlayerLite,
    far: MatchPlayerLite,
)
    requires
        (near.position.x - ctx.width() * milli(500)).abs() <= (far.position.x - ctx.width() * milli(
            500,
        )).abs(),
    ensures
        state.halfway_score(ctx, far) <= state.halfway_score(ctx, near),
        milli(500) <= state.halfway_score(ctx, far),
        state.halfway_score(ctx, near) <= units(3),
        ctx.field_size.width > 0
            && near.position.x == ctx.width() * milli(500) ==> state.halfway_score(
            ctx,
            near,
        ) == units(3),
{
    let halfway = ctx.width() * milli(500);
    crate::scalar::thousandths_of(ctx.width(), 500);
    if ctx.field_size.width > 0 {
        let a = (near.position.x - halfway).abs();
        let b = (far.position.x - halfway).abs();
        crate::scalar::quotient_keeps_order(a, b, halfway);
        crate::scalar::quotient_keeps_order(units(0), a, halfway);
        let z: int = halfway.raw as int;
        assert(0int / z == 0) by (nonlinear_arith)
            requires
                z > 0,
        ;
        crate::scalar::scaling_keeps_order(a / halfway, b / halfway, milli(2500));
        crate::scalar::scaling_keeps_order(units(0), a / halfway, milli(2500));
    }
}

/// Of two receivers alike in place, role, recency and risk, the one with fewer opponents around
/// has
/// no smaller weight in the draw, and a free one has a greater weight than one with two on them.
pub proof fn free_receivers_weigh_more(
    state: GoalkeeperDistributingState,
    ctx: &StateProcessingContext,
    free: KickOption,
    crowded: KickOption,
    risk: Scalar,
)
    requires
        free.teammate.position.x == crowded.teammate.position.x,
        free.teammate.tactical_positions == crowded.teammate.tactical_positions,
        free.teammate.recency_penalty == crowded.teammate.recency_penalty,
        units(0) <= free.teammate.recency_penalty,
        ctx.opponents_around(free.teammate.position, units(15)) <= ctx.opponents_around(
            crowded.teammate.position,
            units(15),
        ),
    ensures
        state.kick_weight(ctx, crowded, risk) <= state.kick_weight(ctx, free, risk),
        (ctx.opponents_around(free.teammate.position, units(15)) == 0 && ctx.opponents_around(
            crowded.teammate.position,
            units(15),
        ) >= 2 && free.teammate.tactical_positions.group != PositionGroup::Goalkeeper
            && free.teammate.recency_penalty.is_between(milli(100), units(1)) && risk.is_between(
            units(0),
            units(1),
        )) ==> state.kick_weight(ctx, crowded, risk) < state.kick_weight(ctx, free, risk),
{
    let t = free.teammate;
    let m = crowded.teammate;
    let h = state.halfway_score(ctx, t);
    let p = state.position_bonus(t);
    let r = t.recency_penalty;
    let w = (units(1) - risk * milli(600)).max(milli(200));
    halfway_is_best(state, ctx, t, m);
    let s = state.space_bonus(ctx, t);
    let u = state.space_bonus(ctx, m);
    assert(u <= s);
    crate::scalar::product_keeps_order(h, u, s);
    crate::scalar::product_keeps_sign(h, u);
    crate::scalar::scaling_keeps_order(h * u, h * s, p);
    crate::scalar::product_keeps_sign(h * u, p);
    crate::scalar::scaling_keeps_order(h * u * p, h * s * p, r);
    crate::scalar::product_keeps_sign(h * u * p, r);
    crate::scalar::scaling_keeps_order(h * u * p * r, h * s * p * r, w);
    if ctx.opponents_around(t.position, units(15)) == 0
        && ctx.opponents_around(m.position, units(15)) >= 2
        && t.tactical_positions.group != PositionGroup::Goalkeeper
        && r.is_between(milli(100), units(1))
        && risk.is_between(units(0), units(1)) {
        crate::scalar::scaling_keeps_order(units(0), risk, milli(600));
        crate::scalar::multiple_is_exact(h, 2);
        crate::scalar::thousandths_of(h, 500);
        stays_apart(h * u, h * s, p, 700_000, 400_000);
        crate::scalar::product_keeps_order(h * s, p, units(2));
        crate::scalar::product_keeps_order(units(6), p, units(2));
        crate::scalar::scaling_keeps_order(h * s, units(6), p);
        crate::scalar::product_keeps_order(units(6), p, milli(1600));
        crate::scalar::thousandths_of(units(6), 1600);
        stays_apart(h * u * p, h * s * p, r, 279_000, 100_000);
        crate::scalar::product_keeps_order(h * s * p, r, units(1));
        crate::scalar::one_changes_nothing(h * s * p);
        stays_apart(h * u * p * r, h * s * p * r, w, 27_000, 200_000);
    }
}

/// Two products with the same factor stay apart.
proof fn stays_apart(less: Scalar, more: Scalar, factor: Scalar, gap: int, part: int)
    requires
        units(0) <= less,
        less <= more,
        more <= units(1000),
        units(0) <= factor,
        factor <= units(1000),
        0 <= gap <= more.raw - less.raw,
        0 <= part <= factor.raw,
    ensures
        (more * factor).raw - (less * factor).raw >= gap * part / 1_000_000 - 1,
{
    crate::scalar::products_stay_apart(less, more, factor);
    let d: int = more.raw - less.raw;
    let f: int = factor.raw as int;
    assert(gap * part <= d * f) by (nonlinear_arith)
        requires
            0 <= gap <= d,
            0 <= part <= f,
    ;
}

/// A receiver at a lower risk, and one whose own pass is longer ago, has no smaller weight; so has
/// one nearer to the halfway line with as much room, and a midfielder more than a forward, who has
/// more than a defender; a goalkeeper has none.
pub proof fn weights_follow_the_merits(
    state: GoalkeeperDistributingState,
    ctx: &StateProcessingContext,
    t: KickOption,
    m: KickOption,
    risk: Scalar,
    lower: Scalar,
)
    requires
        lower <= risk,
        units(0) <= m.teammate.recency_penalty,
        m.teammate.recency_penalty <= t.teammate.recency_penalty,
        (t.teammate.position.x - ctx.width() * milli(500)).abs() <= (m.teammate.position.x - ctx.width()
            * milli(500)).abs(),
        ctx.opponents_around(t.teammate.position, units(15)) == ctx.opponents_around(
            m.teammate.position,
            units(15),
        ),
        t.teammate.tactical_positions.group == m.teammate.tactical_positions.group
            || t.teammate.tactical_positions.group == PositionGroup::Midfielder || (
        t.teammate.tactical_positions.group == PositionGroup::Forward
            && m.teammate.tactical_positions.group != PositionGroup::Midfielder)
            || m.teammate.tactical_positions.group == PositionGroup::Goalkeeper,
    ensures
        state.kick_weight(ctx, m, risk) <= state.kick_weight(ctx, t, lower),
        m.teammate.tactical_positions.group == PositionGroup::Goalkeeper ==> state.kick_weight(
            ctx,
            m,
            risk,
        ) == units(0),
        state.position_bonus(m.teammate) <= state.position_bonus(t.teammate),
        (t.teammate.tactical_positions.group == PositionGroup::Midfielder
            && m.teammate.tactical_positions.group == PositionGroup::Defender) ==> state.position_bonus(
            m.teammate,
        ) * units(4) == state.position_bonus(t.teammate),
{
    let h = state.halfway_score(ctx, m.teammate);
    let g = state.halfway_score(ctx, t.teammate);
    let s = state.space_bonus(ctx, t.teammate);
    let p = state.position_bonus(m.teammate);
    let q = state.position_bonus(t.teammate);
    let r = m.teammate.recency_penalty;
    let u = t.teammate.recency_penalty;
    let w = (units(1) - risk * milli(600)).max(milli(200));
    let v = (units(1) - lower * milli(600)).max(milli(200));
    halfway_is_best(state, ctx, t.teammate, m.teammate);
    weights_are_not_negative(state, ctx, m, risk);
    weights_are_not_negative(state, ctx, t, lower);
    crate::scalar::scaling_keeps_order(lower, risk, milli(600));
    crate::scalar::scaling_keeps_order(h, g, s);
    crate::scalar::scaling_keeps_order(h * s, g * s, p);
    crate::scalar::product_keeps_order(g * s, p, q);
    crate::scalar::scaling_keeps_order(h * s * p, g * s * q, r);
    crate::scalar::product_keeps_order(g * s * q, r, u);
    crate::scalar::scaling_keeps_order(h * s * p * r, g * s * q * u, w);
    crate::scalar::product_keeps_order(g * s * q * u, w, v);
    crate::scalar::multiple_is_exact(milli(400), 4);
    if m.teammate.tactical_positions.group == PositionGroup::Goalkeeper {
        crate::scalar::zero_stays_zero(h * s);
        crate::scalar::zero_stays_zero(r);
        crate::scalar::zero_stays_zero(w);
    }
}

/// The weights of the options before the given one, laid end to end.
pub open spec fn weight_before(options: Seq<WeightedOption>, k: int) -> int
    decreases k,
{
    if k <= 0 {
        0
    } else {
        weight_before(options, k - 1) + options[k - 1].weight.raw
    }
}

/// The weight before an option of the rest is that before it of all, less the first.
proof fn weight_before_rest(options: Seq<WeightedOption>, k: int)
    requires
        0 <= k < options.len(),
    ensures
        weight_before(options.skip(1), k) + options[0].weight.raw == weight_before(options, k + 1),
    decreases k,
{
    if k > 0 {
        weight_before_rest(options, k - 1);
    } else {
        assert(weight_before(options, 1) == weight_before(options, 0) + options[0].weight.raw);
    }
}

/// An option is drawn exactly where the draw falls into its share of the weights, laid end to end.
pub proof fn draws_fall_into_shares(options: Seq<WeightedOption>, roll: Scalar, k: int)
    requires
        0 <= k < options.len(),
        forall|i: int| 0 <= i < options.len() ==> units(0) <= #[trigger] options[i].weight,
        weight_before(options, k) <= roll.raw < weight_before(options, k + 1),
    ensures
        drawn(options, roll) == Some(options[k]),
    decreases options.len(),
{
    if k == 0 {
        assert(weight_before(options, 1) == weight_before(options, 0) + options[0].weight.raw);
    } else {
        first_share_is_small(options, k);
        weight_before_rest(options, k - 1);
        weight_before_rest(options, k);
        let rest = options.skip(1);
        assert(forall|i: int| 0 <= i < rest.len() ==> #[trigger] rest[i] == options[i + 1]);
        draws_fall_into_shares(rest, roll - options[0].weight, k - 1);
    }
}

/// The first share lies before every later option.
proof fn first_share_is_small(options: Seq<WeightedOption>, k: int)
    requires
        1 <= k < options.len(),
        forall|i: int| 0 <= i < options.len() ==> units(0) <= #[trigger] options[i].weight,
    ensures
        options[0].weight.raw <= weight_before(options, k),
    decreases k,
{
    if k > 1 {
        first_share_is_small(options, k - 1);
        assert(units(0) <= options[k - 1].weight);
    } else {
        assert(weight_before(options, 1) == weight_before(options, 0) + options[0].weight.raw);
    }
}

/// A kick goes to an outfield teammate in range, not too near, further up, with nobody in the
/// lane;
/// the better the distribution, the further the goalkeeper looks.
pub proof fn targets_are_in_the_open(
    state: GoalkeeperDistributingState,
    ctx: &StateProcessingContext,
    other: &StateProcessingContext,
    t: MatchPlayerLite,
)
    requires
        ctx.player.goalkeeping.distribution <= other.player.goalkeeping.distribution,
    ensures
        state.max_search(ctx) <= state.max_search(other),
        ctx.player.goalkeeping.distribution == units(0) ==> state.max_search(ctx) == units(380),
        ctx.player.goalkeeping.distribution == units(1) ==> state.max_search(ctx) == units(620),
        state.is_kick_target(ctx, t) <==> {
            &&& t.distance <= state.max_search(ctx)
            &&& t.tactical_positions.group != PositionGroup::Goalkeeper
            &&& (t.position - ctx.player.position).magnitude() >= units(30)
            &&& ctx.player.side is None || is_ahead_of(ctx, t.position, ctx.player.position)
            &&& forall|o: MatchPlayerLite| #[trigger]
                ctx.opponents@.contains(o) ==> !state.blocks(ctx, o, t)
        },
{
    crate::scalar::scaling_keeps_order(
        ctx.player.goalkeeping.distribution,
        other.player.goalkeeping.distribution,
        units(240),
    );
    crate::scalar::one_changes_nothing(units(240));
    crate::scalar::zero_stays_zero(units(240));
    scan::some_is_one_of_them(ctx.opponents@, |o: MatchPlayerLite| state.blocks(ctx, o, t));
}

/// An opponent blocks a kick only from between 10 away along the lane and the receiver, within 8
/// of
/// it, and always from the spot of such a place on the lane itself.
pub proof fn lanes_are_narrow(
    state: GoalkeeperDistributingState,
    ctx: &StateProcessingContext,
    o: MatchPlayerLite,
    t: MatchPlayerLite,
)
    requires
        !(t.position - ctx.player.position).is_zero(),
    ensures
        ({
            let way = t.position - ctx.player.position;
            let along = (o.position - ctx.player.position).dot(way.normalize());
            let foot = ctx.player.position + way.normalize() * along;
            &&& state.blocks(ctx, o, t) ==> along.is_between(units(10), way.magnitude())
                && o.position.distance_to(foot) < units(8)
            &&& along.is_between(units(10), way.magnitude())
                && o.position == foot ==> state.blocks(
                ctx,
                o,
                t,
            )
        }),
{
    let way = t.position - ctx.player.position;
    let along = (o.position - ctx.player.position).dot(way.normalize());
    let foot = ctx.player.position + way.normalize() * along;
    if o.position == foot {
        crate::vector::zero_has_no_length(o.position - foot);
    }
}

/// Without the ball the goalkeeper stands; with it, whoever is found gets the kick, and where
/// nobody is found for a while the ball is cleared.
pub proof fn balls_are_kicked(
    state: GoalkeeperDistributingState,
    ctx: &StateProcessingContext,
    risks: &Vec<Scalar>,
)
    requires
        risks.len() == state.options(ctx).len(),
    ensures
        !ctx.player.has_ball ==> state.process(ctx, risks) == Some(
            with_goalkeeper_state(GoalkeeperState::Standing),
        ),
        ctx.player.has_ball ==> match state.find_best_pass_option(ctx, risks) {
            Some(t) => state.process(ctx, risks) matches Some(r)
                && r.state == PlayerState::Goalkeeper(
                GoalkeeperState::ReturningToGoal,
            ) && r.event == Some(
                PlayerEvent::PassTo {
                    from: ctx.player.id,
                    to: t.id,
                    target: None,
                    reason: "GK_DISTRIBUTING",
                },
            ),
            None => if ctx.in_state_time > 20 {
                state.process(ctx, risks) == Some(with_goalkeeper_state(GoalkeeperState::Clearing))
            } else {
                state.process(ctx, risks) is None
            },
        },
{
}

/// With two receivers in the draw, a draw that falls below the share of the first goes to the
/// first, and one above it to the second.
pub proof fn two_receivers_share_the_draw(
    state: GoalkeeperDistributingState,
    ctx: &StateProcessingContext,
    risks: &Vec<Scalar>,
)
    requires
        risks.len() == state.options(ctx).len(),
        state.in_the_draw(ctx, risks@).len() == 2,
        state.in_the_draw(ctx, risks@)[0].weight <= units(1_000_000),
        state.in_the_draw(ctx, risks@)[1].weight <= units(1_000_000),
        ctx.rolls.distribution.is_between(units(0), units(1)),
    ensures
        ({
            let draw = state.in_the_draw(ctx, risks@);
            let roll = ctx.rolls.distribution * (draw[0].weight + draw[1].weight);
            &&& roll < draw[0].weight ==> state.find_best_pass_option(ctx, risks)
                == Some(draw[0].teammate)
            &&& roll >= draw[0].weight && roll < draw[0].weight + draw[1].weight
                ==> state.find_best_pass_option(ctx, risks) == Some(draw[1].teammate)
        }),
{
    let draw = state.in_the_draw(ctx, risks@);
    let weight = |w: WeightedOption| w.weight;
    let all = Seq::new(
        state.options(ctx).len(),
        |k: int| state.weighted(ctx, state.options(ctx)[k], risks@[k]),
    );
    let heavy = |w: WeightedOption| w.weight > units(0);
    scan::filter_comes_from(all, heavy, 0);
    scan::filter_comes_from(all, heavy, 1);
    assert(heavy(draw[0]) && heavy(draw[1]));
    reveal_with_fuel(scan::total, 3);
    assert(draw.drop_last().last() == draw[0]);
    assert(draw.drop_last().drop_last().len() == 0);
    assert(scan::total(draw, weight) == draw[0].weight + draw[1].weight);
    let roll = ctx.rolls.distribution * (draw[0].weight + draw[1].weight);
    crate::scalar::scaling_keeps_order(
        units(0),
        ctx.rolls.distribution,
        draw[0].weight + draw[1].weight,
    );
    reveal_with_fuel(weight_before, 3);
    if roll < draw[0].weight {
        draws_fall_into_shares(draw, roll, 0);
    } else if roll < draw[0].weight + draw[1].weight {
        draws_fall_into_shares(draw, roll, 1);
    }
}

/// A kick is the more difficult the longer it is, and the receiver the more pressed the more
/// opponents are around, both from 0 to 1; a pass needs more power the further the receiver.
pub proof fn long_kicks_are_difficult(
    state: GoalkeeperDistributingState,
    ctx: &StateProcessingContext,
    t: MatchPlayerLite,
    m: MatchPlayerLite,
)
    requires
        units(0) < state.max_search(ctx),
        (
            t.position - ctx.player.position
        ).magnitude() <= (m.position - ctx.player.position).magnitude(),
        ctx.opponents_around(t.position, units(15)) <= ctx.opponents_around(m.position, units(15)),
    ensures
        state.as_option(ctx, t).teammate == t,
        state.as_option(ctx, t).difficulty <= state.as_option(ctx, m).difficulty,
        state.as_option(ctx, t).pressure <= state.as_option(ctx, m).pressure,
        state.as_option(ctx, m).difficulty.is_between(units(0), units(1)),
        state.as_option(ctx, m).pressure.is_between(units(0), units(1)),
        ctx.opponents_around(t.position, units(15)) == 0 ==> state.as_option(ctx, t).pressure
            == units(0),
        ctx.opponents_around(m.position, units(15)) == 1 ==> state.as_option(ctx, m).pressure
            == milli(250),
        ctx.opponents_around(m.position, units(15)) == 4 ==> state.as_option(ctx, m).pressure
            == units(1),
{
    crate::scalar::quotient_keeps_order(
        (t.position - ctx.player.position).magnitude(),
        (m.position - ctx.player.position).magnitude(),
        state.max_search(ctx),
    );
    crate::scalar::quotient_keeps_order(
        headcount(ctx.opponents_around(t.position, units(15))),
        headcount(ctx.opponents_around(m.position, units(15))),
        units(4),
    );
}

/// A receiver on either goal line, or behind it, scores least: half a point against three on the
/// halfway line, and one half way between the two.
pub proof fn goal_lines_score_least(
    state: GoalkeeperDistributingState,
    ctx: &StateProcessingContext,
    t: MatchPlayerLite,
)
    requires
        ctx.field_size.width > 0,
    ensures
        ({
            let half = ctx.width() * milli(500);
            let off = (t.position.x - half).abs();
            &&& half <= off
                && off <= units(1_000_000) ==> state.halfway_score(ctx, t) == milli(500)
            &&& off.raw * 2 == half.raw ==> state.halfway_score(ctx, t) == milli(1750)
        }),
{
    let half = ctx.width() * milli(500);
    crate::scalar::thousandths_of(ctx.width(), 500);
    let off = (t.position.x - half).abs();
    if half <= off && off <= units(1_000_000) {
        crate::scalar::quotient_keeps_order(half, off, half);
        crate::scalar::whole_is_one(half);
        crate::scalar::scaling_keeps_order(units(1), off / half, milli(2500));
        crate::scalar::one_changes_nothing(milli(2500));
    }
    if off.raw * 2 == half.raw {
        let o: int = off.raw as int;
        let h: int = half.raw as int;
        assert(o * 1_000_000 / h == 500_000) by (nonlinear_arith)
            requires
                o * 2 == h,
                h > 0,
        ;
        crate::scalar::thousandths_of(milli(500), 2500);
    }
}

} // verus!
