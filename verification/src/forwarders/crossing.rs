//! A forward who delivers a cross.
use crate::context::{MatchPlayerLite, PositionGroup, StateProcessingContext};
use crate::outcome::{
    exertion, pass_to, still, with_forward_state, ActivityIntensity, Exertion, ForwardState,
    Movement, PlayerEvent, PlayerState, StateChangeResult,
};
use crate::scalar::{milli, units, Scalar};
use crate::scan;
use vstd::prelude::*;

verus! {

/// Steps of wind-up before the cross.
pub const CROSS_EXECUTION_TIME: u64 = 5;

/// The longest wait for the box to fill at a corner.
pub const CORNER_SETUP_MAX: u64 = 200;

#[derive(Default, Clone, Copy)]
pub struct ForwardCrossingState {}

impl ForwardCrossingState {
    pub open spec fn spec_process(
        &self,
        ctx: &StateProcessingContext,
    ) -> Option<StateChangeResult> {
        if !ctx.player.has_ball {
            Some(with_forward_state(ForwardState::Running))
        } else if !self.is_in_wide_position(ctx) {
            Some(with_forward_state(ForwardState::Passing))
        } else if ctx.ball.team_attacking_corner && !ctx.team.corner_box_loaded
            && ctx.in_state_time < CORNER_SETUP_MAX {
            None
        } else if ctx.in_state_time <= CROSS_EXECUTION_TIME {
            None
        } else if ctx.ball.team_attacking_corner {
            Some(self.deliver_corner(ctx))
        } else {
            Some(self.deliver_cross(ctx))
        }
    }

    /// The next state of a crossing forward.
    #[verifier::when_used_as_spec(spec_process)]
    pub fn process(&self, ctx: &StateProcessingContext) -> (r: Option<StateChangeResult>)
        ensures
            r == self.spec_process(ctx),
    {
        if !ctx.player.has_ball {
            return Some(with_forward_state(ForwardState::Running));
        }
        if !self.is_in_wide_position(ctx) {
            return Some(with_forward_state(ForwardState::Passing));
        }
        // At a corner the delivery waits for runners in the box.
        if ctx.ball.team_attacking_corner && !ctx.team.corner_box_loaded
            && ctx.in_state_time < CORNER_SETUP_MAX {
            return None;
        }
        if ctx.in_state_time <= CROSS_EXECUTION_TIME {
            return None;
        }
        if ctx.ball.team_attacking_corner {
            return Some(self.deliver_corner(ctx));
        }
        Some(self.deliver_cross(ctx))
    }

    pub open spec fn spec_deliver_corner(
        &self,
        ctx: &StateProcessingContext,
    ) -> StateChangeResult {
        match ctx.corners.pick(self.zone_rotation(ctx)) {
            Some(delivery) => with_forward_state(ForwardState::Running).with_event(
                PlayerEvent::PassTo {
                    from: ctx.player.id,
                    to: delivery.receiver,
                    target: Some(delivery.zone),
                    reason: "FWD_CORNER",
                },
            ),
            None => with_forward_state(ForwardState::Passing),
        }
    }

    /// A corner goes to the centre of the zone whose turn it is.
    #[verifier::when_used_as_spec(spec_deliver_corner)]
    pub fn deliver_corner(&self, ctx: &StateProcessingContext) -> (r: StateChangeResult)
        ensures
            r == self.spec_deliver_corner(ctx),
    {
        match ctx.corners.pick(self.zone_rotation(ctx)) {
            Some(delivery) => with_forward_state(ForwardState::Running).with_event(
                PlayerEvent::PassTo {
                    from: ctx.player.id,
                    to: delivery.receiver,
                    target: Some(delivery.zone),
                    reason: "FWD_CORNER",
                },
            ),
            None => with_forward_state(ForwardState::Passing),
        }
    }

    pub open spec fn spec_deliver_cross(&self, ctx: &StateProcessingContext) -> StateChangeResult {
        match self.find_cross_target(ctx) {
            Some(target) => with_forward_state(ForwardState::Running).with_event(
                pass_to(ctx.player.id, target.id, "FWD_CROSS"),
            ),
            None => with_forward_state(ForwardState::Passing),
        }
    }

    /// A cross from open play goes to the best target.
    #[verifier::when_used_as_spec(spec_deliver_cross)]
    pub fn deliver_cross(&self, ctx: &StateProcessingContext) -> (r: StateChangeResult)
        ensures
            r == self.spec_deliver_cross(ctx),
    {
        match self.find_cross_target(ctx) {
            Some(target) => with_forward_state(ForwardState::Running).with_event(
                pass_to(ctx.player.id, target.id, "FWD_CROSS"),
            ),
            None => with_forward_state(ForwardState::Passing),
        }
    }

    pub open spec fn spec_zone_rotation(&self, ctx: &StateProcessingContext) -> u64 {
        (ctx.total_match_time / 2000) % 3
    }

    /// The zones take turns with the clock: central, near post, far post.
    #[verifier::when_used_as_spec(spec_zone_rotation)]
    pub fn zone_rotation(&self, ctx: &StateProcessingContext) -> (r: u64)
        ensures
            r == self.spec_zone_rotation(ctx),
    {
        (ctx.total_match_time / 2000) % 3
    }

    pub open spec fn spec_velocity(&self, ctx: &StateProcessingContext) -> Option<Movement> {
        Some(still())
    }

    /// The forward stands still to cross.
    #[verifier::when_used_as_spec(spec_velocity)]
    pub fn velocity(&self, ctx: &StateProcessingContext) -> (r: Option<Movement>)
        ensures
            r == self.spec_velocity(ctx),
    {
        Some(still())
    }

    pub open spec fn spec_process_conditions(&self) -> Exertion {
        exertion(ActivityIntensity::VeryHigh)
    }

    /// The load of the state.
    #[verifier::when_used_as_spec(spec_process_conditions)]
    pub fn process_conditions(&self) -> (r: Exertion)
        ensures
            r == self.spec_process_conditions(),
    {
        exertion(ActivityIntensity::VeryHigh)
    }

    pub open spec fn spec_is_in_wide_position(&self, ctx: &StateProcessingContext) -> bool {
        let y = ctx.player.position.y;
        let wide_margin = ctx.height() * milli(200);
        y < wide_margin || y > ctx.height() - wide_margin
    }

    /// In the outer fifth of the pitch, on either side.
    #[verifier::when_used_as_spec(spec_is_in_wide_position)]
    pub fn is_in_wide_position(&self, ctx: &StateProcessingContext) -> (r: bool)
        ensures
            r == self.spec_is_in_wide_position(ctx),
    {
        let y = ctx.player.position.y;
        let wide_margin = ctx.height() * milli(200);
        y < wide_margin || y > ctx.height() - wide_margin
    }

    pub open spec fn spec_find_cross_target(
        &self,
        ctx: &StateProcessingContext,
    ) -> Option<MatchPlayerLite> {
        scan::first_greatest_where(
            ctx.teammates@,
            |t: MatchPlayerLite| self.is_cross_target(ctx, t),
            |t: MatchPlayerLite| self.cross_score(ctx, t),
        )
    }

    /// The teammate in or near the penalty area with the best score; of equals, the first.
    #[verifier::when_used_as_spec(spec_find_cross_target)]
    pub fn find_cross_target(&self, ctx: &StateProcessingContext) -> (r: Option<MatchPlayerLite>)
        ensures
            r == self.spec_find_cross_target(ctx),
    {
        scan::first_greatest_of(
            &ctx.teammates,
            |t: MatchPlayerLite| -> (b: bool)
                ensures b == (self.is_cross_target(ctx, t))
            {
                self.is_cross_target(ctx, t)
            },
            |t: MatchPlayerLite| -> (b: Scalar)
                ensures b == (self.cross_score(ctx, t))
            {
                self.cross_score(ctx, t)
            },
            Ghost(|t: MatchPlayerLite| self.is_cross_target(ctx, t)),
            Ghost(|t: MatchPlayerLite| self.cross_score(ctx, t)),
        )
    }

    pub open spec fn spec_is_cross_target(
        &self,
        ctx: &StateProcessingContext,
        teammate: MatchPlayerLite,
    ) -> bool {
        teammate.id != ctx.player.id
        && teammate.position.distance_to(ctx.goal()) <= units(165)
        && (ctx.ball.team_attacking_corner || teammate.clear_pass)
    }

    /// Near enough to the goal; from open play also with a free lane.
    #[verifier::when_used_as_spec(spec_is_cross_target)]
    pub fn is_cross_target(
        &self,
        ctx: &StateProcessingContext,
        teammate: MatchPlayerLite,
    ) -> (r: bool)
        ensures
            r == self.spec_is_cross_target(ctx, teammate),
    {
        teammate.id != ctx.player.id
        && teammate.position.distance_to(ctx.goal()) <= units(165)
        && (ctx.ball.team_attacking_corner || teammate.clear_pass)
    }

    pub open spec fn spec_cross_score(
        &self,
        ctx: &StateProcessingContext,
        teammate: MatchPlayerLite,
    ) -> Scalar {
        let heading_skill = match ctx.by_id(teammate.id) {
            Some(p) => p.skills.technical.heading,
            None => units(10),
        };
        let defender_bonus = if ctx.ball.team_attacking_corner
            && teammate.tactical_positions.is_central_defender() {
            units(8)
        } else {
            units(0)
        };
        heading_skill + defender_bonus + self.zone_bonus(ctx, teammate)
        + (units(165) - teammate.position.distance_to(ctx.goal())) / units(10)
    }

    /// Heading skill, nearness to the goal, and at corners the bonuses for centre-backs and
    /// for the zone whose turn it is.
    #[verifier::when_used_as_spec(spec_cross_score)]
    pub fn cross_score(
        &self,
        ctx: &StateProcessingContext,
        teammate: MatchPlayerLite,
    ) -> (r: Scalar)
        ensures
            r == self.spec_cross_score(ctx, teammate),
    {
        let heading_skill = match ctx.by_id(teammate.id) {
            Some(p) => p.skills.technical.heading,
            None => units(10),
        };
        let defender_bonus = if ctx.ball.team_attacking_corner
            && teammate.tactical_positions.is_central_defender() {
            units(8)
        } else {
            units(0)
        };
        heading_skill + defender_bonus + self.zone_bonus(ctx, teammate)
        + (units(165) - teammate.position.distance_to(ctx.goal())) / units(10)
    }

    pub open spec fn spec_zone_bonus(
        &self,
        ctx: &StateProcessingContext,
        teammate: MatchPlayerLite,
    ) -> Scalar {
        let from_goal = teammate.position.distance_to(ctx.goal());
        let lateral = (teammate.position.y - ctx.goal().y).abs();
        let middle = ctx.height() / units(2);
        let same_side = (teammate.position.y < middle) == (ctx.player.position.y < middle);
        let rotation: u64 = self.zone_rotation(ctx);
        let in_zone = if rotation == 0 {
            from_goal >= units(60) && from_goal <= units(140) && lateral < units(70)
        } else if rotation == 1 {
            from_goal <= units(65) && same_side
        } else {
            from_goal <= units(80) && !same_side
        };
        if ctx.ball.team_attacking_corner && in_zone {
            units(25)
        } else {
            units(0)
        }
    }

    /// The bonus for standing in the zone whose turn it is.
    #[verifier::when_used_as_spec(spec_zone_bonus)]
    pub fn zone_bonus(
        &self,
        ctx: &StateProcessingContext,
        teammate: MatchPlayerLite,
    ) -> (r: Scalar)
        ensures
            r == self.spec_zone_bonus(ctx, teammate),
    {
        let from_goal = teammate.position.distance_to(ctx.goal());
        let lateral = (teammate.position.y - ctx.goal().y).abs();
        let middle = ctx.height() / units(2);
        let same_side = (teammate.position.y < middle) == (ctx.player.position.y < middle);
        let rotation: u64 = self.zone_rotation(ctx);
        let in_zone = if rotation == 0 {
            from_goal >= units(60) && from_goal <= units(140) && lateral < units(70)
        } else if rotation == 1 {
            from_goal <= units(65) && same_side
        } else {
            from_goal <= units(80) && !same_side
        };
        if ctx.ball.team_attacking_corner && in_zone { units(25) } else { units(0) }
    }
}

/// Without the ball the forward runs, away from the flanks passes; a cross takes a wind-up, a
/// corner
/// waits for the box to fill, up to a limit, and then the ball goes in, or is passed where there
/// is
/// nobody to find.
pub proof fn crosses_are_delivered(state: ForwardCrossingState, ctx: &StateProcessingContext)
    ensures
        ({
            let wide = ctx.player.position.y < ctx.height() * milli(200) || ctx.player.position.y
                > ctx.height() - ctx.height() * milli(200);
            let waits = ctx.ball.team_attacking_corner && !ctx.team.corner_box_loaded
                && ctx.in_state_time < 200;
            let ready = ctx.player.has_ball && wide && !waits && ctx.in_state_time > 5;
            &&& !ctx.player.has_ball ==> state.process(ctx) == Some(
                with_forward_state(ForwardState::Running),
            )
            &&& ctx.player.has_ball && !wide ==> state.process(ctx) == Some(
                with_forward_state(ForwardState::Passing),
            )
            &&& ctx.player.has_ball && wide
                && (waits || ctx.in_state_time <= 5) ==> state.process(ctx)
                is None
            &&& ready && !ctx.ball.team_attacking_corner ==> match state.find_cross_target(ctx) {
                Some(target) => state.process(ctx) matches Some(r)
                    && r.state == PlayerState::Forward(
                    ForwardState::Running,
                ) && r.event == Some(
                    PlayerEvent::PassTo {
                        from: ctx.player.id,
                        to: target.id,
                        target: None,
                        reason: "FWD_CROSS",
                    },
                ),
                None => state.process(ctx) == Some(with_forward_state(ForwardState::Passing)),
            }
            &&& ready && ctx.ball.team_attacking_corner ==> {
                let turn = (ctx.total_match_time / 2000) % 3;
                let delivery = if turn == 0 {
                    ctx.corners.central
                } else if turn == 1 {
                    ctx.corners.near_post
                } else {
                    ctx.corners.far_post
                };
                match delivery {
                    Some(d) => state.process(ctx) matches Some(r)
                        && r.state == PlayerState::Forward(
                        ForwardState::Running,
                    ) && r.event == Some(
                        PlayerEvent::PassTo {
                            from: ctx.player.id,
                            to: d.receiver,
                            target: Some(d.zone),
                            reason: "FWD_CORNER",
                        },
                    ),
                    None => state.process(ctx) == Some(with_forward_state(ForwardState::Passing)),
                }
            }
        }),
{
}

/// A cross goes to another player of the team near the goal, in sight from open play, and no other
/// such has a better score.
pub proof fn crosses_find_the_best(
    state: ForwardCrossingState,
    ctx: &StateProcessingContext,
    m: MatchPlayerLite,
)
    requires
        state.find_cross_target(ctx) == Some(m),
    ensures
        ctx.teammates@.contains(m),
        m.id != ctx.player.id,
        m.position.distance_to(ctx.goal()) <= units(165),
        ctx.ball.team_attacking_corner || m.clear_pass,
        forall|t: MatchPlayerLite|
            ctx.teammates@.contains(t)
                && #[trigger] state.is_cross_target(ctx, t) ==> state.cross_score(
                ctx,
                t,
            ) <= state.cross_score(ctx, m),
{
    let p = |t: MatchPlayerLite| state.is_cross_target(ctx, t);
    let k = |t: MatchPlayerLite| state.cross_score(ctx, t);
    scan::first_greatest_is_greatest(ctx.teammates@, p, k);
    assert(p(m));
    assert forall|t: MatchPlayerLite|
        ctx.teammates@.contains(t)
            && #[trigger] state.is_cross_target(ctx, t) implies state.cross_score(
        ctx,
        t,
    ) <= state.cross_score(ctx, m) by {
        assert(p(t));
        assert(k(t) <= k(m));
    }
}

/// A better header and a target nearer to the goal score no less; at a corner a centre-back scores
/// 8
/// more, and the zone whose turn it is 25.
pub proof fn headers_score(
    state: ForwardCrossingState,
    ctx: &StateProcessingContext,
    t: MatchPlayerLite,
    m: MatchPlayerLite,
)
    requires
        ctx.by_id(t.id) matches Some(p) && p == t,
        ctx.by_id(m.id) matches Some(p) && p == m,
        m.skills.technical.heading <= t.skills.technical.heading,
        t.position.distance_to(ctx.goal()) <= m.position.distance_to(ctx.goal()),
        m.skills.technical.heading >= units(0),
        t.skills.technical.heading <= units(1000),
        m.position.distance_to(ctx.goal()) <= units(1000),
    ensures
        !ctx.ball.team_attacking_corner ==> state.cross_score(ctx, m) <= state.cross_score(ctx, t),
        (ctx.ball.team_attacking_corner && t.position == m.position) ==> {
            let back = |p: MatchPlayerLite|
                p.tactical_positions.group == PositionGroup::Defender
                    && p.tactical_positions.central;
            &&& back(t) == back(m) ==> state.cross_score(ctx, m) <= state.cross_score(ctx, t)
            &&& back(t)
                && !back(m) ==> state.cross_score(ctx, m) + units(8) <= state.cross_score(ctx, t)
        },
{
    let a = units(165) - t.position.distance_to(ctx.goal());
    let b = units(165) - m.position.distance_to(ctx.goal());
    crate::vector::length_is_not_negative(t.position - ctx.goal());
    crate::vector::length_is_not_negative(m.position - ctx.goal());
    crate::scalar::quotient_keeps_order(b, a, units(10));
    crate::scalar::quotient_keeps_order(a, units(165), units(10));
    crate::scalar::quotient_keeps_order(units(1000).negated(), b, units(10));
}

/// The zone whose turn it is counts 25 at a corner, and nothing from open play: right in front of
/// the goal, at the near post, at the far post.
pub proof fn zones_take_turns(
    state: ForwardCrossingState,
    ctx: &StateProcessingContext,
    t: MatchPlayerLite,
)
    ensures
        !ctx.ball.team_attacking_corner ==> state.zone_bonus(ctx, t) == units(0),
        ctx.ball.team_attacking_corner ==> {
            let away = t.position.distance_to(ctx.goal());
            let middle = ctx.height() / units(2);
            let same_side = (t.position.y < middle) == (ctx.player.position.y < middle);
            let turn = (ctx.total_match_time / 2000) % 3;
            &&& turn == 0 ==> (state.zone_bonus(ctx, t) == units(25) <==> away.is_between(
                units(60),
                units(140),
            ) && (t.position.y - ctx.goal().y).abs() < units(70))
            &&& turn == 1 ==> (
                state.zone_bonus(ctx, t) == units(25) <==> same_side && away <= units(65)
            )
            &&& turn == 2 ==> (
                state.zone_bonus(ctx, t) == units(25) <==> !same_side && away <= units(80)
            )
            &&& state.zone_bonus(ctx, t) == units(25) || state.zone_bonus(ctx, t) == units(0)
        },
{
}

/// From open play a teammate of known skill scores the heading and a tenth of what is left to 165
/// from the goal: on that edge just the heading, ten nearer one more.
pub proof fn nearness_pays_a_tenth(
    state: ForwardCrossingState,
    ctx: &StateProcessingContext,
    t: MatchPlayerLite,
)
    requires
        !ctx.ball.team_attacking_corner,
        ctx.by_id(t.id) matches Some(p)
            && p.skills.technical.heading.is_between(units(0), units(1000)),
        t.position.distance_to(ctx.goal()).is_between(units(0), units(165)),
    ensures
        state.cross_score(ctx, t).raw == ctx.by_id(t.id)->0.skills.technical.heading.raw + (165_000_000
            - t.position.distance_to(ctx.goal()).raw) / 10,
        state.zone_bonus(ctx, t) == units(0),
        t.position.distance_to(ctx.goal()) == units(155) ==> state.cross_score(ctx, t)
            == ctx.by_id(t.id)->0.skills.technical.heading + units(1),
{
    let x: int = 165_000_000 - t.position.distance_to(ctx.goal()).raw;
    assert(x * 1_000_000 / 10_000_000 == x / 10);
}

} // verus!
