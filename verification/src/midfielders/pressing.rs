//! A midfielder who presses the ball carrier.
use crate::context::{MatchPlayerLite, StateProcessingContext};
use crate::outcome::{
    exertion_with_velocity, glide, glide_along, still, with_midfielder_state, ActivityIntensity,
    Exertion, MidfielderState, Movement, PlayerState, StateChangeResult,
};
use crate::scalar::{milli, units, Scalar};
use crate::scan;
use crate::vector::{flat, reaches_beyond, Vec3};
use vstd::prelude::*;

verus! {

#[derive(Default, Clone, Copy)]
pub struct MidfielderPressingState {}

impl MidfielderPressingState {
    pub open spec fn spec_process(
        &self,
        ctx: &StateProcessingContext,
    ) -> Option<StateChangeResult> {
        if ctx.player.has_ball {
            Some(with_midfielder_state(MidfielderState::Running))
        } else if ctx.ball.is_towards_player_with_angle(milli(800))
            && ctx.ball.distance < units(150) {
            Some(with_midfielder_state(MidfielderState::Intercepting))
        } else if !ctx.ball.is_owned && ctx.ball.distance < units(30) {
            Some(with_midfielder_state(MidfielderState::TakeBall))
        } else if ctx.team.control_ball {
            Some(with_midfielder_state(MidfielderState::AttackSupporting))
        } else if ctx.ball.opponent_restart {
            Some(with_midfielder_state(MidfielderState::Returning))
        } else if ctx.in_state_time > ctx.player.midfield.press_time_ticks {
            Some(with_midfielder_state(MidfielderState::Running))
        } else if ctx.ball.in_flight && ctx.ball.is_owned {
            Some(with_midfielder_state(MidfielderState::Running))
        } else if self.teammate_is_much_closer(ctx) {
            Some(with_midfielder_state(MidfielderState::Running))
        } else if self.carrier_in_reach(ctx) {
            Some(with_midfielder_state(MidfielderState::Tackling))
        } else if !ctx.ball.is_owned && ctx.ball.distance < units(50) && ctx.ball.speed < units(3)
            && !self.teammate_is_closer(ctx) {
            Some(with_midfielder_state(MidfielderState::TakeBall))
        } else if ctx.ball.distance > units(300) {
            Some(with_midfielder_state(MidfielderState::Returning))
        } else if ctx.in_state_time > 30 && !self.is_making_progress(ctx) {
            Some(with_midfielder_state(MidfielderState::Running))
        } else {
            None
        }
    }

    /// The next state of a pressing midfielder.
    #[verifier::when_used_as_spec(spec_process)]
    pub fn process(&self, ctx: &StateProcessingContext) -> (r: Option<StateChangeResult>)
        ensures
            r == self.spec_process(ctx),
    {
        if ctx.player.has_ball {
            return Some(with_midfielder_state(MidfielderState::Running));
        }
        if ctx.ball.is_towards_player_with_angle(milli(800)) && ctx.ball.distance < units(150) {
            return Some(with_midfielder_state(MidfielderState::Intercepting));
        }
        if !ctx.ball.is_owned && ctx.ball.distance < units(30) {
            return Some(with_midfielder_state(MidfielderState::TakeBall));
        }
        if ctx.team.control_ball {
            return Some(with_midfielder_state(MidfielderState::AttackSupporting));
        }
        if ctx.ball.opponent_restart {
            return Some(with_midfielder_state(MidfielderState::Returning));
        }
        if ctx.in_state_time > ctx.player.midfield.press_time_ticks {
            return Some(with_midfielder_state(MidfielderState::Running));
        }
        // A free kick is not crowded.
        if ctx.ball.in_flight && ctx.ball.is_owned {
            return Some(with_midfielder_state(MidfielderState::Running));
        }
        if self.teammate_is_much_closer(ctx) {
            return Some(with_midfielder_state(MidfielderState::Running));
        }
        if self.carrier_in_reach(ctx) {
            return Some(with_midfielder_state(MidfielderState::Tackling));
        }
        if !ctx.ball.is_owned && ctx.ball.distance < units(50) && ctx.ball.speed < units(3)
            && !self.teammate_is_closer(ctx) {
            return Some(with_midfielder_state(MidfielderState::TakeBall));
        }
        if ctx.ball.distance > units(300) {
            return Some(with_midfielder_state(MidfielderState::Returning));
        }
        if ctx.in_state_time > 30 && !self.is_making_progress(ctx) {
            return Some(with_midfielder_state(MidfielderState::Running));
        }
        None
    }

    pub open spec fn spec_teammate_is_much_closer(&self, ctx: &StateProcessingContext) -> bool {
        match scan::least_where(
            ctx.teammates@,
            |t: MatchPlayerLite| t.id != ctx.player.id,
            |t: MatchPlayerLite| (t.position - ctx.ball.position).magnitude(),
        ) {
            Some(closest) => (
                closest.position - ctx.ball.position
            ).magnitude() < ctx.ball.distance - units(10),
            None => false,
        }
    }

    /// The teammate nearest to the ball is clearly nearer than the midfielder.
    #[verifier::when_used_as_spec(spec_teammate_is_much_closer)]
    pub fn teammate_is_much_closer(&self, ctx: &StateProcessingContext) -> (r: bool)
        ensures
            r == self.spec_teammate_is_much_closer(ctx),
    {
        match scan::least_of(
            &ctx.teammates,
            |t: MatchPlayerLite| -> (b: bool)
                ensures b == (t.id != ctx.player.id)
            {
                t.id != ctx.player.id
            },
            |t: MatchPlayerLite| -> (b: Scalar)
                ensures b == ((t.position - ctx.ball.position).magnitude())
            {
                (t.position - ctx.ball.position).magnitude()
            },
            Ghost(|t: MatchPlayerLite| t.id != ctx.player.id),
            Ghost(|t: MatchPlayerLite| (t.position - ctx.ball.position).magnitude()),
        ) {
            Some(closest) => (
                closest.position - ctx.ball.position
            ).magnitude() < ctx.ball.distance - units(10),
            None => false,
        }
    }

    pub open spec fn spec_carrier_in_reach(&self, ctx: &StateProcessingContext) -> bool {
        match ctx.carrier_within(units(60)) {
            Some(carrier) => (carrier.position - ctx.player.position).magnitude() < units(50),
            None => false,
        }
    }

    /// An opponent with the ball is near enough to tackle.
    #[verifier::when_used_as_spec(spec_carrier_in_reach)]
    pub fn carrier_in_reach(&self, ctx: &StateProcessingContext) -> (r: bool)
        ensures
            r == self.spec_carrier_in_reach(ctx),
    {
        match ctx.carrier_within(units(60)) {
            Some(carrier) => (carrier.position - ctx.player.position).magnitude() < units(50),
            None => false,
        }
    }

    pub open spec fn spec_teammate_is_closer(&self, ctx: &StateProcessingContext) -> bool {
        let cutoff = ctx.ball.distance - units(5);
        cutoff > units(0)
            && scan::some_where(
                ctx.teammates@,
                |t: MatchPlayerLite| t.position.distance_to(ctx.ball.position) <= cutoff,
            )
    }

    /// A teammate is nearer to the ball.
    #[verifier::when_used_as_spec(spec_teammate_is_closer)]
    pub fn teammate_is_closer(&self, ctx: &StateProcessingContext) -> (r: bool)
        ensures
            r == self.spec_teammate_is_closer(ctx),
    {
        let cutoff = ctx.ball.distance - units(5);
        cutoff > units(0) && scan::any_of(
            &ctx.teammates,
            |t: MatchPlayerLite| -> (b: bool)
                ensures b == (t.position.distance_to(ctx.ball.position) <= cutoff)
            {
                t.position.distance_to(ctx.ball.position) <= cutoff
            },
            Ghost(|t: MatchPlayerLite| t.position.distance_to(ctx.ball.position) <= cutoff),
        )
    }

    pub open spec fn spec_velocity(&self, ctx: &StateProcessingContext) -> Option<Movement> {
        match ctx.carrier_within(units(500)) {
            Some(carrier) => {
                Some(glide(self.closing_velocity(ctx, carrier)))
            },
            None => {
                if !ctx.ball.is_owned && ctx.ball.distance < units(100) {
                    let way = ctx.ball.position - ctx.player.position;
                    Some(glide_along(way.direction(), ctx.player.skills.physical.pace))
                } else {
                    Some(still())
                }
            },
        }
    }

    /// Into the way of an opponent with the ball, after a loose ball, or nowhere.
    #[verifier::when_used_as_spec(spec_velocity)]
    pub fn velocity(&self, ctx: &StateProcessingContext) -> (r: Option<Movement>)
        ensures
            r == self.spec_velocity(ctx),
    {
        match ctx.carrier_within(units(500)) {
            Some(carrier) => {
                return Some(glide(self.closing_velocity(ctx, carrier)));
            },
            None => {},
        }
        if !ctx.ball.is_owned && ctx.ball.distance < units(100) {
            let way = ctx.ball.position - ctx.player.position;
            return Some(glide_along(way.direction(), ctx.player.skills.physical.pace));
        }
        Some(still())
    }

    pub open spec fn spec_closing_spot(
        &self,
        ctx: &StateProcessingContext,
        carrier: MatchPlayerLite,
    ) -> Option<Vec3> {
        let pace = ctx.player.skills.physical.pace;
        let lead = if pace > milli(10) {
            ((carrier.position - ctx.player.position).magnitude() / pace).min(units(30))
        } else {
            units(0)
        };
        let ahead = carrier.position + carrier.velocity * lead;
        let bias = if carrier.velocity.magnitude() > milli(100) { units(2) } else { units(0) };
        match (ctx.ball.direction_to_own_goal - ahead).direction() {
            Some(to_goal) => Some(ahead + to_goal * bias),
            None => None,
        }
    }

    /// Where the carrier will be, somewhat on the side of the own goal; none where that is the
    /// goal itself.
    #[verifier::when_used_as_spec(spec_closing_spot)]
    pub fn closing_spot(
        &self,
        ctx: &StateProcessingContext,
        carrier: MatchPlayerLite,
    ) -> (r: Option<Vec3>)
        ensures
            r == self.spec_closing_spot(ctx, carrier),
    {
        let pace = ctx.player.skills.physical.pace;
        let lead = if pace > milli(10) {
            ((carrier.position - ctx.player.position).magnitude() / pace).min(units(30))
        } else {
            units(0)
        };
        let ahead = carrier.position + carrier.velocity * lead;
        let bias = if carrier.velocity.magnitude() > milli(100) { units(2) } else { units(0) };
        match (ctx.ball.direction_to_own_goal - ahead).direction() {
            Some(to_goal) => Some(ahead + to_goal * bias),
            None => None,
        }
    }

    pub open spec fn spec_closing_direction(
        &self,
        ctx: &StateProcessingContext,
        carrier: MatchPlayerLite,
    ) -> Vec3 {
        match self.closing_spot(ctx, carrier) {
            Some(spot) => {
                let way = spot - ctx.player.position;
                if way.magnitude() > milli(10) {
                    way.normalize()
                } else {
                    flat(units(0), units(0))
                }
            },
            None => flat(units(0), units(0)),
        }
    }

    /// The direction into the way of the carrier; zero right there, and where there is no spot.
    #[verifier::when_used_as_spec(spec_closing_direction)]
    pub fn closing_direction(
        &self,
        ctx: &StateProcessingContext,
        carrier: MatchPlayerLite,
    ) -> (r: Vec3)
        ensures
            r == self.spec_closing_direction(ctx, carrier),
    {
        match self.closing_spot(ctx, carrier) {
            Some(spot) => {
                let way = spot - ctx.player.position;
                if way.magnitude() > milli(10) {
                    way.normalize()
                } else {
                    flat(units(0), units(0))
                }
            },
            None => flat(units(0), units(0)),
        }
    }

    pub open spec fn spec_closing_velocity(
        &self,
        ctx: &StateProcessingContext,
        carrier: MatchPlayerLite,
    ) -> Vec3 {
        let direction = self.closing_direction(ctx, carrier);
        let giving_way = if (
            carrier.position - ctx.player.position
        ).magnitude() < units(25) { milli(50) } else { milli(150) };
        direction * ctx.player.skills.physical.pace + ctx.player.separation_velocity * giving_way
    }

    /// At full pace into the way of the carrier, hardly giving way to others.
    #[verifier::when_used_as_spec(spec_closing_velocity)]
    pub fn closing_velocity(
        &self,
        ctx: &StateProcessingContext,
        carrier: MatchPlayerLite,
    ) -> (r: Vec3)
        ensures
            r == self.spec_closing_velocity(ctx, carrier),
    {
        let direction = self.closing_direction(ctx, carrier);
        let giving_way = if (
            carrier.position - ctx.player.position
        ).magnitude() < units(25) { milli(50) } else { milli(150) };
        direction * ctx.player.skills.physical.pace + ctx.player.separation_velocity * giving_way
    }

    pub open spec fn spec_process_conditions(&self) -> Exertion {
        exertion_with_velocity(ActivityIntensity::High)
    }

    /// The load of the state.
    #[verifier::when_used_as_spec(spec_process_conditions)]
    pub fn process_conditions(&self) -> (r: Exertion)
        ensures
            r == self.spec_process_conditions(),
    {
        exertion_with_velocity(ActivityIntensity::High)
    }

    pub open spec fn spec_is_making_progress(&self, ctx: &StateProcessingContext) -> bool {
        let way = ctx.ball.position - ctx.player.position;
        reaches_beyond(ctx.player.velocity, way, units(0))
        && scan::count_where(
            ctx.teammates@,
            |t: MatchPlayerLite|
                (t.position - ctx.ball.position).magnitude() < ctx.ball.distance * milli(800),
        ) < 2
    }

    /// The midfielder moves towards the ball, and not many teammates are nearer.
    #[verifier::when_used_as_spec(spec_is_making_progress)]
    pub fn is_making_progress(&self, ctx: &StateProcessingContext) -> (r: bool)
        ensures
            r == self.spec_is_making_progress(ctx),
    {
        let way = ctx.ball.position - ctx.player.position;
        reaches_beyond(ctx.player.velocity, way, units(0))
        && scan::count_if(
            &ctx.teammates,
            |t: MatchPlayerLite| -> (b: bool)
                ensures b == (
                    (t.position - ctx.ball.position).magnitude() < ctx.ball.distance * milli(800)
                )
            {
                (t.position - ctx.ball.position).magnitude() < ctx.ball.distance * milli(800)
            },
            Ghost(
                |t: MatchPlayerLite|
                    (t.position - ctx.ball.position).magnitude() < ctx.ball.distance * milli(800),
            ),
        ) < 2
    }
}

/// A ball at an opponent's restart is not tackled for.
pub proof fn restart_is_not_tackled(state: MidfielderPressingState, ctx: &StateProcessingContext)
    requires
        ctx.ball.opponent_restart,
    ensures
        state.process(ctx) matches Some(r) ==> r.state != PlayerState::Midfielder(
            MidfielderState::Tackling,
        ),
{
}

/// A pressing midfielder runs with the ball, cuts out one that comes straight, takes a loose one
/// at
/// hand, supports once the team has it, leaves a restart, tires of the press after its time, does
/// not crowd a free kick, and leaves the ball to a teammate who is much closer.
pub proof fn presses_end_in_order(state: MidfielderPressingState, ctx: &StateProcessingContext)
    ensures
        ({
            let goes_to = |s: MidfielderState| state.process(ctx) == Some(
                with_midfielder_state(s),
            );
            let comes = ctx.ball.heading >= milli(800) && ctx.ball.distance < units(150);
            let loose = !ctx.ball.is_owned && ctx.ball.distance < units(30);
            let open = !ctx.player.has_ball && !comes && !loose;
            let theirs = open && !ctx.team.control_ball;
            let over = ctx.in_state_time > ctx.player.midfield.press_time_ticks || (ctx.ball.in_flight
                && ctx.ball.is_owned);
            &&& ctx.player.has_ball ==> goes_to(MidfielderState::Running)
            &&& !ctx.player.has_ball && comes ==> goes_to(MidfielderState::Intercepting)
            &&& !ctx.player.has_ball && !comes && loose ==> goes_to(MidfielderState::TakeBall)
            &&& open && ctx.team.control_ball ==> goes_to(MidfielderState::AttackSupporting)
            &&& theirs && ctx.ball.opponent_restart ==> goes_to(MidfielderState::Returning)
            &&& theirs && !ctx.ball.opponent_restart && over ==> goes_to(MidfielderState::Running)
            &&& theirs && !ctx.ball.opponent_restart && !over && state.teammate_is_much_closer(ctx)
                ==> goes_to(MidfielderState::Running)
            &&& theirs && !ctx.ball.opponent_restart && !over
                && !state.teammate_is_much_closer(ctx) ==> {
                let slow = !ctx.ball.is_owned && ctx.ball.distance < units(50)
                    && ctx.ball.speed < units(3)
                    && !state.teammate_is_closer(ctx);
                &&& state.carrier_in_reach(ctx) ==> goes_to(MidfielderState::Tackling)
                &&& !state.carrier_in_reach(ctx) && slow ==> goes_to(MidfielderState::TakeBall)
                &&& !state.carrier_in_reach(ctx) && !slow
                    && ctx.ball.distance > units(300) ==> goes_to(
                    MidfielderState::Returning,
                )
                &&& !state.carrier_in_reach(ctx) && !slow && ctx.ball.distance <= units(300) ==> if
                    ctx.in_state_time > 30 && !state.is_making_progress(ctx) {
                    goes_to(MidfielderState::Running)
                } else {
                    state.process(ctx) is None
                }
            }
        }),
{
}

/// A carrier is in reach closer than 50; a teammate is much closer where one is nearer to the ball
/// by more than ten, and closer where one is nearer by five.
pub proof fn who_is_closer(state: MidfielderPressingState, ctx: &StateProcessingContext)
    ensures
        (ctx.carrier_within(units(60)) matches Some(c) && (c.position - ctx.player.position).magnitude()
            < units(50)) <==> state.carrier_in_reach(ctx),
        state.teammate_is_much_closer(ctx) <==> exists|t: MatchPlayerLite| #[trigger]
            ctx.teammates@.contains(t) && t.id != ctx.player.id && (t.position
                - ctx.ball.position).magnitude() < ctx.ball.distance - units(10),
        state.teammate_is_closer(ctx) <==> ctx.ball.distance - units(5) > units(0) && exists|
            t: MatchPlayerLite,
        | #[trigger]
            ctx.teammates@.contains(t)
                && t.position.distance_to(ctx.ball.position) <= ctx.ball.distance
                - units(5),
{
    let p = |t: MatchPlayerLite| t.id != ctx.player.id;
    let k = |t: MatchPlayerLite| (t.position - ctx.ball.position).magnitude();
    scan::least_is_least(ctx.teammates@, p, k);
    if state.teammate_is_much_closer(ctx) {
        let m = scan::least_where(ctx.teammates@, p, k)->0;
        assert(ctx.teammates@.contains(m) && p(m));
    }
    if exists|t: MatchPlayerLite| #[trigger]
        ctx.teammates@.contains(t) && t.id != ctx.player.id
            && (t.position - ctx.ball.position).magnitude()
            < ctx.ball.distance - units(10) {
        let t = choose|t: MatchPlayerLite| #[trigger]
            ctx.teammates@.contains(t) && t.id != ctx.player.id && (t.position
                - ctx.ball.position).magnitude() < ctx.ball.distance - units(10);
        assert(p(t));
        assert(k(scan::least_where(ctx.teammates@, p, k)->0) <= k(t));
    }
    let cutoff = ctx.ball.distance - units(5);
    scan::some_is_one_of_them(
        ctx.teammates@,
        |t: MatchPlayerLite| t.position.distance_to(ctx.ball.position) <= cutoff,
    );
}

/// A press makes progress only for a midfielder who moves towards the ball and whom at most one
/// teammate is clearly ahead of; without a carrier a loose ball nearby is run for, and else the
/// midfielder is still.
pub proof fn presses_close_in(state: MidfielderPressingState, ctx: &StateProcessingContext)
    ensures
        state.is_making_progress(ctx) ==> reaches_beyond(
            ctx.player.velocity,
            ctx.ball.position - ctx.player.position,
            units(0),
        ),
        (reaches_beyond(ctx.player.velocity, ctx.ball.position - ctx.player.position, units(0)) && forall|
            t: MatchPlayerLite,
        | #[trigger]
            ctx.teammates@.contains(t) ==> (t.position - ctx.ball.position).magnitude()
                >= ctx.ball.distance * milli(800)) ==> state.is_making_progress(ctx),
        (exists|i: int, j: int|
            0 <= i < j < ctx.teammates@.len() && ((#[trigger] ctx.teammates@[i]).position
                - ctx.ball.position).magnitude() < ctx.ball.distance * milli(800) && ((
            #[trigger] ctx.teammates@[j]).position - ctx.ball.position).magnitude() < ctx.ball.distance
                * milli(800)) ==> !state.is_making_progress(ctx),
        ctx.carrier_within(units(500)) is None ==> (if !ctx.ball.is_owned && ctx.ball.distance < units(100) {
            ctx.ball.position != ctx.player.position
                && !(ctx.ball.position - ctx.player.position).is_zero()
                ==> (state.velocity(ctx) matches Some(m) && m.extra == Some(
                (
                    ctx.ball.position - ctx.player.position
                ).normalize() * ctx.player.skills.physical.pace,
            ))
        } else {
            state.velocity(ctx) == Some(still())
        }),
{
    let p = |t: MatchPlayerLite|
        (t.position - ctx.ball.position).magnitude() < ctx.ball.distance * milli(800);
    assert(ctx.teammates.len() == ctx.teammates@.len());
    scan::count_tells_some(ctx.teammates@, p);
    scan::count_tells_two(ctx.teammates@, p);
}

/// The press leads at full pace into the way of the carrier, between them and the own goal: right
/// at a carrier who stands.
pub proof fn presses_lead_into_the_way(
    state: MidfielderPressingState,
    ctx: &StateProcessingContext,
    carrier: MatchPlayerLite,
)
    requires
        carrier.velocity.is_zero(),
        !(ctx.ball.direction_to_own_goal - carrier.position).is_zero(),
        ctx.player.separation_velocity == flat(units(0), units(0)),
        (carrier.position - ctx.player.position).magnitude() > milli(10),
    ensures
        state.closing_spot(ctx, carrier) == Some(carrier.position),
        state.closing_velocity(ctx, carrier) == (
            carrier.position - ctx.player.position
        ).normalize()
            * ctx.player.skills.physical.pace,
        ctx.carrier_within(units(500)) == Some(carrier) ==> (state.velocity(ctx) matches Some(m) && m.extra
            == Some(
            (carrier.position - ctx.player.position).normalize() * ctx.player.skills.physical.pace,
        )),
{
    let pace = ctx.player.skills.physical.pace;
    let lead = if pace > milli(10) {
        ((carrier.position - ctx.player.position).magnitude() / pace).min(units(30))
    } else {
        units(0)
    };
    crate::scalar::zero_stays_zero(lead);
    crate::vector::zero_has_no_length(carrier.velocity);
    let to_goal = (ctx.ball.direction_to_own_goal - carrier.position).normalize();
    crate::scalar::zero_stays_zero(to_goal.x);
    crate::scalar::zero_stays_zero(to_goal.y);
    crate::scalar::zero_stays_zero(to_goal.z);
    crate::scalar::zero_stays_zero(milli(50));
    crate::scalar::zero_stays_zero(milli(150));
}

} // verus!
