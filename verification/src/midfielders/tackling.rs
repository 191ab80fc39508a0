//! A midfielder who tries to win the ball.
use crate::context::{share, MatchPlayerLite, StateProcessingContext};
use crate::outcome::{
    exertion, pursue, with_midfielder_state, ActivityIntensity, Exertion, FoulSeverity,
    MidfielderState, Movement, PlayerEvent, PlayerState, StateChangeResult, Steering,
};
use crate::scalar::{milli, units, Scalar};
use crate::vector::Vec3;
use vstd::prelude::*;

verus! {

pub open spec fn spec_tackle_distance_threshold() -> Scalar {
    units(8)
}

/// How close the midfielder has to be to tackle.
#[verifier::when_used_as_spec(spec_tackle_distance_threshold)]
pub fn tackle_distance_threshold() -> (r: Scalar)
    ensures
        r == spec_tackle_distance_threshold(),
{
    units(8)
}

/// How a tackle went.
#[derive(Clone, Copy, PartialEq, Eq, Structural, Debug)]
pub struct TackleAttempt {
    pub success: bool,
    pub foul: bool,
    pub severity: FoulSeverity,
}

#[derive(Default, Clone, Copy)]
pub struct MidfielderTacklingState {}

impl MidfielderTacklingState {
    pub open spec fn spec_process(
        &self,
        ctx: &StateProcessingContext,
        odds: Scalar,
    ) -> Option<StateChangeResult> {
        match self.reason_not_to_tackle(ctx) {
            Some(result) => {
                Some(result)
            },
            None => {
                match ctx.opponent_with_ball() {
                    Some(opponent) => if opponent.distance > tackle_distance_threshold() {
                        Some(with_midfielder_state(MidfielderState::Pressing))
                    } else {
                        Some(self.settle(ctx, self.attempt_tackle(ctx, odds)))
                    },
                    None => if self.can_intercept_ball(ctx) {
                        Some(
                            with_midfielder_state(MidfielderState::Running).with_event(
                                PlayerEvent::ClaimBall { player: ctx.player.id },
                            ),
                        )
                    } else {
                        None
                    },
                }
            },
        }
    }

    /// The next state of a tackling midfielder. `odds` is the value of the logistic curve at
    /// `tackle_advantage` over the ball carrier.
    #[verifier::when_used_as_spec(spec_process)]
    pub fn process(
        &self,
        ctx: &StateProcessingContext,
        odds: Scalar,
    ) -> (r: Option<StateChangeResult>)
        ensures
            r == self.spec_process(ctx, odds),
    {
        match self.reason_not_to_tackle(ctx) {
            Some(result) => {
                return Some(result);
            },
            None => {},
        }
        match ctx.opponent_with_ball() {
            Some(opponent) => if opponent.distance > tackle_distance_threshold() {
                Some(with_midfielder_state(MidfielderState::Pressing))
            } else {
                Some(self.settle(ctx, self.attempt_tackle(ctx, odds)))
            },
            None => if self.can_intercept_ball(ctx) {
                Some(
                    with_midfielder_state(MidfielderState::Running).with_event(
                        PlayerEvent::ClaimBall { player: ctx.player.id },
                    ),
                )
            } else {
                None
            },
        }
    }

    pub open spec fn spec_reason_not_to_tackle(
        &self,
        ctx: &StateProcessingContext,
    ) -> Option<StateChangeResult> {
        if ctx.player.has_ball {
            Some(with_midfielder_state(MidfielderState::Running))
        } else if ctx.ball.in_flight {
            Some(with_midfielder_state(MidfielderState::Running))
        } else if ctx.ball.free_kick_encroaching {
            Some(with_midfielder_state(MidfielderState::Pressing))
        } else if ctx.ball.distance > units(150) {
            Some(with_midfielder_state(MidfielderState::Returning))
        } else if ctx.ball.distance > units(80)
            && !ctx.ball.is_towards_player_with_angle(milli(800)) {
            if ctx.team.control_ball {
                Some(with_midfielder_state(MidfielderState::AttackSupporting))
            } else {
                Some(with_midfielder_state(MidfielderState::Pressing))
            }
        } else if !ctx.player.can_attempt_tackle {
            Some(with_midfielder_state(MidfielderState::Pressing))
        } else if !ctx.team.best_player_to_chase_ball {
            Some(with_midfielder_state(MidfielderState::Pressing))
        } else {
            None
        }
    }

    /// The midfielder has the ball, may not tackle, or the ball is too far away.
    #[verifier::when_used_as_spec(spec_reason_not_to_tackle)]
    pub fn reason_not_to_tackle(
        &self,
        ctx: &StateProcessingContext,
    ) -> (r: Option<StateChangeResult>)
        ensures
            r == self.spec_reason_not_to_tackle(ctx),
    {
        if ctx.player.has_ball {
            return Some(with_midfielder_state(MidfielderState::Running));
        }
        if ctx.ball.in_flight {
            return Some(with_midfielder_state(MidfielderState::Running));
        }
        // Within the distance of a free kick nobody may challenge for the ball.
        if ctx.ball.free_kick_encroaching {
            return Some(with_midfielder_state(MidfielderState::Pressing));
        }
        if ctx.ball.distance > units(150) {
            return Some(with_midfielder_state(MidfielderState::Returning));
        }
        if ctx.ball.distance > units(80) && !ctx.ball.is_towards_player_with_angle(milli(800)) {
            if ctx.team.control_ball {
                return Some(with_midfielder_state(MidfielderState::AttackSupporting));
            } else {
                return Some(with_midfielder_state(MidfielderState::Pressing));
            }
        }
        if !ctx.player.can_attempt_tackle {
            return Some(with_midfielder_state(MidfielderState::Pressing));
        }
        if !ctx.team.best_player_to_chase_ball {
            return Some(with_midfielder_state(MidfielderState::Pressing));
        }
        None
    }

    pub open spec fn spec_tackles(&self, ctx: &StateProcessingContext) -> bool {
        self.reason_not_to_tackle(ctx).is_none() && match ctx.opponent_with_ball() {
            Some(opponent) => opponent.distance <= tackle_distance_threshold(),
            None => false,
        }
    }

    /// The midfielder tackles in this step.
    #[verifier::when_used_as_spec(spec_tackles)]
    pub fn tackles(&self, ctx: &StateProcessingContext) -> (r: bool)
        ensures
            r == self.spec_tackles(ctx),
    {
        self.reason_not_to_tackle(ctx).is_none() && match ctx.opponent_with_ball() {
            Some(opponent) => opponent.distance <= tackle_distance_threshold(),
            None => false,
        }
    }

    pub open spec fn spec_settle(
        &self,
        ctx: &StateProcessingContext,
        attempt: TackleAttempt,
    ) -> StateChangeResult {
        if attempt.foul {
            with_midfielder_state(MidfielderState::Standing).with_event(
                PlayerEvent::CommitFoul { player: ctx.player.id, severity: attempt.severity },
            ).with_tackle_cooldown()
        } else if attempt.success {
            with_midfielder_state(MidfielderState::Standing).with_event(
                PlayerEvent::TacklingBall { player: ctx.player.id },
            ).with_tackle_cooldown()
        } else {
            with_midfielder_state(MidfielderState::Pressing).with_tackle_cooldown()
        }
    }

    /// What follows from a tackle: a foul, the ball, or a miss; a pause in any case.
    #[verifier::when_used_as_spec(spec_settle)]
    pub fn settle(
        &self,
        ctx: &StateProcessingContext,
        attempt: TackleAttempt,
    ) -> (r: StateChangeResult)
        ensures
            r == self.spec_settle(ctx, attempt),
    {
        if attempt.foul {
            return with_midfielder_state(MidfielderState::Standing).with_event(
                PlayerEvent::CommitFoul { player: ctx.player.id, severity: attempt.severity },
            ).with_tackle_cooldown();
        }
        if attempt.success {
            return with_midfielder_state(MidfielderState::Standing).with_event(
                PlayerEvent::TacklingBall { player: ctx.player.id },
            ).with_tackle_cooldown();
        }
        with_midfielder_state(MidfielderState::Pressing).with_tackle_cooldown()
    }

    pub open spec fn spec_velocity(&self, ctx: &StateProcessingContext) -> Option<Movement> {
        let boost = milli(1300) + share(ctx.player.skills.technical.tackling) * milli(300)
        + share(ctx.player.skills.physical.acceleration) * milli(300);
        Some(
            pursue(ctx.ball.position, ctx.ball.velocity).scaled(boost).plus(
                ctx.player.separation_velocity * milli(200),
            ),
        )
    }

    /// After the ball, faster with the skill at tackling.
    #[verifier::when_used_as_spec(spec_velocity)]
    pub fn velocity(&self, ctx: &StateProcessingContext) -> (r: Option<Movement>)
        ensures
            r == self.spec_velocity(ctx),
    {
        let boost = milli(1300) + share(ctx.player.skills.technical.tackling) * milli(300)
        + share(ctx.player.skills.physical.acceleration) * milli(300);
        Some(
            pursue(ctx.ball.position, ctx.ball.velocity).scaled(boost).plus(
                ctx.player.separation_velocity * milli(200),
            ),
        )
    }

    pub open spec fn spec_process_conditions(&self) -> Exertion {
        exertion(ActivityIntensity::VeryHigh)
    }

    /// The load of the state.
    #[verifier::when_used_as_spec(spec_process_conditions)]
    pub fn process_conditions(&self) -> (r: Exertion)
        ensures
            r == self.spec_process_conditions(),
    {
        exertion(ActivityIntensity::VeryHigh)
    }

    pub open spec fn spec_carry_skill(&self, opponent: MatchPlayerLite) -> Scalar {
        (share(opponent.skills.technical.dribbling) * milli(300) + share(opponent.skills.technical.technique) * milli(200)
            + share(opponent.skills.physical.agility) * milli(200) + share(
                opponent.skills.physical.acceleration,
            ) * milli(120)
            + share(opponent.skills.physical.balance) * milli(100) + share(opponent.skills.mental.composure) * milli(80)).clamp(units(0), units(1))
    }

    /// How well an opponent keeps the ball, from 0 to 1.
    #[verifier::when_used_as_spec(spec_carry_skill)]
    pub fn carry_skill(&self, opponent: MatchPlayerLite) -> (r: Scalar)
        ensures
            r == self.spec_carry_skill(opponent),
            units(0) <= r,
            r <= units(1),
    {
        (share(opponent.skills.technical.dribbling) * milli(300) + share(opponent.skills.technical.technique) * milli(200)
            + share(opponent.skills.physical.agility) * milli(200) + share(
                opponent.skills.physical.acceleration,
            ) * milli(120)
            + share(opponent.skills.physical.balance) * milli(100) + share(opponent.skills.mental.composure) * milli(80)).clamp(units(0), units(1))
    }

    pub open spec fn spec_tackle_advantage(
        &self,
        ctx: &StateProcessingContext,
        opponent: MatchPlayerLite,
    ) -> Scalar {
        (ctx.player.midfield.tackle_profile - self.carry_skill(opponent)) * milli(2400)
    }

    /// The advantage over a ball carrier, on the scale of the logistic curve.
    #[verifier::when_used_as_spec(spec_tackle_advantage)]
    pub fn tackle_advantage(
        &self,
        ctx: &StateProcessingContext,
        opponent: MatchPlayerLite,
    ) -> (r: Scalar)
        ensures
            r == self.spec_tackle_advantage(ctx, opponent),
    {
        (ctx.player.midfield.tackle_profile - self.carry_skill(opponent)) * milli(2400)
    }

    pub open spec fn spec_aggression(&self, ctx: &StateProcessingContext) -> Scalar {
        share(ctx.player.skills.mental.aggression).clamp(units(0), units(1))
    }

    /// The aggression of the midfielder, from 0 to 1.
    #[verifier::when_used_as_spec(spec_aggression)]
    pub fn aggression(&self, ctx: &StateProcessingContext) -> (r: Scalar)
        ensures
            r == self.spec_aggression(ctx),
    {
        share(ctx.player.skills.mental.aggression).clamp(units(0), units(1))
    }

    pub open spec fn spec_foul_chance(
        &self,
        ctx: &StateProcessingContext,
        success: bool,
    ) -> Scalar {
        let temper = milli(62) + self.aggression(ctx) * milli(110)
            - ctx.player.midfield.discipline * milli(70);
        let outcome = if success { temper * milli(300) } else { temper * milli(1750) };
        let tired = outcome + (
            units(1) - ctx.player.midfield.mid_condition_mult
        ).max(units(0)) * milli(80);
        let in_box = if ctx.player.penalty_area.contains(ctx.ball.position) {
            tired * milli(300)
        } else {
            tired
        };
        let booked = if ctx.player.yellow_cards > 0 { in_box * milli(700) } else { in_box };
        (booked * ctx.foul_time_compression).clamp(milli(5), milli(850))
    }

    /// The risk of a foul: higher with aggression, after a miss and when tired, lower with
    /// discipline, in the own box and after a booking.
    #[verifier::when_used_as_spec(spec_foul_chance)]
    pub fn foul_chance(&self, ctx: &StateProcessingContext, success: bool) -> (r: Scalar)
        ensures
            r == self.spec_foul_chance(ctx, success),
            milli(5) <= r,
            r <= milli(850),
    {
        let temper = milli(62) + self.aggression(ctx) * milli(110)
            - ctx.player.midfield.discipline * milli(70);
        let outcome = if success { temper * milli(300) } else { temper * milli(1750) };
        let tired = outcome + (
            units(1) - ctx.player.midfield.mid_condition_mult
        ).max(units(0)) * milli(80);
        let in_box = if ctx.player.penalty_area.contains(ctx.ball.position) {
            tired * milli(300)
        } else {
            tired
        };
        let booked = if ctx.player.yellow_cards > 0 { in_box * milli(700) } else { in_box };
        (booked * ctx.foul_time_compression).clamp(milli(5), milli(850))
    }

    pub open spec fn spec_foul_severity(
        &self,
        ctx: &StateProcessingContext,
        success: bool,
    ) -> FoulSeverity {
        if self.aggression(ctx) > milli(750) && !success && ctx.rolls.violent < milli(8) {
            FoulSeverity::Violent
        } else if !success && self.aggression(ctx) > milli(550)
            && ctx.rolls.reckless < milli(350) {
            FoulSeverity::Reckless
        } else {
            FoulSeverity::Normal
        }
    }

    /// How grave a foul is: only a miss is ever violent or reckless.
    #[verifier::when_used_as_spec(spec_foul_severity)]
    pub fn foul_severity(&self, ctx: &StateProcessingContext, success: bool) -> (r: FoulSeverity)
        ensures
            r == self.spec_foul_severity(ctx, success),
    {
        if self.aggression(ctx) > milli(750) && !success && ctx.rolls.violent < milli(8) {
            FoulSeverity::Violent
        } else if !success && self.aggression(ctx) > milli(550)
            && ctx.rolls.reckless < milli(350) {
            FoulSeverity::Reckless
        } else {
            FoulSeverity::Normal
        }
    }

    pub open spec fn spec_attempt_tackle(
        &self,
        ctx: &StateProcessingContext,
        odds: Scalar,
    ) -> TackleAttempt {
        let success = ctx.rolls.tackle < odds.clamp(milli(60), milli(550));
        let foul = ctx.rolls.foul < self.foul_chance(ctx, success);
        TackleAttempt {
            success,
            foul,
            severity: if foul { self.foul_severity(ctx, success) } else { FoulSeverity::Normal },
        }
    }

    /// The tackle, as chance will have it.
    #[verifier::when_used_as_spec(spec_attempt_tackle)]
    pub fn attempt_tackle(&self, ctx: &StateProcessingContext, odds: Scalar) -> (r: TackleAttempt)
        ensures
            r == self.spec_attempt_tackle(ctx, odds),
    {
        let success = ctx.rolls.tackle < odds.clamp(milli(60), milli(550));
        let foul = ctx.rolls.foul < self.foul_chance(ctx, success);
        TackleAttempt {
            success,
            foul,
            severity: if foul { self.foul_severity(ctx, success) } else { FoulSeverity::Normal },
        }
    }

    pub open spec fn spec_can_intercept_ball(&self, ctx: &StateProcessingContext) -> bool {
        let pace = ctx.player.skills.physical.pace;
        !ctx.ball.in_flight && !ctx.ball.is_owned && ctx.ball.velocity.magnitude() > milli(100)
            && pace != units(0)
        && (
            self.meeting_spot(ctx) - ctx.player.position
        ).magnitude() <= tackle_distance_threshold()
    }

    /// A loose moving ball that the midfielder meets within reach; one who cannot move meets none.
    #[verifier::when_used_as_spec(spec_can_intercept_ball)]
    pub fn can_intercept_ball(&self, ctx: &StateProcessingContext) -> (r: bool)
        ensures
            r == self.spec_can_intercept_ball(ctx),
    {
        let pace = ctx.player.skills.physical.pace;
        !ctx.ball.in_flight && !ctx.ball.is_owned && ctx.ball.velocity.magnitude() > milli(100)
            && pace != units(0)
        && (
            self.meeting_spot(ctx) - ctx.player.position
        ).magnitude() <= tackle_distance_threshold()
    }

    pub open spec fn spec_meeting_spot(&self, ctx: &StateProcessingContext) -> Vec3 {
        let time = (
            ctx.ball.position - ctx.player.position
        ).magnitude() / ctx.player.skills.physical.pace;
        match ctx.ball.velocity.direction() {
            Some(way) => ctx.ball.position + way * (ctx.ball.velocity.magnitude() * time),
            None => ctx.ball.position,
        }
    }

    /// Where the midfielder meets a moving ball; the ball itself where it does not move.
    #[verifier::when_used_as_spec(spec_meeting_spot)]
    pub fn meeting_spot(&self, ctx: &StateProcessingContext) -> (r: Vec3)
        ensures
            r == self.spec_meeting_spot(ctx),
    {
        let time = (
            ctx.ball.position - ctx.player.position
        ).magnitude() / ctx.player.skills.physical.pace;
        match ctx.ball.velocity.direction() {
            Some(way) => ctx.ball.position + way * (ctx.ball.velocity.magnitude() * time),
            None => ctx.ball.position,
        }
    }
}

/// Every tackle is followed by a pause, and nothing else is.
pub proof fn every_tackle_has_a_pause(
    state: MidfielderTacklingState,
    ctx: &StateProcessingContext,
    odds: Scalar,
)
    ensures
        (
            state.process(ctx, odds) matches Some(r) && r.start_tackle_cooldown
        ) <==> state.tackles(ctx),
{
}

/// The ball cannot be won cleanly and a foul be given at once: one tackle has one outcome.
pub proof fn a_tackle_has_one_outcome(
    state: MidfielderTacklingState,
    ctx: &StateProcessingContext,
    odds: Scalar,
)
    requires
        state.tackles(ctx),
    ensures
        state.process(ctx, odds) matches Some(r) && {
            let attempt = state.attempt_tackle(ctx, odds);
            &&& (r.event == Some(
                PlayerEvent::CommitFoul { player: ctx.player.id, severity: attempt.severity },
            ) <==> attempt.foul)
            &&& (r.event == Some(PlayerEvent::TacklingBall { player: ctx.player.id }) <==> attempt.success
                && !attempt.foul)
            &&& (r.event == None::<PlayerEvent> <==> !attempt.success && !attempt.foul)
        },
{
}

/// The better the midfielder in the tackle, and the poorer the carrier on the ball, the greater
/// the
/// advantage; an even duel has none.
pub proof fn better_tacklers_have_the_advantage(
    state: MidfielderTacklingState,
    ctx: &StateProcessingContext,
    other: &StateProcessingContext,
    opponent: MatchPlayerLite,
    rival: MatchPlayerLite,
)
    requires
        ctx.player.midfield.tackle_profile <= other.player.midfield.tackle_profile,
        state.carry_skill(rival) <= state.carry_skill(opponent),
    ensures
        state.tackle_advantage(ctx, opponent) <= state.tackle_advantage(other, rival),
        ctx.player.midfield.tackle_profile
            == state.carry_skill(opponent) ==> state.tackle_advantage(
            ctx,
            opponent,
        ) == units(0),
        (
            ctx.player.midfield.tackle_profile >= state.carry_skill(opponent) + milli(10)
        ) ==> units(0)
            < state.tackle_advantage(ctx, opponent),
{
    let a = ctx.player.midfield.tackle_profile - state.carry_skill(opponent);
    let b = other.player.midfield.tackle_profile - state.carry_skill(rival);
    crate::scalar::scaling_keeps_order(a, b, milli(2400));
    if a == units(0) {
        crate::scalar::zero_stays_zero(milli(2400));
    }
    if a >= milli(10) {
        crate::scalar::scaling_keeps_order(milli(10), a, milli(2400));
        crate::scalar::thousandths_of(milli(10), 2400);
    }
}

/// A carrier keeps the ball no worse with more of each of the skills that count.
#[verifier::rlimit(60)]
#[verifier::spinoff_prover]
pub proof fn skilled_carriers_keep_the_ball(
    state: MidfielderTacklingState,
    a: MatchPlayerLite,
    b: MatchPlayerLite,
)
    requires
        a.skills.technical.dribbling <= b.skills.technical.dribbling,
        a.skills.technical.technique <= b.skills.technical.technique,
        a.skills.physical.agility <= b.skills.physical.agility,
        a.skills.physical.acceleration <= b.skills.physical.acceleration,
        a.skills.physical.balance <= b.skills.physical.balance,
        a.skills.mental.composure <= b.skills.mental.composure,
    ensures
        state.carry_skill(a) <= state.carry_skill(b),
{
    part_grows(a.skills.technical.dribbling, b.skills.technical.dribbling, milli(300));
    part_grows(a.skills.technical.technique, b.skills.technical.technique, milli(200));
    part_grows(a.skills.physical.agility, b.skills.physical.agility, milli(200));
    part_grows(a.skills.physical.acceleration, b.skills.physical.acceleration, milli(120));
    part_grows(a.skills.physical.balance, b.skills.physical.balance, milli(100));
    part_grows(a.skills.mental.composure, b.skills.mental.composure, milli(80));
    six_parts(
        share(a.skills.technical.dribbling) * milli(300),
        share(b.skills.technical.dribbling) * milli(300),
        share(a.skills.technical.technique) * milli(200),
        share(b.skills.technical.technique) * milli(200),
        share(a.skills.physical.agility) * milli(200),
        share(b.skills.physical.agility) * milli(200),
        share(a.skills.physical.acceleration) * milli(120),
        share(b.skills.physical.acceleration) * milli(120),
        share(a.skills.physical.balance) * milli(100),
        share(b.skills.physical.balance) * milli(100),
        share(a.skills.mental.composure) * milli(80),
        share(b.skills.mental.composure) * milli(80),
    );
}

/// A sum of six parts that are no less is no less.
proof fn six_parts(
    a: Scalar,
    b: Scalar,
    c: Scalar,
    d: Scalar,
    e: Scalar,
    f: Scalar,
    g: Scalar,
    h: Scalar,
    i: Scalar,
    j: Scalar,
    k: Scalar,
    l: Scalar,
)
    requires
        a <= b,
        c <= d,
        e <= f,
        g <= h,
        i <= j,
        k <= l,
    ensures
        a + c + e + g + i + k <= b + d + f + h + j + l,
{
}

/// The part that a skill has in something grows with the skill.
proof fn part_grows(a: Scalar, b: Scalar, part: Scalar)
    requires
        a <= b,
        units(0) <= part,
    ensures
        share(a) * part <= share(b) * part,
{
    crate::scalar::quotient_keeps_order(a, b, units(20));
    crate::scalar::scaling_keeps_order(share(a), share(b), part);
}

/// The risk of a foul grows with aggression and falls with discipline; it is no lower after a miss
/// than after a ball that is won, no lower outside the own box, and no lower before a booking.
#[verifier::rlimit(40)]
#[verifier::spinoff_prover]
pub proof fn fouls_have_their_reasons(
    state: MidfielderTacklingState,
    ctx: &StateProcessingContext,
    other: &StateProcessingContext,
    success: bool,
)
    requires
        units(0) <= ctx.foul_time_compression,
        ctx.foul_time_compression == other.foul_time_compression,
        state.aggression(ctx) <= state.aggression(other),
        other.player.midfield.discipline <= ctx.player.midfield.discipline,
        units(0) <= ctx.player.midfield.discipline,
        ctx.player.midfield.discipline <= milli(800),
        other.player.midfield.mid_condition_mult <= ctx.player.midfield.mid_condition_mult,
        other.player.penalty_area.contains(
            other.ball.position,
        ) ==> ctx.player.penalty_area.contains(
            ctx.ball.position,
        ),
        other.player.yellow_cards > 0 ==> ctx.player.yellow_cards > 0,
    ensures
        state.foul_chance(ctx, success) <= state.foul_chance(other, success),
        state.foul_chance(ctx, true) <= state.foul_chance(other, false),
{
    let ta = milli(62) + state.aggression(ctx) * milli(110)
        - ctx.player.midfield.discipline * milli(70);
    let tb = milli(62) + state.aggression(other) * milli(110)
        - other.player.midfield.discipline * milli(
        70,
    );
    crate::scalar::scaling_keeps_order(state.aggression(ctx), state.aggression(other), milli(110));
    crate::scalar::scaling_keeps_order(units(0), state.aggression(ctx), milli(110));
    crate::scalar::scaling_keeps_order(
        other.player.midfield.discipline,
        ctx.player.midfield.discipline,
        milli(70),
    );
    crate::scalar::scaling_keeps_order(ctx.player.midfield.discipline, milli(800), milli(70));
    crate::scalar::thousandths_of(milli(800), 70);
    assert(units(0) <= ta);
    let ca = (units(1) - ctx.player.midfield.mid_condition_mult).max(units(0));
    let cb = (units(1) - other.player.midfield.mid_condition_mult).max(units(0));
    risk_grows(
        ta,
        tb,
        ca,
        cb,
        ctx.player.penalty_area.contains(ctx.ball.position),
        other.player.penalty_area.contains(other.ball.position),
        ctx.player.yellow_cards > 0,
        other.player.yellow_cards > 0,
        milli(300),
        milli(300),
        ctx.foul_time_compression,
    );
    risk_grows(
        ta,
        tb,
        ca,
        cb,
        ctx.player.penalty_area.contains(ctx.ball.position),
        other.player.penalty_area.contains(other.ball.position),
        ctx.player.yellow_cards > 0,
        other.player.yellow_cards > 0,
        milli(1750),
        milli(1750),
        ctx.foul_time_compression,
    );
    risk_grows(
        ta,
        tb,
        ca,
        cb,
        ctx.player.penalty_area.contains(ctx.ball.position),
        other.player.penalty_area.contains(other.ball.position),
        ctx.player.yellow_cards > 0,
        other.player.yellow_cards > 0,
        milli(300),
        milli(1750),
        ctx.foul_time_compression,
    );
}

/// More temper and less strength make no less risk, outside the box and without a booking neither.
proof fn risk_grows(
    ta: Scalar,
    tb: Scalar,
    ca: Scalar,
    cb: Scalar,
    boxed_a: bool,
    boxed_b: bool,
    booked_a: bool,
    booked_b: bool,
    fa: Scalar,
    fb: Scalar,
    compression: Scalar,
)
    requires
        units(0) <= ta,
        ta <= tb,
        units(0) <= ca,
        ca <= cb,
        boxed_b ==> boxed_a,
        booked_b ==> booked_a,
        units(0) <= fa,
        fa <= fb,
        units(0) <= compression,
    ensures
        ({
            let a = ta * fa + ca * milli(80);
            let b = tb * fb + cb * milli(80);
            let x = if boxed_a { a * milli(300) } else { a };
            let y = if boxed_b { b * milli(300) } else { b };
            let u = if booked_a { x * milli(700) } else { x };
            let v = if booked_b { y * milli(700) } else { y };
            u * compression <= v * compression
        }),
{
    let a = ta * fa + ca * milli(80);
    let b = tb * fb + cb * milli(80);
    crate::scalar::scaling_keeps_order(ta, tb, fa);
    crate::scalar::product_keeps_order(tb, fa, fb);
    crate::scalar::product_keeps_sign(ta, fa);
    crate::scalar::scaling_keeps_order(ca, cb, milli(80));
    crate::scalar::product_keeps_sign(ca, milli(80));
    assert(units(0) <= a && a <= b);
    crate::scalar::scaling_keeps_order(a, b, milli(300));
    crate::scalar::product_keeps_order(a, milli(300), units(1));
    crate::scalar::one_changes_nothing(a);
    crate::scalar::product_keeps_sign(a, milli(300));
    let x = if boxed_a {
        a * milli(300)
    } else {
        a
    };
    let y = if boxed_b {
        b * milli(300)
    } else {
        b
    };
    assert(units(0) <= x && x <= y);
    crate::scalar::scaling_keeps_order(x, y, milli(700));
    crate::scalar::product_keeps_order(x, milli(700), units(1));
    crate::scalar::one_changes_nothing(x);
    let u = if booked_a {
        x * milli(700)
    } else {
        x
    };
    let v = if booked_b {
        y * milli(700)
    } else {
        y
    };
    crate::scalar::scaling_keeps_order(u, v, compression);
}

/// Only a miss of an aggressive midfielder is ever grave: violent on a very low draw, reckless on
/// a
/// low one.
pub proof fn grave_fouls_are_rare(
    state: MidfielderTacklingState,
    ctx: &StateProcessingContext,
    success: bool,
)
    ensures
        state.foul_severity(ctx, true) == FoulSeverity::Normal,
        state.foul_severity(ctx, success) == FoulSeverity::Violent <==> !success
            && state.aggression(ctx)
            > milli(750) && ctx.rolls.violent < milli(8),
        state.aggression(ctx) <= milli(550) ==> state.foul_severity(ctx, success)
            == FoulSeverity::Normal,
        (state.aggression(ctx) > milli(550) && ctx.rolls.violent >= milli(8) && ctx.rolls.reckless
            < milli(350)) ==> state.foul_severity(ctx, false) == FoulSeverity::Reckless,
        ctx.rolls.reckless
            >= milli(350) ==> state.foul_severity(ctx, success) != FoulSeverity::Reckless,
        state.aggression(ctx).is_between(units(0), units(1)),
{
}

/// A midfielder who may tackle and has the carrier in reach wins the ball on a draw below the
/// odds,
/// which count between 0.06 and 0.55; a foul goes before the ball, and a pause follows.
pub proof fn draws_decide_tackles(
    state: MidfielderTacklingState,
    ctx: &StateProcessingContext,
    odds: Scalar,
    opponent: MatchPlayerLite,
)
    requires
        !ctx.player.has_ball,
        !ctx.ball.in_flight,
        !ctx.ball.free_kick_encroaching,
        ctx.ball.distance <= units(80),
        ctx.player.can_attempt_tackle,
        ctx.team.best_player_to_chase_ball,
        ctx.opponent_with_ball() == Some(opponent),
    ensures
        opponent.distance > units(8) ==> state.process(ctx, odds) == Some(
            with_midfielder_state(MidfielderState::Pressing),
        ),
        opponent.distance <= units(8) ==> {
            let won = ctx.rolls.tackle < odds.clamp(milli(60), milli(550));
            let foul = ctx.rolls.foul < state.foul_chance(ctx, won);
            state.process(ctx, odds) matches Some(r) && r.start_tackle_cooldown && (if foul {
                r.state == PlayerState::Midfielder(MidfielderState::Standing) && r.event == Some(
                    PlayerEvent::CommitFoul {
                        player: ctx.player.id,
                        severity: state.foul_severity(ctx, won),
                    },
                )
            } else if won {
                r.state == PlayerState::Midfielder(MidfielderState::Standing) && r.event == Some(
                    PlayerEvent::TacklingBall { player: ctx.player.id },
                )
            } else {
                r.state == PlayerState::Midfielder(MidfielderState::Pressing) && r.event is None
            })
        },
{
}

/// With the ball or under a high one the midfielder runs, near a free kick presses, goes back from
/// a
/// far ball, supports or presses from a middling one that goes elsewhere, and presses where a
/// tackle
/// is not allowed or another is better placed.
pub proof fn others_do_not_tackle(
    state: MidfielderTacklingState,
    ctx: &StateProcessingContext,
    odds: Scalar,
)
    ensures
        ({
            let held = ctx.player.has_ball || ctx.ball.in_flight;
            let away = ctx.ball.distance > units(80) && ctx.ball.heading < milli(800);
            &&& held ==> state.process(ctx, odds) == Some(
                with_midfielder_state(MidfielderState::Running),
            )
            &&& !held && ctx.ball.free_kick_encroaching ==> state.process(ctx, odds) == Some(
                with_midfielder_state(MidfielderState::Pressing),
            )
            &&& !held && !ctx.ball.free_kick_encroaching && ctx.ball.distance > units(150)
                ==> state.process(ctx, odds) == Some(
                with_midfielder_state(MidfielderState::Returning),
            )
            &&& !held && !ctx.ball.free_kick_encroaching && ctx.ball.distance <= units(150) && away
                ==> state.process(ctx, odds) == Some(
                with_midfielder_state(
                    if ctx.team.control_ball {
                        MidfielderState::AttackSupporting
                    } else {
                        MidfielderState::Pressing
                    },
                ),
            )
            &&& !held && !ctx.ball.free_kick_encroaching && ctx.ball.distance <= units(150)
                && !away && (
            !ctx.player.can_attempt_tackle || !ctx.team.best_player_to_chase_ball) ==> state.process(
                ctx,
                odds,
            ) == Some(with_midfielder_state(MidfielderState::Pressing))
            &&& !held && !ctx.ball.free_kick_encroaching && ctx.ball.distance <= units(80)
                && ctx.player.can_attempt_tackle && ctx.team.best_player_to_chase_ball
                && ctx.opponent_with_ball() is None ==> if state.can_intercept_ball(ctx) {
                state.process(ctx, odds) matches Some(r) && r.state == PlayerState::Midfielder(
                    MidfielderState::Running,
                ) && r.event == Some(PlayerEvent::ClaimBall { player: ctx.player.id })
            } else {
                state.process(ctx, odds) is None
            }
        }),
{
}

/// Only a loose moving ball on the ground is claimed, met within 8, and never by one who cannot
/// move; the midfielder runs after the ball, the faster the better at tackling.
pub proof fn claims_and_runs(
    state: MidfielderTacklingState,
    ctx: &StateProcessingContext,
    other: &StateProcessingContext,
)
    requires
        ctx.player.skills.technical.tackling <= other.player.skills.technical.tackling,
        ctx.player.skills.physical.acceleration <= other.player.skills.physical.acceleration,
    ensures
        state.can_intercept_ball(ctx) ==> {
            &&& !ctx.ball.in_flight && !ctx.ball.is_owned
            &&& ctx.ball.velocity.magnitude() > milli(100)
            &&& ctx.player.skills.physical.pace != units(0)
            &&& (state.meeting_spot(ctx) - ctx.player.position).magnitude() <= units(8)
        },
        (!ctx.ball.in_flight && !ctx.ball.is_owned && ctx.ball.velocity.magnitude() > milli(100)
            && ctx.player.skills.physical.pace != units(0) && (state.meeting_spot(ctx)
            - ctx.player.position).magnitude() <= units(8)) ==> state.can_intercept_ball(ctx),
        state.velocity(ctx) matches Some(m) && m.steering == Some(
            Steering::Pursuit { target: ctx.ball.position, target_velocity: ctx.ball.velocity },
        ),
        state.velocity(ctx)->0.factor <= state.velocity(other)->0.factor,
{
    part_grows(
        ctx.player.skills.technical.tackling,
        other.player.skills.technical.tackling,
        milli(300),
    );
    part_grows(
        ctx.player.skills.physical.acceleration,
        other.player.skills.physical.acceleration,
        milli(300),
    );
    crate::scalar::one_changes_nothing(
        milli(1300) + share(ctx.player.skills.technical.tackling) * milli(300) + share(
            ctx.player.skills.physical.acceleration,
        ) * milli(300),
    );
    crate::scalar::one_changes_nothing(
        milli(1300) + share(other.player.skills.technical.tackling) * milli(300) + share(
            other.player.skills.physical.acceleration,
        ) * milli(300),
    );
}

/// A moving ball is met further along its way, never behind it; one that the midfielder is at is
/// met where it is.
pub proof fn loose_balls_are_met_ahead(
    state: MidfielderTacklingState,
    ctx: &StateProcessingContext,
)
    requires
        units(0) < ctx.player.skills.physical.pace,
    ensures
        ({
            let spot = state.meeting_spot(ctx);
            let away = (ctx.ball.position - ctx.player.position).magnitude();
            &&& ctx.ball.velocity.is_zero() || away == units(0) ==> spot == ctx.ball.position
            &&& ctx.ball.velocity.direction() matches Some(way) ==> {
                &&& units(0) <= way.x ==> ctx.ball.position.x <= spot.x
                &&& way.x <= units(0) ==> spot.x <= ctx.ball.position.x
                &&& units(0) <= way.y ==> ctx.ball.position.y <= spot.y
                &&& way.y <= units(0) ==> spot.y <= ctx.ball.position.y
                &&& away == ctx.player.skills.physical.pace ==> spot == ctx.ball.position + way
                    * ctx.ball.velocity.magnitude()
            }
        }),
{
    let pace = ctx.player.skills.physical.pace;
    let away = (ctx.ball.position - ctx.player.position).magnitude();
    let time = away / pace;
    crate::vector::length_is_not_negative(ctx.ball.position - ctx.player.position);
    crate::vector::length_is_not_negative(ctx.ball.velocity);
    crate::scalar::quotient_keeps_order(units(0), away, pace);
    crate::scalar::whole_is_one(pace);
    let speed = ctx.ball.velocity.magnitude();
    crate::scalar::product_keeps_sign(speed, time);
    crate::scalar::one_changes_nothing(speed);
    crate::scalar::zero_stays_zero(speed);
    if let Some(way) = ctx.ball.velocity.direction() {
        crate::scalar::product_keeps_sign(way.x, speed * time);
        crate::scalar::product_keeps_sign(way.y, speed * time);
        crate::scalar::zero_stays_zero(way.x);
        crate::scalar::zero_stays_zero(way.y);
        crate::scalar::zero_stays_zero(way.z);
    }
}

} // verus!
