//! A forward who tries to win the ball back.
use crate::context::{share, MatchPlayerLite, StateProcessingContext};
use crate::outcome::{
    arrive, exertion, pursue, with_forward_state, ActivityIntensity, Exertion, ForwardState,
    FoulSeverity, Movement, PlayerEvent, PlayerState, StateChangeResult, Steering,
};
use crate::scalar::{micro, milli, units, Scalar};
use crate::scan;
use crate::vector::{aligned_above, alignment, flat, Vec3};
use vstd::prelude::*;

verus! {

pub open spec fn spec_tackle_distance_threshold() -> Scalar {
    units(8)
}

/// How close the forward has to be to tackle.
#[verifier::when_used_as_spec(spec_tackle_distance_threshold)]
pub fn tackle_distance_threshold() -> (r: Scalar)
    ensures
        r == spec_tackle_distance_threshold(),
{
    units(8)
}

pub open spec fn spec_close_tackle_distance() -> Scalar {
    units(5)
}

/// How close the forward tackles without waiting.
#[verifier::when_used_as_spec(spec_close_tackle_distance)]
pub fn close_tackle_distance() -> (r: Scalar)
    ensures
        r == spec_close_tackle_distance(),
{
    units(5)
}

pub open spec fn spec_chase_distance_threshold() -> Scalar {
    units(100)
}

/// How far the forward chases a ball carrier.
#[verifier::when_used_as_spec(spec_chase_distance_threshold)]
pub fn chase_distance_threshold() -> (r: Scalar)
    ensures
        r == spec_chase_distance_threshold(),
{
    units(100)
}

pub open spec fn spec_pressure_distance() -> Scalar {
    units(20)
}

/// How close the forward presses without tackling.
#[verifier::when_used_as_spec(spec_pressure_distance)]
pub fn pressure_distance() -> (r: Scalar)
    ensures
        r == spec_pressure_distance(),
{
    units(20)
}

pub open spec fn spec_foul_chance_base() -> Scalar {
    milli(150)
}

/// The risk of a foul that every tackle carries.
#[verifier::when_used_as_spec(spec_foul_chance_base)]
pub fn foul_chance_base() -> (r: Scalar)
    ensures
        r == spec_foul_chance_base(),
{
    milli(150)
}

/// How a tackle went.
#[derive(Clone, Copy, PartialEq, Eq, Structural, Debug)]
pub struct TackleAttempt {
    pub success: bool,
    pub foul: bool,
    pub severity: FoulSeverity,
}

#[derive(Default, Clone, Copy)]
pub struct ForwardTacklingState {}

impl ForwardTacklingState {
    pub open spec fn spec_process(
        &self,
        ctx: &StateProcessingContext,
    ) -> Option<StateChangeResult> {
        match self.reason_not_to_tackle(ctx) {
            Some(result) => {
                Some(result)
            },
            None => {
                match self.tackle_target(ctx) {
                    Some(opponent) => {
                        Some(self.settle(ctx, self.attempt_tackle(ctx, opponent)))
                    },
                    None => {
                        if self.keeps_chasing(ctx) {
                            None
                        } else if !ctx.ball.is_owned && self.can_intercept_ball(ctx) {
                            Some(
                                with_forward_state(ForwardState::Running).with_event(
                                    PlayerEvent::ClaimBall { player: ctx.player.id },
                                ),
                            )
                        } else if ctx.team.control_ball
                            && ctx.ball.distance > chase_distance_threshold() {
                            Some(with_forward_state(ForwardState::Returning))
                        } else if ctx.team.control_ball {
                            Some(with_forward_state(ForwardState::Assisting))
                        } else if ctx.ball.distance <= pressure_distance() {
                            Some(with_forward_state(ForwardState::Pressing))
                        } else {
                            None
                        }
                    },
                }
            },
        }
    }

    /// The next state of a tackling forward.
    #[verifier::when_used_as_spec(spec_process)]
    pub fn process(&self, ctx: &StateProcessingContext) -> (r: Option<StateChangeResult>)
        ensures
            r == self.spec_process(ctx),
    {
        match self.reason_not_to_tackle(ctx) {
            Some(result) => {
                return Some(result);
            },
            None => {},
        }
        match self.tackle_target(ctx) {
            Some(opponent) => {
                return Some(self.settle(ctx, self.attempt_tackle(ctx, opponent)));
            },
            None => {},
        }
        if self.keeps_chasing(ctx) {
            return None;
        }
        if !ctx.ball.is_owned && self.can_intercept_ball(ctx) {
            return Some(
                with_forward_state(ForwardState::Running).with_event(
                    PlayerEvent::ClaimBall { player: ctx.player.id },
                ),
            );
        }
        if ctx.team.control_ball && ctx.ball.distance > chase_distance_threshold() {
            return Some(with_forward_state(ForwardState::Returning));
        }
        if ctx.team.control_ball {
            return Some(with_forward_state(ForwardState::Assisting));
        }
        if ctx.ball.distance <= pressure_distance() {
            return Some(with_forward_state(ForwardState::Pressing));
        }
        None
    }

    pub open spec fn spec_reason_not_to_tackle(
        &self,
        ctx: &StateProcessingContext,
    ) -> Option<StateChangeResult> {
        if ctx.player.has_ball {
            Some(with_forward_state(ForwardState::Running))
        } else if ctx.ball.in_flight {
            Some(with_forward_state(ForwardState::Running))
        } else if ctx.ball.free_kick_encroaching {
            Some(with_forward_state(ForwardState::Pressing))
        } else if !ctx.player.can_attempt_tackle {
            Some(with_forward_state(ForwardState::Pressing))
        } else if !ctx.team.best_player_to_chase_ball {
            Some(with_forward_state(ForwardState::Pressing))
        } else if ctx.rolls.tackle_skill >= ctx.curves.tackling_8 {
            Some(with_forward_state(ForwardState::Pressing))
        } else {
            None
        }
    }

    /// The forward has the ball, may not or had better not tackle.
    #[verifier::when_used_as_spec(spec_reason_not_to_tackle)]
    pub fn reason_not_to_tackle(
        &self,
        ctx: &StateProcessingContext,
    ) -> (r: Option<StateChangeResult>)
        ensures
            r == self.spec_reason_not_to_tackle(ctx),
    {
        if ctx.player.has_ball {
            return Some(with_forward_state(ForwardState::Running));
        }
        if ctx.ball.in_flight {
            return Some(with_forward_state(ForwardState::Running));
        }
        // Within the distance of a free kick nobody may challenge for the ball.
        if ctx.ball.free_kick_encroaching {
            return Some(with_forward_state(ForwardState::Pressing));
        }
        if !ctx.player.can_attempt_tackle {
            return Some(with_forward_state(ForwardState::Pressing));
        }
        if !ctx.team.best_player_to_chase_ball {
            return Some(with_forward_state(ForwardState::Pressing));
        }
        if ctx.rolls.tackle_skill >= ctx.curves.tackling_8 {
            return Some(with_forward_state(ForwardState::Pressing));
        }
        None
    }

    pub open spec fn spec_tackle_target(
        &self,
        ctx: &StateProcessingContext,
    ) -> Option<MatchPlayerLite> {
        match ctx.opponent_with_ball() {
            Some(opponent) => if opponent.distance <= close_tackle_distance()
            || (opponent.distance <= tackle_distance_threshold()
                && self.should_attempt_tackle_now(ctx, opponent)) {
                Some(opponent)
            } else {
                None
            },
            None => None,
        }
    }

    /// The ball carrier, where the forward tackles now.
    #[verifier::when_used_as_spec(spec_tackle_target)]
    pub fn tackle_target(&self, ctx: &StateProcessingContext) -> (r: Option<MatchPlayerLite>)
        ensures
            r == self.spec_tackle_target(ctx),
    {
        match ctx.opponent_with_ball() {
            Some(opponent) => if opponent.distance <= close_tackle_distance()
            || (opponent.distance <= tackle_distance_threshold()
                && self.should_attempt_tackle_now(ctx, opponent)) {
                Some(opponent)
            } else {
                None
            },
            None => None,
        }
    }

    pub open spec fn spec_keeps_chasing(&self, ctx: &StateProcessingContext) -> bool {
        match ctx.opponent_with_ball() {
            Some(opponent) => opponent.distance <= tackle_distance_threshold()
            || opponent.distance <= chase_distance_threshold(),
            None => false,
        }
    }

    /// A ball carrier within reach of a chase.
    #[verifier::when_used_as_spec(spec_keeps_chasing)]
    pub fn keeps_chasing(&self, ctx: &StateProcessingContext) -> (r: bool)
        ensures
            r == self.spec_keeps_chasing(ctx),
    {
        match ctx.opponent_with_ball() {
            Some(opponent) => opponent.distance <= tackle_distance_threshold()
            || opponent.distance <= chase_distance_threshold(),
            None => false,
        }
    }

    pub open spec fn spec_settle(
        &self,
        ctx: &StateProcessingContext,
        attempt: TackleAttempt,
    ) -> StateChangeResult {
        if attempt.foul {
            with_forward_state(ForwardState::Standing).with_event(
                PlayerEvent::CommitFoul { player: ctx.player.id, severity: attempt.severity },
            ).with_tackle_cooldown()
        } else if attempt.success && !ctx.ball.in_flight {
            with_forward_state(ForwardState::Running).with_event(
                PlayerEvent::TacklingBall { player: ctx.player.id },
            ).with_tackle_cooldown()
        } else {
            with_forward_state(ForwardState::Pressing).with_tackle_cooldown()
        }
    }

    /// What follows from a tackle: a foul, the ball, or a miss; a pause in any case.
    #[verifier::when_used_as_spec(spec_settle)]
    pub fn settle(
        &self,
        ctx: &StateProcessingContext,
        attempt: TackleAttempt,
    ) -> (r: StateChangeResult)
        ensures
            r == self.spec_settle(ctx, attempt),
    {
        if attempt.foul {
            return with_forward_state(ForwardState::Standing).with_event(
                PlayerEvent::CommitFoul { player: ctx.player.id, severity: attempt.severity },
            ).with_tackle_cooldown();
        }
        if attempt.success && !ctx.ball.in_flight {
            return with_forward_state(ForwardState::Running).with_event(
                PlayerEvent::TacklingBall { player: ctx.player.id },
            ).with_tackle_cooldown();
        }
        with_forward_state(ForwardState::Pressing).with_tackle_cooldown()
    }

    pub open spec fn spec_velocity(&self, ctx: &StateProcessingContext) -> Option<Movement> {
        match ctx.opponent_with_ball() {
            Some(opponent) => {
                if opponent.distance <= tackle_distance_threshold() {
                    Some(arrive(opponent.position, units(1)))
                } else {
                    Some(pursue(opponent.position, flat(units(0), units(0))))
                }
            },
            None => {
                if !ctx.ball.is_owned {
                    Some(pursue(ctx.ball.position, ctx.ball.velocity))
                } else {
                    Some(arrive(ctx.ball.position, units(20)))
                }
            },
        }
    }

    /// Carefully at a ball carrier nearby, after one further away, else after the ball.
    #[verifier::when_used_as_spec(spec_velocity)]
    pub fn velocity(&self, ctx: &StateProcessingContext) -> (r: Option<Movement>)
        ensures
            r == self.spec_velocity(ctx),
    {
        match ctx.opponent_with_ball() {
            Some(opponent) => {
                if opponent.distance <= tackle_distance_threshold() {
                    return Some(arrive(opponent.position, units(1)));
                } else {
                    return Some(pursue(opponent.position, flat(units(0), units(0))));
                }
            },
            None => {},
        }
        if !ctx.ball.is_owned {
            return Some(pursue(ctx.ball.position, ctx.ball.velocity));
        }
        Some(arrive(ctx.ball.position, units(20)))
    }

    pub open spec fn spec_process_conditions(&self) -> Exertion {
        exertion(ActivityIntensity::VeryHigh)
    }

    /// The load of the state.
    #[verifier::when_used_as_spec(spec_process_conditions)]
    pub fn process_conditions(&self) -> (r: Exertion)
        ensures
            r == self.spec_process_conditions(),
    {
        exertion(ActivityIntensity::VeryHigh)
    }

    pub open spec fn spec_should_attempt_tackle_now(
        &self,
        ctx: &StateProcessingContext,
        opponent: MatchPlayerLite,
    ) -> bool {
        let eagerness = ctx.player.tackle_timing;
        if opponent.velocity.magnitude() < milli(500) {
            ctx.rolls.tackle_now < eagerness * milli(1200)
        } else if aligned_above(
            ctx.ball.direction_to_own_goal - opponent.position,
            opponent.velocity,
            milli(500),
        ) {
            ctx.rolls.tackle_now < eagerness * milli(1400)
        } else {
            ctx.rolls.tackle_now < eagerness * milli(800)
        }
    }

    /// Whether the forward goes in now: most likely against a carrier who runs at the own goal,
    /// likely against one who stands, less so otherwise.
    #[verifier::when_used_as_spec(spec_should_attempt_tackle_now)]
    pub fn should_attempt_tackle_now(
        &self,
        ctx: &StateProcessingContext,
        opponent: MatchPlayerLite,
    ) -> (r: bool)
        ensures
            r == self.spec_should_attempt_tackle_now(ctx, opponent),
    {
        let eagerness = ctx.player.tackle_timing;
        if opponent.velocity.magnitude() < milli(500) {
            return ctx.rolls.tackle_now < eagerness * milli(1200);
        }
        if aligned_above(
            ctx.ball.direction_to_own_goal - opponent.position,
            opponent.velocity,
            milli(500),
        ) {
            return ctx.rolls.tackle_now < eagerness * milli(1400);
        }
        ctx.rolls.tackle_now < eagerness * milli(800)
    }

    pub open spec fn spec_distance_factor(&self, opponent: MatchPlayerLite) -> Scalar {
        (
            (tackle_distance_threshold() - opponent.distance) / tackle_distance_threshold()
        ).clamp(units(0), units(1))
    }

    /// How near the tackler is, from 0 at the edge of reach to 1.
    #[verifier::when_used_as_spec(spec_distance_factor)]
    pub fn distance_factor(&self, opponent: MatchPlayerLite) -> (r: Scalar)
        ensures
            r == self.spec_distance_factor(opponent),
    {
        (
            (tackle_distance_threshold() - opponent.distance) / tackle_distance_threshold()
        ).clamp(units(0), units(1))
    }

    pub open spec fn spec_tackle_angle_factor(
        &self,
        ctx: &StateProcessingContext,
        opponent: MatchPlayerLite,
    ) -> Option<Scalar> {
        if opponent.velocity.magnitude() > milli(100) {
            match alignment(opponent.position - ctx.player.position, opponent.velocity) {
                Some(cosine) => Some(units(1) - cosine.abs()),
                None => None,
            }
        } else {
            Some(milli(800))
        }
    }

    /// How good the angle is: best from the side, worst from behind or in front. There is none
    /// at an opponent who moves and is on the forward's very spot.
    #[verifier::when_used_as_spec(spec_tackle_angle_factor)]
    pub fn tackle_angle_factor(
        &self,
        ctx: &StateProcessingContext,
        opponent: MatchPlayerLite,
    ) -> (r: Option<Scalar>)
        ensures
            r == self.spec_tackle_angle_factor(ctx, opponent),
    {
        if opponent.velocity.magnitude() > milli(100) {
            match alignment(opponent.position - ctx.player.position, opponent.velocity) {
                Some(cosine) => Some(units(1) - cosine.abs()),
                None => None,
            }
        } else {
            Some(milli(800))
        }
    }

    pub open spec fn spec_is_from_behind(
        &self,
        ctx: &StateProcessingContext,
        opponent: MatchPlayerLite,
    ) -> bool {
        match self.tackle_angle_factor(ctx, opponent) {
            Some(angle) => angle < milli(300),
            None => false,
        }
    }

    /// The tackle comes from behind or from the front.
    #[verifier::when_used_as_spec(spec_is_from_behind)]
    pub fn is_from_behind(
        &self,
        ctx: &StateProcessingContext,
        opponent: MatchPlayerLite,
    ) -> (r: bool)
        ensures
            r == self.spec_is_from_behind(ctx, opponent),
    {
        match self.tackle_angle_factor(ctx, opponent) {
            Some(angle) => angle < milli(300),
            None => false,
        }
    }

    pub open spec fn spec_success_chance(
        &self,
        ctx: &StateProcessingContext,
        opponent: MatchPlayerLite,
    ) -> Option<Scalar> {
        let evasion = match ctx.by_id(opponent.id) {
            Some(p) => p.dribble_attack,
            None => milli(500),
        };
        let advantage = ctx.player.defensive_duel - evasion;
        match self.tackle_angle_factor(ctx, opponent) {
            Some(angle) => Some(
                (milli(150) + advantage * milli(400)
                    + (self.distance_factor(opponent) * milli(300) + angle * milli(200))).clamp(milli(30), milli(600)),
            ),
            None => None,
        }
    }

    /// The chance of winning the ball; none without an angle.
    #[verifier::when_used_as_spec(spec_success_chance)]
    pub fn success_chance(
        &self,
        ctx: &StateProcessingContext,
        opponent: MatchPlayerLite,
    ) -> (r: Option<Scalar>)
        ensures
            r == self.spec_success_chance(ctx, opponent),
            r is Some <==> self.tackle_angle_factor(ctx, opponent) is Some,
            r matches Some(c) ==> milli(30) <= c && c <= milli(600),
    {
        let evasion = match ctx.by_id(opponent.id) {
            Some(p) => p.dribble_attack,
            None => milli(500),
        };
        let advantage = ctx.player.defensive_duel - evasion;
        match self.tackle_angle_factor(ctx, opponent) {
            Some(angle) => Some(
                (milli(150) + advantage * milli(400)
                    + (self.distance_factor(opponent) * milli(300) + angle * milli(200))).clamp(milli(30), milli(600)),
            ),
            None => None,
        }
    }

    pub open spec fn spec_foul_chance(
        &self,
        ctx: &StateProcessingContext,
        opponent: MatchPlayerLite,
        success: bool,
    ) -> Scalar {
        let aggression_risk = share(ctx.player.skills.mental.aggression) * milli(100);
        let desperation_risk = if ctx.team.losing
            && ctx.time_is_running_out { milli(50) } else { units(0) };
        let protection = share(ctx.player.skills.mental.composure) * milli(50);
        let situation_risk = if self.is_from_behind(ctx, opponent) { milli(80) } else { units(0) };
        let risk = if success {
            (
                foul_chance_base() * milli(300)
            ) + aggression_risk + desperation_risk + situation_risk - protection
        } else {
            foul_chance_base() + aggression_risk + desperation_risk + situation_risk + milli(50)
                - protection
        };
        (risk * ctx.foul_time_compression).clamp(units(0), milli(850))
    }

    /// The risk of a foul: higher after a miss, from behind, with aggression and when time runs
    /// out, lower with composure.
    #[verifier::when_used_as_spec(spec_foul_chance)]
    pub fn foul_chance(
        &self,
        ctx: &StateProcessingContext,
        opponent: MatchPlayerLite,
        success: bool,
    ) -> (r: Scalar)
        ensures
            r == self.spec_foul_chance(ctx, opponent, success),
            units(0) <= r,
            r <= milli(850),
    {
        let aggression_risk = share(ctx.player.skills.mental.aggression) * milli(100);
        let desperation_risk = if ctx.team.losing
            && ctx.time_is_running_out { milli(50) } else { units(0) };
        let protection = share(ctx.player.skills.mental.composure) * milli(50);
        let situation_risk = if self.is_from_behind(ctx, opponent) { milli(80) } else { units(0) };
        let risk = if success {
            (
                foul_chance_base() * milli(300)
            ) + aggression_risk + desperation_risk + situation_risk - protection
        } else {
            foul_chance_base() + aggression_risk + desperation_risk + situation_risk + milli(50)
                - protection
        };
        (risk * ctx.foul_time_compression).clamp(units(0), milli(850))
    }

    pub open spec fn spec_foul_severity(
        &self,
        ctx: &StateProcessingContext,
        opponent: MatchPlayerLite,
        success: bool,
    ) -> FoulSeverity {
        let from_behind = self.is_from_behind(ctx, opponent);
        let aggression = share(ctx.player.skills.mental.aggression);
        if from_behind && aggression > milli(700) && ctx.rolls.violent < milli(20) {
            FoulSeverity::Violent
        } else if !success && (from_behind || aggression > milli(550))
            && ctx.rolls.reckless < milli(350) {
            FoulSeverity::Reckless
        } else {
            FoulSeverity::Normal
        }
    }

    /// How grave a foul is: violent at times from behind with aggression, reckless at times
    /// after a miss.
    #[verifier::when_used_as_spec(spec_foul_severity)]
    pub fn foul_severity(
        &self,
        ctx: &StateProcessingContext,
        opponent: MatchPlayerLite,
        success: bool,
    ) -> (r: FoulSeverity)
        ensures
            r == self.spec_foul_severity(ctx, opponent, success),
    {
        let from_behind = self.is_from_behind(ctx, opponent);
        let aggression = share(ctx.player.skills.mental.aggression);
        if from_behind && aggression > milli(700) && ctx.rolls.violent < milli(20) {
            FoulSeverity::Violent
        } else if !success && (from_behind || aggression > milli(550))
            && ctx.rolls.reckless < milli(350) {
            FoulSeverity::Reckless
        } else {
            FoulSeverity::Normal
        }
    }

    pub open spec fn spec_wins_ball(
        &self,
        ctx: &StateProcessingContext,
        opponent: MatchPlayerLite,
    ) -> bool {
        match self.success_chance(ctx, opponent) {
            Some(chance) => ctx.rolls.tackle < chance,
            None => false,
        }
    }

    /// The ball is won, as chance will have it; never without an angle.
    #[verifier::when_used_as_spec(spec_wins_ball)]
    pub fn wins_ball(&self, ctx: &StateProcessingContext, opponent: MatchPlayerLite) -> (r: bool)
        ensures
            r == self.spec_wins_ball(ctx, opponent),
    {
        match self.success_chance(ctx, opponent) {
            Some(chance) => ctx.rolls.tackle < chance,
            None => false,
        }
    }

    pub open spec fn spec_attempt_tackle(
        &self,
        ctx: &StateProcessingContext,
        opponent: MatchPlayerLite,
    ) -> TackleAttempt {
        let success = self.wins_ball(ctx, opponent);
        let foul = ctx.rolls.foul < self.foul_chance(ctx, opponent, success);
        TackleAttempt {
            success,
            foul,
            severity: if foul {
                self.foul_severity(ctx, opponent, success)
            } else {
                FoulSeverity::Normal
            },
        }
    }

    /// The tackle, as chance will have it.
    #[verifier::when_used_as_spec(spec_attempt_tackle)]
    pub fn attempt_tackle(
        &self,
        ctx: &StateProcessingContext,
        opponent: MatchPlayerLite,
    ) -> (r: TackleAttempt)
        ensures
            r == self.spec_attempt_tackle(ctx, opponent),
    {
        let success = self.wins_ball(ctx, opponent);
        let foul = ctx.rolls.foul < self.foul_chance(ctx, opponent, success);
        TackleAttempt {
            success,
            foul,
            severity: if foul {
                self.foul_severity(ctx, opponent, success)
            } else {
                FoulSeverity::Normal
            },
        }
    }

    pub open spec fn spec_chase_speed(&self, ctx: &StateProcessingContext) -> Scalar {
        share(ctx.player.skills.physical.pace) * units(10)
    }

    /// The speed at which the forward makes for a loose ball.
    #[verifier::when_used_as_spec(spec_chase_speed)]
    pub fn chase_speed(&self, ctx: &StateProcessingContext) -> (r: Scalar)
        ensures
            r == self.spec_chase_speed(ctx),
    {
        share(ctx.player.skills.physical.pace) * units(10)
    }

    pub open spec fn spec_meeting_spot(&self, ctx: &StateProcessingContext) -> Vec3 {
        let time = (ctx.ball.position - ctx.player.position).magnitude() / self.chase_speed(ctx);
        ctx.ball.position + ctx.ball.velocity * time
    }

    /// Where the forward meets a moving ball.
    #[verifier::when_used_as_spec(spec_meeting_spot)]
    pub fn meeting_spot(&self, ctx: &StateProcessingContext) -> (r: Vec3)
        ensures
            r == self.spec_meeting_spot(ctx),
    {
        let time = (ctx.ball.position - ctx.player.position).magnitude() / self.chase_speed(ctx);
        ctx.ball.position + ctx.ball.velocity * time
    }

    pub open spec fn spec_can_intercept_ball(&self, ctx: &StateProcessingContext) -> bool {
        if ctx.ball.is_owned || ctx.ball.in_flight {
            false
        } else if ctx.ball.velocity.magnitude() > milli(500) {
            let meeting = self.meeting_spot(ctx);
            let away = (meeting - ctx.player.position).magnitude();
            self.chase_speed(ctx) != units(0) && away <= tackle_distance_threshold() * units(2)
            && self.beats_opponents(ctx, meeting, away, milli(900))
        } else {
            let away = (ctx.ball.position - ctx.player.position).magnitude();
            away <= tackle_distance_threshold()
                && self.beats_opponents(ctx, ctx.ball.position, away, milli(800))
        }
    }

    /// A loose ball that the forward reaches clearly before every opponent; a moving one is out
    /// of reach for a forward who cannot move.
    #[verifier::when_used_as_spec(spec_can_intercept_ball)]
    pub fn can_intercept_ball(&self, ctx: &StateProcessingContext) -> (r: bool)
        ensures
            r == self.spec_can_intercept_ball(ctx),
    {
        if ctx.ball.is_owned || ctx.ball.in_flight {
            return false;
        }
        if ctx.ball.velocity.magnitude() > milli(500) {
            let meeting = self.meeting_spot(ctx);
            let away = (meeting - ctx.player.position).magnitude();
            self.chase_speed(ctx) != units(0) && away <= tackle_distance_threshold() * units(2)
            && self.beats_opponents(ctx, meeting, away, milli(900))
        } else {
            let away = (ctx.ball.position - ctx.player.position).magnitude();
            away <= tackle_distance_threshold()
                && self.beats_opponents(ctx, ctx.ball.position, away, milli(800))
        }
    }

    pub open spec fn spec_beats_opponents(
        &self,
        ctx: &StateProcessingContext,
        spot: Vec3,
        away: Scalar,
        part: Scalar,
    ) -> bool {
        match scan::least_where(
            ctx.opponents@,
            |o: MatchPlayerLite| true,
            |o: MatchPlayerLite| (spot - o.position).magnitude(),
        ) {
            Some(closest) => away < (spot - closest.position).magnitude() * part,
            None => true,
        }
    }

    /// The forward is nearer to a spot than the given share of every opponent's distance.
    #[verifier::when_used_as_spec(spec_beats_opponents)]
    pub fn beats_opponents(
        &self,
        ctx: &StateProcessingContext,
        spot: Vec3,
        away: Scalar,
        part: Scalar,
    ) -> (r: bool)
        ensures
            r == self.spec_beats_opponents(ctx, spot, away, part),
    {
        match scan::least_of(
            &ctx.opponents,
            |o: MatchPlayerLite| -> (b: bool)
                ensures b == (true)
            {
                true
            },
            |o: MatchPlayerLite| -> (b: Scalar)
                ensures b == ((spot - o.position).magnitude())
            {
                (spot - o.position).magnitude()
            },
            Ghost(|o: MatchPlayerLite| true),
            Ghost(|o: MatchPlayerLite| (spot - o.position).magnitude()),
        ) {
            Some(closest) => away < (spot - closest.position).magnitude() * part,
            None => true,
        }
    }
}

/// A forward who may not tackle never touches the opponent: no foul and no ball come of it.
pub proof fn no_tackle_without_permission(
    state: ForwardTacklingState,
    ctx: &StateProcessingContext,
)
    requires
        ctx.player.has_ball || ctx.ball.in_flight || ctx.ball.free_kick_encroaching
            || !ctx.player.can_attempt_tackle || !ctx.team.best_player_to_chase_ball,
    ensures
        state.process(ctx) matches Some(r) && r.event == None::<PlayerEvent>
            && !r.start_tackle_cooldown,
{
}

/// Only an opponent with the ball is tackled, from within reach.
pub proof fn only_a_carrier_is_tackled(
    state: ForwardTacklingState,
    ctx: &StateProcessingContext,
    opponent: MatchPlayerLite,
)
    requires
        ctx.well_formed(),
        state.tackle_target(ctx) == Some(opponent),
    ensures
        ctx.opponents@.contains(opponent),
        opponent.team_id != ctx.player.team_id,
        ctx.ball.owner_id == Some(opponent.id),
        opponent.position.distance_to(ctx.player.position) <= tackle_distance_threshold(),
{
    scan::first_is_one_of_them(ctx.opponents@, |o: MatchPlayerLite| o.has_ball);
}

/// Every tackle is followed by a pause, and nothing else is.
pub proof fn every_tackle_has_a_pause(state: ForwardTacklingState, ctx: &StateProcessingContext)
    ensures
        (state.process(ctx) matches Some(r) && r.start_tackle_cooldown) <==> (
        state.reason_not_to_tackle(ctx) is None && state.tackle_target(ctx) is Some),
        (state.process(ctx) matches Some(r) && (r.event matches Some(PlayerEvent::CommitFoul { .. })
            || r.event matches Some(PlayerEvent::TacklingBall { .. }))) ==> (state.process(ctx) matches Some(r)
            && r.start_tackle_cooldown),
{
}

impl ForwardTacklingState {
    /// How well a carrier evades a tackle: as the players on the pitch tell, or middling.
    pub open spec fn evasion_of(
        self,
        ctx: &StateProcessingContext,
        opponent: MatchPlayerLite,
    ) -> Scalar {
        match ctx.by_id(opponent.id) {
            Some(p) => p.dribble_attack,
            None => milli(500),
        }
    }
}

/// At the same place and angle the chance of winning the ball does not fall when the tackler is
/// the
/// better and does not rise when the carrier is, and a nearer tackler has no less of one.
pub proof fn better_tacklers_win_more(
    state: ForwardTacklingState,
    ctx: &StateProcessingContext,
    other: &StateProcessingContext,
    opponent: MatchPlayerLite,
    rival: MatchPlayerLite,
)
    requires
        ctx.player.defensive_duel <= other.player.defensive_duel,
        state.evasion_of(other, rival) <= state.evasion_of(ctx, opponent),
        rival.distance <= opponent.distance,
        state.tackle_angle_factor(ctx, opponent) == state.tackle_angle_factor(other, rival),
        state.success_chance(ctx, opponent) matches Some(chance),
    ensures
        state.success_chance(other, rival) matches Some(chance)
            && state.success_chance(ctx, opponent)->0
            <= chance,
{
    let a = ctx.player.defensive_duel - state.evasion_of(ctx, opponent);
    let b = other.player.defensive_duel - state.evasion_of(other, rival);
    crate::scalar::scaling_keeps_order(a, b, milli(400));
    nearer_tacklers(state, rival, opponent);
    crate::scalar::scaling_keeps_order(
        state.distance_factor(opponent),
        state.distance_factor(rival),
        milli(300),
    );
}

/// The nearer the tackler, the greater the share of the reach that is left.
proof fn nearer_tacklers(state: ForwardTacklingState, near: MatchPlayerLite, far: MatchPlayerLite)
    requires
        near.distance <= far.distance,
    ensures
        state.distance_factor(far) <= state.distance_factor(near),
{
    crate::scalar::quotient_keeps_order(
        tackle_distance_threshold() - far.distance,
        tackle_distance_threshold() - near.distance,
        tackle_distance_threshold(),
    );
}

/// An even duel gives the chance of the place alone; a better tackler has more than that, a poorer
/// one less, as far as the limits of 0.03 and 0.6 leave room.
pub proof fn duels_are_won_by_the_better(
    state: ForwardTacklingState,
    ctx: &StateProcessingContext,
    opponent: MatchPlayerLite,
    angle: Scalar,
)
    requires
        state.tackle_angle_factor(ctx, opponent) == Some(angle),
        angle.is_between(units(0), units(1)),
        ctx.player.defensive_duel.is_between(units(0), units(1)),
        state.evasion_of(ctx, opponent).is_between(units(0), units(1)),
    ensures
        ({
            let even = milli(150) + (
                state.distance_factor(opponent) * milli(300) + angle * milli(200)
            );
            let chance = state.success_chance(ctx, opponent)->0;
            let gap = ctx.player.defensive_duel - state.evasion_of(ctx, opponent);
            &&& state.success_chance(ctx, opponent) is Some
            &&& gap == units(0) && even <= milli(600) ==> chance == even
            &&& gap >= milli(10) && even < milli(600) ==> chance > even
            &&& gap.raw <= -10_000 && even <= milli(600) ==> chance < even
            &&& even.is_between(milli(150), milli(650))
        }),
{
    let gap = ctx.player.defensive_duel - state.evasion_of(ctx, opponent);
    let near = state.distance_factor(opponent);
    crate::scalar::scaling_keeps_order(units(0), near, milli(300));
    crate::scalar::scaling_keeps_order(near, units(1), milli(300));
    crate::scalar::scaling_keeps_order(units(0), angle, milli(200));
    crate::scalar::scaling_keeps_order(angle, units(1), milli(200));
    assert((units(1) * milli(300)) == milli(300)) by {
        crate::scalar::one_changes_nothing(milli(300));
    }
    assert((units(1) * milli(200)) == milli(200)) by {
        crate::scalar::one_changes_nothing(milli(200));
    }
    if gap >= milli(10) {
        crate::scalar::scaling_keeps_order(milli(10), gap, milli(400));
        crate::scalar::thousandths_of(milli(10), 400);
    }
    if gap.raw <= -10_000 {
        crate::scalar::scaling_keeps_order(gap, milli(10).negated(), milli(400));
        assert((milli(10).negated() * milli(400)).raw == -4000);
    }
    if gap == units(0) {
        assert((gap * milli(400)).raw == 0);
    }
}

/// The tackle is from the side at its best, and at its worst along the way that the opponent runs;
/// one who hardly moves is tackled at a good angle. What is left of the reach falls with the
/// distance, from all of it at the ball to nothing at its end.
pub proof fn angles_and_reach(
    state: ForwardTacklingState,
    ctx: &StateProcessingContext,
    opponent: MatchPlayerLite,
)
    ensures
        opponent.velocity.magnitude() <= milli(100) ==> state.tackle_angle_factor(ctx, opponent)
            == Some(
            milli(800),
        ),
        opponent.velocity.magnitude() > milli(100) ==> match alignment(
            opponent.position - ctx.player.position,
            opponent.velocity,
        ) {
            Some(cosine) => cosine.is_between(units(1).negated(), units(1)) ==> (
            state.tackle_angle_factor(ctx, opponent) matches Some(angle) && angle.raw + (if cosine.raw < 0 {
                -cosine.raw
            } else {
                cosine.raw as int
            }) == 1_000_000),
            None => state.tackle_angle_factor(ctx, opponent) is None,
        },
        opponent.distance == units(0) ==> state.distance_factor(opponent) == units(1),
        opponent.distance >= units(8)
            && opponent.distance <= units(100_000) ==> state.distance_factor(
            opponent,
        ) == units(0),
        opponent.distance == units(4) ==> state.distance_factor(opponent) == milli(500),
{
    if opponent.distance >= units(8) && opponent.distance <= units(100_000) {
        crate::scalar::quotient_keeps_order(
            tackle_distance_threshold() - opponent.distance,
            units(0),
            tackle_distance_threshold(),
        );
    }
}

/// The ball is won exactly on a draw below the chance; a tackle on which both a foul and the ball
/// are drawn is a foul.
pub proof fn draws_decide_tackles(
    state: ForwardTacklingState,
    ctx: &StateProcessingContext,
    opponent: MatchPlayerLite,
)
    requires
        !ctx.player.has_ball,
        !ctx.ball.in_flight,
        !ctx.ball.free_kick_encroaching,
        ctx.player.can_attempt_tackle,
        ctx.team.best_player_to_chase_ball,
        ctx.rolls.tackle_skill < ctx.curves.tackling_8,
        ctx.opponent_with_ball() == Some(opponent),
        opponent.distance <= units(5),
    ensures
        ({
            let won = state.success_chance(ctx, opponent) matches Some(chance)
                && ctx.rolls.tackle < chance;
            let foul = ctx.rolls.foul < state.foul_chance(ctx, opponent, won);
            state.process(ctx) matches Some(r) && r.start_tackle_cooldown
                && r.shot_reason is None && (
            if foul {
                r.state == PlayerState::Forward(ForwardState::Standing) && (r.event matches Some(
                    PlayerEvent::CommitFoul { player, .. },
                ) && player == ctx.player.id)
            } else if won {
                r.state == PlayerState::Forward(ForwardState::Running) && r.event == Some(
                    PlayerEvent::TacklingBall { player: ctx.player.id },
                )
            } else {
                r.state == PlayerState::Forward(ForwardState::Pressing) && r.event is None
            })
        }),
{
}

/// Who may not or had better not tackle runs with the ball or under a high one, and else presses.
pub proof fn others_press(state: ForwardTacklingState, ctx: &StateProcessingContext)
    ensures
        ctx.player.has_ball || ctx.ball.in_flight ==> state.process(ctx) == Some(
            with_forward_state(ForwardState::Running),
        ),
        (!ctx.player.has_ball && !ctx.ball.in_flight && (ctx.ball.free_kick_encroaching
            || !ctx.player.can_attempt_tackle || !ctx.team.best_player_to_chase_ball
            || ctx.rolls.tackle_skill >= ctx.curves.tackling_8)) ==> state.process(ctx) == Some(
            with_forward_state(ForwardState::Pressing),
        ),
{
}

/// A carrier who is out of reach of a tackle but not of a chase is chased; without one, a loose
/// ball that is there to be had is claimed, and else the forward falls back or helps out with the
/// ball in the own team, presses close by, and waits otherwise.
pub proof fn chases_and_claims(state: ForwardTacklingState, ctx: &StateProcessingContext)
    requires
        !ctx.player.has_ball,
        !ctx.ball.in_flight,
        !ctx.ball.free_kick_encroaching,
        ctx.player.can_attempt_tackle,
        ctx.team.best_player_to_chase_ball,
        ctx.rolls.tackle_skill < ctx.curves.tackling_8,
    ensures
        (
            ctx.opponent_with_ball() matches Some(o) && o.distance > units(8)
                && o.distance <= units(100)
        )
            ==> state.process(ctx) is None,
        ctx.opponent_with_ball() is None ==> if !ctx.ball.is_owned
            && state.can_intercept_ball(ctx) {
            state.process(ctx) matches Some(r)
                && r.state == PlayerState::Forward(ForwardState::Running)
                && r.event == Some(PlayerEvent::ClaimBall { player: ctx.player.id })
        } else if ctx.team.control_ball {
            state.process(ctx) == Some(
                with_forward_state(
                    if ctx.ball.distance > units(100) {
                        ForwardState::Returning
                    } else {
                        ForwardState::Assisting
                    },
                ),
            )
        } else if ctx.ball.distance <= units(20) {
            state.process(ctx) == Some(with_forward_state(ForwardState::Pressing))
        } else {
            state.process(ctx) is None
        },
{
}

/// The risk of a foul is no lower after a miss than after a ball that is won, grows with
/// aggression
/// and falls with composure; behind late in the match it is no lower either.
#[verifier::rlimit(40)]
#[verifier::spinoff_prover]
pub proof fn fouls_have_their_reasons(
    state: ForwardTacklingState,
    ctx: &StateProcessingContext,
    other: &StateProcessingContext,
    opponent: MatchPlayerLite,
    success: bool,
)
    requires
        units(0) <= ctx.foul_time_compression,
        ctx.foul_time_compression == other.foul_time_compression,
        state.is_from_behind(ctx, opponent) ==> state.is_from_behind(other, opponent),
        ctx.team.losing && ctx.time_is_running_out ==> other.team.losing
            && other.time_is_running_out,
        ctx.player.skills.mental.aggression <= other.player.skills.mental.aggression,
        other.player.skills.mental.composure <= ctx.player.skills.mental.composure,
    ensures
        state.foul_chance(ctx, opponent, success) <= state.foul_chance(other, opponent, success),
        state.foul_chance(ctx, opponent, true) <= state.foul_chance(other, opponent, false),
{
    crate::scalar::quotient_keeps_order(
        ctx.player.skills.mental.aggression,
        other.player.skills.mental.aggression,
        units(20),
    );
    crate::scalar::quotient_keeps_order(
        other.player.skills.mental.composure,
        ctx.player.skills.mental.composure,
        units(20),
    );
    let a = share(ctx.player.skills.mental.aggression) * milli(100);
    let b = share(other.player.skills.mental.aggression) * milli(100);
    crate::scalar::scaling_keeps_order(
        share(ctx.player.skills.mental.aggression),
        share(other.player.skills.mental.aggression),
        milli(100),
    );
    let p = share(ctx.player.skills.mental.composure) * milli(50);
    let q = share(other.player.skills.mental.composure) * milli(50);
    crate::scalar::scaling_keeps_order(
        share(other.player.skills.mental.composure),
        share(ctx.player.skills.mental.composure),
        milli(50),
    );
    let d = if ctx.team.losing && ctx.time_is_running_out {
        milli(50)
    } else {
        units(0)
    };
    let e = if other.team.losing && other.time_is_running_out {
        milli(50)
    } else {
        units(0)
    };
    let s = if state.is_from_behind(ctx, opponent) {
        milli(80)
    } else {
        units(0)
    };
    let u = if state.is_from_behind(other, opponent) {
        milli(80)
    } else {
        units(0)
    };
    risks_keep_order(a, b, d, e, s, u, p, q);
    let base = foul_chance_base();
    let part = base * milli(300);
    crate::scalar::scaling_keeps_order(
        part + a + d + s - p,
        part + b + e + u - q,
        ctx.foul_time_compression,
    );
    crate::scalar::scaling_keeps_order(
        base + a + d + s + milli(50) - p,
        base + b + e + u + milli(50) - q,
        ctx.foul_time_compression,
    );
    crate::scalar::scaling_keeps_order(
        part + a + d + s - p,
        base + b + e + u + milli(50) - q,
        ctx.foul_time_compression,
    );
}

/// More of what makes a foul, and less of what does not, makes no less risk; after a miss the risk
/// is no lower.
proof fn risks_keep_order(
    a: Scalar,
    b: Scalar,
    d: Scalar,
    e: Scalar,
    s: Scalar,
    u: Scalar,
    p: Scalar,
    q: Scalar,
)
    requires
        a <= b,
        d <= e,
        s <= u,
        q <= p,
    ensures
        ({
            let base = foul_chance_base();
            let part = base * milli(300);
            &&& part + a + d + s - p <= part + b + e + u - q
            &&& base + a + d + s + milli(50) - p <= base + b + e + u + milli(50) - q
            &&& part + a + d + s - p <= base + b + e + u + milli(50) - q
        }),
{
    crate::scalar::thousandths_of(foul_chance_base(), 300);
}

/// Only an aggressive tackle from behind is ever violent, and only a miss reckless; a higher draw
/// makes a foul no graver.
pub proof fn grave_fouls_are_rare(
    state: ForwardTacklingState,
    ctx: &StateProcessingContext,
    opponent: MatchPlayerLite,
    success: bool,
)
    ensures
        state.foul_severity(ctx, opponent, success)
            == FoulSeverity::Violent <==> state.is_from_behind(
            ctx,
            opponent,
        ) && share(ctx.player.skills.mental.aggression) > milli(700)
            && ctx.rolls.violent < milli(20),
        state.foul_severity(ctx, opponent, true) != FoulSeverity::Reckless,
        ctx.rolls.reckless >= milli(350) && ctx.rolls.violent >= milli(20) ==> state.foul_severity(
            ctx,
            opponent,
            success,
        ) == FoulSeverity::Normal,
        (
            !state.is_from_behind(ctx, opponent)
                && share(ctx.player.skills.mental.aggression) <= milli(550)
        )
            ==> state.foul_severity(ctx, opponent, success) == FoulSeverity::Normal,
        (state.is_from_behind(ctx, opponent) && ctx.rolls.violent >= milli(20) && ctx.rolls.reckless
            < milli(350)) ==> state.foul_severity(ctx, opponent, false) == FoulSeverity::Reckless,
{
}

/// A better timed forward goes in no less often, and most readily against a carrier who runs at
/// the own goal.
pub proof fn timing_pays(
    state: ForwardTacklingState,
    ctx: &StateProcessingContext,
    other: &StateProcessingContext,
    opponent: MatchPlayerLite,
    rival: MatchPlayerLite,
)
    requires
        ctx.rolls.tackle_now == other.rolls.tackle_now,
        ctx.ball == other.ball,
        units(0) <= ctx.player.tackle_timing,
        ctx.player.tackle_timing <= other.player.tackle_timing,
        state.should_attempt_tackle_now(ctx, opponent),
    ensures
        state.should_attempt_tackle_now(other, opponent),
        (rival.velocity.magnitude() >= milli(500) && aligned_above(
            ctx.ball.direction_to_own_goal - rival.position,
            rival.velocity,
            milli(500),
        )) ==> state.should_attempt_tackle_now(ctx, rival),
        (opponent.velocity.magnitude() >= milli(500) && !aligned_above(
            ctx.ball.direction_to_own_goal - opponent.position,
            opponent.velocity,
            milli(500),
        ) && rival.velocity.magnitude() < milli(500)) ==> state.should_attempt_tackle_now(ctx, rival),
{
    let a = ctx.player.tackle_timing;
    let b = other.player.tackle_timing;
    crate::scalar::scaling_keeps_order(a, b, milli(1200));
    crate::scalar::scaling_keeps_order(a, b, milli(1400));
    crate::scalar::scaling_keeps_order(a, b, milli(800));
    crate::scalar::product_keeps_order(a, milli(1200), milli(1400));
    crate::scalar::product_keeps_order(a, milli(800), milli(1400));
    crate::scalar::product_keeps_order(a, milli(800), milli(1200));
}

/// A loose ball is had only on the ground, close to where it is met, and by a forward clearly
/// nearer to it than every opponent.
pub proof fn loose_balls_go_to_the_nearest(
    state: ForwardTacklingState,
    ctx: &StateProcessingContext,
    o: MatchPlayerLite,
)
    requires
        ctx.opponents@.contains(o),
        ctx.ball.velocity.magnitude() <= milli(500),
    ensures
        state.can_intercept_ball(ctx) ==> {
            let away = (ctx.ball.position - ctx.player.position).magnitude();
            &&& !ctx.ball.is_owned && !ctx.ball.in_flight
            &&& away <= units(8)
            &&& away < (ctx.ball.position - o.position).magnitude() * milli(800)
        },
{
    let spot = ctx.ball.position;
    let k = |o: MatchPlayerLite| (spot - o.position).magnitude();
    scan::least_is_least(ctx.opponents@, |o: MatchPlayerLite| true, k);
    let closest = scan::least_where(ctx.opponents@, |o: MatchPlayerLite| true, k)->0;
    assert(k(closest) <= k(o));
    crate::scalar::scaling_keeps_order(k(closest), k(o), milli(800));
}

/// A forward alone on the ball, with nobody else around, has it where it lies within reach.
pub proof fn balls_at_hand_are_had(state: ForwardTacklingState, ctx: &StateProcessingContext)
    requires
        ctx.opponents@.len() == 0,
        ctx.ball.velocity.magnitude() <= milli(500),
    ensures
        state.can_intercept_ball(ctx) <==> !ctx.ball.is_owned && !ctx.ball.in_flight && (ctx.ball.position
            - ctx.player.position).magnitude() <= units(8),
{
    let spot = ctx.ball.position;
    let k = |o: MatchPlayerLite| (spot - o.position).magnitude();
    scan::least_is_least(ctx.opponents@, |o: MatchPlayerLite| true, k);
    if let Some(m) = scan::least_where(ctx.opponents@, |o: MatchPlayerLite| true, k) {
        assert(ctx.opponents@.contains(m));
    }
}

/// The forward goes carefully at a carrier close by, after one further away, and after a loose
/// ball.
pub proof fn runs_at_the_ball(state: ForwardTacklingState, ctx: &StateProcessingContext)
    ensures
        state.velocity(ctx) matches Some(m) && m.factor == units(1)
            && match ctx.opponent_with_ball() {
            Some(o) => if o.distance <= units(8) {
                m.steering == Some(
                    Steering::Arrive { target: o.position, slowing_distance: units(1) },
                )
            } else {
                m.steering matches Some(Steering::Pursuit { target, .. }) && target == o.position
            },
            None => if ctx.ball.is_owned {
                m.steering matches Some(Steering::Arrive { target, .. })
                    && target == ctx.ball.position
            } else {
                m.steering == Some(
                    Steering::Pursuit {
                        target: ctx.ball.position,
                        target_velocity: ctx.ball.velocity,
                    },
                )
            },
        },
{
}

/// The tackler closes in with care on a carrier within reach, runs straight at one further off,
/// and
/// else goes after the ball: where it will be while it is loose.
pub proof fn tacklers_close_in(state: ForwardTacklingState, ctx: &StateProcessingContext)
    ensures
        ctx.opponent_with_ball() matches Some(o) ==> (if o.distance <= tackle_distance_threshold() {
            state.velocity(ctx) == Some(arrive(o.position, units(1)))
        } else {
            state.velocity(ctx) matches Some(m) && m.steering == Some(
                Steering::Pursuit {
                    target: o.position,
                    target_velocity: flat(units(0), units(0)),
                },
            )
        }),
        ctx.opponent_with_ball() is None && !ctx.ball.is_owned ==> state.velocity(ctx) == Some(
            pursue(ctx.ball.position, ctx.ball.velocity),
        ),
        ctx.opponent_with_ball() is None && ctx.ball.is_owned ==> state.velocity(ctx) == Some(
            arrive(ctx.ball.position, units(20)),
        ),
{
}

/// A moving ball is met further along its way, never behind it; a forward of full pace who is ten
/// from it meets it after one step, and one twenty from it after two.
pub proof fn loose_balls_are_met_ahead(state: ForwardTacklingState, ctx: &StateProcessingContext)
    requires
        units(0) < ctx.player.skills.physical.pace,
        ctx.player.skills.physical.pace <= units(20),
        micro(20) <= ctx.player.skills.physical.pace,
    ensures
        ({
            let spot = state.meeting_spot(ctx);
            let v = ctx.ball.velocity;
            let away = (ctx.ball.position - ctx.player.position).magnitude();
            let full = ctx.player.skills.physical.pace == units(20);
            &&& units(0) <= v.x ==> ctx.ball.position.x <= spot.x
            &&& v.x <= units(0) ==> spot.x <= ctx.ball.position.x
            &&& units(0) <= v.y ==> ctx.ball.position.y <= spot.y
            &&& v.y <= units(0) ==> spot.y <= ctx.ball.position.y
            &&& full ==> state.chase_speed(ctx) == units(10)
            &&& full && away == units(10) ==> spot == ctx.ball.position + v * units(1)
            &&& full && away == units(20) ==> spot == ctx.ball.position + v * units(2)
        }),
{
    let pace = ctx.player.skills.physical.pace;
    crate::scalar::quotient_keeps_order(micro(20), pace, units(20));
    crate::scalar::whole_is_one(units(20));
    crate::scalar::multiple_is_exact(share(pace), 10);
    crate::scalar::whole_is_one(units(10));
    assert(20_000_000int * 1_000_000 / 10_000_000 == 2_000_000);
    assert(units(20) / units(10) == units(2));
    let speed = state.chase_speed(ctx);
    let away = (ctx.ball.position - ctx.player.position).magnitude();
    crate::vector::length_is_not_negative(ctx.ball.position - ctx.player.position);
    crate::scalar::quotient_keeps_order(units(0), away, speed);
    crate::scalar::whole_is_one(speed);
    let time = away / speed;
    crate::scalar::product_keeps_sign(ctx.ball.velocity.x, time);
    crate::scalar::product_keeps_sign(ctx.ball.velocity.y, time);
}

} // verus!
