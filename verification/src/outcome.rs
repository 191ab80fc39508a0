//! What a player's state machine asks for: a new state, an event, a movement.
use crate::scalar::{units, Scalar};
use crate::vector::{flat, Vec3};
use vstd::prelude::*;

verus! {

/// The states of a forward.
#[derive(Clone, Copy, PartialEq, Eq, Structural, Debug)]
pub enum ForwardState {
    Standing,
    Walking,
    Running,
    Resting,
    Passing,
    Dribbling,
    Shooting,
    Heading,
    Crossing,
    CrossReceiving,
    CornerRun,
    CreatingSpace,
    RunningInBehind,
    Assisting,
    Pressing,
    Tackling,
    Intercepting,
    TakeBall,
    Returning,
}

/// The states of a midfielder.
#[derive(Clone, Copy, PartialEq, Eq, Structural, Debug)]
pub enum MidfielderState {
    Standing,
    Walking,
    Running,
    Passing,
    Dribbling,
    Shooting,
    DistanceShooting,
    Heading,
    Crossing,
    CornerRun,
    CreatingSpace,
    AttackSupporting,
    SwitchingPlay,
    Pressing,
    Tackling,
    Intercepting,
    Guarding,
    TakeBall,
    Returning,
}

/// The states of a goalkeeper.
#[derive(Clone, Copy, PartialEq, Eq, Structural, Debug)]
pub enum GoalkeeperState {
    Standing,
    Walking,
    Passing,
    Clearing,
    Distributing,
    HoldingBall,
    Catching,
    Punching,
    Diving,
    PreparingForSave,
    ComingOut,
    TakeBall,
    ReturningToGoal,
}

/// The state of a player of any role.
#[derive(Clone, Copy, PartialEq, Eq, Structural, Debug)]
pub enum PlayerState {
    Forward(ForwardState),
    Midfielder(MidfielderState),
    Goalkeeper(GoalkeeperState),
}

/// How grave a foul is.
#[derive(Clone, Copy, PartialEq, Eq, Structural, Debug)]
pub enum FoulSeverity {
    Normal,
    Reckless,
    Violent,
}

/// How the ball is struck in a shot.
#[derive(Clone, Copy, PartialEq, Eq, Structural, Debug)]
pub enum ShotType {
    Normal,
    Header,
}

/// What happens on the pitch beside the change of state.
#[derive(Clone, Copy, PartialEq, Eq, Debug)]
pub enum PlayerEvent {
    /// A pass between two players, to a spot where one is named.
    PassTo { from: u32, to: u32, target: Option<Vec3>, reason: &'static str },
    /// A shot of a player at a spot.
    Shoot { player: u32, spot: Vec3, shot_type: ShotType, reason: &'static str },
    ClaimBall { player: u32 },
    TacklingBall { player: u32 },
    CommitFoul { player: u32, severity: FoulSeverity },
    /// The ball is cleared with the given velocity.
    ClearBall { velocity: Vec3 },
    CaughtBall { player: u32 },
}

/// The outcome of one step of a state machine.
#[derive(Clone, Copy, PartialEq, Eq, Debug)]
pub struct StateChangeResult {
    pub state: PlayerState,
    pub event: Option<PlayerEvent>,
    pub shot_reason: Option<&'static str>,
    pub start_tackle_cooldown: bool,
}

pub open spec fn bare(state: PlayerState) -> StateChangeResult {
    StateChangeResult { state, event: None, shot_reason: None, start_tackle_cooldown: false }
}

pub open spec fn spec_with_forward_state(state: ForwardState) -> StateChangeResult {
    bare(PlayerState::Forward(state))
}

/// A forward goes over to `state`.
#[verifier::when_used_as_spec(spec_with_forward_state)]
pub fn with_forward_state(state: ForwardState) -> (r: StateChangeResult)
    ensures
        r == spec_with_forward_state(state),
{
    StateChangeResult {
        state: PlayerState::Forward(state),
        event: None,
        shot_reason: None,
        start_tackle_cooldown: false,
    }
}

pub open spec fn spec_with_midfielder_state(state: MidfielderState) -> StateChangeResult {
    bare(PlayerState::Midfielder(state))
}

/// A midfielder goes over to `state`.
#[verifier::when_used_as_spec(spec_with_midfielder_state)]
pub fn with_midfielder_state(state: MidfielderState) -> (r: StateChangeResult)
    ensures
        r == spec_with_midfielder_state(state),
{
    StateChangeResult {
        state: PlayerState::Midfielder(state),
        event: None,
        shot_reason: None,
        start_tackle_cooldown: false,
    }
}

pub open spec fn spec_with_goalkeeper_state(state: GoalkeeperState) -> StateChangeResult {
    bare(PlayerState::Goalkeeper(state))
}

/// A goalkeeper goes over to `state`.
#[verifier::when_used_as_spec(spec_with_goalkeeper_state)]
pub fn with_goalkeeper_state(state: GoalkeeperState) -> (r: StateChangeResult)
    ensures
        r == spec_with_goalkeeper_state(state),
{
    StateChangeResult {
        state: PlayerState::Goalkeeper(state),
        event: None,
        shot_reason: None,
        start_tackle_cooldown: false,
    }
}

impl StateChangeResult {
    pub open spec fn spec_with_event(self, event: PlayerEvent) -> StateChangeResult {
        StateChangeResult { event: Some(event), ..self }
    }

    /// The same outcome with an event.
    #[verifier::when_used_as_spec(spec_with_event)]
    pub fn with_event(self, event: PlayerEvent) -> (r: StateChangeResult)
        ensures
            r == self.spec_with_event(event),
    {
        StateChangeResult { event: Some(event), ..self }
    }

    pub open spec fn spec_with_shot_reason(self, reason: &'static str) -> StateChangeResult {
        StateChangeResult { shot_reason: Some(reason), ..self }
    }

    /// The same outcome with the reason of the shot that follows.
    #[verifier::when_used_as_spec(spec_with_shot_reason)]
    pub fn with_shot_reason(self, reason: &'static str) -> (r: StateChangeResult)
        ensures
            r == self.spec_with_shot_reason(reason),
    {
        StateChangeResult { shot_reason: Some(reason), ..self }
    }

    pub open spec fn spec_with_tackle_cooldown(self) -> StateChangeResult {
        StateChangeResult { start_tackle_cooldown: true, ..self }
    }

    /// The same outcome; the player may not tackle again for a while.
    #[verifier::when_used_as_spec(spec_with_tackle_cooldown)]
    pub fn with_tackle_cooldown(self) -> (r: StateChangeResult)
        ensures
            r == self.spec_with_tackle_cooldown(),
    {
        StateChangeResult { start_tackle_cooldown: true, ..self }
    }
}

pub open spec fn spec_pass_to(from: u32, to: u32, reason: &'static str) -> PlayerEvent {
    PlayerEvent::PassTo { from, to, target: None, reason }
}

/// A pass to a player.
#[verifier::when_used_as_spec(spec_pass_to)]
pub fn pass_to(from: u32, to: u32, reason: &'static str) -> (r: PlayerEvent)
    ensures
        r == spec_pass_to(from, to, reason),
{
    PlayerEvent::PassTo { from, to, target: None, reason }
}

/// A way of moving that the physics of the match works out.
#[derive(Clone, Copy, PartialEq, Eq, Structural, Debug)]
pub enum Steering {
    /// Run to a spot at full speed.
    Seek { target: Vec3 },
    /// Run to a spot and slow down on the last stretch.
    Arrive { target: Vec3, slowing_distance: Scalar },
    /// Run to a spot that is not a number and slow down on the last stretch.
    ArriveNowhere { slowing_distance: Scalar },
    /// Run to where a moving target will be.
    Pursuit { target: Vec3, target_velocity: Vec3 },
    /// Run along the waypoints of the player.
    FollowPath { path_offset: Scalar },
    /// Stroll about a spot.
    Wander { target: Vec3, radius: Scalar, jitter: Scalar, distance: Scalar, angle: Scalar },
}

/// A velocity: that of the steering times a factor, plus a fixed one, cut to the top speed where
/// one is named. A fixed one that rests on a missing direction is not a number: it is none.
#[derive(Clone, Copy, PartialEq, Eq, Structural, Debug)]
pub struct Movement {
    pub steering: Option<Steering>,
    pub factor: Scalar,
    pub extra: Option<Vec3>,
    pub top_speed: Option<Scalar>,
}

pub open spec fn spec_steer(steering: Steering) -> Movement {
    Movement {
        steering: Some(steering),
        factor: units(1),
        extra: Some(flat(units(0), units(0))),
        top_speed: None,
    }
}

/// The velocity of a steering as it comes.
#[verifier::when_used_as_spec(spec_steer)]
pub fn steer(steering: Steering) -> (r: Movement)
    ensures
        r == spec_steer(steering),
{
    Movement {
        steering: Some(steering),
        factor: units(1),
        extra: Some(flat(units(0), units(0))),
        top_speed: None,
    }
}

pub open spec fn spec_glide(velocity: Vec3) -> Movement {
    glide_if_any(Some(velocity))
}

/// A fixed velocity.
#[verifier::when_used_as_spec(spec_glide)]
pub fn glide(velocity: Vec3) -> (r: Movement)
    ensures
        r == spec_glide(velocity),
{
    glide_if_any(Some(velocity))
}

pub open spec fn spec_glide_if_any(velocity: Option<Vec3>) -> Movement {
    Movement { steering: None, factor: units(1), extra: velocity, top_speed: None }
}

/// A fixed velocity, or one that is not a number.
#[verifier::when_used_as_spec(spec_glide_if_any)]
pub fn glide_if_any(velocity: Option<Vec3>) -> (r: Movement)
    ensures
        r == spec_glide_if_any(velocity),
{
    Movement { steering: None, factor: units(1), extra: velocity, top_speed: None }
}

pub open spec fn spec_glide_along(direction: Option<Vec3>, speed: Scalar) -> Movement {
    match direction {
        Some(way) => glide(way * speed),
        None => glide_if_any(None),
    }
}

/// A fixed speed in a direction; not a number where there is none.
#[verifier::when_used_as_spec(spec_glide_along)]
pub fn glide_along(direction: Option<Vec3>, speed: Scalar) -> (r: Movement)
    ensures
        r == spec_glide_along(direction, speed),
{
    match direction {
        Some(way) => glide(way * speed),
        None => glide_if_any(None),
    }
}

pub open spec fn spec_still() -> Movement {
    glide(flat(units(0), units(0)))
}

/// No movement.
#[verifier::when_used_as_spec(spec_still)]
pub fn still() -> (r: Movement)
    ensures
        r == spec_still(),
{
    glide(flat(units(0), units(0)))
}

pub open spec fn spec_arrive(target: Vec3, slowing_distance: Scalar) -> Movement {
    steer(Steering::Arrive { target, slowing_distance })
}

/// Run to a spot and slow down on the last stretch.
#[verifier::when_used_as_spec(spec_arrive)]
pub fn arrive(target: Vec3, slowing_distance: Scalar) -> (r: Movement)
    ensures
        r == spec_arrive(target, slowing_distance),
{
    steer(Steering::Arrive { target, slowing_distance })
}

pub open spec fn spec_arrive_if_any(target: Option<Vec3>, slowing_distance: Scalar) -> Movement {
    match target {
        Some(spot) => arrive(spot, slowing_distance),
        None => steer(Steering::ArriveNowhere { slowing_distance }),
    }
}

/// Run to a spot, if it is a number, and slow down on the last stretch.
#[verifier::when_used_as_spec(spec_arrive_if_any)]
pub fn arrive_if_any(target: Option<Vec3>, slowing_distance: Scalar) -> (r: Movement)
    ensures
        r == spec_arrive_if_any(target, slowing_distance),
{
    match target {
        Some(spot) => arrive(spot, slowing_distance),
        None => steer(Steering::ArriveNowhere { slowing_distance }),
    }
}

pub open spec fn spec_pursue(target: Vec3, target_velocity: Vec3) -> Movement {
    steer(Steering::Pursuit { target, target_velocity })
}

/// Run to where a moving target will be.
#[verifier::when_used_as_spec(spec_pursue)]
pub fn pursue(target: Vec3, target_velocity: Vec3) -> (r: Movement)
    ensures
        r == spec_pursue(target, target_velocity),
{
    steer(Steering::Pursuit { target, target_velocity })
}

pub open spec fn spec_seek(target: Vec3) -> Movement {
    steer(Steering::Seek { target })
}

/// Run to a spot at full speed.
#[verifier::when_used_as_spec(spec_seek)]
pub fn seek(target: Vec3) -> (r: Movement)
    ensures
        r == spec_seek(target),
{
    steer(Steering::Seek { target })
}

impl Movement {
    pub open spec fn spec_scaled(self, factor: Scalar) -> Movement {
        Movement {
            steering: self.steering,
            factor: self.factor * factor,
            extra: match self.extra {
                Some(extra) => Some(extra * factor),
                None => None,
            },
            top_speed: self.top_speed,
        }
    }

    /// The same way of moving at another pace.
    #[verifier::when_used_as_spec(spec_scaled)]
    pub fn scaled(self, factor: Scalar) -> (r: Movement)
        ensures
            r == self.spec_scaled(factor),
    {
        Movement {
            steering: self.steering,
            factor: self.factor * factor,
            extra: match self.extra {
                Some(extra) => Some(extra * factor),
                None => None,
            },
            top_speed: self.top_speed,
        }
    }

    pub open spec fn spec_plus(self, velocity: Vec3) -> Movement {
        Movement {
            steering: self.steering,
            factor: self.factor,
            extra: match self.extra {
                Some(extra) => Some(extra + velocity),
                None => None,
            },
            top_speed: self.top_speed,
        }
    }

    /// The same way of moving with a velocity on top.
    #[verifier::when_used_as_spec(spec_plus)]
    pub fn plus(self, velocity: Vec3) -> (r: Movement)
        ensures
            r == self.spec_plus(velocity),
    {
        Movement {
            steering: self.steering,
            factor: self.factor,
            extra: match self.extra {
                Some(extra) => Some(extra + velocity),
                None => None,
            },
            top_speed: self.top_speed,
        }
    }

    pub open spec fn spec_no_faster_than(self, speed: Scalar) -> Movement {
        Movement { top_speed: Some(speed), ..self }
    }

    /// The same way of moving, no faster than `speed`.
    #[verifier::when_used_as_spec(spec_no_faster_than)]
    pub fn no_faster_than(self, speed: Scalar) -> (r: Movement)
        ensures
            r == self.spec_no_faster_than(speed),
    {
        Movement { top_speed: Some(speed), ..self }
    }

    pub open spec fn spec_uncut_velocity(self, steered: Option<Vec3>) -> Option<Vec3> {
        match self.steering {
            Some(steering) => match (steered, self.extra) {
                (Some(velocity), Some(extra)) => Some(velocity * self.factor + extra),
                _ => None,
            },
            None => self.extra,
        }
    }

    /// The velocity before it is cut, where `steered` is that of the steering; none where it is
    /// not a number.
    #[verifier::when_used_as_spec(spec_uncut_velocity)]
    pub fn uncut_velocity(self, steered: Option<Vec3>) -> (r: Option<Vec3>)
        ensures
            r == self.spec_uncut_velocity(steered),
    {
        match self.steering {
            Some(steering) => match (steered, self.extra) {
                (Some(velocity), Some(extra)) => Some(velocity * self.factor + extra),
                _ => None,
            },
            None => self.extra,
        }
    }

    pub open spec fn spec_velocity(self, steered: Option<Vec3>) -> Option<Vec3> {
        match self.uncut_velocity(steered) {
            Some(velocity) => match self.top_speed {
                Some(limit) => Some(cut_to(velocity, limit)),
                None => Some(velocity),
            },
            None => None,
        }
    }

    /// The velocity that a way of moving comes to, where `steered` is that of the steering:
    /// never faster than the top speed where one is named. It is none where it is not a number:
    /// where the steering or the fixed velocity is none.
    #[verifier::when_used_as_spec(spec_velocity)]
    pub fn velocity(self, steered: Option<Vec3>) -> (r: Option<Vec3>)
        ensures
            r == self.spec_velocity(steered),
            self.top_speed is None ==> r == self.uncut_velocity(steered),
            self.top_speed matches Some(limit) ==> (
                self.uncut_velocity(steered) matches Some(uncut) ==> (
                    units(0) <= limit && uncut.is_measurable() ==> r is Some
                        && r->0.magnitude() <= limit
                )
            ),
            r is None <==> self.extra is None || (self.steering is Some && steered is None),
    {
        proof {
            if let (Some(limit), Some(uncut)) = (self.top_speed, self.uncut_velocity(steered)) {
                if units(0) <= limit && uncut.is_measurable() {
                    top_speed_holds(self, steered);
                }
            }
        }
        match self.uncut_velocity(steered) {
            Some(velocity) => match self.top_speed {
                Some(limit) => Some(cut_to(velocity, limit)),
                None => Some(velocity),
            },
            None => None,
        }
    }
}

pub open spec fn spec_cut_to(velocity: Vec3, limit: Scalar) -> Vec3 {
    if velocity.magnitude() > limit {
        velocity * (limit / velocity.magnitude())
    } else {
        velocity
    }
}

/// A velocity brought down to a speed, in the same direction; a slower one stays as it is.
#[verifier::when_used_as_spec(spec_cut_to)]
pub fn cut_to(velocity: Vec3, limit: Scalar) -> (r: Vec3)
    ensures
        r == spec_cut_to(velocity, limit),
{
    if velocity.magnitude() > limit {
        velocity * (limit / velocity.magnitude())
    } else {
        velocity
    }
}

/// A component brought down by a factor under one is smaller by that factor or more.
proof fn part_of_component(c: int, q: int)
    requires
        0 <= q < 1_000_000,
        i64::MIN <= c <= i64::MAX,
    ensures
        ({
            let part = crate::scalar::cut_div(c * q, 1_000_000);
            &&& i64::MIN <= part <= i64::MAX
            &&& part * part * 1_000_000_000_000 <= c * c * q * q
        }),
{
    let part = crate::scalar::cut_div(c * q, 1_000_000);
    let a = crate::scalar::size(c);
    assert(c * q == if c < 0 { -(a * q) } else { a * q }) by (nonlinear_arith)
        requires
            a == crate::scalar::size(c),
    ;
    assert(0 <= a * q <= a * 1_000_000) by (nonlinear_arith)
        requires
            0 <= a,
            0 <= q <= 1_000_000,
    ;
    let p = a * q / 1_000_000;
    assert(part == p || part == -p);
    assert(0 <= p * 1_000_000 <= a * q);
    assert((p * 1_000_000) * (p * 1_000_000) <= (a * q) * (a * q)) by (nonlinear_arith)
        requires
            0 <= p * 1_000_000 <= a * q,
    ;
    assert((p * 1_000_000) * (p * 1_000_000) == p * p * 1_000_000_000_000) by (nonlinear_arith);
    assert((a * q) * (a * q) == c * c * q * q) by (nonlinear_arith)
        requires
            a == c || a == -c,
    ;
    assert(part * part == p * p) by (nonlinear_arith)
        requires
            part == p || part == -p,
    ;
}

/// A velocity that is cut to a speed is not faster.
pub proof fn cut_holds(velocity: Vec3, limit: Scalar)
    requires
        units(0) <= limit,
        velocity.is_measurable(),
    ensures
        cut_to(velocity, limit).magnitude() <= limit,
{
    let m: int = velocity.magnitude().raw as int;
    let l: int = limit.raw as int;
    if m > l {
        let s = crate::vector::raw_square(velocity);
        crate::vector::square_is_not_negative(velocity);
        crate::scalar::floor_root_holds(s);
        let quotient = limit / velocity.magnitude();
        let q: int = quotient.raw as int;
        assert(0 <= l * 1_000_000 / m < 1_000_000) by (nonlinear_arith)
            requires
                0 <= l < m,
        ;
        assert(q == l * 1_000_000 / m);
        assert(q * m <= l * 1_000_000) by (nonlinear_arith)
            requires
                q == l * 1_000_000 / m,
                0 < m,
        ;
        let v = cut_to(velocity, limit);
        part_of_component(velocity.x.raw as int, q);
        part_of_component(velocity.y.raw as int, q);
        part_of_component(velocity.z.raw as int, q);
        let t = crate::vector::raw_square(v);
        assert(t * 1_000_000_000_000 <= s * q * q) by (nonlinear_arith)
            requires
                s == velocity.x.raw * velocity.x.raw + velocity.y.raw * velocity.y.raw
                    + velocity.z.raw
                    * velocity.z.raw,
                t == v.x.raw * v.x.raw + v.y.raw * v.y.raw + v.z.raw * v.z.raw,
                v.x.raw * v.x.raw * 1_000_000_000_000 <= velocity.x.raw * velocity.x.raw * q * q,
                v.y.raw * v.y.raw * 1_000_000_000_000 <= velocity.y.raw * velocity.y.raw * q * q,
                v.z.raw * v.z.raw * 1_000_000_000_000 <= velocity.z.raw * velocity.z.raw * q * q,
        ;
        assert(s * q * q <= (q * (m + 1)) * (q * (m + 1))) by (nonlinear_arith)
            requires
                0 <= s < (m + 1) * (m + 1),
                0 <= q,
        ;
        assert(q * (m + 1) == q * m + q) by (nonlinear_arith);
        let top: int = (l + 1) * 1_000_000;
        let scaled: int = q * (m + 1);
        assert(0 <= scaled < top) by (nonlinear_arith)
            requires
                0 <= q < 1_000_000,
                0 <= m,
                scaled == q * m + q,
                q * m <= l * 1_000_000,
                top == (l + 1) * 1_000_000,
        ;
        assert(scaled * scaled < top * top) by (nonlinear_arith)
            requires
                0 <= scaled < top,
        ;
        assert(top * top == (l + 1) * (l + 1) * 1_000_000_000_000) by (nonlinear_arith)
            requires
                top == (l + 1) * 1_000_000,
        ;
        crate::vector::short_vector(v, limit);
    }
}

/// A movement with a top speed is never faster than that.
pub proof fn top_speed_holds(movement: Movement, steered: Option<Vec3>)
    requires
        movement.top_speed is Some,
        units(0) <= movement.top_speed->0,
        movement.uncut_velocity(steered) matches Some(uncut) && uncut.is_measurable(),
    ensures
        movement.velocity(steered) matches Some(velocity) && velocity.magnitude()
            <= movement.top_speed->0,
{
    cut_holds(movement.uncut_velocity(steered)->0, movement.top_speed->0);
}

/// How hard a state is on the body.
#[derive(Clone, Copy, PartialEq, Eq, Structural, Debug)]
pub enum ActivityIntensity {
    Recovery,
    Low,
    Moderate,
    High,
    VeryHigh,
}

/// The load of a state: its intensity, and whether the speed of the player counts.
#[derive(Clone, Copy, PartialEq, Eq, Structural, Debug)]
pub struct Exertion {
    pub intensity: ActivityIntensity,
    pub with_velocity: bool,
}

pub open spec fn spec_exertion_with_velocity(intensity: ActivityIntensity) -> Exertion {
    Exertion { intensity, with_velocity: true }
}

/// A load that depends on the speed of the player.
#[verifier::when_used_as_spec(spec_exertion_with_velocity)]
pub fn exertion_with_velocity(intensity: ActivityIntensity) -> (r: Exertion)
    ensures
        r == spec_exertion_with_velocity(intensity),
{
    Exertion { intensity, with_velocity: true }
}

pub open spec fn spec_exertion(intensity: ActivityIntensity) -> Exertion {
    Exertion { intensity, with_velocity: false }
}

/// A load that does not depend on the speed of the player.
#[verifier::when_used_as_spec(spec_exertion)]
pub fn exertion(intensity: ActivityIntensity) -> (r: Exertion)
    ensures
        r == spec_exertion(intensity),
{
    Exertion { intensity, with_velocity: false }
}

/// A change of state brings that state and nothing else; an event, a reason and a pause come on
/// top
/// of it and leave the rest.
pub proof fn outcomes_hold_their_parts(
    f: ForwardState,
    m: MidfielderState,
    g: GoalkeeperState,
    r: StateChangeResult,
    event: PlayerEvent,
    reason: &'static str,
)
    ensures
        with_forward_state(f).state == PlayerState::Forward(f),
        with_midfielder_state(m).state == PlayerState::Midfielder(m),
        with_goalkeeper_state(g).state == PlayerState::Goalkeeper(g),
        with_forward_state(f).event is None && with_forward_state(f).shot_reason is None
            && !with_forward_state(f).start_tackle_cooldown,
        with_midfielder_state(m).event is None && with_midfielder_state(m).shot_reason is None
            && !with_midfielder_state(m).start_tackle_cooldown,
        with_goalkeeper_state(g).event is None && with_goalkeeper_state(g).shot_reason is None
            && !with_goalkeeper_state(g).start_tackle_cooldown,
        r.with_event(event).event == Some(event) && r.with_event(event).state == r.state
            && r.with_event(
            event,
        ).shot_reason == r.shot_reason,
        r.with_shot_reason(reason).shot_reason == Some(reason)
            && r.with_shot_reason(reason).state == r.state
            && r.with_shot_reason(reason).event == r.event,
        r.with_tackle_cooldown().start_tackle_cooldown && r.with_tackle_cooldown().state == r.state
            && r.with_tackle_cooldown().event == r.event,
{
}

/// A pass goes from the passer to the receiver, to no named spot.
pub proof fn passes_name_both(from: u32, to: u32, reason: &'static str)
    ensures
        pass_to(from, to, reason) == (PlayerEvent::PassTo { from, to, target: None, reason }),
{
}

/// A way of moving that is still comes to no velocity whatever the steering is; one to a spot
/// comes
/// to the velocity of the steering; a velocity on top of it is added, and a pace scales all of it.
pub proof fn movements_add_up(
    spot: Vec3,
    moving: Vec3,
    slowing: Scalar,
    steered: Vec3,
    extra: Vec3,
    speed: Scalar,
)
    requires
        steered.x.is_between(units(1_000_000).negated(), units(1_000_000)),
        steered.y.is_between(units(1_000_000).negated(), units(1_000_000)),
        steered.z.is_between(units(1_000_000).negated(), units(1_000_000)),
    ensures
        still().velocity(Some(steered)) == Some(flat(units(0), units(0))),
        still().velocity(None) == Some(flat(units(0), units(0))),
        arrive(spot, slowing).velocity(Some(steered)) == Some(steered),
        seek(spot).velocity(Some(steered)) == Some(steered),
        pursue(spot, moving).velocity(Some(steered)) == Some(steered),
        arrive(spot, slowing).velocity(None) is None,
        glide(extra).velocity(None) == Some(extra),
        glide_along(None, speed).velocity(Some(steered)) is None,
        glide_along(Some(extra), speed).velocity(None) == Some(extra * speed),
        arrive_if_any(Some(spot), slowing) == arrive(spot, slowing),
        arrive_if_any(None, slowing).steering == Some(
            Steering::ArriveNowhere { slowing_distance: slowing },
        ),
        seek(spot).plus(extra).velocity(Some(steered)) == Some(
            steered + (flat(units(0), units(0)) + extra),
        ),
        seek(spot).scaled(speed).velocity(Some(steered)) == Some(
            steered * speed + flat(units(0), units(0)) * speed,
        ),
        seek(spot).no_faster_than(speed).top_speed == Some(speed),
        seek(spot).no_faster_than(speed).steering == seek(spot).steering,
{
    crate::scalar::one_changes_nothing(steered.x);
    crate::scalar::one_changes_nothing(steered.y);
    crate::scalar::one_changes_nothing(steered.z);
    crate::scalar::one_changes_nothing(speed);
}

} // verus!
