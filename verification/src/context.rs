//! What a player sees of the match in one step.
use crate::scalar::{units, Scalar};
use crate::scan;
use crate::vector::{flat, Vec3};
use vstd::prelude::*;

verus! {

/// The side of the pitch that a team defends.
#[derive(Clone, Copy, PartialEq, Eq, Structural, Debug)]
pub enum PlayerSide {
    Left,
    Right,
}

/// The phase of play of a team.
#[derive(Clone, Copy, PartialEq, Eq, Structural, Debug)]
pub enum GamePhase {
    BuildUp,
    Progression,
    Attack,
    AttackingTransition,
    DefensiveTransition,
    HighPress,
    MidBlock,
    LowBlock,
}

/// How far a player has strayed from the start position.
#[derive(Clone, Copy, PartialEq, Eq, Structural, Debug)]
pub enum PlayerDistanceFromStartPosition {
    Small,
    Medium,
    Big,
}

/// The style of play that the tactics of a team ask for.
#[derive(Clone, Copy, PartialEq, Eq, Structural, Debug)]
pub enum TacticalStyle {
    Attacking,
    Defensive,
    Balanced,
    Possession,
    Counterattack,
    WingPlay,
    WidePlay,
    Compact,
}

/// A standing order of the manager to one player.
#[derive(Clone, Copy, PartialEq, Eq, Structural, Debug)]
pub enum BehavioralDirective {
    LayItOffFirstTouch,
    LayOffOnLongBall,
    BylineAndCross,
    StayWideNoCutInside,
    RunChannelInBehind,
}

/// The line of the team in which a player stands.
#[derive(Clone, Copy, PartialEq, Eq, Structural, Debug)]
pub enum PositionGroup {
    Goalkeeper,
    Defender,
    Midfielder,
    Forward,
}

/// The place of a player in the formation.
#[derive(Clone, Copy, PartialEq, Eq, Structural, Debug)]
pub struct TacticalPosition {
    pub group: PositionGroup,
    pub central: bool,
    pub attacking: bool,
}

impl TacticalPosition {
    pub open spec fn spec_is_goalkeeper(self) -> bool {
        self.group == PositionGroup::Goalkeeper
    }

    #[verifier::when_used_as_spec(spec_is_goalkeeper)]
    pub fn is_goalkeeper(self) -> (r: bool)
        ensures
            r == self.spec_is_goalkeeper(),
    {
        self.group == PositionGroup::Goalkeeper
    }

    pub open spec fn spec_is_defender(self) -> bool {
        self.group == PositionGroup::Defender
    }

    #[verifier::when_used_as_spec(spec_is_defender)]
    pub fn is_defender(self) -> (r: bool)
        ensures
            r == self.spec_is_defender(),
    {
        self.group == PositionGroup::Defender
    }

    pub open spec fn spec_is_central_defender(self) -> bool {
        self.group == PositionGroup::Defender && self.central
    }

    #[verifier::when_used_as_spec(spec_is_central_defender)]
    pub fn is_central_defender(self) -> (r: bool)
        ensures
            r == self.spec_is_central_defender(),
    {
        self.group == PositionGroup::Defender && self.central
    }

    pub open spec fn spec_is_midfielder(self) -> bool {
        self.group == PositionGroup::Midfielder
    }

    #[verifier::when_used_as_spec(spec_is_midfielder)]
    pub fn is_midfielder(self) -> (r: bool)
        ensures
            r == self.spec_is_midfielder(),
    {
        self.group == PositionGroup::Midfielder
    }

    pub open spec fn spec_is_central_midfielder(self) -> bool {
        self.group == PositionGroup::Midfielder && self.central
    }

    #[verifier::when_used_as_spec(spec_is_central_midfielder)]
    pub fn is_central_midfielder(self) -> (r: bool)
        ensures
            r == self.spec_is_central_midfielder(),
    {
        self.group == PositionGroup::Midfielder && self.central
    }

    pub open spec fn spec_is_attacking_midfielder(self) -> bool {
        self.group == PositionGroup::Midfielder && self.attacking
    }

    #[verifier::when_used_as_spec(spec_is_attacking_midfielder)]
    pub fn is_attacking_midfielder(self) -> (r: bool)
        ensures
            r == self.spec_is_attacking_midfielder(),
    {
        self.group == PositionGroup::Midfielder && self.attacking
    }

    pub open spec fn spec_is_forward(self) -> bool {
        self.group == PositionGroup::Forward
    }

    #[verifier::when_used_as_spec(spec_is_forward)]
    pub fn is_forward(self) -> (r: bool)
        ensures
            r == self.spec_is_forward(),
    {
        self.group == PositionGroup::Forward
    }
}

/// Skills with the ball, from 1 to 20.
#[derive(Clone, Copy, PartialEq, Eq, Structural, Debug)]
pub struct Technical {
    pub crossing: Scalar,
    pub dribbling: Scalar,
    pub finishing: Scalar,
    pub first_touch: Scalar,
    pub heading: Scalar,
    pub long_shots: Scalar,
    pub marking: Scalar,
    pub passing: Scalar,
    pub tackling: Scalar,
    pub technique: Scalar,
}

/// Skills of the mind, from 1 to 20.
#[derive(Clone, Copy, PartialEq, Eq, Structural, Debug)]
pub struct Mental {
    pub aggression: Scalar,
    pub anticipation: Scalar,
    pub composure: Scalar,
    pub decisions: Scalar,
    pub determination: Scalar,
    pub off_the_ball: Scalar,
    pub positioning: Scalar,
    pub teamwork: Scalar,
    pub vision: Scalar,
    pub work_rate: Scalar,
}

/// Skills of the body, from 1 to 20.
#[derive(Clone, Copy, PartialEq, Eq, Structural, Debug)]
pub struct Physical {
    pub acceleration: Scalar,
    pub agility: Scalar,
    pub balance: Scalar,
    pub jumping: Scalar,
    pub pace: Scalar,
    pub stamina: Scalar,
}

/// Skills in goal, from 1 to 20.
#[derive(Clone, Copy, PartialEq, Eq, Structural, Debug)]
pub struct Goalkeeping {
    pub command_of_area: Scalar,
    pub communication: Scalar,
    pub kicking: Scalar,
    pub reflexes: Scalar,
    pub rushing_out: Scalar,
}

/// The skills of a player.
#[derive(Clone, Copy, PartialEq, Eq, Structural, Debug)]
pub struct Skills {
    pub technical: Technical,
    pub mental: Mental,
    pub physical: Physical,
    pub goalkeeping: Goalkeeping,
}

/// What is seen of another player.
#[derive(Clone, Copy, PartialEq, Eq, Structural, Debug)]
pub struct MatchPlayerLite {
    pub id: u32,
    pub team_id: u32,
    pub position: Vec3,
    pub velocity: Vec3,
    /// The distance from the acting player.
    pub distance: Scalar,
    pub tactical_positions: TacticalPosition,
    pub skills: Skills,
    /// The remaining strength, in percent.
    pub condition: u32,
    pub has_ball: bool,
    /// Whether the acting player has a clear passing lane to this one.
    pub clear_pass: bool,
    /// How fresh a pass from this player is: 1 for none, towards 0 for the latest passer.
    pub recency_penalty: Scalar,
    /// How well the player takes on a tackler, from 0 to 1.
    pub dribble_attack: Scalar,
    /// How surrounded the player is, from 0 to 1.
    pub pressure_intensity: Scalar,
    /// Whether nothing stands between the player and the goal under attack.
    pub clear_shot: bool,
    /// The worth of a pass to the player.
    pub pass_value: Scalar,
    /// How free the player stands to receive a pass, from 0 to 1.
    pub receiver_positioning: Scalar,
    /// How well the player marks, from 0 to 1.
    pub marking: Scalar,
}

/// The acting player.
#[derive(Clone, Copy, PartialEq, Eq, Structural, Debug)]
pub struct MatchPlayer {
    pub id: u32,
    pub team_id: u32,
    pub side: Option<PlayerSide>,
    pub position: Vec3,
    pub velocity: Vec3,
    pub start_position: Vec3,
    pub tactical_position: TacticalPosition,
    pub skills: Skills,
    /// The remaining strength, in percent.
    pub condition: u32,
    pub has_ball: bool,
    pub can_shoot: bool,
    pub can_attempt_tackle: bool,
    pub clear_shot: bool,
    pub good_shooting_angle: bool,
    pub in_shooting_range: bool,
    pub should_attempt_shot: bool,
    pub under_immediate_pressure: bool,
    pub under_heavy_pressure: bool,
    pub stranded_offside: bool,
    pub on_own_side: bool,
    pub tired: bool,
    pub congested: bool,
    pub congested_near_boundary: bool,
    pub opponent_goal_position: Vec3,
    pub distance_from_start_position: Scalar,
    pub position_to_distance: PlayerDistanceFromStartPosition,
    pub separation_velocity: Vec3,
    /// The depth of the last outfield defender of the opponents.
    pub defensive_line: Scalar,
    /// How far beyond the line still counts as level.
    pub offside_margin: Scalar,
    /// How deep the player may go towards the goal while a teammate keeps the ball.
    pub onside_hold_x: Scalar,
    /// How deep the player may go towards the goal otherwise.
    pub onside_free_x: Scalar,
    pub should_follow_waypoints: bool,
    pub waypoint_count: usize,
    pub behavioral_directive: Option<BehavioralDirective>,
    pub byline_commitment_ticks: u32,
    pub link_target: Option<u32>,
    pub supply_target: Option<u32>,
    pub pass_streak: u32,
    /// How well the player times a tackle, from 0 to 1.
    pub tackle_timing: Scalar,
    /// How well the player wins the ball in a duel, from 0 to 1.
    pub defensive_duel: Scalar,
    /// The zone that the player attacks at a corner.
    pub corner_zone: Option<Vec3>,
    /// The place of an uncovered midfielder that the player may fill.
    pub vacant_midfield_slot: Option<Vec3>,
    /// The place of an uncovered forward that the player may fill.
    pub vacant_forward_slot: Option<Vec3>,
    /// The best spot to carry the ball to.
    pub carry_target: Vec3,
    pub tactical_style: TacticalStyle,
    /// The greatest speed that the condition allows.
    pub max_speed: Scalar,
    /// How deep the player may chase the ball without being offside.
    pub chase_limit_x: Scalar,
    /// What the player is capable of in goal.
    pub goalkeeping: GoalkeeperSkillProfile,
    /// What the player is capable of in midfield.
    pub midfield: MidfielderSkillProfile,
    /// What the player is capable of in front of goal.
    pub shooting: ShotProfile,
    /// Where the player aims at.
    pub shooting_direction: Vec3,
    /// Steps for which a jump that the player has won still counts.
    pub aerial_contest_won: u32,
    pub yellow_cards: u32,
    pub shots_taken: u32,
    pub should_counterpress: bool,
    /// Whether somebody can be passed to without risk.
    pub has_safe_pass: bool,
    /// The penalty area of the own team.
    pub penalty_area: Area,
}

impl MatchPlayer {
    pub open spec fn spec_has_directive(self, directive: BehavioralDirective) -> bool {
        match self.behavioral_directive {
            Some(given) => given == directive,
            None => false,
        }
    }

    /// Whether the manager gave the player this order.
    #[verifier::when_used_as_spec(spec_has_directive)]
    pub fn has_directive(self, directive: BehavioralDirective) -> (r: bool)
        ensures
            r == self.spec_has_directive(directive),
    {
        match self.behavioral_directive {
            Some(given) => given == directive,
            None => false,
        }
    }

    pub open spec fn spec_attacks_right(self) -> bool {
        match self.side {
            Some(side) => side == PlayerSide::Left,
            None => false,
        }
    }

    #[verifier::when_used_as_spec(spec_attacks_right)]
    pub fn attacks_right(self) -> (r: bool)
        ensures
            r == self.spec_attacks_right(),
    {
        match self.side {
            Some(side) => side == PlayerSide::Left,
            None => false,
        }
    }
}

/// A shot in flight.
#[derive(Clone, Copy, PartialEq, Eq, Structural, Debug)]
pub struct ShotTarget {
    /// The team whose goal it is aimed at.
    pub defending_side: PlayerSide,
    /// The place on the goal line, from touchline to touchline.
    pub goal_line_y: Scalar,
    /// The height above the goal line.
    pub goal_line_z: Scalar,
    pub is_direct_free_kick: bool,
    pub deflected: bool,
    /// The length of the whole flight, in steps.
    pub total_flight_ticks: Scalar,
}

/// What a goalkeeper is capable of.
#[derive(Clone, Copy, PartialEq, Eq, Structural, Debug)]
pub struct GoalkeeperSkillProfile {
    pub shot_stopping: Scalar,
    pub dive_reach: Scalar,
    pub handling_profile: Scalar,
    pub aerial_command: Scalar,
    pub positioning: Scalar,
    pub distribution: Scalar,
    pub explosive_mult: Scalar,
    pub condition_mult: Scalar,
    pub poor_skill_penalty: Scalar,
    pub effective_catch_distance: Scalar,
    pub effective_dive_distance: Scalar,
}

/// What a midfielder is capable of.
#[derive(Clone, Copy, PartialEq, Eq, Structural, Debug)]
pub struct MidfielderSkillProfile {
    pub mid_shot_selection: Scalar,
    pub carry_selection: Scalar,
    pub progressive_selection: Scalar,
    pub pass_execution: Scalar,
    pub press_resistance: Scalar,
    pub tackle_profile: Scalar,
    pub discipline: Scalar,
    pub mid_condition_mult: Scalar,
    /// How long the midfielder presses at the intensity of the team.
    pub press_time_ticks: u64,
    pub allows_take_on_one: bool,
    pub allows_take_on_two: bool,
    pub allows_carry_into_space: bool,
    pub allows_through_ball: bool,
    pub allows_killer_ball: bool,
    pub allows_switch_play: bool,
}

/// What a player is capable of in front of goal.
#[derive(Clone, Copy, PartialEq, Eq, Structural, Debug)]
pub struct ShotProfile {
    pub selection_skill: Scalar,
    pub execution_skill: Scalar,
    /// The worth of a clear shot from here.
    pub clear_shot_xg: Scalar,
}

/// The best receivers of a pass, by how far the player looks.
#[derive(Clone, Copy, PartialEq, Eq, Structural, Debug)]
pub struct PassOptions {
    pub within_60: Option<MatchPlayerLite>,
    pub within_200: Option<MatchPlayerLite>,
    pub within_300: Option<MatchPlayerLite>,
    pub within_400: Option<MatchPlayerLite>,
}

/// A rectangle of the pitch, by two opposite corners.
#[derive(Clone, Copy, PartialEq, Eq, Structural, Debug)]
pub struct Area {
    pub min: Vec3,
    pub max: Vec3,
}

impl Area {
    pub open spec fn spec_contains(self, spot: Vec3) -> bool {
        spot.x >= self.min.x && spot.x <= self.max.x && spot.y >= self.min.y
            && spot.y <= self.max.y
    }

    /// Whether a spot on the ground lies in the rectangle.
    #[verifier::when_used_as_spec(spec_contains)]
    pub fn contains(self, spot: Vec3) -> (r: bool)
        ensures
            r == self.spec_contains(spot),
    {
        spot.x >= self.min.x && spot.x <= self.max.x && spot.y >= self.min.y
            && spot.y <= self.max.y
    }

    /// The first corner is the lower one.
    pub open spec fn well_formed(self) -> bool {
        self.min.x <= self.max.x && self.min.y <= self.max.y
    }
}

/// The ball.
#[derive(Clone, Copy, PartialEq, Eq, Structural, Debug)]
pub struct Ball {
    pub position: Vec3,
    pub velocity: Vec3,
    pub landing_position: Vec3,
    /// The distance from the acting player.
    pub distance: Scalar,
    pub distance_to_opponent_goal: Scalar,
    pub distance_to_own_goal: Scalar,
    /// The position of the goal under attack.
    pub direction_to_opponent_goal: Vec3,
    /// The position of the own goal.
    pub direction_to_own_goal: Vec3,
    pub speed: Scalar,
    /// The cosine of the angle between the way of the ball and the way to the player.
    pub heading: Scalar,
    pub owner_id: Option<u32>,
    pub is_owned: bool,
    pub in_flight: bool,
    pub stable_possession: bool,
    pub opponent_restart: bool,
    pub opponent_goal_kick: bool,
    pub team_attacking_corner: bool,
    pub free_kick_encroaching: bool,
    pub long_reception: bool,
    pub stopped: bool,
    pub on_own_side: bool,
    pub on_own_third: bool,
    pub should_take_immediately: bool,
    /// Steps since the owner got the ball.
    pub ownership_duration: u32,
    pub last_passer: Option<u32>,
    /// Where a shot in flight crosses the goal line.
    pub shot_target: Option<ShotTarget>,
    /// The ball comes from a direct free kick.
    pub direct_free_kick: bool,
}

impl Ball {
    pub open spec fn spec_is_towards_player_with_angle(self, cosine: Scalar) -> bool {
        self.heading >= cosine
    }

    /// Whether the ball travels towards the player, within the angle of the given cosine.
    #[verifier::when_used_as_spec(spec_is_towards_player_with_angle)]
    pub fn is_towards_player_with_angle(self, cosine: Scalar) -> (r: bool)
        ensures
            r == self.spec_is_towards_player_with_angle(cosine),
    {
        self.heading >= cosine
    }

    pub open spec fn spec_is_shot_at(self, side: Option<PlayerSide>) -> bool {
        match self.shot_target {
            Some(target) => match side {
                Some(own) => target.defending_side == own,
                None => false,
            },
            None => false,
        }
    }

    /// Whether a shot in flight is aimed at the goal of the given team.
    #[verifier::when_used_as_spec(spec_is_shot_at)]
    pub fn is_shot_at(self, side: Option<PlayerSide>) -> (r: bool)
        ensures
            r == self.spec_is_shot_at(side),
    {
        match self.shot_target {
            Some(target) => match side {
                Some(own) => target.defending_side == own,
                None => false,
            },
            None => false,
        }
    }

    pub open spec fn spec_is_owned_by(self, id: u32) -> bool {
        match self.owner_id {
            Some(owner) => owner == id,
            None => false,
        }
    }

    /// Whether the given player owns the ball.
    #[verifier::when_used_as_spec(spec_is_owned_by)]
    pub fn is_owned_by(self, id: u32) -> (r: bool)
        ensures
            r == self.spec_is_owned_by(id),
    {
        match self.owner_id {
            Some(owner) => owner == id,
            None => false,
        }
    }
}

/// The team of the acting player.
#[derive(Clone, Copy, PartialEq, Eq, Structural, Debug)]
pub struct Team {
    pub control_ball: bool,
    pub best_player_to_chase_ball: bool,
    pub can_shoot: bool,
    pub losing: bool,
    pub phase: GamePhase,
    pub press_intensity: Scalar,
    pub should_play_possession: bool,
    pub high_pressing: bool,
    pub counter_window: bool,
    pub counterpress_window: bool,
    pub game_management_intensity: Scalar,
    pub coach_prefers_possession: bool,
    pub coach_min_possession_ticks: u32,
    pub coach_shooting_reluctance: Scalar,
    pub corner_box_loaded: bool,
}

/// What the central rule on shots says.
#[derive(Clone, Copy, PartialEq, Eq, Debug)]
pub enum ShotDecision {
    Shoot { reason: &'static str },
    Pass,
    Hold,
}

/// The occasions on which the central rule on shots is asked.
#[derive(Clone, Copy, PartialEq, Eq, Structural, Debug)]
pub enum ShotOccasion {
    RunPointBlank,
    RunClear,
    RunBox,
    RunAntiOscillation,
    RunInBehind,
    DribbleNearGoalkeeper,
    DribbleClear,
    DribbleRange,
    DribbleTimeout,
    MidfieldDribble,
    MidfieldPass,
    MidfieldPassBailout,
    MidfieldRun,
    MidfieldRunHesitation,
}

impl ShotOccasion {
    pub open spec fn spec_label(self) -> &'static str {
        match self {
            ShotOccasion::RunPointBlank => "FWD_RUN_POINT_BLANK",
            ShotOccasion::RunClear => "FWD_RUN_PRIO05_CLEAR",
            ShotOccasion::RunBox => "FWD_RUN_PRIO06_BOX",
            ShotOccasion::RunAntiOscillation => "FWD_RUN_ANTI_OSCILLATION",
            ShotOccasion::RunInBehind => "FWD_RIB_SHOT",
            ShotOccasion::DribbleNearGoalkeeper => "FWD_DRIB_NEAR_GK",
            ShotOccasion::DribbleClear => "FWD_DRIB_CLEAR",
            ShotOccasion::DribbleRange => "FWD_DRIB_RANGE",
            ShotOccasion::DribbleTimeout => "FWD_DRIB_TIMEOUT",
            ShotOccasion::MidfieldDribble => "MID_DRIB",
            ShotOccasion::MidfieldPass => "MID_PASS_FWD",
            ShotOccasion::MidfieldPassBailout => "AM_PASS_BAILOUT_FWD",
            ShotOccasion::MidfieldRun => "MID_SHOOT",
            ShotOccasion::MidfieldRunHesitation => "AM_RUN_ANTI_OSC_FWD",
        }
    }

    /// The name under which the central rule on shots is asked.
    #[verifier::when_used_as_spec(spec_label)]
    pub fn label(self) -> (r: &'static str)
        ensures
            r == self.spec_label(),
    {
        match self {
            ShotOccasion::RunPointBlank => "FWD_RUN_POINT_BLANK",
            ShotOccasion::RunClear => "FWD_RUN_PRIO05_CLEAR",
            ShotOccasion::RunBox => "FWD_RUN_PRIO06_BOX",
            ShotOccasion::RunAntiOscillation => "FWD_RUN_ANTI_OSCILLATION",
            ShotOccasion::RunInBehind => "FWD_RIB_SHOT",
            ShotOccasion::DribbleNearGoalkeeper => "FWD_DRIB_NEAR_GK",
            ShotOccasion::DribbleClear => "FWD_DRIB_CLEAR",
            ShotOccasion::DribbleRange => "FWD_DRIB_RANGE",
            ShotOccasion::DribbleTimeout => "FWD_DRIB_TIMEOUT",
            ShotOccasion::MidfieldDribble => "MID_DRIB",
            ShotOccasion::MidfieldPass => "MID_PASS_FWD",
            ShotOccasion::MidfieldPassBailout => "AM_PASS_BAILOUT_FWD",
            ShotOccasion::MidfieldRun => "MID_SHOOT",
            ShotOccasion::MidfieldRunHesitation => "AM_RUN_ANTI_OSC_FWD",
        }
    }
}

/// The answers of the central rule on shots in this step.
#[derive(Clone, Copy, PartialEq, Eq, Debug)]
pub struct ShotDecisions {
    pub run_point_blank: ShotDecision,
    pub run_clear: ShotDecision,
    pub run_box: ShotDecision,
    pub run_anti_oscillation: ShotDecision,
    pub run_in_behind: ShotDecision,
    pub dribble_near_goalkeeper: ShotDecision,
    pub dribble_clear: ShotDecision,
    pub dribble_range: ShotDecision,
    pub dribble_timeout: ShotDecision,
    pub midfield_dribble: ShotDecision,
    pub midfield_pass: ShotDecision,
    pub midfield_pass_bailout: ShotDecision,
    pub midfield_run: ShotDecision,
    pub midfield_run_hesitation: ShotDecision,
}

/// Chances, from 0 to 1, that grow with a skill and reach one half at the named value of it.
#[derive(Clone, Copy, PartialEq, Eq, Structural, Debug)]
pub struct SkillCurves {
    pub passing_10: Scalar,
    pub passing_13: Scalar,
    pub passing_14: Scalar,
    pub vision_14: Scalar,
    pub decisions_12: Scalar,
    pub teamwork_14: Scalar,
    pub off_the_ball_12: Scalar,
    pub off_the_ball_15: Scalar,
    pub dribbling_10: Scalar,
    pub dribbling_14: Scalar,
    pub agility_10: Scalar,
    pub pace_12: Scalar,
    pub tackling_8: Scalar,
    pub crossing_8: Scalar,
}

/// The numbers, from 0 to 1, that chance gave in this step.
#[derive(Clone, Copy, PartialEq, Eq, Structural, Debug)]
pub struct Rolls {
    pub quick_pass: Scalar,
    pub create_space: Scalar,
    pub beat_blocker: Scalar,
    pub pass_under_pressure: Scalar,
    pub pass_quality: Scalar,
    pub pass_teamwork: Scalar,
    pub take_on: Scalar,
    pub dribble_out: Scalar,
    pub shot_suppression: Scalar,
    pub tackle_skill: Scalar,
    pub tackle_now: Scalar,
    pub tackle: Scalar,
    pub foul: Scalar,
    pub violent: Scalar,
    pub reckless: Scalar,
    pub point_blank: Scalar,
    pub heading_contest: Scalar,
    pub heading_duel: Scalar,
    pub heading: Scalar,
    pub late_box_run: Scalar,
    pub cross: Scalar,
    pub save: Scalar,
    pub quick_release: Scalar,
    pub distribution: Scalar,
    pub clearance: Scalar,
    pub path_offset: Scalar,
    pub wander_radius: Scalar,
    pub wander_jitter: Scalar,
    pub wander_distance: Scalar,
    pub wander_angle: Scalar,
}

/// A corner kick to a player in a zone.
#[derive(Clone, Copy, PartialEq, Eq, Structural, Debug)]
pub struct CornerDelivery {
    pub receiver: u32,
    pub zone: Vec3,
}

/// The corner kicks on offer, by the zone that is tried first.
#[derive(Clone, Copy, PartialEq, Eq, Structural, Debug)]
pub struct CornerDeliveries {
    pub central: Option<CornerDelivery>,
    pub near_post: Option<CornerDelivery>,
    pub far_post: Option<CornerDelivery>,
}

impl CornerDeliveries {
    pub open spec fn spec_pick(self, rotation: u64) -> Option<CornerDelivery> {
        if rotation == 0 {
            self.central
        } else if rotation == 1 {
            self.near_post
        } else {
            self.far_post
        }
    }

    /// The corner kick for one turn of the rotation.
    #[verifier::when_used_as_spec(spec_pick)]
    pub fn pick(self, rotation: u64) -> (r: Option<CornerDelivery>)
        ensures
            r == self.spec_pick(rotation),
    {
        if rotation == 0 {
            self.central
        } else if rotation == 1 {
            self.near_post
        } else {
            self.far_post
        }
    }
}

/// An opponent set on cutting out the passes to a player.
#[derive(Clone, Copy, PartialEq, Eq, Structural, Debug)]
pub struct InterceptAssignment {
    pub interceptor_position: Vec3,
    pub target: u32,
}

/// The size of the pitch.
#[derive(Clone, Copy, PartialEq, Eq, Structural, Debug)]
pub struct FieldSize {
    pub width: u32,
    pub height: u32,
}

/// All that a state machine reads in one step.
pub struct StateProcessingContext {
    pub player: MatchPlayer,
    pub ball: Ball,
    pub team: Team,
    /// Everyone on the pitch.
    pub players: Vec<MatchPlayerLite>,
    pub teammates: Vec<MatchPlayerLite>,
    pub opponents: Vec<MatchPlayerLite>,
    pub intercept_assignments: Vec<InterceptAssignment>,
    pub field_size: FieldSize,
    /// Steps since the player entered the state.
    pub in_state_time: u64,
    /// How long the match has lasted, in thousandths of a second.
    pub total_match_time: u64,
    pub time_is_running_out: bool,
    pub foul_time_compression: Scalar,
    pub shots: ShotDecisions,
    pub curves: SkillCurves,
    pub rolls: Rolls,
    pub corners: CornerDeliveries,
    /// The runner who arrives unmarked in the box.
    pub cutback_runner: Option<u32>,
    pub best_pass: PassOptions,
    /// The teammate nearest to the goal under attack.
    pub most_advanced_teammate: Option<MatchPlayerLite>,
    /// The sine of the time in the state, over a period of 60 steps.
    pub quick_sway: Scalar,
    /// The sine of the time in the state, over a period of 100 steps.
    pub slow_sway: Scalar,
}

impl StateProcessingContext {
    /// What is held more than once agrees: positions with distances, the owner with who has the
    /// ball, and the players that are named with those on the pitch.
    pub open spec fn well_formed(&self) -> bool {
        &&& self.player_is_seen_right()
        &&& self.ball_is_seen_right()
        &&& self.others_are_seen_right(self.teammates@, true)
        &&& self.others_are_seen_right(self.opponents@, false)
        &&& self.named_are_teammates()
        &&& self.rule_has_its_own_reasons()
    }

    /// The player has the ball as its owner does, and the goal under attack is on the ground.
    pub open spec fn player_is_seen_right(&self) -> bool {
        &&& self.player.has_ball == self.ball.is_owned_by(self.player.id)
        &&& self.player.opponent_goal_position.z == units(0)
        &&& self.player.distance_from_start_position == self.player.position.distance_to(
            self.player.start_position,
        )
    }

    /// The distances of the ball are those of its position, its speed is that of its velocity,
    /// and it is owned where it has an owner.
    pub open spec fn ball_is_seen_right(&self) -> bool {
        &&& self.ball.is_owned == self.ball.owner_id is Some
        &&& self.ball.distance == self.ball.position.distance_to(self.player.position)
        &&& self.ball.direction_to_opponent_goal == self.goal()
        &&& self.ball.distance_to_opponent_goal == self.ball.position.distance_to(self.goal())
        &&& self.ball.distance_to_own_goal == self.ball.position.distance_to(
            self.ball.direction_to_own_goal,
        )
        &&& self.ball.speed == self.ball.velocity.magnitude()
    }

    /// Each of the others is on the pitch, is not the player, belongs to the player's team or
    /// not, has the ball as its owner does, and is as far away as the positions tell.
    pub open spec fn others_are_seen_right(
        &self,
        others: Seq<MatchPlayerLite>,
        own: bool,
    ) -> bool {
        forall|p: MatchPlayerLite| #[trigger]
            others.contains(p) ==> {
                &&& self.players@.contains(p)
                &&& p.id != self.player.id
                &&& (p.team_id == self.player.team_id) == own
                &&& p.has_ball == self.ball.is_owned_by(p.id)
                &&& p.distance == p.position.distance_to(self.player.position)
            }
    }

    /// Whether a number is that of a teammate.
    pub open spec fn is_teammate(&self, id: u32) -> bool {
        exists|t: MatchPlayerLite| #[trigger] self.teammates@.contains(t) && t.id == id
    }

    /// Whether a player, if one is named, is a teammate.
    pub open spec fn is_teammate_if_any(&self, named: Option<MatchPlayerLite>) -> bool {
        named matches Some(t) ==> self.teammates@.contains(t)
    }

    /// The best receivers, the teammate furthest up and the runner are teammates.
    pub open spec fn named_are_teammates(&self) -> bool {
        &&& self.is_teammate_if_any(self.best_pass.within_60)
        &&& self.is_teammate_if_any(self.best_pass.within_200)
        &&& self.is_teammate_if_any(self.best_pass.within_300)
        &&& self.is_teammate_if_any(self.best_pass.within_400)
        &&& self.is_teammate_if_any(self.most_advanced_teammate)
        &&& (self.cutback_runner matches Some(id) ==> self.is_teammate(id))
    }

    /// The central rule on shots never gives a reason by which a state shoots on its own.
    pub open spec fn rule_has_its_own_reasons(&self) -> bool {
        forall|o: ShotOccasion|
            #[trigger] self.evaluate_forward_shot_decision(o) matches ShotDecision::Shoot { reason }
                ==> !is_reason_of_a_state(reason@)
    }

    pub open spec fn spec_width(&self) -> Scalar {
        units(self.field_size.width as i64)
    }

    /// The width of the pitch, from goal line to goal line.
    #[verifier::when_used_as_spec(spec_width)]
    pub fn width(&self) -> (r: Scalar)
        ensures
            r == self.spec_width(),
    {
        units(self.field_size.width as i64)
    }

    pub open spec fn spec_height(&self) -> Scalar {
        units(self.field_size.height as i64)
    }

    /// The height of the pitch, from touchline to touchline.
    #[verifier::when_used_as_spec(spec_height)]
    pub fn height(&self) -> (r: Scalar)
        ensures
            r == self.spec_height(),
    {
        units(self.field_size.height as i64)
    }

    pub open spec fn spec_stamina(&self) -> Scalar {
        units(self.player.condition as i64) / units(100)
    }

    /// The remaining strength of the player, from 0 to 1.
    #[verifier::when_used_as_spec(spec_stamina)]
    pub fn stamina(&self) -> (r: Scalar)
        ensures
            r == self.spec_stamina(),
    {
        units(self.player.condition as i64) / units(100)
    }

    pub open spec fn spec_goal(&self) -> Vec3 {
        self.player.opponent_goal_position
    }

    /// The goal under attack.
    #[verifier::when_used_as_spec(spec_goal)]
    pub fn goal(&self) -> (r: Vec3)
        ensures
            r == self.spec_goal(),
    {
        self.player.opponent_goal_position
    }

    pub open spec fn spec_to_goal(&self) -> Vec3 {
        self.player.opponent_goal_position - self.player.position
    }

    /// The way from the player to the goal under attack.
    #[verifier::when_used_as_spec(spec_to_goal)]
    pub fn to_goal(&self) -> (r: Vec3)
        ensures
            r == self.spec_to_goal(),
    {
        self.player.opponent_goal_position - self.player.position
    }

    pub open spec fn spec_by_id(&self, id: u32) -> Option<MatchPlayerLite> {
        scan::first_where(self.players@, |p: MatchPlayerLite| p.id == id)
    }

    /// The player with the given number.
    #[verifier::when_used_as_spec(spec_by_id)]
    pub fn by_id(&self, id: u32) -> (r: Option<MatchPlayerLite>)
        ensures
            r == self.spec_by_id(id),
    {
        scan::first_of(
            &self.players,
            |p: MatchPlayerLite| -> (b: bool)
                ensures b == (p.id == id)
            {
                p.id == id
            },
            Ghost(|p: MatchPlayerLite| p.id == id),
        )
    }

    pub open spec fn spec_owner(&self) -> Option<MatchPlayerLite> {
        match self.ball.owner_id {
            Some(id) => self.by_id(id),
            None => None,
        }
    }

    /// The owner of the ball.
    #[verifier::when_used_as_spec(spec_owner)]
    pub fn owner(&self) -> (r: Option<MatchPlayerLite>)
        ensures
            r == self.spec_owner(),
    {
        match self.ball.owner_id {
            Some(id) => self.by_id(id),
            None => None,
        }
    }

    pub open spec fn spec_owner_in_team(&self) -> Option<MatchPlayerLite> {
        match self.owner() {
            Some(owner) => {
                if owner.team_id == self.player.team_id {
                    Some(owner)
                } else {
                    None
                }
            },
            None => None,
        }
    }

    /// The owner of the ball, where it is one of the player's own team.
    #[verifier::when_used_as_spec(spec_owner_in_team)]
    pub fn owner_in_team(&self) -> (r: Option<MatchPlayerLite>)
        ensures
            r == self.spec_owner_in_team(),
    {
        match self.owner() {
            Some(owner) => {
                if owner.team_id == self.player.team_id { Some(owner) } else { None }
            },
            None => None,
        }
    }

    pub open spec fn spec_teammate_on_ball(&self) -> bool {
        if self.ball.in_flight {
            false
        } else {
            match self.owner_in_team() {
                Some(owner) => owner.id != self.player.id,
                None => false,
            }
        }
    }

    /// Whether a teammate is on the ball.
    #[verifier::when_used_as_spec(spec_teammate_on_ball)]
    pub fn teammate_on_ball(&self) -> (r: bool)
        ensures
            r == self.spec_teammate_on_ball(),
    {
        if self.ball.in_flight {
            return false;
        }
        match self.owner_in_team() {
            Some(owner) => owner.id != self.player.id,
            None => false,
        }
    }

    pub open spec fn spec_holder(&self) -> Option<MatchPlayerLite> {
        scan::first_where(self.teammates@, |t: MatchPlayerLite| self.ball.is_owned_by(t.id))
    }

    /// The teammate with the ball.
    #[verifier::when_used_as_spec(spec_holder)]
    pub fn holder(&self) -> (r: Option<MatchPlayerLite>)
        ensures
            r == self.spec_holder(),
    {
        scan::first_of(
            &self.teammates,
            |t: MatchPlayerLite| -> (b: bool)
                ensures b == (self.ball.is_owned_by(t.id))
            {
                self.ball.is_owned_by(t.id)
            },
            Ghost(|t: MatchPlayerLite| self.ball.is_owned_by(t.id)),
        )
    }

    pub open spec fn spec_opponent_with_ball(&self) -> Option<MatchPlayerLite> {
        scan::first_where(self.opponents@, |o: MatchPlayerLite| o.has_ball)
    }

    /// The opponent with the ball.
    #[verifier::when_used_as_spec(spec_opponent_with_ball)]
    pub fn opponent_with_ball(&self) -> (r: Option<MatchPlayerLite>)
        ensures
            r == self.spec_opponent_with_ball(),
    {
        scan::first_of(
            &self.opponents,
            |o: MatchPlayerLite| -> (b: bool)
                ensures b == (o.has_ball)
            {
                o.has_ball
            },
            Ghost(|o: MatchPlayerLite| o.has_ball),
        )
    }

    pub open spec fn spec_opponent_goalkeeper(&self) -> Option<MatchPlayerLite> {
        scan::first_where(
            self.opponents@,
            |o: MatchPlayerLite| o.tactical_positions.is_goalkeeper(),
        )
    }

    /// The goalkeeper of the opponents.
    #[verifier::when_used_as_spec(spec_opponent_goalkeeper)]
    pub fn opponent_goalkeeper(&self) -> (r: Option<MatchPlayerLite>)
        ensures
            r == self.spec_opponent_goalkeeper(),
    {
        scan::first_of(
            &self.opponents,
            |o: MatchPlayerLite| -> (b: bool)
                ensures b == (o.tactical_positions.is_goalkeeper())
            {
                o.tactical_positions.is_goalkeeper()
            },
            Ghost(|o: MatchPlayerLite| o.tactical_positions.is_goalkeeper()),
        )
    }

    pub open spec fn spec_carrier_within(&self, radius: Scalar) -> Option<MatchPlayerLite> {
        scan::first_where(self.opponents@, |o: MatchPlayerLite| o.distance <= radius && o.has_ball)
    }

    /// The first opponent with the ball within `radius` of the player.
    #[verifier::when_used_as_spec(spec_carrier_within)]
    pub fn carrier_within(&self, radius: Scalar) -> (r: Option<MatchPlayerLite>)
        ensures
            r == self.spec_carrier_within(radius),
    {
        scan::first_of(
            &self.opponents,
            |o: MatchPlayerLite| -> (b: bool)
                ensures b == (o.distance <= radius && o.has_ball)
            {
                o.distance <= radius && o.has_ball
            },
            Ghost(|o: MatchPlayerLite| o.distance <= radius && o.has_ball),
        )
    }

    pub open spec fn spec_opponents_nearby(&self, radius: Scalar) -> usize {
        scan::count_where(self.opponents@, |o: MatchPlayerLite| o.distance <= radius)
    }

    /// How many opponents stand within `radius` of the player.
    #[verifier::when_used_as_spec(spec_opponents_nearby)]
    pub fn opponents_nearby(&self, radius: Scalar) -> (r: usize)
        ensures
            r == self.spec_opponents_nearby(radius),
    {
        scan::count_if(
            &self.opponents,
            |o: MatchPlayerLite| -> (b: bool)
                ensures b == (o.distance <= radius)
            {
                o.distance <= radius
            },
            Ghost(|o: MatchPlayerLite| o.distance <= radius),
        )
    }

    pub open spec fn spec_opponent_exists(&self, radius: Scalar) -> bool {
        scan::some_where(self.opponents@, |o: MatchPlayerLite| o.distance <= radius)
    }

    /// Whether an opponent stands within `radius` of the player.
    #[verifier::when_used_as_spec(spec_opponent_exists)]
    pub fn opponent_exists(&self, radius: Scalar) -> (r: bool)
        ensures
            r == self.spec_opponent_exists(radius),
    {
        scan::any_of(
            &self.opponents,
            |o: MatchPlayerLite| -> (b: bool)
                ensures b == (o.distance <= radius)
            {
                o.distance <= radius
            },
            Ghost(|o: MatchPlayerLite| o.distance <= radius),
        )
    }

    pub open spec fn spec_teammate_exists(&self, radius: Scalar) -> bool {
        scan::some_where(self.teammates@, |t: MatchPlayerLite| t.distance <= radius)
    }

    /// Whether a teammate stands within `radius` of the player.
    #[verifier::when_used_as_spec(spec_teammate_exists)]
    pub fn teammate_exists(&self, radius: Scalar) -> (r: bool)
        ensures
            r == self.spec_teammate_exists(radius),
    {
        scan::any_of(
            &self.teammates,
            |t: MatchPlayerLite| -> (b: bool)
                ensures b == (t.distance <= radius)
            {
                t.distance <= radius
            },
            Ghost(|t: MatchPlayerLite| t.distance <= radius),
        )
    }

    pub open spec fn spec_opponents_around(&self, spot: Vec3, radius: Scalar) -> usize {
        scan::count_where(
            self.opponents@,
            |o: MatchPlayerLite| o.position.distance_to(spot) <= radius,
        )
    }

    /// How many opponents stand within `radius` of a spot.
    #[verifier::when_used_as_spec(spec_opponents_around)]
    pub fn opponents_around(&self, spot: Vec3, radius: Scalar) -> (r: usize)
        ensures
            r == self.spec_opponents_around(spot, radius),
    {
        scan::count_if(
            &self.opponents,
            |o: MatchPlayerLite| -> (b: bool)
                ensures b == (o.position.distance_to(spot) <= radius)
            {
                o.position.distance_to(spot) <= radius
            },
            Ghost(|o: MatchPlayerLite| o.position.distance_to(spot) <= radius),
        )
    }

    pub open spec fn spec_teammates_around(&self, spot: Vec3, radius: Scalar) -> usize {
        scan::count_where(
            self.teammates@,
            |t: MatchPlayerLite| t.position.distance_to(spot) <= radius,
        )
    }

    /// How many teammates stand within `radius` of a spot.
    #[verifier::when_used_as_spec(spec_teammates_around)]
    pub fn teammates_around(&self, spot: Vec3, radius: Scalar) -> (r: usize)
        ensures
            r == self.spec_teammates_around(spot, radius),
    {
        scan::count_if(
            &self.teammates,
            |t: MatchPlayerLite| -> (b: bool)
                ensures b == (t.position.distance_to(spot) <= radius)
            {
                t.position.distance_to(spot) <= radius
            },
            Ghost(|t: MatchPlayerLite| t.position.distance_to(spot) <= radius),
        )
    }

    pub open spec fn spec_evaluate_forward_shot_decision(
        &self,
        occasion: ShotOccasion,
    ) -> ShotDecision {
        match occasion {
            ShotOccasion::RunPointBlank => self.shots.run_point_blank,
            ShotOccasion::RunClear => self.shots.run_clear,
            ShotOccasion::RunBox => self.shots.run_box,
            ShotOccasion::RunAntiOscillation => self.shots.run_anti_oscillation,
            ShotOccasion::RunInBehind => self.shots.run_in_behind,
            ShotOccasion::DribbleNearGoalkeeper => self.shots.dribble_near_goalkeeper,
            ShotOccasion::DribbleClear => self.shots.dribble_clear,
            ShotOccasion::DribbleRange => self.shots.dribble_range,
            ShotOccasion::DribbleTimeout => self.shots.dribble_timeout,
            ShotOccasion::MidfieldDribble => self.shots.midfield_dribble,
            ShotOccasion::MidfieldPass => self.shots.midfield_pass,
            ShotOccasion::MidfieldPassBailout => self.shots.midfield_pass_bailout,
            ShotOccasion::MidfieldRun => self.shots.midfield_run,
            ShotOccasion::MidfieldRunHesitation => self.shots.midfield_run_hesitation,
        }
    }

    /// The answer of the central rule on shots.
    #[verifier::when_used_as_spec(spec_evaluate_forward_shot_decision)]
    pub fn evaluate_forward_shot_decision(&self, occasion: ShotOccasion) -> (r: ShotDecision)
        ensures
            r == self.spec_evaluate_forward_shot_decision(occasion),
    {
        match occasion {
            ShotOccasion::RunPointBlank => self.shots.run_point_blank,
            ShotOccasion::RunClear => self.shots.run_clear,
            ShotOccasion::RunBox => self.shots.run_box,
            ShotOccasion::RunAntiOscillation => self.shots.run_anti_oscillation,
            ShotOccasion::RunInBehind => self.shots.run_in_behind,
            ShotOccasion::DribbleNearGoalkeeper => self.shots.dribble_near_goalkeeper,
            ShotOccasion::DribbleClear => self.shots.dribble_clear,
            ShotOccasion::DribbleRange => self.shots.dribble_range,
            ShotOccasion::DribbleTimeout => self.shots.dribble_timeout,
            ShotOccasion::MidfieldDribble => self.shots.midfield_dribble,
            ShotOccasion::MidfieldPass => self.shots.midfield_pass,
            ShotOccasion::MidfieldPassBailout => self.shots.midfield_pass_bailout,
            ShotOccasion::MidfieldRun => self.shots.midfield_run,
            ShotOccasion::MidfieldRunHesitation => self.shots.midfield_run_hesitation,
        }
    }
}

/// The reasons by which a state shoots without asking the central rule on shots.
pub open spec fn is_reason_of_a_state(reason: Seq<char>) -> bool {
    ||| reason == "FWD_SNAPSHOT_PRESSED"@
    ||| reason == "MID_SNAPSHOT_PRESSED"@
    ||| reason == "MID_CLEAR_CHANCE"@
    ||| reason == "MID_RUN_ANTI_OSCILLATION"@
    ||| reason == "MID_PASS_BAILOUT_SHOOT"@
    ||| reason == "MID_PASS_BAILOUT_DISTANCE"@
    ||| reason == "MID_DRIB_POINT_BLANK"@
    ||| reason == "MID_DRIB_PRESSURED_SHOOT"@
}

pub open spec fn spec_turned(v: Vec3) -> Vec3 {
    flat(v.y.negated(), v.x)
}

/// A vector turned by a right angle on the ground.
#[verifier::when_used_as_spec(spec_turned)]
pub fn turned(v: Vec3) -> (r: Vec3)
    ensures
        r == spec_turned(v),
{
    flat(v.y.negated(), v.x)
}

pub open spec fn spec_share(skill: Scalar) -> Scalar {
    skill / units(20)
}

/// A skill as a share of its greatest value.
#[verifier::when_used_as_spec(spec_share)]
pub fn share(skill: Scalar) -> (r: Scalar)
    ensures
        r == spec_share(skill),
{
    skill / units(20)
}

pub open spec fn spec_ticks(steps: u64) -> Scalar {
    if steps < 1_000_000_000_000_000_000 {
        units(steps as i64)
    } else {
        units(1_000_000_000_000_000_000)
    }
}

/// A number of steps.
#[verifier::when_used_as_spec(spec_ticks)]
pub fn ticks(steps: u64) -> (r: Scalar)
    ensures
        r == spec_ticks(steps),
{
    if steps < 1_000_000_000_000_000_000 {
        units(steps as i64)
    } else {
        units(1_000_000_000_000_000_000)
    }
}

pub open spec fn spec_to_count(number: Scalar) -> u32 {
    let whole: i64 = number.whole();
    if whole < 0 {
        0
    } else if whole > 0xffff_ffff {
        0xffff_ffff
    } else {
        whole as u32
    }
}

/// The whole part of a number as a count; zero below zero, and never more than a count can hold.
#[verifier::when_used_as_spec(spec_to_count)]
pub fn to_count(number: Scalar) -> (r: u32)
    ensures
        r == spec_to_count(number),
{
    let whole: i64 = number.whole();
    if whole < 0 {
        0
    } else if whole > 0xffff_ffff {
        0xffff_ffff
    } else {
        whole as u32
    }
}

pub open spec fn spec_headcount(players: usize) -> Scalar {
    if players < 1_000_000_000 {
        units(players as i64)
    } else {
        units(1_000_000_000)
    }
}

/// A number of players.
#[verifier::when_used_as_spec(spec_headcount)]
pub fn headcount(players: usize) -> (r: Scalar)
    ensures
        r == spec_headcount(players),
{
    if players < 1_000_000_000 {
        units(players as i64)
    } else {
        units(1_000_000_000)
    }
}

pub open spec fn spec_up_to_five(a: usize, b: usize) -> usize {
    if a >= 5 || b >= 5 || a + b >= 5 {
        5
    } else {
        (a + b) as usize
    }
}

/// The sum of two counts, or five where it is more.
#[verifier::when_used_as_spec(spec_up_to_five)]
pub fn up_to_five(a: usize, b: usize) -> (r: usize)
    ensures
        r == spec_up_to_five(a, b),
{
    if a >= 5 || b >= 5 || a + b >= 5 {
        5
    } else {
        (a + b) as usize
    }
}

pub open spec fn spec_minute(ctx: &StateProcessingContext) -> u32 {
    (ctx.total_match_time / 60_000) as u32
}

/// The minute of the match, of 60 seconds each.
#[verifier::when_used_as_spec(spec_minute)]
pub fn minute(ctx: &StateProcessingContext) -> (r: u32)
    ensures
        r == spec_minute(ctx),
        ctx.total_match_time / 60_000 <= u32::MAX ==> r == ctx.total_match_time / 60_000,
{
    (ctx.total_match_time / 60_000) as u32
}

pub open spec fn spec_is_player(named: Option<u32>, id: u32) -> bool {
    match named {
        Some(other) => other == id,
        None => false,
    }
}

/// Whether a named player is the one with the given number.
#[verifier::when_used_as_spec(spec_is_player)]
pub fn is_player(named: Option<u32>, id: u32) -> (r: bool)
    ensures
        r == spec_is_player(named, id),
{
    match named {
        Some(other) => other == id,
        None => false,
    }
}

/// Somebody is nearby exactly where one of them is no further away than the radius, and then they
/// count; a wider circle holds no fewer.
pub proof fn nearby_means_close(ctx: &StateProcessingContext, radius: Scalar, wider: Scalar)
    requires
        radius <= wider,
    ensures
        ctx.opponent_exists(radius) <==> exists|o: MatchPlayerLite| #[trigger]
            ctx.opponents@.contains(o) && o.distance <= radius,
        ctx.teammate_exists(radius) <==> exists|t: MatchPlayerLite| #[trigger]
            ctx.teammates@.contains(t) && t.distance <= radius,
        ctx.opponents_nearby(radius) > 0 <==> ctx.opponent_exists(radius),
        ctx.opponents_nearby(radius) <= ctx.opponents_nearby(wider),
        ctx.opponents_nearby(wider) <= ctx.opponents@.len(),
{
    let p = |o: MatchPlayerLite| o.distance <= radius;
    let q = |o: MatchPlayerLite| o.distance <= wider;
    assert(ctx.opponents.len() == ctx.opponents@.len());
    scan::count_tells_some(ctx.opponents@, p);
    scan::count_tells_some(ctx.opponents@, q);
    scan::count_keeps_order(ctx.opponents@, p, q);
    scan::some_is_one_of_them(ctx.opponents@, p);
    scan::some_is_one_of_them(ctx.teammates@, |t: MatchPlayerLite| t.distance <= radius);
}

/// Somebody stands around a spot exactly where one of them is no further from it than the radius;
/// a wider circle holds no fewer.
pub proof fn around_means_close(
    ctx: &StateProcessingContext,
    spot: Vec3,
    radius: Scalar,
    wider: Scalar,
)
    requires
        radius <= wider,
    ensures
        ctx.opponents_around(spot, radius) > 0 <==> exists|o: MatchPlayerLite| #[trigger]
            ctx.opponents@.contains(o) && (o.position - spot).magnitude() <= radius,
        ctx.teammates_around(spot, radius) > 0 <==> exists|t: MatchPlayerLite| #[trigger]
            ctx.teammates@.contains(t) && (t.position - spot).magnitude() <= radius,
        ctx.opponents_around(spot, radius) <= ctx.opponents_around(spot, wider),
        ctx.teammates_around(spot, radius) <= ctx.teammates_around(spot, wider),
        ctx.opponents_around(spot, wider) <= ctx.opponents@.len(),
        ctx.teammates_around(spot, wider) <= ctx.teammates@.len(),
{
    let p = |o: MatchPlayerLite| o.position.distance_to(spot) <= radius;
    let q = |o: MatchPlayerLite| o.position.distance_to(spot) <= wider;
    assert(ctx.opponents.len() == ctx.opponents@.len());
    assert(ctx.teammates.len() == ctx.teammates@.len());
    scan::count_tells_some(ctx.opponents@, p);
    scan::count_tells_some(ctx.opponents@, q);
    scan::count_keeps_order(ctx.opponents@, p, q);
    let p = |t: MatchPlayerLite| t.position.distance_to(spot) <= radius;
    let q = |t: MatchPlayerLite| t.position.distance_to(spot) <= wider;
    scan::count_tells_some(ctx.teammates@, p);
    scan::count_tells_some(ctx.teammates@, q);
    scan::count_keeps_order(ctx.teammates@, p, q);
}

/// Two or more stand around a spot exactly where two of them do.
pub proof fn two_around_are_two(ctx: &StateProcessingContext, spot: Vec3, radius: Scalar)
    ensures
        ctx.opponents_around(spot, radius) >= 2 <==> exists|i: int, j: int|
            0 <= i < j < ctx.opponents@.len()
                && (#[trigger] ctx.opponents@[i]).position.distance_to(spot)
                <= radius && (#[trigger] ctx.opponents@[j]).position.distance_to(spot) <= radius,
        ctx.opponents_nearby(radius) >= 2 <==> exists|i: int, j: int|
            0 <= i < j < ctx.opponents@.len()
                && (#[trigger] ctx.opponents@[i]).distance <= radius && (
            #[trigger] ctx.opponents@[j]).distance <= radius,
{
    assert(ctx.opponents.len() == ctx.opponents@.len());
    scan::count_tells_two(
        ctx.opponents@,
        |o: MatchPlayerLite| o.position.distance_to(spot) <= radius,
    );
    scan::count_tells_two(ctx.opponents@, |o: MatchPlayerLite| o.distance <= radius);
}

/// Whoever is found by a number has it, and is on the pitch; nobody is found only where nobody has
/// it. The owner of the ball is found by the number that the ball names, in the own team only
/// where the teams agree.
pub proof fn owner_has_the_number(ctx: &StateProcessingContext, id: u32)
    ensures
        ctx.by_id(id) matches Some(p) ==> ctx.players@.contains(p) && p.id == id,
        ctx.by_id(id) is None ==> forall|p: MatchPlayerLite| #[trigger]
            ctx.players@.contains(p) ==> p.id != id,
        ctx.ball.owner_id is None ==> ctx.owner() is None && ctx.owner_in_team() is None,
        ctx.ball.owner_id == Some(id) ==> ctx.owner() == ctx.by_id(id),
        ctx.owner_in_team() matches Some(p) ==> ctx.owner() == Some(p) && p.team_id
            == ctx.player.team_id,
        (ctx.owner() matches Some(p) && p.team_id == ctx.player.team_id) ==> ctx.owner_in_team()
            is Some,
        ctx.teammate_on_ball() <==> !ctx.ball.in_flight && (ctx.owner() matches Some(p) && p.team_id
            == ctx.player.team_id && p.id != ctx.player.id),
{
    scan::first_is_one_of_them(ctx.players@, |p: MatchPlayerLite| p.id == id);
}

/// The holder is a teammate who owns the ball, the carrier an opponent who has it; the goalkeeper
/// of the opponents is one of them who stands in goal. None is found only where there is none.
pub proof fn carriers_have_the_ball(ctx: &StateProcessingContext, radius: Scalar)
    ensures
        ctx.holder() matches Some(t) ==> ctx.teammates@.contains(t)
            && ctx.ball.owner_id == Some(t.id),
        ctx.holder() is None ==> forall|t: MatchPlayerLite| #[trigger]
            ctx.teammates@.contains(t) ==> ctx.ball.owner_id != Some(t.id),
        ctx.opponent_with_ball() matches Some(o) ==> ctx.opponents@.contains(o) && o.has_ball,
        ctx.opponent_with_ball() is None ==> forall|o: MatchPlayerLite| #[trigger]
            ctx.opponents@.contains(o) ==> !o.has_ball,
        ctx.carrier_within(radius) matches Some(o) ==> ctx.opponents@.contains(o) && o.has_ball
            && o.distance <= radius,
        ctx.carrier_within(radius) is None ==> forall|o: MatchPlayerLite| #[trigger]
            ctx.opponents@.contains(o) ==> !(o.has_ball && o.distance <= radius),
        ctx.opponent_goalkeeper() matches Some(o) ==> ctx.opponents@.contains(o)
            && o.tactical_positions.group == PositionGroup::Goalkeeper,
        ctx.opponent_goalkeeper() is None ==> forall|o: MatchPlayerLite| #[trigger]
            ctx.opponents@.contains(o) ==> o.tactical_positions.group != PositionGroup::Goalkeeper,
{
    scan::first_is_one_of_them(ctx.teammates@, |t: MatchPlayerLite| ctx.ball.is_owned_by(t.id));
    scan::first_is_one_of_them(ctx.opponents@, |o: MatchPlayerLite| o.has_ball);
    scan::first_is_one_of_them(
        ctx.opponents@,
        |o: MatchPlayerLite| o.distance <= radius && o.has_ball,
    );
    scan::first_is_one_of_them(
        ctx.opponents@,
        |o: MatchPlayerLite| o.tactical_positions.is_goalkeeper(),
    );
}

/// The way to the goal leads there, and a player attacks to the right exactly from the left.
pub proof fn way_leads_to_the_goal(ctx: &StateProcessingContext)
    ensures
        ctx.goal() == ctx.player.opponent_goal_position,
        ctx.player.position == flat(units(0), units(0)) ==> ctx.to_goal() == ctx.goal(),
        ctx.player.position == ctx.goal() ==> ctx.to_goal().is_zero(),
        ctx.player.position.x < ctx.goal().x ==> units(0) < ctx.to_goal().x,
        ctx.player.position.x > ctx.goal().x ==> ctx.to_goal().x < units(0),
        ctx.player.position.y < ctx.goal().y ==> units(0) < ctx.to_goal().y,
        ctx.player.position.y > ctx.goal().y ==> ctx.to_goal().y < units(0),
        ctx.player.attacks_right() <==> ctx.player.side == Some(PlayerSide::Left),
        ctx.width().raw == ctx.field_size.width * 1_000_000,
        ctx.height().raw == ctx.field_size.height * 1_000_000,
{
}

/// A share grows with the skill, from nothing at zero to all at the greatest skill, twenty; the
/// strength is a share of a hundred.
pub proof fn shares_grow(a: Scalar, b: Scalar, ctx: &StateProcessingContext)
    requires
        a <= b,
    ensures
        share(a) <= share(b),
        share(units(0)) == units(0),
        share(units(20)) == units(1),
        units(0) <= a ==> share(a).raw * 20 <= a.raw < share(a).raw * 20 + 20,
        ctx.player.condition <= 100 ==> ctx.stamina().raw == ctx.player.condition * 10_000,
{
    crate::scalar::quotient_keeps_order(a, b, units(20));
    if units(0) <= a {
        assert(a.raw * 1_000_000 / 20_000_000 == a.raw / 20);
    }
}

/// Numbers of players and of steps are what they count, as long as a number can hold them.
pub proof fn counts_are_exact(players: usize, steps: u64, a: usize, b: usize)
    ensures
        players < 1_000_000_000 ==> headcount(players).raw == players * 1_000_000,
        steps < 9_000_000_000_000 ==> ticks(steps).raw == steps * 1_000_000,
        a + b <= 5 ==> up_to_five(a, b) == a + b,
        a + b >= 5 ==> up_to_five(a, b) == 5,
        a <= b ==> headcount(a) <= headcount(b),
{
}

/// A named player is one with that number, and an order is given where it is the one.
pub proof fn names_and_orders(
    player: MatchPlayer,
    named: Option<u32>,
    id: u32,
    directive: BehavioralDirective,
)
    ensures
        is_player(named, id) <==> named == Some(id),
        player.has_directive(directive) <==> player.behavioral_directive == Some(directive),
{
}

/// A turn by a right angle keeps the length on the ground and leaves nothing of the old direction.
pub proof fn turns_are_square(v: Vec3)
    requires
        v.x.raw > i64::MIN,
        v.y.raw > i64::MIN,
        v.z == units(0),
    ensures
        crate::vector::raw_square(turned(v)) == crate::vector::raw_square(v),
        turned(v).x.raw * v.x.raw + turned(v).y.raw * v.y.raw == 0,
        turned(v).z == units(0),
        turned(turned(v)).x == v.x.negated(),
        turned(turned(v)).y == v.y.negated(),
        units(0) < v.x ==> units(0) < turned(v).y,
{
    let x: int = v.x.raw as int;
    let y: int = v.y.raw as int;
    assert((-y) * (-y) == y * y) by (nonlinear_arith);
    assert((-y) * x + x * y == 0) by (nonlinear_arith);
}

/// A ball that travels more straight at the player does so at every wider angle; a shot is aimed
/// at
/// the side that it names, and nobody but the named one owns the ball.
pub proof fn ball_goes_where_it_goes(
    ball: Ball,
    narrow: Scalar,
    wide: Scalar,
    side: PlayerSide,
    id: u32,
)
    requires
        wide <= narrow,
    ensures
        ball.is_towards_player_with_angle(narrow) ==> ball.is_towards_player_with_angle(wide),
        ball.is_towards_player_with_angle(ball.heading),
        ball.heading < wide ==> !ball.is_towards_player_with_angle(wide),
        ball.is_shot_at(Some(side)) <==> (
            ball.shot_target matches Some(t) && t.defending_side == side
        ),
        !ball.is_shot_at(None),
        ball.is_owned_by(id) <==> ball.owner_id == Some(id),
{
}

/// A spot lies in an area exactly where neither coordinate leaves it; both corners do.
pub proof fn areas_hold_their_corners(area: Area, spot: Vec3)
    requires
        area.well_formed(),
    ensures
        area.contains(area.min),
        area.contains(area.max),
        area.contains(spot) <==> spot.x.is_between(area.min.x, area.max.x) && spot.y.is_between(
            area.min.y,
            area.max.y,
        ),
{
}

/// The central rule on shots answers each occasion by its own answer: with another answer to one
/// occasion, nothing changes for the others.
pub proof fn occasions_are_kept_apart(ctx: &StateProcessingContext, o: ShotOccasion)
    ensures
        o == ShotOccasion::RunPointBlank ==> ctx.evaluate_forward_shot_decision(o)
            == ctx.shots.run_point_blank,
        o == ShotOccasion::RunClear ==> ctx.evaluate_forward_shot_decision(o)
            == ctx.shots.run_clear,
        o == ShotOccasion::RunBox ==> ctx.evaluate_forward_shot_decision(o) == ctx.shots.run_box,
        o == ShotOccasion::RunAntiOscillation ==> ctx.evaluate_forward_shot_decision(o)
            == ctx.shots.run_anti_oscillation,
        o == ShotOccasion::RunInBehind ==> ctx.evaluate_forward_shot_decision(o)
            == ctx.shots.run_in_behind,
        o == ShotOccasion::DribbleNearGoalkeeper ==> ctx.evaluate_forward_shot_decision(o)
            == ctx.shots.dribble_near_goalkeeper,
        o == ShotOccasion::DribbleClear ==> ctx.evaluate_forward_shot_decision(o)
            == ctx.shots.dribble_clear,
        o == ShotOccasion::DribbleRange ==> ctx.evaluate_forward_shot_decision(o)
            == ctx.shots.dribble_range,
        o == ShotOccasion::DribbleTimeout ==> ctx.evaluate_forward_shot_decision(o)
            == ctx.shots.dribble_timeout,
        o == ShotOccasion::MidfieldDribble ==> ctx.evaluate_forward_shot_decision(o)
            == ctx.shots.midfield_dribble,
        o == ShotOccasion::MidfieldPass ==> ctx.evaluate_forward_shot_decision(o)
            == ctx.shots.midfield_pass,
        o == ShotOccasion::MidfieldPassBailout ==> ctx.evaluate_forward_shot_decision(o)
            == ctx.shots.midfield_pass_bailout,
        o == ShotOccasion::MidfieldRun ==> ctx.evaluate_forward_shot_decision(o)
            == ctx.shots.midfield_run,
        o == ShotOccasion::MidfieldRunHesitation ==> ctx.evaluate_forward_shot_decision(o)
            == ctx.shots.midfield_run_hesitation,
{
}

} // verus!
