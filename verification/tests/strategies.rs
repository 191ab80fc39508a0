use match_strategies::context::{
    minute, Area, Ball, BehavioralDirective, CornerDeliveries, CornerDelivery, FieldSize,
    GamePhase, GoalkeeperSkillProfile, Goalkeeping, MatchPlayer, MatchPlayerLite, Mental,
    MidfielderSkillProfile, PassOptions, Physical, PlayerDistanceFromStartPosition, PlayerSide,
    PositionGroup, Rolls, ShotDecision, ShotDecisions, ShotOccasion, ShotProfile, ShotTarget,
    SkillCurves, Skills, StateProcessingContext, TacticalPosition, TacticalStyle, Team, Technical,
};
use match_strategies::counting::counted;
use match_strategies::forwarders::assisting::ForwardAssistingState;
use match_strategies::forwarders::corner_run::ForwardCornerRunState;
use match_strategies::forwarders::creating_space::{ForwardCreatingSpaceState, ZoneReading};
use match_strategies::forwarders::crossing::ForwardCrossingState;
use match_strategies::forwarders::dribbling::ForwardDribblingState;
use match_strategies::forwarders::intercepting::{time_to, ForwardInterceptingState};
use match_strategies::forwarders::passing::ForwardPassingState;
use match_strategies::forwarders::pressing::ForwardPressingState;
use match_strategies::forwarders::returning::ForwardReturningState;
use match_strategies::forwarders::running::ForwardRunningState;
use match_strategies::forwarders::running_in_behind::ForwardRunningInBehindState;
use match_strategies::forwarders::tackling::ForwardTacklingState;
use match_strategies::forwarders::walking::ForwardWalkingState;
use match_strategies::goalkeepers::catching::{GoalkeeperCatchingState, SaveSpread};
use match_strategies::goalkeepers::clearing::GoalkeeperClearingState;
use match_strategies::goalkeepers::distributing::GoalkeeperDistributingState;
use match_strategies::goalkeepers::holding::GoalkeeperHoldingState;
use match_strategies::goalkeepers::preparing_for_save::GoalkeeperPreparingForSaveState;
use match_strategies::goalkeepers::standing::GoalkeeperStandingState;
use match_strategies::goalkeepers::takeball::GoalkeeperTakeBallState;
use match_strategies::goalkeepers::walking::GoalkeeperWalkingState;
use match_strategies::midfielders::attack_supporting::{Channel, MidfielderAttackSupportingState};
use match_strategies::midfielders::dribbling::MidfielderDribblingState;
use match_strategies::midfielders::guarding::MidfielderGuardingState;
use match_strategies::midfielders::heading::MidfielderHeadingState;
use match_strategies::midfielders::passing::MidfielderPassingState;
use match_strategies::midfielders::pressing::MidfielderPressingState;
use match_strategies::midfielders::returning::MidfielderReturningState;
use match_strategies::midfielders::running::MidfielderRunningState;
use match_strategies::midfielders::standing::MidfielderStandingState;
use match_strategies::midfielders::tackling::MidfielderTacklingState;
use match_strategies::midfielders::walking::MidfielderWalkingState;
use match_strategies::outcome::{
    arrive, arrive_if_any, glide, glide_along, glide_if_any, pursue, seek, still,
    with_forward_state, with_goalkeeper_state, with_midfielder_state, ActivityIntensity, Exertion,
    ForwardState, FoulSeverity, GoalkeeperState, MidfielderState, PlayerEvent, ShotType,
    StateChangeResult,
};
use match_strategies::scalar::{micro, milli, units, Scalar};
use match_strategies::shot_gate_stats::{process_counted, ShotGateStats};
use match_strategies::tackle_stats::{
    process_forward_counted, process_midfielder_counted, TackleStats,
};
use match_strategies::vector::{flat, vec3};
use match_strategies::{shot_gate_stats, tackle_stats};

/// A place in the formation, in the middle.
fn place(group: PositionGroup) -> TacticalPosition {
    TacticalPosition { group, central: true, attacking: false }
}

/// Skills of one level.
fn skills(level: Scalar) -> Skills {
    Skills {
        technical: Technical {
            crossing: level,
            dribbling: level,
            finishing: level,
            first_touch: level,
            heading: level,
            long_shots: level,
            marking: level,
            passing: level,
            tackling: level,
            technique: level,
        },
        mental: Mental {
            aggression: level,
            anticipation: level,
            composure: level,
            decisions: level,
            determination: level,
            off_the_ball: level,
            positioning: level,
            teamwork: level,
            vision: level,
            work_rate: level,
        },
        physical: Physical {
            acceleration: level,
            agility: level,
            balance: level,
            jumping: level,
            pace: level,
            stamina: level,
        },
        goalkeeping: Goalkeeping {
            command_of_area: level,
            communication: level,
            kicking: level,
            reflexes: level,
            rushing_out: level,
        },
    }
}

/// Another player of average skill at a spot.
fn other(id: u32, team_id: u32, group: PositionGroup, x: i64, y: i64) -> MatchPlayerLite {
    let spot = flat(units(x), units(y));
    MatchPlayerLite {
        id: id,
        team_id: team_id,
        position: spot,
        velocity: flat(units(0), units(0)),
        distance: spot.distance_to(flat(units(420), units(272))),
        tactical_positions: place(group),
        skills: skills(units(10)),
        condition: 100,
        has_ball: false,
        clear_pass: true,
        recency_penalty: units(1),
        dribble_attack: units(0),
        pressure_intensity: units(0),
        clear_shot: false,
        pass_value: units(0),
        receiver_positioning: units(0),
        marking: units(0),
    }
}

/// A teammate.
fn mate(id: u32, group: PositionGroup, x: i64, y: i64) -> MatchPlayerLite {
    other(id, 1, group, x, y)
}

/// An opponent.
fn foe(id: u32, group: PositionGroup, x: i64, y: i64) -> MatchPlayerLite {
    other(id, 2, group, x, y)
}

/// A quiet moment: the player in the middle of the pitch, the ball loose some way ahead, nobody
/// else about.
fn calm() -> StateProcessingContext {
    StateProcessingContext {
        player: MatchPlayer {
            id: 7,
            team_id: 1,
            side: Some(PlayerSide::Left),
            position: flat(units(420), units(272)),
            velocity: flat(units(0), units(0)),
            start_position: flat(units(400), units(200)),
            tactical_position: place(PositionGroup::Midfielder),
            skills: skills(units(10)),
            condition: 100,
            has_ball: false,
            can_shoot: true,
            can_attempt_tackle: true,
            clear_shot: false,
            good_shooting_angle: false,
            in_shooting_range: false,
            should_attempt_shot: false,
            under_immediate_pressure: false,
            under_heavy_pressure: false,
            stranded_offside: false,
            on_own_side: false,
            tired: false,
            congested: false,
            congested_near_boundary: false,
            opponent_goal_position: flat(units(840), units(272)),
            distance_from_start_position: units(0),
            position_to_distance: PlayerDistanceFromStartPosition::Small,
            separation_velocity: flat(units(0), units(0)),
            defensive_line: units(0),
            offside_margin: units(0),
            onside_hold_x: units(0),
            onside_free_x: units(0),
            should_follow_waypoints: false,
            waypoint_count: 0,
            behavioral_directive: None,
            byline_commitment_ticks: 0,
            link_target: None,
            supply_target: None,
            pass_streak: 0,
            tackle_timing: units(0),
            defensive_duel: units(0),
            corner_zone: None,
            vacant_midfield_slot: None,
            vacant_forward_slot: None,
            carry_target: flat(units(0), units(0)),
            tactical_style: TacticalStyle::Balanced,
            max_speed: units(1),
            chase_limit_x: units(0),
            goalkeeping: GoalkeeperSkillProfile {
                shot_stopping: units(0),
                dive_reach: units(0),
                handling_profile: units(0),
                aerial_command: units(0),
                positioning: units(0),
                distribution: units(0),
                explosive_mult: units(0),
                condition_mult: units(0),
                poor_skill_penalty: units(0),
                effective_catch_distance: units(0),
                effective_dive_distance: units(0),
            },
            midfield: MidfielderSkillProfile {
                mid_shot_selection: units(0),
                carry_selection: units(0),
                progressive_selection: units(0),
                pass_execution: units(0),
                press_resistance: units(0),
                tackle_profile: units(0),
                discipline: units(0),
                mid_condition_mult: units(0),
                press_time_ticks: 0,
                allows_take_on_one: false,
                allows_take_on_two: false,
                allows_carry_into_space: false,
                allows_through_ball: false,
                allows_killer_ball: false,
                allows_switch_play: false,
            },
            shooting: ShotProfile {
                selection_skill: units(0),
                execution_skill: units(0),
                clear_shot_xg: units(0),
            },
            shooting_direction: flat(units(0), units(0)),
            aerial_contest_won: 0,
            yellow_cards: 0,
            shots_taken: 0,
            should_counterpress: false,
            has_safe_pass: false,
            penalty_area: Area {
                min: flat(units(0), units(0)),
                max: flat(units(0), units(0)),
            },
        },
        ball: Ball {
            position: flat(units(500), units(272)),
            velocity: flat(units(0), units(0)),
            landing_position: flat(units(500), units(272)),
            distance: units(80),
            distance_to_opponent_goal: units(340),
            distance_to_own_goal: units(500),
            direction_to_opponent_goal: flat(units(840), units(272)),
            direction_to_own_goal: flat(units(0), units(272)),
            speed: units(0),
            heading: units(0),
            owner_id: None,
            is_owned: false,
            in_flight: false,
            stable_possession: false,
            opponent_restart: false,
            opponent_goal_kick: false,
            team_attacking_corner: false,
            free_kick_encroaching: false,
            long_reception: false,
            stopped: false,
            on_own_side: false,
            on_own_third: false,
            should_take_immediately: false,
            ownership_duration: 0,
            last_passer: None,
            shot_target: None,
            direct_free_kick: false,
        },
        team: Team {
            control_ball: false,
            best_player_to_chase_ball: false,
            can_shoot: true,
            losing: false,
            phase: GamePhase::Progression,
            press_intensity: units(0),
            should_play_possession: false,
            high_pressing: false,
            counter_window: false,
            counterpress_window: false,
            game_management_intensity: units(0),
            coach_prefers_possession: false,
            coach_min_possession_ticks: 0,
            coach_shooting_reluctance: units(0),
            corner_box_loaded: false,
        },
        players: Vec::new(),
        teammates: Vec::new(),
        opponents: Vec::new(),
        intercept_assignments: Vec::new(),
        field_size: FieldSize { width: 840, height: 545 },
        in_state_time: 0,
        total_match_time: 0,
        time_is_running_out: false,
        foul_time_compression: units(1),
        shots: ShotDecisions {
            run_point_blank: ShotDecision::Hold,
            run_clear: ShotDecision::Hold,
            run_box: ShotDecision::Hold,
            run_anti_oscillation: ShotDecision::Hold,
            run_in_behind: ShotDecision::Hold,
            dribble_near_goalkeeper: ShotDecision::Hold,
            dribble_clear: ShotDecision::Hold,
            dribble_range: ShotDecision::Hold,
            dribble_timeout: ShotDecision::Hold,
            midfield_dribble: ShotDecision::Hold,
            midfield_pass: ShotDecision::Hold,
            midfield_pass_bailout: ShotDecision::Hold,
            midfield_run: ShotDecision::Hold,
            midfield_run_hesitation: ShotDecision::Hold,
        },
        curves: SkillCurves {
            passing_10: units(0),
            passing_13: units(0),
            passing_14: units(0),
            vision_14: units(0),
            decisions_12: units(0),
            teamwork_14: units(0),
            off_the_ball_12: units(0),
            off_the_ball_15: units(0),
            dribbling_10: units(0),
            dribbling_14: units(0),
            agility_10: units(0),
            pace_12: units(0),
            tackling_8: units(0),
            crossing_8: units(0),
        },
        rolls: Rolls {
            quick_pass: units(0),
            create_space: units(0),
            beat_blocker: units(0),
            pass_under_pressure: units(0),
            pass_quality: units(0),
            pass_teamwork: units(0),
            take_on: units(0),
            dribble_out: units(0),
            shot_suppression: units(0),
            tackle_skill: units(0),
            tackle_now: units(0),
            tackle: units(0),
            foul: units(0),
            violent: units(0),
            reckless: units(0),
            point_blank: units(0),
            heading_contest: units(0),
            heading_duel: units(0),
            heading: units(0),
            late_box_run: units(0),
            cross: units(0),
            save: units(0),
            quick_release: units(0),
            distribution: units(0),
            clearance: units(0),
            path_offset: units(0),
            wander_radius: units(0),
            wander_jitter: units(0),
            wander_distance: units(0),
            wander_angle: units(0),
        },
        corners: CornerDeliveries {
            central: None,
            near_post: None,
            far_post: None,
        },
        cutback_runner: None,
        best_pass: PassOptions {
            within_60: None,
            within_200: None,
            within_300: None,
            within_400: None,
        },
        most_advanced_teammate: None,
        quick_sway: units(0),
        slow_sway: units(0),
    }
}

/// The player of a quiet moment gets the ball.
fn on_the_ball() -> StateProcessingContext {
    let mut c = calm();
    c.player.has_ball = true;
    c.ball.is_owned = true;
    c.ball.owner_id = Some(7);
    c.ball.distance = units(0);
    c.team.control_ball = true;
    c
}

fn forward(state: ForwardState) -> Option<StateChangeResult> {
    Some(with_forward_state(state))
}

fn midfielder(state: MidfielderState) -> Option<StateChangeResult> {
    Some(with_midfielder_state(state))
}

fn goalkeeper(state: GoalkeeperState) -> Option<StateChangeResult> {
    Some(with_goalkeeper_state(state))
}

/// A pass of the player to a teammate.
fn pass(to: u32, reason: &'static str) -> PlayerEvent {
    PlayerEvent::PassTo { from: 7, to, target: None, reason }
}

// A forward on a run in behind.

#[test]
fn auto_shoot_under_80u_branch_is_gone() {
    let state = ForwardRunningInBehindState::default();
    let mut c = on_the_ball();
    c.ball.distance_to_opponent_goal = units(10);
    assert_eq!(state.process(&c), forward(ForwardState::Dribbling));
    assert_eq!(ShotOccasion::RunInBehind.label(), "FWD_RIB_SHOT");
    c.shots.run_in_behind = ShotDecision::Shoot { reason: "rule" };
    assert_eq!(
        state.process(&c),
        Some(with_forward_state(ForwardState::Shooting).with_shot_reason("rule"))
    );
    assert_eq!(c.evaluate_forward_shot_decision(ShotOccasion::RunInBehind), c.shots.run_in_behind);
}

#[test]
fn shot_decision_handles_pass_alternative() {
    let state = ForwardRunningInBehindState::default();
    let mut c = on_the_ball();
    c.ball.distance_to_opponent_goal = units(79);
    c.shots.run_in_behind = ShotDecision::Pass;
    assert_eq!(state.process(&c), forward(ForwardState::Passing));
    c.ball.distance_to_opponent_goal = units(80);
    assert_eq!(state.process(&c), forward(ForwardState::Dribbling));
}

#[test]
fn run_in_behind_stops_at_the_line() {
    let state = ForwardRunningInBehindState::default();
    let mut c = calm();
    c.player.defensive_line = units(700);
    c.ball.owner_id = Some(8);
    c.players.push(mate(8, PositionGroup::Midfielder, 300, 272));
    assert_eq!(state.run_target(&c), flat(units(694), units(200)));
    c.ball.in_flight = true;
    assert_eq!(state.run_target(&c), flat(units(840), units(200)));
    c.ball.in_flight = false;
    c.player.side = Some(PlayerSide::Right);
    c.ball.direction_to_opponent_goal = flat(units(0), units(272));
    c.player.defensive_line = units(140);
    assert_eq!(state.run_target(&c), flat(units(146), units(200)));
    // 10 * (1.5 + 0.5 * 0.5 + 0.3)
    assert_eq!(state.sprint_speed(&c), milli(20500));
}

#[test]
fn run_in_behind_needs_a_passer_who_can() {
    let state = ForwardRunningInBehindState::default();
    let mut c = calm();
    assert_eq!(state.process(&c), None);
    c.ball.owner_id = Some(8);
    let mut passer = mate(8, PositionGroup::Midfielder, 300, 272);
    c.players.push(passer);
    assert_eq!(state.process(&c), None);
    passer.skills = skills(units(6));
    c.players[0] = passer;
    assert_eq!(state.process(&c), forward(ForwardState::CreatingSpace));
    passer.skills = skills(units(10));
    c.players[0] = passer;
    c.opponents.push(foe(21, PositionGroup::Defender, 301, 272));
    c.opponents.push(foe(22, PositionGroup::Defender, 300, 273));
    assert!(!state.passer_is_smothered(&c));
    c.opponents.push(foe(23, PositionGroup::Defender, 310, 272));
    assert!(state.passer_is_smothered(&c));
    assert_eq!(state.process(&c), forward(ForwardState::CreatingSpace));
}

// A running forward.

#[test]
fn running_forward_retreats_first() {
    let state = ForwardRunningState::default();
    let mut c = calm();
    c.ball.opponent_restart = true;
    c.ball.should_take_immediately = true;
    c.team.best_player_to_chase_ball = true;
    assert_eq!(state.process(&c), forward(ForwardState::Returning));
    c.ball.opponent_restart = false;
    c.player.stranded_offside = true;
    assert_eq!(state.process(&c), forward(ForwardState::Returning));
    c.player.stranded_offside = false;
    assert_eq!(state.process(&c), forward(ForwardState::TakeBall));
}

#[test]
fn running_forward_follows_the_phase() {
    let state = ForwardRunningState::default();
    let mut c = calm();
    c.team.phase = GamePhase::AttackingTransition;
    assert_eq!(state.process(&c), forward(ForwardState::RunningInBehind));
    c.team.phase = GamePhase::HighPress;
    c.team.best_player_to_chase_ball = true;
    assert_eq!(state.phase_dispatch(&c), None);
    c.ball.distance = units(79);
    assert_eq!(state.phase_dispatch(&c), forward(ForwardState::Pressing));
    c.team.phase = GamePhase::DefensiveTransition;
    assert_eq!(state.phase_dispatch(&c), None);
    c.ball.distance = units(34);
    assert_eq!(state.phase_dispatch(&c), forward(ForwardState::Pressing));
}

/// A forward with the ball and a clear chance from the given distance.
fn chance(distance: i64) -> StateProcessingContext {
    let mut c = on_the_ball();
    c.ball.distance_to_opponent_goal = units(distance);
    c.ball.ownership_duration = 30;
    c.in_state_time = 10;
    c.player.clear_shot = true;
    c
}

#[test]
fn running_forward_asks_the_central_rule() {
    let state = ForwardRunningState::default();
    let mut c = chance(80);
    c.shots.run_clear = ShotDecision::Shoot { reason: "clear" };
    let shot = with_forward_state(ForwardState::Shooting).with_shot_reason("clear");
    assert_eq!(state.process(&c), Some(shot));
    c.shots.run_clear = ShotDecision::Pass;
    assert_eq!(state.process(&c), forward(ForwardState::Passing));
    c.shots.run_clear = ShotDecision::Hold;
    c.player.under_immediate_pressure = true;
    assert_eq!(state.process(&c), forward(ForwardState::Passing));
    c.shots.run_clear = ShotDecision::Shoot { reason: "clear" };
    c.ball.ownership_duration = 29;
    c.player.under_immediate_pressure = false;
    assert_ne!(state.process(&c), Some(shot));
    c.ball.ownership_duration = 30;
    c.player.can_shoot = false;
    assert_eq!(state.process(&c), forward(ForwardState::Passing));
}

#[test]
fn running_forward_point_blank() {
    let state = ForwardRunningState::default();
    let mut c = chance(36);
    assert_eq!(state.process(&c), None);
    c.shots.run_point_blank = ShotDecision::Shoot { reason: "close" };
    assert_eq!(
        state.process(&c),
        Some(with_forward_state(ForwardState::Shooting).with_shot_reason("close"))
    );
    c.shots.run_point_blank = ShotDecision::Pass;
    assert_eq!(state.process(&c), forward(ForwardState::Passing));
}

#[test]
fn result_management_suppresses_shots() {
    let state = ForwardRunningState::default();
    let mut c = chance(80);
    c.shots.run_clear = ShotDecision::Shoot { reason: "clear" };
    c.team.game_management_intensity = milli(700);
    c.team.counter_window = true;
    // 1 - 0.3 / 0.6 * 0.7
    assert_eq!(state.shot_suppression(&c), milli(650));
    c.rolls.shot_suppression = milli(650);
    assert_eq!(state.process(&c), None);
    c.rolls.shot_suppression = milli(649);
    assert_eq!(
        state.process(&c),
        Some(with_forward_state(ForwardState::Shooting).with_shot_reason("clear"))
    );
    c.team.game_management_intensity = units(2);
    assert_eq!(state.shot_suppression(&c), milli(300));
    c.team.game_management_intensity = milli(400);
    assert_eq!(state.shot_suppression(&c), units(1));
}

#[test]
fn counter_attack_is_not_held_up() {
    let state = ForwardRunningState::default();
    let mut c = chance(80);
    c.ball.ownership_duration = 3;
    c.team.coach_prefers_possession = true;
    c.team.coach_min_possession_ticks = 20;
    assert!(state.holds_the_ball(&c));
    assert_eq!(state.process(&c), None);
    c.team.counter_window = true;
    assert!(!state.holds_the_ball(&c));
    let same = MidfielderRunningState::default();
    assert!(!same.holds_the_ball(&c));
    c.team.counter_window = false;
    assert!(same.holds_the_ball(&c));
}

#[test]
fn pressed_forward_shoots_at_once() {
    let state = ForwardRunningState::default();
    let mut c = chance(50);
    c.in_state_time = 4;
    let mut tackler = foe(21, PositionGroup::Defender, 425, 272);
    tackler.skills.technical.tackling = milli(10500);
    c.opponents.push(tackler);
    assert!(!state.snapshot(&c));
    c.opponents[0].skills.technical.tackling = milli(10501);
    assert!(state.snapshot(&c));
    assert_eq!(
        state.process(&c),
        Some(with_forward_state(ForwardState::Shooting).with_shot_reason("FWD_SNAPSHOT_PRESSED"))
    );
}

#[test]
fn forward_line_slots_stay_inside() {
    let state = ForwardRunningState::default();
    let mut c = calm();
    c.ball.position = flat(units(839), units(544));
    let slot = state.forward_slot(&c);
    assert!(slot.x >= units(30) && slot.x <= units(810));
    assert!(slot.y >= units(40) && slot.y <= units(505));
    c.ball.distance = units(400);
    assert_eq!(state.proximity(&c), milli(50));
    c.ball.distance = units(300);
    assert_eq!(state.proximity(&c), milli(250));
}

// Other forwards.

#[test]
fn assisting_forward() {
    let state = ForwardAssistingState::default();
    let mut c = calm();
    assert_eq!(state.process(&c), forward(ForwardState::Running));
    c.team.control_ball = true;
    c.player.on_own_side = true;
    assert_eq!(state.process(&c), None);
    c.player.under_immediate_pressure = true;
    assert_eq!(state.process(&c), forward(ForwardState::Dribbling));
    c.player.under_immediate_pressure = false;
    c.teammates.push(mate(9, PositionGroup::Forward, 560, 272));
    c.teammates.push(mate(10, PositionGroup::Forward, 550, 272));
    assert_eq!(state.find_best_teammate_to_assist(&c), Some(10));
    assert_eq!(state.process(&c), forward(ForwardState::Passing));
    c.player.onside_hold_x = units(600);
    c.player.onside_free_x = units(780);
    assert_eq!(state.velocity(&c), Some(arrive(flat(units(780), units(272)), units(10))));
    c.ball.owner_id = Some(9);
    c.players.push(mate(9, PositionGroup::Forward, 560, 272));
    assert_eq!(state.velocity(&c), Some(arrive(flat(units(600), units(272)), units(10))));
}

#[test]
fn corner_run_holds_the_zone() {
    let state = ForwardCornerRunState::default();
    let mut c = calm();
    assert_eq!(state.process(&c), forward(ForwardState::Running));
    c.ball.team_attacking_corner = true;
    assert_eq!(state.process(&c), None);
    c.ball.owner_id = Some(9);
    assert_eq!(state.process(&c), forward(ForwardState::Running));
    c.player.corner_zone = Some(flat(units(800), units(270)));
    assert_eq!(state.process(&c), None);
    assert_eq!(state.velocity(&c), Some(seek(flat(units(800), units(270)))));
    c.player.corner_zone = Some(flat(units(423), units(272)));
    assert_eq!(state.velocity(&c), Some(still()));
}

#[test]
fn corner_zones_take_turns() {
    let state = ForwardCrossingState::default();
    let mut c = on_the_ball();
    assert_eq!(state.process(&c), forward(ForwardState::Passing));
    c.player.position = flat(units(820), units(20));
    c.in_state_time = 6;
    assert_eq!(state.process(&c), forward(ForwardState::Passing));
    c.ball.team_attacking_corner = true;
    assert_eq!(state.process(&c), None);
    c.team.corner_box_loaded = true;
    let zone = flat(units(830), units(250));
    c.corners.far_post = Some(CornerDelivery { receiver: 9, zone });
    assert_eq!(state.process(&c), forward(ForwardState::Passing));
    c.total_match_time = 4000;
    assert_eq!(state.zone_rotation(&c), 2);
    assert_eq!(
        state.process(&c),
        Some(with_forward_state(ForwardState::Running).with_event(PlayerEvent::PassTo {
            from: 7,
            to: 9,
            target: Some(zone),
            reason: "FWD_CORNER",
        }))
    );
    c.total_match_time = 6000;
    assert_eq!(state.zone_rotation(&c), 0);
    c.in_state_time = 5;
    assert_eq!(state.process(&c), None);
}

#[test]
fn dribbling_forward_shoots_by_the_rule() {
    let state = ForwardDribblingState::default();
    let mut c = on_the_ball();
    assert_eq!(state.process(&c), forward(ForwardState::Running));
    c.opponents.push(foe(21, PositionGroup::Defender, 440, 272));
    assert_eq!(state.process(&c), None);
    c.player.in_shooting_range = true;
    c.player.clear_shot = true;
    c.shots.dribble_clear = ShotDecision::Shoot { reason: "FWD_DRIB_CLEAR" };
    assert_eq!(
        state.process(&c),
        Some(with_forward_state(ForwardState::Shooting).with_shot_reason("FWD_DRIB_CLEAR"))
    );
    c.team.can_shoot = false;
    assert_eq!(state.process(&c), None);
    c.in_state_time = 41;
    assert_eq!(state.process(&c), forward(ForwardState::Passing));
    c.player.byline_commitment_ticks = 1;
    assert_eq!(state.process(&c), None);
    c.player.behavioral_directive = Some(BehavioralDirective::LayItOffFirstTouch);
    assert_eq!(state.process(&c), forward(ForwardState::Passing));
}

#[test]
fn intercepting_forward() {
    let state = ForwardInterceptingState::default();
    let mut c = calm();
    assert_eq!(state.process(&c), None);
    c.ball.opponent_restart = true;
    assert_eq!(state.process(&c), forward(ForwardState::Pressing));
    c.ball.opponent_restart = false;
    c.ball.distance = units(49);
    assert_eq!(state.process(&c), forward(ForwardState::TakeBall));
    c.ball.distance = units(100);
    c.opponents.push(foe(21, PositionGroup::Defender, 480, 272));
    assert_eq!(state.process(&c), forward(ForwardState::Pressing));
    // 80 units at a pace of 10
    assert_eq!(
        time_to(c.ball.position, c.player.position, c.player.skills.physical.pace),
        units(8)
    );
}

#[test]
fn passing_forward_picks_the_best() {
    let state = ForwardPassingState::default();
    let mut c = on_the_ball();
    c.in_state_time = 8;
    assert_eq!(state.process(&c), None);
    c.in_state_time = 31;
    assert_eq!(state.process(&c), forward(ForwardState::Running));
    c.ball.distance_to_opponent_goal = units(39);
    c.player.clear_shot = true;
    assert_eq!(state.process(&c), forward(ForwardState::Shooting));
    c.player.skills.mental.vision = units(2);
    assert_eq!(state.vision_range(&c), units(100));
    c.player.skills.mental.vision = units(12);
    assert_eq!(state.vision_range(&c), units(360));
    assert_eq!(state.min_scan_time(&c), 8);
    c.player.under_immediate_pressure = true;
    assert_eq!(state.min_scan_time(&c), 3);
}

#[test]
fn pressing_forward() {
    let state = ForwardPressingState::default();
    let mut c = calm();
    assert_eq!(state.process(&c), None);
    assert_eq!(state.velocity(&c), Some(arrive(c.player.start_position, units(30))));
    c.ball.distance = units(79);
    assert_eq!(state.velocity(&c), Some(pursue(c.ball.position, c.ball.velocity)));
    c.ball.distance = units(121);
    assert_eq!(state.process(&c), forward(ForwardState::Returning));
    c.ball.distance = units(29);
    c.ball.is_owned = true;
    assert_eq!(state.process(&c), forward(ForwardState::Tackling));
    c.ball.opponent_restart = true;
    assert_eq!(state.process(&c), forward(ForwardState::Returning));
}

#[test]
fn restart_is_not_contested_on_the_way_back() {
    let mut c = calm();
    c.player.distance_from_start_position = units(50);
    c.player.start_position = flat(units(200), units(200));
    let forward_state = ForwardReturningState::default();
    let midfielder_state = MidfielderReturningState::default();
    let mut keeper = foe(21, PositionGroup::Goalkeeper, 440, 272);
    keeper.has_ball = true;
    c.opponents.push(keeper);
    assert_eq!(forward_state.process(&c), forward(ForwardState::Intercepting));
    assert_eq!(midfielder_state.process(&c), midfielder(MidfielderState::Tackling));
    c.ball.opponent_restart = true;
    assert_eq!(forward_state.process(&c), None);
    assert_eq!(midfielder_state.process(&c), None);
}

#[test]
fn walking_forward_leaves_offside() {
    let state = ForwardWalkingState::default();
    let mut c = calm();
    assert_eq!(state.process(&c), None);
    c.player.stranded_offside = true;
    c.ball.opponent_goal_kick = true;
    assert_eq!(state.process(&c), forward(ForwardState::Returning));
    c.player.stranded_offside = false;
    c.ball.is_owned = true;
    assert_eq!(state.process(&c), None);
    c.ball.opponent_goal_kick = false;
    assert_eq!(state.process(&c), forward(ForwardState::Running));
    c.player.vacant_midfield_slot = Some(flat(units(1), units(2)));
    assert_eq!(state.velocity(&c), Some(arrive(flat(units(1), units(2)), units(30))));
}

#[test]
fn forward_zone_choice_is_inside() {
    let state = ForwardCreatingSpaceState::default();
    let mut c = calm();
    c.team.control_ball = true;
    c.opponents.push(foe(21, PositionGroup::Defender, 480, 250));
    c.opponents.push(foe(22, PositionGroup::Defender, 480, 290));
    let candidates = state.free_zone_candidates(&c);
    let mut readings: Vec<ZoneReading> = Vec::new();
    for _ in candidates.iter() {
        readings.push(ZoneReading { open_angle: units(0), claimed: false });
    }
    let zone = state.find_optimal_free_zone(&c, &readings).unwrap();
    assert!(zone.x >= units(0) && zone.x <= units(840));
    assert!(zone.y >= units(0) && zone.y <= units(545));
    // With all but one spot taken, that one is chosen.
    let last = candidates.len() - 1;
    for i in 0..last {
        readings[i].claimed = true;
    }
    assert_eq!(state.find_optimal_free_zone(&c, &readings), candidates[last]);
    assert_eq!(candidates[last], Some(c.player.position));
}

/// A forward next to an opponent with the ball, free to tackle.
fn duel() -> StateProcessingContext {
    let mut c = calm();
    c.ball.is_owned = true;
    c.ball.distance = units(4);
    c.team.best_player_to_chase_ball = true;
    c.curves.tackling_8 = units(1);
    let mut carrier = foe(21, PositionGroup::Midfielder, 424, 272);
    carrier.has_ball = true;
    c.opponents.push(carrier);
    c
}

#[test]
fn forward_tackle_is_followed_by_a_pause() {
    let state = ForwardTacklingState::default();
    let mut c = duel();
    c.rolls.foul = units(1);
    c.rolls.tackle = units(1);
    let missed = with_forward_state(ForwardState::Pressing).with_tackle_cooldown();
    assert_eq!(state.process(&c), Some(missed));
    c.rolls.tackle = units(0);
    let won = PlayerEvent::TacklingBall { player: 7 };
    assert_eq!(
        state.process(&c),
        Some(with_forward_state(ForwardState::Running).with_event(won).with_tackle_cooldown())
    );
    c.player.can_attempt_tackle = false;
    assert_eq!(state.process(&c), forward(ForwardState::Pressing));
    c.player.can_attempt_tackle = true;
    c.ball.free_kick_encroaching = true;
    assert_eq!(state.process(&c), forward(ForwardState::Pressing));
}

#[test]
fn tackle_without_an_angle_fails() {
    let state = ForwardTacklingState::default();
    let mut c = duel();
    c.rolls.foul = units(1);
    c.opponents[0].position = c.player.position;
    c.opponents[0].distance = units(0);
    assert_eq!(state.tackle_angle_factor(&c, c.opponents[0]), Some(milli(800)));
    c.opponents[0].velocity = flat(units(1), units(0));
    assert_eq!(state.tackle_angle_factor(&c, c.opponents[0]), None);
    assert_eq!(state.success_chance(&c, c.opponents[0]), None);
    assert!(!state.is_from_behind(&c, c.opponents[0]));
    let missed = with_forward_state(ForwardState::Pressing).with_tackle_cooldown();
    assert_eq!(state.process(&c), Some(missed));
    c.opponents[0].position = flat(units(424), units(272));
    assert_eq!(state.tackle_angle_factor(&c, c.opponents[0]), Some(units(0)));
    assert!(state.is_from_behind(&c, c.opponents[0]));
}

#[test]
fn offside_costs_a_zone_65() {
    let state = ForwardCreatingSpaceState::default();
    let mut c = calm();
    c.player.offside_margin = units(2);
    c.teammates.push(mate(8, PositionGroup::Midfielder, 500, 272));
    c.opponents.push(foe(21, PositionGroup::Defender, 640, 250));
    let spot = flat(units(600), units(300));
    let holder = Some(c.teammates[0]);
    let score = |line: i64| {
        state.evaluate_forward_position_fast(&c, spot, holder, units(line), true, units(1))
    };
    assert_eq!(score(598) - score(597), units(65));
    assert_eq!(score(598), score(700));
    assert_eq!(score(597), score(100));
}

#[test]
fn movements_come_to_velocities() {
    let steered = Some(flat(units(2), units(0)));
    let run = arrive(flat(units(0), units(0)), units(1));
    assert_eq!(run.velocity(steered), steered);
    assert_eq!(run.scaled(milli(500)).velocity(steered), Some(flat(units(1), units(0))));
    assert_eq!(still().velocity(steered), Some(flat(units(0), units(0))));
    let pushed = run.plus(flat(units(1), units(4)));
    assert_eq!(pushed.velocity(steered), Some(flat(units(3), units(4))));
    // 5 long, cut to 1
    let cut = pushed.no_faster_than(units(1));
    assert_eq!(cut.velocity(steered), Some(flat(milli(600), milli(800))));
    assert_eq!(pushed.no_faster_than(units(5)).velocity(steered), Some(flat(units(3), units(4))));
    // no velocity of the steering, no velocity at all
    assert_eq!(pushed.velocity(None), None);
    assert_eq!(still().velocity(None), Some(flat(units(0), units(0))));
    let nowhere = glide_along(None, units(3)).plus(flat(units(1), units(4))).scaled(units(2));
    assert_eq!(nowhere.velocity(steered), None);
    assert_eq!(glide_along(steered, units(3)), glide(flat(units(6), units(0))));
}

#[test]
fn tackles_are_counted() {
    let state = ForwardTacklingState::default();
    let mut stats = TackleStats::default();
    let mut c = duel();
    c.rolls.foul = units(1);
    let r = process_forward_counted(&state, &c, &mut stats);
    assert_eq!(r, state.process(&c));
    c.rolls.tackle = units(1);
    process_forward_counted(&state, &c, &mut stats);
    c.player.can_attempt_tackle = false;
    process_forward_counted(&state, &c, &mut stats);
    assert_eq!(tackle_stats::snapshot(&stats), [0, 0, 3, 0, 0, 0, 2, 0, 0, 0, 1, 0]);

    let mid = MidfielderTacklingState::default();
    c.player.can_attempt_tackle = true;
    c.rolls.tackle = milli(300);
    assert_eq!(process_midfielder_counted(&mid, &c, milli(500), &mut stats), mid.process(&c, milli(500)));
    process_midfielder_counted(&mid, &c, milli(300), &mut stats);
    c.ball.in_flight = true;
    process_midfielder_counted(&mid, &c, milli(500), &mut stats);
    assert_eq!(tackle_stats::snapshot(&stats), [0, 3, 3, 0, 0, 2, 2, 0, 0, 1, 1, 0]);
    tackle_stats::reset(&mut stats);
    assert_eq!(tackle_stats::snapshot(&stats), [0; 12]);
}

#[test]
fn gates_are_counted_as_a_waterfall() {
    let state = ForwardRunningState::default();
    let mut stats = ShotGateStats::default();
    let mut c = chance(80);
    c.shots.run_clear = ShotDecision::Shoot { reason: "clear" };
    let r = process_counted(&state, &c, &mut stats);
    assert_eq!(r, state.process(&c));
    assert_eq!(shot_gate_stats::snapshot(&stats), [1, 1, 1, 1, 1, 1, 1, 1, 1, 1, 0, 0]);
    c.shots.run_clear = ShotDecision::Hold;
    process_counted(&state, &c, &mut stats);
    assert_eq!(shot_gate_stats::snapshot(&stats), [2, 2, 2, 2, 2, 2, 2, 1, 1, 1, 0, 1]);
    c.player.clear_shot = false;
    process_counted(&state, &c, &mut stats);
    assert_eq!(shot_gate_stats::snapshot(&stats), [3, 3, 3, 3, 3, 3, 2, 1, 1, 1, 0, 1]);
    c.ball.ownership_duration = 0;
    process_counted(&state, &c, &mut stats);
    assert_eq!(shot_gate_stats::snapshot(&stats), [4, 4, 3, 4, 3, 3, 2, 1, 1, 1, 0, 1]);
    // Out of range only the answers of the rule count.
    let mut far = chance(91);
    far.shots.run_clear = ShotDecision::Pass;
    process_counted(&state, &far, &mut stats);
    assert_eq!(shot_gate_stats::snapshot(&stats), [4, 4, 3, 4, 3, 3, 2, 1, 1, 1, 1, 1]);
    // What is decided before the gates does not count.
    c.ball.team_attacking_corner = true;
    process_counted(&state, &c, &mut stats);
    assert_eq!(shot_gate_stats::snapshot(&stats), [4, 4, 3, 4, 3, 3, 2, 1, 1, 1, 1, 1]);
    shot_gate_stats::reset(&mut stats);
    assert_eq!(shot_gate_stats::snapshot(&stats), [0; 12]);
}

#[test]
fn full_counters_start_again() {
    assert_eq!(counted(u64::MAX, true), 0);
    assert_eq!(counted(u64::MAX, false), u64::MAX);
    assert_eq!(counted(41, true), 42);
}

// A running midfielder.

#[test]
fn running_midfielder_retreats_first() {
    let state = MidfielderRunningState::default();
    let mut c = calm();
    c.team.counterpress_window = true;
    c.ball.distance = units(10);
    assert_eq!(state.process(&c), midfielder(MidfielderState::Tackling));
    c.player.stranded_offside = true;
    assert_eq!(state.process(&c), midfielder(MidfielderState::Returning));
    c.player.stranded_offside = false;
    c.ball.opponent_restart = true;
    assert_eq!(state.process(&c), midfielder(MidfielderState::Tackling));
    c.team.counterpress_window = false;
    assert_eq!(state.process(&c), midfielder(MidfielderState::Returning));
}

#[test]
fn running_midfielder_follows_the_phase() {
    let state = MidfielderRunningState::default();
    let mut c = calm();
    c.team.phase = GamePhase::LowBlock;
    assert_eq!(state.process(&c), midfielder(MidfielderState::Returning));
    c.team.phase = GamePhase::AttackingTransition;
    assert_eq!(state.process(&c), midfielder(MidfielderState::AttackSupporting));
    c.team.phase = GamePhase::DefensiveTransition;
    assert_eq!(state.phase_dispatch(&c), None);
    c.ball.distance = units(81);
    assert_eq!(state.phase_dispatch(&c), midfielder(MidfielderState::Returning));
    c.ball.distance = units(44);
    c.team.best_player_to_chase_ball = true;
    assert_eq!(state.phase_dispatch(&c), midfielder(MidfielderState::Pressing));
    c.player.has_ball = true;
    assert_eq!(state.phase_dispatch(&c), None);
}

#[test]
fn running_midfielder_takes_clear_chances() {
    let state = MidfielderRunningState::default();
    let mut c = chance(52);
    c.player.good_shooting_angle = true;
    c.player.shooting.clear_shot_xg = milli(180);
    let clear = with_midfielder_state(MidfielderState::Shooting).with_shot_reason("MID_CLEAR_CHANCE");
    assert_eq!(state.process(&c), Some(clear));
    c.player.shots_taken = 5;
    assert_ne!(state.process(&c), Some(clear));
    c.shots.midfield_run = ShotDecision::Shoot { reason: "MID_SHOOT" };
    assert_eq!(
        state.process(&c),
        Some(with_midfielder_state(MidfielderState::Shooting).with_shot_reason("MID_SHOOT"))
    );
    c.ball.distance_to_opponent_goal = units(53);
    assert_eq!(
        state.process(&c),
        Some(with_midfielder_state(MidfielderState::DistanceShooting).with_shot_reason("MID_SHOOT"))
    );
    c.ball.distance_to_opponent_goal = units(89);
    assert_eq!(state.shot(&c), None);
    c.ball.distance_to_opponent_goal = units(60);
    c.shots.midfield_run = ShotDecision::Pass;
    assert_eq!(state.shot(&c), None);
    c.best_pass.within_300 = Some(mate(9, PositionGroup::Forward, 500, 272));
    assert_eq!(
        state.process(&c),
        Some(with_midfielder_state(MidfielderState::Standing).with_event(pass(9, "MID_SHOOT_LAYOFF")))
    );
}

#[test]
fn running_midfielder_combines() {
    let state = MidfielderRunningState::default();
    let mut c = on_the_ball();
    c.ball.stable_possession = true;
    c.ball.ownership_duration = 10;
    c.ball.last_passer = Some(9);
    c.players.push(mate(9, PositionGroup::Midfielder, 520, 272));
    c.teammates.push(mate(9, PositionGroup::Midfielder, 520, 272));
    assert_eq!(state.find_one_two_return(&c), Some(mate(9, PositionGroup::Midfielder, 520, 272)));
    // In a quick counter the pass is the same with another reason.
    c.ball.distance_to_opponent_goal = units(420);
    assert_eq!(
        state.process(&c),
        Some(with_midfielder_state(MidfielderState::Running).with_event(pass(9, "MID_RUNNING_COUNTER_ATTACK")))
    );
    c.ball.ownership_duration = 15;
    assert_eq!(
        state.process(&c),
        Some(with_midfielder_state(MidfielderState::Running).with_event(pass(9, "MID_RUNNING_ONE_TWO_RETURN")))
    );
    c.opponents.push(foe(21, PositionGroup::Defender, 530, 272));
    assert_eq!(state.find_one_two_return(&c), None);
    // 1000 - 320 + 0 + 0 + 0: an opponent is near, nobody runs
    assert_eq!(state.counter_value(&c, c.teammates[0]), units(680));
    c.opponents[0].position = flat(units(700), units(272));
    assert_eq!(state.counter_value(&c, c.teammates[0]), units(780));
}

#[test]
fn running_midfielder_hesitates_only_so_long() {
    let state = MidfielderRunningState::default();
    let mut c = on_the_ball();
    c.teammates.push(mate(9, PositionGroup::Defender, 300, 272));
    c.in_state_time = 150;
    assert_eq!(state.process(&c), None);
    c.in_state_time = 151;
    assert_eq!(
        state.process(&c),
        Some(
            with_midfielder_state(MidfielderState::Running)
                .with_event(pass(9, "MID_RUNNING_ANTI_OSCILLATION_FALLBACK_ANY"))
        )
    );
    c.teammates.push(mate(10, PositionGroup::Forward, 500, 272));
    assert_eq!(
        state.process(&c),
        Some(
            with_midfielder_state(MidfielderState::Running)
                .with_event(pass(10, "MID_RUNNING_ANTI_OSCILLATION_FALLBACK"))
        )
    );
    c.best_pass.within_300 = Some(c.teammates[0]);
    assert_eq!(
        state.process(&c),
        Some(
            with_midfielder_state(MidfielderState::Running)
                .with_event(pass(9, "MID_RUNNING_ANTI_OSCILLATION"))
        )
    );
}

#[test]
fn running_midfielder_passes_back_safely() {
    let state = MidfielderRunningState::default();
    let mut c = on_the_ball();
    c.teammates.push(mate(2, PositionGroup::Defender, 300, 272));
    c.teammates.push(mate(1, PositionGroup::Goalkeeper, 200, 272));
    c.teammates.push(mate(9, PositionGroup::Forward, 500, 272));
    assert_eq!(state.safety(&c, c.teammates[0]), units(70));
    assert_eq!(state.safety(&c, c.teammates[1]), units(80));
    assert_eq!(state.safety(&c, c.teammates[2]), units(15));
    assert_eq!(state.find_safe_backward_pass(&c), Some(c.teammates[1]));
    c.teammates[1].clear_pass = false;
    assert_eq!(state.find_safe_backward_pass(&c), Some(c.teammates[0]));
    // never up the pitch, but to the side
    c.teammates[0].clear_pass = false;
    assert_eq!(state.find_safe_backward_pass(&c), None);
    c.teammates[2] = mate(9, PositionGroup::Forward, 420, 372);
    assert_eq!(state.find_safe_backward_pass(&c), Some(c.teammates[2]));
    c.teammates[2] = mate(9, PositionGroup::Forward, 500, 272);
    c.player.side = Some(PlayerSide::Right);
    assert_eq!(state.find_safe_backward_pass(&c), Some(c.teammates[2]));
}

#[test]
fn counter_attack_goes_to_the_best() {
    let state = MidfielderRunningState::default();
    let mut c = calm();
    assert_eq!(state.find_counter_attack_pass(&c), None);
    // 1000 - 320 + 100 and 1000 - 340 + 200 + 100
    c.teammates.push(mate(8, PositionGroup::Midfielder, 520, 272));
    c.teammates.push(mate(9, PositionGroup::Forward, 500, 272));
    c.teammates[0].distance = units(100);
    c.teammates[1].distance = units(80);
    c.teammates[0].clear_pass = true;
    c.teammates[1].clear_pass = true;
    assert_eq!(state.counter_value(&c, c.teammates[0]), units(780));
    assert_eq!(state.counter_value(&c, c.teammates[1]), units(960));
    assert_eq!(state.find_counter_attack_pass(&c), Some(c.teammates[1]));
    c.teammates[1].clear_pass = false;
    assert_eq!(state.find_counter_attack_pass(&c), Some(c.teammates[0]));
    c.teammates[0].distance = units(301);
    assert_eq!(state.find_counter_attack_pass(&c), None);
}

#[test]
fn pressure_on_a_midfielder() {
    let state = MidfielderRunningState::default();
    let mut c = on_the_ball();
    assert_eq!(state.calculate_pressing_intensity(&c), units(0));
    c.opponents.push(foe(21, PositionGroup::Midfielder, 430, 272));
    c.opponents.push(foe(22, PositionGroup::Midfielder, 440, 272));
    c.opponents.push(foe(23, PositionGroup::Midfielder, 470, 272));
    c.opponents.push(foe(24, PositionGroup::Midfielder, 471, 272));
    // (0.5 + 0.3 + 0.1) / 2
    assert_eq!(state.calculate_pressing_intensity(&c), milli(450));
    c.player.midfield.pass_execution = milli(500);
    assert!(state.should_pass(&c));
    c.player.midfield.pass_execution = milli(450);
    assert!(!state.should_pass(&c));
}

#[test]
fn midfielder_without_the_ball_keeps_shape() {
    let state = MidfielderRunningState::default();
    let mut c = calm();
    // 400 + (500 - 420) * 0.15 + 10 and 200 + (272 - 272.5) * 0.45, on the ball's side
    assert_eq!(state.block_target(&c), flat(units(422), milli(199775)));
    assert_eq!(
        state.velocity(&c),
        Some(arrive(flat(units(422), milli(199775)), units(25)))
    );
    c.team.control_ball = true;
    // 400 * 0.85 + (500 + 40) * 0.15 and 200 + (280 - 200) * 0
    assert_eq!(state.support_target(&c), flat(units(421), units(200)));
    c.ball.position = flat(units(500), units(269));
    // 200 + (260 - 200) * 0.15
    assert_eq!(state.support_target(&c), flat(units(421), units(209)));
    c.ball.distance = units(39);
    c.player.start_position = flat(units(0), units(600));
    assert_eq!(state.support_target(&c), flat(units(30), units(515)));
}

#[test]
fn midfielder_keeps_to_the_own_lane() {
    let state = MidfielderRunningState::default();
    let mut c = calm();
    c.team.control_ball = true;
    c.ball.distance_to_opponent_goal = units(300);
    assert_eq!(state.process(&c), midfielder(MidfielderState::AttackSupporting));
    c.ball.position = flat(units(500), units(300));
    assert_eq!(state.process(&c), None);
    c.teammates.push(mate(9, PositionGroup::Forward, 425, 272));
    c.teammates.push(mate(10, PositionGroup::Forward, 415, 272));
    assert_eq!(state.process(&c), midfielder(MidfielderState::CreatingSpace));
}

#[test]
fn midfielder_sways_with_the_ball() {
    let state = MidfielderRunningState::default();
    let mut c = on_the_ball();
    assert_eq!(
        state.calculate_simple_ball_movement(&c),
        arrive(flat(units(460), units(272)), units(20))
    );
    // (15, 190.75 - 272) has a length of 82.62...: mostly to the side
    let moved = state.calculate_possession_retention_movement(&c);
    assert_eq!(moved.factor, milli(600));
    c.quick_sway = units(1);
    let aside = state.calculate_simple_ball_movement(&c);
    assert_ne!(aside, arrive(flat(units(460), units(272)), units(20)));
}

// Other midfielders.

#[test]
fn only_one_midfielder_makes_the_run() {
    let state = MidfielderAttackSupportingState::default();
    let mut one = calm();
    let mut two = calm();
    two.player.id = 8;
    one.teammates.push(mate(8, PositionGroup::Midfielder, 420, 300));
    two.teammates.push(mate(7, PositionGroup::Midfielder, 420, 272));
    one.teammates.push(mate(2, PositionGroup::Defender, 200, 272));
    two.teammates.push(mate(2, PositionGroup::Defender, 200, 272));
    one.players.push(mate(7, PositionGroup::Midfielder, 420, 272));
    one.players.push(mate(8, PositionGroup::Midfielder, 420, 300));
    two.players.push(mate(7, PositionGroup::Midfielder, 420, 272));
    two.players.push(mate(8, PositionGroup::Midfielder, 420, 300));
    // 10 * 0.42 + 10 * 0.26 + 20 * 0.5 * 0.32
    assert_eq!(state.attacking_drive(one.player.skills), units(10));
    assert!(state.should_make_attacking_run(&one));
    assert!(!state.should_make_attacking_run(&two));
    two.player.skills = skills(units(11));
    one.players[1].skills = skills(units(11));
    assert!(!state.should_make_attacking_run(&one));
    assert!(state.should_make_attacking_run(&two));
    two.teammates.truncate(1);
    assert!(!state.should_make_attacking_run(&two));
}

#[test]
fn arriving_runner_times_the_run() {
    let state = MidfielderAttackSupportingState::default();
    let mut c = calm();
    c.ball.position = flat(units(800), units(272));
    assert_eq!(state.arrival_depth(&c), units(40));
    // on the far side of the ball by 0.07 * 545, cut to the root of 52 * 52 - 40 * 40
    let spot = state.calculate_arriving_runner_target(&c);
    assert_eq!(spot, flat(units(800), micro(305226495)));
    assert!(spot.distance_to(c.goal()) <= units(52));
    c.ball.position = flat(units(610), units(272));
    assert_eq!(state.arrival_depth(&c), units(82));
    // cut to the root of 88 * 88 - 82 * 82
    let spot = state.calculate_arriving_runner_target(&c);
    assert_eq!(spot, flat(units(758), micro(303937438)));
    assert!(spot.distance_to(c.goal()) <= units(88));
    // 758 is beyond 750: held back by 18
    c.opponents.push(foe(21, PositionGroup::Defender, 750, 272));
    assert_eq!(state.calculate_arriving_runner_target(&c), flat(units(740), micro(303937438)));
    // and behind 700
    c.opponents[0] = foe(21, PositionGroup::Defender, 700, 272);
    assert_eq!(state.calculate_arriving_runner_target(&c), flat(units(700), micro(303937438)));
    // between the ends nothing is cut: 40 + 0.5 * 42 deep, 38.15 aside
    c.opponents.clear();
    c.ball.position = flat(milli(697500), units(272));
    assert_eq!(state.arrival_depth(&c), units(61));
    assert_eq!(state.calculate_arriving_runner_target(&c), flat(units(779), milli(310650)));
}

#[test]
fn ball_holder_is_a_teammate() {
    let state = MidfielderAttackSupportingState::default();
    let mut c = calm();
    c.players.push(mate(7, PositionGroup::Midfielder, 420, 272));
    c.players.push(mate(8, PositionGroup::Midfielder, 300, 272));
    c.players.push(foe(21, PositionGroup::Forward, 300, 272));
    assert_eq!(state.find_ball_holder(&c), None);
    c.ball.owner_id = Some(8);
    assert_eq!(state.find_ball_holder(&c), Some(c.players[1]));
    c.ball.owner_id = Some(7);
    assert_eq!(state.find_ball_holder(&c), None);
    c.ball.owner_id = Some(21);
    assert_eq!(state.find_ball_holder(&c), None);
}

#[test]
fn crowd_is_counted_around_a_spot() {
    let state = MidfielderAttackSupportingState::default();
    let mut c = calm();
    c.teammates.push(mate(8, PositionGroup::Midfielder, 300, 272));
    c.opponents.push(foe(21, PositionGroup::Defender, 310, 272));
    c.opponents.push(foe(22, PositionGroup::Defender, 420, 280));
    assert_eq!(state.calculate_crowd_factor(&c, flat(units(305), units(272))), milli(250));
    assert_eq!(state.calculate_crowd_factor(&c, c.player.position), milli(125));
    assert_eq!(state.calculate_crowd_factor(&c, flat(units(0), units(0))), units(0));
}

#[test]
fn channels_come_by_congestion() {
    let state = MidfielderAttackSupportingState::default();
    let mut c = calm();
    let goal = c.goal();
    assert_eq!(
        state.identify_free_channels(&c, goal),
        vec![Channel { center_y: units(272), width: units(30), congestion: units(0) }]
    );
    c.opponents.push(foe(21, PositionGroup::Defender, 700, 300));
    c.opponents.push(foe(22, PositionGroup::Defender, 700, 200));
    c.opponents.push(foe(23, PositionGroup::Defender, 700, 230));
    c.opponents.push(foe(24, PositionGroup::Midfielder, 700, 266));
    c.opponents.push(foe(25, PositionGroup::Defender, 700, 310));
    // 200-230 holds both of its defenders, 230-300 one midfielder, 300-310 is too narrow
    assert_eq!(
        state.identify_free_channels(&c, goal),
        vec![
            Channel { center_y: units(265), width: units(70), congestion: micro(333333) },
            Channel { center_y: units(215), width: units(30), congestion: micro(666666) },
        ]
    );
    assert_eq!(state.best_channel(&c).map(|x| x.center_y), Some(units(265)));
}

#[test]
fn box_is_entered_through_the_widest_gap() {
    let state = MidfielderAttackSupportingState::default();
    let mut c = calm();
    let goal = c.goal();
    assert_eq!(state.find_box_entry_point(&c, goal), flat(units(740), units(272)));
    c.opponents.push(foe(21, PositionGroup::Defender, 750, 200));
    c.opponents.push(foe(22, PositionGroup::Defender, 750, 360));
    assert_eq!(state.find_box_entry_point(&c, goal), flat(units(690), units(280)));
    c.opponents.truncate(1);
    // 0.65 * 545 - 200 is more than no gap at all, and 0.35 * 545 - 200 is not
    assert_eq!(state.find_box_entry_point(&c, goal), flat(units(690), units(352)));
}

#[test]
fn support_is_spaced_out() {
    let state = MidfielderAttackSupportingState::default();
    let mut c = calm();
    c.teammates.push(mate(9, PositionGroup::Forward, 460, 272));
    // 40 apart: pushed by 0.5 * 35 away
    assert_eq!(
        state.apply_teammate_spacing(&c, flat(units(500), units(272))),
        flat(milli(517500), units(272))
    );
    assert_eq!(
        state.apply_teammate_spacing(&c, flat(units(540), units(272))),
        flat(units(540), units(272))
    );
    assert_eq!(
        state.apply_teammate_spacing(&c, flat(units(900), units(0))),
        flat(units(830), units(10))
    );
}

#[test]
fn supporting_midfielder() {
    let state = MidfielderAttackSupportingState::default();
    let mut c = calm();
    c.ball.distance = units(39);
    assert_eq!(state.process(&c), midfielder(MidfielderState::Tackling));
    c.ball.distance = units(160);
    c.in_state_time = 59;
    assert_eq!(state.process(&c), None);
    c.in_state_time = 60;
    assert_eq!(state.process(&c), midfielder(MidfielderState::Running));
    c.ball.on_own_side = true;
    assert_eq!(state.process(&c), midfielder(MidfielderState::Returning));
    c.team.control_ball = true;
    assert_eq!(state.process(&c), None);
    c.in_state_time = 301;
    assert_eq!(state.process(&c), midfielder(MidfielderState::Running));
    c.player.position_to_distance = PlayerDistanceFromStartPosition::Big;
    assert_eq!(state.process(&c), midfielder(MidfielderState::Returning));
    c.ball.distance_to_opponent_goal = units(251);
    c.curves.off_the_ball_12 = milli(500);
    c.rolls.late_box_run = milli(499);
    assert_eq!(state.process(&c), None);
    assert_eq!(state.calculate_urgency_factor(&c), milli(500));
    c.team.losing = true;
    c.time_is_running_out = true;
    c.ball.distance_to_opponent_goal = units(199);
    assert_eq!(state.calculate_urgency_factor(&c), units(1));
}

#[test]
fn supporting_midfielder_moves() {
    let state = MidfielderAttackSupportingState::default();
    let mut c = calm();
    let refined = flat(units(520), units(150));
    assert_eq!(state.proposed_target(&c).is_some(), true);
    // 30 * (1 - 0.5 * 0.5)
    assert_eq!(state.velocity(&c, refined), Some(arrive(refined, milli(22500))));
    assert_eq!(state.velocity(&c, c.player.position), Some(still()));
    c.team.best_player_to_chase_ball = true;
    assert_eq!(state.proposed_target(&c), None);
    assert_eq!(state.velocity(&c, refined), Some(pursue(c.ball.position, c.ball.velocity)));
    c.ball.owner_id = Some(9);
    c.players.push(mate(9, PositionGroup::Forward, 700, 272));
    c.teammates.push(mate(9, PositionGroup::Forward, 700, 272));
    // 20 * (1 - 0.5 * 0.3)
    assert_eq!(state.velocity(&c, refined), Some(arrive(refined, units(17))));
    c.teammates.push(mate(10, PositionGroup::Forward, 500, 272));
    // one forward is missing near the goal: opposite the one who is there
    assert_eq!(
        state.velocity(&c, refined),
        Some(arrive(flat(units(700), milli(372500)), units(20)))
    );
    c.teammates.push(mate(11, PositionGroup::Midfielder, 700, 300));
    c.teammates.push(mate(12, PositionGroup::Midfielder, 700, 310));
    assert_eq!(state.proposed_target(&c), None);
    assert_eq!(
        state.velocity(&c, refined),
        Some(arrive(flat(units(680), milli(162500)), units(30)))
    );
}

#[test]
fn passing_midfielder_clears_in_an_emergency() {
    let state = MidfielderPassingState::default();
    let mut c = on_the_ball();
    c.ball.position = flat(units(100), units(272));
    c.player.under_heavy_pressure = true;
    c.player.has_safe_pass = true;
    assert_eq!(state.process(&c), None);
    c.player.has_safe_pass = false;
    // towards (420, 272.3): 320 to the right, nearly straight
    let event = state.emit_emergency_clearance(&c);
    assert_eq!(state.clearance_target(&c), flat(units(420), milli(272300)));
    assert_eq!(
        state.process(&c),
        Some(with_midfielder_state(MidfielderState::Running).with_event(event))
    );
    match event {
        PlayerEvent::ClearBall { velocity } => {
            assert!(velocity.x > milli(3999) && velocity.x <= units(4));
            assert_eq!(velocity.z, units(5));
        }
        _ => panic!("a clearance"),
    }
    c.ball.position = flat(units(403), units(272));
    assert!(!state.in_box_danger_zone(&c));
    assert_eq!(state.clearance_target(&c).x, units(443));
}

#[test]
fn passing_midfielder_bails_out() {
    let state = MidfielderPassingState::default();
    let mut c = on_the_ball();
    c.in_state_time = 21;
    assert_eq!(state.process(&c), midfielder(MidfielderState::Dribbling));
    c.ball.distance_to_opponent_goal = units(29);
    c.player.clear_shot = true;
    c.player.good_shooting_angle = true;
    c.player.shooting.clear_shot_xg = milli(130);
    c.player.midfield.mid_shot_selection = milli(420);
    assert_eq!(
        state.process(&c),
        Some(with_midfielder_state(MidfielderState::Shooting).with_shot_reason("MID_PASS_BAILOUT_SHOOT"))
    );
    c.ball.distance_to_opponent_goal = units(54);
    c.player.midfield.mid_shot_selection = milli(580);
    c.player.shooting.execution_skill = milli(450);
    assert_eq!(
        state.process(&c),
        Some(
            with_midfielder_state(MidfielderState::DistanceShooting)
                .with_shot_reason("MID_PASS_BAILOUT_DISTANCE")
        )
    );
    c.player.tactical_position.attacking = true;
    c.shots.midfield_pass_bailout = ShotDecision::Shoot { reason: "AM_PASS_BAILOUT_FWD" };
    assert_eq!(
        state.process(&c),
        Some(with_midfielder_state(MidfielderState::Shooting).with_shot_reason("AM_PASS_BAILOUT_FWD"))
    );
    c.best_pass.within_400 = Some(mate(9, PositionGroup::Forward, 500, 272));
    assert_eq!(
        state.process(&c),
        Some(with_midfielder_state(MidfielderState::Running).with_event(pass(9, "MID_PASSING_STATE")))
    );
}

#[test]
fn breakthrough_pass_needs_a_line_to_break() {
    let state = MidfielderPassingState::default();
    let mut c = on_the_ball();
    c.player.midfield.allows_through_ball = true;
    let mut runner = mate(9, PositionGroup::Forward, 520, 272);
    runner.velocity = flat(units(2), units(0));
    c.teammates.push(runner);
    c.opponents.push(foe(21, PositionGroup::Defender, 450, 272));
    assert_eq!(state.find_breakthrough_pass_option(&c), None);
    c.opponents.push(foe(22, PositionGroup::Defender, 480, 279));
    assert_eq!(state.find_breakthrough_pass_option(&c), Some(runner));
    c.in_state_time = 5;
    assert_eq!(
        state.process(&c),
        Some(
            with_midfielder_state(MidfielderState::Standing)
                .with_event(pass(9, "MID_PASSING_BREAKTHROUGH"))
        )
    );
    c.opponents.push(foe(23, PositionGroup::Defender, 490, 272));
    assert_eq!(state.find_breakthrough_pass_option(&c), None);
    c.player.midfield.progressive_selection = milli(400);
    assert_eq!(state.find_breakthrough_pass_option(&c), Some(runner));
    // (1 - 320 / 840) * 0.5 + 1 * 0.3 + 0.5 * 0.2
    assert_eq!(state.calculate_breakthrough_value(&c, runner), micro(709524));
    c.player.supply_target = Some(9);
    assert_eq!(state.calculate_breakthrough_value(&c, runner), micro(1064286));
}

#[test]
fn space_around_a_receiver() {
    let state = MidfielderPassingState::default();
    let mut c = on_the_ball();
    let t = mate(9, PositionGroup::Forward, 520, 272);
    assert_eq!(state.calculate_improved_space_score(&c, t), units(1));
    c.opponents.push(foe(21, PositionGroup::Defender, 523, 272));
    c.opponents.push(foe(22, PositionGroup::Defender, 528, 272));
    c.opponents.push(foe(23, PositionGroup::Defender, 535, 272));
    // 1 - 0.5 - 0.3 - 0.1
    assert_eq!(state.calculate_improved_space_score(&c, t), milli(100));
    c.opponents.push(foe(24, PositionGroup::Defender, 521, 272));
    assert_eq!(state.calculate_improved_space_score(&c, t), units(0));
    assert!(state.is_heavily_marked(&c, t));
    c.opponents.truncate(1);
    assert!(!state.is_heavily_marked(&c, t));
    c.opponents[0].position = flat(units(521), units(272));
    c.opponents[0].marking = milli(501);
    // 0.501 * (1 - 1 / 5)
    assert!(state.is_heavily_marked(&c, t));
}

#[test]
fn guarding_midfielder_marks_the_most_dangerous() {
    let state = MidfielderGuardingState::default();
    let mut c = calm();
    assert_eq!(state.process(&c), midfielder(MidfielderState::Running));
    c.ball.on_own_side = true;
    assert_eq!(state.process(&c), midfielder(MidfielderState::Returning));
    c.opponents.push(foe(21, PositionGroup::Forward, 460, 272));
    c.opponents.push(foe(22, PositionGroup::Forward, 400, 272));
    assert_eq!(state.process(&c), None);
    // (200 - 40) / 8 near the ball, 35 unmarked, (60 - 40) / 3 close by
    assert_eq!(state.danger(&c, c.opponents[0]), micro(61666666));
    // (200 - 100) / 8 near the ball, 35 unmarked, (60 - 20) / 3 close by
    assert_eq!(state.danger(&c, c.opponents[1]), micro(60833333));
    assert_eq!(state.find_guard_target(&c), Some(c.opponents[0]));
    c.teammates.push(mate(3, PositionGroup::Defender, 461, 272));
    assert_eq!(state.find_guard_target(&c), Some(c.opponents[1]));
    c.teammates.truncate(0);
    c.opponents[0].has_ball = true;
    assert_eq!(state.find_guard_target(&c), Some(c.opponents[1]));
    c.team.best_player_to_chase_ball = true;
    assert_eq!(state.process(&c), midfielder(MidfielderState::Pressing));
    c.player.condition = 14;
    assert_eq!(state.process(&c), midfielder(MidfielderState::Returning));
}

#[test]
fn heading_needs_reach_and_luck() {
    let state = MidfielderHeadingState::default();
    let mut c = calm();
    c.ball.position = vec3(units(422), units(272), units(2));
    assert_eq!(state.process(&c, true), midfielder(MidfielderState::Running));
    c.ball.distance = units(2);
    c.rolls.heading = milli(499);
    c.rolls.heading_duel = milli(500);
    let header = with_midfielder_state(MidfielderState::Running).with_event(PlayerEvent::Shoot {
        player: 7,
        spot: c.player.shooting_direction,
        shot_type: ShotType::Header,
        reason: "MID_HEADING_ON_GOAL",
    });
    // not one of the match: skill and luck decide the jump too
    assert_eq!(state.process(&c, true), midfielder(MidfielderState::Running));
    c.players.push(mate(7, PositionGroup::Midfielder, 420, 272));
    assert_eq!(state.process(&c, true), Some(header));
    assert_eq!(state.process(&c, false), midfielder(MidfielderState::Running));
    // 0.62 + 1 * 0.5 * 0.3
    assert_eq!(state.clean_contact_chance(&c), milli(770));
    c.ball.team_attacking_corner = true;
    c.rolls.heading_contest = milli(769);
    assert_eq!(state.process(&c, false), Some(header));
    c.rolls.heading_contest = milli(770);
    assert_eq!(state.process(&c, false), midfielder(MidfielderState::Running));
    c.ball.position = vec3(units(422), units(272), milli(1499));
    c.rolls.heading_contest = units(0);
    assert_eq!(state.process(&c, true), midfielder(MidfielderState::Running));
    c.opponents.push(foe(1, PositionGroup::Goalkeeper, 421, 272));
    c.opponents.push(foe(22, PositionGroup::Defender, 430, 272));
    c.players.push(foe(1, PositionGroup::Goalkeeper, 421, 272));
    c.players.push(foe(22, PositionGroup::Defender, 430, 272));
    assert_eq!(state.nearest_marker(&c).map(|m| m.id), Some(22));
}

#[test]
fn pressing_midfielder() {
    let state = MidfielderPressingState::default();
    let mut c = calm();
    c.player.midfield.press_time_ticks = 50;
    assert_eq!(state.process(&c), None);
    c.in_state_time = 31;
    assert_eq!(state.process(&c), midfielder(MidfielderState::Running));
    c.player.velocity = flat(units(1), units(0));
    assert_eq!(state.process(&c), None);
    c.in_state_time = 51;
    assert_eq!(state.process(&c), midfielder(MidfielderState::Running));
    c.in_state_time = 0;
    let mut carrier = foe(21, PositionGroup::Midfielder, 460, 272);
    carrier.has_ball = true;
    c.opponents.push(carrier);
    assert_eq!(state.process(&c), midfielder(MidfielderState::Tackling));
    assert_eq!(state.velocity(&c), Some(glide(flat(units(10), units(0)))));
    c.ball.opponent_restart = true;
    assert_eq!(state.process(&c), midfielder(MidfielderState::Returning));
    c.ball.distance = units(29);
    assert_eq!(state.process(&c), midfielder(MidfielderState::TakeBall));
}

#[test]
fn returning_midfielder_joins_from_onside_only() {
    let state = MidfielderReturningState::default();
    let mut c = calm();
    c.team.control_ball = true;
    assert_eq!(state.process(&c), midfielder(MidfielderState::AttackSupporting));
    c.player.stranded_offside = true;
    assert_eq!(state.process(&c), None);
    c.team.control_ball = false;
    assert_eq!(state.process(&c), midfielder(MidfielderState::Running));
    c.player.separation_velocity = flat(units(1), units(0));
    assert_eq!(
        state.velocity(&c),
        Some(arrive(c.player.start_position, units(50)).plus(flat(milli(300), units(0))))
    );
    c.player.start_position = flat(units(427), units(272));
    assert_eq!(state.velocity(&c), Some(still()));
}

#[test]
fn standing_midfielder_never_freezes() {
    let state = MidfielderStandingState::default();
    let mut c = on_the_ball();
    assert_eq!(state.process(&c), midfielder(MidfielderState::Running));
    c.teammates.push(mate(9, PositionGroup::Forward, 450, 272));
    assert_eq!(state.process(&c), midfielder(MidfielderState::Passing));
    let mut quiet = calm();
    assert_eq!(state.process(&quiet), None);
    quiet.in_state_time = 9;
    assert_eq!(state.process(&quiet), midfielder(MidfielderState::Running));
    quiet.ball.position = flat(units(561), units(272));
    assert_eq!(state.process(&quiet), midfielder(MidfielderState::AttackSupporting));
    quiet.ball.on_own_side = true;
    assert_eq!(state.process(&quiet), midfielder(MidfielderState::Guarding));
}

#[test]
fn tackling_midfielder() {
    let state = MidfielderTacklingState::default();
    let mut c = duel();
    c.rolls.foul = units(1);
    c.rolls.tackle = milli(400);
    let won = PlayerEvent::TacklingBall { player: 7 };
    assert_eq!(
        state.process(&c, milli(500)),
        Some(with_midfielder_state(MidfielderState::Standing).with_event(won).with_tackle_cooldown())
    );
    assert_eq!(
        state.process(&c, milli(400)),
        Some(with_midfielder_state(MidfielderState::Pressing).with_tackle_cooldown())
    );
    c.rolls.foul = units(0);
    c.player.skills.mental.aggression = units(16);
    let violent = PlayerEvent::CommitFoul { player: 7, severity: FoulSeverity::Violent };
    assert_eq!(
        state.process(&c, milli(400)),
        Some(with_midfielder_state(MidfielderState::Standing).with_event(violent).with_tackle_cooldown())
    );
    c.rolls.violent = milli(8);
    c.rolls.reckless = milli(349);
    assert_eq!(state.foul_severity(&c, false), FoulSeverity::Reckless);
    assert_eq!(state.foul_severity(&c, true), FoulSeverity::Normal);
    c.opponents[0].distance = milli(8001);
    assert_eq!(state.process(&c, milli(500)), midfielder(MidfielderState::Pressing));
    c.player.can_attempt_tackle = false;
    assert_eq!(state.process(&c, milli(500)), midfielder(MidfielderState::Pressing));
}

#[test]
fn foul_risk_of_a_midfielder() {
    let state = MidfielderTacklingState::default();
    let mut c = duel();
    c.player.midfield.discipline = milli(500);
    c.player.midfield.mid_condition_mult = units(1);
    // (0.062 + 0.5 * 0.11 - 0.5 * 0.07) * 1.75
    assert_eq!(state.foul_chance(&c, false), micro(143500));
    assert_eq!(state.foul_chance(&c, true), micro(24600));
    c.player.yellow_cards = 1;
    assert_eq!(state.foul_chance(&c, false), micro(100450));
    c.player.penalty_area.max = flat(units(840), units(545));
    assert_eq!(state.foul_chance(&c, false), micro(30135));
    // all skills at 10: 0.5 * 1
    assert_eq!(state.carry_skill(c.opponents[0]), milli(500));
    c.player.midfield.tackle_profile = milli(600);
    assert_eq!(state.tackle_advantage(&c, c.opponents[0]), milli(240));
}

#[test]
fn walking_midfielder() {
    let state = MidfielderWalkingState::default();
    let mut c = calm();
    c.opponents.push(foe(21, PositionGroup::Goalkeeper, 440, 272));
    c.opponents[0].has_ball = true;
    assert_eq!(state.process(&c), midfielder(MidfielderState::Tackling));
    c.ball.opponent_goal_kick = true;
    assert_eq!(state.process(&c), None);
    assert_eq!(state.velocity(&c), Some(arrive(c.player.start_position, units(30))));
    c.ball.opponent_goal_kick = false;
    c.opponents[0].has_ball = false;
    c.in_state_time = 21;
    assert_eq!(state.process(&c), midfielder(MidfielderState::Running));
    c.team.control_ball = true;
    assert_eq!(state.process(&c), None);
    c.in_state_time = 121;
    assert_eq!(state.process(&c), midfielder(MidfielderState::Running));
    // 400 + (500 - 420) * 0.15
    assert_eq!(state.shape_anchor(&c), flat(units(412), units(200)));
    assert_eq!(
        state.velocity(&c),
        Some(arrive(flat(units(412), units(200)), units(30)).scaled(milli(400)))
    );
}

#[test]
fn dribbling_midfielder() {
    let state = MidfielderDribblingState::default();
    let mut c = on_the_ball();
    c.player.midfield.allows_take_on_one = true;
    assert_eq!(state.process(&c), None);
    c.player.midfield.carry_selection = milli(500);
    assert_eq!(state.max_dribble_ticks(&c), 52);
    c.in_state_time = 53;
    assert_eq!(state.process(&c), midfielder(MidfielderState::Running));
    c.shots.midfield_dribble = ShotDecision::Shoot { reason: "MID_DRIB" };
    assert_eq!(
        state.process(&c),
        Some(with_midfielder_state(MidfielderState::Shooting).with_shot_reason("MID_DRIB"))
    );
    c.shots.midfield_dribble = ShotDecision::Hold;
    c.ball.distance_to_opponent_goal = units(21);
    c.player.shooting.selection_skill = milli(500);
    c.player.midfield.mid_shot_selection = milli(500);
    assert_eq!(state.point_blank_willingness(&c), milli(350));
    c.rolls.point_blank = milli(349);
    assert_eq!(
        state.process(&c),
        Some(with_midfielder_state(MidfielderState::Shooting).with_shot_reason("MID_DRIB_POINT_BLANK"))
    );
    c.rolls.point_blank = milli(350);
    c.best_pass.within_60 = Some(mate(9, PositionGroup::Forward, 450, 272));
    assert_eq!(state.process(&c), midfielder(MidfielderState::Passing));
    c.player.behavioral_directive = Some(BehavioralDirective::BylineAndCross);
    c.player.position = flat(units(810), units(20));
    assert_eq!(state.process(&c), midfielder(MidfielderState::Crossing));
    // all skills at 10: 3.5 * 0.5
    assert_eq!(state.carry_speed(&c), milli(1750));
    assert_eq!(state.carry_goal(&c), flat(units(840), units(20)));
}

// Goalkeepers.

/// A goalkeeper on the line of the left goal.
fn in_goal() -> StateProcessingContext {
    let mut c = calm();
    c.player.position = flat(units(5), units(272));
    c.player.start_position = flat(units(5), units(272));
    c.player.tactical_position = place(PositionGroup::Goalkeeper);
    c.player.penalty_area = Area {
        min: flat(units(0), units(172)),
        max: flat(units(130), units(372)),
    };
    c.player.goalkeeping.explosive_mult = units(1);
    c.player.goalkeeping.condition_mult = units(1);
    c.player.goalkeeping.effective_catch_distance = units(10);
    c
}

/// A shot at the left goal.
fn shot_at(y: i64, z: Scalar) -> ShotTarget {
    ShotTarget {
        defending_side: PlayerSide::Left,
        goal_line_y: units(y),
        goal_line_z: z,
        is_direct_free_kick: false,
        deflected: false,
        total_flight_ticks: units(0),
    }
}

#[test]
fn catching_goalkeeper_needs_reach() {
    let state = GoalkeeperCatchingState::default();
    let mut c = in_goal();
    c.ball.shot_target = Some(shot_at(277, units(1)));
    c.rolls.save = milli(300);
    let caught = with_goalkeeper_state(GoalkeeperState::HoldingBall)
        .with_event(PlayerEvent::CaughtBall { player: 7 });
    assert_eq!(state.process(&c, milli(301)), Some(caught));
    assert_eq!(state.process(&c, milli(300)), None);
    // 0.5 * 0.24 + 0.5 * 0.18 + 1 / 2.44 * 0.1 + 0.4 * 0.1
    assert_eq!(state.difficulty(&c), Some(micro(290983)));
    c.ball.shot_target = Some(shot_at(283, units(1)));
    assert_eq!(state.difficulty(&c), None);
    assert_eq!(state.process(&c, units(1)), None);
    c.ball.shot_target = Some(shot_at(272, milli(2441)));
    assert_eq!(state.process(&c, units(1)), None);
    let mut target = shot_at(272, units(1));
    assert_eq!(state.spread(target, milli(600)), SaveSpread { probability: milli(600), ticks: units(3) });
    target.deflected = true;
    target.is_direct_free_kick = true;
    target.total_flight_ticks = units(90);
    assert_eq!(state.spread(target, milli(600)), SaveSpread { probability: milli(300), ticks: units(90) });
}

#[test]
fn catching_goalkeeper_gives_up_a_lost_ball() {
    let state = GoalkeeperCatchingState::default();
    let mut c = in_goal();
    assert_eq!(state.process(&c, units(1)), goalkeeper(GoalkeeperState::ComingOut));
    c.player.distance_from_start_position = units(41);
    assert_eq!(state.process(&c, units(1)), goalkeeper(GoalkeeperState::ReturningToGoal));
    c.ball.distance = units(5);
    assert_eq!(
        state.process(&c, units(1)),
        Some(
            with_goalkeeper_state(GoalkeeperState::HoldingBall)
                .with_event(PlayerEvent::CaughtBall { player: 7 })
        )
    );
    assert_eq!(state.process(&c, units(0)), None);
    c.in_state_time = 31;
    assert_eq!(state.process(&c, units(0)), goalkeeper(GoalkeeperState::Standing));
    assert_eq!(state.height_penalty(milli(100)), milli(180));
    assert_eq!(state.height_penalty(milli(300)), milli(60));
    assert_eq!(state.height_penalty(milli(500)), units(0));
    assert_eq!(state.height_penalty(milli(2501)), milli(220));
}

#[test]
fn clearance_goes_upfield() {
    let state = GoalkeeperClearingState::default();
    let mut c = in_goal();
    assert_eq!(state.process(&c), goalkeeper(GoalkeeperState::Standing));
    c.player.has_ball = true;
    c.rolls.clearance = milli(500);
    assert_eq!(state.clearance_target(&c), flat(units(420), milli(272500)));
    // 3.8 + 0.5
    assert_eq!(state.ground_speed(&c), milli(4300));
    match state.execute_clearance(&c) {
        PlayerEvent::ClearBall { velocity } => assert!(velocity.x > milli(4299) && velocity.z > units(0)),
        _ => panic!("a clearance"),
    }
    c.player.position = flat(units(835), units(272));
    match state.execute_clearance(&c) {
        PlayerEvent::ClearBall { velocity } => assert!(velocity.x < units(0)),
        _ => panic!("a clearance"),
    }
}

#[test]
fn distributing_goalkeeper_draws_a_receiver() {
    let state = GoalkeeperDistributingState::default();
    let mut c = in_goal();
    let none: Vec<Scalar> = Vec::new();
    assert_eq!(state.process(&c, &none), goalkeeper(GoalkeeperState::Standing));
    c.player.has_ball = true;
    assert_eq!(state.process(&c, &none), None);
    c.in_state_time = 21;
    assert_eq!(state.process(&c, &none), goalkeeper(GoalkeeperState::Clearing));
    let mut receiver = mate(9, PositionGroup::Midfielder, 150, 272);
    receiver.distance = units(145);
    c.teammates.push(receiver);
    let options = state.kick_options(&c);
    assert_eq!(options.len(), 1);
    let mut risks: Vec<Scalar> = Vec::new();
    risks.push(units(0));
    assert_eq!(
        state.process(&c, &risks),
        Some(
            with_goalkeeper_state(GoalkeeperState::ReturningToGoal)
                .with_event(pass(9, "GK_DISTRIBUTING"))
        )
    );
    c.players.push(receiver);
    // 145 / 10 * 10
    assert_eq!(state.calculate_pass_power(9, &c), Some(units(145)));
    assert_eq!(state.calculate_pass_power(99, &c), None);
    c.player.skills.technical.passing = units(0);
    assert_eq!(state.calculate_pass_power(9, &c), None);
    c.player.skills.technical.passing = units(10);
    c.teammates[0].position = flat(units(0), units(272));
    assert_eq!(state.kick_options(&c).len(), 0);
}

#[test]
fn hold_ends() {
    let state = GoalkeeperHoldingState::default();
    let mut c = in_goal();
    assert_eq!(state.process(&c), goalkeeper(GoalkeeperState::Standing));
    c.player.has_ball = true;
    // 160 - 80 * 0.5
    assert_eq!(state.holding_duration(&c), 120);
    c.in_state_time = 119;
    assert_eq!(state.process(&c), None);
    c.team.losing = true;
    assert_eq!(state.holding_duration(&c), 60);
    assert_eq!(state.process(&c), goalkeeper(GoalkeeperState::Distributing));
    c.team.losing = false;
    c.teammates.push(mate(9, PositionGroup::Forward, 304, 272));
    assert_eq!(state.process(&c), None);
    c.teammates[0] = mate(9, PositionGroup::Forward, 305, 272);
    assert_eq!(state.process(&c), goalkeeper(GoalkeeperState::Distributing));
    c.opponents.push(foe(20, PositionGroup::Defender, 395, 272));
    assert_eq!(state.process(&c), None);
    c.opponents[0] = foe(20, PositionGroup::Defender, 396, 272);
    assert_eq!(state.process(&c), goalkeeper(GoalkeeperState::Distributing));
    c.rolls.quick_release = milli(49);
    assert_eq!(state.process(&c), goalkeeper(GoalkeeperState::Distributing));
    c.rolls.quick_release = milli(50);
    assert_eq!(state.process(&c), None);
    c.in_state_time = 160;
    assert_eq!(state.process(&c), goalkeeper(GoalkeeperState::Distributing));
}

#[test]
fn preparing_goalkeeper() {
    let state = GoalkeeperPreparingForSaveState::default();
    let mut c = in_goal();
    c.ball.shot_target = Some(shot_at(280, units(1)));
    assert_eq!(state.process(&c, false), goalkeeper(GoalkeeperState::Catching));
    assert_eq!(
        state.velocity(&c),
        Some(arrive(flat(units(0), units(280)), units(3)).scaled(milli(1600)))
    );
    c.ball.shot_target = None;
    assert_eq!(state.process(&c, false), goalkeeper(GoalkeeperState::ReturningToGoal));
    c.ball.on_own_side = true;
    assert_eq!(state.process(&c, false), None);
    c.team.control_ball = true;
    assert_eq!(state.process(&c, false), goalkeeper(GoalkeeperState::Standing));
    c.player.has_ball = true;
    assert_eq!(state.process(&c, false), goalkeeper(GoalkeeperState::Passing));
}

#[test]
fn ball_is_seen_to_come_at_the_goal() {
    let state = GoalkeeperPreparingForSaveState::default();
    let mut c = in_goal();
    c.ball.position = flat(units(100), units(272));
    c.ball.velocity = flat(units(1).negated(), units(0));
    assert!(state.is_ball_toward_goal(&c));
    c.ball.velocity = flat(units(1), units(0));
    assert!(!state.is_ball_toward_goal(&c));
    c.ball.velocity = flat(milli(400).negated(), units(0));
    assert!(!state.is_ball_toward_goal(&c));
    // along the pitch past a goal that lies aside
    c.ball.position = flat(units(100), units(472));
    c.ball.velocity = flat(units(1).negated(), units(0));
    assert!(!state.is_ball_toward_goal(&c));
    // a fast ball at the goal within reach is dived for
    c.ball.position = flat(units(35), units(272));
    c.ball.distance = units(30);
    c.ball.velocity = flat(units(2).negated(), units(0));
    c.player.goalkeeping.effective_dive_distance = units(35);
    assert_eq!(state.process(&c, false), goalkeeper(GoalkeeperState::Diving));
}

#[test]
fn standing_goalkeeper_distributes() {
    let state = GoalkeeperStandingState::default();
    let mut c = in_goal();
    assert_eq!(state.process(&c), None);
    c.player.has_ball = true;
    c.ball.is_owned = true;
    assert_eq!(state.process(&c), goalkeeper(GoalkeeperState::Distributing));
    c.ball.shot_target = Some(shot_at(280, units(1)));
    assert_eq!(state.process(&c), goalkeeper(GoalkeeperState::PreparingForSave));
    // 12 + 0.5 * 8 in front of the goal
    assert_eq!(state.waiting_spot(&c), flat(units(16), units(272)));
    assert_eq!(state.velocity(&c), Some(arrive(flat(units(16), units(272)), units(6)).scaled(units(1))));
    c.ball.on_own_side = true;
    c.ball.position = flat(units(300), units(600));
    let spot = state.calculate_optimal_position(&c);
    assert!(c.player.penalty_area.contains(spot));
}

#[test]
fn chase_ends() {
    let state = GoalkeeperTakeBallState::default();
    let mut c = in_goal();
    assert_eq!(state.process(&c), None);
    c.in_state_time = 121;
    assert_eq!(state.process(&c), goalkeeper(GoalkeeperState::Standing));
    c.ball.distance = units(10);
    assert_eq!(state.process(&c), None);
    c.in_state_time = 201;
    assert_eq!(state.process(&c), goalkeeper(GoalkeeperState::Standing));
    c.ball.distance = units(2);
    assert_eq!(state.process(&c), goalkeeper(GoalkeeperState::Catching));
    c.player.chase_limit_x = units(390);
    assert_eq!(state.velocity(&c), Some(seek(flat(units(390), units(272)))));
    c.ball.position = flat(units(200), units(272));
    assert_eq!(state.velocity(&c), Some(seek(flat(units(200), units(272)))));
}

#[test]
fn walking_goalkeeper() {
    let state = GoalkeeperWalkingState::default();
    let mut c = in_goal();
    c.ball.should_take_immediately = true;
    assert_eq!(state.process(&c), goalkeeper(GoalkeeperState::TakeBall));
    c.ball.should_take_immediately = false;
    c.ball.on_own_side = true;
    assert_eq!(state.process(&c), goalkeeper(GoalkeeperState::Standing));
    c.ball.distance = units(29);
    assert_eq!(state.process(&c), goalkeeper(GoalkeeperState::Catching));
    c.ball.shot_target = Some(shot_at(280, units(1)));
    assert_eq!(state.process(&c), goalkeeper(GoalkeeperState::PreparingForSave));
    let mut carrier = foe(21, PositionGroup::Forward, 40, 272);
    carrier.has_ball = true;
    c.opponents.push(carrier);
    // 0.8 * 0.5
    assert_eq!(state.assess_threat_level(&c), milli(400));
}

#[test]
fn loads_of_the_states() {
    assert_eq!(
        MidfielderTacklingState::default().process_conditions(),
        Exertion { intensity: ActivityIntensity::VeryHigh, with_velocity: false }
    );
    assert_eq!(
        ForwardRunningState::default().process_conditions(),
        Exertion { intensity: ActivityIntensity::High, with_velocity: true }
    );
    assert_eq!(
        GoalkeeperStandingState::default().process_conditions(),
        Exertion { intensity: ActivityIntensity::Recovery, with_velocity: false }
    );
}

#[test]
fn no_pace_no_interception() {
    let mut c = calm();
    c.ball.position = c.player.position;
    c.ball.velocity = flat(units(3), units(0));
    let forward = ForwardTacklingState::default();
    let midfielder = MidfielderTacklingState::default();
    assert!(forward.can_intercept_ball(&c));
    assert!(midfielder.can_intercept_ball(&c));
    c.player.skills.physical.pace = units(0);
    assert!(!forward.can_intercept_ball(&c));
    assert!(!midfielder.can_intercept_ball(&c));
    c.ball.position = flat(units(421), units(272));
    assert!(!forward.can_intercept_ball(&c));
    assert!(!midfielder.can_intercept_ball(&c));
    // a ball at rest needs no chase
    c.ball.velocity = flat(units(0), units(0));
    assert!(forward.can_intercept_ball(&c));
    assert!(!midfielder.can_intercept_ball(&c));
}

#[test]
fn no_pace_no_ball_on_the_run() {
    let state = ForwardRunningState::default();
    let mut c = calm();
    c.ball.heading = units(1);
    // 3 * (80 / 5) < 120
    c.ball.speed = units(3);
    assert!(state.can_intercept_ball(&c));
    c.ball.speed = units(8);
    assert!(!state.can_intercept_ball(&c));
    c.player.skills.physical.pace = units(0);
    assert!(!state.can_intercept_ball(&c));
    c.ball.speed = units(0);
    assert!(!state.can_intercept_ball(&c));
    c.ball.distance = units(29);
    assert!(state.can_intercept_ball(&c));
}

#[test]
fn goalkeeper_is_first_at_the_ball() {
    let state = GoalkeeperStandingState::default();
    let mut c = in_goal();
    c.ball.position = flat(units(15), units(272));
    let mut rival = foe(21, PositionGroup::Forward, 35, 272);
    // 10 / 11.5 < 20 / 10 * 1.1
    assert!(state.can_reach_first(&c, rival));
    rival.skills.physical.pace = units(0);
    assert!(state.can_reach_first(&c, rival));
    assert!(state.should_rush_out_for_ball(&c, rival));
    rival.position = c.ball.position;
    assert!(!state.can_reach_first(&c, rival));
    rival.skills.physical.pace = units(10);
    assert!(!state.can_reach_first(&c, rival));
    rival.position = flat(units(35), units(272));
    c.player.skills.physical.acceleration = units(0);
    assert!(!state.can_reach_first(&c, rival));
    c.player.position = c.ball.position;
    assert!(!state.can_reach_first(&c, rival));
    assert!(!state.should_rush_out_for_ball(&c, rival));
}

#[test]
fn halfway_line_draws_the_kick() {
    let state = GoalkeeperDistributingState::default();
    let mut c = in_goal();
    let t = mate(9, PositionGroup::Midfielder, 420, 272);
    assert_eq!(state.halfway_score(&c, t), units(3));
    c.field_size = FieldSize { width: 0, height: 545 };
    assert_eq!(state.halfway_score(&c, t), milli(500));
    assert_eq!(state.halfway_score(&c, mate(9, PositionGroup::Midfielder, 0, 272)), milli(500));
}

#[test]
fn waypoints_and_ball_need_no_margins() {
    let forward = ForwardRunningState::default();
    let midfielder = MidfielderRunningState::default();
    let mut c = calm();
    assert!(forward.fits_pitch(&c) && midfielder.fits_pitch(&c));
    c.field_size = FieldSize { width: 60, height: 79 };
    assert!(!forward.fits_pitch(&c) && midfielder.fits_pitch(&c));
    c.field_size = FieldSize { width: 59, height: 80 };
    assert!(!forward.fits_pitch(&c) && !midfielder.fits_pitch(&c));
    c.player.should_follow_waypoints = true;
    assert!(!forward.fits_pitch(&c) && !midfielder.fits_pitch(&c));
    c.player.waypoint_count = 2;
    assert!(forward.fits_pitch(&c) && midfielder.fits_pitch(&c));
    assert!(forward.velocity(&c).is_some());
    assert!(midfielder.velocity(&c).is_some());
    c.player.should_follow_waypoints = false;
    c.player.has_ball = true;
    assert!(forward.fits_pitch(&c) && midfielder.fits_pitch(&c));
    // straight on
    let ahead = flat(units(470), units(272));
    assert_eq!(forward.velocity(&c), Some(arrive(ahead, units(20)).scaled(units(1))));
    assert!(midfielder.velocity(&c).is_some());
}

#[test]
fn support_needs_margins_only_where_it_keeps_them() {
    let state = MidfielderAttackSupportingState::default();
    let mut c = calm();
    c.field_size = FieldSize { width: 39, height: 19 };
    assert!(!state.fits_proposal(&c) && state.fits_pitch(&c));
    c.team.best_player_to_chase_ball = true;
    assert!(state.fits_proposal(&c) && state.fits_pitch(&c));
    let spot = c.player.position;
    assert_eq!(state.velocity(&c, spot), Some(pursue(c.ball.position, c.ball.velocity)));
    // with the ball, the way ahead is free
    c.player.has_ball = true;
    assert!(state.fits_proposal(&c) && state.fits_pitch(&c));
    assert!(state.velocity(&c, spot).is_some());
    c.opponents.push(foe(20, PositionGroup::Defender, 460, 272));
    assert!(!state.fits_pitch(&c));
    c.field_size = FieldSize { width: 20, height: 20 };
    assert!(state.fits_pitch(&c));
    // a teammate has it and no forward is up front
    c.player.has_ball = false;
    c.ball.owner_id = Some(9);
    c.players.push(mate(9, PositionGroup::Forward, 500, 272));
    c.teammates.push(mate(9, PositionGroup::Forward, 500, 272));
    c.field_size = FieldSize { width: 39, height: 545 };
    assert!(!state.fits_proposal(&c) && !state.fits_pitch(&c));
    c.field_size = FieldSize { width: 40, height: 0 };
    assert!(state.fits_proposal(&c) && state.fits_pitch(&c));
    assert_eq!(state.proposed_target(&c), None);
    assert_eq!(state.velocity(&c, spot), Some(arrive(flat(units(20), units(0)), units(20))));
}

#[test]
fn dribble_keeps_margins_round_a_goalkeeper() {
    let state = ForwardDribblingState::default();
    let mut c = on_the_ball();
    c.player.carry_target = flat(units(450), units(272));
    c.field_size = FieldSize { width: 29, height: 29 };
    assert!(state.fits_pitch(&c));
    assert_eq!(state.velocity(&c), Some(arrive(c.player.carry_target, units(20))));
    c.opponents.push(foe(20, PositionGroup::Goalkeeper, 430, 272));
    c.ball.distance_to_opponent_goal = units(79);
    assert!(!state.fits_pitch(&c));
    c.field_size = FieldSize { width: 30, height: 30 };
    assert!(state.fits_pitch(&c));
}

#[test]
fn zone_search_needs_a_pitch_only_among_opponents() {
    let state = ForwardCreatingSpaceState::default();
    let mut c = calm();
    c.field_size = FieldSize { width: 19, height: 19 };
    assert!(!state.fits_pitch(&c));
    c.player.side = None;
    assert!(state.fits_pitch(&c));
    let none: Vec<ZoneReading> = Vec::new();
    assert_eq!(state.free_zone_candidates(&c).len(), 0);
    let ahead = flat(units(450), units(272));
    assert_eq!(state.velocity(&c, &none), Some(arrive(ahead, units(20))));
    c.opponents.push(foe(20, PositionGroup::Defender, 450, 272));
    c.field_size = FieldSize { width: 60, height: 39 };
    assert!(!state.fits_pitch(&c));
    c.field_size = FieldSize { width: 60, height: 40 };
    assert!(state.fits_pitch(&c));
}

#[test]
fn hold_saves_no_more_than_it_lasts() {
    let state = GoalkeeperHoldingState::default();
    let mut c = in_goal();
    c.player.has_ball = true;
    c.player.skills.mental.decisions = milli(40200);
    // 80 * 2.01, whole
    assert_eq!(state.saved_time(&c), 160);
    assert_eq!(state.holding_duration(&c), 0);
    assert_eq!(state.process(&c), goalkeeper(GoalkeeperState::Distributing));
    c.player.skills.mental.decisions = units(100);
    assert_eq!(state.saved_time(&c), 400);
    c.in_state_time = 12;
    c.teammates.push(mate(9, PositionGroup::Forward, 305, 272));
    assert!(state.releases_quickly(&c));
    assert_eq!(state.process(&c), goalkeeper(GoalkeeperState::Distributing));
    c.player.has_ball = false;
    assert_eq!(state.process(&c), goalkeeper(GoalkeeperState::Standing));
}

#[test]
fn urgent_changes_need_no_area() {
    let state = GoalkeeperWalkingState::default();
    let mut c = in_goal();
    c.player.penalty_area = Area {
        min: flat(units(130), units(372)),
        max: flat(units(0), units(172)),
    };
    assert_eq!(state.urgent_change(&c), None);
    c.player.has_ball = true;
    assert_eq!(state.process(&c), goalkeeper(GoalkeeperState::Distributing));
    c.player.has_ball = false;
    c.ball.on_own_side = true;
    assert_eq!(state.process(&c), goalkeeper(GoalkeeperState::Standing));
}

#[test]
fn minutes_of_the_match() {
    let mut c = calm();
    assert_eq!(minute(&c), 0);
    c.total_match_time = 59_999;
    assert_eq!(minute(&c), 0);
    c.total_match_time = 5_400_000;
    assert_eq!(minute(&c), 90);
}

#[test]
fn runs_need_a_direction() {
    let mut c = calm();
    let spot = c.player.position;
    let nowhere = Some(glide_if_any(None));
    let behind = ForwardRunningInBehindState::default();
    assert_eq!(behind.velocity(&c, spot), nowhere);
    // 10 * (1.5 + 0.25 + 0.3)
    let ahead = flat(units(430), units(272));
    assert_eq!(behind.velocity(&c, ahead), Some(glide(flat(milli(20500), units(0)))));
    c.ball.position = spot;
    assert_eq!(MidfielderPressingState::default().velocity(&c), nowhere);
    let dribbler = MidfielderDribblingState::default();
    assert_eq!(dribbler.velocity(&c), nowhere);
    c.player.has_ball = true;
    assert!(dribbler.velocity(&c) != nowhere);
    // an opponent on the same spot
    let mut foul = foe(20, PositionGroup::Midfielder, 420, 272);
    c.opponents.push(foul);
    assert_eq!(dribbler.velocity(&c), nowhere);
    c.player.under_heavy_pressure = true;
    assert_eq!(MidfielderPassingState::default().velocity(&c), nowhere);
    c.player.under_immediate_pressure = true;
    let support = MidfielderAttackSupportingState::default();
    assert_eq!(support.velocity(&c, spot), nowhere);
    foul.position = flat(units(423), units(272));
    c.opponents[0] = foul;
    assert_eq!(support.velocity(&c, spot), Some(glide(flat(units(3).negated(), units(0)))));
}

#[test]
fn carrier_on_the_goal_is_not_closed_down() {
    let state = MidfielderPressingState::default();
    let mut c = calm();
    let mut carrier = foe(21, PositionGroup::Forward, 0, 272);
    carrier.has_ball = true;
    c.player.separation_velocity = flat(units(0), units(2));
    c.opponents.push(carrier);
    // nowhere to go, and 0.15 of giving way
    assert_eq!(state.velocity(&c), Some(glide(flat(units(0), milli(300)))));
    c.opponents[0].position = flat(units(10), units(272));
    assert_eq!(state.velocity(&c), Some(glide(flat(units(10).negated(), milli(300)))));
}

#[test]
fn support_beside_the_carrier() {
    let state = ForwardRunningState::default();
    let mut c = calm();
    c.team.control_ball = true;
    let holder = mate(9, PositionGroup::Midfielder, 500, 272);
    c.ball.owner_id = Some(9);
    c.teammates.push(holder);
    c.opponents.push(foe(20, PositionGroup::Defender, 510, 272));
    c.ball.distance = units(79);
    // 500 - 15.4 + 10
    assert_eq!(state.support_spot(&c), Some(flat(milli(494600), units(272))));
    assert_eq!(state.velocity(&c), Some(glide(flat(milli(8500), units(0)))));
    // an opponent on the spot of the carrier leaves no side to go to
    c.opponents[0].position = holder.position;
    assert_eq!(state.support_spot(&c), None);
    assert_eq!(state.velocity(&c), Some(arrive(state.forward_slot(&c), units(15)).scaled(units(1))));
}

#[test]
fn attacker_on_the_goal_is_marked_nowhere() {
    let state = MidfielderGuardingState::default();
    let mut c = calm();
    let mut attacker = foe(20, PositionGroup::Forward, 0, 272);
    attacker.distance = units(50);
    c.opponents.push(attacker);
    assert_eq!(state.velocity(&c), Some(glide_if_any(None)));
    c.opponents[0].position = flat(units(100), units(272));
    // (100 - 25) * 0.8 + 400 * 0.2, 200 * 0.8 ...
    let spot = flat(units(140), milli(257600));
    assert_eq!(state.guard_spot(&c, c.opponents[0]), Some(spot));
}

#[test]
fn zones_that_are_nowhere() {
    let state = ForwardCreatingSpaceState::default();
    let mut c = calm();
    c.player.position = c.player.opponent_goal_position;
    let none: Vec<ZoneReading> = Vec::new();
    assert_eq!(state.velocity(&c, &none), Some(arrive_if_any(None, units(20))));
    // an opponent on the goal: nothing beside it, the grid ahead is nowhere too
    c.opponents.push(foe(20, PositionGroup::Defender, 840, 272));
    let spots = state.free_zone_candidates(&c);
    assert_eq!(spots.len(), 44);
    assert_eq!(spots.iter().filter(|s| s.is_none()).count(), 31);
    assert_eq!(state.score(&c, None, units(1)), units(45));
    let holder = mate(9, PositionGroup::Midfielder, 500, 272);
    c.ball.owner_id = Some(9);
    c.teammates.push(holder);
    assert_eq!(state.score(&c, None, units(1)), units(60));
    // possession play is drawn to the ball, unless it is right there
    c.player.tactical_style = TacticalStyle::Possession;
    assert_eq!(state.styled(&c, c.ball.position), None);
    assert_eq!(
        state.styled(&c, flat(units(400), units(272))),
        Some(flat(units(405), units(272)))
    );
}

#[test]
fn drive_needs_a_top_speed() {
    let state = MidfielderAttackSupportingState::default();
    let mut c = on_the_ball();
    let spot = c.player.position;
    c.player.max_speed = units(7);
    // 10 * 0.35 / 7
    assert_eq!(state.velocity(&c, spot), Some(seek(c.player.opponent_goal_position).scaled(milli(500))));
    c.player.max_speed = units(0);
    assert_eq!(state.velocity(&c, spot), Some(glide_if_any(None)));
}
