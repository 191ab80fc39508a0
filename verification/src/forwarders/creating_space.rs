//! A forward who makes room and shows for the ball.
use crate::context::{
    headcount, turned, MatchPlayerLite, PlayerSide, PositionGroup, StateProcessingContext,
    TacticalStyle,
};
use crate::gaps::{gaps_between, Gap};
use crate::movement::{inside, is_on_the_line, opponents_in_the_way};
use crate::outcome::{
    arrive, arrive_if_any, exertion_with_velocity, still, with_forward_state, ActivityIntensity,
    Exertion, ForwardState, Movement, StateChangeResult,
};
use crate::scalar::{milli, units, Scalar};
use crate::scan;
use crate::vector::{aligned_at_most, flat, vec3, Vec3};
use vstd::prelude::*;

verus! {

pub open spec fn spec_max_distance_from_ball() -> Scalar {
    units(80)
}

#[verifier::when_used_as_spec(spec_max_distance_from_ball)]
pub fn max_distance_from_ball() -> (r: Scalar)
    ensures
        r == spec_max_distance_from_ball(),
{
    units(80)
}

pub open spec fn spec_min_distance_from_ball() -> Scalar {
    units(30)
}

#[verifier::when_used_as_spec(spec_min_distance_from_ball)]
pub fn min_distance_from_ball() -> (r: Scalar)
    ensures
        r == spec_min_distance_from_ball(),
{
    units(30)
}

pub open spec fn spec_optimal_passing_distance_min() -> Scalar {
    units(20)
}

#[verifier::when_used_as_spec(spec_optimal_passing_distance_min)]
pub fn optimal_passing_distance_min() -> (r: Scalar)
    ensures
        r == spec_optimal_passing_distance_min(),
{
    units(20)
}

pub open spec fn spec_optimal_passing_distance_max() -> Scalar {
    units(70)
}

#[verifier::when_used_as_spec(spec_optimal_passing_distance_max)]
pub fn optimal_passing_distance_max() -> (r: Scalar)
    ensures
        r == spec_optimal_passing_distance_max(),
{
    units(70)
}

pub open spec fn spec_pressure_relief_radius() -> Scalar {
    units(45)
}

/// How near the player on the ball a helper has to be to relieve the pressure.
#[verifier::when_used_as_spec(spec_pressure_relief_radius)]
pub fn pressure_relief_radius() -> (r: Scalar)
    ensures
        r == spec_pressure_relief_radius(),
{
    units(45)
}

/// What is found out about a spot: how much of the goal is open from there, and whether it is
/// taken by the ball carrier or a teammate.
#[derive(Clone, Copy, PartialEq, Eq, Structural, Debug)]
pub struct ZoneReading {
    pub open_angle: Scalar,
    pub claimed: bool,
}

/// A spot with its score.
#[derive(Clone, Copy, PartialEq, Eq, Structural, Debug)]
pub struct RatedZone {
    pub spot: Option<Vec3>,
    pub score: Scalar,
    pub claimed: bool,
}

#[derive(Default, Clone, Copy)]
pub struct ForwardCreatingSpaceState {}

impl ForwardCreatingSpaceState {
    pub open spec fn spec_process(
        &self,
        ctx: &StateProcessingContext,
    ) -> Option<StateChangeResult> {
        if ctx.player.has_ball {
            Some(with_forward_state(ForwardState::Running))
        } else if ctx.ball.should_take_immediately && ctx.team.best_player_to_chase_ball {
            Some(with_forward_state(ForwardState::TakeBall))
        } else if !ctx.team.control_ball {
            Some(with_forward_state(ForwardState::Running))
        } else if ctx.ball.distance < units(100)
            && ctx.ball.is_towards_player_with_angle(milli(800)) {
            Some(with_forward_state(ForwardState::Intercepting))
        } else if self.has_created_good_space(ctx) {
            Some(with_forward_state(ForwardState::Assisting))
        } else if self.should_make_forward_run(ctx) {
            Some(with_forward_state(ForwardState::RunningInBehind))
        } else {
            None
        }
    }

    /// The next state of a forward who makes room.
    #[verifier::when_used_as_spec(spec_process)]
    pub fn process(&self, ctx: &StateProcessingContext) -> (r: Option<StateChangeResult>)
        ensures
            r == self.spec_process(ctx),
    {
        if ctx.player.has_ball {
            return Some(with_forward_state(ForwardState::Running));
        }
        if ctx.ball.should_take_immediately && ctx.team.best_player_to_chase_ball {
            return Some(with_forward_state(ForwardState::TakeBall));
        }
        if !ctx.team.control_ball {
            return Some(with_forward_state(ForwardState::Running));
        }
        if ctx.ball.distance < units(100) && ctx.ball.is_towards_player_with_angle(milli(800)) {
            return Some(with_forward_state(ForwardState::Intercepting));
        }
        if self.has_created_good_space(ctx) {
            return Some(with_forward_state(ForwardState::Assisting));
        }
        if self.should_make_forward_run(ctx) {
            return Some(with_forward_state(ForwardState::RunningInBehind));
        }
        None
    }

    pub open spec fn spec_fits_pitch(&self, ctx: &StateProcessingContext) -> bool {
        if self.has_opponents_to_scan(ctx) {
            ctx.field_size.width >= 60 && ctx.field_size.height >= 40
        } else {
            ctx.player.side.is_none()
                || (ctx.field_size.width >= 20 && ctx.field_size.height >= 20)
        }
    }

    /// The pitch has room for the spots that the forward considers, and for the margins of the
    /// chosen one.
    #[verifier::when_used_as_spec(spec_fits_pitch)]
    pub fn fits_pitch(&self, ctx: &StateProcessingContext) -> (r: bool)
        ensures
            r == self.spec_fits_pitch(ctx),
    {
        if self.has_opponents_to_scan(ctx) {
            ctx.field_size.width >= 60 && ctx.field_size.height >= 40
        } else {
            ctx.player.side.is_none()
                || (ctx.field_size.width >= 20 && ctx.field_size.height >= 20)
        }
    }

    pub open spec fn spec_velocity(
        &self,
        ctx: &StateProcessingContext,
        readings: &Vec<ZoneReading>,
    ) -> Option<Movement> {
        match self.find_optimal_free_zone(ctx, readings) {
            Some(target) => if target.distance_to(ctx.player.position) < units(8) {
                Some(still())
            } else {
                Some(arrive(target, units(20)))
            },
            None => Some(arrive_if_any(None, units(20))),
        }
    }

    /// To the best free zone, and no further once there.
    #[verifier::when_used_as_spec(spec_velocity)]
    pub fn velocity(
        &self,
        ctx: &StateProcessingContext,
        readings: &Vec<ZoneReading>,
    ) -> (r: Option<Movement>)
        requires
            self.fits_pitch(ctx),
            readings.len() == self.zone_candidates(ctx).len(),
        ensures
            r == self.spec_velocity(ctx, readings),
    {
        match self.find_optimal_free_zone(ctx, readings) {
            Some(target) => if target.distance_to(ctx.player.position) < units(8) {
                Some(still())
            } else {
                Some(arrive(target, units(20)))
            },
            None => Some(arrive_if_any(None, units(20))),
        }
    }

    pub open spec fn spec_process_conditions(&self) -> Exertion {
        exertion_with_velocity(ActivityIntensity::Moderate)
    }

    /// The load of the state.
    #[verifier::when_used_as_spec(spec_process_conditions)]
    pub fn process_conditions(&self) -> (r: Exertion)
        ensures
            r == self.spec_process_conditions(),
    {
        exertion_with_velocity(ActivityIntensity::Moderate)
    }

    pub open spec fn spec_is_in_scan_radius(
        &self,
        ctx: &StateProcessingContext,
        o: MatchPlayerLite,
    ) -> bool {
        (o.position - ctx.player.position).norm_squared() < units(62500)
    }

    /// The opponent is near enough to matter for the search.
    #[verifier::when_used_as_spec(spec_is_in_scan_radius)]
    pub fn is_in_scan_radius(&self, ctx: &StateProcessingContext, o: MatchPlayerLite) -> (r: bool)
        ensures
            r == self.spec_is_in_scan_radius(ctx, o),
    {
        (o.position - ctx.player.position).norm_squared() < units(62500)
    }

    pub open spec fn spec_has_opponents_to_scan(&self, ctx: &StateProcessingContext) -> bool {
        scan::some_where(ctx.opponents@, |o: MatchPlayerLite| self.is_in_scan_radius(ctx, o))
    }

    #[verifier::when_used_as_spec(spec_has_opponents_to_scan)]
    pub fn has_opponents_to_scan(&self, ctx: &StateProcessingContext) -> (r: bool)
        ensures
            r == self.spec_has_opponents_to_scan(ctx),
    {
        scan::any_of(
            &ctx.opponents,
            |o: MatchPlayerLite| -> (b: bool)
                ensures b == (self.is_in_scan_radius(ctx, o))
            {
                self.is_in_scan_radius(ctx, o)
            },
            Ghost(|o: MatchPlayerLite| self.is_in_scan_radius(ctx, o)),
        )
    }

    pub open spec fn spec_is_usable_gap(&self, g: Gap) -> bool {
        g.width > units(12) && g.width < units(80)
    }

    /// A gap of a width that can be used.
    #[verifier::when_used_as_spec(spec_is_usable_gap)]
    pub fn is_usable_gap(&self, g: Gap) -> (r: bool)
        ensures
            r == self.spec_is_usable_gap(g),
    {
        g.width > units(12) && g.width < units(80)
    }

    pub open spec fn spec_beyond_gap(&self, ctx: &StateProcessingContext, g: Gap) -> Option<Vec3> {
        match (ctx.goal() - g.center).direction() {
            Some(ahead) => Some(g.center + ahead * units(10)),
            None => None,
        }
    }

    /// A step from the middle of a gap towards the goal; none where the gap is right there.
    #[verifier::when_used_as_spec(spec_beyond_gap)]
    pub fn beyond_gap(&self, ctx: &StateProcessingContext, g: Gap) -> (r: Option<Vec3>)
        ensures
            r == self.spec_beyond_gap(ctx, g),
    {
        match (ctx.goal() - g.center).direction() {
            Some(ahead) => Some(g.center + ahead * units(10)),
            None => None,
        }
    }

    /// The middle of each usable gap, and a step from there towards the goal.
    pub open spec fn gap_spots(
        &self,
        ctx: &StateProcessingContext,
        gaps: Seq<Gap>,
    ) -> Seq<Option<Vec3>>
        decreases gaps.len(),
    {
        if gaps.len() == 0 {
            Seq::empty()
        } else {
            let before = self.gap_spots(ctx, gaps.drop_last());
            if self.is_usable_gap(gaps.last()) {
                before.push(Some(gaps.last().center)).push(self.beyond_gap(ctx, gaps.last()))
            } else {
                before
            }
        }
    }

    pub open spec fn spec_left_of(
        &self,
        ctx: &StateProcessingContext,
        o: MatchPlayerLite,
    ) -> Option<Vec3> {
        match (ctx.goal() - o.position).direction() {
            Some(ahead) => Some(o.position + turned(ahead) * units(25) + ahead * units(20)),
            None => None,
        }
    }

    /// To one side of an opponent and towards the goal; nowhere if the opponent is right there.
    #[verifier::when_used_as_spec(spec_left_of)]
    pub fn left_of(&self, ctx: &StateProcessingContext, o: MatchPlayerLite) -> (r: Option<Vec3>)
        ensures
            r == self.spec_left_of(ctx, o),
    {
        match (ctx.goal() - o.position).direction() {
            Some(ahead) => Some(o.position + turned(ahead) * units(25) + ahead * units(20)),
            None => None,
        }
    }

    pub open spec fn spec_right_of(
        &self,
        ctx: &StateProcessingContext,
        o: MatchPlayerLite,
    ) -> Option<Vec3> {
        match (ctx.goal() - o.position).direction() {
            Some(ahead) => Some(o.position - turned(ahead) * units(25) + ahead * units(20)),
            None => None,
        }
    }

    /// To the other side of an opponent and towards the goal; nowhere if the opponent is right
    /// there.
    #[verifier::when_used_as_spec(spec_right_of)]
    pub fn right_of(&self, ctx: &StateProcessingContext, o: MatchPlayerLite) -> (r: Option<Vec3>)
        ensures
            r == self.spec_right_of(ctx, o),
    {
        match (ctx.goal() - o.position).direction() {
            Some(ahead) => Some(o.position - turned(ahead) * units(25) + ahead * units(20)),
            None => None,
        }
    }

    pub open spec fn spec_behind_back_of(
        &self,
        ctx: &StateProcessingContext,
        o: MatchPlayerLite,
    ) -> Option<Vec3> {
        match (ctx.goal() - o.position).direction() {
            Some(ahead) => Some(o.position + ahead * units(15)),
            None => None,
        }
    }

    /// Behind the back of an opponent; nowhere if the opponent is right at the goal.
    #[verifier::when_used_as_spec(spec_behind_back_of)]
    pub fn behind_back_of(
        &self,
        ctx: &StateProcessingContext,
        o: MatchPlayerLite,
    ) -> (r: Option<Vec3>)
        ensures
            r == self.spec_behind_back_of(ctx, o),
    {
        match (ctx.goal() - o.position).direction() {
            Some(ahead) => Some(o.position + ahead * units(15)),
            None => None,
        }
    }

    /// The spots beside and behind each opponent.
    pub open spec fn offset_spots(
        &self,
        ctx: &StateProcessingContext,
        opponents: Seq<MatchPlayerLite>,
    ) -> Seq<Option<Vec3>>
        decreases opponents.len(),
    {
        if opponents.len() == 0 {
            Seq::empty()
        } else {
            self.offset_spots(ctx, opponents.drop_last()).push(
                self.left_of(ctx, opponents.last()),
            ).push(self.right_of(ctx, opponents.last())).push(
                self.behind_back_of(ctx, opponents.last()),
            )
        }
    }

    pub open spec fn spec_grid_depth(&self, row: usize) -> Scalar {
        if row == 0 {
            units(25)
        } else if row == 1 {
            units(50)
        } else if row == 2 {
            units(80)
        } else {
            units(120)
        }
    }

    /// The depths of the grid ahead of the forward.
    #[verifier::when_used_as_spec(spec_grid_depth)]
    pub fn grid_depth(&self, row: usize) -> (r: Scalar)
        ensures
            r == self.spec_grid_depth(row),
    {
        if row == 0 {
            units(25)
        } else if row == 1 {
            units(50)
        } else if row == 2 {
            units(80)
        } else {
            units(120)
        }
    }

    pub open spec fn spec_grid_lane(&self, column: usize) -> Scalar {
        if column == 0 {
            units(100).negated()
        } else if column == 1 {
            units(60).negated()
        } else if column == 2 {
            units(30).negated()
        } else if column == 3 {
            units(0)
        } else if column == 4 {
            units(30)
        } else if column == 5 {
            units(60)
        } else {
            units(100)
        }
    }

    /// The lanes of the grid ahead of the forward.
    #[verifier::when_used_as_spec(spec_grid_lane)]
    pub fn grid_lane(&self, column: usize) -> (r: Scalar)
        ensures
            r == self.spec_grid_lane(column),
    {
        if column == 0 {
            units(100).negated()
        } else if column == 1 {
            units(60).negated()
        } else if column == 2 {
            units(30).negated()
        } else if column == 3 {
            units(0)
        } else if column == 4 {
            units(30)
        } else if column == 5 {
            units(60)
        } else {
            units(100)
        }
    }

    pub open spec fn spec_grid_spot(
        &self,
        ctx: &StateProcessingContext,
        row: usize,
        column: usize,
    ) -> Option<Vec3> {
        match ctx.to_goal().direction() {
            Some(ahead) => Some(
                ctx.player.position + ahead * self.grid_depth(row)
                    + turned(ahead) * self.grid_lane(column),
            ),
            None => None,
        }
    }

    /// A spot of the grid ahead of the forward; none ahead of one on the goal.
    #[verifier::when_used_as_spec(spec_grid_spot)]
    pub fn grid_spot(
        &self,
        ctx: &StateProcessingContext,
        row: usize,
        column: usize,
    ) -> (r: Option<Vec3>)
        ensures
            r == self.spec_grid_spot(ctx, row, column),
    {
        match ctx.to_goal().direction() {
            Some(ahead) => Some(
                ctx.player.position + ahead * self.grid_depth(row)
                    + turned(ahead) * self.grid_lane(column),
            ),
            None => None,
        }
    }

    pub open spec fn spec_flank_lane(&self, ctx: &StateProcessingContext, lane: usize) -> Scalar {
        if lane == 0 {
            ctx.height() * milli(100)
        } else if lane == 1 {
            ctx.height() * milli(250)
        } else if lane == 2 {
            ctx.height() * milli(750)
        } else {
            ctx.height() * milli(900)
        }
    }

    /// The lanes on the flanks and in the half-spaces.
    #[verifier::when_used_as_spec(spec_flank_lane)]
    pub fn flank_lane(&self, ctx: &StateProcessingContext, lane: usize) -> (r: Scalar)
        ensures
            r == self.spec_flank_lane(ctx, lane),
    {
        if lane == 0 {
            ctx.height() * milli(100)
        } else if lane == 1 {
            ctx.height() * milli(250)
        } else if lane == 2 {
            ctx.height() * milli(750)
        } else {
            ctx.height() * milli(900)
        }
    }

    pub open spec fn spec_flank_depth(&self, step: usize) -> Scalar {
        if step == 0 {
            units(40)
        } else if step == 1 {
            units(80)
        } else {
            units(120)
        }
    }

    /// How far ahead of the ball a spot on the flank is.
    #[verifier::when_used_as_spec(spec_flank_depth)]
    pub fn flank_depth(&self, step: usize) -> (r: Scalar)
        ensures
            r == self.spec_flank_depth(step),
    {
        if step == 0 {
            units(40)
        } else if step == 1 {
            units(80)
        } else {
            units(120)
        }
    }

    pub open spec fn spec_flank_spot(
        &self,
        ctx: &StateProcessingContext,
        lane: usize,
        step: usize,
    ) -> Option<Vec3> {
        Some(
            flat(
                (
                    ctx.ball.position.x
                        + self.get_attacking_direction(ctx).x * self.flank_depth(step)
                ).clamp(units(30), ctx.width() - units(30)),
                self.flank_lane(ctx, lane),
            ),
        )
    }

    /// A spot on the flank ahead of the ball.
    #[verifier::when_used_as_spec(spec_flank_spot)]
    pub fn flank_spot(
        &self,
        ctx: &StateProcessingContext,
        lane: usize,
        step: usize,
    ) -> (r: Option<Vec3>)
        requires
            ctx.field_size.width >= 60,
        ensures
            r == self.spec_flank_spot(ctx, lane, step),
    {
        Some(
            flat(
                (
                    ctx.ball.position.x
                        + self.get_attacking_direction(ctx).x * self.flank_depth(step)
                ).clamp(units(30), ctx.width() - units(30)),
                self.flank_lane(ctx, lane),
            ),
        )
    }

    /// The grid ahead of the forward, row by row.
    pub open spec fn grid_spots(&self, ctx: &StateProcessingContext) -> Seq<Option<Vec3>> {
        Seq::new(28, |k: int| self.grid_spot(ctx, (k / 7) as usize, (k % 7) as usize))
    }

    /// The spots on the flanks, lane by lane.
    pub open spec fn flank_spots(&self, ctx: &StateProcessingContext) -> Seq<Option<Vec3>> {
        Seq::new(12, |k: int| self.flank_spot(ctx, (k / 3) as usize, (k % 3) as usize))
    }

    /// The opponents that the search looks at.
    pub open spec fn scanned(&self, ctx: &StateProcessingContext) -> Seq<MatchPlayerLite> {
        ctx.opponents@.filter(|o: MatchPlayerLite| self.is_in_scan_radius(ctx, o))
    }

    /// The spots that the forward considers, in order; no spot where no opponent is around. A
    /// spot that rests on a missing direction is not a number: it is none.
    pub open spec fn zone_candidates(&self, ctx: &StateProcessingContext) -> Seq<Option<Vec3>> {
        if !self.has_opponents_to_scan(ctx) {
            Seq::empty()
        } else {
            (self.gap_spots(ctx, crate::gaps::gaps_from(self.scanned(ctx), 0)) + self.offset_spots(
                ctx,
                self.scanned(ctx),
            ) + self.grid_spots(ctx) + self.flank_spots(ctx)).push(Some(ctx.player.position)).map_values(
                |spot: Option<Vec3>| self.on_pitch(ctx, spot),
            )
        }
    }

    /// Adds the spots in and beyond the gaps.
    fn add_gap_spots(
        &self,
        ctx: &StateProcessingContext,
        gaps: &Vec<Gap>,
        spots: &mut Vec<Option<Vec3>>,
    )
        ensures
            final(spots)@ == old(spots)@ + self.gap_spots(ctx, gaps@),
    {
        let ghost before = spots@;
        let mut i: usize = 0;
        assert(spots@ =~= before + self.gap_spots(ctx, gaps@.take(0)));
        while i < gaps.len()
            invariant
                i <= gaps.len(),
                spots@ == before + self.gap_spots(ctx, gaps@.take(i as int)),
            decreases gaps.len() - i,
        {
            assert(gaps@.take(i + 1).drop_last() =~= gaps@.take(i as int));
            let ghost so_far = spots@;
            if self.is_usable_gap(gaps[i]) {
                spots.push(Some(gaps[i].center));
                spots.push(self.beyond_gap(ctx, gaps[i]));
            }
            i = i + 1;
            assert(spots@ =~= before + self.gap_spots(ctx, gaps@.take(i as int)));
        }
        assert(gaps@.take(gaps.len() as int) =~= gaps@);
    }

    /// Adds the spots beside and behind the opponents.
    fn add_offset_spots(
        &self,
        ctx: &StateProcessingContext,
        opponents: &Vec<MatchPlayerLite>,
        spots: &mut Vec<Option<Vec3>>,
    )
        ensures
            final(spots)@ == old(spots)@ + self.offset_spots(ctx, opponents@),
    {
        let ghost before = spots@;
        let mut i: usize = 0;
        assert(spots@ =~= before + self.offset_spots(ctx, opponents@.take(0)));
        while i < opponents.len()
            invariant
                i <= opponents.len(),
                spots@ == before + self.offset_spots(ctx, opponents@.take(i as int)),
            decreases opponents.len() - i,
        {
            assert(opponents@.take(i + 1).drop_last() =~= opponents@.take(i as int));
            spots.push(self.left_of(ctx, opponents[i]));
            spots.push(self.right_of(ctx, opponents[i]));
            spots.push(self.behind_back_of(ctx, opponents[i]));
            i = i + 1;
            assert(spots@ =~= before + self.offset_spots(ctx, opponents@.take(i as int)));
        }
        assert(opponents@.take(opponents.len() as int) =~= opponents@);
    }

    /// Adds the grid ahead of the forward.
    fn add_grid_spots(&self, ctx: &StateProcessingContext, spots: &mut Vec<Option<Vec3>>)
        ensures
            final(spots)@ == old(spots)@ + self.grid_spots(ctx),
    {
        let ghost before = spots@;
        let ghost all = self.grid_spots(ctx);
        let mut k: usize = 0;
        while k < 28
            invariant
                k <= 28,
                all == self.grid_spots(ctx),
                spots@ == before + all.take(k as int),
            decreases 28 - k,
        {
            spots.push(self.grid_spot(ctx, k / 7, k % 7));
            k = k + 1;
            assert(spots@ =~= before + all.take(k as int));
        }
        assert(all.take(28) =~= all);
    }

    /// Adds the spots on the flanks.
    fn add_flank_spots(&self, ctx: &StateProcessingContext, spots: &mut Vec<Option<Vec3>>)
        requires
            ctx.field_size.width >= 60,
        ensures
            final(spots)@ == old(spots)@ + self.flank_spots(ctx),
    {
        let ghost before = spots@;
        let ghost all = self.flank_spots(ctx);
        let mut k: usize = 0;
        while k < 12
            invariant
                k <= 12,
                ctx.field_size.width >= 60,
                all == self.flank_spots(ctx),
                spots@ == before + all.take(k as int),
            decreases 12 - k,
        {
            spots.push(self.flank_spot(ctx, k / 3, k % 3));
            k = k + 1;
            assert(spots@ =~= before + all.take(k as int));
        }
        assert(all.take(12) =~= all);
    }

    /// The spots that the forward considers: in and beyond the gaps between the opponents
    /// around, beside and behind each of them, on a grid ahead, on the flanks, and right here.
    /// All lie inside the pitch.
    pub fn free_zone_candidates(&self, ctx: &StateProcessingContext) -> (r: Vec<Option<Vec3>>)
        requires
            self.has_opponents_to_scan(ctx) ==> ctx.field_size.width >= 60
                && ctx.field_size.height >= 40,
        ensures
            r@ == self.zone_candidates(ctx),
    {
        let mut spots: Vec<Option<Vec3>> = Vec::new();
        if !self.has_opponents_to_scan(ctx) {
            return spots;
        }
        let around = scan::select(
            &ctx.opponents,
            |o: MatchPlayerLite| -> (b: bool)
                ensures b == (self.is_in_scan_radius(ctx, o))
            {
                self.is_in_scan_radius(ctx, o)
            },
            Ghost(|o: MatchPlayerLite| self.is_in_scan_radius(ctx, o)),
        );
        let gaps = gaps_between(&around);
        self.add_gap_spots(ctx, &gaps, &mut spots);
        self.add_offset_spots(ctx, &around, &mut spots);
        self.add_grid_spots(ctx, &mut spots);
        self.add_flank_spots(ctx, &mut spots);
        spots.push(Some(ctx.player.position));
        let ghost raw = (self.gap_spots(ctx, crate::gaps::gaps_from(self.scanned(ctx), 0))
            + self.offset_spots(ctx, self.scanned(ctx)) + self.grid_spots(ctx) + self.flank_spots(
            ctx,
        )).push(Some(ctx.player.position));
        assert(spots@ =~= raw);
        let mut kept: Vec<Option<Vec3>> = Vec::new();
        let mut i: usize = 0;
        while i < spots.len()
            invariant
                i <= spots.len(),
                ctx.field_size.width >= 60,
                ctx.field_size.height >= 40,
                kept.len() == i,
                forall|k: int| 0 <= k < i ==> #[trigger] kept@[k] == self.on_pitch(ctx, spots@[k]),
            decreases spots.len() - i,
        {
            kept.push(self.on_pitch(ctx, spots[i]));
            i = i + 1;
        }
        assert(kept@ =~= raw.map_values(|spot: Option<Vec3>| self.on_pitch(ctx, spot)));
        kept
    }

    pub open spec fn spec_on_pitch(
        &self,
        ctx: &StateProcessingContext,
        spot: Option<Vec3>,
    ) -> Option<Vec3> {
        match spot {
            Some(place) => Some(inside(ctx, place, 20, 20)),
            None => None,
        }
    }

    /// A spot kept inside the pitch.
    #[verifier::when_used_as_spec(spec_on_pitch)]
    pub fn on_pitch(&self, ctx: &StateProcessingContext, spot: Option<Vec3>) -> (r: Option<Vec3>)
        requires
            ctx.field_size.width >= 40,
            ctx.field_size.height >= 40,
        ensures
            r == self.spec_on_pitch(ctx, spot),
            r is None <==> spot is None,
            r matches Some(kept) ==> units(20) <= kept.x && kept.x <= ctx.width() - units(20)
                && units(20) <= kept.y && kept.y <= ctx.height() - units(20),
    {
        match spot {
            Some(place) => Some(inside(ctx, place, 20, 20)),
            None => None,
        }
    }

    pub open spec fn spec_rated(
        &self,
        ctx: &StateProcessingContext,
        spot: Option<Vec3>,
        reading: ZoneReading,
    ) -> RatedZone {
        RatedZone {
            spot,
            score: self.score(ctx, spot, reading.open_angle),
            claimed: reading.claimed,
        }
    }

    /// A spot with its score.
    #[verifier::when_used_as_spec(spec_rated)]
    pub fn rated(
        &self,
        ctx: &StateProcessingContext,
        spot: Option<Vec3>,
        reading: ZoneReading,
    ) -> (r: RatedZone)
        ensures
            r == self.spec_rated(ctx, spot, reading),
    {
        RatedZone {
            spot,
            score: self.score(ctx, spot, reading.open_angle),
            claimed: reading.claimed,
        }
    }

    pub open spec fn spec_score(
        &self,
        ctx: &StateProcessingContext,
        spot: Option<Vec3>,
        open_angle: Scalar,
    ) -> Scalar {
        match spot {
            Some(position) => self.evaluate_forward_position_fast(
                ctx,
                position,
                self.get_ball_holder(ctx),
                ctx.player.defensive_line,
                self.attacks_to_the_right(ctx),
                open_angle,
            ),
            None => self.score_of_nowhere(self.get_ball_holder(ctx)),
        }
    }

    /// The score of a spot, given how much of the goal is open from there.
    #[verifier::when_used_as_spec(spec_score)]
    pub fn score(
        &self,
        ctx: &StateProcessingContext,
        spot: Option<Vec3>,
        open_angle: Scalar,
    ) -> (r: Scalar)
        ensures
            r == self.spec_score(ctx, spot, open_angle),
    {
        match spot {
            Some(position) => self.evaluate_forward_position_fast(
                ctx,
                position,
                self.get_ball_holder(ctx),
                ctx.player.defensive_line,
                self.attacks_to_the_right(ctx),
                open_angle,
            ),
            None => self.score_of_nowhere(self.get_ball_holder(ctx)),
        }
    }

    pub open spec fn spec_score_of_nowhere(&self, ball_holder: Option<MatchPlayerLite>) -> Scalar {
        if ball_holder.is_some() {
            units(60)
        } else {
            units(45)
        }
    }

    /// The score of a spot that is not a number: nobody is near it, it is not offside, and
    /// nobody is in the way of a pass to it.
    #[verifier::when_used_as_spec(spec_score_of_nowhere)]
    pub fn score_of_nowhere(&self, ball_holder: Option<MatchPlayerLite>) -> (r: Scalar)
        ensures
            r == self.spec_score_of_nowhere(ball_holder),
    {
        if ball_holder.is_some() { units(60) } else { units(45) }
    }

    /// The considered spots with their scores.
    pub open spec fn rated_zones(
        &self,
        ctx: &StateProcessingContext,
        readings: Seq<ZoneReading>,
    ) -> Seq<RatedZone> {
        Seq::new(
            self.zone_candidates(ctx).len(),
            |k: int| self.rated(ctx, self.zone_candidates(ctx)[k], readings[k]),
        )
    }

    /// The best zone that nobody has taken, else the best of all; of equals, the first.
    pub open spec fn best_zone(
        &self,
        ctx: &StateProcessingContext,
        zones: Seq<RatedZone>,
    ) -> Option<Vec3> {
        match scan::first_greatest_where(
            zones,
            |z: RatedZone| !z.claimed,
            |z: RatedZone| z.score,
        ) {
            Some(zone) => zone.spot,
            None => match scan::first_greatest_where(
                zones,
                |z: RatedZone| true,
                |z: RatedZone| z.score,
            ) {
                Some(zone) => zone.spot,
                None => Some(ctx.player.position),
            },
        }
    }

    pub open spec fn spec_find_optimal_free_zone(
        &self,
        ctx: &StateProcessingContext,
        readings: &Vec<ZoneReading>,
    ) -> Option<Vec3> {
        if !self.has_opponents_to_scan(ctx) {
            self.apply_forward_tactical_adjustment(ctx, self.spot_ahead(ctx))
        } else {
            self.apply_forward_tactical_adjustment(
                ctx,
                self.best_zone(ctx, self.rated_zones(ctx, readings@)),
            )
        }
    }

    pub open spec fn spec_spot_ahead(&self, ctx: &StateProcessingContext) -> Option<Vec3> {
        match ctx.to_goal().direction() {
            Some(ahead) => Some(ctx.player.position + ahead * units(30)),
            None => None,
        }
    }

    /// Some steps towards the goal; none on the goal itself.
    #[verifier::when_used_as_spec(spec_spot_ahead)]
    pub fn spot_ahead(&self, ctx: &StateProcessingContext) -> (r: Option<Vec3>)
        ensures
            r == self.spec_spot_ahead(ctx),
    {
        match ctx.to_goal().direction() {
            Some(ahead) => Some(ctx.player.position + ahead * units(30)),
            None => None,
        }
    }

    /// The best zone in the style of the team; towards the goal where no opponent is around. It
    /// is none where it rests on a missing direction.
    /// `readings` holds one reading for each spot of `free_zone_candidates`, in that order.
    #[verifier::when_used_as_spec(spec_find_optimal_free_zone)]
    pub fn find_optimal_free_zone(
        &self,
        ctx: &StateProcessingContext,
        readings: &Vec<ZoneReading>,
    ) -> (r: Option<Vec3>)
        requires
            self.fits_pitch(ctx),
            readings.len() == self.zone_candidates(ctx).len(),
        ensures
            r == self.spec_find_optimal_free_zone(ctx, readings),
    {
        if !self.has_opponents_to_scan(ctx) {
            return self.apply_forward_tactical_adjustment(ctx, self.spot_ahead(ctx));
        }
        let spots = self.free_zone_candidates(ctx);
        let mut zones: Vec<RatedZone> = Vec::new();
        let mut i: usize = 0;
        while i < spots.len()
            invariant
                i <= spots.len(),
                spots@ == self.zone_candidates(ctx),
                readings.len() == spots.len(),
                zones.len() == i,
                forall|k: int|
                    0 <= k < i ==> #[trigger] zones@[k] == self.rated(
                        ctx,
                        spots@[k],
                        readings@[k],
                    ),
            decreases spots.len() - i,
        {
            zones.push(self.rated(ctx, spots[i], readings[i]));
            i = i + 1;
        }
        assert(zones@ =~= self.rated_zones(ctx, readings@));
        let best = match scan::first_greatest_of(
            &zones,
            |z: RatedZone| -> (b: bool)
                ensures b == (!z.claimed)
            {
                !z.claimed
            },
            |z: RatedZone| -> (b: Scalar)
                ensures b == (z.score)
            {
                z.score
            },
            Ghost(|z: RatedZone| !z.claimed),
            Ghost(|z: RatedZone| z.score),
        ) {
            Some(zone) => zone.spot,
            None => match scan::first_greatest_of(
                &zones,
                |z: RatedZone| -> (b: bool)
                    ensures b == (true)
                {
                    true
                },
                |z: RatedZone| -> (b: Scalar)
                    ensures b == (z.score)
                {
                    z.score
                },
                Ghost(|z: RatedZone| true),
                Ghost(|z: RatedZone| z.score),
            ) {
                Some(zone) => zone.spot,
                None => Some(ctx.player.position),
            },
        };
        self.apply_forward_tactical_adjustment(ctx, best)
    }

    pub open spec fn spec_evaluate_forward_position_fast(
        &self,
        ctx: &StateProcessingContext,
        position: Vec3,
        ball_holder: Option<MatchPlayerLite>,
        last_defender_x: Scalar,
        attacks_right: bool,
        open_angle: Scalar,
    ) -> Scalar {
        self.space_score(ctx, position) + self.goal_score(ctx, position, open_angle)
        + self.line_score(ctx, position, last_defender_x, attacks_right)
        + self.holder_score(ctx, position, ball_holder)
        - self.teammate_crowding(ctx, position) * units(50)
        - self.goalkeeper_penalty(ctx, position)
    }

    /// How good a spot is for a forward, given the teammate on the ball, the depth of the last
    /// defender, the way of the attack, and how much of the goal is open from there.
    #[verifier::when_used_as_spec(spec_evaluate_forward_position_fast)]
    pub fn evaluate_forward_position_fast(
        &self,
        ctx: &StateProcessingContext,
        position: Vec3,
        ball_holder: Option<MatchPlayerLite>,
        last_defender_x: Scalar,
        attacks_right: bool,
        open_angle: Scalar,
    ) -> (r: Scalar)
        ensures
            r == self.spec_evaluate_forward_position_fast(
                ctx,
                position,
                ball_holder,
                last_defender_x,
                attacks_right,
                open_angle,
            ),
    {
        self.space_score(ctx, position) + self.goal_score(ctx, position, open_angle)
        + self.line_score(ctx, position, last_defender_x, attacks_right)
        + self.holder_score(ctx, position, ball_holder)
        - self.teammate_crowding(ctx, position) * units(50)
        - self.goalkeeper_penalty(ctx, position)
    }

    pub open spec fn spec_congestion(
        &self,
        ctx: &StateProcessingContext,
        position: Vec3,
    ) -> Scalar {
        scan::total(
            ctx.opponents@,
            |o: MatchPlayerLite|
                if (o.position - position).magnitude() < units(30) {
                    (units(30) - (o.position - position).magnitude()) / units(30)
                } else {
                    units(0)
                },
        )
    }

    /// How many opponents crowd a spot, each by nearness.
    #[verifier::when_used_as_spec(spec_congestion)]
    pub fn congestion(&self, ctx: &StateProcessingContext, position: Vec3) -> (r: Scalar)
        ensures
            r == self.spec_congestion(ctx, position),
    {
        scan::total_of(
            &ctx.opponents,
            |o: MatchPlayerLite| -> (b: Scalar)
                ensures b == (
                    if (o.position - position).magnitude() < units(30) {
                        (units(30) - (o.position - position).magnitude()) / units(30)
                    } else {
                        units(0)
                    }
                )
            {
                if (o.position - position).magnitude() < units(30) {
                    (units(30) - (o.position - position).magnitude()) / units(30)
                } else {
                    units(0)
                }
            },
            Ghost(
                |o: MatchPlayerLite|
                    if (o.position - position).magnitude() < units(30) {
                        (units(30) - (o.position - position).magnitude()) / units(30)
                    } else {
                        units(0)
                    },
            ),
        )
    }

    pub open spec fn spec_space_score(
        &self,
        ctx: &StateProcessingContext,
        position: Vec3,
    ) -> Scalar {
        (units(10) - self.congestion(ctx, position).min(units(10))) * units(3)
    }

    /// For room.
    #[verifier::when_used_as_spec(spec_space_score)]
    pub fn space_score(&self, ctx: &StateProcessingContext, position: Vec3) -> (r: Scalar)
        ensures
            r == self.spec_space_score(ctx, position),
    {
        (units(10) - self.congestion(ctx, position).min(units(10))) * units(3)
    }

    pub open spec fn spec_goal_threat(&self, to_goal: Scalar) -> Scalar {
        if to_goal < units(15) {
            units(8)
        } else if to_goal < units(25) {
            units(10)
        } else if to_goal < units(35) {
            units(6)
        } else {
            (units(100) - to_goal).max(units(0)) / units(20)
        }
    }

    /// For the threat to the goal.
    #[verifier::when_used_as_spec(spec_goal_threat)]
    pub fn goal_threat(&self, to_goal: Scalar) -> (r: Scalar)
        ensures
            r == self.spec_goal_threat(to_goal),
    {
        if to_goal < units(15) {
            units(8)
        } else if to_goal < units(25) {
            units(10)
        } else if to_goal < units(35) {
            units(6)
        } else {
            (units(100) - to_goal).max(units(0)) / units(20)
        }
    }

    pub open spec fn spec_goal_score(
        &self,
        ctx: &StateProcessingContext,
        position: Vec3,
        open_angle: Scalar,
    ) -> Scalar {
        let to_goal = position.distance_to(ctx.goal());
        let angle = if to_goal < units(250) {
            (open_angle / milli(1310)).clamp(units(0), units(1)) * units(25)
        } else {
            units(0)
        };
        let in_box = if to_goal < units(180) {
            units(30)
        } else if to_goal < units(250) {
            units(20)
        } else {
            units(0)
        };
        self.goal_threat(to_goal) * units(6) + angle + in_box
    }

    /// For the threat to the goal, the open angle and the box.
    #[verifier::when_used_as_spec(spec_goal_score)]
    pub fn goal_score(
        &self,
        ctx: &StateProcessingContext,
        position: Vec3,
        open_angle: Scalar,
    ) -> (r: Scalar)
        ensures
            r == self.spec_goal_score(ctx, position, open_angle),
    {
        let to_goal = position.distance_to(ctx.goal());
        let angle = if to_goal < units(250) {
            (open_angle / milli(1310)).clamp(units(0), units(1)) * units(25)
        } else {
            units(0)
        };
        let in_box = if to_goal < units(180) {
            units(30)
        } else if to_goal < units(250) {
            units(20)
        } else {
            units(0)
        };
        self.goal_threat(to_goal) * units(6) + angle + in_box
    }

    pub open spec fn spec_line_score(
        &self,
        ctx: &StateProcessingContext,
        position: Vec3,
        last_defender_x: Scalar,
        attacks_right: bool,
    ) -> Scalar {
        let onside = if self.is_beyond_line(ctx, position, last_defender_x, attacks_right) {
            units(50).negated()
        } else {
            units(15)
        };
        let channel = if (
            position.y - ctx.height() / units(2)
        ).abs() < ctx.height() / units(5) * milli(1500) {
            if position.distance_to(ctx.goal()) < units(300) { units(35) } else { units(20) }
        } else {
            units(0)
        };
        let behind = if self.is_behind_mean(
            ctx,
            position,
            attacks_right,
        ) { units(30) } else { units(0) };
        onside + channel + behind
    }

    /// For being onside, in the central channels, and behind the mean of the opponents.
    #[verifier::when_used_as_spec(spec_line_score)]
    pub fn line_score(
        &self,
        ctx: &StateProcessingContext,
        position: Vec3,
        last_defender_x: Scalar,
        attacks_right: bool,
    ) -> (r: Scalar)
        ensures
            r == self.spec_line_score(ctx, position, last_defender_x, attacks_right),
    {
        let onside = if self.is_beyond_line(ctx, position, last_defender_x, attacks_right) {
            units(50).negated()
        } else {
            units(15)
        };
        let channel = if (
            position.y - ctx.height() / units(2)
        ).abs() < ctx.height() / units(5) * milli(1500) {
            if position.distance_to(ctx.goal()) < units(300) { units(35) } else { units(20) }
        } else {
            units(0)
        };
        let behind = if self.is_behind_mean(
            ctx,
            position,
            attacks_right,
        ) { units(30) } else { units(0) };
        onside + channel + behind
    }

    pub open spec fn spec_is_behind_mean(
        &self,
        ctx: &StateProcessingContext,
        position: Vec3,
        attacks_right: bool,
    ) -> bool {
        let mean = scan::total(
            ctx.opponents@,
            |o: MatchPlayerLite| o.position.x,
        ) / headcount(ctx.opponents.len()).max(units(1));
        if attacks_right {
            position.x > mean
        } else {
            position.x < mean
        }
    }

    /// Beyond the mean depth of all opponents.
    #[verifier::when_used_as_spec(spec_is_behind_mean)]
    pub fn is_behind_mean(
        &self,
        ctx: &StateProcessingContext,
        position: Vec3,
        attacks_right: bool,
    ) -> (r: bool)
        ensures
            r == self.spec_is_behind_mean(ctx, position, attacks_right),
    {
        let mean = scan::total_of(
            &ctx.opponents,
            |o: MatchPlayerLite| -> (b: Scalar)
                ensures b == (o.position.x)
            {
                o.position.x
            },
            Ghost(|o: MatchPlayerLite| o.position.x),
        ) / headcount(ctx.opponents.len()).max(units(1));
        if attacks_right {
            position.x > mean
        } else {
            position.x < mean
        }
    }

    pub open spec fn spec_holder_score(
        &self,
        ctx: &StateProcessingContext,
        position: Vec3,
        ball_holder: Option<MatchPlayerLite>,
    ) -> Scalar {
        match ball_holder {
            Some(holder) => self.range_score(ctx, position, holder)
                + self.relief_score(ctx, position, holder)
            + self.width_score(position, holder) + self.lane_score(ctx, position, holder),
            None => units(0),
        }
    }

    /// For what the spot offers the teammate with the ball.
    #[verifier::when_used_as_spec(spec_holder_score)]
    pub fn holder_score(
        &self,
        ctx: &StateProcessingContext,
        position: Vec3,
        ball_holder: Option<MatchPlayerLite>,
    ) -> (r: Scalar)
        ensures
            r == self.spec_holder_score(ctx, position, ball_holder),
    {
        match ball_holder {
            Some(holder) => self.range_score(ctx, position, holder)
                + self.relief_score(ctx, position, holder)
            + self.width_score(position, holder) + self.lane_score(ctx, position, holder),
            None => units(0),
        }
    }

    pub open spec fn spec_relief_engagement(&self, holder: MatchPlayerLite) -> Scalar {
        ((holder.pressure_intensity - milli(500)) / milli(500)).clamp(units(0), units(1))
    }

    /// How badly the teammate on the ball needs help, from 0 to 1.
    #[verifier::when_used_as_spec(spec_relief_engagement)]
    pub fn relief_engagement(&self, holder: MatchPlayerLite) -> (r: Scalar)
        ensures
            r == self.spec_relief_engagement(holder),
            units(0) <= r,
            r <= units(1),
    {
        ((holder.pressure_intensity - milli(500)) / milli(500)).clamp(units(0), units(1))
    }

    pub open spec fn spec_range_score(
        &self,
        ctx: &StateProcessingContext,
        position: Vec3,
        holder: MatchPlayerLite,
    ) -> Scalar {
        let away = position.distance_to(holder.position);
        if away < optimal_passing_distance_min() {
            (
                (optimal_passing_distance_min() - away) * milli(1500) * (
                    units(1) - self.relief_engagement(holder)
                )
            ).negated()
        } else if away <= optimal_passing_distance_max() {
            units(25)
        } else {
            ((away - optimal_passing_distance_max()) * milli(500)).negated()
        }
    }

    /// For a good passing distance; too close counts less under pressure.
    #[verifier::when_used_as_spec(spec_range_score)]
    pub fn range_score(
        &self,
        ctx: &StateProcessingContext,
        position: Vec3,
        holder: MatchPlayerLite,
    ) -> (r: Scalar)
        ensures
            r == self.spec_range_score(ctx, position, holder),
    {
        let away = position.distance_to(holder.position);
        if away < optimal_passing_distance_min() {
            (
                (optimal_passing_distance_min() - away) * milli(1500) * (
                    units(1) - self.relief_engagement(holder)
                )
            ).negated()
        } else if away <= optimal_passing_distance_max() {
            units(25)
        } else {
            ((away - optimal_passing_distance_max()) * milli(500)).negated()
        }
    }

    pub open spec fn spec_relief_score(
        &self,
        ctx: &StateProcessingContext,
        position: Vec3,
        holder: MatchPlayerLite,
    ) -> Scalar {
        let away = position.distance_to(holder.position);
        let need = self.relief_engagement(holder);
        if need > units(0) && away < pressure_relief_radius() {
            let closeness = (
                (pressure_relief_radius() - away) / pressure_relief_radius()
            ).clamp(units(0), units(1));
            let openness = (
                units(1) - self.congestion(ctx, position).min(units(10)) / units(10)
            ).clamp(units(0), units(1));
            need * closeness * openness * units(30)
        } else {
            units(0)
        }
    }

    /// For a clean outlet close by when the teammate on the ball needs one.
    #[verifier::when_used_as_spec(spec_relief_score)]
    pub fn relief_score(
        &self,
        ctx: &StateProcessingContext,
        position: Vec3,
        holder: MatchPlayerLite,
    ) -> (r: Scalar)
        ensures
            r == self.spec_relief_score(ctx, position, holder),
    {
        let away = position.distance_to(holder.position);
        let need = self.relief_engagement(holder);
        if need > units(0) && away < pressure_relief_radius() {
            let closeness = (
                (pressure_relief_radius() - away) / pressure_relief_radius()
            ).clamp(units(0), units(1));
            let openness = (
                units(1) - self.congestion(ctx, position).min(units(10)) / units(10)
            ).clamp(units(0), units(1));
            need * closeness * openness * units(30)
        } else {
            units(0)
        }
    }

    pub open spec fn spec_width_score(&self, position: Vec3, holder: MatchPlayerLite) -> Scalar {
        let lateral = (position.y - holder.position.y).abs();
        if lateral > units(80) {
            units(30)
        } else if lateral > units(50) {
            units(20)
        } else if lateral > units(30) {
            units(10)
        } else if lateral < units(15) {
            units(15).negated()
        } else {
            units(0)
        }
    }

    /// For width.
    #[verifier::when_used_as_spec(spec_width_score)]
    pub fn width_score(&self, position: Vec3, holder: MatchPlayerLite) -> (r: Scalar)
        ensures
            r == self.spec_width_score(position, holder),
    {
        let lateral = (position.y - holder.position.y).abs();
        if lateral > units(80) {
            units(30)
        } else if lateral > units(50) {
            units(20)
        } else if lateral > units(30) {
            units(10)
        } else if lateral < units(15) {
            units(15).negated()
        } else {
            units(0)
        }
    }

    pub open spec fn spec_lane_score(
        &self,
        ctx: &StateProcessingContext,
        position: Vec3,
        holder: MatchPlayerLite,
    ) -> Scalar {
        if scan::some_where(
            ctx.opponents@,
            |o: MatchPlayerLite| is_on_the_line(o.position, holder.position, position, units(4)),
        ) {
            units(10).negated()
        } else {
            units(15)
        }
    }

    /// For a free passing lane.
    #[verifier::when_used_as_spec(spec_lane_score)]
    pub fn lane_score(
        &self,
        ctx: &StateProcessingContext,
        position: Vec3,
        holder: MatchPlayerLite,
    ) -> (r: Scalar)
        ensures
            r == self.spec_lane_score(ctx, position, holder),
    {
        if scan::any_of(
            &ctx.opponents,
            |o: MatchPlayerLite| -> (b: bool)
                ensures b == (is_on_the_line(o.position, holder.position, position, units(4)))
            {
                is_on_the_line(o.position, holder.position, position, units(4))
            },
            Ghost(
                |o: MatchPlayerLite|
                    is_on_the_line(o.position, holder.position, position, units(4)),
            ),
        ) {
            units(10).negated()
        } else {
            units(15)
        }
    }

    pub open spec fn spec_teammate_crowding(
        &self,
        ctx: &StateProcessingContext,
        position: Vec3,
    ) -> Scalar {
        scan::total(
            ctx.teammates@,
            |t: MatchPlayerLite|
                if (t.position - position).magnitude() < units(90) {
                    (units(90) - (t.position - position).magnitude()) / units(90)
                } else {
                    units(0)
                },
        )
    }

    /// How much teammates crowd a spot, each by nearness.
    #[verifier::when_used_as_spec(spec_teammate_crowding)]
    pub fn teammate_crowding(&self, ctx: &StateProcessingContext, position: Vec3) -> (r: Scalar)
        ensures
            r == self.spec_teammate_crowding(ctx, position),
    {
        scan::total_of(
            &ctx.teammates,
            |t: MatchPlayerLite| -> (b: Scalar)
                ensures b == (
                    if (t.position - position).magnitude() < units(90) {
                        (units(90) - (t.position - position).magnitude()) / units(90)
                    } else {
                        units(0)
                    }
                )
            {
                if (t.position - position).magnitude() < units(90) {
                    (units(90) - (t.position - position).magnitude()) / units(90)
                } else {
                    units(0)
                }
            },
            Ghost(
                |t: MatchPlayerLite|
                    if (t.position - position).magnitude() < units(90) {
                        (units(90) - (t.position - position).magnitude()) / units(90)
                    } else {
                        units(0)
                    },
            ),
        )
    }

    pub open spec fn spec_goalkeeper_penalty(
        &self,
        ctx: &StateProcessingContext,
        position: Vec3,
    ) -> Scalar {
        match ctx.opponent_goalkeeper() {
            Some(goalkeeper) => {
                let away = goalkeeper.position.distance_to(position);
                if away < units(12) {
                    units(100) + (units(12) - away) * units(6)
                } else if away < units(25) {
                    (units(25) - away) * units(3)
                } else {
                    units(0)
                }
            },
            None => units(0),
        }
    }

    /// For standing next to the goalkeeper.
    #[verifier::when_used_as_spec(spec_goalkeeper_penalty)]
    pub fn goalkeeper_penalty(&self, ctx: &StateProcessingContext, position: Vec3) -> (r: Scalar)
        ensures
            r == self.spec_goalkeeper_penalty(ctx, position),
    {
        match ctx.opponent_goalkeeper() {
            Some(goalkeeper) => {
                let away = goalkeeper.position.distance_to(position);
                if away < units(12) {
                    units(100) + (units(12) - away) * units(6)
                } else if away < units(25) {
                    (units(25) - away) * units(3)
                } else {
                    units(0)
                }
            },
            None => units(0),
        }
    }

    pub open spec fn spec_get_attacking_direction(&self, ctx: &StateProcessingContext) -> Vec3 {
        match ctx.player.side {
            Some(PlayerSide::Left) => flat(units(1), units(0)),
            Some(PlayerSide::Right) => flat(units(1).negated(), units(0)),
            None => flat(units(1), units(0)),
        }
    }

    /// The way of the attack; to the right where the side is not known.
    #[verifier::when_used_as_spec(spec_get_attacking_direction)]
    pub fn get_attacking_direction(&self, ctx: &StateProcessingContext) -> (r: Vec3)
        ensures
            r == self.spec_get_attacking_direction(ctx),
    {
        match ctx.player.side {
            Some(PlayerSide::Left) => flat(units(1), units(0)),
            Some(PlayerSide::Right) => flat(units(1).negated(), units(0)),
            None => flat(units(1), units(0)),
        }
    }

    pub open spec fn spec_attacks_to_the_right(&self, ctx: &StateProcessingContext) -> bool {
        self.get_attacking_direction(ctx).x > units(0)
    }

    #[verifier::when_used_as_spec(spec_attacks_to_the_right)]
    pub fn attacks_to_the_right(&self, ctx: &StateProcessingContext) -> (r: bool)
        ensures
            r == self.spec_attacks_to_the_right(ctx),
    {
        self.get_attacking_direction(ctx).x > units(0)
    }

    pub open spec fn spec_is_beyond_line(
        &self,
        ctx: &StateProcessingContext,
        position: Vec3,
        line: Scalar,
        attacks_right: bool,
    ) -> bool {
        if attacks_right {
            position.x > line + ctx.player.offside_margin
        } else {
            position.x < line - ctx.player.offside_margin
        }
    }

    /// Beyond a line across the pitch by more than the tolerance.
    #[verifier::when_used_as_spec(spec_is_beyond_line)]
    pub fn is_beyond_line(
        &self,
        ctx: &StateProcessingContext,
        position: Vec3,
        line: Scalar,
        attacks_right: bool,
    ) -> (r: bool)
        ensures
            r == self.spec_is_beyond_line(ctx, position, line, attacks_right),
    {
        if attacks_right {
            position.x > line + ctx.player.offside_margin
        } else {
            position.x < line - ctx.player.offside_margin
        }
    }

    pub open spec fn spec_would_be_offside(
        &self,
        ctx: &StateProcessingContext,
        position: Vec3,
    ) -> bool {
        self.is_beyond_line(
            ctx,
            position,
            ctx.player.defensive_line,
            self.attacks_to_the_right(ctx),
        )
    }

    /// Beyond the last defender by more than the tolerance.
    #[verifier::when_used_as_spec(spec_would_be_offside)]
    pub fn would_be_offside(&self, ctx: &StateProcessingContext, position: Vec3) -> (r: bool)
        ensures
            r == self.spec_would_be_offside(ctx, position),
    {
        self.is_beyond_line(
            ctx,
            position,
            ctx.player.defensive_line,
            self.attacks_to_the_right(ctx),
        )
    }

    pub open spec fn spec_would_be_offside_now(&self, ctx: &StateProcessingContext) -> bool {
        self.would_be_offside(ctx, ctx.player.position)
    }

    #[verifier::when_used_as_spec(spec_would_be_offside_now)]
    pub fn would_be_offside_now(&self, ctx: &StateProcessingContext) -> (r: bool)
        ensures
            r == self.spec_would_be_offside_now(ctx),
    {
        self.would_be_offside(ctx, ctx.player.position)
    }

    pub open spec fn spec_get_defensive_line_height(
        &self,
        ctx: &StateProcessingContext,
    ) -> Scalar {
        let count: usize = scan::count_where(
            ctx.opponents@,
            |o: MatchPlayerLite| o.tactical_positions.is_defender(),
        );
        if count == 0 {
            milli(500)
        } else {
            scan::total(
                ctx.opponents@,
                |o: MatchPlayerLite|
                    if o.tactical_positions.is_defender() { o.position.x } else { units(0) },
            ) / headcount(count) / ctx.width()
        }
    }

    /// The mean depth of the defenders, as a share of the pitch; one half without defenders.
    #[verifier::when_used_as_spec(spec_get_defensive_line_height)]
    pub fn get_defensive_line_height(&self, ctx: &StateProcessingContext) -> (r: Scalar)
        ensures
            r == self.spec_get_defensive_line_height(ctx),
    {
        let count: usize = scan::count_if(
            &ctx.opponents,
            |o: MatchPlayerLite| -> (b: bool)
                ensures b == (o.tactical_positions.is_defender())
            {
                o.tactical_positions.is_defender()
            },
            Ghost(|o: MatchPlayerLite| o.tactical_positions.is_defender()),
        );
        if count == 0 {
            milli(500)
        } else {
            scan::total_of(
                &ctx.opponents,
                |o: MatchPlayerLite| -> (b: Scalar)
                    ensures b == (
                        if o.tactical_positions.is_defender() { o.position.x } else { units(0) }
                    )
                {
                    if o.tactical_positions.is_defender() { o.position.x } else { units(0) }
                },
                Ghost(
                    |o: MatchPlayerLite|
                        if o.tactical_positions.is_defender() { o.position.x } else { units(0) },
                ),
            ) / headcount(count) / ctx.width()
        }
    }

    pub open spec fn spec_has_space_behind_defense(&self, ctx: &StateProcessingContext) -> bool {
        let line = self.get_defensive_line_height(ctx);
        if self.attacks_to_the_right(ctx) {
            line < milli(700) && (ctx.width() - line * ctx.width()) > units(30)
        } else {
            line > milli(300) && line * ctx.width() > units(30)
        }
    }

    /// The defence stands high and there is room behind it.
    #[verifier::when_used_as_spec(spec_has_space_behind_defense)]
    pub fn has_space_behind_defense(&self, ctx: &StateProcessingContext) -> (r: bool)
        ensures
            r == self.spec_has_space_behind_defense(ctx),
    {
        let line = self.get_defensive_line_height(ctx);
        if self.attacks_to_the_right(ctx) {
            line < milli(700) && (ctx.width() - line * ctx.width()) > units(30)
        } else {
            line > milli(300) && line * ctx.width() > units(30)
        }
    }

    pub open spec fn spec_has_clear_passing_lane(
        &self,
        from: Vec3,
        to: Vec3,
        ctx: &StateProcessingContext,
    ) -> bool {
        !scan::some_where(
            ctx.opponents@,
            |o: MatchPlayerLite|
                o.distance <= (to - from).magnitude() + units(10)
                    && is_on_the_line(o.position, from, to, units(4)),
        )
    }

    /// No opponent near the line of the pass.
    #[verifier::when_used_as_spec(spec_has_clear_passing_lane)]
    pub fn has_clear_passing_lane(
        &self,
        from: Vec3,
        to: Vec3,
        ctx: &StateProcessingContext,
    ) -> (r: bool)
        ensures
            r == self.spec_has_clear_passing_lane(from, to, ctx),
    {
        !scan::any_of(
            &ctx.opponents,
            |o: MatchPlayerLite| -> (b: bool)
                ensures b == (
                    o.distance <= (to - from).magnitude() + units(10)
                        && is_on_the_line(o.position, from, to, units(4))
                )
            {
                o.distance <= (to - from).magnitude() + units(10)
                    && is_on_the_line(o.position, from, to, units(4))
            },
            Ghost(
                |o: MatchPlayerLite|
                    o.distance <= (to - from).magnitude() + units(10)
                        && is_on_the_line(o.position, from, to, units(4)),
            ),
        )
    }

    pub open spec fn spec_styled(
        &self,
        ctx: &StateProcessingContext,
        position: Vec3,
    ) -> Option<Vec3> {
        match ctx.player.tactical_style {
            TacticalStyle::Attacking => Some(
                position + self.get_attacking_direction(ctx) * units(10),
            ),
            TacticalStyle::Counterattack => if self.has_space_behind_defense(ctx) {
                Some(position + self.get_attacking_direction(ctx) * units(15))
            } else {
                Some(position)
            },
            TacticalStyle::WidePlay => Some(self.wider(ctx, position)),
            TacticalStyle::WingPlay => Some(self.wider(ctx, position)),
            TacticalStyle::Possession => match (ctx.ball.position - position).direction() {
                Some(to_ball) => Some(position + to_ball * units(5)),
                None => None,
            },
            _ => Some(position),
        }
    }

    /// The spot shifted in the style of the team; none towards a ball on that very spot.
    #[verifier::when_used_as_spec(spec_styled)]
    pub fn styled(&self, ctx: &StateProcessingContext, position: Vec3) -> (r: Option<Vec3>)
        ensures
            r == self.spec_styled(ctx, position),
    {
        match ctx.player.tactical_style {
            TacticalStyle::Attacking => Some(
                position + self.get_attacking_direction(ctx) * units(10),
            ),
            TacticalStyle::Counterattack => if self.has_space_behind_defense(ctx) {
                Some(position + self.get_attacking_direction(ctx) * units(15))
            } else {
                Some(position)
            },
            TacticalStyle::WidePlay => Some(self.wider(ctx, position)),
            TacticalStyle::WingPlay => Some(self.wider(ctx, position)),
            TacticalStyle::Possession => match (ctx.ball.position - position).direction() {
                Some(to_ball) => Some(position + to_ball * units(5)),
                None => None,
            },
            _ => Some(position),
        }
    }

    pub open spec fn spec_wider(&self, ctx: &StateProcessingContext, position: Vec3) -> Vec3 {
        if position.y < ctx.height() / units(2) {
            vec3(position.x, (position.y - units(10)).max(units(10)), position.z)
        } else {
            vec3(position.x, (position.y + units(10)).min(ctx.height() - units(10)), position.z)
        }
    }

    /// Closer to the touchline.
    #[verifier::when_used_as_spec(spec_wider)]
    pub fn wider(&self, ctx: &StateProcessingContext, position: Vec3) -> (r: Vec3)
        ensures
            r == self.spec_wider(ctx, position),
    {
        if position.y < ctx.height() / units(2) {
            vec3(position.x, (position.y - units(10)).max(units(10)), position.z)
        } else {
            vec3(position.x, (position.y + units(10)).min(ctx.height() - units(10)), position.z)
        }
    }

    pub open spec fn spec_apply_forward_tactical_adjustment(
        &self,
        ctx: &StateProcessingContext,
        position: Option<Vec3>,
    ) -> Option<Vec3> {
        if ctx.player.side.is_none() {
            position
        } else {
            match position {
                Some(place) => match self.styled(ctx, place) {
                    Some(spot) => Some(
                        vec3(
                            spot.x.clamp(units(10), ctx.width() - units(10)),
                            spot.y.clamp(units(10), ctx.height() - units(10)),
                            spot.z,
                        ),
                    ),
                    None => None,
                },
                None => None,
            }
        }
    }

    /// The spot shifted in the style of the team and kept inside the pitch; unchanged where the
    /// side is not known, and none where the spot or the shift is.
    #[verifier::when_used_as_spec(spec_apply_forward_tactical_adjustment)]
    pub fn apply_forward_tactical_adjustment(
        &self,
        ctx: &StateProcessingContext,
        position: Option<Vec3>,
    ) -> (r: Option<Vec3>)
        requires
            ctx.player.side.is_some() ==> ctx.field_size.width >= 20
                && ctx.field_size.height >= 20,
        ensures
            r == self.spec_apply_forward_tactical_adjustment(ctx, position),
    {
        if ctx.player.side.is_none() {
            return position;
        }
        match position {
            Some(place) => match self.styled(ctx, place) {
                Some(spot) => Some(
                    vec3(
                        spot.x.clamp(units(10), ctx.width() - units(10)),
                        spot.y.clamp(units(10), ctx.height() - units(10)),
                        spot.z,
                    ),
                ),
                None => None,
            },
            None => None,
        }
    }

    pub open spec fn spec_has_created_good_space(&self, ctx: &StateProcessingContext) -> bool {
        let room = !ctx.opponent_exists(units(12));
        let support = self.is_in_good_support_position(ctx);
        let lane = self.has_clear_passing_lane_from_ball_holder(ctx);
        let near = ctx.ball.distance < max_distance_from_ball();
        ((room && support && (lane || near)) || (lane && near && (room || support)))
            && ctx.in_state_time > 15
    }

    /// Three of four: room, a place of support, a free lane and a fair distance; after a while.
    #[verifier::when_used_as_spec(spec_has_created_good_space)]
    pub fn has_created_good_space(&self, ctx: &StateProcessingContext) -> (r: bool)
        ensures
            r == self.spec_has_created_good_space(ctx),
    {
        let room = !ctx.opponent_exists(units(12));
        let support = self.is_in_good_support_position(ctx);
        let lane = self.has_clear_passing_lane_from_ball_holder(ctx);
        let near = ctx.ball.distance < max_distance_from_ball();
        ((room && support && (lane || near)) || (lane && near && (room || support)))
            && ctx.in_state_time > 15
    }

    pub open spec fn spec_should_make_forward_run(&self, ctx: &StateProcessingContext) -> bool {
        let blockers: usize = opponents_in_the_way(ctx, units(30), milli(300));
        ctx.team.control_ball && self.ball_holder_can_make_forward_pass(ctx)
        && !self.would_be_offside_now(ctx)
        && self.is_in_good_attacking_phase(ctx)
        && ctx.ball.distance < max_distance_from_ball()
        && (blockers == 0 || (blockers == 1 && ctx.rolls.beat_blocker < ctx.curves.pace_12))
        && !self.is_behind_passer(ctx)
    }

    /// A run in behind is on: the teammate on the ball can pass, the forward is onside and ahead
    /// of the ball, near enough, and beats whoever is in the way.
    #[verifier::when_used_as_spec(spec_should_make_forward_run)]
    pub fn should_make_forward_run(&self, ctx: &StateProcessingContext) -> (r: bool)
        ensures
            r == self.spec_should_make_forward_run(ctx),
    {
        let blockers: usize = opponents_in_the_way(ctx, units(30), milli(300));
        ctx.team.control_ball && self.ball_holder_can_make_forward_pass(ctx)
        && !self.would_be_offside_now(ctx)
        && self.is_in_good_attacking_phase(ctx)
        && ctx.ball.distance < max_distance_from_ball()
        && (blockers == 0 || (blockers == 1 && ctx.rolls.beat_blocker < ctx.curves.pace_12))
        && !self.is_behind_passer(ctx)
    }

    pub open spec fn spec_is_behind_passer(&self, ctx: &StateProcessingContext) -> bool {
        match ctx.owner_in_team() {
            Some(owner) => aligned_at_most(
                ctx.player.position - owner.position,
                ctx.goal() - owner.position,
                units(0),
            ),
            None => false,
        }
    }

    /// The forward stands behind the teammate with the ball.
    #[verifier::when_used_as_spec(spec_is_behind_passer)]
    pub fn is_behind_passer(&self, ctx: &StateProcessingContext) -> (r: bool)
        ensures
            r == self.spec_is_behind_passer(ctx),
    {
        match ctx.owner_in_team() {
            Some(owner) => aligned_at_most(
                ctx.player.position - owner.position,
                ctx.goal() - owner.position,
                units(0),
            ),
            None => false,
        }
    }

    pub open spec fn spec_is_in_good_support_position(
        &self,
        ctx: &StateProcessingContext,
    ) -> bool {
        let in_passing_range = match self.get_ball_holder(ctx) {
            Some(holder) => ctx.player.position.distance_to(holder.position)
                >= optimal_passing_distance_min()
            && ctx.player.position.distance_to(holder.position) <= optimal_passing_distance_max(),
            None => false,
        };
        (
            ctx.ball.distance >= min_distance_from_ball()
                && ctx.ball.distance <= max_distance_from_ball()
        )
        || (ctx.ball.distance_to_opponent_goal < units(300)
            && ctx.ball.distance < max_distance_from_ball() + units(20)) || in_passing_range
    }

    /// At a fair distance from the ball, near the goal, or in passing range.
    #[verifier::when_used_as_spec(spec_is_in_good_support_position)]
    pub fn is_in_good_support_position(&self, ctx: &StateProcessingContext) -> (r: bool)
        ensures
            r == self.spec_is_in_good_support_position(ctx),
    {
        let in_passing_range = match self.get_ball_holder(ctx) {
            Some(holder) => ctx.player.position.distance_to(holder.position)
                >= optimal_passing_distance_min()
            && ctx.player.position.distance_to(holder.position) <= optimal_passing_distance_max(),
            None => false,
        };
        (
            ctx.ball.distance >= min_distance_from_ball()
                && ctx.ball.distance <= max_distance_from_ball()
        )
        || (ctx.ball.distance_to_opponent_goal < units(300)
            && ctx.ball.distance < max_distance_from_ball() + units(20)) || in_passing_range
    }

    pub open spec fn spec_has_clear_passing_lane_from_ball_holder(
        &self,
        ctx: &StateProcessingContext,
    ) -> bool {
        match self.get_ball_holder(ctx) {
            Some(holder) => self.has_clear_passing_lane(holder.position, ctx.player.position, ctx),
            None => true,
        }
    }

    /// The teammate with the ball, if there is one, has a free lane to the forward.
    #[verifier::when_used_as_spec(spec_has_clear_passing_lane_from_ball_holder)]
    pub fn has_clear_passing_lane_from_ball_holder(
        &self,
        ctx: &StateProcessingContext,
    ) -> (r: bool)
        ensures
            r == self.spec_has_clear_passing_lane_from_ball_holder(ctx),
    {
        match self.get_ball_holder(ctx) {
            Some(holder) => self.has_clear_passing_lane(holder.position, ctx.player.position, ctx),
            None => true,
        }
    }

    pub open spec fn spec_get_ball_holder(
        &self,
        ctx: &StateProcessingContext,
    ) -> Option<MatchPlayerLite> {
        ctx.holder()
    }

    #[verifier::when_used_as_spec(spec_get_ball_holder)]
    pub fn get_ball_holder(&self, ctx: &StateProcessingContext) -> (r: Option<MatchPlayerLite>)
        ensures
            r == self.spec_get_ball_holder(ctx),
    {
        ctx.holder()
    }

    pub open spec fn spec_ball_holder_can_make_forward_pass(
        &self,
        ctx: &StateProcessingContext,
    ) -> bool {
        match self.get_ball_holder(ctx) {
            Some(holder) => ctx.opponents_around(holder.position, units(8)) == 0,
            None => false,
        }
    }

    /// A teammate has the ball and nobody presses.
    #[verifier::when_used_as_spec(spec_ball_holder_can_make_forward_pass)]
    pub fn ball_holder_can_make_forward_pass(&self, ctx: &StateProcessingContext) -> (r: bool)
        ensures
            r == self.spec_ball_holder_can_make_forward_pass(ctx),
    {
        match self.get_ball_holder(ctx) {
            Some(holder) => ctx.opponents_around(holder.position, units(8)) == 0,
            None => false,
        }
    }

    pub open spec fn spec_is_in_good_attacking_phase(&self, ctx: &StateProcessingContext) -> bool {
        ctx.ball.distance_to_opponent_goal < ctx.width() * milli(700)
    }

    /// The ball is within seven tenths of the pitch of the goal.
    #[verifier::when_used_as_spec(spec_is_in_good_attacking_phase)]
    pub fn is_in_good_attacking_phase(&self, ctx: &StateProcessingContext) -> (r: bool)
        ensures
            r == self.spec_is_in_good_attacking_phase(ctx),
    {
        ctx.ball.distance_to_opponent_goal < ctx.width() * milli(700)
    }
}

/// The part of the score for room is between 0 and 30.
proof fn space_score_is_bounded(
    state: ForwardCreatingSpaceState,
    ctx: &StateProcessingContext,
    position: Vec3,
)
    ensures
        units(0) <= state.congestion(ctx, position),
        state.space_score(ctx, position).is_between(units(0), units(30)),
{
    let near = |o: MatchPlayerLite|
        if (o.position - position).magnitude() < units(30) {
            (units(30) - (o.position - position).magnitude()) / units(30)
        } else {
            units(0)
        };
    assert forall|o: MatchPlayerLite| units(0) <= #[trigger] near(o) by {
        let left = units(30) - (o.position - position).magnitude();
        if units(0) <= left {
            crate::scalar::quotient_keeps_order(units(0), left, units(30));
        }
    }
    scan::total_is_not_negative(ctx.opponents@, near);
    assert(state.congestion(ctx, position) == scan::total(ctx.opponents@, near));
    crate::scalar::multiple_is_exact(
        units(10) - state.congestion(ctx, position).min(units(10)),
        3,
    );
}

/// The part of the score for the goal is between 0 and 115.
proof fn goal_score_is_bounded(
    state: ForwardCreatingSpaceState,
    ctx: &StateProcessingContext,
    position: Vec3,
    open_angle: Scalar,
)
    ensures
        state.goal_score(ctx, position, open_angle).is_between(units(0), units(115)),
{
    crate::vector::length_is_not_negative(position - ctx.goal());
    let to_goal = position.distance_to(ctx.goal());
    let threat = state.goal_threat(to_goal);
    let left = (units(100) - to_goal).max(units(0));
    crate::scalar::quotient_keeps_order(units(0), left, units(20));
    crate::scalar::quotient_keeps_order(left, units(100), units(20));
    assert(threat.is_between(units(0), units(10)));
    let open = (open_angle / milli(1310)).clamp(units(0), units(1));
    crate::scalar::multiple_is_exact(threat, 6);
    crate::scalar::multiple_is_exact(open, 25);
    assert((threat * units(6)).is_between(units(0), units(60)));
    assert((open * units(25)).is_between(units(0), units(25)));
}

/// The part of the score for the teammate on the ball is never above 130, and never below by
/// more than half of the range of the numbers.
proof fn holder_score_is_bounded(
    state: ForwardCreatingSpaceState,
    ctx: &StateProcessingContext,
    position: Vec3,
    ball_holder: Option<MatchPlayerLite>,
)
    ensures
        -0x4000_0000_0000_0000 - 100_000_000 <= state.holder_score(ctx, position, ball_holder).raw
            <= 130_000_000,
{
    if let Some(holder) = ball_holder {
        let away = position.distance_to(holder.position);
        crate::vector::length_is_not_negative(position - holder.position);
        let need = state.relief_engagement(holder);
        assert(need.is_between(units(0), units(1)));
        if away < optimal_passing_distance_min() {
            let near = (optimal_passing_distance_min() - away) * milli(1500);
            crate::scalar::product_commutes(optimal_passing_distance_min() - away, milli(1500));
            crate::scalar::product_keeps_order(
                milli(1500),
                units(0),
                optimal_passing_distance_min() - away,
            );
            crate::scalar::product_keeps_order(
                milli(1500),
                optimal_passing_distance_min() - away,
                units(20),
            );
            assert(near.is_between(units(0), units(30)));
            crate::scalar::product_keeps_order(near, units(0), units(1) - need);
            crate::scalar::product_keeps_order(near, units(1) - need, units(1));
            assert((near * (units(1) - need)).is_between(units(0), units(30)));
        }
        assert(
            -0x4000_0000_0000_0000 <= state.range_score(ctx, position, holder).raw <= 25_000_000
        );
        let closeness = ((pressure_relief_radius() - away) / pressure_relief_radius()).clamp(
            units(0),
            units(1),
        );
        let openness = (
            units(1) - state.congestion(ctx, position).min(units(10)) / units(10)
        ).clamp(
            units(0),
            units(1),
        );
        crate::scalar::share_of_share(need, closeness);
        crate::scalar::share_of_share(need * closeness, openness);
        crate::scalar::multiple_is_exact(need * closeness * openness, 30);
        assert((need * closeness * openness * units(30)).is_between(units(0), units(30)));
        assert(state.relief_score(ctx, position, holder).is_between(units(0), units(30)));
    }
}

/// The crowding by teammates is between 0 and their number, and the penalty next to the
/// goalkeeper between 0 and 172.
proof fn penalties_are_bounded(
    state: ForwardCreatingSpaceState,
    ctx: &StateProcessingContext,
    position: Vec3,
)
    requires
        ctx.teammates.len() <= 1_000_000_000,
    ensures
        0 <= state.teammate_crowding(ctx, position).raw <= 1_000_000_000_000_000,
        state.goalkeeper_penalty(ctx, position).is_between(units(0), units(172)),
{
    let near = |t: MatchPlayerLite|
        if (t.position - position).magnitude() < units(90) {
            (units(90) - (t.position - position).magnitude()) / units(90)
        } else {
            units(0)
        };
    assert forall|t: MatchPlayerLite| (#[trigger] near(t)).is_between(units(0), units(1)) by {
        let left = units(90) - (t.position - position).magnitude();
        crate::vector::length_is_not_negative(t.position - position);
        if units(0) <= left {
            crate::scalar::quotient_keeps_order(units(0), left, units(90));
            crate::scalar::quotient_keeps_order(left, units(90), units(90));
        }
    }
    scan::total_is_not_negative(ctx.teammates@, near);
    scan::total_is_at_most(ctx.teammates@, near);
    assert(state.teammate_crowding(ctx, position) == scan::total(ctx.teammates@, near));
    if let Some(goalkeeper) = ctx.opponent_goalkeeper() {
        let away = goalkeeper.position.distance_to(position);
        crate::vector::length_is_not_negative(goalkeeper.position - position);
        if away < units(12) {
            crate::scalar::multiple_is_exact(units(12) - away, 6);
        } else if away < units(25) {
            crate::scalar::multiple_is_exact(units(25) - away, 3);
        }
    }
}

/// The line of the last defender matters for the score of a spot by 65 and in no other way: a
/// spot that is onside of one line and beyond another scores 65 more with the first than with
/// the other.
pub proof fn offside_costs_65(
    state: ForwardCreatingSpaceState,
    ctx: &StateProcessingContext,
    position: Vec3,
    ball_holder: Option<MatchPlayerLite>,
    deep_line: Scalar,
    high_line: Scalar,
    attacks_right: bool,
    open_angle: Scalar,
)
    requires
        ctx.teammates.len() <= 1_000_000_000,
        !state.is_beyond_line(ctx, position, deep_line, attacks_right),
        state.is_beyond_line(ctx, position, high_line, attacks_right),
    ensures
        state.evaluate_forward_position_fast(
            ctx,
            position,
            ball_holder,
            deep_line,
            attacks_right,
            open_angle,
        ) - state.evaluate_forward_position_fast(
            ctx,
            position,
            ball_holder,
            high_line,
            attacks_right,
            open_angle,
        ) == units(65),
{
    space_score_is_bounded(state, ctx, position);
    goal_score_is_bounded(state, ctx, position, open_angle);
    holder_score_is_bounded(state, ctx, position, ball_holder);
    penalties_are_bounded(state, ctx, position);
    crate::scalar::multiple_is_exact(state.teammate_crowding(ctx, position), 50);
    let onside = state.line_score(ctx, position, deep_line, attacks_right);
    let offside = state.line_score(ctx, position, high_line, attacks_right);
    assert(onside.raw == offside.raw + 65_000_000);
}

/// Two lines that a spot is on the same side of give it the same score.
pub proof fn only_the_side_of_the_line_counts(
    state: ForwardCreatingSpaceState,
    ctx: &StateProcessingContext,
    position: Vec3,
    ball_holder: Option<MatchPlayerLite>,
    line: Scalar,
    other_line: Scalar,
    attacks_right: bool,
    open_angle: Scalar,
)
    requires
        state.is_beyond_line(ctx, position, line, attacks_right) == state.is_beyond_line(
            ctx,
            position,
            other_line,
            attacks_right,
        ),
    ensures
        state.evaluate_forward_position_fast(
            ctx,
            position,
            ball_holder,
            line,
            attacks_right,
            open_angle,
        ) == state.evaluate_forward_position_fast(
            ctx,
            position,
            ball_holder,
            other_line,
            attacks_right,
            open_angle,
        ),
{
}

/// The forward never heads for a zone outside the pitch, nor for a taken one while a free one is
/// left.
pub proof fn chosen_zone_is_free_and_inside(
    state: ForwardCreatingSpaceState,
    ctx: &StateProcessingContext,
    readings: &Vec<ZoneReading>,
    k: int,
)
    requires
        state.fits_pitch(ctx),
        readings.len() == state.zone_candidates(ctx).len(),
        0 <= k < readings.len(),
        !readings@[k].claimed,
    ensures
        exists|j: int|
            0 <= j < readings.len() && !readings@[j].claimed && state.best_zone(
                ctx,
                state.rated_zones(ctx, readings@),
            ) == #[trigger] state.zone_candidates(ctx)[j],
        ctx.player.side is Some ==> {
            state.find_optimal_free_zone(ctx, readings) matches Some(spot) ==> {
                &&& units(10) <= spot.x
                &&& spot.x <= ctx.width() - units(10)
                &&& units(10) <= spot.y
                &&& spot.y <= ctx.height() - units(10)
            }
        },
{
    let zones = state.rated_zones(ctx, readings@);
    let free = |z: RatedZone| !z.claimed;
    let score = |z: RatedZone| z.score;
    scan::first_greatest_is_greatest(zones, free, score);
    assert(zones.contains(zones[k]));
    let best = scan::first_greatest_where(zones, free, score)->0;
    let j = choose|j: int| 0 <= j < zones.len() && zones[j] == best;
    assert(state.best_zone(ctx, zones) == state.zone_candidates(ctx)[j]);
}

/// A forward who makes room runs with the ball and while the others have it, takes a loose one as
/// the best placed, cuts out a ball that comes, helps once there is good space, and runs in behind
/// when that is on.
pub proof fn room_is_left_in_order(state: ForwardCreatingSpaceState, ctx: &StateProcessingContext)
    ensures
        ({
            let goes_to = |s: ForwardState| state.process(ctx) == Some(with_forward_state(s));
            let taken = ctx.ball.should_take_immediately && ctx.team.best_player_to_chase_ball;
            let free = !ctx.player.has_ball && !taken;
            let ours = free && ctx.team.control_ball;
            let comes = ctx.ball.distance < units(100) && ctx.ball.heading >= milli(800);
            let good = state.has_created_good_space(ctx);
            let runs = state.should_make_forward_run(ctx);
            &&& ctx.player.has_ball ==> goes_to(ForwardState::Running)
            &&& !ctx.player.has_ball && taken ==> goes_to(ForwardState::TakeBall)
            &&& free && !ctx.team.control_ball ==> goes_to(ForwardState::Running)
            &&& ours && comes ==> goes_to(ForwardState::Intercepting)
            &&& ours && !comes && good ==> goes_to(ForwardState::Assisting)
            &&& ours && !comes && !good && runs ==> goes_to(ForwardState::RunningInBehind)
            &&& ours && !comes && !good && !runs ==> state.process(ctx) is None
        }),
{
}

/// Space is good after 15 steps where three of four hold: nobody within 12, a place of support, a
/// free lane from the teammate on the ball, and the ball closer than 80.
pub proof fn three_of_four_make_good_space(
    state: ForwardCreatingSpaceState,
    ctx: &StateProcessingContext,
)
    ensures
        ({
            let room = forall|o: MatchPlayerLite| #[trigger]
                ctx.opponents@.contains(o) ==> o.distance > units(12);
            let support = state.is_in_good_support_position(ctx);
            let lane = state.has_clear_passing_lane_from_ball_holder(ctx);
            let near = ctx.ball.distance < units(80);
            let count = (if room { 1int } else { 0 }) + (if support { 1int } else { 0 }) + (if lane {
                1int
            } else {
                0
            }) + (if near { 1int } else { 0 });
            state.has_created_good_space(ctx) <==> count >= 3 && ctx.in_state_time > 15
        }),
{
    scan::some_is_one_of_them(ctx.opponents@, |o: MatchPlayerLite| o.distance <= units(12));
}

/// A run in behind is on only while a teammate has the ball with nobody within 8, the forward is
/// onside, not behind the passer, closer than 80 to the ball, the ball within seven tenths of the
/// pitch of the goal, and at most one opponent in the way, whom a draw below the pace beats.
pub proof fn runs_in_behind_are_on(state: ForwardCreatingSpaceState, ctx: &StateProcessingContext)
    ensures
        ({
            let holder = ctx.holder();
            let calm = holder is Some && forall|o: MatchPlayerLite| #[trigger]
                ctx.opponents@.contains(o) ==> o.position.distance_to(holder->0.position)
                    > units(8);
            let onside = if ctx.player.side == Some(PlayerSide::Right) {
                ctx.player.position.x >= ctx.player.defensive_line - ctx.player.offside_margin
            } else {
                ctx.player.position.x <= ctx.player.defensive_line + ctx.player.offside_margin
            };
            let near = ctx.ball.distance < units(80)
                && ctx.ball.distance_to_opponent_goal < ctx.width()
                * milli(700);
            let blockers = opponents_in_the_way(ctx, units(30), milli(300));
            let beats = ctx.rolls.beat_blocker < ctx.curves.pace_12;
            let on = ctx.team.control_ball && calm && onside && near
                && !state.is_behind_passer(ctx);
            &&& state.should_make_forward_run(ctx) ==> on
            &&& on && blockers == 0 ==> state.should_make_forward_run(ctx)
            &&& on && blockers == 1 ==> (state.should_make_forward_run(ctx) <==> beats)
            &&& blockers >= 2 ==> !state.should_make_forward_run(ctx)
            &&& ctx.owner_in_team() is None ==> !state.is_behind_passer(ctx)
            &&& ctx.owner_in_team() matches Some(owner) ==> (state.is_behind_passer(ctx) <==> aligned_at_most(
                ctx.player.position - owner.position,
                ctx.goal() - owner.position,
                units(0),
            ))
        }),
{
    if let Some(holder) = ctx.holder() {
        crate::context::around_means_close(ctx, holder.position, units(8), units(8));
    }
}

/// A place of support is 30 to 80 from the ball, near the goal up to 100, or 20 to 70 from the
/// teammate on the ball; a lane from that teammate is free where no opponent is closer than four
/// to
/// it, and where nobody of the team is on the ball.
pub proof fn support_has_its_range(state: ForwardCreatingSpaceState, ctx: &StateProcessingContext)
    ensures
        ({
            let holder = ctx.holder();
            let away = ctx.player.position.distance_to(holder->0.position);
            state.is_in_good_support_position(ctx) <==> (units(30) <= ctx.ball.distance && ctx.ball.distance
                <= units(80)) || (ctx.ball.distance_to_opponent_goal < units(300) && ctx.ball.distance
                < units(100)) || (holder is Some && units(20) <= away && away <= units(70))
        }),
        ctx.holder() is None ==> state.has_clear_passing_lane_from_ball_holder(ctx),
        ctx.holder() matches Some(holder) ==> (state.has_clear_passing_lane_from_ball_holder(ctx) <==> forall|
            o: MatchPlayerLite,
        | #[trigger]
            ctx.opponents@.contains(o)
                && o.distance <= (ctx.player.position - holder.position).magnitude()
                + units(10) ==> !is_on_the_line(
                o.position,
                holder.position,
                ctx.player.position,
                units(4),
            )),
{
    if let Some(holder) = ctx.holder() {
        scan::some_is_one_of_them(
            ctx.opponents@,
            |o: MatchPlayerLite|
                o.distance <= (ctx.player.position - holder.position).magnitude() + units(10)
                    && is_on_the_line(o.position, holder.position, ctx.player.position, units(4)),
        );
    }
}

/// Nobody within 30 leaves all the room, worth 30; an opponent on the very spot takes three of it,
/// and one half that far off half as much.
#[verifier::spinoff_prover]
pub proof fn opponents_take_room(
    state: ForwardCreatingSpaceState,
    ctx: &StateProcessingContext,
    spot: Vec3,
)
    ensures
        (forall|o: MatchPlayerLite| #[trigger] ctx.opponents@.contains(o) ==> (o.position - spot).magnitude()
            >= units(30)) ==> state.space_score(ctx, spot) == units(30),
        (exists|o: MatchPlayerLite| #[trigger]
            ctx.opponents@.contains(o) && (o.position - spot).magnitude() == units(0)) ==> state.space_score(
            ctx,
            spot,
        ) <= units(27),
        (exists|o: MatchPlayerLite| #[trigger]
            ctx.opponents@.contains(o) && (o.position - spot).magnitude() <= units(15)) ==> state.space_score(
            ctx,
            spot,
        ) <= milli(28_500),
        state.space_score(ctx, spot).is_between(units(0), units(30)),
{
    let near = |o: MatchPlayerLite|
        if (o.position - spot).magnitude() < units(30) {
            (units(30) - (o.position - spot).magnitude()) / units(30)
        } else {
            units(0)
        };
    assert forall|o: MatchPlayerLite| units(0) <= #[trigger] near(o) by {
        let left = units(30) - (o.position - spot).magnitude();
        if units(0) <= left {
            crate::scalar::quotient_keeps_order(units(0), left, units(30));
        }
    }
    scan::total_holds_each(ctx.opponents@, near);
    assert(state.congestion(ctx, spot) == scan::total(ctx.opponents@, near));
    space_score_is_bounded(state, ctx, spot);
    crate::scalar::multiple_is_exact(units(10) - state.congestion(ctx, spot).min(units(10)), 3);
    if exists|o: MatchPlayerLite| #[trigger]
        ctx.opponents@.contains(o) && (o.position - spot).magnitude() == units(0) {
        let o = choose|o: MatchPlayerLite| #[trigger]
            ctx.opponents@.contains(o) && (o.position - spot).magnitude() == units(0);
        crate::scalar::whole_is_one(units(30));
        assert(near(o) == units(1));
    }
    if exists|o: MatchPlayerLite| #[trigger]
        ctx.opponents@.contains(o) && (o.position - spot).magnitude() <= units(15) {
        let o = choose|o: MatchPlayerLite| #[trigger]
            ctx.opponents@.contains(o) && (o.position - spot).magnitude() <= units(15);
        crate::scalar::quotient_keeps_order(
            units(15),
            units(30) - (o.position - spot).magnitude(),
            units(30),
        );
        assert(near(o) >= milli(500));
    }
}

/// The threat to the goal is greatest from 15 to 25, and beyond 35 the less the further.
#[verifier::spinoff_prover]
pub proof fn threat_has_its_range(
    state: ForwardCreatingSpaceState,
    ctx: &StateProcessingContext,
    spot: Vec3,
    near: Scalar,
    far: Scalar,
    narrow: Scalar,
    wide: Scalar,
)
    requires
        units(0) <= near,
        near <= far,
        narrow <= wide,
    ensures
        near < units(15) ==> state.goal_threat(near) == units(8),
        units(15) <= near && near < units(25) ==> state.goal_threat(near) == units(10),
        units(25) <= near && near < units(35) ==> state.goal_threat(near) == units(6),
        units(15) <= near ==> state.goal_threat(far) <= state.goal_threat(near),
        state.goal_threat(near) <= units(10),
        near == units(80) ==> state.goal_threat(near) == units(1),
        near >= units(100) ==> state.goal_threat(near) == units(0),
        state.goal_score(ctx, spot, narrow) <= state.goal_score(ctx, spot, wide),
        ({
            let away = spot.distance_to(ctx.goal());
            &&& units(250) <= away ==> state.goal_score(ctx, spot, wide) == units(0)
            &&& units(180) <= away && away < units(250) && wide <= units(0) ==> state.goal_score(
                ctx,
                spot,
                wide,
            ) == units(20)
            &&& units(180) <= away && away < units(250)
                && wide >= milli(1310) ==> state.goal_score(
                ctx,
                spot,
                wide,
            ) == units(45)
            &&& units(100) <= away && away < units(180) && wide <= units(0) ==> state.goal_score(
                ctx,
                spot,
                wide,
            ) == units(30)
            &&& units(15) <= away && away < units(25)
                && wide <= units(0) ==> state.goal_score(ctx, spot, wide)
                == units(90)
            &&& units(25) <= away && away < units(35)
                && wide <= units(0) ==> state.goal_score(ctx, spot, wide)
                == units(66)
        }),
{
    if near >= units(35) {
        crate::scalar::quotient_keeps_order(
            (units(100) - far).max(units(0)),
            (units(100) - near).max(units(0)),
            units(20),
        );
        crate::scalar::quotient_keeps_order(
            (units(100) - near).max(units(0)),
            units(65),
            units(20),
        );
    }
    if far >= units(35) {
        crate::scalar::quotient_keeps_order(
            (units(100) - far).max(units(0)),
            units(65),
            units(20),
        );
    }
    crate::scalar::quotient_keeps_order(narrow, wide, milli(1310));
    let a = (narrow / milli(1310)).clamp(units(0), units(1));
    let b = (wide / milli(1310)).clamp(units(0), units(1));
    crate::scalar::scaling_keeps_order(a, b, units(25));
    crate::scalar::zero_stays_zero(units(25));
    crate::scalar::one_changes_nothing(units(25));
    crate::scalar::zero_stays_zero(units(6));
    if wide <= units(0) {
        crate::scalar::quotient_keeps_order(wide, units(0), milli(1310));
    }
    if wide >= milli(1310) {
        crate::scalar::quotient_keeps_order(milli(1310), wide, milli(1310));
    }
    crate::scalar::multiple_is_exact(units(10), 6);
    crate::scalar::multiple_is_exact(units(6), 6);
    crate::vector::length_is_not_negative(spot - ctx.goal());
    let away = spot.distance_to(ctx.goal());
    if away >= units(100) {
        assert(state.goal_threat(away) == units(0));
    }
}

/// A spot is beyond a line where it is further up the pitch by more than the margin; one further
/// up
/// still is beyond it too, and beyond the mean of the opponents wherever one further back is.
#[verifier::spinoff_prover]
pub proof fn lines_are_crossed_forward(
    state: ForwardCreatingSpaceState,
    ctx: &StateProcessingContext,
    back: Vec3,
    front: Vec3,
    line: Scalar,
    attacks_right: bool,
)
    requires
        if attacks_right {
            back.x <= front.x
        } else {
            front.x <= back.x
        },
    ensures
        state.is_beyond_line(ctx, back, line, attacks_right) ==> state.is_beyond_line(
            ctx,
            front,
            line,
            attacks_right,
        ),
        attacks_right ==> (state.is_beyond_line(ctx, back, line, true) <==> back.x > line
            + ctx.player.offside_margin),
        !attacks_right ==> (state.is_beyond_line(ctx, back, line, false) <==> back.x < line
            - ctx.player.offside_margin),
        state.is_behind_mean(ctx, back, attacks_right) ==> state.is_behind_mean(
            ctx,
            front,
            attacks_right,
        ),
        state.would_be_offside(ctx, back) <==> if ctx.player.side == Some(PlayerSide::Right) {
            back.x < ctx.player.defensive_line - ctx.player.offside_margin
        } else {
            back.x > ctx.player.defensive_line + ctx.player.offside_margin
        },
        ctx.opponents@.len() == 1 ==> (state.is_behind_mean(ctx, back, attacks_right) <==> if attacks_right {
            back.x > ctx.opponents@[0].position.x
        } else {
            back.x < ctx.opponents@[0].position.x
        }),
{
    if ctx.opponents@.len() == 1 {
        let k = |o: MatchPlayerLite| o.position.x;
        assert(ctx.opponents.len() == ctx.opponents@.len());
        assert(ctx.opponents@.drop_last().len() == 0);
        reveal_with_fuel(scan::total, 2);
        let x = ctx.opponents@[0].position.x;
        assert(ctx.opponents@.last() == ctx.opponents@[0]);
        assert(scan::total(ctx.opponents@, k) == x);
        assert(headcount(1) == units(1));
        assert(x / units(1) == x) by {
            let r: int = x.raw as int;
            assert(crate::scalar::size(r) * 1_000_000 / 1_000_000 == crate::scalar::size(r));
        }
    }
}

/// The line is worth 15 onside and costs 50 beyond it; the middle of the pitch is worth 20, close
/// to
/// the goal 35; a spot behind the mean of the opponents is worth 30.
pub proof fn channels_have_their_worth(
    state: ForwardCreatingSpaceState,
    ctx: &StateProcessingContext,
    spot: Vec3,
    line: Scalar,
    attacks_right: bool,
)
    ensures
        ({
            let beyond = state.is_beyond_line(ctx, spot, line, attacks_right);
            let middle = (
                spot.y - ctx.height() / units(2)
            ).abs() < ctx.height() / units(5) * milli(1500);
            let close = spot.distance_to(ctx.goal()) < units(300);
            let behind = state.is_behind_mean(ctx, spot, attacks_right);
            let gain = (if beyond { -50int } else { 15 }) + (if middle && close {
                35int
            } else if middle {
                20
            } else {
                0
            }) + (if behind { 30int } else { 0 });
            state.line_score(ctx, spot, line, attacks_right).raw == gain * 1_000_000
        }),
{
}

/// A spot offers most from 20 to 70 from the teammate on the ball; nearer and further it is worth
/// less, the nearer or further the less; one who is pressed with all might is helped from anywhere
/// near at no cost.
#[verifier::spinoff_prover]
pub proof fn passes_have_their_range(
    state: ForwardCreatingSpaceState,
    ctx: &StateProcessingContext,
    near: Vec3,
    far: Vec3,
    holder: MatchPlayerLite,
)
    requires
        near.distance_to(holder.position) <= far.distance_to(holder.position),
    ensures
        ({
            let a = near.distance_to(holder.position);
            let b = far.distance_to(holder.position);
            &&& units(20) <= a
                && a <= units(70) ==> state.range_score(ctx, near, holder) == units(25)
            &&& a < units(20) ==> state.range_score(ctx, near, holder) <= units(0)
            &&& a > units(70) ==> state.range_score(ctx, near, holder) <= units(0)
            &&& b < units(20) ==> state.range_score(ctx, near, holder)
                <= state.range_score(ctx, far, holder)
            &&& units(20) <= a ==> state.range_score(ctx, far, holder)
                <= state.range_score(ctx, near, holder)
            &&& a < units(20) && holder.pressure_intensity >= units(1)
                && holder.pressure_intensity <= units(
                1000,
            ) ==> state.range_score(ctx, near, holder) == units(0)
            &&& holder.pressure_intensity <= milli(500) && a == units(0) ==> state.range_score(
                ctx,
                near,
                holder,
            ) == units(30).negated()
            &&& b == units(90) ==> state.range_score(ctx, far, holder) == units(10).negated()
        }),
{
    let a = near.distance_to(holder.position);
    let b = far.distance_to(holder.position);
    crate::vector::length_is_not_negative(near - holder.position);
    crate::vector::length_is_not_negative(far - holder.position);
    let need = state.relief_engagement(holder);
    let p = holder.pressure_intensity - milli(500);
    if p >= milli(500) {
        crate::scalar::quotient_keeps_order(milli(500), p, milli(500));
    }
    if p <= units(0) {
        crate::scalar::quotient_keeps_order(p, units(0), milli(500));
    }
    crate::scalar::scaling_keeps_order(units(20) - b, units(20) - a, milli(1500));
    crate::scalar::product_keeps_sign(units(20) - a, milli(1500));
    crate::scalar::product_keeps_sign((units(20) - a) * milli(1500), units(1) - need);
    crate::scalar::scaling_keeps_order(
        (units(20) - b) * milli(1500),
        (units(20) - a) * milli(1500),
        units(1) - need,
    );
    crate::scalar::scaling_keeps_order(a - units(70), b - units(70), milli(500));
    crate::scalar::product_keeps_sign(a - units(70), milli(500));
    crate::scalar::product_keeps_sign(b - units(70), milli(500));
    crate::scalar::zero_stays_zero((units(20) - a) * milli(1500));
    crate::scalar::thousandths_of(units(20), 1500);
    crate::scalar::one_changes_nothing(units(30));
    crate::scalar::thousandths_of(units(20), 500);
}

/// The further to the side of the teammate on the ball, the more width is worth.
pub proof fn width_pays(
    state: ForwardCreatingSpaceState,
    ctx: &StateProcessingContext,
    spot: Vec3,
    wider: Vec3,
    holder: MatchPlayerLite,
)
    requires
        (spot.y - holder.position.y).abs() <= (wider.y - holder.position.y).abs(),
    ensures
        state.width_score(spot, holder) <= state.width_score(wider, holder),
        ({
            let aside = (spot.y - holder.position.y).abs();
            &&& aside > units(80) ==> state.width_score(spot, holder) == units(30)
            &&& units(50) < aside
                && aside <= units(80) ==> state.width_score(spot, holder) == units(20)
            &&& units(30) < aside
                && aside <= units(50) ==> state.width_score(spot, holder) == units(10)
            &&& units(15) <= aside
                && aside <= units(30) ==> state.width_score(spot, holder) == units(0)
            &&& aside < units(15) ==> state.width_score(spot, holder) == units(15).negated()
        }),
        (exists|o: MatchPlayerLite| #[trigger]
            ctx.opponents@.contains(o) && is_on_the_line(o.position, holder.position, spot, units(4)))
            ==> state.lane_score(ctx, spot, holder) == units(10).negated(),
        (forall|o: MatchPlayerLite| #[trigger]
            ctx.opponents@.contains(o) ==> !is_on_the_line(o.position, holder.position, spot, units(4)))
            ==> state.lane_score(ctx, spot, holder) == units(15),
{
    scan::some_is_one_of_them(
        ctx.opponents@,
        |o: MatchPlayerLite| is_on_the_line(o.position, holder.position, spot, units(4)),
    );
}

/// Relief is worth nothing for a teammate who is not pressed, nor from 45 off; under full pressure
/// it is worth 30 on the spot with nobody around, and the less the further.
#[verifier::spinoff_prover]
pub proof fn relief_is_for_the_pressed(
    state: ForwardCreatingSpaceState,
    ctx: &StateProcessingContext,
    near: Vec3,
    far: Vec3,
    holder: MatchPlayerLite,
)
    requires
        near.distance_to(holder.position) <= far.distance_to(holder.position),
        state.congestion(ctx, near) <= state.congestion(ctx, far),
    ensures
        holder.pressure_intensity <= milli(500) ==> state.relief_score(ctx, near, holder)
            == units(0),
        near.distance_to(holder.position) >= units(45) ==> state.relief_score(ctx, near, holder)
            == units(0),
        units(0) <= state.relief_score(ctx, far, holder),
        state.relief_score(ctx, far, holder) <= state.relief_score(ctx, near, holder),
        (near.distance_to(holder.position) == units(0) && holder.pressure_intensity.is_between(
            units(1),
            units(1000),
        ) && state.congestion(ctx, near) == units(0)) ==> state.relief_score(ctx, near, holder) == units(30),
{
    let a = near.distance_to(holder.position);
    let b = far.distance_to(holder.position);
    crate::vector::length_is_not_negative(near - holder.position);
    crate::vector::length_is_not_negative(far - holder.position);
    space_score_is_bounded(state, ctx, near);
    space_score_is_bounded(state, ctx, far);
    let need = state.relief_engagement(holder);
    let p = holder.pressure_intensity - milli(500);
    if p >= milli(500) {
        crate::scalar::quotient_keeps_order(milli(500), p, milli(500));
    }
    if p <= units(0) {
        crate::scalar::quotient_keeps_order(p, units(0), milli(500));
    }
    crate::scalar::quotient_keeps_order(units(45) - b, units(45) - a, units(45));
    let ca = ((units(45) - a) / units(45)).clamp(units(0), units(1));
    let cb = ((units(45) - b) / units(45)).clamp(units(0), units(1));
    let ga = state.congestion(ctx, near).min(units(10));
    let gb = state.congestion(ctx, far).min(units(10));
    crate::scalar::quotient_keeps_order(ga, gb, units(10));
    let oa = (units(1) - ga / units(10)).clamp(units(0), units(1));
    let ob = (units(1) - gb / units(10)).clamp(units(0), units(1));
    reliefs_keep_order(need, cb, ca, ob, oa);
    crate::scalar::one_changes_nothing(units(1));
    crate::scalar::one_changes_nothing(units(30));
}

/// Relief keeps the order of its parts.
proof fn reliefs_keep_order(need: Scalar, cb: Scalar, ca: Scalar, ob: Scalar, oa: Scalar)
    requires
        units(0) <= need,
        units(0) <= cb,
        cb <= ca,
        units(0) <= ob,
        ob <= oa,
    ensures
        units(0) <= need * cb * ob * units(30),
        units(0) <= need * ca * oa * units(30),
        need * cb * ob * units(30) <= need * ca * oa * units(30),
{
    crate::scalar::greater_factor_makes_more(need, cb, ca);
    crate::scalar::product_keeps_sign(need, cb);
    crate::scalar::product_keeps_sign(need, ca);
    crate::scalar::scaling_keeps_order(need * cb, need * ca, ob);
    crate::scalar::greater_factor_makes_more(need * ca, ob, oa);
    crate::scalar::product_keeps_sign(need * cb, ob);
    crate::scalar::product_keeps_sign(need * ca, oa);
    crate::scalar::scaling_keeps_order(need * cb * ob, need * ca * oa, units(30));
    crate::scalar::product_keeps_sign(need * cb * ob, units(30));
    crate::scalar::product_keeps_sign(need * ca * oa, units(30));
}

/// Teammates crowd a spot only from within 90, one on the very spot by one; next to the goalkeeper
/// a
/// spot costs the more the nearer, 100 and more within 12, and from 25 on nothing.
#[verifier::spinoff_prover]
pub proof fn spots_are_shared_badly(
    state: ForwardCreatingSpaceState,
    ctx: &StateProcessingContext,
    spot: Vec3,
    other: Vec3,
)
    requires
        ctx.teammates.len() <= 1_000_000_000,
    ensures
        (forall|t: MatchPlayerLite| #[trigger] ctx.teammates@.contains(t) ==> (t.position - spot).magnitude()
            >= units(90)) ==> state.teammate_crowding(ctx, spot) == units(0),
        (exists|t: MatchPlayerLite| #[trigger]
            ctx.teammates@.contains(t) && (t.position - spot).magnitude() == units(0)) ==> units(1)
            <= state.teammate_crowding(ctx, spot),
        (exists|t: MatchPlayerLite| #[trigger]
            ctx.teammates@.contains(t) && (t.position - spot).magnitude() <= units(45)) ==> milli(500)
            <= state.teammate_crowding(ctx, spot),
        ctx.opponent_goalkeeper() is None ==> state.goalkeeper_penalty(ctx, spot) == units(0),
        ctx.opponent_goalkeeper() matches Some(k) ==> {
            let a = k.position.distance_to(spot);
            let b = k.position.distance_to(other);
            &&& a <= b ==> state.goalkeeper_penalty(ctx, other)
                <= state.goalkeeper_penalty(ctx, spot)
            &&& a >= units(25) ==> state.goalkeeper_penalty(ctx, spot) == units(0)
            &&& a < units(12) ==> state.goalkeeper_penalty(ctx, spot).raw == 100_000_000 + 6 * (12_000_000
                - a.raw)
            &&& units(12) <= a
                && a < units(25) ==> state.goalkeeper_penalty(ctx, spot).raw == 3 * (
            25_000_000 - a.raw)
        },
{
    let near = |t: MatchPlayerLite|
        if (t.position - spot).magnitude() < units(90) {
            (units(90) - (t.position - spot).magnitude()) / units(90)
        } else {
            units(0)
        };
    assert forall|t: MatchPlayerLite| units(0) <= #[trigger] near(t) by {
        let left = units(90) - (t.position - spot).magnitude();
        if units(0) <= left {
            crate::scalar::quotient_keeps_order(units(0), left, units(90));
        }
    }
    scan::total_holds_each(ctx.teammates@, near);
    assert(state.teammate_crowding(ctx, spot) == scan::total(ctx.teammates@, near));
    if exists|t: MatchPlayerLite| #[trigger]
        ctx.teammates@.contains(t) && (t.position - spot).magnitude() == units(0) {
        let t = choose|t: MatchPlayerLite| #[trigger]
            ctx.teammates@.contains(t) && (t.position - spot).magnitude() == units(0);
        crate::scalar::whole_is_one(units(90));
        assert(near(t) == units(1));
    }
    if exists|t: MatchPlayerLite| #[trigger]
        ctx.teammates@.contains(t) && (t.position - spot).magnitude() <= units(45) {
        let t = choose|t: MatchPlayerLite| #[trigger]
            ctx.teammates@.contains(t) && (t.position - spot).magnitude() <= units(45);
        crate::scalar::quotient_keeps_order(
            units(45),
            units(90) - (t.position - spot).magnitude(),
            units(90),
        );
        assert(near(t) >= milli(500));
    }
    if let Some(k) = ctx.opponent_goalkeeper() {
        let a = k.position.distance_to(spot);
        let b = k.position.distance_to(other);
        crate::vector::length_is_not_negative(k.position - spot);
        crate::vector::length_is_not_negative(k.position - other);
        if a < units(12) {
            crate::scalar::multiple_is_exact(units(12) - a, 6);
        } else if a < units(25) {
            crate::scalar::multiple_is_exact(units(25) - a, 3);
        }
        if b < units(12) {
            crate::scalar::multiple_is_exact(units(12) - b, 6);
        } else if b < units(25) {
            crate::scalar::multiple_is_exact(units(25) - b, 3);
        }
    }
}

/// A spot no worse in each respect scores no less; teammates who crowd it cost 50 each, and the
/// goalkeeper costs just the penalty.
#[verifier::spinoff_prover]
pub proof fn better_spots_score_more(
    state: ForwardCreatingSpaceState,
    ctx: &StateProcessingContext,
    a: Vec3,
    b: Vec3,
    holder: Option<MatchPlayerLite>,
    line: Scalar,
    attacks_right: bool,
    angle_a: Scalar,
    angle_b: Scalar,
)
    requires
        ctx.teammates.len() <= 1_000_000_000,
        state.space_score(ctx, a) <= state.space_score(ctx, b),
        state.goal_score(ctx, a, angle_a) <= state.goal_score(ctx, b, angle_b),
        state.line_score(
            ctx,
            a,
            line,
            attacks_right,
        ) <= state.line_score(ctx, b, line, attacks_right),
        state.holder_score(ctx, a, holder) <= state.holder_score(ctx, b, holder),
        state.teammate_crowding(ctx, b) <= state.teammate_crowding(ctx, a),
        state.goalkeeper_penalty(ctx, b) <= state.goalkeeper_penalty(ctx, a),
    ensures
        ({
            let worse = state.evaluate_forward_position_fast(
                ctx,
                a,
                holder,
                line,
                attacks_right,
                angle_a,
            );
            let better = state.evaluate_forward_position_fast(
                ctx,
                b,
                holder,
                line,
                attacks_right,
                angle_b,
            );
            &&& worse <= better
            &&& better.raw - worse.raw == (
                state.space_score(ctx, b).raw - state.space_score(ctx, a).raw
            ) + (
            state.goal_score(ctx, b, angle_b).raw - state.goal_score(ctx, a, angle_a).raw) + (
            state.line_score(ctx, b, line, attacks_right).raw - state.line_score(
                ctx,
                a,
                line,
                attacks_right,
            ).raw) + (state.holder_score(ctx, b, holder).raw - state.holder_score(ctx, a, holder).raw) + 50 * (
            state.teammate_crowding(ctx, a).raw - state.teammate_crowding(ctx, b).raw) + (
            state.goalkeeper_penalty(ctx, a).raw - state.goalkeeper_penalty(ctx, b).raw)
        }),
{
    space_score_is_bounded(state, ctx, a);
    space_score_is_bounded(state, ctx, b);
    goal_score_is_bounded(state, ctx, a, angle_a);
    goal_score_is_bounded(state, ctx, b, angle_b);
    holder_score_is_bounded(state, ctx, a, holder);
    holder_score_is_bounded(state, ctx, b, holder);
    penalties_are_bounded(state, ctx, a);
    penalties_are_bounded(state, ctx, b);
    crate::scalar::multiple_is_exact(state.teammate_crowding(ctx, a), 50);
    crate::scalar::multiple_is_exact(state.teammate_crowding(ctx, b), 50);
}

/// A spot that is no worse for the teammate on the ball in each respect is worth no less for them,
/// and nothing counts where nobody of the team is on the ball.
pub proof fn holders_get_more_of_better_spots(
    state: ForwardCreatingSpaceState,
    ctx: &StateProcessingContext,
    a: Vec3,
    b: Vec3,
    holder: MatchPlayerLite,
)
    requires
        state.range_score(ctx, a, holder) <= state.range_score(ctx, b, holder),
        state.relief_score(ctx, a, holder) <= state.relief_score(ctx, b, holder),
        state.width_score(a, holder) <= state.width_score(b, holder),
        state.lane_score(ctx, a, holder) <= state.lane_score(ctx, b, holder),
    ensures
        state.holder_score(ctx, a, Some(holder)) <= state.holder_score(ctx, b, Some(holder)),
        state.holder_score(ctx, a, None) == units(0),
        (state.range_score(ctx, b, holder) == units(25) && state.relief_score(ctx, b, holder) == units(0)
            && state.width_score(b, holder) == units(10) && state.lane_score(ctx, b, holder) == units(15))
            ==> state.holder_score(ctx, b, Some(holder)) == units(50),
        state.score_of_nowhere(None) == units(45),
        state.score_of_nowhere(Some(holder)) == units(60),
{
}

/// Each scanned opponent gives three spots, in their order.
proof fn offset_spots_hold(
    state: ForwardCreatingSpaceState,
    ctx: &StateProcessingContext,
    opponents: Seq<MatchPlayerLite>,
    i: int,
)
    requires
        0 <= i < opponents.len(),
    ensures
        state.offset_spots(ctx, opponents).len() == 3 * opponents.len(),
        state.offset_spots(ctx, opponents)[3 * i] == state.left_of(ctx, opponents[i]),
        state.offset_spots(ctx, opponents)[3 * i + 1] == state.right_of(ctx, opponents[i]),
        state.offset_spots(ctx, opponents)[3 * i + 2] == state.behind_back_of(ctx, opponents[i]),
    decreases opponents.len(),
{
    let front = opponents.drop_last();
    if front.len() > 0 {
        offset_spots_hold(state, ctx, front, if i < front.len() { i } else { 0 });
    } else {
        assert(state.offset_spots(ctx, front).len() == 0);
    }
}

/// Each usable gap gives its middle and a step beyond it.
proof fn gap_spots_hold(
    state: ForwardCreatingSpaceState,
    ctx: &StateProcessingContext,
    gaps: Seq<Gap>,
    g: Gap,
)
    requires
        gaps.contains(g),
        state.is_usable_gap(g),
    ensures
        state.gap_spots(ctx, gaps).contains(Some(g.center)),
        state.gap_spots(ctx, gaps).contains(state.beyond_gap(ctx, g)),
    decreases gaps.len(),
{
    let front = gaps.drop_last();
    let before = state.gap_spots(ctx, front);
    let all = state.gap_spots(ctx, gaps);
    if gaps.last() == g {
        assert(all[before.len() as int] == Some(g.center));
        assert(all[before.len() as int + 1] == state.beyond_gap(ctx, g));
    } else {
        let i = choose|i: int| 0 <= i < gaps.len() && gaps[i] == g;
        assert(front[i] == g);
        gap_spots_hold(state, ctx, front, g);
        let a = choose|a: int| 0 <= a < before.len() && before[a] == Some(g.center);
        let b = choose|b: int| 0 <= b < before.len() && before[b] == state.beyond_gap(ctx, g);
        assert(all[a] == Some(g.center));
        assert(all[b] == state.beyond_gap(ctx, g));
    }
}

/// The forward considers, as far as they are on the pitch: right here; the spots of the grid
/// ahead;
/// beside and behind the back of each opponent within 250; on the flanks; and in and beyond each
/// gap of 12 to 80 between two of them.
#[verifier::spinoff_prover]
pub proof fn zones_are_all_considered(
    state: ForwardCreatingSpaceState,
    ctx: &StateProcessingContext,
    o: MatchPlayerLite,
    p: MatchPlayerLite,
    i: int,
    j: int,
    row: usize,
    column: usize,
)
    requires
        state.has_opponents_to_scan(ctx),
        0 <= i < j < state.scanned(ctx).len(),
        o == state.scanned(ctx)[i],
        p == state.scanned(ctx)[j],
        row < 4,
        column < 7,
    ensures
        ({
            let considers = |spot: Option<Vec3>|
                state.zone_candidates(ctx).contains(state.on_pitch(ctx, spot));
            let gap = crate::gaps::gap_between(o, p);
            &&& considers(Some(ctx.player.position))
            &&& considers(state.left_of(ctx, o))
            &&& considers(state.right_of(ctx, o))
            &&& considers(state.behind_back_of(ctx, o))
            &&& considers(state.grid_spot(ctx, row, column))
            &&& column < 3 ==> considers(state.flank_spot(ctx, row, column))
            &&& units(12) < gap.width && gap.width < units(80) ==> considers(Some(gap.center))
                && considers(
                state.beyond_gap(ctx, gap),
            )
        }),
{
    let scanned = state.scanned(ctx);
    let gaps = crate::gaps::gaps_from(scanned, 0);
    let g = state.gap_spots(ctx, gaps);
    let f = state.offset_spots(ctx, scanned);
    let grid = state.grid_spots(ctx);
    let flanks = state.flank_spots(ctx);
    let raw = (g + f + grid + flanks).push(Some(ctx.player.position));
    let all = state.zone_candidates(ctx);
    assert(all =~= raw.map_values(|spot: Option<Vec3>| state.on_pitch(ctx, spot)));
    assert(forall|k: int|
        0 <= k < raw.len() ==> #[trigger] all[k] == state.on_pitch(ctx, raw[k]));
    offset_spots_hold(state, ctx, scanned, i);
    let n = g.len() as int;
    let m = f.len() as int;
    assert(raw[n + 3 * i] == state.left_of(ctx, o));
    assert(all[n + 3 * i] == state.on_pitch(ctx, state.left_of(ctx, o)));
    assert(raw[n + 3 * i + 1] == state.right_of(ctx, o));
    assert(all[n + 3 * i + 1] == state.on_pitch(ctx, state.right_of(ctx, o)));
    assert(raw[n + 3 * i + 2] == state.behind_back_of(ctx, o));
    assert(all[n + 3 * i + 2] == state.on_pitch(ctx, state.behind_back_of(ctx, o)));
    let k = row as int * 7 + column as int;
    assert(k / 7 == row && k % 7 == column);
    assert(grid[k] == state.grid_spot(ctx, row, column));
    assert(raw[n + m + k] == grid[k]);
    assert(all[n + m + k] == state.on_pitch(ctx, grid[k]));
    if column < 3 {
        let l = row as int * 3 + column as int;
        assert(l / 3 == row && l % 3 == column);
        assert(flanks[l] == state.flank_spot(ctx, row, column));
        assert(raw[n + m + 28 + l] == flanks[l]);
        assert(all[n + m + 28 + l] == state.on_pitch(ctx, flanks[l]));
    }
    assert(raw[raw.len() - 1] == Some(ctx.player.position));
    assert(all[raw.len() - 1] == state.on_pitch(ctx, Some(ctx.player.position)));
    let gap = crate::gaps::gap_between(o, p);
    if units(12) < gap.width && gap.width < units(80) {
        crate::gaps::gaps_are_between_two(scanned, gap);
        gap_spots_hold(state, ctx, gaps, gap);
        let a = choose|a: int| 0 <= a < g.len() && g[a] == Some(gap.center);
        let b = choose|b: int| 0 <= b < g.len() && g[b] == state.beyond_gap(ctx, gap);
        assert(raw[a] == g[a] && raw[b] == g[b]);
        assert(all[a] == state.on_pitch(ctx, g[a]));
        assert(all[b] == state.on_pitch(ctx, g[b]));
    }
}

/// The grid ahead has four depths, each deeper than the last, and seven lanes, each further to the
/// side than the last and mirrored about the middle one; the flanks have four lanes, mirrored
/// about
/// the middle of the pitch, and three depths ahead of the ball.
pub proof fn grids_are_even(
    state: ForwardCreatingSpaceState,
    ctx: &StateProcessingContext,
    row: usize,
    column: usize,
)
    requires
        row < 4,
        column < 7,
    ensures
        row < 3 ==> state.grid_depth(row) < state.grid_depth((row + 1) as usize),
        units(25) <= state.grid_depth(row) && state.grid_depth(row) <= units(120),
        state.grid_depth(1) == units(50) && state.grid_depth(2) == units(80),
        state.grid_depth(0) == units(25) && state.grid_depth(3) == units(120),
        column < 6 ==> state.grid_lane(column) < state.grid_lane((column + 1) as usize),
        state.grid_lane((6 - column) as usize) == state.grid_lane(column).negated(),
        state.grid_lane(4) == units(30) && state.grid_lane(5) == units(60)
            && state.grid_lane(6) == units(
            100,
        ),
        state.flank_depth(0) == units(40) && state.flank_depth(1) == units(80)
            && state.flank_depth(2)
            == units(120),
        row < 3 ==> state.flank_lane(ctx, row) <= state.flank_lane(ctx, (row + 1) as usize),
        state.flank_lane(ctx, 0).raw == ctx.field_size.height * 100_000,
        state.flank_lane(ctx, 1).raw == ctx.field_size.height * 250_000,
        state.flank_lane(ctx, 2).raw == ctx.field_size.height * 750_000,
        state.flank_lane(ctx, 3).raw == ctx.field_size.height * 900_000,
{
    crate::scalar::thousandths_of(ctx.height(), 100);
    crate::scalar::thousandths_of(ctx.height(), 250);
    crate::scalar::thousandths_of(ctx.height(), 750);
    crate::scalar::thousandths_of(ctx.height(), 900);
}

/// The spots beside an opponent lie 25 to either side, 20 towards the goal; the spot behind the
/// back
/// 15 towards it; the grid is laid out along the way to the goal, and a flank spot ahead of the
/// ball.
pub proof fn zones_lie_towards_the_goal(
    state: ForwardCreatingSpaceState,
    ctx: &StateProcessingContext,
    o: MatchPlayerLite,
    g: Gap,
    row: usize,
    column: usize,
)
    requires
        ctx.field_size.width >= 60,
    ensures
        (ctx.goal() - o.position).direction() matches Some(ahead) ==> {
            &&& state.left_of(ctx, o) == Some(
                o.position + flat(ahead.y.negated(), ahead.x) * units(25) + ahead * units(20),
            )
            &&& state.right_of(ctx, o) == Some(
                o.position - flat(ahead.y.negated(), ahead.x) * units(25) + ahead * units(20),
            )
            &&& state.behind_back_of(ctx, o) == Some(o.position + ahead * units(15))
        },
        (ctx.goal() - g.center).direction() matches Some(ahead) ==> state.beyond_gap(ctx, g)
            == Some(
            g.center + ahead * units(10),
        ),
        ctx.to_goal().direction() matches Some(ahead) ==> {
            &&& state.grid_spot(ctx, row, column) == Some(
                ctx.player.position + ahead * state.grid_depth(row) + flat(
                    ahead.y.negated(),
                    ahead.x,
                )
                    * state.grid_lane(column),
            )
            &&& state.spot_ahead(ctx) == Some(ctx.player.position + ahead * units(30))
        },
        ctx.ball.position.x.is_between(units(30), ctx.width() - units(30)) ==> {
            &&& ctx.player.side == Some(PlayerSide::Left) ==> ctx.ball.position.x
                <= state.flank_spot(
                ctx,
                row,
                column,
            )->0.x
            &&& ctx.player.side
                == Some(PlayerSide::Right) ==> state.flank_spot(ctx, row, column)->0.x
                <= ctx.ball.position.x
            &&& ctx.player.side == Some(PlayerSide::Left)
                && ctx.ball.position.x + state.flank_depth(column)
                <= ctx.width()
                    - units(30) ==> state.flank_spot(ctx, row, column)->0.x == ctx.ball.position.x
                + state.flank_depth(column)
            &&& state.flank_spot(ctx, row, column)->0.y == state.flank_lane(ctx, row)
        },
        state.is_in_scan_radius(ctx, o) <==> (
            o.position - ctx.player.position
        ).norm_squared() < units(62_500),
{
    crate::scalar::one_changes_nothing(state.flank_depth(column));
    crate::scalar::product_keeps_sign(units(1).negated(), state.flank_depth(column));
}

/// A team that attacks shifts the spot ten ahead, one that counters 15 where there is room behind
/// the defence, one that plays wide up to ten to the nearer touchline, one that keeps the ball
/// five
/// towards it; others leave it; and the shifted spot stays ten off the edges of the pitch.
#[verifier::spinoff_prover]
pub proof fn styles_shift_spots(
    state: ForwardCreatingSpaceState,
    ctx: &StateProcessingContext,
    spot: Vec3,
)
    requires
        ctx.field_size.width >= 20,
        ctx.field_size.height >= 20,
        ctx.player.side is Some,
        spot.x.is_between(units(40), ctx.width() - units(40)),
        spot.y.is_between(units(40), ctx.height() - units(40)),
    ensures
        ({
            let r = state.apply_forward_tactical_adjustment(ctx, Some(spot));
            let style = ctx.player.tactical_style;
            let right = ctx.player.side == Some(PlayerSide::Left);
            let room = state.has_space_behind_defense(ctx);
            let wide = style == TacticalStyle::WidePlay || style == TacticalStyle::WingPlay;
            &&& style == TacticalStyle::Attacking ==> r is Some && r->0.y == spot.y && r->0.x == (if right {
                spot.x + units(10)
            } else {
                spot.x - units(10)
            })
            &&& style == TacticalStyle::Counterattack && room ==> r is Some && r->0.y == spot.y
                && r->0.x == (
            if right {
                spot.x + units(15)
            } else {
                spot.x - units(15)
            })
            &&& style == TacticalStyle::Counterattack && !room ==> r == Some(spot)
            &&& wide ==> r is Some && r->0.x == spot.x && r->0.y == (if spot.y < ctx.height() / units(2) {
                spot.y - units(10)
            } else {
                spot.y + units(10)
            })
            &&& style == TacticalStyle::Possession
                && (ctx.ball.position - spot).direction() is None ==> r is None
            &&& style != TacticalStyle::Attacking && style != TacticalStyle::Counterattack && !wide
                && style
                != TacticalStyle::Possession ==> r == Some(spot)
            &&& state.apply_forward_tactical_adjustment(ctx, None) is None
        }),
{
    crate::scalar::one_changes_nothing(units(10));
    crate::scalar::one_changes_nothing(units(15));
    crate::scalar::zero_stays_zero(units(10));
    crate::scalar::zero_stays_zero(units(15));
    crate::scalar::minus_one_turns_the_sign(units(10));
    crate::scalar::minus_one_turns_the_sign(units(15));
}

/// Wherever the side is known the shifted spot is on the pitch, ten off its edges.
pub proof fn shifted_spots_stay_inside(
    state: ForwardCreatingSpaceState,
    ctx: &StateProcessingContext,
    spot: Option<Vec3>,
)
    requires
        ctx.field_size.width >= 20,
        ctx.field_size.height >= 20,
    ensures
        ctx.player.side is Some ==> (state.apply_forward_tactical_adjustment(ctx, spot) matches Some(r)
            ==> r.x.is_between(units(10), ctx.width() - units(10)) && r.y.is_between(
            units(10),
            ctx.height() - units(10),
        )),
        ctx.player.side is None ==> state.apply_forward_tactical_adjustment(ctx, spot) == spot,
        ctx.player.side is Some && ctx.player.tactical_style == TacticalStyle::Possession ==> (spot matches Some(
            place,
        ) ==> ((ctx.ball.position - place).direction() matches Some(way) ==> state.styled(ctx, place) == Some(
            place + way * units(5),
        ))),
{
}

/// Without defenders the line of the defence is the halfway line; with one it is where they stand;
/// there is room behind it where it is more than 30 and three tenths of the pitch short of the
/// goal.
#[verifier::spinoff_prover]
pub proof fn lines_leave_room(state: ForwardCreatingSpaceState, ctx: &StateProcessingContext)
    ensures
        (forall|o: MatchPlayerLite| #[trigger] ctx.opponents@.contains(o) ==> o.tactical_positions.group
            != PositionGroup::Defender) ==> state.get_defensive_line_height(ctx) == milli(500),
        ({
            let line = state.get_defensive_line_height(ctx);
            let depth = line * ctx.width();
            &&& ctx.player.side != Some(PlayerSide::Right) ==> (state.has_space_behind_defense(ctx) <==> line
                < milli(700) && ctx.width() - depth > units(30))
            &&& ctx.player.side == Some(PlayerSide::Right) ==> (state.has_space_behind_defense(ctx) <==> line
                > milli(300) && depth > units(30))
        }),
        (
            ctx.opponents@.len() == 1
                && ctx.opponents@[0].tactical_positions.group == PositionGroup::Defender
        )
            ==> state.get_defensive_line_height(ctx) == ctx.opponents@[0].position.x / ctx.width(),
{
    let p = |o: MatchPlayerLite| o.tactical_positions.is_defender();
    assert(ctx.opponents.len() == ctx.opponents@.len());
    scan::count_tells_some(ctx.opponents@, p);
    if ctx.opponents@.len() == 1
        && ctx.opponents@[0].tactical_positions.group == PositionGroup::Defender {
        let k = |o: MatchPlayerLite|
            if o.tactical_positions.is_defender() {
                o.position.x
            } else {
                units(0)
            };
        assert(ctx.opponents@.drop_last().len() == 0);
        reveal_with_fuel(scan::total, 2);
        let x = ctx.opponents@[0].position.x;
        assert(ctx.opponents@.last() == ctx.opponents@[0]);
        assert(scan::total(ctx.opponents@, k) == x);
        assert(ctx.opponents@.contains(ctx.opponents@[0]) && p(ctx.opponents@[0]));
        assert(scan::count_where(ctx.opponents@, p) == 1);
        assert(headcount(1) == units(1));
        assert(x / units(1) == x) by {
            let r: int = x.raw as int;
            assert(crate::scalar::size(r) * 1_000_000 / 1_000_000 == crate::scalar::size(r));
        }
    }
}

/// The zone that is chosen scores no less than any other that nobody has taken, and any other at
/// all where all are taken; close to it the forward is still, and else goes there.
#[verifier::spinoff_prover]
pub proof fn chosen_zones_are_the_best(
    state: ForwardCreatingSpaceState,
    ctx: &StateProcessingContext,
    readings: &Vec<ZoneReading>,
)
    requires
        state.fits_pitch(ctx),
        readings.len() == state.zone_candidates(ctx).len(),
        readings.len() > 0,
    ensures
        ({
            let zones = state.zone_candidates(ctx);
            let score = |j: int| state.score(ctx, zones[j], readings@[j].open_angle);
            let free = exists|k: int| 0 <= k < readings.len()
                && !(#[trigger] readings@[k]).claimed;
            exists|j: int|
                0 <= j < readings.len() && state.best_zone(ctx, state.rated_zones(ctx, readings@))
                    == #[trigger] zones[j] && (free ==> !readings@[j].claimed) && (forall|k: int|
                    0 <= k < readings.len()
                        && (free ==> !(#[trigger] readings@[k]).claimed) ==> score(k)
                        <= score(j))
        }),
        ({
            let target = state.find_optimal_free_zone(ctx, readings);
            &&& target matches Some(spot) ==> (if spot.distance_to(ctx.player.position) < units(8) {
                state.velocity(ctx, readings) == Some(still())
            } else {
                state.velocity(ctx, readings) == Some(arrive(spot, units(20)))
            })
        }),
{
    let spots = state.zone_candidates(ctx);
    let zones = state.rated_zones(ctx, readings@);
    let open = |z: RatedZone| !z.claimed;
    let any = |z: RatedZone| true;
    let key = |z: RatedZone| z.score;
    let score = |j: int| state.score(ctx, spots[j], readings@[j].open_angle);
    let free = exists|k: int| 0 <= k < readings.len() && !(#[trigger] readings@[k]).claimed;
    scan::first_greatest_is_greatest(zones, open, key);
    scan::first_greatest_is_greatest(zones, any, key);
    assert forall|k: int| 0 <= k < zones.len() implies zones.contains(#[trigger] zones[k]) by {
    }
    if free {
        let k = choose|k: int| 0 <= k < readings.len() && !(#[trigger] readings@[k]).claimed;
        assert(zones.contains(zones[k]) && open(zones[k]));
        let best = scan::first_greatest_where(zones, open, key)->0;
        let j = choose|j: int| 0 <= j < zones.len() && zones[j] == best;
        assert(open(best));
        assert forall|k: int|
            0 <= k < readings.len()
                && (free ==> !(#[trigger] readings@[k]).claimed) implies score(k)
            <= score(j) by {
            assert(zones.contains(zones[k]) && open(zones[k]));
            assert(key(zones[k]) <= key(best));
        }
        assert(state.best_zone(ctx, zones) == spots[j]);
    } else {
        if let Some(z) = scan::first_greatest_where(zones, open, key) {
            let j = choose|j: int| 0 <= j < zones.len() && zones[j] == z;
            assert(open(z));
            assert(!readings@[j].claimed);
        }
        assert(zones.contains(zones[0]) && any(zones[0]));
        let best = scan::first_greatest_where(zones, any, key)->0;
        let j = choose|j: int| 0 <= j < zones.len() && zones[j] == best;
        assert forall|k: int|
            0 <= k < readings.len()
                && (free ==> !(#[trigger] readings@[k]).claimed) implies score(k)
            <= score(j) by {
            assert(zones.contains(zones[k]) && any(zones[k]));
            assert(key(zones[k]) <= key(best));
        }
        assert(state.best_zone(ctx, zones) == spots[j]);
    }
}

} // verus!
