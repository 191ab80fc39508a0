//! Gaps between the players of a line.
use crate::context::MatchPlayerLite;
use crate::scalar::{milli, units, Scalar};
use crate::vector::Vec3;
use vstd::prelude::*;

verus! {

/// The gap between two players.
#[derive(Clone, Copy, PartialEq, Eq, Structural, Debug)]
pub struct Gap {
    pub center: Vec3,
    pub width: Scalar,
}

pub open spec fn spec_gap_between(a: MatchPlayerLite, b: MatchPlayerLite) -> Gap {
    Gap {
        center: (a.position + b.position) * milli(500),
        width: (a.position - b.position).magnitude(),
    }
}

/// The gap between two players.
#[verifier::when_used_as_spec(spec_gap_between)]
pub fn gap_between(a: MatchPlayerLite, b: MatchPlayerLite) -> (r: Gap)
    ensures
        r == spec_gap_between(a, b),
{
    Gap {
        center: (a.position + b.position) * milli(500),
        width: (a.position - b.position).magnitude(),
    }
}

/// The gaps between player `i` and each later one, up to but not including player `end`.
pub open spec fn gap_row(players: Seq<MatchPlayerLite>, i: int, end: int) -> Seq<Gap> {
    Seq::new((end - i - 1) as nat, |k: int| gap_between(players[i], players[i + 1 + k]))
}

/// The gaps between each two players, the first of them at `start` or later.
pub open spec fn gaps_from(players: Seq<MatchPlayerLite>, start: int) -> Seq<Gap>
    decreases players.len() - start,
{
    if start >= players.len() {
        Seq::empty()
    } else {
        gap_row(players, start, players.len() as int) + gaps_from(players, start + 1)
    }
}

/// The gaps between each two players.
pub fn gaps_between(players: &Vec<MatchPlayerLite>) -> (r: Vec<Gap>)
    ensures
        r@ == gaps_from(players@, 0),
{
    let mut found: Vec<Gap> = Vec::new();
    let mut i: usize = 0;
    while i < players.len()
        invariant
            i <= players.len(),
            found@ + gaps_from(players@, i as int) == gaps_from(players@, 0),
        decreases players.len() - i,
    {
        let ghost before = found@;
        let mut j: usize = i + 1;
        while j < players.len()
            invariant
                i < j <= players.len(),
                found@ == before + gap_row(players@, i as int, j as int),
            decreases players.len() - j,
        {
            found.push(gap_between(players[i], players[j]));
            j = j + 1;
            assert(found@ =~= before + gap_row(players@, i as int, j as int));
        }
        assert(found@ + gaps_from(players@, i + 1) =~= before + gaps_from(players@, i as int));
        i = i + 1;
    }
    assert(found@ =~= found@ + gaps_from(players@, i as int));
    found
}

/// Two players who come one after the other.
#[derive(Clone, Copy, PartialEq, Eq, Structural, Debug)]
pub struct Neighbours {
    pub first: MatchPlayerLite,
    pub second: MatchPlayerLite,
}

impl Neighbours {
    pub open spec fn spec_lateral_gap(self) -> Scalar {
        (self.second.position.y - self.first.position.y).abs()
    }

    /// How far apart the two are, from touchline to touchline.
    #[verifier::when_used_as_spec(spec_lateral_gap)]
    pub fn lateral_gap(self) -> (r: Scalar)
        ensures
            r == self.spec_lateral_gap(),
    {
        (self.second.position.y - self.first.position.y).abs()
    }

    pub open spec fn spec_lateral_center(self) -> Scalar {
        (self.first.position.y + self.second.position.y) / units(2)
    }

    /// Half way between the two, from touchline to touchline.
    #[verifier::when_used_as_spec(spec_lateral_center)]
    pub fn lateral_center(self) -> (r: Scalar)
        ensures
            r == self.spec_lateral_center(),
    {
        (self.first.position.y + self.second.position.y) / units(2)
    }
}

/// Each player with the next one.
pub open spec fn neighbours_in(players: Seq<MatchPlayerLite>) -> Seq<Neighbours> {
    if players.len() < 2 {
        Seq::empty()
    } else {
        Seq::new(
            (players.len() - 1) as nat,
            |i: int| Neighbours { first: players[i], second: players[i + 1] },
        )
    }
}

/// Each player with the next one.
pub fn neighbours_of(players: &Vec<MatchPlayerLite>) -> (r: Vec<Neighbours>)
    ensures
        r@ == neighbours_in(players@),
{
    let mut found: Vec<Neighbours> = Vec::new();
    let mut i: usize = 1;
    while i < players.len()
        invariant
            i == 1 || 1 < i <= players.len(),
            found.len() == i - 1,
            forall|j: int|
                0 <= j < i - 1 ==> #[trigger] found@[j] == (Neighbours {
                    first: players@[j],
                    second: players@[j + 1],
                }),
        decreases players.len() - i,
    {
        found.push(Neighbours { first: players[i - 1], second: players[i] });
        i = i + 1;
    }
    assert(found@ =~= neighbours_in(players@));
    found
}

/// Every gap from a place on is one between two of the players, and each two of them have one.
proof fn gaps_from_are_between(players: Seq<MatchPlayerLite>, start: int, g: Gap)
    requires
        0 <= start,
    ensures
        gaps_from(players, start).contains(g) <==> exists|i: int, j: int|
            start <= i < j < players.len() && g == #[trigger] gap_between(players[i], players[j]),
    decreases players.len() - start,
{
    if start < players.len() {
        let row = gap_row(players, start, players.len() as int);
        let rest = gaps_from(players, start + 1);
        gaps_from_are_between(players, start + 1, g);
        if (row + rest).contains(g) {
            let k = choose|k: int| 0 <= k < (row + rest).len() && (row + rest)[k] == g;
            if k < row.len() {
                assert(g == gap_between(players[start], players[start + 1 + k]));
            } else {
                assert(rest[k - row.len()] == g);
                assert(rest.contains(g));
            }
        }
        if exists|i: int, j: int|
            start <= i < j < players.len() && g == #[trigger] gap_between(players[i], players[j]) {
            let (i, j) = choose|i: int, j: int|
                start <= i < j < players.len()
                    && g == #[trigger] gap_between(players[i], players[j]);
            if i == start {
                assert((row + rest)[j - start - 1] == g);
            } else {
                assert(rest.contains(g));
                let k = choose|k: int| 0 <= k < rest.len() && rest[k] == g;
                assert((row + rest)[row.len() + k] == g);
            }
        }
    }
}

/// The gaps are those between each two of the players.
pub proof fn gaps_are_between_two(players: Seq<MatchPlayerLite>, g: Gap)
    ensures
        gaps_from(players, 0).contains(g) <==> exists|i: int, j: int|
            0 <= i < j < players.len() && g == #[trigger] gap_between(players[i], players[j]),
{
    gaps_from_are_between(players, 0, g);
}

/// The middle of a gap lies half way between the two players, and it is as wide as they are apart.
pub proof fn gaps_have_their_middle(a: MatchPlayerLite, b: MatchPlayerLite)
    requires
        a.position.x.is_between(units(0), units(100_000)),
        b.position.x.is_between(units(0), units(100_000)),
        a.position.y.is_between(units(0), units(100_000)),
        b.position.y.is_between(units(0), units(100_000)),
    ensures
        gap_between(a, b).width == a.position.distance_to(b.position),
        2 * gap_between(a, b).center.x.raw <= a.position.x.raw
            + b.position.x.raw <= 2 * gap_between(
            a,
            b,
        ).center.x.raw + 1,
        2 * gap_between(a, b).center.y.raw <= a.position.y.raw
            + b.position.y.raw <= 2 * gap_between(
            a,
            b,
        ).center.y.raw + 1,
        (Neighbours { first: a, second: b }).lateral_gap().raw == (if a.position.y.raw < b.position.y.raw {
            b.position.y.raw - a.position.y.raw
        } else {
            a.position.y.raw - b.position.y.raw
        }),
        2 * (Neighbours { first: a, second: b }).lateral_center().raw <= a.position.y.raw
            + b.position.y.raw <= 2 * (
                Neighbours { first: a, second: b }
            ).lateral_center().raw + 1,
{
    let x: int = a.position.x.raw + b.position.x.raw;
    let y: int = a.position.y.raw + b.position.y.raw;
    assert(x * 500_000 / 1_000_000 == x / 2);
    assert(y * 500_000 / 1_000_000 == y / 2);
    assert(y * 1_000_000 / 2_000_000 == y / 2);
}

} // verus!
