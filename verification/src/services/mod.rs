//! The services that an engine offers: match, nearest, route, table and
//! trip, each with its request, its builder and its response.
//!
//! The rules that several builders share are stated and decided here.

pub mod matching;
pub mod nearest;
pub mod route;
pub mod table;
pub mod trip;

use crate::request_types::Exclude;
use vstd::prelude::*;

verus! {

/// The array option whose length differs from that of the points it
/// belongs to.
#[derive(Clone, Copy, Debug, PartialEq, Eq, Structural)]
pub enum DimensionMismatch {
    Timestamps,
    Bearings,
    Radiuses,
    Hints,
    Approaches,
}

impl DimensionMismatch {
    /// The name of the option.
    pub open spec fn name(self) -> Seq<char> {
        match self {
            DimensionMismatch::Timestamps => "Timestamps"@,
            DimensionMismatch::Bearings => "Bearings"@,
            DimensionMismatch::Radiuses => "Radiuses"@,
            DimensionMismatch::Hints => "Hints"@,
            DimensionMismatch::Approaches => "Approaches"@,
        }
    }

    /// The name of the option, as an error message gives it.
    pub fn as_str(&self) -> (s: &'static str)
        ensures
            s@ == self.name(),
    {
        match self {
            DimensionMismatch::Timestamps => "Timestamps",
            DimensionMismatch::Bearings => "Bearings",
            DimensionMismatch::Radiuses => "Radiuses",
            DimensionMismatch::Hints => "Hints",
            DimensionMismatch::Approaches => "Approaches",
        }
    }
}

/// The side of the road from which a waypoint is reached.
#[derive(Clone, Copy, Debug, PartialEq, Eq, Structural)]
pub enum Approach {
    /// On the side of the road on which the waypoint lies.
    Curb,
    /// On the side of the road opposite the waypoint.
    Opposite,
    /// On either side.
    Unrestricted,
}

impl Approach {
    /// The variant as a query writes it.
    pub open spec fn url_text(self) -> Seq<char> {
        match self {
            Approach::Curb => "curb"@,
            Approach::Opposite => "opposite"@,
            Approach::Unrestricted => "unrestricted"@,
        }
    }

    /// The variant in lower case: `"curb"`, `"opposite"` or
    /// `"unrestricted"`.
    pub fn url_form(&self) -> (s: &'static str)
        ensures
            s@ == self.url_text(),
    {
        match self {
            Approach::Curb => "curb",
            Approach::Opposite => "opposite",
            Approach::Unrestricted => "unrestricted",
        }
    }
}

/// Whether an optional per-point array is absent or as long as the points.
pub open spec fn fits<T>(option: Option<Seq<T>>, points: nat) -> bool {
    option matches Some(s) ==> s.len() == points
}

/// Whether no radius that is given is negative.
pub open spec fn radiuses_non_negative(radiuses: Seq<Option<i64>>) -> bool {
    forall|i: int| 0 <= i < radiuses.len() ==> (#[trigger] radiuses[i] matches Some(r) ==> r >= 0)
}

/// Whether all exclusions belong to one profile.
pub open spec fn one_profile(exclude: Seq<Exclude>) -> bool {
    forall|i: int| 0 <= i < exclude.len() ==> (#[trigger] exclude[i]).same_profile(exclude[0])
}

/// Whether no timestamp is smaller than the one before it.
pub open spec fn ascending(timestamps: Seq<u64>) -> bool {
    forall|i: int, j: int| 0 <= i <= j < timestamps.len() ==> timestamps[i] <= timestamps[j]
}

/// The greatest of the indices, and zero where there is none.
pub open spec fn greatest(indices: Seq<usize>) -> int
    decreases indices.len(),
{
    if indices.len() == 0 {
        0
    } else if indices.last() >= greatest(indices.drop_last()) {
        indices.last() as int
    } else {
        greatest(indices.drop_last())
    }
}

/// The contents of the hints that are given.
pub open spec fn hint_texts(hints: Seq<Option<&str>>) -> Seq<Option<Seq<char>>> {
    hints.map_values(
        |h: Option<&str>|
            match h {
                Some(s) => Some(s@),
                None => None,
            },
    )
}

/// The contents of an optional list of hints.
pub open spec fn optional_hint_texts(hints: Option<&[Option<&str>]>) -> Option<
    Seq<Option<Seq<char>>>,
> {
    match hints {
        Some(h) => Some(hint_texts(h@)),
        None => None,
    }
}

/// The contents of an optional slice.
pub open spec fn optional_seq<T>(slice: Option<&[T]>) -> Option<Seq<T>> {
    match slice {
        Some(s) => Some(s@),
        None => None,
    }
}

/// The greatest index is one of the indices, and none is greater.
pub proof fn lemma_greatest(indices: Seq<usize>)
    requires
        indices.len() > 0,
    ensures
        exists|i: int| 0 <= i < indices.len() && indices[i] == greatest(indices),
        forall|i: int| 0 <= i < indices.len() ==> indices[i] <= greatest(indices),
    decreases indices.len(),
{
    if indices.len() == 1 {
        assert(greatest(indices.drop_last()) == 0);
        assert(indices[0] == greatest(indices));
    } else {
        let rest = indices.drop_last();
        lemma_greatest(rest);
        let k = choose|i: int| 0 <= i < rest.len() && rest[i] == greatest(rest);
        assert(rest[k] == indices[k]);
        if indices.last() >= greatest(rest) {
            assert(indices[indices.len() - 1] == greatest(indices));
        } else {
            assert(indices[k] == greatest(indices));
        }
        assert forall|i: int| 0 <= i < indices.len() implies indices[i] <= greatest(indices) by {
            if i < rest.len() {
                assert(rest[i] == indices[i]);
            }
        }
    }
}

/// Exclusions are of one profile exactly where all of them are for cars or
/// all of them are for bicycles; a list that holds one of each is not.
pub proof fn lemma_one_profile(exclude: Seq<Exclude>)
    ensures
        one_profile(exclude) <==> (forall|i: int| 0 <= i < exclude.len() ==> exclude[i] is Car) || (
        forall|i: int| 0 <= i < exclude.len() ==> exclude[i] is Bicycle),
{
    if one_profile(exclude) {
        if exclude.len() > 0 && exclude[0] is Car {
            assert forall|i: int| 0 <= i < exclude.len() implies exclude[i] is Car by {
                assert(exclude[i].same_profile(exclude[0]));
            }
        } else {
            assert forall|i: int| 0 <= i < exclude.len() implies exclude[i] is Bicycle by {
                assert(exclude[i].same_profile(exclude[0]));
            }
        }
    }
}

/// Decides whether no radius that is given is negative.
pub fn radiuses_are_non_negative(radiuses: &[Option<i64>]) -> (ok: bool)
    ensures
        ok == radiuses_non_negative(radiuses@),
{
    let mut i: usize = 0;
    while i < radiuses.len()
        invariant
            i <= radiuses.len(),
            forall|k: int| 0 <= k < i ==> (#[trigger] radiuses@[k] matches Some(r) ==> r >= 0),
        decreases radiuses.len() - i,
    {
        if let Some(r) = radiuses[i] {
            if r < 0 {
                return false;
            }
        }
        i += 1;
    }
    true
}

/// Decides whether all exclusions belong to one profile.
pub fn excludes_share_profile(exclude: &[Exclude]) -> (ok: bool)
    ensures
        ok == one_profile(exclude@),
{
    if exclude.len() == 0 {
        return true;
    }
    let car = matches!(exclude[0], Exclude::Car(_));
    let mut i: usize = 0;
    while i < exclude.len()
        invariant
            i <= exclude.len(),
            exclude.len() > 0,
            car == (exclude@[0] is Car),
            forall|k: int| 0 <= k < i ==> (#[trigger] exclude@[k]).same_profile(exclude@[0]),
        decreases exclude.len() - i,
    {
        if matches!(exclude[i], Exclude::Car(_)) != car {
            return false;
        }
        i += 1;
    }
    true
}

/// Decides whether no timestamp is smaller than the one before it.
pub fn timestamps_ascend(timestamps: &[u64]) -> (ok: bool)
    ensures
        ok == ascending(timestamps@),
{
    if timestamps.len() < 2 {
        return true;
    }
    let mut i: usize = 1;
    while i < timestamps.len()
        invariant
            1 <= i <= timestamps.len(),
            forall|a: int, b: int| 0 <= a <= b < i ==> timestamps@[a] <= timestamps@[b],
        decreases timestamps.len() - i,
    {
        if timestamps[i - 1] > timestamps[i] {
            return false;
        }
        i += 1;
    }
    true
}

/// The greatest of the indices, and zero where there is none.
pub fn greatest_index(indices: &[usize]) -> (max: usize)
    ensures
        max == greatest(indices@),
{
    if indices.len() == 0 {
        return 0;
    }
    let mut max: usize = indices[0];
    let mut i: usize = 1;
    proof {
        assert(greatest(indices@.take(1).drop_last()) == 0);
    }
    while i < indices.len()
        invariant
            1 <= i <= indices.len(),
            max == greatest(indices@.take(i as int)),
        decreases indices.len() - i,
    {
        proof {
            assert(indices@.take(i + 1).drop_last() =~= indices@.take(i as int));
        }
        if indices[i] >= max {
            max = indices[i];
        }
        i += 1;
    }
    proof {
        assert(indices@.take(i as int) =~= indices@);
    }
    max
}

} // verus!
