use crate::remote::{
    approach_slots, bearing_slot, bearing_slots, both_sides, closing_text, index_slots, match_url,
    nearest_url, optional, optional_approach_slots, optional_bearing_slots, optional_hint_slots,
    optional_index_slots, optional_radius_slots, optional_timestamp_slots, path_text, per_point,
    point_slots, point_text, radius_slot, radius_slots, range_slots, route_url, shared_text,
    slots_or_blanks, table_url, timestamp_slots, trip_url, Profile,
};
use crate::request_types::{Bearing, Exclude, Snapping};
use crate::services::matching::MatchRequest;
use crate::services::nearest::NearestRequest;
use crate::services::route::RouteRequest;
use crate::services::table::TableRequest;
use crate::services::trip::TripRequest;
use crate::services::{hint_texts, optional_hint_texts, optional_seq, Approach};
use crate::slots::{
    blank_slots, exclude_slots, hint_slots, lemma_pushed, push_blank_slots, push_exclude_slots,
    push_hint_slots,
};
use crate::text::{
    bool_str, decimal, decimal_string, fixed12_string, fixed6_string, join, joined, push_char,
    optional_text, shortest_string, texts,
};
use crate::Point;
use vstd::prelude::*;
use vstd::string::StringExecFns;

verus! {

/// Appends an option of a query where it is set.
fn append_optional(url: &mut String, name: &str, value: Option<String>)
    ensures
        final(url)@ == old(url)@ + optional(name@, optional_text(value)),
{
    if let Some(v) = value {
        url.append(name);
        url.append(v.as_str());
    }
    proof {
        assert(final(url)@ =~= old(url)@ + optional(name@, optional_text(value)));
    }
}

fn point_string(p: &Point) -> (res: String)
    ensures
        res@ == point_text(*p),
{
    let mut s = fixed6_string(p.longitude());
    push_char(&mut s, ',');
    let latitude = fixed6_string(p.latitude());
    s.append(latitude.as_str());
    proof {
        assert(s@ =~= point_text(*p));
    }
    s
}

fn push_point_slots(parts: &mut Vec<String>, points: &[Point])
    ensures
        texts(final(parts)@) == texts(old(parts)@) + point_slots(points@),
{
    let ghost before = parts@;
    let mut i: usize = 0;
    while i < points.len()
        invariant
            i <= points.len(),
            parts@.len() == before.len() + i,
            forall|k: int| 0 <= k < before.len() ==> parts@[k] == before[k],
            forall|j: int|
                before.len() <= j < before.len() + i ==> (#[trigger] parts@[j])@
                    == point_text(points@[j - before.len()]),
        decreases points.len() - i,
    {
        parts.push(point_string(&points[i]));
        i += 1;
    }
    proof {
        lemma_pushed(before, parts@, point_slots(points@));
    }
}

fn push_bearing_slots(parts: &mut Vec<String>, bearings: &[Option<Bearing>])
    ensures
        texts(final(parts)@) == texts(old(parts)@) + bearing_slots(bearings@),
{
    let ghost before = parts@;
    let mut i: usize = 0;
    while i < bearings.len()
        invariant
            i <= bearings.len(),
            parts@.len() == before.len() + i,
            forall|k: int| 0 <= k < before.len() ==> parts@[k] == before[k],
            forall|j: int|
                before.len() <= j < before.len() + i ==> (#[trigger] parts@[j])@
                    == bearing_slot(bearings@[j - before.len()]),
        decreases bearings.len() - i,
    {
        let slot = match &bearings[i] {
            Some(b) => b.url_form(),
            None => String::new(),
        };
        parts.push(slot);
        i += 1;
    }
    proof {
        lemma_pushed(before, parts@, bearing_slots(bearings@));
    }
}

fn push_radius_slots(parts: &mut Vec<String>, radiuses: &[Option<i64>])
    ensures
        texts(final(parts)@) == texts(old(parts)@) + radius_slots(radiuses@),
{
    let ghost before = parts@;
    let mut i: usize = 0;
    while i < radiuses.len()
        invariant
            i <= radiuses.len(),
            parts@.len() == before.len() + i,
            forall|k: int| 0 <= k < before.len() ==> parts@[k] == before[k],
            forall|j: int|
                before.len() <= j < before.len() + i ==> (#[trigger] parts@[j])@
                    == radius_slot(radiuses@[j - before.len()]),
        decreases radiuses.len() - i,
    {
        let slot = match radiuses[i] {
            Some(r) => fixed12_string(r),
            None => String::new(),
        };
        parts.push(slot);
        i += 1;
    }
    proof {
        lemma_pushed(before, parts@, radius_slots(radiuses@));
    }
}

fn push_approach_slots(parts: &mut Vec<String>, approaches: &[Approach])
    ensures
        texts(final(parts)@) == texts(old(parts)@) + approach_slots(approaches@),
{
    let ghost before = parts@;
    let mut i: usize = 0;
    while i < approaches.len()
        invariant
            i <= approaches.len(),
            parts@.len() == before.len() + i,
            forall|k: int| 0 <= k < before.len() ==> parts@[k] == before[k],
            forall|j: int|
                before.len() <= j < before.len() + i ==> (#[trigger] parts@[j])@
                    == approaches@[j - before.len()].url_text(),
        decreases approaches.len() - i,
    {
        parts.push(String::from_str(approaches[i].url_form()));
        i += 1;
    }
    proof {
        lemma_pushed(before, parts@, approach_slots(approaches@));
    }
}

fn push_timestamp_slots(parts: &mut Vec<String>, timestamps: &[u64])
    ensures
        texts(final(parts)@) == texts(old(parts)@) + timestamp_slots(timestamps@),
{
    let ghost before = parts@;
    let mut i: usize = 0;
    while i < timestamps.len()
        invariant
            i <= timestamps.len(),
            parts@.len() == before.len() + i,
            forall|k: int| 0 <= k < before.len() ==> parts@[k] == before[k],
            forall|j: int|
                before.len() <= j < before.len() + i ==> (#[trigger] parts@[j])@
                    == decimal(timestamps@[j - before.len()] as nat),
        decreases timestamps.len() - i,
    {
        parts.push(decimal_string(timestamps[i] as u128));
        i += 1;
    }
    proof {
        lemma_pushed(before, parts@, timestamp_slots(timestamps@));
    }
}

fn push_index_slots(parts: &mut Vec<String>, indices: &[usize])
    ensures
        texts(final(parts)@) == texts(old(parts)@) + index_slots(indices@),
{
    let ghost before = parts@;
    let mut i: usize = 0;
    while i < indices.len()
        invariant
            i <= indices.len(),
            parts@.len() == before.len() + i,
            forall|k: int| 0 <= k < before.len() ==> parts@[k] == before[k],
            forall|j: int|
                before.len() <= j < before.len() + i ==> (#[trigger] parts@[j])@
                    == decimal(indices@[j - before.len()] as nat),
        decreases indices.len() - i,
    {
        parts.push(decimal_string(indices[i] as u128));
        i += 1;
    }
    proof {
        lemma_pushed(before, parts@, index_slots(indices@));
    }
}

fn push_range_slots(parts: &mut Vec<String>, from: usize, count: usize)
    ensures
        texts(final(parts)@) == texts(old(parts)@) + range_slots(from as nat, count as nat),
{
    let ghost before = parts@;
    let mut i: usize = 0;
    while i < count
        invariant
            i <= count,
            parts@.len() == before.len() + i,
            forall|k: int| 0 <= k < before.len() ==> parts@[k] == before[k],
            forall|j: int|
                before.len() <= j < before.len() + i ==> (#[trigger] parts@[j])@
                    == decimal((from + j - before.len()) as nat),
        decreases count - i,
    {
        parts.push(decimal_string(from as u128 + i as u128));
        i += 1;
    }
    proof {
        lemma_pushed(before, parts@, range_slots(from as nat, count as nat));
    }
}

/// The joined places of an option that holds one place for each point,
/// where it is set.
fn waypoints_value(waypoints: Option<&[usize]>) -> (res: Option<String>)
    ensures
        optional_text(res) == per_point(optional_index_slots(optional_seq(waypoints))),
{
    match waypoints {
        Some(w) => {
            let mut parts: Vec<String> = Vec::new();
            push_index_slots(&mut parts, w);
            proof {
                assert(texts(parts@) =~= index_slots(w@));
            }
            Some(join(&parts, ";"))
        },
        None => None,
    }
}

fn timestamps_value(timestamps: Option<&[u64]>) -> (res: Option<String>)
    ensures
        optional_text(res) == per_point(optional_timestamp_slots(optional_seq(timestamps))),
{
    match timestamps {
        Some(t) => {
            let mut parts: Vec<String> = Vec::new();
            push_timestamp_slots(&mut parts, t);
            proof {
                assert(texts(parts@) =~= timestamp_slots(t@));
            }
            Some(join(&parts, ";"))
        },
        None => None,
    }
}

fn bearings_value(bearings: Option<&[Option<Bearing>]>) -> (res: Option<String>)
    ensures
        optional_text(res) == per_point(optional_bearing_slots(optional_seq(bearings))),
{
    match bearings {
        Some(b) => {
            let mut parts: Vec<String> = Vec::new();
            push_bearing_slots(&mut parts, b);
            proof {
                assert(texts(parts@) =~= bearing_slots(b@));
            }
            Some(join(&parts, ";"))
        },
        None => None,
    }
}

fn radiuses_value(radiuses: Option<&[Option<i64>]>) -> (res: Option<String>)
    ensures
        optional_text(res) == per_point(optional_radius_slots(optional_seq(radiuses))),
{
    match radiuses {
        Some(r) => {
            let mut parts: Vec<String> = Vec::new();
            push_radius_slots(&mut parts, r);
            proof {
                assert(texts(parts@) =~= radius_slots(r@));
            }
            Some(join(&parts, ";"))
        },
        None => None,
    }
}

fn hints_value(hints: Option<&[Option<&str>]>) -> (res: Option<String>)
    ensures
        optional_text(res) == per_point(optional_hint_slots(optional_hint_texts(hints))),
{
    match hints {
        Some(h) => {
            let mut parts: Vec<String> = Vec::new();
            push_hint_slots(&mut parts, h);
            proof {
                assert(texts(parts@) =~= hint_slots(hint_texts(h@)));
            }
            Some(join(&parts, ";"))
        },
        None => None,
    }
}

fn approaches_value(approaches: Option<&[Approach]>) -> (res: Option<String>)
    ensures
        optional_text(res) == per_point(optional_approach_slots(optional_seq(approaches))),
{
    match approaches {
        Some(a) => {
            let mut parts: Vec<String> = Vec::new();
            push_approach_slots(&mut parts, a);
            proof {
                assert(texts(parts@) =~= approach_slots(a@));
            }
            Some(join(&parts, ";"))
        },
        None => None,
    }
}

/// Exclusions and snapping as the end of a query.
fn closing_string(exclude: Option<&[Exclude]>, snapping: Option<Snapping>) -> (res: String)
    ensures
        res@ == closing_text(optional_seq(exclude), snapping),
{
    let excluded = match exclude {
        Some(e) => {
            let mut parts: Vec<String> = Vec::new();
            push_exclude_slots(&mut parts, e);
            proof {
                assert(texts(parts@) =~= exclude_slots(e@));
            }
            Some(join(&parts, ","))
        },
        None => None,
    };
    let snapped = match snapping {
        Some(s) => Some(String::from_str(s.url_form())),
        None => None,
    };
    let mut res = String::new();
    append_optional(&mut res, "&exclude=", excluded);
    append_optional(&mut res, "&snapping=", snapped);
    proof {
        assert(res@ =~= closing_text(optional_seq(exclude), snapping));
    }
    res
}

/// The options that the route, trip and match services share.
fn shared_string(
    waypoints: Option<&[usize]>,
    bearings: Option<&[Option<Bearing>]>,
    radiuses: Option<&[Option<i64>]>,
    hints: Option<&[Option<&str>]>,
    approaches: Option<&[Approach]>,
    exclude: Option<&[Exclude]>,
    snapping: Option<Snapping>,
) -> (res: String)
    ensures
        res@ == shared_text(
            optional_seq(waypoints),
            optional_seq(bearings),
            optional_seq(radiuses),
            optional_hint_texts(hints),
            optional_seq(approaches),
            optional_seq(exclude),
            snapping,
        ),
{
    let mut res = String::new();
    append_optional(&mut res, "&waypoints=", waypoints_value(waypoints));
    append_optional(&mut res, "&bearings=", bearings_value(bearings));
    append_optional(&mut res, "&radiuses=", radiuses_value(radiuses));
    append_optional(&mut res, "&hints=", hints_value(hints));
    append_optional(&mut res, "&approaches=", approaches_value(approaches));
    let closing = closing_string(exclude, snapping);
    res.append(closing.as_str());
    proof {
        assert(res@ =~= shared_text(
            optional_seq(waypoints),
            optional_seq(bearings),
            optional_seq(radiuses),
            optional_hint_texts(hints),
            optional_seq(approaches),
            optional_seq(exclude),
            snapping,
        ));
    }
    res
}

/// The places of the bearings of both sides of a table, where either is
/// set.
fn both_bearings(
    sources: Option<&[Option<Bearing>]>,
    source_count: usize,
    destinations: Option<&[Option<Bearing>]>,
    destination_count: usize,
) -> (res: Option<String>)
    ensures
        optional_text(res) == both_sides(
            optional_bearing_slots(optional_seq(sources)),
            source_count as nat,
            optional_bearing_slots(optional_seq(destinations)),
            destination_count as nat,
        ),
{
    if sources.is_none() && destinations.is_none() {
        return None;
    }
    let mut parts: Vec<String> = Vec::new();
    match sources {
        Some(b) => push_bearing_slots(&mut parts, b),
        None => push_blank_slots(&mut parts, source_count),
    }
    proof {
        assert(texts(parts@) =~= slots_or_blanks(
            optional_bearing_slots(optional_seq(sources)),
            source_count as nat,
        ));
    }
    match destinations {
        Some(b) => push_bearing_slots(&mut parts, b),
        None => push_blank_slots(&mut parts, destination_count),
    }
    Some(join(&parts, ";"))
}

/// The places of the radiuses of both sides of a table, where either is
/// set.
fn both_radiuses(
    sources: Option<&[Option<i64>]>,
    source_count: usize,
    destinations: Option<&[Option<i64>]>,
    destination_count: usize,
) -> (res: Option<String>)
    ensures
        optional_text(res) == both_sides(
            optional_radius_slots(optional_seq(sources)),
            source_count as nat,
            optional_radius_slots(optional_seq(destinations)),
            destination_count as nat,
        ),
{
    if sources.is_none() && destinations.is_none() {
        return None;
    }
    let mut parts: Vec<String> = Vec::new();
    match sources {
        Some(r) => push_radius_slots(&mut parts, r),
        None => push_blank_slots(&mut parts, source_count),
    }
    proof {
        assert(texts(parts@) =~= slots_or_blanks(
            optional_radius_slots(optional_seq(sources)),
            source_count as nat,
        ));
    }
    match destinations {
        Some(r) => push_radius_slots(&mut parts, r),
        None => push_blank_slots(&mut parts, destination_count),
    }
    Some(join(&parts, ";"))
}

/// The places of the hints of both sides of a table, where either is set.
fn both_hints(
    sources: Option<&[Option<&str>]>,
    source_count: usize,
    destinations: Option<&[Option<&str>]>,
    destination_count: usize,
) -> (res: Option<String>)
    ensures
        optional_text(res) == both_sides(
            optional_hint_slots(optional_hint_texts(sources)),
            source_count as nat,
            optional_hint_slots(optional_hint_texts(destinations)),
            destination_count as nat,
        ),
{
    if sources.is_none() && destinations.is_none() {
        return None;
    }
    let mut parts: Vec<String> = Vec::new();
    match sources {
        Some(h) => push_hint_slots(&mut parts, h),
        None => push_blank_slots(&mut parts, source_count),
    }
    proof {
        assert(texts(parts@) =~= slots_or_blanks(
            optional_hint_slots(optional_hint_texts(sources)),
            source_count as nat,
        ));
    }
    match destinations {
        Some(h) => push_hint_slots(&mut parts, h),
        None => push_blank_slots(&mut parts, destination_count),
    }
    Some(join(&parts, ";"))
}

/// The places of the approaches of both sides of a table, where either is
/// set.
fn both_approaches(
    sources: Option<&[Approach]>,
    source_count: usize,
    destinations: Option<&[Approach]>,
    destination_count: usize,
) -> (res: Option<String>)
    ensures
        optional_text(res) == both_sides(
            optional_approach_slots(optional_seq(sources)),
            source_count as nat,
            optional_approach_slots(optional_seq(destinations)),
            destination_count as nat,
        ),
{
    if sources.is_none() && destinations.is_none() {
        return None;
    }
    let mut parts: Vec<String> = Vec::new();
    match sources {
        Some(a) => push_approach_slots(&mut parts, a),
        None => push_blank_slots(&mut parts, source_count),
    }
    proof {
        assert(texts(parts@) =~= slots_or_blanks(
            optional_approach_slots(optional_seq(sources)),
            source_count as nat,
        ));
    }
    match destinations {
        Some(a) => push_approach_slots(&mut parts, a),
        None => push_blank_slots(&mut parts, destination_count),
    }
    Some(join(&parts, ";"))
}

/// The numerals of `count` numbers in a row from `from`, separated by
/// semicolons.
fn range_string(from: usize, count: usize) -> (res: String)
    ensures
        res@ == joined(range_slots(from as nat, count as nat), ";"@),
{
    let mut parts: Vec<String> = Vec::new();
    push_range_slots(&mut parts, from, count);
    proof {
        assert(texts(parts@) =~= range_slots(from as nat, count as nat));
    }
    join(&parts, ";")
}

/// The engine that is asked over HTTP: where it listens, and the profile
/// that queries name.
#[derive(Clone, Debug)]
pub struct OsrmEngine {
    /// The address at which the engine listens, as queries begin.
    pub endpoint: String,
    pub profile: Profile,
}

impl OsrmEngine {
    /// An engine at `endpoint`, asked with `profile`.
    ///
    /// The public host of the project picks the map by the profile. An
    /// engine that serves one map ignores it and answers for the profile
    /// with which that map was prepared.
    pub fn new(endpoint: String, profile: Profile) -> (res: Self)
        ensures
            res.endpoint@ == endpoint@,
            res.profile == profile,
    {
        Self { endpoint, profile }
    }

    /// The start of a query to `service` for the points of which `parts`
    /// holds the texts.
    fn path_string(&self, service: &str, parts: &Vec<String>, Ghost(points): Ghost<Seq<Point>>) -> (res:
        String)
        requires
            texts(parts@) == point_slots(points),
        ensures
            res@ == path_text(self.endpoint@, service@, self.profile, points),
    {
        let coordinates = join(parts, ";");
        let mut url = self.endpoint.clone();
        push_char(&mut url, '/');
        url.append(service);
        url.append("/v1/");
        url.append(self.profile.url_form());
        push_char(&mut url, '/');
        url.append(coordinates.as_str());
        proof {
            assert(url@ =~= path_text(self.endpoint@, service@, self.profile, points));
        }
        url
    }

    /// The start of a query to `service` for `points`.
    fn points_path(&self, service: &str, points: &[Point]) -> (res: String)
        ensures
            res@ == path_text(self.endpoint@, service@, self.profile, points@),
    {
        let mut parts: Vec<String> = Vec::new();
        push_point_slots(&mut parts, points);
        proof {
            assert(texts(parts@) =~= point_slots(points@));
        }
        self.path_string(service, &parts, Ghost(points@))
    }

    /// The query that asks the route service for `request`.
    pub fn route_url(&self, request: &RouteRequest) -> (url: String)
        ensures
            url@ == route_url(self.endpoint@, self.profile, request@),
    {
        let mut url = self.points_path("route", request.points());
        url.append("?alternatives=");
        url.append(bool_str(request.alternatives()));
        url.append("&steps=");
        url.append(bool_str(request.steps()));
        url.append("&geometries=");
        url.append(request.geometry().url_form());
        url.append("&overview=");
        url.append(request.overview().url_form());
        url.append("&annotations=");
        url.append(bool_str(request.annotations()));
        url.append("&continue_straight=");
        url.append(bool_str(request.continue_straight()));
        url.append("&generate_hints=");
        url.append(bool_str(request.generate_hints()));
        url.append("&skip_waypoints=");
        url.append(bool_str(request.skip_waypoints()));
        let shared = shared_string(
            request.waypoints(),
            request.bearings(),
            request.radiuses(),
            request.hints(),
            request.approaches(),
            request.exclude(),
            request.snapping(),
        );
        url.append(shared.as_str());
        url
    }

    /// The query that asks the trip service for `request`.
    pub fn trip_url(&self, request: &TripRequest) -> (url: String)
        ensures
            url@ == trip_url(self.endpoint@, self.profile, request@),
    {
        let mut url = self.points_path("trip", request.points());
        url.append("?steps=");
        url.append(bool_str(request.steps()));
        url.append("&geometries=");
        url.append(request.geometry().url_form());
        url.append("&overview=");
        url.append(request.overview().url_form());
        url.append("&annotations=");
        url.append(bool_str(request.annotations()));
        url.append("&roundtrip=");
        url.append(bool_str(request.roundtrip()));
        url.append("&source=");
        url.append(request.source().url_form());
        url.append("&destination=");
        url.append(request.destination().url_form());
        url.append("&generate_hints=");
        url.append(bool_str(request.generate_hints()));
        url.append("&skip_waypoints=");
        url.append(bool_str(request.skip_waypoints()));
        let shared = shared_string(
            request.waypoints(),
            request.bearings(),
            request.radiuses(),
            request.hints(),
            request.approaches(),
            request.exclude(),
            request.snapping(),
        );
        url.append(shared.as_str());
        url
    }

    /// The query that asks the match service for `request`.
    pub fn match_url(&self, request: &MatchRequest) -> (url: String)
        ensures
            url@ == match_url(self.endpoint@, self.profile, request@),
    {
        let mut url = self.points_path("match", request.points());
        url.append("?steps=");
        url.append(bool_str(request.steps()));
        url.append("&geometries=");
        url.append(request.geometry().url_form());
        url.append("&overview=");
        url.append(request.overview().url_form());
        url.append("&annotations=");
        url.append(bool_str(request.annotations()));
        url.append("&gaps=");
        url.append(request.gaps().url_form());
        url.append("&tidy=");
        url.append(bool_str(request.tidy()));
        url.append("&generate_hints=");
        url.append(bool_str(request.generate_hints()));
        url.append("&skip_waypoints=");
        url.append(bool_str(request.skip_waypoints()));
        append_optional(&mut url, "&timestamps=", timestamps_value(request.timestamps()));
        let shared = shared_string(
            request.waypoints(),
            request.bearings(),
            request.radiuses(),
            request.hints(),
            request.approaches(),
            request.exclude(),
            request.snapping(),
        );
        url.append(shared.as_str());
        url
    }

    /// The query that asks the nearest service for `request`.
    pub fn nearest_url(&self, request: &NearestRequest) -> (url: String)
        ensures
            url@ == nearest_url(self.endpoint@, self.profile, request@),
    {
        let mut parts: Vec<String> = Vec::new();
        parts.push(point_string(request.point()));
        proof {
            assert(texts(parts@) =~= point_slots(seq![request@.point]));
        }
        let ghost points = seq![request@.point];
        let mut url = self.path_string("nearest", &parts, Ghost(points));
        url.append("?number=");
        let number = decimal_string(request.number() as u128);
        url.append(number.as_str());
        let bearing = match request.bearing() {
            Some(b) => Some(b.url_form()),
            None => None,
        };
        append_optional(&mut url, "&bearings=", bearing);
        let radius = match request.radius() {
            Some(r) => Some(fixed12_string(r)),
            None => None,
        };
        append_optional(&mut url, "&radiuses=", radius);
        let approach = match request.approach() {
            Some(a) => Some(String::from_str(a.url_form())),
            None => None,
        };
        append_optional(&mut url, "&approaches=", approach);
        let closing = closing_string(request.exclude(), request.snapping());
        url.append(closing.as_str());
        url
    }

    /// The query that asks the table service for `request`.
    pub fn table_url(&self, request: &TableRequest) -> (url: String)
        ensures
            url@ == table_url(self.endpoint@, self.profile, request@),
    {
        let sources = request.sources();
        let destinations = request.destinations();
        let s = sources.len();
        let d = destinations.len();
        let mut parts: Vec<String> = Vec::new();
        push_point_slots(&mut parts, sources);
        push_point_slots(&mut parts, destinations);
        proof {
            assert(texts(parts@) =~= point_slots(sources@ + destinations@));
        }
        let ghost points = sources@ + destinations@;
        let mut url = self.path_string("table", &parts, Ghost(points));
        url.append("?sources=");
        let source_indices = range_string(0, s);
        url.append(source_indices.as_str());
        url.append("&destinations=");
        let destination_indices = range_string(s, d);
        url.append(destination_indices.as_str());
        url.append("&generate_hints=");
        url.append(bool_str(request.generate_hints()));
        let fallback = match (request.fallback_coordinate(), request.fallback_speed()) {
            (Some(coord), Some(speed)) => {
                let mut text = String::from_str("&fallback_speed=");
                let speed_text = shortest_string(speed);
                text.append(speed_text.as_str());
                text.append("&fallback_coordinate=");
                text.append(coord.url_form());
                text
            },
            _ => String::new(),
        };
        url.append(fallback.as_str());
        url.append("&annotations=");
        url.append(request.annotations().url_form());
        let scale = match request.scale_factor() {
            Some(f) => Some(shortest_string(f)),
            None => None,
        };
        append_optional(&mut url, "&scale_factor=", scale);
        append_optional(
            &mut url,
            "&bearings=",
            both_bearings(request.source_bearings(), s, request.destination_bearings(), d),
        );
        append_optional(
            &mut url,
            "&radiuses=",
            both_radiuses(request.source_radiuses(), s, request.destination_radiuses(), d),
        );
        append_optional(
            &mut url,
            "&hints=",
            both_hints(request.source_hints(), s, request.destination_hints(), d),
        );
        append_optional(
            &mut url,
            "&approaches=",
            both_approaches(request.source_approaches(), s, request.destination_approaches(), d),
        );
        let closing = closing_string(request.exclude(), request.snapping());
        url.append(closing.as_str());
        url
    }
}

} // verus!
