//! One poll of the vehicle feed: the classification of the response, the
//! selection of the monitored vehicles, and the record that the poll leaves.

use crate::error::{Error, ErrorView};
use crate::json::{json_members, json_text, json_unsigned, member};
use crate::model::{
    entities_view, locations_view, strings_view, Entity, EntityView, Location, LocationView,
    Record, RecordView, RouteInfo, RouteInfoView,
};
use crate::snapshot::RouteSnapshot;
use crate::text::{decimal_string, decimal_text};
use vstd::prelude::*;
use vstd::string::StringExecFns;

verus! {

/// The status by which the upstream signals throttling.
pub const RATE_LIMIT_STATUS: u64 = 429;

/// What came back from one fetch of the vehicle feed.
pub enum FeedResponse {
    /// The transport failed before a payload arrived; carries its message.
    Unreachable(String),
    /// A payload arrived: its body, and the entities that the body decodes
    /// into or the decoder's message where it has not the expected shape.
    Arrived { body: serde_json::Value, entities: Result<Vec<Entity>, String> },
}

/// The view of a [`FeedResponse`]: of a payload, the status and the message
/// that its body carries at the top level, and what it decodes into.
pub enum FeedView {
    Unreachable(Seq<char>),
    Arrived {
        status: Option<u64>,
        message: Option<Seq<char>>,
        entities: Result<Seq<EntityView>, Seq<char>>,
    },
}

/// The status that a body carries out of band: its top-level member
/// `statusCode`, where that is a non-negative integer.
pub open spec fn status_code(body: serde_json::Value) -> Option<u64> {
    if json_members(body).contains_key("statusCode"@) {
        json_unsigned(json_members(body)["statusCode"@])
    } else {
        None
    }
}

/// The message that a body carries beside its status: its top-level member
/// `message`, where that is a string.
pub open spec fn status_message(body: serde_json::Value) -> Option<Seq<char>> {
    if json_members(body).contains_key("message"@) {
        json_text(json_members(body)["message"@])
    } else {
        None
    }
}

/// The view of what a body decodes into.
pub open spec fn decoded_view(entities: Result<Vec<Entity>, String>) -> Result<
    Seq<EntityView>,
    Seq<char>,
> {
    match entities {
        Ok(list) => Ok(entities_view(list@)),
        Err(m) => Err(m@),
    }
}

impl View for FeedResponse {
    type V = FeedView;

    open spec fn view(&self) -> FeedView {
        match self {
            FeedResponse::Unreachable(m) => FeedView::Unreachable(m@),
            FeedResponse::Arrived { body, entities } => FeedView::Arrived {
                status: status_code(*body),
                message: status_message(*body),
                entities: decoded_view(*entities),
            },
        }
    }
}

/// The message of a throttled response that carries none of its own.
pub open spec fn default_rate_limit_message() -> Seq<char> {
    "Rate limit exceeded"@
}

/// The classification of a payload. A payload whose status signals
/// throttling is rate limited, whatever else it holds; one that does not
/// decode is a parse failure; any other yields its entities.
pub open spec fn classified_payload(
    status: Option<u64>,
    message: Option<Seq<char>>,
    entities: Result<Seq<EntityView>, Seq<char>>,
) -> Result<Seq<EntityView>, ErrorView> {
    if status == Some(RATE_LIMIT_STATUS) {
        Err(
            ErrorView::RateLimited(
                match message {
                    Some(m) => m,
                    None => default_rate_limit_message(),
                },
            ),
        )
    } else {
        match entities {
            Ok(list) => Ok(list),
            Err(m) => Err(ErrorView::Parse(m)),
        }
    }
}

/// The classification of a response: that of its payload, or a transport
/// failure where none arrived.
pub open spec fn classified(feed: FeedView) -> Result<Seq<EntityView>, ErrorView> {
    match feed {
        FeedView::Unreachable(m) => Err(ErrorView::Transport(m)),
        FeedView::Arrived { status, message, entities } => classified_payload(
            status,
            message,
            entities,
        ),
    }
}

/// The view of the outcome of a classification.
pub open spec fn outcome_view(outcome: Result<Vec<Entity>, Error>) -> Result<
    Seq<EntityView>,
    ErrorView,
> {
    match outcome {
        Ok(list) => Ok(entities_view(list@)),
        Err(e) => Err(e@),
    }
}

/// The view of an optional text.
pub open spec fn text_view(text: Option<String>) -> Option<Seq<char>> {
    match text {
        Some(t) => Some(t@),
        None => None,
    }
}

/// Classifies a payload by the status and message that its body carries and
/// by what it decodes into.
pub fn classify(
    status: Option<u64>,
    message: Option<String>,
    entities: Result<Vec<Entity>, String>,
) -> (outcome: Result<Vec<Entity>, Error>)
    ensures
        outcome_view(outcome) == classified_payload(
            status,
            text_view(message),
            decoded_view(entities),
        ),
{
    let throttled = match status {
        Some(code) => code == RATE_LIMIT_STATUS,
        None => false,
    };
    if throttled {
        let text = match message {
            Some(m) => m,
            None => String::from_str("Rate limit exceeded"),
        };
        Err(Error::RateLimited(text))
    } else {
        match entities {
            Ok(list) => Ok(list),
            Err(m) => Err(Error::Parse(m)),
        }
    }
}

fn read_status_code(body: &serde_json::Value) -> (status: Option<u64>)
    ensures
        status == status_code(*body),
{
    match member(body, "statusCode") {
        Some(value) => value.as_u64(),
        None => None,
    }
}

fn read_status_message(body: &serde_json::Value) -> (message: Option<String>)
    ensures
        text_view(message) == status_message(*body),
{
    match member(body, "message") {
        Some(value) => match value.as_str() {
            Some(text) => Some(String::from_str(text)),
            None => None,
        },
        None => None,
    }
}

/// Classifies a response: a transport failure, a rate limit, a parse
/// failure, or the entities of the feed.
pub fn classify_response(response: FeedResponse) -> (outcome: Result<Vec<Entity>, Error>)
    ensures
        outcome_view(outcome) == classified(response@),
{
    match response {
        FeedResponse::Unreachable(m) => Err(Error::Transport(m)),
        FeedResponse::Arrived { body, entities } => {
            let status = read_status_code(&body);
            let message = read_status_message(&body);
            classify(status, message, entities)
        },
    }
}

/// The directory entry that a route id is joined with: the entry of the first
/// watched short name, in the order of the watch list, that the directory
/// files with that route id. A route id that no watched entry carries is
/// joined with nothing.
pub open spec fn joined_route(
    routes: Map<Seq<char>, RouteInfoView>,
    watched: Seq<Seq<char>>,
    route_id: Seq<char>,
) -> Option<RouteInfoView>
    decreases watched.len(),
{
    if watched.len() == 0 {
        None
    } else if routes.contains_key(watched[0]) && routes[watched[0]].route_id == route_id {
        Some(routes[watched[0]])
    } else {
        joined_route(routes, watched.drop_first(), route_id)
    }
}

/// Whether the directory files a watched short name with a route id.
pub open spec fn carries(
    routes: Map<Seq<char>, RouteInfoView>,
    watched: Seq<Seq<char>>,
    i: int,
    route_id: Seq<char>,
) -> bool {
    0 <= i < watched.len() && routes.contains_key(watched[i]) && routes[watched[i]].route_id
        == route_id
}

/// A route id is joined with an entry exactly if some watched short name is
/// filed with it, and then with the entry of the first such name: an entry
/// of the directory that has this route id.
pub proof fn lemma_joined_route(
    routes: Map<Seq<char>, RouteInfoView>,
    watched: Seq<Seq<char>>,
    route_id: Seq<char>,
)
    ensures
        joined_route(routes, watched, route_id) is Some <==> exists|i: int|
            carries(routes, watched, i, route_id),
        joined_route(routes, watched, route_id) matches Some(route) ==> exists|i: int|
            carries(routes, watched, i, route_id) && route == routes[watched[i]] && route.route_id
                == route_id && forall|j: int| 0 <= j < i ==> !carries(routes, watched, j, route_id),
    decreases watched.len(),
{
    if watched.len() > 0 {
        let rest = watched.drop_first();
        if carries(routes, watched, 0, route_id) {
        } else {
            lemma_joined_route(routes, rest, route_id);
            assert forall|i: int| carries(routes, rest, i, route_id) implies carries(
                routes,
                watched,
                i + 1,
                route_id,
            ) by {}
            if exists|i: int| carries(routes, watched, i, route_id) {
                let i = choose|i: int| carries(routes, watched, i, route_id);
                assert(carries(routes, rest, i - 1, route_id));
            }
            if joined_route(routes, watched, route_id) is Some {
                let route = joined_route(routes, watched, route_id)->0;
                let i = choose|i: int|
                    carries(routes, rest, i, route_id) && route == routes[rest[i]] && route.route_id
                        == route_id && forall|j: int|
                        0 <= j < i ==> !carries(routes, rest, j, route_id);
                assert(carries(routes, watched, i + 1, route_id));
                assert forall|j: int| 0 <= j < i + 1 implies !carries(
                    routes,
                    watched,
                    j,
                    route_id,
                ) by {
                    if j > 0 {
                        assert(!carries(routes, rest, j - 1, route_id));
                    }
                }
            }
        }
    }
}

/// The position that an entity reports, joined with a directory entry.
pub open spec fn location_of(entity: EntityView, route: RouteInfoView) -> LocationView {
    LocationView {
        lat: entity.latitude,
        lon: entity.longitude,
        ts: entity.timestamp,
        route,
        vehicle_id: entity.vehicle_id,
    }
}

/// The positions that a feed yields: one for each entity whose route id is
/// joined with a directory entry, in the order of the feed, and none for any
/// other entity.
pub open spec fn selected(
    entities: Seq<EntityView>,
    routes: Map<Seq<char>, RouteInfoView>,
    watched: Seq<Seq<char>>,
) -> Seq<LocationView>
    decreases entities.len(),
{
    if entities.len() == 0 {
        Seq::empty()
    } else {
        let front = selected(entities.drop_last(), routes, watched);
        match joined_route(routes, watched, entities.last().route_id) {
            Some(route) => front.push(location_of(entities.last(), route)),
            None => front,
        }
    }
}

/// The view of an optional directory entry.
pub open spec fn route_view(route: Option<RouteInfo>) -> Option<RouteInfoView> {
    match route {
        Some(r) => Some(r@),
        None => None,
    }
}

/// Finds the directory entry that a route id is joined with.
pub fn join_route(routes: &RouteSnapshot, watched: &Vec<String>, route_id: &String) -> (route:
    Option<RouteInfo>)
    ensures
        route_view(route) == joined_route(routes@, strings_view(watched@), route_id@),
{
    let ghost names = strings_view(watched@);
    let mut i: usize = 0;
    assert(names.skip(0) =~= names);
    while i < watched.len()
        invariant
            i <= watched.len(),
            names == strings_view(watched@),
            joined_route(routes@, names, route_id@) == joined_route(
                routes@,
                names.skip(i as int),
                route_id@,
            ),
        decreases watched.len() - i,
    {
        assert(names.skip(i as int)[0] == watched@[i as int]@);
        assert(names.skip(i as int).drop_first() =~= names.skip(i + 1));
        match routes.get(&watched[i]) {
            Some(info) => {
                if info.route_id == *route_id {
                    return Some(info.clone());
                }
            },
            None => {},
        }
        i = i + 1;
    }
    assert(names.skip(i as int).len() == 0);
    None
}

/// Selects the positions of the monitored vehicles: filters the entities of
/// a feed by the watched routes of a directory snapshot and joins each with
/// its directory entry.
pub fn select_locations(entities: &Vec<Entity>, routes: &RouteSnapshot, watched: &Vec<String>) -> (
    locations: Vec<Location>)
    ensures
        locations_view(locations@) == selected(
            entities_view(entities@),
            routes@,
            strings_view(watched@),
        ),
{
    let ghost feed = entities_view(entities@);
    let ghost names = strings_view(watched@);
    let mut locations: Vec<Location> = Vec::new();
    let mut i: usize = 0;
    assert(locations_view(locations@) =~= selected(feed.subrange(0, 0), routes@, names));
    while i < entities.len()
        invariant
            i <= entities.len(),
            feed == entities_view(entities@),
            names == strings_view(watched@),
            locations_view(locations@) == selected(feed.subrange(0, i as int), routes@, names),
        decreases entities.len() - i,
    {
        let entity = &entities[i];
        assert(feed.subrange(0, i + 1).drop_last() =~= feed.subrange(0, i as int));
        assert(feed.subrange(0, i + 1).last() == entity@);
        let ghost before = locations_view(locations@);
        match join_route(routes, watched, &entity.route_id) {
            Some(route) => {
                let location = Location {
                    lat: entity.latitude,
                    lon: entity.longitude,
                    ts: entity.timestamp.clone(),
                    route,
                    vehicle_id: entity.vehicle_id.clone(),
                };
                assert(location@ == location_of(entity@, route@));
                locations.push(location);
                assert(locations_view(locations@) =~= before.push(location@));
            },
            None => {},
        }
        i = i + 1;
    }
    assert(feed.subrange(0, i as int) =~= feed);
    locations
}

/// The record of a poll taken at a time, given in seconds since the epoch:
/// the decimal text of the time, and the positions.
pub open spec fn record_of(now: int, locations: Seq<LocationView>) -> RecordView {
    RecordView { ts: decimal_text(now), locations }
}

/// Makes the record of a poll.
pub fn record_at(now: i64, locations: Vec<Location>) -> (record: Record)
    ensures
        record@ == record_of(now as int, locations_view(locations@)),
{
    Record { ts: decimal_string(now), locations }
}

/// What a poll leaves: the failure that its response is classified as, or
/// the record of the monitored vehicles.
pub open spec fn polled(
    now: int,
    feed: FeedView,
    routes: Map<Seq<char>, RouteInfoView>,
    watched: Seq<Seq<char>>,
) -> Result<RecordView, ErrorView> {
    match classified(feed) {
        Ok(entities) => Ok(record_of(now, selected(entities, routes, watched))),
        Err(e) => Err(e),
    }
}

/// The view of what a poll leaves.
pub open spec fn poll_view(outcome: Result<Record, Error>) -> Result<RecordView, ErrorView> {
    match outcome {
        Ok(record) => Ok(record@),
        Err(e) => Err(e@),
    }
}

/// Turns the response of one fetch, taken at `now` seconds since the epoch,
/// into the record of the poll, against a snapshot of the directory and the
/// watch list.
pub fn get_location(
    now: i64,
    response: FeedResponse,
    routes: &RouteSnapshot,
    watched: &Vec<String>,
) -> (outcome: Result<Record, Error>)
    ensures
        poll_view(outcome) == polled(now as int, response@, routes@, strings_view(watched@)),
{
    match classify_response(response) {
        Ok(entities) => {
            let locations = select_locations(&entities, routes, watched);
            Ok(record_at(now, locations))
        },
        Err(e) => Err(e),
    }
}

/// What a query for the current positions answers: the failure that the
/// response is classified as, or the positions of the monitored vehicles.
pub open spec fn current(
    feed: FeedView,
    routes: Map<Seq<char>, RouteInfoView>,
    watched: Seq<Seq<char>>,
) -> Result<Seq<LocationView>, ErrorView> {
    match classified(feed) {
        Ok(entities) => Ok(selected(entities, routes, watched)),
        Err(e) => Err(e),
    }
}

/// The view of the answer to a query for the current positions.
pub open spec fn current_view(answer: Result<Vec<Location>, Error>) -> Result<
    Seq<LocationView>,
    ErrorView,
> {
    match answer {
        Ok(locations) => Ok(locations_view(locations@)),
        Err(e) => Err(e@),
    }
}

/// Answers a query for the current positions from the response of one fetch
/// made on demand. Nothing is retained.
pub fn get_current(response: FeedResponse, routes: &RouteSnapshot, watched: &Vec<String>) -> (answer:
    Result<Vec<Location>, Error>)
    ensures
        current_view(answer) == current(response@, routes@, strings_view(watched@)),
{
    match classify_response(response) {
        Ok(entities) => Ok(select_locations(&entities, routes, watched)),
        Err(e) => Err(e),
    }
}

} // verus!
