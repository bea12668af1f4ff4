//! The records that flow through the tracker, each with its mathematical view.

use vstd::prelude::*;

verus! {

/// A coordinate of a reported position, carried as the 64 bits of its
/// binary representation. The tracker never computes with a coordinate: it
/// hands it on exactly as the feed gave it.
#[derive(Clone, Copy, PartialEq, Eq, Structural, Debug)]
pub struct Coordinate {
    pub bits: u64,
}

impl Coordinate {
    /// The coordinate with the given bit pattern.
    pub fn from_bits(bits: u64) -> (c: Coordinate)
        ensures
            c.bits == bits,
    {
        Coordinate { bits }
    }

    /// The bit pattern of the coordinate.
    pub fn to_bits(&self) -> (bits: u64)
        ensures
            bits == self.bits,
    {
        self.bits
    }
}

/// What is known of a route: the identifier that feed entities carry, the
/// short name under which the directory files it, and its long name.
#[derive(Debug)]
pub struct RouteInfo {
    pub route_id: String,
    pub short_name: String,
    pub long_name: String,
}

/// The view of a [`RouteInfo`].
pub struct RouteInfoView {
    pub route_id: Seq<char>,
    pub short_name: Seq<char>,
    pub long_name: Seq<char>,
}

impl View for RouteInfo {
    type V = RouteInfoView;

    open spec fn view(&self) -> RouteInfoView {
        RouteInfoView {
            route_id: self.route_id@,
            short_name: self.short_name@,
            long_name: self.long_name@,
        }
    }
}

impl Clone for RouteInfo {
    fn clone(&self) -> (r: Self)
        ensures
            r@ == self@,
    {
        RouteInfo {
            route_id: self.route_id.clone(),
            short_name: self.short_name.clone(),
            long_name: self.long_name.clone(),
        }
    }
}

/// The views of a sequence of route entries, in order.
pub open spec fn routes_view(s: Seq<RouteInfo>) -> Seq<RouteInfoView> {
    s.map_values(|r: RouteInfo| r@)
}

/// One vehicle as a feed response reports it.
#[derive(Debug)]
pub struct Entity {
    pub route_id: String,
    pub latitude: Coordinate,
    pub longitude: Coordinate,
    pub timestamp: String,
    pub vehicle_id: String,
}

/// The view of an [`Entity`].
pub struct EntityView {
    pub route_id: Seq<char>,
    pub latitude: Coordinate,
    pub longitude: Coordinate,
    pub timestamp: Seq<char>,
    pub vehicle_id: Seq<char>,
}

impl View for Entity {
    type V = EntityView;

    open spec fn view(&self) -> EntityView {
        EntityView {
            route_id: self.route_id@,
            latitude: self.latitude,
            longitude: self.longitude,
            timestamp: self.timestamp@,
            vehicle_id: self.vehicle_id@,
        }
    }
}

impl Clone for Entity {
    fn clone(&self) -> (r: Self)
        ensures
            r@ == self@,
    {
        Entity {
            route_id: self.route_id.clone(),
            latitude: self.latitude,
            longitude: self.longitude,
            timestamp: self.timestamp.clone(),
            vehicle_id: self.vehicle_id.clone(),
        }
    }
}

/// The position of one vehicle of a monitored route, joined with the
/// directory's entry for that route.
#[derive(Debug)]
pub struct Location {
    pub lat: Coordinate,
    pub lon: Coordinate,
    pub ts: String,
    pub route: RouteInfo,
    pub vehicle_id: String,
}

/// The view of a [`Location`].
pub struct LocationView {
    pub lat: Coordinate,
    pub lon: Coordinate,
    pub ts: Seq<char>,
    pub route: RouteInfoView,
    pub vehicle_id: Seq<char>,
}

impl View for Location {
    type V = LocationView;

    open spec fn view(&self) -> LocationView {
        LocationView {
            lat: self.lat,
            lon: self.lon,
            ts: self.ts@,
            route: self.route@,
            vehicle_id: self.vehicle_id@,
        }
    }
}

impl Clone for Location {
    fn clone(&self) -> (r: Self)
        ensures
            r@ == self@,
    {
        Location {
            lat: self.lat,
            lon: self.lon,
            ts: self.ts.clone(),
            route: self.route.clone(),
            vehicle_id: self.vehicle_id.clone(),
        }
    }
}

/// The views of a sequence of locations, in order.
pub open spec fn locations_view(s: Seq<Location>) -> Seq<LocationView> {
    s.map_values(|l: Location| l@)
}

/// The views of a sequence of entities, in order.
pub open spec fn entities_view(s: Seq<Entity>) -> Seq<EntityView> {
    s.map_values(|e: Entity| e@)
}

/// The views of a sequence of strings, in order.
pub open spec fn strings_view(s: Seq<String>) -> Seq<Seq<char>> {
    s.map_values(|t: String| t@)
}

/// What one successful poll retains: when it was taken and the positions of
/// the monitored vehicles, in the order of the feed.
#[derive(Debug)]
pub struct Record {
    pub ts: String,
    pub locations: Vec<Location>,
}

/// The view of a [`Record`].
pub struct RecordView {
    pub ts: Seq<char>,
    pub locations: Seq<LocationView>,
}

impl View for Record {
    type V = RecordView;

    open spec fn view(&self) -> RecordView {
        RecordView { ts: self.ts@, locations: locations_view(self.locations@) }
    }
}

impl Clone for Record {
    fn clone(&self) -> (r: Self)
        ensures
            r@ == self@,
    {
        let locations = clone_locations(&self.locations);
        Record { ts: self.ts.clone(), locations }
    }
}

/// The views of a sequence of records, in order.
pub open spec fn records_view(s: Seq<Record>) -> Seq<RecordView> {
    s.map_values(|r: Record| r@)
}

/// A copy of a list of locations.
pub fn clone_locations(v: &Vec<Location>) -> (r: Vec<Location>)
    ensures
        locations_view(r@) == locations_view(v@),
{
    let mut out: Vec<Location> = Vec::new();
    let mut i: usize = 0;
    while i < v.len()
        invariant
            i <= v.len(),
            out.len() == i,
            forall|j: int| 0 <= j < i ==> out@[j]@ == v@[j]@,
        decreases v.len() - i,
    {
        out.push(v[i].clone());
        i = i + 1;
    }
    assert(locations_view(out@) =~= locations_view(v@));
    out
}

} // verus!
