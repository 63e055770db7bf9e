//! The race record and the values it is made of.

use vstd::prelude::*;

verus! {

/// An angle in degrees, held as the bit pattern of an IEEE-754 double.
///
/// The store never computes with coordinates; it only carries them, so the
/// exact bit pattern is what has to survive.
#[derive(Debug, Clone, Copy, PartialEq, Eq)]
pub struct Degrees {
    pub bits: u64,
}

impl DeepView for Degrees {
    type V = Degrees;

    open spec fn deep_view(&self) -> Degrees {
        *self
    }
}

impl Degrees {
    /// Wraps the bit pattern of a double.
    pub fn from_bits(bits: u64) -> (angle: Degrees)
        ensures
            angle.bits == bits,
    {
        Degrees { bits }
    }

    /// The bit pattern of the double.
    pub fn to_bits(&self) -> (bits: u64)
        ensures
            bits == self.bits,
    {
        self.bits
    }
}

/// A geographic point.
#[derive(Debug, Clone, Copy, PartialEq, Eq)]
pub struct LatLon {
    pub lat: Degrees,
    pub lon: Degrees,
}

/// An instant with second precision: whole seconds since the Unix epoch, UTC.
#[derive(Debug, Clone, Copy, PartialEq, Eq)]
pub struct Timestamp {
    pub seconds: i64,
}

/// The instant that holds `millis` milliseconds since the epoch, cut down to
/// whole seconds.
pub open spec fn truncated_seconds(millis: int) -> int {
    millis / 1000
}

impl Timestamp {
    /// The instant `seconds` after the epoch.
    pub fn from_seconds(seconds: i64) -> (instant: Timestamp)
        ensures
            instant.seconds == seconds,
    {
        Timestamp { seconds }
    }

    /// The instant `millis` milliseconds after the epoch, with the part below
    /// one second dropped. An instant before the epoch moves to the start of
    /// the second it lies in.
    pub fn from_millis(millis: i64) -> (instant: Timestamp)
        ensures
            instant.seconds == truncated_seconds(millis as int),
            instant.seconds * 1000 <= millis < instant.seconds * 1000 + 1000,
    {
        if millis >= 0 {
            Timestamp { seconds: millis / 1000 }
        } else {
            // -(millis + 1) is in 0..=i64::MAX, so nothing overflows.
            let below: i64 = -(millis + 1);
            let whole: i64 = below / 1000;
            Timestamp { seconds: -whole - 1 }
        }
    }
}

/// The mathematical value of a [`Waypoint`].
pub struct WaypointView {
    pub name: Seq<char>,
    pub radius: Option<u8>,
    pub latlons: Seq<LatLon>,
    pub to_avoid: Option<Seq<Seq<Seq<Degrees>>>>,
}

/// A named control point of the course: a mark, a gate or a line.
#[derive(Debug, Clone, PartialEq, Eq)]
pub struct Waypoint {
    pub name: String,
    /// Rounding radius, where one applies.
    pub radius: Option<u8>,
    /// The points of the mark, gate or line, in order.
    pub latlons: Vec<LatLon>,
    /// Zones to keep clear of, each a polygon of coordinate lists.
    pub to_avoid: Option<Vec<Vec<Vec<Degrees>>>>,
}

impl DeepView for Waypoint {
    type V = WaypointView;

    open spec fn deep_view(&self) -> WaypointView {
        WaypointView {
            name: self.name@,
            radius: self.radius,
            latlons: self.latlons@,
            to_avoid: self.to_avoid.deep_view(),
        }
    }
}

impl View for Waypoint {
    type V = WaypointView;

    open spec fn view(&self) -> WaypointView {
        self.deep_view()
    }
}

impl WaypointView {
    /// A waypoint is described by at least one point.
    pub open spec fn valid(self) -> bool {
        self.latlons.len() >= 1
    }
}

/// The mathematical value of [`Limits`].
pub struct LimitsView {
    pub north: Seq<LatLon>,
    pub south: Seq<LatLon>,
    pub max_lat: Degrees,
    pub min_lat: Degrees,
}

/// The ice limits of a race: a northern and a southern boundary line and the
/// latitudes that bound them.
#[derive(Debug, Clone, PartialEq, Eq)]
pub struct Limits {
    pub north: Vec<LatLon>,
    pub south: Vec<LatLon>,
    pub max_lat: Degrees,
    pub min_lat: Degrees,
}

impl DeepView for Limits {
    type V = LimitsView;

    open spec fn deep_view(&self) -> LimitsView {
        LimitsView {
            north: self.north@,
            south: self.south@,
            max_lat: self.max_lat,
            min_lat: self.min_lat,
        }
    }
}

impl View for Limits {
    type V = LimitsView;

    open spec fn view(&self) -> LimitsView {
        self.deep_view()
    }
}

/// The mathematical value of a [`Race`].
pub struct RaceView {
    pub id: Option<Seq<char>>,
    pub race_id: Option<Seq<char>>,
    pub archived: bool,
    pub name: Seq<char>,
    pub short_name: Option<Seq<char>>,
    pub boat: Seq<char>,
    pub start_time: Option<Timestamp>,
    pub end_time: Option<Timestamp>,
    pub start: LatLon,
    pub waypoints: Seq<WaypointView>,
    pub ice_limits: Option<LimitsView>,
}

/// A race definition.
///
/// `id` and `archived` are not part of what a file holds: the store derives
/// both from where the file lies and overwrites them on every read.
#[derive(Debug, Clone, PartialEq, Eq)]
pub struct Race {
    pub id: Option<String>,
    /// A label given by whoever organises the race; never used for lookup.
    pub race_id: Option<String>,
    pub archived: bool,
    pub name: String,
    pub short_name: Option<String>,
    pub boat: String,
    pub start_time: Option<Timestamp>,
    pub end_time: Option<Timestamp>,
    pub start: LatLon,
    /// The course, in the order in which it is sailed.
    pub waypoints: Vec<Waypoint>,
    pub ice_limits: Option<Limits>,
}

impl DeepView for Race {
    type V = RaceView;

    open spec fn deep_view(&self) -> RaceView {
        RaceView {
            id: self.id.deep_view(),
            race_id: self.race_id.deep_view(),
            archived: self.archived,
            name: self.name@,
            short_name: self.short_name.deep_view(),
            boat: self.boat@,
            start_time: self.start_time,
            end_time: self.end_time,
            start: self.start,
            waypoints: self.waypoints.deep_view(),
            ice_limits: self.ice_limits.deep_view(),
        }
    }
}

impl View for Race {
    type V = RaceView;

    open spec fn view(&self) -> RaceView {
        self.deep_view()
    }
}

impl RaceView {
    /// Every waypoint of the course is described by at least one point.
    pub open spec fn valid(self) -> bool {
        forall|i: int| 0 <= i < self.waypoints.len() ==> (#[trigger] self.waypoints[i]).valid()
    }

    /// This record as the store hands it out when it was read under the
    /// identifier `id` from the active or the archived directory.
    pub open spec fn located(self, id: Seq<char>, archived: bool) -> RaceView {
        RaceView { id: Some(id), archived, ..self }
    }

    /// What a file keeps of this record: everything but the identifier and
    /// the archived flag.
    pub open spec fn content(self) -> RaceView {
        RaceView { id: None, archived: false, ..self }
    }

    /// The rank by which listings are ordered: the start time, with a record
    /// that has none ranked below every record that has one.
    pub open spec fn start_rank(self) -> int {
        match self.start_time {
            Some(instant) => instant.seconds as int,
            None => i64::MIN - 1,
        }
    }
}

impl Race {
    /// Stamps the record with the identifier and the directory it was read from.
    pub fn locate(self, id: String, archived: bool) -> (race: Race)
        ensures
            race@ == self@.located(id@, archived),
    {
        let mut race = self;
        race.id = Some(id);
        race.archived = archived;
        race
    }
}

} // verus!
