//! The part of a leg, as the game publishes it, from which a race is
//! derived, and the derivation.

use crate::race::identifier::{clean_name, clean_name_of};
use crate::race::record::{
    truncated_seconds, Degrees, LatLon, Limits, LimitsView, Race, RaceView, Timestamp, Waypoint,
    WaypointView,
};
use crate::text::{decimal, push_decimal};
use vstd::prelude::*;
use vstd::string::*;

verus! {

/// The number of a race, with the number of the leg where the race has
/// more than one.
#[derive(Debug, Clone, Copy, PartialEq, Eq)]
pub struct RaceId {
    pub race_id: u16,
    pub num: Option<u8>,
}

impl RaceId {
    /// The label of the race: its number, followed by a dot and the number
    /// of the leg where there is one.
    pub open spec fn label(self) -> Seq<char> {
        match self.num {
            Some(num) => decimal(self.race_id as nat).push('.') + decimal(num as nat),
            None => decimal(self.race_id as nat),
        }
    }

    /// Writes the label of the race.
    pub fn into(self) -> (label: String)
        ensures
            label@ == self.label(),
    {
        let mut label = String::new();
        push_decimal(&mut label, self.race_id as u64);
        assert(label@ =~= decimal(self.race_id as nat));
        match self.num {
            Some(num) => {
                label.push('.');
                push_decimal(&mut label, num as u64);
            },
            None => {},
        }
        label
    }
}

/// How a checkpoint is shown on the map.
#[derive(Debug, Clone, Copy, PartialEq, Eq, Structural)]
pub enum Display {
    /// Not shown.
    Hidden,
    Buoy,
    Gate,
}

/// The side on which a checkpoint is to be left.
#[derive(Debug, Clone, Copy, PartialEq, Eq, Structural)]
pub enum Side {
    Stbd,
    Port,
}

/// A checkpoint of the course: a line between two points.
#[derive(Debug, Clone, Copy, PartialEq, Eq)]
pub struct Checkpoint {
    pub start: LatLon,
    pub end: LatLon,
    pub display: Display,
    pub side: Side,
}

/// Where and when the leg starts. The date is in milliseconds since the
/// Unix epoch.
#[derive(Debug, Clone, Copy, PartialEq, Eq)]
pub struct Start {
    pub lat: Degrees,
    pub lon: Degrees,
    pub date: i64,
}

impl Start {
    /// The point of the start.
    pub open spec fn position(self) -> LatLon {
        LatLon { lat: self.lat, lon: self.lon }
    }

    /// The point of the start.
    pub fn into(self) -> (point: LatLon)
        ensures
            point == self.position(),
    {
        LatLon { lat: self.lat, lon: self.lon }
    }
}

/// Where and when the leg ends, and how close a boat has to come. The date
/// is in milliseconds since the Unix epoch.
#[derive(Debug, Clone, Copy, PartialEq, Eq)]
pub struct End {
    pub lat: Degrees,
    pub lon: Degrees,
    pub date: i64,
    pub radius: u8,
}

impl End {
    /// The point of the finish.
    pub open spec fn position(self) -> LatLon {
        LatLon { lat: self.lat, lon: self.lon }
    }

    /// The point of the finish.
    pub fn into(self) -> (point: LatLon)
        ensures
            point == self.position(),
    {
        LatLon { lat: self.lat, lon: self.lon }
    }
}

/// The boat that sails the leg.
#[derive(Debug, Clone, Copy, PartialEq, Eq)]
pub struct Boat {
    /// The number under which the boat's polar is looked up.
    pub polar_id: u8,
}

/// A leg, as far as a race is derived from it.
#[derive(Debug, Clone, PartialEq, Eq)]
pub struct Leg {
    pub id: RaceId,
    /// The name of the race that the leg belongs to.
    pub name: String,
    pub start: Start,
    pub end: End,
    pub checkpoints: Vec<Checkpoint>,
    pub ice_limits: Limits,
    pub boat: Boat,
}

/// The mathematical value of a [`Leg`].
pub struct LegView {
    pub id: RaceId,
    pub name: Seq<char>,
    pub start: Start,
    pub end: End,
    pub checkpoints: Seq<Checkpoint>,
    pub ice_limits: LimitsView,
    pub boat: Boat,
}

impl View for Leg {
    type V = LegView;

    open spec fn view(&self) -> LegView {
        LegView {
            id: self.id,
            name: self.name@,
            start: self.start,
            end: self.end,
            checkpoints: self.checkpoints@,
            ice_limits: self.ice_limits@,
            boat: self.boat,
        }
    }
}

/// The waypoint that a checkpoint becomes: named by its place on the
/// course, counted from one, with the two ends of its line in the order in
/// which a boat that leaves it on the given side meets them.
pub open spec fn gate(place: nat, checkpoint: Checkpoint) -> WaypointView {
    WaypointView {
        name: decimal(place),
        radius: None,
        latlons: if checkpoint.side == Side::Stbd {
            seq![checkpoint.end, checkpoint.start]
        } else {
            seq![checkpoint.start, checkpoint.end]
        },
        to_avoid: None,
    }
}

/// The waypoint that the finish becomes.
pub open spec fn finish(end: End) -> WaypointView {
    WaypointView {
        name: "end"@,
        radius: Some(end.radius),
        latlons: seq![end.position()],
        to_avoid: None,
    }
}

/// The checkpoints of a course that are shown on the map.
pub open spec fn shown(checkpoints: Seq<Checkpoint>) -> Seq<Checkpoint> {
    checkpoints.filter(|checkpoint: Checkpoint| checkpoint.display != Display::Hidden)
}

/// The gates of a course: one for each checkpoint that is shown, in order.
pub open spec fn gates(checkpoints: Seq<Checkpoint>) -> Seq<WaypointView> {
    Seq::new(
        shown(checkpoints).len(),
        |i: int| gate((i + 1) as nat, shown(checkpoints)[i]),
    )
}

impl LegView {
    /// The course of the race: the gates, then the finish.
    pub open spec fn course(self) -> Seq<WaypointView> {
        gates(self.checkpoints).push(finish(self.end))
    }

    /// The race derived from the leg, under the identifier `id`. It is
    /// active, has no boat yet, and starts and ends on the whole second in
    /// which the leg does.
    pub open spec fn race(self, id: Seq<char>) -> RaceView {
        RaceView {
            id: Some(id),
            race_id: Some(self.id.label()),
            archived: false,
            name: self.name,
            short_name: Some(self.name),
            boat: Seq::empty(),
            start_time: Some(
                Timestamp { seconds: truncated_seconds(self.start.date as int) as i64 },
            ),
            end_time: Some(Timestamp { seconds: truncated_seconds(self.end.date as int) as i64 }),
            start: self.start.position(),
            waypoints: self.course(),
            ice_limits: Some(self.ice_limits),
        }
    }
}

/// The course of a leg ends at the finish, and every waypoint of it is
/// described by at least one point.
pub proof fn course_is_valid(leg: LegView, id: Seq<char>)
    ensures
        leg.race(id).valid(),
        leg.course().len() == shown(leg.checkpoints).len() + 1,
        leg.course().last() == finish(leg.end),
{
}

fn gate_of(place: usize, checkpoint: &Checkpoint) -> (waypoint: Waypoint)
    requires
        place >= 1,
    ensures
        waypoint@ == gate(place as nat, *checkpoint),
{
    let mut name = String::new();
    push_decimal(&mut name, place as u64);
    assert(name@ =~= decimal(place as nat));
    let mut latlons: Vec<LatLon> = Vec::new();
    match checkpoint.side {
        Side::Stbd => {
            latlons.push(checkpoint.end);
            latlons.push(checkpoint.start);
            assert(latlons@ =~= seq![checkpoint.end, checkpoint.start]);
        },
        _ => {
            latlons.push(checkpoint.start);
            latlons.push(checkpoint.end);
            assert(latlons@ =~= seq![checkpoint.start, checkpoint.end]);
        },
    }
    Waypoint { name, radius: None, latlons, to_avoid: None }
}

fn is_shown(checkpoint: &Checkpoint) -> (yes: bool)
    ensures
        yes == (checkpoint.display != Display::Hidden),
{
    match checkpoint.display {
        Display::Hidden => false,
        _ => true,
    }
}

fn course_of(checkpoints: &Vec<Checkpoint>, end: End) -> (course: Vec<Waypoint>)
    ensures
        course.deep_view() == gates(checkpoints@).push(finish(end)),
{
    let ghost on_map = |checkpoint: Checkpoint| checkpoint.display != Display::Hidden;
    let mut course: Vec<Waypoint> = Vec::new();
    proof {
        reveal(Seq::filter);
        assert(checkpoints@.take(0) =~= Seq::<Checkpoint>::empty());
        assert(course.deep_view() =~= gates(checkpoints@.take(0)));
    }
    let mut i: usize = 0;
    while i < checkpoints.len()
        invariant
            i <= checkpoints.len(),
            on_map == |checkpoint: Checkpoint| checkpoint.display != Display::Hidden,
            course.len() == checkpoints@.take(i as int).filter(on_map).len(),
            course.len() <= i,
            course.deep_view() == gates(checkpoints@.take(i as int)),
        decreases checkpoints.len() - i,
    {
        let checkpoint = &checkpoints[i];
        let ghost before = course.deep_view();
        let ghost seen = checkpoints@.take(i as int).filter(on_map);
        proof {
            reveal(Seq::filter);
            assert(checkpoints@.take(i + 1).drop_last() =~= checkpoints@.take(i as int));
            assert(checkpoints@.take(i + 1).last() == *checkpoint);
        }
        if is_shown(checkpoint) {
            let waypoint = gate_of(course.len() + 1, checkpoint);
            course.push(waypoint);
            proof {
                assert(checkpoints@.take(i + 1).filter(on_map) == seen.push(*checkpoint));
                assert(course.deep_view() =~= before.push(waypoint@));
                assert(gates(checkpoints@.take(i + 1)) =~= gates(checkpoints@.take(i as int)).push(
                    waypoint@,
                ));
            }
        }
        i = i + 1;
    }
    proof {
        assert(checkpoints@.take(checkpoints.len() as int) =~= checkpoints@);
    }
    let ghost gates_only = course.deep_view();
    let mut latlons: Vec<LatLon> = Vec::new();
    latlons.push(end.into());
    assert(latlons@ =~= seq![end.position()]);
    let last = Waypoint {
        name: String::from_str("end"),
        radius: Some(end.radius),
        latlons,
        to_avoid: None,
    };
    course.push(last);
    assert(course.deep_view() =~= gates_only.push(last@));
    course
}

impl Leg {
    /// The identifier of the race, derived from its name.
    pub fn clean_name(&self) -> (id: String)
        ensures
            id@ == clean_name_of(self@.name),
    {
        clean_name(self.name.as_str())
    }

    /// The race derived from the leg, under the identifier `id`.
    pub fn into_race(self, id: String) -> (race: Race)
        ensures
            race@ == self@.race(id@),
            race@.valid(),
    {
        let ghost leg = self@;
        let waypoints = course_of(&self.checkpoints, self.end);
        let name = self.name;
        let short_name = name.clone();
        let race = Race {
            id: Some(id),
            race_id: Some(self.id.into()),
            archived: false,
            name,
            short_name: Some(short_name),
            boat: String::new(),
            start_time: Some(Timestamp::from_millis(self.start.date)),
            end_time: Some(Timestamp::from_millis(self.end.date)),
            start: self.start.into(),
            waypoints,
            ice_limits: Some(self.ice_limits),
        };
        proof {
            course_is_valid(leg, id@);
        }
        race
    }

    /// The race derived from the leg, under the identifier derived from its
    /// name.
    pub fn into(self) -> (race: Race)
        ensures
            race@ == self@.race(clean_name_of(self@.name)),
            race@.valid(),
    {
        let id = self.clean_name();
        self.into_race(id)
    }
}

} // verus!
