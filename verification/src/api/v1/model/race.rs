//! A race as the interface exchanges it: a record whose identifier is known.

use crate::race::record::{LatLon, Limits, RaceView, Timestamp, Waypoint};
use vstd::prelude::*;

verus! {

/// A race as callers of the interface see it.
#[derive(Debug, Clone, PartialEq, Eq)]
pub struct Race {
    pub id: String,
    pub race_id: Option<String>,
    pub archived: bool,
    pub name: String,
    pub short_name: Option<String>,
    pub boat: String,
    pub start_time: Option<Timestamp>,
    pub end_time: Option<Timestamp>,
    pub start: LatLon,
    pub waypoints: Vec<Waypoint>,
    pub ice_limits: Option<Limits>,
}

impl View for Race {
    type V = RaceView;

    /// The record that this race is.
    open spec fn view(&self) -> RaceView {
        RaceView {
            id: Some(self.id@),
            race_id: self.race_id.deep_view(),
            archived: self.archived,
            name: self.name@,
            short_name: self.short_name.deep_view(),
            boat: self.boat@,
            start_time: self.start_time,
            end_time: self.end_time,
            start: self.start,
            waypoints: self.waypoints.deep_view(),
            ice_limits: self.ice_limits.deep_view(),
        }
    }
}

impl Race {
    /// The race that a record with an identifier is.
    pub fn from(race: crate::race::record::Race) -> (out: Race)
        requires
            race@.id is Some,
        ensures
            out@ == race@,
    {
        Race {
            id: race.id.unwrap(),
            race_id: race.race_id,
            archived: race.archived,
            name: race.name,
            short_name: race.short_name,
            boat: race.boat,
            start_time: race.start_time,
            end_time: race.end_time,
            start: race.start,
            waypoints: race.waypoints,
            ice_limits: race.ice_limits,
        }
    }

    /// The record that this race is.
    pub fn into(self) -> (race: crate::race::record::Race)
        ensures
            race@ == self@,
    {
        crate::race::record::Race {
            id: Some(self.id),
            race_id: self.race_id,
            archived: self.archived,
            name: self.name,
            short_name: self.short_name,
            boat: self.boat,
            start_time: self.start_time,
            end_time: self.end_time,
            start: self.start,
            waypoints: self.waypoints,
            ice_limits: self.ice_limits,
        }
    }
}

} // verus!
