use vstd::prelude::*;

verus! {

/// Identifies one instance of a scheduled trip, or all trips along a route.
#[derive(Clone, Debug, PartialEq)]
pub struct TripDescriptor {
    /// The trip's identifier in the static schedule.
    pub trip_id: Option<String>,
    pub route_id: Option<String>,
    pub direction_id: Option<u32>,
    /// Scheduled start time, as `HH:MM:SS` (possibly past 24:00:00).
    pub start_time: Option<String>,
    /// Service date of the trip instance, as `YYYYMMDD`.
    pub start_date: Option<String>,
    /// Wire value of a [`ScheduleRelationship`].
    pub schedule_relationship: Option<i32>,
}

/// How a trip relates to the static schedule.
#[derive(Clone, Copy, Debug, PartialEq, Eq, Hash)]
pub enum ScheduleRelationship {
    Scheduled,
    Added,
    Unscheduled,
    Canceled,
}

} // verus!
