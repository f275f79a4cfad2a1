use vstd::prelude::*;
use crate::alert::Alert;
use crate::trip_descriptor::TripDescriptor;

verus! {

/// One decoded realtime feed snapshot.
#[derive(Clone, Debug, PartialEq)]
pub struct FeedMessage {
    pub header: FeedHeader,
    pub entity: Vec<FeedEntity>,
}

/// Metadata of a feed snapshot.
#[derive(Clone, Debug, PartialEq)]
pub struct FeedHeader {
    pub gtfs_realtime_version: String,
    /// Wire value of an [`Incrementality`].
    pub incrementality: Option<i32>,
    /// Creation time of the snapshot, in POSIX seconds.
    pub timestamp: Option<u64>,
}

/// Whether a snapshot replaces the whole dataset or amends it.
#[derive(Clone, Copy, Debug, PartialEq, Eq, Hash)]
pub enum Incrementality {
    FullDataset,
    Differential,
}

/// One entity of a snapshot. Vehicle positions carry floating-point
/// coordinates and are not part of this model; the index reads trip updates
/// only.
#[derive(Clone, Debug, PartialEq)]
pub struct FeedEntity {
    pub id: String,
    pub is_deleted: Option<bool>,
    pub trip_update: Option<TripUpdate>,
    pub alert: Option<Alert>,
}

/// Realtime progress of one trip instance.
#[derive(Clone, Debug, PartialEq)]
pub struct TripUpdate {
    pub trip: TripDescriptor,
    pub vehicle: Option<VehicleDescriptor>,
    /// Per-stop updates, ascending by stop sequence; each applies to the
    /// following stops up to the next one given.
    pub stop_time_update: Vec<StopTimeUpdate>,
    pub timestamp: Option<u64>,
    pub delay: Option<i32>,
}

/// One predicted arrival or departure.
#[derive(Clone, Copy, Debug, PartialEq, Eq, Hash)]
pub struct StopTimeEvent {
    /// Offset from the schedule in seconds; positive when late.
    pub delay: Option<i32>,
    /// Absolute time in POSIX seconds.
    pub time: Option<i64>,
    pub uncertainty: Option<i32>,
}

/// Realtime update for one stop of a trip.
#[derive(Clone, Debug, PartialEq)]
pub struct StopTimeUpdate {
    pub stop_sequence: Option<u32>,
    pub stop_id: Option<String>,
    pub arrival: Option<StopTimeEvent>,
    pub departure: Option<StopTimeEvent>,
    /// Wire value of a [`ScheduleRelationship`].
    pub schedule_relationship: Option<i32>,
}

/// How a stop visit relates to the static schedule.
#[derive(Clone, Copy, Debug, PartialEq, Eq, Hash)]
pub enum ScheduleRelationship {
    Scheduled,
    Skipped,
    NoData,
}

/// Identifies the vehicle that serves a trip.
#[derive(Clone, Debug, PartialEq)]
pub struct VehicleDescriptor {
    pub id: Option<String>,
    pub label: Option<String>,
    pub license_plate: Option<String>,
}

/// A copy of an optional text.
fn copy_text(s: &Option<String>) -> (r: Option<String>)
    ensures
        r == *s,
{
    match s {
        Some(t) => Some(t.clone()),
        None => None,
    }
}

impl VehicleDescriptor {
    /// A field-for-field copy.
    pub fn duplicate(&self) -> (r: VehicleDescriptor)
        ensures
            r == *self,
    {
        VehicleDescriptor {
            id: copy_text(&self.id),
            label: copy_text(&self.label),
            license_plate: copy_text(&self.license_plate),
        }
    }
}

} // verus!
