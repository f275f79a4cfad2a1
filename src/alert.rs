use vstd::prelude::*;
use crate::trip_descriptor::TripDescriptor;

verus! {

/// A service alert, carried through a feed snapshot unread by the index.
#[derive(Clone, Debug, PartialEq)]
pub struct Alert {
    pub active_period: Vec<TimeRange>,
    pub informed_entity: Vec<EntitySelector>,
    /// Wire value of a [`Cause`].
    pub cause: Option<i32>,
    /// Wire value of an [`Effect`].
    pub effect: Option<i32>,
    pub url: Option<TranslatedString>,
    pub header_text: Option<TranslatedString>,
    pub description_text: Option<TranslatedString>,
}

#[derive(Clone, Copy, Debug, PartialEq, Eq, Hash)]
pub enum Cause {
    UnknownCause,
    OtherCause,
    TechnicalProblem,
    Strike,
    Demonstration,
    Accident,
    Holiday,
    Weather,
    Maintenance,
    Construction,
    PoliceActivity,
    MedicalEmergency,
}

#[derive(Clone, Copy, Debug, PartialEq, Eq, Hash)]
pub enum Effect {
    NoService,
    ReducedService,
    SignificantDelays,
    Detour,
    AdditionalService,
    ModifiedService,
    OtherEffect,
    UnknownEffect,
    StopMoved,
}

/// An interval of POSIX seconds; a missing bound is unbounded.
#[derive(Clone, Copy, Debug, PartialEq, Eq, Hash)]
pub struct TimeRange {
    pub start: Option<u64>,
    pub end: Option<u64>,
}

/// Selects the agencies, routes, trips or stops an alert applies to.
#[derive(Clone, Debug, PartialEq)]
pub struct EntitySelector {
    pub agency_id: Option<String>,
    pub route_id: Option<String>,
    pub route_type: Option<i32>,
    pub trip: Option<TripDescriptor>,
    pub stop_id: Option<String>,
}

/// A text in several languages.
#[derive(Clone, Debug, PartialEq)]
pub struct TranslatedString {
    pub translation: Vec<Translation>,
}

#[derive(Clone, Debug, PartialEq)]
pub struct Translation {
    pub text: String,
    /// BCP-47 language code, if known.
    pub language: Option<String>,
}

} // verus!
