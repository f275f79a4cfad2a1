use vstd::prelude::*;
use crate::date::ServiceDate;
use crate::realtime::{RealtimeUpdate, RealtimeUpdateManager};

verus! {

/// Minutes before now that a window starts at when none is asked for.
pub const DEFAULT_RANGE_START_MINUTES: u32 = 2;

/// Minutes after now that a window ends at when none is asked for.
pub const DEFAULT_RANGE_END_MINUTES: u32 = 720;

/// How far before a window the schedule is read, so that a late trip whose
/// scheduled departure lies before the window can still be corrected into it.
pub const DELAY_MARGIN_SECONDS: i64 = 1800;

/// One scheduled stop visit read from the static schedule.
#[derive(Clone, Debug, PartialEq)]
pub struct StopTimeByStop {
    pub stop_id: String,
    pub trip_id: String,
    /// Scheduled departure, in POSIX seconds.
    pub departure_time: i64,
    pub service_date: ServiceDate,
    pub stop_sequence: i32,
    pub direction_id: Option<bool>,
    pub trip_headsign: Option<String>,
    pub route_short_name: Option<String>,
    pub route_long_name: String,
    pub route_type: i32,
}

/// The departures asked for lie in `[start, end]`; the schedule is read from
/// `fetch_start` on. All in POSIX seconds.
#[derive(Clone, Copy, Debug, PartialEq, Eq)]
pub struct QueryWindow {
    pub start: i64,
    pub end: i64,
    pub fetch_start: i64,
}

/// The minutes asked for, or the default.
pub open spec fn minutes_or(m: Option<u32>, default: u32) -> int {
    match m {
        Some(v) => v as int,
        None => default as int,
    }
}

/// The window of a request made at `now`, with its bounds given in minutes
/// before and after `now`; `None` where a bound leaves the range of `i64`.
pub fn query_window(now: i64, range_start_mins: Option<u32>, range_end_mins: Option<u32>) -> (r: Option<QueryWindow>)
    ensures
        ({
            let start = now - 60 * minutes_or(range_start_mins, DEFAULT_RANGE_START_MINUTES);
            let end = now + 60 * minutes_or(range_end_mins, DEFAULT_RANGE_END_MINUTES);
            let fetch_start = start - DELAY_MARGIN_SECONDS;
            match r {
                Some(w) => w.start == start && w.end == end && w.fetch_start == fetch_start,
                None => fetch_start < i64::MIN || end > i64::MAX,
            }
        }),
{
    let before: u32 = match range_start_mins {
        Some(v) => v,
        None => DEFAULT_RANGE_START_MINUTES,
    };
    let after: u32 = match range_end_mins {
        Some(v) => v,
        None => DEFAULT_RANGE_END_MINUTES,
    };
    let start: i128 = now as i128 - before as i128 * 60;
    let end: i128 = now as i128 + after as i128 * 60;
    let fetch_start: i128 = start - DELAY_MARGIN_SECONDS as i128;
    if fetch_start < i64::MIN as i128 || end > i64::MAX as i128 {
        return None;
    }
    Some(QueryWindow { start: start as i64, end: end as i64, fetch_start: fetch_start as i64 })
}

/// A realtime answer together with the departure time it gives.
#[derive(Clone, Debug, PartialEq)]
pub struct CombinedRealtimeUpdate {
    /// Scheduled departure corrected by the delay, in POSIX seconds.
    pub departure_time: i64,
    pub realtime_update: RealtimeUpdate,
}

/// A scheduled stop visit and, where the feed has one, its realtime answer.
#[derive(Clone, Debug, PartialEq)]
pub struct TripDeparture {
    pub base: StopTimeByStop,
    pub realtime: Option<CombinedRealtimeUpdate>,
}

/// The departures at a stop, with the instant they were computed at.
#[derive(Clone, Debug, PartialEq)]
pub struct StopTimesResponse {
    pub current_time: i64,
    pub trips: Vec<TripDeparture>,
}

/// Whether instant `t` lies in the window, both ends included.
pub open spec fn in_window(t: int, w: QueryWindow) -> bool {
    w.start <= t <= w.end
}

/// The delay in seconds, zero where none is known.
pub open spec fn delay_or_zero(d: Option<i32>) -> int {
    match d {
        Some(v) => v as int,
        None => 0,
    }
}

/// What a scheduled row becomes: with a realtime answer, its departure is
/// moved by the delay; either way it stays only where its departure lies in
/// the window.
pub open spec fn departure_of(index: RealtimeUpdateManager, w: QueryWindow, row: StopTimeByStop) -> Option<TripDeparture> {
    match index.answer(row.service_date, row.trip_id@, row.stop_sequence as u32) {
        Some(rt) => {
            let t = row.departure_time + delay_or_zero(rt.delay);
            if in_window(t, w) {
                Some(TripDeparture {
                    base: row,
                    realtime: Some(CombinedRealtimeUpdate { departure_time: t as i64, realtime_update: rt }),
                })
            } else {
                None
            }
        },
        None => if in_window(row.departure_time as int, w) {
            Some(TripDeparture { base: row, realtime: None })
        } else {
            None
        },
    }
}

/// `departure_of` for each row.
pub open spec fn departures(index: RealtimeUpdateManager, w: QueryWindow) -> spec_fn(StopTimeByStop) -> Option<TripDeparture> {
    |row: StopTimeByStop| departure_of(index, w, row)
}

/// Merges scheduled rows with the realtime index: each row is corrected by
/// its delay and kept where its departure lies in the window, in the rows'
/// order.
pub fn merge_departures(rows: Vec<StopTimeByStop>, index: &RealtimeUpdateManager, window: QueryWindow, now: i64) -> (r: StopTimesResponse)
    requires
        index.wf(),
    ensures
        r.current_time == now,
        r.trips@ == rows@.filter_map(departures(*index, window)),
{
    let ghost all = rows@;
    let ghost f = departures(*index, window);
    let mut trips: Vec<TripDeparture> = Vec::new();
    for row in it: rows.into_iter()
        invariant
            it.seq() == all,
            f == departures(*index, window),
            index.wf(),
            trips@ == all.take(it.index() as int).filter_map(f),
    {
        proof {
            let seen = all.take(it.index() + 1);
            assert(seen.drop_last() == all.take(it.index() as int));
            assert(seen.last() == row);
            reveal(Seq::filter_map);
        }
        let rt = index.get_realtime_update(row.service_date, row.trip_id.as_str(), row.stop_sequence as u32);
        match rt {
            Some(rt) => {
                let delay: i64 = match rt.delay {
                    Some(d) => d as i64,
                    None => 0,
                };
                match row.departure_time.checked_add(delay) {
                    Some(t) => {
                        if window.start <= t && t <= window.end {
                            let combined = CombinedRealtimeUpdate { departure_time: t, realtime_update: rt };
                            trips.push(TripDeparture { base: row, realtime: Some(combined) });
                        }
                    },
                    None => {},
                }
            },
            None => {
                if window.start <= row.departure_time && row.departure_time <= window.end {
                    trips.push(TripDeparture { base: row, realtime: None });
                }
            },
        }
    }
    proof {
        assert(all.take(all.len() as int) == all);
    }
    StopTimesResponse { current_time: now, trips }
}

} // verus!
