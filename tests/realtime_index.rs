use gtfs_realtime_core::date::ServiceDate;
use gtfs_realtime_core::feed::{
    FeedEntity, FeedHeader, FeedMessage, StopTimeEvent, StopTimeUpdate, TripUpdate, VehicleDescriptor,
};
use gtfs_realtime_core::realtime::{RealtimeQueryKey, RealtimeUpdate, RealtimeUpdateManager};
use gtfs_realtime_core::trip_descriptor::TripDescriptor;

fn h() -> FeedHeader {
    FeedHeader {
        gtfs_realtime_version: "2.0".into(),
        incrementality: None,
        timestamp: None,
    }
}

fn tu(
    ti: &str,
    start_date: &str,
    stu: Vec<StopTimeUpdate>,
    vehicle: Option<VehicleDescriptor>,
) -> FeedEntity {
    FeedEntity {
        id: "i".into(),
        is_deleted: None,
        alert: None,
        trip_update: Some(TripUpdate {
            trip: TripDescriptor {
                trip_id: Some(ti.into()),
                route_id: None,
                direction_id: None,
                start_time: None,
                start_date: Some(start_date.into()),
                schedule_relationship: None,
            },
            vehicle,
            stop_time_update: stu,
            timestamp: None,
            delay: None,
        }),
    }
}

fn date(year: i32, month: u32, day: u32) -> ServiceDate {
    ServiceDate { year, month, day }
}

fn r(start_date: ServiceDate, ti: &str, stop_sequence: u32) -> RealtimeQueryKey<'_> {
    RealtimeQueryKey {
        start_date,
        trip_id: ti,
        stop_sequence,
    }
}

fn stu_delay(s: u32, delay: Option<i32>, schedule_relationship: Option<i32>) -> StopTimeUpdate {
    StopTimeUpdate {
        stop_sequence: Some(s),
        stop_id: None,
        arrival: None,
        departure: Some(StopTimeEvent {
            delay,
            time: None,
            uncertainty: None,
        }),
        schedule_relationship,
    }
}

fn v(id: &str, label: &str) -> VehicleDescriptor {
    VehicleDescriptor {
        id: Some(id.into()),
        label: Some(label.into()),
        license_plate: None,
    }
}

fn plain(delay: Option<i32>, schedule_relationship: Option<i32>) -> RealtimeUpdate {
    RealtimeUpdate {
        delay,
        schedule_relationship,
        vehicle: None,
    }
}

#[test]
fn delays() {
    let feed = FeedMessage {
        header: h(),
        entity: vec![
            tu(
                "trip1",
                "20200101",
                vec![stu_delay(2, Some(20), None), stu_delay(5, Some(-10), None)],
                None,
            ),
            tu(
                "trip2",
                "20200101",
                vec![stu_delay(1, Some(180), Some(0))],
                None,
            ),
        ],
    };

    let mut m = RealtimeUpdateManager::new();
    m.load_feed(feed);
    assert_eq!(
        m.get_realtime_updates(vec![r(date(2020, 1, 1), "trip1", 1)]),
        vec![Some(RealtimeUpdate {
            delay: None,
            schedule_relationship: None,
            vehicle: None,
        })]
    );
    assert_eq!(
        m.get_realtime_updates(vec![r(date(2020, 1, 1), "trip1", 3)]),
        vec![Some(RealtimeUpdate {
            delay: Some(20),
            schedule_relationship: None,
            vehicle: None,
        })]
    );
    assert_eq!(
        m.get_realtime_updates(vec![r(date(2020, 1, 1), "trip1", 5)]),
        vec![Some(RealtimeUpdate {
            delay: Some(-10),
            schedule_relationship: None,
            vehicle: None,
        })]
    );

    assert_eq!(
        m.get_realtime_updates(vec![r(date(2020, 1, 1), "trip2", 3)]),
        vec![Some(RealtimeUpdate {
            delay: Some(180),
            schedule_relationship: Some(0),
            vehicle: None,
        })]
    );
    // different date
    assert_eq!(
        m.get_realtime_updates(vec![r(date(2020, 1, 2), "trip1", 5)]),
        vec![None]
    );
}

#[test]
fn vehicle_data() {
    let feed = FeedMessage {
        header: h(),
        entity: vec![tu("trip1", "20200101", vec![], Some(v("train1", "AT1345")))],
    };

    let mut m = RealtimeUpdateManager::new();
    m.load_feed(feed);

    assert_eq!(
        m.get_realtime_updates(vec![r(date(2020, 1, 1), "trip1", 2)]),
        vec![Some(RealtimeUpdate {
            delay: None,
            schedule_relationship: None,
            vehicle: Some(v("train1", "AT1345")),
        })]
    );
}

fn two_trip_feed() -> FeedMessage {
    FeedMessage {
        header: h(),
        entity: vec![
            tu(
                "trip1",
                "20200101",
                vec![stu_delay(2, Some(20), None), stu_delay(5, Some(-10), None)],
                None,
            ),
            tu("trip2", "20200101", vec![stu_delay(1, Some(180), Some(0))], None),
        ],
    }
}

#[test]
fn rebuild_from_same_feed_answers_alike() {
    let keys = || {
        vec![
            r(date(2020, 1, 1), "trip1", 1),
            r(date(2020, 1, 1), "trip1", 3),
            r(date(2020, 1, 1), "trip1", 9),
            r(date(2020, 1, 1), "trip2", 1),
            r(date(2020, 1, 1), "trip3", 1),
        ]
    };
    let mut m = RealtimeUpdateManager::new();
    m.load_feed(two_trip_feed());
    let first = m.get_realtime_updates(keys());
    m.load_feed(two_trip_feed());
    let second = m.get_realtime_updates(keys());
    assert_eq!(first, second);
    assert_eq!(second[2], Some(plain(Some(-10), None)));
}

#[test]
fn rebuild_drops_previous_content() {
    let mut m = RealtimeUpdateManager::new();
    m.load_feed(two_trip_feed());
    let only_trip2 = FeedMessage {
        header: h(),
        entity: vec![tu("trip2", "20200101", vec![stu_delay(1, Some(60), None)], None)],
    };
    m.load_feed(only_trip2);
    assert_eq!(m.get_realtime_update(date(2020, 1, 1), "trip1", 3), None);
    assert_eq!(
        m.get_realtime_update(date(2020, 1, 1), "trip2", 3),
        Some(plain(Some(60), None))
    );
}

#[test]
fn service_dates_do_not_leak() {
    let feed = FeedMessage {
        header: h(),
        entity: vec![
            tu("T", "20200101", vec![stu_delay(1, Some(30), None)], None),
            tu("T", "20200102", vec![stu_delay(1, Some(-45), Some(1))], None),
        ],
    };
    let mut m = RealtimeUpdateManager::new();
    m.load_feed(feed);
    assert_eq!(
        m.get_realtime_update(date(2020, 1, 1), "T", 4),
        Some(plain(Some(30), None))
    );
    assert_eq!(
        m.get_realtime_update(date(2020, 1, 2), "T", 4),
        Some(plain(Some(-45), Some(1)))
    );
    assert_eq!(m.get_realtime_update(date(2020, 1, 3), "T", 4), None);
}

#[test]
fn later_entity_for_same_trip_wins() {
    let feed = FeedMessage {
        header: h(),
        entity: vec![
            tu("T", "20200101", vec![stu_delay(1, Some(30), None)], None),
            tu("T", "20200101", vec![stu_delay(1, Some(90), None)], None),
        ],
    };
    let mut m = RealtimeUpdateManager::new();
    m.load_feed(feed);
    assert_eq!(
        m.get_realtime_update(date(2020, 1, 1), "T", 1),
        Some(plain(Some(90), None))
    );
}

#[test]
fn forward_propagation_scenario() {
    let mut m = RealtimeUpdateManager::new();
    m.load_feed(two_trip_feed());
    let got = m.get_realtime_updates(vec![
        r(date(2020, 1, 1), "trip1", 1),
        r(date(2020, 1, 1), "trip1", 3),
        r(date(2020, 1, 1), "trip1", 5),
    ]);
    assert_eq!(
        got,
        vec![
            Some(plain(None, None)),
            Some(plain(Some(20), None)),
            Some(plain(Some(-10), None)),
        ]
    );
}

#[test]
fn departure_delay_with_skipped_relationship() {
    let mut m = RealtimeUpdateManager::new();
    m.load_feed(two_trip_feed());
    assert_eq!(
        m.get_realtime_update(date(2020, 1, 1), "trip2", 1),
        Some(plain(Some(180), Some(0)))
    );
    assert_eq!(
        m.get_realtime_update(date(2020, 1, 1), "trip2", 40),
        Some(plain(Some(180), Some(0)))
    );
}

#[test]
fn unknown_trip_in_batch_is_none() {
    let mut m = RealtimeUpdateManager::new();
    m.load_feed(two_trip_feed());
    let got = m.get_realtime_updates(vec![
        r(date(2020, 1, 1), "trip1", 3),
        r(date(2020, 1, 1), "nowhere", 3),
        r(date(2020, 1, 1), "trip2", 3),
    ]);
    assert_eq!(
        got,
        vec![
            Some(plain(Some(20), None)),
            None,
            Some(plain(Some(180), Some(0))),
        ]
    );
}

#[test]
fn arrival_delay_used_without_departure() {
    let arrival_only = StopTimeUpdate {
        stop_sequence: Some(1),
        stop_id: None,
        arrival: Some(StopTimeEvent { delay: Some(75), time: None, uncertainty: None }),
        departure: None,
        schedule_relationship: None,
    };
    let time_only = StopTimeUpdate {
        stop_sequence: Some(4),
        stop_id: None,
        arrival: Some(StopTimeEvent { delay: None, time: Some(1_577_880_000), uncertainty: None }),
        departure: None,
        schedule_relationship: Some(2),
    };
    let feed = FeedMessage {
        header: h(),
        entity: vec![tu("A", "20200101", vec![arrival_only, time_only], None)],
    };
    let mut m = RealtimeUpdateManager::new();
    m.load_feed(feed);
    assert_eq!(m.get_realtime_update(date(2020, 1, 1), "A", 2), Some(plain(Some(75), None)));
    assert_eq!(m.get_realtime_update(date(2020, 1, 1), "A", 4), Some(plain(None, Some(2))));
}

#[test]
fn update_without_stop_sequence_is_always_in_force() {
    let mut no_seq = stu_delay(0, Some(5), None);
    no_seq.stop_sequence = None;
    let feed = FeedMessage {
        header: h(),
        entity: vec![tu("A", "20200101", vec![stu_delay(2, Some(20), None), no_seq], None)],
    };
    let mut m = RealtimeUpdateManager::new();
    m.load_feed(feed);
    assert_eq!(m.get_realtime_update(date(2020, 1, 1), "A", 3), Some(plain(Some(5), None)));
    assert_eq!(m.get_realtime_update(date(2020, 1, 1), "A", 1), Some(plain(None, None)));
}

#[test]
fn entities_without_usable_key_are_skipped() {
    let mut no_id = tu("X", "20200101", vec![stu_delay(1, Some(1), None)], None);
    if let Some(t) = no_id.trip_update.as_mut() {
        t.trip.trip_id = None;
    }
    let mut no_date = tu("Y", "20200101", vec![stu_delay(1, Some(1), None)], None);
    if let Some(t) = no_date.trip_update.as_mut() {
        t.trip.start_date = None;
    }
    let bad_date = tu("Z", "2020-01-01", vec![stu_delay(1, Some(1), None)], None);
    let feed = FeedMessage {
        header: h(),
        entity: vec![no_id, no_date, bad_date, tu("W", "20200229", vec![], None)],
    };
    let mut m = RealtimeUpdateManager::new();
    m.load_feed(feed);
    assert_eq!(m.get_realtime_update(date(2020, 1, 1), "Y", 1), None);
    assert_eq!(m.get_realtime_update(date(2020, 1, 1), "Z", 1), None);
    assert_eq!(m.get_realtime_update(date(2020, 2, 29), "W", 1), Some(plain(None, None)));
}

#[test]
fn empty_index_answers_none() {
    let m = RealtimeUpdateManager::new();
    assert_eq!(m.get_realtime_updates(vec![]), vec![]);
    assert_eq!(m.get_realtime_update(date(2020, 1, 1), "trip1", 1), None);
}

#[test]
fn vehicle_duplicate_is_equal() {
    let a = VehicleDescriptor { id: Some("x".into()), label: None, license_plate: Some("P".into()) };
    assert_eq!(a.duplicate(), a);
}
