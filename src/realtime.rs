use vstd::prelude::*;
use crate::date::{compact_date_of, parse_compact_date, ServiceDate};
use crate::feed::{FeedEntity, FeedMessage, StopTimeUpdate, TripUpdate, VehicleDescriptor};
use crate::trip_table::{table_clear, table_entries, table_get, table_new, table_put, table_take, DatedUpdates, TripTable};

verus! {

/// What a query reports for one scheduled stop visit.
#[derive(Clone, Debug, PartialEq)]
pub struct RealtimeUpdate {
    /// The delay in seconds.
    pub delay: Option<i32>,
    pub schedule_relationship: Option<i32>,
    pub vehicle: Option<VehicleDescriptor>,
}

/// One query: a trip instance and the stop visit asked about.
pub struct RealtimeQueryKey<'a> {
    pub start_date: ServiceDate,
    pub trip_id: &'a str,
    pub stop_sequence: u32,
}

/// Whether a stop update is in force at `stop_sequence`: it is when it names
/// no later stop. An update without a stop sequence always is.
pub open spec fn in_force_at(u: StopTimeUpdate, stop_sequence: u32) -> bool {
    match u.stop_sequence {
        Some(q) => q <= stop_sequence,
        None => true,
    }
}

/// How many updates at the front of `ups` are in force at `stop_sequence`.
pub open spec fn leading_in_force(ups: Seq<StopTimeUpdate>, stop_sequence: u32) -> nat
    decreases ups.len(),
{
    if ups.len() > 0 && in_force_at(ups[0], stop_sequence) {
        1 + leading_in_force(ups.drop_first(), stop_sequence)
    } else {
        0
    }
}

/// The update that applies at `stop_sequence`: the last of the leading run of
/// updates in force there, as updates propagate forward to the next one given.
pub open spec fn applicable_update(ups: Seq<StopTimeUpdate>, stop_sequence: u32) -> Option<StopTimeUpdate> {
    let n = leading_in_force(ups, stop_sequence);
    if n == 0 {
        None
    } else {
        Some(ups[n - 1])
    }
}

/// The delay an update gives: the departure's, else the arrival's.
pub open spec fn delay_of(u: StopTimeUpdate) -> Option<i32> {
    match u.departure {
        Some(ev) => ev.delay,
        None => match u.arrival {
            Some(ev) => ev.delay,
            None => None,
        },
    }
}

/// The answer a trip update gives for the stop at `stop_sequence`.
pub open spec fn answer_from(tu: TripUpdate, stop_sequence: u32) -> RealtimeUpdate {
    match applicable_update(tu.stop_time_update@, stop_sequence) {
        Some(u) => RealtimeUpdate {
            delay: delay_of(u),
            schedule_relationship: u.schedule_relationship,
            vehicle: tu.vehicle,
        },
        None => RealtimeUpdate { delay: None, schedule_relationship: None, vehicle: tu.vehicle },
    }
}

/// Whether a trip update names trip `id` and a start date that reads as `d`.
pub open spec fn trip_keyed(tu: TripUpdate, d: ServiceDate, id: Seq<char>) -> bool {
    match (tu.trip.trip_id, tu.trip.start_date) {
        (Some(t), Some(s)) => t@ == id && compact_date_of(s@) == Some(d.ymd()),
        _ => false,
    }
}

/// Whether a feed entity carries a trip update for trip `id` on date `d`.
pub open spec fn keyed_under(e: FeedEntity, d: ServiceDate, id: Seq<char>) -> bool {
    match e.trip_update {
        Some(tu) => trip_keyed(tu, d, id),
        None => false,
    }
}

/// The trip update that a snapshot's entities give for trip `id` on date
/// `d`: that of the last entity keyed so.
pub open spec fn snapshot_record(ents: Seq<FeedEntity>, d: ServiceDate, id: Seq<char>) -> Option<TripUpdate>
    decreases ents.len(),
{
    if ents.len() == 0 {
        None
    } else if keyed_under(ents.last(), d, id) {
        ents.last().trip_update
    } else {
        snapshot_record(ents.drop_last(), d, id)
    }
}

/// No service date occurs twice among one trip id's entries.
pub open spec fn dates_distinct(v: Seq<(ServiceDate, TripUpdate)>) -> bool {
    forall|i: int, j: int| 0 <= i < v.len() && 0 <= j < v.len() && v[i].0 == v[j].0 ==> i == j
}

/// The update stored under date `d` in one trip id's entries.
pub open spec fn dated_update(v: Seq<(ServiceDate, TripUpdate)>, d: ServiceDate) -> Option<TripUpdate> {
    if exists|i: int| 0 <= i < v.len() && v[i].0 == d {
        Some(v[choose|i: int| 0 <= i < v.len() && v[i].0 == d].1)
    } else {
        None
    }
}

proof fn lemma_leading_in_force(ups: Seq<StopTimeUpdate>, stop_sequence: u32, n: int)
    requires
        0 <= n <= ups.len(),
        forall|j: int| 0 <= j < n ==> in_force_at(#[trigger] ups[j], stop_sequence),
        n == ups.len() || !in_force_at(ups[n], stop_sequence),
    ensures
        leading_in_force(ups, stop_sequence) == n,
    decreases n,
{
    if n > 0 {
        let rest = ups.drop_first();
        assert forall|j: int| 0 <= j < n - 1 implies in_force_at(#[trigger] rest[j], stop_sequence) by {
            assert(rest[j] == ups[j + 1]);
        }
        if n < ups.len() {
            assert(rest[n - 1] == ups[n]);
        }
        lemma_leading_in_force(rest, stop_sequence, n - 1);
    }
}

/// Whether update `u` is in force at `stop_sequence`.
fn is_in_force(u: &StopTimeUpdate, stop_sequence: u32) -> (r: bool)
    ensures
        r == in_force_at(*u, stop_sequence),
{
    match u.stop_sequence {
        Some(q) => q <= stop_sequence,
        None => true,
    }
}

/// Resolves the answer a trip update gives for the stop at `stop_sequence`.
fn resolve(tu: &TripUpdate, stop_sequence: u32) -> (r: RealtimeUpdate)
    ensures
        r == answer_from(*tu, stop_sequence),
{
    let ups = &tu.stop_time_update;
    let mut n: usize = 0;
    while n < ups.len() && is_in_force(&ups[n], stop_sequence)
        invariant
            n <= ups.len(),
            forall|j: int| 0 <= j < n ==> in_force_at(#[trigger] ups@[j], stop_sequence),
        decreases ups.len() - n,
    {
        n = n + 1;
    }
    proof {
        lemma_leading_in_force(ups@, stop_sequence, n as int);
    }
    let vehicle = match &tu.vehicle {
        Some(v) => Some(v.duplicate()),
        None => None,
    };
    if n == 0 {
        return RealtimeUpdate { delay: None, schedule_relationship: None, vehicle };
    }
    let u = &ups[n - 1];
    let delay = match &u.departure {
        Some(ev) => ev.delay,
        None => match &u.arrival {
            Some(ev) => ev.delay,
            None => None,
        },
    };
    RealtimeUpdate { delay, schedule_relationship: u.schedule_relationship, vehicle }
}

/// The service date and trip id a trip update is filed under, if it names
/// both in a usable form.
fn trip_key_of(tu: &TripUpdate) -> (r: Option<(ServiceDate, String)>)
    ensures
        match r {
            Some(k) => forall|d: ServiceDate, id: Seq<char>| #[trigger] trip_keyed(*tu, d, id) <==> (d == k.0 && id == k.1@),
            None => forall|d: ServiceDate, id: Seq<char>| !#[trigger] trip_keyed(*tu, d, id),
        },
{
    match (&tu.trip.trip_id, &tu.trip.start_date) {
        (Some(id), Some(s)) => match parse_compact_date(s.as_str()) {
            Some(d) => Some((d, id.clone())),
            None => None,
        },
        _ => None,
    }
}

/// Finds the position of date `d` among one trip id's entries.
fn position_of_date(v: &DatedUpdates, d: ServiceDate) -> (r: Option<usize>)
    ensures
        match r {
            Some(i) => i < v@.len() && v@[i as int].0 == d,
            None => forall|j: int| 0 <= j < v@.len() ==> (#[trigger] v@[j]).0 != d,
        },
{
    let mut i: usize = 0;
    while i < v.len()
        invariant
            i <= v@.len(),
            forall|j: int| 0 <= j < i ==> (#[trigger] v@[j]).0 != d,
        decreases v.len() - i,
    {
        if v[i].0 == d {
            return Some(i);
        }
        i = i + 1;
    }
    None
}

proof fn lemma_dated_update_at(v: Seq<(ServiceDate, TripUpdate)>, d: ServiceDate, i: int)
    requires
        dates_distinct(v),
        0 <= i < v.len(),
        v[i].0 == d,
    ensures
        dated_update(v, d) == Some(v[i].1),
{
}

/// The index of the trip updates of one feed snapshot, keyed by service date
/// and trip id.
pub struct RealtimeUpdateManager {
    trip_updates: TripTable,
}

impl RealtimeUpdateManager {
    /// Each trip id's entries hold every service date at most once.
    pub closed spec fn wf(&self) -> bool {
        forall|id: Seq<char>| #[trigger] table_entries(self.trip_updates).contains_key(id)
            ==> dates_distinct(table_entries(self.trip_updates)[id])
    }

    /// The trip update held for trip `id` on date `d`.
    pub closed spec fn record(&self, d: ServiceDate, id: Seq<char>) -> Option<TripUpdate> {
        let t = table_entries(self.trip_updates);
        if t.contains_key(id) {
            dated_update(t[id], d)
        } else {
            None
        }
    }

    /// What a query for `(d, id, stop_sequence)` answers.
    pub open spec fn answer(&self, d: ServiceDate, id: Seq<char>, stop_sequence: u32) -> Option<RealtimeUpdate> {
        match self.record(d, id) {
            Some(tu) => Some(answer_from(tu, stop_sequence)),
            None => None,
        }
    }

    /// Whether the index holds exactly what a snapshot gives.
    pub open spec fn reflects(&self, feed: FeedMessage) -> bool {
        forall|d: ServiceDate, id: Seq<char>| #[trigger] self.record(d, id) == snapshot_record(feed.entity@, d, id)
    }

    /// An empty index.
    pub fn new() -> (r: Self)
        ensures
            r.wf(),
            forall|d: ServiceDate, id: Seq<char>| #[trigger] r.record(d, id) is None,
    {
        RealtimeUpdateManager { trip_updates: table_new() }
    }

    /// Answers one query: `None` when the index holds nothing for the trip on
    /// that date, else the update in force at the stop and the trip's vehicle.
    pub fn get_realtime_update(&self, start_date: ServiceDate, trip_id: &str, stop_sequence: u32) -> (r: Option<RealtimeUpdate>)
        requires
            self.wf(),
        ensures
            r == self.answer(start_date, trip_id@, stop_sequence),
    {
        match table_get(&self.trip_updates, trip_id) {
            None => None,
            Some(dated) => {
                assert(dates_distinct(dated@));
                match position_of_date(dated, start_date) {
                    Some(i) => {
                        proof {
                            lemma_dated_update_at(dated@, start_date, i as int);
                        }
                        Some(resolve(&dated[i].1, stop_sequence))
                    },
                    None => None,
                }
            },
        }
    }

    /// Answers a batch of queries, one result per key and in the keys' order.
    pub fn get_realtime_updates(&self, keys: Vec<RealtimeQueryKey<'_>>) -> (r: Vec<Option<RealtimeUpdate>>)
        requires
            self.wf(),
        ensures
            r@.len() == keys@.len(),
            forall|i: int| 0 <= i < keys@.len() ==> #[trigger] r@[i] == self.answer(
                keys@[i].start_date,
                keys@[i].trip_id@,
                keys@[i].stop_sequence,
            ),
    {
        let mut out: Vec<Option<RealtimeUpdate>> = Vec::new();
        let mut i: usize = 0;
        while i < keys.len()
            invariant
                self.wf(),
                i <= keys@.len(),
                out@.len() == i,
                forall|j: int| 0 <= j < i ==> #[trigger] out@[j] == self.answer(
                    keys@[j].start_date,
                    keys@[j].trip_id@,
                    keys@[j].stop_sequence,
                ),
            decreases keys.len() - i,
        {
            let k = &keys[i];
            out.push(self.get_realtime_update(k.start_date, k.trip_id, k.stop_sequence));
            i = i + 1;
        }
        out
    }

    /// Stores `tu` as the update of trip `id` on date `d`, replacing any
    /// update held for that pair.
    fn store(&mut self, d: ServiceDate, id: String, tu: TripUpdate)
        requires
            old(self).wf(),
        ensures
            final(self).wf(),
            forall|d2: ServiceDate, id2: Seq<char>| #[trigger] final(self).record(d2, id2) == if d2 == d && id2 == id@ {
                Some(tu)
            } else {
                old(self).record(d2, id2)
            },
    {
        let ghost before = table_entries(self.trip_updates);
        let mut dated: DatedUpdates = match table_take(&mut self.trip_updates, id.as_str()) {
            Some(v) => v,
            None => Vec::new(),
        };
        assert(dates_distinct(dated@));
        let ghost prev = dated@;
        let ghost mut at: int = 0;
        match position_of_date(&dated, d) {
            Some(i) => {
                dated.set(i, (d, tu));
                proof {
                    at = i as int;
                }
                assert(dated@ == prev.update(i as int, (d, tu)));
            },
            None => {
                dated.push((d, tu));
                proof {
                    at = prev.len() as int;
                }
                assert(dated@ == prev.push((d, tu)));
            },
        }
        assert(dates_distinct(dated@));
        assert(dated@[at].0 == d);
        proof {
            lemma_dated_update_at(dated@, d, at);
        }
        assert forall|d2: ServiceDate| d2 != d implies #[trigger] dated_update(dated@, d2) == dated_update(prev, d2) by {
            if exists|k: int| 0 <= k < prev.len() && prev[k].0 == d2 {
                let k = choose|k: int| 0 <= k < prev.len() && prev[k].0 == d2;
                assert(dated@[k] == prev[k]);
                lemma_dated_update_at(prev, d2, k);
                lemma_dated_update_at(dated@, d2, k);
            } else {
                assert forall|k: int| 0 <= k < dated@.len() implies (#[trigger] dated@[k]).0 != d2 by {
                    if k != at {
                        assert(dated@[k] == prev[k]);
                    }
                }
            }
        }
        assert(before.contains_key(id@) ==> prev == before[id@]);
        assert(!before.contains_key(id@) ==> prev.len() == 0);
        table_put(&mut self.trip_updates, id, dated);
    }

    /// Rebuilds the index from one feed snapshot. Entities without a trip
    /// update, a trip id or a `YYYYMMDD` start date are skipped; of two
    /// entities for one trip on one date, the later wins. Nothing of the
    /// previous content remains.
    pub fn load_feed(&mut self, feed: FeedMessage)
        requires
            old(self).wf(),
        ensures
            final(self).wf(),
            final(self).reflects(feed),
    {
        table_clear(&mut self.trip_updates);
        let ghost ents = feed.entity@;
        for entity in it: feed.entity.into_iter()
            invariant
                it.seq() == ents,
                self.wf(),
                forall|d: ServiceDate, id: Seq<char>| #[trigger] self.record(d, id) == snapshot_record(ents.take(it.index() as int), d, id),
        {
            proof {
                assert(ents.take(it.index() + 1).drop_last() == ents.take(it.index() as int));
                assert(ents.take(it.index() + 1).last() == entity);
            }
            if let Some(trip_update) = entity.trip_update {
                if let Some((start_date, trip_id)) = trip_key_of(&trip_update) {
                    self.store(start_date, trip_id, trip_update);
                }
            }
        }
        proof {
            assert(ents.take(ents.len() as int) == ents);
        }
    }
}

} // verus!

verus! {

/// Loading the same snapshot gives the same index whatever was held before:
/// two indexes that each reflect `feed` answer every query alike, so a
/// rebuild from one snapshot leaves no residue and duplicates nothing.
pub proof fn lemma_rebuild_idempotent(a: RealtimeUpdateManager, b: RealtimeUpdateManager, feed: FeedMessage)
    requires
        a.reflects(feed),
        b.reflects(feed),
    ensures
        forall|d: ServiceDate, id: Seq<char>, s: u32| #[trigger] a.answer(d, id, s) == b.answer(d, id, s),
{
    assert forall|d: ServiceDate, id: Seq<char>, s: u32| #[trigger] a.answer(d, id, s) == b.answer(d, id, s) by {
        assert(a.record(d, id) == snapshot_record(feed.entity@, d, id));
        assert(b.record(d, id) == snapshot_record(feed.entity@, d, id));
    }
}

/// Holds of the entities that carry no trip update for trip `id` on date `d`.
pub open spec fn not_keyed_under(d: ServiceDate, id: Seq<char>) -> spec_fn(FeedEntity) -> bool {
    |e: FeedEntity| !keyed_under(e, d, id)
}

/// Service dates partition a trip's updates: dropping from a snapshot every
/// entity for trip `id` on date `d2` leaves what it gives for `id` on any
/// other date `d1` unchanged.
pub proof fn lemma_service_dates_independent(ents: Seq<FeedEntity>, d1: ServiceDate, d2: ServiceDate, id: Seq<char>)
    requires
        d1 != d2,
    ensures
        snapshot_record(ents, d1, id) == snapshot_record(ents.filter(not_keyed_under(d2, id)), d1, id),
    decreases ents.len(),
{
    let pred = not_keyed_under(d2, id);
    if ents.len() > 0 {
        reveal(Seq::filter);
        lemma_service_dates_independent(ents.drop_last(), d1, d2, id);
        let sub = ents.drop_last().filter(pred);
        let e = ents.last();
        assert(ents.filter(pred) == if pred(e) { sub.push(e) } else { sub });
        if keyed_under(e, d1, id) {
            assert(!keyed_under(e, d2, id));
            assert(ents.filter(pred) == sub.push(e));
            assert(sub.push(e).drop_last() == sub);
        } else if keyed_under(e, d2, id) {
            assert(ents.filter(pred) == sub);
        } else {
            assert(ents.filter(pred) == sub.push(e));
            assert(sub.push(e).drop_last() == sub);
        }
    }
}

} // verus!

verus! {

/// A trip that no entity of the snapshot carries, on a date, has no record:
/// every query for it on that date answers `None`, whatever else the feed
/// holds.
pub proof fn lemma_unknown_trip(m: RealtimeUpdateManager, feed: FeedMessage, d: ServiceDate, id: Seq<char>, s: u32)
    requires
        m.reflects(feed),
        forall|i: int| 0 <= i < feed.entity@.len() ==> !keyed_under(#[trigger] feed.entity@[i], d, id),
    ensures
        m.answer(d, id, s) is None,
{
    lemma_absent_key(feed.entity@, d, id);
    assert(m.record(d, id) == snapshot_record(feed.entity@, d, id));
}

proof fn lemma_absent_key(ents: Seq<FeedEntity>, d: ServiceDate, id: Seq<char>)
    requires
        forall|i: int| 0 <= i < ents.len() ==> !keyed_under(#[trigger] ents[i], d, id),
    ensures
        snapshot_record(ents, d, id) is None,
    decreases ents.len(),
{
    if ents.len() > 0 {
        let rest = ents.drop_last();
        assert forall|i: int| 0 <= i < rest.len() implies !keyed_under(#[trigger] rest[i], d, id) by {
            assert(rest[i] == ents[i]);
        }
        lemma_absent_key(rest, d, id);
    }
}

} // verus!
