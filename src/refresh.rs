use vstd::prelude::*;
use std::sync::Arc;
use crate::date::ServiceDate;
use crate::realtime::RealtimeUpdateManager;

verus! {

/// Seconds between two refreshes of the realtime feed.
pub const REFRESH_INTERVAL_SECONDS: u64 = 30;

/// Seconds to wait before reading the feed configuration again after it
/// could not be read.
pub const CONFIG_RETRY_SECONDS: u64 = 1;

/// Holds the index that queries are answered from. A new index is built
/// apart and published whole, so a reader sees one snapshot or the next,
/// never a mix; a reader keeps the handle it took while a publish happens.
pub struct RefreshCoordinator {
    current: Arc<RealtimeUpdateManager>,
}

impl RefreshCoordinator {
    /// The published index.
    pub closed spec fn index(&self) -> RealtimeUpdateManager {
        *self.current
    }

    /// The published index is well formed.
    pub open spec fn wf(&self) -> bool {
        self.index().wf()
    }

    /// Starts with an empty index.
    pub fn new() -> (r: Self)
        ensures
            r.wf(),
            forall|d: ServiceDate, id: Seq<char>, s: u32| #[trigger] r.index().answer(d, id, s) is None,
    {
        let m = RealtimeUpdateManager::new();
        RefreshCoordinator { current: Arc::new(m) }
    }

    /// Makes `index` the one that every later `current` hands out.
    pub fn publish(&mut self, index: RealtimeUpdateManager)
        requires
            index.wf(),
        ensures
            final(self).index() == index,
            final(self).wf(),
    {
        self.current = Arc::new(index);
    }

    /// A handle to the published index, valid however long it is held.
    pub fn current(&self) -> (r: Arc<RealtimeUpdateManager>)
        ensures
            *r == self.index(),
    {
        Arc::clone(&self.current)
    }
}

/// Where the refresh activity stands.
#[derive(Clone, Copy, Debug, PartialEq, Eq, Structural)]
pub enum RefreshState {
    /// Reading the feed configuration.
    ReadingConfig,
    /// Waiting before reading the configuration again.
    BackingOff,
    /// A fetch and the interval timer are both running.
    Fetching,
    /// The fetch is over; waiting for the timer.
    WaitingForTick,
}

/// What the refresh activity observed.
#[derive(Clone, Copy, Debug, PartialEq, Eq, Structural)]
pub enum RefreshEvent {
    ConfigLoaded,
    ConfigFailed,
    BackoffElapsed,
    FeedFetched,
    FetchFailed,
    TimerFired,
}

/// What the refresh activity does next.
#[derive(Clone, Copy, Debug, PartialEq, Eq, Structural)]
pub enum RefreshAction {
    /// Start a fetch and, beside it, the wait for the next tick.
    StartFetch,
    /// Wait `CONFIG_RETRY_SECONDS`.
    Backoff,
    /// Read the feed configuration.
    ReadConfig,
    /// Build an index from the fetched snapshot and publish it.
    Publish,
    /// Keep serving the published index.
    KeepCurrent,
    /// Drop the fetch still running, then read the configuration.
    CancelFetch,
    /// Nothing to do for an event that does not belong to the state.
    Ignore,
}

/// One decision of the refresh activity. A fetch starts only from a freshly
/// read configuration, so two never overlap; only a fetched snapshot is
/// published; a failure keeps the published index; the timer ends a fetch
/// still running.
pub fn refresh_step(state: RefreshState, event: RefreshEvent) -> (r: (RefreshState, RefreshAction))
    ensures
        r == match (state, event) {
            (RefreshState::ReadingConfig, RefreshEvent::ConfigLoaded) => (RefreshState::Fetching, RefreshAction::StartFetch),
            (RefreshState::ReadingConfig, RefreshEvent::ConfigFailed) => (RefreshState::BackingOff, RefreshAction::Backoff),
            (RefreshState::BackingOff, RefreshEvent::BackoffElapsed) => (RefreshState::ReadingConfig, RefreshAction::ReadConfig),
            (RefreshState::Fetching, RefreshEvent::FeedFetched) => (RefreshState::WaitingForTick, RefreshAction::Publish),
            (RefreshState::Fetching, RefreshEvent::FetchFailed) => (RefreshState::WaitingForTick, RefreshAction::KeepCurrent),
            (RefreshState::Fetching, RefreshEvent::TimerFired) => (RefreshState::ReadingConfig, RefreshAction::CancelFetch),
            (RefreshState::WaitingForTick, RefreshEvent::TimerFired) => (RefreshState::ReadingConfig, RefreshAction::ReadConfig),
            _ => (state, RefreshAction::Ignore),
        },
        r.1 == RefreshAction::StartFetch ==> state != RefreshState::Fetching,
        r.1 == RefreshAction::Publish <==> (state == RefreshState::Fetching && event == RefreshEvent::FeedFetched),
{
    match (state, event) {
        (RefreshState::ReadingConfig, RefreshEvent::ConfigLoaded) => (RefreshState::Fetching, RefreshAction::StartFetch),
        (RefreshState::ReadingConfig, RefreshEvent::ConfigFailed) => (RefreshState::BackingOff, RefreshAction::Backoff),
        (RefreshState::BackingOff, RefreshEvent::BackoffElapsed) => (RefreshState::ReadingConfig, RefreshAction::ReadConfig),
        (RefreshState::Fetching, RefreshEvent::FeedFetched) => (RefreshState::WaitingForTick, RefreshAction::Publish),
        (RefreshState::Fetching, RefreshEvent::FetchFailed) => (RefreshState::WaitingForTick, RefreshAction::KeepCurrent),
        (RefreshState::Fetching, RefreshEvent::TimerFired) => (RefreshState::ReadingConfig, RefreshAction::CancelFetch),
        (RefreshState::WaitingForTick, RefreshEvent::TimerFired) => (RefreshState::ReadingConfig, RefreshAction::ReadConfig),
        _ => (state, RefreshAction::Ignore),
    }
}

} // verus!
