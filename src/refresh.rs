//! A cache for the active committees and the price computation, refreshed periodically and on
//! demand.
//!
//! The cache is a state machine: the task that owns it feeds it events (a timer tick, a request,
//! the outcome of a fetch, the closing of the request channel) and carries out the action that
//! each step returns. All times and durations are in milliseconds; instants are counted from a
//! common origin (the Unix epoch for wall-clock time).
use vstd::prelude::*;

use crate::committee::{
    are_current_previous_different, committees_differ, functionally_equivalent,
    lemma_same_committees_do_not_differ, previous_equivalent, ActiveCommittees, PriceComputation,
};

verus! {

/// The default interval after which a new refresh can be requested by the client.
pub const REFRESH_GRACE_PERIOD: u64 = 10_000;

/// The default maximum interval after which the cache is force-refreshed automatically.
pub const MAX_AUTO_REFRESH_INTERVAL: u64 = 30_000;

/// The default minimum interval after which the cache is force-refreshed automatically.
pub const MIN_AUTO_REFRESH_INTERVAL: u64 = 5_000;

/// The default distance from the expected epoch change below which the minimum interval is used.
pub const EPOCH_CHANGE_DISTANCE_THRS: u64 = 300_000;

/// The default size of the request channel.
pub const REFRESHER_CHANNEL_SIZE: usize = 100;

/// The configuration for the committees refresher.
#[derive(PartialEq, Eq, Structural, Clone, Copy, Debug)]
pub struct CommitteesRefreshConfig {
    /// If multiple refreshes are requested within this period of each other, only the first one
    /// is executed.
    pub refresh_grace_period: u64,
    /// The interval of the automatic refresh far from an epoch change.
    pub max_auto_refresh_interval: u64,
    /// The interval of the automatic refresh close to an epoch change.
    pub min_auto_refresh_interval: u64,
    /// The distance from the expected epoch change below which the automatic refresh switches
    /// from the maximum to the minimum interval.
    pub epoch_change_distance_threshold: u64,
    /// The capacity of the request channel.
    pub refresher_channel_size: usize,
}

impl Default for CommitteesRefreshConfig {
    fn default() -> (r: Self)
        ensures
            r.refresh_grace_period == REFRESH_GRACE_PERIOD,
            r.max_auto_refresh_interval == MAX_AUTO_REFRESH_INTERVAL,
            r.min_auto_refresh_interval == MIN_AUTO_REFRESH_INTERVAL,
            r.epoch_change_distance_threshold == EPOCH_CHANGE_DISTANCE_THRS,
            r.refresher_channel_size == REFRESHER_CHANNEL_SIZE,
    {
        CommitteesRefreshConfig {
            refresh_grace_period: REFRESH_GRACE_PERIOD,
            max_auto_refresh_interval: MAX_AUTO_REFRESH_INTERVAL,
            min_auto_refresh_interval: MIN_AUTO_REFRESH_INTERVAL,
            epoch_change_distance_threshold: EPOCH_CHANGE_DISTANCE_THRS,
            refresher_channel_size: REFRESHER_CHANNEL_SIZE,
        }
    }
}

/// How far the chain has progressed through the epoch change.
#[derive(PartialEq, Eq, Structural, Clone, Copy, Debug)]
pub enum EpochState {
    /// The epoch change is in progress; the weight of the nodes that completed their sync.
    EpochChangeSync(u16),
    /// The epoch change is done; the instant at which the current epoch started.
    EpochChangeDone(u64),
    /// The parameters of the next epoch are selected; the instant at which the current epoch
    /// started.
    NextParamsSelected(u64),
}

/// The start of the current epoch as far as it can be told: the recorded instant, or `now` while
/// the change is in progress.
pub open spec fn estimated_epoch_start(state: EpochState, now: u64) -> int {
    match state {
        EpochState::EpochChangeDone(start) => start as int,
        EpochState::NextParamsSelected(start) => start as int,
        EpochState::EpochChangeSync(_) => now as int,
    }
}

/// The expected start of the next epoch.
pub open spec fn expected_next_epoch_start(state: EpochState, epoch_duration: u64, now: u64) -> int {
    estimated_epoch_start(state, now) + epoch_duration
}

/// The time from `now` to the expected start of the next epoch, zero if that is in the past.
pub open spec fn expected_time_to_next_epoch(state: EpochState, epoch_duration: u64, now: u64) -> int {
    let d = expected_next_epoch_start(state, epoch_duration, now) - now;
    if d > 0 {
        d
    } else {
        0
    }
}

/// The interval until the next automatic refresh: the maximum one while the next epoch change is
/// further away than the threshold, the minimum one otherwise.
pub open spec fn refresh_interval(
    config: CommitteesRefreshConfig,
    state: EpochState,
    epoch_duration: u64,
    now: u64,
) -> u64 {
    if expected_time_to_next_epoch(state, epoch_duration, now) > config.epoch_change_distance_threshold {
        config.max_auto_refresh_interval
    } else {
        config.min_auto_refresh_interval
    }
}

/// The kind of request that the client can make.
#[derive(PartialEq, Eq, Structural, Clone, Copy, Debug)]
pub enum RequestKind {
    /// Get the current committees and the price computation.
    Get,
    /// Get the current committees and the price computation, refreshing the cache first.
    Refresh,
}

/// What one fetch from the chain yields: the committees, the prices and the epoch state, read
/// together.
#[derive(Clone, Debug)]
pub struct Snapshot {
    pub committees: ActiveCommittees,
    pub price: PriceComputation,
    pub epoch_state: EpochState,
}

impl Snapshot {
    /// Assembles a snapshot from what was read from the chain.
    pub fn new(
        committees: ActiveCommittees,
        storage_price: u64,
        write_price: u64,
        epoch_state: EpochState,
    ) -> (r: Self)
        ensures
            r.committees == committees,
            r.price == (PriceComputation {
                storage_price_per_unit_size: storage_price,
                write_price_per_unit_size: write_price,
            }),
            r.epoch_state == epoch_state,
    {
        Snapshot {
            committees,
            price: PriceComputation::new(storage_price, write_price),
            epoch_state,
        }
    }
}

/// What started the fetch that is in flight.
#[derive(PartialEq, Eq, Structural, Clone, Copy, Debug)]
pub enum FetchCause {
    /// The automatic refresh timer.
    Timer,
    /// A `Refresh` request, which is answered once the fetch is over.
    Request,
}

/// An event that the task owning the refresher hands to it.
#[derive(Debug)]
pub enum RefresherEvent {
    /// The automatic refresh timer fired.
    TimerFired,
    /// A request of the given kind arrived.
    Request(RequestKind),
    /// The fetch that was asked for succeeded.
    Fetched(Snapshot),
    /// The fetch that was asked for failed; the cached data stays as it is.
    FetchFailed,
    /// The request channel is closed: no handle is left.
    Closed,
}

/// What the task owning the refresher is to do after a step.
#[derive(PartialEq, Eq, Structural, Clone, Copy, Debug)]
pub enum RefresherAction {
    /// Fetch a snapshot from the chain and hand the outcome back as the next event.
    Fetch,
    /// Wake all the callers waiting for a change if `notify`, then answer the request being
    /// handled with the cached committees and price computation.
    Reply { notify: bool },
    /// Wake all the callers waiting for a change if `notify`, then wait for the next event.
    Wait { notify: bool },
    /// Stop the refresher.
    Stop,
}

/// An actor that caches the active committees and the price computation, and refreshes them
/// periodically or on demand.
#[derive(Clone, Debug)]
pub struct CommitteesRefresher {
    /// The instant of the last refresh made on request; automatic refreshes leave it alone.
    pub last_refresh: u64,
    pub last_committees: ActiveCommittees,
    pub last_price_computation: PriceComputation,
    /// Used to compute when the next epoch will likely start.
    pub epoch_state: EpochState,
    /// Used to compute when the next epoch will likely start; it cannot change, so it is read
    /// once, when the refresher is created.
    pub epoch_duration: u64,
    pub config: CommitteesRefreshConfig,
    /// The cause of the fetch in flight, if any.
    pub pending: Option<FetchCause>,
}

/// The time elapsed from `earlier` to `now`, zero if `now` comes first.
pub open spec fn elapsed(earlier: u64, now: u64) -> int {
    if now >= earlier {
        now - earlier
    } else {
        0
    }
}

/// The last refresh made on request is older than the grace period.
pub open spec fn is_stale_at(s: CommitteesRefresher, now: u64) -> bool {
    elapsed(s.last_refresh, now) > s.config.refresh_grace_period
}

/// The refresher after taking in `snapshot`, with `last_refresh` as the last refresh instant.
pub open spec fn with_snapshot(
    s: CommitteesRefresher,
    snapshot: Snapshot,
    last_refresh: u64,
) -> CommitteesRefresher {
    CommitteesRefresher {
        last_refresh,
        last_committees: snapshot.committees,
        last_price_computation: snapshot.price,
        epoch_state: snapshot.epoch_state,
        pending: None,
        ..s
    }
}

/// The refresher with the cause of the fetch in flight set to `pending`.
pub open spec fn with_pending(s: CommitteesRefresher, pending: Option<FetchCause>) -> CommitteesRefresher {
    CommitteesRefresher { pending, ..s }
}

/// One step of the refresher: the state after `event` at instant `now`, and the action to take.
///
/// A timer tick starts a fetch unless one is in flight. A `Refresh` request starts a fetch when
/// none is in flight and the last refresh on request is older than the grace period; any other
/// request is answered from the cache. A fetched snapshot replaces the cached data as a whole,
/// and the waiting callers are notified exactly when the committees differ from the cached ones;
/// a fetch made for a request sets the last refresh instant to `now`, one made for the timer
/// does not. A failed fetch leaves the cached data as it is.
pub open spec fn step_spec(
    s: CommitteesRefresher,
    event: RefresherEvent,
    now: u64,
) -> (CommitteesRefresher, RefresherAction) {
    match event {
        RefresherEvent::Closed => (s, RefresherAction::Stop),
        RefresherEvent::TimerFired => if s.pending is Some {
            (s, RefresherAction::Wait { notify: false })
        } else {
            (with_pending(s, Some(FetchCause::Timer)), RefresherAction::Fetch)
        },
        RefresherEvent::Request(kind) => if s.pending is None && kind == RequestKind::Refresh
            && is_stale_at(s, now) {
            (with_pending(s, Some(FetchCause::Request)), RefresherAction::Fetch)
        } else {
            (s, RefresherAction::Reply { notify: false })
        },
        RefresherEvent::Fetched(snapshot) => {
            let notify = committees_differ(snapshot.committees, s.last_committees);
            if s.pending == Some(FetchCause::Request) {
                (with_snapshot(s, snapshot, now), RefresherAction::Reply { notify })
            } else {
                (with_snapshot(s, snapshot, s.last_refresh), RefresherAction::Wait { notify })
            }
        },
        RefresherEvent::FetchFailed => if s.pending == Some(FetchCause::Request) {
            (with_pending(s, None), RefresherAction::Reply { notify: false })
        } else {
            (with_pending(s, None), RefresherAction::Wait { notify: false })
        },
    }
}

impl CommitteesRefresher {
    /// Creates a new refresher cache from the first snapshot, the epoch duration and the instant
    /// `now` at which they were read.
    pub fn new(
        config: CommitteesRefreshConfig,
        snapshot: Snapshot,
        epoch_duration: u64,
        now: u64,
    ) -> (r: Self)
        ensures
            r.config == config,
            r.last_refresh == now,
            r.last_committees == snapshot.committees,
            r.last_price_computation == snapshot.price,
            r.epoch_state == snapshot.epoch_state,
            r.epoch_duration == epoch_duration,
            r.pending is None,
    {
        CommitteesRefresher {
            last_refresh: now,
            last_committees: snapshot.committees,
            last_price_computation: snapshot.price,
            epoch_state: snapshot.epoch_state,
            epoch_duration,
            config,
            pending: None,
        }
    }

    /// The cached committees.
    pub fn committees(&self) -> (r: &ActiveCommittees)
        ensures
            *r == self.last_committees,
    {
        &self.last_committees
    }

    /// The cached price computation.
    pub fn price_computation(&self) -> (r: PriceComputation)
        ensures
            r == self.last_price_computation,
    {
        self.last_price_computation
    }

    /// Computes the start of the next epoch, based on current information.
    pub fn next_epoch_start(&self, now: u64) -> (r: u128)
        ensures
            r == expected_next_epoch_start(self.epoch_state, self.epoch_duration, now),
    {
        let estimated_start_of_current_epoch: u64 = match self.epoch_state {
            EpochState::EpochChangeDone(start) => start,
            EpochState::NextParamsSelected(start) => start,
            EpochState::EpochChangeSync(_) => now,
        };
        estimated_start_of_current_epoch as u128 + self.epoch_duration as u128
    }

    /// Computes the time from `now` to the start of the next epoch; zero if that start is
    /// expected in the past.
    pub fn time_to_next_epoch(&self, now: u64) -> (r: u128)
        ensures
            r == expected_time_to_next_epoch(self.epoch_state, self.epoch_duration, now),
    {
        let next = self.next_epoch_start(now);
        if next > now as u128 {
            next - now as u128
        } else {
            0
        }
    }

    /// Returns the duration until the next refresh timer: the maximum interval if the expected
    /// epoch change is more than the threshold in the future, the minimum interval otherwise.
    pub fn next_refresh_interval(&self, now: u64) -> (r: u64)
        ensures
            r == refresh_interval(self.config, self.epoch_state, self.epoch_duration, now),
    {
        if self.time_to_next_epoch(now) > self.config.epoch_change_distance_threshold as u128 {
            self.config.max_auto_refresh_interval
        } else {
            self.config.min_auto_refresh_interval
        }
    }

    /// Whether the last refresh made on request is older than the grace period.
    pub fn is_stale(&self, now: u64) -> (r: bool)
        ensures
            r == is_stale_at(*self, now),
    {
        let elapsed: u64 = if now >= self.last_refresh {
            now - self.last_refresh
        } else {
            0
        };
        elapsed > self.config.refresh_grace_period
    }

    /// Replaces the cached data with `snapshot` and returns whether the committees have changed
    /// enough to notify the clients. The last refresh instant is left alone.
    pub fn refresh(&mut self, snapshot: Snapshot) -> (r: bool)
        ensures
            r == committees_differ(snapshot.committees, old(self).last_committees),
            *final(self) == with_snapshot(*old(self), snapshot, old(self).last_refresh),
    {
        let are_different = are_current_previous_different(&snapshot.committees, &self.last_committees);
        self.last_committees = snapshot.committees;
        self.last_price_computation = snapshot.price;
        self.epoch_state = snapshot.epoch_state;
        self.pending = None;
        are_different
    }

    /// Handles one event at instant `now` and returns the action to take.
    pub fn step(&mut self, event: RefresherEvent, now: u64) -> (r: RefresherAction)
        ensures
            (*final(self), r) == step_spec(*old(self), event, now),
    {
        match event {
            RefresherEvent::Closed => RefresherAction::Stop,
            RefresherEvent::TimerFired => {
                if self.pending.is_some() {
                    RefresherAction::Wait { notify: false }
                } else {
                    self.pending = Some(FetchCause::Timer);
                    RefresherAction::Fetch
                }
            },
            RefresherEvent::Request(kind) => {
                if self.pending.is_none() && kind == RequestKind::Refresh && self.is_stale(now) {
                    self.pending = Some(FetchCause::Request);
                    RefresherAction::Fetch
                } else {
                    RefresherAction::Reply { notify: false }
                }
            },
            RefresherEvent::Fetched(snapshot) => {
                let for_request = self.pending == Some(FetchCause::Request);
                let notify = self.refresh(snapshot);
                if for_request {
                    self.last_refresh = now;
                    RefresherAction::Reply { notify }
                } else {
                    RefresherAction::Wait { notify }
                }
            },
            RefresherEvent::FetchFailed => {
                let for_request = self.pending == Some(FetchCause::Request);
                self.pending = None;
                if for_request {
                    RefresherAction::Reply { notify: false }
                } else {
                    RefresherAction::Wait { notify: false }
                }
            },
        }
    }
}

/// The next automatic refresh comes after the maximum interval when the next epoch change is
/// expected further away than the threshold, and after the minimum interval when it is expected
/// closer than the threshold.
pub proof fn lemma_refresh_interval_by_distance(
    config: CommitteesRefreshConfig,
    state: EpochState,
    epoch_duration: u64,
    now: u64,
)
    ensures
        expected_time_to_next_epoch(state, epoch_duration, now) > config.epoch_change_distance_threshold
            ==> refresh_interval(config, state, epoch_duration, now) == config.max_auto_refresh_interval,
        expected_time_to_next_epoch(state, epoch_duration, now) < config.epoch_change_distance_threshold
            ==> refresh_interval(config, state, epoch_duration, now) == config.min_auto_refresh_interval,
{
}

/// Whether an action wakes the callers waiting for a change.
pub open spec fn notifies(action: RefresherAction) -> bool {
    match action {
        RefresherAction::Reply { notify } => notify,
        RefresherAction::Wait { notify } => notify,
        _ => false,
    }
}

/// Two `Refresh` requests no further apart than the grace period make one fetch: the first one,
/// arriving when the cache is stale, fetches; the second one, arriving after that fetch is over,
/// is answered from the cache and changes nothing.
pub proof fn lemma_refresh_within_grace_period_fetches_once(
    s: CommitteesRefresher,
    first: u64,
    fetched_at: u64,
    second: u64,
    snapshot: Snapshot,
)
    requires
        s.pending is None,
        is_stale_at(s, first),
        first <= fetched_at <= second,
        second - first <= s.config.refresh_grace_period,
    ensures
        ({
            let (s1, a1) = step_spec(s, RefresherEvent::Request(RequestKind::Refresh), first);
            let (s2, a2) = step_spec(s1, RefresherEvent::Fetched(snapshot), fetched_at);
            let (s3, a3) = step_spec(s2, RefresherEvent::Request(RequestKind::Refresh), second);
            &&& a1 == RefresherAction::Fetch
            &&& a2 is Reply
            &&& a3 == RefresherAction::Reply { notify: false }
            &&& s3 == s2
        }),
{
}

/// Two `Refresh` requests of which the second arrives more than the grace period after the
/// first one's fetch is over make two fetches.
pub proof fn lemma_refresh_beyond_grace_period_fetches_twice(
    s: CommitteesRefresher,
    first: u64,
    fetched_at: u64,
    second: u64,
    snapshot: Snapshot,
)
    requires
        s.pending is None,
        is_stale_at(s, first),
        fetched_at <= second,
        second - fetched_at > s.config.refresh_grace_period,
    ensures
        ({
            let (s1, a1) = step_spec(s, RefresherEvent::Request(RequestKind::Refresh), first);
            let (s2, a2) = step_spec(s1, RefresherEvent::Fetched(snapshot), fetched_at);
            let (s3, a3) = step_spec(s2, RefresherEvent::Request(RequestKind::Refresh), second);
            &&& a1 == RefresherAction::Fetch
            &&& a2 is Reply
            &&& a3 == RefresherAction::Fetch
        }),
{
}

/// An automatic refresh does not reset the grace-period clock: after a timer-driven fetch, a
/// `Refresh` request still fetches if the last refresh made on request is older than the grace
/// period.
pub proof fn lemma_timer_refresh_keeps_grace_clock(
    s: CommitteesRefresher,
    tick: u64,
    fetched_at: u64,
    request: u64,
    snapshot: Snapshot,
)
    requires
        s.pending is None,
        is_stale_at(s, request),
    ensures
        ({
            let (s1, a1) = step_spec(s, RefresherEvent::TimerFired, tick);
            let (s2, a2) = step_spec(s1, RefresherEvent::Fetched(snapshot), fetched_at);
            let (s3, a3) = step_spec(s2, RefresherEvent::Request(RequestKind::Refresh), request);
            &&& a1 == RefresherAction::Fetch
            &&& s2.last_refresh == s.last_refresh
            &&& a2 is Wait
            &&& a3 == RefresherAction::Fetch
        }),
{
}

/// The waiting callers are woken exactly by the steps that take in a fetched snapshot whose
/// committees differ from the cached ones, once per such step.
pub proof fn lemma_notify_exactly_on_change(s: CommitteesRefresher, event: RefresherEvent, now: u64)
    ensures
        notifies(step_spec(s, event, now).1) == (match event {
            RefresherEvent::Fetched(snapshot) => committees_differ(snapshot.committees, s.last_committees),
            _ => false,
        }),
{
}

/// A fetch that yields committees functionally equivalent to the cached ones wakes nobody.
pub proof fn lemma_equivalent_fetch_does_not_notify(s: CommitteesRefresher, snapshot: Snapshot, now: u64)
    requires
        functionally_equivalent(snapshot.committees.current_committee, s.last_committees.current_committee),
        previous_equivalent(snapshot.committees.previous_committee, s.last_committees.previous_committee),
    ensures
        !notifies(step_spec(s, RefresherEvent::Fetched(snapshot), now).1),
{
}

/// A fetch that yields the cached committees again wakes nobody.
pub proof fn lemma_identical_fetch_does_not_notify(s: CommitteesRefresher, snapshot: Snapshot, now: u64)
    requires
        snapshot.committees == s.last_committees,
    ensures
        !notifies(step_spec(s, RefresherEvent::Fetched(snapshot), now).1),
{
    lemma_same_committees_do_not_differ(s.last_committees);
}

} // verus!
