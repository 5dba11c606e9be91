use walrus_refresh::committee::{
    are_current_previous_different, ActiveCommittees, Committee, PriceComputation, StorageNode,
};
use walrus_refresh::refresh::{
    CommitteesRefreshConfig, CommitteesRefresher, EpochState, FetchCause, RefresherAction,
    RefresherEvent, RequestKind, Snapshot, EPOCH_CHANGE_DISTANCE_THRS, MAX_AUTO_REFRESH_INTERVAL,
    MIN_AUTO_REFRESH_INTERVAL, REFRESHER_CHANNEL_SIZE, REFRESH_GRACE_PERIOD,
};

fn node(name: &str, node_id: u64, shard_ids: Vec<u16>) -> StorageNode {
    StorageNode {
        name: name.to_string(),
        node_id,
        network_address: format!("{name}.example:9000"),
        shard_ids,
    }
}

fn committee(epoch: u32) -> Committee {
    Committee {
        members: vec![node("a", 1, vec![0, 1]), node("b", 2, vec![2, 3])],
        epoch,
        n_shards: 4,
    }
}

fn active(epoch: u32) -> ActiveCommittees {
    ActiveCommittees::new(committee(epoch), None)
}

fn snapshot(epoch: u32, storage_price: u64, write_price: u64) -> Snapshot {
    Snapshot::new(
        active(epoch),
        storage_price,
        write_price,
        EpochState::EpochChangeDone(0),
    )
}

fn config() -> CommitteesRefreshConfig {
    CommitteesRefreshConfig::default()
}

#[test]
fn default_config_values() {
    let c = CommitteesRefreshConfig::default();
    assert_eq!(c.refresh_grace_period, 10_000);
    assert_eq!(c.max_auto_refresh_interval, 30_000);
    assert_eq!(c.min_auto_refresh_interval, 5_000);
    assert_eq!(c.epoch_change_distance_threshold, 300_000);
    assert_eq!(c.refresher_channel_size, 100);
    assert_eq!(c.refresh_grace_period, REFRESH_GRACE_PERIOD);
    assert_eq!(c.max_auto_refresh_interval, MAX_AUTO_REFRESH_INTERVAL);
    assert_eq!(c.min_auto_refresh_interval, MIN_AUTO_REFRESH_INTERVAL);
    assert_eq!(c.epoch_change_distance_threshold, EPOCH_CHANGE_DISTANCE_THRS);
    assert_eq!(c.refresher_channel_size, REFRESHER_CHANNEL_SIZE);
}

#[test]
fn same_committees_do_not_differ() {
    assert!(!are_current_previous_different(&active(3), &active(3)));
}

#[test]
fn reordered_members_and_renamed_nodes_are_equivalent() {
    let first = active(3);
    let second = ActiveCommittees::new(
        Committee {
            members: vec![node("other-b", 2, vec![2, 3]), node("other-a", 1, vec![0, 1])],
            epoch: 3,
            n_shards: 4,
        },
        None,
    );
    assert!(first.current_committee().is_functionally_equivalent(second.current_committee()));
    assert!(!are_current_previous_different(&first, &second));
}

#[test]
fn equivalent_previous_committees_do_not_differ() {
    let first = ActiveCommittees::new(committee(4), Some(committee(3)));
    let second = ActiveCommittees::new(committee(4), Some(committee(3)));
    assert!(!are_current_previous_different(&first, &second));
}

#[test]
fn different_epoch_differs() {
    assert!(are_current_previous_different(&active(1), &active(0)));
}

#[test]
fn different_shards_differ() {
    let second = ActiveCommittees::new(
        Committee {
            members: vec![node("a", 1, vec![0, 2]), node("b", 2, vec![1, 3])],
            epoch: 3,
            n_shards: 4,
        },
        None,
    );
    assert!(are_current_previous_different(&active(3), &second));
    assert!(are_current_previous_different(&second, &active(3)));
}

#[test]
fn different_member_count_differs() {
    let second = ActiveCommittees::new(
        Committee {
            members: vec![node("a", 1, vec![0, 1]), node("b", 2, vec![2, 3]), node("a2", 1, vec![0, 1])],
            epoch: 3,
            n_shards: 4,
        },
        None,
    );
    assert!(are_current_previous_different(&active(3), &second));
}

#[test]
fn different_previous_committees_differ() {
    let first = ActiveCommittees::new(committee(4), Some(committee(3)));
    let second = ActiveCommittees::new(committee(4), Some(committee(2)));
    assert!(are_current_previous_different(&first, &second));
}

#[test]
fn previous_committee_on_one_side_only_differs() {
    let with_previous = ActiveCommittees::new(committee(4), Some(committee(3)));
    let without_previous = ActiveCommittees::new(committee(4), None);
    assert!(are_current_previous_different(&with_previous, &without_previous));
    assert!(are_current_previous_different(&without_previous, &with_previous));
}

fn refresher_at(state: EpochState, epoch_duration: u64) -> CommitteesRefresher {
    let snap = Snapshot::new(active(0), 10, 20, state);
    CommitteesRefresher::new(config(), snap, epoch_duration, 0)
}

#[test]
fn next_epoch_start_and_time_to_it() {
    let r = refresher_at(EpochState::EpochChangeDone(1_000), 600_000);
    assert_eq!(r.next_epoch_start(5_000), 601_000);
    assert_eq!(r.time_to_next_epoch(5_000), 596_000);
    let r = refresher_at(EpochState::NextParamsSelected(2_000), 600_000);
    assert_eq!(r.next_epoch_start(5_000), 602_000);
    let r = refresher_at(EpochState::EpochChangeSync(7), 600_000);
    assert_eq!(r.next_epoch_start(5_000), 605_000);
    assert_eq!(r.time_to_next_epoch(5_000), 600_000);
}

#[test]
fn overdue_epoch_change_is_imminent() {
    let r = refresher_at(EpochState::EpochChangeDone(1_000), 600_000);
    assert_eq!(r.time_to_next_epoch(10_000_000), 0);
    assert_eq!(r.next_refresh_interval(10_000_000), MIN_AUTO_REFRESH_INTERVAL);
}

#[test]
fn interval_far_from_epoch_change_is_max() {
    let r = refresher_at(EpochState::EpochChangeDone(0), 600_000);
    // 600 s to the epoch change, above the 300 s threshold.
    assert_eq!(r.next_refresh_interval(0), 30_000);
    // 300.001 s to the epoch change.
    assert_eq!(r.next_refresh_interval(299_999), 30_000);
}

#[test]
fn interval_near_epoch_change_is_min() {
    let r = refresher_at(EpochState::EpochChangeDone(0), 600_000);
    // 299.999 s to the epoch change.
    assert_eq!(r.next_refresh_interval(300_001), 5_000);
}

#[test]
fn interval_at_exact_threshold_is_min() {
    // The maximum interval needs the distance to exceed the threshold strictly.
    let r = refresher_at(EpochState::EpochChangeDone(0), 600_000);
    assert_eq!(r.time_to_next_epoch(300_000), 300_000);
    assert_eq!(r.next_refresh_interval(300_000), 5_000);
}

#[test]
fn interval_during_epoch_change_uses_full_duration() {
    let r = refresher_at(EpochState::EpochChangeSync(0), 200_000);
    assert_eq!(r.next_refresh_interval(1_000_000), 5_000);
    let r = refresher_at(EpochState::EpochChangeSync(0), 400_000);
    assert_eq!(r.next_refresh_interval(1_000_000), 30_000);
}

fn fresh_refresher() -> CommitteesRefresher {
    CommitteesRefresher::new(config(), snapshot(0, 10, 20), 600_000, 0)
}

#[test]
fn refresh_requests_within_grace_period_fetch_once() {
    let mut r = fresh_refresher();
    let mut fetches = 0;
    assert_eq!(r.step(RefresherEvent::Request(RequestKind::Refresh), 20_000), RefresherAction::Fetch);
    fetches += 1;
    assert_eq!(r.step(RefresherEvent::Fetched(snapshot(0, 10, 20)), 20_000), RefresherAction::Reply { notify: false });
    assert_eq!(r.last_refresh, 20_000);
    let second = r.step(RefresherEvent::Request(RequestKind::Refresh), 25_000);
    if second == RefresherAction::Fetch {
        fetches += 1;
    }
    assert_eq!(second, RefresherAction::Reply { notify: false });
    assert_eq!(fetches, 1);
}

#[test]
fn refresh_requests_beyond_grace_period_fetch_twice() {
    let mut r = fresh_refresher();
    assert_eq!(r.step(RefresherEvent::Request(RequestKind::Refresh), 20_000), RefresherAction::Fetch);
    assert_eq!(r.step(RefresherEvent::Fetched(snapshot(0, 10, 20)), 20_000), RefresherAction::Reply { notify: false });
    assert_eq!(r.step(RefresherEvent::Request(RequestKind::Refresh), 30_001), RefresherAction::Fetch);
    assert_eq!(r.pending, Some(FetchCause::Request));
}

#[test]
fn refresh_request_at_exact_grace_period_is_skipped() {
    let mut r = fresh_refresher();
    assert_eq!(r.step(RefresherEvent::Request(RequestKind::Refresh), 10_000), RefresherAction::Reply { notify: false });
    assert!(!r.is_stale(10_000));
    assert!(r.is_stale(10_001));
}

#[test]
fn get_request_never_fetches() {
    let mut r = fresh_refresher();
    assert_eq!(r.step(RefresherEvent::Request(RequestKind::Get), 1_000_000), RefresherAction::Reply { notify: false });
    assert_eq!(r.pending, None);
}

#[test]
fn timer_refresh_does_not_reset_grace_clock() {
    let mut r = fresh_refresher();
    assert_eq!(r.step(RefresherEvent::TimerFired, 30_000), RefresherAction::Fetch);
    assert_eq!(r.step(RefresherEvent::Fetched(snapshot(0, 10, 20)), 30_000), RefresherAction::Wait { notify: false });
    assert_eq!(r.last_refresh, 0);
    assert_eq!(r.step(RefresherEvent::Request(RequestKind::Refresh), 30_001), RefresherAction::Fetch);
}

#[test]
fn failed_request_fetch_keeps_grace_clock() {
    let mut r = fresh_refresher();
    assert_eq!(r.step(RefresherEvent::Request(RequestKind::Refresh), 20_000), RefresherAction::Fetch);
    assert_eq!(r.step(RefresherEvent::FetchFailed, 20_000), RefresherAction::Reply { notify: false });
    assert_eq!(r.last_refresh, 0);
    assert_eq!(r.step(RefresherEvent::Request(RequestKind::Refresh), 20_001), RefresherAction::Fetch);
}

#[test]
fn notification_only_on_change() {
    let mut r = fresh_refresher();
    let mut notifications = 0;
    for (i, epoch) in [0u32, 0, 1, 1, 1, 2].iter().enumerate() {
        assert_eq!(r.step(RefresherEvent::TimerFired, 1_000 * i as u64), RefresherAction::Fetch);
        match r.step(RefresherEvent::Fetched(snapshot(*epoch, 10, 20)), 1_000 * i as u64) {
            RefresherAction::Wait { notify } => {
                if notify {
                    notifications += 1;
                }
            }
            other => panic!("unexpected action {other:?}"),
        }
    }
    assert_eq!(notifications, 2);
}

#[test]
fn price_change_alone_does_not_notify() {
    let mut r = fresh_refresher();
    assert_eq!(r.step(RefresherEvent::TimerFired, 1_000), RefresherAction::Fetch);
    assert_eq!(r.step(RefresherEvent::Fetched(snapshot(0, 11, 21)), 1_000), RefresherAction::Wait { notify: false });
    assert_eq!(r.price_computation(), PriceComputation::new(11, 21));
}

#[test]
fn get_then_epoch_change_then_get() {
    let mut r = fresh_refresher();
    assert_eq!(r.step(RefresherEvent::Request(RequestKind::Get), 1_000), RefresherAction::Reply { notify: false });
    assert_eq!(r.committees().current_committee().epoch, 0);
    assert_eq!(r.price_computation(), PriceComputation::new(10, 20));

    assert_eq!(r.step(RefresherEvent::TimerFired, 2_000), RefresherAction::Fetch);
    assert_eq!(r.step(RefresherEvent::Fetched(snapshot(1, 10, 20)), 2_000), RefresherAction::Wait { notify: true });

    assert_eq!(r.step(RefresherEvent::Request(RequestKind::Get), 3_000), RefresherAction::Reply { notify: false });
    assert_eq!(r.committees().current_committee().epoch, 1);
    assert_eq!(r.price_computation(), PriceComputation::new(10, 20));
}

#[test]
fn failed_fetches_keep_serving_cached_snapshot() {
    let mut r = fresh_refresher();
    for tick in 1..=3u64 {
        assert_eq!(r.step(RefresherEvent::TimerFired, tick * 30_000), RefresherAction::Fetch);
        assert_eq!(r.step(RefresherEvent::FetchFailed, tick * 30_000), RefresherAction::Wait { notify: false });
        assert_eq!(r.committees().current_committee().epoch, 0);
        assert_eq!(r.price_computation(), PriceComputation::new(10, 20));
        assert_eq!(r.pending, None);
    }
    assert_eq!(r.step(RefresherEvent::Request(RequestKind::Get), 95_000), RefresherAction::Reply { notify: false });
    assert_eq!(r.committees().current_committee().epoch, 0);
    assert_eq!(r.price_computation(), PriceComputation::new(10, 20));
}

#[test]
fn timer_during_fetch_is_ignored() {
    let mut r = fresh_refresher();
    assert_eq!(r.step(RefresherEvent::TimerFired, 1_000), RefresherAction::Fetch);
    assert_eq!(r.step(RefresherEvent::TimerFired, 2_000), RefresherAction::Wait { notify: false });
    assert_eq!(r.pending, Some(FetchCause::Timer));
    assert_eq!(r.step(RefresherEvent::Request(RequestKind::Refresh), 20_000), RefresherAction::Reply { notify: false });
}

#[test]
fn closed_channel_stops() {
    let mut r = fresh_refresher();
    assert_eq!(r.step(RefresherEvent::Closed, 1_000), RefresherAction::Stop);
}

#[test]
fn refresh_replaces_snapshot_and_reports_change() {
    let mut r = fresh_refresher();
    let snap = Snapshot::new(active(5), 7, 8, EpochState::NextParamsSelected(42));
    assert!(r.refresh(snap));
    assert_eq!(r.committees().current_committee().epoch, 5);
    assert_eq!(r.price_computation(), PriceComputation::new(7, 8));
    assert_eq!(r.epoch_state, EpochState::NextParamsSelected(42));
    assert_eq!(r.last_refresh, 0);
}

#[test]
fn different_node_id_differs() {
    let second = ActiveCommittees::new(
        Committee {
            members: vec![node("a", 1, vec![0, 1]), node("b", 3, vec![2, 3])],
            epoch: 3,
            n_shards: 4,
        },
        None,
    );
    assert!(are_current_previous_different(&active(3), &second));
    let third = ActiveCommittees::new(
        Committee { members: vec![node("a", 1, vec![0, 1]), node("b", 2, vec![2, 3])], epoch: 3, n_shards: 5 },
        None,
    );
    assert!(are_current_previous_different(&active(3), &third));
}
