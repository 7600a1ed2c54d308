use senka_panel::directory_monitoring::{subscribe_fs, unsubscribe_fs, SubscribeOutcome, SubscriptionTable};

#[test]
fn first_subscriber_starts_watch_and_last_stops_it() {
    let mut table = SubscriptionTable::new();
    assert_eq!(subscribe_fs(&mut table, "/tmp/a"), SubscribeOutcome::Created);
    assert_eq!(subscribe_fs(&mut table, "/tmp/a"), SubscribeOutcome::Joined);
    assert_eq!(subscribe_fs(&mut table, "/tmp/b"), SubscribeOutcome::Created);
    assert_eq!(table.subscriber_count("/tmp/a"), 2);
    assert_eq!(table.subscriber_count("/tmp/b"), 1);
    assert!(!unsubscribe_fs(&mut table, "/tmp/a"));
    assert_eq!(table.subscriber_count("/tmp/a"), 1);
    assert!(unsubscribe_fs(&mut table, "/tmp/a"));
    assert_eq!(table.subscriber_count("/tmp/a"), 0);
    assert_eq!(table.subscriber_count("/tmp/b"), 1);
}

#[test]
fn unsubscribing_unknown_directory_changes_nothing() {
    let mut table = SubscriptionTable::new();
    assert!(!unsubscribe_fs(&mut table, "/nowhere"));
    assert_eq!(table.subscriber_count("/nowhere"), 0);
}

#[test]
fn unsubscribe_undoes_subscribe() {
    let mut table = SubscriptionTable::new();
    subscribe_fs(&mut table, "C:\\Users");
    subscribe_fs(&mut table, "C:\\Users");
    subscribe_fs(&mut table, "C:\\Users");
    unsubscribe_fs(&mut table, "C:\\Users");
    assert_eq!(table.subscriber_count("C:\\Users"), 2);
}

#[test]
fn k_unsubscriptions_undo_k_subscriptions() {
    let mut table = SubscriptionTable::new();
    subscribe_fs(&mut table, "/srv/other");
    for _ in 0..4 {
        subscribe_fs(&mut table, "/srv/data");
    }
    for left in (1..4).rev() {
        assert!(!unsubscribe_fs(&mut table, "/srv/data"));
        assert_eq!(table.subscriber_count("/srv/data"), left);
    }
    assert!(unsubscribe_fs(&mut table, "/srv/data"));
    assert_eq!(table.subscriber_count("/srv/data"), 0);
    assert_eq!(table.subscriber_count("/srv/other"), 1);
}
