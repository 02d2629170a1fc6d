use pdf_live_server::delivery::serve_pdf_body;
use pdf_live_server::refresher::bytes_equal;
use pdf_live_server::{ArtifactStore, ModifiedTime, PdfReader, Update};

fn t(secs: i64) -> ModifiedTime {
    ModifiedTime { secs, nanos: 0 }
}

fn ready(u: Update) -> Vec<u8> {
    match u {
        Update::Ready(b) => b,
        Update::Pending => panic!("pending"),
        Update::Closed => panic!("closed"),
    }
}

fn is_pending(u: &Update) -> bool {
    matches!(u, Update::Pending)
}

fn is_closed(u: &Update) -> bool {
    matches!(u, Update::Closed)
}

/// Runs one refresh cycle the way the service does: query the time, compare, read, publish.
fn tick(reader: &mut PdfReader, store: &mut ArtifactStore, modified: Option<ModifiedTime>, file: Option<&[u8]>) -> bool {
    if reader.handle_cast(modified) {
        match file {
            Some(bytes) => reader.try_read_pdf(store, bytes.to_vec()),
            None => false,
        }
    } else {
        false
    }
}

#[test]
fn absent_file_fetch_waits_then_gets_first_content() {
    let mut store = ArtifactStore::new();
    let mut reader = PdfReader::new();
    assert!(!reader.init(&mut store, None));
    assert!(serve_pdf_body(store.current_or_wait()).is_none());
    let mut waiter = store.subscribe();
    assert!(is_pending(&waiter.changed(&store)));
    assert!(!tick(&mut reader, &mut store, None, None));
    assert!(tick(&mut reader, &mut store, Some(t(1)), Some(b"A")));
    assert_eq!(ready(waiter.changed(&store)), b"A".to_vec());
    assert_eq!(serve_pdf_body(store.current_or_wait()), Some(b"A".to_vec()));
}

#[test]
fn touch_between_changes_publishes_once() {
    let mut store = ArtifactStore::new();
    let mut reader = PdfReader::new();
    assert!(reader.init(&mut store, Some(b"A".to_vec())));
    assert_eq!(store.current_version(), 1);
    // the first tick sees a new time but the same bytes
    assert!(!tick(&mut reader, &mut store, Some(t(1)), Some(b"A")));
    // a touch: time moves, bytes stay
    assert!(!tick(&mut reader, &mut store, Some(t(2)), Some(b"A")));
    assert_eq!(store.current_version(), 1);
    assert!(tick(&mut reader, &mut store, Some(t(3)), Some(b"B")));
    assert_eq!(store.current_version(), 2);
    assert_eq!(store.current(), Some(b"B".to_vec()));
}

#[test]
fn change_from_a_to_b_with_touch_is_one_publish_of_b() {
    let mut store = ArtifactStore::new();
    let mut reader = PdfReader::new();
    assert!(tick(&mut reader, &mut store, Some(t(10)), Some(b"A")));
    let mut sub = store.subscribe();
    assert_eq!(ready(sub.changed(&store)), b"A".to_vec());
    assert!(!tick(&mut reader, &mut store, Some(t(11)), Some(b"A")));
    assert!(is_pending(&sub.changed(&store)));
    assert!(tick(&mut reader, &mut store, Some(t(12)), Some(b"B")));
    assert_eq!(store.current_version(), 2);
    assert_eq!(ready(sub.changed(&store)), b"B".to_vec());
    assert!(is_pending(&sub.changed(&store)));
}

#[test]
fn two_clients_both_get_version_two_next() {
    let mut store = ArtifactStore::new();
    let mut client1 = store.subscribe();
    store.publish(b"v1".to_vec());
    let mut client2 = store.subscribe();
    // on connect the second client is sent the current version at once
    assert_eq!(ready(client2.changed(&store)), b"v1".to_vec());
    assert!(is_pending(&client2.changed(&store)));
    store.publish(b"v2".to_vec());
    assert_eq!(ready(client1.changed(&store)), b"v2".to_vec());
    assert_eq!(ready(client2.changed(&store)), b"v2".to_vec());
    assert!(is_pending(&client1.changed(&store)));
    assert!(is_pending(&client2.changed(&store)));
}

#[test]
fn shutdown_releases_waiting_fetch() {
    let mut store = ArtifactStore::new();
    let mut waiter = store.subscribe();
    assert!(serve_pdf_body(store.current_or_wait()).is_none());
    store.close();
    assert!(store.closed());
    assert!(is_closed(&waiter.changed(&store)));
    assert_eq!(
        serve_pdf_body(store.current_or_wait()),
        Some(b"We must be shutting down.".to_vec())
    );
}

#[test]
fn no_byte_change_over_many_ticks_publishes_nothing() {
    let mut store = ArtifactStore::new();
    let mut reader = PdfReader::new();
    assert!(reader.init(&mut store, Some(vec![1, 2, 3])));
    for i in 0..20 {
        let file: Option<&[u8]> = if i % 3 == 0 { None } else { Some(&[1, 2, 3]) };
        let modified = if i % 4 == 0 { None } else { Some(t(i / 2)) };
        assert!(!tick(&mut reader, &mut store, modified, file));
    }
    assert_eq!(store.current_version(), 1);
}

#[test]
fn one_change_over_many_ticks_publishes_once() {
    let mut store = ArtifactStore::new();
    let mut reader = PdfReader::new();
    assert!(reader.init(&mut store, Some(vec![1])));
    let mut publishes = 0;
    for i in 1..10 {
        if tick(&mut reader, &mut store, Some(t(i)), Some(&[2])) {
            publishes += 1;
        }
    }
    assert_eq!(publishes, 1);
    assert_eq!(store.current_version(), 2);
    assert_eq!(store.current(), Some(vec![2]));
}

#[test]
fn early_subscription_yields_first_publish_only() {
    let mut store = ArtifactStore::new();
    let mut sub = store.subscribe();
    assert_eq!(sub.borrow(&store), None);
    assert!(is_pending(&sub.changed(&store)));
    store.publish(vec![7]);
    assert_eq!(ready(sub.changed(&store)), vec![7]);
}

#[test]
fn late_subscription_sees_latest_at_once() {
    let mut store = ArtifactStore::new();
    store.publish(vec![1]);
    store.publish(vec![2]);
    store.publish(vec![3]);
    let mut sub = store.subscribe();
    assert_eq!(sub.borrow(&store), Some(vec![3]));
    assert_eq!(ready(store.current_or_wait()), vec![3]);
    assert_eq!(ready(sub.changed(&store)), vec![3]);
    assert!(is_pending(&sub.changed(&store)));
}

#[test]
fn slow_subscriber_skips_to_latest() {
    let mut store = ArtifactStore::new();
    let mut sub = store.subscribe();
    store.publish(vec![1]);
    store.publish(vec![2]);
    assert_eq!(ready(sub.changed(&store)), vec![2]);
    assert!(is_pending(&sub.changed(&store)));
}

#[test]
fn delivered_bytes_equal_read_bytes() {
    let mut store = ArtifactStore::new();
    let reader = PdfReader::new();
    let mut sub = store.subscribe();
    let read: Vec<u8> = (0..=255).collect();
    assert!(reader.try_read_pdf(&mut store, read.clone()));
    assert_eq!(ready(sub.changed(&store)), read);
    assert_eq!(serve_pdf_body(store.current_or_wait()), Some(read));
}

#[test]
fn unchanged_time_skips_read() {
    let mut reader = PdfReader::new();
    assert!(reader.handle_cast(Some(t(5))));
    assert_eq!(reader.current_modified_time, Some(t(5)));
    assert!(!reader.handle_cast(Some(t(5))));
    assert!(!reader.handle_cast(None));
    assert_eq!(reader.current_modified_time, Some(t(5)));
    assert!(reader.handle_cast(Some(ModifiedTime { secs: 5, nanos: 1 })));
}

#[test]
fn failed_read_keeps_previous_artifact() {
    let mut store = ArtifactStore::new();
    let mut reader = PdfReader::new();
    assert!(tick(&mut reader, &mut store, Some(t(1)), Some(b"good")));
    assert!(!tick(&mut reader, &mut store, Some(t(2)), None));
    assert_eq!(store.current(), Some(b"good".to_vec()));
    assert_eq!(store.current_version(), 1);
}

#[test]
fn empty_file_is_an_artifact() {
    let mut store = ArtifactStore::new();
    let reader = PdfReader::new();
    assert!(reader.try_read_pdf(&mut store, Vec::new()));
    assert_eq!(store.current(), Some(Vec::new()));
    assert!(!reader.try_read_pdf(&mut store, Vec::new()));
}

#[test]
fn byte_equality() {
    assert!(bytes_equal(&vec![1, 2], &vec![1, 2]));
    assert!(!bytes_equal(&vec![1, 2], &vec![1, 3]));
    assert!(!bytes_equal(&vec![1], &vec![1, 2]));
    assert!(bytes_equal(&vec![], &vec![]));
}

#[test]
fn closed_store_still_serves_last_artifact() {
    let mut store = ArtifactStore::new();
    store.publish(b"x".to_vec());
    store.close();
    assert_eq!(serve_pdf_body(store.current_or_wait()), Some(b"x".to_vec()));
}

#[test]
fn publish_and_close_wake_waiters() {
    let mut store = ArtifactStore::new();
    let mut rx = store.wake_signal();
    assert!(!rx.has_changed().unwrap());
    store.publish(vec![9]);
    assert!(rx.has_changed().unwrap());
    assert_eq!(*rx.borrow_and_update(), 1);
    assert!(!rx.has_changed().unwrap());
    store.close();
    assert!(rx.has_changed().unwrap());
    assert_eq!(*rx.borrow_and_update(), 1);
}
