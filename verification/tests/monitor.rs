//! Tests for the broadcast distributor and the subscriber-facing accessors.

use sysmon::monitor::{PublishOutcome, RecvOutcome, SystemMonitor};
use sysmon::snapshot::assemble_snapshot;
use sysmon::types::{CoreReading, SystemStats};

/// A distinguishable snapshot: `tag` becomes the timestamp and the memory
/// totals, so content comparison tells snapshots apart.
fn snapshot(tag: u64) -> SystemStats {
    let readings = vec![
        CoreReading { usage: 1000, frequency: 1000 },
        CoreReading { usage: 2000, frequency: 3000 },
    ];
    assemble_snapshot(2500, 1000 + tag, 250, 750 + tag, &readings, tag)
}

fn expect_received(out: RecvOutcome) -> SystemStats {
    match out {
        RecvOutcome::Received(s) => s,
        other => panic!("expected a snapshot, got {:?}", other),
    }
}

#[test]
fn fanout_two_subscribers_in_publish_order() {
    let mut m = SystemMonitor::new();
    let mut a = m.subscribe();
    let mut b = m.subscribe();

    let s1 = snapshot(1);
    let s2 = snapshot(2);
    assert_eq!(m.publish(s1.clone()), PublishOutcome::Delivered(2));
    assert_eq!(m.publish(s2.clone()), PublishOutcome::Delivered(2));

    // Every active subscriber observes each published snapshot, by content,
    // in publish order, independently of the other's pace.
    assert_eq!(expect_received(m.next(&mut a)), s1);
    assert_eq!(expect_received(m.next(&mut b)), s1);
    assert_eq!(expect_received(m.next(&mut b)), s2);
    assert_eq!(expect_received(m.next(&mut a)), s2);
    assert!(matches!(m.next(&mut a), RecvOutcome::Pending));
    assert!(matches!(m.next(&mut b), RecvOutcome::Pending));
}

#[test]
fn late_subscriber_never_observes_earlier_snapshot() {
    let mut m = SystemMonitor::new();
    let s1 = snapshot(1);
    assert_eq!(m.publish(s1.clone()), PublishOutcome::NoReceivers);

    let mut c = m.subscribe();
    let s2 = snapshot(2);
    assert_eq!(m.publish(s2.clone()), PublishOutcome::Delivered(1));

    // The cursor was created after s1 was published: its first read is s2.
    let got = expect_received(m.next(&mut c));
    assert_ne!(got, s1);
    assert_eq!(got, s2);
}

#[test]
fn publish_with_zero_subscribers_is_harmless() {
    let mut m = SystemMonitor::new();
    assert_eq!(m.publish(snapshot(1)), PublishOutcome::NoReceivers);
    assert_eq!(m.publish(snapshot(2)), PublishOutcome::NoReceivers);

    // Subsequent publish behavior is unaltered: a new subscriber and a new
    // publish work exactly as if nothing had happened before.
    let mut c = m.subscribe();
    let s3 = snapshot(3);
    assert_eq!(m.publish(s3.clone()), PublishOutcome::Delivered(1));
    assert_eq!(expect_received(m.next(&mut c)), s3);
}

#[test]
fn memory_view_scenario_quarter_used() {
    let mut m = SystemMonitor::new();
    let mut c = m.subscribe();

    let readings = vec![CoreReading { usage: 0, frequency: 1000 }];
    let s = assemble_snapshot(0, 1000, 250, 750, &readings, 0);
    m.publish(s);

    let got = expect_received(m.next(&mut c));
    // 250 of 1000 used: 25.00%, carried as 2500 hundredths of a percent.
    assert_eq!(got.memory.usage_percent, 2500);
}

#[test]
fn average_frequency_scenario_two_cores() {
    let mut m = SystemMonitor::new();
    let mut c = m.subscribe();

    let readings = vec![
        CoreReading { usage: 0, frequency: 1000 },
        CoreReading { usage: 0, frequency: 3000 },
    ];
    let s = assemble_snapshot(0, 1, 0, 1, &readings, 0);
    m.publish(s);

    let got = expect_received(m.next(&mut c));
    assert_eq!(got.cpu.average_frequency, 2000);
}

#[test]
fn early_subscriber_waits_then_gets_first_tick() {
    let mut m = SystemMonitor::new();
    let mut c = m.subscribe();

    // Nothing published yet and the publisher is alive: the read only
    // waits (the host would suspend here); it is not a failure.
    assert!(matches!(m.next(&mut c), RecvOutcome::Pending));

    let s = snapshot(9);
    m.publish(s.clone());

    // The first tick resolves the wait with that tick's CPU view.
    let got = m.get_cpu_stats(&mut c).expect("first tick must resolve the early request");
    assert_eq!(got, s.cpu);
}

#[test]
fn backlog_saturation_reports_lag_not_stale_data() {
    // Default capacity is 100 pending snapshots: publish 101 before the
    // stalled subscriber reads any.
    let mut m = SystemMonitor::new();
    let mut c = m.subscribe();
    for tag in 0..101u64 {
        m.publish(snapshot(tag));
    }

    // The next read is the lag signal, not the dropped oldest snapshot...
    match m.next(&mut c) {
        RecvOutcome::Lagged(missed) => assert_eq!(missed, 1),
        other => panic!("expected a lag signal, got {:?}", other),
    }
    // ...and reading resumes at the oldest retained snapshot.
    assert_eq!(expect_received(m.next(&mut c)), snapshot(1));
}

#[test]
fn exactly_capacity_pending_does_not_lag() {
    let mut m = SystemMonitor::with_capacity(2);
    let mut c = m.subscribe();
    let s1 = snapshot(1);
    let s2 = snapshot(2);
    m.publish(s1.clone());
    m.publish(s2.clone());

    assert_eq!(expect_received(m.next(&mut c)), s1);
    assert_eq!(expect_received(m.next(&mut c)), s2);
}

#[test]
fn deep_lag_counts_every_lost_snapshot() {
    let mut m = SystemMonitor::with_capacity(2);
    let mut c = m.subscribe();
    for tag in 0..7u64 {
        m.publish(snapshot(tag));
    }
    // Capacity 2, 7 published, none read: snapshots 0..=4 are lost.
    match m.next(&mut c) {
        RecvOutcome::Lagged(missed) => assert_eq!(missed, 5),
        other => panic!("expected a lag signal, got {:?}", other),
    }
    assert_eq!(expect_received(m.next(&mut c)), snapshot(5));
    assert_eq!(expect_received(m.next(&mut c)), snapshot(6));
}

#[test]
fn closed_publisher_fails_each_request_with_its_message() {
    let mut m = SystemMonitor::new();
    let mut c1 = m.subscribe();
    let mut c2 = m.subscribe();
    let mut c3 = m.subscribe();
    m.close();

    assert!(matches!(m.next(&mut c1), RecvOutcome::Closed));
    assert_eq!(m.get_cpu_stats(&mut c1), Err("Failed to get CPU stats".to_string()));
    assert_eq!(m.get_memory_stats(&mut c2), Err("Failed to get memory stats".to_string()));
    assert_eq!(m.get_system_stats(&mut c3), Err("Failed to get system stats".to_string()));
}

#[test]
fn lagged_request_fails_with_its_message() {
    let mut m = SystemMonitor::with_capacity(1);
    let mut c = m.subscribe();
    m.publish(snapshot(1));
    m.publish(snapshot(2));

    // The cursor lagged past capacity before the request was served.
    assert_eq!(m.get_system_stats(&mut c), Err("Failed to get system stats".to_string()));
    // The lag signal consumed the loss; the retained snapshot follows.
    assert_eq!(m.get_system_stats(&mut c), Ok(snapshot(2)));
}

#[test]
fn accessors_project_the_same_snapshot() {
    let mut m = SystemMonitor::new();
    let mut c1 = m.subscribe();
    let mut c2 = m.subscribe();
    let mut c3 = m.subscribe();
    let s = snapshot(17);
    m.publish(s.clone());

    assert_eq!(m.get_cpu_stats(&mut c1), Ok(s.cpu));
    assert_eq!(m.get_memory_stats(&mut c2), Ok(s.memory));
    assert_eq!(m.get_system_stats(&mut c3), Ok(s));
}

#[test]
fn unsubscribe_reduces_delivery_count() {
    let mut m = SystemMonitor::new();
    let a = m.subscribe();
    let mut b = m.subscribe();
    assert_eq!(m.publish(snapshot(1)), PublishOutcome::Delivered(2));
    m.unsubscribe(a);
    assert_eq!(m.publish(snapshot(2)), PublishOutcome::Delivered(1));
    m.unsubscribe(b);
    assert_eq!(m.publish(snapshot(3)), PublishOutcome::NoReceivers);
    // The remaining cursor still reads everything published while it
    // existed; dropping the count does not invalidate other readers.
    assert_eq!(expect_received(m.next(&mut b)), snapshot(1));
}

#[test]
fn publish_order_is_delivery_order() {
    let mut m = SystemMonitor::new();
    let mut c = m.subscribe();
    for tag in 0..10u64 {
        m.publish(snapshot(tag));
    }
    for tag in 0..10u64 {
        assert_eq!(expect_received(m.next(&mut c)), snapshot(tag));
    }
    assert!(matches!(m.next(&mut c), RecvOutcome::Pending));
}
