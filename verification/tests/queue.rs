use camstream::extractor::FrameExtractor;
use camstream::profile::StreamProfile;
use camstream::queue::below_high_water;
use camstream::queue::frame_channel;
use camstream::queue::settle;
use camstream::queue::Admission;
use camstream::queue::Enqueue;
use camstream::telemetry::SharedTelemetry;

fn shared_at(occupancy: u64) -> SharedTelemetry {
    let shared = SharedTelemetry::new(StreamProfile::nominal());
    for _ in 0..occupancy {
        shared.frame_enqueued();
    }
    shared
}

#[test]
fn queue_holds_sixty_frames() {
    let (tx, _rx) = frame_channel();
    assert_eq!(tx.capacity(), 60);
    assert_eq!(tx.duplicate().capacity(), 60);
}

#[test]
fn offer_counts_what_it_enqueues() {
    let shared = shared_at(0);
    let (tx, mut rx) = frame_channel();
    let offer = tx.offer(&shared, vec![1, 2, 3]);
    assert_eq!(offer.occupancy, 0);
    assert_eq!(offer.admission, Admission::Queued);
    assert_eq!(shared.occupancy(), 1);
    assert_eq!(rx.try_recv().unwrap(), vec![1, 2, 3]);
}

#[test]
fn frame_is_dropped_at_high_water() {
    let shared = shared_at(50);
    let (tx, mut rx) = frame_channel();
    let offer = tx.offer(&shared, vec![9]);
    assert_eq!(offer.occupancy, 50);
    assert_eq!(offer.admission, Admission::DroppedHighWater);
    assert_eq!(shared.occupancy(), 50);
    assert!(rx.try_recv().is_err());
}

#[test]
fn last_frame_below_high_water_is_taken() {
    let shared = shared_at(49);
    let (tx, mut rx) = frame_channel();
    assert_eq!(tx.offer(&shared, vec![1]).admission, Admission::Queued);
    assert_eq!(shared.occupancy(), 50);
    assert_eq!(tx.offer(&shared, vec![2]).admission, Admission::DroppedHighWater);
    assert_eq!(shared.occupancy(), 50);
    assert_eq!(rx.try_recv().unwrap(), vec![1]);
    assert!(rx.try_recv().is_err());
}

#[test]
fn producer_alone_never_passes_high_water() {
    let shared = shared_at(0);
    let (tx, _rx) = frame_channel();
    let mut queued = 0;
    for i in 0..200u8 {
        if tx.offer(&shared, vec![i]).admission == Admission::Queued {
            queued += 1;
        }
        assert!(shared.occupancy() <= 50);
    }
    assert_eq!(queued, 50);
    assert_eq!(shared.occupancy(), 50);
}

#[test]
fn full_channel_drops_without_counting() {
    let shared = shared_at(0);
    let (tx, mut rx) = frame_channel();
    for i in 0..60u8 {
        assert_eq!(tx.offer(&shared, vec![i]).admission, Admission::Queued);
        shared.frame_dequeued();
    }
    assert_eq!(shared.occupancy(), 0);
    let offer = tx.offer(&shared, vec![99]);
    assert_eq!(offer.admission, Admission::DroppedFull);
    assert_eq!(shared.occupancy(), 0);
    for i in 0..60u8 {
        assert_eq!(rx.try_recv().unwrap(), vec![i]);
    }
    assert!(rx.try_recv().is_err());
}

#[test]
fn closed_channel_drops_without_counting() {
    let shared = shared_at(0);
    let (tx, rx) = frame_channel();
    drop(rx);
    assert_eq!(tx.offer(&shared, vec![1]).admission, Admission::DroppedClosed);
    assert_eq!(shared.occupancy(), 0);
}

#[test]
fn duplicate_feeds_the_same_queue() {
    let shared = shared_at(0);
    let (tx, mut rx) = frame_channel();
    let other = tx.duplicate();
    assert_eq!(tx.offer(&shared, vec![1]).admission, Admission::Queued);
    assert_eq!(other.offer(&shared, vec![2]).admission, Admission::Queued);
    assert_eq!(rx.try_recv().unwrap(), vec![1]);
    assert_eq!(rx.try_recv().unwrap(), vec![2]);
    assert_eq!(shared.occupancy(), 2);
}

#[test]
fn admission_rule_on_values() {
    assert!(below_high_water(0));
    assert!(below_high_water(49));
    assert!(!below_high_water(50));
    assert!(!below_high_water(u64::MAX));
    assert_eq!(settle(49, Enqueue::Queued), Admission::Queued);
    assert_eq!(settle(49, Enqueue::Full), Admission::DroppedFull);
    assert_eq!(settle(49, Enqueue::Closed), Admission::DroppedClosed);
    assert_eq!(settle(50, Enqueue::Queued), Admission::DroppedHighWater);
    assert_eq!(settle(51, Enqueue::Full), Admission::DroppedHighWater);
}

#[test]
fn pump_enqueues_frames_in_order() {
    let shared = shared_at(0);
    let (tx, mut rx) = frame_channel();
    let mut x = FrameExtractor::new();
    let stream = [0xFF, 0xD8, 1, 0xFF, 0xD9, 0xFF, 0xD8, 2, 0xFF, 0xD9];
    let report = tx.pump(&mut x, &shared, &stream);
    assert_eq!(report.queued, 2);
    assert_eq!(report.dropped_high_water, 0);
    assert_eq!(report.dropped_full, 0);
    assert_eq!(report.dropped_closed, 0);
    assert_eq!(shared.occupancy(), 2);
    assert_eq!(rx.try_recv().unwrap(), vec![0xFF, 0xD8, 1, 0xFF, 0xD9]);
    assert_eq!(rx.try_recv().unwrap(), vec![0xFF, 0xD8, 2, 0xFF, 0xD9]);
    assert!(rx.try_recv().is_err());
}

#[test]
fn pump_drops_at_high_water() {
    let shared = shared_at(49);
    let (tx, mut rx) = frame_channel();
    let mut x = FrameExtractor::new();
    let stream = [0xFF, 0xD8, 1, 0xFF, 0xD9, 0xFF, 0xD8, 2, 0xFF, 0xD9, 0xFF, 0xD8, 3, 0xFF];
    let report = tx.pump(&mut x, &shared, &stream);
    assert_eq!(report.queued, 1);
    assert_eq!(report.dropped_high_water, 1);
    assert_eq!(x.buffered(), 4);
    assert_eq!(shared.occupancy(), 50);
    assert_eq!(rx.try_recv().unwrap(), vec![0xFF, 0xD8, 1, 0xFF, 0xD9]);
    assert!(rx.try_recv().is_err());
}
