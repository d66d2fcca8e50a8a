use camstream::clock::unix_millis;
use camstream::clock::MonotonicClock;
use camstream::controller::Controller;
use camstream::controller::Decision;
use camstream::estimator::NetworkState;
use camstream::identity::camera_id_from;
use camstream::identity::generate_camera_id;
use camstream::profile::StreamProfile;
use camstream::supervisor::encoder_arguments;
use camstream::supervisor::encoder_program;
use camstream::telemetry::SharedTelemetry;
use camstream::telemetry::Telemetry;
use camstream::text::decimal_text;
use camstream::text::resolution_label;

#[test]
fn decimal_of_known_numbers() {
    assert_eq!(decimal_text(0), "0");
    assert_eq!(decimal_text(7), "7");
    assert_eq!(decimal_text(10), "10");
    assert_eq!(decimal_text(99), "99");
    assert_eq!(decimal_text(100), "100");
    assert_eq!(decimal_text(1280), "1280");
    assert_eq!(decimal_text(1234567890), "1234567890");
    assert_eq!(decimal_text(u32::MAX), "4294967295");
}

#[test]
fn decimal_agrees_with_display() {
    for n in (0..100000u32).step_by(37) {
        assert_eq!(decimal_text(n), n.to_string());
    }
}

#[test]
fn resolution_label_of_both_profiles() {
    assert_eq!(resolution_label(1280, 720), "1280x720");
    assert_eq!(resolution_label(640, 480), "640x480");
    assert_eq!(resolution_label(0, 0), "0x0");
}

#[test]
fn nominal_profile_values() {
    assert_eq!(StreamProfile::nominal(), StreamProfile { width: 1280, height: 720, quality: 70 });
}

#[test]
fn height_goes_with_the_width() {
    assert_eq!(StreamProfile::of_width(1280, 55).height, 720);
    assert_eq!(StreamProfile::of_width(640, 40).height, 480);
    assert_eq!(StreamProfile::of_width(800, 40).height, 480);
}

#[test]
fn significant_change_boundaries() {
    let running = StreamProfile { width: 1280, height: 720, quality: 70 };
    let with_quality = |quality| StreamProfile { quality, ..running };
    assert!(!with_quality(70).differs_significantly_from(&running));
    assert!(!with_quality(65).differs_significantly_from(&running));
    assert!(!with_quality(75).differs_significantly_from(&running));
    assert!(with_quality(64).differs_significantly_from(&running));
    assert!(with_quality(76).differs_significantly_from(&running));
    assert!(StreamProfile { width: 640, ..running }.differs_significantly_from(&running));
    assert!(StreamProfile { height: 480, ..running }.differs_significantly_from(&running));
    assert!(with_quality(0).differs_significantly_from(&with_quality(u32::MAX)));
}

#[test]
fn encoder_command_line() {
    assert_eq!(encoder_program(), "gst-launch-1.0");
    let args = encoder_arguments(&StreamProfile { width: 640, height: 480, quality: 36 });
    assert_eq!(
        args,
        vec![
            "libcamerasrc",
            "!",
            "video/x-raw,width=640,height=480",
            "!",
            "videoconvert",
            "!",
            "jpegenc",
            "quality=36",
            "!",
            "fdsink",
        ]
    );
}

#[test]
fn camera_id_has_prefix_and_uuid() {
    assert_eq!(camera_id_from("abc"), "camera-rust-abc");
    let id = generate_camera_id();
    assert!(id.starts_with("camera-rust-"));
    assert_eq!(id.len(), 12 + 36);
    let unique = &id[12..];
    assert_eq!(unique.matches('-').count(), 4);
    assert!(unique.chars().all(|c| c == '-' || c.is_ascii_hexdigit()));
    assert_ne!(generate_camera_id(), id);
}

#[test]
fn monotonic_clock_does_not_run_backwards() {
    let clock = MonotonicClock::start();
    let first = clock.now_ms();
    assert!(first < 10_000);
    let mut last = first;
    while last < first + 15 {
        let next = clock.now_ms();
        assert!(next >= last);
        last = next;
    }
}

#[test]
fn wall_clock_is_past_the_epoch() {
    let now = unix_millis().unwrap();
    assert!(now > 1_600_000_000_000);
}

#[test]
fn telemetry_starts_empty_and_uncongested() {
    let shared = SharedTelemetry::new(StreamProfile::nominal());
    assert_eq!(
        shared.read(),
        Telemetry { occupancy: 0, congested: false, profile: StreamProfile::nominal() }
    );
}

#[test]
fn telemetry_counts_and_publishes() {
    let shared = SharedTelemetry::new(StreamProfile::nominal());
    shared.frame_enqueued();
    shared.frame_enqueued();
    shared.frame_dequeued();
    assert_eq!(shared.occupancy(), 1);
    shared.set_congested(true);
    assert!(shared.congested());
    let degraded = StreamProfile { width: 640, height: 480, quality: 30 };
    shared.publish(degraded);
    assert_eq!(shared.profile(), degraded);
    shared.set_quality(25);
    shared.set_resolution(1280, 720);
    assert_eq!(shared.profile(), StreamProfile { width: 1280, height: 720, quality: 25 });
}

#[test]
fn taking_a_frame_counts_down_before_reading() {
    let shared = SharedTelemetry::new(StreamProfile::nominal());
    shared.frame_enqueued();
    shared.frame_enqueued();
    shared.frame_enqueued();
    let reading = shared.take_frame();
    assert_eq!(reading.occupancy, 2);
    assert_eq!(shared.occupancy(), 2);
    assert!(!reading.congested);
    assert_eq!(reading.profile, StreamProfile::nominal());
}

#[test]
fn controller_starts_idle() {
    let c = Controller::new(StreamProfile::nominal(), 9);
    assert_eq!(c.running, StreamProfile::nominal());
    assert_eq!(c.network, NetworkState::new(9));
    assert_eq!(c.failures, 0);
    assert_eq!(c.successes, 0);
}

#[test]
fn controller_counts_failed_and_good_intervals() {
    let mut c = Controller::new(StreamProfile::nominal(), 0);
    c.evaluate(16, false, 0);
    assert_eq!((c.failures, c.successes), (1, 0));
    c.evaluate(0, true, 0);
    assert_eq!((c.failures, c.successes), (2, 0));
    c.evaluate(15, false, 0);
    assert_eq!((c.failures, c.successes), (1, 1));
    c.evaluate(0, false, 0);
    assert_eq!((c.failures, c.successes), (0, 2));
    c.evaluate(0, false, 0);
    assert_eq!((c.failures, c.successes), (0, 3));
}

#[test]
fn controller_counters_are_capped() {
    let mut c = Controller::new(StreamProfile::nominal(), 0);
    for _ in 0..15 {
        c.evaluate(0, true, 0);
    }
    assert_eq!(c.failures, 10);
    let mut c = Controller::new(StreamProfile::nominal(), 0);
    for _ in 0..40 {
        c.evaluate(0, false, 0);
    }
    assert_eq!(c.successes, 30);
}

#[test]
fn controller_restarts_on_a_significant_change_only() {
    let mut c = Controller::new(StreamProfile::nominal(), 0);
    let d = c.evaluate(25, false, 2000);
    assert_eq!(c.network.congestion_level, 1);
    assert_eq!(d, Decision { congested: false, restart: None, interval_ms: 2000 });
    assert_eq!(c.running.quality, 70);
    let d = c.evaluate(25, false, 4000);
    assert_eq!(c.network.congestion_level, 2);
    let wanted = StreamProfile { width: 1280, height: 720, quality: 64 };
    assert_eq!(d, Decision { congested: false, restart: Some(wanted), interval_ms: 2000 });
    assert_eq!(c.running, wanted);
}

#[test]
fn controller_degrades_under_held_load_with_server_signal() {
    let mut c = Controller::new(StreamProfile::nominal(), 0);
    let mut restarts = Vec::new();
    for cycle in 1..=7u64 {
        let d = c.evaluate(25, true, cycle * 2000);
        if let Some(p) = d.restart {
            restarts.push((cycle, p));
        }
        assert_eq!(d.congested, cycle == 7);
    }
    assert_eq!(
        restarts,
        vec![
            (2, StreamProfile { width: 1280, height: 720, quality: 64 }),
            (4, StreamProfile { width: 1280, height: 720, quality: 58 }),
            (6, StreamProfile { width: 1280, height: 720, quality: 52 }),
            (7, StreamProfile { width: 640, height: 480, quality: 36 }),
        ]
    );
    assert_eq!(c.running, StreamProfile { width: 640, height: 480, quality: 36 });
}

#[test]
fn controller_slows_down_when_settled() {
    let mut c = Controller::new(StreamProfile::nominal(), 0);
    for i in 1..=17u32 {
        let d = c.evaluate(0, false, 0);
        assert_eq!(c.network.stability_counter, i);
        assert_eq!(d.interval_ms, if i > 15 { 5000 } else { 2000 });
    }
}

#[test]
fn tick_reads_and_publishes() {
    let shared = SharedTelemetry::new(StreamProfile::nominal());
    for _ in 0..25 {
        shared.frame_enqueued();
    }
    let clock = MonotonicClock::start();
    let mut c = Controller::new(StreamProfile::nominal(), 0);
    let t1 = c.tick(&shared, &clock);
    assert_eq!(t1.occupancy, 25);
    assert!(!t1.server_congested);
    assert_eq!(t1.decision.restart, None);
    let t2 = c.tick(&shared, &clock);
    let wanted = StreamProfile { width: 1280, height: 720, quality: 64 };
    assert_eq!(t2.decision.restart, Some(wanted));
    assert_eq!(shared.profile(), wanted);
    assert!(!shared.congested());
    assert!(t2.now_ms >= t1.now_ms);
}
