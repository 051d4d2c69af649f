use screen_mirror::qsv_observation::{
    classify_qsv_receiver_sample, receiver_telemetry_from_counters, summarize_sender_observation,
    QsvReceiverTelemetry, QsvTelemetryMaturity,
};

#[test]
fn sender_observation_accepts_qsv_receiver_telemetry() {
    let telemetry = receiver_telemetry_from_counters(6, 3, 4, 1_000, 2_500, 2_620);

    let observation = summarize_sender_observation("hw_intel_qsv", telemetry.clone())
        .expect("QSV must consume receiver telemetry for observation");

    assert_eq!(observation.backend_name, "hw_intel_qsv");
    assert_eq!(observation.receiver, telemetry);
}

#[test]
fn sender_observation_ignores_nvenc_receiver_telemetry() {
    let telemetry = receiver_telemetry_from_counters(6, 3, 4, 1_000, 2_500, 2_620);

    let observation = summarize_sender_observation("hw_nvenc", telemetry);

    assert!(observation.is_none());
}

#[test]
fn qsv_maturity_rejects_all_zero_pre_fragment_sample() {
    let telemetry = receiver_telemetry_from_counters(0, 0, 0, 0, 0, 1_000);

    let sample = classify_qsv_receiver_sample(telemetry, 1_000, 1_000);

    assert_eq!(sample.maturity, QsvTelemetryMaturity::ImmatureZero);
    assert!(!sample.can_actuate);
}

#[test]
fn qsv_maturity_accepts_nonzero_sample_with_minimum_window() {
    let telemetry = receiver_telemetry_from_counters(4, 1, 2, 1_000, 2_500, 3_000);

    let sample = classify_qsv_receiver_sample(telemetry, 3_000, 3_250);

    assert_eq!(sample.maturity, QsvTelemetryMaturity::Mature);
    assert!(sample.can_actuate);
    assert_eq!(sample.age_ms, 250);
}

#[test]
fn qsv_maturity_marks_old_sample_stale() {
    let telemetry = receiver_telemetry_from_counters(4, 1, 2, 1_000, 2_500, 3_000);

    let sample = classify_qsv_receiver_sample(telemetry, 3_000, 9_500);

    assert_eq!(sample.maturity, QsvTelemetryMaturity::Stale);
    assert!(!sample.can_actuate);
}

#[test]
fn telemetry_is_computed_from_the_counters() {
    assert_eq!(
        receiver_telemetry_from_counters(6, 3, 4, 1_000, 2_500, 2_620),
        QsvReceiverTelemetry {
            media_gap_ms: 120,
            fragments_per_s_x100: 333,
            dropped_segments: 3,
            receiver_dropped_frames: 4,
            fragments_emitted: 6,
            window_ms: 1_500,
        }
    );
}

#[test]
fn telemetry_stops_at_the_largest_value() {
    let far = u64::from(u32::MAX) + 5;
    let t = receiver_telemetry_from_counters(2, 0, 0, 1, far + 1, u64::MAX);
    assert_eq!(t.media_gap_ms, u32::MAX);
    assert_eq!(t.window_ms, u32::MAX);
    assert_eq!(t.fragments_per_s_x100, 0);

    let fast = receiver_telemetry_from_counters(100_000_000, 0, 0, 1, 2, 2);
    assert_eq!(fast.fragments_per_s_x100, u32::MAX);
}

#[test]
fn telemetry_has_no_rate_without_a_window() {
    assert_eq!(
        receiver_telemetry_from_counters(9, 0, 0, 50, 50, 60).fragments_per_s_x100,
        0
    );
    assert_eq!(
        receiver_telemetry_from_counters(1, 0, 0, 50, 90, 95).fragments_per_s_x100,
        0
    );
    assert_eq!(
        receiver_telemetry_from_counters(9, 0, 0, 90, 50, 40).window_ms,
        0
    );
    assert_eq!(
        receiver_telemetry_from_counters(9, 0, 0, 90, 50, 40).media_gap_ms,
        0
    );
}

#[test]
fn a_sample_keeps_its_grade_up_to_the_age_limit() {
    let t = receiver_telemetry_from_counters(2, 0, 0, 1_000, 2_000, 2_000);
    for age in [0u64, 1, 5_000] {
        let sample = classify_qsv_receiver_sample(t, 2_000, 2_000 + age);
        assert_eq!(sample.maturity, QsvTelemetryMaturity::Mature);
    }
    let sample = classify_qsv_receiver_sample(t, 2_000, 7_001);
    assert_eq!(sample.maturity, QsvTelemetryMaturity::Stale);
    assert_eq!(sample.age_ms, 5_001);
}

#[test]
fn a_narrow_window_is_immature() {
    let short = receiver_telemetry_from_counters(2, 0, 0, 1_000, 1_999, 2_000);
    assert_eq!(
        classify_qsv_receiver_sample(short, 0, 0).maturity,
        QsvTelemetryMaturity::ImmatureWindow
    );
    let few = receiver_telemetry_from_counters(1, 0, 0, 1_000, 3_000, 3_000);
    assert_eq!(
        classify_qsv_receiver_sample(few, 0, 0).maturity,
        QsvTelemetryMaturity::ImmatureWindow
    );
}

#[test]
fn the_clock_may_run_backwards() {
    let t = receiver_telemetry_from_counters(2, 0, 0, 1_000, 2_000, 2_000);
    assert_eq!(classify_qsv_receiver_sample(t, 9_000, 2_000).age_ms, 0);
}
