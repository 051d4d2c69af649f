//! Observation of the receiver's telemetry on the Intel QSV encoder path.
//!
//! Everything here only looks: a sample is built from the receiver's counters, graded by how
//! much it can be trusted, and attached to the sender's view when the sender runs on QSV.
use vstd::prelude::*;

verus! {

/// Fewest fragments that make a sample mature.
pub const MIN_MATURE_FRAGMENTS: u64 = 2;

/// Shortest observation window, in milliseconds, that makes a sample mature.
pub const MIN_MATURE_WINDOW_MS: u32 = 1_000;

/// Age in milliseconds beyond which a sample is stale.
pub const MAX_SAMPLE_AGE_MS: u64 = 5_000;

/// What the receiver reports of its own media path.
#[derive(Debug, Clone, Copy, PartialEq, Eq, Structural)]
pub struct QsvReceiverTelemetry {
    /// Time since the last fragment.
    pub media_gap_ms: u32,
    /// Fragments per second, times one hundred.
    pub fragments_per_s_x100: u32,
    /// Segments the receiver could not deliver.
    pub dropped_segments: u64,
    /// Frames the receiver's transport dropped.
    pub receiver_dropped_frames: u64,
    /// Fragments delivered so far.
    pub fragments_emitted: u64,
    /// Time between the first and the last fragment.
    pub window_ms: u32,
}

/// How far a telemetry sample can be trusted.
#[derive(Debug, Clone, Copy, PartialEq, Eq, Structural)]
pub enum QsvTelemetryMaturity {
    /// Every field is zero: nothing has been received yet.
    ImmatureZero,
    /// Too few fragments, or too short a window.
    ImmatureWindow,
    /// Recent, with enough fragments over a long enough window.
    Mature,
    /// Older than the age limit.
    Stale,
}

/// A telemetry sample with its grade.
#[derive(Debug, Clone, Copy, PartialEq, Eq, Structural)]
pub struct QsvReceiverSample {
    pub telemetry: QsvReceiverTelemetry,
    pub maturity: QsvTelemetryMaturity,
    pub age_ms: u64,
    pub can_actuate: bool,
}

/// The sender's view of the receiver while it encodes with QSV.
#[derive(Debug, PartialEq, Eq)]
pub struct QsvSenderObservation {
    pub backend_name: String,
    pub receiver: QsvReceiverTelemetry,
    pub maturity: QsvTelemetryMaturity,
    pub age_ms: u64,
    pub can_actuate: bool,
}

/// Subtraction that stops at zero.
pub open spec fn monus(a: u64, b: u64) -> nat {
    if a >= b {
        (a - b) as nat
    } else {
        0
    }
}

/// The value, or the largest `u32` where the value is larger.
pub open spec fn cap_u32(n: nat) -> u32 {
    if n <= u32::MAX {
        n as u32
    } else {
        u32::MAX
    }
}

impl QsvReceiverTelemetry {
    /// Every field is zero.
    pub open spec fn all_zero(self) -> bool {
        &&& self.media_gap_ms == 0
        &&& self.fragments_per_s_x100 == 0
        &&& self.dropped_segments == 0
        &&& self.receiver_dropped_frames == 0
        &&& self.fragments_emitted == 0
        &&& self.window_ms == 0
    }

    /// Enough fragments over a long enough window.
    pub open spec fn wide_enough(self) -> bool {
        self.fragments_emitted >= MIN_MATURE_FRAGMENTS && self.window_ms >= MIN_MATURE_WINDOW_MS
    }
}

/// The grade of a sample of the given age.
pub open spec fn maturity_of(telemetry: QsvReceiverTelemetry, age_ms: nat) -> QsvTelemetryMaturity {
    if age_ms > MAX_SAMPLE_AGE_MS {
        QsvTelemetryMaturity::Stale
    } else if telemetry.all_zero() {
        QsvTelemetryMaturity::ImmatureZero
    } else if telemetry.wide_enough() {
        QsvTelemetryMaturity::Mature
    } else {
        QsvTelemetryMaturity::ImmatureWindow
    }
}

/// A fragment rate can be computed: two fragments or more, not all at one instant.
pub open spec fn has_rate(fragments_emitted: u64, first_ms: u64, last_ms: u64) -> bool {
    fragments_emitted > 1 && last_ms > first_ms
}

/// Fragments per second times one hundred, over the gaps between the first and last fragment.
pub open spec fn rate_x100(fragments_emitted: u64, first_ms: u64, last_ms: u64) -> nat {
    if has_rate(fragments_emitted, first_ms, last_ms) {
        (((fragments_emitted - 1) * 100_000) / (last_ms - first_ms)) as nat
    } else {
        0
    }
}

/// Grades `telemetry`, which was received at `received_at_ms`, as seen at `now_ms`.
pub fn classify_qsv_receiver_sample(
    telemetry: QsvReceiverTelemetry,
    received_at_ms: u64,
    now_ms: u64,
) -> (sample: QsvReceiverSample)
    ensures
        sample.telemetry == telemetry,
        sample.age_ms == monus(now_ms, received_at_ms),
        sample.maturity == maturity_of(telemetry, monus(now_ms, received_at_ms)),
        sample.can_actuate == (sample.maturity == QsvTelemetryMaturity::Mature),
{
    let age_ms: u64 = now_ms.saturating_sub(received_at_ms);
    let is_all_zero = telemetry.media_gap_ms == 0 && telemetry.fragments_per_s_x100 == 0
        && telemetry.dropped_segments == 0 && telemetry.receiver_dropped_frames == 0
        && telemetry.fragments_emitted == 0 && telemetry.window_ms == 0;
    let maturity = if age_ms > MAX_SAMPLE_AGE_MS {
        QsvTelemetryMaturity::Stale
    } else if is_all_zero {
        QsvTelemetryMaturity::ImmatureZero
    } else if telemetry.fragments_emitted < MIN_MATURE_FRAGMENTS || telemetry.window_ms
        < MIN_MATURE_WINDOW_MS {
        QsvTelemetryMaturity::ImmatureWindow
    } else {
        QsvTelemetryMaturity::Mature
    };
    QsvReceiverSample {
        telemetry,
        maturity,
        age_ms,
        can_actuate: maturity == QsvTelemetryMaturity::Mature,
    }
}

/// Builds the telemetry that the receiver reports from its counters.
///
/// The rate is computed over `u64`; the one product in it must fit.
pub fn receiver_telemetry_from_counters(
    fragments_emitted: u64,
    dropped_segments: u64,
    receiver_dropped_frames: u64,
    first_fragment_at_ms: u64,
    last_fragment_at_ms: u64,
    now_ms: u64,
) -> (telemetry: QsvReceiverTelemetry)
    requires
        has_rate(fragments_emitted, first_fragment_at_ms, last_fragment_at_ms) ==> (
        fragments_emitted - 1) * 100_000 <= u64::MAX,
    ensures
        telemetry == (QsvReceiverTelemetry {
            media_gap_ms: if last_fragment_at_ms == 0 {
                0
            } else {
                cap_u32(monus(now_ms, last_fragment_at_ms))
            },
            fragments_per_s_x100: cap_u32(
                rate_x100(fragments_emitted, first_fragment_at_ms, last_fragment_at_ms),
            ),
            dropped_segments,
            receiver_dropped_frames,
            fragments_emitted,
            window_ms: cap_u32(monus(last_fragment_at_ms, first_fragment_at_ms)),
        }),
{
    let media_gap_ms: u32 = if last_fragment_at_ms == 0 {
        0
    } else {
        clamp_u32(now_ms.saturating_sub(last_fragment_at_ms))
    };
    let fragments_per_s_x100: u32 = if fragments_emitted > 1 && last_fragment_at_ms
        > first_fragment_at_ms {
        let elapsed_ms: u64 = last_fragment_at_ms - first_fragment_at_ms;
        clamp_u32(((fragments_emitted - 1) * 100_000) / elapsed_ms)
    } else {
        0
    };
    QsvReceiverTelemetry {
        media_gap_ms,
        fragments_per_s_x100,
        dropped_segments,
        receiver_dropped_frames,
        fragments_emitted,
        window_ms: clamp_u32(last_fragment_at_ms.saturating_sub(first_fragment_at_ms)),
    }
}

/// The value, or the largest `u32` where the value is larger.
fn clamp_u32(n: u64) -> (r: u32)
    ensures
        r == cap_u32(n as nat),
{
    if n <= u32::MAX as u64 {
        n as u32
    } else {
        u32::MAX
    }
}

/// Attaches the receiver's telemetry to the sender's view. Only the QSV backend takes it.
pub fn summarize_sender_observation(
    backend_name: &str,
    receiver: QsvReceiverTelemetry,
) -> (observation: Option<QsvSenderObservation>)
    ensures
        observation is Some <==> backend_name@ == "hw_intel_qsv"@,
        observation matches Some(o) ==> {
            &&& o.backend_name@ == backend_name@
            &&& o.receiver == receiver
            &&& o.maturity == maturity_of(receiver, 0)
            &&& o.age_ms == 0
            &&& o.can_actuate == (o.maturity == QsvTelemetryMaturity::Mature)
        },
{
    let sample = classify_qsv_receiver_sample(receiver, 0, 0);
    let name = backend_name.to_string();
    if name == "hw_intel_qsv".to_string() {
        Some(
            QsvSenderObservation {
                backend_name: name,
                receiver: sample.telemetry,
                maturity: sample.maturity,
                age_ms: sample.age_ms,
                can_actuate: sample.can_actuate,
            },
        )
    } else {
        None
    }
}

/// A sample is mature, and so may drive an actuator, exactly when it is fresh and rests on enough
/// fragments over a long enough window.
pub proof fn law_actuation(telemetry: QsvReceiverTelemetry, age_ms: nat)
    ensures
        maturity_of(telemetry, age_ms) == QsvTelemetryMaturity::Mature <==> {
            &&& age_ms <= MAX_SAMPLE_AGE_MS
            &&& telemetry.wide_enough()
        },
{
}

/// A sample only loses trust with age: once it is past the age limit it stays stale, and up to
/// the limit its grade does not change.
pub proof fn law_aging(telemetry: QsvReceiverTelemetry, younger: nat, older: nat)
    requires
        younger <= older,
    ensures
        older <= MAX_SAMPLE_AGE_MS ==> maturity_of(telemetry, older) == maturity_of(
            telemetry,
            younger,
        ),
        maturity_of(telemetry, younger) == QsvTelemetryMaturity::Stale ==> maturity_of(
            telemetry,
            older,
        ) == QsvTelemetryMaturity::Stale,
{
}

/// How a sample is graded, by numbers: older than five seconds is stale; otherwise nothing but zeros
/// is immature, and so is anything with fewer than two fragments or less than a second of them. The
/// sample carries the telemetry it was made of, its age, and whether it may drive an actuator, which
/// only a mature one may. A sample from the future has no age.
pub proof fn law_how_a_sample_is_graded(
    telemetry: QsvReceiverTelemetry,
    received_at_ms: u64,
    now_ms: u64,
    sample: QsvReceiverSample,
)
    requires
        call_ensures(classify_qsv_receiver_sample, (telemetry, received_at_ms, now_ms), sample),
    ensures
        sample.telemetry == telemetry,
        now_ms >= received_at_ms ==> sample.age_ms == now_ms - received_at_ms,
        now_ms < received_at_ms ==> sample.age_ms == 0,
        sample.maturity is Stale <==> now_ms - received_at_ms > 5_000,
        sample.maturity is ImmatureZero <==> now_ms - received_at_ms <= 5_000 && telemetry == (
        QsvReceiverTelemetry {
            media_gap_ms: 0,
            fragments_per_s_x100: 0,
            dropped_segments: 0,
            receiver_dropped_frames: 0,
            fragments_emitted: 0,
            window_ms: 0,
        }),
        sample.maturity is Mature <==> now_ms - received_at_ms <= 5_000
            && telemetry.fragments_emitted >= 2 && telemetry.window_ms >= 1_000,
        sample.can_actuate <==> sample.maturity is Mature,
{
}

/// What the telemetry says of the counters. The counts are passed on as they are. The gap is the time
/// since the last fragment, or none if there was no fragment; the window is the time from the first
/// to the last. The rate is the largest that is not above the gaps between the fragments over that
/// time, in hundredths per second; without two fragments at different times it is zero. A value too
/// large for its field is the largest that fits.
pub proof fn law_what_the_telemetry_says(
    fragments_emitted: u64,
    dropped_segments: u64,
    receiver_dropped_frames: u64,
    first_ms: u64,
    last_ms: u64,
    now_ms: u64,
    t: QsvReceiverTelemetry,
)
    requires
        call_ensures(
            receiver_telemetry_from_counters,
            (
                fragments_emitted,
                dropped_segments,
                receiver_dropped_frames,
                first_ms,
                last_ms,
                now_ms,
            ),
            t,
        ),
    ensures
        t.fragments_emitted == fragments_emitted,
        t.dropped_segments == dropped_segments,
        t.receiver_dropped_frames == receiver_dropped_frames,
        last_ms == 0 || now_ms <= last_ms ==> t.media_gap_ms == 0,
        last_ms > 0 && 0 <= now_ms - last_ms <= u32::MAX ==> t.media_gap_ms == now_ms - last_ms,
        last_ms > 0 && now_ms - last_ms > u32::MAX ==> t.media_gap_ms == u32::MAX,
        last_ms <= first_ms ==> t.window_ms == 0,
        0 <= last_ms - first_ms <= u32::MAX ==> t.window_ms == last_ms - first_ms,
        last_ms - first_ms > u32::MAX ==> t.window_ms == u32::MAX,
        fragments_emitted < 2 || last_ms <= first_ms ==> t.fragments_per_s_x100 == 0,
        fragments_emitted >= 2 && last_ms > first_ms ==> {
            &&& t.fragments_per_s_x100 * (last_ms - first_ms) <= (fragments_emitted - 1) * 100_000
            &&& t.fragments_per_s_x100 < u32::MAX ==> (fragments_emitted - 1) * 100_000 < (
            t.fragments_per_s_x100 + 1) * (last_ms - first_ms)
        },
{
    if has_rate(fragments_emitted, first_ms, last_ms) {
        let n = (fragments_emitted - 1) * 100_000;
        let d = last_ms - first_ms;
        let q = n / d;
        let r = t.fragments_per_s_x100 as int;
        assert(q * d <= n < (q + 1) * d && q >= 0) by (nonlinear_arith)
            requires
                q == n / d,
                d > 0,
                n >= 0,
        ;
        assert(r <= q);
        assert(r * d <= q * d) by (nonlinear_arith)
            requires
                r <= q,
                d > 0,
        ;
    }
}

/// The receiver's telemetry is attached to the view of a sender on the Intel QSV backend and to no
/// other, as a sample that was just taken.
pub proof fn law_what_a_sender_observes(
    backend_name: &str,
    receiver: QsvReceiverTelemetry,
    observation: Option<QsvSenderObservation>,
)
    requires
        call_ensures(summarize_sender_observation, (backend_name, receiver), observation),
    ensures
        observation is Some <==> backend_name@ == "hw_intel_qsv"@,
        observation matches Some(o) ==> {
            &&& o.backend_name@ == "hw_intel_qsv"@
            &&& o.receiver == receiver
            &&& o.age_ms == 0
            &&& o.maturity !is Stale
            &&& o.can_actuate <==> receiver.fragments_emitted >= 2 && receiver.window_ms >= 1_000
            &&& o.can_actuate <==> o.maturity is Mature
        },
{
}

} // verus!
