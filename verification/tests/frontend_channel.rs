use screen_mirror::channel::{
    channel_frame, emit_event, emit_init, emit_segment, emit_stream_status, BridgeCounters,
    ChannelLike, FRAME_INIT, FRAME_SEGMENT, FRAME_STATUS, SENDER_STATUS,
};
use std::sync::Mutex;

struct FakeChannel {
    frames: Mutex<Vec<Vec<u8>>>,
}

impl FakeChannel {
    fn new() -> Self {
        FakeChannel {
            frames: Mutex::new(Vec::new()),
        }
    }

    fn captured(&self) -> Vec<Vec<u8>> {
        self.frames.lock().unwrap().clone()
    }

    fn has_discriminant(&self, discriminant: u8) -> bool {
        self.captured().iter().any(|f| f[0] == discriminant)
    }
}

impl ChannelLike for &FakeChannel {
    fn send_raw(self, discriminant: u8, bytes: Vec<u8>) -> (Self, Result<(), String>) {
        self.frames
            .lock()
            .unwrap()
            .push(channel_frame(discriminant, bytes));
        (self, Ok(()))
    }
}

struct FailChannel;

impl ChannelLike for &FailChannel {
    fn send_raw(self, _: u8, _: Vec<u8>) -> (Self, Result<(), String>) {
        (self, Err("closed".into()))
    }
}

/// A closed channel that keeps what it was asked to send.
struct ClosedChannel(Vec<(u8, Vec<u8>)>);

impl ChannelLike for ClosedChannel {
    fn send_raw(mut self, discriminant: u8, bytes: Vec<u8>) -> (Self, Result<(), String>) {
        self.0.push((discriminant, bytes));
        (self, Err("closed".into()))
    }
}

#[test]
fn fake_channel_captures_init_discriminant() {
    let ch = FakeChannel::new();
    ch.send_raw(FRAME_INIT, vec![0xAA, 0xBB]).1.unwrap();
    let frames = ch.captured();
    assert_eq!(frames.len(), 1);
    assert_eq!(frames[0][0], FRAME_INIT);
    assert_eq!(&frames[0][1..], &[0xAA, 0xBB]);
}

#[test]
fn fake_channel_captures_segment_discriminant() {
    let ch = FakeChannel::new();
    ch.send_raw(FRAME_SEGMENT, vec![0x01, 0x02, 0x03]).1.unwrap();
    assert!(ch.has_discriminant(FRAME_SEGMENT));
    let frames = ch.captured();
    assert_eq!(frames[0][0], FRAME_SEGMENT);
    assert_eq!(&frames[0][1..], &[0x01, 0x02, 0x03]);
}

#[test]
fn emit_init_sends_init_discriminant() {
    let ch = FakeChannel::new();
    let mut counters = BridgeCounters::default();
    emit_init(&ch, &mut counters, vec![0xDE, 0xAD]);
    assert!(ch.has_discriminant(FRAME_INIT));
    assert_eq!(counters.init_segments_emitted, 1);
}

#[test]
fn emit_segment_sends_segment_discriminant() {
    let ch = FakeChannel::new();
    let mut counters = BridgeCounters::default();
    emit_segment(&ch, &mut counters, vec![0xBE, 0xEF]);
    assert!(ch.has_discriminant(FRAME_SEGMENT));
    assert_eq!(counters.fragments_emitted, 1);
}

#[test]
fn emit_init_channel_failure_increments_dropped() {
    let mut counters = BridgeCounters::default();
    emit_init(&FailChannel, &mut counters, vec![1, 2, 3]);
    assert_eq!(counters.dropped_segments, 1);
    assert_eq!(counters.init_segments_emitted, 0);
}

#[test]
fn emit_segment_channel_failure_increments_dropped() {
    let mut counters = BridgeCounters::default();
    emit_segment(&FailChannel, &mut counters, vec![1, 2, 3]);
    assert_eq!(counters.dropped_segments, 1);
    assert_eq!(counters.fragments_emitted, 0);
}

#[test]
fn bridge_counters_default_is_zero() {
    let c = BridgeCounters::default();
    assert_eq!(c.fragments_emitted, 0);
    assert_eq!(c.init_segments_emitted, 0);
    assert_eq!(c.dropped_segments, 0);
    assert_eq!(c.keyframe_requests_fired, 0);
    assert_eq!(BridgeCounters::zero(), c);
}

#[test]
fn dropped_segments_counter_increments() {
    let mut counters = BridgeCounters::default();
    assert_eq!(counters.dropped_segments, 0);
    counters.count_segment(false);
    counters.count_init(false);
    assert_eq!(counters.dropped_segments, 2);
}

#[test]
fn fragments_emitted_counter_increments() {
    let mut counters = BridgeCounters::default();
    for _ in 0..5 {
        counters.count_segment(true);
    }
    assert_eq!(counters.fragments_emitted, 5);
}

#[test]
fn a_counter_starts_again_after_its_last_value() {
    let mut counters = BridgeCounters::default();
    counters.fragments_emitted = u64::MAX;
    counters.count_segment(true);
    assert_eq!(counters.fragments_emitted, 0);
}

#[test]
fn every_segment_counts_once() {
    let ch = FakeChannel::new();
    let mut counters = BridgeCounters::default();
    emit_init(&ch, &mut counters, vec![1]);
    emit_segment(&ch, &mut counters, vec![2]);
    emit_segment(&FailChannel, &mut counters, vec![3]);
    emit_init(&FailChannel, &mut counters, vec![4]);
    assert_eq!(
        counters.fragments_emitted + counters.init_segments_emitted + counters.dropped_segments,
        4
    );
    assert_eq!(ch.captured(), vec![vec![FRAME_INIT, 1], vec![FRAME_SEGMENT, 2]]);
}

#[test]
fn a_frame_is_the_discriminant_and_then_the_payload() {
    assert_eq!(channel_frame(2, vec![7, 8, 9]), vec![2, 7, 8, 9]);
    assert_eq!(channel_frame(0xFF, vec![]), vec![0xFF]);
}

#[test]
fn a_status_goes_out_under_its_own_discriminant() {
    let ch = FakeChannel::new();
    emit_stream_status(&ch, Some(vec![1, 2]));
    emit_event(&ch, Some(vec![3]));
    emit_stream_status(&ch, None);
    emit_event(&ch, None);
    emit_event(&FailChannel, Some(vec![4]));
    assert_eq!(
        ch.captured(),
        vec![vec![FRAME_STATUS, 1, 2], vec![SENDER_STATUS, 3]]
    );
}

#[test]
fn a_refused_segment_is_tried_once() {
    let mut counters = BridgeCounters::default();
    let channel = ClosedChannel(Vec::new());
    let channel = emit_init(channel, &mut counters, vec![1]);
    let channel = emit_segment(channel, &mut counters, vec![2, 3]);
    assert_eq!(channel.0, vec![(FRAME_INIT, vec![1]), (FRAME_SEGMENT, vec![2, 3])]);
    assert_eq!(counters.dropped_segments, 2);
}

#[test]
fn a_refused_status_is_tried_once_and_an_unserialised_one_never() {
    let channel = ClosedChannel(Vec::new());
    let channel = emit_event(channel, Some(vec![1]));
    let channel = emit_stream_status(channel, Some(vec![2]));
    let channel = emit_stream_status(emit_event(channel, None), None);
    assert_eq!(channel.0, vec![(SENDER_STATUS, vec![1]), (FRAME_STATUS, vec![2])]);
}
