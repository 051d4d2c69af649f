use screen_mirror::channel::{
    channel_frame, BridgeCounters, ChannelLike, FRAME_INIT, FRAME_SEGMENT,
};
use screen_mirror::errors::TransportError;
use screen_mirror::events::Received;
use screen_mirror::mux::{
    mux_thread, mux_wait, EncodedPacket, Mux, MuxHost, MuxStep, MuxerParams, ParameterSets,
};
use std::cell::{Cell, RefCell};
use std::collections::VecDeque;
use std::sync::Mutex;

struct Frames(Mutex<Vec<Vec<u8>>>);

impl ChannelLike for &Frames {
    fn send_raw(self, discriminant: u8, bytes: Vec<u8>) -> (Self, Result<(), String>) {
        self.0.lock().unwrap().push(channel_frame(discriminant, bytes));
        (self, Ok(()))
    }
}

/// A muxer that reads the first byte of a keyframe as a list of what is wrong with it.
struct SimulatedMuxer {
    packets: RefCell<VecDeque<EncodedPacket>>,
    frames: Frames,
    counters: RefCell<Vec<BridgeCounters>>,
    /// How many packets were still to come when a keyframe was asked for.
    requests: RefCell<Vec<usize>>,
    refuses_requests: bool,
    opened: RefCell<Vec<MuxerParams>>,
    appended: RefCell<Vec<u8>>,
    stops_after: Cell<u32>,
}

const GOOD: u8 = 0;
const NO_SETS: u8 = 1;
const NO_SIZE: u8 = 2;
const NO_INIT: u8 = 3;

impl SimulatedMuxer {
    fn new(packets: Vec<EncodedPacket>) -> Self {
        SimulatedMuxer {
            packets: RefCell::new(packets.into()),
            frames: Frames(Mutex::new(Vec::new())),
            counters: RefCell::new(Vec::new()),
            requests: RefCell::new(Vec::new()),
            refuses_requests: false,
            opened: RefCell::new(Vec::new()),
            appended: RefCell::new(Vec::new()),
            stops_after: Cell::new(u32::MAX),
        }
    }

    fn run(&self) -> Vec<Vec<u8>> {
        let after = mux_thread(self, &self.frames, BridgeCounters::zero());
        let recorded = self.counters.borrow().last().copied();
        assert_eq!(after.counters, recorded.unwrap_or(BridgeCounters::zero()));
        self.frames.0.lock().unwrap().clone()
    }
}

impl MuxHost for &SimulatedMuxer {
    fn stop_requested(self) -> (Self, bool) {
        let left = self.stops_after.get();
        self.stops_after.set(left.saturating_sub(1));
        (self, left == 0)
    }

    fn receive(self, wait_ns: u64) -> (Self, Received<EncodedPacket>) {
        assert_eq!(wait_ns, 200_000_000);
        let answer = match self.packets.borrow_mut().pop_front() {
            Some(packet) => Received::Event(packet),
            None => Received::Disconnected,
        };
        (self, answer)
    }

    fn find_parameter_sets(self, packet: &EncodedPacket) -> (Self, Option<ParameterSets>) {
        if packet.data[0] == NO_SETS {
            return (self, None);
        }
        let answer = Some(ParameterSets {
            sps: vec![packet.data[0]],
            pps: vec![],
        });
        (self, answer)
    }

    fn parse_size(self, sets: &ParameterSets) -> (Self, Option<(u32, u32)>) {
        if sets.sps[0] == NO_SIZE {
            return (self, None);
        }
        (self, Some((1920, 1080)))
    }

    fn build_init(self, sets: &ParameterSets, params: MuxerParams) -> (Self, Option<Vec<u8>>) {
        self.opened.borrow_mut().push(params);
        if sets.sps[0] == NO_INIT {
            return (self, None);
        }
        (self, Some(vec![0xEE]))
    }

    fn append(self, packet: &EncodedPacket) -> (Self, Option<Vec<u8>>) {
        self.appended.borrow_mut().push(packet.data[1]);
        let answer = if packet.data[1] % 2 == 0 {
            Some(vec![packet.data[1]])
        } else {
            None
        };
        (self, answer)
    }

    fn request_keyframe(self) -> (Self, Result<(), TransportError>) {
        self.requests.borrow_mut().push(self.packets.borrow().len());
        if self.refuses_requests {
            (self, Err(TransportError::NotRunning))
        } else {
            (self, Ok(()))
        }
    }

    fn record(self, counters: BridgeCounters) -> Self {
        self.counters.borrow_mut().push(counters);
        self
    }
}

fn keyframe(fault: u8, id: u8) -> EncodedPacket {
    EncodedPacket {
        data: vec![fault, id],
        is_keyframe: true,
        rest: 0,
    }
}

fn frame(id: u8) -> EncodedPacket {
    EncodedPacket {
        data: vec![GOOD, id],
        is_keyframe: false,
        rest: 0,
    }
}

#[test]
fn the_init_segment_comes_first_and_once() {
    let muxer = SimulatedMuxer::new(vec![
        frame(2),
        keyframe(NO_SETS, 4),
        keyframe(NO_SIZE, 6),
        keyframe(NO_INIT, 8),
        keyframe(GOOD, 11),
        frame(12),
        keyframe(GOOD, 14),
    ]);
    assert_eq!(
        muxer.run(),
        vec![
            vec![FRAME_INIT, 0xEE],
            vec![FRAME_SEGMENT, 12],
            vec![FRAME_SEGMENT, 14],
        ]
    );
    assert_eq!(*muxer.appended.borrow(), vec![11, 12, 14]);
    assert_eq!(muxer.opened.borrow().len(), 2);
    assert_eq!(
        muxer.opened.borrow()[1],
        MuxerParams {
            width: 1920,
            height: 1080,
            rate_num: 30,
            rate_den: 1,
        }
    );
    let counters = *muxer.counters.borrow().last().unwrap();
    assert_eq!(counters.init_segments_emitted, 1);
    assert_eq!(counters.fragments_emitted, 2);
    assert_eq!(counters.dropped_segments, 0);
}

#[test]
fn nothing_is_sent_before_a_usable_keyframe() {
    let muxer = SimulatedMuxer::new(vec![frame(2), frame(4), keyframe(NO_INIT, 6)]);
    assert!(muxer.run().is_empty());
    assert!(muxer.appended.borrow().is_empty());
}

#[test]
fn a_stopped_loop_takes_no_packet() {
    let muxer = SimulatedMuxer::new(vec![keyframe(GOOD, 2), frame(4)]);
    muxer.stops_after.set(1);
    assert_eq!(muxer.run().len(), 2);
    assert_eq!(muxer.packets.borrow().len(), 1);
    assert_eq!(mux_wait(true), None);
    assert_eq!(mux_wait(false), Some(200_000_000));
}

#[test]
fn packets_are_kept_back_until_the_init_segment() {
    let mut mux = Mux::new();
    assert!(matches!(mux.receive(Received::Timeout), MuxStep::Next));
    assert!(matches!(mux.receive(Received::Event(frame(1))), MuxStep::Next));
    assert_eq!(mux.pre_idr_buffer.len(), 1);
    let step = mux.receive(Received::Event(keyframe(GOOD, 2)));
    assert!(matches!(step, MuxStep::FindParameterSets(_)));
    let step = mux.built_init(keyframe(GOOD, 2), &Some(vec![1]));
    assert!(matches!(step, MuxStep::Append(_)));
    assert!(mux.init_emitted);
    assert!(mux.pre_idr_buffer.is_empty());
    assert!(matches!(mux.receive(Received::Event(frame(3))), MuxStep::Append(_)));
    assert!(matches!(mux.receive(Received::Disconnected), MuxStep::Exit));
}

#[test]
fn the_first_packet_brings_one_keyframe_request() {
    let muxer = SimulatedMuxer::new(vec![frame(1), frame(2), keyframe(GOOD, 4), frame(6)]);
    muxer.run();
    assert_eq!(*muxer.requests.borrow(), vec![3]);
    let counters = muxer.counters.borrow();
    assert_eq!(counters[0].keyframe_requests_fired, 1);
    assert_eq!(counters[0].init_segments_emitted, 0);
    assert_eq!(counters.last().unwrap().keyframe_requests_fired, 1);
}

#[test]
fn without_a_packet_no_keyframe_is_asked_for() {
    let muxer = SimulatedMuxer::new(vec![]);
    muxer.run();
    assert!(muxer.requests.borrow().is_empty());
    assert!(muxer.counters.borrow().is_empty());
}

#[test]
fn a_refused_keyframe_request_is_not_counted_and_not_repeated() {
    let mut muxer = SimulatedMuxer::new(vec![frame(1), frame(2), keyframe(GOOD, 4)]);
    muxer.refuses_requests = true;
    muxer.run();
    assert_eq!(muxer.requests.borrow().len(), 1);
    assert_eq!(muxer.counters.borrow().last().unwrap().keyframe_requests_fired, 0);
}

#[test]
fn each_segment_is_one_frame_and_counted_once() {
    let muxer = SimulatedMuxer::new(vec![keyframe(GOOD, 2), frame(3), frame(4)]);
    assert_eq!(
        muxer.run(),
        vec![
            vec![FRAME_INIT, 0xEE],
            vec![FRAME_SEGMENT, 2],
            vec![FRAME_SEGMENT, 4],
        ]
    );
    let counters = *muxer.counters.borrow().last().unwrap();
    assert_eq!(
        counters,
        BridgeCounters {
            fragments_emitted: 2,
            init_segments_emitted: 1,
            dropped_segments: 0,
            keyframe_requests_fired: 1,
        }
    );
}
