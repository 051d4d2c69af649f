//! The loop that turns received packets into fMP4 segments, one packet at a time.
//!
//! Finding and parsing parameter sets and writing fMP4 is the muxer's work. This module decides
//! what becomes of each packet, when the frontend gets an init segment, and when the sender is asked
//! for a keyframe.
use crate::channel;
use crate::channel::{emit_init, emit_segment, BridgeCounters, ChannelLike, Segment, SendCall};
use crate::errors::TransportError;
use crate::events::Received;
use crate::trace;
use crate::trace::HostCall;
use crate::turns;
use vstd::prelude::*;

verus! {

broadcast use trace::lemma_no_call;

/// Longest wait for a packet.
pub const MUX_WAIT_NS: u64 = 200_000_000;

/// Frame rate that the muxer is opened with, as a fraction.
pub const MUX_RATE_NUM: u32 = 30;

pub const MUX_RATE_DEN: u32 = 1;

/// A packet of encoded video.
#[derive(Debug)]
pub struct EncodedPacket {
    pub data: Vec<u8>,
    pub is_keyframe: bool,
    /// Where the surrounding program keeps what else belongs to the packet.
    pub rest: u64,
}

/// The parameter sets that a keyframe carries.
#[derive(Debug)]
pub struct ParameterSets {
    pub sps: Vec<u8>,
    pub pps: Vec<u8>,
}

/// What a muxer is opened with.
#[derive(Debug, Clone, Copy, PartialEq, Eq, Structural)]
pub struct MuxerParams {
    pub width: u32,
    pub height: u32,
    pub rate_num: u32,
    pub rate_den: u32,
}

/// State of the mux loop.
#[derive(Debug)]
pub struct Mux {
    /// An init segment has been handed to the channel, and the muxer is open.
    pub init_emitted: bool,
    /// A packet has come, and a keyframe has been asked for.
    pub pli_fired: bool,
    /// Packets that came too early to be shown.
    pub pre_idr_buffer: Vec<EncodedPacket>,
}

/// What is to be done with a packet next.
#[derive(Debug)]
pub enum MuxStep {
    /// Nothing more: take the next packet.
    Next,
    /// Leave the loop.
    Exit,
    /// Look for parameter sets in the packet, and report with `found_parameter_sets`.
    FindParameterSets(EncodedPacket),
    /// Parse the picture size out of the parameter sets, and report with `parsed_size`.
    ParseSize(EncodedPacket, ParameterSets),
    /// Open a muxer and write an init segment, report with `built_init`, and send the segment.
    BuildInit(EncodedPacket, ParameterSets, MuxerParams),
    /// Give the packet to the muxer, and send the segment that it completes, if it does.
    Append(EncodedPacket),
}

/// A `Mux` by the contents of its buffer.
#[verifier::ext_equal]
pub struct MuxState {
    pub init_emitted: bool,
    pub pli_fired: bool,
    pub kept: Seq<EncodedPacket>,
}

impl View for Mux {
    type V = MuxState;

    open spec fn view(&self) -> MuxState {
        MuxState {
            init_emitted: self.init_emitted,
            pli_fired: self.pli_fired,
            kept: self.pre_idr_buffer@,
        }
    }
}

impl MuxState {
    /// A loop that has not seen a packet.
    pub open spec fn fresh() -> MuxState {
        MuxState { init_emitted: false, pli_fired: false, kept: Seq::empty() }
    }

    /// The loop with one more packet kept back.
    pub open spec fn keeping(self, packet: EncodedPacket) -> MuxState {
        MuxState { kept: self.kept.push(packet), ..self }
    }

    /// The loop with the init segment out, and nothing kept back.
    pub open spec fn opened(self) -> MuxState {
        MuxState { init_emitted: true, kept: Seq::empty(), ..self }
    }

    /// The loop once a packet has come.
    pub open spec fn arrived(self) -> MuxState {
        MuxState { pli_fired: true, ..self }
    }

    /// What is done when a wait is over. Once the init segment is out, every packet goes to the
    /// muxer; before that, only a keyframe is looked at.
    pub open spec fn on_received(self, received: Received<EncodedPacket>) -> (MuxStep, MuxState) {
        match received {
            Received::Timeout => (MuxStep::Next, self),
            Received::Disconnected => (MuxStep::Exit, self),
            Received::Event(packet) => if self.init_emitted {
                (MuxStep::Append(packet), self)
            } else if packet.is_keyframe {
                (MuxStep::FindParameterSets(packet), self)
            } else {
                (MuxStep::Next, self.keeping(packet))
            },
        }
    }

    /// What is done after the search for parameter sets.
    pub open spec fn on_parameter_sets(
        self,
        packet: EncodedPacket,
        found: Option<ParameterSets>,
    ) -> (MuxStep, MuxState) {
        match found {
            Some(sets) => (MuxStep::ParseSize(packet, sets), self),
            None => (MuxStep::Next, self.keeping(packet)),
        }
    }

    /// What is done once the picture size is known, or cannot be.
    pub open spec fn on_size(
        self,
        packet: EncodedPacket,
        sets: ParameterSets,
        size: Option<(u32, u32)>,
    ) -> (MuxStep, MuxState) {
        match size {
            Some(size) => (
                MuxStep::BuildInit(
                    packet,
                    sets,
                    MuxerParams {
                        width: size.0,
                        height: size.1,
                        rate_num: MUX_RATE_NUM,
                        rate_den: MUX_RATE_DEN,
                    },
                ),
                self,
            ),
            None => (MuxStep::Next, self.keeping(packet)),
        }
    }

    /// What is done once the init segment is written, or cannot be.
    pub open spec fn on_init(self, packet: EncodedPacket, init: Option<Vec<u8>>) -> (
        MuxStep,
        MuxState,
    ) {
        match init {
            Some(_) => (MuxStep::Append(packet), self.opened()),
            None => (MuxStep::Next, self.keeping(packet)),
        }
    }
}

impl Mux {
    /// A loop that has not seen a packet.
    pub fn new() -> (m: Self)
        ensures
            m@ == MuxState::fresh(),
    {
        Mux { init_emitted: false, pli_fired: false, pre_idr_buffer: Vec::new() }
    }

    /// Takes note that a packet has come, and says whether a keyframe is to be asked for: on the
    /// first packet, and never again.
    pub fn packet_arrived(&mut self) -> (fires: bool)
        ensures
            fires == !old(self)@.pli_fired,
            final(self)@ == old(self)@.arrived(),
    {
        let fires = !self.pli_fired;
        self.pli_fired = true;
        fires
    }

    /// Takes what a wait for a packet came back with.
    pub fn receive(&mut self, received: Received<EncodedPacket>) -> (step: MuxStep)
        ensures
            step == old(self)@.on_received(received).0,
            final(self)@ == old(self)@.on_received(received).1,
    {
        match received {
            Received::Timeout => MuxStep::Next,
            Received::Disconnected => MuxStep::Exit,
            Received::Event(packet) => {
                if self.init_emitted {
                    return MuxStep::Append(packet);
                }
                if packet.is_keyframe {
                    return MuxStep::FindParameterSets(packet);
                }
                self.pre_idr_buffer.push(packet);
                MuxStep::Next
            },
        }
    }

    /// Takes the outcome of the search for parameter sets.
    pub fn found_parameter_sets(&mut self, packet: EncodedPacket, found: Option<ParameterSets>) -> (
    step: MuxStep)
        ensures
            step == old(self)@.on_parameter_sets(packet, found).0,
            final(self)@ == old(self)@.on_parameter_sets(packet, found).1,
    {
        match found {
            Some(sets) => MuxStep::ParseSize(packet, sets),
            None => {
                self.pre_idr_buffer.push(packet);
                MuxStep::Next
            },
        }
    }

    /// Takes the picture size, width and height as displayed, if it could be parsed.
    pub fn parsed_size(
        &mut self,
        packet: EncodedPacket,
        sets: ParameterSets,
        size: Option<(u32, u32)>,
    ) -> (step: MuxStep)
        ensures
            step == old(self)@.on_size(packet, sets, size).0,
            final(self)@ == old(self)@.on_size(packet, sets, size).1,
    {
        match size {
            Some((width, height)) => MuxStep::BuildInit(
                packet,
                sets,
                MuxerParams { width, height, rate_num: MUX_RATE_NUM, rate_den: MUX_RATE_DEN },
            ),
            None => {
                self.pre_idr_buffer.push(packet);
                MuxStep::Next
            },
        }
    }

    /// Takes the init segment, if the muxer could write one: it is to be sent, the packets kept
    /// back are dropped, and the keyframe goes on to the muxer. Whether the frontend takes the
    /// init segment or not, no second one is made.
    pub fn built_init(&mut self, packet: EncodedPacket, init: &Option<Vec<u8>>) -> (step: MuxStep)
        ensures
            step == old(self)@.on_init(packet, *init).0,
            final(self)@ == old(self)@.on_init(packet, *init).1,
    {
        match init {
            Some(_) => {
                self.init_emitted = true;
                self.pre_idr_buffer.clear();
                MuxStep::Append(packet)
            },
            None => {
                self.pre_idr_buffer.push(packet);
                MuxStep::Next
            },
        }
    }
}

/// How long to wait for the next packet; `None` once the loop is to stop.
pub fn mux_wait(stop_flag: bool) -> (r: Option<u64>)
    ensures
        r == (if stop_flag {
            None
        } else {
            Some(MUX_WAIT_NS)
        }),
{
    if stop_flag {
        None
    } else {
        Some(MUX_WAIT_NS)
    }
}

/// A packet, with what comes of a keyframe request if it brings one, and what the muxer answers
/// when it is asked about the packet.
pub struct PacketWork {
    pub packet: EncodedPacket,
    pub asked: Result<(), TransportError>,
    pub found: Option<ParameterSets>,
    pub size: Option<(u32, u32)>,
    pub init: Option<Vec<u8>>,
    pub segment: Option<Vec<u8>>,
}

impl PacketWork {
    /// The packet can open the muxer.
    pub open spec fn is_usable(self) -> bool {
        self.packet.is_keyframe && self.found is Some && self.size is Some && self.init is Some
    }
}

/// The segment that the muxer completed, if it did.
pub open spec fn segment_frames(segment: Option<Vec<u8>>) -> Seq<Segment> {
    match segment {
        Some(bytes) => seq![Segment { is_init: false, bytes }],
        None => Seq::empty(),
    }
}

/// What the loop does with one packet, from its arrival to the last answer of the muxer: the state
/// after it, and the segments handed to the channel.
pub open spec fn packet_run(state: MuxState, work: PacketWork) -> (MuxState, Seq<Segment>) {
    let (step, state) = state.arrived().on_received(Received::Event(work.packet));
    match step {
        MuxStep::Append(_) => (state, segment_frames(work.segment)),
        MuxStep::FindParameterSets(packet) => {
            let (step, state) = state.on_parameter_sets(packet, work.found);
            match step {
                MuxStep::ParseSize(packet, sets) => {
                    let (step, state) = state.on_size(packet, sets, work.size);
                    match step {
                        MuxStep::BuildInit(packet, _, _) => {
                            let (step, state) = state.on_init(packet, work.init);
                            match work.init {
                                Some(bytes) => (
                                    state,
                                    seq![Segment { is_init: true, bytes }]
                                        + segment_frames(work.segment),
                                ),
                                None => (state, Seq::empty()),
                            }
                        },
                        _ => (state, Seq::empty()),
                    }
                },
                _ => (state, Seq::empty()),
            }
        },
        _ => (state, Seq::empty()),
    }
}

/// What a fresh loop does with a run of packets.
pub open spec fn mux_run(work: Seq<PacketWork>) -> (MuxState, Seq<Segment>)
    decreases work.len(),
{
    if work.len() == 0 {
        (MuxState::fresh(), Seq::empty())
    } else {
        let (state, frames) = mux_run(work.drop_last());
        let (after, more) = packet_run(state, work.last());
        (after, frames + more)
    }
}

/// The frontend gets exactly one init segment, before any media segment, and gets it as soon as a
/// packet can open the muxer. Until then nothing is sent and every packet is kept, in order; from
/// then on nothing is kept.
pub proof fn law_init_first_and_once(work: Seq<PacketWork>)
    ensures
        ({
            let (state, frames) = mux_run(work);
            &&& state.init_emitted <==> exists|i: int|
                0 <= i < work.len() && (#[trigger] work[i]).is_usable()
            &&& state.init_emitted <==> frames.len() > 0
            &&& frames.len() > 0 ==> frames[0].is_init
            &&& forall|i: int|
                0 < i < frames.len() ==> !(#[trigger] frames[i]).is_init
            &&& state.init_emitted ==> state.kept.len() == 0
            &&& !state.init_emitted ==> state.kept == work.map_values(|w: PacketWork| w.packet)
        }),
    decreases work.len(),
{
    if work.len() == 0 {
        assert(mux_run(work).0.kept =~= work.map_values(|w: PacketWork| w.packet));
    } else {
        let front = work.drop_last();
        let last = work.last();
        law_init_first_and_once(front);
        let (state, frames) = mux_run(front);
        let (after, more) = packet_run(state, last);
        assert(work[work.len() - 1] == last);
        if state.init_emitted {
            let i = choose|i: int| 0 <= i < front.len() && (#[trigger] front[i]).is_usable();
            assert(work[i] == front[i]);
            assert(work[i].is_usable());
        } else {
            assert forall|i: int| 0 <= i < front.len() implies !(#[trigger] work[i]).is_usable() by {
                assert(work[i] == front[i]);
            }
            assert(!last.is_usable() ==> after.kept =~= work.map_values(
                |w: PacketWork| w.packet,
            ));
        }
    }
}

/// The init segment that the frontend gets is the one made from the first packet that could open
/// the muxer.
pub proof fn law_init_of_first_usable(work: Seq<PacketWork>, k: int)
    requires
        0 <= k < work.len(),
        work[k].is_usable(),
        forall|i: int| 0 <= i < k ==> !(#[trigger] work[i]).is_usable(),
    ensures
        mux_run(work).1.len() > 0,
        mux_run(work).1[0] == (Segment { is_init: true, bytes: work[k].init->0 }),
    decreases work.len(),
{
    let front = work.drop_last();
    if k < work.len() - 1 {
        assert(front[k] == work[k]);
        assert forall|i: int| 0 <= i < k implies !(#[trigger] front[i]).is_usable() by {
            assert(front[i] == work[i]);
        }
        law_init_of_first_usable(front, k);
    } else {
        law_init_first_and_once(front);
        assert forall|i: int| 0 <= i < front.len() implies !(#[trigger] front[i]).is_usable() by {
            assert(front[i] == work[i]);
        }
        assert(mux_run(front).1.len() == 0);
        assert(mux_run(work).1[0] == packet_run(mux_run(front).0, work.last()).1[0]);
    }
}

/// What the mux loop needs of the surrounding program.
pub trait MuxHost: Sized {
    /// Has the generation's stop flag been raised?
    fn stop_requested(self) -> (r: (Self, bool));

    /// Waits for a packet, but no longer than this.
    fn receive(self, wait_ns: u64) -> (r: (Self, Received<EncodedPacket>));

    /// Looks for parameter sets in a packet.
    fn find_parameter_sets(self, packet: &EncodedPacket) -> (r: (Self, Option<ParameterSets>));

    /// Parses the picture size, width and height as displayed, out of parameter sets.
    fn parse_size(self, sets: &ParameterSets) -> (r: (Self, Option<(u32, u32)>));

    /// Opens a muxer and writes an init segment.
    fn build_init(self, sets: &ParameterSets, params: MuxerParams) -> (r: (Self, Option<Vec<u8>>));

    /// Gives a packet to the muxer, which may complete a media segment with it.
    fn append(self, packet: &EncodedPacket) -> (r: (Self, Option<Vec<u8>>));

    /// Asks the sender for a keyframe.
    fn request_keyframe(self) -> (r: (Self, Result<(), TransportError>));

    /// Keeps the counters where the diagnostics find them.
    fn record(self, counters: BridgeCounters) -> (after: Self);
}

/// What the mux loop works with: its host, the channel to the frontend, and what it has counted.
pub struct MuxOutlet<H, C> {
    pub host: H,
    pub channel: C,
    pub counters: BridgeCounters,
}

/// A call that the mux loop makes: to its host, or with a segment to the channel.
pub enum MuxCall {
    StopRequested(bool),
    Receive { wait_ns: u64, received: Received<EncodedPacket> },
    FindParameterSets { packet: EncodedPacket, found: Option<ParameterSets> },
    ParseSize { sets: ParameterSets, size: Option<(u32, u32)> },
    BuildInit { sets: ParameterSets, params: MuxerParams, init: Option<Vec<u8>> },
    Append { packet: EncodedPacket, segment: Option<Vec<u8>> },
    RequestKeyframe(Result<(), TransportError>),
    EmitInit(Vec<u8>),
    EmitSegment(Vec<u8>),
    /// The counters are recorded as they are.
    Record,
}

impl<H, C> MuxOutlet<H, C> {
    /// Nothing but the host has changed.
    pub open spec fn kept_by(self, after: Self) -> bool {
        after.channel == self.channel && after.counters == self.counters
    }
}

impl<H: MuxHost, C: ChannelLike> HostCall<MuxOutlet<H, C>> for MuxCall {
    open spec fn made(self, before: MuxOutlet<H, C>, after: MuxOutlet<H, C>) -> bool {
        match self {
            MuxCall::StopRequested(stop) => before.kept_by(after) && call_ensures(
                H::stop_requested,
                (before.host,),
                (after.host, stop),
            ),
            MuxCall::Receive { wait_ns, received } => before.kept_by(after) && call_ensures(
                H::receive,
                (before.host, wait_ns),
                (after.host, received),
            ),
            MuxCall::FindParameterSets { packet, found } => before.kept_by(after) && call_ensures(
                H::find_parameter_sets,
                (before.host, &packet),
                (after.host, found),
            ),
            MuxCall::ParseSize { sets, size } => before.kept_by(after) && call_ensures(
                H::parse_size,
                (before.host, &sets),
                (after.host, size),
            ),
            MuxCall::BuildInit { sets, params, init } => before.kept_by(after) && call_ensures(
                H::build_init,
                (before.host, &sets, params),
                (after.host, init),
            ),
            MuxCall::Append { packet, segment } => before.kept_by(after) && call_ensures(
                H::append,
                (before.host, &packet),
                (after.host, segment),
            ),
            MuxCall::RequestKeyframe(asked) => {
                &&& call_ensures(H::request_keyframe, (before.host,), (after.host, asked))
                &&& after.channel == before.channel
                &&& after.counters == before.counters.with_request(asked is Ok)
            },
            MuxCall::EmitInit(bytes) => after.host == before.host && channel::is_emission(
                before.channel,
                before.counters,
                true,
                bytes,
                after.channel,
                after.counters,
            ),
            MuxCall::EmitSegment(bytes) => after.host == before.host && channel::is_emission(
                before.channel,
                before.counters,
                false,
                bytes,
                after.channel,
                after.counters,
            ),
            MuxCall::Record => before.kept_by(after) && call_ensures(
                H::record,
                (before.host, before.counters),
                after.host,
            ),
        }
    }
}

impl<H: MuxHost, C: ChannelLike> MuxOutlet<H, C> {
    /// Reads the stop flag.
    fn stop_requested(self) -> (r: (Self, bool))
        ensures
            MuxCall::StopRequested(r.1).made(self, r.0),
    {
        let (host, stop) = self.host.stop_requested();
        (MuxOutlet { host, channel: self.channel, counters: self.counters }, stop)
    }

    /// Waits for a packet.
    fn receive(self, wait_ns: u64) -> (r: (Self, Received<EncodedPacket>))
        ensures
            (MuxCall::Receive { wait_ns, received: r.1 }).made(self, r.0),
    {
        let (host, received) = self.host.receive(wait_ns);
        (MuxOutlet { host, channel: self.channel, counters: self.counters }, received)
    }

    /// Looks for parameter sets.
    fn find_parameter_sets(self, packet: &EncodedPacket) -> (r: (Self, Option<ParameterSets>))
        ensures
            (MuxCall::FindParameterSets { packet: *packet, found: r.1 }).made(self, r.0),
    {
        let (host, found) = self.host.find_parameter_sets(packet);
        (MuxOutlet { host, channel: self.channel, counters: self.counters }, found)
    }

    /// Parses the picture size.
    fn parse_size(self, sets: &ParameterSets) -> (r: (Self, Option<(u32, u32)>))
        ensures
            (MuxCall::ParseSize { sets: *sets, size: r.1 }).made(self, r.0),
    {
        let (host, size) = self.host.parse_size(sets);
        (MuxOutlet { host, channel: self.channel, counters: self.counters }, size)
    }

    /// Opens a muxer.
    fn build_init(self, sets: &ParameterSets, params: MuxerParams) -> (r: (Self, Option<Vec<u8>>))
        ensures
            (MuxCall::BuildInit { sets: *sets, params, init: r.1 }).made(self, r.0),
    {
        let (host, init) = self.host.build_init(sets, params);
        (MuxOutlet { host, channel: self.channel, counters: self.counters }, init)
    }

    /// Gives a packet to the muxer.
    fn append(self, packet: &EncodedPacket) -> (r: (Self, Option<Vec<u8>>))
        ensures
            (MuxCall::Append { packet: *packet, segment: r.1 }).made(self, r.0),
    {
        let (host, segment) = self.host.append(packet);
        (MuxOutlet { host, channel: self.channel, counters: self.counters }, segment)
    }

    /// Asks for a keyframe, and counts it.
    fn request_keyframe(self) -> (r: (Self, Ghost<Result<(), TransportError>>))
        ensures
            MuxCall::RequestKeyframe(r.1@).made(self, r.0),
    {
        let (host, asked) = self.host.request_keyframe();
        let mut counters = self.counters;
        counters.count_request(asked.is_ok());
        (MuxOutlet { host, channel: self.channel, counters }, Ghost(asked))
    }

    /// Sends a segment, and counts what came of it.
    fn emit(self, is_init: bool, bytes: Vec<u8>) -> (after: Self)
        ensures
            emission(is_init, bytes).made(self, after),
    {
        let mut counters = self.counters;
        let channel = if is_init {
            emit_init(self.channel, &mut counters, bytes)
        } else {
            emit_segment(self.channel, &mut counters, bytes)
        };
        MuxOutlet { host: self.host, channel, counters }
    }

    /// Records the counters.
    fn record(self) -> (after: Self)
        ensures
            MuxCall::Record.made(self, after),
    {
        let host = self.host.record(self.counters);
        MuxOutlet { host, channel: self.channel, counters: self.counters }
    }
}

/// The call that sends a segment.
pub open spec fn emission(is_init: bool, bytes: Vec<u8>) -> MuxCall {
    if is_init {
        MuxCall::EmitInit(bytes)
    } else {
        MuxCall::EmitSegment(bytes)
    }
}

/// One turn of the mux loop: the stop flag it reads, what the wait brings if it waits, what
/// comes of a keyframe request if there is one, and what the muxer answers where it is asked.
pub struct MuxTurn {
    pub stop_flag: bool,
    pub received: Received<EncodedPacket>,
    pub asked: Result<(), TransportError>,
    pub found: Option<ParameterSets>,
    pub size: Option<(u32, u32)>,
    pub init: Option<Vec<u8>>,
    pub segment: Option<Vec<u8>>,
}

impl MuxTurn {
    /// The loop is left in this turn.
    pub open spec fn leaves(self) -> bool {
        self.stop_flag || self.received is Disconnected
    }

    /// The packet of this turn, with what the muxer answers.
    pub open spec fn work(self, packet: EncodedPacket) -> PacketWork {
        PacketWork {
            packet,
            asked: self.asked,
            found: self.found,
            size: self.size,
            init: self.init,
            segment: self.segment,
        }
    }
}

/// The packets of a run of turns, in order.
pub open spec fn packets_of(turns: Seq<MuxTurn>) -> Seq<PacketWork>
    decreases turns.len(),
{
    if turns.len() == 0 {
        Seq::empty()
    } else {
        let front = packets_of(turns.drop_last());
        match turns.last().received {
            Received::Event(packet) if !turns.last().stop_flag => front.push(
                turns.last().work(packet),
            ),
            _ => front,
        }
    }
}

/// What a muxer for pictures of this size is opened with.
pub open spec fn params_for(size: (u32, u32)) -> MuxerParams {
    MuxerParams {
        width: size.0,
        height: size.1,
        rate_num: MUX_RATE_NUM,
        rate_den: MUX_RATE_DEN,
    }
}

/// The calls that give a packet to the open muxer, and send the segment that it completes.
pub open spec fn append_calls(work: PacketWork) -> Seq<MuxCall> {
    let given = seq![MuxCall::Append { packet: work.packet, segment: work.segment }];
    match work.segment {
        Some(bytes) => given.push(MuxCall::EmitSegment(bytes)).push(MuxCall::Record),
        None => given,
    }
}

/// The calls that open the muxer with a keyframe, send the init segment, and give the keyframe to
/// the muxer. Nothing more is asked after the first answer that is no use.
pub open spec fn open_calls(work: PacketWork) -> Seq<MuxCall> {
    let find = seq![MuxCall::FindParameterSets { packet: work.packet, found: work.found }];
    match (work.found, work.size, work.init) {
        (None, _, _) => find,
        (Some(sets), None, _) => find.push(MuxCall::ParseSize { sets, size: work.size }),
        (Some(sets), Some(size), init) => {
            let build = find.push(MuxCall::ParseSize { sets, size: work.size }).push(
                MuxCall::BuildInit { sets, params: params_for(size), init },
            );
            match init {
                Some(bytes) => build.push(MuxCall::EmitInit(bytes)).push(MuxCall::Record)
                    + append_calls(work),
                None => build,
            }
        },
    }
}

/// The calls that ask for a keyframe, which the first packet brings.
pub open spec fn request_calls(state: MuxState, work: PacketWork) -> Seq<MuxCall> {
    if state.pli_fired {
        Seq::empty()
    } else {
        seq![MuxCall::RequestKeyframe(work.asked), MuxCall::Record]
    }
}

/// The calls by which a packet becomes segments.
pub open spec fn media_calls(state: MuxState, work: PacketWork) -> Seq<MuxCall> {
    if state.init_emitted {
        append_calls(work)
    } else if work.packet.is_keyframe {
        open_calls(work)
    } else {
        Seq::empty()
    }
}

/// The calls for one packet.
pub open spec fn packet_calls(state: MuxState, work: PacketWork) -> Seq<MuxCall> {
    request_calls(state, work) + media_calls(state, work)
}

/// The calls of one turn.
pub open spec fn turn_calls(state: MuxState, turn: MuxTurn) -> Seq<MuxCall> {
    let read = seq![MuxCall::StopRequested(turn.stop_flag)];
    if turn.stop_flag {
        read
    } else {
        read.push(MuxCall::Receive { wait_ns: MUX_WAIT_NS, received: turn.received })
            + match turn.received {
            Received::Event(packet) => packet_calls(state, turn.work(packet)),
            _ => Seq::empty(),
        }
    }
}

/// The calls of the mux loop over a run of turns.
pub open spec fn mux_calls(turns: Seq<MuxTurn>) -> Seq<MuxCall>
    decreases turns.len(),
{
    if turns.len() == 0 {
        Seq::empty()
    } else {
        let earlier = turns.drop_last();
        mux_calls(earlier) + turn_calls(mux_run(packets_of(earlier)).0, turns.last())
    }
}

/// The turns of the mux loop, from the first to the one in which it leaves.
pub open spec fn is_mux_run(turns: Seq<MuxTurn>) -> bool {
    turns::is_row(turns, |turn: MuxTurn| turn.leaves())
}

/// The segments that a row of calls sends, in order.
pub open spec fn sent_by(calls: Seq<MuxCall>) -> Seq<Segment>
    decreases calls.len(),
{
    if calls.len() == 0 {
        Seq::empty()
    } else {
        let earlier = sent_by(calls.drop_last());
        match calls.last() {
            MuxCall::EmitInit(bytes) => earlier.push(Segment { is_init: true, bytes }),
            MuxCall::EmitSegment(bytes) => earlier.push(Segment { is_init: false, bytes }),
            _ => earlier,
        }
    }
}

/// What came of the keyframe requests in a row of calls, in order.
pub open spec fn asked_by(calls: Seq<MuxCall>) -> Seq<Result<(), TransportError>>
    decreases calls.len(),
{
    if calls.len() == 0 {
        Seq::empty()
    } else {
        let earlier = asked_by(calls.drop_last());
        match calls.last() {
            MuxCall::RequestKeyframe(asked) => earlier.push(asked),
            _ => earlier,
        }
    }
}

/// What two rows of calls send and ask for, one after the other.
proof fn lemma_joined_calls(first: Seq<MuxCall>, second: Seq<MuxCall>)
    ensures
        sent_by(first + second) == sent_by(first) + sent_by(second),
        asked_by(first + second) == asked_by(first) + asked_by(second),
    decreases second.len(),
{
    if second.len() == 0 {
        assert(first + second =~= first);
        assert(sent_by(first) + sent_by(second) =~= sent_by(first));
        assert(asked_by(first) + asked_by(second) =~= asked_by(first));
    } else {
        lemma_joined_calls(first, second.drop_last());
        assert((first + second).drop_last() =~= first + second.drop_last());
        assert((first + second).last() == second.last());
        assert(sent_by(first + second) =~= sent_by(first) + sent_by(second));
        assert(asked_by(first + second) =~= asked_by(first) + asked_by(second));
    }
}

/// What a call more sends and asks for.
proof fn lemma_call_more(calls: Seq<MuxCall>, call: MuxCall)
    ensures
        sent_by(calls.push(call)) == match call {
            MuxCall::EmitInit(bytes) => sent_by(calls).push(Segment { is_init: true, bytes }),
            MuxCall::EmitSegment(bytes) => sent_by(calls).push(Segment { is_init: false, bytes }),
            _ => sent_by(calls),
        },
        asked_by(calls.push(call)) == match call {
            MuxCall::RequestKeyframe(asked) => asked_by(calls).push(asked),
            _ => asked_by(calls),
        },
{
    assert(calls.push(call).drop_last() =~= calls);
}

/// What the calls that give a packet to the muxer send.
proof fn lemma_append_calls(work: PacketWork)
    ensures
        sent_by(append_calls(work)) == segment_frames(work.segment),
        asked_by(append_calls(work)) == Seq::<Result<(), TransportError>>::empty(),
{
    let nothing = Seq::<MuxCall>::empty();
    let given = MuxCall::Append { packet: work.packet, segment: work.segment };
    lemma_call_more(nothing, given);
    if let Some(bytes) = work.segment {
        let call = MuxCall::EmitSegment(bytes);
        lemma_call_more(nothing.push(given), call);
        lemma_call_more(nothing.push(given).push(call), MuxCall::Record);
        assert(append_calls(work) =~= nothing.push(given).push(call).push(MuxCall::Record));
    } else {
        assert(append_calls(work) =~= nothing.push(given));
    }
    assert(sent_by(append_calls(work)) =~= segment_frames(work.segment));
}

/// What the calls that open the muxer send.
proof fn lemma_open_calls(work: PacketWork)
    ensures
        sent_by(open_calls(work)) == (if work.found is Some && work.size is Some {
            match work.init {
                Some(bytes) => seq![Segment { is_init: true, bytes }] + segment_frames(
                    work.segment,
                ),
                None => Seq::empty(),
            }
        } else {
            Seq::empty()
        }),
        asked_by(open_calls(work)) == Seq::<Result<(), TransportError>>::empty(),
{
    let nothing = Seq::<MuxCall>::empty();
    let find = MuxCall::FindParameterSets { packet: work.packet, found: work.found };
    lemma_call_more(nothing, find);
    assert(seq![find] =~= nothing.push(find));
    if work.found is Some {
        let parse = MuxCall::ParseSize { sets: work.found->0, size: work.size };
        lemma_call_more(nothing.push(find), parse);
        if work.size is Some {
            let build = MuxCall::BuildInit {
                sets: work.found->0,
                params: params_for(work.size->0),
                init: work.init,
            };
            let built = nothing.push(find).push(parse).push(build);
            lemma_call_more(nothing.push(find).push(parse), build);
            if let Some(bytes) = work.init {
                let call = MuxCall::EmitInit(bytes);
                let out = built.push(call).push(MuxCall::Record);
                lemma_call_more(built, call);
                lemma_call_more(built.push(call), MuxCall::Record);
                lemma_append_calls(work);
                lemma_joined_calls(out, append_calls(work));
                assert(open_calls(work) =~= out + append_calls(work));
                assert(sent_by(open_calls(work)) =~= seq![Segment { is_init: true, bytes }]
                    + segment_frames(work.segment));
                assert(asked_by(open_calls(work)) =~= Seq::empty());
            }
        }
    }
}

/// What the calls for one packet send and ask for.
proof fn lemma_packet_calls(state: MuxState, work: PacketWork)
    ensures
        sent_by(packet_calls(state, work)) == packet_run(state, work).1,
        asked_by(packet_calls(state, work)) == (if state.pli_fired {
            Seq::empty()
        } else {
            seq![work.asked]
        }),
{
    let nothing = Seq::<MuxCall>::empty();
    let request = request_calls(state, work);
    let media = media_calls(state, work);
    let call = MuxCall::RequestKeyframe(work.asked);
    lemma_call_more(nothing, call);
    lemma_call_more(nothing.push(call), MuxCall::Record);
    if !state.pli_fired {
        assert(request =~= nothing.push(call).push(MuxCall::Record));
    }
    lemma_append_calls(work);
    lemma_open_calls(work);
    lemma_joined_calls(request, media);
    assert(sent_by(request) =~= Seq::empty());
    assert(asked_by(media) =~= Seq::empty());
    assert(sent_by(packet_calls(state, work)) =~= packet_run(state, work).1);
    assert(asked_by(packet_calls(state, work)) =~= (if state.pli_fired {
        Seq::empty()
    } else {
        seq![work.asked]
    }));
}

/// A loop has asked for a keyframe once a packet has come.
proof fn lemma_fired(work: Seq<PacketWork>)
    ensures
        mux_run(work).0.pli_fired == (work.len() > 0),
    decreases work.len(),
{
    if work.len() > 0 {
        lemma_fired(work.drop_last());
    }
}

/// What the calls of the loop send is what `mux_run` says of the packets it received. The sender is
/// asked for a keyframe exactly once, on the first packet, and not at all if none comes.
pub proof fn law_calls_follow_the_run(turns: Seq<MuxTurn>)
    ensures
        sent_by(mux_calls(turns)) == mux_run(packets_of(turns)).1,
        asked_by(mux_calls(turns)) == (if packets_of(turns).len() > 0 {
            seq![packets_of(turns)[0].asked]
        } else {
            Seq::empty()
        }),
    decreases turns.len(),
{
    if turns.len() > 0 {
        let earlier = turns.drop_last();
        let turn = turns.last();
        let state = mux_run(packets_of(earlier)).0;
        let nothing = Seq::<MuxCall>::empty();
        law_calls_follow_the_run(earlier);
        lemma_fired(packets_of(earlier));
        lemma_joined_calls(mux_calls(earlier), turn_calls(state, turn));
        let read = nothing.push(MuxCall::StopRequested(turn.stop_flag));
        lemma_call_more(nothing, MuxCall::StopRequested(turn.stop_flag));
        if turn.stop_flag {
            assert(turn_calls(state, turn) =~= read);
            assert(sent_by(mux_calls(turns)) =~= sent_by(mux_calls(earlier)));
            assert(asked_by(mux_calls(turns)) =~= asked_by(mux_calls(earlier)));
        } else {
            let wait = MuxCall::Receive { wait_ns: MUX_WAIT_NS, received: turn.received };
            lemma_call_more(read, wait);
            if let Received::Event(packet) = turn.received {
                let work = turn.work(packet);
                lemma_packet_calls(state, work);
                lemma_joined_calls(read.push(wait), packet_calls(state, work));
                assert(turn_calls(state, turn) =~= read.push(wait) + packet_calls(state, work));
                assert(packets_of(turns).drop_last() =~= packets_of(earlier));
                assert(sent_by(mux_calls(turns)) =~= mux_run(packets_of(turns)).1);
                if packets_of(earlier).len() > 0 {
                    assert(packets_of(turns)[0] == packets_of(earlier)[0]);
                    assert(asked_by(mux_calls(turns)) =~= asked_by(mux_calls(earlier)));
                } else {
                    assert(packets_of(turns) =~= seq![work]);
                    assert(asked_by(mux_calls(turns)) =~= seq![work.asked]);
                }
            } else {
                assert(turn_calls(state, turn) =~= read.push(wait));
                assert(sent_by(mux_calls(turns)) =~= sent_by(mux_calls(earlier)));
                assert(asked_by(mux_calls(turns)) =~= asked_by(mux_calls(earlier)));
            }
        }
    }
}

/// The counters after these segments, with these outcomes, and these keyframe requests.
pub open spec fn tallied(
    counters: BridgeCounters,
    segments: Seq<Segment>,
    sends: Seq<SendCall>,
    asked: Seq<Result<(), TransportError>>,
) -> BridgeCounters {
    BridgeCounters {
        keyframe_requests_fired: fired(counters.keyframe_requests_fired, asked),
        ..channel::counted(counters, channel::emissions_of(segments, sends))
    }
}

/// The count of fired keyframe requests after these.
pub open spec fn fired(count: u64, asked: Seq<Result<(), TransportError>>) -> u64
    decreases asked.len(),
{
    if asked.len() == 0 {
        count
    } else if asked.last() is Ok {
        channel::count_up(fired(count, asked.drop_last()))
    } else {
        fired(count, asked.drop_last())
    }
}

/// What a row of calls does to the channel and the counters: each segment goes into the channel in
/// one send, as an init segment or as a media segment, in order; nothing else is sent; and the
/// counters are those that the outcomes of the sends and of the keyframe requests give.
pub proof fn law_segments_reach_the_channel<H: MuxHost, C: ChannelLike>(
    before: MuxOutlet<H, C>,
    calls: Seq<MuxCall>,
    after: MuxOutlet<H, C>,
)
    requires
        trace::leads(before, calls, after),
    ensures
        exists|sends: Seq<SendCall>|
            {
                &&& #[trigger] channel::carry(sends, sent_by(calls))
                &&& trace::leads(before.channel, sends, after.channel)
                &&& after.counters == tallied(
                    before.counters,
                    sent_by(calls),
                    sends,
                    asked_by(calls),
                )
            },
    decreases calls.len(),
{
    if calls.len() == 0 {
        let hosts = choose|hosts: Seq<MuxOutlet<H, C>>| #[trigger]
            trace::is_path(hosts, calls) && hosts[0] == before && hosts.last() == after;
        assert(hosts.last() == hosts[0]);
        let sends = Seq::<SendCall>::empty();
        trace::lemma_no_call::<C, SendCall>(before.channel);
        assert(channel::carry(sends, sent_by(calls)));
        assert(channel::emissions_of(sent_by(calls), sends).len() == 0);
    } else {
        let front = calls.drop_last();
        let call = calls.last();
        let mid = trace::lemma_last_call(before, calls, after);
        law_segments_reach_the_channel(before, front, mid);
        let sends = choose|sends: Seq<SendCall>|
            {
                &&& #[trigger] channel::carry(sends, sent_by(front))
                &&& trace::leads(before.channel, sends, mid.channel)
                &&& mid.counters == tallied(
                    before.counters,
                    sent_by(front),
                    sends,
                    asked_by(front),
                )
            };
        match call {
            MuxCall::EmitInit(bytes) => {
                lemma_sent_on(before, front, mid, sends, true, bytes, after, calls);
            },
            MuxCall::EmitSegment(bytes) => {
                lemma_sent_on(before, front, mid, sends, false, bytes, after, calls);
            },
            MuxCall::RequestKeyframe(asked) => {
                assert(asked_by(calls).drop_last() =~= asked_by(front));
                assert(channel::carry(sends, sent_by(calls)));
            },
            _ => {
                assert(channel::carry(sends, sent_by(calls)));
            },
        }
    }
}

/// What a run of the mux loop does to the channel and the counters: the segments that `mux_run` says
/// go into the channel, each in one send, and the one keyframe request is counted if it was fired.
pub proof fn law_run_reaches_the_channel<H: MuxHost, C: ChannelLike>(
    before: MuxOutlet<H, C>,
    turns: Seq<MuxTurn>,
    after: MuxOutlet<H, C>,
)
    requires
        trace::leads(before, mux_calls(turns), after),
    ensures
        exists|sends: Seq<SendCall>|
            {
                &&& #[trigger] channel::carry(sends, mux_run(packets_of(turns)).1)
                &&& trace::leads(before.channel, sends, after.channel)
                &&& after.counters == tallied(
                    before.counters,
                    mux_run(packets_of(turns)).1,
                    sends,
                    if packets_of(turns).len() > 0 {
                        seq![packets_of(turns)[0].asked]
                    } else {
                        Seq::empty()
                    },
                )
            },
{
    law_calls_follow_the_run(turns);
    law_segments_reach_the_channel(before, mux_calls(turns), after);
}

/// One segment more in the channel.
proof fn lemma_sent_on<H: MuxHost, C: ChannelLike>(
    before: MuxOutlet<H, C>,
    front: Seq<MuxCall>,
    mid: MuxOutlet<H, C>,
    sends: Seq<SendCall>,
    is_init: bool,
    bytes: Vec<u8>,
    after: MuxOutlet<H, C>,
    calls: Seq<MuxCall>,
)
    requires
        calls.len() > 0,
        front == calls.drop_last(),
        calls.last() == emission(is_init, bytes),
        calls.last().made(mid, after),
        channel::carry(sends, sent_by(front)),
        trace::leads(before.channel, sends, mid.channel),
        mid.counters == tallied(before.counters, sent_by(front), sends, asked_by(front)),
    ensures
        exists|sends: Seq<SendCall>|
            {
                &&& #[trigger] channel::carry(sends, sent_by(calls))
                &&& trace::leads(before.channel, sends, after.channel)
                &&& after.counters == tallied(
                    before.counters,
                    sent_by(calls),
                    sends,
                    asked_by(calls),
                )
            },
{
    let kind = channel::segment_kind(is_init);
    let result = choose|r: Result<(), String>| #[trigger]
        call_ensures(C::send_raw, (mid.channel, kind, bytes), (after.channel, r))
            && after.counters == mid.counters.with(is_init, r is Ok);
    let send = SendCall { discriminant: kind, bytes, result };
    let all = sends.push(send);
    let segments = sent_by(calls);
    trace::lemma_called(before.channel, sends, mid.channel, send, after.channel);
    assert(segments =~= sent_by(front).push(Segment { is_init, bytes }));
    assert forall|i: int| 0 <= i < all.len() implies (#[trigger] all[i]).discriminant
        == channel::segment_kind(segments[i].is_init) && all[i].bytes == segments[i].bytes by {
        if i < sends.len() {
            assert(sends[i].discriminant == channel::segment_kind(sent_by(front)[i].is_init));
        }
    }
    assert(channel::carry(all, segments));
    assert(channel::emissions_of(segments, all).drop_last() =~= channel::emissions_of(
        sent_by(front),
        sends,
    ));
}

/// Gives a packet to the open muxer and sends the segment that it completes: the segment.
fn append_on<H: MuxHost, C: ChannelLike>(host: MuxOutlet<H, C>, packet: &EncodedPacket) -> (r: (
    MuxOutlet<H, C>,
    Ghost<Option<Vec<u8>>>,
))
    ensures
        forall|work: PacketWork|
            work.packet == *packet && work.segment == r.1@ ==> trace::leads(
                host,
                #[trigger] append_calls(work),
                r.0,
            ),
{
    let ghost first = host;
    let ghost nothing = Seq::<MuxCall>::empty();
    let (mid, segment) = host.append(packet);
    let ghost given = MuxCall::Append { packet: *packet, segment };
    let ghost completed = segment;
    proof {
        trace::lemma_called(first, nothing, first, given, mid);
    }
    let mut at = mid;
    if let Some(bytes) = segment {
        let ghost call = MuxCall::EmitSegment(bytes);
        let sent = at.emit(false, bytes);
        at = sent.record();
        proof {
            trace::lemma_called(first, nothing.push(given), mid, call, sent);
            trace::lemma_called(
                first,
                nothing.push(given).push(call),
                sent,
                MuxCall::Record,
                at,
            );
        }
    }
    (at, Ghost(completed))
}

/// Does with one packet what the loop does with it.
fn mux_packet<H: MuxHost, C: ChannelLike>(
    host: MuxOutlet<H, C>,
    mux: &mut Mux,
    packet: EncodedPacket,
) -> (r: (MuxOutlet<H, C>, Ghost<PacketWork>))
    ensures
        r.1@.packet == packet,
        final(mux)@ == packet_run(old(mux)@, r.1@).0,
        trace::leads(host, packet_calls(old(mux)@, r.1@), r.0),
{
    let ghost first = host;
    let ghost state = mux@;
    let ghost mut calls = Seq::<MuxCall>::empty();
    let ghost mut work = PacketWork {
        packet,
        asked: Ok(()),
        found: None,
        size: None,
        init: None,
        segment: None,
    };
    let mut at = host;
    if mux.packet_arrived() {
        let ghost before = at;
        let (next, asked) = at.request_keyframe();
        at = next.record();
        proof {
            work.asked = asked@;
            let call = MuxCall::RequestKeyframe(asked@);
            trace::lemma_called(first, calls, before, call, next);
            trace::lemma_called(first, calls.push(call), next, MuxCall::Record, at);
            calls = calls.push(call).push(MuxCall::Record);
        }
    }
    let ghost asked_for = calls;
    assert(calls =~= request_calls(state, work));
    let step = mux.receive(Received::Event(packet));
    let step = match step {
        MuxStep::FindParameterSets(packet) => {
            let ghost before = at;
            let (next, found) = at.find_parameter_sets(&packet);
            at = next;
            proof {
                work.found = found;
                let call = MuxCall::FindParameterSets { packet, found };
                trace::lemma_called(first, calls, before, call, at);
                calls = calls.push(call);
            }
            mux.found_parameter_sets(packet, found)
        },
        step => step,
    };
    let step = match step {
        MuxStep::ParseSize(packet, sets) => {
            let ghost before = at;
            let (next, size) = at.parse_size(&sets);
            at = next;
            proof {
                work.size = size;
                let call = MuxCall::ParseSize { sets, size };
                trace::lemma_called(first, calls, before, call, at);
                calls = calls.push(call);
            }
            mux.parsed_size(packet, sets, size)
        },
        step => step,
    };
    let step = match step {
        MuxStep::BuildInit(packet, sets, params) => {
            let ghost before = at;
            let (next, init) = at.build_init(&sets, params);
            at = next;
            proof {
                work.init = init;
                let call = MuxCall::BuildInit { sets, params, init };
                trace::lemma_called(first, calls, before, call, at);
                calls = calls.push(call);
            }
            let step = mux.built_init(packet, &init);
            if let Some(bytes) = init {
                let ghost before = at;
                let ghost call = MuxCall::EmitInit(bytes);
                let sent = at.emit(true, bytes);
                at = sent.record();
                proof {
                    trace::lemma_called(first, calls, before, call, sent);
                    trace::lemma_called(first, calls.push(call), sent, MuxCall::Record, at);
                    calls = calls.push(call).push(MuxCall::Record);
                }
            }
            step
        },
        step => step,
    };
    match step {
        MuxStep::Append(packet) => {
            let ghost before = at;
            let (next, segment) = append_on(at, &packet);
            at = next;
            proof {
                work.segment = segment@;
                trace::lemma_joined(first, calls, before, append_calls(work), at);
                calls = calls + append_calls(work);
            }
        },
        _ => {},
    }
    assert(asked_for == request_calls(state, work));
    assert(packet_calls(state, work) =~= calls);
    (at, Ghost(work))
}

/// Turns received packets into segments for the frontend, until it is stopped or the packets end.
/// The first packet makes it ask the sender for a keyframe.
pub fn mux_thread<H: MuxHost, C: ChannelLike>(
    host: H,
    channel: C,
    counters: BridgeCounters,
) -> (after: MuxOutlet<H, C>)
    ensures
        exists|turns: Seq<MuxTurn>|
            is_mux_run(turns) && trace::leads(
                (MuxOutlet { host, channel, counters }),
                #[trigger] mux_calls(turns),
                after,
            ),
{
    let mut at = MuxOutlet { host, channel, counters };
    let ghost start = at;
    let mut mux = Mux::new();
    let mut turns_left: u64 = u64::MAX;
    let ghost mut turns: Seq<MuxTurn> = Seq::empty();
    while turns_left > 0
        invariant
            start == (MuxOutlet { host, channel, counters }),
            turns.len() + turns_left == u64::MAX,
            mux@ == mux_run(packets_of(turns)).0,
            forall|i: int| 0 <= i < turns.len() ==> !(#[trigger] turns[i]).leaves(),
            trace::leads(start, mux_calls(turns), at),
        decreases turns_left,
    {
        turns_left = turns_left - 1;
        let ghost state = mux@;
        let ghost mut calls = mux_calls(turns);
        let ghost mut turn = MuxTurn {
            stop_flag: true,
            received: Received::Timeout,
            asked: Ok(()),
            found: None,
            size: None,
            init: None,
            segment: None,
        };
        let ghost before = at;
        let (next, stop_flag) = at.stop_requested();
        at = next;
        proof {
            let call = MuxCall::StopRequested(stop_flag);
            trace::lemma_called(start, calls, before, call, at);
            calls = calls.push(call);
        }
        let wait: u64 = match mux_wait(stop_flag) {
            Some(wait) => wait,
            None => {
                proof {
                    assert(turns.push(turn).drop_last() =~= turns);
                    assert(mux_calls(turns.push(turn)) =~= calls);
                    assert(is_mux_run(turns.push(turn)));
                }
                return at;
            },
        };
        let ghost before = at;
        let (next, received) = at.receive(wait);
        at = next;
        proof {
            let call = MuxCall::Receive { wait_ns: wait, received };
            trace::lemma_called(start, calls, before, call, at);
            calls = calls.push(call);
            turn.stop_flag = false;
            turn.received = received;
        }
        let mut left = false;
        match received {
            Received::Event(packet) => {
                let ghost before = at;
                let (next, work) = mux_packet(at, &mut mux, packet);
                at = next;
                proof {
                    turn.asked = work@.asked;
                    turn.found = work@.found;
                    turn.size = work@.size;
                    turn.init = work@.init;
                    turn.segment = work@.segment;
                    assert(turn.work(packet) == work@);
                    trace::lemma_joined(start, calls, before, packet_calls(state, work@), at);
                    calls = calls + packet_calls(state, work@);
                }
            },
            Received::Timeout => {},
            Received::Disconnected => {
                left = true;
            },
        }
        proof {
            let all = turns.push(turn);
            assert(all.drop_last() =~= turns);
            assert(mux_calls(all) =~= calls);
            if let Received::Event(packet) = turn.received {
                assert(packets_of(all).drop_last() =~= packets_of(turns));
            }
            turns = all;
        }
        if left {
            assert(is_mux_run(turns));
            return at;
        }
    }
    assert(is_mux_run(turns));
    at
}

/// The packets of a run are those that its turns received, in order, each with what was answered in
/// its own turn. A turn that is stopped receives none.
pub proof fn law_packets_of_a_run(turns: Seq<MuxTurn>, turn: MuxTurn)
    ensures
        packets_of(Seq::empty()) == Seq::<PacketWork>::empty(),
        packets_of(turns.push(turn)) == (match turn.received {
            Received::Event(packet) if !turn.stop_flag => packets_of(turns).push(
                PacketWork {
                    packet,
                    asked: turn.asked,
                    found: turn.found,
                    size: turn.size,
                    init: turn.init,
                    segment: turn.segment,
                },
            ),
            _ => packets_of(turns),
        }),
{
    assert(turns.push(turn).drop_last() =~= turns);
}

/// The calls by which a packet goes to the muxer, and the segment that it completes to the frontend.
spec fn appended(packet: EncodedPacket, segment: Option<Vec<u8>>) -> Seq<MuxCall> {
    seq![MuxCall::Append { packet, segment }] + (match segment {
        Some(bytes) => seq![MuxCall::EmitSegment(bytes), MuxCall::Record],
        None => Seq::empty(),
    })
}

/// An earlier packet has opened the muxer: a keyframe whose parameter sets were found and parsed, and
/// of which an init segment could be made.
pub open spec fn has_opened(turns: Seq<MuxTurn>) -> bool {
    exists|i: int|
        {
            &&& 0 <= i < packets_of(turns).len()
            &&& (#[trigger] packets_of(turns)[i]).packet.is_keyframe
            &&& packets_of(turns)[i].found is Some
            &&& packets_of(turns)[i].size is Some
            &&& packets_of(turns)[i].init is Some
        }
}

/// What the mux loop does in a turn that is stopped, or in which no packet comes: it reads the stop
/// flag, waits a fifth of a second if that is down, and does nothing more.
pub proof fn law_turn_without_a_packet(turns: Seq<MuxTurn>, turn: MuxTurn)
    ensures
        mux_calls(Seq::empty()) == Seq::<MuxCall>::empty(),
        turn.stop_flag ==> mux_calls(turns.push(turn)) == mux_calls(turns).push(
            MuxCall::StopRequested(true),
        ),
        !turn.stop_flag && turn.received !is Event ==> mux_calls(turns.push(turn)) == mux_calls(
            turns,
        ) + seq![
            MuxCall::StopRequested(false),
            MuxCall::Receive { wait_ns: 200_000_000, received: turn.received },
        ],
{
    let all = turns.push(turn);
    assert(all.drop_last() =~= turns);
    if turn.stop_flag {
        assert(mux_calls(all) =~= mux_calls(turns).push(MuxCall::StopRequested(true)));
    } else {
        let read = seq![
            MuxCall::StopRequested(false),
            MuxCall::Receive { wait_ns: 200_000_000, received: turn.received },
        ];
        if turn.received !is Event {
            assert(mux_calls(all) =~= mux_calls(turns) + read);
        }
    }
}

/// What becomes of a packet once the muxer is open: it goes to the muxer as it came, keyframe or
/// not, and a segment that it completes goes to the frontend as the muxer made it.
pub proof fn law_open_muxer_gets_every_packet(
    turns: Seq<MuxTurn>,
    turn: MuxTurn,
    packet: EncodedPacket,
)
    requires
        has_opened(turns),
        !turn.stop_flag,
        turn.received == Received::Event(packet),
    ensures
        mux_calls(turns.push(turn)) == mux_calls(turns) + seq![
            MuxCall::StopRequested(false),
            MuxCall::Receive { wait_ns: 200_000_000, received: turn.received },
            MuxCall::Append { packet, segment: turn.segment },
        ] + (match turn.segment {
            Some(bytes) => seq![MuxCall::EmitSegment(bytes), MuxCall::Record],
            None => Seq::empty(),
        }),
{
    let all = turns.push(turn);
    assert(all.drop_last() =~= turns);
    lemma_fired(packets_of(turns));
    lemma_opened(turns);
    assert(mux_calls(all) =~= mux_calls(turns) + seq![
        MuxCall::StopRequested(false),
        MuxCall::Receive { wait_ns: 200_000_000, received: turn.received },
        MuxCall::Append { packet, segment: turn.segment },
    ] + (match turn.segment {
        Some(bytes) => seq![MuxCall::EmitSegment(bytes), MuxCall::Record],
        None => Seq::empty(),
    }));
}

/// The state of the loop tells whether the muxer is open.
proof fn lemma_opened(turns: Seq<MuxTurn>)
    ensures
        mux_run(packets_of(turns)).0.init_emitted == has_opened(turns),
{
    let work = packets_of(turns);
    law_init_first_and_once(work);
    if has_opened(turns) {
        let i = choose|i: int|
            {
                &&& 0 <= i < packets_of(turns).len()
                &&& (#[trigger] packets_of(turns)[i]).packet.is_keyframe
                &&& packets_of(turns)[i].found is Some
                &&& packets_of(turns)[i].size is Some
                &&& packets_of(turns)[i].init is Some
            };
        assert(work[i].is_usable());
    }
    if mux_run(work).0.init_emitted {
        let i = choose|i: int| 0 <= i < work.len() && (#[trigger] work[i]).is_usable();
        assert(packets_of(turns)[i].packet.is_keyframe);
    }
}

/// What becomes of a packet before the muxer is open. Anything but a keyframe is only kept. Of a
/// keyframe the parameter sets are looked for; those that are found are parsed; and if they have a
/// size, a muxer is opened with these sets, in that very width and height, at thirty pictures a
/// second. The init segment that it writes goes to the frontend as it is, and the keyframe to the
/// muxer. After the first answer that is of no use nothing more is asked.
pub proof fn law_how_the_muxer_is_opened(turns: Seq<MuxTurn>, turn: MuxTurn, packet: EncodedPacket)
    requires
        !has_opened(turns),
        !turn.stop_flag,
        turn.received == Received::Event(packet),
    ensures
        mux_calls(turns.push(turn)) == mux_calls(turns) + seq![
            MuxCall::StopRequested(false),
            MuxCall::Receive { wait_ns: 200_000_000, received: turn.received },
        ] + (if packets_of(turns).len() == 0 {
            seq![MuxCall::RequestKeyframe(turn.asked), MuxCall::Record]
        } else {
            Seq::empty()
        }) + (if !packet.is_keyframe {
            Seq::empty()
        } else {
            match (turn.found, turn.size, turn.init) {
                (None, _, _) => seq![MuxCall::FindParameterSets { packet, found: None }],
                (Some(sets), None, _) => seq![
                    MuxCall::FindParameterSets { packet, found: Some(sets) },
                    MuxCall::ParseSize { sets, size: None },
                ],
                (Some(sets), Some((width, height)), None) => seq![
                    MuxCall::FindParameterSets { packet, found: Some(sets) },
                    MuxCall::ParseSize { sets, size: Some((width, height)) },
                    MuxCall::BuildInit {
                        sets,
                        params: MuxerParams { width, height, rate_num: 30, rate_den: 1 },
                        init: None,
                    },
                ],
                (Some(sets), Some((width, height)), Some(bytes)) => seq![
                    MuxCall::FindParameterSets { packet, found: Some(sets) },
                    MuxCall::ParseSize { sets, size: Some((width, height)) },
                    MuxCall::BuildInit {
                        sets,
                        params: MuxerParams { width, height, rate_num: 30, rate_den: 1 },
                        init: Some(bytes),
                    },
                    MuxCall::EmitInit(bytes),
                    MuxCall::Record,
                    MuxCall::Append { packet, segment: turn.segment },
                ] + (match turn.segment {
                    Some(bytes) => seq![MuxCall::EmitSegment(bytes), MuxCall::Record],
                    None => Seq::empty(),
                }),
            }
        }),
{
    let all = turns.push(turn);
    assert(all.drop_last() =~= turns);
    let state = mux_run(packets_of(turns)).0;
    let work = turn.work(packet);
    lemma_fired(packets_of(turns));
    lemma_opened(turns);
    let read = seq![
        MuxCall::StopRequested(false),
        MuxCall::Receive { wait_ns: 200_000_000, received: turn.received },
    ];
    let asked = if packets_of(turns).len() == 0 {
        seq![MuxCall::RequestKeyframe(turn.asked), MuxCall::Record]
    } else {
        Seq::empty()
    };
    assert(request_calls(state, work) =~= asked);
    assert(mux_calls(all) =~= mux_calls(turns) + read + asked + media_calls(state, work));
    assert(append_calls(work) =~= appended(packet, turn.segment));
    if packet.is_keyframe {
        match (turn.found, turn.size, turn.init) {
            (Some(sets), Some((width, height)), Some(bytes)) => {
                let opened = seq![
                    MuxCall::FindParameterSets { packet, found: Some(sets) },
                    MuxCall::ParseSize { sets, size: Some((width, height)) },
                    MuxCall::BuildInit {
                        sets,
                        params: MuxerParams { width, height, rate_num: 30, rate_den: 1 },
                        init: Some(bytes),
                    },
                    MuxCall::EmitInit(bytes),
                    MuxCall::Record,
                    MuxCall::Append { packet, segment: turn.segment },
                ];
                assert(open_calls(work) =~= opened + (match turn.segment {
                    Some(bytes) => seq![MuxCall::EmitSegment(bytes), MuxCall::Record],
                    None => Seq::empty(),
                }));
            },
            (Some(sets), Some((width, height)), None) => {
                assert(open_calls(work) =~= seq![
                    MuxCall::FindParameterSets { packet, found: Some(sets) },
                    MuxCall::ParseSize { sets, size: Some((width, height)) },
                    MuxCall::BuildInit {
                        sets,
                        params: MuxerParams { width, height, rate_num: 30, rate_den: 1 },
                        init: None,
                    },
                ]);
            },
            (Some(sets), None, _) => {
                assert(open_calls(work) =~= seq![
                    MuxCall::FindParameterSets { packet, found: Some(sets) },
                    MuxCall::ParseSize { sets, size: None },
                ]);
            },
            (None, _, _) => {
                assert(open_calls(work) =~= seq![
                    MuxCall::FindParameterSets { packet, found: None },
                ]);
            },
        }
    }
}

/// In every run of the loop, a muxer is opened directly after the picture size has been parsed, with
/// the width and the height that were parsed and the parameter sets that they were parsed from.
pub proof fn law_init_segment_has_the_parsed_size(turns: Seq<MuxTurn>, k: int)
    requires
        0 <= k < mux_calls(turns).len(),
        mux_calls(turns)[k] is BuildInit,
    ensures
        k >= 1,
        ({
            let calls = mux_calls(turns);
            calls[k - 1] matches MuxCall::ParseSize { sets, size: Some((width, height)) } && {
                &&& calls[k]->BuildInit_sets == sets
                &&& calls[k]->params.width == width
                &&& calls[k]->params.height == height
                &&& calls[k]->params.rate_num == 30
                &&& calls[k]->params.rate_den == 1
            }
        }),
    decreases turns.len(),
{
    let earlier = turns.drop_last();
    let turn = turns.last();
    let before = mux_calls(earlier);
    let calls = mux_calls(turns);
    assert(turns =~= earlier.push(turn));
    if k < before.len() {
        law_init_segment_has_the_parsed_size(earlier, k);
        assert(calls[k] == before[k]);
        assert(calls[k - 1] == before[k - 1]);
    } else {
        law_turn_without_a_packet(earlier, turn);
        if let Received::Event(packet) = turn.received {
            if !turn.stop_flag {
                if has_opened(earlier) {
                    law_open_muxer_gets_every_packet(earlier, turn, packet);
                } else {
                    law_how_the_muxer_is_opened(earlier, turn, packet);
                }
            }
        }
    }
}

/// The loop is left in a turn that is stopped, or when the packets end, and in no other.
pub proof fn law_when_the_mux_loop_is_left(turns: Seq<MuxTurn>, i: int)
    requires
        is_mux_run(turns),
        0 <= i < turns.len(),
    ensures
        i < turns.len() - 1 ==> !turns[i].stop_flag && turns[i].received !is Disconnected,
        i == turns.len() - 1 < u64::MAX - 1 ==> turns[i].stop_flag
            || turns[i].received is Disconnected,
{
    if i < turns.len() - 1 {
        assert(!turns[i].leaves());
    } else if turns.len() < u64::MAX {
        assert(turns[i].leaves());
    }
}

/// What a row of calls says was asked of the host was asked of it, with what went in and what came
/// back, and left the channel and the counters alone. A request that reached the transport is
/// counted, one that did not is not, and what is recorded are the counters as they are.
pub proof fn law_calls_reach_the_host<H: MuxHost, C: ChannelLike>(
    call: MuxCall,
    before: MuxOutlet<H, C>,
    after: MuxOutlet<H, C>,
)
    requires
        call.made(before, after),
    ensures
        call !is EmitInit && call !is EmitSegment ==> after.channel == before.channel,
        call !is EmitInit && call !is EmitSegment && call !is RequestKeyframe ==> after.counters
            == before.counters,
        call is EmitInit || call is EmitSegment ==> after.host == before.host,
        call matches MuxCall::StopRequested(stop) ==> call_ensures(
            H::stop_requested,
            (before.host,),
            (after.host, stop),
        ),
        call matches MuxCall::Receive { wait_ns, received } ==> call_ensures(
            H::receive,
            (before.host, wait_ns),
            (after.host, received),
        ),
        call matches MuxCall::FindParameterSets { packet, found } ==> call_ensures(
            H::find_parameter_sets,
            (before.host, &packet),
            (after.host, found),
        ),
        call matches MuxCall::ParseSize { sets, size } ==> call_ensures(
            H::parse_size,
            (before.host, &sets),
            (after.host, size),
        ),
        call matches MuxCall::BuildInit { sets, params, init } ==> call_ensures(
            H::build_init,
            (before.host, &sets, params),
            (after.host, init),
        ),
        call matches MuxCall::Append { packet, segment } ==> call_ensures(
            H::append,
            (before.host, &packet),
            (after.host, segment),
        ),
        call matches MuxCall::RequestKeyframe(asked) ==> {
            &&& call_ensures(H::request_keyframe, (before.host,), (after.host, asked))
            &&& asked is Err ==> after.counters == before.counters
            &&& asked is Ok && before.counters.keyframe_requests_fired < u64::MAX
                ==> after.counters == (BridgeCounters {
                keyframe_requests_fired: (before.counters.keyframe_requests_fired + 1) as u64,
                ..before.counters
            })
        },
        call is Record ==> call_ensures(H::record, (before.host, before.counters), after.host),
        call matches MuxCall::EmitInit(bytes) ==> exists|r: Result<(), String>| #[trigger]
            call_ensures(C::send_raw, (before.channel, 0u8, bytes), (after.channel, r)),
        call matches MuxCall::EmitSegment(bytes) ==> exists|r: Result<(), String>| #[trigger]
            call_ensures(C::send_raw, (before.channel, 1u8, bytes), (after.channel, r)),
{
}

/// What each answer leads to, seen one by one. A wait that brought nothing leads to the next one, and
/// packets that have ended to the end. A packet that comes while the muxer is open goes to it as it
/// is; before that a keyframe is searched, and anything else is kept behind what was kept before.
pub proof fn law_what_a_wait_leads_to(state: MuxState, packet: EncodedPacket)
    ensures
        state.on_received(Received::Timeout) == (MuxStep::Next, state),
        state.on_received(Received::Disconnected) == (MuxStep::Exit, state),
        state.init_emitted ==> state.on_received(Received::Event(packet)) == (
            MuxStep::Append(packet),
            state,
        ),
        !state.init_emitted && packet.is_keyframe ==> state.on_received(Received::Event(packet)) == (
            MuxStep::FindParameterSets(packet),
            state,
        ),
        !state.init_emitted && !packet.is_keyframe ==> state.on_received(Received::Event(packet))
            == (
            MuxStep::Next,
            MuxState {
                init_emitted: false,
                pli_fired: state.pli_fired,
                kept: state.kept.push(packet),
            },
        ),
        !MuxState::fresh().init_emitted,
        !MuxState::fresh().pli_fired,
        MuxState::fresh().kept == Seq::<EncodedPacket>::empty(),
        state.arrived().pli_fired,
        state.arrived().init_emitted == state.init_emitted,
        state.arrived().kept == state.kept,
{
}

/// Parameter sets that were found are parsed; a size that was parsed is the size the muxer is opened
/// with; an init segment that was made ends the wait for one, drops what was kept, and sends the
/// keyframe on to the muxer. An answer of no use keeps the keyframe behind what was kept before.
pub proof fn law_what_an_answer_leads_to(
    state: MuxState,
    packet: EncodedPacket,
    sets: ParameterSets,
    width: u32,
    height: u32,
    bytes: Vec<u8>,
)
    ensures
        state.on_parameter_sets(packet, Some(sets)) == (MuxStep::ParseSize(packet, sets), state),
        state.on_size(packet, sets, Some((width, height))) == (
            MuxStep::BuildInit(
                packet,
                sets,
                MuxerParams { width, height, rate_num: 30, rate_den: 1 },
            ),
            state,
        ),
        state.on_init(packet, Some(bytes)).0 == MuxStep::Append(packet),
        state.on_init(packet, Some(bytes)).1.init_emitted,
        state.on_init(packet, Some(bytes)).1.pli_fired == state.pli_fired,
        state.on_init(packet, Some(bytes)).1.kept == Seq::<EncodedPacket>::empty(),
        ({
            let kept = MuxState {
                init_emitted: state.init_emitted,
                pli_fired: state.pli_fired,
                kept: state.kept.push(packet),
            };
            &&& state.on_parameter_sets(packet, None) == (MuxStep::Next, kept)
            &&& state.on_size(packet, sets, None) == (MuxStep::Next, kept)
            &&& state.on_init(packet, None) == (MuxStep::Next, kept)
        }),
{
}

/// What the loop makes of the answers, seen on its functions themselves. A keyframe is asked for on the
/// first packet and never again. A size that was parsed is the size with which the muxer is opened, at
/// thirty pictures a second, and nothing else changes; an init segment that was made sends its keyframe
/// on to the muxer and drops what was kept.
pub proof fn law_functions_of_the_loop(
    packet: EncodedPacket,
    sets: ParameterSets,
    width: u32,
    height: u32,
    init: &Option<Vec<u8>>,
)
    ensures
        forall|mux: &mut Mux, fires: bool| #[trigger]
            call_ensures(Mux::packet_arrived, (mux,), fires) ==> {
                &&& fires == !mux.pli_fired
                &&& final(mux).pli_fired
                &&& final(mux).init_emitted == mux.init_emitted
                &&& final(mux).pre_idr_buffer@ == mux.pre_idr_buffer@
            },
        forall|mux: &mut Mux, step: MuxStep| #[trigger]
            call_ensures(Mux::found_parameter_sets, (mux, packet, Some(sets)), step) ==> step
                == MuxStep::ParseSize(packet, sets) && final(mux)@ == mux@,
        forall|mux: &mut Mux, step: MuxStep| #[trigger]
            call_ensures(Mux::parsed_size, (mux, packet, sets, Some((width, height))), step) ==> {
                &&& step matches MuxStep::BuildInit(p, s, params)
                &&& p == packet && s == sets
                &&& params.width == width && params.height == height
                &&& params.rate_num == 30 && params.rate_den == 1
                &&& final(mux)@ == mux@
            },
        forall|mux: &mut Mux, step: MuxStep| #[trigger]
            call_ensures(Mux::parsed_size, (mux, packet, sets, None), step) ==> step is Next
                && final(mux).pre_idr_buffer@ == mux.pre_idr_buffer@.push(packet),
        forall|mux: &mut Mux, step: MuxStep| #[trigger]
            call_ensures(Mux::built_init, (mux, packet, init), step) ==> if *init is Some {
                &&& step == MuxStep::Append(packet)
                &&& final(mux).init_emitted
                &&& final(mux).pre_idr_buffer@.len() == 0
            } else {
                &&& step is Next
                &&& final(mux).init_emitted == mux.init_emitted
                &&& final(mux).pre_idr_buffer@ == mux.pre_idr_buffer@.push(packet)
            },
{
}

} // verus!
