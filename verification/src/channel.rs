//! The binary channel to the frontend, and what is counted of its use.
use crate::trace;
use crate::trace::HostCall;
use vstd::prelude::*;

verus! {

/// First byte of a frame that carries an fMP4 init segment.
pub const FRAME_INIT: u8 = 0x00;

/// First byte of a frame that carries an fMP4 media segment.
pub const FRAME_SEGMENT: u8 = 0x01;

/// First byte of a frame that carries a reconnect status.
pub const FRAME_STATUS: u8 = 0x02;

/// Discriminant under which the sender sends its status; its channel carries nothing else.
pub const SENDER_STATUS: u8 = 0;

/// A channel to the frontend. A send takes the channel and gives it back.
pub trait ChannelLike: Send + Sync + Sized {
    /// Sends a payload under a discriminant.
    fn send_raw(self, discriminant: u8, bytes: Vec<u8>) -> (r: (Self, Result<(), String>));
}

/// A payload handed to the channel, and what came of it.
pub struct SendCall {
    pub discriminant: u8,
    pub bytes: Vec<u8>,
    pub result: Result<(), String>,
}

impl<C: ChannelLike> HostCall<C> for SendCall {
    open spec fn made(self, before: C, after: C) -> bool {
        call_ensures(C::send_raw, (before, self.discriminant, self.bytes), (after, self.result))
    }
}

/// Counters of a receiver session.
#[derive(Debug, Clone, Copy, PartialEq, Eq, Structural, Default)]
pub struct BridgeCounters {
    pub fragments_emitted: u64,
    pub init_segments_emitted: u64,
    pub dropped_segments: u64,
    pub keyframe_requests_fired: u64,
}

/// What the diagnostics show of a receiver.
#[derive(Debug, Clone, Copy, PartialEq, Eq, Structural)]
pub struct StreamStats {
    /// Media segments that reached the frontend.
    pub fragments_emitted: u64,
    /// Init segments that reached the frontend.
    pub init_segments_emitted: u64,
    /// Segments that the frontend's channel refused.
    pub dropped_segments: u64,
    /// Packets that the transport dropped.
    pub receiver_dropped_frames: u64,
    /// Keyframes asked of the sender.
    pub keyframe_requests_fired: u64,
}

/// The number after `n`; after the last one, 0.
pub open spec fn count_up(n: u64) -> u64 {
    if n == u64::MAX {
        0
    } else {
        (n + 1) as u64
    }
}

impl BridgeCounters {
    /// All counters at zero.
    pub open spec fn none() -> BridgeCounters {
        BridgeCounters {
            fragments_emitted: 0,
            init_segments_emitted: 0,
            dropped_segments: 0,
            keyframe_requests_fired: 0,
        }
    }

    /// The counters once an init segment was sent, or refused.
    pub open spec fn with_init(self, sent: bool) -> BridgeCounters {
        if sent {
            BridgeCounters { init_segments_emitted: count_up(self.init_segments_emitted), ..self }
        } else {
            BridgeCounters { dropped_segments: count_up(self.dropped_segments), ..self }
        }
    }

    /// The counters once a media segment was sent, or refused.
    pub open spec fn with_segment(self, sent: bool) -> BridgeCounters {
        if sent {
            BridgeCounters { fragments_emitted: count_up(self.fragments_emitted), ..self }
        } else {
            BridgeCounters { dropped_segments: count_up(self.dropped_segments), ..self }
        }
    }

    /// The counters once a segment was sent, or refused.
    pub open spec fn with(self, is_init: bool, sent: bool) -> BridgeCounters {
        if is_init {
            self.with_init(sent)
        } else {
            self.with_segment(sent)
        }
    }

    /// The counters once a keyframe was asked for, or could not be.
    pub open spec fn with_request(self, fired: bool) -> BridgeCounters {
        if fired {
            BridgeCounters {
                keyframe_requests_fired: count_up(self.keyframe_requests_fired),
                ..self
            }
        } else {
            self
        }
    }

    /// How many segments have been counted.
    pub open spec fn total(self) -> int {
        self.fragments_emitted + self.init_segments_emitted + self.dropped_segments
    }

    /// All counters at zero.
    pub fn zero() -> (c: Self)
        ensures
            c == BridgeCounters::none(),
    {
        BridgeCounters {
            fragments_emitted: 0,
            init_segments_emitted: 0,
            dropped_segments: 0,
            keyframe_requests_fired: 0,
        }
    }

    /// Counts an init segment.
    pub fn count_init(&mut self, sent: bool)
        ensures
            *final(self) == old(self).with_init(sent),
    {
        if sent {
            self.init_segments_emitted = next_count(self.init_segments_emitted);
        } else {
            self.dropped_segments = next_count(self.dropped_segments);
        }
    }

    /// Counts a media segment.
    pub fn count_segment(&mut self, sent: bool)
        ensures
            *final(self) == old(self).with_segment(sent),
    {
        if sent {
            self.fragments_emitted = next_count(self.fragments_emitted);
        } else {
            self.dropped_segments = next_count(self.dropped_segments);
        }
    }
}

impl BridgeCounters {
    /// Counts a keyframe request. One that did not reach the transport does not count.
    pub fn count_request(&mut self, fired: bool)
        ensures
            *final(self) == old(self).with_request(fired),
    {
        if fired {
            self.keyframe_requests_fired = next_count(self.keyframe_requests_fired);
        }
    }
}

/// The number after `n`; after the last one, 0.
pub fn next_count(n: u64) -> (r: u64)
    ensures
        r == count_up(n),
{
    if n == u64::MAX {
        0
    } else {
        n + 1
    }
}

/// A frame as the receiver's channel carries it: the discriminant, then the payload.
pub open spec fn framed(discriminant: u8, payload: Seq<u8>) -> Seq<u8> {
    seq![discriminant] + payload
}

/// A frame as the receiver's channel carries it: the discriminant, then the payload.
pub fn channel_frame(discriminant: u8, bytes: Vec<u8>) -> (frame: Vec<u8>)
    ensures
        frame@ == framed(discriminant, bytes@),
{
    let mut bytes = bytes;
    let mut frame: Vec<u8> = Vec::new();
    frame.push(discriminant);
    frame.append(&mut bytes);
    frame
}

/// The channel becomes `after` by one send, and the counters are those that its outcome gives.
pub open spec fn is_emission<C: ChannelLike>(
    channel: C,
    counters: BridgeCounters,
    is_init: bool,
    bytes: Vec<u8>,
    after: C,
    counters_after: BridgeCounters,
) -> bool {
    exists|r: Result<(), String>| #[trigger]
        call_ensures(C::send_raw, (channel, segment_kind(is_init), bytes), (after, r))
            && counters_after == counters.with(is_init, r is Ok)
}

/// The discriminant of an init segment, or of a media segment.
pub open spec fn segment_kind(is_init: bool) -> u8 {
    if is_init {
        FRAME_INIT
    } else {
        FRAME_SEGMENT
    }
}

/// Sends an init segment, once, and counts what came of it. A refused segment is dropped.
pub fn emit_init<C: ChannelLike>(channel: C, counters: &mut BridgeCounters, bytes: Vec<u8>) -> (after:
    C)
    ensures
        is_emission(channel, *old(counters), true, bytes, after, *final(counters)),
{
    let (after, r) = channel.send_raw(FRAME_INIT, bytes);
    counters.count_init(r.is_ok());
    after
}

/// Sends a media segment, once, and counts what came of it. A refused segment is dropped.
pub fn emit_segment<C: ChannelLike>(
    channel: C,
    counters: &mut BridgeCounters,
    bytes: Vec<u8>,
) -> (after: C)
    ensures
        is_emission(channel, *old(counters), false, bytes, after, *final(counters)),
{
    let (after, r) = channel.send_raw(FRAME_SEGMENT, bytes);
    counters.count_segment(r.is_ok());
    after
}

/// The channel becomes `after`: by one send of the status, whatever comes of it, or by none if the
/// status has no form to be sent in.
pub open spec fn is_status_sent<C: ChannelLike>(
    channel: C,
    discriminant: u8,
    json: Option<Vec<u8>>,
    after: C,
) -> bool {
    match json {
        Some(bytes) => exists|r: Result<(), String>| #[trigger]
            call_ensures(C::send_raw, (channel, discriminant, bytes), (after, r)),
        None => after == channel,
    }
}

/// Sends a status of the sender, in the form in which the frontend reads it. One that has no such
/// form, or that the channel refuses, is passed over.
pub fn emit_event<C: ChannelLike>(channel: C, json: Option<Vec<u8>>) -> (after: C)
    ensures
        is_status_sent(channel, SENDER_STATUS, json, after),
{
    match json {
        Some(bytes) => {
            let (after, _) = channel.send_raw(SENDER_STATUS, bytes);
            after
        },
        None => channel,
    }
}

/// Sends a status of the receiver, in the form in which the frontend reads it. One that has no
/// such form, or that the channel refuses, is passed over.
pub fn emit_stream_status<C: ChannelLike>(channel: C, json: Option<Vec<u8>>) -> (after: C)
    ensures
        is_status_sent(channel, FRAME_STATUS, json, after),
{
    match json {
        Some(bytes) => {
            let (after, _) = channel.send_raw(FRAME_STATUS, bytes);
            after
        },
        None => channel,
    }
}

/// What became of one segment.
pub struct Emission {
    pub is_init: bool,
    pub sent: bool,
}

/// The counters after a run of segments.
pub open spec fn counted(counters: BridgeCounters, emissions: Seq<Emission>) -> BridgeCounters
    decreases emissions.len(),
{
    if emissions.len() == 0 {
        counters
    } else {
        counted(counters, emissions.drop_last()).with(
            emissions.last().is_init,
            emissions.last().sent,
        )
    }
}

/// How many of these segments were of a kind and had an outcome.
pub open spec fn how_many(emissions: Seq<Emission>, is_init: bool, sent: bool) -> int
    decreases emissions.len(),
{
    if emissions.len() == 0 {
        0
    } else {
        how_many(emissions.drop_last(), is_init, sent) + if emissions.last() == (Emission {
            is_init,
            sent,
        }) {
            1int
        } else {
            0
        }
    }
}

/// Every segment is counted once, as delivered or as dropped, until a counter runs over: each
/// counter grows by the segments that are its own.
pub proof fn law_every_segment_is_counted(counters: BridgeCounters, emissions: Seq<Emission>)
    requires
        counters.fragments_emitted + emissions.len() <= u64::MAX,
        counters.init_segments_emitted + emissions.len() <= u64::MAX,
        counters.dropped_segments + emissions.len() <= u64::MAX,
    ensures
        ({
            let after = counted(counters, emissions);
            &&& after.total() == counters.total() + emissions.len()
            &&& after.fragments_emitted == counters.fragments_emitted + how_many(
                emissions,
                false,
                true,
            )
            &&& after.init_segments_emitted == counters.init_segments_emitted + how_many(
                emissions,
                true,
                true,
            )
            &&& after.dropped_segments == counters.dropped_segments + how_many(
                emissions,
                true,
                false,
            ) + how_many(emissions, false, false)
            &&& after.keyframe_requests_fired == counters.keyframe_requests_fired
            &&& 0 <= after.fragments_emitted - counters.fragments_emitted <= emissions.len()
            &&& 0 <= after.init_segments_emitted - counters.init_segments_emitted
                <= emissions.len()
            &&& 0 <= after.dropped_segments - counters.dropped_segments <= emissions.len()
        }),
    decreases emissions.len(),
{
    if emissions.len() > 0 {
        law_every_segment_is_counted(counters, emissions.drop_last());
    }
}

/// A segment that is to be sent.
pub struct Segment {
    pub is_init: bool,
    pub bytes: Vec<u8>,
}

/// What became of the segments that these sends carried.
pub open spec fn emissions_of(segments: Seq<Segment>, sends: Seq<SendCall>) -> Seq<Emission> {
    Seq::new(
        sends.len(),
        |i: int| Emission { is_init: segments[i].is_init, sent: sends[i].result is Ok },
    )
}

/// These sends carry these segments: each one once, unchanged and in order.
pub open spec fn carry(sends: Seq<SendCall>, segments: Seq<Segment>) -> bool {
    &&& sends.len() == segments.len()
    &&& forall|i: int|
        0 <= i < sends.len() ==> (#[trigger] sends[i]).discriminant == segment_kind(
            segments[i].is_init,
        ) && sends[i].bytes == segments[i].bytes
}

/// Segments that are emitted one after the other go into the channel one after the other, each in
/// one send: none is sent again, kept for later or left out, and nothing else is sent. The
/// counters are those that the outcomes of these sends give.
pub proof fn law_each_segment_is_sent_once<C: ChannelLike>(
    channels: Seq<C>,
    counters: Seq<BridgeCounters>,
    segments: Seq<Segment>,
)
    requires
        channels.len() == segments.len() + 1,
        counters.len() == segments.len() + 1,
        forall|i: int|
            0 <= i < segments.len() ==> is_emission(
                channels[i],
                counters[i],
                (#[trigger] segments[i]).is_init,
                segments[i].bytes,
                channels[i + 1],
                counters[i + 1],
            ),
    ensures
        exists|sends: Seq<SendCall>|
            {
                &&& #[trigger] carry(sends, segments)
                &&& trace::leads(channels[0], sends, channels.last())
                &&& counters.last() == counted(counters[0], emissions_of(segments, sends))
            },
    decreases segments.len(),
{
    if segments.len() == 0 {
        let sends = Seq::<SendCall>::empty();
        trace::lemma_no_call::<C, SendCall>(channels[0]);
        assert(carry(sends, segments));
        assert(emissions_of(segments, sends).len() == 0);
    } else {
        let n = segments.len() - 1;
        let front = segments.drop_last();
        assert forall|i: int| 0 <= i < front.len() implies is_emission(
            channels.drop_last()[i],
            counters.drop_last()[i],
            (#[trigger] front[i]).is_init,
            front[i].bytes,
            channels.drop_last()[i + 1],
            counters.drop_last()[i + 1],
        ) by {
            assert(front[i] == segments[i]);
        }
        law_each_segment_is_sent_once(channels.drop_last(), counters.drop_last(), front);
        let sends = choose|sends: Seq<SendCall>|
            {
                &&& #[trigger] carry(sends, front)
                &&& trace::leads(channels[0], sends, channels[n])
                &&& counters[n] == counted(counters[0], emissions_of(front, sends))
            };
        let last = segments[n];
        let result = choose|r: Result<(), String>| #[trigger]
            call_ensures(
                C::send_raw,
                (channels[n], segment_kind(last.is_init), last.bytes),
                (channels[n + 1], r),
            ) && counters[n + 1] == counters[n].with(last.is_init, r is Ok);
        let call = SendCall { discriminant: segment_kind(last.is_init), bytes: last.bytes, result };
        trace::lemma_called(channels[0], sends, channels[n], call, channels[n + 1]);
        let all = sends.push(call);
        assert(carry(all, segments)) by {
            assert forall|i: int| 0 <= i < all.len() implies (#[trigger] all[i]).discriminant
                == segment_kind(segments[i].is_init) && all[i].bytes == segments[i].bytes by {
                if i < n {
                    assert(sends[i].discriminant == segment_kind(front[i].is_init));
                }
            }
        }
        assert(emissions_of(segments, all).drop_last() =~= emissions_of(front, sends));
    }
}

/// A frame tells its kind and gives its payload back.
pub proof fn law_frame_round_trip(discriminant: u8, payload: Seq<u8>)
    ensures
        framed(discriminant, payload)[0] == discriminant,
        framed(discriminant, payload).skip(1) == payload,
{
    assert(framed(discriminant, payload).skip(1) =~= payload);
}

/// An init segment goes out under the first byte of an init frame, a media segment under that of a
/// media frame, and nothing else of either is changed. The outcome decides which counter goes up by
/// one: that of the kind, if the channel took it, and that of the dropped segments, if it did not.
pub proof fn law_one_emission<C: ChannelLike>(
    channel: C,
    counters: BridgeCounters,
    is_init: bool,
    bytes: Vec<u8>,
    after: C,
    counters_after: BridgeCounters,
    kind: u8,
)
    requires
        is_emission(channel, counters, is_init, bytes, after, counters_after),
        kind == (if is_init {
            0u8
        } else {
            1u8
        }),
        counters.fragments_emitted < u64::MAX,
        counters.init_segments_emitted < u64::MAX,
        counters.dropped_segments < u64::MAX,
    ensures
        exists|r: Result<(), String>| #[trigger]
            call_ensures(
                C::send_raw,
                (channel, kind, bytes),
                (after, r),
            ) && {
                &&& counters_after.init_segments_emitted == counters.init_segments_emitted + (if r
                    is Ok && is_init {
                    1int
                } else {
                    0
                })
                &&& counters_after.fragments_emitted == counters.fragments_emitted + (if r is Ok
                    && !is_init {
                    1int
                } else {
                    0
                })
                &&& counters_after.dropped_segments == counters.dropped_segments + (if r is Err {
                    1int
                } else {
                    0
                })
                &&& counters_after.keyframe_requests_fired == counters.keyframe_requests_fired
            },
{
}

/// A status that has a form to be sent in is sent once, under the byte it is given, as it is; one
/// that has none is not sent. The sender's goes out under zero, the receiver's under two.
pub proof fn law_one_status<C: ChannelLike>(channel: C, kind: u8, json: Option<Vec<u8>>, after: C)
    requires
        is_status_sent(channel, kind, json, after),
    ensures
        json matches Some(bytes) ==> exists|r: Result<(), String>| #[trigger]
            call_ensures(C::send_raw, (channel, kind, bytes), (after, r)),
        json is None ==> after == channel,
        SENDER_STATUS == 0,
        FRAME_INIT == 0,
        FRAME_SEGMENT == 1,
        FRAME_STATUS == 2,
{
}

/// Counting goes up by one and starts again at zero after the last number. A keyframe request counts
/// exactly when it was fired, and changes nothing else.
pub proof fn law_counting(n: u64, counters: BridgeCounters, fired: bool)
    ensures
        n < u64::MAX ==> count_up(n) == n + 1,
        count_up(u64::MAX) == 0,
        counters.with_request(fired).fragments_emitted == counters.fragments_emitted,
        counters.with_request(fired).init_segments_emitted == counters.init_segments_emitted,
        counters.with_request(fired).dropped_segments == counters.dropped_segments,
        counters.with_request(fired).keyframe_requests_fired == (if fired {
            count_up(counters.keyframe_requests_fired)
        } else {
            counters.keyframe_requests_fired
        }),
        BridgeCounters::none().fragments_emitted == 0,
        BridgeCounters::none().init_segments_emitted == 0,
        BridgeCounters::none().dropped_segments == 0,
        BridgeCounters::none().keyframe_requests_fired == 0,
{
}

/// A frame is the byte of its kind and then every byte of its payload, in order, and no more.
pub proof fn law_frame_bytes(discriminant: u8, payload: Seq<u8>, i: int)
    ensures
        framed(discriminant, payload).len() == payload.len() + 1,
        framed(discriminant, payload)[0] == discriminant,
        0 <= i < payload.len() ==> framed(discriminant, payload)[i + 1] == payload[i],
{
}

/// The outcome of each send is the outcome of its own segment.
pub proof fn law_outcome_of_each_send(segments: Seq<Segment>, sends: Seq<SendCall>, i: int)
    requires
        carry(sends, segments),
        0 <= i < segments.len(),
    ensures
        sends.len() == segments.len(),
        sends[i].bytes == segments[i].bytes,
        sends[i].discriminant == (if segments[i].is_init {
            0u8
        } else {
            1u8
        }),
        emissions_of(segments, sends).len() == sends.len(),
        emissions_of(segments, sends)[i].is_init == segments[i].is_init,
        emissions_of(segments, sends)[i].sent == (sends[i].result is Ok),
{
    assert(sends[i].discriminant == segment_kind(segments[i].is_init));
}

/// The first byte of a frame tells its kind: 0 an init segment, 1 a media segment, 2 a status of the
/// receiver. The status of a sender has a channel to itself, where it is 0.
pub proof fn law_kinds_of_frames()
    ensures
        FRAME_INIT == 0,
        FRAME_SEGMENT == 1,
        FRAME_STATUS == 2,
        SENDER_STATUS == 0,
{
}

/// What is counted of a segment, seen on the functions themselves: one that was sent counts under its
/// kind, and one that was not counts as dropped.
pub proof fn law_functions_of_the_counters(sent: bool)
    ensures
        forall|c: &mut BridgeCounters| #[trigger]
            call_ensures(BridgeCounters::count_init, (c, sent), ()) ==> *final(c) == (
            BridgeCounters {
                init_segments_emitted: if sent {
                    count_up(c.init_segments_emitted)
                } else {
                    c.init_segments_emitted
                },
                dropped_segments: if sent {
                    c.dropped_segments
                } else {
                    count_up(c.dropped_segments)
                },
                ..*c
            }),
        forall|c: &mut BridgeCounters| #[trigger]
            call_ensures(BridgeCounters::count_segment, (c, sent), ()) ==> *final(c) == (
            BridgeCounters {
                fragments_emitted: if sent {
                    count_up(c.fragments_emitted)
                } else {
                    c.fragments_emitted
                },
                dropped_segments: if sent {
                    c.dropped_segments
                } else {
                    count_up(c.dropped_segments)
                },
                ..*c
            }),
{
}

} // verus!
