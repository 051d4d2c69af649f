//! How discovery is engaged again after a peer was lost.
//!
//! The signaling adapter of the old generation is stopped and started again in place. The sender's
//! is superseded by the rebuild that follows, so it is muted before it stops.
use crate::events::Role;
use crate::trace;
use crate::trace::HostCall;
use vstd::prelude::*;

verus! {

broadcast use trace::lemma_no_call;

/// One step of a reset.
#[derive(Debug, Clone, Copy, PartialEq, Eq, Structural)]
pub enum MdnsResetStep {
    /// Keep the adapter from saying goodbye to the peer.
    SuppressBye,
    /// Keep the adapter from accepting another connection.
    MarkSuperseded,
    /// Stop the adapter; a failure is passed over.
    StopSignaling,
    /// Drop reconnect requests that were queued for the old connection.
    DropStaleRequests,
    /// Start the adapter on a new event channel, and report with `mdns_restarted`.
    StartSignaling,
    /// Let others use the adapter again.
    ReleaseSignaling,
    /// Start a drain on the new event channel.
    SpawnDrain,
}

/// The steps of a reset up to the restart of the adapter.
pub open spec fn reset_steps(role: Role) -> Seq<MdnsResetStep> {
    match role {
        Role::Sender => seq![
            MdnsResetStep::SuppressBye,
            MdnsResetStep::MarkSuperseded,
            MdnsResetStep::StopSignaling,
            MdnsResetStep::DropStaleRequests,
            MdnsResetStep::StartSignaling,
        ],
        Role::Receiver => seq![MdnsResetStep::StopSignaling, MdnsResetStep::StartSignaling],
    }
}

/// The steps after the restart of the adapter. One that did not start has no events to drain.
pub open spec fn restarted_steps(started: bool) -> Seq<MdnsResetStep> {
    if started {
        seq![MdnsResetStep::ReleaseSignaling, MdnsResetStep::SpawnDrain]
    } else {
        seq![MdnsResetStep::ReleaseSignaling]
    }
}

/// What to do first on a reset, in order.
pub fn build_initiate_mdns_reset_hook(role: Role) -> (steps: Vec<MdnsResetStep>)
    ensures
        steps@ == reset_steps(role),
{
    match role {
        Role::Sender => vec![
            MdnsResetStep::SuppressBye,
            MdnsResetStep::MarkSuperseded,
            MdnsResetStep::StopSignaling,
            MdnsResetStep::DropStaleRequests,
            MdnsResetStep::StartSignaling,
        ],
        Role::Receiver => vec![MdnsResetStep::StopSignaling, MdnsResetStep::StartSignaling],
    }
}

/// What to do once the adapter has started again, or has not.
pub fn mdns_restarted(started: bool) -> (steps: Vec<MdnsResetStep>)
    ensures
        steps@ == restarted_steps(started),
{
    if started {
        vec![MdnsResetStep::ReleaseSignaling, MdnsResetStep::SpawnDrain]
    } else {
        vec![MdnsResetStep::ReleaseSignaling]
    }
}

/// The sender's adapter is muted and closed to new connections before it stops, and stops before
/// it starts. A reset whose adapter starts always ends in a drain for its events, on either side,
/// and the adapter is free again before that drain runs.
pub proof fn law_reset_order(role: Role)
    ensures
        role == Role::Sender ==> reset_steps(role).index_of(MdnsResetStep::SuppressBye)
            < reset_steps(role).index_of(MdnsResetStep::MarkSuperseded) < reset_steps(
            role,
        ).index_of(MdnsResetStep::StopSignaling),
        reset_steps(role).index_of(MdnsResetStep::StopSignaling) < reset_steps(role).index_of(
            MdnsResetStep::StartSignaling,
        ) == reset_steps(role).len() - 1,
        restarted_steps(true).last() == MdnsResetStep::SpawnDrain,
        restarted_steps(true)[0] == MdnsResetStep::ReleaseSignaling,
        !restarted_steps(false).contains(MdnsResetStep::SpawnDrain),
{
    let steps = reset_steps(role);
    if role == Role::Sender {
        assert(steps[0] == MdnsResetStep::SuppressBye);
        assert(steps[1] == MdnsResetStep::MarkSuperseded);
        assert(steps[2] == MdnsResetStep::StopSignaling);
        assert(steps[4] == MdnsResetStep::StartSignaling);
    } else {
        assert(steps[0] == MdnsResetStep::StopSignaling);
        assert(steps[1] == MdnsResetStep::StartSignaling);
    }
}

/// What a reset needs of the surrounding program.
pub trait MdnsResetHost: Sized {
    /// Takes a step other than `StartSignaling`.
    fn perform(self, step: MdnsResetStep) -> (after: Self);

    /// Starts the adapter on a new event channel. Did it start?
    fn start_signaling(self) -> (r: (Self, bool));
}

/// A call to the host of a reset.
pub enum MdnsResetCall {
    Perform(MdnsResetStep),
    StartSignaling { started: bool },
}

impl<H: MdnsResetHost> HostCall<H> for MdnsResetCall {
    open spec fn made(self, before: H, after: H) -> bool {
        match self {
            MdnsResetCall::Perform(step) => call_ensures(H::perform, (before, step), after),
            MdnsResetCall::StartSignaling { started } => call_ensures(
                H::start_signaling,
                (before,),
                (after, started),
            ),
        }
    }
}

/// The calls that take these steps, if the adapter starts or does not.
pub open spec fn reset_calls(steps: Seq<MdnsResetStep>, started: bool) -> Seq<MdnsResetCall> {
    steps.map_values(
        |step: MdnsResetStep|
            if step == MdnsResetStep::StartSignaling {
                MdnsResetCall::StartSignaling { started }
            } else {
                MdnsResetCall::Perform(step)
            },
    )
}

/// Takes these steps, in order. Did the adapter start, if that was among them?
fn take_all<H: MdnsResetHost>(host: H, steps: &Vec<MdnsResetStep>) -> (r: (H, bool))
    requires
        forall|i: int|
            0 <= i < steps@.len() - 1 ==> steps@[i] != MdnsResetStep::StartSignaling,
    ensures
        trace::leads(host, reset_calls(steps@, r.1), r.0),
{
    let ghost first = host;
    let mut host = host;
    let mut started = false;
    assert(reset_calls(steps@.take(0), started) =~= Seq::empty());
    let mut i: usize = 0;
    while i < steps.len()
        invariant
            i <= steps.len(),
            forall|i: int|
                0 <= i < steps@.len() - 1 ==> steps@[i] != MdnsResetStep::StartSignaling,
            trace::leads(first, reset_calls(steps@.take(i as int), started), host),
        decreases steps.len() - i,
    {
        let ghost before = host;
        let ghost calls = reset_calls(steps@.take(i as int), started);
        if steps[i] == MdnsResetStep::StartSignaling {
            let (next, up) = host.start_signaling();
            host = next;
            started = up;
            proof {
                let call = MdnsResetCall::StartSignaling { started };
                trace::lemma_called(first, calls, before, call, host);
                assert(reset_calls(steps@.take(i + 1), started) =~= calls.push(call));
            }
        } else {
            host = host.perform(steps[i]);
            proof {
                let call = MdnsResetCall::Perform(steps@[i as int]);
                trace::lemma_called(first, calls, before, call, host);
                assert(reset_calls(steps@.take(i + 1), started) =~= calls.push(call));
            }
        }
        i += 1;
    }
    assert(steps@.take(i as int) =~= steps@);
    (host, started)
}

/// Resets discovery on a host: everything up to the start of the adapter, the start itself, and
/// what follows it.
pub fn reset_mdns<H: MdnsResetHost>(host: H, role: Role) -> (after: H)
    ensures
        exists|started: bool|
            trace::leads(
                host,
                #[trigger] reset_calls(reset_steps(role) + restarted_steps(started), started),
                after,
            ),
{
    let ghost first = host;
    let steps = build_initiate_mdns_reset_hook(role);
    let (mid, started) = take_all(host, &steps);
    let steps = mdns_restarted(started);
    let (after, unused) = take_all(mid, &steps);
    proof {
        let before = reset_calls(reset_steps(role), started);
        let rest = reset_calls(restarted_steps(started), unused);
        trace::lemma_joined(first, before, mid, rest, after);
        assert(reset_calls(reset_steps(role) + restarted_steps(started), started) =~= before + rest);
    }
    after
}

/// Each call of a reset goes to the method of the host that it is named after, with this step or this
/// answer.
pub proof fn law_calls_reach_the_host<H: MdnsResetHost>(call: MdnsResetCall, before: H, after: H)
    requires
        HostCall::<H>::made(call, before, after),
    ensures
        call matches MdnsResetCall::Perform(step) ==> call_ensures(
            H::perform,
            (before, step),
            after,
        ),
        call matches MdnsResetCall::StartSignaling { started } ==> call_ensures(
            H::start_signaling,
            (before,),
            (after, started),
        ),
{
}

/// What a reset does, call for call. On either side the adapter is stopped and started once, in that
/// order. The sender's is kept from saying goodbye and from accepting a connection before it stops,
/// and what was queued for it is dropped before it starts. Afterwards others may use the adapter
/// again, and a drain is started exactly if the adapter was.
pub proof fn law_what_a_reset_does(started: bool)
    ensures
        reset_calls(reset_steps(Role::Sender) + restarted_steps(started), started) == seq![
            MdnsResetCall::Perform(MdnsResetStep::SuppressBye),
            MdnsResetCall::Perform(MdnsResetStep::MarkSuperseded),
            MdnsResetCall::Perform(MdnsResetStep::StopSignaling),
            MdnsResetCall::Perform(MdnsResetStep::DropStaleRequests),
            MdnsResetCall::StartSignaling { started },
            MdnsResetCall::Perform(MdnsResetStep::ReleaseSignaling),
        ] + (if started {
            seq![MdnsResetCall::Perform(MdnsResetStep::SpawnDrain)]
        } else {
            Seq::empty()
        }),
        reset_calls(reset_steps(Role::Receiver) + restarted_steps(started), started) == seq![
            MdnsResetCall::Perform(MdnsResetStep::StopSignaling),
            MdnsResetCall::StartSignaling { started },
            MdnsResetCall::Perform(MdnsResetStep::ReleaseSignaling),
        ] + (if started {
            seq![MdnsResetCall::Perform(MdnsResetStep::SpawnDrain)]
        } else {
            Seq::empty()
        }),
{
}

/// Either half of a reset, seen by itself.
pub proof fn law_steps_of_a_reset()
    ensures
        reset_steps(Role::Sender) == seq![
            MdnsResetStep::SuppressBye,
            MdnsResetStep::MarkSuperseded,
            MdnsResetStep::StopSignaling,
            MdnsResetStep::DropStaleRequests,
            MdnsResetStep::StartSignaling,
        ],
        reset_steps(Role::Receiver) == seq![
            MdnsResetStep::StopSignaling,
            MdnsResetStep::StartSignaling,
        ],
        restarted_steps(true) == seq![MdnsResetStep::ReleaseSignaling, MdnsResetStep::SpawnDrain],
        restarted_steps(false) == seq![MdnsResetStep::ReleaseSignaling],
{
}

} // verus!
