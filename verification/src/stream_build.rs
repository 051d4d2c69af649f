//! The steps by which a receiver's pipeline is built, and what each of them is given.
//!
//! Transport and signaling are adapters of the surrounding program. The order in which they are
//! made and started, their settings, and what a failure means are decided here.
use crate::errors;
use crate::errors::{BundleError, SignalingError, TransportError};
use crate::events::Role;
use crate::sender_build;
use crate::sender_build::{BuildProgress, SignalingConfig};
use crate::stream::{BindCtx, ReceiverBundle, StreamBuildRequest};
use crate::trace;
use crate::trace::HostCall;
use vstd::prelude::*;

verus! {

broadcast use trace::lemma_no_call;

/// Settings of the receiver's signaling: its control port is the media port.
pub fn build_signaling_config_for_receiver(udp_port: u16, service_name: String) -> (c:
    SignalingConfig)
    ensures
        c == (SignalingConfig {
            service_name,
            control_port: udp_port,
            role: Role::Receiver,
            peer_hint: None,
        }),
{
    SignalingConfig { service_name, control_port: udp_port, role: Role::Receiver, peer_hint: None }
}

/// Where the build of a receiver's pipeline stands.
#[derive(Debug, Clone, Copy, PartialEq, Eq, Structural)]
pub enum ReceiverStage {
    NewSignaling,
    StartSignaling,
    NewReceiver,
    StartReceiver,
    FindCandidate,
    PublishCandidate,
    SpawnTransportDrain,
    SpawnSignalingDrain,
}

impl ReceiverStage {
    /// Number of the stage in the build.
    pub open spec fn ordinal(self) -> nat {
        match self {
            ReceiverStage::NewSignaling => 0,
            ReceiverStage::StartSignaling => 1,
            ReceiverStage::NewReceiver => 2,
            ReceiverStage::StartReceiver => 3,
            ReceiverStage::FindCandidate => 4,
            ReceiverStage::PublishCandidate => 5,
            ReceiverStage::SpawnTransportDrain => 6,
            ReceiverStage::SpawnSignalingDrain => 7,
        }
    }
}

/// A build in progress: the request, the stage it has come to, and what the stages so far brought.
#[derive(Debug)]
pub struct ReceiverBuild<S> {
    pub request: StreamBuildRequest,
    /// The socket that was probed, until the receiver has it.
    pub bind_ctx: Option<BindCtx<S>>,
    pub stage: ReceiverStage,
    pub candidate: String,
    pub transport_drain: u64,
}

/// What is to be done at a stage.
#[derive(Debug)]
pub enum ReceiverBuildAction<S> {
    NewSignaling(SignalingConfig),
    StartSignaling,
    NewReceiver { udp_port: u16, role: Role },
    /// Start the receiver on this socket, which was bound for it; it binds none itself.
    StartReceiver(BindCtx<S>),
    /// Ask the receiver for its address.
    FindCandidate,
    PublishCandidate(String),
    /// Start the transport drain, with the stop flag that it honours and the channel in which it
    /// shows what happens.
    SpawnTransportDrain { stop_flag: u64, channel: u64 },
    /// Start the signaling drain, with the stop flag that it honours.
    SpawnSignalingDrain { stop_flag: u64 },
}

/// What came of an action.
#[derive(Debug)]
pub enum ReceiverBuildReply {
    Done,
    /// Of `FindCandidate`.
    Candidate(Option<String>),
    /// Of `SpawnTransportDrain`.
    Thread(u64),
    /// Of `SpawnSignalingDrain`: the thread, and where the pipeline's adapters are kept.
    Pipeline(ReceiverAdapters),
    SignalingFailed(SignalingError),
    TransportFailed(TransportError),
    SpawnFailed(std::io::Error),
}

/// The thread and the adapters of a pipeline that stands.
#[derive(Debug, Clone, Copy, PartialEq, Eq, Structural)]
pub struct ReceiverAdapters {
    pub signaling_drain: u64,
    pub receiver: u64,
    pub pkt_rx: u64,
    pub signaling: u64,
}

/// The action of the stage that a build has come to.
pub open spec fn is_action<S>(build: ReceiverBuild<S>, action: ReceiverBuildAction<S>) -> bool {
    match build.stage {
        ReceiverStage::NewSignaling => action == ReceiverBuildAction::<S>::NewSignaling(
            SignalingConfig {
                service_name: build.request.service_name,
                control_port: build.request.udp_port,
                role: Role::Receiver,
                peer_hint: None,
            },
        ),
        ReceiverStage::StartSignaling => action == ReceiverBuildAction::<S>::StartSignaling,
        ReceiverStage::NewReceiver => action == (ReceiverBuildAction::<S>::NewReceiver {
            udp_port: build.request.udp_port,
            role: Role::Receiver,
        }),
        ReceiverStage::StartReceiver => build.bind_ctx matches Some(bind_ctx) && action
            == ReceiverBuildAction::StartReceiver(bind_ctx),
        ReceiverStage::FindCandidate => action == ReceiverBuildAction::<S>::FindCandidate,
        ReceiverStage::PublishCandidate => action == ReceiverBuildAction::<S>::PublishCandidate(
            build.candidate,
        ),
        ReceiverStage::SpawnTransportDrain => action == (
        ReceiverBuildAction::<S>::SpawnTransportDrain {
            stop_flag: build.request.stop_flag,
            channel: build.request.channel,
        }),
        ReceiverStage::SpawnSignalingDrain => action == (
        ReceiverBuildAction::<S>::SpawnSignalingDrain { stop_flag: build.request.stop_flag }),
    }
}

/// A build at its first stage.
pub open spec fn is_first<S>(
    build: ReceiverBuild<S>,
    bind_ctx: BindCtx<S>,
    request: StreamBuildRequest,
) -> bool {
    &&& build.request == request
    &&& build.bind_ctx == Some(bind_ctx)
    &&& build.stage == ReceiverStage::NewSignaling
}

impl<S> ReceiverBuild<S> {
    /// The build has its socket, as long as the receiver has not been given it.
    pub open spec fn has_socket(self) -> bool {
        self.stage.ordinal() <= ReceiverStage::StartReceiver.ordinal() ==> self.bind_ctx is Some
    }

    /// The build once the action of its stage has been handed out: the socket goes with the
    /// receiver's start.
    pub open spec fn asked(self) -> ReceiverBuild<S> {
        if self.stage == ReceiverStage::StartReceiver {
            ReceiverBuild { bind_ctx: None, ..self }
        } else {
            self
        }
    }
}

/// The build moves on to `stage`.
pub open spec fn moved<S>(build: ReceiverBuild<S>, stage: ReceiverStage) -> ReceiverBuild<S> {
    ReceiverBuild { stage, ..build }
}

/// The build goes on as `next`.
pub open spec fn goes_on<S>(
    progress: BuildProgress<ReceiverBuild<S>, ReceiverBundle>,
    next: ReceiverBuild<S>,
) -> bool {
    progress == BuildProgress::<ReceiverBuild<S>, ReceiverBundle>::Next(next)
}

/// The reply tells of a failure.
pub open spec fn is_failure(reply: ReceiverBuildReply) -> bool {
    reply is SignalingFailed || reply is TransportFailed || reply is SpawnFailed
}

/// Where a build goes when the action of its stage has brought `reply`. Every failure ends it but
/// that of publishing the candidate. A receiver without an address goes on without publishing one.
/// A reply that does not belong to the stage fails the build.
pub open spec fn is_progress<S>(
    build: ReceiverBuild<S>,
    reply: ReceiverBuildReply,
    progress: BuildProgress<ReceiverBuild<S>, ReceiverBundle>,
) -> bool {
    if is_failure(reply) && build.stage == ReceiverStage::PublishCandidate {
        goes_on(progress, moved(build, ReceiverStage::SpawnTransportDrain))
    } else {
        match (build.stage, reply) {
            (_, ReceiverBuildReply::SignalingFailed(e)) => progress == BuildProgress::<
                ReceiverBuild<S>,
                ReceiverBundle,
            >::Failed(BundleError::Other(e.text)),
            (_, ReceiverBuildReply::TransportFailed(e)) => progress matches BuildProgress::Failed(b)
                && e.reported_as(b),
            (_, ReceiverBuildReply::SpawnFailed(e)) => progress matches BuildProgress::Failed(b)
                && errors::reports_io(b, e),
            (ReceiverStage::NewSignaling, ReceiverBuildReply::Done) => goes_on(
                progress,
                moved(build, ReceiverStage::StartSignaling),
            ),
            (ReceiverStage::StartSignaling, ReceiverBuildReply::Done) => goes_on(
                progress,
                moved(build, ReceiverStage::NewReceiver),
            ),
            (ReceiverStage::NewReceiver, ReceiverBuildReply::Done) => goes_on(
                progress,
                moved(build, ReceiverStage::StartReceiver),
            ),
            (ReceiverStage::StartReceiver, ReceiverBuildReply::Done) => goes_on(
                progress,
                moved(build, ReceiverStage::FindCandidate),
            ),
            (ReceiverStage::FindCandidate, ReceiverBuildReply::Candidate(candidate)) =>
                match candidate {
                Some(addr) => goes_on(
                    progress,
                    ReceiverBuild {
                        candidate: addr,
                        ..moved(build, ReceiverStage::PublishCandidate)
                    },
                ),
                None => goes_on(progress, moved(build, ReceiverStage::SpawnTransportDrain)),
            },
            (ReceiverStage::PublishCandidate, ReceiverBuildReply::Done) => goes_on(
                progress,
                moved(build, ReceiverStage::SpawnTransportDrain),
            ),
            (ReceiverStage::SpawnTransportDrain, ReceiverBuildReply::Thread(h)) => goes_on(
                progress,
                ReceiverBuild {
                    transport_drain: h,
                    ..moved(build, ReceiverStage::SpawnSignalingDrain)
                },
            ),
            (ReceiverStage::SpawnSignalingDrain, ReceiverBuildReply::Pipeline(adapters)) => progress
                matches BuildProgress::Built(bundle) && is_bundle_of(bundle, build, adapters),
            _ => progress matches BuildProgress::Failed(BundleError::Other(s)) && s@
                == sender_build::out_of_turn_text(),
        }
    }
}

/// The bundle of a pipeline that stands.
pub open spec fn is_bundle_of<S>(
    bundle: ReceiverBundle,
    build: ReceiverBuild<S>,
    adapters: ReceiverAdapters,
) -> bool {
    &&& bundle.receiver == adapters.receiver
    &&& bundle.pkt_rx == adapters.pkt_rx
    &&& bundle.signaling == Some(adapters.signaling)
    &&& bundle.drain_handles@ == seq![build.transport_drain, adapters.signaling_drain]
}

impl<S> ReceiverBuild<S> {
    /// A build at its first stage.
    pub fn new(bind_ctx: BindCtx<S>, request: StreamBuildRequest) -> (b: Self)
        ensures
            is_first(b, bind_ctx, request),
    {
        ReceiverBuild {
            request,
            bind_ctx: Some(bind_ctx),
            stage: ReceiverStage::NewSignaling,
            candidate: String::new(),
            transport_drain: 0,
        }
    }

    /// What is to be done at the stage that the build has come to.
    pub fn action(&mut self) -> (action: ReceiverBuildAction<S>)
        requires
            old(self).has_socket(),
        ensures
            is_action(*old(self), action),
            *final(self) == old(self).asked(),
    {
        match self.stage {
            ReceiverStage::NewSignaling => ReceiverBuildAction::NewSignaling(
                build_signaling_config_for_receiver(
                    self.request.udp_port,
                    self.request.service_name.clone(),
                ),
            ),
            ReceiverStage::StartSignaling => ReceiverBuildAction::StartSignaling,
            ReceiverStage::NewReceiver => ReceiverBuildAction::NewReceiver {
                udp_port: self.request.udp_port,
                role: Role::Receiver,
            },
            ReceiverStage::StartReceiver => ReceiverBuildAction::StartReceiver(
                self.bind_ctx.take().unwrap(),
            ),
            ReceiverStage::FindCandidate => ReceiverBuildAction::FindCandidate,
            ReceiverStage::PublishCandidate => ReceiverBuildAction::PublishCandidate(
                self.candidate.clone(),
            ),
            ReceiverStage::SpawnTransportDrain => ReceiverBuildAction::SpawnTransportDrain {
                stop_flag: self.request.stop_flag,
                channel: self.request.channel,
            },
            ReceiverStage::SpawnSignalingDrain => ReceiverBuildAction::SpawnSignalingDrain {
                stop_flag: self.request.stop_flag,
            },
        }
    }

    /// Takes what the action of the stage has brought.
    pub fn advance(self, reply: ReceiverBuildReply) -> (progress: BuildProgress<
        ReceiverBuild<S>,
        ReceiverBundle,
    >)
        ensures
            is_progress(self, reply, progress),
    {
        let mut build = self;
        match (build.stage, reply) {
            (ReceiverStage::PublishCandidate, ReceiverBuildReply::SignalingFailed(_)) => {
                build.stage = ReceiverStage::SpawnTransportDrain;
            },
            (ReceiverStage::PublishCandidate, ReceiverBuildReply::TransportFailed(_)) => {
                build.stage = ReceiverStage::SpawnTransportDrain;
            },
            (ReceiverStage::PublishCandidate, ReceiverBuildReply::SpawnFailed(_)) => {
                build.stage = ReceiverStage::SpawnTransportDrain;
            },
            (_, ReceiverBuildReply::SignalingFailed(e)) => {
                return BuildProgress::Failed(BundleError::from(e));
            },
            (_, ReceiverBuildReply::TransportFailed(e)) => {
                return BuildProgress::Failed(BundleError::from(e));
            },
            (_, ReceiverBuildReply::SpawnFailed(e)) => {
                return BuildProgress::Failed(BundleError::from(e));
            },
            (ReceiverStage::NewSignaling, ReceiverBuildReply::Done) => {
                build.stage = ReceiverStage::StartSignaling;
            },
            (ReceiverStage::StartSignaling, ReceiverBuildReply::Done) => {
                build.stage = ReceiverStage::NewReceiver;
            },
            (ReceiverStage::NewReceiver, ReceiverBuildReply::Done) => {
                build.stage = ReceiverStage::StartReceiver;
            },
            (ReceiverStage::StartReceiver, ReceiverBuildReply::Done) => {
                build.stage = ReceiverStage::FindCandidate;
            },
            (ReceiverStage::FindCandidate, ReceiverBuildReply::Candidate(Some(addr))) => {
                build.candidate = addr;
                build.stage = ReceiverStage::PublishCandidate;
            },
            (ReceiverStage::FindCandidate, ReceiverBuildReply::Candidate(None)) => {
                build.stage = ReceiverStage::SpawnTransportDrain;
            },
            (ReceiverStage::PublishCandidate, ReceiverBuildReply::Done) => {
                build.stage = ReceiverStage::SpawnTransportDrain;
            },
            (ReceiverStage::SpawnTransportDrain, ReceiverBuildReply::Thread(handle)) => {
                build.transport_drain = handle;
                build.stage = ReceiverStage::SpawnSignalingDrain;
            },
            (ReceiverStage::SpawnSignalingDrain, ReceiverBuildReply::Pipeline(adapters)) => {
                return BuildProgress::Built(
                    ReceiverBundle {
                        receiver: adapters.receiver,
                        pkt_rx: adapters.pkt_rx,
                        signaling: Some(adapters.signaling),
                        drain_handles: vec![build.transport_drain, adapters.signaling_drain],
                    },
                );
            },
            _ => {
                return BuildProgress::Failed(
                    BundleError::Other("pipeline adapter answered out of turn".to_string()),
                );
            },
        }
        BuildProgress::Next(build)
    }
}

/// A build from its first stage to its end: the stages it came to, the action and the reply at
/// each, and its result.
pub open spec fn is_build_run<S>(
    bind_ctx: BindCtx<S>,
    request: StreamBuildRequest,
    builds: Seq<ReceiverBuild<S>>,
    actions: Seq<ReceiverBuildAction<S>>,
    replies: Seq<ReceiverBuildReply>,
    r: Result<ReceiverBundle, BundleError>,
) -> bool {
    &&& builds.len() > 0
    &&& actions.len() == builds.len()
    &&& replies.len() == builds.len()
    &&& is_first(builds[0], bind_ctx, request)
    &&& forall|i: int| 0 <= i < builds.len() ==> is_action(#[trigger] builds[i], actions[i])
    &&& forall|i: int|
        0 <= i < builds.len() - 1 ==> is_progress(
            (#[trigger] builds[i]).asked(),
            replies[i],
            BuildProgress::Next(builds[i + 1]),
        )
    &&& is_progress(
        builds.last().asked(),
        replies.last(),
        match r {
            Ok(bundle) => BuildProgress::Built(bundle),
            Err(e) => BuildProgress::Failed(e),
        },
    )
}

/// What a build needs of the surrounding program; `S` is a bound socket.
pub trait ReceiverBuildHost<S>: Sized {
    /// Carries out an action.
    fn perform(self, action: ReceiverBuildAction<S>) -> (r: (Self, ReceiverBuildReply));
}

/// A call to the host of a build.
pub struct ReceiverBuildCall<S> {
    pub action: ReceiverBuildAction<S>,
    pub reply: ReceiverBuildReply,
}

impl<S, H: ReceiverBuildHost<S>> HostCall<H> for ReceiverBuildCall<S> {
    open spec fn made(self, before: H, after: H) -> bool {
        call_ensures(H::perform, (before, self.action), (after, self.reply))
    }
}

/// The stages that a build came to, with the action and the reply at each.
pub struct BuildRun<S> {
    pub builds: Seq<ReceiverBuild<S>>,
    pub actions: Seq<ReceiverBuildAction<S>>,
    pub replies: Seq<ReceiverBuildReply>,
}

impl<S> BuildRun<S> {
    /// The calls that carry out the actions, in order, with their replies.
    pub open spec fn calls(self) -> Seq<ReceiverBuildCall<S>> {
        Seq::new(
            self.actions.len(),
            |i: int| ReceiverBuildCall { action: self.actions[i], reply: self.replies[i] },
        )
    }

    /// The build was asked for with `bind_ctx` and `request` and ended in `r`.
    pub open spec fn goes_to(
        self,
        bind_ctx: BindCtx<S>,
        request: StreamBuildRequest,
        r: Result<ReceiverBundle, BundleError>,
    ) -> bool {
        is_build_run(bind_ctx, request, self.builds, self.actions, self.replies, r)
    }
}

/// Builds a receiver's pipeline on the socket that was probed: has the host carry out one action
/// after the other, until the pipeline stands or a stage fails.
pub fn build_production_bundle<S, H: ReceiverBuildHost<S>>(
    host: H,
    bind_ctx: BindCtx<S>,
    request: StreamBuildRequest,
) -> (r: (H, Result<ReceiverBundle, BundleError>))
    ensures
        exists|run: BuildRun<S>|
            run.goes_to(bind_ctx, request, r.1) && trace::leads(host, #[trigger] run.calls(), r.0),
{
    let mut at = host;
    let mut build = ReceiverBuild::new(bind_ctx, request);
    let ghost mut run = BuildRun::<S> {
        builds: Seq::empty(),
        actions: Seq::empty(),
        replies: Seq::empty(),
    };
    assert(run.calls() =~= Seq::empty());
    loop
        invariant
            build.has_socket(),
            run.actions.len() == run.builds.len(),
            run.replies.len() == run.builds.len(),
            run.builds.len() == 0 ==> is_first(build, bind_ctx, request),
            run.builds.len() > 0 ==> is_first(run.builds[0], bind_ctx, request),
            run.builds.len() > 0 ==> is_progress(
                run.builds.last().asked(),
                run.replies.last(),
                BuildProgress::Next(build),
            ),
            forall|i: int|
                0 <= i < run.builds.len() ==> is_action(#[trigger] run.builds[i], run.actions[i]),
            forall|i: int|
                0 <= i < run.builds.len() - 1 ==> is_progress(
                    (#[trigger] run.builds[i]).asked(),
                    run.replies[i],
                    BuildProgress::Next(run.builds[i + 1]),
                ),
            trace::leads(host, run.calls(), at),
        decreases 8 - build.stage.ordinal(),
    {
        let ghost stage = build;
        let action = build.action();
        let ghost before = at;
        let ghost asked = action;
        let (next, reply) = at.perform(action);
        at = next;
        proof {
            let call = ReceiverBuildCall { action: asked, reply };
            let more = BuildRun {
                builds: run.builds.push(stage),
                actions: run.actions.push(asked),
                replies: run.replies.push(reply),
            };
            trace::lemma_called(host, run.calls(), before, call, at);
            assert(more.calls() =~= run.calls().push(call));
            run = more;
        }
        match build.advance(reply) {
            BuildProgress::Next(next) => {
                build = next;
            },
            BuildProgress::Built(bundle) => {
                assert(run.goes_to(bind_ctx, request, Ok(bundle)));
                return (at, Ok(bundle));
            },
            BuildProgress::Failed(e) => {
                assert(run.goes_to(bind_ctx, request, Err(e)));
                return (at, Err(e));
            },
        }
    }
}

/// The stages of a build come in their fixed order, none of them twice, and every one of them
/// works on the same request: the signaling is up before the receiver is, and the drains come
/// last.
pub proof fn law_stages_in_order<S>(
    bind_ctx: BindCtx<S>,
    request: StreamBuildRequest,
    builds: Seq<ReceiverBuild<S>>,
    actions: Seq<ReceiverBuildAction<S>>,
    replies: Seq<ReceiverBuildReply>,
    r: Result<ReceiverBundle, BundleError>,
    i: int,
    j: int,
)
    requires
        is_build_run(bind_ctx, request, builds, actions, replies, r),
        0 <= i < j < builds.len(),
    ensures
        builds[i].stage.ordinal() < builds[j].stage.ordinal(),
        builds[i].request == request,
        builds[j].request == request,
    decreases j,
{
    assert(is_progress(builds[j - 1].asked(), replies[j - 1], BuildProgress::Next(builds[j])));
    if i < j - 1 {
        law_stages_in_order(bind_ctx, request, builds, actions, replies, r, i, j - 1);
    } else if i > 0 {
        law_stages_in_order(bind_ctx, request, builds, actions, replies, r, i - 1, i);
    }
}

/// A build at its `i`th stage has the socket it was given, as long as the receiver has not.
proof fn lemma_socket_is_kept<S>(
    bind_ctx: BindCtx<S>,
    request: StreamBuildRequest,
    builds: Seq<ReceiverBuild<S>>,
    actions: Seq<ReceiverBuildAction<S>>,
    replies: Seq<ReceiverBuildReply>,
    r: Result<ReceiverBundle, BundleError>,
    i: int,
)
    requires
        is_build_run(bind_ctx, request, builds, actions, replies, r),
        0 <= i < builds.len(),
    ensures
        i <= 3 ==> builds[i].stage.ordinal() == i && builds[i].bind_ctx == Some(bind_ctx),
        i > 3 ==> builds[i].stage.ordinal() > 3,
    decreases i,
{
    if i > 0 {
        lemma_socket_is_kept(bind_ctx, request, builds, actions, replies, r, i - 1);
        assert(is_progress(builds[i - 1].asked(), replies[i - 1], BuildProgress::Next(builds[i])));
    }
}

/// The receiver is started on the socket that was probed, once, and by its fourth action a build
/// has come to that or failed. No other action has to do with a socket, so the port is not bound a
/// second time. A pipeline that stands has been through that.
pub proof fn law_probed_socket_is_used<S>(
    bind_ctx: BindCtx<S>,
    request: StreamBuildRequest,
    builds: Seq<ReceiverBuild<S>>,
    actions: Seq<ReceiverBuildAction<S>>,
    replies: Seq<ReceiverBuildReply>,
    r: Result<ReceiverBundle, BundleError>,
    i: int,
)
    requires
        is_build_run(bind_ctx, request, builds, actions, replies, r),
        0 <= i < actions.len(),
    ensures
        actions[i] is StartReceiver <==> i == 3,
        actions[i] is StartReceiver ==> actions[i] == ReceiverBuildAction::StartReceiver(bind_ctx),
        r is Ok ==> actions.len() > 3,
{
    lemma_socket_is_kept(bind_ctx, request, builds, actions, replies, r, i);
    lemma_socket_is_kept(bind_ctx, request, builds, actions, replies, r, builds.len() - 1);
    assert(is_action(builds[i], actions[i]));
}

/// A failure is final: the stage that failed is the last one tried, except where it was the
/// publication of the candidate. Only the transport can find the port taken.
pub proof fn law_failure_is_final<S>(
    bind_ctx: BindCtx<S>,
    request: StreamBuildRequest,
    builds: Seq<ReceiverBuild<S>>,
    actions: Seq<ReceiverBuildAction<S>>,
    replies: Seq<ReceiverBuildReply>,
    r: Result<ReceiverBundle, BundleError>,
    i: int,
)
    requires
        is_build_run(bind_ctx, request, builds, actions, replies, r),
        0 <= i < builds.len(),
    ensures
        is_failure(replies[i]) && builds[i].stage != ReceiverStage::PublishCandidate ==> i
            == builds.len() - 1 && r is Err,
        r matches Err(BundleError::PortInUse(port)) ==> replies.last()
            == ReceiverBuildReply::TransportFailed(TransportError::AddrInUse { port }),
{
    if i < builds.len() - 1 {
        assert(is_progress(builds[i].asked(), replies[i], BuildProgress::Next(builds[i + 1])));
    }
}

/// What a build at its `i`th action has from the actions before.
proof fn lemma_what_a_build_has<S>(
    bind_ctx: BindCtx<S>,
    request: StreamBuildRequest,
    builds: Seq<ReceiverBuild<S>>,
    actions: Seq<ReceiverBuildAction<S>>,
    replies: Seq<ReceiverBuildReply>,
    r: Result<ReceiverBundle, BundleError>,
    i: int,
)
    requires
        is_build_run(bind_ctx, request, builds, actions, replies, r),
        0 <= i < builds.len(),
    ensures
        builds[i].request == request,
        i <= 4 ==> builds[i].stage.ordinal() == i,
        i <= 3 ==> builds[i].bind_ctx == Some(bind_ctx),
        i >= 5 ==> replies[4] is Candidate,
        i >= 5 ==> builds[i].stage.ordinal() == i + (if replies[4] == ReceiverBuildReply::Candidate(
            None,
        ) {
            1int
        } else {
            0
        }),
        i >= 5 && replies[4] != ReceiverBuildReply::Candidate(None) ==> replies[4]
            == ReceiverBuildReply::Candidate(Some(builds[i].candidate)),
        builds[i].stage is SpawnSignalingDrain ==> i >= 1 && replies[i - 1]
            == ReceiverBuildReply::Thread(builds[i].transport_drain),
    decreases i,
{
    if i > 0 {
        lemma_what_a_build_has(bind_ctx, request, builds, actions, replies, r, i - 1);
        assert(is_progress(builds[i - 1].asked(), replies[i - 1], BuildProgress::Next(builds[i])));
    }
}

/// What each adapter of a receiver's pipeline is asked for, whatever comes of the build in the end.
/// Signaling is opened as that of a receiver, under the service name of the request and on its port,
/// and started; then the transport is made, as that of a receiver on the same port, and started on
/// the socket that was probed; then it is asked for its address. An address is published as it is;
/// without one that action is left out. Last come the transport drain, with the stop flag and the
/// channel of the request, and the signaling drain, with its stop flag.
pub proof fn law_what_each_stage_asks_for<S>(
    bind_ctx: BindCtx<S>,
    request: StreamBuildRequest,
    builds: Seq<ReceiverBuild<S>>,
    actions: Seq<ReceiverBuildAction<S>>,
    replies: Seq<ReceiverBuildReply>,
    r: Result<ReceiverBundle, BundleError>,
    i: int,
)
    requires
        is_build_run(bind_ctx, request, builds, actions, replies, r),
        0 <= i < actions.len(),
    ensures
        i == 0 ==> actions[i] == ReceiverBuildAction::<S>::NewSignaling(
            SignalingConfig {
                service_name: request.service_name,
                control_port: request.udp_port,
                role: Role::Receiver,
                peer_hint: None,
            },
        ),
        i == 1 ==> actions[i] == ReceiverBuildAction::<S>::StartSignaling,
        i == 2 ==> actions[i] == (ReceiverBuildAction::<S>::NewReceiver {
            udp_port: request.udp_port,
            role: Role::Receiver,
        }),
        i == 3 ==> actions[i] == ReceiverBuildAction::StartReceiver(bind_ctx),
        i == 4 ==> actions[i] == ReceiverBuildAction::<S>::FindCandidate,
        i >= 5 ==> (replies[4] matches ReceiverBuildReply::Candidate(candidate) && {
            let published = if candidate is Some {
                1int
            } else {
                0
            };
            &&& i == 5 && published == 1 ==> actions[i]
                == ReceiverBuildAction::<S>::PublishCandidate(candidate->0)
            &&& i == 5 + published ==> actions[i] == (
            ReceiverBuildAction::<S>::SpawnTransportDrain {
                stop_flag: request.stop_flag,
                channel: request.channel,
            })
            &&& i == 6 + published ==> actions[i] == (
            ReceiverBuildAction::<S>::SpawnSignalingDrain { stop_flag: request.stop_flag })
            &&& i <= 6 + published
        }),
{
    lemma_what_a_build_has(bind_ctx, request, builds, actions, replies, r, i);
    assert(is_action(builds[i], actions[i]));
}

/// A pipeline that stands is made of what its last two stages brought: the receiver, its packets and
/// the signaling, each in its place, and the thread of the transport drain before that of the
/// signaling drain.
pub proof fn law_bundle_is_what_the_stages_brought<S>(
    bind_ctx: BindCtx<S>,
    request: StreamBuildRequest,
    builds: Seq<ReceiverBuild<S>>,
    actions: Seq<ReceiverBuildAction<S>>,
    replies: Seq<ReceiverBuildReply>,
    bundle: ReceiverBundle,
)
    requires
        is_build_run(bind_ctx, request, builds, actions, replies, Ok(bundle)),
    ensures
        replies.len() == (if replies[4] == ReceiverBuildReply::Candidate(None) {
            7int
        } else {
            8
        }),
        replies[replies.len() - 2] matches ReceiverBuildReply::Thread(transport_drain)
            && replies.last() matches ReceiverBuildReply::Pipeline(adapters) && {
            &&& bundle.receiver == adapters.receiver
            &&& bundle.pkt_rx == adapters.pkt_rx
            &&& bundle.signaling == Some(adapters.signaling)
            &&& bundle.drain_handles@ == seq![transport_drain, adapters.signaling_drain]
        },
{
    lemma_what_a_build_has(
        bind_ctx,
        request,
        builds,
        actions,
        replies,
        Ok(bundle),
        builds.len() - 1,
    );
}

/// How a build fails: a failure of the signaling is reported by its text, one of the transport by
/// the port that is taken or by its text, one to start a thread by the text of the system. Nothing
/// else ends a build, unless an adapter answers something that it was not asked.
pub proof fn law_how_a_build_fails<S>(
    bind_ctx: BindCtx<S>,
    request: StreamBuildRequest,
    builds: Seq<ReceiverBuild<S>>,
    actions: Seq<ReceiverBuildAction<S>>,
    replies: Seq<ReceiverBuildReply>,
    e: BundleError,
)
    requires
        is_build_run(bind_ctx, request, builds, actions, replies, Err(e)),
    ensures
        match replies.last() {
            ReceiverBuildReply::SignalingFailed(why) => e == BundleError::Other(why.text),
            ReceiverBuildReply::TransportFailed(TransportError::AddrInUse { port }) => e
                == BundleError::PortInUse(port),
            ReceiverBuildReply::TransportFailed(TransportError::AlreadyRunning) => e
                matches BundleError::Other(s) && s@ == "transport already running"@,
            ReceiverBuildReply::TransportFailed(TransportError::NotRunning) => e
                matches BundleError::Other(s) && s@ == "transport not running"@,
            ReceiverBuildReply::TransportFailed(TransportError::InvalidConfig(why)) => e
                matches BundleError::Other(s) && s@ == "invalid transport config: "@ + why@,
            ReceiverBuildReply::TransportFailed(TransportError::Io(why)) => e
                matches BundleError::Other(s) && s@ == "transport I/O error: "@ + why@,
            ReceiverBuildReply::TransportFailed(TransportError::SignalingFailed(why)) => e
                matches BundleError::Other(s) && s@ == "signaling failed: "@ + why@,
            ReceiverBuildReply::TransportFailed(TransportError::Internal(why)) => e
                matches BundleError::Other(s) && s@ == "internal transport error: "@ + why@,
            ReceiverBuildReply::SpawnFailed(why) => errors::reports_io(e, why),
            _ => e matches BundleError::Other(s) && s@ == "pipeline adapter answered out of turn"@,
        },
{
}

/// A build goes on from an action exactly when its reply is the one that was asked for, or when it
/// was only the candidate that could not be published.
pub proof fn law_when_a_build_goes_on<S>(
    bind_ctx: BindCtx<S>,
    request: StreamBuildRequest,
    builds: Seq<ReceiverBuild<S>>,
    actions: Seq<ReceiverBuildAction<S>>,
    replies: Seq<ReceiverBuildReply>,
    r: Result<ReceiverBundle, BundleError>,
    i: int,
)
    requires
        is_build_run(bind_ctx, request, builds, actions, replies, r),
        0 <= i < builds.len(),
    ensures
        (i < builds.len() - 1 || r is Ok) <==> (match actions[i] {
            ReceiverBuildAction::NewSignaling(_) => replies[i] is Done,
            ReceiverBuildAction::StartSignaling => replies[i] is Done,
            ReceiverBuildAction::NewReceiver { .. } => replies[i] is Done,
            ReceiverBuildAction::StartReceiver(_) => replies[i] is Done,
            ReceiverBuildAction::FindCandidate => replies[i] is Candidate,
            ReceiverBuildAction::PublishCandidate(_) => replies[i] is Done
                || replies[i] is SignalingFailed || replies[i] is TransportFailed
                || replies[i] is SpawnFailed,
            ReceiverBuildAction::SpawnTransportDrain { .. } => replies[i] is Thread,
            ReceiverBuildAction::SpawnSignalingDrain { .. } => replies[i] is Pipeline,
        }),
{
    assert(is_action(builds[i], actions[i]));
    if i < builds.len() - 1 {
        assert(is_progress(builds[i].asked(), replies[i], BuildProgress::Next(builds[i + 1])));
    }
}

/// The calls of a build are its actions with their replies, one for one and in order.
pub proof fn law_calls_of_a_build<S>(run: BuildRun<S>, i: int)
    requires
        0 <= i < run.actions.len(),
    ensures
        run.calls().len() == run.actions.len(),
        run.calls()[i].action == run.actions[i],
        run.calls()[i].reply == run.replies[i],
{
}

/// Each call of a build hands the host its action and takes the reply back.
pub proof fn law_calls_reach_the_host<S, H: ReceiverBuildHost<S>>(
    call: ReceiverBuildCall<S>,
    before: H,
    after: H,
)
    requires
        HostCall::<H>::made(call, before, after),
    ensures
        call_ensures(H::perform, (before, call.action), (after, call.reply)),
{
}

/// The receiver's signaling listens on the port of its media, under the name it is given.
pub proof fn law_settings_of_the_signaling(udp_port: u16, service_name: String, c: SignalingConfig)
    requires
        call_ensures(build_signaling_config_for_receiver, (udp_port, service_name), c),
    ensures
        c.service_name == service_name,
        c.control_port == udp_port,
        c.role == Role::Receiver,
        c.peer_hint is None,
{
}

} // verus!
