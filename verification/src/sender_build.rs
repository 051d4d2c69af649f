//! The steps by which a sender's pipeline is built, and what each of them is given.
//!
//! Capture, encoder, transport and signaling are adapters of the surrounding program. The order in
//! which they are made and started, their settings, and what a failure means are decided here.
use crate::coordinator::{ACK_TIMEOUT_NS, REBUILD_TIMEOUT_NS};
use crate::errors::BundleError;
use crate::events::{Role, SdpOffer};
use crate::sender::{SenderBuildRequest, SenderBundle};
use crate::sender_drain::{MEDIA_WATCHDOG_MAX_FIRES, MEDIA_WATCHDOG_TIMEOUT_NS};
use crate::trace;
use crate::trace::HostCall;
use vstd::prelude::*;

verus! {

broadcast use trace::lemma_no_call;

/// Frame rate that the sender's encoder is set to.
pub const SENDER_ENCODER_FRAMERATE: u32 = 60;

/// Frame rate of an encoder that is not told otherwise.
pub const DEFAULT_ENCODER_FRAMERATE: u32 = 30;

/// TCP port of the sender's signaling.
pub const SENDER_CONTROL_PORT: u16 = 7889;

/// Room in each of a pipeline's channels.
pub const CHANNEL_CAP: usize = 4;

/// Settings of an encoder.
#[derive(Debug, Clone, Copy, PartialEq, Eq, Structural)]
pub struct EncoderConfig {
    /// 0 leaves the width to the encoder.
    pub width: u32,
    /// 0 leaves the height to the encoder.
    pub height: u32,
    pub framerate: u32,
}

impl Default for EncoderConfig {
    fn default() -> (c: Self)
        ensures
            c == (EncoderConfig { width: 0, height: 0, framerate: DEFAULT_ENCODER_FRAMERATE }),
    {
        EncoderConfig { width: 0, height: 0, framerate: DEFAULT_ENCODER_FRAMERATE }
    }
}

/// Settings of a signaling adapter.
#[derive(Debug)]
pub struct SignalingConfig {
    pub service_name: String,
    pub control_port: u16,
    pub role: Role,
    pub peer_hint: Option<String>,
}

/// Settings of the sender's transport drain.
#[derive(Debug, Clone, Copy, PartialEq, Eq, Structural)]
pub struct TransportDrainConfig {
    /// The stop flag that the drain honours.
    pub stop_flag: u64,
    /// The channel in which it shows what happens.
    pub channel: u64,
    pub ack_timeout_ns: u64,
    pub rebuild_timeout_ns: u64,
    pub watchdog_timeout_ns: u64,
    pub watchdog_max_fires: u8,
    pub arm_media_watchdog: bool,
}

/// Settings of the sender's encoder for a screen of the given size.
pub fn sender_encoder_config(width: u32, height: u32) -> (c: EncoderConfig)
    ensures
        c == (EncoderConfig { width, height, framerate: SENDER_ENCODER_FRAMERATE }),
{
    EncoderConfig { width, height, framerate: SENDER_ENCODER_FRAMERATE }
}

/// A pipeline without a local address cannot connect, so its build fails.
pub fn decide_candidate_or_nic_error<A>(candidate: Option<A>) -> (r: Result<A, BundleError>)
    ensures
        r == match candidate {
            Some(addr) => Ok::<A, BundleError>(addr),
            None => Err(BundleError::NoLocalNic),
        },
{
    match candidate {
        Some(addr) => Ok(addr),
        None => Err(BundleError::NoLocalNic),
    }
}

/// Where the build of a sender's pipeline stands.
#[derive(Debug, Clone, Copy, PartialEq, Eq, Structural)]
pub enum BuildStage {
    NewSignaling,
    NewCapture,
    NewEncoder,
    NewTransport,
    StartSignaling,
    StartCapture,
    StartEncoder,
    ShareEncoder,
    CreateOffer,
    StartTransport,
    PublishOffer,
    ResolveCandidate,
    PublishCandidate,
    SpawnSignalingDrain,
    SpawnTransportDrain,
}

impl BuildStage {
    /// Number of the stage in the build.
    pub open spec fn ordinal(self) -> nat {
        match self {
            BuildStage::NewSignaling => 0,
            BuildStage::NewCapture => 1,
            BuildStage::NewEncoder => 2,
            BuildStage::NewTransport => 3,
            BuildStage::StartSignaling => 4,
            BuildStage::StartCapture => 5,
            BuildStage::StartEncoder => 6,
            BuildStage::ShareEncoder => 7,
            BuildStage::CreateOffer => 8,
            BuildStage::StartTransport => 9,
            BuildStage::PublishOffer => 10,
            BuildStage::ResolveCandidate => 11,
            BuildStage::PublishCandidate => 12,
            BuildStage::SpawnSignalingDrain => 13,
            BuildStage::SpawnTransportDrain => 14,
        }
    }
}

/// A build in progress: the request, the stage it has come to, and what the stages so far brought.
#[derive(Debug)]
pub struct SenderBuild {
    pub request: SenderBuildRequest,
    pub stage: BuildStage,
    pub size: (u32, u32),
    pub backend_name: String,
    pub offer: String,
    pub candidate: String,
    pub signaling_drain: u64,
}

/// Which monitor is captured.
#[derive(Debug, Clone, Copy, PartialEq, Eq, Structural)]
pub enum MonitorSelector {
    Primary,
}

/// Whether the system draws a border around what is captured.
#[derive(Debug, Clone, Copy, PartialEq, Eq, Structural)]
pub enum BorderPolicy {
    /// As the system sees fit.
    Auto,
    /// Never, where the system lets itself be asked.
    AlwaysOff,
}

/// What is captured, and how; the rest of the capture's settings are its defaults.
#[derive(Debug, Clone, Copy, PartialEq, Eq, Structural)]
pub struct CaptureConfig {
    pub monitor: MonitorSelector,
    pub border: BorderPolicy,
}

/// What a sender captures: the primary monitor, without a border around it.
pub fn sender_capture_config() -> (r: CaptureConfig)
    ensures
        r == (CaptureConfig { monitor: MonitorSelector::Primary, border: BorderPolicy::AlwaysOff }),
{
    CaptureConfig { monitor: MonitorSelector::Primary, border: BorderPolicy::AlwaysOff }
}

/// What is to be done at a stage.
#[derive(Debug)]
pub enum SenderBuildAction {
    NewSignaling(SignalingConfig),
    NewCapture(CaptureConfig),
    NewEncoder(EncoderConfig),
    NewTransport { udp_port: u16, role: Role },
    StartSignaling,
    StartCapture,
    StartEncoder,
    /// Read the backend's name off the encoder, and only then share it with the transport.
    ShareEncoder,
    CreateOffer,
    StartTransport,
    PublishOffer { offer: SdpOffer, attempt: u8 },
    /// Wait a while for an address on a network interface.
    ResolveCandidate,
    PublishCandidate(String),
    /// Start the signaling drain, with the stop flag that it honours and the channel in which it
    /// shows what happens.
    SpawnSignalingDrain { stop_flag: u64, channel: u64 },
    SpawnTransportDrain(TransportDrainConfig),
}

/// What came of an action.
#[derive(Debug)]
pub enum SenderBuildReply {
    Done,
    /// Of `NewCapture`: the size of the screen, zero where it is not known.
    Size(u32, u32),
    /// Of `ShareEncoder`: the name of the backend.
    Backend(String),
    /// Of `CreateOffer`.
    Offer(SdpOffer),
    /// Of `ResolveCandidate`.
    Candidate(Option<String>),
    /// Of `SpawnSignalingDrain`.
    Thread(u64),
    /// Of `SpawnTransportDrain`: the thread, and where the pipeline's callbacks are kept.
    Pipeline(SenderCallbacks),
    /// The text of the failure.
    Failed(String),
}

/// The thread and the callbacks of a pipeline that stands.
#[derive(Debug, Clone, Copy, PartialEq, Eq, Structural)]
pub struct SenderCallbacks {
    pub transport_drain: u64,
    pub shutdown: u64,
    pub suppress_bye: u64,
    pub stop_signaling: u64,
    pub disarm_escalation: u64,
}

/// Where a build goes from a stage.
#[derive(Debug)]
pub enum BuildProgress<T, U> {
    Next(T),
    Built(U),
    Failed(BundleError),
}

/// The action of the stage that a build has come to.
pub open spec fn is_action(build: SenderBuild, action: SenderBuildAction) -> bool {
    match build.stage {
        BuildStage::NewSignaling => action == SenderBuildAction::NewSignaling(
            SignalingConfig {
                service_name: build.request.service_name,
                control_port: SENDER_CONTROL_PORT,
                role: Role::Sender,
                peer_hint: None,
            },
        ),
        BuildStage::NewCapture => action == SenderBuildAction::NewCapture(
            CaptureConfig { monitor: MonitorSelector::Primary, border: BorderPolicy::AlwaysOff },
        ),
        BuildStage::NewEncoder => action == SenderBuildAction::NewEncoder(
            EncoderConfig {
                width: build.size.0,
                height: build.size.1,
                framerate: SENDER_ENCODER_FRAMERATE,
            },
        ),
        BuildStage::NewTransport => action == (SenderBuildAction::NewTransport {
            udp_port: build.request.udp_port,
            role: Role::Sender,
        }),
        BuildStage::StartSignaling => action == SenderBuildAction::StartSignaling,
        BuildStage::StartCapture => action == SenderBuildAction::StartCapture,
        BuildStage::StartEncoder => action == SenderBuildAction::StartEncoder,
        BuildStage::ShareEncoder => action == SenderBuildAction::ShareEncoder,
        BuildStage::CreateOffer => action == SenderBuildAction::CreateOffer,
        BuildStage::StartTransport => action == SenderBuildAction::StartTransport,
        BuildStage::PublishOffer => action == (SenderBuildAction::PublishOffer {
            offer: SdpOffer(build.offer),
            attempt: build.request.attempt,
        }),
        BuildStage::ResolveCandidate => action == SenderBuildAction::ResolveCandidate,
        BuildStage::PublishCandidate => action == SenderBuildAction::PublishCandidate(
            build.candidate,
        ),
        BuildStage::SpawnSignalingDrain => action == (SenderBuildAction::SpawnSignalingDrain {
            stop_flag: build.request.stop_flag,
            channel: build.request.channel,
        }),
        BuildStage::SpawnTransportDrain => action == SenderBuildAction::SpawnTransportDrain(
            TransportDrainConfig {
                stop_flag: build.request.stop_flag,
                channel: build.request.channel,
                ack_timeout_ns: ACK_TIMEOUT_NS,
                rebuild_timeout_ns: REBUILD_TIMEOUT_NS,
                watchdog_timeout_ns: MEDIA_WATCHDOG_TIMEOUT_NS,
                watchdog_max_fires: MEDIA_WATCHDOG_MAX_FIRES,
                arm_media_watchdog: build.request.arm_media_watchdog,
            },
        ),
    }
}

/// The text of a failure, as the build reports it.
pub open spec fn failure_text(stage: BuildStage, text: Seq<char>) -> Seq<char> {
    match stage {
        BuildStage::SpawnSignalingDrain => "spawn sig drain: "@ + text,
        BuildStage::SpawnTransportDrain => "spawn transport drain: "@ + text,
        _ => text,
    }
}

/// A build at its first stage.
pub open spec fn is_first(build: SenderBuild, request: SenderBuildRequest) -> bool {
    build.request == request && build.stage == BuildStage::NewSignaling
}

/// The build moves on to `stage`.
pub open spec fn moved(build: SenderBuild, stage: BuildStage) -> SenderBuild {
    SenderBuild { stage, ..build }
}

/// The build goes on as `next`.
pub open spec fn goes_on(
    progress: BuildProgress<SenderBuild, SenderBundle>,
    next: SenderBuild,
) -> bool {
    progress == BuildProgress::<SenderBuild, SenderBundle>::Next(next)
}

/// Where a build goes when the action of its stage has brought `reply`. Every failure ends it but
/// that of publishing the candidate, without which the peer can still be found. A reply that does
/// not belong to the stage fails the build.
pub open spec fn is_progress(
    build: SenderBuild,
    reply: SenderBuildReply,
    progress: BuildProgress<SenderBuild, SenderBundle>,
) -> bool {
    match (build.stage, reply) {
        (BuildStage::PublishCandidate, SenderBuildReply::Failed(_)) => goes_on(
            progress,
            moved(build, BuildStage::SpawnSignalingDrain),
        ),
        (stage, SenderBuildReply::Failed(text)) => progress matches BuildProgress::Failed(
            BundleError::Other(s),
        ) && s@ == failure_text(stage, text@),
        (BuildStage::NewSignaling, SenderBuildReply::Done) => goes_on(
            progress,
            moved(build, BuildStage::NewCapture),
        ),
        (BuildStage::NewCapture, SenderBuildReply::Size(w, h)) => goes_on(
            progress,
            SenderBuild { size: (w, h), ..moved(build, BuildStage::NewEncoder) },
        ),
        (BuildStage::NewEncoder, SenderBuildReply::Done) => goes_on(
            progress,
            moved(build, BuildStage::NewTransport),
        ),
        (BuildStage::NewTransport, SenderBuildReply::Done) => goes_on(
            progress,
            moved(build, BuildStage::StartSignaling),
        ),
        (BuildStage::StartSignaling, SenderBuildReply::Done) => goes_on(
            progress,
            moved(build, BuildStage::StartCapture),
        ),
        (BuildStage::StartCapture, SenderBuildReply::Done) => goes_on(
            progress,
            moved(build, BuildStage::StartEncoder),
        ),
        (BuildStage::StartEncoder, SenderBuildReply::Done) => goes_on(
            progress,
            moved(build, BuildStage::ShareEncoder),
        ),
        (BuildStage::ShareEncoder, SenderBuildReply::Backend(name)) => goes_on(
            progress,
            SenderBuild { backend_name: name, ..moved(build, BuildStage::CreateOffer) },
        ),
        (BuildStage::CreateOffer, SenderBuildReply::Offer(offer)) => goes_on(
            progress,
            SenderBuild { offer: offer.0, ..moved(build, BuildStage::StartTransport) },
        ),
        (BuildStage::StartTransport, SenderBuildReply::Done) => goes_on(
            progress,
            moved(build, BuildStage::PublishOffer),
        ),
        (BuildStage::PublishOffer, SenderBuildReply::Done) => goes_on(
            progress,
            moved(build, BuildStage::ResolveCandidate),
        ),
        (BuildStage::ResolveCandidate, SenderBuildReply::Candidate(candidate)) => match candidate {
            Some(addr) => goes_on(
                progress,
                SenderBuild { candidate: addr, ..moved(build, BuildStage::PublishCandidate) },
            ),
            None => progress == BuildProgress::<SenderBuild, SenderBundle>::Failed(
                BundleError::NoLocalNic,
            ),
        },
        (BuildStage::PublishCandidate, SenderBuildReply::Done) => goes_on(
            progress,
            moved(build, BuildStage::SpawnSignalingDrain),
        ),
        (BuildStage::SpawnSignalingDrain, SenderBuildReply::Thread(h)) => goes_on(
            progress,
            SenderBuild { signaling_drain: h, ..moved(build, BuildStage::SpawnTransportDrain) },
        ),
        (BuildStage::SpawnTransportDrain, SenderBuildReply::Pipeline(callbacks)) => progress
            matches BuildProgress::Built(bundle) && is_bundle_of(bundle, build, callbacks),
        _ => progress matches BuildProgress::Failed(BundleError::Other(s)) && s@
            == out_of_turn_text(),
    }
}

/// The text for an adapter that answers something it was not asked.
pub open spec fn out_of_turn_text() -> Seq<char> {
    "pipeline adapter answered out of turn"@
}

/// The bundle of a pipeline that stands: the two drains, every callback, and the backend's name.
pub open spec fn is_bundle_of(
    bundle: SenderBundle,
    build: SenderBuild,
    callbacks: SenderCallbacks,
) -> bool {
    &&& bundle.drain_handles@ == seq![build.signaling_drain, callbacks.transport_drain]
    &&& bundle.shutdown == Some(callbacks.shutdown)
    &&& bundle.backend_name == build.backend_name
    &&& bundle.suppress_bye_on_rebuild == Some(callbacks.suppress_bye)
    &&& bundle.stop_signaling_on_rebuild == Some(callbacks.stop_signaling)
    &&& bundle.disarm_escalation_on_rebuild == Some(callbacks.disarm_escalation)
}

impl SenderBuild {
    /// A build at its first stage.
    pub fn new(request: SenderBuildRequest) -> (b: Self)
        ensures
            is_first(b, request),
    {
        SenderBuild {
            request,
            stage: BuildStage::NewSignaling,
            size: (0, 0),
            backend_name: String::new(),
            offer: String::new(),
            candidate: String::new(),
            signaling_drain: 0,
        }
    }

    /// What is to be done at the stage that the build has come to.
    pub fn action(&self) -> (action: SenderBuildAction)
        ensures
            is_action(*self, action),
    {
        match self.stage {
            BuildStage::NewSignaling => SenderBuildAction::NewSignaling(
                SignalingConfig {
                    service_name: self.request.service_name.clone(),
                    control_port: SENDER_CONTROL_PORT,
                    role: Role::Sender,
                    peer_hint: None,
                },
            ),
            BuildStage::NewCapture => SenderBuildAction::NewCapture(sender_capture_config()),
            BuildStage::NewEncoder => SenderBuildAction::NewEncoder(
                sender_encoder_config(self.size.0, self.size.1),
            ),
            BuildStage::NewTransport => SenderBuildAction::NewTransport {
                udp_port: self.request.udp_port,
                role: Role::Sender,
            },
            BuildStage::StartSignaling => SenderBuildAction::StartSignaling,
            BuildStage::StartCapture => SenderBuildAction::StartCapture,
            BuildStage::StartEncoder => SenderBuildAction::StartEncoder,
            BuildStage::ShareEncoder => SenderBuildAction::ShareEncoder,
            BuildStage::CreateOffer => SenderBuildAction::CreateOffer,
            BuildStage::StartTransport => SenderBuildAction::StartTransport,
            BuildStage::PublishOffer => SenderBuildAction::PublishOffer {
                offer: SdpOffer(self.offer.clone()),
                attempt: self.request.attempt,
            },
            BuildStage::ResolveCandidate => SenderBuildAction::ResolveCandidate,
            BuildStage::PublishCandidate => SenderBuildAction::PublishCandidate(
                self.candidate.clone(),
            ),
            BuildStage::SpawnSignalingDrain => SenderBuildAction::SpawnSignalingDrain {
                stop_flag: self.request.stop_flag,
                channel: self.request.channel,
            },
            BuildStage::SpawnTransportDrain => SenderBuildAction::SpawnTransportDrain(
                TransportDrainConfig {
                    stop_flag: self.request.stop_flag,
                    channel: self.request.channel,
                    ack_timeout_ns: ACK_TIMEOUT_NS,
                    rebuild_timeout_ns: REBUILD_TIMEOUT_NS,
                    watchdog_timeout_ns: MEDIA_WATCHDOG_TIMEOUT_NS,
                    watchdog_max_fires: MEDIA_WATCHDOG_MAX_FIRES,
                    arm_media_watchdog: self.request.arm_media_watchdog,
                },
            ),
        }
    }

    /// Takes what the action of the stage has brought.
    pub fn advance(self, reply: SenderBuildReply) -> (progress: BuildProgress<
        SenderBuild,
        SenderBundle,
    >)
        ensures
            is_progress(self, reply, progress),
    {
        let mut build = self;
        match (build.stage, reply) {
            (BuildStage::PublishCandidate, SenderBuildReply::Failed(_)) => {
                build.stage = BuildStage::SpawnSignalingDrain;
            },
            (BuildStage::SpawnSignalingDrain, SenderBuildReply::Failed(text)) => {
                let mut s = "spawn sig drain: ".to_string();
                s.append(text.as_str());
                return BuildProgress::Failed(BundleError::Other(s));
            },
            (BuildStage::SpawnTransportDrain, SenderBuildReply::Failed(text)) => {
                let mut s = "spawn transport drain: ".to_string();
                s.append(text.as_str());
                return BuildProgress::Failed(BundleError::Other(s));
            },
            (_, SenderBuildReply::Failed(text)) => {
                return BuildProgress::Failed(BundleError::Other(text));
            },
            (BuildStage::NewSignaling, SenderBuildReply::Done) => {
                build.stage = BuildStage::NewCapture;
            },
            (BuildStage::NewCapture, SenderBuildReply::Size(width, height)) => {
                build.size = (width, height);
                build.stage = BuildStage::NewEncoder;
            },
            (BuildStage::NewEncoder, SenderBuildReply::Done) => {
                build.stage = BuildStage::NewTransport;
            },
            (BuildStage::NewTransport, SenderBuildReply::Done) => {
                build.stage = BuildStage::StartSignaling;
            },
            (BuildStage::StartSignaling, SenderBuildReply::Done) => {
                build.stage = BuildStage::StartCapture;
            },
            (BuildStage::StartCapture, SenderBuildReply::Done) => {
                build.stage = BuildStage::StartEncoder;
            },
            (BuildStage::StartEncoder, SenderBuildReply::Done) => {
                build.stage = BuildStage::ShareEncoder;
            },
            (BuildStage::ShareEncoder, SenderBuildReply::Backend(name)) => {
                build.backend_name = name;
                build.stage = BuildStage::CreateOffer;
            },
            (BuildStage::CreateOffer, SenderBuildReply::Offer(offer)) => {
                build.offer = offer.0;
                build.stage = BuildStage::StartTransport;
            },
            (BuildStage::StartTransport, SenderBuildReply::Done) => {
                build.stage = BuildStage::PublishOffer;
            },
            (BuildStage::PublishOffer, SenderBuildReply::Done) => {
                build.stage = BuildStage::ResolveCandidate;
            },
            (BuildStage::ResolveCandidate, SenderBuildReply::Candidate(candidate)) => {
                match decide_candidate_or_nic_error(candidate) {
                    Ok(addr) => {
                        build.candidate = addr;
                        build.stage = BuildStage::PublishCandidate;
                    },
                    Err(e) => {
                        return BuildProgress::Failed(e);
                    },
                }
            },
            (BuildStage::PublishCandidate, SenderBuildReply::Done) => {
                build.stage = BuildStage::SpawnSignalingDrain;
            },
            (BuildStage::SpawnSignalingDrain, SenderBuildReply::Thread(handle)) => {
                build.signaling_drain = handle;
                build.stage = BuildStage::SpawnTransportDrain;
            },
            (BuildStage::SpawnTransportDrain, SenderBuildReply::Pipeline(callbacks)) => {
                return BuildProgress::Built(
                    SenderBundle {
                        drain_handles: vec![build.signaling_drain, callbacks.transport_drain],
                        shutdown: Some(callbacks.shutdown),
                        backend_name: build.backend_name,
                        suppress_bye_on_rebuild: Some(callbacks.suppress_bye),
                        stop_signaling_on_rebuild: Some(callbacks.stop_signaling),
                        disarm_escalation_on_rebuild: Some(callbacks.disarm_escalation),
                    },
                );
            },
            _ => {
                return BuildProgress::Failed(
                    BundleError::Other("pipeline adapter answered out of turn".to_string()),
                );
            },
        }
        BuildProgress::Next(build)
    }
}

/// A build from its first stage to its end: the stages it came to, the action and the reply at
/// each, and its result.
pub open spec fn is_build_run(
    request: SenderBuildRequest,
    builds: Seq<SenderBuild>,
    actions: Seq<SenderBuildAction>,
    replies: Seq<SenderBuildReply>,
    r: Result<SenderBundle, BundleError>,
) -> bool {
    &&& builds.len() > 0
    &&& actions.len() == builds.len()
    &&& replies.len() == builds.len()
    &&& is_first(builds[0], request)
    &&& forall|i: int| 0 <= i < builds.len() ==> is_action(#[trigger] builds[i], actions[i])
    &&& forall|i: int|
        0 <= i < builds.len() - 1 ==> is_progress(
            #[trigger] builds[i],
            replies[i],
            BuildProgress::Next(builds[i + 1]),
        )
    &&& is_progress(
        builds.last(),
        replies.last(),
        match r {
            Ok(bundle) => BuildProgress::Built(bundle),
            Err(e) => BuildProgress::Failed(e),
        },
    )
}

/// What a build needs of the surrounding program.
pub trait SenderBuildHost: Sized {
    /// Carries out an action.
    fn perform(self, action: SenderBuildAction) -> (r: (Self, SenderBuildReply));
}

/// A call to the host of a build.
pub struct SenderBuildCall {
    pub action: SenderBuildAction,
    pub reply: SenderBuildReply,
}

impl<H: SenderBuildHost> HostCall<H> for SenderBuildCall {
    open spec fn made(self, before: H, after: H) -> bool {
        call_ensures(H::perform, (before, self.action), (after, self.reply))
    }
}

/// The stages that a build came to, with the action and the reply at each.
pub struct BuildRun {
    pub builds: Seq<SenderBuild>,
    pub actions: Seq<SenderBuildAction>,
    pub replies: Seq<SenderBuildReply>,
}

impl BuildRun {
    /// The calls that carry out the actions, in order, with their replies.
    pub open spec fn calls(self) -> Seq<SenderBuildCall> {
        Seq::new(
            self.actions.len(),
            |i: int| SenderBuildCall { action: self.actions[i], reply: self.replies[i] },
        )
    }

    /// The build was asked for with `request` and ended in `r`.
    pub open spec fn goes_to(
        self,
        request: SenderBuildRequest,
        r: Result<SenderBundle, BundleError>,
    ) -> bool {
        is_build_run(request, self.builds, self.actions, self.replies, r)
    }
}

/// Builds a sender's pipeline: has the host carry out one action after the other, until the
/// pipeline stands or a stage fails.
pub fn build_production_sender_bundle<H: SenderBuildHost>(host: H, request: SenderBuildRequest) -> (r: (
    H,
    Result<SenderBundle, BundleError>,
))
    ensures
        exists|run: BuildRun|
            run.goes_to(request, r.1) && trace::leads(host, #[trigger] run.calls(), r.0),
{
    let mut at = host;
    let mut build = SenderBuild::new(request);
    let ghost mut run = BuildRun {
        builds: Seq::empty(),
        actions: Seq::empty(),
        replies: Seq::empty(),
    };
    assert(run.calls() =~= Seq::empty());
    loop
        invariant
            run.actions.len() == run.builds.len(),
            run.replies.len() == run.builds.len(),
            run.builds.len() == 0 ==> is_first(build, request),
            run.builds.len() > 0 ==> is_first(run.builds[0], request),
            run.builds.len() > 0 ==> is_progress(
                run.builds.last(),
                run.replies.last(),
                BuildProgress::Next(build),
            ),
            forall|i: int|
                0 <= i < run.builds.len() ==> is_action(#[trigger] run.builds[i], run.actions[i]),
            forall|i: int|
                0 <= i < run.builds.len() - 1 ==> is_progress(
                    #[trigger] run.builds[i],
                    run.replies[i],
                    BuildProgress::Next(run.builds[i + 1]),
                ),
            trace::leads(host, run.calls(), at),
        decreases 15 - build.stage.ordinal(),
    {
        let action = build.action();
        let ghost before = at;
        let ghost asked = action;
        let ghost stage = build;
        let (next, reply) = at.perform(action);
        at = next;
        proof {
            let call = SenderBuildCall { action: asked, reply };
            let more = BuildRun {
                builds: run.builds.push(stage),
                actions: run.actions.push(asked),
                replies: run.replies.push(reply),
            };
            trace::lemma_called(host, run.calls(), before, call, at);
            assert(more.calls() =~= run.calls().push(call));
            run = more;
        }
        match build.advance(reply) {
            BuildProgress::Next(next) => {
                build = next;
            },
            BuildProgress::Built(bundle) => {
                assert(run.goes_to(request, Ok(bundle)));
                return (at, Ok(bundle));
            },
            BuildProgress::Failed(e) => {
                assert(run.goes_to(request, Err(e)));
                return (at, Err(e));
            },
        }
    }
}

/// The stages of a build come in their fixed order, each once, and every one of them works on the
/// same request.
pub proof fn law_stages_in_order(
    request: SenderBuildRequest,
    builds: Seq<SenderBuild>,
    actions: Seq<SenderBuildAction>,
    replies: Seq<SenderBuildReply>,
    r: Result<SenderBundle, BundleError>,
    i: int,
)
    requires
        is_build_run(request, builds, actions, replies, r),
        0 <= i < builds.len(),
    ensures
        builds[i].stage.ordinal() == i,
        builds[i].request == request,
    decreases i,
{
    if i > 0 {
        law_stages_in_order(request, builds, actions, replies, r, i - 1);
        assert(is_progress(builds[i - 1], replies[i - 1], BuildProgress::Next(builds[i])));
    }
}

/// A pipeline that stands has been through all stages. Its offer is the one that the transport
/// made before it started, it was published with the attempt of the request before any candidate
/// was, and the bundle names the backend that the encoder gave when it was shared. Both drains
/// honour the stop flag of the request and show what happens in its channel.
pub proof fn law_pipeline_that_stands(
    request: SenderBuildRequest,
    builds: Seq<SenderBuild>,
    actions: Seq<SenderBuildAction>,
    replies: Seq<SenderBuildReply>,
    bundle: SenderBundle,
)
    requires
        is_build_run(request, builds, actions, replies, Ok(bundle)),
    ensures
        builds.len() == 15,
        actions[0] matches SenderBuildAction::NewSignaling(config) && {
            &&& config.role == Role::Sender
            &&& config.service_name == request.service_name
            &&& config.control_port == 7889
            &&& config.peer_hint is None
        },
        actions[3] == (SenderBuildAction::NewTransport {
            udp_port: request.udp_port,
            role: Role::Sender,
        }),
        replies[8] matches SenderBuildReply::Offer(offer) && actions[10] == (
        SenderBuildAction::PublishOffer { offer, attempt: request.attempt }),
        actions[9] == SenderBuildAction::StartTransport,
        replies[7] matches SenderBuildReply::Backend(name) && bundle.backend_name == name,
        replies[11] matches SenderBuildReply::Candidate(Some(addr)) && actions[12]
            == SenderBuildAction::PublishCandidate(addr),
        actions[13] == (SenderBuildAction::SpawnSignalingDrain {
            stop_flag: request.stop_flag,
            channel: request.channel,
        }),
        actions[14] matches SenderBuildAction::SpawnTransportDrain(config)
            && config.arm_media_watchdog == request.arm_media_watchdog && config.stop_flag
            == request.stop_flag && config.channel == request.channel,
        bundle.drain_handles@.len() == 2,
        bundle.shutdown is Some,
        bundle.suppress_bye_on_rebuild is Some,
        bundle.stop_signaling_on_rebuild is Some,
        bundle.disarm_escalation_on_rebuild is Some,
{
    let n = builds.len() as int;
    law_stages_in_order(request, builds, actions, replies, Ok(bundle), n - 1);
    assert(builds.last().stage.ordinal() == 14);
    assert forall|i: int| 0 <= i < n implies builds[i].stage.ordinal() == i && builds[i].request
        == request by {
        law_stages_in_order(request, builds, actions, replies, Ok(bundle), i);
    }
    assert forall|i: int| 0 <= i < n - 1 implies is_progress(
        #[trigger] builds[i],
        replies[i],
        BuildProgress::Next(builds[i + 1]),
    ) by {}
    assert(is_progress(builds[7], replies[7], BuildProgress::Next(builds[8])));
    assert(is_progress(builds[8], replies[8], BuildProgress::Next(builds[9])));
    assert(is_progress(builds[9], replies[9], BuildProgress::Next(builds[10])));
    assert(is_progress(builds[10], replies[10], BuildProgress::Next(builds[11])));
    assert(is_progress(builds[11], replies[11], BuildProgress::Next(builds[12])));
    assert(is_progress(builds[12], replies[12], BuildProgress::Next(builds[13])));
    assert(is_progress(builds[13], replies[13], BuildProgress::Next(builds[14])));
    assert(is_action(builds[9], actions[9]));
    assert(is_action(builds[10], actions[10]));
    assert(is_action(builds[12], actions[12]));
    assert(is_action(builds[13], actions[13]));
    assert(is_action(builds[14], actions[14]));
}

/// A failure is final: the stage that failed is the last one tried. A build whose host has no
/// address fails as such, and one that fails so has got as far as asking for one.
pub proof fn law_failure_is_final(
    request: SenderBuildRequest,
    builds: Seq<SenderBuild>,
    actions: Seq<SenderBuildAction>,
    replies: Seq<SenderBuildReply>,
    e: BundleError,
    i: int,
)
    requires
        is_build_run(request, builds, actions, replies, Err(e)),
        0 <= i < builds.len(),
    ensures
        replies[i] is Failed && builds[i].stage != BuildStage::PublishCandidate ==> i
            == builds.len() - 1,
        replies[i] == SenderBuildReply::Candidate(None) && builds[i].stage
            == BuildStage::ResolveCandidate ==> i == builds.len() - 1 && e
            == BundleError::NoLocalNic,
        e == BundleError::NoLocalNic ==> builds.last().stage == BuildStage::ResolveCandidate
            && replies.last() == SenderBuildReply::Candidate(None),
{
    if i < builds.len() - 1 {
        assert(is_progress(builds[i], replies[i], BuildProgress::Next(builds[i + 1])));
    }
}

/// What each adapter of a sender's pipeline is asked for, whatever comes of the build in the end: the
/// `i`th action of a build is the one of its `i`th stage, with the settings of the request and with
/// what the stages before it brought. Signaling is opened as that of a sender, under the service name
/// of the request and on the sender's control port; the primary monitor is captured without a border;
/// the encoder gets the size that was captured, at sixty pictures a second; the transport is that of
/// a sender on the port of the request; the offer that the transport made is published as it is, with
/// the attempt of the request; the address that was found is published as it is; and both drains get
/// the stop flag and the channel of the request, the transport drain also whether its watchdog is
/// armed, and the production limits.
pub proof fn law_what_each_stage_asks_for(
    request: SenderBuildRequest,
    builds: Seq<SenderBuild>,
    actions: Seq<SenderBuildAction>,
    replies: Seq<SenderBuildReply>,
    r: Result<SenderBundle, BundleError>,
    i: int,
)
    requires
        is_build_run(request, builds, actions, replies, r),
        0 <= i < actions.len(),
    ensures
        i < 15,
        i == 0 ==> actions[i] == SenderBuildAction::NewSignaling(
            SignalingConfig {
                service_name: request.service_name,
                control_port: 7889,
                role: Role::Sender,
                peer_hint: None,
            },
        ),
        i == 1 ==> actions[i] == SenderBuildAction::NewCapture(
            CaptureConfig { monitor: MonitorSelector::Primary, border: BorderPolicy::AlwaysOff },
        ),
        i == 2 ==> (replies[1] matches SenderBuildReply::Size(width, height) && actions[i]
            == SenderBuildAction::NewEncoder(EncoderConfig { width, height, framerate: 60 })),
        i == 3 ==> actions[i] == (SenderBuildAction::NewTransport {
            udp_port: request.udp_port,
            role: Role::Sender,
        }),
        i == 4 ==> actions[i] == SenderBuildAction::StartSignaling,
        i == 5 ==> actions[i] == SenderBuildAction::StartCapture,
        i == 6 ==> actions[i] == SenderBuildAction::StartEncoder,
        i == 7 ==> actions[i] == SenderBuildAction::ShareEncoder,
        i == 8 ==> actions[i] == SenderBuildAction::CreateOffer,
        i == 9 ==> actions[i] == SenderBuildAction::StartTransport,
        i == 10 ==> (replies[8] matches SenderBuildReply::Offer(offer) && actions[i] == (
        SenderBuildAction::PublishOffer { offer, attempt: request.attempt })),
        i == 11 ==> actions[i] == SenderBuildAction::ResolveCandidate,
        i == 12 ==> (replies[11] matches SenderBuildReply::Candidate(Some(addr)) && actions[i]
            == SenderBuildAction::PublishCandidate(addr)),
        i == 13 ==> actions[i] == (SenderBuildAction::SpawnSignalingDrain {
            stop_flag: request.stop_flag,
            channel: request.channel,
        }),
        i == 14 ==> actions[i] == SenderBuildAction::SpawnTransportDrain(
            TransportDrainConfig {
                stop_flag: request.stop_flag,
                channel: request.channel,
                ack_timeout_ns: 2_000_000_000,
                rebuild_timeout_ns: 15_000_000_000,
                watchdog_timeout_ns: 6_000_000_000,
                watchdog_max_fires: 10,
                arm_media_watchdog: request.arm_media_watchdog,
            },
        ),
{
    lemma_what_a_build_has(request, builds, actions, replies, r, i);
    assert(is_action(builds[i], actions[i]));
}

/// What a build at its `i`th stage has from the stages before.
proof fn lemma_what_a_build_has(
    request: SenderBuildRequest,
    builds: Seq<SenderBuild>,
    actions: Seq<SenderBuildAction>,
    replies: Seq<SenderBuildReply>,
    r: Result<SenderBundle, BundleError>,
    i: int,
)
    requires
        is_build_run(request, builds, actions, replies, r),
        0 <= i < builds.len(),
    ensures
        builds[i].stage.ordinal() == i,
        builds[i].request == request,
        i > 1 ==> replies[1] == SenderBuildReply::Size(builds[i].size.0, builds[i].size.1),
        i > 7 ==> replies[7] == SenderBuildReply::Backend(builds[i].backend_name),
        i > 8 ==> replies[8] == SenderBuildReply::Offer(SdpOffer(builds[i].offer)),
        i > 11 ==> replies[11] == SenderBuildReply::Candidate(Some(builds[i].candidate)),
        i > 13 ==> replies[13] == SenderBuildReply::Thread(builds[i].signaling_drain),
    decreases i,
{
    if i > 0 {
        lemma_what_a_build_has(request, builds, actions, replies, r, i - 1);
        assert(is_progress(builds[i - 1], replies[i - 1], BuildProgress::Next(builds[i])));
    }
}

/// A pipeline that stands is made of what its stages brought: the thread of the signaling drain and
/// then that of the transport drain, the name under which the encoder was shared, and each callback
/// in the place of its own.
pub proof fn law_bundle_is_what_the_stages_brought(
    request: SenderBuildRequest,
    builds: Seq<SenderBuild>,
    actions: Seq<SenderBuildAction>,
    replies: Seq<SenderBuildReply>,
    bundle: SenderBundle,
)
    requires
        is_build_run(request, builds, actions, replies, Ok(bundle)),
    ensures
        replies.len() == 15,
        replies[7] == SenderBuildReply::Backend(bundle.backend_name),
        replies[13] matches SenderBuildReply::Thread(signaling_drain)
            && replies[14] matches SenderBuildReply::Pipeline(callbacks) && {
            &&& bundle.drain_handles@ == seq![signaling_drain, callbacks.transport_drain]
            &&& bundle.shutdown == Some(callbacks.shutdown)
            &&& bundle.suppress_bye_on_rebuild == Some(callbacks.suppress_bye)
            &&& bundle.stop_signaling_on_rebuild == Some(callbacks.stop_signaling)
            &&& bundle.disarm_escalation_on_rebuild == Some(callbacks.disarm_escalation)
        },
{
    lemma_what_a_build_has(request, builds, actions, replies, Ok(bundle), builds.len() - 1);
}

/// Which reply ends a build, and as what. A stage that fails ends it with the text of the failure,
/// for a drain that could not be started with what it was for in front of it; a host without an
/// address ends it as such. A candidate that could not be published ends nothing. A build ends in
/// nothing else, unless an adapter answers something that it was not asked.
pub proof fn law_how_a_build_fails(
    request: SenderBuildRequest,
    builds: Seq<SenderBuild>,
    actions: Seq<SenderBuildAction>,
    replies: Seq<SenderBuildReply>,
    e: BundleError,
)
    requires
        is_build_run(request, builds, actions, replies, Err(e)),
    ensures
        ({
            let n = replies.len() - 1;
            match replies[n] {
                SenderBuildReply::Failed(text) => n != 12 && (e matches BundleError::Other(s) && s@
                    == (if n == 13 {
                    "spawn sig drain: "@ + text@
                } else if n == 14 {
                    "spawn transport drain: "@ + text@
                } else {
                    text@
                })),
                SenderBuildReply::Candidate(None) if n == 11 => e == BundleError::NoLocalNic,
                _ => e matches BundleError::Other(s) && s@
                    == "pipeline adapter answered out of turn"@,
            }
        }),
{
    lemma_what_a_build_has(request, builds, actions, replies, Err(e), builds.len() - 1);
}

/// A build goes on from a stage exactly when its reply is the one that the stage asks for, or when it
/// was only the candidate that could not be published.
pub proof fn law_when_a_build_goes_on(
    request: SenderBuildRequest,
    builds: Seq<SenderBuild>,
    actions: Seq<SenderBuildAction>,
    replies: Seq<SenderBuildReply>,
    r: Result<SenderBundle, BundleError>,
    i: int,
)
    requires
        is_build_run(request, builds, actions, replies, r),
        0 <= i < builds.len(),
    ensures
        (i < builds.len() - 1 || r is Ok) <==> (match replies[i] {
            SenderBuildReply::Done => i != 1 && i != 7 && i != 8 && i != 11 && i != 13 && i != 14,
            SenderBuildReply::Size(_, _) => i == 1,
            SenderBuildReply::Backend(_) => i == 7,
            SenderBuildReply::Offer(_) => i == 8,
            SenderBuildReply::Candidate(candidate) => i == 11 && candidate is Some,
            SenderBuildReply::Thread(_) => i == 13,
            SenderBuildReply::Pipeline(_) => i == 14,
            SenderBuildReply::Failed(_) => i == 12,
        }),
{
    lemma_what_a_build_has(request, builds, actions, replies, r, i);
    if i < builds.len() - 1 {
        assert(is_progress(builds[i], replies[i], BuildProgress::Next(builds[i + 1])));
    }
}

/// The calls of a build are its actions with their replies, one for one and in order.
pub proof fn law_calls_of_a_build(run: BuildRun, i: int)
    requires
        0 <= i < run.actions.len(),
    ensures
        run.calls().len() == run.actions.len(),
        run.calls()[i].action == run.actions[i],
        run.calls()[i].reply == run.replies[i],
{
}

/// Each call of a build hands the host its action and takes the reply back.
pub proof fn law_calls_reach_the_host<H: SenderBuildHost>(
    call: SenderBuildCall,
    before: H,
    after: H,
)
    requires
        HostCall::<H>::made(call, before, after),
    ensures
        call_ensures(H::perform, (before, call.action), (after, call.reply)),
{
}

/// What the settings of the pipeline's parts are. The sender's encoder takes the size it is given at
/// sixty pictures a second; one that is told nothing takes thirty and finds the size itself. The
/// primary monitor is captured, without a border. A channel of the pipeline has room for four.
pub proof fn law_settings_of_the_parts(
    width: u32,
    height: u32,
    encoder: EncoderConfig,
    capture: CaptureConfig,
)
    requires
        call_ensures(sender_encoder_config, (width, height), encoder),
        call_ensures(sender_capture_config, (), capture),
    ensures
        encoder.width == width,
        encoder.height == height,
        encoder.framerate == 60,
        capture.monitor == MonitorSelector::Primary,
        capture.border == BorderPolicy::AlwaysOff,
        DEFAULT_ENCODER_FRAMERATE == 30,
        CHANNEL_CAP == 4,
{
}

/// An address that was found is passed on as it is; without one the build fails as such.
pub proof fn law_address_or_none<A>(candidate: Option<A>, r: Result<A, BundleError>)
    requires
        call_ensures(decide_candidate_or_nic_error::<A>, (candidate,), r),
    ensures
        candidate matches Some(addr) ==> r == Ok::<A, BundleError>(addr),
        candidate is None ==> r == Err::<A, BundleError>(BundleError::NoLocalNic),
{
}

/// What a build asks for at each stage, seen on the function itself: it is a sender's pipeline on the
/// port and under the name of its request, with the size, the offer and the address that the build has
/// got so far.
pub proof fn law_action_of_a_stage(build: &SenderBuild, action: SenderBuildAction)
    requires
        call_ensures(SenderBuild::action, (build,), action),
    ensures
        build.stage is NewSignaling ==> (action matches SenderBuildAction::NewSignaling(config) && {
            &&& config.role == Role::Sender
            &&& config.service_name == build.request.service_name
            &&& config.control_port == 7889
            &&& config.peer_hint is None
        }),
        build.stage is NewEncoder ==> action == SenderBuildAction::NewEncoder(
            EncoderConfig { width: build.size.0, height: build.size.1, framerate: 60 },
        ),
        build.stage is NewTransport ==> action == (SenderBuildAction::NewTransport {
            udp_port: build.request.udp_port,
            role: Role::Sender,
        }),
        build.stage is PublishOffer ==> action == (SenderBuildAction::PublishOffer {
            offer: SdpOffer(build.offer),
            attempt: build.request.attempt,
        }),
        build.stage is PublishCandidate ==> action == SenderBuildAction::PublishCandidate(
            build.candidate,
        ),
        build.stage is SpawnTransportDrain ==> (action
            matches SenderBuildAction::SpawnTransportDrain(config) && {
            &&& config.stop_flag == build.request.stop_flag
            &&& config.channel == build.request.channel
            &&& config.arm_media_watchdog == build.request.arm_media_watchdog
            &&& config.ack_timeout_ns == 2_000_000_000
            &&& config.rebuild_timeout_ns == 15_000_000_000
            &&& config.watchdog_timeout_ns == 6_000_000_000
            &&& config.watchdog_max_fires == 10
        }),
{
}

} // verus!
