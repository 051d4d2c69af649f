//! Errors of the command layer and the text each of them shows.
use crate::text;
use crate::text::{debug_str, push_decimal};
use vstd::prelude::*;

verus! {

/// Why a `udp_port` was rejected.
#[derive(Debug, Clone, Copy, PartialEq, Eq, Structural)]
pub enum PortRejectReason {
    /// Port 0 would leave the ICE candidate without a usable port.
    Zero,
    /// `1..=1023`, the privileged range.
    Privileged,
}

/// A failure reported by the media transport.
#[derive(Debug)]
pub enum TransportError {
    AddrInUse { port: u16 },
    AlreadyRunning,
    NotRunning,
    InvalidConfig(String),
    Io(String),
    SignalingFailed(String),
    Internal(String),
}

/// A failure reported by the signaling adapter, by the text it shows.
#[derive(Debug)]
pub struct SignalingError {
    pub text: String,
}

/// A failure while a receiver or sender pipeline is built.
#[derive(Debug)]
pub enum BundleError {
    /// The UDP port is taken: the one failure that a different port can cure.
    PortInUse(u16),
    /// No network interface but the loopback came up while the pipeline waited for one.
    NoLocalNic,
    /// Every other failure.
    Other(String),
}

/// Failure of `start_stream`.
#[derive(Debug)]
#[allow(inconsistent_fields)]
pub enum StartStreamError {
    /// A session is active; carries the arguments of that session.
    AlreadyRunning { current_port: u16, current_service_name: String },
    InvalidPort { value: u16, reason: PortRejectReason },
    InvalidServiceName { value: String, reason: String },
    PortInUse { port: u16 },
    BundleBuildFailed(String),
}

/// Failure of `start_sender`.
#[derive(Debug)]
#[allow(inconsistent_fields)]
pub enum StartSenderError {
    /// A session is active; carries the arguments of that session.
    AlreadyRunning { udp_port: u16, service_name: String },
    InvalidPort { value: u16, reason: PortRejectReason },
    InvalidServiceName { value: String, reason: String },
    PortInUse { port: u16 },
    BundleBuildFailed(String),
}

impl PortRejectReason {
    /// The name of the variant.
    pub open spec fn text(self) -> Seq<char> {
        match self {
            PortRejectReason::Zero => "Zero"@,
            PortRejectReason::Privileged => "Privileged"@,
        }
    }

    /// The name of the variant.
    pub fn as_str(self) -> (s: &'static str)
        ensures
            s@ == self.text(),
    {
        match self {
            PortRejectReason::Zero => "Zero",
            PortRejectReason::Privileged => "Privileged",
        }
    }
}

impl TransportError {
    /// The text of every failure but an address in use, which is never shown by this layer.
    pub open spec fn text(self) -> Seq<char> {
        match self {
            TransportError::AddrInUse { .. } => Seq::empty(),
            TransportError::AlreadyRunning => "transport already running"@,
            TransportError::NotRunning => "transport not running"@,
            TransportError::InvalidConfig(s) => "invalid transport config: "@ + s@,
            TransportError::Io(s) => "transport I/O error: "@ + s@,
            TransportError::SignalingFailed(s) => "signaling failed: "@ + s@,
            TransportError::Internal(s) => "internal transport error: "@ + s@,
        }
    }

    /// What the pipeline builder reports for this failure.
    pub open spec fn reported_as(self, b: BundleError) -> bool {
        match self {
            TransportError::AddrInUse { port } => b == BundleError::PortInUse(port),
            _ => b matches BundleError::Other(s) && s@ == self.text(),
        }
    }
}

impl BundleError {
    /// The text shown for the failure.
    pub open spec fn text(self) -> Seq<char> {
        match self {
            BundleError::PortInUse(port) => "UDP port "@ + text::decimal(port as nat)
                + " already in use"@,
            BundleError::NoLocalNic => "no local network interface available"@,
            BundleError::Other(s) => "bundle build failed: "@ + s@,
        }
    }

    /// The text shown for the failure.
    pub fn message(&self) -> (r: String)
        ensures
            r@ == self.text(),
    {
        match self {
            BundleError::PortInUse(port) => {
                let mut r = "UDP port ".to_string();
                push_decimal(&mut r, *port as u64);
                r.append(" already in use");
                r
            },
            BundleError::NoLocalNic => "no local network interface available".to_string(),
            BundleError::Other(s) => {
                let mut r = "bundle build failed: ".to_string();
                r.append(s.as_str());
                r
            },
        }
    }
}

impl StartStreamError {
    /// The text shown for the failure.
    pub open spec fn text(self) -> Seq<char> {
        match self {
            StartStreamError::AlreadyRunning { current_port, current_service_name } =>
                "a stream session is already running on port "@ + text::decimal(current_port as nat)
                + " ("@ + current_service_name@ + ")"@,
            StartStreamError::InvalidPort { value, reason } => invalid_port_text(value, reason),
            StartStreamError::InvalidServiceName { value, reason } => invalid_name_text(
                value@,
                reason@,
            ),
            StartStreamError::PortInUse { port } => port_in_use_text(port),
            StartStreamError::BundleBuildFailed(s) => "bundle build failed: "@ + s@,
        }
    }

    /// The text shown for the failure.
    pub fn message(&self) -> (r: String)
        ensures
            r@ == self.text(),
    {
        match self {
            StartStreamError::AlreadyRunning { current_port, current_service_name } => {
                let mut r = "a stream session is already running on port ".to_string();
                push_decimal(&mut r, *current_port as u64);
                r.append(" (");
                r.append(current_service_name.as_str());
                r.append(")");
                r
            },
            StartStreamError::InvalidPort { value, reason } => invalid_port_message(
                *value,
                *reason,
            ),
            StartStreamError::InvalidServiceName { value, reason } => invalid_name_message(
                value.as_str(),
                reason.as_str(),
            ),
            StartStreamError::PortInUse { port } => port_in_use_message(*port),
            StartStreamError::BundleBuildFailed(s) => {
                let mut r = "bundle build failed: ".to_string();
                r.append(s.as_str());
                r
            },
        }
    }
}

impl StartSenderError {
    /// The text shown for the failure.
    pub open spec fn text(self) -> Seq<char> {
        match self {
            StartSenderError::AlreadyRunning { udp_port, service_name } =>
                "sender already running on port "@ + text::decimal(udp_port as nat) + " ("@
                + service_name@ + ")"@,
            StartSenderError::InvalidPort { value, reason } => invalid_port_text(value, reason),
            StartSenderError::InvalidServiceName { value, reason } => invalid_name_text(
                value@,
                reason@,
            ),
            StartSenderError::PortInUse { port } => port_in_use_text(port),
            StartSenderError::BundleBuildFailed(s) => "bundle build failed: "@ + s@,
        }
    }

    /// The text shown for the failure.
    pub fn message(&self) -> (r: String)
        ensures
            r@ == self.text(),
    {
        match self {
            StartSenderError::AlreadyRunning { udp_port, service_name } => {
                let mut r = "sender already running on port ".to_string();
                push_decimal(&mut r, *udp_port as u64);
                r.append(" (");
                r.append(service_name.as_str());
                r.append(")");
                r
            },
            StartSenderError::InvalidPort { value, reason } => invalid_port_message(
                *value,
                *reason,
            ),
            StartSenderError::InvalidServiceName { value, reason } => invalid_name_message(
                value.as_str(),
                reason.as_str(),
            ),
            StartSenderError::PortInUse { port } => port_in_use_message(*port),
            StartSenderError::BundleBuildFailed(s) => {
                let mut r = "bundle build failed: ".to_string();
                r.append(s.as_str());
                r
            },
        }
    }
}

/// The text for a rejected port.
pub open spec fn invalid_port_text(value: u16, reason: PortRejectReason) -> Seq<char> {
    "invalid udp_port "@ + text::decimal(value as nat) + ": "@ + reason.text()
}

/// The text for a rejected service name: the name in its quoted form, then the reason.
pub open spec fn invalid_name_text(value: Seq<char>, reason: Seq<char>) -> Seq<char> {
    "invalid service_name "@ + text::debug_text(value) + ": "@ + reason
}

/// The text for a port that another socket holds.
pub open spec fn port_in_use_text(port: u16) -> Seq<char> {
    "UDP port "@ + text::decimal(port as nat) + " is already in use"@
}

fn invalid_port_message(value: u16, reason: PortRejectReason) -> (r: String)
    ensures
        r@ == invalid_port_text(value, reason),
{
    let mut r = "invalid udp_port ".to_string();
    push_decimal(&mut r, value as u64);
    r.append(": ");
    r.append(reason.as_str());
    r
}

fn invalid_name_message(value: &str, reason: &str) -> (r: String)
    ensures
        r@ == invalid_name_text(value@, reason@),
{
    let mut r = "invalid service_name ".to_string();
    let quoted = debug_str(value);
    r.append(quoted.as_str());
    r.append(": ");
    r.append(reason);
    r
}

fn port_in_use_message(port: u16) -> (r: String)
    ensures
        r@ == port_in_use_text(port),
{
    let mut r = "UDP port ".to_string();
    push_decimal(&mut r, port as u64);
    r.append(" is already in use");
    r
}

/// `std::io::Error`, carried through without looking inside.
#[verifier::external_type_specification]
#[verifier::external_body]
pub struct ExIoError(std::io::Error);

/// Calls `to_string` on a `std::io::Error`. The text is the operating system's own and may differ
/// between machines and languages, so nothing is claimed of it.
#[verifier::external_body]
fn io_error_text(e: &std::io::Error) -> (r: String) {
    e.to_string()
}

/// `s` is a text that `to_string` can give for `e`.
pub closed spec fn is_io_text(e: std::io::Error, s: String) -> bool {
    call_ensures(io_error_text, (&e,), s)
}

/// `b` reports the I/O failure `e`, by the text that the system has for it.
pub open spec fn reports_io(b: BundleError, e: std::io::Error) -> bool {
    exists|s: String| #[trigger] is_io_text(e, s) && b == BundleError::Other(s)
}

impl From<std::io::Error> for BundleError {
    /// An I/O failure is never a `PortInUse`, not even where the system says "address in use":
    /// only the bind probe and the transport tell that case apart.
    fn from(e: std::io::Error) -> (r: Self)
        ensures
            reports_io(r, e),
    {
        let text = io_error_text(&e);
        assert(is_io_text(e, text));
        BundleError::Other(text)
    }
}

impl vstd::std_specs::convert::FromSpecImpl<std::io::Error> for BundleError {
    /// The text comes from the operating system: no function of the error gives it.
    open spec fn obeys_from_spec() -> bool {
        false
    }

    open spec fn from_spec(e: std::io::Error) -> Self {
        arbitrary()
    }
}

impl From<SignalingError> for BundleError {
    fn from(e: SignalingError) -> (r: Self)
        ensures
            r == BundleError::Other(e.text),
    {
        BundleError::Other(e.text)
    }
}

impl vstd::std_specs::convert::FromSpecImpl<SignalingError> for BundleError {
    open spec fn obeys_from_spec() -> bool {
        true
    }

    open spec fn from_spec(e: SignalingError) -> Self {
        BundleError::Other(e.text)
    }
}

impl From<TransportError> for BundleError {
    fn from(e: TransportError) -> (r: Self)
        ensures
            e.reported_as(r),
    {
        match e {
            TransportError::AddrInUse { port } => BundleError::PortInUse(port),
            TransportError::AlreadyRunning => BundleError::Other(
                "transport already running".to_string(),
            ),
            TransportError::NotRunning => BundleError::Other("transport not running".to_string()),
            TransportError::InvalidConfig(s) => {
                let mut r = "invalid transport config: ".to_string();
                r.append(s.as_str());
                BundleError::Other(r)
            },
            TransportError::Io(s) => {
                let mut r = "transport I/O error: ".to_string();
                r.append(s.as_str());
                BundleError::Other(r)
            },
            TransportError::SignalingFailed(s) => {
                let mut r = "signaling failed: ".to_string();
                r.append(s.as_str());
                BundleError::Other(r)
            },
            TransportError::Internal(s) => {
                let mut r = "internal transport error: ".to_string();
                r.append(s.as_str());
                BundleError::Other(r)
            },
        }
    }
}

impl vstd::std_specs::convert::FromSpecImpl<TransportError> for BundleError {
    /// The contract of `from` fixes the text, which a specification cannot build as a `String`.
    open spec fn obeys_from_spec() -> bool {
        false
    }

    open spec fn from_spec(e: TransportError) -> Self {
        arbitrary()
    }
}

/// What a transport failure is reported as: an address in use by its port, and anything else by its
/// kind and its text.
pub proof fn law_transport_failures(e: TransportError, b: BundleError)
    requires
        e.reported_as(b),
    ensures
        e matches TransportError::AddrInUse { port } ==> b == BundleError::PortInUse(port),
        e !is AddrInUse ==> b is Other,
        e is AlreadyRunning ==> b->Other_0@ == "transport already running"@,
        e is NotRunning ==> b->Other_0@ == "transport not running"@,
        e matches TransportError::InvalidConfig(s) ==> b->Other_0@ == "invalid transport config: "@
            + s@,
        e matches TransportError::Io(s) ==> b->Other_0@ == "transport I/O error: "@ + s@,
        e matches TransportError::SignalingFailed(s) ==> b->Other_0@ == "signaling failed: "@ + s@,
        e matches TransportError::Internal(s) ==> b->Other_0@ == "internal transport error: "@ + s@,
{
}

/// What is said of a pipeline that could not be built.
pub proof fn law_text_of_a_failed_build(e: BundleError)
    ensures
        e matches BundleError::PortInUse(port) ==> e.text() == "UDP port "@ + text::decimal(
            port as nat,
        ) + " already in use"@,
        e is NoLocalNic ==> e.text() == "no local network interface available"@,
        e matches BundleError::Other(s) ==> e.text() == "bundle build failed: "@ + s@,
        PortRejectReason::Zero.text() == "Zero"@,
        PortRejectReason::Privileged.text() == "Privileged"@,
{
}

/// What is said of a receiver that could not be started.
pub proof fn law_text_of_a_failed_stream(e: StartStreamError)
    ensures
        e matches StartStreamError::AlreadyRunning { current_port, current_service_name }
            ==> e.text() == "a stream session is already running on port "@ + text::decimal(
            current_port as nat,
        ) + " ("@ + current_service_name@ + ")"@,
        e matches StartStreamError::InvalidPort { value, reason } ==> e.text()
            == "invalid udp_port "@ + text::decimal(value as nat) + ": "@ + (match reason {
            PortRejectReason::Zero => "Zero"@,
            PortRejectReason::Privileged => "Privileged"@,
        }),
        e matches StartStreamError::InvalidServiceName { value, reason } ==> e.text()
            == "invalid service_name "@ + text::debug_text(value@) + ": "@ + reason@,
        e matches StartStreamError::PortInUse { port } ==> e.text() == "UDP port "@ + text::decimal(
            port as nat,
        ) + " is already in use"@,
        e matches StartStreamError::BundleBuildFailed(s) ==> e.text() == "bundle build failed: "@
            + s@,
{
}

/// What is said of a sender that could not be started.
pub proof fn law_text_of_a_failed_sender(e: StartSenderError)
    ensures
        e matches StartSenderError::AlreadyRunning { udp_port, service_name } ==> e.text()
            == "sender already running on port "@ + text::decimal(udp_port as nat) + " ("@
            + service_name@ + ")"@,
        e matches StartSenderError::InvalidPort { value, reason } ==> e.text()
            == "invalid udp_port "@ + text::decimal(value as nat) + ": "@ + (match reason {
            PortRejectReason::Zero => "Zero"@,
            PortRejectReason::Privileged => "Privileged"@,
        }),
        e matches StartSenderError::InvalidServiceName { value, reason } ==> e.text()
            == "invalid service_name "@ + text::debug_text(value@) + ": "@ + reason@,
        e matches StartSenderError::PortInUse { port } ==> e.text() == "UDP port "@ + text::decimal(
            port as nat,
        ) + " is already in use"@,
        e matches StartSenderError::BundleBuildFailed(s) ==> e.text() == "bundle build failed: "@
            + s@,
{
}

/// An I/O failure is reported by a text that the system has for it, and never as a port in use.
proof fn law_io_failures(b: BundleError, e: std::io::Error)
    requires
        reports_io(b, e),
    ensures
        b matches BundleError::Other(s) && call_ensures(io_error_text, (&e,), s),
{
}

} // verus!
