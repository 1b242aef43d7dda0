//! The connection that a kernel is told to open: its channels' ports and the
//! key that signs its messages.
//!
//! A connection is made for one launch and never used for another: each has
//! ports and a key of its own.

use crate::ports::{
    peek_ports,
    NegotiationView,
    PortError,
    PortNegotiation,
    PortsStep,
    PortsStepView,
};
use vstd::prelude::*;
use vstd::string::*;

verus! {

/// How the channels are carried.
#[derive(Clone, Copy, Debug, PartialEq, Eq, Structural)]
pub enum Transport {
    Tcp,
    Ipc,
}

impl Transport {
    /// The word a connection file uses for this transport.
    pub open spec fn word(self) -> Seq<char> {
        match self {
            Transport::Tcp => "tcp"@,
            Transport::Ipc => "ipc"@,
        }
    }

    /// The word a connection file uses for this transport.
    pub fn name(&self) -> (name: String)
        ensures
            name@ == self.word(),
    {
        match self {
            Transport::Tcp => String::from_str("tcp"),
            Transport::Ipc => String::from_str("ipc"),
        }
    }
}

/// What a kernel needs to open its channels.
#[derive(Clone, Debug, PartialEq, Eq)]
pub struct ConnectionInfo {
    pub transport: Transport,
    pub ip: String,
    pub stdin_port: u16,
    pub control_port: u16,
    pub hb_port: u16,
    pub shell_port: u16,
    pub iopub_port: u16,
    pub signature_scheme: String,
    pub key: String,
    pub kernel_name: Option<String>,
}

/// A connection as a mathematical value.
pub struct ConnectionInfoView {
    pub transport: Transport,
    pub ip: Seq<char>,
    pub stdin_port: u16,
    pub control_port: u16,
    pub hb_port: u16,
    pub shell_port: u16,
    pub iopub_port: u16,
    pub signature_scheme: Seq<char>,
    pub key: Seq<char>,
    pub kernel_name: Option<Seq<char>>,
}

impl View for ConnectionInfo {
    type V = ConnectionInfoView;

    open spec fn view(&self) -> ConnectionInfoView {
        ConnectionInfoView {
            transport: self.transport,
            ip: self.ip@,
            stdin_port: self.stdin_port,
            control_port: self.control_port,
            hb_port: self.hb_port,
            shell_port: self.shell_port,
            iopub_port: self.iopub_port,
            signature_scheme: self.signature_scheme@,
            key: self.key@,
            kernel_name: self.kernel_name.deep_view(),
        }
    }
}

/// The number of channels, each with a port of its own.
pub const CHANNELS: usize = 5;

/// The scheme by which messages are signed.
pub open spec fn signature_scheme() -> Seq<char> {
    "hmac-sha256"@
}

/// The connection over TCP that takes its ports from `ports` by position:
/// stdin, control, heartbeat, shell, iopub.
pub open spec fn connection_over(
    ip: Seq<char>,
    ports: Seq<u16>,
    key: Seq<char>,
    kernel_name: Seq<char>,
) -> ConnectionInfoView {
    ConnectionInfoView {
        transport: Transport::Tcp,
        ip,
        stdin_port: ports[0],
        control_port: ports[1],
        hb_port: ports[2],
        shell_port: ports[3],
        iopub_port: ports[4],
        signature_scheme: signature_scheme(),
        key,
        kernel_name: Some(kernel_name),
    }
}

/// A digit of lower-case hexadecimal.
pub open spec fn is_lower_hex(c: char) -> bool {
    ('0' <= c && c <= '9') || ('a' <= c && c <= 'f')
}

/// A UUID in its usual print: 36 characters, a hyphen at 8, 13, 18 and 23,
/// and a lower-case hexadecimal digit everywhere else.
pub open spec fn is_hyphenated_uuid(text: Seq<char>) -> bool {
    &&& text.len() == 36
    &&& forall|i: int|
        0 <= i < 36 ==> if i == 8 || i == 13 || i == 18 || i == 23 {
            #[trigger] text[i] == '-'
        } else {
            is_lower_hex(text[i])
        }
}

/// A key as this library makes them: a random UUID, which shows its version
/// in its fifteenth character.
pub open spec fn is_fresh_key(key: Seq<char>) -> bool {
    is_hyphenated_uuid(key) && key[14] == '4'
}

/// `uuid::Uuid::new_v4`, printed by its `Display`. The UUID is random, so
/// nothing is said of it but its print: hyphenated lower-case hexadecimal,
/// with the version digit 4. The call panics where the system has no random
/// bytes to give.
#[verifier::external_body]
fn fresh_key() -> (key: String)
    ensures
        is_fresh_key(key@),
{
    uuid::Uuid::new_v4().to_string()
}

/// The connection over TCP on `ip` that takes its ports from `ports` by
/// position: stdin, control, heartbeat, shell, iopub. There is one for
/// exactly five ports.
pub fn connection_info(ip: String, ports: &Vec<u16>, key: String, kernel_name: String) -> (info:
    Option<ConnectionInfo>)
    ensures
        info is Some <==> ports@.len() == CHANNELS,
        info matches Some(info) ==> info@ == connection_over(ip@, ports@, key@, kernel_name@),
{
    if ports.len() != CHANNELS {
        return None;
    }
    Some(
        ConnectionInfo {
            transport: Transport::Tcp,
            ip,
            stdin_port: ports[0],
            control_port: ports[1],
            hb_port: ports[2],
            shell_port: ports[3],
            iopub_port: ports[4],
            signature_scheme: String::from_str("hmac-sha256"),
            key,
            kernel_name: Some(kernel_name),
        },
    )
}

/// A connection in the making, as a mathematical value.
pub struct ConnectionNegotiationView {
    pub kernel_name: Seq<char>,
    pub ports: NegotiationView,
}

impl ConnectionNegotiationView {
    /// The negotiation is for one port per channel.
    pub open spec fn wf(self) -> bool {
        self.ports.wf() && self.ports.wanted == CHANNELS
    }
}

/// A connection in the making that waits for a listener to be bound.
pub struct ConnectionNegotiation {
    kernel_name: String,
    ports: PortNegotiation,
}

impl View for ConnectionNegotiation {
    type V = ConnectionNegotiationView;

    closed spec fn view(&self) -> ConnectionNegotiationView {
        ConnectionNegotiationView { kernel_name: self.kernel_name@, ports: self.ports@ }
    }
}

/// A step towards a connection: a listener to bind, or the outcome.
pub enum ConnectionStep {
    Bind(ConnectionNegotiation),
    Done(Result<ConnectionInfo, PortError>),
}

impl ConnectionStep {
    /// Whether this step follows the attempt `bound` on `negotiation`. The
    /// ports go on as in a negotiation of ports. Once they are all there the
    /// connection is made, with a fresh key.
    pub open spec fn follows(
        self,
        negotiation: ConnectionNegotiationView,
        bound: Option<u16>,
    ) -> bool {
        match negotiation.ports.resume(bound) {
            PortsStepView::Bind(ports) => self matches ConnectionStep::Bind(next) && next@ == (
            ConnectionNegotiationView { kernel_name: negotiation.kernel_name, ports }),
            PortsStepView::Done(Ok(ports)) => self matches ConnectionStep::Done(Ok(info))
                && is_fresh_key(info.key@) && info@ == connection_over(
                negotiation.ports.ip,
                ports,
                info.key@,
                negotiation.kernel_name,
            ),
            PortsStepView::Done(Err(error)) => self matches ConnectionStep::Done(Err(failure))
                && failure == error,
        }
    }
}

impl ConnectionNegotiation {
    #[verifier::type_invariant]
    spec fn wants_a_port_per_channel(self) -> bool {
        self@.wf()
    }

    /// Begins to make the connection of a kernel called `kernel_name` on the
    /// address `ip`. The first step is a listener to bind.
    pub fn start(ip: String, kernel_name: String) -> (negotiation: Self)
        ensures
            negotiation@ == (ConnectionNegotiationView {
                kernel_name: kernel_name@,
                ports: NegotiationView { ip: ip@, wanted: CHANNELS as nat, ports: Seq::empty() },
            }),
            negotiation@.wf(),
    {
        ConnectionNegotiation { kernel_name, ports: PortNegotiation::begin(ip, CHANNELS) }
    }

    /// The address to bind the listener to, with port 0.
    pub fn ip(&self) -> (ip: &String)
        ensures
            ip@ == self@.ports.ip,
            self@.wf(),
    {
        proof {
            use_type_invariant(self);
        }
        self.ports.ip()
    }

    /// Goes on after the attempt to bind a listener: `bound` is the port that
    /// the system assigned, `None` where it could not bind.
    pub fn resume(self, bound: Option<u16>) -> (step: ConnectionStep)
        ensures
            step.follows(self@, bound),
            self@.wf(),
    {
        proof {
            use_type_invariant(&self);
        }
        let ConnectionNegotiation { kernel_name, ports } = self;
        let ip = ports.ip().clone();
        match ports.resume(bound) {
            PortsStep::Bind(ports) => ConnectionStep::Bind(
                ConnectionNegotiation { kernel_name, ports },
            ),
            PortsStep::Done(Ok(ports)) => {
                let info = connection_info(ip, &ports, fresh_key(), kernel_name);
                ConnectionStep::Done(Ok(info.unwrap()))
            },
            PortsStep::Done(Err(error)) => ConnectionStep::Done(Err(error)),
        }
    }
}

/// The ports of a connection, in the order in which a negotiation hands them
/// out: stdin, control, heartbeat, shell, iopub.
pub open spec fn ports_of(info: ConnectionInfoView) -> Seq<u16> {
    seq![info.stdin_port, info.control_port, info.hb_port, info.shell_port, info.iopub_port]
}

/// Makes the connection of a kernel called `kernel_name` on the address `ip`,
/// with `bind` to bind a listener to port 0 of an address, note the port that
/// the system assigned and release the listener again.
///
/// The connection is over TCP. Its five ports are found one after the other
/// and go to stdin, control, heartbeat, shell and iopub, in this order. Its
/// key is fresh. Once `bind` fails there is no connection.
pub fn from_peeking_ports<B: Fn(String) -> Option<u16>>(
    ip: String,
    kernel_name: String,
    bind: &B,
) -> (outcome: Result<ConnectionInfo, PortError>)
    requires
        forall|address: String| call_requires(*bind, (address,)),
    ensures
        match outcome {
            Ok(info) => {
                &&& info@ == connection_over(ip@, ports_of(info@), info.key@, kernel_name@)
                &&& is_fresh_key(info.key@)
                &&& forall|i: int|
                    0 <= i < CHANNELS ==> call_ensures(
                        *bind,
                        (ip,),
                        Some(#[trigger] ports_of(info@)[i]),
                    )
            },
            Err(_) => call_ensures(*bind, (ip,), None::<u16>),
        },
{
    match peek_ports(ip.clone(), CHANNELS, bind) {
        Ok(ports) => {
            let info = connection_info(ip, &ports, fresh_key(), kernel_name).unwrap();
            Ok(info)
        },
        Err(error) => Err(error),
    }
}

} // verus!
