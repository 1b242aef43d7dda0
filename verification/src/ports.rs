//! Finding free ports for a kernel's channels.
//!
//! A port is found by binding a listener to port 0 of the address, noting
//! the port that the system assigned, and releasing the listener again. The
//! ports are found one after the other.
//!
//! Nothing holds a port between its release and the moment the kernel binds
//! it. Another process may take it in between. The protocol leaves no way
//! round this: a kernel that fails to bind is a reason to negotiate again,
//! not a fault of the negotiation.

use vstd::prelude::*;

verus! {

/// Why a negotiation gave no ports.
#[derive(Clone, Copy, Debug, PartialEq, Eq, Structural)]
pub enum PortError {
    /// A listener could not be bound. The ports found before it are dropped.
    PortAcquisitionFailed,
}

/// A negotiation under way, as a mathematical value.
pub struct NegotiationView {
    pub ip: Seq<char>,
    pub wanted: nat,
    pub ports: Seq<u16>,
}

/// A step of a negotiation, as a mathematical value.
pub enum PortsStepView {
    Bind(NegotiationView),
    Done(Result<Seq<u16>, PortError>),
}

/// The step of a negotiation that holds `ports` and wants `wanted`: one more
/// listener to bind while ports are missing, the end once they are all
/// there.
pub open spec fn ports_step(ip: Seq<char>, wanted: nat, ports: Seq<u16>) -> PortsStepView {
    if ports.len() >= wanted {
        PortsStepView::Done(Ok(ports))
    } else {
        PortsStepView::Bind(NegotiationView { ip, wanted, ports })
    }
}

impl NegotiationView {
    /// A negotiation that waits on a listener still misses a port.
    pub open spec fn wf(self) -> bool {
        self.ports.len() < self.wanted
    }

    /// The step that follows the attempt to bind a listener: `bound` is the
    /// port that the system assigned, `None` where it could not bind.
    pub open spec fn resume(self, bound: Option<u16>) -> PortsStepView {
        match bound {
            Some(port) => ports_step(self.ip, self.wanted, self.ports.push(port)),
            None => PortsStepView::Done(Err(PortError::PortAcquisitionFailed)),
        }
    }
}

impl PortsStepView {
    /// A negotiation under way still misses a port.
    pub open spec fn wf(self) -> bool {
        self matches PortsStepView::Bind(negotiation) ==> negotiation.wf()
    }

    /// The ports that are still missing.
    pub open spec fn missing(self) -> int {
        match self {
            PortsStepView::Bind(negotiation) => negotiation.wanted - negotiation.ports.len(),
            PortsStepView::Done(_) => 0,
        }
    }

    /// The ports that are held.
    pub open spec fn held(self) -> Seq<u16> {
        match self {
            PortsStepView::Bind(negotiation) => negotiation.ports,
            PortsStepView::Done(Ok(ports)) => ports,
            PortsStepView::Done(Err(_)) => Seq::empty(),
        }
    }
}

/// Where a negotiation stands after the attempts `bound`, taken in order.
pub open spec fn drive_ports(step: PortsStepView, bound: Seq<Option<u16>>) -> PortsStepView
    decreases bound.len(),
{
    match step {
        PortsStepView::Bind(negotiation) => if bound.len() == 0 {
            step
        } else {
            drive_ports(negotiation.resume(bound[0]), bound.skip(1))
        },
        PortsStepView::Done(_) => step,
    }
}

/// Whether no port occurs twice.
pub open spec fn pairwise_distinct(ports: Seq<u16>) -> bool {
    forall|i: int, j: int| 0 <= i < j < ports.len() ==> ports[i] != ports[j]
}

/// A negotiation that waits for a listener to be bound.
pub struct PortNegotiation {
    ip: String,
    wanted: usize,
    ports: Vec<u16>,
}

impl View for PortNegotiation {
    type V = NegotiationView;

    closed spec fn view(&self) -> NegotiationView {
        NegotiationView { ip: self.ip@, wanted: self.wanted as nat, ports: self.ports@ }
    }
}

/// A step of a negotiation: a listener to bind, or the outcome.
pub enum PortsStep {
    Bind(PortNegotiation),
    Done(Result<Vec<u16>, PortError>),
}

impl View for PortsStep {
    type V = PortsStepView;

    open spec fn view(&self) -> PortsStepView {
        match self {
            PortsStep::Bind(negotiation) => PortsStepView::Bind(negotiation@),
            PortsStep::Done(Ok(ports)) => PortsStepView::Done(Ok(ports@)),
            PortsStep::Done(Err(error)) => PortsStepView::Done(Err(*error)),
        }
    }
}

fn next_step(ip: String, wanted: usize, ports: Vec<u16>) -> (step: PortsStep)
    ensures
        step@ == ports_step(ip@, wanted as nat, ports@),
{
    if ports.len() >= wanted {
        PortsStep::Done(Ok(ports))
    } else {
        PortsStep::Bind(PortNegotiation { ip, wanted, ports })
    }
}

impl PortNegotiation {
    #[verifier::type_invariant]
    spec fn misses_a_port(self) -> bool {
        self@.wf()
    }

    /// A negotiation for `wanted` ports that holds none yet.
    pub(crate) fn begin(ip: String, wanted: usize) -> (negotiation: Self)
        requires
            wanted > 0,
        ensures
            negotiation@ == (NegotiationView {
                ip: ip@,
                wanted: wanted as nat,
                ports: Seq::empty(),
            }),
    {
        PortNegotiation { ip, wanted, ports: Vec::new() }
    }

    /// Begins to find `num` free ports on the address `ip`.
    pub fn start(ip: String, num: usize) -> (step: PortsStep)
        ensures
            step@ == ports_step(ip@, num as nat, Seq::empty()),
            step@.wf(),
    {
        next_step(ip, num, Vec::new())
    }

    /// The address to bind the listener to, with port 0.
    pub fn ip(&self) -> (ip: &String)
        ensures
            ip@ == self@.ip,
            self@.wf(),
    {
        proof {
            use_type_invariant(self);
        }
        &self.ip
    }

    /// Goes on after the attempt to bind a listener: `bound` is the port that
    /// the system assigned, `None` where it could not bind.
    pub fn resume(self, bound: Option<u16>) -> (step: PortsStep)
        ensures
            step@ == self@.resume(bound),
            self@.wf(),
            step@.wf(),
    {
        proof {
            use_type_invariant(&self);
        }
        match bound {
            Some(port) => {
                let PortNegotiation { ip, wanted, ports } = self;
                let mut ports = ports;
                ports.push(port);
                next_step(ip, wanted, ports)
            },
            None => PortsStep::Done(Err(PortError::PortAcquisitionFailed)),
        }
    }
}

/// Finds `num` free ports on the address `ip`, with `bind` to bind a listener
/// to port 0 of an address, note the port that the system assigned and
/// release the listener again.
///
/// The ports are found one after the other. They come back in the order in
/// which they were bound, exactly `num` of them. Once `bind` fails the search
/// is over, and the ports found before are dropped.
pub fn peek_ports<B: Fn(String) -> Option<u16>>(ip: String, num: usize, bind: &B) -> (outcome:
    Result<Vec<u16>, PortError>)
    requires
        forall|address: String| call_requires(*bind, (address,)),
    ensures
        match outcome {
            Ok(ports) => ports@.len() == num && forall|i: int|
                0 <= i < num ==> call_ensures(*bind, (ip,), Some(#[trigger] ports@[i])),
            Err(_) => num > 0 && call_ensures(*bind, (ip,), None::<u16>),
        },
{
    let mut step = PortNegotiation::start(ip.clone(), num);
    loop
        invariant
            forall|address: String| call_requires(*bind, (address,)),
            step@.wf(),
            step@ == ports_step(ip@, num as nat, step@.held()) || (step@ is Done && num > 0
                && call_ensures(*bind, (ip,), None::<u16>)),
            forall|i: int|
                0 <= i < step@.held().len() ==> call_ensures(
                    *bind,
                    (ip,),
                    Some(#[trigger] step@.held()[i]),
                ),
            step@ matches PortsStepView::Done(Ok(ports)) ==> ports.len() == num,
        decreases step@.missing(),
    {
        match step {
            PortsStep::Bind(negotiation) => {
                let bound = bind(ip.clone());
                step = negotiation.resume(bound);
            },
            PortsStep::Done(outcome) => {
                return outcome;
            },
        }
    }
}

proof fn lemma_drive_ports(ip: Seq<char>, wanted: nat, held: Seq<u16>, ports: Seq<u16>)
    requires
        held.len() + ports.len() == wanted,
    ensures
        drive_ports(ports_step(ip, wanted, held), ports.map_values(|port: u16| Some(port)))
            == PortsStepView::Done(Ok(held + ports)),
    decreases ports.len(),
{
    let bound = ports.map_values(|port: u16| Some(port));
    if ports.len() == 0 {
    } else {
        lemma_drive_ports(ip, wanted, held.push(ports[0]), ports.skip(1));
        assert(bound.skip(1) == ports.skip(1).map_values(|port: u16| Some(port)));
        assert(held.push(ports[0]) + ports.skip(1) == held + ports);
    }
}

/// A negotiation whose listeners all bind ends with the ports that the
/// system assigned, each once, in the order in which they were bound.
pub proof fn law_negotiation_gives_the_bound_ports(ip: Seq<char>, ports: Seq<u16>)
    ensures
        drive_ports(
            ports_step(ip, ports.len(), Seq::empty()),
            ports.map_values(|port: u16| Some(port)),
        ) == PortsStepView::Done(Ok(ports)),
{
    lemma_drive_ports(ip, ports.len(), Seq::empty(), ports);
}

/// For every count of at least one: where the system assigns that many
/// ports and no port twice, the negotiation ends with exactly that many
/// ports, pairwise distinct.
pub proof fn law_negotiation_gives_distinct_ports(ip: Seq<char>, num: nat, ports: Seq<u16>)
    requires
        num >= 1,
        ports.len() == num,
        pairwise_distinct(ports),
    ensures
        drive_ports(
            ports_step(ip, num, Seq::empty()),
            ports.map_values(|port: u16| Some(port)),
        ) matches PortsStepView::Done(Ok(found)) && found.len() == num && pairwise_distinct(found),
{
    law_negotiation_gives_the_bound_ports(ip, ports);
}

proof fn lemma_drive_ports_fails(
    ip: Seq<char>,
    wanted: nat,
    held: Seq<u16>,
    bound: Seq<Option<u16>>,
    failed: int,
)
    requires
        0 <= failed < bound.len(),
        held.len() + failed < wanted,
        bound[failed] is None,
        forall|i: int| 0 <= i < failed ==> bound[i] is Some,
    ensures
        drive_ports(ports_step(ip, wanted, held), bound) == PortsStepView::Done(
            Err(PortError::PortAcquisitionFailed),
        ),
    decreases failed,
{
    reveal_with_fuel(drive_ports, 2);
    if failed > 0 {
        lemma_drive_ports_fails(
            ip,
            wanted,
            held.push(bound[0].unwrap()),
            bound.skip(1),
            failed - 1,
        );
    }
}

/// A negotiation gives all its ports or none: once a listener fails to bind
/// while ports are missing, the negotiation ends with
/// `PortAcquisitionFailed`, whatever was bound before and whatever would have
/// been bound after.
pub proof fn law_negotiation_fails_as_a_whole(
    ip: Seq<char>,
    num: nat,
    bound: Seq<Option<u16>>,
    failed: int,
)
    requires
        0 <= failed < bound.len(),
        failed < num,
        bound[failed] is None,
        forall|i: int| 0 <= i < failed ==> bound[i] is Some,
    ensures
        drive_ports(ports_step(ip, num, Seq::empty()), bound) == PortsStepView::Done(
            Err(PortError::PortAcquisitionFailed),
        ),
{
    lemma_drive_ports_fails(ip, num, Seq::empty(), bound, failed);
}

} // verus!
