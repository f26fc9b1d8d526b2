use vstd::prelude::*;

use crate::address::{IpAddress, Ipv4Address};
use crate::registry::{Interface, InterfaceConfig, Registry};

verus! {

/// The mDNS port, on which the receive socket listens and to which datagrams
/// are sent.
pub const MDNS_PORT: u16 = 5353;

/// How long one readiness wait of the event loop lasts, in milliseconds.
pub const POLL_TIMEOUT_MS: isize = 100;

/// How many readiness events one wait of the event loop can report.
pub const MAX_EVENTS: usize = 16;

/// The mDNS multicast group, 224.0.0.251.
pub fn mdns_group() -> (r: Ipv4Address)
    ensures
        r.octets@ == seq![224u8, 0u8, 0u8, 251u8],
{
    let r = Ipv4Address { octets: [224u8, 0u8, 0u8, 251u8] };
    assert(r.octets@ =~= seq![224u8, 0u8, 0u8, 251u8]);
    r
}

/// The interface addresses on which the receive socket joins the mDNS group,
/// one per configuration entry in order. Group membership is IPv4 only, so
/// the first entry with an IPv6 address is reported by its index.
pub fn membership_addresses(configs: &Vec<InterfaceConfig>) -> (r: Result<Vec<Ipv4Address>, usize>)
    ensures
        match r {
            Ok(addrs) => {
                &&& addrs@.len() == configs@.len()
                &&& forall|i: int|
                    0 <= i < configs@.len() ==> (#[trigger] configs@[i]).address == IpAddress::V4(
                        addrs@[i],
                    )
            },
            Err(i) => {
                &&& i < configs@.len()
                &&& !configs@[i as int].address.is_v4()
                &&& forall|j: int| 0 <= j < i ==> (#[trigger] configs@[j]).address.is_v4()
            },
        },
{
    let mut addrs: Vec<Ipv4Address> = Vec::new();
    let mut i: usize = 0;
    while i < configs.len()
        invariant
            0 <= i <= configs@.len(),
            addrs@.len() == i,
            forall|j: int| 0 <= j < i ==> (#[trigger] configs@[j]).address == IpAddress::V4(addrs@[j]),
        decreases configs@.len() - i,
    {
        match configs[i].address {
            IpAddress::V4(a) => addrs.push(a),
            IpAddress::V6(_) => {
                return Err(i);
            },
        }
        i = i + 1;
    }
    Ok(addrs)
}

/// The registry of `configs`, entry `i` sending through `sockets[i]`.
pub fn build_registry(configs: &Vec<InterfaceConfig>, sockets: &Vec<i32>) -> (r: Registry)
    requires
        configs@.len() == sockets@.len(),
    ensures
        r.interfaces@.len() == configs@.len(),
        forall|i: int|
            0 <= i < configs@.len() ==> {
                &&& (#[trigger] r.interfaces@[i]).name@ == configs@[i].name@
                &&& r.interfaces@[i].address == configs@[i].address
                &&& r.interfaces@[i].netmask == configs@[i].netmask
                &&& r.interfaces@[i].sockfd == sockets@[i]
            },
{
    let mut interfaces: Vec<Interface> = Vec::new();
    let mut i: usize = 0;
    while i < configs.len()
        invariant
            0 <= i <= configs@.len(),
            configs@.len() == sockets@.len(),
            interfaces@.len() == i,
            forall|j: int|
                0 <= j < i ==> {
                    &&& (#[trigger] interfaces@[j]).name@ == configs@[j].name@
                    &&& interfaces@[j].address == configs@[j].address
                    &&& interfaces@[j].netmask == configs@[j].netmask
                    &&& interfaces@[j].sockfd == sockets@[j]
                },
        decreases configs@.len() - i,
    {
        interfaces.push(Interface::new(&configs[i], sockets[i]));
        i = i + 1;
    }
    Registry::new(interfaces)
}

/// What startup asks of the code that owns the sockets next.
pub enum Step {
    /// Open a UDP socket bound to the device of configuration entry `i`.
    OpenSendSocket(usize),
    /// Open the receive socket: bind it to the mDNS port, enable multicast
    /// loopback, and join the mDNS group on every interface.
    OpenReceiveSocket,
    /// Close these sockets and report the failure: startup is abandoned.
    Abort(Vec<i32>),
    /// Every socket is open: start relaying.
    Run,
}

/// How the last requested step went. A step that fails leaves no socket of
/// its own open.
pub enum Outcome {
    Opened(i32),
    Failed,
}

/// Startup progress: the send sockets opened so far, in configuration order,
/// and the receive socket once it is open.
pub struct Startup {
    pub entries: usize,
    pub send_sockets: Vec<i32>,
    pub receive_socket: Option<i32>,
    pub aborted: bool,
}

impl Startup {
    /// At most one send socket per entry; the receive socket only after all
    /// of them; nothing held once abandoned.
    pub open spec fn wf(self) -> bool {
        &&& self.send_sockets@.len() <= self.entries
        &&& self.receive_socket is Some ==> self.send_sockets@.len() == self.entries
        &&& self.aborted ==> self.send_sockets@.len() == 0 && self.receive_socket is None
    }

    /// Every socket that startup holds open.
    pub open spec fn held(self) -> Seq<i32> {
        match self.receive_socket {
            Some(fd) => self.send_sockets@.push(fd),
            None => self.send_sockets@,
        }
    }

    /// Startup has neither finished nor been abandoned.
    pub open spec fn in_progress(self) -> bool {
        !self.aborted && self.receive_socket is None
    }

    /// The step that follows once the first `n` send sockets are open.
    pub open spec fn step_after(self, n: nat) -> Step {
        if n < self.entries {
            Step::OpenSendSocket(n as usize)
        } else {
            Step::OpenReceiveSocket
        }
    }

    /// Startup for `entries` configured interfaces, and its first step.
    pub fn new(entries: usize) -> (r: (Startup, Step))
        ensures
            r.0.wf(),
            r.0.in_progress(),
            r.0.entries == entries,
            r.0.held().len() == 0,
            r.1 == r.0.step_after(0),
    {
        let s = Startup { entries, send_sockets: Vec::new(), receive_socket: None, aborted: false };
        let step = if entries > 0 {
            Step::OpenSendSocket(0)
        } else {
            Step::OpenReceiveSocket
        };
        (s, step)
    }

    /// Take the outcome of the last step asked for and return the next one.
    /// On failure every socket opened so far, and no other, is handed back to
    /// be closed, and startup holds none afterwards.
    pub fn step(&mut self, outcome: Outcome) -> (r: Step)
        requires
            old(self).wf(),
            old(self).in_progress(),
        ensures
            final(self).wf(),
            final(self).entries == old(self).entries,
            match outcome {
                Outcome::Failed => {
                    &&& r matches Step::Abort(fds) && fds@ == old(self).held()
                    &&& final(self).aborted
                    &&& final(self).held().len() == 0
                },
                Outcome::Opened(fd) => {
                    &&& final(self).held() == old(self).held().push(fd)
                    &&& if old(self).send_sockets@.len() < old(self).entries {
                        &&& final(self).in_progress()
                        &&& r == final(self).step_after(final(self).send_sockets@.len())
                    } else {
                        &&& final(self).receive_socket == Some(fd)
                        &&& r is Run
                    }
                },
            },
    {
        match outcome {
            Outcome::Failed => {
                let mut fds: Vec<i32> = Vec::new();
                fds.append(&mut self.send_sockets);
                self.aborted = true;
                Step::Abort(fds)
            },
            Outcome::Opened(fd) => {
                if self.send_sockets.len() < self.entries {
                    self.send_sockets.push(fd);
                    if self.send_sockets.len() < self.entries {
                        Step::OpenSendSocket(self.send_sockets.len())
                    } else {
                        Step::OpenReceiveSocket
                    }
                } else {
                    self.receive_socket = Some(fd);
                    Step::Run
                }
            },
        }
    }
}

} // verus!
