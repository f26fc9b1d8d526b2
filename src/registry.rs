use vstd::prelude::*;

use crate::address::{IpAddress, is_same_network_addr, same_address, same_network};

verus! {

/// The largest datagram the relay receives and forwards, in bytes.
pub const MAX_DATAGRAM: usize = 4096;

/// One configured interface, with its addresses already parsed.
pub struct InterfaceConfig {
    pub name: String,
    pub address: IpAddress,
    pub netmask: IpAddress,
}

/// A configured interface together with the send socket bound to its device.
pub struct Interface {
    pub name: String,
    pub address: IpAddress,
    pub netmask: IpAddress,
    pub sockfd: i32,
}

impl Interface {
    /// The interface of `config`, sending through `sockfd`.
    pub fn new(config: &InterfaceConfig, sockfd: i32) -> (r: Interface)
        ensures
            r.name@ == config.name@,
            r.address == config.address,
            r.netmask == config.netmask,
            r.sockfd == sockfd,
    {
        Interface {
            name: config.name.clone(),
            address: config.address,
            netmask: config.netmask,
            sockfd,
        }
    }

    /// Whether `addr` is this interface's own address.
    pub fn has(&self, addr: IpAddress) -> (r: bool)
        ensures
            r == self.address.same_as(addr),
    {
        same_address(&self.address, &addr)
    }
}

/// Whether `address` lies in the local subnet of `interface`.
pub fn is_same_network(interface: &Interface, address: IpAddress) -> (r: bool)
    ensures
        r == same_network(address, interface.address, interface.netmask),
{
    is_same_network_addr(address, interface.address, interface.netmask)
}

/// What to do with one received datagram: send `payload` on each interface
/// whose index is in `targets`, in that order.
pub struct Relay {
    pub payload: Vec<u8>,
    pub targets: Vec<usize>,
}

/// The interfaces of the relay, fixed once startup is done.
pub struct Registry {
    pub interfaces: Vec<Interface>,
}

impl Registry {
    /// `addr` is the own address of some interface.
    pub open spec fn owns(self, addr: IpAddress) -> bool {
        exists|i: int|
            0 <= i < self.interfaces@.len() && (#[trigger] self.interfaces@[i]).address.same_as(addr)
    }

    /// A datagram from `sender` is sent again on interface `i`: the sender is
    /// not one of the interfaces, and lies outside the subnet of `i`.
    pub open spec fn forwards_to(self, sender: IpAddress, i: int) -> bool {
        &&& !self.owns(sender)
        &&& 0 <= i < self.interfaces@.len()
        &&& !same_network(sender, self.interfaces@[i].address, self.interfaces@[i].netmask)
    }

    /// `t` lists, in increasing order, exactly the interfaces that a datagram
    /// from `sender` is sent again on.
    pub open spec fn is_fan_out(self, sender: IpAddress, t: Seq<usize>) -> bool {
        &&& forall|k: int| 0 <= k < t.len() ==> self.forwards_to(sender, #[trigger] t[k] as int)
        &&& forall|i: int| #[trigger] self.forwards_to(sender, i) ==> t.contains(i as usize)
        &&& forall|k1: int, k2: int| 0 <= k1 < k2 < t.len() ==> #[trigger] t[k1] < #[trigger] t[k2]
    }

    /// The registry of `interfaces`, in the order given.
    pub fn new(interfaces: Vec<Interface>) -> (r: Registry)
        ensures
            r.interfaces@ == interfaces@,
    {
        Registry { interfaces }
    }

    /// Whether `addr` is the own address of one of the interfaces.
    pub fn belongs_to_interface(&self, addr: IpAddress) -> (r: bool)
        ensures
            r == self.owns(addr),
    {
        let mut i: usize = 0;
        while i < self.interfaces.len()
            invariant
                0 <= i <= self.interfaces@.len(),
                forall|j: int| 0 <= j < i ==> !(#[trigger] self.interfaces@[j]).address.same_as(addr),
            decreases self.interfaces@.len() - i,
        {
            if self.interfaces[i].has(addr) {
                return true;
            }
            i = i + 1;
        }
        false
    }

    /// The interfaces, in order, that a datagram from `sender` is sent again
    /// on: none if `sender` is one of the interfaces, else each interface
    /// whose subnet does not hold `sender`.
    pub fn forward_targets(&self, sender: IpAddress) -> (r: Vec<usize>)
        ensures
            self.is_fan_out(sender, r@),
    {
        let mut targets: Vec<usize> = Vec::new();
        if self.belongs_to_interface(sender) {
            return targets;
        }
        let mut i: usize = 0;
        while i < self.interfaces.len()
            invariant
                0 <= i <= self.interfaces@.len(),
                !self.owns(sender),
                forall|k: int| 0 <= k < targets@.len() ==> (#[trigger] targets@[k]) < i,
                forall|k: int|
                    0 <= k < targets@.len() ==> self.forwards_to(sender, #[trigger] targets@[k] as int),
                forall|j: int| 0 <= j < i && #[trigger] self.forwards_to(sender, j) ==> targets@.contains(j as usize),
                forall|k1: int, k2: int|
                    0 <= k1 < k2 < targets@.len() ==> #[trigger] targets@[k1] < #[trigger] targets@[k2],
            decreases self.interfaces@.len() - i,
        {
            let ghost before = targets@;
            if !is_same_network(&self.interfaces[i], sender) {
                targets.push(i);
                assert forall|j: int|
                    0 <= j <= i && #[trigger] self.forwards_to(sender, j) implies targets@.contains(
                    j as usize,
                ) by {
                    if j < i {
                        let k = choose|k: int| 0 <= k < before.len() && before[k] == j as usize;
                        assert(targets@[k] == j as usize);
                    } else {
                        assert(targets@[before.len() as int] == j as usize);
                    }
                }
            }
            i = i + 1;
        }
        targets
    }

    /// The relay decision for one received datagram: the first `len` bytes of
    /// `buf`, unchanged, and the interfaces to send them on. A datagram with
    /// no IP sender goes nowhere.
    pub fn relay(&self, buf: &[u8], len: usize, sender: Option<IpAddress>) -> (r: Relay)
        requires
            len <= buf@.len(),
        ensures
            r.payload@ == buf@.subrange(0, len as int),
            sender is None ==> r.targets@.len() == 0,
            sender is Some ==> self.is_fan_out(sender->0, r.targets@),
    {
        let payload = vstd::slice::slice_to_vec(vstd::slice::slice_subrange(buf, 0, len));
        let targets = match sender {
            Some(addr) => self.forward_targets(addr),
            None => Vec::new(),
        };
        Relay { payload, targets }
    }
}

/// A datagram whose sender is one of the interfaces is sent on none of them.
pub proof fn lemma_self_suppression(reg: Registry, sender: IpAddress, i: int)
    requires
        reg.owns(sender),
    ensures
        !reg.forwards_to(sender, i),
{
}

/// Relaying cannot loop: a datagram sent on interface `j` comes back through
/// multicast loopback with `j`'s own address as sender, and that copy is sent
/// on no interface, so one received datagram causes at most one round of
/// sends.
pub proof fn lemma_no_relay_loop(reg: Registry, sender: IpAddress, j: int, i: int)
    requires
        reg.forwards_to(sender, j),
    ensures
        !reg.forwards_to(reg.interfaces@[j].address, i),
{
    let back = reg.interfaces@[j].address;
    assert(reg.interfaces@[j].address.same_as(back));
    assert(reg.owns(back));
}

} // verus!
