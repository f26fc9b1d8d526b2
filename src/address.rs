use vstd::prelude::*;

verus! {

/// An IPv4 address as its four octets, most significant first.
#[derive(Clone, Copy, Debug)]
pub struct Ipv4Address {
    pub octets: [u8; 4],
}

/// An IPv6 address as its sixteen octets, most significant first.
#[derive(Clone, Copy, Debug)]
pub struct Ipv6Address {
    pub octets: [u8; 16],
}

/// A host address or a netmask of either family.
#[derive(Clone, Copy, Debug)]
pub enum IpAddress {
    V4(Ipv4Address),
    V6(Ipv6Address),
}

impl IpAddress {
    pub open spec fn is_v4(self) -> bool {
        self is V4
    }

    /// The octets of the address, most significant first.
    pub open spec fn octet_seq(self) -> Seq<u8> {
        match self {
            IpAddress::V4(a) => a.octets@,
            IpAddress::V6(a) => a.octets@,
        }
    }

    /// Same family and same octets.
    pub open spec fn same_as(self, other: IpAddress) -> bool {
        self.is_v4() == other.is_v4() && self.octet_seq() == other.octet_seq()
    }

    /// Every octet is 255: the mask of a single host.
    pub open spec fn is_full_mask(self) -> bool {
        forall|i: int| 0 <= i < self.octet_seq().len() ==> #[trigger] self.octet_seq()[i] == 255u8
    }
}

/// Octet-wise subnet test: `a` and `b` have the length of `m` and agree on
/// every octet under it.
pub open spec fn same_network_octets(a: Seq<u8>, b: Seq<u8>, m: Seq<u8>) -> bool {
    &&& a.len() == m.len()
    &&& b.len() == m.len()
    &&& forall|i: int| 0 <= i < m.len() ==> (#[trigger] a[i]) & m[i] == b[i] & m[i]
}

/// Whether `addr` lies in the subnet of `ifaddr` under `mask`. Addresses of
/// different families, or a mask of another family, are never on one network.
pub open spec fn same_network(addr: IpAddress, ifaddr: IpAddress, mask: IpAddress) -> bool {
    &&& addr.is_v4() == ifaddr.is_v4()
    &&& mask.is_v4() == ifaddr.is_v4()
    &&& same_network_octets(addr.octet_seq(), ifaddr.octet_seq(), mask.octet_seq())
}

/// Whether two addresses are equal: same family, same octets.
pub fn same_address(a: &IpAddress, b: &IpAddress) -> (r: bool)
    ensures
        r == a.same_as(*b),
{
    let (x, y): (&[u8], &[u8]) = match (a, b) {
        (IpAddress::V4(x), IpAddress::V4(y)) => (x.octets.as_slice(), y.octets.as_slice()),
        (IpAddress::V6(x), IpAddress::V6(y)) => (x.octets.as_slice(), y.octets.as_slice()),
        _ => {
            return false;
        },
    };
    assert(x@ == a.octet_seq() && y@ == b.octet_seq());
    octets_equal(x, y)
}

/// Whether two octet strings are equal.
fn octets_equal(x: &[u8], y: &[u8]) -> (r: bool)
    ensures
        r == (x@ == y@),
{
    if x.len() != y.len() {
        return false;
    }
    let mut i: usize = 0;
    while i < x.len()
        invariant
            0 <= i <= x.len(),
            x.len() == y.len(),
            forall|j: int| 0 <= j < i ==> x@[j] == #[trigger] y@[j],
        decreases x.len() - i,
    {
        if x[i] != y[i] {
            assert(x@[i as int] != y@[i as int]);
            return false;
        }
        i = i + 1;
    }
    assert(x@ =~= y@);
    true
}

/// Whether `addr` lies in the IPv4 subnet of `ifaddr` under `mask`, every
/// octet compared.
pub fn is_same_network_v4(addr: Ipv4Address, ifaddr: Ipv4Address, mask: Ipv4Address) -> (r: bool)
    ensures
        r == same_network_octets(addr.octets@, ifaddr.octets@, mask.octets@),
{
    let mut i: usize = 0;
    while i < 4
        invariant
            0 <= i <= 4,
            forall|j: int| 0 <= j < i ==> (#[trigger] addr.octets@[j]) & mask.octets@[j]
                == ifaddr.octets@[j] & mask.octets@[j],
        decreases 4 - i,
    {
        if addr.octets[i] & mask.octets[i] != ifaddr.octets[i] & mask.octets[i] {
            return false;
        }
        i = i + 1;
    }
    true
}

/// Whether `addr` lies in the IPv6 subnet of `ifaddr` under `mask`, every
/// octet compared.
pub fn is_same_network_v6(addr: Ipv6Address, ifaddr: Ipv6Address, mask: Ipv6Address) -> (r: bool)
    ensures
        r == same_network_octets(addr.octets@, ifaddr.octets@, mask.octets@),
{
    let mut i: usize = 0;
    while i < 16
        invariant
            0 <= i <= 16,
            forall|j: int| 0 <= j < i ==> (#[trigger] addr.octets@[j]) & mask.octets@[j]
                == ifaddr.octets@[j] & mask.octets@[j],
        decreases 16 - i,
    {
        if addr.octets[i] & mask.octets[i] != ifaddr.octets[i] & mask.octets[i] {
            return false;
        }
        i = i + 1;
    }
    true
}

/// Whether `addr` lies in the subnet of `ifaddr` under `mask`; false when the
/// families differ.
pub fn is_same_network_addr(addr: IpAddress, ifaddr: IpAddress, mask: IpAddress) -> (r: bool)
    ensures
        r == same_network(addr, ifaddr, mask),
{
    match (ifaddr, mask, addr) {
        (IpAddress::V4(i), IpAddress::V4(m), IpAddress::V4(a)) => is_same_network_v4(a, i, m),
        (IpAddress::V6(i), IpAddress::V6(m), IpAddress::V6(a)) => is_same_network_v6(a, i, m),
        _ => false,
    }
}

/// The subnet test is symmetric: under one mask, `a` lies in the subnet of
/// `b` exactly when `b` lies in the subnet of `a`.
pub proof fn lemma_same_network_symmetric(a: IpAddress, b: IpAddress, m: IpAddress)
    ensures
        same_network(a, b, m) == same_network(b, a, m),
{
}

/// Under a full mask (every octet 255) two addresses of one family that
/// differ in any octet are never on the same network.
pub proof fn lemma_full_mask_separates(a: IpAddress, b: IpAddress, m: IpAddress)
    requires
        a.is_v4() == b.is_v4(),
        m.is_full_mask(),
        a.octet_seq() != b.octet_seq(),
    ensures
        !same_network(a, b, m),
{
    if same_network(a, b, m) {
        assert forall|i: int| 0 <= i < a.octet_seq().len() implies a.octet_seq()[i]
            == b.octet_seq()[i] by {
            let x = a.octet_seq()[i];
            let y = b.octet_seq()[i];
            let k = m.octet_seq()[i];
            assert(x & k == y & k);
            assert(k == 255u8);
            assert(x & 255u8 == x && y & 255u8 == y) by (bit_vector);
        }
        assert(a.octet_seq() =~= b.octet_seq());
    }
}

} // verus!
