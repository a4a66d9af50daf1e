use smoltcp::wire::{
    EthernetAddress, IpAddress, IpCidr, IpEndpoint, IpListenEndpoint, Ipv4Address, Ipv6Address,
};
use vstd::prelude::*;
use vstd::std_specs::convert::FromSpec;

verus! {

#[verifier::external_type_specification]
pub struct ExEthernetAddress(EthernetAddress);

#[verifier::external_type_specification]
pub struct ExIpv4Address(Ipv4Address);

#[verifier::external_type_specification]
pub struct ExIpv6Address(Ipv6Address);

#[verifier::external_type_specification]
pub struct ExIpAddress(IpAddress);

#[verifier::external_type_specification]
pub struct ExIpEndpoint(IpEndpoint);

#[verifier::external_type_specification]
pub struct ExIpListenEndpoint(IpListenEndpoint);

#[verifier::external_type_specification]
#[verifier::external_body]
pub struct ExIpCidr(IpCidr);

/// A raw six-byte hardware address.
#[derive(Debug, Clone, Copy, PartialEq, Eq)]
pub struct CMacAddress {
    pub mac: [u8; 6],
}

/// Any IP address, held uniformly in its sixteen-byte IPv6 form; an IPv4
/// address is held as an IPv4-mapped IPv6 address (`::ffff:a.b.c.d`).
#[derive(Debug, Clone, Copy, PartialEq, Eq)]
pub struct CAddress {
    pub ip: [u8; 16],
}

/// An interface address with its prefix length. The prefix length is counted
/// in IPv6 bits, also for an IPv4-mapped address.
#[derive(Debug, Clone, Copy, PartialEq, Eq)]
pub struct CInterface {
    pub prefix: u8,
    pub addr: CAddress,
}

/// A port and an address.
#[derive(Debug, Clone, Copy, PartialEq, Eq)]
pub struct CIPEndpoint {
    pub port: u16,
    pub addr: CAddress,
}

/// Number of bits in the IPv4-mapped prefix `::ffff:0:0/96`.
pub const IPV4_MAPPED_PREFIX_BITS: u8 = 96;

/// Whether sixteen bytes start with the IPv4-mapped prefix.
pub open spec fn is_ipv4_mapped(b: Seq<u8>) -> bool {
    &&& b.len() == 16
    &&& forall|i: int| 0 <= i < 10 ==> b[i] == 0
    &&& b[10] == 0xff
    &&& b[11] == 0xff
}

/// The IPv4-mapped IPv6 form of an IPv4 address.
pub open spec fn ipv4_mapped_bytes(a: [u8; 4]) -> [u8; 16] {
    [0, 0, 0, 0, 0, 0, 0, 0, 0, 0, 0xff, 0xff, a[0], a[1], a[2], a[3]]
}

/// The native address that sixteen bytes stand for: IPv4 when they carry the
/// IPv4-mapped prefix, IPv6 otherwise.
pub open spec fn spec_native_address(b: [u8; 16]) -> IpAddress {
    if is_ipv4_mapped(b@) {
        IpAddress::Ipv4(Ipv4Address([b[12], b[13], b[14], b[15]]))
    } else {
        IpAddress::Ipv6(Ipv6Address(b))
    }
}

/// The all-zero address, which a listen endpoint uses for "any address".
pub open spec fn zero_bytes() -> [u8; 16] {
    [0, 0, 0, 0, 0, 0, 0, 0, 0, 0, 0, 0, 0, 0, 0, 0]
}

/// The sixteen bytes that stand for a native address.
pub open spec fn spec_wire_address(a: IpAddress) -> [u8; 16] {
    match a {
        IpAddress::Ipv4(v4) => ipv4_mapped_bytes(v4.0),
        IpAddress::Ipv6(v6) => v6.0,
    }
}

/// The stack's own notion of an unspecified address: an IPv4 address whose
/// first byte is zero, or the all-zero IPv6 address.
pub open spec fn spec_is_unspecified(a: IpAddress) -> bool {
    match a {
        IpAddress::Ipv4(v4) => v4.0[0] == 0,
        IpAddress::Ipv6(v6) => forall|i: int| 0 <= i < 16 ==> v6.0[i] == 0,
    }
}

/// The largest prefix length that a CIDR block of this address family takes.
pub open spec fn max_prefix_len(a: IpAddress) -> u8 {
    match a {
        IpAddress::Ipv4(_) => 32,
        IpAddress::Ipv6(_) => 128,
    }
}

/// The prefix length, in the native address family's own bits, that an
/// interface descriptor asks for.
pub open spec fn spec_cidr_prefix(ifc: CInterface) -> int {
    match spec_native_address(ifc.addr.ip) {
        IpAddress::Ipv4(_) => ifc.prefix - IPV4_MAPPED_PREFIX_BITS,
        IpAddress::Ipv6(_) => ifc.prefix as int,
    }
}

/// An interface descriptor from which a CIDR block can be built: the prefix
/// length fits the address family once the IPv4-mapped bits are taken off.
pub open spec fn valid_interface(ifc: CInterface) -> bool {
    0 <= spec_cidr_prefix(ifc) <= max_prefix_len(spec_native_address(ifc.addr.ip))
}

/// The CIDR block that the stack builds from an address and a prefix length.
pub uninterp spec fn ip_cidr_of(addr: IpAddress, prefix_len: u8) -> IpCidr;

/// Relies on smoltcp's `Ipv6Address::from_bytes`: it copies exactly sixteen bytes
/// and panics on any other length.
pub assume_specification[ Ipv6Address::from_bytes ](data: &[u8]) -> (r: Ipv6Address)
    requires
        data@.len() == 16,
    ensures
        r.0@ == data@,
;

/// Relies on smoltcp's `Ipv6Address::as_ipv4`: an IPv4 address made of the last
/// four bytes exactly when the first twelve are the IPv4-mapped prefix.
pub assume_specification[ Ipv6Address::as_ipv4 ](a: &Ipv6Address) -> (r: Option<Ipv4Address>)
    ensures
        r == (if is_ipv4_mapped(a.0@) {
            Some(Ipv4Address([a.0[12], a.0[13], a.0[14], a.0[15]]))
        } else {
            None
        }),
;

/// Relies on smoltcp's `From<Ipv4Address> for Ipv6Address`: the IPv4-mapped
/// IPv6 address.
pub assume_specification[ <Ipv6Address as core::convert::From<Ipv4Address>>::from ](
    a: Ipv4Address,
) -> (r: Ipv6Address)
    ensures
        r == Ipv6Address(ipv4_mapped_bytes(a.0)),
;

/// Relies on smoltcp's `Ipv6Address::as_bytes`: the sixteen bytes of the address.
pub assume_specification[ Ipv6Address::as_bytes ](a: &Ipv6Address) -> (r: &[u8])
    ensures
        r@ == a.0@,
;

/// Relies on smoltcp's `IpAddress::is_unspecified`, which for IPv4 tests the
/// first byte and for IPv6 compares with the all-zero address.
pub assume_specification[ IpAddress::is_unspecified ](a: &IpAddress) -> (r: bool)
    ensures
        r == spec_is_unspecified(*a),
;

/// Relies on smoltcp's `IpCidr::new`, which panics when the prefix length is
/// larger than the address family allows.
pub assume_specification[ IpCidr::new ](addr: IpAddress, prefix_len: u8) -> (r: IpCidr)
    requires
        prefix_len <= max_prefix_len(addr),
    ensures
        r == ip_cidr_of(addr, prefix_len),
;

/// Copies sixteen bytes out of a slice into an array.
fn copy_sixteen(src: &[u8]) -> (r: [u8; 16])
    requires
        src@.len() == 16,
    ensures
        r@ == src@,
{
    let mut b = [0u8; 16];
    let mut i: usize = 0;
    while i < 16
        invariant
            0 <= i <= 16,
            src@.len() == 16,
            forall|j: int| 0 <= j < i ==> b[j] == src@[j],
        decreases 16 - i,
    {
        b[i] = src[i];
        i = i + 1;
    }
    assert(b@ =~= src@);
    b
}

impl From<CMacAddress> for EthernetAddress {
    fn from(address: CMacAddress) -> (r: Self) {
        EthernetAddress(address.mac)
    }
}

impl vstd::std_specs::convert::FromSpecImpl<CMacAddress> for EthernetAddress {
    open spec fn obeys_from_spec() -> bool {
        true
    }

    open spec fn from_spec(address: CMacAddress) -> Self {
        EthernetAddress(address.mac)
    }
}

impl From<CAddress> for Ipv6Address {
    fn from(address: CAddress) -> (r: Self) {
        let r = Ipv6Address::from_bytes(address.ip.as_slice());
        assert(r.0 =~= address.ip);
        r
    }
}

impl vstd::std_specs::convert::FromSpecImpl<CAddress> for Ipv6Address {
    open spec fn obeys_from_spec() -> bool {
        true
    }

    open spec fn from_spec(address: CAddress) -> Self {
        Ipv6Address(address.ip)
    }
}

impl From<CAddress> for IpAddress {
    fn from(address: CAddress) -> (r: Self) {
        let ipv6: Ipv6Address = Ipv6Address::from(address);
        match ipv6.as_ipv4() {
            Some(ipv4) => IpAddress::Ipv4(ipv4),
            None => IpAddress::Ipv6(ipv6),
        }
    }
}

impl vstd::std_specs::convert::FromSpecImpl<CAddress> for IpAddress {
    open spec fn obeys_from_spec() -> bool {
        true
    }

    open spec fn from_spec(address: CAddress) -> Self {
        spec_native_address(address.ip)
    }
}

impl From<IpAddress> for CAddress {
    fn from(address: IpAddress) -> (r: Self) {
        let b = match address {
            IpAddress::Ipv6(addr) => copy_sixteen(addr.as_bytes()),
            IpAddress::Ipv4(addr) => copy_sixteen(Ipv6Address::from(addr).as_bytes()),
        };
        assert(b =~= spec_wire_address(address));
        CAddress { ip: b }
    }
}

impl vstd::std_specs::convert::FromSpecImpl<IpAddress> for CAddress {
    open spec fn obeys_from_spec() -> bool {
        true
    }

    open spec fn from_spec(address: IpAddress) -> Self {
        CAddress { ip: spec_wire_address(address) }
    }
}

/// The IPv4 address that a sixteen-byte address stands for, or `None` when
/// it does not carry the IPv4-mapped prefix.
pub fn ipv4_address(address: CAddress) -> (r: Option<Ipv4Address>)
    ensures
        r == (match spec_native_address(address.ip) {
            IpAddress::Ipv4(v4) => Some(v4),
            IpAddress::Ipv6(_) => None,
        }),
{
    Ipv6Address::from(address).as_ipv4()
}

/// The native CIDR block of an interface descriptor. For an IPv4-mapped address
/// the 96 bits of the mapping prefix are taken off the prefix length; for IPv6
/// it is kept as it is.
pub fn ip_cidr(ifc: CInterface) -> (r: IpCidr)
    requires
        valid_interface(ifc),
    ensures
        r == ip_cidr_of(spec_native_address(ifc.addr.ip), spec_cidr_prefix(ifc) as u8),
{
    let addr: IpAddress = ifc.addr.into();
    let mut prefix = ifc.prefix;
    match addr {
        IpAddress::Ipv4(_) => prefix = prefix - IPV4_MAPPED_PREFIX_BITS,
        IpAddress::Ipv6(_) => {},
    }
    IpCidr::new(addr, prefix)
}

/// Whether a CIDR block can be built from an interface descriptor.
pub fn is_valid_interface(ifc: CInterface) -> (r: bool)
    ensures
        r == valid_interface(ifc),
{
    let addr: IpAddress = ifc.addr.into();
    match addr {
        IpAddress::Ipv4(_) => IPV4_MAPPED_PREFIX_BITS <= ifc.prefix && ifc.prefix
            - IPV4_MAPPED_PREFIX_BITS <= 32,
        IpAddress::Ipv6(_) => ifc.prefix <= 128,
    }
}

impl From<CIPEndpoint> for IpEndpoint {
    fn from(ep: CIPEndpoint) -> (r: Self) {
        IpEndpoint { addr: ep.addr.into(), port: ep.port }
    }
}

impl vstd::std_specs::convert::FromSpecImpl<CIPEndpoint> for IpEndpoint {
    open spec fn obeys_from_spec() -> bool {
        true
    }

    open spec fn from_spec(ep: CIPEndpoint) -> Self {
        IpEndpoint { addr: spec_native_address(ep.addr.ip), port: ep.port }
    }
}

impl From<IpEndpoint> for CIPEndpoint {
    fn from(ep: IpEndpoint) -> (r: Self) {
        CIPEndpoint { addr: ep.addr.into(), port: ep.port }
    }
}

impl vstd::std_specs::convert::FromSpecImpl<IpEndpoint> for CIPEndpoint {
    open spec fn obeys_from_spec() -> bool {
        true
    }

    open spec fn from_spec(ep: IpEndpoint) -> Self {
        CIPEndpoint { addr: CAddress { ip: spec_wire_address(ep.addr) }, port: ep.port }
    }
}

/// The address filter of a listen endpoint: none for an unspecified address.
pub open spec fn spec_listen_filter(addr: IpAddress) -> Option<IpAddress> {
    if spec_is_unspecified(addr) {
        None
    } else {
        Some(addr)
    }
}

fn optional_ip_addr_from_possibly_unspecified_ip_addr(addr: IpAddress) -> (r: Option<IpAddress>)
    ensures
        r == spec_listen_filter(addr),
{
    if addr.is_unspecified() {
        None
    } else {
        Some(addr)
    }
}

impl From<CIPEndpoint> for IpListenEndpoint {
    fn from(ep: CIPEndpoint) -> (r: Self) {
        IpListenEndpoint {
            addr: optional_ip_addr_from_possibly_unspecified_ip_addr(ep.addr.into()),
            port: ep.port,
        }
    }
}

impl vstd::std_specs::convert::FromSpecImpl<CIPEndpoint> for IpListenEndpoint {
    open spec fn obeys_from_spec() -> bool {
        true
    }

    open spec fn from_spec(ep: CIPEndpoint) -> Self {
        IpListenEndpoint {
            addr: spec_listen_filter(spec_native_address(ep.addr.ip)),
            port: ep.port,
        }
    }
}

impl From<IpListenEndpoint> for CIPEndpoint {
    fn from(ep: IpListenEndpoint) -> (r: Self) {
        CIPEndpoint {
            addr: match ep.addr {
                Some(addr) => addr.into(),
                None => {
                    let zero = [0u8; 16];
                    assert(zero =~= zero_bytes());
                    CAddress { ip: zero }
                },
            },
            port: ep.port,
        }
    }
}

impl vstd::std_specs::convert::FromSpecImpl<IpListenEndpoint> for CIPEndpoint {
    open spec fn obeys_from_spec() -> bool {
        true
    }

    open spec fn from_spec(ep: IpListenEndpoint) -> Self {
        CIPEndpoint {
            addr: match ep.addr {
                Some(addr) => CAddress { ip: spec_wire_address(addr) },
                None => CAddress { ip: zero_bytes() },
            },
            port: ep.port,
        }
    }
}

/// Sixteen bytes that go to the native address type and back come back
/// unchanged, whether they hold an IPv4-mapped or a plain IPv6 address.
pub proof fn lemma_address_round_trip(a: CAddress)
    ensures
        <CAddress as FromSpec<IpAddress>>::from_spec(
            <IpAddress as FromSpec<CAddress>>::from_spec(a),
        ) == a,
        spec_wire_address(spec_native_address(a.ip)) == a.ip,
{
    let b = a.ip;
    if is_ipv4_mapped(b@) {
        assert(spec_wire_address(spec_native_address(b)) =~= b);
    }
}

/// A native address goes to sixteen bytes and back unchanged, unless it is an
/// IPv6 address that itself carries the IPv4-mapped prefix (such an address is
/// always read back as IPv4).
pub proof fn lemma_native_round_trip(addr: IpAddress)
    requires
        !(match addr {
            IpAddress::Ipv6(v6) => is_ipv4_mapped(v6.0@),
            IpAddress::Ipv4(_) => false,
        }),
    ensures
        spec_native_address(spec_wire_address(addr)) == addr,
{
    match addr {
        IpAddress::Ipv4(v4) => {
            let w = spec_wire_address(addr);
            assert(is_ipv4_mapped(w@));
            assert([w[12], w[13], w[14], w[15]] =~= v4.0);
        },
        IpAddress::Ipv6(_) => {},
    }
}

/// The all-zero endpoint becomes a listen endpoint with no address filter on
/// the same port, and that listen endpoint becomes the all-zero endpoint again.
pub proof fn lemma_listen_sentinel(port: u16)
    ensures
        <IpListenEndpoint as FromSpec<CIPEndpoint>>::from_spec(
            CIPEndpoint { port, addr: CAddress { ip: zero_bytes() } },
        ) == (IpListenEndpoint { addr: None, port }),
        <CIPEndpoint as FromSpec<IpListenEndpoint>>::from_spec(
            IpListenEndpoint { addr: None, port },
        ) == (CIPEndpoint { port, addr: CAddress { ip: zero_bytes() } }),
{
    let z = zero_bytes();
    assert(!is_ipv4_mapped(z@));
    assert(spec_is_unspecified(spec_native_address(z)));
}

} // verus!
