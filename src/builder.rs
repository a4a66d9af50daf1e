use crate::address::{
    ip_cidr, ip_cidr_of, ipv4_address, spec_cidr_prefix, spec_native_address, valid_interface,
    CAddress, CInterface, CMacAddress,
};
use crate::cdevice::CMedium;
use crate::device::{spec_device_mtu, SansIO};
use crate::handles::{Handle, HandleTable};
use smoltcp::phy::Medium;
use smoltcp::wire::{EthernetAddress, IpAddress, IpCidr, Ipv4Address};
use vstd::prelude::*;

verus! {

/// The configuration of an interface that is being built. Every facet is
/// optional; setting one again replaces what was set before.
#[derive(Debug)]
pub struct Builder {
    pub hardware_addr: Option<EthernetAddress>,
    pub neighbor_cache: bool,
    pub ipv4_reassembly_buffer: bool,
    pub ip_addr: Option<IpCidr>,
    pub ipv4_gateway: Option<Ipv4Address>,
}

/// A finalized configuration together with the device it runs on.
#[derive(Debug)]
pub struct Finalized {
    pub config: Builder,
    pub device: SansIO,
}

/// The host's gateway address as IPv4, if it is an IPv4-mapped address.
pub open spec fn spec_ipv4_of(a: CAddress) -> Option<Ipv4Address> {
    match spec_native_address(a.ip) {
        IpAddress::Ipv4(v4) => Some(v4),
        IpAddress::Ipv6(_) => None,
    }
}

/// A medium and an MTU that a device can be built for.
pub open spec fn valid_device(medium: CMedium, mtu: usize) -> bool {
    match medium.spec_medium() {
        Some(m) => spec_device_mtu(mtu, m) <= usize::MAX,
        None => false,
    }
}

/// Whether a device can be built for a medium and an MTU.
pub fn is_valid_device(medium: CMedium, mtu: usize) -> (r: bool)
    ensures
        r == valid_device(medium, mtu),
{
    match medium.to_medium() {
        Some(m) => {
            if matches!(m, Medium::Ethernet) {
                mtu <= usize::MAX - 14
            } else {
                true
            }
        },
        None => false,
    }
}

impl Builder {
    /// A builder with nothing configured.
    pub fn new() -> (r: Builder)
        ensures
            r.hardware_addr is None,
            !r.neighbor_cache,
            !r.ipv4_reassembly_buffer,
            r.ip_addr is None,
            r.ipv4_gateway is None,
    {
        Builder {
            hardware_addr: None,
            neighbor_cache: false,
            ipv4_reassembly_buffer: false,
            ip_addr: None,
            ipv4_gateway: None,
        }
    }

    /// Sets the Ethernet hardware address.
    pub fn hardware_addr(self, mac: CMacAddress) -> (r: Builder)
        ensures
            r.hardware_addr == Some(EthernetAddress(mac.mac)),
            r.neighbor_cache == self.neighbor_cache,
            r.ipv4_reassembly_buffer == self.ipv4_reassembly_buffer,
            r.ip_addr == self.ip_addr,
            r.ipv4_gateway == self.ipv4_gateway,
    {
        Builder { hardware_addr: Some(mac.into()), ..self }
    }

    /// Asks for a neighbor cache.
    pub fn neighbor_cache(self) -> (r: Builder)
        ensures
            r.hardware_addr == self.hardware_addr,
            r.neighbor_cache,
            r.ipv4_reassembly_buffer == self.ipv4_reassembly_buffer,
            r.ip_addr == self.ip_addr,
            r.ipv4_gateway == self.ipv4_gateway,
    {
        Builder { neighbor_cache: true, ..self }
    }

    /// Asks for an IPv4 reassembly buffer.
    pub fn ipv4_reassembly_buffer(self) -> (r: Builder)
        ensures
            r.hardware_addr == self.hardware_addr,
            r.neighbor_cache == self.neighbor_cache,
            r.ipv4_reassembly_buffer,
            r.ip_addr == self.ip_addr,
            r.ipv4_gateway == self.ipv4_gateway,
    {
        Builder { ipv4_reassembly_buffer: true, ..self }
    }

    /// Sets the single interface address, from a descriptor whose prefix length
    /// counts IPv6 bits.
    pub fn ip_addr(self, ifc: CInterface) -> (r: Builder)
        requires
            valid_interface(ifc),
        ensures
            r.hardware_addr == self.hardware_addr,
            r.neighbor_cache == self.neighbor_cache,
            r.ipv4_reassembly_buffer == self.ipv4_reassembly_buffer,
            r.ip_addr == Some(
                ip_cidr_of(spec_native_address(ifc.addr.ip), spec_cidr_prefix(ifc) as u8),
            ),
            r.ipv4_gateway == self.ipv4_gateway,
    {
        Builder { ip_addr: Some(ip_cidr(ifc)), ..self }
    }

    /// Sets the default IPv4 route through `gateway`, which must be an
    /// IPv4-mapped address.
    pub fn routes(self, gateway: CAddress) -> (r: Builder)
        requires
            spec_ipv4_of(gateway) is Some,
        ensures
            r.hardware_addr == self.hardware_addr,
            r.neighbor_cache == self.neighbor_cache,
            r.ipv4_reassembly_buffer == self.ipv4_reassembly_buffer,
            r.ip_addr == self.ip_addr,
            r.ipv4_gateway == spec_ipv4_of(gateway),
    {
        Builder { ipv4_gateway: ipv4_address(gateway), ..self }
    }

    /// Ends the configuration: the builder is consumed and a device for the
    /// medium and MTU is made to run the interface on.
    pub fn finalize(self, medium: CMedium, mtu: usize) -> (r: Finalized)
        requires
            valid_device(medium, mtu),
        ensures
            r.config == self,
            r.device.spec_medium() == medium.spec_medium()->Some_0,
            r.device.spec_mtu() == spec_device_mtu(mtu, medium.spec_medium()->Some_0),
            r.device.spec_tx().len() == 0,
            r.device.spec_rx().len() == 0,
    {
        let m = medium.to_medium().unwrap();
        Finalized { config: self, device: SansIO::new(mtu, m) }
    }
}

/// Opens a new builder and returns its handle.
pub fn new_builder(builders: &mut HandleTable<Builder>) -> (h: Handle)
    requires
        old(builders).wf(),
    ensures
        final(builders).wf(),
        !old(builders).issued().contains(h),
        final(builders).issued() == old(builders).issued().insert(h),
        final(builders)@.contains_key(h),
        final(builders)@.dom() == old(builders)@.dom().insert(h),
{
    builders.insert(Builder::new())
}

/// Drops the builder that `h` refers to. Returns `false`, and changes nothing,
/// for a handle that is not live, e.g. one that was already deleted.
pub fn delete_builder(builders: &mut HandleTable<Builder>, h: Handle) -> (r: bool)
    requires
        old(builders).wf(),
    ensures
        final(builders).wf(),
        final(builders).issued() == old(builders).issued(),
        final(builders)@ == old(builders)@.remove(h),
        r == old(builders)@.contains_key(h),
{
    builders.remove(h).is_some()
}

/// What a reconfiguration through the handle table did: the old handle is dead
/// and the new builder lives under a fresh handle; or nothing changed because
/// the handle was not live.
pub open spec fn reconfigured(
    old_table: &HandleTable<Builder>,
    new_table: &HandleTable<Builder>,
    h: Handle,
    r: Option<Handle>,
) -> bool {
    &&& new_table.wf()
    &&& match r {
        Some(nh) => {
            &&& old_table@.contains_key(h)
            &&& nh != h
            &&& !old_table.issued().contains(nh)
            &&& new_table.issued() == old_table.issued().insert(nh)
            &&& new_table@.dom() == old_table@.dom().remove(h).insert(nh)
            &&& forall|k: Handle| k != nh ==> #[trigger] new_table@.contains_key(k) ==> new_table@[k]
                == old_table@[k]
        },
        None => {
            &&& !old_table@.contains_key(h)
            &&& new_table@ == old_table@
            &&& new_table.issued() == old_table.issued()
        },
    }
}

proof fn lemma_reinserted(
    old_table: &HandleTable<Builder>,
    mid: &HandleTable<Builder>,
    new_table: &HandleTable<Builder>,
    h: Handle,
    nh: Handle,
    b: Builder,
)
    requires
        old_table.wf(),
        old_table@.contains_key(h),
        mid.issued() == old_table.issued(),
        mid@ == old_table@.remove(h),
        new_table.wf(),
        !mid.issued().contains(nh),
        new_table.issued() == mid.issued().insert(nh),
        new_table@ == mid@.insert(nh, b),
    ensures
        reconfigured(old_table, new_table, h, Some(nh)),
{
    old_table.lemma_live_handles_issued();
    assert(new_table@.dom() =~= old_table@.dom().remove(h).insert(nh));
}

/// Sets the hardware address of the builder that `h` refers to. The builder
/// moves to the returned handle and `h` is dead afterwards; `None` for a handle
/// that is not live.
pub fn builder_set_hardware_addr(
    builders: &mut HandleTable<Builder>,
    h: Handle,
    mac: CMacAddress,
) -> (r: Option<Handle>)
    requires
        old(builders).wf(),
    ensures
        reconfigured(old(builders), final(builders), h, r),
        r matches Some(nh) ==> final(builders)@[nh].hardware_addr == Some(EthernetAddress(mac.mac))
            && final(builders)@[nh].ip_addr == old(builders)@[h].ip_addr
            && final(builders)@[nh].ipv4_gateway == old(builders)@[h].ipv4_gateway
            && final(builders)@[nh].neighbor_cache == old(builders)@[h].neighbor_cache
            && final(builders)@[nh].ipv4_reassembly_buffer == old(builders)@[h].ipv4_reassembly_buffer,
{
    match builders.remove(h) {
        Some(b) => {
            let ghost mid = *builders;
            let nb = b.hardware_addr(mac);
            let ghost nbv = nb;
            let nh = builders.insert(nb);
            proof {
                lemma_reinserted(old(builders), &mid, builders, h, nh, nbv);
            }
            Some(nh)
        },
        None => {
            assert(builders@ =~= old(builders)@);
            None
        },
    }
}

/// Asks for a neighbor cache on the builder that `h` refers to; see
/// [`builder_set_hardware_addr`] for the handles.
pub fn builder_init_neighbour_cache(builders: &mut HandleTable<Builder>, h: Handle) -> (r: Option<
    Handle,
>)
    requires
        old(builders).wf(),
    ensures
        reconfigured(old(builders), final(builders), h, r),
        r matches Some(nh) ==> final(builders)@[nh].neighbor_cache
            && final(builders)@[nh].hardware_addr == old(builders)@[h].hardware_addr
            && final(builders)@[nh].ip_addr == old(builders)@[h].ip_addr
            && final(builders)@[nh].ipv4_gateway == old(builders)@[h].ipv4_gateway
            && final(builders)@[nh].ipv4_reassembly_buffer == old(builders)@[h].ipv4_reassembly_buffer,
{
    match builders.remove(h) {
        Some(b) => {
            let ghost mid = *builders;
            let nb = b.neighbor_cache();
            let ghost nbv = nb;
            let nh = builders.insert(nb);
            proof {
                lemma_reinserted(old(builders), &mid, builders, h, nh, nbv);
            }
            Some(nh)
        },
        None => {
            assert(builders@ =~= old(builders)@);
            None
        },
    }
}

/// Asks for an IPv4 reassembly buffer on the builder that `h` refers to; see
/// [`builder_set_hardware_addr`] for the handles.
pub fn builder_init_ipv4_reassembly_buffer(builders: &mut HandleTable<Builder>, h: Handle) -> (r:
    Option<Handle>)
    requires
        old(builders).wf(),
    ensures
        reconfigured(old(builders), final(builders), h, r),
        r matches Some(nh) ==> final(builders)@[nh].ipv4_reassembly_buffer
            && final(builders)@[nh].hardware_addr == old(builders)@[h].hardware_addr
            && final(builders)@[nh].ip_addr == old(builders)@[h].ip_addr
            && final(builders)@[nh].ipv4_gateway == old(builders)@[h].ipv4_gateway
            && final(builders)@[nh].neighbor_cache == old(builders)@[h].neighbor_cache,
{
    match builders.remove(h) {
        Some(b) => {
            let ghost mid = *builders;
            let nb = b.ipv4_reassembly_buffer();
            let ghost nbv = nb;
            let nh = builders.insert(nb);
            proof {
                lemma_reinserted(old(builders), &mid, builders, h, nh, nbv);
            }
            Some(nh)
        },
        None => {
            assert(builders@ =~= old(builders)@);
            None
        },
    }
}

/// Sets the interface address of the builder that `h` refers to; see
/// [`builder_set_hardware_addr`] for the handles.
pub fn builder_set_ip_addr(builders: &mut HandleTable<Builder>, h: Handle, ifc: CInterface) -> (r:
    Option<Handle>)
    requires
        old(builders).wf(),
        valid_interface(ifc),
    ensures
        reconfigured(old(builders), final(builders), h, r),
        r matches Some(nh) ==> final(builders)@[nh].ip_addr == Some(
            ip_cidr_of(spec_native_address(ifc.addr.ip), spec_cidr_prefix(ifc) as u8),
        ) && final(builders)@[nh].hardware_addr == old(builders)@[h].hardware_addr
            && final(builders)@[nh].ipv4_gateway == old(builders)@[h].ipv4_gateway
            && final(builders)@[nh].neighbor_cache == old(builders)@[h].neighbor_cache
            && final(builders)@[nh].ipv4_reassembly_buffer == old(builders)@[h].ipv4_reassembly_buffer,
{
    match builders.remove(h) {
        Some(b) => {
            let ghost mid = *builders;
            let nb = b.ip_addr(ifc);
            let ghost nbv = nb;
            let nh = builders.insert(nb);
            proof {
                lemma_reinserted(old(builders), &mid, builders, h, nh, nbv);
            }
            Some(nh)
        },
        None => {
            assert(builders@ =~= old(builders)@);
            None
        },
    }
}

/// Sets the default IPv4 gateway of the builder that `h` refers to; see
/// [`builder_set_hardware_addr`] for the handles.
pub fn builder_set_routes(builders: &mut HandleTable<Builder>, h: Handle, gateway: CAddress) -> (r:
    Option<Handle>)
    requires
        old(builders).wf(),
        spec_ipv4_of(gateway) is Some,
    ensures
        reconfigured(old(builders), final(builders), h, r),
        r matches Some(nh) ==> final(builders)@[nh].ipv4_gateway == spec_ipv4_of(gateway)
            && final(builders)@[nh].hardware_addr == old(builders)@[h].hardware_addr
            && final(builders)@[nh].ip_addr == old(builders)@[h].ip_addr
            && final(builders)@[nh].neighbor_cache == old(builders)@[h].neighbor_cache
            && final(builders)@[nh].ipv4_reassembly_buffer == old(builders)@[h].ipv4_reassembly_buffer,
{
    match builders.remove(h) {
        Some(b) => {
            let ghost mid = *builders;
            let nb = b.routes(gateway);
            let ghost nbv = nb;
            let nh = builders.insert(nb);
            proof {
                lemma_reinserted(old(builders), &mid, builders, h, nh, nbv);
            }
            Some(nh)
        },
        None => {
            assert(builders@ =~= old(builders)@);
            None
        },
    }
}

/// Finalizes the builder that `h` refers to: it leaves the table for good, so
/// `h` is dead and no configuration call can reach it again. `None` for a handle
/// that is not live.
pub fn builder_finalize(
    builders: &mut HandleTable<Builder>,
    h: Handle,
    medium: CMedium,
    mtu: usize,
) -> (r: Option<Finalized>)
    requires
        old(builders).wf(),
        valid_device(medium, mtu),
    ensures
        final(builders).wf(),
        final(builders).issued() == old(builders).issued(),
        final(builders)@ == old(builders)@.remove(h),
        !final(builders)@.contains_key(h),
        match r {
            Some(f) => {
                &&& old(builders)@.contains_key(h)
                &&& f.config == old(builders)@[h]
                &&& f.device.spec_medium() == medium.spec_medium()->Some_0
                &&& f.device.spec_mtu() == spec_device_mtu(mtu, medium.spec_medium()->Some_0)
                &&& f.device.spec_tx().len() == 0
                &&& f.device.spec_rx().len() == 0
            },
            None => !old(builders)@.contains_key(h),
        },
{
    match builders.remove(h) {
        Some(b) => Some(b.finalize(medium, mtu)),
        None => None,
    }
}

/// Once a builder is finalized its handle is dead for good. A configuration
/// call through any handle `k` (the dead one included) leaves it dead and still
/// issued, so it can never be brought back; a call through the dead handle
/// itself returns `None` and changes nothing.
pub proof fn lemma_finalized_builder_unusable(
    t: &HandleTable<Builder>,
    t2: &HandleTable<Builder>,
    h: Handle,
    k: Handle,
    r: Option<Handle>,
)
    requires
        !t@.contains_key(h),
        t.issued().contains(h),
        reconfigured(t, t2, k, r),
    ensures
        !t2@.contains_key(h),
        t2.issued().contains(h),
        k == h ==> r is None && t2@ == t@,
{
    if let Some(nh) = r {
        assert(t2@.dom().contains(h) == t@.dom().remove(k).insert(nh).contains(h));
    }
}

} // verus!
