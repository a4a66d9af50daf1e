use crate::address::{spec_is_unspecified, spec_native_address, CAddress, CIPEndpoint};
use crate::result_codes::{ICMPBindError, ICMPRecvError, ICMPSendError, ResultCode};
use crate::socket::copy_payload;
use smoltcp::phy::ChecksumCapabilities;
use smoltcp::socket::icmp;
use smoltcp::wire::{
    IpAddress, IpListenEndpoint, Icmpv4DstUnreachable, Icmpv4Packet, Icmpv4Repr,
    Icmpv4TimeExceeded, Ipv4Repr,
};
use vstd::prelude::*;
use vstd::std_specs::convert::FromSpec;

verus! {

#[verifier::external_type_specification]
#[verifier::external_body]
pub struct ExIcmpSocket<'a>(icmp::Socket<'a>);

#[verifier::external_type_specification]
pub struct ExIcmpEndpoint(icmp::Endpoint);

#[verifier::external_type_specification]
#[verifier::external_body]
pub struct ExIcmpv4DstUnreachable(Icmpv4DstUnreachable);

#[verifier::external_type_specification]
#[verifier::external_body]
pub struct ExIcmpv4TimeExceeded(Icmpv4TimeExceeded);

#[verifier::external_type_specification]
#[verifier::external_body]
pub struct ExIpv4Repr(Ipv4Repr);

#[verifier::external_type_specification]
pub struct ExIcmpv4Repr<'a>(Icmpv4Repr<'a>);

/// Bytes of payload buffer that a new ICMP socket gets in each direction.
pub const ICMP_BUFFER_LEN: usize = 256;

/// Length of the header of an ICMPv4 echo message: type, code, checksum,
/// identifier and sequence number.
pub const ICMPV4_ECHO_HEADER_LEN: usize = 8;

/// Which echo message to build.
#[derive(Debug, Clone, Copy, PartialEq, Eq, Structural)]
pub enum ICMPEchoPacketType {
    EchoRequest,
    EchoReply,
}

/// The kind of an ICMPv4 error message, with its reason code.
#[derive(Debug, Clone, Copy)]
pub enum ICMPErrorPacketType {
    DstUnreachable(Icmpv4DstUnreachable),
    TimeExceeded(Icmpv4TimeExceeded),
}

/// Whether an ICMP endpoint names something to bind to: an identifier, or a
/// UDP port other than 0.
pub open spec fn spec_icmp_specified(ep: icmp::Endpoint) -> bool {
    match ep {
        icmp::Endpoint::Unspecified => false,
        icmp::Endpoint::Ident(_) => true,
        icmp::Endpoint::Udp(l) => l.port != 0,
    }
}

/// Whether an ICMPv4 message is an echo request or reply.
pub open spec fn spec_is_echo(repr: Icmpv4Repr) -> bool {
    match repr {
        Icmpv4Repr::EchoRequest { .. } => true,
        Icmpv4Repr::EchoReply { .. } => true,
        _ => false,
    }
}

/// The checksum that the stack computes over an ICMPv4 message whose checksum
/// field holds zero.
pub uninterp spec fn icmpv4_checksum(message: Seq<u8>) -> u16;

/// The message type byte of an echo request (8) or reply (0).
pub open spec fn spec_echo_type(request: bool) -> u8 {
    if request {
        8
    } else {
        0
    }
}

/// What writing an echo message over `old` leaves before the checksum is
/// filled in: type, code 0, a zero checksum, identifier and sequence number
/// big-endian, then as much of `data` as fits; bytes after that stay as they
/// were.
pub open spec fn spec_echo_fields(
    request: bool,
    ident: u16,
    seq_no: u16,
    data: Seq<u8>,
    old: Seq<u8>,
) -> Seq<u8> {
    let n = if data.len() < old.len() - ICMPV4_ECHO_HEADER_LEN {
        data.len() as int
    } else {
        old.len() - ICMPV4_ECHO_HEADER_LEN
    };
    seq![
        spec_echo_type(request),
        0u8,
        0u8,
        0u8,
        (ident / 256) as u8,
        (ident % 256) as u8,
        (seq_no / 256) as u8,
        (seq_no % 256) as u8,
    ] + data.subrange(0, n) + old.subrange(ICMPV4_ECHO_HEADER_LEN + n, old.len() as int)
}

/// An echo message written over `old`, checksum included.
pub open spec fn spec_echo_message(
    request: bool,
    ident: u16,
    seq_no: u16,
    data: Seq<u8>,
    old: Seq<u8>,
) -> Seq<u8> {
    let f = spec_echo_fields(request, ident, seq_no, data, old);
    let c = icmpv4_checksum(f);
    f.update(2, (c / 256) as u8).update(3, (c % 256) as u8)
}

/// The fields of an echo message: whether it is a request, its identifier,
/// sequence number and data.
pub open spec fn spec_echo_parts(repr: Icmpv4Repr) -> (bool, u16, u16, Seq<u8>) {
    match repr {
        Icmpv4Repr::EchoRequest { ident, seq_no, data } => (true, ident, seq_no, data@),
        Icmpv4Repr::EchoReply { ident, seq_no, data } => (false, ident, seq_no, data@),
        _ => (false, 0, 0, Seq::empty()),
    }
}

/// The outcome of a bind that is skipped on a socket that is bound already:
/// `OK` when no bind was made, otherwise what the bind returned.
pub fn bind_outcome(was_open: bool, bound: Option<Result<(), icmp::BindError>>) -> (r: ICMPBindError)
    requires
        was_open == (bound is None),
    ensures
        r == (match bound {
            None => ICMPBindError::OK,
            Some(res) => ICMPBindError::spec_from_result(res),
        }),
{
    match bound {
        None => ICMPBindError::OK,
        Some(res) => ICMPBindError::from(res),
    }
}

/// Relies on smoltcp's `icmp::Socket::is_open`: whether the socket is bound.
#[verifier::external_body]
fn icmp_is_open(socket: &icmp::Socket<'_>) -> (r: bool) {
    socket.is_open()
}

/// Relies on smoltcp's `icmp::Socket::bind`, which refuses an endpoint that
/// names nothing as unaddressable before it looks at the socket's state.
#[verifier::external_body]
fn icmp_socket_bind(socket: &mut icmp::Socket<'_>, endpoint: icmp::Endpoint) -> (r: Result<
    (),
    icmp::BindError,
>)
    ensures
        (r matches Err(icmp::BindError::Unaddressable)) == !spec_icmp_specified(endpoint),
{
    socket.bind(endpoint)
}

/// Relies on smoltcp's `icmp::Socket::send_slice`, which refuses an unspecified
/// destination as unaddressable.
#[verifier::external_body]
fn icmp_socket_send_slice(socket: &mut icmp::Socket<'_>, data: &[u8], dst: IpAddress) -> (r:
    Result<(), icmp::SendError>)
    ensures
        spec_is_unspecified(dst) ==> r matches Err(icmp::SendError::Unaddressable),
{
    socket.send_slice(data, dst)
}

/// Relies on smoltcp's `icmp::Socket::recv`: takes the next packet and the
/// address it came from.
#[verifier::external_body]
fn icmp_socket_recv<'b>(socket: &'b mut icmp::Socket<'_>) -> (r: Result<
    (&'b [u8], IpAddress),
    icmp::RecvError,
>) {
    socket.recv()
}

/// Relies on smoltcp's `Icmpv4Repr::buffer_len`: an echo message takes its
/// eight header bytes and its data.
pub assume_specification<'a>[ Icmpv4Repr::<'a>::buffer_len ](repr: &Icmpv4Repr<'a>) -> (r: usize)
    ensures
        match *repr {
            Icmpv4Repr::EchoRequest { data, .. } => r == ICMPV4_ECHO_HEADER_LEN + data@.len(),
            Icmpv4Repr::EchoReply { data, .. } => r == ICMPV4_ECHO_HEADER_LEN + data@.len(),
            _ => r >= 0,
        },
;

/// Relies on smoltcp's `Icmpv4Repr::emit`, with the default checksum
/// capabilities (checksums computed): for an echo message it writes type, code
/// 0, identifier and sequence number into the header, copies as much data as
/// fits after it, and then fills in the checksum over the whole buffer.
#[verifier::external_body]
fn icmpv4_emit(repr: &Icmpv4Repr<'_>, dst: &mut [u8])
    requires
        spec_is_echo(*repr),
        old(dst)@.len() >= ICMPV4_ECHO_HEADER_LEN,
    ensures
        final(dst)@ == spec_echo_fields(
            spec_echo_parts(*repr).0,
            spec_echo_parts(*repr).1,
            spec_echo_parts(*repr).2,
            spec_echo_parts(*repr).3,
            old(dst)@,
        ).update(
            2,
            (icmpv4_checksum(
                spec_echo_fields(
                    spec_echo_parts(*repr).0,
                    spec_echo_parts(*repr).1,
                    spec_echo_parts(*repr).2,
                    spec_echo_parts(*repr).3,
                    old(dst)@,
                ),
            ) / 256) as u8,
        ).update(
            3,
            (icmpv4_checksum(
                spec_echo_fields(
                    spec_echo_parts(*repr).0,
                    spec_echo_parts(*repr).1,
                    spec_echo_parts(*repr).2,
                    spec_echo_parts(*repr).3,
                    old(dst)@,
                ),
            ) % 256) as u8,
        ),
{
    repr.emit(&mut Icmpv4Packet::new_unchecked(dst), &ChecksumCapabilities::default())
}

fn icmp_bind(socket: &mut icmp::Socket<'_>, endpoint: icmp::Endpoint) -> (r: ICMPBindError)
    ensures
        r == ICMPBindError::OK || r == ICMPBindError::InvalidState || r
            == ICMPBindError::Unaddressable,
        spec_icmp_specified(endpoint) ==> r != ICMPBindError::Unaddressable,
        !spec_icmp_specified(endpoint) ==> r == ICMPBindError::OK || r
            == ICMPBindError::Unaddressable,
{
    let was_open = icmp_is_open(socket);
    let bound = if was_open {
        None
    } else {
        Some(icmp_socket_bind(socket, endpoint))
    };
    bind_outcome(was_open, bound)
}

/// Binds the socket to no endpoint at all unless it is bound already. The stack
/// refuses that endpoint, so on an unbound socket the result is
/// `Unaddressable`; on a bound one it is `OK`.
pub fn icmp_bind_any(socket: &mut icmp::Socket<'_>) -> (r: ICMPBindError)
    ensures
        r == ICMPBindError::OK || r == ICMPBindError::Unaddressable,
{
    icmp_bind(socket, icmp::Endpoint::Unspecified)
}

/// Binds the socket to echo messages with identifier `ident`, unless it is
/// bound already (then the result is `OK`).
pub fn icmp_bind_ident(socket: &mut icmp::Socket<'_>, ident: u16) -> (r: ICMPBindError)
    ensures
        r == ICMPBindError::OK || r == ICMPBindError::InvalidState,
{
    icmp_bind(socket, icmp::Endpoint::Ident(ident))
}

/// Binds the socket to ICMP errors about UDP traffic of `endpoint`, unless it
/// is bound already (then the result is `OK`). Port 0 names nothing and is
/// unaddressable on an unbound socket.
pub fn icmp_bind_udp(socket: &mut icmp::Socket<'_>, endpoint: CIPEndpoint) -> (r: ICMPBindError)
    ensures
        r == ICMPBindError::OK || r == ICMPBindError::InvalidState || r
            == ICMPBindError::Unaddressable,
        r == ICMPBindError::Unaddressable ==> endpoint.port == 0,
{
    let listen = IpListenEndpoint::from(endpoint);
    icmp_bind(socket, icmp::Endpoint::Udp(listen))
}

/// Queues `data` to be sent to `address`. An unspecified address is
/// unaddressable.
pub fn icmp_send(socket: &mut icmp::Socket<'_>, address: CAddress, data: &[u8]) -> (r:
    ICMPSendError)
    ensures
        spec_is_unspecified(spec_native_address(address.ip)) ==> r == ICMPSendError::Unaddressable,
{
    ICMPSendError::from(icmp_socket_send_slice(socket, data, IpAddress::from(address)))
}

/// Hands a received packet to the caller: when `dst` holds it, the packet is
/// copied to its front and `address` is set to the source; otherwise the result
/// is `BufferInsufficient` and neither is touched.
pub fn deliver_packet(data: &[u8], source: IpAddress, address: &mut CAddress, dst: &mut [u8]) -> (r:
    ResultCode)
    ensures
        data@.len() <= old(dst)@.len() ==> {
            &&& r == ResultCode::OK
            &&& *final(address) == <CAddress as FromSpec<IpAddress>>::from_spec(source)
            &&& final(dst)@ == data@ + old(dst)@.subrange(data@.len() as int, old(dst)@.len() as int)
        },
        data@.len() > old(dst)@.len() ==> {
            &&& r == ResultCode::BufferInsufficient
            &&& *final(address) == *old(address)
            &&& final(dst)@ == old(dst)@
        },
{
    let code = copy_payload(data, dst);
    if code == ResultCode::OK {
        *address = CAddress::from(source);
    }
    code
}

/// Takes the next packet into `dst` and its source into `address`.
///
/// `Exhausted` when no packet waits. When `dst` is shorter than the packet the
/// result is `BufferInsufficient`, nothing is copied and the packet is gone.
/// On any result but `OK`, `address` is left as it was.
pub fn icmp_receive(socket: &mut icmp::Socket<'_>, address: &mut CAddress, dst: &mut [u8]) -> (r:
    ResultCode)
    ensures
        r == ResultCode::OK || r == ResultCode::Exhausted || r == ResultCode::BufferInsufficient,
        r != ResultCode::OK ==> *final(address) == *old(address),
        r != ResultCode::OK ==> final(dst)@ == old(dst)@,
{
    match icmp_socket_recv(socket) {
        Ok((data, source)) => deliver_packet(data, source, address, dst),
        Err(e) => ICMPRecvError::from(e).result_code(),
    }
}

/// Builds an ICMPv4 echo message with `payload` into `dst`.
///
/// When `dst` is shorter than the message, nothing is written and the length
/// that the message needs is returned; otherwise the message is written to the
/// front of `dst` and 0 is returned.
pub fn build_icmpv4_echo_packet(
    tp: ICMPEchoPacketType,
    ident: u16,
    seq_no: u16,
    payload: &[u8],
    dst: &mut [u8],
) -> (r: u32)
    requires
        ICMPV4_ECHO_HEADER_LEN + payload@.len() <= u32::MAX,
    ensures
        final(dst)@.len() == old(dst)@.len(),
        old(dst)@.len() < ICMPV4_ECHO_HEADER_LEN + payload@.len() ==> r == ICMPV4_ECHO_HEADER_LEN
            + payload@.len() && final(dst)@ == old(dst)@,
        old(dst)@.len() >= ICMPV4_ECHO_HEADER_LEN + payload@.len() ==> r == 0 && final(dst)@
            == spec_echo_message(
            tp == ICMPEchoPacketType::EchoRequest,
            ident,
            seq_no,
            payload@,
            old(dst)@,
        ),
{
    let repr = match tp {
        ICMPEchoPacketType::EchoRequest => Icmpv4Repr::EchoRequest { ident, seq_no, data: payload },
        ICMPEchoPacketType::EchoReply => Icmpv4Repr::EchoReply { ident, seq_no, data: payload },
    };
    let needed_len = repr.buffer_len();
    if dst.len() < needed_len {
        needed_len as u32
    } else {
        icmpv4_emit(&repr, dst);
        0
    }
}

} // verus!
