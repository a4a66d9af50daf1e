use crate::address::{spec_native_address, spec_is_unspecified, CIPEndpoint};
use crate::result_codes::{ResultCode, UDPBindError, UDPRecvError, UDPSendError};
use crate::socket::copy_payload;
use smoltcp::socket::udp;
use smoltcp::wire::{IpEndpoint, IpListenEndpoint};
use vstd::prelude::*;
use vstd::std_specs::convert::FromSpec;

verus! {

#[verifier::external_type_specification]
#[verifier::external_body]
pub struct ExUdpSocket<'a>(udp::Socket<'a>);

/// Bytes of payload buffer that a new UDP socket gets in each direction.
pub const UDP_BUFFER_LEN: usize = 65535;

/// Relies on smoltcp's `udp::Socket::is_open`: whether the socket is bound.
#[verifier::external_body]
fn udp_is_open(socket: &udp::Socket<'_>) -> (r: bool) {
    socket.is_open()
}

/// Relies on smoltcp's `udp::Socket::bind`, which refuses port 0 as
/// unaddressable before it looks at the socket's state.
#[verifier::external_body]
fn udp_socket_bind(socket: &mut udp::Socket<'_>, port: u16) -> (r: Result<(), udp::BindError>)
    ensures
        (r matches Err(udp::BindError::Unaddressable)) == (port == 0),
{
    socket.bind(IpListenEndpoint::from(port))
}

/// Relies on smoltcp's `udp::Socket::peek`: the length of the next datagram,
/// which stays queued.
#[verifier::external_body]
fn udp_socket_peek_len(socket: &mut udp::Socket<'_>) -> (r: Result<usize, udp::RecvError>) {
    socket.peek().map(|(data, _)| data.len())
}

/// Relies on smoltcp's `udp::Socket::recv`: takes the next datagram and the
/// endpoint it came from.
#[verifier::external_body]
fn udp_socket_recv<'b>(socket: &'b mut udp::Socket<'_>) -> (r: Result<
    (&'b [u8], IpEndpoint),
    udp::RecvError,
>) {
    socket.recv()
}

/// Relies on smoltcp's `udp::Socket::send_slice`, which refuses a remote
/// endpoint with port 0 or an unspecified address as unaddressable.
#[verifier::external_body]
fn udp_socket_send_slice(socket: &mut udp::Socket<'_>, data: &[u8], remote: IpEndpoint) -> (r:
    Result<(), udp::SendError>)
    ensures
        remote.port == 0 || spec_is_unspecified(remote.addr) ==> r matches Err(
            udp::SendError::Unaddressable,
        ),
{
    socket.send_slice(data, remote)
}

/// The outcome of a bind that is skipped on a socket that is bound already:
/// `OK` when no bind was made, otherwise what the bind returned.
pub fn bind_outcome(was_open: bool, bound: Option<Result<(), udp::BindError>>) -> (r: UDPBindError)
    requires
        was_open == (bound is None),
    ensures
        r == (match bound {
            None => UDPBindError::OK,
            Some(res) => UDPBindError::spec_from_result(res),
        }),
{
    match bound {
        None => UDPBindError::OK,
        Some(res) => UDPBindError::from(res),
    }
}

/// Binds the socket to `port` unless it is bound already, in which case
/// nothing changes and the result is `OK`. Port 0 on an unbound socket is
/// unaddressable.
pub fn udp_bind(socket: &mut udp::Socket<'_>, port: u16) -> (r: UDPBindError)
    ensures
        r == UDPBindError::OK || r == UDPBindError::InvalidState || r == UDPBindError::Unaddressable,
        r == UDPBindError::Unaddressable ==> port == 0,
{
    let was_open = udp_is_open(socket);
    let bound = if was_open {
        None
    } else {
        Some(udp_socket_bind(socket, port))
    };
    bind_outcome(was_open, bound)
}

/// What a peek at the receive queue decides before anything is taken:
/// `None` when the next datagram fits a buffer of `dst_len` bytes; otherwise
/// the result to report, `BufferInsufficient` for a datagram that does not fit
/// or the stack's error (`Exhausted` when nothing waits).
pub fn check_peeked(peeked: Result<usize, udp::RecvError>, dst_len: usize) -> (r: Option<ResultCode>)
    ensures
        r == (match peeked {
            Ok(len) => if len > dst_len {
                Some(ResultCode::BufferInsufficient)
            } else {
                None
            },
            Err(e) => Some(UDPRecvError::spec_from_error(e).spec_result_code()),
        }),
{
    match peeked {
        Ok(len) => {
            if len > dst_len {
                Some(ResultCode::BufferInsufficient)
            } else {
                None
            }
        },
        Err(e) => Some(UDPRecvError::from(e).result_code()),
    }
}

/// The size to report for what a peek at the receive queue found: the
/// datagram's length (at most `u32::MAX`), or 0 when nothing waits.
pub fn received_size(peeked: Result<usize, udp::RecvError>) -> (r: u32)
    ensures
        r == (match peeked {
            Ok(len) => if len > u32::MAX {
                u32::MAX as int
            } else {
                len as int
            },
            Err(_) => 0,
        }),
{
    match peeked {
        Ok(len) => {
            if len > u32::MAX as usize {
                u32::MAX
            } else {
                len as u32
            }
        },
        Err(_) => 0,
    }
}

/// The length of the next datagram waiting on the socket, or 0 when none waits.
pub fn udp_get_last_received_packet_size(socket: &mut udp::Socket<'_>) -> (r: u32) {
    received_size(udp_socket_peek_len(socket))
}

/// Hands a received datagram to the caller: when `dst` holds it, the datagram
/// is copied to its front and `endpoint` is set to the source; otherwise the
/// result is `BufferInsufficient` and neither is touched.
pub fn deliver_datagram(data: &[u8], source: IpEndpoint, endpoint: &mut CIPEndpoint, dst: &mut [u8]) -> (r:
    ResultCode)
    ensures
        data@.len() <= old(dst)@.len() ==> {
            &&& r == ResultCode::OK
            &&& *final(endpoint) == <CIPEndpoint as FromSpec<IpEndpoint>>::from_spec(source)
            &&& final(dst)@ == data@ + old(dst)@.subrange(data@.len() as int, old(dst)@.len() as int)
        },
        data@.len() > old(dst)@.len() ==> {
            &&& r == ResultCode::BufferInsufficient
            &&& *final(endpoint) == *old(endpoint)
            &&& final(dst)@ == old(dst)@
        },
{
    let code = copy_payload(data, dst);
    if code == ResultCode::OK {
        *endpoint = CIPEndpoint::from(source);
    }
    code
}

/// Takes the next datagram into `dst` and its source into `endpoint`.
///
/// `Exhausted` when no datagram waits. When `dst` is shorter than the next
/// datagram the result is `BufferInsufficient` and the datagram stays queued.
/// On any result but `OK`, `endpoint` is left as it was.
pub fn udp_receive(socket: &mut udp::Socket<'_>, endpoint: &mut CIPEndpoint, dst: &mut [u8]) -> (r:
    ResultCode)
    ensures
        r == ResultCode::OK || r == ResultCode::Exhausted || r == ResultCode::BufferInsufficient,
        r != ResultCode::OK ==> *final(endpoint) == *old(endpoint),
        r != ResultCode::OK ==> final(dst)@ == old(dst)@,
{
    if let Some(code) = check_peeked(udp_socket_peek_len(socket), dst.len()) {
        return code;
    }
    match udp_socket_recv(socket) {
        Ok((data, source)) => deliver_datagram(data, source, endpoint, dst),
        Err(e) => UDPRecvError::from(e).result_code(),
    }
}

/// Queues `data` to be sent to `endpoint`. An endpoint with port 0 or an
/// unspecified address is unaddressable.
pub fn udp_send(socket: &mut udp::Socket<'_>, endpoint: CIPEndpoint, data: &[u8]) -> (r:
    UDPSendError)
    ensures
        endpoint.port == 0 || spec_is_unspecified(spec_native_address(endpoint.addr.ip)) ==> r
            == UDPSendError::Unaddressable,
{
    let remote: IpEndpoint = IpEndpoint::from(endpoint);
    UDPSendError::from(udp_socket_send_slice(socket, data, remote))
}

} // verus!
