use crate::address::{spec_is_unspecified, spec_native_address, CIPEndpoint};
use crate::result_codes::{TCPConnectError, TCPListenError, TCPRecvError, TCPSendError};
use smoltcp::iface::Context;
use smoltcp::socket::tcp;
use smoltcp::wire::{IpEndpoint, IpListenEndpoint};
use vstd::prelude::*;

verus! {

#[verifier::external_type_specification]
#[verifier::external_body]
pub struct ExTcpSocket<'a>(tcp::Socket<'a>);

#[verifier::external_type_specification]
#[verifier::external_body]
pub struct ExContext(Context);

/// Bytes of ring buffer that a new TCP socket gets in each direction.
pub const TCP_BUFFER_LEN: usize = 1024;

/// Relies on smoltcp's `tcp::Socket::connect`, which refuses a remote endpoint
/// with port 0 or an unspecified address, and local port 0, as unaddressable,
/// so a connection only starts towards an addressable endpoint.
#[verifier::external_body]
fn tcp_socket_connect(
    socket: &mut tcp::Socket<'_>,
    cx: &mut Context,
    remote: IpEndpoint,
    local_port: u16,
) -> (r: Result<(), tcp::ConnectError>)
    ensures
        r is Ok ==> remote.port != 0 && !spec_is_unspecified(remote.addr) && local_port != 0,
{
    socket.connect(cx, remote, local_port)
}

/// Relies on smoltcp's `tcp::Socket::send_slice`: it enqueues as much of `data`
/// as the transmit buffer has room for and returns how much that was.
#[verifier::external_body]
fn tcp_socket_send_slice(socket: &mut tcp::Socket<'_>, data: &[u8]) -> (r: Result<
    usize,
    tcp::SendError,
>)
    ensures
        r matches Ok(n) ==> n <= data@.len(),
{
    socket.send_slice(data)
}

/// Relies on smoltcp's `tcp::Socket::recv_slice`: it dequeues at most as many
/// octets as `dst` holds, copies them to its front and returns how many; the
/// rest of `dst` is not written, and on an error nothing is.
#[verifier::external_body]
fn tcp_socket_recv_slice(socket: &mut tcp::Socket<'_>, dst: &mut [u8]) -> (r: Result<
    usize,
    tcp::RecvError,
>)
    ensures
        final(dst)@.len() == old(dst)@.len(),
        r matches Ok(n) ==> n <= old(dst)@.len(),
        r matches Ok(n) ==> final(dst)@.subrange(n as int, old(dst)@.len() as int) == old(
            dst,
        )@.subrange(n as int, old(dst)@.len() as int),
        r is Err ==> final(dst)@ == old(dst)@,
{
    socket.recv_slice(dst)
}

/// Relies on smoltcp's `tcp::Socket::listen`, which refuses port 0 as
/// unaddressable before it looks at the socket's state.
#[verifier::external_body]
fn tcp_socket_listen(socket: &mut tcp::Socket<'_>, port: u16) -> (r: Result<(), tcp::ListenError>)
    ensures
        (r matches Err(tcp::ListenError::Unaddressable)) == (port == 0),
{
    socket.listen(IpListenEndpoint::from(port))
}

/// Starts connecting to `endpoint` from `local_port`. Success is only possible
/// towards a remote endpoint with a port and a specified address, from a local
/// port other than 0.
pub fn tcp_connect(
    socket: &mut tcp::Socket<'_>,
    cx: &mut Context,
    endpoint: CIPEndpoint,
    local_port: u16,
) -> (r: TCPConnectError)
    ensures
        r == TCPConnectError::OK ==> endpoint.port != 0 && !spec_is_unspecified(
            spec_native_address(endpoint.addr.ip),
        ) && local_port != 0,
{
    TCPConnectError::from(tcp_socket_connect(socket, cx, IpEndpoint::from(endpoint), local_port))
}

/// Queues as much of `data` as the socket has room for; returns how many
/// bytes that was.
pub fn tcp_send(socket: &mut tcp::Socket<'_>, data: &[u8]) -> (r: Result<usize, TCPSendError>)
    ensures
        r matches Ok(n) ==> n <= data@.len(),
        r matches Err(e) ==> e == TCPSendError::InvalidState,
{
    match tcp_socket_send_slice(socket, data) {
        Ok(n) => Ok(n),
        Err(e) => Err(TCPSendError::from(e)),
    }
}

/// Copies up to `dst.len()` received bytes to the front of `dst`; returns how
/// many. Received bytes that do not fit stay queued for the next call.
pub fn tcp_receive(socket: &mut tcp::Socket<'_>, dst: &mut [u8]) -> (r: Result<usize, TCPRecvError>)
    ensures
        final(dst)@.len() == old(dst)@.len(),
        r matches Ok(n) ==> n <= old(dst)@.len(),
        r matches Ok(n) ==> final(dst)@.subrange(n as int, old(dst)@.len() as int) == old(
            dst,
        )@.subrange(n as int, old(dst)@.len() as int),
        r matches Err(e) ==> (e == TCPRecvError::InvalidState || e == TCPRecvError::Finished)
            && final(dst)@ == old(dst)@,
{
    match tcp_socket_recv_slice(socket, dst) {
        Ok(n) => Ok(n),
        Err(e) => Err(TCPRecvError::from(e)),
    }
}

/// Listens on `port`. Port 0 is unaddressable.
pub fn tcp_listen(socket: &mut tcp::Socket<'_>, port: u16) -> (r: TCPListenError)
    ensures
        (r == TCPListenError::Unaddressable) == (port == 0),
{
    TCPListenError::from(tcp_socket_listen(socket, port))
}

} // verus!
