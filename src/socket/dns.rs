use crate::result_codes::DNSStartQueryError;
use smoltcp::iface::Context;
use smoltcp::socket::dns;
use smoltcp::wire::DnsQueryType;
use vstd::prelude::*;

verus! {

#[verifier::external_type_specification]
#[verifier::external_body]
pub struct ExDnsSocket<'a>(dns::Socket<'a>);

#[verifier::external_type_specification]
#[verifier::external_body]
pub struct ExDnsQueryHandle(dns::QueryHandle);

/// The text that bytes spell when they are valid UTF-8, or `None`.
pub uninterp spec fn utf8_text(bytes: Seq<u8>) -> Option<Seq<char>>;

/// Relies on std's `String::from_utf8`: the text when the bytes are valid
/// UTF-8 (no bytes are the empty text), and an error otherwise.
#[verifier::external_body]
fn decode_utf8(bytes: &[u8]) -> (r: Option<String>)
    ensures
        r matches Some(s) ==> utf8_text(bytes@) == Some(s@),
        r is None ==> utf8_text(bytes@) is None,
        bytes@.len() == 0 ==> r is Some,
        r matches Some(s) ==> (bytes@.len() == 0 ==> s@.len() == 0),
{
    String::from_utf8(bytes.to_vec()).ok()
}

/// Relies on smoltcp's `dns::Socket::start_query`, which refuses an empty name
/// as invalid.
#[verifier::external_body]
fn dns_socket_start_query(socket: &mut dns::Socket<'_>, cx: &mut Context, name: &str) -> (r:
    Result<dns::QueryHandle, dns::StartQueryError>)
    ensures
        name@.len() == 0 ==> r matches Err(dns::StartQueryError::InvalidName),
{
    socket.start_query(cx, name, DnsQueryType::A)
}

/// Starts an A-record query for `name`. Bytes that are not UTF-8, and the
/// empty name, are an invalid name.
pub fn dns_start_query(socket: &mut dns::Socket<'_>, cx: &mut Context, name: &[u8]) -> (r: Result<
    dns::QueryHandle,
    DNSStartQueryError,
>)
    ensures
        utf8_text(name@) is None ==> r matches Err(DNSStartQueryError::InvalidName),
        name@.len() == 0 ==> r matches Err(DNSStartQueryError::InvalidName),
        r matches Err(e) ==> e != DNSStartQueryError::OK,
{
    match decode_utf8(name) {
        Some(text) => match dns_socket_start_query(socket, cx, text.as_str()) {
            Ok(query) => Ok(query),
            Err(e) => Err(DNSStartQueryError::from(e)),
        },
        None => Err(DNSStartQueryError::InvalidName),
    }
}

} // verus!
