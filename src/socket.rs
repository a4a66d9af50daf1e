//! Per-protocol socket operations. Each one works on a socket of the stack that
//! the caller has looked up in its interface's socket set, and reports its
//! outcome in the result-code space of [`crate::result_codes`].
pub mod dns;
pub mod icmp;
pub mod tcp;
pub mod udp;

use crate::result_codes::ResultCode;
use vstd::prelude::*;

verus! {

/// Copies a received payload to the front of the caller's buffer.
///
/// The buffer's capacity is checked first: when it is shorter than the
/// payload nothing is copied and the result is `BufferInsufficient`; otherwise
/// the payload is copied and the rest of the buffer is left as it was.
pub fn copy_payload(src: &[u8], dst: &mut [u8]) -> (r: ResultCode)
    ensures
        src@.len() <= old(dst)@.len() ==> r == ResultCode::OK && final(dst)@ == src@ + old(
            dst,
        )@.subrange(src@.len() as int, old(dst)@.len() as int),
        src@.len() > old(dst)@.len() ==> r == ResultCode::BufferInsufficient && final(dst)@ == old(
            dst,
        )@,
{
    let n = src.len();
    if n > dst.len() {
        return ResultCode::BufferInsufficient;
    }
    let mut i: usize = 0;
    while i < n
        invariant
            0 <= i <= n,
            n == src@.len(),
            n <= dst@.len(),
            dst@.len() == old(dst)@.len(),
            forall|j: int| 0 <= j < i ==> dst@[j] == src@[j],
            forall|j: int| n <= j < dst@.len() ==> dst@[j] == old(dst)@[j],
        decreases n - i,
    {
        dst[i] = src[i];
        i = i + 1;
    }
    assert(dst@ =~= src@ + old(dst)@.subrange(n as int, old(dst)@.len() as int));
    ResultCode::OK
}

} // verus!
