use smoltcp::wire::Ipv4Packet;
use vstd::prelude::*;

verus! {

/// Length of an IPv4 header without options.
pub const IPV4_MIN_HEADER_LEN: usize = 20;

/// The header length that the IHL field of an IPv4 datagram gives, in bytes.
pub open spec fn spec_header_len(d: Seq<u8>) -> int {
    (d[0] % 16) * 4
}

/// The total length field of an IPv4 datagram.
pub open spec fn spec_total_len(d: Seq<u8>) -> int {
    d[2] * 256 + d[3]
}

/// An IPv4 datagram that can be cut into fragments of at most `mtu` bytes:
/// its header is complete, its total length lies within the buffer, and the
/// MTU leaves room for some payload after the header.
pub open spec fn fragmentable(d: Seq<u8>, mtu: usize) -> bool {
    &&& d.len() >= IPV4_MIN_HEADER_LEN
    &&& IPV4_MIN_HEADER_LEN <= spec_header_len(d) <= spec_total_len(d) <= d.len()
    &&& mtu > spec_header_len(d)
}

/// The payload of an IPv4 datagram: what lies between the header and the total
/// length.
pub open spec fn spec_payload(d: Seq<u8>) -> Seq<u8> {
    d.subrange(spec_header_len(d), spec_total_len(d))
}

/// Bytes of payload that each fragment carries.
pub open spec fn spec_chunk_len(d: Seq<u8>, mtu: usize) -> int {
    mtu - spec_header_len(d)
}

/// The `i`-th piece of `p` when it is cut into pieces of `cs` bytes; the last
/// piece may be shorter.
pub open spec fn spec_chunk(p: Seq<u8>, cs: int, i: int) -> Seq<u8> {
    let end = if (i + 1) * cs < p.len() {
        (i + 1) * cs
    } else {
        p.len() as int
    };
    p.subrange(i * cs, end)
}

/// How many pieces of `cs` bytes `len` bytes make.
pub open spec fn spec_fragment_count(len: int, cs: int) -> int {
    (len + cs - 1) / cs
}

/// A flag bit of a byte set or cleared.
pub open spec fn spec_with_bit(b: u8, mask: u8, value: bool) -> u8 {
    if value {
        b | mask
    } else {
        b & !mask
    }
}

/// The checksum that the stack computes for an IPv4 header whose checksum
/// field holds zero.
pub uninterp spec fn ipv4_header_checksum(header: Seq<u8>) -> u16;

/// A packet with its header checksum filled in over its first `hl` bytes.
pub open spec fn spec_with_checksum(p: Seq<u8>, hl: int) -> Seq<u8> {
    let c = ipv4_header_checksum(p.subrange(0, hl).update(10, 0).update(11, 0));
    p.update(10, (c / 256) as u8).update(11, (c % 256) as u8)
}

/// The `i`-th fragment of datagram `d` for MTU `mtu`: the original header
/// followed by the `i`-th piece of the payload, with "don't fragment" cleared,
/// "more fragments" set on all but the last fragment, and the header checksum
/// computed anew.
pub open spec fn spec_fragment(d: Seq<u8>, mtu: usize, i: int) -> Seq<u8> {
    let hl = spec_header_len(d);
    let p = spec_payload(d);
    let cs = spec_chunk_len(d, mtu);
    let raw = d.subrange(0, hl) + spec_chunk(p, cs, i);
    let more = (i + 1) * cs < p.len();
    let flagged = raw.update(6, spec_with_bit(spec_with_bit(raw[6], 0x40, false), 0x20, more));
    spec_with_checksum(flagged, hl)
}

/// Relies on smoltcp's `Ipv4Packet::header_len`: the low nibble of the first
/// byte times four.
#[verifier::external_body]
fn ipv4_header_len(data: &[u8]) -> (r: u8)
    requires
        data@.len() >= 1,
    ensures
        r == spec_header_len(data@),
{
    Ipv4Packet::new_unchecked(data).header_len()
}

/// Relies on smoltcp's `Ipv4Packet::payload`: the bytes from the header length
/// up to the total length; it panics when that range is not within the buffer.
#[verifier::external_body]
fn ipv4_payload(data: &[u8]) -> (r: &[u8])
    requires
        data@.len() >= 4,
        spec_header_len(data@) <= spec_total_len(data@) <= data@.len(),
    ensures
        r@ == data@.subrange(spec_header_len(data@), spec_total_len(data@)),
{
    Ipv4Packet::new_unchecked(data).payload()
}

/// Relies on smoltcp's `Ipv4Packet::set_dont_frag`: sets or clears bit 0x40 of
/// byte 6 and leaves every other byte as it was.
#[verifier::external_body]
fn ipv4_set_dont_frag(buf: &mut [u8], value: bool)
    requires
        old(buf)@.len() >= 8,
    ensures
        final(buf)@ == old(buf)@.update(6, spec_with_bit(old(buf)@[6], 0x40, value)),
{
    Ipv4Packet::new_unchecked(buf).set_dont_frag(value)
}

/// Relies on smoltcp's `Ipv4Packet::set_more_frags`: sets or clears bit 0x20 of
/// byte 6 and leaves every other byte as it was.
#[verifier::external_body]
fn ipv4_set_more_frags(buf: &mut [u8], value: bool)
    requires
        old(buf)@.len() >= 8,
    ensures
        final(buf)@ == old(buf)@.update(6, spec_with_bit(old(buf)@[6], 0x20, value)),
{
    Ipv4Packet::new_unchecked(buf).set_more_frags(value)
}

/// Relies on smoltcp's `Ipv4Packet::fill_checksum`: zeroes the checksum field,
/// computes the checksum over the header and stores it big-endian in bytes 10
/// and 11; every other byte stays as it was.
#[verifier::external_body]
fn ipv4_fill_checksum(buf: &mut [u8])
    requires
        12 <= spec_header_len(old(buf)@) <= old(buf)@.len(),
    ensures
        final(buf)@ == old(buf)@.update(
            10,
            (ipv4_header_checksum(
                old(buf)@.subrange(0, spec_header_len(old(buf)@)).update(10, 0).update(11, 0),
            ) / 256) as u8,
        ).update(
            11,
            (ipv4_header_checksum(
                old(buf)@.subrange(0, spec_header_len(old(buf)@)).update(10, 0).update(11, 0),
            ) % 256) as u8,
        ),
{
    Ipv4Packet::new_unchecked(buf).fill_checksum()
}

proof fn lemma_count(plen: int, cs: int, i: int)
    requires
        cs > 0,
        plen >= 0,
        i >= 0,
        i * cs >= plen,
        i == 0 || (i - 1) * cs < plen,
    ensures
        i == spec_fragment_count(plen, cs),
{
    let q = plen + cs - 1;
    if i == 0 {
        assert(plen == 0);
    } else {
        assert(i * cs == (i - 1) * cs + cs) by (nonlinear_arith);
    }
    assert(i * cs <= q < i * cs + cs);
    vstd::arithmetic::div_mod::lemma_fundamental_div_mod_converse(q, cs, i, q - i * cs);
}

/// Cuts an IPv4 datagram into fragments of at most `mtu` bytes.
///
/// Every fragment is the original header followed by the next piece of the
/// payload, in order of offset; "don't fragment" is cleared, "more fragments"
/// is set on all but the last fragment and the header checksum is computed
/// anew. An empty payload gives no fragment.
pub fn fragment_ipv4_packet(data: &mut [u8], mtu: usize) -> (r: Vec<Vec<u8>>)
    requires
        fragmentable(old(data)@, mtu),
    ensures
        final(data)@ == old(data)@,
        r@.len() == spec_fragment_count(
            spec_payload(old(data)@).len() as int,
            spec_chunk_len(old(data)@, mtu),
        ),
        forall|i: int| 0 <= i < r@.len() ==> #[trigger] r@[i]@ == spec_fragment(old(data)@, mtu, i),
{
    let d: &[u8] = data;
    let hl = ipv4_header_len(d) as usize;
    let payload = ipv4_payload(d);
    let cs = mtu - hl;
    let plen = payload.len();
    let ghost p = payload@;
    let mut result: Vec<Vec<u8>> = Vec::new();
    let mut start: usize = 0;
    let ghost mut i: int = 0;
    while start < plen
        invariant
            d@ == old(data)@,
            fragmentable(d@, mtu),
            hl == spec_header_len(d@),
            cs == mtu - hl,
            cs > 0,
            p == spec_payload(d@),
            payload@ == p,
            plen == p.len(),
            i >= 0,
            start <= plen,
            i * cs <= plen ==> start == i * cs,
            i * cs > plen ==> start == plen,
            i == 0 || (i - 1) * cs < plen,
            result@.len() == i,
            forall|k: int| 0 <= k < i ==> #[trigger] result@[k]@ == spec_fragment(d@, mtu, k),
        decreases plen - start,
    {
        proof {
            assert((i + 1) * cs == i * cs + cs) by (nonlinear_arith);
        }
        let end = if plen - start > cs {
            start + cs
        } else {
            plen
        };
        let mut frag: Vec<u8> = Vec::new();
        let mut j: usize = 0;
        while j < hl
            invariant
                j <= hl,
                hl <= d@.len(),
                frag@ == d@.subrange(0, j as int),
            decreases hl - j,
        {
            frag.push(d[j]);
            j = j + 1;
            assert(frag@ =~= d@.subrange(0, j as int));
        }
        let mut k: usize = start;
        while k < end
            invariant
                start <= k <= end,
                end <= plen,
                plen == payload@.len(),
                frag@ == d@.subrange(0, hl as int) + payload@.subrange(start as int, k as int),
            decreases end - k,
        {
            frag.push(payload[k]);
            k = k + 1;
            assert(frag@ =~= d@.subrange(0, hl as int) + payload@.subrange(start as int, k as int));
        }
        let ghost raw = frag@;
        assert(raw == d@.subrange(0, spec_header_len(d@)) + spec_chunk(p, cs as int, i));
        let more = end < plen;
        ipv4_set_dont_frag(frag.as_mut_slice(), false);
        ipv4_set_more_frags(frag.as_mut_slice(), more);
        let ghost flagged = frag@;
        assert(more == ((i + 1) * cs < p.len()));
        assert(flagged =~= raw.update(
            6,
            spec_with_bit(spec_with_bit(raw[6], 0x40, false), 0x20, (i + 1) * cs < p.len()),
        ));
        assert(flagged[0] == d@[0]);
        assert(spec_header_len(flagged) == hl);
        ipv4_fill_checksum(frag.as_mut_slice());
        assert(frag@ =~= spec_with_checksum(flagged, hl as int));
        assert(frag@ == spec_fragment(d@, mtu, i));
        result.push(frag);
        start = end;
        proof {
            i = i + 1;
        }
    }
    proof {
        lemma_count(plen as int, cs as int, i);
    }
    result
}

/// The payload parts (what follows the first `hl` bytes) of a run of
/// fragments, joined in order.
pub open spec fn spec_joined_payloads(frags: Seq<Seq<u8>>, hl: int) -> Seq<u8>
    decreases frags.len(),
{
    if frags.len() == 0 {
        Seq::empty()
    } else {
        spec_joined_payloads(frags.drop_last(), hl) + frags.last().subrange(
            hl,
            frags.last().len() as int,
        )
    }
}

proof fn lemma_count_bounds(plen: int, cs: int)
    requires
        plen >= 0,
        cs > 0,
    ensures
        spec_fragment_count(plen, cs) >= 0,
        spec_fragment_count(plen, cs) * cs >= plen,
        spec_fragment_count(plen, cs) == 0 || (spec_fragment_count(plen, cs) - 1) * cs < plen,
{
    let q = plen + cs - 1;
    let n = spec_fragment_count(plen, cs);
    vstd::arithmetic::div_mod::lemma_fundamental_div_mod(q, cs);
    assert(q == cs * n + q % cs);
    assert(0 <= q % cs < cs) by {
        vstd::arithmetic::div_mod::lemma_mod_bound(q, cs);
    }
    assert(n * cs == cs * n) by (nonlinear_arith);
    assert((n - 1) * cs == n * cs - cs) by (nonlinear_arith);
    assert(n >= 0) by {
        vstd::arithmetic::div_mod::lemma_div_pos_is_pos(q, cs);
    }
}

proof fn lemma_fragment_payload(d: Seq<u8>, mtu: usize, i: int)
    requires
        fragmentable(d, mtu),
        0 <= i,
        i * spec_chunk_len(d, mtu) < spec_payload(d).len(),
    ensures
        spec_fragment(d, mtu, i).subrange(
            spec_header_len(d),
            spec_fragment(d, mtu, i).len() as int,
        ) == spec_chunk(spec_payload(d), spec_chunk_len(d, mtu), i),
{
    let hl = spec_header_len(d);
    let p = spec_payload(d);
    let cs = spec_chunk_len(d, mtu);
    let f = spec_fragment(d, mtu, i);
    let c = spec_chunk(p, cs, i);
    assert((i + 1) * cs == i * cs + cs) by (nonlinear_arith);
    assert(f.len() == hl + c.len());
    assert(f.subrange(hl, f.len() as int) =~= c);
}

proof fn lemma_joined_prefix(d: Seq<u8>, mtu: usize, frags: Seq<Seq<u8>>, k: int)
    requires
        fragmentable(d, mtu),
        frags.len() == spec_fragment_count(spec_payload(d).len() as int, spec_chunk_len(d, mtu)),
        forall|i: int| 0 <= i < frags.len() ==> #[trigger] frags[i] == spec_fragment(d, mtu, i),
        0 <= k <= frags.len(),
    ensures
        spec_joined_payloads(frags.take(k), spec_header_len(d)) == spec_payload(d).subrange(
            0,
            if k * spec_chunk_len(d, mtu) < spec_payload(d).len() {
                k * spec_chunk_len(d, mtu)
            } else {
                spec_payload(d).len() as int
            },
        ),
    decreases k,
{
    let hl = spec_header_len(d);
    let p = spec_payload(d);
    let cs = spec_chunk_len(d, mtu);
    let n = frags.len() as int;
    lemma_count_bounds(p.len() as int, cs);
    if k == 0 {
        assert(frags.take(0) =~= Seq::<Seq<u8>>::empty());
        assert(p.subrange(0, 0) =~= Seq::<u8>::empty());
        assert(k * cs == 0) by (nonlinear_arith)
            requires
                k == 0,
        ;
        assert(spec_joined_payloads(frags.take(0), hl) == Seq::<u8>::empty());
    } else {
        let j = k - 1;
        lemma_joined_prefix(d, mtu, frags, j);
        assert(j * cs <= (n - 1) * cs) by (nonlinear_arith)
            requires
                0 <= j <= n - 1,
                cs > 0,
        ;
        assert(j * cs < p.len());
        assert(k * cs == j * cs + cs) by (nonlinear_arith)
            requires
                k == j + 1,
        ;
        lemma_fragment_payload(d, mtu, j);
        assert(frags.take(k).drop_last() =~= frags.take(j));
        assert(frags.take(k).last() == frags[j]);
        let end = if k * cs < p.len() {
            k * cs
        } else {
            p.len() as int
        };
        assert(spec_chunk(p, cs, j) == p.subrange(j * cs, end));
        assert(p.subrange(0, j * cs) + p.subrange(j * cs, end) =~= p.subrange(0, end));
        let tk = frags.take(k);
        assert(spec_joined_payloads(tk, hl) == spec_joined_payloads(tk.drop_last(), hl)
            + tk.last().subrange(hl, tk.last().len() as int));
        assert(spec_joined_payloads(tk.drop_last(), hl) == p.subrange(0, j * cs));
        assert(tk.last().subrange(hl, tk.last().len() as int) == spec_chunk(p, cs, j));
    }
}

/// Joining the payload parts of all fragments, in the order they come out,
/// gives back the payload of the datagram that was cut.
pub proof fn lemma_fragments_reassemble(d: Seq<u8>, mtu: usize, frags: Seq<Seq<u8>>)
    requires
        fragmentable(d, mtu),
        frags.len() == spec_fragment_count(spec_payload(d).len() as int, spec_chunk_len(d, mtu)),
        forall|i: int| 0 <= i < frags.len() ==> #[trigger] frags[i] == spec_fragment(d, mtu, i),
    ensures
        spec_joined_payloads(frags, spec_header_len(d)) == spec_payload(d),
{
    let p = spec_payload(d);
    let cs = spec_chunk_len(d, mtu);
    lemma_count_bounds(p.len() as int, cs);
    lemma_joined_prefix(d, mtu, frags, frags.len() as int);
    assert(frags.take(frags.len() as int) =~= frags);
    assert(p.subrange(0, p.len() as int) =~= p);
}

/// Of the fragments of a datagram, every one but the last has "more
/// fragments" set, the last has it clear, and none has "don't fragment" set.
pub proof fn lemma_fragment_flags(d: Seq<u8>, mtu: usize, i: int)
    requires
        fragmentable(d, mtu),
        0 <= i < spec_fragment_count(spec_payload(d).len() as int, spec_chunk_len(d, mtu)),
    ensures
        (spec_fragment(d, mtu, i)[6] & 0x20 != 0) == (i + 1 < spec_fragment_count(
            spec_payload(d).len() as int,
            spec_chunk_len(d, mtu),
        )),
        spec_fragment(d, mtu, i)[6] & 0x40 == 0,
{
    let hl = spec_header_len(d);
    let p = spec_payload(d);
    let cs = spec_chunk_len(d, mtu);
    let n = spec_fragment_count(p.len() as int, cs);
    lemma_count_bounds(p.len() as int, cs);
    let more = (i + 1) * cs < p.len();
    if i + 1 < n {
        assert((i + 1) * cs <= (n - 1) * cs) by (nonlinear_arith)
            requires
                i + 1 <= n - 1,
                cs > 0,
        ;
    } else {
        assert(i + 1 == n);
    }
    assert(more == (i + 1 < n));
    let raw = d.subrange(0, hl) + spec_chunk(p, cs, i);
    let b = raw[6];
    let f = spec_fragment(d, mtu, i);
    assert(f[6] == spec_with_bit(spec_with_bit(b, 0x40, false), 0x20, more));
    if more {
        assert(((b & !0x40u8) | 0x20u8) & 0x20u8 != 0 && ((b & !0x40u8) | 0x20u8) & 0x40u8 == 0)
            by (bit_vector);
    } else {
        assert(((b & !0x40u8) & !0x20u8) & 0x20u8 == 0 && ((b & !0x40u8) & !0x20u8) & 0x40u8 == 0)
            by (bit_vector);
    }
}

} // verus!
