use crate::result_codes::ResultCode;
use smoltcp::phy::Medium;
use smoltcp::wire::EthernetFrame;
use std::collections::VecDeque;
use vstd::prelude::*;

verus! {

#[verifier::external_type_specification]
pub struct ExMedium(Medium);

/// Length of the Ethernet link header, in bytes.
pub open spec fn ethernet_header_len() -> nat {
    14
}

/// Relies on smoltcp's `EthernetFrame::header_len`: the fixed length of an
/// Ethernet header (destination, source, EtherType).
pub assume_specification<T: AsRef<[u8]>>[ EthernetFrame::<T>::header_len ]() -> (r: usize)
    ensures
        r == ethernet_header_len(),
;

/// A queue of frames, oldest first.
pub type SansIOQueue = VecDeque<Vec<u8>>;

/// The device-level MTU for an IP-level MTU: an Ethernet device counts its
/// link header too.
pub open spec fn spec_device_mtu(mtu: usize, medium: Medium) -> int {
    if medium == Medium::Ethernet {
        mtu + ethernet_header_len()
    } else {
        mtu as int
    }
}

/// A device that does no I/O of its own: the host puts received frames into
/// its receive queue and takes frames to send out of its transmit queue.
///
/// Both queues are first in, first out: frames are added at the back and taken
/// from the front, so the stack sees received frames in the order the host gave
/// them, and the host sees transmitted frames in the order the stack made them.
#[derive(Debug)]
pub struct SansIO {
    medium: Medium,
    mtu: usize,
    tx: SansIOQueue,
    rx: SansIOQueue,
}

/// A received frame, handed to the stack.
#[derive(Debug)]
pub struct RxToken {
    buffer: Vec<u8>,
}

impl View for RxToken {
    type V = Seq<u8>;

    closed spec fn view(&self) -> Seq<u8> {
        self.buffer@
    }
}

impl RxToken {
    /// The frame that this token carries.
    pub fn into_buffer(self) -> (r: Vec<u8>)
        ensures
            r@ == self@,
    {
        self.buffer
    }
}

impl SansIO {
    pub closed spec fn spec_medium(&self) -> Medium {
        self.medium
    }

    pub closed spec fn spec_mtu(&self) -> usize {
        self.mtu
    }

    /// The frames that wait for the host, oldest first.
    pub closed spec fn spec_tx(&self) -> Seq<Vec<u8>> {
        self.tx@
    }

    /// The frames that wait for the stack, oldest first.
    pub closed spec fn spec_rx(&self) -> Seq<Vec<u8>> {
        self.rx@
    }

    /// A device for the given IP-level MTU and medium. For Ethernet the length
    /// of the Ethernet header is added, as the stack counts whole frames.
    pub fn new(mtu: usize, medium: Medium) -> (r: SansIO)
        requires
            spec_device_mtu(mtu, medium) <= usize::MAX,
        ensures
            r.spec_mtu() == spec_device_mtu(mtu, medium),
            r.spec_medium() == medium,
            r.spec_tx().len() == 0,
            r.spec_rx().len() == 0,
    {
        let mut mtu = mtu;
        if matches!(medium, Medium::Ethernet) {
            mtu = mtu + EthernetFrame::<&[u8]>::header_len();
        }
        SansIO { medium, mtu, tx: VecDeque::new(), rx: VecDeque::new() }
    }

    /// The device-level MTU.
    pub fn mtu(&self) -> (r: usize)
        ensures
            r == self.spec_mtu(),
    {
        self.mtu
    }

    /// The link medium.
    pub fn medium(&self) -> (r: Medium)
        ensures
            r == self.spec_medium(),
    {
        self.medium
    }

    /// Adds a frame from the host at the back of the receive queue.
    pub fn put_rx_packet(&mut self, frame: Vec<u8>)
        ensures
            final(self).spec_rx() == old(self).spec_rx().push(frame),
            final(self).spec_tx() == old(self).spec_tx(),
            final(self).spec_mtu() == old(self).spec_mtu(),
            final(self).spec_medium() == old(self).spec_medium(),
    {
        self.rx.push_back(frame);
    }

    /// Takes the oldest received frame, if there is one.
    pub fn receive(&mut self) -> (r: Option<RxToken>)
        ensures
            match r {
                Some(t) => {
                    &&& old(self).spec_rx().len() > 0
                    &&& t@ == old(self).spec_rx()[0]@
                    &&& final(self).spec_rx() == old(self).spec_rx().drop_first()
                },
                None => {
                    &&& old(self).spec_rx().len() == 0
                    &&& final(self).spec_rx() == old(self).spec_rx()
                },
            },
            final(self).spec_tx() == old(self).spec_tx(),
            final(self).spec_mtu() == old(self).spec_mtu(),
            final(self).spec_medium() == old(self).spec_medium(),
    {
        match self.rx.pop_front() {
            Some(el) => {
                assert(self.spec_rx() =~= old(self).spec_rx().drop_first());
                Some(RxToken { buffer: el })
            },
            None => None,
        }
    }

    /// A zeroed buffer of `len` bytes for the stack to fill with a frame.
    pub fn transmit_buffer(len: usize) -> (r: Vec<u8>)
        ensures
            r@.len() == len,
            forall|i: int| 0 <= i < len ==> r@[i] == 0,
    {
        vec![0u8; len]
    }

    /// Adds a frame that the stack has filled at the back of the transmit queue.
    /// The whole buffer is kept, as long as the stack asked for.
    pub fn push_tx_packet(&mut self, frame: Vec<u8>)
        ensures
            final(self).spec_tx() == old(self).spec_tx().push(frame),
            final(self).spec_rx() == old(self).spec_rx(),
            final(self).spec_mtu() == old(self).spec_mtu(),
            final(self).spec_medium() == old(self).spec_medium(),
    {
        self.tx.push_back(frame);
    }

    /// How many frames wait for the host.
    pub fn tx_count(&self) -> (r: usize)
        ensures
            r == self.spec_tx().len(),
    {
        self.tx.len()
    }

    /// The length of the frame that the host would take next, or 0 when none
    /// waits.
    pub fn next_tx_packet_size(&self) -> (r: usize)
        ensures
            r == (if self.spec_tx().len() == 0 {
                0
            } else {
                self.spec_tx()[0]@.len()
            }),
    {
        if self.tx.len() == 0 {
            0
        } else {
            self.tx[0].len()
        }
    }

    /// Moves the oldest frame to send into `dst` and returns its length.
    ///
    /// Returns `Ok(0)` when no frame waits. When `dst` is shorter than the frame,
    /// nothing is copied, the frame stays queued and the result is
    /// `Err(BufferInsufficient)`.
    pub fn pop_tx_packet(&mut self, dst: &mut [u8]) -> (r: Result<usize, ResultCode>)
        ensures
            old(self).spec_tx().len() == 0 ==> r == Ok::<usize, ResultCode>(0) && final(self).spec_tx()
                == old(self).spec_tx() && final(dst)@ == old(dst)@,
            old(self).spec_tx().len() > 0 && old(dst)@.len() < old(self).spec_tx()[0]@.len() ==> r == Err::<
                usize,
                ResultCode,
            >(ResultCode::BufferInsufficient) && final(self).spec_tx() == old(self).spec_tx() && final(dst)@
                == old(dst)@,
            old(self).spec_tx().len() > 0 && old(self).spec_tx()[0]@.len() <= old(dst)@.len() ==> {
                let p = old(self).spec_tx()[0]@;
                &&& r == Ok::<usize, ResultCode>(p.len() as usize)
                &&& final(self).spec_tx() == old(self).spec_tx().drop_first()
                &&& final(dst)@ == p + old(dst)@.subrange(p.len() as int, old(dst)@.len() as int)
            },
            final(self).spec_rx() == old(self).spec_rx(),
            final(self).spec_mtu() == old(self).spec_mtu(),
            final(self).spec_medium() == old(self).spec_medium(),
    {
        if self.tx.len() == 0 {
            return Ok(0);
        }
        if dst.len() < self.tx[0].len() {
            return Err(ResultCode::BufferInsufficient);
        }
        let packet = match self.tx.pop_front() {
            Some(p) => p,
            None => {
                return Ok(0);
            },
        };
        assert(self.spec_tx() =~= old(self).spec_tx().drop_first());
        let n = packet.len();
        let mut i: usize = 0;
        while i < n
            invariant
                0 <= i <= n,
                n == packet@.len(),
                n <= dst@.len(),
                dst@.len() == old(dst)@.len(),
                forall|j: int| 0 <= j < i ==> dst@[j] == packet@[j],
                forall|j: int| n <= j < dst@.len() ==> dst@[j] == old(dst)@[j],
            decreases n - i,
        {
            dst[i] = packet[i];
            i = i + 1;
        }
        assert(dst@ =~= packet@ + old(dst)@.subrange(n as int, old(dst)@.len() as int));
        Ok(n)
    }
}

/// Frames given to the device come out of it in the same order: after `first`
/// and then `second` are put into an empty receive queue, the first frame
/// received is `first` and the next one is `second`.
pub proof fn lemma_rx_fifo(q: Seq<Vec<u8>>, first: Vec<u8>, second: Vec<u8>)
    requires
        q.len() == 0,
    ensures
        q.push(first).push(second)[0] == first,
        q.push(first).push(second).drop_first()[0] == second,
        q.push(first).push(second).drop_first().drop_first().len() == 0,
{
}

/// Putting a frame into a non-empty receive queue does not change which frame
/// is received next.
pub proof fn lemma_rx_put_keeps_front(q: Seq<Vec<u8>>, frame: Vec<u8>)
    requires
        q.len() > 0,
    ensures
        q.push(frame)[0] == q[0],
        q.push(frame).drop_first() == q.drop_first().push(frame),
{
    assert(q.push(frame).drop_first() =~= q.drop_first().push(frame));
}

} // verus!
