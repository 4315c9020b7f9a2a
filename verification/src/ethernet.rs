//! Ethernet DMA descriptor rings and link bring-up logic.
//!
//! Each ring is a fixed-capacity circular array of hardware-layout
//! descriptors, one per buffer slot. The top bit of the first descriptor
//! word is the ownership bit: clear means software may use the slot,
//! set means it is with the DMA engine. Acquiring a slot through `next`
//! hands it to the engine and advances the ring index; `release` models the
//! engine returning a slot to software. The ownership bit is the single
//! source of truth for who may touch a buffer.

use vstd::prelude::*;
use vstd::pervasive::VecAdditionalExecFns;

verus! {

/// Address of the PHY on the station management bus.
pub const ETH_PHY_ADDR: u8 = 1;

/// Bytes in each descriptor's buffer.
pub const ETH_BUF_SIZE: usize = 1536;

/// Transmit descriptors in the transmit ring.
pub const ETH_NUM_TD: usize = 4;

/// Receive descriptors in the receive ring.
pub const ETH_NUM_RD: usize = 4;

/// The descriptor ownership bit: set when the DMA engine holds the slot.
pub const DES_OWN: u32 = 0x8000_0000;

/// One acquisition attempt on a ring: the availability of each slot and the
/// current index before the attempt determine the state after it and
/// whether a slot was handed out.
pub open spec fn ring_step(avail: Seq<bool>, idx: int) -> (Seq<bool>, int, bool) {
    if avail[idx] {
        (
            avail.update(idx, false),
            if idx + 1 == avail.len() {
                0int
            } else {
                idx + 1
            },
            true,
        )
    } else {
        (avail, idx, false)
    }
}

/// The ring state after `k` acquisition attempts, with the number of
/// attempts that handed a slot out.
pub open spec fn ring_run(avail: Seq<bool>, idx: int, k: nat) -> (Seq<bool>, int, nat)
    decreases k,
{
    if k == 0 {
        (avail, idx, 0nat)
    } else {
        let prev = ring_run(avail, idx, (k - 1) as nat);
        let st = ring_step(prev.0, prev.1);
        (st.0, st.1, (prev.2 + if st.2 {
            1int
        } else {
            0int
        }) as nat)
    }
}

/// A ring of `n` slots, all available to software.
pub open spec fn all_free(n: int) -> Seq<bool> {
    Seq::new(n as nat, |i: int| true)
}

/// On a fresh ring of capacity `n`, the first `k <= n` acquisition attempts
/// each hand a slot out: after them exactly the first `k` slots are with
/// the engine, the index stands at `k` (wrapped to `0` when `k == n`), and
/// `k` slots were handed out in total.
pub proof fn lemma_ring_yields_some_n_times(n: int, k: int)
    requires
        1 <= n,
        0 <= k <= n,
    ensures
        ({
            let r = ring_run(all_free(n), 0, k as nat);
            r.0 =~= Seq::new(n as nat, |j: int| k <= j) && r.1 == (if k == n {
                0int
            } else {
                k
            }) && r.2 == k
        }),
    decreases k,
{
    if k > 0 {
        lemma_ring_yields_some_n_times(n, k - 1);
        let prev = ring_run(all_free(n), 0, (k - 1) as nat);
        assert(prev.0[k - 1]);
        assert(ring_step(prev.0, prev.1).0 =~= Seq::new(n as nat, |j: int| k <= j));
    }
}

/// After a fresh ring of capacity `n` has handed out all `n` slots, the
/// next acquisition attempt hands nothing out.
pub proof fn lemma_ring_exhausted_then_none(n: int)
    requires
        1 <= n,
    ensures
        ({
            let r = ring_run(all_free(n), 0, n as nat);
            !ring_step(r.0, r.1).2
        }),
{
    lemma_ring_yields_some_n_times(n, n);
}

/// Once the engine returns the slot at the ring's current index, the next
/// acquisition attempt hands a slot out again.
pub proof fn lemma_ring_release_then_some(avail: Seq<bool>, idx: int)
    requires
        0 <= idx < avail.len(),
    ensures
        ring_step(avail.update(idx, true), idx).2,
{
}

/// Transmit descriptor, in hardware layout: ownership and settings, buffer
/// length, buffer reference, and an unused fourth word.
#[derive(Clone, Copy)]
pub struct TDes {
    pub tdes0: u32,
    pub tdes1: u32,
    pub tdes2: u32,
    pub tdes3: u32,
}

impl TDes {
    /// Whether software may use this descriptor: the ownership bit is clear.
    pub open spec fn spec_available(self) -> bool {
        self.tdes0 & DES_OWN == 0
    }

    /// Wire this descriptor to its buffer slot, with first-segment and
    /// last-segment set: each descriptor carries a single full frame. The
    /// descriptor starts owned by software.
    pub fn init(&mut self, buf_index: u32)
        ensures
            final(self).tdes0 == 0x3000_0000u32,
            final(self).tdes1 == old(self).tdes1,
            final(self).tdes2 == buf_index,
            final(self).tdes3 == 0,
            final(self).spec_available(),
    {
        self.tdes0 = 0x3000_0000;
        self.tdes2 = buf_index;
        self.tdes3 = 0;
        proof {
            assert(0x3000_0000u32 & 0x8000_0000u32 == 0) by (bit_vector);
        }
    }

    /// Mark this descriptor as the last of the ring.
    pub fn set_end_of_ring(&mut self)
        ensures
            final(self).tdes0 == old(self).tdes0 | 0x0020_0000u32,
            final(self).tdes1 == old(self).tdes1,
            final(self).tdes2 == old(self).tdes2,
            final(self).tdes3 == old(self).tdes3,
            final(self).spec_available() == old(self).spec_available(),
    {
        let ghost x = self.tdes0;
        self.tdes0 = self.tdes0 | 0x0020_0000;
        proof {
            assert((x | 0x0020_0000u32) & 0x8000_0000u32 == x & 0x8000_0000u32) by (bit_vector);
        }
    }

    /// Whether software may use this descriptor.
    pub fn available(&self) -> (r: bool)
        ensures
            r == self.spec_available(),
    {
        self.tdes0 & DES_OWN == 0
    }

    /// Record how many bytes of the buffer carry frame data.
    pub fn set_length(&mut self, length: usize)
        requires
            length <= ETH_BUF_SIZE,
        ensures
            final(self).tdes0 == old(self).tdes0,
            final(self).tdes1 == length as u32,
            final(self).tdes2 == old(self).tdes2,
            final(self).tdes3 == old(self).tdes3,
    {
        let len32 = length as u32;
        self.tdes1 = len32 & 0x1FFF;
        proof {
            assert(len32 <= 1536 ==> len32 & 0x1FFF == len32) by (bit_vector);
        }
    }

    /// Hand this descriptor to the DMA engine: set the ownership bit.
    pub fn release(&mut self)
        ensures
            final(self).tdes0 == old(self).tdes0 | DES_OWN,
            final(self).tdes1 == old(self).tdes1,
            final(self).tdes2 == old(self).tdes2,
            final(self).tdes3 == old(self).tdes3,
            !final(self).spec_available(),
    {
        let ghost x = self.tdes0;
        self.tdes0 = self.tdes0 | DES_OWN;
        proof {
            assert((x | 0x8000_0000u32) & 0x8000_0000u32 != 0) by (bit_vector);
        }
    }

    /// The engine has finished with this descriptor: clear the ownership
    /// bit, returning it to software.
    pub fn reclaim(&mut self)
        ensures
            final(self).tdes0 == old(self).tdes0 & 0x7FFF_FFFFu32,
            final(self).tdes1 == old(self).tdes1,
            final(self).tdes2 == old(self).tdes2,
            final(self).tdes3 == old(self).tdes3,
            final(self).spec_available(),
    {
        let ghost x = self.tdes0;
        self.tdes0 = self.tdes0 & 0x7FFF_FFFF;
        proof {
            assert((x & 0x7FFF_FFFFu32) & 0x8000_0000u32 == 0) by (bit_vector);
        }
    }
}

/// The transmit ring: descriptors, their buffers, and the current index.
pub struct TDesRing {
    pub td: Vec<TDes>,
    pub tbuf: Vec<Vec<u8>>,
    pub tdidx: usize,
}

impl TDesRing {
    /// Every descriptor is paired with one full-size buffer and the current
    /// index stays inside the ring.
    pub open spec fn wf(self) -> bool {
        &&& self.td@.len() == self.tbuf@.len()
        &&& 1 <= self.td@.len() <= 0xFFFF
        &&& self.tdidx < self.td@.len()
        &&& forall|i: int| 0 <= i < self.tbuf@.len() ==> (#[trigger] self.tbuf@[i])@.len()
            == ETH_BUF_SIZE
    }

    /// Slot count of the ring.
    pub open spec fn capacity(self) -> int {
        self.td@.len() as int
    }

    /// Which slots software may use.
    pub open spec fn avails(self) -> Seq<bool> {
        self.td@.map_values(|d: TDes| d.spec_available())
    }

    /// Exactly what initialization establishes in every descriptor: each is
    /// wired to its own buffer slot, carries first-segment and last-segment
    /// settings, starts owned by software, and the last one alone bears the
    /// end-of-ring mark.
    pub open spec fn freshly_wired(self) -> bool {
        &&& forall|i: int|
            0 <= i < self.td@.len() ==> (#[trigger] self.td@[i]).tdes2 == i && self.td@[i].tdes3
                == 0
        &&& forall|i: int|
            0 <= i < self.td@.len() - 1 ==> (#[trigger] self.td@[i]).tdes0 == 0x3000_0000u32
        &&& self.td@[self.td@.len() - 1].tdes0 == (0x3000_0000u32 | 0x0020_0000u32)
    }

    /// A ring of `n` zeroed descriptors and buffers, wired up by `init`.
    pub fn new(n: usize) -> (r: TDesRing)
        requires
            1 <= n <= 0xFFFF,
        ensures
            r.wf(),
            r.capacity() == n,
            r.tdidx == 0,
            r.avails() =~= all_free(n as int),
            r.freshly_wired(),
    {
        let mut td: Vec<TDes> = Vec::new();
        let mut tbuf: Vec<Vec<u8>> = Vec::new();
        let mut i: usize = 0;
        while i < n
            invariant
                i <= n,
                n <= 0xFFFF,
                td@.len() == i,
                tbuf@.len() == i,
                forall|k: int| 0 <= k < i ==> (#[trigger] tbuf@[k])@.len() == ETH_BUF_SIZE,
            decreases n - i,
        {
            td.push(TDes { tdes0: 0, tdes1: 0, tdes2: 0, tdes3: 0 });
            tbuf.push(vec![0u8; ETH_BUF_SIZE]);
            i = i + 1;
        }
        let mut r = TDesRing { td, tbuf, tdidx: 0 };
        r.init();
        r
    }

    /// Wire every descriptor to its buffer slot and mark the last one as
    /// end-of-ring. Transmit descriptors start owned by software.
    pub fn init(&mut self)
        requires
            old(self).wf(),
        ensures
            final(self).wf(),
            final(self).capacity() == old(self).capacity(),
            final(self).tdidx == old(self).tdidx,
            final(self).tbuf == old(self).tbuf,
            final(self).avails() =~= all_free(old(self).capacity()),
            final(self).freshly_wired(),
    {
        let n = self.td.len();
        let mut i: usize = 0;
        while i < n
            invariant
                old(self).wf(),
                self.td@.len() == n,
                n == old(self).capacity(),
                self.tbuf == old(self).tbuf,
                self.tdidx == old(self).tdidx,
                i <= n,
                forall|k: int|
                    0 <= k < i ==> (#[trigger] self.td@[k]).tdes0 == 0x3000_0000u32
                        && self.td@[k].tdes2 == k && self.td@[k].tdes3 == 0,
            decreases n - i,
        {
            let mut d = self.td[i];
            d.init(i as u32);
            self.td.set(i, d);
            i = i + 1;
        }
        let mut last = self.td[n - 1];
        last.set_end_of_ring();
        self.td.set(n - 1, last);
        proof {
            assert(0x3000_0000u32 & 0x8000_0000u32 == 0 && (0x3000_0000u32 | 0x0020_0000u32)
                & 0x8000_0000u32 == 0) by (bit_vector);
            assert(self.avails() =~= all_free(old(self).capacity()));
        }
    }

    /// Whether the slot at the current index is available to software.
    pub fn available(&self) -> (r: bool)
        requires
            self.wf(),
        ensures
            r == self.avails()[self.tdidx as int],
    {
        self.td[self.tdidx].available()
    }

    /// Acquire the slot at the current index if it is available: the slot is
    /// handed to the engine and the index advances, wrapping at the
    /// capacity. Returns the acquired slot's index, or nothing when the
    /// ring is exhausted.
    pub fn next(&mut self) -> (r: Option<usize>)
        requires
            old(self).wf(),
        ensures
            final(self).wf(),
            final(self).capacity() == old(self).capacity(),
            final(self).tbuf == old(self).tbuf,
            ({
                let st = ring_step(old(self).avails(), old(self).tdidx as int);
                &&& final(self).avails() =~= st.0
                &&& final(self).tdidx as int == st.1
                &&& (r is Some <==> st.2)
                &&& (r is Some ==> r->0 == old(self).tdidx)
            }),
    {
        if self.td[self.tdidx].available() {
            let i = self.tdidx;
            let mut d = self.td[i];
            d.release();
            self.td.set(i, d);
            self.tdidx = (i + 1) % self.td.len();
            proof {
                if i + 1 == old(self).capacity() {
                    vstd::arithmetic::div_mod::lemma_mod_self_0(old(self).capacity());
                    assert(self.tdidx == 0);
                } else {
                    vstd::arithmetic::div_mod::lemma_small_mod(
                        (i + 1) as nat,
                        old(self).capacity() as nat,
                    );
                    assert(self.tdidx == i + 1);
                }
                assert(self.avails() =~= old(self).avails().update(i as int, false));
            }
            Some(i)
        } else {
            proof {
                assert(self.avails() =~= old(self).avails());
            }
            None
        }
    }

    /// The engine has finished with slot `i` and returned it to software.
    pub fn release(&mut self, i: usize)
        requires
            old(self).wf(),
            i < old(self).capacity(),
        ensures
            final(self).wf(),
            final(self).capacity() == old(self).capacity(),
            final(self).tbuf == old(self).tbuf,
            final(self).tdidx == old(self).tdidx,
            final(self).avails() =~= old(self).avails().update(i as int, true),
    {
        let mut d = self.td[i];
        d.reclaim();
        self.td.set(i, d);
    }

    /// The buffer paired with slot `i`.
    pub fn buf(&self, i: usize) -> (r: &Vec<u8>)
        requires
            self.wf(),
            i < self.capacity(),
        ensures
            r == self.tbuf@[i as int],
    {
        &self.tbuf[i]
    }
}

/// Receive descriptor, in hardware layout: ownership and frame metadata,
/// buffer length and settings, buffer reference, and an unused fourth word.
#[derive(Clone, Copy)]
pub struct RDes {
    pub rdes0: u32,
    pub rdes1: u32,
    pub rdes2: u32,
    pub rdes3: u32,
}

impl RDes {
    /// Whether software may use this descriptor: the ownership bit is clear.
    pub open spec fn spec_available(self) -> bool {
        self.rdes0 & DES_OWN == 0
    }

    /// Wire this descriptor to its buffer slot and record the buffer's
    /// length. Receive descriptors start owned by the DMA engine, which
    /// fills them as frames arrive.
    pub fn init(&mut self, buf_index: u32)
        ensures
            final(self).rdes0 == DES_OWN,
            final(self).rdes1 == ETH_BUF_SIZE as u32,
            final(self).rdes2 == buf_index,
            final(self).rdes3 == 0,
            !final(self).spec_available(),
    {
        self.rdes0 = DES_OWN;
        self.rdes1 = ETH_BUF_SIZE as u32;
        self.rdes2 = buf_index;
        self.rdes3 = 0;
        proof {
            assert(0x8000_0000u32 & 0x8000_0000u32 != 0) by (bit_vector);
        }
    }

    /// Mark this descriptor as the last of the ring.
    pub fn set_end_of_ring(&mut self)
        ensures
            final(self).rdes0 == old(self).rdes0,
            final(self).rdes1 == old(self).rdes1 | 0x8000u32,
            final(self).rdes2 == old(self).rdes2,
            final(self).rdes3 == old(self).rdes3,
            final(self).spec_available() == old(self).spec_available(),
    {
        self.rdes1 = self.rdes1 | 0x8000;
    }

    /// Whether software may use this descriptor.
    pub fn available(&self) -> (r: bool)
        ensures
            r == self.spec_available(),
    {
        self.rdes0 & DES_OWN == 0
    }

    /// Hand this descriptor back to the DMA engine: set the ownership bit.
    pub fn release(&mut self)
        ensures
            final(self).rdes0 == old(self).rdes0 | DES_OWN,
            final(self).rdes1 == old(self).rdes1,
            final(self).rdes2 == old(self).rdes2,
            final(self).rdes3 == old(self).rdes3,
            !final(self).spec_available(),
    {
        let ghost x = self.rdes0;
        self.rdes0 = self.rdes0 | DES_OWN;
        proof {
            assert((x | 0x8000_0000u32) & 0x8000_0000u32 != 0) by (bit_vector);
        }
    }

    /// The engine has delivered a frame into this descriptor: clear the
    /// ownership bit, returning it to software.
    pub fn reclaim(&mut self)
        ensures
            final(self).rdes0 == old(self).rdes0 & 0x7FFF_FFFFu32,
            final(self).rdes1 == old(self).rdes1,
            final(self).rdes2 == old(self).rdes2,
            final(self).rdes3 == old(self).rdes3,
            final(self).spec_available(),
    {
        let ghost x = self.rdes0;
        self.rdes0 = self.rdes0 & 0x7FFF_FFFF;
        proof {
            assert((x & 0x7FFF_FFFFu32) & 0x8000_0000u32 == 0) by (bit_vector);
        }
    }
}

/// The receive ring: descriptors, their buffers, and the current index.
pub struct RDesRing {
    pub rd: Vec<RDes>,
    pub rbuf: Vec<Vec<u8>>,
    pub rdidx: usize,
}

impl RDesRing {
    /// Every descriptor is paired with one full-size buffer and the current
    /// index stays inside the ring.
    pub open spec fn wf(self) -> bool {
        &&& self.rd@.len() == self.rbuf@.len()
        &&& 1 <= self.rd@.len() <= 0xFFFF
        &&& self.rdidx < self.rd@.len()
        &&& forall|i: int| 0 <= i < self.rbuf@.len() ==> (#[trigger] self.rbuf@[i])@.len()
            == ETH_BUF_SIZE
    }

    /// Slot count of the ring.
    pub open spec fn capacity(self) -> int {
        self.rd@.len() as int
    }

    /// Which slots software may use.
    pub open spec fn avails(self) -> Seq<bool> {
        self.rd@.map_values(|d: RDes| d.spec_available())
    }

    /// Exactly what initialization establishes in every descriptor: each is
    /// wired to its own buffer slot, records the buffer's byte length,
    /// starts owned by the DMA engine, and the last one alone bears the
    /// end-of-ring mark.
    pub open spec fn freshly_wired(self) -> bool {
        &&& forall|i: int|
            0 <= i < self.rd@.len() ==> (#[trigger] self.rd@[i]).rdes0 == DES_OWN
                && self.rd@[i].rdes2 == i && self.rd@[i].rdes3 == 0
        &&& forall|i: int|
            0 <= i < self.rd@.len() - 1 ==> (#[trigger] self.rd@[i]).rdes1 == ETH_BUF_SIZE as u32
        &&& self.rd@[self.rd@.len() - 1].rdes1 == (ETH_BUF_SIZE as u32 | 0x8000u32)
    }

    /// A ring of `n` zeroed descriptors and buffers, wired up by `init`.
    pub fn new(n: usize) -> (r: RDesRing)
        requires
            1 <= n <= 0xFFFF,
        ensures
            r.wf(),
            r.capacity() == n,
            r.rdidx == 0,
            forall|j: int| 0 <= j < n ==> !(#[trigger] r.avails()[j]),
            r.freshly_wired(),
    {
        let mut rd: Vec<RDes> = Vec::new();
        let mut rbuf: Vec<Vec<u8>> = Vec::new();
        let mut i: usize = 0;
        while i < n
            invariant
                i <= n,
                n <= 0xFFFF,
                rd@.len() == i,
                rbuf@.len() == i,
                forall|k: int| 0 <= k < i ==> (#[trigger] rbuf@[k])@.len() == ETH_BUF_SIZE,
            decreases n - i,
        {
            rd.push(RDes { rdes0: 0, rdes1: 0, rdes2: 0, rdes3: 0 });
            rbuf.push(vec![0u8; ETH_BUF_SIZE]);
            i = i + 1;
        }
        let mut r = RDesRing { rd, rbuf, rdidx: 0 };
        r.init();
        r
    }

    /// Wire every descriptor to its buffer slot and mark the last one as
    /// end-of-ring. Every receive descriptor starts with the DMA engine.
    pub fn init(&mut self)
        requires
            old(self).wf(),
        ensures
            final(self).wf(),
            final(self).capacity() == old(self).capacity(),
            final(self).rdidx == old(self).rdidx,
            final(self).rbuf == old(self).rbuf,
            forall|j: int|
                0 <= j < old(self).capacity() ==> !(#[trigger] final(self).avails()[j]),
            final(self).freshly_wired(),
    {
        let n = self.rd.len();
        let mut i: usize = 0;
        while i < n
            invariant
                old(self).wf(),
                self.rd@.len() == n,
                n == old(self).capacity(),
                self.rbuf == old(self).rbuf,
                self.rdidx == old(self).rdidx,
                i <= n,
                forall|k: int|
                    0 <= k < i ==> (#[trigger] self.rd@[k]).rdes0 == DES_OWN && self.rd@[k].rdes1
                        == ETH_BUF_SIZE as u32 && self.rd@[k].rdes2 == k && self.rd@[k].rdes3
                        == 0,
            decreases n - i,
        {
            let mut d = self.rd[i];
            d.init(i as u32);
            self.rd.set(i, d);
            i = i + 1;
        }
        let mut last = self.rd[n - 1];
        last.set_end_of_ring();
        self.rd.set(n - 1, last);
        proof {
            assert(0x8000_0000u32 & 0x8000_0000u32 != 0) by (bit_vector);
            assert(forall|j: int|
                0 <= j < old(self).capacity() ==> !(#[trigger] self.avails()[j]));
        }
    }

    /// Whether the slot at the current index is available to software.
    pub fn available(&self) -> (r: bool)
        requires
            self.wf(),
        ensures
            r == self.avails()[self.rdidx as int],
    {
        self.rd[self.rdidx].available()
    }

    /// Acquire the slot at the current index if it is available: the slot
    /// goes back to the engine and the index advances, wrapping at the
    /// capacity. Returns the acquired slot's index, or nothing when no
    /// received frame is waiting.
    pub fn next(&mut self) -> (r: Option<usize>)
        requires
            old(self).wf(),
        ensures
            final(self).wf(),
            final(self).capacity() == old(self).capacity(),
            final(self).rbuf == old(self).rbuf,
            ({
                let st = ring_step(old(self).avails(), old(self).rdidx as int);
                &&& final(self).avails() =~= st.0
                &&& final(self).rdidx as int == st.1
                &&& (r is Some <==> st.2)
                &&& (r is Some ==> r->0 == old(self).rdidx)
            }),
    {
        if self.rd[self.rdidx].available() {
            let i = self.rdidx;
            let mut d = self.rd[i];
            d.release();
            self.rd.set(i, d);
            self.rdidx = (i + 1) % self.rd.len();
            proof {
                if i + 1 == old(self).capacity() {
                    vstd::arithmetic::div_mod::lemma_mod_self_0(old(self).capacity());
                } else {
                    vstd::arithmetic::div_mod::lemma_small_mod(
                        (i + 1) as nat,
                        old(self).capacity() as nat,
                    );
                }
                assert(self.avails() =~= old(self).avails().update(i as int, false));
            }
            Some(i)
        } else {
            proof {
                assert(self.avails() =~= old(self).avails());
            }
            None
        }
    }

    /// The engine has delivered a frame into slot `i`, returning it to
    /// software.
    pub fn release(&mut self, i: usize)
        requires
            old(self).wf(),
            i < old(self).capacity(),
        ensures
            final(self).wf(),
            final(self).capacity() == old(self).capacity(),
            final(self).rbuf == old(self).rbuf,
            final(self).rdidx == old(self).rdidx,
            final(self).avails() =~= old(self).avails().update(i as int, true),
    {
        let mut d = self.rd[i];
        d.reclaim();
        self.rd.set(i, d);
    }

    /// The buffer paired with slot `i`.
    pub fn buf(&self, i: usize) -> (r: &Vec<u8>)
        requires
            self.wf(),
            i < self.capacity(),
        ensures
            r == self.rbuf@[i as int],
    {
        &self.rbuf[i]
    }
}

/// Link status read back from the PHY's basic status, basic control and
/// link-partner-ability registers: the link stands exactly when
/// autonegotiation is enabled and complete, the link is up with no remote
/// fault, and the partner supports 100Mb full duplex.
pub open spec fn spec_link_ok(bsr: u16, bcr: u16, lpa: u16) -> bool {
    &&& bcr & 0x1000 != 0
    &&& bsr & 0x0004 != 0
    &&& bsr & 0x0010 == 0
    &&& bsr & 0x0020 != 0
    &&& lpa & 0x0100 != 0
}

/// Handle held while filling a transmit buffer.
pub struct TxToken {
    pub slot: usize,
}

/// Handle held while reading a received frame.
pub struct RxToken {
    pub slot: usize,
}

/// The Ethernet device: both descriptor rings and the modelled MAC/DMA
/// state the driver decides over.
pub struct EthernetDevice {
    pub tdring: TDesRing,
    pub rdring: RDesRing,
    pub tx_suspended: bool,
    pub rx_suspended: bool,
    pub mac_100mbps: bool,
    pub mac_full_duplex: bool,
}

impl EthernetDevice {
    /// Both rings are well formed.
    pub open spec fn wf(self) -> bool {
        self.tdring.wf() && self.rdring.wf()
    }

    /// A freshly initialised device: standard ring sizes, transmit slots
    /// with software, receive slots with the engine, MAC speed not yet
    /// negotiated.
    pub fn new() -> (r: EthernetDevice)
        ensures
            r.wf(),
            r.tdring.capacity() == ETH_NUM_TD,
            r.rdring.capacity() == ETH_NUM_RD,
            r.tdring.avails() =~= all_free(ETH_NUM_TD as int),
            forall|j: int| 0 <= j < ETH_NUM_RD ==> !(#[trigger] r.rdring.avails()[j]),
            r.tdring.freshly_wired(),
            r.rdring.freshly_wired(),
            !r.tx_suspended && !r.rx_suspended && !r.mac_100mbps && !r.mac_full_duplex,
    {
        EthernetDevice {
            tdring: TDesRing::new(ETH_NUM_TD),
            rdring: RDesRing::new(ETH_NUM_RD),
            tx_suspended: false,
            rx_suspended: false,
            mac_100mbps: false,
            mac_full_duplex: false,
        }
    }

    /// Judge the link from the PHY status registers; on an established link
    /// the MAC is configured to 100Mb full duplex.
    pub fn phy_poll_link(&mut self, bsr: u16, bcr: u16, lpa: u16) -> (r: bool)
        ensures
            r == spec_link_ok(bsr, bcr, lpa),
            final(self).tdring == old(self).tdring,
            final(self).rdring == old(self).rdring,
            final(self).tx_suspended == old(self).tx_suspended,
            final(self).rx_suspended == old(self).rx_suspended,
            r ==> final(self).mac_100mbps && final(self).mac_full_duplex,
            !r ==> final(self).mac_100mbps == old(self).mac_100mbps && final(self).mac_full_duplex
                == old(self).mac_full_duplex,
    {
        if bcr & 0x1000 == 0 {
            return false;
        }
        if bsr & 0x0004 == 0 {
            return false;
        }
        if bsr & 0x0010 != 0 {
            return false;
        }
        if bsr & 0x0020 == 0 {
            return false;
        }
        if lpa & 0x0100 == 0 {
            return false;
        }
        self.mac_100mbps = true;
        self.mac_full_duplex = true;
        true
    }

    /// Whether the link is established, judged from the PHY registers.
    pub fn link_established(&mut self, bsr: u16, bcr: u16, lpa: u16) -> (r: bool)
        ensures
            r == spec_link_ok(bsr, bcr, lpa),
            final(self).tdring == old(self).tdring,
            final(self).rdring == old(self).rdring,
            final(self).tx_suspended == old(self).tx_suspended,
            final(self).rx_suspended == old(self).rx_suspended,
            r ==> final(self).mac_100mbps && final(self).mac_full_duplex,
            !r ==> final(self).mac_100mbps == old(self).mac_100mbps && final(self).mac_full_duplex
                == old(self).mac_full_duplex,
    {
        self.phy_poll_link(bsr, bcr, lpa)
    }

    /// Resume transmit DMA if it had suspended on ring exhaustion.
    pub fn resume_tx_dma(&mut self)
        ensures
            !final(self).tx_suspended,
            final(self).tdring == old(self).tdring,
            final(self).rdring == old(self).rdring,
            final(self).rx_suspended == old(self).rx_suspended,
            final(self).mac_100mbps == old(self).mac_100mbps,
            final(self).mac_full_duplex == old(self).mac_full_duplex,
    {
        if self.tx_suspended {
            self.tx_suspended = false;
        }
    }

    /// Resume receive DMA if it had suspended on ring exhaustion.
    pub fn resume_rx_dma(&mut self)
        ensures
            !final(self).rx_suspended,
            final(self).tdring == old(self).tdring,
            final(self).rdring == old(self).rdring,
            final(self).tx_suspended == old(self).tx_suspended,
            final(self).mac_100mbps == old(self).mac_100mbps,
            final(self).mac_full_duplex == old(self).mac_full_duplex,
    {
        if self.rx_suspended {
            self.rx_suspended = false;
        }
    }

    /// A transmit token, exactly when the transmit ring has a slot at its
    /// current index; the token names that slot.
    pub fn transmit(&mut self) -> (r: Option<TxToken>)
        requires
            old(self).wf(),
        ensures
            *final(self) == *old(self),
            r is Some <==> old(self).tdring.avails()[old(self).tdring.tdidx as int],
            r is Some ==> r->0.slot == old(self).tdring.tdidx,
    {
        if self.tdring.available() {
            Some(TxToken { slot: self.tdring.tdidx })
        } else {
            None
        }
    }

    /// A receive/transmit token pair, exactly when both rings have a slot
    /// at their current index.
    pub fn receive(&mut self) -> (r: Option<(RxToken, TxToken)>)
        requires
            old(self).wf(),
        ensures
            *final(self) == *old(self),
            r is Some <==> (old(self).rdring.avails()[old(self).rdring.rdidx as int] && old(
                self,
            ).tdring.avails()[old(self).tdring.tdidx as int]),
            r is Some ==> ({
                let pair = r->0;
                pair.0.slot == old(self).rdring.rdidx && pair.1.slot == old(self).tdring.tdidx
            }),
    {
        if self.rdring.available() && self.tdring.available() {
            Some((RxToken { slot: self.rdring.rdidx }, TxToken { slot: self.tdring.tdidx }))
        } else {
            None
        }
    }
}

} // verus!
