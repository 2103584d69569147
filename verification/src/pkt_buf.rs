//! A very simple packet buffer: a FIFO of windows (start..end byte ranges) into one
//! contiguous region of packet memory of `PKT_BUF_LEN` bytes.
//!
//! Slots of a fixed table hold the windows; each slot links to the next one in the
//! queue. Once the end of the region is reached, allocation wraps around to the
//! beginning rather than reclaiming the unused tail. The bytes themselves live in the
//! packet memory region that the caller owns; this structure decides where they go.
use vstd::prelude::*;

verus! {

/// Size of the packet buffer memory region
pub const PKT_BUF_LEN: usize = 0x6000;

/// Number of packet slots
pub const MAX_PKTS: usize = 32;

/// PktPtr indices map directly onto the underlying storage position
#[derive(Copy, Clone, PartialEq, Eq, Structural, Debug)]
pub struct PktPtr {
    pub start: usize,
    pub end: usize,
    pub next_index: Option<usize>,
}

impl PktPtr {
    /// First byte of the window
    pub fn start(&self) -> (r: usize)
        ensures
            r == self.start,
    {
        self.start
    }

    /// One past the last byte of the window
    pub fn end(&self) -> (r: usize)
        ensures
            r == self.end,
    {
        self.end
    }
}

/// Packet FIFO bookkeeping
pub struct PktBuf {
    pub ptr_storage: [Option<PktPtr>; MAX_PKTS],
    /// index of where to look to figure out the next enqueue location
    pub enqueue_index: Option<usize>,
    /// index of where to look to figure out the next dequeue location
    pub dequeue_index: Option<usize>,
    pub was_polled: bool,
    pub was_init: bool,
    /// The slots of the queued packets, oldest first
    pub queue: Ghost<Seq<usize>>,
}

/// Where a window lies in memory seen from the oldest packet's start `f`: a window
/// starting at or after `f` is where it is; one starting before `f` has wrapped around
/// the end of the region, and counts as `PKT_BUF_LEN` further on.
pub open spec fn vstart(f: usize, w: (usize, usize)) -> int {
    if w.0 >= f { w.0 as int } else { w.0 + PKT_BUF_LEN }
}

/// End of a window seen from the oldest packet's start `f` (see `vstart`)
pub open spec fn vend(f: usize, w: (usize, usize)) -> int {
    vstart(f, w) + (w.1 - w.0)
}

/// The queued windows lie in the region as a ring: seen from the oldest packet's start,
/// each one ends before the next one starts, and the last one ends before the ring comes
/// back round to the oldest packet.
pub open spec fn ring_layout(pkts: Seq<(usize, usize)>) -> bool {
    &&& forall|i: int| 0 <= i < pkts.len() ==> #[trigger] pkts[i].0 <= pkts[i].1 <= PKT_BUF_LEN
        && pkts[i].0 < PKT_BUF_LEN
    &&& forall|i: int, j: int|
        0 <= i < j < pkts.len() ==> vend(pkts[0].0, #[trigger] pkts[i]) <= vstart(pkts[0].0, #[trigger] pkts[j])
    &&& forall|i: int| 0 <= i < pkts.len() ==> vend(pkts[0].0, #[trigger] pkts[i]) <= pkts[0].0 + PKT_BUF_LEN
}

/// Two windows share no byte
pub open spec fn disjoint(a: (usize, usize), b: (usize, usize)) -> bool {
    a.1 <= b.0 || b.1 <= a.0
}

/// Where `get_enqueue_slice(len)` puts a new packet, given the queued windows. While the
/// newest packet lies at or after the oldest one, the new packet goes right after the
/// newest if it fits before the end of the region, else at the start of the region if
/// it fits before the oldest packet. Once the queue has wrapped (the newest packet lies
/// before the oldest), it goes right after the newest only if it ends before the oldest
/// packet starts. None if there is no such room.
pub open spec fn alloc_window(pkts: Seq<(usize, usize)>, len: usize) -> Option<(usize, usize)> {
    let alloc_end: int = if pkts.len() == 0 { 0 } else { pkts.last().1 as int };
    let alloc_start: int = if pkts.len() == 0 { 0 } else { pkts[0].0 as int };
    if pkts.len() > 0 && pkts.last().0 < pkts[0].0 {
        if len < alloc_start - alloc_end {
            Some((alloc_end as usize, (alloc_end + len) as usize))
        } else {
            None
        }
    } else if len < PKT_BUF_LEN - alloc_end {
        Some((alloc_end as usize, (alloc_end + len) as usize))
    } else if len < alloc_start {
        Some((0usize, len))
    } else {
        None
    }
}

/// The window that `get_enqueue_slice(len)` hands out: none when every slot is taken,
/// else the one that `alloc_window` finds.
pub open spec fn enqueue_window(pkts: Seq<(usize, usize)>, len: usize) -> Option<(usize, usize)> {
    if pkts.len() >= MAX_PKTS {
        None
    } else {
        alloc_window(pkts, len)
    }
}

impl PktBuf {
    /// The bookkeeping is consistent: the queue is a linked list of distinct occupied
    /// slots from the dequeue slot to the enqueue slot, every other slot is free, and
    /// every window lies inside the packet region.
    pub open spec fn wf(&self) -> bool {
        let q = self.queue@;
        &&& q.len() <= MAX_PKTS
        &&& forall|i: int| 0 <= i < q.len() ==> #[trigger] q[i] < MAX_PKTS
        &&& forall|i: int, j: int| 0 <= i < j < q.len() ==> q[i] != q[j]
        &&& forall|s: int|
            0 <= s < MAX_PKTS ==> (#[trigger] self.ptr_storage@[s] is Some <==> q.contains(
                s as usize,
            ))
        &&& (q.len() == 0 <==> self.dequeue_index is None)
        &&& (q.len() == 0 <==> self.enqueue_index is None)
        &&& q.len() > 0 ==> self.dequeue_index == Some(q[0]) && self.enqueue_index == Some(
            q.last(),
        )
        &&& forall|i: int|
            0 <= i < q.len() - 1 ==> (#[trigger] self.ptr_storage@[q[i] as int])->Some_0.next_index
                == Some(q[i + 1])
        &&& q.len() > 0 ==> self.ptr_storage@[q.last() as int]->Some_0.next_index is None
        &&& forall|s: int|
            0 <= s < MAX_PKTS ==> (#[trigger] self.ptr_storage@[s] matches Some(p) ==> p.start
                <= p.end <= PKT_BUF_LEN)
        &&& ring_layout(self.pkts())
    }

    /// The queued packet windows, oldest first.
    pub open spec fn pkts(&self) -> Seq<(usize, usize)> {
        self.queue@.map_values(
            |s: usize| (self.ptr_storage@[s as int]->Some_0.start, self.ptr_storage@[s as int]->Some_0.end),
        )
    }

    /// Every queued window lies inside the packet memory region
    pub proof fn lemma_windows_in_region(&self, i: int)
        requires
            self.wf(),
            0 <= i < self.pkts().len(),
        ensures
            self.pkts()[i].0 <= self.pkts()[i].1 <= PKT_BUF_LEN,
    {
        let q = self.queue@;
        assert(q[i] < MAX_PKTS);
        assert(q.contains(q[i]));
        assert(self.ptr_storage@[q[i] as int] is Some);
    }

    /// An empty packet buffer
    pub fn new() -> (r: Self)
        ensures
            r.wf(),
            r.pkts() == Seq::<(usize, usize)>::empty(),
            !r.was_polled,
            !r.was_init,
    {
        let r = PktBuf {
            ptr_storage: [None; MAX_PKTS],
            enqueue_index: None,
            dequeue_index: None,
            was_polled: false,
            was_init: false,
            queue: Ghost(Seq::empty()),
        };
        assert(r.pkts() =~= Seq::<(usize, usize)>::empty());
        r
    }

    /// Mark the packet memory as initialized. Returns true the first time only: the
    /// caller then zeroes the packet memory region.
    pub fn init(&mut self) -> (r: bool)
        requires
            old(self).wf(),
        ensures
            final(self).wf(),
            r == !old(self).was_init,
            final(self).was_init,
            final(self).pkts() == old(self).pkts(),
            final(self).was_polled == old(self).was_polled,
    {
        if !self.was_init {
            self.was_init = true;
            true
        } else {
            false
        }
    }

    /// Allocate a window of `len` bytes for a new packet at the back of the queue, and
    /// return it (see `alloc_window`); None if every slot is taken or no room is found.
    /// Enqueueing re-arms `poll_new_avail`.
    pub fn get_enqueue_slice(&mut self, len: usize) -> (r: Option<PktPtr>)
        requires
            old(self).wf(),
        ensures
            final(self).wf(),
            !final(self).was_polled,
            final(self).was_init == old(self).was_init,
            match enqueue_window(old(self).pkts(), len) {
                None => r is None && final(self).pkts() == old(self).pkts(),
                Some(w) => r matches Some(p) && p.start == w.0 && p.end == w.1 && final(self).pkts()
                    == old(self).pkts().push(w),
            },
            r matches Some(p) ==> forall|i: int|
                0 <= i < old(self).pkts().len() ==> disjoint((p.start, p.end), #[trigger] old(self).pkts()[i]),
    {
        proof {
            lemma_new_window_disjoint(old(self).pkts(), len);
        }
        self.was_polled = false;  // this will trigger another interrupt to the host
        let ghost q = self.queue@;
        let ghost pk = self.pkts();
        let (last_start, alloc_end) = if let Some(eq_idx) = self.enqueue_index {
            proof {
                assert(q.contains(eq_idx));
            }
            match self.ptr_storage[eq_idx] {
                Some(p) => (p.start, p.end),
                None => (0, 0),
            }
        } else {
            (0, 0)
        };
        let alloc_start = if let Some(dq_idx) = self.dequeue_index {
            proof {
                assert(q.contains(dq_idx));
            }
            match self.ptr_storage[dq_idx] {
                Some(p) => p.start,
                None => 0,
            }
        } else {
            0
        };
        proof {
            if q.len() > 0 {
                assert(pk.last() == (
                    self.ptr_storage@[q.last() as int]->Some_0.start,
                    self.ptr_storage@[q.last() as int]->Some_0.end,
                ));
            }
        }
        let mut idx: usize = 0;
        while idx < MAX_PKTS
            invariant
                idx <= MAX_PKTS,
                self.wf(),
                self.queue@ == q,
                pk == self.pkts(),
                !self.was_polled,
                self.was_init == old(self).was_init,
                self.ptr_storage == old(self).ptr_storage,
                self.dequeue_index == old(self).dequeue_index,
                self.enqueue_index == old(self).enqueue_index,
                pk == old(self).pkts(),
                alloc_end == (if pk.len() == 0 { 0 } else { pk.last().1 as int }),
                last_start == (if pk.len() == 0 { 0 } else { pk.last().0 as int }),
                ring_layout(pk),
                alloc_start == (if pk.len() == 0 { 0 } else { pk[0].0 as int }),
                forall|s: int| 0 <= s < idx ==> #[trigger] q.contains(s as usize),
            decreases MAX_PKTS - idx,
        {
            if self.ptr_storage[idx].is_none() {
                assert(!q.contains(idx));
                proof {
                    lemma_full_queue(q);
                }
                let wrapped = self.enqueue_index.is_some() && last_start < alloc_start;
                let newstart = if wrapped {
                    // the queue has wrapped: the new packet must end before the oldest one
                    if alloc_end < alloc_start && len < alloc_start - alloc_end {
                        alloc_end
                    } else {
                        return None;
                    }
                } else if len < PKT_BUF_LEN - alloc_end {
                    alloc_end
                } else if len < alloc_start {
                    0
                } else {
                    return None;
                };
                let newpkt = PktPtr { start: newstart, end: newstart + len, next_index: None };
                self.ptr_storage[idx] = Some(newpkt);
                // append the newly enqueued index to the end of the dequeue linked list
                if let Some(dq_idx) = self.dequeue_index {
                    let tail = self.find_tail(dq_idx, idx);
                    let mut pkt_copy = match self.ptr_storage[tail] {
                        Some(p) => p,
                        None => newpkt,
                    };
                    pkt_copy.next_index = Some(idx);
                    self.ptr_storage[tail] = Some(pkt_copy);
                } else {
                    // the very first enqueue: dequeue is the enqueue because there is only one entry
                    self.dequeue_index = Some(idx);
                }
                self.enqueue_index = Some(idx);
                self.queue = Ghost(q.push(idx));
                proof {
                    assert(forall|i: int| 0 <= i < q.len() ==> q.push(idx)[i] == q[i]);
                    assert forall|s: int| 0 <= s < MAX_PKTS implies (#[trigger] self.ptr_storage@[s]
                        is Some <==> self.queue@.contains(s as usize)) by {
                        if s == idx {
                            assert(self.queue@[q.len() as int] == idx);
                        } else if self.queue@.contains(s as usize) {
                            let k = choose|k: int| 0 <= k < self.queue@.len() && self.queue@[k] == s;
                            assert(q[k] == s);
                        } else {
                            if q.contains(s as usize) {
                                let k = choose|k: int| 0 <= k < q.len() && q[k] == s;
                                assert(self.queue@[k] == s);
                            }
                        }
                    }
                    assert(self.pkts() =~= pk.push((newstart, (newstart + len) as usize)));
                    lemma_push_layout(pk, len);
                }
                return Some(newpkt);
            }
            assert(q.contains(idx));
            idx = idx + 1;
        }
        proof {
            lemma_full_queue(q);
        }
        None
    }

    /// Follow the links from the dequeue slot to the last packet in the queue.
    fn find_tail(&self, dq_idx: usize, fresh: usize) -> (r: usize)
        requires
            self.queue@.len() > 0,
            dq_idx == self.queue@[0],
            forall|i: int| 0 <= i < self.queue@.len() ==> #[trigger] self.queue@[i] < MAX_PKTS,
            forall|i: int|
                0 <= i < self.queue@.len() - 1 ==> ((#[trigger] self.ptr_storage@[self.queue@[i] as int]) matches Some(
                    p,
                ) && p.next_index == Some(self.queue@[i + 1])),
            self.ptr_storage@[self.queue@.last() as int] matches Some(p) && p.next_index is None,
            self.queue@.len() <= MAX_PKTS,
        ensures
            r == self.queue@.last(),
    {
        let ghost q = self.queue@;
        let mut search_idx = dq_idx;
        let ghost mut k: int = 0;
        loop
            invariant
                0 <= k < q.len(),
                search_idx == q[k],
                q == self.queue@,
                forall|i: int| 0 <= i < q.len() ==> #[trigger] q[i] < MAX_PKTS,
                forall|i: int|
                    0 <= i < q.len() - 1 ==> ((#[trigger] self.ptr_storage@[q[i] as int]) matches Some(p)
                        && p.next_index == Some(q[i + 1])),
                self.ptr_storage@[q.last() as int] matches Some(p) && p.next_index is None,
            decreases q.len() - k,
        {
            match self.ptr_storage[search_idx] {
                Some(p) => match p.next_index {
                    Some(next) => {
                        proof {
                            if k == q.len() - 1 {
                                assert(false);
                            }
                            k = k + 1;
                        }
                        search_idx = next;
                    },
                    None => {
                        proof {
                            if k < q.len() - 1 {
                                assert(self.ptr_storage@[q[k] as int] matches Some(pp) && pp.next_index
                                    == Some(q[k + 1]));
                            }
                        }
                        return search_idx;
                    },
                },
                None => {
                    proof {
                        if k < q.len() - 1 {
                            assert(self.ptr_storage@[q[k] as int] matches Some(pp) && pp.next_index
                                == Some(q[k + 1]));
                        }
                    }
                    return search_idx;
                },
            }
        }
    }

    /// Returns the window of the oldest packet, which we can freely read anytime; but, it is
    /// *not* dequeued. A subsequent call to dequeue() is necessary to release the memory and
    /// advance the dequeue pointer. This allows an interrupt routine to pop in part way
    /// through a copy out of the dequeue packet without worry of it being overwritten.
    pub fn peek_dequeue_slice(&self) -> (r: Option<PktPtr>)
        requires
            self.wf(),
        ensures
            self.pkts().len() == 0 ==> r is None,
            self.pkts().len() > 0 ==> (r matches Some(p) && p.start == self.pkts()[0].0 && p.end
                == self.pkts()[0].1),
    {
        if let Some(dq_idx) = self.dequeue_index {
            proof {
                assert(self.queue@.contains(dq_idx));
            }
            self.ptr_storage[dq_idx]
        } else {
            None
        }
    }

    /// Release the oldest packet, immediately, for good. Returns false if the queue was
    /// empty. Dequeueing re-arms `poll_new_avail`.
    pub fn dequeue(&mut self) -> (r: bool)
        requires
            old(self).wf(),
        ensures
            final(self).wf(),
            !final(self).was_polled,
            final(self).was_init == old(self).was_init,
            r == (old(self).pkts().len() > 0),
            r ==> final(self).pkts() == old(self).pkts().drop_first(),
            !r ==> final(self).pkts() == old(self).pkts(),
    {
        self.was_polled = false;
        let ghost q = self.queue@;
        let ghost pk = self.pkts();
        if let Some(dq_idx) = self.dequeue_index {
            proof {
                assert(q.contains(dq_idx));
            }
            if let Some(ptr) = self.ptr_storage[dq_idx] {
                if let Some(next_dq) = ptr.next_index {
                    proof {
                        if q.len() == 1 {
                            assert(false);
                        }
                    }
                    self.dequeue_index = Some(next_dq);
                } else {
                    // there is no future dq, which means we have just dequeued the current
                    // enqueue point: the queue is now empty
                    proof {
                        if q.len() > 1 {
                            assert(self.ptr_storage@[q[0] as int]->Some_0.next_index == Some(q[1]));
                        }
                    }
                    match self.enqueue_index {
                        Some(eq_idx) => {
                            if eq_idx != dq_idx {
                                return false;
                            }
                        },
                        None => {
                            return false;
                        },
                    }
                    self.dequeue_index = None;
                    self.enqueue_index = None;
                }
                self.ptr_storage[dq_idx] = None;
                self.queue = Ghost(q.drop_first());
                proof {
                    let nq = q.drop_first();
                    assert(forall|i: int| 0 <= i < nq.len() ==> nq[i] == q[i + 1]);
                    assert forall|s: int| 0 <= s < MAX_PKTS implies (#[trigger] self.ptr_storage@[s]
                        is Some <==> nq.contains(s as usize)) by {
                        if s == dq_idx {
                            if nq.contains(s as usize) {
                                let k = choose|k: int| 0 <= k < nq.len() && nq[k] == s;
                                assert(q[k + 1] == q[0]);
                            }
                        } else if q.contains(s as usize) {
                            let k = choose|k: int| 0 <= k < q.len() && q[k] == s;
                            assert(k != 0);
                            assert(nq[k - 1] == s);
                        } else if nq.contains(s as usize) {
                            let k = choose|k: int| 0 <= k < nq.len() && nq[k] == s;
                            assert(q[k + 1] == s);
                        }
                    }
                    assert forall|i: int| 0 <= i < nq.len() - 1 implies (
                    #[trigger] self.ptr_storage@[nq[i] as int])->Some_0.next_index == Some(nq[i + 1]) by {
                        assert(q[i + 1] != q[0]);
                    }
                    if nq.len() > 0 {
                        assert(q.last() != q[0]);
                    }
                    assert forall|i: int, j: int| 0 <= i < j < nq.len() implies nq[i] != nq[j] by {
                        assert(q[i + 1] != q[j + 1]);
                    }
                    lemma_drop_layout(pk);
                    assert(self.pkts() =~= pk.drop_first()) by {
                        assert forall|i: int| 0 <= i < nq.len() implies #[trigger] nq[i] != dq_idx by {
                            assert(q[i + 1] != q[0]);
                        }
                    }
                }
                true
            } else {
                false
            }
        } else {
            false
        }
    }

    /// Return the length of the oldest available packet, but only once upon poll. Repeated
    /// polls without a dequeue() will return None. Polling state resets when dequeue() is
    /// called, or if a new packet is enqueued.
    pub fn poll_new_avail(&mut self) -> (r: Option<u16>)
        requires
            old(self).wf(),
        ensures
            final(self).wf(),
            final(self).pkts() == old(self).pkts(),
            final(self).was_init == old(self).was_init,
            !old(self).was_polled && old(self).pkts().len() > 0 ==> r == Some(
                ((old(self).pkts()[0].1 - old(self).pkts()[0].0) as u16),
            ) && final(self).was_polled,
            old(self).was_polled || old(self).pkts().len() == 0 ==> r is None
                && final(self).was_polled == old(self).was_polled,
    {
        if !self.was_polled {
            if let Some(dq_idx) = self.dequeue_index {
                proof {
                    assert(self.queue@.contains(dq_idx));
                }
                if let Some(ptr) = self.ptr_storage[dq_idx] {
                    self.was_polled = true;
                    return Some((ptr.end - ptr.start) as u16);
                }
            }
        }
        None
    }
}

/// First in, first out: enqueueing a window never changes which packet a peek returns,
/// except on an empty queue, where the new window becomes the oldest; and the windows
/// leave by `dequeue` in the order in which `get_enqueue_slice` handed them out.
pub proof fn lemma_fifo_order(pkts: Seq<(usize, usize)>, w: (usize, usize))
    ensures
        pkts.push(w)[0] == (if pkts.len() == 0 { w } else { pkts[0] }),
        pkts.len() == 0 ==> pkts.push(w).drop_first() == pkts,
        pkts.len() > 0 ==> pkts.push(w).drop_first() == pkts.drop_first().push(w),
        pkts.push(w).last() == w,
{
    if pkts.len() > 0 {
        assert(pkts.push(w).drop_first() =~= pkts.drop_first().push(w));
    } else {
        assert(pkts.push(w).drop_first() =~= pkts);
    }
}

/// Every window that the allocator hands out holds exactly the requested number of
/// bytes and lies inside the packet memory region.
pub proof fn lemma_alloc_window_in_region(pkts: Seq<(usize, usize)>, len: usize)
    requires
        forall|i: int| 0 <= i < pkts.len() ==> #[trigger] pkts[i].0 <= pkts[i].1 <= PKT_BUF_LEN,
    ensures
        alloc_window(pkts, len) matches Some(w) ==> w.1 - w.0 == len && w.1 < PKT_BUF_LEN,
{
}

/// A new packet never overwrites a queued one, in particular not the oldest, which a
/// reader may still be copying out after a peek: for every queue laid out as a ring,
/// wrapped or not, the window the allocator finds shares no byte with a queued window.
pub proof fn lemma_new_window_disjoint(pkts: Seq<(usize, usize)>, len: usize)
    requires
        ring_layout(pkts),
    ensures
        alloc_window(pkts, len) matches Some(w) ==> forall|i: int|
            0 <= i < pkts.len() ==> disjoint(w, #[trigger] pkts[i]),
{
    if pkts.len() > 0 {
        let n = pkts.len() - 1;
        let f = pkts[0].0;
        assert forall|i: int| 0 <= i < pkts.len() implies vend(f, #[trigger] pkts[i]) <= vend(f, pkts[n]) by {
            if i < n {
                assert(vend(f, pkts[i]) <= vstart(f, pkts[n]));
            }
        }
        assert forall|i: int| 0 <= i < pkts.len() implies f <= vstart(f, #[trigger] pkts[i]) by {}
    }
}

/// Queued windows laid out as a ring share no byte with each other.
pub proof fn lemma_ring_windows_disjoint(pkts: Seq<(usize, usize)>)
    requires
        ring_layout(pkts),
    ensures
        forall|i: int, j: int| 0 <= i < j < pkts.len() ==> disjoint(#[trigger] pkts[i], #[trigger] pkts[j]),
{
    assert forall|i: int, j: int| 0 <= i < j < pkts.len() implies disjoint(#[trigger] pkts[i], #[trigger] pkts[j]) by {
        let f = pkts[0].0;
        assert(vend(f, pkts[i]) <= vstart(f, pkts[j]));
        assert(vend(f, pkts[j]) <= f + PKT_BUF_LEN);
        assert(vend(f, pkts[i]) <= f + PKT_BUF_LEN);
        assert(vend(f, pkts[0]) <= f + PKT_BUF_LEN);
    }
}

/// Adding the window that the allocator finds keeps the ring layout.
proof fn lemma_push_layout(pkts: Seq<(usize, usize)>, len: usize)
    requires
        ring_layout(pkts),
    ensures
        alloc_window(pkts, len) matches Some(w) ==> ring_layout(pkts.push(w)),
{
    if let Some(w) = alloc_window(pkts, len) {
        let np = pkts.push(w);
        if pkts.len() == 0 {
            assert(np[0] == w);
        } else {
            let n = pkts.len() - 1;
            let f = pkts[0].0;
            assert(np[0] == pkts[0]);
            assert forall|i: int| 0 <= i < pkts.len() implies vend(f, #[trigger] pkts[i]) <= vend(f, pkts[n]) by {
                if i < n {
                    assert(vend(f, pkts[i]) <= vstart(f, pkts[n]));
                }
            }
            assert(vend(f, pkts[n]) <= vstart(f, w)) by {
                assert(vend(f, pkts[n]) <= f + PKT_BUF_LEN);
                assert forall|i: int| 0 <= i < pkts.len() implies vend(f, #[trigger] pkts[i]) <= PKT_BUF_LEN
                    || pkts[i].0 < f by {}
            }
            assert forall|i: int, j: int| 0 <= i < j < np.len() implies vend(np[0].0, #[trigger] np[i])
                <= vstart(np[0].0, #[trigger] np[j]) by {
                if j < pkts.len() {
                    assert(np[i] == pkts[i] && np[j] == pkts[j]);
                } else {
                    assert(np[i] == pkts[i]);
                }
            }
            assert forall|i: int| 0 <= i < np.len() implies vend(np[0].0, #[trigger] np[i]) <= np[0].0
                + PKT_BUF_LEN by {
                if i < pkts.len() {
                    assert(np[i] == pkts[i]);
                }
            }
        }
    }
}

/// Releasing the oldest packet keeps the ring layout, now seen from the next packet.
proof fn lemma_drop_layout(pkts: Seq<(usize, usize)>)
    requires
        ring_layout(pkts),
        pkts.len() > 0,
    ensures
        ring_layout(pkts.drop_first()),
{
    let np = pkts.drop_first();
    if np.len() > 0 {
        let f = pkts[0].0;
        let g = pkts[1].0;
        assert(np[0] == pkts[1]);
        assert forall|i: int| 0 <= i < np.len() implies #[trigger] np[i] == pkts[i + 1] by {}
        assert(vend(f, pkts[0]) <= vstart(f, pkts[1]));
        assert forall|i: int, j: int| 0 <= i < j < np.len() implies vend(g, #[trigger] np[i]) <= vstart(
            g,
            #[trigger] np[j],
        ) by {
            assert(np[i] == pkts[i + 1] && np[j] == pkts[j + 1]);
            assert(vend(f, pkts[i + 1]) <= vstart(f, pkts[j + 1]));
            if i > 0 {
                assert(vend(f, pkts[1]) <= vstart(f, pkts[i + 1]));
            }
            assert(vend(f, pkts[1]) <= vstart(f, pkts[j + 1]));
        }
        assert forall|i: int| 0 <= i < np.len() implies vend(g, #[trigger] np[i]) <= g + PKT_BUF_LEN by {
            assert(np[i] == pkts[i + 1]);
            assert(vend(f, pkts[i + 1]) <= f + PKT_BUF_LEN);
            if i > 0 {
                assert(vend(f, pkts[1]) <= vstart(f, pkts[i + 1]));
            }
        }
    }
}

/// A queue of distinct slot numbers below MAX_PKTS is full exactly when it holds every slot.
proof fn lemma_full_queue(q: Seq<usize>)
    requires
        q.len() <= MAX_PKTS,
        forall|i: int, j: int| 0 <= i < j < q.len() ==> q[i] != q[j],
        forall|i: int| 0 <= i < q.len() ==> #[trigger] q[i] < MAX_PKTS,
    ensures
        q.len() == MAX_PKTS <==> (forall|s: int| 0 <= s < MAX_PKTS ==> #[trigger] q.contains(s as usize)),
{
    let all = Set::new(|s: usize| s < MAX_PKTS);
    let qs = q.to_set();
    lemma_usize_range_len(MAX_PKTS as nat);
    assert(q.no_duplicates()) by {
        assert forall|i: int, j: int| 0 <= i < q.len() && 0 <= j < q.len() && i != j implies q[i] != q[j] by {
            if i < j {} else {}
        }
    }
    q.unique_seq_to_set();
    assert(qs.subset_of(all)) by {
        assert forall|s: usize| qs.contains(s) implies all.contains(s) by {
            let k = choose|k: int| 0 <= k < q.len() && q[k] == s;
            assert(q[k] < MAX_PKTS);
        }
    }
    vstd::set_lib::lemma_len_subset(qs, all);
    if q.len() == MAX_PKTS {
        vstd::set_lib::lemma_subset_equality(qs, all);
        assert forall|s: int| 0 <= s < MAX_PKTS implies #[trigger] q.contains(s as usize) by {
            assert(all.contains(s as usize));
        }
    }
    if forall|s: int| 0 <= s < MAX_PKTS ==> #[trigger] q.contains(s as usize) {
        assert(qs =~= all) by {
            assert forall|s: usize| all.contains(s) implies qs.contains(s) by {
                assert(q.contains(s as int as usize));
            }
        }
    }
}

proof fn lemma_usize_range_len(n: nat)
    requires
        n <= usize::MAX,
    ensures
        Set::new(|s: usize| s < n).len() == n,
        Set::new(|s: usize| s < n).finite(),
    decreases n,
{
    if n == 0 {
        assert(Set::new(|s: usize| s < n) =~= Set::<usize>::empty());
    } else {
        lemma_usize_range_len((n - 1) as nat);
        assert(Set::new(|s: usize| s < n) =~= Set::new(|s: usize| s < (n - 1) as nat).insert(
            (n - 1) as usize,
        ));
    }
}

} // verus!
