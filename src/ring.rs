use vstd::prelude::*;

verus! {

/// The frames that a ring of `capacity` slots still holds after the writes in
/// `history` (oldest first): the last `min(W, capacity)` of them.
pub open spec fn retained(history: Seq<Seq<u8>>, capacity: nat) -> Seq<Seq<u8>> {
    if history.len() <= capacity {
        history
    } else {
        history.subrange(history.len() - capacity, history.len() as int)
    }
}

/// The byte sequences of a list of frames.
pub open spec fn frames_of(v: Seq<Vec<u8>>) -> Seq<Seq<u8>> {
    v.map_values(|f: Vec<u8>| f@)
}

/// Bytes in all of `frames` together.
pub open spec fn total_len(frames: Seq<Seq<u8>>) -> nat
    decreases frames.len(),
{
    if frames.len() == 0 {
        0
    } else {
        total_len(frames.drop_last()) + frames.last().len()
    }
}

/// A frame of `len` zero bytes.
pub open spec fn zero_frame(len: nat) -> Seq<u8> {
    Seq::new(len, |i: int| 0u8)
}

/// `payload` made exactly `len` bytes long: cut short, or padded with zeros.
pub open spec fn fit_to(payload: Seq<u8>, len: nat) -> Seq<u8> {
    if payload.len() >= len {
        payload.subrange(0, len as int)
    } else {
        payload + zero_frame((len - payload.len()) as nat)
    }
}

/// The ring's slots cannot be reserved.
#[derive(Debug, Clone, Copy, PartialEq, Eq, Structural)]
pub enum AllocationError {
    /// Their total size does not fit in a `usize`.
    TooLarge,
    /// The allocator refused them.
    OutOfMemory,
}

/// A fixed number of preallocated frame slots, overwritten in turn.
///
/// `history` is every frame ever written, oldest first; the slots hold its
/// last `capacity` entries, the oldest of them at `cursor` once the ring has
/// wrapped.
pub struct RingBuffer {
    slots: Vec<Vec<u8>>,
    cursor: usize,
    total_writes: u64,
    bytes_per_frame: usize,
    history: Ghost<Seq<Seq<u8>>>,
}

impl RingBuffer {
    /// Every frame written so far, oldest first.
    pub closed spec fn history(&self) -> Seq<Seq<u8>> {
        self.history@
    }

    pub closed spec fn spec_capacity(&self) -> nat {
        self.slots@.len()
    }

    pub closed spec fn spec_bytes_per_frame(&self) -> nat {
        self.bytes_per_frame as nat
    }

    /// What the ring holds, oldest first.
    pub open spec fn view_frames(&self) -> Seq<Seq<u8>> {
        retained(self.history(), self.spec_capacity())
    }

    /// What a save writes out: every slot, oldest first, so the slots never
    /// written (all zeros) come before the retained frames.
    pub open spec fn saved_frames(&self) -> Seq<Seq<u8>> {
        Seq::new(
            (self.spec_capacity() - self.view_frames().len()) as nat,
            |i: int| zero_frame(self.spec_bytes_per_frame()),
        ) + self.view_frames()
    }

    pub open spec fn spec_total_writes(&self) -> nat {
        if self.history().len() < u64::MAX {
            self.history().len()
        } else {
            u64::MAX as nat
        }
    }

    pub closed spec fn wf(&self) -> bool {
        let c = self.slots@.len();
        let w = self.history@.len();
        &&& c >= 1
        &&& self.bytes_per_frame >= 1
        &&& c * self.bytes_per_frame <= usize::MAX
        &&& self.cursor < c
        &&& self.total_writes as nat == self.spec_total_writes()
        &&& forall|i: int| 0 <= i < c ==> (#[trigger] self.slots@[i])@.len() == self.bytes_per_frame
        &&& forall|k: int| 0 <= k < w ==> (#[trigger] self.history@[k]).len() == self.bytes_per_frame
        &&& w < c ==> {
            &&& self.cursor == w
            &&& forall|i: int| 0 <= i < w ==> (#[trigger] self.slots@[i])@ == self.history@[i]
            &&& forall|i: int|
                w <= i < c ==> (#[trigger] self.slots@[i])@ == zero_frame(
                    self.bytes_per_frame as nat,
                )
        }
        &&& w >= c ==> {
            &&& forall|i: int|
                self.cursor <= i < c ==> (#[trigger] self.slots@[i])@ == self.history@[w - c + i
                    - self.cursor]
            &&& forall|i: int|
                0 <= i < self.cursor ==> (#[trigger] self.slots@[i])@ == self.history@[w
                    - self.cursor + i]
        }
    }

    /// Reserves `capacity` zero-filled slots of `bytes_per_frame` bytes each.
    pub fn new(capacity: usize, bytes_per_frame: usize) -> (r: Result<RingBuffer, AllocationError>)
        requires
            capacity >= 1,
            bytes_per_frame >= 1,
        ensures
            capacity * bytes_per_frame > usize::MAX ==> r == Err::<RingBuffer, AllocationError>(
                AllocationError::TooLarge,
            ),
            r matches Err(e) ==> (e == AllocationError::TooLarge <==> capacity * bytes_per_frame
                > usize::MAX),
            r matches Ok(b) ==> {
                &&& b.wf()
                &&& b.spec_capacity() == capacity
                &&& b.spec_bytes_per_frame() == bytes_per_frame
                &&& b.history() == Seq::<Seq<u8>>::empty()
            },
    {
        if bytes_per_frame > usize::MAX / capacity {
            proof {
                assert(capacity * bytes_per_frame > usize::MAX) by (nonlinear_arith)
                    requires
                        bytes_per_frame > usize::MAX / capacity,
                        capacity >= 1,
                ;
            }
            return Err(AllocationError::TooLarge);
        }
        proof {
            assert(capacity * bytes_per_frame <= usize::MAX) by (nonlinear_arith)
                requires
                    bytes_per_frame <= usize::MAX / capacity,
                    capacity >= 1,
            ;
        }
        let mut slots: Vec<Vec<u8>> = Vec::new();
        match slots.try_reserve(capacity) {
            Ok(()) => {},
            Err(_) => {
                return Err(AllocationError::OutOfMemory);
            },
        }
        let mut n: usize = 0;
        while n < capacity
            invariant
                n <= capacity,
                capacity * bytes_per_frame <= usize::MAX,
                slots@.len() == n,
                forall|i: int| 0 <= i < n ==> (#[trigger] slots@[i])@ == zero_frame(
                    bytes_per_frame as nat,
                ),
            decreases capacity - n,
        {
            let mut slot: Vec<u8> = Vec::new();
            match slot.try_reserve(bytes_per_frame) {
                Ok(()) => {},
                Err(_) => {
                    return Err(AllocationError::OutOfMemory);
                },
            }
            let mut j: usize = 0;
            while j < bytes_per_frame
                invariant
                    j <= bytes_per_frame,
                    slot@ == zero_frame(j as nat),
                decreases bytes_per_frame - j,
            {
                slot.push(0u8);
                j = j + 1;
                assert(slot@ =~= zero_frame(j as nat));
            }
            slots.push(slot);
            n = n + 1;
        }
        Ok(RingBuffer {
            slots,
            cursor: 0,
            total_writes: 0,
            bytes_per_frame,
            history: Ghost(Seq::empty()),
        })
    }

    pub fn capacity(&self) -> (r: usize)
        requires
            self.wf(),
        ensures
            r == self.spec_capacity(),
    {
        self.slots.len()
    }

    pub fn bytes_per_frame(&self) -> (r: usize)
        requires
            self.wf(),
        ensures
            r == self.spec_bytes_per_frame(),
    {
        self.bytes_per_frame
    }

    /// Bytes in a full ring, which is also the size of a saved raw file.
    pub fn total_bytes(&self) -> (r: u64)
        requires
            self.wf(),
        ensures
            r == self.spec_capacity() * self.spec_bytes_per_frame(),
    {
        let total: usize = self.slots.len() * self.bytes_per_frame;
        total as u64
    }

    /// How many frames were written in all, saturating at `u64::MAX`.
    pub fn total_writes(&self) -> (r: u64)
        requires
            self.wf(),
        ensures
            r == self.spec_total_writes(),
    {
        self.total_writes
    }

    /// How many frames the ring holds: `min(total writes, capacity)`.
    pub fn len(&self) -> (r: usize)
        requires
            self.wf(),
        ensures
            r == self.view_frames().len(),
    {
        if self.total_writes < self.slots.len() as u64 {
            self.total_writes as usize
        } else {
            self.slots.len()
        }
    }

    /// Copies `payload` over the oldest slot (or the first unused one),
    /// cut short or padded with zeros to the frame size.
    pub fn write_fitted(&mut self, payload: &[u8])
        requires
            old(self).wf(),
        ensures
            final(self).wf(),
            final(self).history() == old(self).history().push(
                fit_to(payload@, old(self).spec_bytes_per_frame()),
            ),
            final(self).spec_capacity() == old(self).spec_capacity(),
            final(self).spec_bytes_per_frame() == old(self).spec_bytes_per_frame(),
    {
        let ghost old_slots = self.slots@;
        let ghost frame = fit_to(payload@, self.bytes_per_frame as nat);
        let cursor = self.cursor;
        let len = self.slots.len();
        let size = self.bytes_per_frame;
        let mut slot: Vec<u8> = Vec::new();
        self.slots.set_and_swap(cursor, &mut slot);
        let mut j: usize = 0;
        while j < size
            invariant
                j <= size,
                slot@.len() == size,
                frame.len() == size,
                frame == fit_to(payload@, size as nat),
                forall|i: int| 0 <= i < j ==> slot@[i] == frame[i],
            decreases size - j,
        {
            let b: u8 = if j < payload.len() {
                payload[j]
            } else {
                0
            };
            slot.set(j, b);
            j = j + 1;
        }
        assert(slot@ =~= frame);
        self.slots.set_and_swap(cursor, &mut slot);
        assert(self.slots@[cursor as int]@ == frame);
        assert(forall|i: int| 0 <= i < len && i != cursor ==> self.slots@[i] == old_slots[i]);
        self.cursor = if cursor + 1 == len {
            0
        } else {
            cursor + 1
        };
        if self.total_writes < u64::MAX {
            self.total_writes = self.total_writes + 1;
        }
        self.history = Ghost(self.history@.push(frame));
    }

    /// Copies `payload`, exactly one frame long, over the oldest slot (or the
    /// first unused one).
    pub fn write(&mut self, payload: &[u8])
        requires
            old(self).wf(),
            payload@.len() == old(self).spec_bytes_per_frame(),
        ensures
            final(self).wf(),
            final(self).history() == old(self).history().push(payload@),
            final(self).spec_capacity() == old(self).spec_capacity(),
            final(self).spec_bytes_per_frame() == old(self).spec_bytes_per_frame(),
    {
        assert(fit_to(payload@, payload@.len()) =~= payload@);
        self.write_fitted(payload);
    }

    /// The frames the ring holds, oldest first, copied out.
    pub fn linearize(&self) -> (r: Vec<Vec<u8>>)
        requires
            self.wf(),
        ensures
            frames_of(r@) == self.view_frames(),
    {
        let count = self.len();
        let mut out: Vec<Vec<u8>> = Vec::new();
        let mut k: usize = 0;
        while k < count
            invariant
                self.wf(),
                count == self.view_frames().len(),
                k <= count,
                out@.len() == k,
                forall|m: int| 0 <= m < k ==> (#[trigger] out@[m])@ == self.view_frames()[m],
            decreases count - k,
        {
            let frame = self.frame(k);
            let mut copy: Vec<u8> = Vec::new();
            let mut j: usize = 0;
            while j < frame.len()
                invariant
                    j <= frame@.len(),
                    copy@ == frame@.subrange(0, j as int),
                decreases frame@.len() - j,
            {
                copy.push(frame[j]);
                j = j + 1;
                assert(copy@ =~= frame@.subrange(0, j as int));
            }
            assert(copy@ =~= frame@);
            out.push(copy);
            k = k + 1;
        }
        assert(frames_of(out@) =~= self.view_frames());
        out
    }

    /// The slot that holds the `k`-th oldest retained frame.
    fn slot_of(&self, k: usize) -> (r: usize)
        requires
            self.wf(),
            k < self.view_frames().len(),
        ensures
            r < self.spec_capacity(),
            self.slots@[r as int]@ == self.view_frames()[k as int],
    {
        let c = self.slots.len();
        if self.total_writes < c as u64 {
            k
        } else if k < c - self.cursor {
            self.cursor + k
        } else {
            k - (c - self.cursor)
        }
    }

    /// The `k`-th frame that a save writes out, without copying it.
    pub fn saved_frame(&self, k: usize) -> (r: &Vec<u8>)
        requires
            self.wf(),
            k < self.spec_capacity(),
        ensures
            r@ == self.saved_frames()[k as int],
            r@.len() == self.spec_bytes_per_frame(),
    {
        let c = self.slots.len();
        let s = if k < c - self.cursor {
            self.cursor + k
        } else {
            k - (c - self.cursor)
        };
        &self.slots[s]
    }

    /// The `k`-th oldest retained frame, without copying it.
    pub fn frame(&self, k: usize) -> (r: &Vec<u8>)
        requires
            self.wf(),
            k < self.view_frames().len(),
        ensures
            r@ == self.view_frames()[k as int],
            r@.len() == self.spec_bytes_per_frame(),
    {
        let s = self.slot_of(k);
        &self.slots[s]
    }
}

/// After any run of writes into a ring of capacity `capacity`, the ring holds
/// `min(W, capacity)` frames: the last ones written, in the order written,
/// so the newest write comes last.
pub proof fn lemma_retained_window(history: Seq<Seq<u8>>, capacity: nat)
    requires
        capacity >= 1,
    ensures
        retained(history, capacity).len() == if history.len() <= capacity {
            history.len()
        } else {
            capacity
        },
        forall|k: int|
            0 <= k < retained(history, capacity).len() ==> #[trigger] retained(history, capacity)[k]
                == history[history.len() - retained(history, capacity).len() + k],
        history.len() > 0 ==> retained(history, capacity).last() == history.last(),
{
}

/// Reading the ring out twice, with no write in between, gives the same
/// frames both times.
pub proof fn lemma_linearize_idempotent(
    ring: RingBuffer,
    first: Seq<Vec<u8>>,
    second: Seq<Vec<u8>>,
)
    requires
        ring.wf(),
        frames_of(first) == ring.view_frames(),
        frames_of(second) == ring.view_frames(),
    ensures
        frames_of(first) == frames_of(second),
        first.len() == second.len(),
        forall|k: int| 0 <= k < first.len() ==> (#[trigger] first[k])@ == second[k]@,
{
    assert(frames_of(first).len() == first.len());
    assert(frames_of(second).len() == second.len());
    assert forall|k: int| 0 <= k < first.len() implies (#[trigger] first[k])@ == second[k]@ by {
        assert(frames_of(first)[k] == first[k]@);
        assert(frames_of(second)[k] == second[k]@);
    }
}

proof fn lemma_total_len_uniform(frames: Seq<Seq<u8>>, size: nat)
    requires
        forall|i: int| 0 <= i < frames.len() ==> (#[trigger] frames[i]).len() == size,
    ensures
        total_len(frames) == frames.len() * size,
    decreases frames.len(),
{
    if frames.len() > 0 {
        let rest = frames.drop_last();
        assert forall|i: int| 0 <= i < rest.len() implies (#[trigger] rest[i]).len() == size by {
            assert(rest[i] == frames[i]);
        }
        lemma_total_len_uniform(rest, size);
        let n = frames.len() as int;
        assert((n - 1) * size + size == n * size) by (nonlinear_arith);
    }
}

/// What a save writes out is every slot, each one frame long: the raw file
/// holds exactly capacity × frame size bytes.
pub proof fn lemma_saved_size(ring: RingBuffer)
    requires
        ring.wf(),
    ensures
        ring.saved_frames().len() == ring.spec_capacity(),
        forall|k: int|
            0 <= k < ring.saved_frames().len() ==> (#[trigger] ring.saved_frames()[k]).len()
                == ring.spec_bytes_per_frame(),
        total_len(ring.saved_frames()) == ring.spec_capacity() * ring.spec_bytes_per_frame(),
{
    let saved = ring.saved_frames();
    let view = ring.view_frames();
    let blanks = (ring.spec_capacity() - view.len()) as nat;
    assert forall|k: int| 0 <= k < saved.len() implies (#[trigger] saved[k]).len()
        == ring.spec_bytes_per_frame() by {
        if k >= blanks {
            let w = ring.history().len();
            let j = w - view.len() + (k - blanks);
            assert(view[k - blanks] == ring.history()[j]);
        }
    }
    lemma_total_len_uniform(saved, ring.spec_bytes_per_frame());
}

} // verus!
