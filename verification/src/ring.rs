//! Fixed-capacity circular buffer of PCM samples.
//!
//! The buffer decouples the decode/normalize thread (sole writer) from the
//! hardware audio callback (sole reader).  It never grows and never blocks:
//! a push onto a full buffer drops the excess samples, and a pop from an
//! empty buffer leaves the caller to pad with silence.  Read and write
//! positions are tracked modulo the capacity, with one slot intentionally
//! left empty so that a full buffer is distinguishable from an empty one.

use vstd::prelude::*;

verus! {

/// Sample value used to pad the output when the buffer underruns.
pub const SILENCE: i16 = 0;

/// Slots in the playback buffer of one session: room for well over a
/// second of stereo 16-bit audio, exceeding the largest burst the
/// normalizer writes per iteration with headroom for jitter.
pub const PLAYBACK_BUFFER_CAPACITY: usize = 65536;

pub struct RingBuffer {
    buf: Vec<i16>,
    start: usize,
    end: usize,
}

impl RingBuffer {
    /// Total number of slots; at most `capacity() - 1` samples are ever held.
    pub closed spec fn capacity(&self) -> int {
        self.buf@.len() as int
    }

    pub closed spec fn wf(&self) -> bool {
        &&& 2 <= self.buf@.len()
        &&& self.start < self.buf@.len()
        &&& self.end < self.buf@.len()
    }

    /// Number of buffered samples, recovered from the two cursors.
    closed spec fn occ(&self) -> int {
        if self.end >= self.start {
            self.end - self.start
        } else {
            self.end + self.capacity() - self.start
        }
    }

    /// Index of the slot holding the `i`-th buffered sample (0 = oldest).
    closed spec fn slot(&self, i: int) -> int {
        if self.start + i < self.capacity() {
            self.start + i
        } else {
            self.start + i - self.capacity()
        }
    }

    proof fn lemma_view_len(&self)
        requires
            self.wf(),
        ensures
            self@.len() == self.occ(),
            0 <= self.occ() <= self.capacity() - 1,
            self.end == self.slot(self.occ()),
    {
    }
}

/// Number of samples a push of `items` onto contents `s` accepts: all of
/// them, or exactly as many as fit in the `cap - 1` usable slots.
pub open spec fn accepted_of(s: Seq<i16>, cap: int, items: Seq<i16>) -> int {
    if items.len() <= cap - 1 - s.len() {
        items.len() as int
    } else {
        cap - 1 - s.len()
    }
}

/// Contents after pushing `items`: the accepted prefix is appended, the
/// excess is dropped.
pub open spec fn push_result(s: Seq<i16>, cap: int, items: Seq<i16>) -> Seq<i16> {
    s + items.take(accepted_of(s, cap, items))
}

/// Number of samples a pop of `want` slots genuinely fills.
pub open spec fn pop_count(s: Seq<i16>, want: int) -> int {
    if want <= s.len() {
        want
    } else {
        s.len() as int
    }
}

/// Contents after popping `want` slots.
pub open spec fn pop_result(s: Seq<i16>, want: int) -> Seq<i16> {
    s.skip(pop_count(s, want))
}

impl View for RingBuffer {
    type V = Seq<i16>;

    closed spec fn view(&self) -> Seq<i16> {
        Seq::new(self.occ() as nat, |i: int| self.buf@[self.slot(i)])
    }
}

impl RingBuffer {
    /// Creates an empty buffer of `capacity` slots, able to hold up to
    /// `capacity - 1` samples.
    #[verifier::loop_isolation(false)]
    pub fn new(capacity: usize) -> (r: RingBuffer)
        requires
            2 <= capacity,
        ensures
            r.wf(),
            r@ =~= Seq::<i16>::empty(),
            r.capacity() == capacity,
    {
        let mut buf: Vec<i16> = Vec::new();
        while buf.len() < capacity
            invariant
                buf@.len() <= capacity,
            decreases capacity - buf@.len(),
        {
            buf.push(SILENCE);
        }
        RingBuffer { buf, start: 0, end: 0 }
    }

    pub fn is_empty(&self) -> (r: bool)
        requires
            self.wf(),
        ensures
            r == (self@.len() == 0),
    {
        proof {
            self.lemma_view_len();
        }
        self.start == self.end
    }

    pub fn is_full(&self) -> (r: bool)
        requires
            self.wf(),
        ensures
            r == (self@.len() == self.capacity() - 1),
    {
        proof {
            self.lemma_view_len();
        }
        let cap = self.buf.len();
        let next = if self.end + 1 == cap {
            0
        } else {
            self.end + 1
        };
        next == self.start
    }

    /// Current occupancy, read by the rate controller just before a push.
    pub fn len(&self) -> (r: usize)
        requires
            self.wf(),
        ensures
            r == self@.len(),
    {
        proof {
            self.lemma_view_len();
        }
        let cap = self.buf.len();
        if self.end >= self.start {
            self.end - self.start
        } else {
            cap - (self.start - self.end)
        }
    }

    /// Appends one sample; a sample offered to a full buffer is dropped.
    pub fn push(&mut self, item: i16)
        requires
            old(self).wf(),
        ensures
            final(self).wf(),
            final(self).capacity() == old(self).capacity(),
            old(self)@.len() == old(self).capacity() - 1 ==> final(self)@ =~= old(self)@,
            old(self)@.len() < old(self).capacity() - 1 ==> final(self)@ =~= old(self)@.push(
                item,
            ),
    {
        proof {
            self.lemma_view_len();
        }
        if self.is_full() {
            return ;
        }
        let ghost pre = *self;
        let cap = self.buf.len();
        self.buf.set(self.end, item);
        self.end = if self.end + 1 == cap {
            0
        } else {
            self.end + 1
        };
        proof {
            assert(self.occ() == pre.occ() + 1);
            assert forall|i: int| 0 <= i < pre.occ() implies self.buf@[self.slot(i)]
                == pre.buf@[pre.slot(i)] by {
                assert(self.slot(i) == pre.slot(i));
                assert(pre.slot(i) != pre.slot(pre.occ()));
            }
            assert(self.buf@[self.slot(pre.occ())] == item);
        }
    }

    /// Appends the samples of `items` in order, dropping exactly the excess
    /// once the buffer is full; returns how many were accepted.
    #[verifier::loop_isolation(false)]
    pub fn push_slice(&mut self, items: &[i16]) -> (accepted: usize)
        requires
            old(self).wf(),
        ensures
            final(self).wf(),
            final(self).capacity() == old(self).capacity(),
            accepted == accepted_of(old(self)@, old(self).capacity(), items@),
            final(self)@ =~= push_result(old(self)@, old(self).capacity(), items@),
    {
        let ghost pre = *self;
        let mut i: usize = 0;
        let mut accepted: usize = 0;
        while i < items.len()
            invariant
                pre.wf(),
                self.wf(),
                self.capacity() == pre.capacity(),
                i <= items@.len(),
                accepted == if i <= pre.capacity() - 1 - pre@.len() {
                    i as int
                } else {
                    pre.capacity() - 1 - pre@.len()
                },
                self@ =~= pre@ + items@.take(accepted as int),
            decreases items@.len() - i,
        {
            let full = self.is_full();
            self.push(items[i]);
            if !full {
                accepted = accepted + 1;
            }
            proof {
                assert(self@ =~= pre@ + items@.take(accepted as int));
            }
            i = i + 1;
        }
        accepted
    }

    /// Removes and returns the oldest sample; the buffer must not be empty.
    pub fn pop_unchecked(&mut self) -> (r: i16)
        requires
            old(self).wf(),
            old(self)@.len() > 0,
        ensures
            final(self).wf(),
            final(self).capacity() == old(self).capacity(),
            r == old(self)@[0],
            final(self)@ =~= old(self)@.skip(1),
    {
        proof {
            self.lemma_view_len();
        }
        let ghost pre = *self;
        let cap = self.buf.len();
        let item = self.buf[self.start];
        self.start = if self.start + 1 == cap {
            0
        } else {
            self.start + 1
        };
        proof {
            assert(self.occ() == pre.occ() - 1);
            assert forall|i: int| 0 <= i < self.occ() implies self.buf@[self.slot(i)]
                == pre.buf@[pre.slot(i + 1)] by {
                assert(self.slot(i) == pre.slot(i + 1));
            }
        }
        item
    }

    /// Removes and returns the oldest sample, if any.
    pub fn pop(&mut self) -> (r: Option<i16>)
        requires
            old(self).wf(),
        ensures
            final(self).wf(),
            final(self).capacity() == old(self).capacity(),
            old(self)@.len() == 0 ==> r is None && final(self)@ =~= old(self)@,
            old(self)@.len() > 0 ==> r == Some(old(self)@[0]) && final(self)@ =~= old(
                self,
            )@.skip(1),
    {
        if self.is_empty() {
            return None;
        }
        Some(self.pop_unchecked())
    }

    /// Fills a prefix of `out` with the oldest buffered samples and returns
    /// how many slots were filled; the remainder of `out` is untouched.
    #[verifier::loop_isolation(false)]
    pub fn pop_slice(&mut self, out: &mut Vec<i16>) -> (filled: usize)
        requires
            old(self).wf(),
        ensures
            final(self).wf(),
            final(self).capacity() == old(self).capacity(),
            final(out)@.len() == old(out)@.len(),
            filled == pop_count(old(self)@, old(out)@.len() as int),
            forall|i: int| 0 <= i < filled ==> final(out)@[i] == old(self)@[i],
            forall|i: int| filled <= i < old(out)@.len() ==> final(out)@[i] == old(out)@[i],
            final(self)@ =~= pop_result(old(self)@, old(out)@.len() as int),
    {
        let ghost pre = *self;
        let ghost pre_out = out@;
        let mut filled: usize = 0;
        while filled < out.len()
            invariant
                pre.wf(),
                self.wf(),
                self.capacity() == pre.capacity(),
                out@.len() == pre_out.len(),
                filled <= out@.len(),
                filled <= pre@.len(),
                self@ =~= pre@.skip(filled as int),
                forall|i: int| 0 <= i < filled ==> out@[i] == pre@[i],
                forall|i: int| filled <= i < out@.len() ==> out@[i] == pre_out[i],
            decreases out@.len() - filled,
        {
            if self.is_empty() {
                return filled;
            }
            let v = self.pop_unchecked();
            out.set(filled, v);
            filled = filled + 1;
            proof {
                assert(self@ =~= pre@.skip(filled as int));
            }
        }
        filled
    }

    /// Output-sink drain: fills `out` from the buffer and pads any shortfall
    /// with [`SILENCE`], so no stale or uninitialized samples ever reach the
    /// device.  Returns the count of genuinely buffered samples filled.
    #[verifier::loop_isolation(false)]
    pub fn pop_silence_padded(&mut self, out: &mut Vec<i16>) -> (filled: usize)
        requires
            old(self).wf(),
        ensures
            final(self).wf(),
            final(self).capacity() == old(self).capacity(),
            final(out)@.len() == old(out)@.len(),
            filled == pop_count(old(self)@, old(out)@.len() as int),
            forall|i: int| 0 <= i < filled ==> final(out)@[i] == old(self)@[i],
            forall|i: int| filled <= i < old(out)@.len() ==> final(out)@[i] == SILENCE,
            final(self)@ =~= pop_result(old(self)@, old(out)@.len() as int),
    {
        let filled = self.pop_slice(out);
        let ghost mid_out = out@;
        let mut i: usize = filled;
        while i < out.len()
            invariant
                filled <= i <= out@.len(),
                out@.len() == mid_out.len(),
                forall|j: int| 0 <= j < filled ==> out@[j] == mid_out[j],
                forall|j: int| filled <= j < i ==> out@[j] == SILENCE,
                forall|j: int| i <= j < out@.len() ==> out@[j] == mid_out[j],
            decreases out@.len() - i,
        {
            out.set(i, SILENCE);
            i = i + 1;
        }
        filled
    }
}

/// One abstract operation on the buffer: a push of a sample slice, or a pop
/// into an output slice of the given length.
pub enum RingOp {
    Push(Seq<i16>),
    Pop(nat),
}

/// Contents of the buffer after one operation.
pub open spec fn step_op(s: Seq<i16>, cap: int, op: RingOp) -> Seq<i16> {
    match op {
        RingOp::Push(items) => push_result(s, cap, items),
        RingOp::Pop(want) => pop_result(s, want as int),
    }
}

/// Contents of the buffer after a sequence of operations.
pub open spec fn run_ops(s: Seq<i16>, cap: int, ops: Seq<RingOp>) -> Seq<i16>
    decreases ops.len(),
{
    if ops.len() == 0 {
        s
    } else {
        run_ops(step_op(s, cap, ops[0]), cap, ops.drop_first())
    }
}

/// Total samples accepted by the pushes of an operation sequence.
pub open spec fn total_pushed(s: Seq<i16>, cap: int, ops: Seq<RingOp>) -> int
    decreases ops.len(),
{
    if ops.len() == 0 {
        0
    } else {
        (match ops[0] {
            RingOp::Push(items) => accepted_of(s, cap, items),
            RingOp::Pop(_) => 0,
        }) + total_pushed(step_op(s, cap, ops[0]), cap, ops.drop_first())
    }
}

/// Total samples genuinely filled by the pops of an operation sequence.
pub open spec fn total_popped(s: Seq<i16>, cap: int, ops: Seq<RingOp>) -> int
    decreases ops.len(),
{
    if ops.len() == 0 {
        0
    } else {
        (match ops[0] {
            RingOp::Push(_) => 0,
            RingOp::Pop(want) => pop_count(s, want as int),
        }) + total_popped(step_op(s, cap, ops[0]), cap, ops.drop_first())
    }
}

proof fn lemma_run_conservation(s: Seq<i16>, cap: int, ops: Seq<RingOp>)
    requires
        2 <= cap,
        s.len() <= cap - 1,
    ensures
        total_popped(s, cap, ops) <= s.len() + total_pushed(s, cap, ops),
        run_ops(s, cap, ops).len() == s.len() + total_pushed(s, cap, ops) - total_popped(
            s,
            cap,
            ops,
        ),
        run_ops(s, cap, ops).len() <= cap - 1,
    decreases ops.len(),
{
    if ops.len() > 0 {
        let s1 = step_op(s, cap, ops[0]);
        assert(s1.len() <= cap - 1);
        lemma_run_conservation(s1, cap, ops.drop_first());
    }
}

/// Conservation of samples: starting from an empty buffer, for every
/// sequence of `push_slice`/`pop_slice` operations, the total of samples
/// popped never exceeds the total accepted by pushes, and the occupancy is
/// exactly their difference — equivalently `(pushed - popped) mod capacity`
/// — always bounded by `capacity - 1`.
pub proof fn lemma_sample_conservation(cap: int, ops: Seq<RingOp>)
    requires
        2 <= cap,
    ensures
        total_popped(Seq::<i16>::empty(), cap, ops) <= total_pushed(Seq::<i16>::empty(), cap, ops),
        run_ops(Seq::<i16>::empty(), cap, ops).len() == total_pushed(Seq::<i16>::empty(), cap, ops)
            - total_popped(Seq::<i16>::empty(), cap, ops),
        run_ops(Seq::<i16>::empty(), cap, ops).len() == (total_pushed(Seq::<i16>::empty(), cap, ops)
            - total_popped(Seq::<i16>::empty(), cap, ops)) % cap,
        run_ops(Seq::<i16>::empty(), cap, ops).len() <= cap - 1,
{
    lemma_run_conservation(Seq::<i16>::empty(), cap, ops);
    let d = total_pushed(Seq::<i16>::empty(), cap, ops) - total_popped(
        Seq::<i16>::empty(),
        cap,
        ops,
    );
    assert(0 <= d < cap);
    assert(d % cap == d) by (nonlinear_arith)
        requires
            0 <= d < cap,
    ;
}

} // verus!
