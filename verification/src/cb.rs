//! A fixed-size byte ring used to queue outgoing telemetry.
//!
//! The ring keeps `size` bytes starting at `head`; `tail` is where the next
//! byte goes.  When `head == tail` the ring is either empty (`size == 0`) or
//! full (`size == RING_BUFFER_SZ`).  Appending a block that does not fit
//! drops the oldest bytes so that the newest ones are always kept.
use vstd::prelude::*;
use vstd::arithmetic::div_mod::lemma_fundamental_div_mod_converse;

verus! {

/// Number of bytes the ring holds.
pub const RING_BUFFER_SZ: usize = 0x10000;

/// Physical slot of the `i`-th byte counted from slot `p`, wrapping once
/// around the end of the ring (`0 <= p < RING_BUFFER_SZ`, `0 <= i <= RING_BUFFER_SZ`).
pub open spec fn phys(p: int, i: int) -> int {
    if p + i < RING_BUFFER_SZ {
        p + i
    } else {
        p + i - RING_BUFFER_SZ
    }
}

/// How many slots lie from slot `from` forward to slot `p`.
pub open spec fn dist(from: int, p: int) -> int {
    if p >= from {
        p - from
    } else {
        p + RING_BUFFER_SZ - from
    }
}

/// What the queue holds after `v` is appended to `s` by `enqueue_slice`: a
/// block longer than the ring is refused; otherwise the newest
/// `RING_BUFFER_SZ` bytes of `s + v` are kept.
pub open spec fn enqueue_slice_view(s: Seq<u8>, v: Seq<u8>) -> Seq<u8> {
    if v.len() > RING_BUFFER_SZ {
        s
    } else if s.len() + v.len() <= RING_BUFFER_SZ {
        s + v
    } else {
        (s + v).subrange(s.len() + v.len() - RING_BUFFER_SZ, s.len() + v.len() as int)
    }
}

/// The bytes that `dequeue_slice` hands out when asked for `n` of them:
/// the `n` oldest ones, or nothing when fewer than `n` are queued.
pub open spec fn dequeue_slice_taken(s: Seq<u8>, n: nat) -> Seq<u8> {
    if n > s.len() {
        Seq::empty()
    } else {
        s.subrange(0, n as int)
    }
}

/// What stays queued after `dequeue_slice` is asked for `n` bytes.
pub open spec fn dequeue_slice_rest(s: Seq<u8>, n: nat) -> Seq<u8> {
    if n > s.len() {
        s
    } else {
        s.subrange(n as int, s.len() as int)
    }
}

/// `x % RING_BUFFER_SZ` for `0 <= x < 2 * RING_BUFFER_SZ` is a single wrap.
proof fn lemma_mod_once(x: int)
    requires
        0 <= x < 2 * RING_BUFFER_SZ,
    ensures
        x % (RING_BUFFER_SZ as int) == if x < RING_BUFFER_SZ { x } else { x - RING_BUFFER_SZ },
{
    if x < RING_BUFFER_SZ {
        lemma_fundamental_div_mod_converse(x, RING_BUFFER_SZ as int, 0, x);
    } else {
        lemma_fundamental_div_mod_converse(x, RING_BUFFER_SZ as int, 1, x - RING_BUFFER_SZ);
    }
}

/// Where the queued bytes lie in the ring.
struct Span {
    head: usize,
    tail: usize,
    size: usize,
}

pub struct CircularBuffer {
    ring: Vec<u8>,
    span: Span,
}

impl View for CircularBuffer {
    type V = Seq<u8>;

    /// The queued bytes, oldest first.
    closed spec fn view(&self) -> Seq<u8> {
        Seq::new(self.span.size as nat, |i: int| self.ring@[phys(self.span.head as int, i)])
    }
}

impl CircularBuffer {
    /// The ring has its full size, the indices lie in it, and `tail` is
    /// `size` slots after `head`.
    #[verifier::type_invariant]
    spec fn wf(&self) -> bool {
        &&& self.ring@.len() == RING_BUFFER_SZ
        &&& self.span.head < RING_BUFFER_SZ
        &&& self.span.tail < RING_BUFFER_SZ
        &&& self.span.size <= RING_BUFFER_SZ
        &&& self.span.tail == phys(self.span.head as int, self.span.size as int)
    }

    /// Slot of the oldest queued byte.
    pub closed spec fn head_index(&self) -> int {
        self.span.head as int
    }

    /// Slot where the next byte is written.
    pub closed spec fn tail_index(&self) -> int {
        self.span.tail as int
    }

    pub fn new() -> (b: Self)
        ensures
            b@ == Seq::<u8>::empty(),
            b.head_index() == 0,
            b.tail_index() == 0,
    {
        let b = CircularBuffer {
            ring: vec![0x0u8; RING_BUFFER_SZ],
            span: Span { head: 0, tail: 0, size: 0 },
        };
        assert(b@ =~= Seq::<u8>::empty());
        b
    }

    pub fn has_elements(&self) -> (r: bool)
        ensures
            r == (self@.len() != 0),
    {
        self.span.size != 0
    }

    pub fn is_full(&self) -> (r: bool)
        ensures
            r == (self@.len() == RING_BUFFER_SZ),
    {
        proof {
            use_type_invariant(self);
        }
        self.span.size == self.ring.len()
    }

    /// Bytes queued; never more than the ring holds.
    pub fn len(&self) -> (r: usize)
        ensures
            r == self@.len(),
            r <= RING_BUFFER_SZ,
    {
        proof {
            use_type_invariant(self);
        }
        self.span.size
    }

    pub fn free_space(&self) -> (r: usize)
        ensures
            r == RING_BUFFER_SZ - self@.len(),
    {
        proof {
            use_type_invariant(self);
        }
        self.ring.len() - self.len()
    }

    /// Slot of the oldest queued byte.
    pub fn head(&self) -> (r: usize)
        ensures
            r == self.head_index(),
            r < RING_BUFFER_SZ,
    {
        proof {
            use_type_invariant(self);
        }
        self.span.head
    }

    /// Slot where the next byte will be written: as many slots after the
    /// head as bytes are queued, so that it meets the head exactly when the
    /// ring is empty or full.
    pub fn tail(&self) -> (r: usize)
        ensures
            r == self.tail_index(),
            r < RING_BUFFER_SZ,
            self.tail_index() == (self.head_index() + self@.len()) % (RING_BUFFER_SZ as int),
            (self.head_index() == self.tail_index()) <==> (self@.len() == 0 || self@.len()
                == RING_BUFFER_SZ),
    {
        proof {
            use_type_invariant(self);
            lemma_mod_once(self.span.head + self.span.size);
        }
        self.span.tail
    }

    fn empty(&mut self)
        ensures
            final(self)@ == Seq::<u8>::empty(),
            final(self).head_index() == 0,
            final(self).tail_index() == 0,
    {
        proof {
            use_type_invariant(&*self);
        }
        self.span = Span { head: 0, tail: 0, size: 0 };
        assert(self@ =~= Seq::<u8>::empty());
    }

    /// Appends one byte.  The ring must have room for it.
    pub fn enqueue(&mut self, val: u8)
        requires
            old(self)@.len() < RING_BUFFER_SZ,
        ensures
            final(self)@ == old(self)@.push(val),
            final(self).head_index() == old(self).head_index(),
            final(self).tail_index() == (old(self).tail_index() + 1) % (RING_BUFFER_SZ as int),
    {
        proof {
            use_type_invariant(&*self);
        }
        let ghost old_view = self@;
        let t = self.span.tail;
        self.ring[t] = val;
        proof {
            lemma_mod_once(t + 1);
        }
        self.span = Span {
            head: self.span.head,
            tail: (t + 1) % self.ring.len(),
            size: self.span.size + 1,
        };
        assert forall|i: int| 0 <= i < self.span.size implies #[trigger] self@[i] == old_view.push(
            val,
        )[i] by {
            if i < self.span.size - 1 {
                assert(phys(self.span.head as int, i) != t);
            }
        }
        assert(self@ =~= old_view.push(val));
    }

    /// Takes out the oldest byte, if there is one.
    pub fn dequeue(&mut self) -> (r: Option<u8>)
        ensures
            old(self)@.len() == 0 ==> r is None && final(self)@ == old(self)@,
            old(self)@.len() > 0 ==> r == Some(old(self)@[0]) && final(self)@ == old(self)@.drop_first(),
    {
        proof {
            use_type_invariant(&*self);
        }
        if self.has_elements() {
            let ghost old_view = self@;
            let h = self.span.head;
            let val = self.ring[h];
            proof {
                lemma_mod_once(h + 1);
            }
            self.span = Span {
                head: (h + 1) % self.ring.len(),
                tail: self.span.tail,
                size: self.span.size - 1,
            };
            assert(self@ =~= old_view.drop_first());
            Some(val)
        } else {
            None
        }
    }

    /// Appends a block.  A block longer than the ring is refused and `false`
    /// returned; otherwise the block is stored and, if the ring overflows,
    /// the oldest bytes are dropped so that all of the block fits.
    pub fn enqueue_slice(&mut self, val: &[u8]) -> (ok: bool)
        ensures
            ok == (val@.len() <= RING_BUFFER_SZ),
            final(self)@ == enqueue_slice_view(old(self)@, val@),
            !ok ==> final(self).head_index() == old(self).head_index() && final(self).tail_index()
                == old(self).tail_index(),
            ok ==> final(self).tail_index() == (old(self).tail_index() + val@.len()) % (
            RING_BUFFER_SZ as int),
            ok && old(self)@.len() + val@.len() <= RING_BUFFER_SZ ==> final(self).head_index()
                == old(self).head_index(),
            ok && old(self)@.len() + val@.len() > RING_BUFFER_SZ ==> final(self).head_index()
                == final(self).tail_index(),
    {
        proof {
            use_type_invariant(&*self);
        }
        if val.len() > self.ring.len() {
            return false;
        }
        let ghost old_ring = self.ring@;
        let ghost old_view = self@;
        let len = val.len();
        let t = self.span.tail;
        let old_size = self.span.size;
        let h = self.span.head;
        let mut pos = t;
        let mut j: usize = 0;
        while j < len
            invariant
                self.ring@.len() == RING_BUFFER_SZ,
                self.span.size == old_size,
                self.span.head == h,
                self.span.tail == t,
                old_size <= RING_BUFFER_SZ,
                h < RING_BUFFER_SZ,
                t == phys(h as int, old_size as int),
                old_view.len() == old_size,
                forall|i: int| 0 <= i < old_size ==> #[trigger] old_view[i] == old_ring[phys(h as int, i)],
                old_ring.len() == RING_BUFFER_SZ,
                len == val@.len(),
                len <= RING_BUFFER_SZ,
                j <= len,
                t < RING_BUFFER_SZ,
                pos < RING_BUFFER_SZ,
                pos == phys(t as int, j as int),
                forall|p: int|
                    0 <= p < RING_BUFFER_SZ ==> #[trigger] self.ring@[p] == if dist(
                        t as int,
                        p,
                    ) < j {
                        val@[dist(t as int, p)]
                    } else {
                        old_ring[p]
                    },
            decreases len - j,
        {
            self.ring[pos] = val[j];
            pos = if pos + 1 == self.ring.len() {
                0
            } else {
                pos + 1
            };
            j += 1;
        }
        proof {
            lemma_mod_once(t + len);
        }
        let new_tail = (t + len) % self.ring.len();
        if old_size + len > self.ring.len() {
            self.span = Span { head: new_tail, tail: new_tail, size: self.ring.len() };
        } else {
            self.span = Span { head: h, tail: new_tail, size: old_size + len };
        }
        proof {
            let target = enqueue_slice_view(old_view, val@);
            let whole = old_view + val@;
            let skip: int = whole.len() - target.len();
            assert forall|i: int| 0 <= i < self.span.size implies #[trigger] self@[i]
                == target[i] by {
                let k = i + skip;
                let p = phys(self.span.head as int, i);
                if k < old_size {
                    assert(p == phys(h as int, k));
                    assert(dist(t as int, p) >= len);
                    assert(whole[k] == old_view[k]);
                } else {
                    assert(p == phys(t as int, k - old_size));
                    assert(dist(t as int, p) == k - old_size);
                    assert(whole[k] == val@[k - old_size]);
                }
            }
            assert(self@ =~= target);
        }
        true
    }

    /// Takes out as many of the oldest bytes as `val` is long and returns that
    /// number.  When fewer bytes are queued than `val` holds, nothing is taken,
    /// `val` is left alone and 0 is returned.
    pub fn dequeue_slice(&mut self, val: &mut [u8]) -> (n: usize)
        ensures
            old(val)@.len() <= old(self)@.len() ==> n == old(val)@.len(),
            old(val)@.len() > old(self)@.len() ==> n == 0 && final(val)@ == old(val)@,
            old(val)@.len() <= old(self)@.len() ==> final(val)@ == dequeue_slice_taken(
                old(self)@,
                old(val)@.len(),
            ),
            final(val)@.len() == old(val)@.len(),
            final(self)@ == dequeue_slice_rest(old(self)@, old(val)@.len()),
            final(self).tail_index() == old(self).tail_index(),
            final(self).head_index() == (old(self).head_index() + n) % (RING_BUFFER_SZ as int),
    {
        proof {
            use_type_invariant(&*self);
            lemma_mod_once(self.span.head as int);
        }
        if val.len() > self.len() {
            return 0;
        }
        let ghost old_view = self@;
        let n = val.len();
        let h = self.span.head;
        let mut pos = h;
        let mut j: usize = 0;
        while j < n
            invariant
                self.ring@.len() == RING_BUFFER_SZ,
                self.span.head == h,
                self.span.size == old_view.len(),
                h < RING_BUFFER_SZ,
                old_view.len() <= RING_BUFFER_SZ,
                self@ == old_view,
                n == val@.len(),
                n <= old_view.len(),
                j <= n,
                pos < RING_BUFFER_SZ,
                pos == phys(h as int, j as int),
                forall|k: int| 0 <= k < j ==> #[trigger] val@[k] == old_view[k],
            decreases n - j,
        {
            val[j] = self.ring[pos];
            pos = if pos + 1 == self.ring.len() {
                0
            } else {
                pos + 1
            };
            j += 1;
        }
        proof {
            lemma_mod_once(h + n);
        }
        self.span = Span {
            head: (h + n) % self.ring.len(),
            tail: self.span.tail,
            size: self.span.size - n,
        };
        assert(val@ =~= old_view.subrange(0, n as int));
        assert(self@ =~= old_view.subrange(n as int, old_view.len() as int));
        n
    }
}

/// The ring never holds more than it has room for: whatever was queued
/// before (at most `RING_BUFFER_SZ` bytes), at most `RING_BUFFER_SZ` bytes are
/// queued after `enqueue_slice`.
pub proof fn lemma_enqueue_slice_bounded(s: Seq<u8>, v: Seq<u8>)
    requires
        s.len() <= RING_BUFFER_SZ,
    ensures
        enqueue_slice_view(s, v).len() <= RING_BUFFER_SZ,
{
}

/// While the ring has room, `enqueue_slice` loses nothing: the block is
/// simply placed after what was queued.
pub proof fn lemma_enqueue_slice_no_loss(s: Seq<u8>, v: Seq<u8>)
    requires
        s.len() + v.len() <= RING_BUFFER_SZ,
    ensures
        enqueue_slice_view(s, v) == s + v,
{
}

/// An accepted block is always kept whole, as the newest bytes, and the ring
/// then holds as many bytes as fit of the old contents and the block
/// together; what is dropped is always the oldest.
pub proof fn lemma_enqueue_slice_keeps_newest(s: Seq<u8>, v: Seq<u8>)
    requires
        s.len() <= RING_BUFFER_SZ,
        v.len() <= RING_BUFFER_SZ,
    ensures
        ({
            let r = enqueue_slice_view(s, v);
            &&& r.len() == if s.len() + v.len() <= RING_BUFFER_SZ {
                s.len() + v.len()
            } else {
                RING_BUFFER_SZ as nat
            }
            &&& r.subrange(r.len() - v.len(), r.len() as int) == v
            &&& r.subrange(0, r.len() - v.len()) == s.subrange(
                s.len() - (r.len() - v.len()),
                s.len() as int,
            )
        }),
{
    let r = enqueue_slice_view(s, v);
    assert(r.subrange(r.len() - v.len(), r.len() as int) =~= v);
    assert(r.subrange(0, r.len() - v.len()) =~= s.subrange(
        s.len() - (r.len() - v.len()),
        s.len() as int,
    ));
}

/// A block that is refused leaves the queue as it was.
pub proof fn lemma_enqueue_slice_refused(s: Seq<u8>, v: Seq<u8>)
    requires
        v.len() > RING_BUFFER_SZ,
    ensures
        enqueue_slice_view(s, v) == s,
{
}

/// What goes in comes out in the same order: a block queued into an empty
/// ring is handed back whole by one `dequeue_slice` of its length, and the
/// ring is empty again.
pub proof fn lemma_round_trip(v: Seq<u8>)
    requires
        v.len() <= RING_BUFFER_SZ,
    ensures
        dequeue_slice_taken(enqueue_slice_view(Seq::empty(), v), v.len()) == v,
        dequeue_slice_rest(enqueue_slice_view(Seq::empty(), v), v.len()) == Seq::<u8>::empty(),
{
    assert(Seq::<u8>::empty() + v =~= v);
    assert(v.subrange(0, v.len() as int) =~= v);
    assert(v.subrange(v.len() as int, v.len() as int) =~= Seq::<u8>::empty());
}

/// Taking bytes out in pieces gives the same bytes, in the same order, as
/// taking them out at once: `n` bytes and then `m` bytes are the first
/// `n + m` bytes, and the same bytes stay queued.
pub proof fn lemma_dequeue_slice_split(s: Seq<u8>, n: nat, m: nat)
    requires
        n + m <= s.len(),
    ensures
        dequeue_slice_taken(s, n) + dequeue_slice_taken(dequeue_slice_rest(s, n), m)
            == dequeue_slice_taken(s, n + m),
        dequeue_slice_rest(dequeue_slice_rest(s, n), m) == dequeue_slice_rest(s, n + m),
{
    assert(dequeue_slice_taken(s, n) + dequeue_slice_taken(dequeue_slice_rest(s, n), m)
        =~= dequeue_slice_taken(s, n + m));
    assert(dequeue_slice_rest(dequeue_slice_rest(s, n), m) =~= dequeue_slice_rest(s, n + m));
}

/// Queueing one byte with `enqueue` does what `enqueue_slice` does with a
/// one-byte block, and taking one byte with `dequeue` does what
/// `dequeue_slice` does with a one-byte slice.
pub proof fn lemma_single_byte_agrees(s: Seq<u8>, x: u8)
    requires
        s.len() < RING_BUFFER_SZ,
    ensures
        s.push(x) == enqueue_slice_view(s, seq![x]),
        s.len() > 0 ==> dequeue_slice_taken(s, 1) == seq![s[0]] && dequeue_slice_rest(s, 1)
            == s.drop_first(),
{
    assert(s.push(x) =~= s + seq![x]);
    if s.len() > 0 {
        assert(dequeue_slice_taken(s, 1) =~= seq![s[0]]);
        assert(dequeue_slice_rest(s, 1) =~= s.drop_first());
    }
}


/// The bytes handed out by `n` one-byte `dequeue_slice` calls, in order.
pub open spec fn bytewise_taken(s: Seq<u8>, n: nat) -> Seq<u8>
    decreases n,
{
    if n == 0 {
        Seq::empty()
    } else {
        bytewise_taken(s, (n - 1) as nat) + dequeue_slice_taken(bytewise_rest(s, (n - 1) as nat), 1)
    }
}

/// What stays queued after `n` one-byte `dequeue_slice` calls.
pub open spec fn bytewise_rest(s: Seq<u8>, n: nat) -> Seq<u8>
    decreases n,
{
    if n == 0 {
        s
    } else {
        dequeue_slice_rest(bytewise_rest(s, (n - 1) as nat), 1)
    }
}

/// Reading byte by byte is reading at once: `n` one-byte `dequeue_slice`
/// calls (while at least `n` bytes are queued) hand out the same bytes, in
/// the same order, as one call for `n` bytes, and leave the same bytes
/// queued.
pub proof fn lemma_bytewise_dequeue(s: Seq<u8>, n: nat)
    requires
        n <= s.len(),
    ensures
        bytewise_taken(s, n) == dequeue_slice_taken(s, n),
        bytewise_rest(s, n) == dequeue_slice_rest(s, n),
    decreases n,
{
    if n == 0 {
        assert(dequeue_slice_taken(s, 0) =~= Seq::<u8>::empty());
        assert(dequeue_slice_rest(s, 0) =~= s);
    } else {
        let k = (n - 1) as nat;
        lemma_bytewise_dequeue(s, k);
        lemma_dequeue_slice_split(s, k, 1);
    }
}

} // verus!
