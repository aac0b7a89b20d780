//! Single-producer, single-consumer ring buffer over a power-of-two array.
//!
//! `head` counts the elements ever written and `tail` those ever read; both
//! wrap at the machine word and are reduced to an array index by a bitmask.

use vstd::prelude::*;
use vstd::arithmetic::div_mod::{
    lemma_add_mod_noop, lemma_fundamental_div_mod, lemma_mod_bound, lemma_mod_multiples_vanish,
    lemma_mod_twice, lemma_small_mod,
};
use vstd::arithmetic::power2::is_pow2;
use crate::util::pow2::{is_power_of_two, lemma_mask_is_mod, lemma_word_range_multiple};

verus! {

/// Distance from counter `tail` up to counter `head`, where the counters
/// wrap at the machine word: what `head.wrapping_sub(tail)` computes.
pub open spec fn counter_distance(head: usize, tail: usize) -> int {
    if head >= tail {
        head - tail
    } else {
        head - tail + usize::MAX + 1
    }
}

/// Array index of the element `offset` places after counter `start`, in an
/// array of `n` elements.
pub open spec fn slot_index(start: int, offset: int, n: int) -> int {
    (start + offset) % n
}

/// The elements that a ring over the array `buf` holds between the counters
/// `tail` and `head`, oldest first.
pub open spec fn queued<T>(buf: Seq<T>, head: usize, tail: usize) -> Seq<T> {
    Seq::new(
        counter_distance(head, tail) as nat,
        |i: int| buf[slot_index(tail as int, i, buf.len() as int)],
    )
}

/// The array `buf` with the elements from index `start` on replaced by `mid`.
pub open spec fn spliced<T>(buf: Seq<T>, start: int, mid: Seq<T>) -> Seq<T> {
    buf.subrange(0, start) + mid + buf.subrange(start + mid.len(), buf.len() as int)
}

/// A counter advanced by `d` with wrap-around lands on the array index that
/// plain addition gives.
pub proof fn lemma_advance_index(c: usize, d: int, n: usize)
    requires
        is_pow2(n as int),
        0 <= d <= usize::MAX,
    ensures
        (if c + d > usize::MAX {
            c + d - usize::MAX - 1
        } else {
            c + d
        }) % (n as int) == (c + d) % (n as int),
{
    lemma_word_range_multiple(n);
    let q = choose|q: int| q > 0 && #[trigger] (q * n) == usize::MAX + 1;
    if c + d > usize::MAX {
        lemma_mod_multiples_vanish(-q, c + d, n as int);
        assert(n * (-q) + (c + d) == c + d - usize::MAX - 1) by (nonlinear_arith)
            requires
                q * n == usize::MAX + 1,
        ;
    }
}

/// Two positions less than `n` apart fall on different array indices.
pub proof fn lemma_indices_differ(t: int, i: int, j: int, n: int)
    requires
        n > 0,
        0 <= i < j < i + n,
    ensures
        (t + i) % n != (t + j) % n,
{
    lemma_fundamental_div_mod(t + i, n);
    lemma_fundamental_div_mod(t + j, n);
    let qi = (t + i) / n;
    let qj = (t + j) / n;
    if (t + i) % n == (t + j) % n {
        assert(j - i == n * (qj - qi)) by (nonlinear_arith)
            requires
                t + i == n * qi + (t + i) % n,
                t + j == n * qj + (t + j) % n,
                (t + i) % n == (t + j) % n,
        ;
        assert(false) by (nonlinear_arith)
            requires
                j - i == n * (qj - qi),
                0 < j - i < n,
        ;
    }
}

/// Writing into the run of free slots at the write position changes no
/// queued element.
pub proof fn lemma_free_run_untouched<T>(buf: Seq<T>, mid: Seq<T>, head: usize, tail: usize)
    requires
        is_pow2(buf.len() as int),
        buf.len() <= usize::MAX,
        counter_distance(head, tail) <= buf.len(),
        mid.len() <= buf.len() - counter_distance(head, tail),
        mid.len() <= buf.len() - (head as int) % (buf.len() as int),
    ensures
        spliced(buf, (head as int) % (buf.len() as int), mid).len() == buf.len(),
        queued(spliced(buf, (head as int) % (buf.len() as int), mid), head, tail) == queued(
            buf,
            head,
            tail,
        ),
        spliced(buf, (head as int) % (buf.len() as int), mid).subrange(
            (head as int) % (buf.len() as int),
            (head as int) % (buf.len() as int) + mid.len(),
        ) == mid,
{
    let n = buf.len() as int;
    let nn = buf.len() as usize;
    let h = (head as int) % n;
    let len = counter_distance(head, tail);
    let after = spliced(buf, h, mid);
    lemma_word_range_multiple(nn);
    lemma_mod_bound(head as int, n);
    lemma_advance_index(tail, len, nn);
    assert forall|i: int| 0 <= i < len implies after[#[trigger] slot_index(tail as int, i, n)]
        == buf[slot_index(tail as int, i, n)] by {
        let p = slot_index(tail as int, i, n);
        lemma_mod_bound(tail + i, n);
        if h <= p < h + mid.len() {
            let k = p - h;
            lemma_indices_differ(tail as int, i, len + k, n);
            lemma_mod_shift(head as int, tail + len, k, n);
            lemma_fundamental_div_mod(head as int, n);
            lemma_mod_multiples_vanish(head as int / n, h + k, n);
            lemma_small_mod((h + k) as nat, n as nat);
            assert(false);
        }
    }
    assert(queued(after, head, tail) =~= queued(buf, head, tail));
    assert(after.subrange(h, h + mid.len()) =~= mid);
}

/// A ring buffer of `N` elements, `N` a power of two.
///
/// Its view is the sequence of elements that were written and not yet read,
/// oldest first.
pub struct RingBuffer<T, const N: usize> {
    buffer: [T; N],
    head: usize,
    tail: usize,
}

impl<T, const N: usize> View for RingBuffer<T, N> {
    type V = Seq<T>;

    closed spec fn view(&self) -> Seq<T> {
        queued(self.buffer@, self.head, self.tail)
    }
}

impl<T, const N: usize> RingBuffer<T, N> {
    /// The capacity is a power of two and at most `N` elements are queued.
    pub closed spec fn wf(&self) -> bool {
        &&& is_pow2(N as int)
        &&& counter_distance(self.head, self.tail) <= N
    }

    /// A well-formed buffer holds at most `N` elements.
    pub proof fn lemma_len_bound(&self)
        requires
            self.wf(),
        ensures
            self@.len() <= N,
            N > 0,
    {
        lemma_word_range_multiple(N);
    }

    /// Number of elements the buffer can hold.
    pub fn capacity(&self) -> (r: usize)
        ensures
            r == N,
    {
        N
    }

    /// Number of queued elements.
    pub fn len(&self) -> (r: usize)
        requires
            self.wf(),
        ensures
            r == self@.len(),
            r <= N,
    {
        self.head.wrapping_sub(self.tail)
    }

    /// Whether nothing is queued.
    pub fn is_empty(&self) -> (r: bool)
        requires
            self.wf(),
        ensures
            r == (self@.len() == 0),
    {
        self.len() == 0
    }

    /// Whether `N` elements are queued.
    pub fn is_full(&self) -> (r: bool)
        requires
            self.wf(),
        ensures
            r == (self@.len() == N),
    {
        self.len() >= N
    }

    /// Number of elements that can still be written.
    pub fn available_write(&self) -> (r: usize)
        requires
            self.wf(),
        ensures
            r == N - self@.len(),
    {
        N - self.len()
    }

    /// Number of elements that can be read.
    pub fn available_read(&self) -> (r: usize)
        requires
            self.wf(),
        ensures
            r == self@.len(),
    {
        self.len()
    }

    /// Array index of the next element to write.
    pub closed spec fn write_index(&self) -> int {
        (self.head as int) % (N as int)
    }

    /// Array index of the next element to read.
    pub closed spec fn read_index(&self) -> int {
        (self.tail as int) % (N as int)
    }

    /// Length of the contiguous run of free slots that starts at the write
    /// position: all free slots, or those up to the end of the array where
    /// that is fewer.
    pub open spec fn write_run(&self) -> int {
        let free = N - self@.len();
        let to_end = N - self.write_index();
        if free < to_end {
            free
        } else {
            to_end
        }
    }

    /// What the run of free slots at the write position holds now. After
    /// `commit_write(n)` its first `n` elements are queued.
    pub closed spec fn staged(&self) -> Seq<T> {
        let start = (self.head as int) % (N as int);
        self.buffer@.subrange(start, start + self.write_run())
    }

    /// Length of the contiguous run of queued elements that starts at the
    /// read position: all queued elements, or those up to the end of the
    /// array where that is fewer.
    pub open spec fn read_run(&self) -> int {
        let len = self@.len() as int;
        let to_end = N - self.read_index();
        if len < to_end {
            len
        } else {
            to_end
        }
    }

    /// Both positions are array indices, the write position lies as many
    /// places behind the read position as elements are queued, and a run is
    /// empty only when there is no space or no data at all.
    pub proof fn lemma_runs(&self)
        requires
            self.wf(),
        ensures
            0 <= self.read_index() < N,
            0 <= self.write_index() < N,
            self.write_index() == (self.read_index() + self@.len()) % (N as int),
            self.staged().len() == self.write_run(),
            0 <= self.write_run() <= N - self@.len(),
            self.write_run() == 0 <==> self@.len() == N,
            0 <= self.read_run() <= self@.len(),
            self.read_run() == 0 <==> self@.len() == 0,
    {
        lemma_word_range_multiple(N);
        lemma_mod_bound(self.head as int, N as int);
        lemma_mod_bound(self.tail as int, N as int);
        lemma_advance_index(self.tail, counter_distance(self.head, self.tail), N);
        lemma_add_mod_noop(self.tail as int, counter_distance(self.head, self.tail), N as int);
        lemma_mod_twice(self.tail as int, N as int);
        lemma_add_mod_noop(
            (self.tail as int) % (N as int),
            counter_distance(self.head, self.tail),
            N as int,
        );
    }

    /// Where a position stands after it has moved on by `count` places.
    pub open spec fn moved_on(index: int, count: int) -> int {
        (index + count) % (N as int)
    }

    /// Moving on by `a` places and then by `b` is moving on by `a + b`.
    pub proof fn lemma_moved_on_twice(index: int, a: int, b: int)
        requires
            N > 0,
        ensures
            Self::moved_on(Self::moved_on(index, a), b) == Self::moved_on(index, a + b),
    {
        lemma_add_mod_noop(index + a, b, N as int);
        lemma_mod_twice(index + a, N as int);
        lemma_add_mod_noop((index + a) % (N as int), b, N as int);
    }

    /// A counter that wraps at the machine word and moves on by `count`
    /// moves its array index on by `count`.
    proof fn lemma_counter_moves(counter: usize, count: usize)
        requires
            is_pow2(N as int),
        ensures
            (counter.wrapping_add(count) as int) % (N as int) == Self::moved_on(
                (counter as int) % (N as int),
                count as int,
            ),
    {
        lemma_word_range_multiple(N);
        lemma_advance_index(counter, count as int, N);
        lemma_add_mod_noop(counter as int, count as int, N as int);
        lemma_mod_twice(counter as int, N as int);
        lemma_add_mod_noop((counter as int) % (N as int), count as int, N as int);
    }

    /// The array index that the counter `counter` stands for.
    fn index_of(&self, counter: usize) -> (r: usize)
        requires
            self.wf(),
        ensures
            r == counter % N,
            r < N,
    {
        proof {
            lemma_mask_is_mod(counter, N);
            lemma_mod_bound(counter as int, N as int);
        }
        counter & (N - 1)
    }
}

impl<T: Copy, const N: usize> RingBuffer<T, N> {
    /// An empty buffer. `N` has to be a power of two.
    pub fn new() -> (r: Self) where T: Default
        requires
            is_pow2(N as int),
        ensures
            r.wf(),
            r@ == Seq::<T>::empty(),
            r.write_index() == 0,
            r.read_index() == 0,
    {
        let r = RingBuffer { buffer: [T::default();N], head: 0, tail: 0 };
        assert(r@ =~= Seq::<T>::empty());
        proof {
            lemma_word_range_multiple(N);
            lemma_small_mod(0, N as nat);
        }
        r
    }

    /// An empty buffer whose slots hold `fill` until they are written, for
    /// an element type without a default value. `N` has to be a power of
    /// two.
    pub fn with_fill(fill: T) -> (r: Self)
        requires
            is_pow2(N as int),
        ensures
            r.wf(),
            r@ == Seq::<T>::empty(),
            r.write_index() == 0,
            r.read_index() == 0,
    {
        let r = RingBuffer { buffer: [fill;N], head: 0, tail: 0 };
        assert(r@ =~= Seq::<T>::empty());
        proof {
            lemma_word_range_multiple(N);
            lemma_small_mod(0, N as nat);
        }
        r
    }

    /// An empty buffer, or `None` where `N` is no power of two.
    pub fn try_new() -> (r: Option<Self>) where T: Default
        ensures
            r is Some == is_pow2(N as int),
            r matches Some(buffer) ==> buffer.wf() && buffer@ == Seq::<T>::empty()
                && buffer.write_index() == 0 && buffer.read_index() == 0,
    {
        if is_power_of_two(N) {
            Some(Self::new())
        } else {
            None
        }
    }

    /// Appends `value`, or returns `false` and changes nothing when the
    /// buffer is full.
    pub fn try_push(&mut self, value: T) -> (r: bool)
        requires
            old(self).wf(),
        ensures
            final(self).wf(),
            r == (old(self)@.len() < N),
            r ==> final(self)@ == old(self)@.push(value),
            !r ==> final(self)@ == old(self)@,
            final(self).read_index() == old(self).read_index(),
            final(self).write_index() == if r {
                Self::moved_on(old(self).write_index(), 1)
            } else {
                old(self).write_index()
            },
    {
        let head = self.head;
        let tail = self.tail;
        if head.wrapping_sub(tail) >= N {
            return false;
        }
        let idx = self.index_of(head);
        self.buffer[idx] = value;
        self.head = head.wrapping_add(1);
        proof {
            Self::lemma_counter_moves(head, 1);
            let len = counter_distance(head, tail);
            let n = N as int;
            lemma_advance_index(tail, len, N);
            assert(idx == (tail + len) % n);
            assert forall|i: int| 0 <= i < len implies self.buffer@[#[trigger] slot_index(
                tail as int,
                i,
                n,
            )] == old(self).buffer@[slot_index(tail as int, i, n)] by {
                lemma_indices_differ(tail as int, i, len, n);
            }
            assert(self@ =~= old(self)@.push(value));
        }
        true
    }

    /// Removes and returns the oldest element, or returns `None` when the
    /// buffer is empty.
    pub fn try_pop(&mut self) -> (r: Option<T>)
        requires
            old(self).wf(),
        ensures
            final(self).wf(),
            r is Some == (old(self)@.len() > 0),
            r matches Some(v) ==> v == old(self)@[0] && final(self)@ == old(self)@.subrange(
                1,
                old(self)@.len() as int,
            ),
            r is None ==> final(self)@ == old(self)@,
            final(self).write_index() == old(self).write_index(),
            final(self).read_index() == if r is Some {
                Self::moved_on(old(self).read_index(), 1)
            } else {
                old(self).read_index()
            },
    {
        let head = self.head;
        let tail = self.tail;
        if head == tail {
            return None;
        }
        let idx = self.index_of(tail);
        let value = self.buffer[idx];
        self.tail = tail.wrapping_add(1);
        proof {
            Self::lemma_counter_moves(tail, 1);
            let len = counter_distance(head, tail);
            let n = N as int;
            assert(old(self)@[0] == old(self).buffer@[slot_index(tail as int, 0, n)]);
            assert forall|i: int| 0 <= i < len - 1 implies #[trigger] slot_index(
                self.tail as int,
                i,
                n,
            ) == slot_index(tail as int, i + 1, n) by {
                lemma_advance_index(tail, 1, N);
                lemma_mod_shift(self.tail as int, (tail + 1) as int, i, n);
            }
            assert(self@ =~= old(self)@.subrange(1, old(self)@.len() as int));
        }
        Some(value)
    }

    /// The largest contiguous run of free slots, to be filled in place.
    /// Nothing is queued until `commit_write`.
    pub fn write_slice(&mut self) -> (r: &mut [T])
        requires
            old(self).wf(),
        ensures
            r@ == old(self).staged(),
            r@.len() == old(self).write_run(),
            final(r)@.len() == r@.len(),
            final(self).wf(),
            final(self)@ == old(self)@,
            final(self).staged() == final(r)@,
            final(self).write_index() == old(self).write_index(),
            final(self).read_index() == old(self).read_index(),
    {
        let head = self.head;
        let tail = self.tail;
        let available = N - head.wrapping_sub(tail);
        let head_idx = self.index_of(head);
        let to_end = N - head_idx;
        let contiguous = if available < to_end {
            available
        } else {
            to_end
        };
        let ghost before = self.buffer@;
        proof {
            assert forall|mid: Seq<T>| mid.len() == contiguous implies queued(
                #[trigger] spliced(before, head_idx as int, mid),
                head,
                tail,
            ) == queued(before, head, tail) && spliced(before, head_idx as int, mid).subrange(
                head_idx as int,
                head_idx + contiguous,
            ) == mid by {
                lemma_free_run_untouched(before, mid, head, tail);
            }
        }
        let whole: &mut [T] = &mut self.buffer;
        let (front, rest) = whole.split_at_mut(head_idx);
        let (run, back) = rest.split_at_mut(contiguous);
        proof {
            // The two outer parts are not handed out, so they stay as they are,
            // and the whole keeps the array's length.
            assert(final(front)@ == front@ && final(back)@ == back@);
            assert((final(front)@ + (final(run)@ + final(back)@)).len() == N);
            assert(front@ + final(run)@ + back@ =~= spliced(before, head_idx as int, final(run)@));
        }
        run
    }

    /// Queues the first `len` elements of the run that `write_slice` gave.
    pub fn commit_write(&mut self, len: usize)
        requires
            old(self).wf(),
            len <= old(self).staged().len(),
        ensures
            final(self).wf(),
            final(self)@ == old(self)@ + old(self).staged().subrange(0, len as int),
            final(self).write_index() == Self::moved_on(old(self).write_index(), len as int),
            final(self).read_index() == old(self).read_index(),
    {
        proof {
            self.lemma_runs();
        }
        let head = self.head;
        self.head = head.wrapping_add(len);
        proof {
            Self::lemma_counter_moves(head, len);
            let tail = self.tail;
            let n = N as int;
            lemma_word_range_multiple(N);
            let old_len = counter_distance(head, tail);
            lemma_advance_index(tail, old_len, N);
            lemma_mod_bound(head as int, n);
            assert forall|i: int| old_len <= i < old_len + len implies #[trigger] slot_index(
                tail as int,
                i,
                n,
            ) == (head as int) % n + (i - old_len) by {
                lemma_mod_shift(tail + old_len, head as int, i - old_len, n);
                lemma_fundamental_div_mod(head as int, n);
                lemma_mod_multiples_vanish(head as int / n, (head as int) % n + (i - old_len), n);
                lemma_small_mod(((head as int) % n + (i - old_len)) as nat, n as nat);
            }
            assert(self@ =~= old(self)@ + old(self).staged().subrange(0, len as int));
        }
    }

    /// The largest contiguous run of queued elements, oldest first.
    pub fn read_slice(&self) -> (r: &[T])
        requires
            self.wf(),
        ensures
            r@.len() == self.read_run(),
            r@ == self@.subrange(0, self.read_run()),
    {
        let head = self.head;
        let tail = self.tail;
        let available = head.wrapping_sub(tail);
        let tail_idx = self.index_of(tail);
        let to_end = N - tail_idx;
        let contiguous = if available < to_end {
            available
        } else {
            to_end
        };
        let whole: &[T] = &self.buffer;
        let r = vstd::slice::slice_subrange(whole, tail_idx, tail_idx + contiguous);
        proof {
            let n = N as int;
            assert forall|i: int| 0 <= i < contiguous implies #[trigger] slot_index(
                tail as int,
                i,
                n,
            ) == tail_idx + i by {
                lemma_fundamental_div_mod(tail as int, n);
                lemma_mod_multiples_vanish(tail as int / n, tail_idx + i, n);
                lemma_small_mod((tail_idx + i) as nat, n as nat);
            }
            assert(r@ =~= self@.subrange(0, self.read_run()));
        }
        r
    }

    /// Drops the `len` oldest elements, which `read_slice` gave.
    pub fn commit_read(&mut self, len: usize)
        requires
            old(self).wf(),
            len <= old(self).read_run(),
        ensures
            final(self).wf(),
            final(self)@ == old(self)@.subrange(len as int, old(self)@.len() as int),
            final(self).read_index() == Self::moved_on(old(self).read_index(), len as int),
            final(self).write_index() == old(self).write_index(),
    {
        proof {
            self.lemma_runs();
        }
        let tail = self.tail;
        self.tail = tail.wrapping_add(len);
        proof {
            Self::lemma_counter_moves(tail, len);
            let n = N as int;
            lemma_word_range_multiple(N);
            assert forall|i: int| 0 <= i implies #[trigger] slot_index(self.tail as int, i, n)
                == slot_index(tail as int, i + len, n) by {
                lemma_advance_index(tail, len as int, N);
                lemma_mod_shift(self.tail as int, tail + len, i, n);
            }
            assert(self@ =~= old(self)@.subrange(len as int, old(self)@.len() as int));
        }
    }

    /// Drops everything that is queued.
    pub fn clear(&mut self)
        requires
            old(self).wf(),
        ensures
            final(self).wf(),
            final(self)@ == Seq::<T>::empty(),
            final(self).write_index() == old(self).write_index(),
            final(self).read_index() == old(self).write_index(),
    {
        self.tail = self.head;
        assert(self@ =~= Seq::<T>::empty());
    }
}

impl<const N: usize> RingBuffer<u8, N> {
    /// Appends as many bytes of `data` as fit, in order, and returns how
    /// many that were.
    pub fn write(&mut self, data: &[u8]) -> (written: usize)
        requires
            old(self).wf(),
        ensures
            final(self).wf(),
            written <= data@.len(),
            written == if data@.len() <= N - old(self)@.len() {
                data@.len() as int
            } else {
                N - old(self)@.len()
            },
            final(self)@ == old(self)@ + data@.subrange(0, written as int),
            final(self).write_index() == Self::moved_on(old(self).write_index(), written as int),
            final(self).read_index() == old(self).read_index(),
    {
        let mut written: usize = 0;
        proof {
            self.lemma_len_bound();
            self.lemma_runs();
            lemma_small_mod(self.write_index() as nat, N as nat);
            assert(old(self)@ + data@.subrange(0, 0) =~= old(self)@);
        }
        while written < data.len() && !self.is_full()
            invariant
                self.wf(),
                written <= data@.len(),
                self@.len() <= N,
                N > 0,
                self@ == old(self)@ + data@.subrange(0, written as int),
                self.read_index() == old(self).read_index(),
                self.write_index() == Self::moved_on(old(self).write_index(), written as int),
            decreases data@.len() - written,
        {
            let ghost queued_before = self@;
            proof {
                self.lemma_runs();
            }
            let slice = self.write_slice();
            let room = slice.len();
            let left = data.len() - written;
            let to_write = if room < left {
                room
            } else {
                left
            };
            let mut i: usize = 0;
            while i < to_write
                invariant
                    i <= to_write <= room,
                    written + to_write <= data@.len() <= usize::MAX,
                    slice@.len() == room,
                    forall|k: int| 0 <= k < i ==> slice@[k] == data@[written + k],
                decreases to_write - i,
            {
                slice[i] = data[written + i];
                i += 1;
            }
            let ghost filled = slice@;
            self.commit_write(to_write);
            proof {
                assert(filled.subrange(0, to_write as int) =~= data@.subrange(
                    written as int,
                    written + to_write,
                ));
                assert(self@ =~= old(self)@ + data@.subrange(0, written + to_write));
                Self::lemma_moved_on_twice(
                    old(self).write_index(),
                    written as int,
                    to_write as int,
                );
            }
            written += to_write;
        }
        written
    }

    /// Moves as many of the oldest bytes as fit into the front of `buffer`,
    /// in order, and returns how many that were. The rest of `buffer` is
    /// left as it was.
    pub fn read(&mut self, buffer: &mut [u8]) -> (count: usize)
        requires
            old(self).wf(),
        ensures
            final(self).wf(),
            count == if old(buffer)@.len() <= old(self)@.len() {
                old(buffer)@.len()
            } else {
                old(self)@.len()
            },
            final(buffer)@.len() == old(buffer)@.len(),
            final(buffer)@.subrange(0, count as int) == old(self)@.subrange(0, count as int),
            final(buffer)@.subrange(count as int, old(buffer)@.len() as int) == old(buffer)@.subrange(count as int, old(buffer)@.len() as int),
            final(self)@ == old(self)@.subrange(count as int, old(self)@.len() as int),
            final(self).read_index() == Self::moved_on(old(self).read_index(), count as int),
            final(self).write_index() == old(self).write_index(),
    {
        let mut count: usize = 0;
        let total = buffer.len();
        proof {
            self.lemma_len_bound();
            self.lemma_runs();
            lemma_small_mod(self.read_index() as nat, N as nat);
            assert(old(self)@.subrange(0, old(self)@.len() as int) =~= old(self)@);
            assert(buffer@.subrange(0, 0) =~= old(self)@.subrange(0, 0));
        }
        while count < total && !self.is_empty()
            invariant
                self.wf(),
                total == old(buffer)@.len(),
                buffer@.len() == total,
                count <= total,
                count <= old(self)@.len(),
                N > 0,
                self.write_index() == old(self).write_index(),
                self.read_index() == Self::moved_on(old(self).read_index(), count as int),
                self@ == old(self)@.subrange(count as int, old(self)@.len() as int),
                buffer@.subrange(0, count as int) == old(self)@.subrange(0, count as int),
                buffer@.subrange(count as int, total as int) == old(buffer)@.subrange(
                    count as int,
                    total as int,
                ),
            decreases total - count,
        {
            proof {
                self.lemma_runs();
            }
            let ghost dest_before = buffer@;
            let slice = self.read_slice();
            let ready = slice.len();
            let left = total - count;
            let to_read = if ready < left {
                ready
            } else {
                left
            };
            let mut i: usize = 0;
            while i < to_read
                invariant
                    i <= to_read <= ready,
                    count + to_read <= total,
                    slice@.len() == ready,
                    buffer@.len() == total,
                    forall|k: int| 0 <= k < i ==> buffer@[count + k] == slice@[k],
                    forall|k: int|
                        0 <= k < total && !(count <= k < count + i) ==> buffer@[k] == dest_before[k],
                decreases to_read - i,
            {
                buffer[count + i] = slice[i];
                i += 1;
            }
            self.commit_read(to_read);
            proof {
                let src = old(self)@;
                assert(buffer@.subrange(0, count + to_read) =~= src.subrange(0, count + to_read))
                    by {
                    assert forall|k: int| 0 <= k < count + to_read implies buffer@[k] == src[k] by {
                        if k < count {
                            assert(dest_before.subrange(0, count as int)[k] == dest_before[k]);
                            assert(src.subrange(0, count as int)[k] == src[k]);
                        } else {
                            assert(slice@[k - count] == src.subrange(
                                count as int,
                                src.len() as int,
                            )[k - count]);
                        }
                    }
                }
                assert(buffer@.subrange(count + to_read, total as int) =~= old(buffer)@.subrange(
                    count + to_read,
                    total as int,
                )) by {
                    assert forall|k: int| count + to_read <= k < total implies buffer@[k] == old(buffer)@[k] by {
                        assert(dest_before.subrange(count as int, total as int)[k - count]
                            == dest_before[k]);
                        assert(old(buffer)@.subrange(count as int, total as int)[k - count] == old(buffer)@[k]);
                    }
                }
                assert(self@ =~= src.subrange(count + to_read, src.len() as int));
                Self::lemma_moved_on_twice(old(self).read_index(), count as int, to_read as int);
            }
            count += to_read;
        }
        count
    }
}

/// The queue after the elements of `items` were pushed in order onto the
/// queue `queue` of capacity `n`; a push onto a full queue changes nothing.
pub open spec fn after_pushes<T>(queue: Seq<T>, items: Seq<T>, n: nat) -> Seq<T>
    decreases items.len(),
{
    if items.len() == 0 {
        queue
    } else {
        let before = after_pushes(queue, items.drop_last(), n);
        if before.len() < n {
            before.push(items.last())
        } else {
            before
        }
    }
}

/// Elements come out in the order in which they went in: what is pushed
/// onto an empty queue, and fits, is the queue, so that the pops that
/// follow give the elements first to last, each once.
pub proof fn lemma_fifo_order<T>(items: Seq<T>, n: nat)
    requires
        items.len() <= n,
    ensures
        after_pushes(Seq::<T>::empty(), items, n) == items,
    decreases items.len(),
{
    if items.len() > 0 {
        lemma_fifo_order(items.drop_last(), n);
        assert(items.drop_last().push(items.last()) =~= items);
    }
}

/// What does not fit is refused and disturbs nothing: pushing onto a full
/// queue leaves it as it is.
pub proof fn lemma_full_queue_unchanged<T>(queue: Seq<T>, items: Seq<T>, n: nat)
    requires
        queue.len() == n,
    ensures
        after_pushes(queue, items, n) == queue,
    decreases items.len(),
{
    if items.len() > 0 {
        lemma_full_queue_unchanged(queue, items.drop_last(), n);
    }
}

/// Positions that agree modulo `n` still agree after the same shift.
pub proof fn lemma_mod_shift(a: int, b: int, i: int, n: int)
    requires
        n > 0,
        a % n == b % n,
    ensures
        (a + i) % n == (b + i) % n,
{
    vstd::arithmetic::div_mod::lemma_add_mod_noop(a, i, n);
    vstd::arithmetic::div_mod::lemma_add_mod_noop(b, i, n);
}

} // verus!
