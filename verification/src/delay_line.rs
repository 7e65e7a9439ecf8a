//! The circular buffer of the delay-based nodes.

use vstd::prelude::*;

verus! {

/// What a delay line holds: its samples in storage order, and the position
/// that is read and written next.
pub struct DelayView<S> {
    pub samples: Seq<S>,
    pub cursor: int,
}

impl<S> DelayView<S> {
    /// A line of `len` samples, at least one, all equal to `fill`.
    pub open spec fn filled(len: nat, fill: S) -> DelayView<S> {
        DelayView { samples: Seq::new(if len == 0 { 1 } else { len }, |i: int| fill), cursor: 0 }
    }

    /// The number of samples held.
    pub open spec fn len(self) -> nat {
        self.samples.len()
    }

    /// The position `delay` samples behind the cursor; a delay beyond the
    /// length counts as the length.
    pub open spec fn tap_index(self, delay: nat) -> int {
        let d = if delay > self.len() { self.len() } else { delay };
        (self.cursor + self.len() - d) % (self.len() as int)
    }

    /// The position just before `idx`, going round.
    pub open spec fn before(self, idx: int) -> int {
        (idx % (self.len() as int) + self.len() - 1) % (self.len() as int)
    }

    /// The sample at the cursor: the oldest one.
    pub open spec fn head(self) -> S {
        self.samples[self.cursor]
    }

    /// The sample at position `idx`, going round.
    pub open spec fn at(self, idx: int) -> S {
        self.samples[idx % (self.len() as int)]
    }

    /// The line after `v` replaced the sample at the cursor.
    pub open spec fn put(self, v: S) -> DelayView<S> {
        DelayView { samples: self.samples.update(self.cursor, v), cursor: self.cursor }
    }

    /// The line after the cursor moved one position on, going round.
    pub open spec fn step(self) -> DelayView<S> {
        DelayView { samples: self.samples, cursor: (self.cursor + 1) % (self.len() as int) }
    }

    /// The line after `v` was written at the cursor and the cursor moved on.
    pub open spec fn push(self, v: S) -> DelayView<S> {
        self.put(v).step()
    }

    /// The line with every sample equal to `fill` and the cursor at the start.
    pub open spec fn cleared(self, fill: S) -> DelayView<S> {
        DelayView { samples: Seq::new(self.len(), |i: int| fill), cursor: 0 }
    }

    /// What every line satisfies: it is not empty and the cursor is inside it.
    pub open spec fn wf(self) -> bool {
        self.len() >= 1 && 0 <= self.cursor < self.len()
    }
}

/// The cursor of a line of `len` samples after `k` steps from `cursor`.
pub open spec fn cursor_after(cursor: int, len: nat, k: nat) -> int
    decreases k,
{
    if k == 0 {
        cursor
    } else {
        (cursor_after(cursor, len, (k - 1) as nat) + 1) % (len as int)
    }
}

/// After `k` steps the cursor is `k` positions on, going round.
pub proof fn lemma_cursor_after(cursor: int, len: nat, k: nat)
    requires
        len >= 1,
        0 <= cursor < len,
    ensures
        cursor_after(cursor, len, k) == (cursor + k) % (len as int),
        0 <= cursor_after(cursor, len, k) < len,
    decreases k,
{
    if k == 0 {
        vstd::arithmetic::div_mod::lemma_small_mod(cursor as nat, len);
    } else {
        lemma_cursor_after(cursor, len, (k - 1) as nat);
        vstd::arithmetic::div_mod::lemma_add_mod_noop(cursor + k - 1, 1, len as int);
        vstd::arithmetic::div_mod::lemma_mod_twice(cursor + k - 1, len as int);
        vstd::arithmetic::div_mod::lemma_mod_bound(cursor + k, len as int);
        if len == 1 {
            assert(1int % (len as int) == 0);
        } else {
            vstd::arithmetic::div_mod::lemma_small_mod(1, len);
        }
    }
}

/// Clearing a line that was just made changes nothing.
pub proof fn lemma_clear_after_new<S>(len: nat, fill: S)
    ensures
        DelayView::filled(len, fill).cleared(fill) == DelayView::filled(len, fill),
        DelayView::filled(len, fill).wf(),
{
    assert(DelayView::filled(len, fill).cleared(fill).samples =~= DelayView::filled(len, fill).samples);
}

/// The value of `tap_index` as a difference: the cursor less the delay, and
/// the length more where that falls below zero.
pub proof fn lemma_tap_index<S>(line: DelayView<S>, delay: nat)
    requires
        line.wf(),
        delay <= line.len(),
    ensures
        line.tap_index(delay) == (if line.cursor >= delay {
            line.cursor - delay
        } else {
            line.cursor + line.len() - delay
        }),
        0 <= line.tap_index(delay) < line.len(),
        line.at(line.tap_index(delay)) == line.samples[line.tap_index(delay)],
{
    let n = line.len() as int;
    let c = line.cursor;
    if c >= delay {
        vstd::arithmetic::div_mod::lemma_fundamental_div_mod_converse(c + n - delay, n, 1, c - delay);
        vstd::arithmetic::div_mod::lemma_small_mod((c - delay) as nat, n as nat);
    } else {
        vstd::arithmetic::div_mod::lemma_small_mod((c + n - delay) as nat, n as nat);
    }
}

/// A push moves every sample one tap on: what the tap `delay` read before the
/// push, the tap `delay + 1` reads after it; and the tap 1 reads the sample
/// that was pushed.
pub proof fn lemma_push_moves_taps<S>(line: DelayView<S>, v: S, delay: nat)
    requires
        line.wf(),
        delay < line.len(),
    ensures
        line.push(v).wf(),
        line.push(v).len() == line.len(),
        delay == 0 ==> line.push(v).at(line.push(v).tap_index(1)) == v,
        delay >= 1 ==> line.push(v).at(line.push(v).tap_index(delay + 1)) == line.at(line.tap_index(delay)),
{
    let after = line.push(v);
    let n = line.len() as int;
    let c = line.cursor;
    assert(after.samples.len() == n);
    if c + 1 < n {
        vstd::arithmetic::div_mod::lemma_small_mod((c + 1) as nat, n as nat);
    } else {
        vstd::arithmetic::div_mod::lemma_fundamental_div_mod_converse(c + 1, n, 1, 0);
    }
    assert(after.cursor == (if c + 1 < n { c + 1 } else { 0 }));
    lemma_tap_index(after, delay + 1);
    lemma_tap_index(line, delay);
    assert(after.tap_index(delay + 1) == line.tap_index(delay));
    if delay >= 1 {
        assert(line.tap_index(delay) != c);
    }
}

/// The line after the samples `vs` were pushed, in order.
pub open spec fn pushed_all<S>(line: DelayView<S>, vs: Seq<S>) -> DelayView<S>
    decreases vs.len(),
{
    if vs.len() == 0 {
        line
    } else {
        pushed_all(line, vs.drop_last()).push(vs.last())
    }
}

/// What a delay line is for: of the samples pushed, the tap `delay` reads the
/// one that was pushed `delay` pushes ago, for every delay from one up to the
/// length of the line, however many pushes and blocks lie in between.
pub proof fn lemma_tap_reads_past_sample<S>(line: DelayView<S>, vs: Seq<S>, delay: nat)
    requires
        line.wf(),
        1 <= delay <= line.len(),
        delay <= vs.len(),
    ensures
        pushed_all(line, vs).wf(),
        pushed_all(line, vs).len() == line.len(),
        pushed_all(line, vs).at(pushed_all(line, vs).tap_index(delay)) == vs[vs.len() - delay],
    decreases vs.len(),
{
    let before = pushed_all(line, vs.drop_last());
    lemma_pushed_all_wf(line, vs.drop_last());
    if delay == 1 {
        lemma_push_moves_taps(before, vs.last(), 0);
    } else {
        lemma_tap_reads_past_sample(line, vs.drop_last(), (delay - 1) as nat);
        lemma_push_moves_taps(before, vs.last(), (delay - 1) as nat);
        assert(vs.drop_last()[vs.drop_last().len() - (delay - 1)] == vs[vs.len() - delay]);
    }
}

/// Pushing keeps a line well formed and as long as it was.
pub proof fn lemma_pushed_all_wf<S>(line: DelayView<S>, vs: Seq<S>)
    requires
        line.wf(),
    ensures
        pushed_all(line, vs).wf(),
        pushed_all(line, vs).len() == line.len(),
    decreases vs.len(),
{
    if vs.len() > 0 {
        lemma_pushed_all_wf(line, vs.drop_last());
        lemma_push_moves_taps(pushed_all(line, vs.drop_last()), vs.last(), 0);
    }
}

/// A circular buffer of fixed length with one cursor, the storage of the
/// delay-based nodes. Its length is set when it is made and never changes.
#[derive(Debug)]
pub struct DelayLine<S> {
    buffer: Vec<S>,
    index: usize,
}

impl<S> View for DelayLine<S> {
    type V = DelayView<S>;

    closed spec fn view(&self) -> DelayView<S> {
        DelayView { samples: self.buffer@, cursor: self.index as int }
    }
}

impl<S> DelayLine<S> {
    #[verifier::type_invariant]
    spec fn inv(&self) -> bool {
        self.buffer@.len() >= 1 && self.index < self.buffer@.len()
    }
}

impl<S: Copy> Clone for DelayLine<S> {
    fn clone(&self) -> (r: Self)
        ensures
            r@ == self@,
    {
        proof {
            use_type_invariant(self);
        }
        let len: usize = self.buffer.len();
        let mut buffer: Vec<S> = Vec::new();
        let mut i: usize = 0;
        while i < len
            invariant
                i <= len,
                len == self.buffer@.len(),
                buffer@.len() == i,
                forall|j: int| 0 <= j < i ==> buffer@[j] == self.buffer@[j],
            decreases len - i,
        {
            buffer.push(self.buffer[i]);
            i += 1;
        }
        assert(buffer@ =~= self.buffer@);
        DelayLine { buffer, index: self.index }
    }
}

impl<S: Copy> DelayLine<S> {
    /// A line of `len` samples, all equal to `fill`. A length of zero gives a
    /// line of one sample, so that a line is never empty.
    pub fn new(len: usize, fill: S) -> (r: Self)
        ensures
            r@ == DelayView::filled(len as nat, fill),
            r@.wf(),
    {
        let count: usize = if len == 0 { 1 } else { len };
        let mut buffer: Vec<S> = Vec::new();
        let mut i: usize = 0;
        while i < count
            invariant
                i <= count,
                buffer@.len() == i,
                forall|j: int| 0 <= j < i ==> buffer@[j] == fill,
            decreases count - i,
        {
            buffer.push(fill);
            i += 1;
        }
        assert(buffer@ =~= DelayView::filled(len as nat, fill).samples);
        DelayLine { buffer, index: 0 }
    }

    /// The number of samples held.
    pub fn len(&self) -> (r: usize)
        ensures
            r == self@.len(),
            self@.wf(),
    {
        proof {
            use_type_invariant(self);
        }
        self.buffer.len()
    }

    /// The position of the cursor.
    pub fn cursor(&self) -> (r: usize)
        ensures
            r == self@.cursor,
            r < self@.len(),
    {
        proof {
            use_type_invariant(self);
        }
        self.index
    }

    /// The sample at the cursor.
    pub fn read(&self) -> (r: S)
        ensures
            r == self@.head(),
    {
        proof {
            use_type_invariant(self);
        }
        self.buffer[self.index]
    }

    /// The position `delay` samples behind the cursor.
    pub fn tap_index(&self, delay: usize) -> (r: usize)
        ensures
            r == self@.tap_index(delay as nat),
            r < self@.len(),
    {
        proof {
            use_type_invariant(self);
        }
        let len: usize = self.buffer.len();
        let d: usize = if delay > len { len } else { delay };
        let back: usize = len - d;
        // index < len and back <= len, so the sum wraps at most once
        if self.index >= len - back {
            proof {
                assert((self.index + back) % (len as int) == self.index + back - len) by {
                    vstd::arithmetic::div_mod::lemma_fundamental_div_mod_converse(
                        self.index + back,
                        len as int,
                        1,
                        self.index + back - len,
                    );
                }
            }
            self.index - (len - back)
        } else {
            proof {
                assert((self.index + back) % (len as int) == self.index + back) by {
                    vstd::arithmetic::div_mod::lemma_small_mod((self.index + back) as nat, len as nat);
                }
            }
            self.index + back
        }
    }

    /// The position just before `idx`, going round.
    pub fn before(&self, idx: usize) -> (r: usize)
        ensures
            r == self@.before(idx as int),
            r < self@.len(),
    {
        proof {
            use_type_invariant(self);
        }
        let len: usize = self.buffer.len();
        let k: usize = idx % len;
        if k == 0 {
            proof {
                assert((k + len - 1) % (len as int) == len - 1) by {
                    vstd::arithmetic::div_mod::lemma_small_mod((len - 1) as nat, len as nat);
                }
            }
            len - 1
        } else {
            proof {
                assert((k + len - 1) % (len as int) == k - 1) by {
                    vstd::arithmetic::div_mod::lemma_fundamental_div_mod_converse(
                        k + len - 1,
                        len as int,
                        1,
                        k - 1,
                    );
                }
            }
            k - 1
        }
    }

    /// The sample at position `idx`, going round.
    pub fn at(&self, idx: usize) -> (r: S)
        ensures
            r == self@.at(idx as int),
    {
        proof {
            use_type_invariant(self);
        }
        let len: usize = self.buffer.len();
        self.buffer[idx % len]
    }

    /// Replaces the sample at the cursor.
    pub fn write(&mut self, v: S)
        ensures
            final(self)@ == old(self)@.put(v),
            final(self)@.len() == old(self)@.len(),
            final(self)@.wf(),
    {
        proof {
            use_type_invariant(&*self);
        }
        let i: usize = self.index;
        self.buffer[i] = v;
    }

    /// Moves the cursor one position on, going round.
    pub fn advance(&mut self)
        ensures
            final(self)@ == old(self)@.step(),
            final(self)@.len() == old(self)@.len(),
            final(self)@.wf(),
    {
        proof {
            use_type_invariant(&*self);
        }
        let len: usize = self.buffer.len();
        if self.index + 1 >= len {
            proof {
                assert((self.index + 1) % (len as int) == 0) by {
                    vstd::arithmetic::div_mod::lemma_fundamental_div_mod_converse(self.index + 1, len as int, 1, 0);
                }
            }
            self.index = 0;
        } else {
            proof {
                assert((self.index + 1) % (len as int) == self.index + 1) by {
                    vstd::arithmetic::div_mod::lemma_small_mod((self.index + 1) as nat, len as nat);
                }
            }
            self.index = self.index + 1;
        }
    }

    /// Writes `v` at the cursor and moves the cursor on.
    pub fn push(&mut self, v: S)
        ensures
            final(self)@ == old(self)@.push(v),
            final(self)@.len() == old(self)@.len(),
            final(self)@.wf(),
    {
        self.write(v);
        self.advance();
    }

    /// Sets every sample to `fill` and the cursor to the start. The length
    /// stays.
    pub fn clear(&mut self, fill: S)
        ensures
            final(self)@ == old(self)@.cleared(fill),
            final(self)@.len() == old(self)@.len(),
            final(self)@.wf(),
    {
        proof {
            use_type_invariant(&*self);
        }
        let len: usize = self.buffer.len();
        let mut i: usize = 0;
        while i < len
            invariant
                i <= len,
                self.buffer@.len() == len,
                len >= 1,
                self.index < len,
                forall|j: int| 0 <= j < i ==> self.buffer@[j] == fill,
            decreases len - i,
        {
            self.buffer[i] = fill;
            i += 1;
        }
        self.index = 0;
        assert(self.buffer@ =~= old(self)@.cleared(fill).samples);
    }
}

} // verus!
