//! The integer side of the multi-tap reverb: the length of its circular
//! delay buffer and the cursor that walks it.
//!
//! The buffer holds one slot per sample of delay; each step writes the
//! current slot and then advances. A tap `delay` samples long reads the slot
//! written `delay` steps ago.

use vstd::prelude::*;

verus! {

/// The largest element of `s`, or 0 when `s` is empty.
pub open spec fn seq_max(s: Seq<usize>) -> nat
    decreases s.len(),
{
    if s.len() == 0 {
        0
    } else {
        let m = seq_max(s.drop_last());
        if s.last() > m {
            s.last() as nat
        } else {
            m
        }
    }
}

proof fn lemma_seq_max_bounds(s: Seq<usize>)
    ensures
        forall|i: int| 0 <= i < s.len() ==> s[i] <= seq_max(s),
        s.len() == 0 || exists|i: int| 0 <= i < s.len() && s[i] == seq_max(s),
    decreases s.len(),
{
    if s.len() > 0 {
        let prefix = s.drop_last();
        lemma_seq_max_bounds(prefix);
        assert forall|i: int| 0 <= i < s.len() implies s[i] <= seq_max(s) by {
            if i < s.len() - 1 {
                assert(s[i] == prefix[i]);
            }
        }
        if s.last() > seq_max(prefix) || prefix.len() == 0 {
            assert(s[s.len() - 1] == seq_max(s));
        } else {
            let j = choose|j: int| 0 <= j < prefix.len() && prefix[j] == seq_max(prefix);
            assert(s[j] == prefix[j]);
            assert(s[j] == seq_max(s));
        }
    }
}

/// The length of a delay buffer that serves taps of the given delays: one
/// more than the longest delay, so that every tap reads a slot other than the
/// one being written.
pub fn delay_buffer_len(delays: &Vec<usize>) -> (len: usize)
    requires
        forall|i: int| 0 <= i < delays.len() ==> delays[i] < usize::MAX,
    ensures
        len == seq_max(delays@) + 1,
        forall|i: int| 0 <= i < delays.len() ==> delays[i] < len,
{
    let mut longest: usize = 0;
    let mut i: usize = 0;
    while i < delays.len()
        invariant
            i <= delays.len(),
            longest == seq_max(delays@.subrange(0, i as int)),
            forall|j: int| 0 <= j < delays.len() ==> delays[j] < usize::MAX,
        decreases delays.len() - i,
    {
        assert(delays@.subrange(0, i + 1).drop_last() =~= delays@.subrange(0, i as int));
        if delays[i] > longest {
            longest = delays[i];
        }
        i = i + 1;
    }
    assert(delays@.subrange(0, delays.len() as int) =~= delays@);
    proof {
        lemma_seq_max_bounds(delays@);
        if delays.len() > 0 {
            let j = choose|j: int| 0 <= j < delays@.len() && delays@[j] == seq_max(delays@);
            assert(delays[j] < usize::MAX);
        }
    }
    longest + 1
}

/// The abstract state of a [`DelayCursor`]: the buffer length and the slot
/// written next.
pub struct CursorModel {
    pub len: nat,
    pub pos: nat,
}

impl CursorModel {
    /// The cursor's invariant: a non-empty buffer and a slot inside it.
    pub open spec fn wf(self) -> bool {
        self.len > 0 && self.pos < self.len
    }

    /// The slot that a tap of `delay` samples reads.
    pub open spec fn read_slot(self, delay: nat) -> nat {
        ((self.pos + self.len - delay) % (self.len as int)) as nat
    }

    /// The state after one step.
    pub open spec fn advanced(self) -> CursorModel {
        CursorModel { len: self.len, pos: (self.pos + 1) % self.len }
    }

    /// The state after `n` steps.
    pub open spec fn advanced_by(self, n: nat) -> CursorModel
        decreases n,
    {
        if n == 0 {
            self
        } else {
            self.advanced_by((n - 1) as nat).advanced()
        }
    }
}

/// The write position of a circular delay buffer.
pub struct DelayCursor {
    len: usize,
    write_pos: usize,
}

impl View for DelayCursor {
    type V = CursorModel;

    closed spec fn view(&self) -> CursorModel {
        CursorModel { len: self.len as nat, pos: self.write_pos as nat }
    }
}

impl DelayCursor {
    /// A cursor at the first slot of a buffer of `len` slots.
    pub fn new(len: usize) -> (cursor: Self)
        requires
            len > 0,
        ensures
            cursor@ == (CursorModel { len: len as nat, pos: 0 }),
            cursor@.wf(),
    {
        DelayCursor { len, write_pos: 0 }
    }

    /// The buffer length.
    pub fn len(&self) -> (len: usize)
        ensures
            len == self@.len,
    {
        self.len
    }

    /// The slot written next.
    pub fn write_pos(&self) -> (pos: usize)
        ensures
            pos == self@.pos,
    {
        self.write_pos
    }

    /// The slot that a tap of `delay` samples reads.
    pub fn read_pos(&self, delay: usize) -> (pos: usize)
        requires
            self@.wf(),
            delay <= self@.pos + self@.len,
        ensures
            pos == self@.read_slot(delay as nat),
            pos < self@.len,
    {
        let len = self.len;
        let wp = self.write_pos;
        if delay <= wp {
            proof {
                vstd::arithmetic::div_mod::lemma_mod_add_multiples_vanish((wp - delay) as int, len as int);
                vstd::arithmetic::div_mod::lemma_small_mod((wp - delay) as nat, len as nat);
            }
            wp - delay
        } else {
            let back = delay - wp;
            if back == len {
                proof {
                    vstd::arithmetic::div_mod::lemma_small_mod(0nat, len as nat);
                }
                0
            } else {
                proof {
                    vstd::arithmetic::div_mod::lemma_small_mod((len - back) as nat, len as nat);
                }
                len - back
            }
        }
    }

    /// Moves to the next slot, wrapping round at the end of the buffer.
    pub fn advance(&mut self)
        requires
            old(self)@.wf(),
        ensures
            final(self)@ == old(self)@.advanced(),
            final(self)@.wf(),
    {
        if self.write_pos + 1 == self.len {
            proof {
                vstd::arithmetic::div_mod::lemma_mod_self_0(self.len as int);
            }
            self.write_pos = 0;
        } else {
            proof {
                vstd::arithmetic::div_mod::lemma_small_mod((self.write_pos + 1) as nat, self.len as nat);
            }
            self.write_pos = self.write_pos + 1;
        }
    }
}

proof fn lemma_advanced_by_pos(c: CursorModel, n: nat)
    requires
        c.wf(),
    ensures
        c.advanced_by(n).len == c.len,
        c.advanced_by(n).pos == (c.pos + n) % c.len,
        c.advanced_by(n).wf(),
    decreases n,
{
    if n > 0 {
        lemma_advanced_by_pos(c, (n - 1) as nat);
        vstd::arithmetic::div_mod::lemma_add_mod_noop_right(1, c.pos + n - 1, c.len as int);
        vstd::arithmetic::div_mod::lemma_mod_bound((c.pos + n) as int, c.len as int);
    } else {
        vstd::arithmetic::div_mod::lemma_small_mod(c.pos, c.len as nat);
    }
}

/// A tap reads back what was written `delay` steps before: after writing at
/// the cursor's slot and advancing `delay` times (at most once round the
/// buffer), a tap of `delay` samples reads that slot.
pub proof fn law_tap_reads_slot_written_delay_steps_ago(cursor: CursorModel, delay: nat)
    requires
        cursor.wf(),
        delay <= cursor.len,
    ensures
        cursor.advanced_by(delay).wf(),
        cursor.advanced_by(delay).read_slot(delay) == cursor.pos,
{
    lemma_advanced_by_pos(cursor, delay);
    let len = cursor.len as int;
    let p = cursor.pos as int;
    vstd::arithmetic::div_mod::lemma_add_mod_noop_right(len - delay, p + delay, len);
    assert(len - delay + (p + delay) == len + p);
    vstd::arithmetic::div_mod::lemma_mod_add_multiples_vanish(p, len);
    vstd::arithmetic::div_mod::lemma_small_mod(p as nat, len as nat);
}

} // verus!
