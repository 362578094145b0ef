use vstd::prelude::*;

verus! {

/// Sum of a sequence of frame rates.
pub open spec fn seq_sum(s: Seq<u16>) -> nat
    decreases s.len(),
{
    if s.len() == 0 {
        0
    } else {
        seq_sum(s.drop_last()) + s.last() as nat
    }
}

/// The window kept after recording `v`: the oldest sample leaves once the
/// window already holds `cap` samples.
pub open spec fn window_after_push(s: Seq<u16>, cap: nat, v: u16) -> Seq<u16> {
    if s.len() >= cap {
        s.drop_first().push(v)
    } else {
        s.push(v)
    }
}

/// The average the counter reports for the samples `s`: zero when there are
/// none, else the integer quotient of their sum by their number (taken as a
/// `u16`, as the counter computes it).
pub open spec fn spec_average(s: Seq<u16>) -> int {
    if s.len() == 0 {
        0
    } else {
        seq_sum(s) as int / ((s.len() as u16) as int)
    }
}

/// `true` when the counter can average `s` without overflowing its `u16`
/// sum or dividing by zero.
pub open spec fn average_defined(s: Seq<u16>) -> bool {
    s.len() == 0 || (seq_sum(s) <= u16::MAX && (s.len() as u16) != 0)
}

/// The sum of a prefix never exceeds the sum of the whole sequence.
pub proof fn lemma_prefix_sum_le(s: Seq<u16>, i: int)
    requires
        0 <= i <= s.len(),
    ensures
        seq_sum(s.take(i)) <= seq_sum(s),
    decreases s.len(),
{
    if i < s.len() {
        assert(s.drop_last().take(i) =~= s.take(i));
        lemma_prefix_sum_le(s.drop_last(), i);
    } else {
        assert(s.take(i) =~= s);
    }
}

/// Keeps a window of the most recent frame rates and averages them.
pub struct FPSCounter {
    buffer: Vec<u16>,
    max: usize,
}

impl View for FPSCounter {
    type V = Seq<u16>;

    /// The samples held, oldest first.
    closed spec fn view(&self) -> Seq<u16> {
        self.buffer@
    }
}

impl FPSCounter {
    /// How many samples the window holds at most.
    pub closed spec fn capacity(&self) -> nat {
        self.max as nat
    }

    /// The window never holds more samples than its capacity.
    pub open spec fn wf(&self) -> bool {
        self@.len() <= self.capacity()
    }

    /// An empty counter whose window holds at most `max` samples.
    pub fn new(max: usize) -> (r: Self)
        ensures
            r.wf(),
            r.capacity() == max,
            r@ == Seq::<u16>::empty(),
    {
        FPSCounter { buffer: Vec::with_capacity(max), max }
    }

    /// Records a sample; once the window is full the oldest sample is dropped.
    pub fn push(&mut self, fps: u16)
        requires
            old(self).wf(),
            old(self).capacity() > 0,
        ensures
            final(self).wf(),
            final(self).capacity() == old(self).capacity(),
            final(self)@ == window_after_push(old(self)@, old(self).capacity(), fps),
    {
        if self.buffer.len() == self.max {
            self.buffer.remove(0);
        }
        self.buffer.push(fps);
    }

    /// The average of the samples in the window, zero when it is empty.
    pub fn get_avg(&self) -> (r: u16)
        requires
            self.wf(),
            average_defined(self@),
        ensures
            r == spec_average(self@),
    {
        if self.buffer.len() == 0 {
            return 0;
        }
        let n = self.buffer.len();
        let mut sum: u16 = 0;
        let mut i: usize = 0;
        while i < n
            invariant
                n == self.buffer@.len(),
                0 <= i <= n,
                seq_sum(self.buffer@) <= u16::MAX,
                sum == seq_sum(self.buffer@.take(i as int)),
            decreases n - i,
        {
            assert(self.buffer@.take(i as int + 1).drop_last() =~= self.buffer@.take(i as int));
            proof {
                lemma_prefix_sum_le(self.buffer@, i as int + 1);
            }
            sum = sum + self.buffer[i];
            i = i + 1;
        }
        assert(self.buffer@.take(n as int) =~= self.buffer@);
        sum / (n as u16)
    }

    /// The average of the samples in the window, or `None` when their sum
    /// does not fit in a `u16` or their number is a multiple of 65536, where
    /// [`Self::get_avg`] cannot compute it.
    pub fn checked_avg(&self) -> (r: Option<u16>)
        requires
            self.wf(),
        ensures
            average_defined(self@) ==> r == Some(spec_average(self@) as u16),
            !average_defined(self@) ==> r is None,
    {
        let n = self.buffer.len();
        if n == 0 {
            return Some(0);
        }
        if (n as u16) == 0 {
            return None;
        }
        let mut sum: u16 = 0;
        let mut i: usize = 0;
        while i < n
            invariant
                n == self.buffer@.len(),
                0 <= i <= n,
                sum == seq_sum(self.buffer@.take(i as int)),
            decreases n - i,
        {
            assert(self.buffer@.take(i as int + 1).drop_last() =~= self.buffer@.take(i as int));
            match sum.checked_add(self.buffer[i]) {
                Some(t) => {
                    sum = t;
                },
                None => {
                    proof {
                        lemma_prefix_sum_le(self.buffer@, i as int + 1);
                    }
                    return None;
                },
            }
            i = i + 1;
        }
        assert(self.buffer@.take(n as int) =~= self.buffer@);
        Some(sum / (n as u16))
    }
}

} // verus!
