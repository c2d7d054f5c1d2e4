use crate::arith::floor_div;
use std::collections::VecDeque;
use vstd::prelude::*;

verus! {

/// One reading: its place in time and its value.
#[derive(Debug, Clone, Copy, PartialEq, Eq, Structural)]
pub struct Sample {
    pub index: u64,
    pub value: i64,
}

/// The sum of the values of `s`.
pub open spec fn sum_values(s: Seq<Sample>) -> int
    decreases s.len(),
{
    if s.len() == 0 {
        0
    } else {
        sum_values(s.drop_last()) + s.last().value
    }
}

/// Each sample is exactly one step newer than the one behind it.
pub open spec fn consecutive(s: Seq<Sample>) -> bool {
    forall|i: int| 0 <= i < s.len() - 1 ==> #[trigger] s[i].index == s[i + 1].index + 1
}

/// The samples a freshly seeded ring of `n` slots holds, newest first:
/// zeros, numbered `n - 1` down to `0`.
pub open spec fn seeded(n: nat) -> Seq<Sample> {
    Seq::new(n, |i: int| Sample { index: (n - 1 - i) as u64, value: 0 })
}

/// The samples after `value` has been pushed onto `s`: a new newest sample
/// in front, numbered one past the previous newest, and the oldest gone.
pub open spec fn pushed(s: Seq<Sample>, value: i64) -> Seq<Sample>
    recommends
        s.len() > 0,
{
    seq![Sample { index: (s[0].index + 1) as u64, value }] + s.drop_last()
}

/// The whole part of the mean of `s`: the mean rounded towards minus infinity.
pub open spec fn mean_whole(s: Seq<Sample>) -> int
    recommends
        s.len() > 0,
{
    sum_values(s) / (s.len() as int)
}

/// What is left of the sum of `s` above `s.len()` times the whole part of
/// its mean: the mean is `mean_whole(s) + mean_rest(s) / s.len()`.
pub open spec fn mean_rest(s: Seq<Sample>) -> int
    recommends
        s.len() > 0,
{
    sum_values(s) % (s.len() as int)
}

/// The sum of a sequence with one sample put in front.
pub proof fn lemma_sum_push_front(x: Sample, t: Seq<Sample>)
    ensures
        sum_values(seq![x] + t) == x.value + sum_values(t),
    decreases t.len(),
{
    let s = seq![x] + t;
    if t.len() == 0 {
        assert(s.drop_last() =~= Seq::<Sample>::empty());
        assert(sum_values(s.drop_last()) == 0);
    } else {
        assert(s.drop_last() =~= seq![x] + t.drop_last());
        lemma_sum_push_front(x, t.drop_last());
    }
}

/// The samples after the values of `values` have been pushed onto `s` one
/// after the other, the first of them first.
pub open spec fn pushed_all(s: Seq<Sample>, values: Seq<i64>) -> Seq<Sample>
    decreases values.len(),
{
    if values.len() == 0 {
        s
    } else {
        pushed(pushed_all(s, values.drop_last()), values.last())
    }
}

/// One push keeps the length of the window and the order of its samples,
/// numbers the new sample one past the previous newest, and moves the sum
/// by the new value less the dropped one.
pub proof fn lemma_pushed(s: Seq<Sample>, value: i64)
    requires
        s.len() > 0,
        consecutive(s),
        s[0].index < u64::MAX,
    ensures
        pushed(s, value).len() == s.len(),
        consecutive(pushed(s, value)),
        pushed(s, value)[0] == (Sample { index: (s[0].index + 1) as u64, value }),
        forall|i: int| 1 <= i < s.len() ==> pushed(s, value)[i] == s[i - 1],
        sum_values(pushed(s, value)) == sum_values(s) + value - s.last().value,
{
    let fresh = Sample { index: (s[0].index + 1) as u64, value };
    lemma_sum_push_front(fresh, s.drop_last());
}

/// The total that is kept while the values of `values` are pushed onto `s`
/// one after the other, starting from `total`: each push adds the new value
/// and takes away the value of the sample it drops.
pub open spec fn running_total(total: int, s: Seq<Sample>, values: Seq<i64>) -> int
    decreases values.len(),
{
    if values.len() == 0 {
        total
    } else {
        running_total(total, s, values.drop_last()) + values.last() - pushed_all(
            s,
            values.drop_last(),
        ).last().value
    }
}

/// However many values are pushed, the window keeps its length and the
/// order of its samples, the newest index has grown by one for each push,
/// and a total that was exact before and was kept up to date push by push
/// is still the sum of the values in the window.
pub proof fn lemma_pushed_all(s: Seq<Sample>, values: Seq<i64>)
    requires
        s.len() > 0,
        consecutive(s),
        s[0].index + values.len() <= u64::MAX,
    ensures
        pushed_all(s, values).len() == s.len(),
        consecutive(pushed_all(s, values)),
        pushed_all(s, values)[0].index == s[0].index + values.len(),
        values.len() > 0 ==> pushed_all(s, values)[0].value == values.last(),
        running_total(sum_values(s), s, values) == sum_values(pushed_all(s, values)),
    decreases values.len(),
{
    if values.len() > 0 {
        lemma_pushed_all(s, values.drop_last());
        lemma_pushed(pushed_all(s, values.drop_last()), values.last());
    }
}

/// The indices of a window of consecutive samples fall by one from each
/// sample to the next older one.
pub proof fn lemma_consecutive_indices(s: Seq<Sample>, i: int)
    requires
        consecutive(s),
        0 <= i < s.len(),
    ensures
        s[i].index == s[0].index - i,
    decreases i,
{
    if i > 0 {
        lemma_consecutive_indices(s, i - 1);
    }
}

/// The sum of `s` lies within what `s.len()` values of 64 bits can reach.
pub proof fn lemma_sum_bounds(s: Seq<Sample>)
    ensures
        -(s.len() * 0x8000_0000_0000_0000) <= sum_values(s) <= s.len() * 0x7fff_ffff_ffff_ffff,
    decreases s.len(),
{
    if s.len() > 0 {
        lemma_sum_bounds(s.drop_last());
    }
}

/// A window of fixed length over a stream of readings, newest first, with
/// the total of its values kept up to date on every push.
#[derive(Debug)]
pub struct RingStatistic {
    samples: VecDeque<Sample>,
    total: i128,
}

impl View for RingStatistic {
    type V = Seq<Sample>;

    closed spec fn view(&self) -> Seq<Sample> {
        self.samples@
    }
}

impl RingStatistic {
    /// The total that the ring maintains.
    pub closed spec fn spec_total(&self) -> int {
        self.total as int
    }

    /// The window is not empty, its samples are consecutive in time, and the
    /// maintained total is the sum of the values now in it.
    pub open spec fn wf(&self) -> bool {
        &&& self@.len() > 0
        &&& self@.len() <= usize::MAX
        &&& consecutive(self@)
        &&& self.spec_total() == sum_values(self@)
    }

    /// A ring of `n` zero readings numbered `0` to `n - 1`, the newest in front.
    pub fn seed(n: usize) -> (ring: Self)
        requires
            n > 0,
        ensures
            ring@ == seeded(n as nat),
            ring.spec_total() == 0,
            ring.wf(),
    {
        let mut samples: VecDeque<Sample> = VecDeque::new();
        let mut k: usize = 0;
        while k < n
            invariant
                k <= n,
                samples@.len() == k,
                forall|i: int| 0 <= i < k ==> #[trigger] samples@[i] == (Sample {
                    index: (k - 1 - i) as u64,
                    value: 0,
                }),
                sum_values(samples@) == 0,
            decreases n - k,
        {
            let ghost before = samples@;
            let s = Sample { index: k as u64, value: 0 };
            samples.push_front(s);
            proof {
                lemma_sum_push_front(s, before);
            }
            k = k + 1;
        }
        assert(samples@ =~= seeded(n as nat));
        RingStatistic { samples, total: 0 }
    }

    /// The number of samples in the window.
    pub fn capacity(&self) -> (n: usize)
        ensures
            n == self@.len(),
    {
        self.samples.len()
    }

    /// The newest sample.
    pub fn newest(&self) -> (s: Sample)
        requires
            self.wf(),
        ensures
            s == self@[0],
    {
        self.samples[0]
    }

    /// The oldest sample, the one the next push drops.
    pub fn oldest(&self) -> (s: Sample)
        requires
            self.wf(),
        ensures
            s == self@.last(),
    {
        self.samples[self.samples.len() - 1]
    }

    /// Drops the oldest sample and puts `value` in front, numbered one past
    /// the previous newest; the total moves by the difference of the two values.
    pub fn push(&mut self, value: i64)
        requires
            old(self).wf(),
            old(self)@[0].index < u64::MAX,
        ensures
            final(self)@ == pushed(old(self)@, value),
            final(self)@.len() == old(self)@.len(),
            final(self)@[0] == (Sample { index: (old(self)@[0].index + 1) as u64, value }),
            final(self).spec_total() == old(self).spec_total() + value - old(self)@.last().value,
            final(self).wf(),
    {
        let ghost before = self.samples@;
        let index: u64 = self.samples[0].index + 1;
        let dropped = self.samples.pop_back();
        let gone: i64 = match dropped {
            Some(s) => s.value,
            None => 0,
        };
        let fresh = Sample { index, value };
        self.samples.push_front(fresh);
        proof {
            assert(before.subrange(0, before.len() - 1) =~= before.drop_last());
            lemma_sum_push_front(fresh, before.drop_last());
            lemma_sum_bounds(before.drop_last());
            lemma_sum_bounds(self.samples@);
            assert(self.samples@ =~= pushed(before, value));
        }
        self.total = self.total - (gone as i128) + (value as i128);
    }

    /// The samples of the window, newest first.
    pub fn snapshot(&self) -> (out: Vec<Sample>)
        ensures
            out@ == self@,
    {
        let mut out: Vec<Sample> = Vec::new();
        let n: usize = self.samples.len();
        let mut k: usize = 0;
        while k < n
            invariant
                n == self.samples@.len(),
                k <= n,
                out@ == self.samples@.subrange(0, k as int),
            decreases n - k,
        {
            out.push(self.samples[k]);
            assert(out@ =~= self.samples@.subrange(0, k + 1));
            k = k + 1;
        }
        assert(out@ =~= self@);
        out
    }

    /// The mean of the window as a whole part and a rest: the mean is
    /// `whole + rest / capacity`, with `0 <= rest < capacity`.
    pub fn mean(&self) -> (m: (i64, usize))
        requires
            self.wf(),
        ensures
            m.0 == mean_whole(self@),
            m.1 == mean_rest(self@),
            m.0 * self@.len() + m.1 == sum_values(self@),
            0 <= m.1 < self@.len(),
    {
        let n: i128 = self.samples.len() as i128;
        let (q, r) = floor_div(self.total, n);
        proof {
            lemma_sum_bounds(self@);
            assert(-0x8000_0000_0000_0000 <= q <= 0x7fff_ffff_ffff_ffff) by (nonlinear_arith)
                requires
                    q * n + r == self.total,
                    0 <= r < n,
                    -(n * 0x8000_0000_0000_0000) <= self.total <= n * 0x7fff_ffff_ffff_ffff,
            ;
        }
        (q as i64, r as usize)
    }

    /// The maintained total of the values in the window.
    pub fn total(&self) -> (t: i128)
        requires
            self.wf(),
        ensures
            t == sum_values(self@),
    {
        self.total
    }
}

} // verus!
