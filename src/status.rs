use simple_moving_average::{SingleSumSMA, SMA};
use vstd::prelude::*;

verus! {

#[verifier::external_type_specification]
#[verifier::external_body]
#[verifier::reject_recursive_types(Sample)]
#[verifier::reject_recursive_types(Divisor)]
pub struct ExSingleSumSMA<Sample, Divisor, const WINDOW_SIZE: usize>(
    SingleSumSMA<Sample, Divisor, WINDOW_SIZE>,
);

/// The samples that a ten-sample moving average holds, oldest first.
pub uninterp spec fn sma_window(sma: SingleSumSMA<u64, u64, 10>) -> Seq<u64>;

/// The number of samples a meter averages over.
pub const SAMPLE_WINDOW: usize = 10;

/// The sum of a sequence of samples.
pub open spec fn sample_sum(s: Seq<u64>) -> int
    decreases s.len(),
{
    if s.len() == 0 {
        0
    } else {
        sample_sum(s.drop_last()) + s.last() as int
    }
}

/// The window after adding `sample`: the last ten samples.
pub open spec fn shifted(window: Seq<u64>, sample: u64) -> Seq<u64> {
    if window.len() < SAMPLE_WINDOW {
        window.push(sample)
    } else {
        window.drop_first().push(sample)
    }
}

/// Relies on `SingleSumSMA::new`: no samples yet.
#[verifier::external_body]
fn sma_new() -> (r: SingleSumSMA<u64, u64, 10>)
    ensures
        sma_window(r) == Seq::<u64>::empty(),
{
    SingleSumSMA::new()
}

/// Relies on `SingleSumSMA::add_sample`: the sample enters the ring buffer,
/// which drops its oldest sample once it holds ten, and the running sum
/// follows; the sum must not overflow.
#[verifier::external_body]
fn sma_add(sma: &mut SingleSumSMA<u64, u64, 10>, sample: u64)
    requires
        sample_sum(sma_window(*old(sma))) + sample <= u64::MAX,
    ensures
        sma_window(*final(sma)) == shifted(sma_window(*old(sma)), sample),
{
    sma.add_sample(sample)
}

/// Relies on `SingleSumSMA::get_average`: the running sum divided by the
/// number of samples, or the sum (zero) where there are none.
#[verifier::external_body]
fn sma_average(sma: &SingleSumSMA<u64, u64, 10>) -> (r: u64)
    requires
        sample_sum(sma_window(*sma)) <= u64::MAX,
    ensures
        sma_window(*sma).len() == 0 ==> r == 0,
        sma_window(*sma).len() > 0 ==> r as int == sample_sum(sma_window(*sma)) / (sma_window(
            *sma,
        ).len() as int),
{
    sma.get_average()
}

/// Relies on `SMA::get_num_samples`: how many samples the ring buffer holds.
#[verifier::external_body]
fn sma_len(sma: &SingleSumSMA<u64, u64, 10>) -> (r: usize)
    ensures
        r == sma_window(*sma).len(),
{
    sma.get_num_samples()
}

/// Relies on `SMA::get_sample_window_iter`, whose iterator starts at the
/// oldest sample: its first item, if any.
#[verifier::external_body]
fn sma_oldest(sma: &SingleSumSMA<u64, u64, 10>) -> (r: Option<u64>)
    ensures
        sma_window(*sma).len() == 0 ==> r is None,
        sma_window(*sma).len() > 0 ==> r == Some(sma_window(*sma)[0]),
{
    sma.get_sample_window_iter().next().copied()
}

proof fn lemma_sum_nonnegative(s: Seq<u64>)
    ensures
        sample_sum(s) >= 0,
    decreases s.len(),
{
    if s.len() > 0 {
        lemma_sum_nonnegative(s.drop_last());
    }
}

proof fn lemma_sum_push(s: Seq<u64>, x: u64)
    ensures
        sample_sum(s.push(x)) == sample_sum(s) + x,
{
    assert(s.push(x).drop_last() =~= s);
}

proof fn lemma_sum_first(s: Seq<u64>)
    requires
        s.len() > 0,
    ensures
        sample_sum(s) == s[0] + sample_sum(s.drop_first()),
    decreases s.len(),
{
    if s.len() > 1 {
        lemma_sum_first(s.drop_last());
        assert(s.drop_first().drop_last() =~= s.drop_last().drop_first());
    } else {
        assert(s.drop_first() =~= Seq::<u64>::empty());
        assert(s.drop_last() =~= Seq::<u64>::empty());
    }
}

/// Checks per second, averaged over the last ten one-second samples.
pub struct ThroughputMeter {
    sma: SingleSumSMA<u64, u64, 10>,
    /// The sum of the samples held.
    sum: u64,
}

impl ThroughputMeter {
    #[verifier::type_invariant]
    spec fn consistent(self) -> bool {
        &&& sma_window(self.sma).len() <= SAMPLE_WINDOW
        &&& self.sum == sample_sum(sma_window(self.sma))
    }

    /// The samples held, oldest first.
    pub closed spec fn window(&self) -> Seq<u64> {
        sma_window(self.sma)
    }

    /// A meter with no samples.
    pub fn new() -> (r: ThroughputMeter)
        ensures
            r.window() == Seq::<u64>::empty(),
    {
        ThroughputMeter { sma: sma_new(), sum: 0 }
    }

    /// Adds one second's count of checks. Where the samples' sum would
    /// pass `u64::MAX`, the sample is cut down to what still fits.
    pub fn record(&mut self, checks: u64)
        ensures
            sample_sum(old(self).window()) + checks <= u64::MAX ==> final(self).window() == shifted(
                old(self).window(),
                checks,
            ),
            sample_sum(old(self).window()) + checks > u64::MAX ==> final(self).window() == shifted(
                old(self).window(),
                (u64::MAX - sample_sum(old(self).window())) as u64,
            ),
    {
        proof {
            use_type_invariant(&*self);
        }
        let ghost w = sma_window(self.sma);
        let sample = if checks > u64::MAX - self.sum {
            u64::MAX - self.sum
        } else {
            checks
        };
        let evicted: u64 = if sma_len(&self.sma) >= SAMPLE_WINDOW {
            match sma_oldest(&self.sma) {
                Some(oldest) => oldest,
                None => 0,
            }
        } else {
            0
        };
        let mut current = ThroughputMeter::new();
        std::mem::swap(&mut current, self);
        let ThroughputMeter { mut sma, sum } = current;
        sma_add(&mut sma, sample);
        proof {
            lemma_sum_push(w, sample);
            if w.len() >= SAMPLE_WINDOW {
                lemma_sum_first(w);
                lemma_sum_nonnegative(w.drop_first());
                lemma_sum_push(w.drop_first(), sample);
            }
        }
        let sum = sum + sample - evicted;
        *self = ThroughputMeter { sma, sum };
    }

    /// The average of the samples held (rounded down), or 0 for none.
    pub fn average(&self) -> (r: u64)
        ensures
            self.window().len() == 0 ==> r == 0,
            self.window().len() > 0 ==> r as int == sample_sum(self.window()) / (
            self.window().len() as int),
    {
        proof {
            use_type_invariant(self);
        }
        sma_average(&self.sma)
    }
}

} // verus!
