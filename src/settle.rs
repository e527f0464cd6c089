use vstd::prelude::*;

verus! {

/// Parts per million: the denominator of a relative noise tolerance.
pub const PPM: u64 = 1_000_000;

pub open spec fn abs_int(x: int) -> int {
    if x < 0 {
        -x
    } else {
        x
    }
}

/// `sample` lies inside the relative band around `baseline`:
/// `|sample - baseline| < |ratio * baseline|` with `ratio = ppm / 1_000_000`.
pub open spec fn within_band(baseline: int, sample: int, ppm: int) -> bool {
    abs_int(sample - baseline) * (PPM as int) < ppm * abs_int(baseline)
}

/// One sample taken in: a sample inside the band counts as one more stable
/// sample; any other sample becomes the new baseline and the count restarts.
pub open spec fn settle_spec(state: (i64, nat), sample: i64, ppm: int) -> (i64, nat) {
    if within_band(state.0 as int, sample as int, ppm) {
        (state.0, state.1 + 1)
    } else {
        (sample, 0)
    }
}

/// The state after taking in `samples` in order, starting from `state`.
pub open spec fn settle_run(state: (i64, nat), samples: Seq<i64>, ppm: int) -> (i64, nat)
    decreases samples.len(),
{
    if samples.len() == 0 {
        state
    } else {
        settle_spec(settle_run(state, samples.drop_last(), ppm), samples.last(), ppm)
    }
}

/// Where a settle-and-measure loop stands after an iteration.
#[derive(Debug, Clone, Copy, PartialEq, Eq, Structural)]
pub enum SettleStatus {
    /// Not converged yet: pace one sample period and read again.
    Pending,
    /// Converged on the given raw baseline.
    Settled(i64),
    /// The deadline passed before convergence.
    TimedOut,
}

/// The decisions of a settle-and-measure loop: a baseline, a count of
/// consecutive samples inside the relative band around it, and the count
/// that ends the loop.
pub struct Settler {
    baseline: i64,
    stable_count: usize,
    required: usize,
    max_noise_ppm: u32,
}

impl View for Settler {
    type V = (i64, nat);

    /// The baseline and the number of consecutive stable samples.
    closed spec fn view(&self) -> (i64, nat) {
        (self.baseline, self.stable_count as nat)
    }
}

impl Settler {
    pub closed spec fn spec_required(&self) -> nat {
        self.required as nat
    }

    pub closed spec fn spec_ppm(&self) -> int {
        self.max_noise_ppm as int
    }

    /// The count never passes the number required.
    pub open spec fn wf(&self) -> bool {
        self@.1 <= self.spec_required()
    }

    /// The loop has converged.
    pub open spec fn settled_spec(&self) -> bool {
        self@.1 >= self.spec_required()
    }

    /// Starts from the initial raw reading `initial`, waiting for
    /// `stable_samples_required` consecutive samples within `max_noise_ppm`
    /// parts per million of the baseline.
    pub fn new(initial: i64, stable_samples_required: usize, max_noise_ppm: u32) -> (r: Settler)
        ensures
            r.wf(),
            r@ == (initial, 0nat),
            r.spec_required() == stable_samples_required,
            r.spec_ppm() == max_noise_ppm,
    {
        Settler { baseline: initial, stable_count: 0, required: stable_samples_required, max_noise_ppm }
    }

    pub fn baseline(&self) -> (r: i64)
        ensures
            r == self@.0,
    {
        self.baseline
    }

    pub fn stable_count(&self) -> (r: usize)
        ensures
            r == self@.1,
    {
        self.stable_count
    }

    /// Whether enough consecutive stable samples have been seen.
    pub fn is_settled(&self) -> (r: bool)
        ensures
            r == self.settled_spec(),
    {
        self.stable_count >= self.required
    }

    /// Whether `sample` lies inside the relative band around `baseline`.
    pub fn within_band(baseline: i64, sample: i64, max_noise_ppm: u32) -> (r: bool)
        ensures
            r == within_band(baseline as int, sample as int, max_noise_ppm as int),
    {
        let b: i128 = baseline as i128;
        let d: i128 = (sample as i128) - b;
        let ad: u128 = if d < 0 { (-d) as u128 } else { d as u128 };
        let ab: u128 = if b < 0 { (-b) as u128 } else { b as u128 };
        let p: u128 = max_noise_ppm as u128;
        proof {
            assert(ad <= 0x1_0000_0000_0000_0000);
            assert(ab <= 0x8000_0000_0000_0000);
            assert(ad * 1_000_000 <= 0x1_0000_0000_0000_0000 * 1_000_000) by (nonlinear_arith)
                requires
                    ad <= 0x1_0000_0000_0000_0000;
            assert(p * ab <= 0xffff_ffff * 0x8000_0000_0000_0000) by (nonlinear_arith)
                requires
                    p <= 0xffff_ffff,
                    ab <= 0x8000_0000_0000_0000;
        }
        ad * (PPM as u128) < p * ab
    }

    /// Takes in one sample read after the previous iteration, then decides:
    /// timed out once `elapsed_ms` exceeds `timeout_ms`, else settled once the
    /// count reaches the number required, else pending.
    pub fn step(&mut self, sample: i64, elapsed_ms: u64, timeout_ms: u64) -> (r: SettleStatus)
        requires
            old(self).wf(),
            !old(self).settled_spec(),
        ensures
            final(self).wf(),
            final(self)@ == settle_spec(old(self)@, sample, old(self).spec_ppm()),
            final(self).spec_required() == old(self).spec_required(),
            final(self).spec_ppm() == old(self).spec_ppm(),
            r == (if elapsed_ms > timeout_ms {
                SettleStatus::TimedOut
            } else if final(self).settled_spec() {
                SettleStatus::Settled(final(self)@.0)
            } else {
                SettleStatus::Pending
            }),
    {
        if Self::within_band(self.baseline, sample, self.max_noise_ppm) {
            self.stable_count = self.stable_count + 1;
        } else {
            self.stable_count = 0;
            self.baseline = sample;
        }
        if elapsed_ms > timeout_ms {
            SettleStatus::TimedOut
        } else if self.stable_count >= self.required {
            SettleStatus::Settled(self.baseline)
        } else {
            SettleStatus::Pending
        }
    }
}

/// A sensor that keeps returning the same non-zero value converges on that
/// value: after `k` samples the count is `k`, so after as many samples as
/// required the loop is settled on it, for every positive tolerance.
pub proof fn constant_samples_converge(value: i64, samples: Seq<i64>, ppm: int)
    requires
        value != 0,
        ppm > 0,
        forall|i: int| 0 <= i < samples.len() ==> samples[i] == value,
    ensures
        settle_run((value, 0nat), samples, ppm) == (value, samples.len()),
    decreases samples.len(),
{
    if samples.len() > 0 {
        let prefix = samples.drop_last();
        assert forall|i: int| 0 <= i < prefix.len() implies prefix[i] == value by {
            assert(prefix[i] == samples[i]);
        }
        constant_samples_converge(value, prefix, ppm);
        assert(abs_int(value as int) > 0);
        assert(0 < ppm * abs_int(value as int)) by (nonlinear_arith)
            requires
                ppm > 0,
                abs_int(value as int) > 0;
    }
}

/// Samples that each leave the band around the one before (the first one
/// around the initial reading) never converge: the count stays at zero and the
/// baseline follows the latest sample.
pub proof fn drifting_samples_never_converge(initial: i64, samples: Seq<i64>, ppm: int)
    requires
        samples.len() > 0,
        !within_band(initial as int, samples[0] as int, ppm),
        forall|i: int|
            0 < i < samples.len() ==> !within_band(
                #[trigger] samples[i - 1] as int,
                samples[i] as int,
                ppm,
            ),
    ensures
        settle_run((initial, 0nat), samples, ppm) == (samples.last(), 0nat),
    decreases samples.len(),
{
    if samples.len() > 1 {
        let prefix = samples.drop_last();
        assert forall|i: int| 0 < i < prefix.len() implies !within_band(
            #[trigger] prefix[i - 1] as int,
            prefix[i] as int,
            ppm,
        ) by {
            assert(prefix[i - 1] == samples[i - 1]);
            assert(prefix[i] == samples[i]);
            assert(!within_band(samples[i - 1] as int, samples[i] as int, ppm));
        }
        assert(prefix[0] == samples[0]);
        drifting_samples_never_converge(initial, prefix, ppm);
        let n = samples.len() - 1;
        assert(prefix.last() == samples[n - 1]);
        assert(!within_band(samples[n - 1] as int, samples[n] as int, ppm));
    } else {
        assert(samples.drop_last().len() == 0);
        assert(settle_run((initial, 0nat), samples.drop_last(), ppm) == (initial, 0nat));
        assert(samples.last() == samples[0]);
    }
}

} // verus!
