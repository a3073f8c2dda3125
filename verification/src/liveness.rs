//! Liveness of a capture stream, judged from the samples themselves.
//!
//! A block of samples is scanned once: how many of its samples are near
//! zero, and how large its largest sample is. A block with at least one
//! sample that is not near zero is a genuine signal; a device that has shown
//! none for two seconds is starved.

use vstd::prelude::*;
use vstd::std_specs::bits::*;

verus! {

/// How many bits of a sample must be zero, counted from either end of its
/// 32-bit pattern, for the sample to count as silence. A policy constant.
pub const NEAR_ZERO_BITS: u32 = 28;

/// A device that has shown no genuine signal for this long is starved.
pub const SILENCE_LIMIT_NS: u64 = 2_000_000_000;

/// What a peak holds when no sample has been seen since it was last read.
pub const PEAK_SENTINEL: i32 = -0x8000_0000;

/// A sample is near zero when its top 28 bits are clear (the values 0 to 15)
/// or its low 28 bits are clear (the multiples of 2^28, zero among them).
pub open spec fn near_zero(sample: i32) -> bool {
    0 <= sample < 16 || sample as int % 0x1000_0000 == 0
}

/// The absolute value of a sample, with the one value whose absolute value
/// does not fit a signed 32-bit integer capped at the largest that does.
pub open spec fn magnitude(sample: i32) -> int {
    if sample == i32::MIN {
        i32::MAX as int
    } else if sample < 0 {
        -(sample as int)
    } else {
        sample as int
    }
}

/// How many samples of a block are near zero.
pub open spec fn count_near_zero(samples: Seq<i32>) -> nat
    decreases samples.len(),
{
    if samples.len() == 0 {
        0
    } else {
        count_near_zero(samples.drop_last()) + if near_zero(samples.last()) {
            1nat
        } else {
            0nat
        }
    }
}

/// The largest magnitude in a block; the sentinel for an empty block.
pub open spec fn peak_of(samples: Seq<i32>) -> int
    decreases samples.len(),
{
    if samples.len() == 0 {
        PEAK_SENTINEL as int
    } else {
        let rest = peak_of(samples.drop_last());
        let m = magnitude(samples.last());
        if m > rest {
            m
        } else {
            rest
        }
    }
}

/// What one scan of a block found.
#[derive(Debug, Clone, Copy, PartialEq, Eq, Structural)]
pub struct BlockStats {
    /// Number of samples in the block.
    pub len: usize,
    /// Number of those that are near zero.
    pub near_zero: usize,
    /// Largest magnitude in the block, the sentinel if it is empty.
    pub peak: i32,
}

impl BlockStats {
    /// The statistics that describe a given block.
    pub open spec fn describes(self, samples: Seq<i32>) -> bool {
        &&& self.len == samples.len()
        &&& self.near_zero == count_near_zero(samples)
        &&& self.peak == peak_of(samples)
    }

    /// A block is a genuine signal when not all of its samples are near zero.
    pub open spec fn spec_has_signal(&self) -> bool {
        self.near_zero < self.len
    }

    #[verifier::when_used_as_spec(spec_has_signal)]
    pub fn has_signal(&self) -> (r: bool)
        ensures
            r == self.spec_has_signal(),
    {
        self.near_zero < self.len
    }
}

proof fn lemma_bit_pattern(sample: i32, bits: u32)
    by (bit_vector)
    requires
        bits == sample as u32,
    ensures
        (bits & 0x0fff_ffff == 0) <==> (sample as int % 0x1000_0000 == 0),
        (bits >> 4 == 0) <==> (0 <= sample < 16),
{
}

proof fn lemma_zero_runs(bits: u32, tz: u32, lz: u32)
    by (bit_vector)
    requires
        tz <= 32,
        lz <= 32,
        bits << ((32 - tz) as u32) == 0,
        tz < 32 ==> (bits >> tz) & 1 == 1,
        bits >> ((32 - lz) as u32) == 0,
        lz < 32 ==> (bits >> ((31 - lz) as u32)) & 1 != 0,
    ensures
        tz >= 28 <==> bits & 0x0fff_ffff == 0,
        lz >= 28 <==> bits >> 4 == 0,
{
}

/// A sample is near zero exactly when its 32-bit pattern ends in at least
/// `NEAR_ZERO_BITS` zero bits or begins with as many.
pub proof fn law_near_zero_counts_bits(sample: i32)
    ensures
        near_zero(sample) <==> (u32_trailing_zeros(sample as u32) >= NEAR_ZERO_BITS
            || u32_leading_zeros(sample as u32) >= NEAR_ZERO_BITS),
{
    let bits = sample as u32;
    axiom_u32_trailing_zeros(bits);
    axiom_u32_leading_zeros(bits);
    lemma_zero_runs(bits, u32_trailing_zeros(bits), u32_leading_zeros(bits));
    lemma_bit_pattern(sample, bits);
}

/// Tells whether a sample is near zero, by counting the zero bits at both
/// ends of its pattern.
pub fn is_near_zero(sample: i32) -> (r: bool)
    ensures
        r == near_zero(sample),
{
    let bits = sample as u32;
    let tz = bits.trailing_zeros();
    let lz = bits.leading_zeros();
    proof {
        law_near_zero_counts_bits(sample);
    }
    tz >= NEAR_ZERO_BITS || lz >= NEAR_ZERO_BITS
}

/// The magnitude of one sample.
pub fn sample_magnitude(sample: i32) -> (m: i32)
    ensures
        m == magnitude(sample),
{
    if sample == i32::MIN {
        i32::MAX
    } else if sample < 0 {
        -sample
    } else {
        sample
    }
}

/// Scans one block: counts its near-zero samples and finds its peak.
pub fn scan_block(samples: &[i32]) -> (stats: BlockStats)
    ensures
        stats.describes(samples@),
{
    let mut near: usize = 0;
    let mut peak: i32 = PEAK_SENTINEL;
    let mut i: usize = 0;
    while i < samples.len()
        invariant
            i <= samples.len(),
            near <= i,
            near == count_near_zero(samples@.take(i as int)),
            peak == peak_of(samples@.take(i as int)),
        decreases samples.len() - i,
    {
        let s = samples[i];
        proof {
            assert(samples@.take(i + 1).drop_last() =~= samples@.take(i as int));
            assert(samples@.take(i + 1).last() == s);
        }
        if is_near_zero(s) {
            near = near + 1;
        }
        let m = sample_magnitude(s);
        if m > peak {
            peak = m;
        }
        i = i + 1;
    }
    proof {
        assert(samples@.take(i as int) =~= samples@);
    }
    BlockStats { len: samples.len(), near_zero: near, peak }
}

/// The instant, on a monotonic nanosecond clock, at which a device last
/// showed a genuine signal.
#[derive(Debug, Clone, Copy, PartialEq, Eq, Structural)]
pub struct LivenessTracker {
    pub last_signal: u64,
}

impl LivenessTracker {
    /// The tracker after a block with the given statistics was seen at `now`.
    pub open spec fn observed(self, stats: BlockStats, now: u64) -> Self {
        if stats.has_signal() {
            LivenessTracker { last_signal: now }
        } else {
            self
        }
    }

    /// Time since the last genuine signal; zero if `now` lies before it.
    pub open spec fn spec_silence(&self, now: u64) -> u64 {
        if now >= self.last_signal {
            (now - self.last_signal) as u64
        } else {
            0
        }
    }

    /// Whether the device has been silent for the limit or longer.
    pub open spec fn spec_is_starved(&self, now: u64) -> bool {
        self.spec_silence(now) >= SILENCE_LIMIT_NS
    }

    /// A tracker for a stream that starts at `now`.
    pub fn new(now: u64) -> (t: Self)
        ensures
            t.last_signal == now,
    {
        LivenessTracker { last_signal: now }
    }

    /// Takes note of one scanned block, seen at `now`.
    pub fn observe(&mut self, stats: &BlockStats, now: u64)
        ensures
            *final(self) == old(self).observed(*stats, now),
    {
        if stats.has_signal() {
            self.last_signal = now;
        }
    }

    #[verifier::when_used_as_spec(spec_silence)]
    pub fn silence(&self, now: u64) -> (d: u64)
        ensures
            d == self.spec_silence(now),
    {
        if now >= self.last_signal {
            now - self.last_signal
        } else {
            0
        }
    }

    #[verifier::when_used_as_spec(spec_is_starved)]
    pub fn is_starved(&self, now: u64) -> (r: bool)
        ensures
            r == self.spec_is_starved(now),
    {
        self.silence(now) >= SILENCE_LIMIT_NS
    }
}

/// Running maximum of the block peaks since the value was last taken.
#[derive(Debug, Clone, Copy, PartialEq, Eq, Structural)]
pub struct PeakAmplitude {
    pub value: i32,
}

impl PeakAmplitude {
    /// The peak after a block with the given peak was merged in. An equal
    /// block peak leaves the value as it was.
    pub open spec fn merged(self, block_peak: i32) -> Self {
        if block_peak > self.value {
            PeakAmplitude { value: block_peak }
        } else {
            self
        }
    }

    /// A peak that starts at zero.
    pub fn new() -> (p: Self)
        ensures
            p.value == 0,
    {
        PeakAmplitude { value: 0 }
    }

    /// Merges the peak of one block into the running maximum.
    pub fn update(&mut self, block_peak: i32)
        ensures
            *final(self) == old(self).merged(block_peak),
    {
        if block_peak > self.value {
            self.value = block_peak;
        }
    }

    /// What the telemetry side reports for a peak that it took, or could
    /// not take because the lock was not to be had in time: then the
    /// sentinel stands for "no data in this cycle".
    pub fn exported(taken: Option<i32>) -> (v: i32)
        ensures
            taken matches Some(value) ==> v == value,
            taken is None ==> v == PEAK_SENTINEL,
    {
        match taken {
            Some(value) => value,
            None => PEAK_SENTINEL,
        }
    }

    /// Hands out the running maximum and resets it to the sentinel.
    pub fn take(&mut self) -> (v: i32)
        ensures
            v == old(self).value,
            final(self).value == PEAK_SENTINEL,
    {
        let v = self.value;
        self.value = PEAK_SENTINEL;
        v
    }
}

/// The peak of a block that holds any sample is the magnitude of one of
/// its samples, and no sample of the block has a larger one.
pub proof fn law_peak_is_largest_magnitude(samples: Seq<i32>)
    requires
        samples.len() > 0,
    ensures
        forall|i: int| 0 <= i < samples.len() ==> magnitude(#[trigger] samples[i]) <= peak_of(samples),
        exists|i: int| 0 <= i < samples.len() && magnitude(#[trigger] samples[i]) == peak_of(samples),
        0 <= peak_of(samples) <= i32::MAX,
    decreases samples.len(),
{
    let rest = samples.drop_last();
    let last = samples.len() - 1;
    if rest.len() > 0 {
        law_peak_is_largest_magnitude(rest);
        assert forall|i: int| 0 <= i < samples.len() implies magnitude(#[trigger] samples[i])
            <= peak_of(samples) by {
            if i < last {
                assert(samples[i] == rest[i]);
            }
        }
        if magnitude(samples[last]) > peak_of(rest) {
            assert(magnitude(samples[last]) == peak_of(samples));
        } else {
            let i = choose|i: int| 0 <= i < rest.len() && magnitude(#[trigger] rest[i]) == peak_of(rest);
            assert(samples[i] == rest[i]);
            assert(magnitude(samples[i]) == peak_of(samples));
        }
    } else {
        assert(peak_of(rest) == PEAK_SENTINEL);
        assert(magnitude(samples[last]) == peak_of(samples));
    }
}

/// The number of near-zero samples never exceeds the length of the block,
/// and falls short of it exactly when some sample is not near zero.
pub proof fn lemma_count_near_zero(samples: Seq<i32>)
    ensures
        count_near_zero(samples) <= samples.len(),
        count_near_zero(samples) < samples.len() <==> exists|i: int|
            0 <= i < samples.len() && !near_zero(#[trigger] samples[i]),
    decreases samples.len(),
{
    if samples.len() > 0 {
        let rest = samples.drop_last();
        lemma_count_near_zero(rest);
        if count_near_zero(samples) < samples.len() {
            if !near_zero(samples.last()) {
                assert(!near_zero(samples[samples.len() - 1]));
            } else {
                let i = choose|i: int| 0 <= i < rest.len() && !near_zero(#[trigger] rest[i]);
                assert(!near_zero(samples[i]));
            }
        }
        if exists|i: int| 0 <= i < samples.len() && !near_zero(#[trigger] samples[i]) {
            let i = choose|i: int| 0 <= i < samples.len() && !near_zero(#[trigger] samples[i]);
            if i < rest.len() {
                assert(!near_zero(rest[i]));
            }
        }
    }
}

/// A block with at least one sample outside the near-zero band keeps the
/// device from being starved for the two seconds that follow it.
pub proof fn law_signal_holds_off_starvation(
    tracker: LivenessTracker,
    samples: Seq<i32>,
    stats: BlockStats,
    seen: u64,
    later: u64,
)
    requires
        stats.describes(samples),
        exists|i: int| 0 <= i < samples.len() && !near_zero(#[trigger] samples[i]),
        seen <= later < seen + SILENCE_LIMIT_NS,
    ensures
        !tracker.observed(stats, seen).is_starved(later),
{
    lemma_count_near_zero(samples);
}

/// The tracker after a run of blocks, each seen at its own instant.
pub open spec fn observed_all(
    tracker: LivenessTracker,
    blocks: Seq<Seq<i32>>,
    times: Seq<u64>,
) -> LivenessTracker
    recommends
        blocks.len() == times.len(),
    decreases blocks.len(),
{
    if blocks.len() == 0 || times.len() == 0 {
        tracker
    } else {
        let before = observed_all(tracker, blocks.drop_last(), times.drop_last());
        let stats = BlockStats {
            len: blocks.last().len() as usize,
            near_zero: count_near_zero(blocks.last()) as usize,
            peak: peak_of(blocks.last()) as i32,
        };
        before.observed(stats, times.last())
    }
}

/// Input in which every sample is near zero never counts as a genuine
/// signal: once two seconds have passed since the last one, the device is
/// starved, however many such blocks arrive.
pub proof fn law_silence_starves(
    tracker: LivenessTracker,
    blocks: Seq<Seq<i32>>,
    times: Seq<u64>,
    now: u64,
)
    requires
        blocks.len() == times.len(),
        forall|b: int, i: int|
            0 <= b < blocks.len() && 0 <= i < blocks[b].len() ==> near_zero(
                #[trigger] blocks[b][i],
            ),
        forall|b: int| 0 <= b < blocks.len() ==> (#[trigger] blocks[b]).len() <= usize::MAX,
        now >= tracker.last_signal + SILENCE_LIMIT_NS,
    ensures
        observed_all(tracker, blocks, times) == tracker,
        observed_all(tracker, blocks, times).is_starved(now),
    decreases blocks.len(),
{
    if blocks.len() > 0 {
        law_silence_starves(tracker, blocks.drop_last(), times.drop_last(), now);
        lemma_count_near_zero(blocks.last());
    }
}

/// A block without samples leaves the running peak as it was; a peak that
/// stood at the sentinel stays there.
pub proof fn law_empty_block_keeps_peak(peak: PeakAmplitude, samples: Seq<i32>)
    requires
        samples.len() == 0,
    ensures
        peak.merged(peak_of(samples) as i32) == peak,
{
}

} // verus!
