//! The highest amount of physical memory seen during a run.

use vstd::prelude::*;

verus! {

/// The peak after one more sampling attempt: the larger of the peak so far
/// and the sample, or the peak so far when no sample could be taken.
pub open spec fn peak_after(peak: usize, sample: Option<usize>) -> usize {
    match sample {
        Some(bytes) => if peak < bytes {
            bytes
        } else {
            peak
        },
        None => peak,
    }
}

/// The peak after a series of sampling attempts, oldest first.
pub open spec fn peak_over(peak: usize, samples: Seq<Option<usize>>) -> usize
    decreases samples.len(),
{
    if samples.len() == 0 {
        peak
    } else {
        peak_after(peak_over(peak, samples.drop_last()), samples.last())
    }
}

/// Folds one sampling attempt into the running peak.
pub fn record_sample(peak: &mut usize, sample: Option<usize>)
    ensures
        *final(peak) == peak_after(*old(peak), sample),
{
    if let Some(bytes) = sample {
        if *peak < bytes {
            *peak = bytes;
        }
    }
}

/// Calls `memory_stats::memory_stats` and hands out the physical memory it
/// reports, in bytes, or nothing where it reports nothing. The amount depends
/// on the process and the machine, so nothing is claimed of it.
#[verifier::external_body]
pub(crate) fn physical_memory() -> (sample: Option<usize>) {
    memory_stats::memory_stats().map(|usage| usage.physical_mem)
}

/// Samples the physical memory the process uses now and folds it into the
/// running peak. Returns the sample, or nothing when none could be taken, in
/// which case the peak stays as it was.
pub fn report_memory(max_mem: &mut usize) -> (sample: Option<usize>)
    ensures
        *final(max_mem) == peak_after(*old(max_mem), sample),
        *final(max_mem) >= *old(max_mem),
{
    let sample = physical_memory();
    record_sample(max_mem, sample);
    sample
}

/// The peak never falls, however the sampling attempts turn out.
pub proof fn lemma_peak_never_falls(peak: usize, samples: Seq<Option<usize>>)
    ensures
        peak_over(peak, samples) >= peak,
        forall|k: int|
            0 <= k <= samples.len() ==> peak_over(peak, #[trigger] samples.take(k)) <= peak_over(
                peak,
                samples,
            ),
    decreases samples.len(),
{
    if samples.len() > 0 {
        let front = samples.drop_last();
        lemma_peak_never_falls(peak, front);
        assert forall|k: int| 0 <= k <= samples.len() implies peak_over(
            peak,
            #[trigger] samples.take(k),
        ) <= peak_over(peak, samples) by {
            if k == samples.len() {
                assert(samples.take(k) =~= samples);
            } else {
                assert(samples.take(k) =~= front.take(k));
            }
        }
    } else {
        assert forall|k: int| 0 <= k <= samples.len() implies peak_over(
            peak,
            #[trigger] samples.take(k),
        ) <= peak_over(peak, samples) by {
            assert(samples.take(k) =~= samples);
        }
    }
}

/// The peak is the maximum of the starting value and the samples that were
/// taken: no sample lies above it, and it is the starting value or one of them.
pub proof fn lemma_peak_is_maximum(peak: usize, samples: Seq<Option<usize>>)
    ensures
        forall|k: int|
            0 <= k < samples.len() && (#[trigger] samples[k]).is_some() ==> samples[k].unwrap()
                <= peak_over(peak, samples),
        peak_over(peak, samples) == peak || exists|k: int|
            0 <= k < samples.len() && #[trigger] samples[k] == Some(peak_over(peak, samples)),
    decreases samples.len(),
{
    if samples.len() > 0 {
        let front = samples.drop_last();
        lemma_peak_is_maximum(peak, front);
        let before = peak_over(peak, front);
        let after = peak_over(peak, samples);
        assert forall|k: int| 0 <= k < samples.len() && (#[trigger] samples[k]).is_some() implies samples[k].unwrap() <= after by {
            if k < front.len() {
                assert(front[k] == samples[k]);
            }
        }
        if after != peak {
            if after == before {
                let k = choose|k: int| 0 <= k < front.len() && #[trigger] front[k] == Some(before);
                assert(samples[k] == Some(after));
            } else {
                assert(samples[samples.len() - 1] == Some(after));
            }
        }
    }
}

} // verus!
