//! The waveform of one utterance, taken out of the engine.
//!
//! After a synthesis the engine holds the samples it generated and hands
//! them out one by one, by index. [`collect`] makes of them a sequence that
//! the caller owns: as long as the engine said, and in the engine's order.

use vstd::prelude::*;

verus! {

/// Reads `sample_count` samples through `sample_at`, from index zero up, into
/// a fresh sequence.
///
/// The result has exactly `sample_count` samples, and the one at index `i`
/// is what `sample_at` gave for `i`. The kind of a sample is the caller's.
pub fn collect<T, F: Fn(usize) -> T>(sample_count: usize, sample_at: F) -> (samples: Vec<T>)
    requires
        forall|index: usize| index < sample_count ==> call_requires(sample_at, (index,)),
    ensures
        samples@.len() == sample_count,
        forall|index: usize|
            index < sample_count ==> call_ensures(
                sample_at,
                (index,),
                #[trigger] samples@[index as int],
            ),
{
    let mut samples: Vec<T> = Vec::with_capacity(sample_count);
    let mut index: usize = 0;
    while index < sample_count
        invariant
            index <= sample_count,
            samples@.len() == index,
            forall|earlier: usize|
                earlier < sample_count ==> call_requires(sample_at, (earlier,)),
            forall|earlier: usize|
                earlier < index ==> call_ensures(
                    sample_at,
                    (earlier,),
                    #[trigger] samples@[earlier as int],
                ),
        decreases sample_count - index,
    {
        let sample = sample_at(index);
        samples.push(sample);
        index += 1;
    }
    samples
}

} // verus!
