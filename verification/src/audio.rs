//! The buffer adapter: fills an output buffer from the mixer.

use crate::mixer::{advance_all_by, mixes_to, AudioMixer, SampleProvider};
use vstd::prelude::*;

verus! {

/// Fills every slot of `data`, in buffer order, with one pull of the mix
/// each: slot `i` gets the mix after `i` earlier pulls.
pub fn fill_buffer<G: SampleProvider>(mixer: &mut AudioMixer<G>, data: &mut Vec<i128>)
    requires
        old(mixer).wf(),
    ensures
        final(data)@.len() == old(data)@.len(),
        forall|i: int|
            0 <= i < old(data)@.len() ==> mixes_to(
                advance_all_by(old(mixer)@, i as nat),
                #[trigger] final(data)@[i] as int,
            ),
        final(mixer)@ == advance_all_by(old(mixer)@, old(data)@.len()),
        final(mixer).wf(),
{
    let n: usize = data.len();
    let mut i: usize = 0;
    while i < n
        invariant
            i <= n,
            n == data@.len(),
            mixer.wf(),
            mixer@ == advance_all_by(old(mixer)@, i as nat),
            forall|j: int|
                0 <= j < i ==> mixes_to(
                    advance_all_by(old(mixer)@, j as nat),
                    #[trigger] data@[j] as int,
                ),
        decreases n - i,
    {
        let sample: i128 = mixer.get_mixed_sample();
        data[i] = sample;
        i = i + 1;
    }
}

} // verus!
