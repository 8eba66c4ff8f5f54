//! The mixer: an ordered collection of generators and their summed output.

use vstd::prelude::*;

verus! {

/// A source of samples: each pull hands out the sample at the current phase
/// and moves the source one sample period on.
pub trait SampleProvider: Sized {
    /// The states in which the source may be pulled.
    spec fn wf(&self) -> bool;

    /// Whether the next pull may hand out `sample`. A source whose shape is
    /// computed by the library admits one sample only.
    spec fn yields(&self, sample: i64) -> bool;

    /// The source as the next pull leaves it.
    spec fn advanced(&self) -> Self;

    /// A pull leaves a valid source valid.
    proof fn advanced_wf(&self)
        requires
            self.wf(),
        ensures
            self.advanced().wf(),
    ;

    /// Hands out the sample at the current phase, then advances the phase.
    fn get_sample(&mut self) -> (sample: i64)
        requires
            old(self).wf(),
        ensures
            old(self).yields(sample),
            *final(self) == old(self).advanced(),
    ;
}

/// Every source of `channels` may be pulled.
pub open spec fn all_wf<G: SampleProvider>(channels: Seq<G>) -> bool {
    forall|i: int| 0 <= i < channels.len() ==> (#[trigger] channels[i]).wf()
}

/// The sum of `samples`.
pub open spec fn total(samples: Seq<i64>) -> int
    decreases samples.len(),
{
    if samples.len() == 0 {
        0
    } else {
        total(samples.drop_last()) + samples.last()
    }
}

/// `samples` holds, voice by voice, a sample that a pull of that voice may
/// hand out.
pub open spec fn yield_all<G: SampleProvider>(channels: Seq<G>, samples: Seq<i64>) -> bool {
    &&& samples.len() == channels.len()
    &&& forall|i: int| 0 <= i < channels.len() ==> (#[trigger] channels[i]).yields(samples[i])
}

/// `sample` is the sum of one sample of each voice of `channels`.
pub open spec fn mixes_to<G: SampleProvider>(channels: Seq<G>, sample: int) -> bool {
    exists|samples: Seq<i64>| #[trigger] yield_all(channels, samples) && sample == total(samples)
}

/// The next pull of `channel` can hand out one sample only.
pub open spec fn exact<G: SampleProvider>(channel: G) -> bool {
    forall|first: i64, second: i64|
        channel.yields(first) && channel.yields(second) ==> first == second
}

/// `channels` with every source moved one sample period on.
pub open spec fn advance_all<G: SampleProvider>(channels: Seq<G>) -> Seq<G> {
    Seq::new(channels.len(), |i: int| channels[i].advanced())
}

/// `channels` after `pulls` pulls of the mix.
pub open spec fn advance_all_by<G: SampleProvider>(channels: Seq<G>, pulls: nat) -> Seq<G>
    decreases pulls,
{
    if pulls == 0 {
        channels
    } else {
        advance_all(advance_all_by(channels, (pulls - 1) as nat))
    }
}

/// `channel` after `pulls` pulls.
pub open spec fn advanced_by<G: SampleProvider>(channel: G, pulls: nat) -> G
    decreases pulls,
{
    if pulls == 0 {
        channel
    } else {
        advanced_by(channel, (pulls - 1) as nat).advanced()
    }
}

/// Every voice of the mix moves on by itself: after any number of pulls of
/// the mix each voice is where as many pulls of it alone would have left it.
pub proof fn voices_advance_independently<G: SampleProvider>(channels: Seq<G>, pulls: nat)
    ensures
        advance_all_by(channels, pulls).len() == channels.len(),
        forall|i: int|
            0 <= i < channels.len() ==> #[trigger] advance_all_by(channels, pulls)[i]
                == advanced_by(channels[i], pulls),
    decreases pulls,
{
    if pulls > 0 {
        voices_advance_independently(channels, (pulls - 1) as nat);
    }
}

/// A sample appended to a sequence adds itself to the sum.
pub proof fn total_push(samples: Seq<i64>, sample: i64)
    ensures
        total(samples.push(sample)) == total(samples) + sample,
{
    assert(samples.push(sample).drop_last() =~= samples);
}

/// The sum of two sequences of samples, one after the other, is the sum of
/// their sums.
pub proof fn total_concat(first: Seq<i64>, second: Seq<i64>)
    ensures
        total(first + second) == total(first) + total(second),
    decreases second.len(),
{
    if second.len() == 0 {
        assert(first + second =~= first);
    } else {
        total_concat(first, second.drop_last());
        assert((first + second).drop_last() =~= first + second.drop_last());
    }
}

/// Without voices the mix is silent, and it stays silent however often it
/// is pulled.
pub proof fn empty_mix_is_silent<G: SampleProvider>(pulls: nat, sample: int)
    ensures
        advance_all_by(Seq::<G>::empty(), pulls) == Seq::<G>::empty(),
        mixes_to(advance_all_by(Seq::<G>::empty(), pulls), sample) <==> sample == 0,
    decreases pulls,
{
    if pulls > 0 {
        empty_mix_is_silent::<G>((pulls - 1) as nat, sample);
        assert(advance_all(Seq::<G>::empty()) =~= Seq::<G>::empty());
    }
    assert(yield_all(Seq::<G>::empty(), Seq::<i64>::empty()));
}

/// A voice that joins the mix adds its own sample to the sum and changes
/// nothing of what the others contribute.
pub proof fn mix_push<G: SampleProvider>(channels: Seq<G>, mixed: int, channel: G, sample: i64)
    requires
        mixes_to(channels, mixed),
        channel.yields(sample),
    ensures
        mixes_to(channels.push(channel), mixed + sample),
{
    let samples = choose|samples: Seq<i64>| #[trigger]
        yield_all(channels, samples) && mixed == total(samples);
    total_push(samples, sample);
    assert(yield_all(channels.push(channel), samples.push(sample)));
}

/// Superposition: the sum of a mix of one group of voices and a mix of
/// another is a mix of the two groups together.
pub proof fn mix_concat<G: SampleProvider>(first: Seq<G>, left: int, second: Seq<G>, right: int)
    requires
        mixes_to(first, left),
        mixes_to(second, right),
    ensures
        mixes_to(first + second, left + right),
{
    let a = choose|samples: Seq<i64>| #[trigger] yield_all(first, samples) && left == total(samples);
    let b = choose|samples: Seq<i64>| #[trigger]
        yield_all(second, samples) && right == total(samples);
    total_concat(a, b);
    assert(yield_all(first + second, a + b));
}

/// Superposition, the other way round: a mix of two groups of voices
/// together is the sum of a mix of each group alone.
pub proof fn mix_split<G: SampleProvider>(first: Seq<G>, second: Seq<G>, mixed: int)
    requires
        mixes_to(first + second, mixed),
    ensures
        exists|left: int, right: int|
            #![trigger mixes_to(first, left), mixes_to(second, right)]
            mixes_to(first, left) && mixes_to(second, right) && mixed == left + right,
{
    let all = choose|samples: Seq<i64>| #[trigger]
        yield_all(first + second, samples) && mixed == total(samples);
    let a = all.subrange(0, first.len() as int);
    let b = all.subrange(first.len() as int, all.len() as int);
    assert(all =~= a + b);
    total_concat(a, b);
    assert forall|i: int| 0 <= i < first.len() implies (#[trigger] first[i]).yields(a[i]) by {
        assert((first + second)[i].yields(all[i]));
    }
    assert forall|i: int| 0 <= i < second.len() implies (#[trigger] second[i]).yields(b[i]) by {
        assert((first + second)[i + first.len()].yields(all[i + first.len()]));
    }
    assert(yield_all(first, a));
    assert(yield_all(second, b));
    assert(mixes_to(first, total(a)) && mixes_to(second, total(b)));
}

/// Where every voice can hand out one sample only, the mix is one number.
pub proof fn exact_mix_is_determined<G: SampleProvider>(channels: Seq<G>, one: int, other: int)
    requires
        forall|i: int| 0 <= i < channels.len() ==> exact(#[trigger] channels[i]),
        mixes_to(channels, one),
        mixes_to(channels, other),
    ensures
        one == other,
{
    let a = choose|samples: Seq<i64>| #[trigger] yield_all(channels, samples) && one == total(samples);
    let b = choose|samples: Seq<i64>| #[trigger]
        yield_all(channels, samples) && other == total(samples);
    assert forall|i: int| 0 <= i < a.len() implies a[i] == b[i] by {
        assert(exact(channels[i]));
        assert(channels[i].yields(a[i]) && channels[i].yields(b[i]));
    }
    assert(a =~= b);
}

/// Every voice of the mix moves on by itself: pulling the mix of two groups
/// together advances each group as pulling it alone would.
pub proof fn advance_all_concat<G: SampleProvider>(first: Seq<G>, second: Seq<G>)
    ensures
        advance_all(first + second) == advance_all(first) + advance_all(second),
{
    assert(advance_all(first + second) =~= advance_all(first) + advance_all(second));
}

/// Pulling the mix leaves every voice valid, however often it is done.
pub proof fn advance_all_by_wf<G: SampleProvider>(channels: Seq<G>, pulls: nat)
    requires
        all_wf(channels),
    ensures
        all_wf(advance_all_by(channels, pulls)),
        advance_all_by(channels, pulls).len() == channels.len(),
    decreases pulls,
{
    if pulls > 0 {
        let before = advance_all_by(channels, (pulls - 1) as nat);
        advance_all_by_wf(channels, (pulls - 1) as nat);
        assert forall|i: int| 0 <= i < advance_all(before).len() implies (#[trigger] advance_all(
            before,
        )[i]).wf() by {
            before[i].advanced_wf();
        }
    }
}

/// The active voices, in the order in which they were added.
pub struct AudioMixer<G: SampleProvider> {
    channels: Vec<G>,
}

impl<G: SampleProvider> View for AudioMixer<G> {
    type V = Seq<G>;

    closed spec fn view(&self) -> Seq<G> {
        self.channels@
    }
}

impl<G: SampleProvider> AudioMixer<G> {
    /// Every voice of the mixer may be pulled.
    pub open spec fn wf(&self) -> bool {
        all_wf(self@)
    }

    /// A mixer without voices.
    pub fn new() -> (mixer: Self)
        ensures
            mixer@ == Seq::<G>::empty(),
            mixer.wf(),
    {
        AudioMixer { channels: Vec::new() }
    }

    /// The number of active voices.
    pub fn len(&self) -> (n: usize)
        ensures
            n == self@.len(),
    {
        self.channels.len()
    }

    /// Takes `channel` over as the last voice.
    pub fn add_channel(&mut self, channel: G)
        ensures
            final(self)@ == old(self)@.push(channel),
            old(self).wf() && channel.wf() ==> final(self).wf(),
    {
        self.channels.push(channel);
    }

    /// Drops every voice.
    pub fn clear_channels(&mut self)
        ensures
            final(self)@ == Seq::<G>::empty(),
            final(self).wf(),
    {
        self.channels.clear();
    }

    /// Takes the voice at `index` out and hands it back; the voices behind
    /// it move up. Without such a voice nothing changes.
    pub fn remove_channel(&mut self, index: usize) -> (removed: Option<G>)
        ensures
            index < old(self)@.len() ==> removed == Some(old(self)@[index as int])
                && final(self)@ == old(self)@.remove(index as int),
            index >= old(self)@.len() ==> removed.is_none() && final(self)@ == old(self)@,
            old(self).wf() ==> final(self).wf(),
    {
        if index < self.channels.len() {
            Some(self.channels.remove(index))
        } else {
            None
        }
    }

    /// Pulls one sample from every voice and returns their sum.
    pub fn get_mixed_sample(&mut self) -> (sample: i128)
        requires
            old(self).wf(),
        ensures
            mixes_to(old(self)@, sample as int),
            final(self)@ == advance_all(old(self)@),
            final(self).wf(),
    {
        let n: usize = self.channels.len();
        let mut acc: i128 = 0;
        let mut i: usize = 0;
        let ghost mut pulled: Seq<i64> = Seq::empty();
        while i < n
            invariant
                i <= n,
                n == old(self).channels@.len(),
                self.channels@.len() == n,
                all_wf(old(self).channels@),
                pulled.len() == i,
                acc == total(pulled),
                -(i * 0x8000_0000_0000_0000) <= acc <= i * 0x8000_0000_0000_0000,
                forall|j: int| 0 <= j < i ==> (#[trigger] old(self).channels@[j]).yields(pulled[j]),
                forall|j: int|
                    0 <= j < i ==> self.channels@[j] == old(self).channels@[j].advanced(),
                forall|j: int| i <= j < n ==> self.channels@[j] == old(self).channels@[j],
            decreases n - i,
        {
            let s: i64 = self.channels[i].get_sample();
            proof {
                total_push(pulled, s);
                pulled = pulled.push(s);
            }
            acc = acc + s as i128;
            i = i + 1;
        }
        proof {
            let before = old(self).channels@;
            assert(yield_all(before, pulled));
            assert(self.channels@ =~= advance_all(before));
            assert forall|j: int| 0 <= j < self.channels@.len() implies (#[trigger] self.channels@[j]).wf() by {
                before[j].advanced_wf();
            }
        }
        acc
    }
}

} // verus!
