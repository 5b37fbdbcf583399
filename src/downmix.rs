use vstd::prelude::*;

use crate::packet::copy_range;

verus! {

/// The `i`-th interleaved frame of `samples`: `channels` consecutive values.
pub open spec fn frame<T>(samples: Seq<T>, channels: nat, i: nat) -> Seq<T> {
    samples.subrange((i * channels) as int, (i * channels + channels) as int)
}

proof fn lemma_frame_fits(len: nat, channels: nat, i: nat)
    requires
        channels > 1,
        i < len / channels,
    ensures
        i * channels + channels <= len,
        i * channels <= i * channels + channels,
{
    assert((i + 1) * channels <= (len / channels) * channels) by (nonlinear_arith)
        requires
            i + 1 <= len / channels,
    ;
    assert((len / channels) * channels <= len) by (nonlinear_arith)
        requires
            channels > 1,
    ;
    assert((i + 1) * channels == i * channels + channels) by (nonlinear_arith);
}

/// Collapses interleaved frames of `channels` samples each into one value
/// per frame, by handing each frame to `mean`. A single channel (or none)
/// leaves the samples as they are. A partial frame at the end is dropped.
pub fn downmix<T: Copy, F: Fn(&[T]) -> T>(samples: Vec<T>, channels: usize, mean: F) -> (r: Vec<
    T,
>)
    requires
        forall|p: &[T]| #[trigger] mean.requires((p,)),
    ensures
        channels <= 1 ==> r@ == samples@,
        channels > 1 ==> r@.len() == samples@.len() / (channels as nat),
        channels > 1 ==> forall|i: int, p: &[T]|
            0 <= i < r@.len() && p@ == frame(samples@, channels as nat, i as nat)
                ==> #[trigger] mean.ensures((p,), r@[i]),
{
    if channels <= 1 {
        return samples;
    }
    let frames: usize = samples.len() / channels;
    let mut r: Vec<T> = Vec::with_capacity(frames);
    let mut i: usize = 0;
    while i < frames
        invariant
            forall|p: &[T]| #[trigger] mean.requires((p,)),
            channels > 1,
            samples@.len() <= usize::MAX,
            frames == samples@.len() / (channels as nat),
            i <= frames,
            r@.len() == i,
            forall|k: int, p: &[T]|
                0 <= k < i && p@ == frame(samples@, channels as nat, k as nat)
                    ==> #[trigger] mean.ensures((p,), r@[k]),
        decreases frames - i,
    {
        proof {
            lemma_frame_fits(samples@.len(), channels as nat, i as nat);
        }
        let start: usize = i * channels;
        let chunk = copy_range(&samples, start, start + channels);
        let slice = chunk.as_slice();
        let value = mean(slice);
        r.push(value);
        proof {
            assert forall|k: int, p: &[T]|
                0 <= k < r@.len() && p@ == frame(samples@, channels as nat, k as nat) implies #[trigger] mean.ensures(
                (p,),
                r@[k],
            ) by {
                if k == i {
                    assert(p =~= slice);
                }
            }
        }
        i = i + 1;
    }
    r
}

} // verus!
