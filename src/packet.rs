use vstd::prelude::*;

use crate::error::AnalysisError;

verus! {

/// A half-open range `[start, end)` of sample indices.
#[derive(Clone, Copy, Debug, PartialEq, Eq, Structural)]
pub struct PacketRange {
    pub start: usize,
    pub end: usize,
}

/// The requested packet count, raised to at least one.
pub open spec fn effective_count(requested: usize) -> nat {
    if requested == 0 { 1 } else { requested as nat }
}

/// `max(1, total / n)` with `n` the effective packet count.
pub open spec fn samples_per_packet(total: nat, requested: usize) -> nat {
    let s = total / effective_count(requested);
    if s == 0 { 1 } else { s }
}

/// How many packets are emitted: all of them, unless there are fewer samples
/// than requested packets, in which case one packet per sample.
pub open spec fn packet_count(total: nat, requested: usize) -> nat {
    let n = effective_count(requested);
    if total < n { total } else { n }
}

/// Where packet `i` begins.
pub open spec fn packet_start(total: nat, requested: usize, i: nat) -> nat {
    i * samples_per_packet(total, requested)
}

/// Where packet `i` ends. The last requested packet absorbs the remainder of the division.
pub open spec fn packet_end(total: nat, requested: usize, i: nat) -> nat {
    let e = (i + 1) * samples_per_packet(total, requested);
    if i + 1 == effective_count(requested) { total } else if e < total { e } else { total }
}

/// The ranges are non-empty, ordered and contiguous, and cover `[0, total)`.
pub open spec fn partitions(ranges: Seq<PacketRange>, total: nat) -> bool {
    &&& (ranges.len() == 0 <==> total == 0)
    &&& ranges.len() > 0 ==> ranges[0].start == 0 && ranges.last().end == total
    &&& forall|i: int| 0 <= i < ranges.len() ==> #[trigger] ranges[i].start < ranges[i].end
    &&& forall|i: int|
        0 <= i < ranges.len() - 1 ==> #[trigger] ranges[i].end == ranges[i + 1].start
}

proof fn lemma_packet_bounds(total: nat, requested: usize, i: nat)
    requires
        i < packet_count(total, requested),
    ensures
        packet_start(total, requested, i) < packet_end(total, requested, i),
        packet_end(total, requested, i) <= total,
        (i + 1) * samples_per_packet(total, requested) <= total || samples_per_packet(
            total,
            requested,
        ) == 1,
        i + 1 < packet_count(total, requested) ==> packet_end(total, requested, i)
            == packet_start(total, requested, i + 1),
        i + 1 == packet_count(total, requested) ==> packet_end(total, requested, i) == total,
{
    let n = effective_count(requested);
    let s = samples_per_packet(total, requested);
    if total < n {
        assert(total / n == 0) by (nonlinear_arith)
            requires
                total < n,
        ;
        assert(s == 1);
    } else {
        assert(total / n >= 1) by (nonlinear_arith)
            requires
                total >= n,
                n >= 1,
        ;
        assert(n * (total / n) <= total) by (nonlinear_arith)
            requires
                n >= 1,
        ;
        assert((i + 1) * s <= n * s) by (nonlinear_arith)
            requires
                i + 1 <= n,
        ;
        assert(i * s < (i + 1) * s) by (nonlinear_arith)
            requires
                s >= 1,
        ;
    }
    assert(i * s < (i + 1) * s) by (nonlinear_arith)
        requires
            s >= 1,
    ;
}

/// Splits a sequence of `total` samples into packets for a requested packet
/// count. A count of zero is raised to one. Each packet holds
/// `max(1, total / n)` samples, except the last requested one, which runs to
/// `total`. When there are fewer samples than packets, only as many packets as
/// samples are produced.
pub fn packet_ranges(total: usize, requested: usize) -> (r: Vec<PacketRange>)
    ensures
        r@.len() == packet_count(total as nat, requested),
        forall|i: int|
            0 <= i < r@.len() ==> (#[trigger] r@[i]).start == packet_start(
                total as nat,
                requested,
                i as nat,
            ) && r@[i].end == packet_end(total as nat, requested, i as nat),
        partitions(r@, total as nat),
{
    let n: usize = if requested == 0 { 1 } else { requested };
    let per: usize = if total / n == 0 { 1 } else { total / n };
    let count: usize = if total < n { total } else { n };
    let mut r: Vec<PacketRange> = Vec::with_capacity(count);
    let mut i: usize = 0;
    while i < count
        invariant
            n as nat == effective_count(requested),
            per as nat == samples_per_packet(total as nat, requested),
            count as nat == packet_count(total as nat, requested),
            i <= count,
            r@.len() == i,
            forall|k: int|
                0 <= k < i ==> (#[trigger] r@[k]).start == packet_start(
                    total as nat,
                    requested,
                    k as nat,
                ) && r@[k].end == packet_end(total as nat, requested, k as nat),
        decreases count - i,
    {
        proof {
            lemma_packet_bounds(total as nat, requested, i as nat);
            assert(i * per <= (i + 1) * per) by (nonlinear_arith)
                requires
                    per >= 1,
            ;
        }
        let start: usize = i * per;
        let end: usize = if i + 1 == n {
            total
        } else {
            let e: usize = (i + 1) * per;
            if e < total { e } else { total }
        };
        r.push(PacketRange { start, end });
        i = i + 1;
    }
    proof {
        assert forall|k: int| 0 <= k < r@.len() implies #[trigger] r@[k].start < r@[k].end by {
            lemma_packet_bounds(total as nat, requested, k as nat);
        }
        assert forall|k: int| 0 <= k < r@.len() - 1 implies #[trigger] r@[k].end == r@[k
            + 1].start by {
            lemma_packet_bounds(total as nat, requested, k as nat);
            assert(r@[k + 1].start == packet_start(total as nat, requested, (k + 1) as nat));
        }
        if r@.len() > 0 {
            lemma_packet_bounds(total as nat, requested, (r@.len() - 1) as nat);
            assert(r@[0].start == packet_start(total as nat, requested, 0));
            assert(r@.last() == r@[r@.len() - 1]);
        }
    }
    r
}

/// The samples of `v` in `[start, end)`, copied out.
pub fn copy_range<T: Copy>(v: &Vec<T>, start: usize, end: usize) -> (r: Vec<T>)
    requires
        start <= end <= v@.len(),
    ensures
        r@ == v@.subrange(start as int, end as int),
{
    let mut r: Vec<T> = Vec::with_capacity(end - start);
    let mut j: usize = start;
    while j < end
        invariant
            start <= j <= end <= v@.len(),
            r@ == v@.subrange(start as int, j as int),
        decreases end - j,
    {
        r.push(v[j]);
        j = j + 1;
        proof {
            assert(r@ =~= v@.subrange(start as int, j as int));
        }
    }
    r
}

/// Splits `samples` into packets as `packet_ranges` does and applies
/// `feature` to the samples of each packet, in order. Every packet is
/// handed to `feature` on its own: nothing carries over from one packet to
/// the next.
pub fn packet_features<T: Copy, R, F: Fn(&[T]) -> R>(
    samples: &Vec<T>,
    requested: usize,
    feature: F,
) -> (r: Vec<R>)
    requires
        forall|p: &[T]| #[trigger] feature.requires((p,)),
    ensures
        r@.len() == packet_count(samples@.len(), requested),
        forall|i: int, p: &[T]|
            0 <= i < r@.len() && p@ == samples@.subrange(
                packet_start(samples@.len(), requested, i as nat) as int,
                packet_end(samples@.len(), requested, i as nat) as int,
            ) ==> #[trigger] feature.ensures((p,), r@[i]),
{
    let ranges = packet_ranges(samples.len(), requested);
    let mut r: Vec<R> = Vec::with_capacity(ranges.len());
    let mut i: usize = 0;
    while i < ranges.len()
        invariant
            forall|p: &[T]| #[trigger] feature.requires((p,)),
            ranges@.len() == packet_count(samples@.len(), requested),
            forall|k: int|
                0 <= k < ranges@.len() ==> (#[trigger] ranges@[k]).start == packet_start(
                    samples@.len(),
                    requested,
                    k as nat,
                ) && ranges@[k].end == packet_end(samples@.len(), requested, k as nat),
            partitions(ranges@, samples@.len()),
            i <= ranges@.len(),
            r@.len() == i,
            forall|k: int, p: &[T]|
                0 <= k < i && p@ == samples@.subrange(
                    packet_start(samples@.len(), requested, k as nat) as int,
                    packet_end(samples@.len(), requested, k as nat) as int,
                ) ==> #[trigger] feature.ensures((p,), r@[k]),
        decreases ranges@.len() - i,
    {
        let range = ranges[i];
        proof {
            lemma_packet_bounds(samples@.len(), requested, i as nat);
        }
        let chunk = copy_range(samples, range.start, range.end);
        let slice = chunk.as_slice();
        let value = feature(slice);
        r.push(value);
        proof {
            assert forall|k: int, p: &[T]|
                0 <= k < r@.len() && p@ == samples@.subrange(
                    packet_start(samples@.len(), requested, k as nat) as int,
                    packet_end(samples@.len(), requested, k as nat) as int,
                ) implies #[trigger] feature.ensures((p,), r@[k]) by {
                if k == i {
                    assert(p@ == slice@);
                    assert(p =~= slice);
                }
            }
        }
        i = i + 1;
    }
    r
}

/// The two feature series of a mono sequence: `volume` and `bass` applied
/// to every packet, in packet order. The bass feature also gets the sample
/// rate, which must not be zero.
pub fn analyze_vectors<T: Copy, V, B, F: Fn(&[T]) -> V, G: Fn(&[T], u32) -> B>(
    mono: &Vec<T>,
    sample_rate: u32,
    requested: usize,
    volume: F,
    bass: G,
) -> (r: Result<(Vec<V>, Vec<B>), AnalysisError>)
    requires
        forall|p: &[T]| #[trigger] volume.requires((p,)),
        forall|p: &[T], rate: u32| rate > 0 ==> #[trigger] bass.requires((p, rate)),
    ensures
        sample_rate == 0 <==> r == Err::<(Vec<V>, Vec<B>), AnalysisError>(
            AnalysisError::InvalidSampleRate,
        ),
        sample_rate > 0 ==> r is Ok,
        r matches Ok((v, b)) ==> {
            &&& v@.len() == packet_count(mono@.len(), requested)
            &&& b@.len() == v@.len()
            &&& forall|i: int, p: &[T]|
                0 <= i < v@.len() && p@ == mono@.subrange(
                    packet_start(mono@.len(), requested, i as nat) as int,
                    packet_end(mono@.len(), requested, i as nat) as int,
                ) ==> #[trigger] volume.ensures((p,), v@[i])
            &&& forall|i: int, p: &[T]|
                0 <= i < b@.len() && p@ == mono@.subrange(
                    packet_start(mono@.len(), requested, i as nat) as int,
                    packet_end(mono@.len(), requested, i as nat) as int,
                ) ==> #[trigger] bass.ensures((p, sample_rate), b@[i])
        },
{
    if sample_rate == 0 {
        return Err(AnalysisError::InvalidSampleRate);
    }
    let v = packet_features(mono, requested, volume);
    let g = &bass;
    let at_rate = move |p: &[T]| -> (o: B)
        ensures
            call_ensures(*g, (p, sample_rate), o),
        { g(p, sample_rate) };
    let b = packet_features(mono, requested, at_rate);
    proof {
        assert forall|i: int, p: &[T]|
            0 <= i < b@.len() && p@ == mono@.subrange(
                packet_start(mono@.len(), requested, i as nat) as int,
                packet_end(mono@.len(), requested, i as nat) as int,
            ) implies #[trigger] bass.ensures((p, sample_rate), b@[i]) by {
            assert(at_rate.ensures((p,), b@[i]));
        }
    }
    Ok((v, b))
}

} // verus!
