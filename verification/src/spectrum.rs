//! Spectrum post-processing: truncation to a frequency limit and peak
//! extraction.
//!
//! The Fourier stage outside this crate turns one analysis window into a
//! sequence of (frequency, amplitude) pairs, frequency ascending. Both values
//! are non-negative, and this crate never needs their numeric magnitudes —
//! only their order. Each is therefore carried as an order-preserving 32-bit
//! encoding: comparing two encodings compares the underlying values. (For
//! non-negative single-precision values the raw bit pattern is such an
//! encoding; the caller converts.) Any cosmetic display scaling of amplitudes
//! happens outside this crate, after the peak is chosen, so it cannot affect
//! peak selection.

use vstd::prelude::*;

verus! {

/// One spectrum entry: an order-preserving encoding of its frequency and of
/// its amplitude.
#[derive(Clone, Copy, Debug, PartialEq, Eq, Structural)]
pub struct SpectrumPoint {
    /// Order-preserving encoding of the frequency.
    pub freq: u32,
    /// Order-preserving encoding of the amplitude.
    pub amp: u32,
}

/// Whether the entries are sorted by frequency, ascending.
pub open spec fn freqs_ascending(s: Seq<SpectrumPoint>) -> bool {
    forall|i: int, j: int| 0 <= i < j < s.len() ==> s[i].freq <= s[j].freq
}

/// The predicate truncation keeps: the entry's frequency does not exceed the
/// configured maximum.
pub open spec fn keeps(max_freq: u32) -> spec_fn(SpectrumPoint) -> bool {
    |p: SpectrumPoint| p.freq <= max_freq
}

/// Whether index `i` is where the peak of `s` sits: no amplitude anywhere is
/// greater, and every earlier amplitude is strictly smaller. Ties in
/// amplitude therefore resolve to the first occurrence in ascending-frequency
/// order; that tie-break is fixed by `lemma_first_peak_unique`.
pub open spec fn is_first_peak(s: Seq<SpectrumPoint>, i: int) -> bool {
    &&& 0 <= i < s.len()
    &&& forall|j: int| 0 <= j < s.len() ==> s[j].amp <= s[i].amp
    &&& forall|j: int| 0 <= j < i ==> s[j].amp < s[i].amp
}

/// At most one index is the first peak.
pub proof fn lemma_first_peak_unique(s: Seq<SpectrumPoint>, i: int, j: int)
    requires
        is_first_peak(s, i),
        is_first_peak(s, j),
    ensures
        i == j,
{
    if i < j {
        assert(s[i].amp < s[j].amp);
        assert(s[j].amp <= s[i].amp);
    }
    if j < i {
        assert(s[j].amp < s[i].amp);
        assert(s[i].amp <= s[j].amp);
    }
}

/// Keep exactly the entries whose frequency is within `max_freq`, in their
/// original order.
pub fn truncate_spectrum(points: &Vec<SpectrumPoint>, max_freq: u32) -> (r: Vec<SpectrumPoint>)
    ensures
        r@ == points@.filter(keeps(max_freq)),
{
    let mut out: Vec<SpectrumPoint> = Vec::new();
    let n: usize = points.len();
    let mut idx: usize = 0;
    proof {
        reveal(Seq::filter);
        assert(points@.subrange(0, 0) =~= Seq::<SpectrumPoint>::empty());
    }
    while idx < n
        invariant
            idx <= n,
            n == points@.len(),
            out@ == points@.subrange(0, idx as int).filter(keeps(max_freq)),
        decreases n - idx,
    {
        let p = *points.get(idx).unwrap();
        proof {
            reveal(Seq::filter);
            let sub1 = points@.subrange(0, idx as int + 1);
            assert(sub1.drop_last() =~= points@.subrange(0, idx as int));
            assert(sub1.last() == points@[idx as int]);
        }
        if p.freq <= max_freq {
            out.push(p);
        }
        idx = idx + 1;
    }
    proof {
        assert(points@.subrange(0, n as int) =~= points@);
    }
    out
}

/// The index of the peak: the first entry of maximal amplitude; `None` only
/// on an empty spectrum.
pub fn peak_index(points: &Vec<SpectrumPoint>) -> (r: Option<usize>)
    ensures
        (r is Some) <==> points@.len() > 0,
        r matches Some(i) ==> is_first_peak(points@, i as int),
{
    if points.len() == 0 {
        return None;
    }
    let mut best: usize = 0;
    let mut idx: usize = 1;
    while idx < points.len()
        invariant
            0 <= best < idx <= points@.len(),
            forall|j: int| 0 <= j < idx ==> points@[j].amp <= points@[best as int].amp,
            forall|j: int| 0 <= j < best ==> points@[j].amp < points@[best as int].amp,
        decreases points@.len() - idx,
    {
        if points.get(idx).unwrap().amp > points.get(best).unwrap().amp {
            best = idx;
        }
        idx = idx + 1;
    }
    Some(best)
}

/// The peak itself: the first entry of maximal amplitude; `None` only on an
/// empty spectrum.
pub fn find_peak(points: &Vec<SpectrumPoint>) -> (r: Option<SpectrumPoint>)
    ensures
        (r is Some) <==> points@.len() > 0,
        r matches Some(p) ==> exists|i: int| is_first_peak(points@, i) && p == points@[i],
{
    match peak_index(points) {
        Some(i) => {
            let p = *points.get(i).unwrap();
            proof {
                assert(is_first_peak(points@, i as int) && p == points@[i as int]);
            }
            Some(p)
        },
        None => None,
    }
}

/// One window's post-transform stage in a single call: truncate to the
/// frequency limit, then extract the peak of what is kept.
pub fn analyze_spectrum(points: &Vec<SpectrumPoint>, max_freq: u32) -> (r: (
    Vec<SpectrumPoint>,
    Option<SpectrumPoint>,
))
    ensures
        r.0@ == points@.filter(keeps(max_freq)),
        (r.1 is Some) <==> r.0@.len() > 0,
        r.1 matches Some(p) ==> exists|i: int| is_first_peak(r.0@, i) && p == r.0@[i],
{
    let kept = truncate_spectrum(points, max_freq);
    let peak = find_peak(&kept);
    (kept, peak)
}

/// Every element of a filtered sequence is an element of the original.
proof fn lemma_filter_element_of(s: Seq<SpectrumPoint>, pred: spec_fn(SpectrumPoint) -> bool)
    ensures
        forall|k: int|
            0 <= k < s.filter(pred).len() ==> exists|j: int|
                0 <= j < s.len() && #[trigger] s.filter(pred)[k] == s[j],
    decreases s.len(),
{
    reveal(Seq::filter);
    if s.len() > 0 {
        let d = s.drop_last();
        lemma_filter_element_of(d, pred);
        let f = s.filter(pred);
        let fd = d.filter(pred);
        assert forall|k: int| 0 <= k < f.len() implies exists|j: int|
            0 <= j < s.len() && #[trigger] f[k] == s[j] by {
            if pred(s.last()) && k == f.len() - 1 {
                assert(f[k] == s.last());
                assert(f[k] == s[s.len() - 1]);
            } else {
                assert(f[k] == fd[k]);
                let j = choose|j: int| 0 <= j < d.len() && fd[k] == d[j];
                assert(f[k] == s[j]);
            }
        }
    }
}

/// Truncation preserves ascending frequency order.
pub proof fn lemma_truncate_keeps_ascending(s: Seq<SpectrumPoint>, max_freq: u32)
    requires
        freqs_ascending(s),
    ensures
        freqs_ascending(s.filter(keeps(max_freq))),
    decreases s.len(),
{
    reveal(Seq::filter);
    if s.len() > 0 {
        let d = s.drop_last();
        assert(freqs_ascending(d));
        lemma_truncate_keeps_ascending(d, max_freq);
        let f = s.filter(keeps(max_freq));
        let fd = d.filter(keeps(max_freq));
        if keeps(max_freq)(s.last()) {
            lemma_filter_element_of(d, keeps(max_freq));
            assert forall|i: int, j: int| 0 <= i < j < f.len() implies f[i].freq <= f[j].freq by {
                if j < fd.len() {
                    assert(f[i] == fd[i] && f[j] == fd[j]);
                } else {
                    assert(f[j] == s.last());
                    assert(f[i] == fd[i]);
                    let m = choose|m: int| 0 <= m < d.len() && fd[i] == d[m];
                    assert(d[m] == s[m]);
                    assert(s[m].freq <= s[s.len() - 1].freq);
                }
            }
        }
    }
}

} // verus!
