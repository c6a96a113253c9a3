use vstd::prelude::*;

verus! {

/// Spectrum bins each ring listens to when `rings` rings share the lower
/// half of a window of `window_size` samples.
pub open spec fn ring_width(window_size: nat, rings: nat) -> nat {
    window_size / 2 / rings
}

/// The bin range of ring `i` (rings are numbered from 1; ring 0 is not
/// created).
pub open spec fn ring_band(window_size: nat, rings: nat, i: nat) -> (nat, nat) {
    (i * ring_width(window_size, rings), (i + 1) * ring_width(window_size, rings))
}

proof fn lemma_ring_band_fits(window_size: nat, rings: nat, i: nat)
    requires
        i < rings,
    ensures
        i * ring_width(window_size, rings) <= (i + 1) * ring_width(window_size, rings) <= window_size / 2,
{
    let w = ring_width(window_size, rings);
    let h = window_size / 2;
    assert(rings * w <= h) by (nonlinear_arith) requires w == h / rings, rings > 0;
    assert((i + 1) * w <= rings * w) by (nonlinear_arith) requires i + 1 <= rings;
    assert(i * w <= (i + 1) * w) by (nonlinear_arith);
}

/// The listening ranges of rings `1 .. rings`, in order.
pub fn ring_bands(window_size: usize, rings: usize) -> (r: Vec<(usize, usize)>)
    requires
        rings > 0,
    ensures
        r@.len() == rings - 1,
        forall|k: int| 0 <= k < r@.len() ==> {
            &&& (#[trigger] r@[k]).0 == ring_band(window_size as nat, rings as nat, (k + 1) as nat).0
            &&& r@[k].1 == ring_band(window_size as nat, rings as nat, (k + 1) as nat).1
            &&& r@[k].0 <= r@[k].1 <= window_size / 2
        },
{
    let columns = window_size / 2;
    let width = columns / rings;
    let mut r: Vec<(usize, usize)> = Vec::new();
    let mut i: usize = 1;
    while i < rings
        invariant
            1 <= i <= rings,
            columns == window_size / 2,
            width == ring_width(window_size as nat, rings as nat),
            r@.len() == i - 1,
            forall|k: int| 0 <= k < r@.len() ==> {
                &&& (#[trigger] r@[k]).0 == ring_band(window_size as nat, rings as nat, (k + 1) as nat).0
                &&& r@[k].1 == ring_band(window_size as nat, rings as nat, (k + 1) as nat).1
                &&& r@[k].0 <= r@[k].1 <= window_size / 2
            },
        decreases rings - i,
    {
        proof {
            lemma_ring_band_fits(window_size as nat, rings as nat, i as nat);
        }
        r.push((i * width, (i + 1) * width));
        i = i + 1;
    }
    r
}

/// Neighbouring rings listen to adjacent, equally wide ranges of bins.
pub proof fn lemma_ring_bands_adjacent(window_size: nat, rings: nat, i: nat)
    requires
        1 <= i,
        i + 1 < rings,
    ensures
        ring_band(window_size, rings, i).1 == ring_band(window_size, rings, i + 1).0,
        ring_band(window_size, rings, i).1 - ring_band(window_size, rings, i).0 == ring_width(window_size, rings),
{
    let w = ring_width(window_size, rings);
    assert((i + 1) * w == i * w + w) by (nonlinear_arith);
}

/// A ring listens to the widest whole number of bins that lets `rings`
/// rings fit into the lower half of the window.
pub proof fn lemma_ring_width_is_widest(window_size: nat, rings: nat)
    requires
        rings > 0,
    ensures
        rings * ring_width(window_size, rings) <= window_size / 2,
        window_size / 2 < rings * (ring_width(window_size, rings) + 1),
{
    let h = window_size / 2;
    let w = ring_width(window_size, rings);
    assert(rings * w <= h < rings * (w + 1)) by (nonlinear_arith)
        requires w == h / rings, rings > 0;
}

} // verus!
