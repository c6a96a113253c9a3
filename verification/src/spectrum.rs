use vstd::prelude::*;

verus! {

/// Number of spectrum bins that one display column sums up.
pub open spec fn band_width(window_size: nat, columns: nat) -> nat {
    window_size / columns / 2
}

/// The half-open range of spectrum bins that column `column` covers.
pub open spec fn band(window_size: nat, columns: nat, column: nat) -> (nat, nat) {
    (column * band_width(window_size, columns), (column + 1) * band_width(window_size, columns))
}

proof fn lemma_band_fits(window_size: nat, columns: nat, column: nat)
    requires
        column < columns,
    ensures
        (column + 1) * band_width(window_size, columns) <= window_size / 2,
        column * band_width(window_size, columns) <= (column + 1) * band_width(window_size, columns),
{
    let w = band_width(window_size, columns);
    let q = window_size / columns;
    assert(columns * q <= window_size) by (nonlinear_arith)
        requires q == window_size / columns, columns > 0;
    assert(2 * w <= q) by (nonlinear_arith) requires w == q / 2;
    assert((column + 1) * w <= columns * w) by (nonlinear_arith)
        requires column + 1 <= columns;
    assert(columns * (2 * w) <= columns * q) by (nonlinear_arith)
        requires 2 * w <= q;
    assert(2 * (columns * w) == columns * (2 * w)) by (nonlinear_arith);
    assert(column * w <= (column + 1) * w) by (nonlinear_arith);
}

/// Spectrum bins summed into display column `column`.
pub fn column_band(window_size: usize, columns: usize, column: usize) -> (r: (usize, usize))
    requires
        column < columns,
    ensures
        r.0 == band(window_size as nat, columns as nat, column as nat).0,
        r.1 == band(window_size as nat, columns as nat, column as nat).1,
        r.0 <= r.1 <= window_size / 2,
{
    proof {
        lemma_band_fits(window_size as nat, columns as nat, column as nat);
    }
    let width = window_size / columns / 2;
    (column * width, (column + 1) * width)
}

/// The bands of every display column that the spectralizer fills: columns
/// `1 .. columns`, in order (column 0 is never written).
pub open spec fn bands(window_size: nat, columns: nat) -> Seq<(nat, nat)> {
    Seq::new((if columns > 0 { columns - 1 } else { 0 }) as nat, |i: int| band(window_size, columns, (i + 1) as nat))
}

/// The bin ranges of display columns `1 .. columns`, in order.
pub fn column_bands(window_size: usize, columns: usize) -> (r: Vec<(usize, usize)>)
    ensures
        r@.len() == bands(window_size as nat, columns as nat).len(),
        forall|i: int| 0 <= i < r@.len() ==> {
            &&& (#[trigger] r@[i]).0 == bands(window_size as nat, columns as nat)[i].0
            &&& r@[i].1 == bands(window_size as nat, columns as nat)[i].1
        },
{
    let mut r: Vec<(usize, usize)> = Vec::new();
    let mut column: usize = 1;
    while column < columns
        invariant
            1 <= column,
            column <= columns || column == 1,
            r@.len() == column - 1,
            forall|i: int| 0 <= i < r@.len() ==> {
                &&& (#[trigger] r@[i]).0 == band(window_size as nat, columns as nat, (i + 1) as nat).0
                &&& r@[i].1 == band(window_size as nat, columns as nat, (i + 1) as nat).1
            },
        decreases columns - column,
    {
        let b = column_band(window_size, columns, column);
        r.push(b);
        column = column + 1;
    }
    let ghost all = bands(window_size as nat, columns as nat);
    assert(r@.len() == all.len());
    assert forall|i: int| 0 <= i < r@.len() implies all[i] == band(window_size as nat, columns as nat, (i + 1) as nat) by {}
    r
}

/// The column bands tile the lower half of the spectrum without gaps or
/// overlaps: each band ends where the next one starts, all bands have the
/// same width, and none reaches past half of the window.
pub proof fn lemma_bands_tile(window_size: nat, columns: nat, i: int)
    requires
        0 <= i < bands(window_size, columns).len(),
    ensures
        bands(window_size, columns)[i].0 <= bands(window_size, columns)[i].1 <= window_size / 2,
        bands(window_size, columns)[i].1 - bands(window_size, columns)[i].0 == band_width(window_size, columns),
        i + 1 < bands(window_size, columns).len() ==> bands(window_size, columns)[i].1 == bands(window_size, columns)[i + 1].0,
{
    lemma_band_fits(window_size, columns, (i + 1) as nat);
    let w = band_width(window_size, columns);
    assert((i + 2) * w == (i + 1) * w + w) by (nonlinear_arith);
}

/// A band is the widest whole number of bins that lets `columns` bands fit
/// into the lower half of the window: `columns` of them fit, `columns` bands
/// one bin wider do not.
pub proof fn lemma_band_width_is_widest(window_size: nat, columns: nat)
    requires
        columns > 0,
    ensures
        2 * columns * band_width(window_size, columns) <= window_size,
        window_size < 2 * columns * (band_width(window_size, columns) + 1),
{
    let q = window_size / columns;
    let w = band_width(window_size, columns);
    assert(columns * q <= window_size < columns * (q + 1)) by (nonlinear_arith)
        requires q == window_size / columns, columns > 0;
    assert(2 * w <= q < 2 * w + 2) by (nonlinear_arith) requires w == q / 2;
    assert(2 * columns * w <= columns * q) by (nonlinear_arith) requires 2 * w <= q;
    assert(columns * (q + 1) <= 2 * columns * (w + 1)) by (nonlinear_arith) requires q + 1 <= 2 * w + 2;
}

} // verus!
