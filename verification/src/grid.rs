use vstd::prelude::*;

verus! {

/// The index buffer of the landscape grid: every vertex once, in order.
/// `rows` rows of `columns` columns on each of two sides, two vertices (bottom
/// and top) per column.
pub fn grid_indices(rows: usize, columns: usize) -> (r: Vec<u16>)
    requires
        rows * columns * 4 <= 65535,
    ensures
        r@.len() == rows * columns * 4,
        forall|i: int| 0 <= i < r@.len() ==> r@[i] == i,
{
    let mut r: Vec<u16> = Vec::new();
    let mut index: u16 = 0;
    let mut row: usize = 0;
    while row < rows
        invariant
            row <= rows,
            rows * columns * 4 <= 65535,
            r@.len() == row * columns * 4,
            index == r@.len(),
            forall|i: int| 0 <= i < r@.len() ==> r@[i] == i,
        decreases rows - row,
    {
        proof {
            assert((row + 1) * columns * 4 <= rows * columns * 4) by (nonlinear_arith)
                requires row + 1 <= rows;
            assert((row + 1) * columns * 4 == row * columns * 4 + columns * 4) by (nonlinear_arith);
        }
        let mut side: usize = 0;
        while side < 2
            invariant
                side <= 2,
                r@.len() == row * columns * 4 + side * columns * 2,
                (row + 1) * columns * 4 == row * columns * 4 + columns * 4,
                (row + 1) * columns * 4 <= 65535,
                index == r@.len(),
                forall|i: int| 0 <= i < r@.len() ==> r@[i] == i,
            decreases 2 - side,
        {
            let mut column: usize = 0;
            while column < columns
                invariant
                    side < 2,
                    column <= columns,
                    r@.len() == row * columns * 4 + side * columns * 2 + column * 2,
                    (row + 1) * columns * 4 == row * columns * 4 + columns * 4,
                    (row + 1) * columns * 4 <= 65535,
                    index == r@.len(),
                    forall|i: int| 0 <= i < r@.len() ==> r@[i] == i,
                decreases columns - column,
            {
                proof {
                    assert(side * columns * 2 + column * 2 + 2 <= columns * 4) by (nonlinear_arith)
                        requires side < 2, column < columns;
                }
                r.push(index);
                index = index + 1;
                r.push(index);
                index = index + 1;
                column = column + 1;
            }
            proof {
                assert(side * columns * 2 + columns * 2 == (side + 1) * columns * 2) by (nonlinear_arith);
            }
            side = side + 1;
        }
        row = row + 1;
    }
    r
}

/// Where the newest heights go: the row three quarters into the grid.
pub open spec fn fresh_row(rows: nat) -> nat {
    rows * 3 / 4
}

/// First vertex of the left and of the right half of the fresh row, for
/// `columns` columns per side (four vertices per column and row).
pub fn fresh_row_offsets(rows: usize, columns: usize) -> (r: (usize, usize))
    requires
        rows * 3 <= usize::MAX,
        columns * 4 <= usize::MAX,
        rows * columns * 4 <= usize::MAX,
    ensures
        r.0 == fresh_row(rows as nat) * (columns * 4),
        r.1 == r.0 + columns * 2,
{
    let alter_row = rows * 3 / 4;
    proof {
        if rows > 0 {
            assert(alter_row + 1 <= rows);
            assert((alter_row + 1) * (columns * 4) <= rows * (columns * 4)) by (nonlinear_arith)
                requires alter_row + 1 <= rows;
            assert((alter_row + 1) * (columns * 4) == alter_row * (columns * 4) + columns * 4) by (nonlinear_arith);
            assert(rows * (columns * 4) == rows * columns * 4) by (nonlinear_arith);
        } else {
            assert(alter_row == 0);
        }
        assert((columns * 4) * alter_row == alter_row * (columns * 4)) by (nonlinear_arith);
    }
    let row_size = columns * 4;
    let left = row_size * alter_row;
    (left, left + columns * 2)
}

/// The fresh heights of the two halves never overlap: for every column the
/// bottom and top vertex of the left half come before the right half starts,
/// and all of them stay inside the fresh row.
pub proof fn lemma_fresh_row_halves_disjoint(rows: nat, columns: nat, c: nat, top: nat)
    requires
        c < columns,
        top < 2,
        rows > 0,
    ensures
        fresh_row(rows) * (columns * 4) <= fresh_row(rows) * (columns * 4) + c * 2 + top
            < fresh_row(rows) * (columns * 4) + columns * 2,
        fresh_row(rows) * (columns * 4) + columns * 2 + c * 2 + top < (fresh_row(rows) + 1) * (columns * 4),
        fresh_row(rows) < rows,
{
    assert(c * 2 + top < columns * 2) by (nonlinear_arith) requires c < columns, top < 2;
    assert((fresh_row(rows) + 1) * (columns * 4) == fresh_row(rows) * (columns * 4) + columns * 4) by (nonlinear_arith);
}

/// The buffer after the grid has moved one row forward: the first `rows`
/// rows of `row_size` entries move up by one row, the first row becomes the
/// last one, and whatever follows the grid stays.
pub open spec fn rows_rotated<T>(s: Seq<T>, row_size: nat, rows: nat) -> Seq<T> {
    let n = (rows * row_size) as int;
    s.subrange(row_size as int, n) + s.subrange(0, row_size as int) + s.subrange(n, s.len() as int)
}

/// The buffer after `k` moves.
pub open spec fn rows_rotated_times<T>(s: Seq<T>, row_size: nat, rows: nat, k: nat) -> Seq<T>
    decreases k,
{
    if k == 0 {
        s
    } else {
        rows_rotated(rows_rotated_times(s, row_size, rows, (k - 1) as nat), row_size, rows)
    }
}

/// Moves the grid one row forward (see `rows_rotated`): the heights of the
/// row that scrolled out are reused for the new last row.
pub fn rotate_rows<T: Copy>(buf: &mut Vec<T>, row_size: usize, rows: usize)
    requires
        rows >= 1,
        rows * row_size <= old(buf)@.len(),
    ensures
        final(buf)@ == rows_rotated(old(buf)@, row_size as nat, rows as nat),
{
    let ghost orig = buf@;
    let len = buf.len();
    proof {
        assert(row_size <= rows * row_size) by (nonlinear_arith) requires rows >= 1;
    }
    let n = rows * row_size;
    let mut first: Vec<T> = Vec::new();
    let mut i: usize = 0;
    while i < row_size
        invariant
            i <= row_size,
            row_size <= n,
            n <= orig.len(),
            buf@ == orig,
            first@ == orig.subrange(0, i as int),
        decreases row_size - i,
    {
        first.push(buf[i]);
        i = i + 1;
    }
    let mut j: usize = 0;
    while j < n - row_size
        invariant
            j <= n - row_size,
            row_size <= n,
            n <= orig.len(),
            buf@.len() == orig.len(),
            first@ == orig.subrange(0, row_size as int),
            forall|k: int| 0 <= k < j ==> buf@[k] == orig[k + row_size],
            forall|k: int| j <= k < orig.len() ==> buf@[k] == orig[k],
        decreases n - row_size - j,
    {
        let x = buf[j + row_size];
        buf.set(j, x);
        j = j + 1;
    }
    let mut m: usize = 0;
    while m < row_size
        invariant
            m <= row_size,
            row_size <= n,
            n <= orig.len(),
            buf@.len() == orig.len(),
            first@ == orig.subrange(0, row_size as int),
            forall|k: int| 0 <= k < n - row_size ==> buf@[k] == orig[k + row_size],
            forall|k: int| n - row_size <= k < n - row_size + m ==> buf@[k] == orig[k - (n - row_size)],
            forall|k: int| n - row_size + m <= k < orig.len() ==> buf@[k] == orig[k],
        decreases row_size - m,
    {
        buf.set(n - row_size + m, first[m]);
        m = m + 1;
    }
    assert(buf@ =~= rows_rotated(orig, row_size as nat, rows as nat));
}

proof fn lemma_rotated_times_closed_form<T>(s: Seq<T>, row_size: nat, rows: nat, k: nat)
    requires
        k <= rows,
        rows * row_size <= s.len(),
    ensures
        k * row_size <= rows * row_size,
        rows_rotated_times(s, row_size, rows, k) =~= s.subrange((k * row_size) as int, (rows * row_size) as int)
            + s.subrange(0, (k * row_size) as int) + s.subrange((rows * row_size) as int, s.len() as int),
    decreases k,
{
    assert(k * row_size <= rows * row_size) by (nonlinear_arith) requires k <= rows;
    if k > 0 {
        lemma_rotated_times_closed_form(s, row_size, rows, (k - 1) as nat);
        assert((k - 1) * row_size + row_size == k * row_size) by (nonlinear_arith) requires k > 0;
        assert(row_size <= rows * row_size) by (nonlinear_arith) requires rows >= k, k > 0;
        let n = (rows * row_size) as int;
        let p = ((k - 1) * row_size) as int;
        let q = (k * row_size) as int;
        let rs = row_size as int;
        let a = rows_rotated_times(s, row_size, rows, (k - 1) as nat);
        let b = rows_rotated_times(s, row_size, rows, k);
        let target = s.subrange(q, n) + s.subrange(0, q) + s.subrange(n, s.len() as int);
        assert(a.len() == s.len());
        assert(b == rows_rotated(a, row_size, rows));
        assert forall|i: int| 0 <= i < s.len() implies b[i] == target[i] by {
            if i < n - rs {
                // b[i] == a[i + rs]
                assert(b[i] == a[i + rs]);
                if i + rs < n - p {
                    assert(a[i + rs] == s[p + i + rs]);
                } else {
                    assert(a[i + rs] == s[i + rs - (n - p)]);
                }
            } else if i < n {
                assert(b[i] == a[i - (n - rs)]);
                assert(a[i - (n - rs)] == s[p + i - (n - rs)]);
            } else {
                assert(b[i] == a[i]);
            }
        }
        assert(b =~= target);
    } else {
        assert(k * row_size == 0) by (nonlinear_arith) requires k == 0;
        let n = (rows * row_size) as int;
        assert(s.subrange(0, n) + s.subrange(0, 0) + s.subrange(n, s.len() as int) =~= s);
    }
}

/// Moving the grid forward once per row brings every height back to where
/// it started.
pub proof fn lemma_full_cycle_restores<T>(s: Seq<T>, row_size: nat, rows: nat)
    requires
        rows >= 1,
        rows * row_size <= s.len(),
    ensures
        rows_rotated_times(s, row_size, rows, rows) == s,
{
    lemma_rotated_times_closed_form(s, row_size, rows, rows);
    assert(s.subrange(0, (rows * row_size) as int) + s.subrange((rows * row_size) as int, s.len() as int) =~= s);
}

/// The fresh row lies three quarters into the grid, rounded down.
pub proof fn lemma_fresh_row_three_quarters(rows: nat)
    ensures
        4 * fresh_row(rows) <= 3 * rows < 4 * fresh_row(rows) + 4,
{
}

} // verus!
