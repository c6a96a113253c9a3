use rand::Rng;
use vstd::prelude::*;

verus! {

/// Calls `rand::thread_rng().gen_range(low, high)`, which the crate documents
/// to return a value in `[low, high)` and to panic when `low >= high`.
/// Which value comes back is chance.
#[verifier::external_body]
fn random_in(low: usize, high: usize) -> (r: usize)
    requires
        low < high,
    ensures
        low <= r < high,
{
    rand::thread_rng().gen_range(low, high)
}

/// The ring buffers that hold the lightning strikes: `strikes` strikes of up
/// to `points_max` points and `lines_max` lines each. New strikes overwrite
/// the oldest ones.
#[derive(Debug)]
pub struct Lightning {
    pub strikes: usize,
    pub points_max: usize,
    pub lines_max: usize,
    /// Vertex slots in the ring: `strikes * points_max`.
    pub max_points: usize,
    /// Index slots that strikes cycle through: `strikes * lines_max`.
    pub max_lines: usize,
    /// Where the next strike's first point goes.
    pub next_vertex: usize,
    /// Where the next strike's first line goes.
    pub next_index: usize,
}

/// One strike: the vertex slots that receive its points, in order, the
/// number of lines that connect them and the points each line joins.
#[derive(Debug)]
pub struct Strike {
    pub slots: Vec<usize>,
    pub lines: usize,
    /// The two points (positions in `slots`) each line joins.
    pub ends: Vec<(usize, usize)>,
}

impl Lightning {
    pub open spec fn inv(&self) -> bool {
        &&& self.max_points == self.strikes * self.points_max
        &&& self.max_lines == self.strikes * self.lines_max
        &&& self.max_points + self.points_max <= usize::MAX
        &&& self.max_lines + 2 * self.lines_max <= usize::MAX
        &&& (self.max_points > 0 ==> self.next_vertex < self.max_points)
        &&& (self.max_lines > 0 ==> self.next_index < self.max_lines)
    }

    /// Empty ring buffers for `strikes` strikes.
    pub fn new(strikes: usize, points_max: usize, lines_max: usize) -> (r: Lightning)
        requires
            strikes * points_max + points_max <= usize::MAX,
            strikes * lines_max + 2 * lines_max <= usize::MAX,
        ensures
            r.inv(),
            r.strikes == strikes,
            r.points_max == points_max,
            r.lines_max == lines_max,
            r.next_vertex == 0,
            r.next_index == 0,
    {
        Lightning {
            strikes,
            points_max,
            lines_max,
            max_points: strikes * points_max,
            max_lines: strikes * lines_max,
            next_vertex: 0,
            next_index: 0,
        }
    }
}

/// Index slot `p` is among the first `count` slots written from `start` on,
/// in a ring of `size` slots.
pub open spec fn written(start: nat, count: nat, size: nat, p: int) -> bool {
    exists|j: int| 0 <= j < count && p == #[trigger] ring_slot(start, j, size)
}

/// Index entry `v` refers to one of the vertex slots `slots` (as the 16-bit
/// index that the GPU reads).
pub open spec fn points_into(v: u16, slots: Seq<usize>) -> bool {
    exists|t: int| 0 <= t < slots.len() && v == #[trigger] (#[verifier::truncate] (slots[t] as u16))
}

/// The slot `j` steps after `start` in a ring of `size` slots.
pub open spec fn ring_slot(start: nat, j: int, size: nat) -> int {
    (start + j) % (size as int)
}

/// The vertex slots of a strike of `count` points whose first point goes to
/// slot `start` of a ring of `size` slots.
pub open spec fn strike_slots(start: nat, count: nat, size: nat) -> Seq<usize> {
    Seq::new(count, |i: int| ((start + i) % (size as int)) as usize)
}

/// The index buffer after the first `n` lines of a strike have been written,
/// in order: line `l` joins points `ends[l].0` and `ends[l].1` and goes to the
/// entries `2 l` and `2 l + 1` after `base`, in a ring of `size` entries. A
/// later line overwrites an earlier one where the ring wraps onto it.
pub open spec fn lines_written(
    indices: Seq<u16>,
    base: nat,
    size: nat,
    slots: Seq<usize>,
    ends: Seq<(usize, usize)>,
    n: nat,
) -> Seq<u16>
    decreases n,
{
    if n == 0 {
        indices
    } else {
        let l = n - 1;
        lines_written(indices, base, size, slots, ends, l as nat)
            .update(ring_slot(base, 2 * l, size), #[verifier::truncate] (slots[ends[l].0 as int] as u16))
            .update(ring_slot(base, 2 * l + 1, size), #[verifier::truncate] (slots[ends[l].1 as int] as u16))
    }
}

proof fn lemma_ring_slot_in_range(base: nat, j: int, size: nat)
    requires
        size > 0,
        j >= 0,
    ensures
        0 <= ring_slot(base, j, size) < size,
{
}

proof fn lemma_ring_slot_unwrapped(base: nat, a: int, size: nat)
    requires
        base < size,
        0 <= a < size,
    ensures
        ring_slot(base, a, size) == if base + a < size { base + a } else { base + a - size },
{
    if base + a < size {
        vstd::arithmetic::div_mod::lemma_small_mod((base + a) as nat, size);
    } else {
        vstd::arithmetic::div_mod::lemma_mod_sub_multiples_vanish(base + a, size as int);
        vstd::arithmetic::div_mod::lemma_small_mod((base + a - size) as nat, size);
    }
}

/// Writing lines keeps the buffer's length and only touches the entries the
/// lines go to; each of those then refers to a point of the strike.
pub proof fn lemma_lines_join_strike_points(
    indices: Seq<u16>,
    base: nat,
    size: nat,
    slots: Seq<usize>,
    ends: Seq<(usize, usize)>,
    n: nat,
)
    requires
        0 < size <= indices.len(),
        ends.len() >= n,
        forall|l: int| 0 <= l < n ==> (#[trigger] ends[l]).0 < slots.len() && ends[l].1 < slots.len(),
    ensures
        lines_written(indices, base, size, slots, ends, n).len() == indices.len(),
        forall|p: int| 0 <= p < indices.len() && !written(base, 2 * n, size, p)
            ==> #[trigger] lines_written(indices, base, size, slots, ends, n)[p] == indices[p],
        forall|p: int| 0 <= p < indices.len() && written(base, 2 * n, size, p)
            ==> points_into(lines_written(indices, base, size, slots, ends, n)[p], slots),
    decreases n,
{
    if n > 0 {
        let l = n - 1;
        lemma_lines_join_strike_points(indices, base, size, slots, ends, l as nat);
        let prev = lines_written(indices, base, size, slots, ends, l as nat);
        let cur = lines_written(indices, base, size, slots, ends, n);
        let p1 = ring_slot(base, 2 * l, size);
        let p2 = ring_slot(base, 2 * l + 1, size);
        lemma_ring_slot_in_range(base, 2 * l, size);
        lemma_ring_slot_in_range(base, 2 * l + 1, size);
        assert(ends[l].0 < slots.len() && ends[l].1 < slots.len());
        assert forall|p: int| 0 <= p < indices.len() && !written(base, 2 * n, size, p)
            implies #[trigger] cur[p] == indices[p] by {
            if written(base, (2 * l) as nat, size, p) {
                let j = choose|j: int| 0 <= j < 2 * l && p == #[trigger] ring_slot(base, j, size);
                assert(0 <= j < 2 * n && p == ring_slot(base, j, size));
            }
            assert(p != p1) by {
                assert(0 <= 2 * l < 2 * n && p1 == ring_slot(base, 2 * l, size));
            }
            assert(p != p2) by {
                assert(0 <= 2 * l + 1 < 2 * n && p2 == ring_slot(base, 2 * l + 1, size));
            }
        }
        assert forall|p: int| 0 <= p < indices.len() && written(base, 2 * n, size, p)
            implies points_into(cur[p], slots) by {
            if p == p2 {
                assert(cur[p] == #[verifier::truncate] (slots[ends[l].1 as int] as u16));
            } else if p == p1 {
                assert(cur[p] == #[verifier::truncate] (slots[ends[l].0 as int] as u16));
            } else {
                let j = choose|j: int| 0 <= j < 2 * n && p == #[trigger] ring_slot(base, j, size);
                if j >= 2 * l {
                    assert(j == 2 * l || j == 2 * l + 1);
                    assert(false);
                }
                assert(written(base, (2 * l) as nat, size, p));
                assert(cur[p] == prev[p]);
            }
        }
    }
}

/// While a strike's lines do not wrap round the index ring, every line keeps
/// both of its entries: line `l` joins exactly the points `ends[l].0` and
/// `ends[l].1`.
pub proof fn lemma_lines_kept_without_wrap(
    indices: Seq<u16>,
    base: nat,
    size: nat,
    slots: Seq<usize>,
    ends: Seq<(usize, usize)>,
    n: nat,
    l: int,
)
    requires
        0 < size <= indices.len(),
        base < size,
        2 * n <= size,
        0 <= l < n,
    ensures
        lines_written(indices, base, size, slots, ends, n)[ring_slot(base, 2 * l, size)]
            == #[verifier::truncate] (slots[ends[l].0 as int] as u16),
        lines_written(indices, base, size, slots, ends, n)[ring_slot(base, 2 * l + 1, size)]
            == #[verifier::truncate] (slots[ends[l].1 as int] as u16),
    decreases n,
{
    let m = n - 1;
    lemma_ring_slot_in_range(base, 2 * m, size);
    lemma_ring_slot_in_range(base, 2 * m + 1, size);
    lemma_ring_slot_in_range(base, 2 * l, size);
    lemma_ring_slot_in_range(base, 2 * l + 1, size);
    lemma_lines_written_len(indices, base, size, slots, ends, m as nat);
    if l < m {
        lemma_lines_kept_without_wrap(indices, base, size, slots, ends, m as nat, l);
        lemma_ring_slot_unwrapped(base, 2 * m, size);
        lemma_ring_slot_unwrapped(base, 2 * m + 1, size);
        lemma_ring_slot_unwrapped(base, 2 * l, size);
        lemma_ring_slot_unwrapped(base, 2 * l + 1, size);
    } else {
        lemma_ring_slot_unwrapped(base, 2 * m, size);
        lemma_ring_slot_unwrapped(base, 2 * m + 1, size);
    }
}

proof fn lemma_lines_written_len(
    indices: Seq<u16>,
    base: nat,
    size: nat,
    slots: Seq<usize>,
    ends: Seq<(usize, usize)>,
    n: nat,
)
    requires
        0 < size <= indices.len(),
    ensures
        lines_written(indices, base, size, slots, ends, n).len() == indices.len(),
    decreases n,
{
    if n > 0 {
        lemma_lines_written_len(indices, base, size, slots, ends, (n - 1) as nat);
        lemma_ring_slot_in_range(base, 2 * (n - 1), size);
        lemma_ring_slot_in_range(base, 2 * (n - 1) + 1, size);
    }
}

impl Lightning {
    /// Writes a strike whose random choices are given: `num_points` points
    /// go to the next vertex slots of the ring, and line `l` of the
    /// `num_lines` lines joins points `ends[l].0` and `ends[l].1` of this
    /// strike, written as two index entries after the ring's index position.
    /// Both ring positions move on past the strike.
    pub fn place_strike(&mut self, indices: &mut Vec<u16>, num_points: usize, num_lines: usize, ends: &Vec<(usize, usize)>) -> (slots: Vec<usize>)
        requires
            old(self).inv(),
            old(self).strikes > 0,
            4 <= num_points < old(self).points_max,
            3 <= num_lines < old(self).lines_max,
            ends@.len() == num_lines,
            forall|l: int| 0 <= l < num_lines ==> (#[trigger] ends@[l]).0 < num_points && ends@[l].1 < num_points,
            old(indices)@.len() >= old(self).max_lines,
        ensures
            final(self).inv(),
            final(self).strikes == old(self).strikes,
            final(self).points_max == old(self).points_max,
            final(self).lines_max == old(self).lines_max,
            final(self).max_points == old(self).max_points,
            final(self).max_lines == old(self).max_lines,
            final(self).next_vertex == (old(self).next_vertex + num_points) % (old(self).max_points as int),
            final(self).next_index == (old(self).next_index + 2 * num_lines) % (old(self).max_lines as int),
            slots@ == strike_slots(old(self).next_vertex as nat, num_points as nat, old(self).max_points as nat),
            final(indices)@ == lines_written(
                old(indices)@,
                old(self).next_index as nat,
                old(self).max_lines as nat,
                slots@,
                ends@,
                num_lines as nat,
            ),
    {
        proof {
            assert(self.max_points >= self.points_max) by (nonlinear_arith)
                requires self.max_points == self.strikes * self.points_max, self.strikes > 0;
            assert(self.max_lines >= self.lines_max) by (nonlinear_arith)
                requires self.max_lines == self.strikes * self.lines_max, self.strikes > 0;
        }
        let start = self.next_vertex;
        let max_points = self.max_points;
        let mut slots: Vec<usize> = Vec::new();
        let mut i: usize = 0;
        while i < num_points
            invariant
                i <= num_points,
                num_points < self.points_max,
                start < max_points,
                max_points + self.points_max <= usize::MAX,
                slots@.len() == i,
                forall|k: int| 0 <= k < i ==> #[trigger] slots@[k] == strike_slots(start as nat, num_points as nat, max_points as nat)[k],
            decreases num_points - i,
        {
            slots.push((start + i) % max_points);
            i = i + 1;
        }
        assert(slots@ =~= strike_slots(start as nat, num_points as nat, max_points as nat));
        let base = self.next_index;
        let max_lines = self.max_lines;
        let ghost before = indices@;
        let mut l: usize = 0;
        while l < num_lines
            invariant
                l <= num_lines,
                num_lines < self.lines_max,
                base < max_lines,
                max_lines + 2 * self.lines_max <= usize::MAX,
                max_lines <= before.len(),
                slots@.len() == num_points,
                ends@.len() == num_lines,
                forall|k: int| 0 <= k < num_lines ==> (#[trigger] ends@[k]).0 < num_points && ends@[k].1 < num_points,
                indices@ == lines_written(before, base as nat, max_lines as nat, slots@, ends@, l as nat),
            decreases num_lines - l,
        {
            proof {
                lemma_lines_written_len(before, base as nat, max_lines as nat, slots@, ends@, l as nat);
                lemma_ring_slot_in_range(base as nat, 2 * l, max_lines as nat);
                lemma_ring_slot_in_range(base as nat, 2 * l + 1, max_lines as nat);
            }
            let (e1, e2) = ends[l];
            let p1 = (base + l * 2) % max_lines;
            let p2 = (base + l * 2 + 1) % max_lines;
            let v1 = #[verifier::truncate] (slots[e1] as u16);
            let v2 = #[verifier::truncate] (slots[e2] as u16);
            indices.set(p1, v1);
            indices.set(p2, v2);
            l = l + 1;
        }
        self.next_vertex = (start + num_points) % max_points;
        self.next_index = (base + num_lines * 2) % max_lines;
        slots
    }

    /// Places a new strike: picks between 4 and `points_max - 1` points and
    /// between 3 and `lines_max - 1` lines at random, and for every line two
    /// random points of this strike, then writes the strike with
    /// `place_strike`. The caller puts the points into the returned vertex
    /// slots.
    pub fn strike(&mut self, indices: &mut Vec<u16>) -> (s: Strike)
        requires
            old(self).inv(),
            old(self).strikes > 0,
            old(self).points_max > 4,
            old(self).lines_max > 3,
            old(indices)@.len() >= old(self).max_lines,
        ensures
            final(self).inv(),
            final(self).strikes == old(self).strikes,
            final(self).points_max == old(self).points_max,
            final(self).lines_max == old(self).lines_max,
            final(self).max_points == old(self).max_points,
            final(self).max_lines == old(self).max_lines,
            4 <= s.slots@.len() < old(self).points_max,
            3 <= s.lines < old(self).lines_max,
            s.ends@.len() == s.lines,
            forall|l: int| 0 <= l < s.lines ==> (#[trigger] s.ends@[l]).0 < s.slots@.len() && s.ends@[l].1 < s.slots@.len(),
            s.slots@ == strike_slots(old(self).next_vertex as nat, s.slots@.len(), old(self).max_points as nat),
            final(self).next_vertex == (old(self).next_vertex + s.slots@.len()) % (old(self).max_points as int),
            final(self).next_index == (old(self).next_index + 2 * s.lines) % (old(self).max_lines as int),
            final(indices)@ == lines_written(
                old(indices)@,
                old(self).next_index as nat,
                old(self).max_lines as nat,
                s.slots@,
                s.ends@,
                s.lines as nat,
            ),
    {
        let num_points = random_in(4, self.points_max);
        let num_lines = random_in(3, self.lines_max);
        let mut ends: Vec<(usize, usize)> = Vec::new();
        let mut l: usize = 0;
        while l < num_lines
            invariant
                l <= num_lines,
                4 <= num_points,
                ends@.len() == l,
                forall|k: int| 0 <= k < l ==> (#[trigger] ends@[k]).0 < num_points && ends@[k].1 < num_points,
            decreases num_lines - l,
        {
            let i1 = random_in(0, num_points);
            let i2 = random_in(0, num_points);
            ends.push((i1, i2));
            l = l + 1;
        }
        let slots = self.place_strike(indices, num_points, num_lines, &ends);
        Strike { slots, lines: num_lines, ends }
    }
}

} // verus!
