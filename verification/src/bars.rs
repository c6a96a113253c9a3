use vstd::prelude::*;

verus! {

/// `n` copies of `c`, or nothing when `n` is not positive.
pub open spec fn repeated(c: char, n: int) -> Seq<char> {
    Seq::new(if n > 0 { n as nat } else { 0 }, |i: int| c)
}

/// One line of the terminal visualizer: the left bar grows leftwards from
/// the middle, the right bar rightwards, each in a field of 31 cells.
pub open spec fn ascii_line(left: int, right: int) -> Seq<char> {
    repeated(' ', 31 - left) + repeated('#', left) + repeated('#', right) + repeated(' ', 31 - right)
}

fn push_repeated(line: &mut String, piece: &str, n: i8)
    requires
        piece@.len() == 1,
    ensures
        final(line)@ == old(line)@ + repeated(piece@[0], n as int),
{
    let mut k: i8 = 0;
    while k < n
        invariant
            0 <= k,
            k <= n || k == 0,
            piece@.len() == 1,
            line@ == old(line)@ + repeated(piece@[0], k as int),
        decreases n - k,
    {
        line.append(piece);
        k = k + 1;
        assert(repeated(piece@[0], (k - 1) as int) + piece@ =~= repeated(piece@[0], k as int));
    }
    assert(repeated(piece@[0], k as int) =~= repeated(piece@[0], n as int));
}

/// Draws one line of the terminal visualizer for bar lengths `left` and
/// `right`, both counted in cells.
pub fn ascii_row(left: i8, right: i8) -> (line: String)
    requires
        left >= -96,
        right >= -96,
    ensures
        line@ == ascii_line(left as int, right as int),
{
    proof {
        reveal_strlit(" ");
        reveal_strlit("#");
    }
    let mut line = String::new();
    push_repeated(&mut line, " ", 31 - left);
    push_repeated(&mut line, "#", left);
    push_repeated(&mut line, "#", right);
    push_repeated(&mut line, " ", 31 - right);
    assert(line@ =~= ascii_line(left as int, right as int));
    line
}

/// Bars that fit their field make every line exactly 62 cells wide, with as
/// many `#` as the two bars are long.
pub proof fn lemma_ascii_line_width(left: int, right: int)
    requires
        0 <= left <= 31,
        0 <= right <= 31,
    ensures
        ascii_line(left, right).len() == 62,
        ascii_line(left, right).subrange(31 - left, 31 + right) =~= repeated('#', left + right),
{
    let line = ascii_line(left, right);
    assert(line.len() == 62);
    assert forall|i: int| 0 <= i < left + right implies #[trigger] line.subrange(31 - left, 31 + right)[i] == '#' by {
        assert(line.subrange(31 - left, 31 + right)[i] == line[31 - left + i]);
    }
}

/// Bars that fit their field meet in the middle: blanks up to the left
/// bar, `#` from the left bar's start to the right bar's end, blanks after.
pub proof fn lemma_ascii_line_layout(left: int, right: int, i: int)
    requires
        0 <= left <= 31,
        0 <= right <= 31,
        0 <= i < 62,
    ensures
        ascii_line(left, right)[i] == (if 31 - left <= i < 31 + right { '#' } else { ' ' }),
{
    let a = repeated(' ', 31 - left);
    let b = repeated('#', left);
    let c = repeated('#', right);
    let d = repeated(' ', 31 - right);
    assert(ascii_line(left, right) == a + b + c + d);
    if i < 31 - left {
        assert((a + b + c + d)[i] == a[i]);
    } else if i < 31 {
        assert((a + b + c + d)[i] == b[i - (31 - left)]);
    } else if i < 31 + right {
        assert((a + b + c + d)[i] == c[i - 31]);
    } else {
        assert((a + b + c + d)[i] == d[i - 31 - right]);
    }
}

/// The two grey tones the bar visualizer alternates between.
#[derive(PartialEq, Eq, Structural, Debug, Clone, Copy)]
pub enum Shade {
    /// `#9C9C9C`
    Dark,
    /// `#CCCCCC`
    Light,
}

/// The shade of bar `column`: dark on every other column, starting with the
/// first column, or with the second when `offset` is set.
pub fn bar_shade(column: usize, offset: bool) -> (s: Shade)
    ensures
        s == (if column % 2 == (if offset { 1usize } else { 0usize }) { Shade::Dark } else { Shade::Light }),
{
    let parity: usize = if offset { 1 } else { 0 };
    if column % 2 == parity {
        Shade::Dark
    } else {
        Shade::Light
    }
}

/// Neighbouring bars always differ in shade.
pub proof fn lemma_neighbouring_bars_differ(column: nat, offset: bool)
    ensures
        (column % 2 == (if offset { 1nat } else { 0nat })) != ((column + 1) % 2 == (if offset { 1nat } else { 0nat })),
{
}

/// A point of the circular wire visualizer: which channel and column it
/// shows, and its step around the circle (the angle is
/// `step / circle_steps * 2 pi`, turned by a quarter the one or the other
/// way for the two channels).
#[derive(PartialEq, Eq, Structural, Debug, Clone, Copy)]
pub struct CirclePoint {
    pub left: bool,
    pub column: usize,
    pub step: usize,
}

/// The order in which the circle is drawn: the right channel from the
/// lowest column up, then the left channel from the highest column down.
pub open spec fn circle_point(display_columns: nat, k: int) -> CirclePoint {
    if k < display_columns {
        CirclePoint { left: false, column: k as usize, step: k as usize }
    } else {
        CirclePoint {
            left: true,
            column: (display_columns - (k - display_columns) - 1) as usize,
            step: (k - display_columns) as usize,
        }
    }
}

/// The points of the circular wire visualizer, in drawing order.
pub fn circle_points(display_columns: usize) -> (r: Vec<CirclePoint>)
    requires
        display_columns * 2 <= usize::MAX,
    ensures
        r@.len() == 2 * display_columns,
        forall|k: int| 0 <= k < r@.len() ==> #[trigger] r@[k] == circle_point(display_columns as nat, k),
{
    let mut r: Vec<CirclePoint> = Vec::new();
    let mut si: usize = 0;
    while si < display_columns
        invariant
            si <= display_columns,
            r@.len() == si,
            forall|k: int| 0 <= k < r@.len() ==> #[trigger] r@[k] == circle_point(display_columns as nat, k),
        decreases display_columns - si,
    {
        r.push(CirclePoint { left: false, column: si, step: si });
        si = si + 1;
    }
    let mut si: usize = 0;
    while si < display_columns
        invariant
            si <= display_columns,
            display_columns * 2 <= usize::MAX,
            r@.len() == display_columns + si,
            forall|k: int| 0 <= k < r@.len() ==> #[trigger] r@[k] == circle_point(display_columns as nat, k),
        decreases display_columns - si,
    {
        r.push(CirclePoint { left: true, column: display_columns - si - 1, step: si });
        si = si + 1;
    }
    r
}

/// The number of steps the circle is divided into; the last column of each
/// channel meets the first column of the other at the bottom and top.
pub fn circle_steps(display_columns: usize) -> (n: usize)
    requires
        1 <= display_columns,
        display_columns * 2 <= usize::MAX,
    ensures
        n == 2 * display_columns - 2,
{
    display_columns * 2 - 2
}

/// Every column of both channels is drawn exactly once around the circle:
/// there is a position that shows it, and no other position shows the same
/// channel and column.
pub proof fn lemma_circle_covers_columns(display_columns: nat, column: nat, left: bool, other: int)
    requires
        column < display_columns,
        display_columns * 2 <= usize::MAX,
        0 <= other < 2 * display_columns,
    ensures
        ({
            let k = if left { 2 * display_columns - 1 - column } else { column as int };
            &&& 0 <= k < 2 * display_columns
            &&& circle_point(display_columns, k).left == left
            &&& circle_point(display_columns, k).column == column
            &&& (circle_point(display_columns, other).left == left && circle_point(display_columns, other).column == column) ==> other == k
        }),
{
}

} // verus!
