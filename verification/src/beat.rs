use std::collections::VecDeque;
use vstd::prelude::*;

verus! {

/// Some watched column has switched from "no beat" to "beat": a position
/// that both sequences have where `current` holds and `previous` does not.
pub open spec fn has_rising_edge(current: Seq<bool>, previous: Seq<bool>) -> bool {
    exists|i: int| 0 <= i < current.len() && i < previous.len() && #[trigger] current[i] && !previous[i]
}

/// Looks for a beat onset: a column that beats now and did not beat in the
/// previous frame. Columns are paired up to the shorter of the two lists.
pub fn rising_edge(current: &Vec<bool>, previous: &Vec<bool>) -> (r: bool)
    ensures
        r == has_rising_edge(current@, previous@),
{
    let mut i: usize = 0;
    while i < current.len() && i < previous.len()
        invariant
            i <= current@.len(),
            forall|j: int| 0 <= j < i && j < previous@.len() ==> !(#[trigger] current@[j] && !previous@[j]),
        decreases current@.len() - i,
    {
        if current[i] && !previous[i] {
            return true;
        }
        i = i + 1;
    }
    proof {
        lemma_no_rising_edge_found(current@, previous@, i as int);
    }
    false
}

proof fn lemma_no_rising_edge_found(current: Seq<bool>, previous: Seq<bool>, i: int)
    requires
        0 <= i,
        i >= current.len() || i >= previous.len(),
        forall|j: int| 0 <= j < i && j < previous.len() ==> !(#[trigger] current[j] && !previous[j]),
    ensures
        !has_rising_edge(current, previous),
{
}

/// A steady beat pattern never counts as an onset: comparing a frame with
/// itself finds no rising edge.
pub proof fn lemma_steady_pattern_has_no_onset(pattern: Seq<bool>)
    ensures
        !has_rising_edge(pattern, pattern),
{
}

/// An onset is found exactly when some column rises; in particular a column
/// that beats after a frame without any beat is always an onset.
pub proof fn lemma_onset_after_silence(current: Seq<bool>, previous: Seq<bool>, i: int)
    requires
        0 <= i < current.len(),
        i < previous.len(),
        current[i],
        forall|j: int| 0 <= j < previous.len() ==> !#[trigger] previous[j],
    ensures
        has_rising_edge(current, previous),
{
    assert(current[i] && !previous[i]);
}

/// Any column that rises is an onset, whatever the other columns do: a
/// column that stops beating elsewhere never hides it.
pub proof fn lemma_rising_column_is_onset(current: Seq<bool>, previous: Seq<bool>, i: int)
    requires
        0 <= i < current.len(),
        i < previous.len(),
        current[i],
        !previous[i],
    ensures
        has_rising_edge(current, previous),
{
}

/// Without a rising column there is no onset: columns that keep their state
/// or stop beating, and columns that only one of the two frames has, never
/// count.
pub proof fn lemma_onset_needs_rising_column(current: Seq<bool>, previous: Seq<bool>)
    requires
        forall|i: int| 0 <= i < current.len() && i < previous.len() ==> !(#[trigger] current[i] && !previous[i]),
    ensures
        !has_rising_edge(current, previous),
{
}

/// The most recent peak columns after one column has been looked at: each
/// channel that set a new maximum at `column` pushes it to the front, then
/// at most one entry is dropped from the back if the list is longer than
/// `limit`.
pub open spec fn peaks_after(history: Seq<usize>, column: usize, right_peak: bool, left_peak: bool, limit: usize) -> Seq<usize> {
    let h1 = if right_peak { seq![column] + history } else { history };
    let h2 = if left_peak { seq![column] + h1 } else { h1 };
    if h2.len() > limit { h2.drop_last() } else { h2 }
}

/// Records the peaks of one column in the list of recent peak columns (most
/// recent first). `right_peak` and `left_peak` tell whether the right and
/// then the left channel set a new running maximum at `column`.
pub fn note_column_peaks(history: &mut VecDeque<usize>, column: usize, right_peak: bool, left_peak: bool, limit: usize)
    ensures
        final(history)@ == peaks_after(old(history)@, column, right_peak, left_peak, limit),
{
    if right_peak {
        history.push_front(column);
    }
    if left_peak {
        history.push_front(column);
    }
    if history.len() > limit {
        let _ = history.pop_back();
    }
}

/// The list of recent peaks grows by at most one beyond its limit: when it
/// starts within `limit`, it ends within `limit + 1`, and within `limit`
/// again when at most one channel peaked; its front is the newest peak.
pub proof fn lemma_peaks_stay_bounded(history: Seq<usize>, column: usize, right_peak: bool, left_peak: bool, limit: usize)
    requires
        history.len() <= limit,
    ensures
        peaks_after(history, column, right_peak, left_peak, limit).len() <= limit + 1,
        !(right_peak && left_peak) ==> peaks_after(history, column, right_peak, left_peak, limit).len() <= limit,
        (right_peak || left_peak) && limit > 0 ==> peaks_after(history, column, right_peak, left_peak, limit)[0] == column,
{
}

/// Noting a column puts one copy of it in front for each channel that
/// peaked, keeps the earlier peaks behind them in their order, and drops
/// only the oldest entry, and only when the list grew past `limit`.
pub proof fn lemma_peaks_keep_order(history: Seq<usize>, column: usize, right_peak: bool, left_peak: bool, limit: usize)
    ensures
        ({
            let n: int = (if right_peak { 1int } else { 0int }) + (if left_peak { 1int } else { 0int });
            let after = peaks_after(history, column, right_peak, left_peak, limit);
            &&& after.len() == (if history.len() + n > limit { history.len() + n - 1 } else { history.len() + n })
            &&& forall|i: int| 0 <= i < n && i < after.len() ==> after[i] == column
            &&& forall|i: int| 0 <= i < history.len() && n + i < after.len() ==> after[n + i] == history[i]
        }),
{
    let h1 = if right_peak { seq![column] + history } else { history };
    let h2 = if left_peak { seq![column] + h1 } else { h1 };
    assert(h2.len() == history.len() + (if right_peak { 1int } else { 0int }) + (if left_peak { 1int } else { 0int }));
}

} // verus!
