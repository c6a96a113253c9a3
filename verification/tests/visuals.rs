use pa_visualizer::bars::{ascii_row, bar_shade, circle_points, circle_steps, CirclePoint, Shade};
use pa_visualizer::beat::{note_column_peaks, rising_edge};
use pa_visualizer::dump::{dump_header, dump_separator};
use pa_visualizer::grid::{fresh_row_offsets, grid_indices, rotate_rows};
use pa_visualizer::lightning::Lightning;
use pa_visualizer::pacing::{Pace, Tick};
use pa_visualizer::scene::{draw_order, ship_step, BillboardMode, DrawList, ShipPhase};
use std::collections::VecDeque;

#[test]
fn ascii_row_layout() {
    let row = ascii_row(3, 2);
    assert_eq!(row, format!("{}{}{}", " ".repeat(28), "#####", " ".repeat(29)));
    assert_eq!(row.len(), 62);
}

#[test]
fn ascii_row_edges() {
    assert_eq!(ascii_row(0, 0), " ".repeat(62));
    assert_eq!(ascii_row(31, 31), "#".repeat(62));
    // bars longer than the field push the line wider
    assert_eq!(ascii_row(40, 0).len(), 40 + 31);
    // negative lengths draw no bar
    assert_eq!(ascii_row(-2, 0), format!("{}{}", " ".repeat(33), " ".repeat(31)));
}

#[test]
fn bar_shades_alternate() {
    assert_eq!(bar_shade(0, false), Shade::Dark);
    assert_eq!(bar_shade(1, false), Shade::Light);
    assert_eq!(bar_shade(0, true), Shade::Light);
    assert_eq!(bar_shade(7, true), Shade::Dark);
}

#[test]
fn circle_order() {
    let p = circle_points(3);
    assert_eq!(p.len(), 6);
    assert_eq!(p[0], CirclePoint { left: false, column: 0, step: 0 });
    assert_eq!(p[2], CirclePoint { left: false, column: 2, step: 2 });
    assert_eq!(p[3], CirclePoint { left: true, column: 2, step: 0 });
    assert_eq!(p[5], CirclePoint { left: true, column: 0, step: 2 });
    assert_eq!(circle_steps(50), 98);
}

#[test]
fn rising_edges() {
    assert!(rising_edge(&vec![true, false], &vec![false, false]));
    assert!(!rising_edge(&vec![true, false], &vec![true, false]));
    assert!(!rising_edge(&vec![false, true], &vec![false, true]));
    assert!(!rising_edge(&vec![true], &vec![]));
    assert!(rising_edge(&vec![false, true, true], &vec![true, false]));
}

#[test]
fn peak_history_bounded() {
    let mut h: VecDeque<usize> = VecDeque::new();
    note_column_peaks(&mut h, 1, true, false, 1);
    assert_eq!(h, VecDeque::from(vec![1]));
    note_column_peaks(&mut h, 2, true, false, 1);
    assert_eq!(h, VecDeque::from(vec![2]));
    // both channels peak at the same column: one entry over the limit stays
    note_column_peaks(&mut h, 3, true, true, 1);
    assert_eq!(h, VecDeque::from(vec![3, 3]));
    note_column_peaks(&mut h, 4, false, false, 1);
    assert_eq!(h, VecDeque::from(vec![3]));
}

#[test]
fn grid_index_buffer() {
    let i = grid_indices(2, 3);
    assert_eq!(i.len(), 24);
    assert!(i.iter().enumerate().all(|(k, v)| *v as usize == k));
}

#[test]
fn fresh_row_position() {
    // 100 rows, 49 columns per side: row 75, 196 vertices per row
    assert_eq!(fresh_row_offsets(100, 49), (14700, 14798));
}

#[test]
fn rotate_rows_moves_first_row_last() {
    let mut b = vec![1, 2, 3, 4, 5, 6, 7];
    rotate_rows(&mut b, 2, 3);
    assert_eq!(b, vec![3, 4, 5, 6, 1, 2, 7]);
    rotate_rows(&mut b, 2, 3);
    rotate_rows(&mut b, 2, 3);
    assert_eq!(b, vec![1, 2, 3, 4, 5, 6, 7]);
}

#[test]
fn lightning_strike_bookkeeping() {
    let mut l = Lightning::new(10, 6, 8);
    let mut idx = vec![0u16; 160];
    for _ in 0..50 {
        let before = (l.next_vertex, l.next_index);
        let s = l.strike(&mut idx);
        assert!(s.slots.len() >= 4 && s.slots.len() < 6);
        assert!(s.lines >= 3 && s.lines < 8);
        for (i, slot) in s.slots.iter().enumerate() {
            assert_eq!(*slot, (before.0 + i) % 60);
        }
        assert_eq!(l.next_vertex, (before.0 + s.slots.len()) % 60);
        assert_eq!(l.next_index, (before.1 + 2 * s.lines) % 80);
        assert_eq!(s.ends.len(), s.lines);
        for j in 0..s.lines {
            let (a, b) = s.ends[j];
            assert!(a < s.slots.len() && b < s.slots.len());
            assert_eq!(idx[(before.1 + 2 * j) % 80] as usize, s.slots[a]);
            assert_eq!(idx[(before.1 + 2 * j + 1) % 80] as usize, s.slots[b]);
        }
    }
    assert!(idx[80..].iter().all(|v| *v == 0));
}

#[test]
fn lightning_place_strike_given_choices() {
    let mut l = Lightning::new(10, 6, 8);
    let mut idx = vec![9u16; 80];
    let slots = l.place_strike(&mut idx, 4, 3, &vec![(0, 1), (2, 3), (1, 0)]);
    assert_eq!(slots, vec![0, 1, 2, 3]);
    assert_eq!(&idx[0..7], &[0u16, 1, 2, 3, 1, 0, 9][..]);
    assert_eq!(l.next_vertex, 4);
    assert_eq!(l.next_index, 6);
}

#[test]
fn lightning_place_strike_wraps_both_rings() {
    let mut l = Lightning::new(1, 6, 8);
    let mut idx = vec![7u16; 8];
    l.place_strike(&mut idx, 5, 3, &vec![(0, 4), (1, 3), (2, 2)]);
    assert_eq!(idx, vec![0u16, 4, 1, 3, 2, 2, 7, 7]);
    assert_eq!((l.next_vertex, l.next_index), (5, 6));
    let slots = l.place_strike(&mut idx, 4, 3, &vec![(0, 3), (1, 2), (3, 0)]);
    assert_eq!(slots, vec![5, 0, 1, 2]);
    assert_eq!(idx, vec![0u16, 1, 2, 5, 2, 2, 5, 2]);
    assert_eq!((l.next_vertex, l.next_index), (3, 4));
}

#[test]
fn pacing_steps() {
    let mut p = Pace::Live;
    assert!(!p.needs_playback());
    assert_eq!(p.tick(false), Tick::Yield);
    assert_eq!(p, Pace::Live);
    let mut p = Pace::Rendering { frame: 0 };
    assert!(p.needs_playback());
    assert_eq!(p.tick(true), Tick::Advance);
    assert_eq!(p.tick(true), Tick::Advance);
    assert_eq!(p, Pace::Rendering { frame: 2 });
    assert_eq!(p.tick(false), Tick::Finish);
    assert_eq!(p, Pace::Rendering { frame: 2 });
}

#[test]
fn billboard_layers() {
    assert_eq!(BillboardMode::Background.draw_list(), DrawList::Background);
    assert_eq!(BillboardMode::Middleground.draw_list(), DrawList::Main);
    assert_eq!(BillboardMode::Foreground.draw_list(), DrawList::Foreground);
    assert_eq!(draw_order(), vec![DrawList::Background, DrawList::Main, DrawList::Foreground]);
}

#[test]
fn ship_phases() {
    assert_eq!(ship_step(ShipPhase::Inbound, false, true), ShipPhase::Inbound);
    assert_eq!(ship_step(ShipPhase::Inbound, true, false), ShipPhase::Outbound);
    assert_eq!(ship_step(ShipPhase::Outbound, true, false), ShipPhase::Outbound);
    assert_eq!(ship_step(ShipPhase::Outbound, false, true), ShipPhase::Removed);
    assert_eq!(ship_step(ShipPhase::Removed, false, false), ShipPhase::Removed);
}

#[test]
fn dump_framing() {
    assert_eq!(dump_header(), "data = [\n");
    assert_eq!(dump_separator(0, 3), ",\n");
    assert_eq!(dump_separator(2, 3), "];\n");
}
