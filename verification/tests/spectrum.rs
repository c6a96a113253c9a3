use pa_visualizer::rings::ring_bands;
use pa_visualizer::spectrum::{column_band, column_bands};
use pa_visualizer::window::{plan_window, pull_window, Pull, WindowPlan};
use rb::{RbProducer, SpscRb, RB};

#[test]
fn column_band_default_settings() {
    // 2048 samples, 50 columns: 20 bins per column
    assert_eq!(column_band(2048, 50, 1), (20, 40));
    assert_eq!(column_band(2048, 50, 49), (980, 1000));
}

#[test]
fn column_bands_tile_without_gaps() {
    let b = column_bands(2048, 75);
    assert_eq!(b.len(), 74);
    assert_eq!(b[0], (13, 26));
    for i in 0..b.len() - 1 {
        assert_eq!(b[i].1, b[i + 1].0);
    }
    assert!(b[b.len() - 1].1 <= 1024);
}

#[test]
fn column_bands_degenerate_counts() {
    assert!(column_bands(2048, 0).is_empty());
    assert!(column_bands(2048, 1).is_empty());
    assert_eq!(column_bands(10, 20), vec![(0, 0); 19]);
}

#[test]
fn window_plans() {
    assert_eq!(plan_window(100, 2048), WindowPlan::Wait);
    assert_eq!(plan_window(2048, 2048), WindowPlan::Read);
    assert_eq!(plan_window(3000, 2048), WindowPlan::SkipThenRead(952));
}

#[test]
fn pull_window_waits_for_enough_samples() {
    let ring: SpscRb<i32> = SpscRb::new(16);
    let producer = ring.producer();
    let consumer = ring.consumer();
    producer.write(&[1, 2, 3]).unwrap();
    let mut window = vec![0; 4];
    assert_eq!(pull_window(&ring, &consumer, &mut window), Ok(Pull::Waiting { available: 3 }));
    assert_eq!(window, vec![0; 4]);
}

#[test]
fn pull_window_reads_exact_window() {
    let ring: SpscRb<i32> = SpscRb::new(16);
    let producer = ring.producer();
    let consumer = ring.consumer();
    producer.write(&[1, 2, 3, 4]).unwrap();
    let mut window = vec![0; 4];
    let r = pull_window(&ring, &consumer, &mut window);
    assert_eq!(r, Ok(Pull::Pulled { available: 4, requested: 0, skipped: 0, filled: 4 }));
    assert_eq!(window, vec![1, 2, 3, 4]);
}

#[test]
fn pull_window_keeps_newest_samples() {
    let ring: SpscRb<i32> = SpscRb::new(16);
    let producer = ring.producer();
    let consumer = ring.consumer();
    producer.write(&[1, 2, 3, 4, 5, 6]).unwrap();
    let mut window = vec![0; 4];
    let r = pull_window(&ring, &consumer, &mut window);
    assert_eq!(r, Ok(Pull::Pulled { available: 6, requested: 2, skipped: 2, filled: 4 }));
    assert_eq!(window, vec![3, 4, 5, 6]);
}

#[test]
fn ring_bands_default_rings() {
    // WINDOW_SIZE 2048, five rings: 204 bins each, rings 1..5
    let r = ring_bands(2048, 5);
    assert_eq!(r, vec![(204, 408), (408, 612), (612, 816), (816, 1020)]);
    assert!(ring_bands(2048, 1).is_empty());
}
