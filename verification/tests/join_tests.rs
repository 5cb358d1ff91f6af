use raster_calc::processing::join::{ordered_bands, BlockReadState};
use std::collections::HashMap;

/// A small generator of pseudo-random numbers, so that the arrival orders
/// are the same in every run.
fn next(seed: &mut u64) -> u64 {
    *seed = seed.wrapping_mul(6364136223846793005).wrapping_add(1442695040888963407);
    *seed >> 33
}

fn shuffled(count: usize, seed: &mut u64) -> Vec<usize> {
    let mut order: Vec<usize> = (0..count).collect();
    for i in (1..count).rev() {
        let j = (next(seed) % (i as u64 + 1)) as usize;
        order.swap(i, j);
    }
    order
}

#[test]
fn bundle_completes_with_the_last_band() {
    let mut state: BlockReadState<&str> = BlockReadState::new(3, (256, 256));
    assert_eq!(state.expected(), 3);
    assert_eq!(state.region_size(), (256, 256));
    assert!(state.insert(2, "blue").is_none());
    assert_eq!(state.pending(), 1);
    assert!(state.insert(0, "nir").is_none());
    assert_eq!(state.pending(), 2);
    let bundle = state.insert(1, "red").unwrap();
    assert_eq!(bundle.len(), 3);
    assert_eq!(bundle[&0], "nir");
    assert_eq!(bundle[&1], "red");
    assert_eq!(bundle[&2], "blue");
    assert_eq!(state.pending(), 0);
}

#[test]
fn bundle_completes_exactly_once_in_any_arrival_order() {
    let mut seed = 42u64;
    for trial in 0..2000 {
        let bands = 1 + trial % 8;
        let order = shuffled(bands, &mut seed);
        let mut state: BlockReadState<usize> = BlockReadState::new(bands, (64, 64));
        let mut completions = 0;
        for (arrival, band) in order.iter().enumerate() {
            match state.insert(*band, band * 10) {
                Some(bundle) => {
                    completions += 1;
                    assert_eq!(arrival, bands - 1);
                    assert_eq!(bundle.len(), bands);
                    for b in 0..bands {
                        assert_eq!(bundle[&b], b * 10);
                    }
                }
                None => assert!(arrival < bands - 1),
            }
        }
        assert_eq!(completions, 1);
        assert_eq!(state.pending(), 0);
    }
}

#[test]
fn repeated_band_does_not_complete_the_bundle() {
    let mut state: BlockReadState<u8> = BlockReadState::new(2, (16, 16));
    assert!(state.insert(0, 1).is_none());
    assert!(state.insert(0, 2).is_none());
    assert_eq!(state.pending(), 1);
    let bundle = state.insert(1, 3).unwrap();
    assert_eq!(bundle[&0], 2);
    assert_eq!(bundle[&1], 3);
}

#[test]
fn single_band_completes_at_once() {
    let mut state: BlockReadState<u8> = BlockReadState::new(1, (16, 16));
    let bundle = state.insert(5, 9).unwrap();
    assert_eq!(bundle.len(), 1);
    assert_eq!(bundle[&5], 9);
}

#[test]
fn state_without_bands_never_completes() {
    let mut state: BlockReadState<u8> = BlockReadState::new(0, (16, 16));
    assert!(state.insert(0, 1).is_none());
    assert!(state.insert(1, 1).is_none());
}

#[test]
fn bands_come_out_in_band_order() {
    let mut bundle = HashMap::new();
    bundle.insert(2usize, "c");
    bundle.insert(0usize, "a");
    bundle.insert(1usize, "b");
    assert_eq!(ordered_bands(bundle), Some(vec!["a", "b", "c"]));
    assert_eq!(ordered_bands(HashMap::<usize, u8>::new()), Some(vec![]));
}

#[test]
fn bands_with_a_gap_have_no_order() {
    let mut bundle = HashMap::new();
    bundle.insert(0usize, "a");
    bundle.insert(2usize, "c");
    assert_eq!(ordered_bands(bundle), None);
}
