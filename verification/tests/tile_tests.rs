use raster_calc::processing::tile::Tile;

const NODATA_FLOAT: f32 = -999.0;
const NODATA_INT: i16 = -10000;

/// The fixed-point form of a sample: no-data stays no-data, every other
/// value is clamped to (-0.9999, 0.9999), scaled and rounded.
fn encode(value: f32, scale_factor: i32) -> i16 {
    if value == NODATA_FLOAT {
        NODATA_INT
    } else {
        (value.max(-0.9999).min(0.9999) * scale_factor as f32).round() as i16
    }
}

fn decode(value: i16, scale_factor: i32) -> f32 {
    if value == NODATA_INT {
        NODATA_FLOAT
    } else {
        value as f32 / scale_factor as f32
    }
}

#[test]
fn tile_needs_as_many_samples_as_its_shape_holds() {
    assert!(Tile::new((2, 3), vec![0u8; 6]).is_some());
    assert!(Tile::new((2, 3), vec![0u8; 5]).is_none());
    assert!(Tile::new((2, 3), vec![0u8; 7]).is_none());
    assert!(Tile::new((0, 3), Vec::<u8>::new()).is_some());
    assert!(Tile::new((usize::MAX, 2), vec![0u8; 4]).is_none());
}

#[test]
fn tile_reports_shape_and_samples() {
    let tile = Tile::new((3, 2), vec![1, 2, 3, 4, 5, 6]).unwrap();
    assert_eq!(tile.shape(), (3, 2));
    assert_eq!(tile.data(), &vec![1, 2, 3, 4, 5, 6]);
    assert!(!tile.is_empty());
    assert_eq!(tile.into_data(), vec![1, 2, 3, 4, 5, 6]);
}

#[test]
fn empty_tile_has_no_area() {
    let tile: Tile<f32> = Tile::empty();
    assert_eq!(tile.shape(), (0, 0));
    assert!(tile.is_empty());
    assert!(tile.data().is_empty());
    assert!(Tile::new((0, 7), Vec::<f32>::new()).unwrap().is_empty());
    assert!(Tile::new((7, 0), Vec::<f32>::new()).unwrap().is_empty());
}

#[test]
fn map_applies_the_kernel_to_every_sample() {
    let tile = Tile::new((2, 2), vec![1u32, 2, 3, 4]).unwrap();
    let doubled = tile.map(&|s: u32| u64::from(s) * 2);
    assert_eq!(doubled.shape(), (2, 2));
    assert_eq!(doubled.data(), &vec![2u64, 4, 6, 8]);
}

#[test]
fn zips_combine_samples_at_the_same_place() {
    let a = Tile::new((2, 2), vec![1i32, 2, 3, 4]).unwrap();
    let b = Tile::new((2, 2), vec![10i32, 20, 30, 40]).unwrap();
    let c = Tile::new((2, 2), vec![100i32, 200, 300, 400]).unwrap();
    let d = Tile::new((2, 2), vec![1000i32, 2000, 3000, 4000]).unwrap();
    assert_eq!(Tile::zip2(&a, &b, &|x: i32, y: i32| y - x).data(), &vec![9, 18, 27, 36]);
    assert_eq!(Tile::zip3(&a, &b, &c, &|x: i32, y: i32, z: i32| x + y + z).data(), &vec![111, 222, 333, 444]);
    let all = Tile::zip4(&a, &b, &c, &d, &|x: i32, y: i32, z: i32, w: i32| w + z + y + x);
    assert_eq!(all.data(), &vec![1111, 2222, 3333, 4444]);
    assert_eq!(all.shape(), (2, 2));
}

#[test]
fn fixed_point_encoding_of_known_values() {
    let tile = Tile::new((6, 1), vec![0.0f32, 0.5, -0.5, 1.0, -1.0, -999.0]).unwrap();
    let encoded = tile.map(&|v: f32| encode(v, 10000));
    assert_eq!(encoded.shape(), (6, 1));
    assert_eq!(encoded.data(), &vec![0i16, 5000, -5000, 9999, -9999, -10000]);
}

#[test]
fn fixed_point_round_trip_stays_within_one_step() {
    let scale = 10000;
    let mut samples = Vec::new();
    let mut v = -0.9998f32;
    while v < 0.9999 {
        samples.push(v);
        v += 0.00137;
    }
    let count = samples.len();
    let tile = Tile::new((count, 1), samples).unwrap();
    let back = tile.map(&|v: f32| encode(v, scale)).map(&|q: i16| decode(q, scale));
    for i in 0..count {
        assert!((back.data()[i] - tile.data()[i]).abs() <= 1.0 / scale as f32);
    }
}
