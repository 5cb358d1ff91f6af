use raster_calc::processing::grid::{region_size, tiles_along, BlockGrid, Window};

#[test]
fn region_size_prefers_native_blocks() {
    assert_eq!(region_size((512, 512), (10980, 10980)), (512, 512));
    assert_eq!(region_size((10980, 1), (10980, 10980)), (10980, 1));
}

#[test]
fn region_size_is_clipped_to_the_raster() {
    assert_eq!(region_size((512, 512), (300, 700)), (300, 512));
    assert_eq!(region_size((0, 0), (100, 1000)), (100, 256));
    assert_eq!(region_size((0, 64), (1000, 1000)), (256, 256));
}

#[test]
fn tile_counts_round_up() {
    assert_eq!(tiles_along(1000, 256), 4);
    assert_eq!(tiles_along(1024, 256), 4);
    assert_eq!(tiles_along(1025, 256), 5);
    assert_eq!(tiles_along(1, 256), 1);
    assert_eq!(tiles_along(0, 256), 0);
    assert_eq!(tiles_along(10, 0), 0);
    assert_eq!(tiles_along(usize::MAX, 1), usize::MAX);
    assert_eq!(tiles_along(usize::MAX, usize::MAX), 1);
}

#[test]
fn edge_tiles_are_clipped() {
    let grid = BlockGrid::for_raster((1000, 600), (256, 256));
    assert_eq!(grid.blocks(), (4, 3));
    assert_eq!(grid.window(0, 0), Window { x: 0, y: 0, width: 256, height: 256 });
    assert_eq!(grid.window(3, 0), Window { x: 768, y: 0, width: 232, height: 256 });
    assert_eq!(grid.window(3, 2), Window { x: 768, y: 512, width: 232, height: 88 });
}

#[test]
fn tiles_outside_the_raster_have_no_area() {
    let grid = BlockGrid::for_raster((1000, 600), (256, 256));
    assert!(grid.window(4, 0).is_empty());
    assert!(grid.window(0, 3).is_empty());
    assert!(grid.window(usize::MAX, usize::MAX).is_empty());
    assert_eq!(grid.window(4, 0), Window::empty());
}

#[test]
fn positions_run_row_by_row() {
    let grid = BlockGrid::for_raster((600, 500), (256, 256));
    assert_eq!(grid.positions(), vec![(0, 0), (1, 0), (2, 0), (0, 1), (1, 1), (2, 1)]);
}

#[test]
fn tiles_cover_every_pixel_once() {
    let sizes = [(1usize, 1usize), (7, 5), (256, 256), (257, 255), (1000, 333), (513, 1025)];
    let blocks = [(0usize, 0usize), (64, 64), (256, 256), (100, 7), (1024, 1), (3, 500)];
    for raster in sizes {
        for block in blocks {
            let grid = BlockGrid::for_raster(raster, block);
            let mut covered = vec![0u8; raster.0 * raster.1];
            for (x, y) in grid.positions() {
                let w = grid.window(x, y);
                assert!(!w.is_empty());
                assert!(w.x + w.width <= raster.0 && w.y + w.height <= raster.1);
                for py in w.y..w.y + w.height {
                    for px in w.x..w.x + w.width {
                        covered[py * raster.0 + px] += 1;
                    }
                }
            }
            assert!(covered.iter().all(|&c| c == 1));
        }
    }
}

#[test]
fn chunked_grid_uses_fixed_chunks() {
    let grid = BlockGrid::chunked((5000, 2048));
    assert_eq!(grid.region_size(), (2048, 2048));
    assert_eq!(grid.blocks(), (3, 1));
    assert_eq!(grid.window(2, 0), Window { x: 4096, y: 0, width: 904, height: 2048 });
}

#[test]
fn empty_raster_has_no_tiles() {
    let grid = BlockGrid::for_raster((0, 100), (256, 256));
    assert_eq!(grid.blocks(), (0, 1));
    assert!(grid.positions().is_empty());
    assert!(grid.window(0, 0).is_empty());
}
