use raster_calc::processing::grid::Window;
use raster_calc::processing::indices::{BSI, EVI, NDI, SAVI};
use raster_calc::processing::options::{
    creation_options, creation_options_for, OutputOptions, PixelFormat, NODATA_VALUE_INT,
};
use raster_calc::processing::parallel::{
    bundle_usable, BlockReadRequest, ParallelBlockReader, ParallelProcessor, ProcessError, RunMode,
};
use raster_calc::processing::join::BlockReadState;
use raster_calc::processing::tile::Tile;
use raster_calc::utils::text::{decimal, same_text, signed_decimal};

fn options(use_fixed_point: bool, compress: &str, compress_level: u8, tiled: bool) -> OutputOptions {
    OutputOptions { use_fixed_point, scale_factor: 10000, compress: compress.to_string(), compress_level, tiled }
}

#[test]
fn decimal_numerals() {
    assert_eq!(decimal(0), "0");
    assert_eq!(decimal(7), "7");
    assert_eq!(decimal(10), "10");
    assert_eq!(decimal(10000), "10000");
    assert_eq!(decimal(u64::MAX), "18446744073709551615");
    assert_eq!(signed_decimal(0), "0");
    assert_eq!(signed_decimal(-1), "-1");
    assert_eq!(signed_decimal(-10000), "-10000");
    assert_eq!(signed_decimal(i64::MAX), "9223372036854775807");
    assert_eq!(signed_decimal(i64::MIN), "-9223372036854775808");
}

#[test]
fn texts_are_compared_exactly() {
    assert!(same_text("ndi", "ndi"));
    assert!(!same_text("ndi", "NDI"));
    assert!(!same_text("ndi", "ndi "));
    assert!(same_text("", ""));
}

#[test]
fn creation_options_for_each_codec() {
    assert_eq!(
        creation_options_for("DEFLATE", 6, true),
        vec!["COMPRESS=DEFLATE", "ZLEVEL=6", "TILED=YES", "NUM_THREADS=ALL_CPUS"]
    );
    assert_eq!(
        creation_options_for("ZSTD", 15, false),
        vec!["COMPRESS=ZSTD", "ZSTD_LEVEL=15", "NUM_THREADS=ALL_CPUS"]
    );
    assert_eq!(creation_options_for("LZW", 6, true), vec!["COMPRESS=LZW", "TILED=YES", "NUM_THREADS=ALL_CPUS"]);
    assert_eq!(creation_options_for("NONE", 6, true), vec!["TILED=YES", "NUM_THREADS=ALL_CPUS"]);
    assert_eq!(creation_options_for("NONE", 6, false), vec!["NUM_THREADS=ALL_CPUS"]);
}

#[test]
fn compression_level_is_cut_down_to_what_the_codec_takes() {
    assert_eq!(creation_options_for("DEFLATE", 9, false)[1], "ZLEVEL=9");
    assert_eq!(creation_options_for("DEFLATE", 10, false)[1], "ZLEVEL=9");
    assert_eq!(creation_options_for("DEFLATE", 255, false)[1], "ZLEVEL=9");
    assert_eq!(creation_options_for("DEFLATE", 0, false)[1], "ZLEVEL=0");
    assert_eq!(creation_options_for("ZSTD", 22, false)[1], "ZSTD_LEVEL=22");
    assert_eq!(creation_options_for("ZSTD", 23, false)[1], "ZSTD_LEVEL=22");
}

#[test]
fn codec_is_named_in_upper_case() {
    assert_eq!(
        creation_options("deflate", 6, true),
        vec!["COMPRESS=DEFLATE", "ZLEVEL=6", "TILED=YES", "NUM_THREADS=ALL_CPUS"]
    );
    assert_eq!(creation_options("Zstd", 3, false), vec!["COMPRESS=ZSTD", "ZSTD_LEVEL=3", "NUM_THREADS=ALL_CPUS"]);
    assert_eq!(creation_options("none", 6, false), vec!["NUM_THREADS=ALL_CPUS"]);
    assert_eq!(creation_options("lzw", 6, false), vec!["COMPRESS=LZW", "NUM_THREADS=ALL_CPUS"]);
    assert_eq!(options(true, "deflate", 12, false).creation_options()[1], "ZLEVEL=9");
}

#[test]
fn pixel_format_follows_the_settings() {
    assert_eq!(
        PixelFormat::select(true, 10000),
        PixelFormat::FixedPoint { scale_factor: 10000, no_data: -10000 }
    );
    assert_eq!(PixelFormat::select(false, 10000), PixelFormat::Float);
    assert_eq!(NODATA_VALUE_INT, -10000);
    assert_eq!(options(true, "NONE", 0, false).format(), PixelFormat::select(true, 10000));
}

#[test]
fn band_description_names_the_scale_of_fixed_point_output() {
    assert_eq!(PixelFormat::select(true, 10000).description("NDI"), "NDI (scaled by 10000)");
    assert_eq!(PixelFormat::select(true, -5).description("EVI"), "EVI (scaled by -5)");
    assert_eq!(PixelFormat::select(false, 10000).description("NDI"), "NDI");
}

#[test]
fn worker_count_defaults_to_the_machine_and_at_least_four() {
    assert_eq!(ParallelProcessor::new(Some(3), Some(16)).io_threads(), 3);
    assert_eq!(ParallelProcessor::new(Some(0), None).io_threads(), 0);
    assert_eq!(ParallelProcessor::new(None, Some(16)).io_threads(), 16);
    assert_eq!(ParallelProcessor::new(None, Some(2)).io_threads(), 4);
    assert_eq!(ParallelProcessor::new(None, Some(4)).io_threads(), 4);
    assert_eq!(ParallelProcessor::new(None, None).io_threads(), 4);
    assert_eq!(ParallelProcessor::with_cache(None, Some(1), "cache").io_threads(), 4);
    assert!(ParallelProcessor::new(None, None).cache().is_none());
    assert_eq!(ParallelProcessor::with_cache(None, None, "cache").cache(), Some(&"cache"));
}

#[test]
fn too_few_inputs_are_refused() {
    let processor = ParallelProcessor::new(None, None);
    let settings = options(true, "DEFLATE", 6, true);
    let evi = EVI::new(0, 1, 2, None);
    let refused = processor.process(&evi, 2, (1000, 1000), (256, 256), &settings, false);
    assert_eq!(refused.unwrap_err(), ProcessError::NotEnoughBands { required: 3, provided: 2 });
    let bsi = BSI::new(0, 1, 2, 3, None);
    assert_eq!(
        ParallelProcessor::<()>::check_inputs(&bsi, 0),
        Err(ProcessError::NotEnoughBands { required: 4, provided: 0 })
    );
    assert_eq!(ParallelProcessor::<()>::check_inputs(&bsi, 4), Ok(()));
    assert_eq!(ParallelProcessor::<()>::check_inputs(&bsi, 5), Ok(()));
}

#[test]
fn errors_are_put_in_words() {
    assert_eq!(
        ProcessError::NotEnoughBands { required: 3, provided: 2 }.message(),
        "Not enough input bands provided. Required: 3, provided: 2"
    );
    assert_eq!(ProcessError::WorkerFailure { failed: 12 }.message(), "Worker threads failed: 12");
}

#[test]
fn small_raster_is_computed_in_one_piece() {
    let processor = ParallelProcessor::new(Some(8), None);
    let settings = options(false, "LZW", 6, false);
    let ndi = NDI::new(0, 1, None);
    for size in [(512, 512), (1, 1), (512, 3), (0, 0)] {
        let plan = processor.process(&ndi, 2, size, (256, 256), &settings, false).unwrap();
        match plan.mode {
            RunMode::Small { window } => {
                assert_eq!(window, Window { x: 0, y: 0, width: size.0, height: size.1 })
            }
            RunMode::Tiled { .. } => panic!("a small raster is not tiled"),
        }
        assert_eq!(plan.band_indices, vec![0, 1]);
        assert_eq!(plan.format, PixelFormat::Float);
        assert_eq!(plan.description, "NDI");
        assert_eq!(plan.creation_options, vec!["COMPRESS=LZW", "NUM_THREADS=ALL_CPUS"]);
    }
}

#[test]
fn large_raster_is_tiled() {
    let processor = ParallelProcessor::new(Some(8), None);
    let settings = options(true, "deflate", 6, true);
    let ndi = NDI::new(0, 1, Some("NDVI".to_string()));
    for size in [(513, 512), (512, 513), (10980, 10980)] {
        let plan = processor.process(&ndi, 3, size, (256, 128), &settings, true).unwrap();
        match plan.mode {
            RunMode::Tiled { reader } => {
                assert_eq!(reader.region_size(), (256, 128));
                assert_eq!(reader.blocks(), ((size.0 + 255) / 256, (size.1 + 127) / 128));
                assert_eq!(reader.workers(), 8);
                assert_eq!(reader.band_count(), 3);
                assert!(!reader.is_cached());
                assert_eq!(reader.grid().raster_size(), size);
            }
            RunMode::Small { .. } => panic!("a large raster is tiled"),
        }
        assert_eq!(plan.band_indices, vec![0, 1, 2]);
        assert_eq!(plan.format, PixelFormat::FixedPoint { scale_factor: 10000, no_data: -10000 });
        assert_eq!(plan.description, "NDVI (scaled by 10000)");
        assert!(!plan.scale_inputs);
    }
}

#[test]
fn cached_processor_plans_a_cached_reader() {
    let processor = ParallelProcessor::with_cache(Some(2), None, ());
    let plan = processor
        .process(&NDI::new(0, 1, None), 2, (2000, 600), (0, 0), &options(true, "NONE", 0, false), false)
        .unwrap();
    match plan.mode {
        RunMode::Tiled { reader } => {
            assert!(reader.is_cached());
            assert_eq!(reader.region_size(), (256, 256));
            assert_eq!(reader.blocks(), (8, 3));
        }
        RunMode::Small { .. } => panic!("a large raster is tiled"),
    }
}

#[test]
fn inputs_are_scaled_only_where_the_formula_needs_it_and_a_factor_is_set() {
    let processor = ParallelProcessor::new(None, None);
    let settings = options(true, "NONE", 0, false);
    let savi = SAVI::new(0, 1, 0.5f32, None);
    let ndi = NDI::new(0, 1, None);
    assert!(processor.process(&savi, 2, (10, 10), (0, 0), &settings, true).unwrap().scale_inputs);
    assert!(!processor.process(&savi, 2, (10, 10), (0, 0), &settings, false).unwrap().scale_inputs);
    assert!(!processor.process(&ndi, 2, (10, 10), (0, 0), &settings, true).unwrap().scale_inputs);
    assert!(!processor.process(&ndi, 2, (10, 10), (0, 0), &settings, false).unwrap().scale_inputs);
}

#[test]
fn run_submits_one_request_per_band() {
    let reader = ParallelBlockReader::new(3, 4, (1000, 600), (256, 256));
    let (state, requests): (BlockReadState<u8>, Vec<BlockReadRequest>) = reader.run(3, 2, &[0, 1, 2]);
    assert_eq!(state.expected(), 3);
    assert_eq!(state.pending(), 0);
    assert_eq!(state.region_size(), (256, 256));
    assert_eq!(
        requests,
        vec![
            BlockReadRequest { dataset_idx: 0, num_datasets: 3, x: 3, y: 2 },
            BlockReadRequest { dataset_idx: 1, num_datasets: 3, x: 3, y: 2 },
            BlockReadRequest { dataset_idx: 2, num_datasets: 3, x: 3, y: 2 },
        ]
    );
    let (none, nothing): (BlockReadState<u8>, Vec<BlockReadRequest>) = reader.run(0, 0, &[]);
    assert_eq!(none.expected(), 0);
    assert!(nothing.is_empty());
    let (two, picked): (BlockReadState<u8>, Vec<BlockReadRequest>) = reader.run(1, 1, &[2, 0]);
    assert_eq!(two.expected(), 2);
    assert_eq!(picked[0].dataset_idx, 2);
    assert_eq!(picked[1].dataset_idx, 0);
    assert!(reader.serves(&picked[0]));
    assert!(!reader.serves(&BlockReadRequest { dataset_idx: 3, num_datasets: 1, x: 0, y: 0 }));
}

#[test]
fn request_window_is_clipped_to_the_band() {
    let request = BlockReadRequest { dataset_idx: 0, num_datasets: 1, x: 3, y: 2 };
    assert_eq!(request.window((256, 256), (1000, 600)), Window { x: 768, y: 512, width: 232, height: 88 });
    assert_eq!(request.window((256, 256), (2000, 2000)), Window { x: 768, y: 512, width: 256, height: 256 });
    assert!(request.window((256, 256), (768, 600)).is_empty());
    assert!(request.window((256, 256), (1000, 512)).is_empty());
    assert!(request.window((0, 0), (1000, 600)).is_empty());
}

#[test]
fn results_are_written_at_the_offset_of_their_tile() {
    let reader = ParallelBlockReader::new(2, 4, (1000, 600), (256, 256));
    assert_eq!(reader.output_window(0, 0, (256, 256)), Some(Window { x: 0, y: 0, width: 256, height: 256 }));
    assert_eq!(reader.output_window(3, 2, (232, 88)), Some(Window { x: 768, y: 512, width: 232, height: 88 }));
    assert_eq!(reader.output_window(4, 0, (256, 256)), None);
    assert_eq!(reader.output_window(0, 3, (256, 256)), None);
    assert_eq!(reader.output_window(usize::MAX, 0, (1, 1)), None);
    assert_eq!(reader.output_window(0, usize::MAX / 2, (1, 1)), None);
}

#[test]
fn bundles_with_a_tile_without_pixels_are_skipped() {
    let full = || Tile::new((2, 2), vec![0u8; 4]).unwrap();
    assert!(bundle_usable(&[full(), full()]));
    assert!(!bundle_usable(&[full(), Tile::empty()]));
    assert!(!bundle_usable(&[Tile::new((0, 4), Vec::<u8>::new()).unwrap(), full()]));
    assert!(bundle_usable(&Vec::<Tile<u8>>::new()));
}

#[test]
fn run_ends_well_when_no_worker_failed() {
    let reader = ParallelBlockReader::with_cache(2, 4, (1000, 600), (256, 256));
    assert_eq!(reader.join(0), Ok(()));
    assert_eq!(reader.join(1), Err(ProcessError::WorkerFailure { failed: 1 }));
    assert_eq!(reader.join(4), Err(ProcessError::WorkerFailure { failed: 4 }));
}
