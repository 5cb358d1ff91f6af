use raster_calc::batch::{
    collect_unique_paths, collect_unique_paths_as, default_compress, default_compress_level, default_scale_factor,
    default_true, finish_batch, job_outcome, operation_kinds, plan_operation, plan_operation_as, process_batch,
    resolve_options, unique_paths, BatchConfig, BatchError, BsiParams, Calculator, EviParams, GlobalParams,
    IndexKind, IndexParams, MsaviParams, NdiParams, NdsiParams, NdwiParams, Operation, OperationParams,
    OsaviParams, SaviParams,
};
use raster_calc::processing::parallel::IndexCalculator;

fn global() -> GlobalParams {
    GlobalParams {
        compress: default_compress(),
        compress_level: default_compress_level(),
        float: false,
        scale_factor: default_scale_factor(),
        tiled: default_true(),
        threads: None,
    }
}

fn operation(op_type: &str, params: OperationParams<f32>, output: &str) -> Operation<f32> {
    Operation {
        op_type: op_type.to_string(),
        params,
        output: output.to_string(),
        float: None,
        scale_factor: None,
        compress: None,
        compress_level: None,
        tiled: None,
    }
}

fn ndi(a: &str, b: &str) -> OperationParams<f32> {
    OperationParams::Parsed(IndexParams::Ndi(NdiParams { a: a.to_string(), b: b.to_string() }))
}

fn evi(a: &str, b: &str, c: &str) -> OperationParams<f32> {
    OperationParams::Parsed(IndexParams::Evi(EviParams { a: a.to_string(), b: b.to_string(), c: c.to_string() }))
}

fn savi(a: &str, b: &str, l: Option<f32>) -> OperationParams<f32> {
    OperationParams::Parsed(IndexParams::Savi(SaviParams { a: a.to_string(), b: b.to_string(), l }))
}

fn bsi(s: &str, r: &str, n: &str, b: &str) -> OperationParams<f32> {
    OperationParams::Parsed(IndexParams::Bsi(BsiParams {
        s: s.to_string(),
        r: r.to_string(),
        n: n.to_string(),
        b: b.to_string(),
    }))
}

#[test]
fn defaults_of_the_settings() {
    assert_eq!(default_compress(), "DEFLATE");
    assert_eq!(default_compress_level(), 6);
    assert_eq!(default_scale_factor(), 10000);
    assert!(default_true());
    let bare = GlobalParams::default();
    assert_eq!(bare.compress, "");
    assert_eq!(bare.compress_level, 0);
    assert!(!bare.float);
    assert_eq!(bare.scale_factor, 0);
    assert!(!bare.tiled);
    assert_eq!(bare.threads, None);
}

#[test]
fn batch_thread_count() {
    let mut settings = global();
    assert_eq!(settings.thread_count(9), 9);
    assert_eq!(settings.thread_count(4), 4);
    assert_eq!(settings.thread_count(1), 4);
    assert_eq!(settings.thread_count(0), 4);
    settings.threads = Some(2);
    assert_eq!(settings.thread_count(9), 2);
}

#[test]
fn index_names_are_read_in_any_case() {
    assert_eq!(IndexKind::parse("ndi"), Some(IndexKind::Ndi));
    assert_eq!(IndexKind::parse("NDI"), Some(IndexKind::Ndi));
    assert_eq!(IndexKind::parse("Evi"), Some(IndexKind::Evi));
    assert_eq!(IndexKind::parse("SAVI"), Some(IndexKind::Savi));
    assert_eq!(IndexKind::parse("ndwi"), Some(IndexKind::Ndwi));
    assert_eq!(IndexKind::parse("NdSi"), Some(IndexKind::Ndsi));
    assert_eq!(IndexKind::parse("BSI"), Some(IndexKind::Bsi));
    assert_eq!(IndexKind::parse("MSAVI2"), Some(IndexKind::Msavi2));
    assert_eq!(IndexKind::parse("osavi"), Some(IndexKind::Osavi));
    assert_eq!(IndexKind::parse("ndvi"), None);
    assert_eq!(IndexKind::parse(""), None);
    assert_eq!(IndexKind::parse(" ndi"), None);
}

#[test]
fn lower_case_names_are_read_exactly() {
    assert_eq!(IndexKind::from_lowercase("ndi"), Some(IndexKind::Ndi));
    assert_eq!(IndexKind::from_lowercase("msavi2"), Some(IndexKind::Msavi2));
    assert_eq!(IndexKind::from_lowercase("NDI"), None);
    assert_eq!(IndexKind::from_lowercase("msavi"), None);
    assert_eq!(IndexKind::Msavi2.label(), "MSAVI2");
    assert_eq!(IndexKind::Ndi.label(), "NDI");
}

#[test]
fn inputs_stand_in_the_order_of_their_roles() {
    let params: IndexParams<f32> = IndexParams::Bsi(BsiParams {
        s: "swir.tif".to_string(),
        r: "red.tif".to_string(),
        n: "nir.tif".to_string(),
        b: "blue.tif".to_string(),
    });
    assert_eq!(params.inputs(), vec!["swir.tif", "red.tif", "nir.tif", "blue.tif"]);
    assert_eq!(params.kind(), IndexKind::Bsi);
    let three: IndexParams<f32> =
        IndexParams::Evi(EviParams { a: "n".to_string(), b: "r".to_string(), c: "b".to_string() });
    assert_eq!(three.inputs(), vec!["n", "r", "b"]);
    let two: Vec<IndexParams<f32>> = vec![
        IndexParams::Ndwi(NdwiParams { a: "x".to_string(), b: "y".to_string() }),
        IndexParams::Ndsi(NdsiParams { a: "x".to_string(), b: "y".to_string() }),
        IndexParams::Msavi2(MsaviParams { a: "x".to_string(), b: "y".to_string() }),
        IndexParams::Osavi(OsaviParams { a: "x".to_string(), b: "y".to_string() }),
    ];
    for params in two {
        assert_eq!(params.inputs(), vec!["x", "y"]);
    }
}

#[test]
fn operation_settings_override_the_global_ones() {
    let settings = global();
    let plain = operation("ndi", ndi("a", "b"), "out.tif");
    let resolved = resolve_options(&plain, &settings);
    assert!(resolved.use_fixed_point);
    assert_eq!(resolved.scale_factor, 10000);
    assert_eq!(resolved.compress, "DEFLATE");
    assert_eq!(resolved.compress_level, 6);
    assert!(resolved.tiled);

    let mut own = operation("ndi", ndi("a", "b"), "out.tif");
    own.float = Some(true);
    own.scale_factor = Some(100);
    own.compress = Some("zstd".to_string());
    own.compress_level = Some(19);
    own.tiled = Some(false);
    let resolved = resolve_options(&own, &settings);
    assert!(!resolved.use_fixed_point);
    assert_eq!(resolved.scale_factor, 100);
    assert_eq!(resolved.compress, "zstd");
    assert_eq!(resolved.compress_level, 19);
    assert!(!resolved.tiled);
}

#[test]
fn operation_becomes_a_job() {
    let planned = plan_operation(0, &operation("EVI", evi("n.tif", "r.tif", "b.tif"), "evi.tif"), &global(), 0.5);
    let job = planned.unwrap();
    assert_eq!(job.inputs, vec!["n.tif", "r.tif", "b.tif"]);
    assert_eq!(job.output, "evi.tif");
    assert!(job.options.use_fixed_point);
    match job.calculator {
        Calculator::Evi(calc) => {
            assert_eq!((calc.nir_index(), calc.red_index(), calc.blue_index()), (0, 1, 2));
            assert_eq!(calc.name(), "EVI");
        }
        _ => panic!("an EVI operation gives an EVI calculator"),
    }
}

#[test]
fn savi_takes_its_soil_factor_or_the_default() {
    let named = plan_operation(0, &operation("savi", savi("n", "r", Some(0.25)), "o"), &global(), 0.5).unwrap();
    match named.calculator {
        Calculator::Savi(calc) => assert_eq!(*calc.soil_factor(), 0.25),
        _ => panic!("a SAVI operation gives a SAVI calculator"),
    }
    let unnamed = plan_operation(0, &operation("savi", savi("n", "r", None), "o"), &global(), 0.5).unwrap();
    match unnamed.calculator {
        Calculator::Savi(calc) => assert_eq!(*calc.soil_factor(), 0.5),
        _ => panic!("a SAVI operation gives a SAVI calculator"),
    }
}

#[test]
fn bsi_job_reads_four_bands_by_role() {
    let job = plan_operation(3, &operation("bsi", bsi("s", "r", "n", "b"), "o"), &global(), 0.5).unwrap();
    assert_eq!(job.inputs, vec!["s", "r", "n", "b"]);
    match job.calculator {
        Calculator::Bsi(calc) => {
            assert_eq!((calc.swir_index(), calc.red_index(), calc.nir_index(), calc.blue_index()), (0, 1, 2, 3))
        }
        _ => panic!("a BSI operation gives a BSI calculator"),
    }
}

#[test]
fn unknown_operation_type_fails() {
    let planned = plan_operation(1, &operation("ndvi", ndi("a", "b"), "o"), &global(), 0.5);
    match planned {
        Err(error) => {
            assert_eq!(error.message(), "Unknown operation type for operation 2: ndvi");
            match error {
                BatchError::UnknownOperation { operation, op_type } => {
                    assert_eq!(operation, 2);
                    assert_eq!(op_type, "ndvi");
                }
                _ => panic!("the type is unknown"),
            }
        }
        Ok(_) => panic!("an unknown type gives no job"),
    }
}

#[test]
fn malformed_params_fail() {
    let broken = operation("NDI", OperationParams::Malformed("missing field `b`".to_string()), "o");
    match plan_operation(4, &broken, &global(), 0.5) {
        Err(error) => assert_eq!(error.message(), "Error parsing NDI params for operation 5: missing field `b`"),
        Ok(_) => panic!("malformed parameters give no job"),
    }
    let mismatched = operation("evi", ndi("a", "b"), "o");
    match plan_operation(0, &mismatched, &global(), 0.5) {
        Err(BatchError::MalformedParams { operation, kind, .. }) => {
            assert_eq!(operation, 1);
            assert_eq!(kind, IndexKind::Evi);
        }
        _ => panic!("parameters of another index give no job"),
    }
}

#[test]
fn planning_goes_by_the_kind_that_is_given() {
    let op = operation("whatever", ndi("a", "b"), "o");
    assert!(plan_operation_as(0, &op, &global(), 0.5, Some(IndexKind::Ndi)).is_ok());
    assert!(plan_operation_as(0, &op, &global(), 0.5, Some(IndexKind::Ndwi)).is_err());
    assert!(plan_operation_as(0, &op, &global(), 0.5, None).is_err());
}

#[test]
fn every_operation_of_a_batch_is_planned() {
    let config = BatchConfig {
        global: global(),
        operations: vec![
            operation("ndi", ndi("nir.tif", "red.tif"), "ndi.tif"),
            operation("nope", ndi("nir.tif", "red.tif"), "x.tif"),
            operation("savi", OperationParams::Malformed("invalid type".to_string()), "savi.tif"),
            operation("EVI", evi("nir.tif", "red.tif", "blue.tif"), "evi.tif"),
        ],
    };
    let planned = process_batch(&config, 0.5);
    assert_eq!(planned.len(), 4);
    assert!(planned[0].is_ok());
    assert!(planned[3].is_ok());
    match &planned[1] {
        Err(error) => assert_eq!(error.message(), "Unknown operation type for operation 2: nope"),
        Ok(_) => panic!("an unknown type gives no job"),
    }
    match &planned[2] {
        Err(error) => assert_eq!(error.message(), "Error parsing SAVI params for operation 3: invalid type"),
        Ok(_) => panic!("malformed parameters give no job"),
    }
    assert_eq!(
        operation_kinds(&config),
        vec![Some(IndexKind::Ndi), None, Some(IndexKind::Savi), Some(IndexKind::Evi)]
    );
}

#[test]
fn repetitions_are_dropped_in_order_of_first_use() {
    let paths: Vec<String> = ["b", "a", "b", "c", "a", "a", "d"].iter().map(|p| p.to_string()).collect();
    assert_eq!(unique_paths(&paths), vec!["b", "a", "c", "d"]);
    assert_eq!(unique_paths(&Vec::new()), Vec::<String>::new());
}

#[test]
fn sources_of_a_batch_are_collected_once() {
    let config = BatchConfig {
        global: global(),
        operations: vec![
            operation("ndi", ndi("nir.tif", "red.tif"), "ndi.tif"),
            operation("nope", ndi("other.tif", "red.tif"), "x.tif"),
            operation("savi", OperationParams::Malformed("invalid type".to_string()), "savi.tif"),
            operation("EVI", evi("nir.tif", "red.tif", "blue.tif"), "evi.tif"),
            operation("bsi", bsi("swir.tif", "red.tif", "nir.tif", "blue.tif"), "bsi.tif"),
            operation("ndwi", evi("wrong.tif", "red.tif", "blue.tif"), "ndwi.tif"),
        ],
    };
    assert_eq!(collect_unique_paths(&config), vec!["nir.tif", "red.tif", "blue.tif", "swir.tif"]);
    let kinds = vec![Some(IndexKind::Ndi), Some(IndexKind::Ndi), None, None, None, Some(IndexKind::Evi)];
    assert_eq!(
        collect_unique_paths_as(&config, &kinds),
        vec!["nir.tif", "red.tif", "other.tif", "wrong.tif", "blue.tif"]
    );
}

#[test]
fn failures_of_jobs_are_recorded_under_their_number() {
    assert!(job_outcome(0, Ok(())).is_ok());
    match job_outcome(6, Err("cannot open".to_string())) {
        Err(error) => {
            assert_eq!(error.message(), "Error processing operation 7: cannot open");
            match error.duplicate() {
                BatchError::Failed { operation, detail } => {
                    assert_eq!(operation, 7);
                    assert_eq!(detail, "cannot open");
                }
                _ => panic!("the job was run"),
            }
        }
        Ok(_) => panic!("a failed job is a failure"),
    }
}

#[test]
fn batch_reports_all_its_failures_together() {
    let outcomes = vec![
        Ok(()),
        job_outcome(1, Err("first".to_string())),
        Ok(()),
        Err(BatchError::UnknownOperation { operation: 4, op_type: "nope".to_string() }),
        job_outcome(4, Err("last".to_string())),
    ];
    match finish_batch(&outcomes) {
        Err(failure) => {
            assert_eq!(failure.message(), "Errors occurred during batch processing");
            let messages: Vec<String> = failure.errors.iter().map(|e| e.message()).collect();
            assert_eq!(
                messages,
                vec![
                    "Error processing operation 2: first",
                    "Unknown operation type for operation 4: nope",
                    "Error processing operation 5: last",
                ]
            );
        }
        Ok(_) => panic!("a batch with failures fails"),
    }
}

#[test]
fn batch_without_failures_goes_well() {
    assert!(finish_batch(&vec![Ok(()), Ok(()), Ok(())]).is_ok());
    assert!(finish_batch(&Vec::new()).is_ok());
}
