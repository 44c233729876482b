use stepwise_tracer::params::{first_pass_config, second_pass_config, BATCH_SIZE, HIERARCHICAL_MAX};
use stepwise_tracer::{
    hierarchical_mode, path_simplify_mode, ColorImageConverterParams, EngineConfig, Hierarchical,
    RawImageData, SimplifyMode, TraceError, MAX_PIXELS,
};

fn params(layer_difference: i32) -> ColorImageConverterParams {
    ColorImageConverterParams {
        debug: None,
        mode: "spline".to_string(),
        maxIterations: 10,
        filterSpeckle: 4,
        pathPrecision: 8,
        layer_difference,
        filter_speckle: 37,
        color_precision: 6,
        hierarchical: "cutout".to_string(),
        max_iterations: 10,
        path_precision: 8,
    }
}

#[test]
fn mode_words() {
    assert_eq!(path_simplify_mode("polygon"), Ok(SimplifyMode::Polygon));
    assert_eq!(path_simplify_mode("spline"), Ok(SimplifyMode::Spline));
    assert_eq!(path_simplify_mode("none"), Ok(SimplifyMode::Pixel));
}

#[test]
fn other_words_name_no_mode() {
    for word in ["", "Spline", "spline ", "pixel", "polygons", "stacked"] {
        assert_eq!(path_simplify_mode(word), Err(TraceError::UnknownMode));
    }
}

#[test]
fn hierarchical_words() {
    assert_eq!(hierarchical_mode("stacked"), Ok(Hierarchical::Stacked));
    assert_eq!(hierarchical_mode("cutout"), Ok(Hierarchical::Cutout));
    for word in ["", "invalid", "Stacked", "cutout\n", "none"] {
        assert_eq!(hierarchical_mode(word), Err(TraceError::UnknownHierarchical));
    }
}

#[test]
fn first_pass_settings() {
    assert_eq!(
        first_pass_config(&params(16), 640, 480),
        EngineConfig {
            diagonal: false,
            hierarchical: u32::MAX,
            batch_size: 25600,
            good_min_area: 37,
            good_max_area: 307200,
            is_same_color_a: 6,
            is_same_color_b: 1,
            deepen_diff: 16,
            hollow_neighbours: 1,
        }
    );
    assert_eq!(HIERARCHICAL_MAX, visioncortex::color_clusters::HIERARCHICAL_MAX);
    assert_eq!(BATCH_SIZE, 25600);
}

#[test]
fn zero_layer_difference_selects_diagonal_connectivity() {
    assert!(first_pass_config(&params(0), 3, 3).diagonal);
    assert!(!first_pass_config(&params(1), 3, 3).diagonal);
    assert!(!first_pass_config(&params(-1), 3, 3).diagonal);
    assert_eq!(first_pass_config(&params(0), 3, 3).deepen_diff, 0);
}

#[test]
fn second_pass_settings() {
    assert_eq!(
        second_pass_config(7, 9),
        EngineConfig {
            diagonal: false,
            hierarchical: 64,
            batch_size: 25600,
            good_min_area: 0,
            good_max_area: 63,
            is_same_color_a: 0,
            is_same_color_b: 1,
            deepen_diff: 0,
            hollow_neighbours: 0,
        }
    );
}

#[test]
fn valid_bitmaps() {
    assert!(RawImageData { data: vec![0; 4], width: 1, height: 1 }.is_valid());
    assert!(RawImageData { data: vec![7; 4 * 6], width: 2, height: 3 }.is_valid());
    assert!(RawImageData { data: vec![7; 4 * 6], width: 6, height: 1 }.is_valid());
}

#[test]
fn bitmaps_that_are_not_valid() {
    assert!(!RawImageData { data: vec![], width: 0, height: 0 }.is_valid());
    assert!(!RawImageData { data: vec![], width: 0, height: 5 }.is_valid());
    assert!(!RawImageData { data: vec![], width: 5, height: 0 }.is_valid());
    assert!(!RawImageData { data: vec![0; 3], width: 1, height: 1 }.is_valid());
    assert!(!RawImageData { data: vec![0; 5], width: 1, height: 1 }.is_valid());
    assert!(!RawImageData { data: vec![0; 6], width: 2, height: 3 }.is_valid());
    assert!(!RawImageData { data: vec![0; 4], width: MAX_PIXELS + 1, height: 1 }.is_valid());
    assert!(!RawImageData { data: vec![0; 4], width: 4105, height: 4105 }.is_valid());
    assert!(!RawImageData { data: vec![0; 4], width: usize::MAX, height: usize::MAX }.is_valid());
    assert!(!RawImageData { data: vec![0; 4], width: usize::MAX, height: 2 }.is_valid());
}

#[test]
fn pixel_limit_keeps_channel_sums_in_32_bits() {
    assert_eq!(MAX_PIXELS, 16_843_009);
    assert!((MAX_PIXELS as u64) * 255 <= u32::MAX as u64);
    assert!((MAX_PIXELS as u64 + 1) * 255 > u32::MAX as u64);
}

#[test]
fn bitmap_description() {
    let info = RawImageData { data: vec![1, 2, 3, 4, 5, 6, 7, 8], width: 2, height: 1 }.describe();
    assert_eq!(info.data_len, 8);
    assert_eq!(info.width, 2);
    assert_eq!(info.height, 1);
    assert!(info.first_val);
    assert!(!RawImageData { data: vec![1, 2, 3], width: 2, height: 1 }.describe().first_val);
    assert!(!RawImageData { data: vec![1, 2, 3, 4], width: 0, height: 1 }.describe().first_val);
    assert!(!RawImageData { data: vec![1, 2, 3, 4], width: 1, height: 0 }.describe().first_val);
}
