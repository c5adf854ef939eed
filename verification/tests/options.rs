use xatlas_rs::options::{FOUR, ONE_HALF, ONE_HUNDREDTH, SIX, TWO, ZERO};
use xatlas_rs::{ChartOptions, PackOptions, Scalar};

fn value_of(scalar: Scalar) -> f32 {
    f32::from_bits(scalar.to_bits())
}

#[test]
fn bit_patterns_are_those_of_the_values() {
    assert_eq!(ZERO, 0.0f32.to_bits());
    assert_eq!(ONE_HUNDREDTH, 0.01f32.to_bits());
    assert_eq!(ONE_HALF, 0.5f32.to_bits());
    assert_eq!(TWO, 2.0f32.to_bits());
    assert_eq!(FOUR, 4.0f32.to_bits());
    assert_eq!(SIX, 6.0f32.to_bits());
}

#[test]
fn scalar_keeps_its_bits() {
    let scalar = Scalar::from_bits(1.5f32.to_bits());
    assert_eq!(scalar.to_bits(), 0x3FC0_0000);
    assert_eq!(value_of(scalar), 1.5);
    assert_eq!(Scalar::from_bits(0xFFFF_FFFF).to_bits(), 0xFFFF_FFFF);
}

#[test]
fn default_chart_options() {
    let options = ChartOptions::default();
    assert_eq!(value_of(options.proxy_fit_metric_weight), 2.0);
    assert_eq!(value_of(options.roundness_metric_weight), 0.01);
    assert_eq!(value_of(options.straightness_metric_weight), 6.0);
    assert_eq!(value_of(options.normal_seam_metric_weight), 4.0);
    assert_eq!(value_of(options.texture_seam_metric_weight), 0.5);
    assert_eq!(value_of(options.max_chart_area), 0.0);
    assert_eq!(value_of(options.max_boundary_length), 0.0);
    assert_eq!(value_of(options.max_threshold), 2.0);
    assert_eq!(options.grow_face_count, 32);
    assert_eq!(options.max_iterations, 1);
}

#[test]
fn default_pack_options() {
    let options = PackOptions::default();
    assert_eq!(options.attempts, 4096);
    assert_eq!(value_of(options.texels_per_unit), 0.0);
    assert_eq!(options.texels_per_unit.to_bits(), 0);
    assert_eq!(options.resolution, 0);
    assert_eq!(options.max_chart_size, 1024);
    assert!(!options.block_align);
    assert!(!options.conservative);
    assert_eq!(options.padding, 0);
}

#[test]
fn chart_options_convert_field_for_field() {
    let options = ChartOptions {
        proxy_fit_metric_weight: Scalar::from_bits(1.0f32.to_bits()),
        roundness_metric_weight: Scalar::from_bits(2.0f32.to_bits()),
        straightness_metric_weight: Scalar::from_bits(3.0f32.to_bits()),
        normal_seam_metric_weight: Scalar::from_bits(4.0f32.to_bits()),
        texture_seam_metric_weight: Scalar::from_bits(5.0f32.to_bits()),
        max_chart_area: Scalar::from_bits(6.0f32.to_bits()),
        max_boundary_length: Scalar::from_bits(7.0f32.to_bits()),
        max_threshold: Scalar::from_bits(8.0f32.to_bits()),
        grow_face_count: 9,
        max_iterations: 10,
    };
    let params = options.convert();
    assert_eq!(value_of(params.proxy_fit_metric_weight), 1.0);
    assert_eq!(value_of(params.roundness_metric_weight), 2.0);
    assert_eq!(value_of(params.straightness_metric_weight), 3.0);
    assert_eq!(value_of(params.normal_seam_metric_weight), 4.0);
    assert_eq!(value_of(params.texture_seam_metric_weight), 5.0);
    assert_eq!(value_of(params.max_chart_area), 6.0);
    assert_eq!(value_of(params.max_boundary_length), 7.0);
    assert_eq!(value_of(params.max_threshold), 8.0);
    assert_eq!(params.grow_face_count, 9);
    assert_eq!(params.max_iterations, 10);
}

#[test]
fn pack_options_convert_field_for_field() {
    let options = PackOptions {
        attempts: -7,
        texels_per_unit: Scalar::from_bits(16.0f32.to_bits()),
        resolution: 512,
        max_chart_size: 256,
        block_align: true,
        conservative: false,
        padding: 3,
    };
    let params = options.convert();
    assert_eq!(params.attempts, -7);
    assert_eq!(value_of(params.texels_per_unit), 16.0);
    assert_eq!(params.resolution, 512);
    assert_eq!(params.max_chart_size, 256);
    assert!(params.block_align);
    assert!(!params.conservative);
    assert_eq!(params.padding, 3);

    let flipped = PackOptions { block_align: false, conservative: true, ..options };
    let params = flipped.convert();
    assert!(!params.block_align);
    assert!(params.conservative);
}

#[test]
fn default_options_convert_to_default_parameters() {
    let chart = ChartOptions::default().convert();
    assert_eq!(chart.proxy_fit_metric_weight.to_bits(), 0x4000_0000);
    assert_eq!(chart.roundness_metric_weight.to_bits(), 0x3C23_D70A);
    assert_eq!(chart.straightness_metric_weight.to_bits(), 0x40C0_0000);
    assert_eq!(chart.normal_seam_metric_weight.to_bits(), 0x4080_0000);
    assert_eq!(chart.texture_seam_metric_weight.to_bits(), 0x3F00_0000);
    assert_eq!(chart.max_chart_area.to_bits(), 0);
    assert_eq!(chart.max_boundary_length.to_bits(), 0);
    assert_eq!(chart.max_threshold.to_bits(), 0x4000_0000);
    assert_eq!(chart.grow_face_count, 32);
    assert_eq!(chart.max_iterations, 1);

    let pack = PackOptions::default().convert();
    assert_eq!(pack.attempts, 4096);
    assert_eq!(pack.max_chart_size, 1024);
}
