use fitsview::bits::{NEG_INF_BITS, ONE_BITS, POS_INF_BITS, QNAN_BITS, ZERO_BITS};
use fitsview::color::map_color;
use fitsview::data::DataContainer;
use fitsview::normalize::{normalize, normalize_samples, scan_max, scan_min};
use fitsview::render::{render, RenderError};

fn bits(v: f64) -> u64 {
    v.to_bits()
}

fn val(b: u64) -> f64 {
    f64::from_bits(b)
}

fn container(samples: &[f64], shape: &[usize]) -> DataContainer {
    let s: Vec<u64> = samples.iter().map(|v| v.to_bits()).collect();
    DataContainer::new(s, shape.to_vec()).expect("shape must match sample count")
}

#[test]
fn end_to_end_two_by_two() {
    // A 2x2 image [[1, 10], [100, 1000]]: log10 gives [[0, 1], [2, 3]],
    // the scan gives min 0 and max 3, and the normalized intensities are
    // [[0, 1/3], [2/3, 1]].
    let data = container(&[1.0, 10.0, 100.0, 1000.0], &[2, 2]);
    let (field, log_min, log_max) = normalize_samples(&data.samples);
    assert_eq!(val(log_min), 0.0);
    assert_eq!(val(log_max), 3.0);
    let expected = [0.0, 1.0 / 3.0, 2.0 / 3.0, 1.0];
    for (got, want) in field.iter().zip(expected.iter()) {
        assert!((val(*got) - want).abs() < 1e-12);
    }

    let plan = render(&data, &vec![2, 2]).expect("request is valid");
    assert_eq!(plan.width, 2);
    assert_eq!(plan.height, 2);
    assert_eq!(plan.rects.len(), 4);
    let coords: Vec<(usize, usize)> = plan.rects.iter().map(|r| (r.x, r.y)).collect();
    assert_eq!(coords, vec![(0, 0), (1, 0), (0, 1), (1, 1)]);
    for (rect, want) in plan.rects.iter().zip(expected.iter()) {
        assert!((val(rect.color.lightness) - want).abs() < 1e-12);
    }
    assert_eq!(val(plan.intensity_min), 0.0);
    assert_eq!(val(plan.intensity_max), 1.0);
}

#[test]
fn normalization_stays_in_unit_range() {
    // Strictly positive samples: every intensity lies in [0, 1], and the
    // extremes 0 and 1 are both attained for a non-constant image.
    let data = container(&[2.0, 5.0, 7.0, 9.0, 3.5, 8.25], &[3, 2]);
    let (field, _, _) = normalize_samples(&data.samples);
    let values: Vec<f64> = field.iter().map(|b| val(*b)).collect();
    for v in &values {
        assert!(v.is_finite());
        assert!(*v >= 0.0 && *v <= 1.0);
    }
    assert!(values.iter().any(|v| *v == 0.0));
    assert!(values.iter().any(|v| *v == 1.0));
}

#[test]
fn degenerate_constant_image_renders_clamped() {
    // An all-equal 4x4 image: max == min, the rescale divides by zero,
    // and every color must still come out clamped and valid.
    let data = container(&[7.0; 16], &[4, 4]);
    let plan = render(&data, &vec![4, 4]).expect("request is valid");
    assert_eq!(plan.rects.len(), 16);
    for rect in &plan.rects {
        let l = val(rect.color.lightness);
        assert!(l.is_finite());
        assert!(l >= 0.0 && l <= 1.0);
        assert_eq!(l, 0.0);
    }
}

#[test]
fn render_is_idempotent() {
    let data = container(&[1.0, 10.0, 100.0, 1000.0], &[2, 2]);
    let first = render(&data, &vec![2, 2]).expect("request is valid");
    let second = render(&data, &vec![2, 2]).expect("request is valid");
    assert_eq!(first, second);
}

#[test]
fn mismatched_shape_is_rejected() {
    let data = container(&[1.0, 2.0, 3.0, 4.0, 5.0, 6.0], &[2, 3]);
    assert_eq!(render(&data, &vec![3, 2]), Err(RenderError::ShapeMismatch));
    assert_eq!(render(&data, &vec![2, 3, 1]), Err(RenderError::ShapeMismatch));
    assert!(render(&data, &vec![2, 3]).is_ok());
}

#[test]
fn non_two_dimensional_is_rejected() {
    let data = container(&[1.0, 2.0, 3.0, 4.0], &[4]);
    assert_eq!(render(&data, &vec![4]), Err(RenderError::NotTwoDimensional));
    let empty = container(&[], &[0, 5]);
    assert_eq!(render(&empty, &vec![0, 5]), Err(RenderError::EmptyAxis));
}

#[test]
fn zero_samples_degenerate_safely() {
    // log10(0) is -infinity; the rescale then produces NaNs, which the
    // color mapper clamps to 0.
    let data = container(&[0.0, 10.0], &[2, 1]);
    let plan = render(&data, &vec![2, 1]).expect("request is valid");
    for rect in &plan.rects {
        assert_eq!(val(rect.color.lightness), 0.0);
    }
}

#[test]
fn negative_samples_degenerate_safely() {
    // log10 of a negative sample is NaN; the scan skips it, the rescale
    // divides zero by zero, and every color clamps to 0.
    let data = container(&[-5.0, 10.0], &[2, 1]);
    let plan = render(&data, &vec![2, 1]).expect("request is valid");
    for rect in &plan.rects {
        assert_eq!(val(rect.color.lightness), 0.0);
    }
}

#[test]
fn normalize_keeps_shape() {
    let data = container(&[1.0, 10.0, 100.0, 1000.0, 2.0, 20.0], &[3, 2]);
    let norm = normalize(&data);
    assert_eq!(norm.shape, vec![3, 2]);
    assert_eq!(norm.samples.len(), 6);
    // The source container is untouched.
    assert_eq!(val(data.samples[0]), 1.0);
}

#[test]
fn scan_skips_nan_and_starts_at_infinities() {
    let v = vec![bits(f64::NAN), bits(3.0), bits(2.0)];
    assert_eq!(val(scan_max(&v)), 3.0);
    assert_eq!(val(scan_min(&v)), 2.0);
    let empty: Vec<u64> = Vec::new();
    assert_eq!(scan_max(&empty), NEG_INF_BITS);
    assert_eq!(scan_min(&empty), POS_INF_BITS);
    let all_nan = vec![bits(f64::NAN), QNAN_BITS];
    assert_eq!(scan_max(&all_nan), NEG_INF_BITS);
    assert_eq!(scan_min(&all_nan), POS_INF_BITS);
    let zeros = vec![bits(-0.0), bits(0.0)];
    assert_eq!(val(scan_min(&zeros)), 0.0);
    assert_eq!(val(scan_max(&zeros)), 0.0);
}

#[test]
fn color_mapper_clamps_every_intensity() {
    assert_eq!(map_color(bits(0.5)).lightness, bits(0.5));
    assert_eq!(map_color(bits(0.0)).lightness, ZERO_BITS);
    assert_eq!(map_color(bits(1.0)).lightness, ONE_BITS);
    assert_eq!(map_color(bits(1.5)).lightness, ONE_BITS);
    assert_eq!(map_color(bits(-0.25)).lightness, ZERO_BITS);
    assert_eq!(map_color(bits(-0.0)).lightness, ZERO_BITS);
    assert_eq!(map_color(POS_INF_BITS).lightness, ONE_BITS);
    assert_eq!(map_color(NEG_INF_BITS).lightness, ZERO_BITS);
    assert_eq!(map_color(bits(f64::NAN)).lightness, ZERO_BITS);
    assert_eq!(map_color(QNAN_BITS).lightness, ZERO_BITS);
}
