use wgimage::{create_kernel, kernel_size, Kernel};

fn gaussian(sigma: f32) -> impl Fn(u32) -> f32 {
    move |distance: u32| {
        let x = distance as f32;
        0.39894 * (-0.5 * x * x / (sigma * sigma)).exp() / sigma
    }
}

fn radius_of(sigma: f32) -> u32 {
    (sigma * 3.0).ceil() as u32
}

#[test]
fn kernel_size_is_odd() {
    assert_eq!(kernel_size(0), 1);
    assert_eq!(kernel_size(1), 3);
    assert_eq!(kernel_size(15), 31);
    assert_eq!(kernel_size(0x7fff_ffff), u32::MAX);
}

#[test]
fn kernel_of_sigma_five_has_thirty_one_weights() {
    let kernel = create_kernel(radius_of(5.0), gaussian(5.0), 0.0f32, |a, b| a + b);
    assert_eq!(kernel.size(), 31);
    assert_eq!(kernel.values.len(), 31);
}

#[test]
fn kernel_of_sigma_five_is_symmetric() {
    let kernel = create_kernel(radius_of(5.0), gaussian(5.0), 0.0f32, |a, b| a + b);
    let size = kernel.size();
    for i in 0..size {
        assert_eq!(kernel.values[i], kernel.values[size - 1 - i]);
    }
}

#[test]
fn kernel_of_sigma_five_peaks_at_the_centre() {
    let kernel = create_kernel(radius_of(5.0), gaussian(5.0), 0.0f32, |a, b| a + b);
    assert_eq!(kernel.values[15], 0.39894f32 / 5.0);
    assert_eq!(kernel.values[16], gaussian(5.0)(1));
    assert_eq!(kernel.values[0], gaussian(5.0)(15));
    for i in 0..15 {
        assert!(kernel.values[i] < kernel.values[i + 1]);
    }
}

#[test]
fn kernel_sum_is_the_sum_of_its_weights() {
    let kernel = create_kernel(radius_of(5.0), gaussian(5.0), 0.0f32, |a, b| a + b);
    let sum: f32 = kernel.values.iter().sum();
    assert!((kernel.sum - sum).abs() < 1e-6);
    assert!((kernel.sum - 1.0).abs() < 0.01);
    let packed = kernel.packed_data();
    assert!((packed[0] - sum).abs() < 1e-6);
}

#[test]
fn packed_kernel_is_the_sum_then_the_weights() {
    let kernel = create_kernel(radius_of(5.0), gaussian(5.0), 0.0f32, |a, b| a + b);
    let packed = kernel.packed_data();
    assert_eq!(packed.len(), 32);
    assert_eq!(packed[0], kernel.sum);
    assert_eq!(&packed[1..], &kernel.values[..]);
}

#[test]
fn kernel_of_radius_zero_is_a_single_weight() {
    let kernel = create_kernel(0, |_| 7u32, 0u32, |a, b| a + b);
    assert_eq!(kernel.size(), 1);
    assert_eq!(kernel.values, vec![7]);
    assert_eq!(kernel.sum, 7);
    assert_eq!(kernel.packed_data(), vec![7, 7]);
}

#[test]
fn kernel_weights_mirror_around_the_centre() {
    let kernel = create_kernel(3, |distance| 10 - distance, 0u32, |a, b| a + b);
    assert_eq!(kernel.values, vec![7, 8, 9, 10, 9, 8, 7]);
    assert_eq!(kernel.sum, 58);
    assert_eq!(kernel.packed_data(), vec![58, 7, 8, 9, 10, 9, 8, 7]);
}

#[test]
fn kernel_sum_adds_from_first_to_last() {
    let kernel = Kernel::new(
        vec!["a".to_string(), "b".to_string(), "c".to_string()]
            .iter()
            .map(|s| s.len() as u64 * 10)
            .collect(),
        1u64,
        |a, b| a * 2 + b,
    );
    assert_eq!(kernel.sum, ((1 * 2 + 10) * 2 + 10) * 2 + 10);
    assert_eq!(kernel.size(), 3);
}

#[test]
fn kernel_of_no_weights_sums_to_zero() {
    let kernel = Kernel::new(Vec::<i32>::new(), 0, |a, b| a + b);
    assert_eq!(kernel.sum, 0);
    assert_eq!(kernel.size(), 0);
    assert_eq!(kernel.packed_data(), vec![0]);
}
