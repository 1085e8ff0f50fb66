use climage::weights::{exponent_divisor, squared_distances, weight_index, weight_size, MAX_SIGMA};
use climage::{BilateralFilter, ClContext, GaussianBlur};

#[test]
fn size_is_the_square_of_the_side() {
    assert_eq!(weight_size(1), 9);
    assert_eq!(weight_size(2), 25);
    assert_eq!(weight_size(10), 441);
    assert_eq!(weight_size(MAX_SIGMA), 46339 * 46339);
}

#[test]
fn index_follows_the_row_major_layout() {
    assert_eq!(weight_index(-1, -1, 1), 0);
    assert_eq!(weight_index(0, -1, 1), 1);
    assert_eq!(weight_index(1, -1, 1), 2);
    assert_eq!(weight_index(-1, 0, 1), 3);
    assert_eq!(weight_index(0, 0, 1), 4);
    assert_eq!(weight_index(1, 1, 1), 8);
    assert_eq!(weight_index(0, 0, 2), 12);
    assert_eq!(weight_index(2, -2, 2), 4);
    assert_eq!(weight_index(-2, 2, 2), 20);
    assert_eq!(weight_index(1, 2, 3), 4 + 5 * 7);
}

#[test]
fn index_covers_the_table_once() {
    let sigma = 3;
    let mut seen = vec![false; weight_size(sigma)];
    for j in -sigma..=sigma {
        for i in -sigma..=sigma {
            let at = weight_index(i, j, sigma);
            assert!(!seen[at]);
            seen[at] = true;
        }
    }
    assert!(seen.iter().all(|s| *s));
}

#[test]
fn squared_distances_of_radius_one() {
    assert_eq!(squared_distances(1), vec![2, 1, 2, 1, 0, 1, 2, 1, 2]);
}

#[test]
fn squared_distances_of_radius_two() {
    let t = squared_distances(2);
    assert_eq!(t.len(), 25);
    assert_eq!(
        t,
        vec![8, 5, 4, 5, 8, 5, 2, 1, 2, 5, 4, 1, 0, 1, 4, 5, 2, 1, 2, 5, 8, 5, 4, 5, 8]
    );
    assert_eq!(t[weight_index(-2, 1, 2)], 5);
    assert_eq!(t[weight_index(0, 0, 2)], 0);
}

#[test]
fn divisor_is_twice_the_square() {
    assert_eq!(exponent_divisor(1), 2);
    assert_eq!(exponent_divisor(3), 18);
    assert_eq!(exponent_divisor(MAX_SIGMA), 1_073_605_122);
}

#[test]
fn gaussian_filter_holds_its_table() {
    let c = ClContext::create(1, true).unwrap();
    let f = GaussianBlur::new(&c, 2);
    assert_eq!(f.sigma(), 2);
    assert_eq!(f.divisor(), 8);
    assert_eq!(f.distances(), &squared_distances(2));
}

#[test]
fn bilateral_filter_holds_its_table() {
    let c = ClContext::create(1, true).unwrap();
    let f = BilateralFilter::new(&c, 5, 1);
    assert_eq!(f.sigma_color(), 5);
    assert_eq!(f.sigma_space(), 1);
    assert_eq!(f.divisor(), 2);
    assert_eq!(f.color_divisor(), 50);
    assert_eq!(f.distances(), &vec![2, 1, 2, 1, 0, 1, 2, 1, 2]);
    let g = BilateralFilter::new(&c, i32::MAX, 1);
    assert_eq!(g.color_divisor(), 2 * 2147483647u64 * 2147483647u64);
}

#[test]
fn table_entries_stay_under_the_divisor() {
    for sigma in 1..12 {
        let t = squared_distances(sigma);
        let div = exponent_divisor(sigma);
        assert_eq!(t[weight_index(0, 0, sigma)], 0);
        assert!(t.iter().all(|d| *d <= div));
        assert_eq!(t[weight_index(sigma, -sigma, sigma)], div);
    }
}

#[test]
fn filters_keep_their_context() {
    let c = ClContext::create(4, true).unwrap();
    assert_eq!(GaussianBlur::new(&c, 1).context().device_index(), 0);
    assert_eq!(BilateralFilter::new(&c, 1, 1).context().device_index(), 0);
}

#[test]
fn normalised_gaussian_weights_sum_to_one() {
    let c = ClContext::create(1, true).unwrap();
    for sigma in 1..8 {
        let f = GaussianBlur::new(&c, sigma);
        let div = f.divisor() as f32;
        let raw: Vec<f32> = f.distances().iter().map(|d| (-(*d as f32) / div).exp()).collect();
        let total: f32 = raw.iter().sum();
        let sum: f32 = raw.iter().map(|w| w / total).sum();
        assert!((sum - 1.0).abs() < 1e-5);
        let centre = raw[weight_index(0, 0, sigma)];
        assert_eq!(centre, 1.0);
        assert!(raw.iter().all(|w| *w <= centre));
    }
}
