use climage::kernels::{gather_window, neighbor, sample};
use climage::weights::weight_index;
use climage::{BilateralFilter, ClContext, ClImageBuffer, GaussianBlur, Rgba8};

const BLACK: Rgba8 = Rgba8 { r: 0, g: 0, b: 0, a: 0 };

fn numbered(c: &ClContext, w: u32, h: u32) -> ClImageBuffer {
    let pixels: Vec<Rgba8> = (0..w * h)
        .map(|k| Rgba8 { r: (k + 1) as u8, g: (k * 2) as u8, b: (k * 5) as u8, a: 255 })
        .collect();
    ClImageBuffer::from_readonly_host_image(c, w, h, pixels).unwrap()
}

#[test]
fn neighbor_inside_and_outside() {
    let c = ClContext::create(1, true).unwrap();
    let img = numbered(&c, 3, 2);
    assert_eq!(neighbor(&img, 0, 0), Some(img.get(0, 0)));
    assert_eq!(neighbor(&img, 2, 1), Some(img.get(2, 1)));
    assert_eq!(neighbor(&img, -1, 0), None);
    assert_eq!(neighbor(&img, 0, -1), None);
    assert_eq!(neighbor(&img, 3, 0), None);
    assert_eq!(neighbor(&img, 0, 2), None);
    assert_eq!(neighbor(&img, i64::MAX, i64::MIN), None);
}

#[test]
fn sample_outside_is_transparent_black() {
    let c = ClContext::create(1, true).unwrap();
    let img = numbered(&c, 3, 2);
    assert_eq!(sample(&img, 1, 1), img.get(1, 1));
    assert_eq!(sample(&img, -1, 1), BLACK);
    assert_eq!(sample(&img, 1, 2), BLACK);
    assert_eq!(sample(&img, 3, -4), BLACK);
}

#[test]
fn window_of_an_inner_pixel_finds_every_neighbour() {
    let c = ClContext::create(1, true).unwrap();
    let img = numbered(&c, 3, 3);
    let w = gather_window(&img, 1, 1, 1);
    let want: Vec<Option<Rgba8>> = img.download().into_iter().map(Some).collect();
    assert_eq!(w, want);
}

#[test]
fn window_of_a_corner_skips_what_lies_outside() {
    let c = ClContext::create(1, true).unwrap();
    let img = numbered(&c, 3, 3);
    let w = gather_window(&img, 0, 0, 1);
    assert_eq!(w.len(), 9);
    assert_eq!(
        w,
        vec![
            None,
            None,
            None,
            None,
            Some(img.get(0, 0)),
            Some(img.get(1, 0)),
            None,
            Some(img.get(0, 1)),
            Some(img.get(1, 1)),
        ]
    );
    assert_eq!(w[weight_index(1, 0, 1)], Some(img.get(1, 0)));
    assert_eq!(w[weight_index(0, 1, 1)], Some(img.get(0, 1)));
}

#[test]
fn window_follows_the_table_layout() {
    let c = ClContext::create(1, true).unwrap();
    let img = numbered(&c, 7, 6);
    let sigma = 2;
    let w = gather_window(&img, 4, 3, sigma);
    assert_eq!(w.len(), 25);
    for j in -sigma..=sigma {
        for i in -sigma..=sigma {
            let (x, y) = (4 + i as i64, 3 + j as i64);
            assert_eq!(w[weight_index(i, j, sigma)], neighbor(&img, x, y));
        }
    }
}

#[test]
fn gaussian_window_reads_black_outside() {
    let c = ClContext::create(1, true).unwrap();
    let img = numbered(&c, 2, 2);
    let f = GaussianBlur::new(&c, 1);
    let w = f.window(&img, 1, 1);
    assert_eq!(
        w,
        vec![
            img.get(0, 0),
            img.get(1, 0),
            BLACK,
            img.get(0, 1),
            img.get(1, 1),
            BLACK,
            BLACK,
            BLACK,
            BLACK,
        ]
    );
}

#[test]
fn bilateral_window_skips_outside() {
    let c = ClContext::create(1, true).unwrap();
    let img = numbered(&c, 2, 2);
    let f = BilateralFilter::new(&c, 3, 1);
    let w = f.window(&img, 1, 1);
    assert_eq!(
        w,
        vec![
            Some(img.get(0, 0)),
            Some(img.get(1, 0)),
            None,
            Some(img.get(0, 1)),
            Some(img.get(1, 1)),
            None,
            None,
            None,
            None,
        ]
    );
}

#[test]
fn constant_image_has_constant_neighbours() {
    let c = ClContext::create(1, true).unwrap();
    let p = Rgba8 { r: 40, g: 50, b: 60, a: 70 };
    let img = ClImageBuffer::from_readonly_host_image(&c, 4, 3, vec![p; 12]).unwrap();
    let f = BilateralFilter::new(&c, 2, 2);
    for y in 0..3 {
        for x in 0..4 {
            let w = f.window(&img, x, y);
            assert_eq!(w[weight_index(0, 0, 2)], Some(p));
            assert!(w.iter().all(|n| n.is_none() || *n == Some(p)));
        }
    }
    let g = GaussianBlur::new(&c, 1);
    assert!(g.window(&img, 1, 1).iter().all(|s| *s == p));
    assert!(g.window(&img, 0, 0).iter().any(|s| *s == BLACK));
}

#[test]
fn bilateral_mean_of_a_constant_image_is_the_color() {
    let c = ClContext::create(1, true).unwrap();
    let p = Rgba8 { r: 200, g: 100, b: 50, a: 255 };
    let img = ClImageBuffer::from_readonly_host_image(&c, 3, 3, vec![p; 9]).unwrap();
    let f = BilateralFilter::new(&c, 4, 1);
    let div = f.divisor() as f32;
    let found = f.window(&img, 0, 2);
    let mut sum = 0.0f32;
    let mut total = 0.0f32;
    for (k, n) in found.iter().enumerate() {
        if let Some(q) = n {
            let spatial = (-(f.distances()[k] as f32) / div).exp();
            let dp = p.r as f32 / 255.0 - q.r as f32 / 255.0;
            let weight = spatial * (-(dp * dp) / (2.0 * 16.0)).exp();
            sum += weight * (q.r as f32 / 255.0);
            total += weight;
        }
    }
    assert!(((sum / total) * 255.0 - 200.0).abs() < 1e-3);
}
