use climage::{BilateralFilter, ClContext, ClImageBuffer, GaussianBlur, Rgba8};

fn channels(p: Rgba8) -> [f32; 4] {
    [p.r as f32 / 255.0, p.g as f32 / 255.0, p.b as f32 / 255.0, p.a as f32 / 255.0]
}

fn gaussian_at(f: &GaussianBlur, img: &ClImageBuffer, x: u32, y: u32) -> [f32; 4] {
    let div = f.divisor() as f32;
    let raw: Vec<f32> = f.distances().iter().map(|d| (-(*d as f32) / div).exp()).collect();
    let total: f32 = raw.iter().sum();
    let samples = f.window(img, x, y);
    let mut sum = [0.0f32; 4];
    for (k, p) in samples.iter().enumerate() {
        let c = channels(*p);
        for n in 0..4 {
            sum[n] += raw[k] / total * c[n];
        }
    }
    sum
}

fn bilateral_at(f: &BilateralFilter, img: &ClImageBuffer, x: u32, y: u32) -> [f32; 4] {
    let div = f.divisor() as f32;
    let color_div = f.color_divisor() as f32;
    let centre = channels(img.get(x, y));
    let found = f.window(img, x, y);
    let mut sum = [0.0f32; 4];
    let mut total = [0.0f32; 4];
    for (k, n) in found.iter().enumerate() {
        if let Some(p) = n {
            let c = channels(*p);
            let spatial = (-(f.distances()[k] as f32) / div).exp();
            for n in 0..4 {
                let dp = centre[n] - c[n];
                let weight = spatial * (-(dp * dp) / color_div).exp();
                sum[n] += weight * c[n];
                total[n] += weight;
            }
        }
    }
    [sum[0] / total[0], sum[1] / total[1], sum[2] / total[2], sum[3] / total[3]]
}

fn edge_image(c: &ClContext) -> ClImageBuffer {
    let black = Rgba8 { r: 0, g: 0, b: 0, a: 255 };
    let white = Rgba8 { r: 255, g: 255, b: 255, a: 255 };
    let mut pixels = Vec::new();
    for _y in 0..6 {
        for x in 0..6 {
            pixels.push(if x < 3 { black } else { white });
        }
    }
    ClImageBuffer::from_readonly_host_image(c, 6, 6, pixels).unwrap()
}

#[test]
fn gaussian_blur_fixes_a_constant_image_away_from_the_border() {
    let c = ClContext::create(1, true).unwrap();
    let p = Rgba8 { r: 90, g: 180, b: 30, a: 255 };
    let img = ClImageBuffer::from_readonly_host_image(&c, 7, 7, vec![p; 49]).unwrap();
    let f = GaussianBlur::new(&c, 2);
    let want = channels(p);
    for y in 2..5 {
        for x in 2..5 {
            let got = gaussian_at(&f, &img, x, y);
            for n in 0..4 {
                assert!((got[n] - want[n]).abs() < 1e-5);
            }
        }
    }
}

#[test]
fn gaussian_blur_darkens_toward_the_border() {
    let c = ClContext::create(1, true).unwrap();
    let p = Rgba8 { r: 255, g: 255, b: 255, a: 255 };
    let img = ClImageBuffer::from_readonly_host_image(&c, 5, 5, vec![p; 25]).unwrap();
    let f = GaussianBlur::new(&c, 1);
    let corner = gaussian_at(&f, &img, 0, 0);
    let inner = gaussian_at(&f, &img, 2, 2);
    assert!((inner[0] - 1.0).abs() < 1e-5);
    assert!(corner[0] < 0.9);
    assert!(corner[3] < 0.9);
}

#[test]
fn bilateral_filter_fixes_a_constant_image_everywhere() {
    let c = ClContext::create(1, true).unwrap();
    let p = Rgba8 { r: 17, g: 200, b: 99, a: 128 };
    let img = ClImageBuffer::from_readonly_host_image(&c, 5, 4, vec![p; 20]).unwrap();
    let f = BilateralFilter::new(&c, 3, 2);
    let want = channels(p);
    for y in 0..4 {
        for x in 0..5 {
            let got = bilateral_at(&f, &img, x, y);
            for n in 0..4 {
                assert!((got[n] - want[n]).abs() < 1e-5);
            }
        }
    }
}

#[test]
fn bilateral_filter_keeps_more_of_an_edge_than_gaussian_blur() {
    let c = ClContext::create(1, true).unwrap();
    let img = edge_image(&c);
    let g = GaussianBlur::new(&c, 2);
    let b = BilateralFilter::new(&c, 1, 2);
    for (x, before) in [(2u32, 0.0f32), (3u32, 1.0f32)] {
        let blurred = gaussian_at(&g, &img, x, 2)[0];
        let kept = bilateral_at(&b, &img, x, 2)[0];
        let moved_by_gaussian = (blurred - before) * (blurred - before);
        let moved_by_bilateral = (kept - before) * (kept - before);
        assert!(moved_by_gaussian > 0.0);
        assert!(moved_by_bilateral < moved_by_gaussian);
    }
}
