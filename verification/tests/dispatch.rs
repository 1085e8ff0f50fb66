use climage::{
    BilateralFilter, ClContext, ClError, ClImageBuffer, GaussianBlur, Gray, HFlip, ImageProc,
    KernelArg, KernelKind, Rgba8, VFlip,
};

fn blank(c: &ClContext, w: u32, h: u32, source: bool) -> ClImageBuffer {
    let pixels = vec![Rgba8 { r: 0, g: 0, b: 0, a: 0 }; (w * h) as usize];
    if source {
        ClImageBuffer::from_readonly_host_image(c, w, h, pixels).unwrap()
    } else {
        ClImageBuffer::from_writeonly_host_image(c, w, h, pixels).unwrap()
    }
}

#[test]
fn run_before_build_is_an_order_violation() {
    let c = ClContext::create(1, true).unwrap();
    assert_eq!(Gray::new(&c).run().unwrap_err(), ClError::PrecallOrderViolation);
    assert_eq!(HFlip::new(&c).run().unwrap_err(), ClError::PrecallOrderViolation);
    assert_eq!(VFlip::new(&c).run().unwrap_err(), ClError::PrecallOrderViolation);
    assert_eq!(GaussianBlur::new(&c, 1).run().unwrap_err(), ClError::PrecallOrderViolation);
    assert_eq!(BilateralFilter::new(&c, 1, 1).run().unwrap_err(), ClError::PrecallOrderViolation);
}

#[test]
fn kernel_names() {
    assert_eq!(KernelKind::Grayscale.name(), "grayscale");
    assert_eq!(KernelKind::HorizontalFlip.name(), "hflip");
    assert_eq!(KernelKind::VerticalFlip.name(), "vflip");
    assert_eq!(KernelKind::GaussianBlur.name(), "gaussian_blur");
    assert_eq!(KernelKind::BilateralFilter.name(), "bilateral_filter");
}

#[test]
fn gray_binds_source_then_destination() {
    let c = ClContext::create(1, true).unwrap();
    let src = blank(&c, 4, 3, true);
    let mut dst = blank(&c, 4, 3, false);
    let mut f = Gray::new(&c);
    let d = f.build_kernel(&src, &mut dst).run().unwrap();
    assert_eq!(d.kind, KernelKind::Grayscale);
    assert_eq!(d.extent, (4, 3));
    assert_eq!(
        d.args,
        vec![
            KernelArg::SourceImage { width: 4, height: 3 },
            KernelArg::DestinationImage { width: 4, height: 3 },
        ]
    );
    assert_eq!(dst.dimensions(), (4, 3));
}

#[test]
fn flips_bind_their_own_kernels() {
    let c = ClContext::create(1, true).unwrap();
    let src = blank(&c, 2, 5, true);
    let mut dst = blank(&c, 2, 5, false);
    let mut h = HFlip::new(&c);
    let mut v = VFlip::new(&c);
    let dh = h.build_kernel(&src, &mut dst).run().unwrap();
    assert_eq!(dh.kind, KernelKind::HorizontalFlip);
    assert_eq!(dh.extent, (2, 5));
    assert_eq!(dh.args.len(), 2);
    let dv = v.build_kernel(&src, &mut dst).run().unwrap();
    assert_eq!(dv.kind, KernelKind::VerticalFlip);
    assert_eq!(dv.extent, (2, 5));
    assert_eq!(dv.args.len(), 2);
}

#[test]
fn gaussian_binds_weights_and_sigma_last() {
    let c = ClContext::create(1, true).unwrap();
    let src = blank(&c, 6, 2, true);
    let mut dst = blank(&c, 6, 2, false);
    let mut f = GaussianBlur::new(&c, 3);
    let d = f.build_kernel(&src, &mut dst).run().unwrap();
    assert_eq!(d.kind, KernelKind::GaussianBlur);
    assert_eq!(d.extent, (6, 2));
    assert_eq!(
        d.args,
        vec![
            KernelArg::SourceImage { width: 6, height: 2 },
            KernelArg::DestinationImage { width: 6, height: 2 },
            KernelArg::Weights { len: 49 },
            KernelArg::Scalar { value: 3 },
        ]
    );
    assert_eq!(f.sigma(), 3);
    assert_eq!(f.distances().len(), 49);
}

#[test]
fn bilateral_binds_weights_color_then_space() {
    let c = ClContext::create(1, true).unwrap();
    let src = blank(&c, 3, 3, true);
    let mut dst = blank(&c, 3, 3, false);
    let mut f = BilateralFilter::new(&c, 12, 2);
    let d = f.build_kernel(&src, &mut dst).run().unwrap();
    assert_eq!(d.kind, KernelKind::BilateralFilter);
    assert_eq!(d.extent, (3, 3));
    assert_eq!(
        d.args,
        vec![
            KernelArg::SourceImage { width: 3, height: 3 },
            KernelArg::DestinationImage { width: 3, height: 3 },
            KernelArg::Weights { len: 25 },
            KernelArg::Scalar { value: 12 },
            KernelArg::Scalar { value: 2 },
        ]
    );
}

#[test]
fn extent_is_the_source_whatever_the_destination() {
    let c = ClContext::create(1, true).unwrap();
    let src = blank(&c, 8, 4, true);
    let mut dst = blank(&c, 2, 9, false);
    let mut f = VFlip::new(&c);
    let d = f.build_kernel(&src, &mut dst).run().unwrap();
    assert_eq!(d.extent, (8, 4));
    assert_eq!(
        d.args,
        vec![
            KernelArg::SourceImage { width: 8, height: 4 },
            KernelArg::DestinationImage { width: 2, height: 9 },
        ]
    );
    assert_eq!(dst.dimensions(), (2, 9));
}

#[test]
fn rebuilding_replaces_the_binding() {
    let c = ClContext::create(1, true).unwrap();
    let a = blank(&c, 1, 1, true);
    let b = blank(&c, 7, 5, true);
    let mut dst = blank(&c, 7, 5, false);
    let mut f = HFlip::new(&c);
    f.build_kernel(&a, &mut dst);
    assert_eq!(f.run().unwrap().extent, (1, 1));
    f.build_kernel(&b, &mut dst);
    assert_eq!(f.run().unwrap().extent, (7, 5));
    assert_eq!(f.run().unwrap().extent, (7, 5));
}
