use img_optim::batch::{process_image, MainOutcome, ProcessOutcome, Totals};

fn make_png(width: u32, height: u32) -> Vec<u8> {
    let img = image::RgbaImage::from_fn(width, height, |x, y| {
        image::Rgba([(x % 256) as u8, (y % 256) as u8, 128, 255])
    });
    let mut bytes: Vec<u8> = Vec::new();
    image::DynamicImage::ImageRgba8(img)
        .write_to(&mut std::io::Cursor::new(&mut bytes), image::ImageFormat::Png)
        .unwrap();
    bytes
}

fn make_gif(width: u16, height: u16, delays_cs: &[u16]) -> Vec<u8> {
    let mut bytes: Vec<u8> = Vec::new();
    {
        let mut encoder = gif::Encoder::new(&mut bytes, width, height, &[]).unwrap();
        for (i, delay) in delays_cs.iter().enumerate() {
            let shade = (60 * (i + 1)) as u8;
            let mut pixels: Vec<u8> = std::iter::repeat([shade, shade, shade, 255])
                .take(width as usize * height as usize)
                .flatten()
                .collect();
            let mut frame = gif::Frame::from_rgba(width, height, &mut pixels);
            frame.delay = *delay;
            encoder.write_frame(&frame).unwrap();
        }
    }
    bytes
}

#[test]
fn still_source_goes_through_static_path_with_thumbnail() {
    let bytes = make_png(700, 350);
    let outcome = process_image("pic.png", &bytes, 1200, 80, true);
    assert!(!outcome.was_animated);
    match &outcome.main {
        MainOutcome::Still(o) => {
            assert_eq!(o.out_path, "pic.webp");
            assert_eq!((o.out_w, o.out_h), (700, 350));
        }
        _ => panic!("expected the still path"),
    }
    match &outcome.thumb {
        Some(Ok(t)) => {
            assert_eq!(t.out_path, "pic-thumb.webp");
            // 700x350 capped at the 600 px thumbnail width.
            assert_eq!((t.out_w, t.out_h), (600, 300));
        }
        _ => panic!("expected a thumbnail"),
    }
}

#[test]
fn no_thumbnail_unless_requested() {
    let bytes = make_png(100, 100);
    let outcome = process_image("pic.png", &bytes, 1200, 80, false);
    assert!(outcome.thumb.is_none());
}

#[test]
fn animated_source_never_gets_a_thumbnail() {
    // Even with thumbnails requested, a multi-frame source produces none.
    let bytes = make_gif(10, 10, &[5, 5]);
    let outcome = process_image("anim.gif", &bytes, 1200, 80, true);
    assert!(outcome.was_animated);
    assert!(outcome.thumb.is_none());
    match &outcome.main {
        MainOutcome::Animated(o) => {
            assert_eq!(o.out_path, "anim.webp");
            assert_eq!(o.frame_count, 2);
        }
        _ => panic!("expected the animated path"),
    }
}

#[test]
fn single_frame_gif_routes_static() {
    let bytes = make_gif(10, 10, &[5]);
    let outcome = process_image("one.gif", &bytes, 1200, 80, false);
    assert!(!outcome.was_animated);
    assert!(matches!(outcome.main, MainOutcome::Still(_)));
}

#[test]
fn unreadable_source_is_reported_not_fatal() {
    let bytes = vec![9u8; 16];
    let outcome = process_image("bad.png", &bytes, 1200, 80, true);
    assert!(!outcome.was_animated);
    assert!(matches!(outcome.main, MainOutcome::Failed(_)));
    assert!(outcome.thumb.is_none());
}

#[test]
fn totals_fold_main_and_thumbnail_bytes() {
    let png = make_png(700, 350);
    let with_thumb = process_image("pic.png", &png, 1200, 80, true);
    let failed = process_image("bad.png", &vec![0u8; 4], 1200, 80, true);

    let mut expected_before = 0u64;
    let mut expected_after = 0u64;
    if let MainOutcome::Still(o) = &with_thumb.main {
        expected_before += o.before;
        expected_after += o.after;
    }
    if let Some(Ok(t)) = &with_thumb.thumb {
        expected_after += t.after;
    }

    let totals = Totals::new().record(&with_thumb).record(&failed);
    assert_eq!(totals.before, expected_before);
    assert_eq!(totals.after, expected_after);
}

#[test]
fn totals_saturate_instead_of_wrapping() {
    let png = make_png(10, 10);
    let outcome: ProcessOutcome = process_image("pic.png", &png, 1200, 80, false);
    let huge = Totals { before: u64::MAX - 1, after: u64::MAX - 1 };
    let folded = huge.record(&outcome);
    assert_eq!(folded.before, u64::MAX);
    assert_eq!(folded.after, u64::MAX);
}
