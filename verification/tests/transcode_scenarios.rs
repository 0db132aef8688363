use img_optim::anim_path::{encode_animation, is_multi_frame, transcode_animation};
use img_optim::extern_anim::FrameData;
use img_optim::static_path::{thumbnail, transcode_static};
use img_optim::ImgError;

fn make_png(width: u32, height: u32) -> Vec<u8> {
    let img = image::RgbaImage::from_fn(width, height, |x, y| {
        image::Rgba([(x % 256) as u8, (y % 256) as u8, ((x + y) % 256) as u8, 255])
    });
    let mut bytes: Vec<u8> = Vec::new();
    image::DynamicImage::ImageRgba8(img)
        .write_to(&mut std::io::Cursor::new(&mut bytes), image::ImageFormat::Png)
        .unwrap();
    bytes
}

fn make_gif(width: u16, height: u16, delays_cs: &[u16]) -> Vec<u8> {
    let mut bytes: Vec<u8> = Vec::new();
    {
        let mut encoder = gif::Encoder::new(&mut bytes, width, height, &[]).unwrap();
        for (i, delay) in delays_cs.iter().enumerate() {
            let shade = (40 * (i + 1)) as u8;
            let mut pixels: Vec<u8> = std::iter::repeat([shade, 0, 255 - shade, 255])
                .take(width as usize * height as usize)
                .flatten()
                .collect();
            let mut frame = gif::Frame::from_rgba(width, height, &mut pixels);
            frame.delay = *delay;
            encoder.write_frame(&frame).unwrap();
        }
    }
    bytes
}

#[test]
fn static_wide_source_is_capped_and_truncated() {
    // A 1600x900 still image under a 1200 px cap comes out 1200x675.
    let bytes = make_png(1600, 900);
    let out = transcode_static("input.png", &bytes, 1200, 80).unwrap();
    assert_eq!(out.out_path, "input.webp");
    assert_eq!(out.before, bytes.len() as u64);
    assert_eq!(out.after, out.data.len() as u64);
    assert_eq!((out.src_w, out.src_h), (1600, 900));
    assert_eq!((out.out_w, out.out_h), (1200, 675));
    assert!(out.resampled);
    // The written container really has the computed dimensions.
    let decoded = webp::Decoder::new(&out.data).decode().unwrap();
    assert_eq!((decoded.width(), decoded.height()), (1200, 675));
}

#[test]
fn static_narrow_source_is_untouched() {
    let bytes = make_png(800, 600);
    let out = transcode_static("a/b.png", &bytes, 1200, 80).unwrap();
    assert_eq!(out.out_path, "a/b.webp");
    assert!(!out.resampled);
    assert_eq!((out.out_w, out.out_h), (800, 600));
    let decoded = webp::Decoder::new(&out.data).decode().unwrap();
    assert_eq!((decoded.width(), decoded.height()), (800, 600));
}

#[test]
fn garbage_bytes_fail_to_decode() {
    let bytes = vec![0u8, 1, 2, 3, 4, 5, 6, 7];
    let r = transcode_static("x.png", &bytes, 1200, 80);
    assert!(matches!(r, Err(ImgError::Decode(_))));
}

#[test]
fn out_of_range_quality_is_rejected_at_the_encoder() {
    let bytes = make_png(10, 10);
    let r = transcode_static("x.png", &bytes, 1200, 101);
    assert!(matches!(r, Err(ImgError::Encode(_))));
}

#[test]
fn quality_dial_trades_size_for_fidelity() {
    let bytes = make_png(300, 200);
    let low = transcode_static("x.png", &bytes, 1200, 10).unwrap();
    let high = transcode_static("x.png", &bytes, 1200, 95).unwrap();
    assert!(low.after < high.after);
}

#[test]
fn thumbnail_narrower_than_cap_keeps_dimensions() {
    // A 400x300 source asked for a 600 px thumbnail: no upscaling, the
    // dimensions pass through unchanged.
    let bytes = make_png(400, 300);
    let out = thumbnail("photos/pic.png", &bytes).unwrap();
    assert_eq!(out.out_path, "photos/pic-thumb.webp");
    assert!(!out.resampled);
    assert_eq!((out.out_w, out.out_h), (400, 300));
    assert_eq!(out.after, out.data.len() as u64);
    let decoded = webp::Decoder::new(&out.data).decode().unwrap();
    assert_eq!((decoded.width(), decoded.height()), (400, 300));
}

#[test]
fn thumbnail_wide_source_is_reduced() {
    let bytes = make_png(1200, 600);
    let out = thumbnail("pic.png", &bytes).unwrap();
    assert!(out.resampled);
    assert_eq!((out.out_w, out.out_h), (600, 300));
    let decoded = webp::Decoder::new(&out.data).decode().unwrap();
    assert_eq!((decoded.width(), decoded.height()), (600, 300));
}

#[test]
fn single_frame_gif_is_not_multi_frame() {
    let bytes = make_gif(8, 8, &[10]);
    assert!(!is_multi_frame("still.gif", &bytes));
    // It routes through the static path and produces a still output.
    let out = transcode_static("still.gif", &bytes, 1200, 80).unwrap();
    assert_eq!(out.out_path, "still.webp");
    let decoded = webp::Decoder::new(&out.data).decode().unwrap();
    assert_eq!((decoded.width(), decoded.height()), (8, 8));
}

#[test]
fn multi_frame_gif_is_classified_animated() {
    let bytes = make_gif(8, 8, &[5, 10]);
    assert!(is_multi_frame("anim.gif", &bytes));
}

#[test]
fn classification_requires_gif_name() {
    let bytes = make_gif(8, 8, &[5, 10]);
    assert!(!is_multi_frame("anim.png", &bytes));
    assert!(!is_multi_frame("anim", &bytes));
}

#[test]
fn classification_rejects_non_gif_bytes() {
    let bytes = make_png(8, 8);
    assert!(!is_multi_frame("fake.gif", &bytes));
}

#[test]
fn animation_rebuilds_timeline_with_delay_floor() {
    // Three frames with delays 5, 0 and 10 hundredths of a second are
    // appended at 0, 50 and 70 ms; the zero delay is floored to 20 ms and
    // the encoder is finalized at 170 ms.
    let bytes = make_gif(16, 16, &[5, 0, 10]);
    let out = transcode_animation("anim.gif", &bytes, 1200, 80).unwrap();
    assert_eq!(out.out_path, "anim.webp");
    assert_eq!(out.before, bytes.len() as u64);
    assert_eq!(out.after, out.data.len() as u64);
    assert_eq!(out.frame_count, 3);
    assert_eq!(out.total_ms, 170);
    assert_eq!((out.src_w, out.src_h), (16, 16));
    assert_eq!((out.canvas_w, out.canvas_h), (16, 16));

    // Decode the container: three frames on the same canvas. The decoder
    // reports each frame's end time, so the appended timestamps 0, 50 and
    // 70 with a final duration of 170 read back as 50, 70 and 170.
    let decoder = webp_animation::Decoder::new(&out.data).unwrap();
    let frames: Vec<webp_animation::Frame> = decoder.into_iter().collect();
    assert_eq!(frames.len(), 3);
    let ends: Vec<i32> = frames.iter().map(|f| f.timestamp()).collect();
    assert_eq!(ends, vec![50, 70, 170]);
    for f in &frames {
        assert_eq!(f.dimensions(), (16, 16));
    }
}

#[test]
fn animation_shares_one_downscaled_canvas() {
    // A 40x20 animation capped at 30 px: every frame of the output sits on
    // the same 30x15 canvas.
    let bytes = make_gif(40, 20, &[5, 5, 5]);
    let out = transcode_animation("wide.gif", &bytes, 30, 80).unwrap();
    assert_eq!(out.frame_count, 3);
    assert_eq!((out.canvas_w, out.canvas_h), (30, 15));
    let decoder = webp_animation::Decoder::new(&out.data).unwrap();
    let frames: Vec<webp_animation::Frame> = decoder.into_iter().collect();
    assert_eq!(frames.len(), 3);
    for f in &frames {
        assert_eq!(f.dimensions(), (30, 15));
    }
}

#[test]
fn animation_transcode_rejects_non_gif_bytes() {
    let bytes = make_png(8, 8);
    let r = transcode_animation("fake.gif", &bytes, 1200, 80);
    assert!(matches!(r, Err(ImgError::Decode(_))));
}

#[test]
fn encode_animation_counts_every_frame() {
    let frames: Vec<FrameData> = (0..4)
        .map(|i| FrameData { rgba: vec![i as u8; 4 * 6 * 4], delay_cs: 2 })
        .collect();
    let out = encode_animation(&frames, 6, 4, 100, 80).unwrap();
    assert_eq!(out.frame_count, 4);
    // Four frames of 20 ms each.
    assert_eq!(out.total_ms, 80);
    assert_eq!((out.canvas_w, out.canvas_h), (6, 4));
}

#[test]
fn encode_animation_rejects_misshapen_frames() {
    let frames = vec![FrameData { rgba: vec![0u8; 7], delay_cs: 5 }];
    let r = encode_animation(&frames, 6, 4, 100, 80);
    assert!(matches!(r, Err(ImgError::Encode(_))));
}

#[test]
fn encode_animation_rejects_empty_sequences() {
    let frames: Vec<FrameData> = Vec::new();
    let r = encode_animation(&frames, 6, 4, 100, 80);
    assert!(r.is_err());
}
