use img_optim::fmt_bytes::{fmt_size, u64_to_string};
use img_optim::paths::{is_convertible, thumb_path, webp_path};
use img_optim::resize::{compute_dimensions, plan_resize};

#[test]
fn dims_pass_through_at_or_under_cap() {
    assert_eq!(compute_dimensions(1200, 675, 1200), (1200, 675));
    assert_eq!(compute_dimensions(800, 600, 1200), (800, 600));
    assert_eq!(compute_dimensions(1, 1, 1200), (1, 1));
    assert_eq!(compute_dimensions(0, 0, 1200), (0, 0));
}

#[test]
fn dims_cap_width_and_truncate_height() {
    // 1600x900 capped at 1200 -> 1200x675 exactly.
    assert_eq!(compute_dimensions(1600, 900, 1200), (1200, 675));
    // Truncation, not rounding: 1000 * 667 / 1001 = 666.33... -> 666.
    assert_eq!(compute_dimensions(1001, 667, 1000), (1000, 666));
    // A value that would round up: 999 * 500 / 1000 = 499.5 -> 499.
    assert_eq!(compute_dimensions(1000, 999, 500), (500, 499));
}

#[test]
fn plan_resamples_only_over_cap() {
    let p = plan_resize(1600, 900, 1200);
    assert!(p.resample);
    assert_eq!((p.out_w, p.out_h), (1200, 675));

    let q = plan_resize(400, 300, 600);
    assert!(!q.resample);
    assert_eq!((q.out_w, q.out_h), (400, 300));

    let r = plan_resize(600, 300, 600);
    assert!(!r.resample);
    assert_eq!((r.out_w, r.out_h), (600, 300));
}

#[test]
fn webp_path_replaces_extension() {
    assert_eq!(webp_path("input.png"), "input.webp");
    assert_eq!(webp_path("content/blog/post/hero.jpg"), "content/blog/post/hero.webp");
    assert_eq!(webp_path("a/b.tar.gz"), "a/b.tar.webp");
    // No extension: the new one is appended.
    assert_eq!(webp_path("a/image"), "a/image.webp");
    // A leading-dot file name has no extension.
    assert_eq!(webp_path("a/.gitignore"), "a/.gitignore.webp");
    // A dot in a directory name is not an extension.
    assert_eq!(webp_path("dir.gif/file"), "dir.gif/file.webp");
}

#[test]
fn thumb_path_appends_suffix_to_stem() {
    assert_eq!(thumb_path("hero.jpg"), "hero-thumb.webp");
    assert_eq!(thumb_path("content/blog/demo.gif"), "content/blog/demo-thumb.webp");
    assert_eq!(thumb_path("a/image"), "a/image-thumb.webp");
}

#[test]
fn convertible_extensions() {
    assert!(is_convertible("a.jpg"));
    assert!(is_convertible("a.jpeg"));
    assert!(is_convertible("a.png"));
    assert!(is_convertible("a.gif"));
    assert!(is_convertible("a.bmp"));
    assert!(is_convertible("a.tiff"));
    assert!(is_convertible("a.tif"));
    assert!(is_convertible("a.JPG"));
    assert!(is_convertible("photos/a.GiF"));
}

#[test]
fn not_convertible() {
    assert!(!is_convertible("a.webp"));
    assert!(!is_convertible("a.txt"));
    assert!(!is_convertible("archive.gz"));
    assert!(!is_convertible("noextension"));
    assert!(!is_convertible(".gif"));
    assert!(!is_convertible("dir.gif/file"));
    assert!(!is_convertible("a."));
    assert!(!is_convertible(""));
}

#[test]
fn decimal_rendering() {
    assert_eq!(u64_to_string(0), "0");
    assert_eq!(u64_to_string(7), "7");
    assert_eq!(u64_to_string(1234567890), "1234567890");
}

#[test]
fn size_formatting_bytes() {
    assert_eq!(fmt_size(0), "0 B");
    assert_eq!(fmt_size(512), "512 B");
    assert_eq!(fmt_size(1023), "1023 B");
}

#[test]
fn size_formatting_kb() {
    assert_eq!(fmt_size(1024), "1.0 KB");
    assert_eq!(fmt_size(1536), "1.5 KB");
    // 1588 / 1024 = 1.5507... -> 1.6
    assert_eq!(fmt_size(1588), "1.6 KB");
    // Exactly halfway rounds to even: 1280 / 1024 = 1.25 -> 1.2,
    // 1792 / 1024 = 1.75 -> 1.8.
    assert_eq!(fmt_size(1280), "1.2 KB");
    assert_eq!(fmt_size(1792), "1.8 KB");
    // Just under the MB boundary still reports in KB.
    assert_eq!(fmt_size(1048575), "1024.0 KB");
}

#[test]
fn size_formatting_mb() {
    assert_eq!(fmt_size(1048576), "1.0 MB");
    assert_eq!(fmt_size(1048576 + 524288), "1.5 MB");
    assert_eq!(fmt_size(10 * 1048576), "10.0 MB");
}
