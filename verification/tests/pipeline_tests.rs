//! The comparison pipeline on two capture sets, end to end: matching by
//! filename, the structural pre-check, perceptual scoring, and the decision
//! whether a diff artifact is owed.

use monitrous::comparison::{pair_precheck, settle_pair, should_render_diff, Verdict};
use monitrous::reconcile::matched_pairs;

fn png_with_pixel(width: u32, height: u32, changed: Option<(u32, u32)>) -> Vec<u8> {
    let buf = image::ImageBuffer::from_fn(width, height, |x, y| {
        if changed == Some((x, y)) {
            image::Rgb([255u8, 255u8, 255u8])
        } else {
            image::Rgb([40u8, 80u8, 120u8])
        }
    });
    let img = image::DynamicImage::ImageRgb8(buf);
    let mut out: Vec<u8> = Vec::new();
    img.write_to(&mut out, image::ImageOutputFormat::PNG).unwrap();
    out
}

fn score_is_zero(a_png: &[u8], b_png: &[u8]) -> bool {
    let attr = dssim::Dssim::new();
    let a = dssim_image(&attr, a_png);
    let b = dssim_image(&attr, b_png);
    let (val, _) = attr.compare(&a, b);
    val == 0.0
}

fn dssim_image(attr: &dssim::Dssim, png: &[u8]) -> dssim::DssimImage<f32> {
    let img = image::load_from_memory_with_format(png, image::ImageFormat::PNG)
        .unwrap()
        .to_rgb();
    let (w, h) = img.dimensions();
    let px: Vec<rgb::RGB8> = img
        .pixels()
        .map(|p| rgb::RGB8 { r: p.data[0], g: p.data[1], b: p.data[2] })
        .collect();
    attr.create_image_rgb(&px, w as usize, h as usize).unwrap()
}

/// One filename in both runs, byte-identical captures: one matched pair, the
/// pair settles as identical, and no diff artifact is owed.
#[test]
fn identical_captures_produce_no_diff_artifact() {
    let old_names = vec![String::from("https___example_com.png")];
    let new_names = vec![String::from("https___example_com.png")];
    let matched = matched_pairs(&new_names, &old_names);
    assert_eq!(matched.len(), 1);

    let old_bytes = png_with_pixel(24, 24, None);
    let new_bytes = old_bytes.clone();
    let pre = pair_precheck(&old_bytes, &new_bytes);
    let zero = score_is_zero(&old_bytes, &new_bytes);
    let result = settle_pair(matched[0].clone(), pre, zero).unwrap();
    assert_eq!(result.verdict, Verdict::Identical);
    assert!(!should_render_diff(&result.verdict));
}

/// The same pair with one pixel changed in the new capture: the one matched
/// pair settles as a content mismatch and exactly one diff artifact is owed.
#[test]
fn one_changed_pixel_produces_exactly_one_diff_artifact() {
    let old_names = vec![String::from("https___example_com.png")];
    let new_names = vec![String::from("https___example_com.png")];
    let matched = matched_pairs(&new_names, &old_names);
    assert_eq!(matched.len(), 1);

    let old_bytes = png_with_pixel(24, 24, None);
    let new_bytes = png_with_pixel(24, 24, Some((11, 7)));
    let mut artifacts: Vec<String> = Vec::new();
    for name in matched {
        let pre = pair_precheck(&old_bytes, &new_bytes);
        let zero = score_is_zero(&old_bytes, &new_bytes);
        let result = settle_pair(name, pre, zero).unwrap();
        assert_eq!(result.verdict, Verdict::ContentMismatch);
        if should_render_diff(&result.verdict) {
            artifacts.push(result.filename);
        }
    }
    assert_eq!(artifacts, vec![String::from("https___example_com.png")]);
}
