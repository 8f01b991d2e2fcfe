use rgbjpeg::encode::{compress_image, quality_in_range, CompressError};
use rgbjpeg::pixels::{DecodedImage, PixelLayout};

fn gradient_image(width: usize, height: usize) -> DecodedImage {
    let mut data = Vec::with_capacity(width * height * 3);
    for y in 0..height {
        for x in 0..width {
            data.push((x * 255 / width.max(1)) as u8);
            data.push((y * 255 / height.max(1)) as u8);
            data.push(((x + y) * 127 / (width + height).max(1)) as u8);
        }
    }
    DecodedImage::new(width, height, PixelLayout::Rgb, data).unwrap()
}

fn decode_rgb(jpeg: &[u8]) -> (u32, u32, Vec<u8>) {
    let img = image::load_from_memory(jpeg).expect("output must be a decodable JPEG stream");
    let rgb = img.to_rgb8();
    (rgb.width(), rgb.height(), rgb.into_raw())
}

#[test]
fn quality_range_boundaries() {
    assert!(!quality_in_range(0));
    assert!(quality_in_range(1));
    assert!(quality_in_range(85));
    assert!(quality_in_range(100));
    assert!(!quality_in_range(101));
    assert!(!quality_in_range(255));
}

#[test]
fn quality_zero_rejected() {
    let img = gradient_image(4, 4);
    assert_eq!(compress_image(&img, 0), Err(CompressError::InvalidQuality));
}

#[test]
fn quality_above_hundred_rejected() {
    let img = gradient_image(4, 4);
    assert_eq!(compress_image(&img, 101), Err(CompressError::InvalidQuality));
    assert_eq!(compress_image(&img, 255), Err(CompressError::InvalidQuality));
}

#[test]
fn quality_bounds_accepted() {
    let img = gradient_image(4, 4);
    assert!(compress_image(&img, 1).is_ok());
    assert!(compress_image(&img, 100).is_ok());
}

#[test]
fn oversized_dimension_rejected() {
    let img = DecodedImage::new(65501, 1, PixelLayout::Gray, vec![0u8; 65501]).unwrap();
    assert_eq!(
        compress_image(&img, 50),
        Err(CompressError::DimensionsTooLarge)
    );
}

#[test]
fn output_is_decodable_jpeg_with_same_dimensions() {
    let img = gradient_image(13, 7);
    let jpeg = compress_image(&img, 85).unwrap();
    let (w, h, _) = decode_rgb(&jpeg);
    assert_eq!((w, h), (13, 7));
}

#[test]
fn encoding_is_deterministic() {
    let img = gradient_image(16, 16);
    let first = compress_image(&img, 90).unwrap();
    let second = compress_image(&img, 90).unwrap();
    assert_eq!(first, second);
}

/// A deterministic textured image: a linear-congruential generator fills
/// the channels, so there is detail for the encoder at every quality.
fn textured_image(width: usize, height: usize) -> DecodedImage {
    let mut state = 0x2545_f491u32;
    let mut data = Vec::with_capacity(width * height * 3);
    for _ in 0..width * height * 3 {
        state = state.wrapping_mul(1664525).wrapping_add(1013904223);
        data.push((state >> 24) as u8);
    }
    DecodedImage::new(width, height, PixelLayout::Rgb, data).unwrap()
}

#[test]
fn output_size_nondecreasing_in_quality() {
    let img = textured_image(64, 64);
    let mut previous = 0usize;
    for q in [1u8, 25, 50, 75, 100] {
        let jpeg = compress_image(&img, q).unwrap();
        assert!(
            jpeg.len() >= previous,
            "size dropped from {} to {} at quality {}",
            previous,
            jpeg.len(),
            q
        );
        previous = jpeg.len();
    }
}

#[test]
fn high_quality_roundtrip_stays_close() {
    let img = gradient_image(24, 24);
    let source = img.normalize_rgb();
    let jpeg = compress_image(&img, 100).unwrap();
    let (w, h, decoded) = decode_rgb(&jpeg);
    assert_eq!((w, h), (24, 24));
    assert_eq!(decoded.len(), source.len());
    for (a, b) in decoded.iter().zip(source.iter()) {
        let diff = (*a as i32 - *b as i32).abs();
        assert!(diff <= 16, "pixel error {} too large at quality 100", diff);
    }
}

#[test]
fn rgba_two_by_two_scenario() {
    let data = vec![
        255u8, 0, 0, 255, 0, 255, 0, 255, 0, 0, 255, 255, 255, 255, 255, 255,
    ];
    let img = DecodedImage::new(2, 2, PixelLayout::Rgba, data).unwrap();
    let stripped = img.normalize_rgb();
    let jpeg = compress_image(&img, 90).unwrap();
    let (w, h, decoded) = decode_rgb(&jpeg);
    assert_eq!((w, h), (2, 2));
    assert_eq!(decoded.len(), stripped.len());
    // The fixed encoder policy keeps chroma subsampling at its default,
    // which averages the color of all four pixels of a 2x2 image, so the
    // per-channel error on saturated primaries is large but bounded.
    // Luminance is kept at full resolution and stays close.
    let luma = |p: &[u8]| 0.299 * p[0] as f64 + 0.587 * p[1] as f64 + 0.114 * p[2] as f64;
    for (a, b) in decoded.chunks(3).zip(stripped.chunks(3)) {
        for (x, y) in a.iter().zip(b.iter()) {
            let diff = (*x as i32 - *y as i32).abs();
            assert!(diff <= 202, "channel error {} above tolerance", diff);
        }
        let luma_diff = (luma(a) - luma(b)).abs();
        assert!(luma_diff <= 27.0, "luma error {} above tolerance", luma_diff);
    }
}

#[test]
fn compressed_stream_is_not_the_input() {
    let img = gradient_image(8, 8);
    let jpeg = compress_image(&img, 85).unwrap();
    assert_ne!(jpeg, img.normalize_rgb());
    assert_eq!(&jpeg[..2], &[0xFF, 0xD8], "JPEG stream starts with SOI");
}
