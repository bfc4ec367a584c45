use ql_printer::printer::Orientation;
use ql_printer::raster::{
    convert_image_to_luma_u8, dither_luma8_image, encode_image, rasterize_image_to_ql_tiff,
    render_lines, resize_and_rotate_image, rotate_image, target_height, GrayBitmap, RgbaBitmap,
};

fn white_gray(width: u32, height: u32) -> GrayBitmap {
    GrayBitmap { width, height, pixels: vec![255; (width * height) as usize] }
}

fn sample_rgba(width: u32, height: u32) -> RgbaBitmap {
    let mut pixels = Vec::new();
    for i in 0..(width * height) {
        let v = (i * 37 % 256) as u8;
        pixels.extend_from_slice(&[v, 255 - v, v / 2, 255]);
    }
    RgbaBitmap { width, height, pixels }
}

#[test]
fn single_pixel_sets_one_bit() {
    for (width, col) in [(10u32, 9usize), (10, 0), (720, 719), (100, 42)] {
        let mut img = white_gray(width, 3);
        img.pixels[width as usize + col] = 0;
        let lines = rasterize_image_to_ql_tiff(&img);
        assert_eq!(lines.len(), 3);
        for (row, line) in lines.iter().enumerate() {
            for (b, byte) in line.iter().enumerate() {
                if row == 1 && b == 89 - col / 8 {
                    assert_eq!(*byte, 1u8 << (col % 8));
                } else {
                    assert_eq!(*byte, 0);
                }
            }
        }
    }
}

#[test]
fn black_threshold_is_127() {
    let img = GrayBitmap { width: 4, height: 1, pixels: vec![127, 128, 0, 255] };
    let lines = rasterize_image_to_ql_tiff(&img);
    assert_eq!(lines[0][89], 0b0101);
    assert!(lines[0][..89].iter().all(|b| *b == 0));
}

#[test]
fn columns_past_the_head_are_dropped() {
    let img = GrayBitmap { width: 730, height: 1, pixels: vec![0; 730] };
    let lines = rasterize_image_to_ql_tiff(&img);
    assert!(lines[0].iter().all(|b| *b == 0xFF));
}

#[test]
fn every_encoded_line_is_ninety_bytes() {
    let img = sample_rgba(7, 5);
    for orientation in [Orientation::Normal, Orientation::Rotated] {
        for dither in [false, true] {
            let lines = encode_image(&img, orientation, 96, dither).unwrap();
            assert!(!lines.is_empty());
            assert!(lines.iter().all(|l| l.len() == 90));
        }
    }
}

#[test]
fn luma_projection_values() {
    let img = RgbaBitmap {
        width: 4,
        height: 1,
        pixels: vec![255, 0, 0, 255, 0, 255, 0, 255, 0, 0, 255, 0, 255, 255, 255, 255],
    };
    let gray = convert_image_to_luma_u8(&img);
    assert_eq!(gray.width, 4);
    assert_eq!(gray.height, 1);
    assert_eq!(gray.pixels, vec![54, 182, 18, 255]);
}

#[test]
fn dithering_diffuses_error() {
    let mut img = GrayBitmap { width: 2, height: 1, pixels: vec![100, 200] };
    dither_luma8_image(&mut img);
    assert_eq!(img.pixels, vec![0, 255]);
    let mut mid = GrayBitmap { width: 4, height: 3, pixels: vec![120; 12] };
    dither_luma8_image(&mut mid);
    assert!(mid.pixels.iter().all(|p| *p == 0 || *p == 255));
    assert!(mid.pixels.iter().any(|p| *p == 255));
    let mut narrow = GrayBitmap { width: 1, height: 2, pixels: vec![100, 200] };
    dither_luma8_image(&mut narrow);
    assert_eq!(narrow.pixels, vec![100, 200]);
}

#[test]
fn aspect_ratio_is_kept() {
    let img = sample_rgba(10, 5);
    let normal = resize_and_rotate_image(&img, Orientation::Normal, 40).unwrap();
    assert_eq!((normal.width, normal.height), (40, 20));
    assert_eq!(normal.pixels.len(), 40 * 20 * 4);
    let rotated = resize_and_rotate_image(&img, Orientation::Rotated, 40).unwrap();
    assert_eq!((rotated.width, rotated.height), (40, 80));
    let odd = resize_and_rotate_image(&sample_rgba(3, 2), Orientation::Normal, 10).unwrap();
    assert_eq!(odd.height, 6);
    assert_eq!(target_height(3, 2, 10), Some(6));
    assert_eq!(target_height(7, 3, 10), Some(4));
    assert_eq!(target_height(0, 3, 10), Some(0));
    assert_eq!(target_height(1, u32::MAX, 2), None);
}

#[test]
fn rotation_turns_a_quarter_clockwise() {
    // 2 x 3 image; pixel (x, y) has red = 10 * y + x.
    let mut pixels = Vec::new();
    for y in 0..3u8 {
        for x in 0..2u8 {
            pixels.extend_from_slice(&[10 * y + x, 0, 0, 255]);
        }
    }
    let img = RgbaBitmap { width: 2, height: 3, pixels };
    // Scaling to the turned width keeps the size, so the pixels are the turned ones.
    let turned = resize_and_rotate_image(&img, Orientation::Rotated, 3).unwrap();
    assert_eq!((turned.width, turned.height), (3, 2));
    let reds: Vec<u8> = turned.pixels.chunks(4).map(|p| p[0]).collect();
    assert_eq!(reds, vec![20, 10, 0, 21, 11, 1]);
}

#[test]
fn rotated_encoding_equals_encoding_the_turned_image() {
    let img = sample_rgba(5, 3);
    let (w, h) = (5usize, 3usize);
    let mut turned = Vec::new();
    for y in 0..w {
        for x in 0..h {
            let src = ((h - 1 - x) * w + y) * 4;
            turned.extend_from_slice(&img.pixels[src..src + 4]);
        }
    }
    let turned = RgbaBitmap { width: 3, height: 5, pixels: turned };
    for dither in [false, true] {
        let a = encode_image(&img, Orientation::Rotated, 120, dither).unwrap();
        let b = encode_image(&turned, Orientation::Normal, 120, dither).unwrap();
        assert_eq!(a.len(), 200);
        assert_eq!(a, b);
    }
}

#[test]
fn empty_images_encode_to_no_lines() {
    let empty = RgbaBitmap { width: 0, height: 0, pixels: Vec::new() };
    assert_eq!(encode_image(&empty, Orientation::Normal, 696, true).unwrap().len(), 0);
    let flat = RgbaBitmap { width: 700, height: 1, pixels: vec![0; 2800] };
    assert_eq!(encode_image(&flat, Orientation::Normal, 696, false).unwrap().len(), 0);
}

#[test]
fn oversized_results_are_refused() {
    let tall = RgbaBitmap { width: 1, height: 1 << 20, pixels: vec![0; 4 << 20] };
    assert!(encode_image(&tall, Orientation::Normal, 1 << 13, false).is_none());
}

#[test]
fn black_square_prints_left_edge_dots() {
    let img = RgbaBitmap { width: 2, height: 2, pixels: vec![0, 0, 0, 255].repeat(4) };
    let lines = encode_image(&img, Orientation::Normal, 16, false).unwrap();
    assert_eq!(lines.len(), 16);
    for line in &lines {
        assert_eq!(line[89], 0xFF);
        assert_eq!(line[88], 0xFF);
        assert!(line[..88].iter().all(|b| *b == 0));
    }
}

#[test]
fn rotate_image_turns_pixels() {
    let mut pixels = Vec::new();
    for y in 0..3u8 {
        for x in 0..2u8 {
            pixels.extend_from_slice(&[10 * y + x, 1, 2, 3]);
        }
    }
    let turned = rotate_image(&RgbaBitmap { width: 2, height: 3, pixels });
    assert_eq!((turned.width, turned.height), (3, 2));
    let reds: Vec<u8> = turned.pixels.chunks(4).map(|p| p[0]).collect();
    assert_eq!(reds, vec![20, 10, 0, 21, 11, 1]);
}

#[test]
fn render_lines_projects_and_packs() {
    // Black, mid grey (luma 127), light grey (luma 128), white.
    let img = RgbaBitmap {
        width: 4,
        height: 2,
        pixels: [[0u8, 0, 0, 255], [127, 127, 127, 255], [128, 128, 128, 255], [255, 255, 255, 255]]
            .concat()
            .repeat(2),
    };
    let lines = render_lines(&img, false);
    assert_eq!(lines.len(), 2);
    assert_eq!(lines[0][89], 0b0011);
    assert_eq!(lines[1][89], 0b0011);
    let dithered = render_lines(&img, true);
    assert_eq!(dithered.len(), 2);
    assert_eq!(dithered[0][89] & 1, 1);
}
