use image::DynamicImage;
use image::Rgb;
use image::RgbImage;
use terminal_tools::image_preview::{
    file_name_of, generate_ascii_preview, generate_image_preview, get_image_info, gray_of,
    is_image_file, ramp_index,
};

#[test]
fn test_is_image_file_supported_formats() {
    assert!(is_image_file("test.jpg"));
    assert!(is_image_file("test.jpeg"));
    assert!(is_image_file("test.png"));
    assert!(is_image_file("test.gif"));
    assert!(is_image_file("test.bmp"));
    assert!(is_image_file("TEST.JPG")); // case insensitive
}

#[test]
fn test_is_image_file_unsupported_formats() {
    assert!(!is_image_file("test.txt"));
    assert!(!is_image_file("test.rs"));
    assert!(!is_image_file("test.pdf"));
    assert!(!is_image_file("test"));
    assert!(!is_image_file("test."));
}

#[test]
fn test_is_image_file_no_extension() {
    assert!(!is_image_file("noextension"));
    assert!(!is_image_file("."));
    assert!(!is_image_file(""));
}

#[test]
fn test_generate_image_preview_nonexistent_file() {
    let preview = generate_image_preview("nonexistent.jpg");
    assert!(preview.contains("🖼️ Image"));
    assert!(preview.contains("nonexistent.jpg"));
    assert!(preview.contains("Error loading image") || preview.contains("Panic occurred"));
}

#[test]
fn test_generate_ascii_preview_bounds() {
    // Test that the function handles edge cases safely
    // Create a minimal 1x1 test image
    let img = DynamicImage::ImageRgb8(RgbImage::new(1, 1));

    // Test with valid dimensions
    let result = generate_ascii_preview(&img, 10, 5);
    assert!(result.is_ok());

    // Test with zero dimensions should be clamped to 1
    let result = generate_ascii_preview(&img, 0, 0);
    assert!(result.is_ok());

    // Test with very large dimensions should be clamped
    let result = generate_ascii_preview(&img, 1000, 1000);
    assert!(result.is_ok());
}

#[test]
fn single_cell_art_is_one_char_and_newline() {
    let img = DynamicImage::ImageRgb8(RgbImage::new(1, 1));
    // A 0x0 request is clamped to one cell, never rejected.
    let art = generate_ascii_preview(&img, 0, 0).unwrap();
    assert_eq!(art.chars().count(), 2);
    assert!(art.ends_with('\n'));
    // A black pixel maps to the darkest ramp character.
    assert_eq!(art, " \n");
}

#[test]
fn ascii_art_has_row_shape() {
    // A 1x1 source resized into a 10x5 box becomes a 5x5 grid.
    let img = DynamicImage::ImageRgb8(RgbImage::new(1, 1));
    let art = generate_ascii_preview(&img, 10, 5).unwrap();
    assert_eq!(art.chars().count(), 5 * 6);
    assert_eq!(art.lines().count(), 5);
    for line in art.lines() {
        assert_eq!(line.chars().count(), 5);
    }
}

#[test]
fn image_preview_of_real_image_reports_facts() {
    let mut buf = RgbImage::new(2, 2);
    buf.put_pixel(0, 0, Rgb([255, 255, 255]));
    let img = DynamicImage::ImageRgb8(buf);
    // The renderer sees the white pixel as the brightest ramp character
    // somewhere in the art.
    let art = generate_ascii_preview(&img, 2, 2).unwrap();
    assert!(art.contains('@'));
}

#[test]
fn gray_uses_standard_luma_weights() {
    assert_eq!(gray_of(0, 0, 0), 0);
    assert_eq!(gray_of(255, 255, 255), 255);
    assert_eq!(gray_of(10, 20, 30), ((299 * 10 + 587 * 20 + 114 * 30) / 1000) as u8);
    assert_eq!(gray_of(255, 0, 0), 76); // 0.299 weight on red, truncated
}

#[test]
fn ramp_index_is_monotonic_and_exact_at_ends() {
    assert_eq!(ramp_index(0), 0);
    assert_eq!(ramp_index(255), 9);
    let mut last = 0;
    for g in 0..=255u8 {
        let i = ramp_index(g);
        assert!(i >= last);
        assert!(i < 10);
        last = i;
    }
}

#[test]
fn file_name_is_last_component() {
    assert_eq!(file_name_of("a/b/c.txt"), "c.txt");
    assert_eq!(file_name_of("plain.png"), "plain.png");
    assert_eq!(file_name_of("dir/"), "");
}

#[test]
fn image_info_fails_like_the_decoder() {
    assert!(get_image_info("no/such/image.png").is_err());
}

#[test]
fn extension_is_judged_on_the_final_component() {
    assert!(is_image_file("photos/x.PNG"));
    assert!(!is_image_file("dir.jpg/file.txt"));
    assert!(!is_image_file(".png")); // a hidden file, not an extension
    assert!(is_image_file("archive.tar.gif")); // the last dot decides
}
