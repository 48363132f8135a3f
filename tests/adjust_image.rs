use std::io::Cursor;

use image::{DynamicImage, GenericImageView, ImageFormat, ImageOutputFormat, Rgb, RgbImage};
use image_adjust::{adjust_decoded, adjust_image, reorient, try_adjust_image, AdjustError};
use image_adjust::ImageOrientation;

const PNG_SIGNATURE: [u8; 8] = [137, 80, 78, 71, 13, 10, 26, 10];

/// An image whose pixels all differ: red grows to the right, green downwards.
fn gradient(width: u32, height: u32) -> DynamicImage {
    DynamicImage::ImageRgb8(RgbImage::from_fn(width, height, |x, y| {
        Rgb([(x * 7 % 256) as u8, (y * 11 % 256) as u8, ((x + y) % 256) as u8])
    }))
}

fn encode(img: &DynamicImage, format: ImageOutputFormat) -> Vec<u8> {
    let mut bytes: Vec<u8> = Vec::new();
    img.write_to(&mut Cursor::new(&mut bytes), format).unwrap();
    bytes
}

fn decode(bytes: &[u8]) -> DynamicImage {
    image::load_from_memory(bytes).unwrap()
}

fn orientation(rotation: u16, mirror_vertically: bool) -> Option<ImageOrientation> {
    Some(ImageOrientation { rotation, mirror_vertically })
}

fn adjust(input: &[u8], width: u32, height: u32, o: Option<ImageOrientation>) -> Vec<u8> {
    adjust_image("picture.png".to_string(), input.to_vec(), width, height, o).unwrap()
}

#[test]
fn wide_png_is_fitted_into_square_box() {
    let input = encode(&gradient(200, 100), ImageOutputFormat::Png);
    let output = adjust(&input, 100, 100, None);
    assert_eq!(image::guess_format(&output).unwrap(), ImageFormat::Png);
    assert_eq!(&output[..8], &PNG_SIGNATURE);
    assert_eq!(decode(&output).dimensions(), (100, 50));
}

#[test]
fn jpeg_is_turned_a_quarter_clockwise() {
    // Left half black, right half white.
    let source = DynamicImage::ImageRgb8(RgbImage::from_fn(100, 100, |x, _| {
        if x < 50 {
            Rgb([0, 0, 0])
        } else {
            Rgb([255, 255, 255])
        }
    }));
    let input = encode(&source, ImageOutputFormat::Jpeg(95));
    let output = adjust(&input, 100, 100, orientation(90, false));
    assert_eq!(image::guess_format(&output).unwrap(), ImageFormat::Png);
    let result = decode(&output).to_rgb8();
    assert_eq!(result.dimensions(), (100, 100));
    // After a clockwise quarter turn the left half is the top half.
    assert!(result.get_pixel(50, 10)[0] < 40);
    assert!(result.get_pixel(10, 10)[0] < 40);
    assert!(result.get_pixel(50, 90)[0] > 215);
    assert!(result.get_pixel(90, 90)[0] > 215);
}

#[test]
fn output_fits_box_with_aspect_ratio() {
    let cases: [(u32, u32, u32, u32, u32, u32); 5] = [
        (200, 100, 100, 100, 100, 50),
        (100, 200, 100, 100, 50, 100),
        (30, 20, 300, 300, 300, 200),
        (40, 40, 10, 25, 10, 10),
        (64, 48, 64, 48, 64, 48),
    ];
    for (sw, sh, bw, bh, ew, eh) in cases {
        let input = encode(&gradient(sw, sh), ImageOutputFormat::Png);
        let result = decode(&adjust(&input, bw, bh, None));
        assert_eq!(result.dimensions(), (ew, eh));
        assert!(result.width() <= bw && result.height() <= bh);
    }
}

#[test]
fn same_size_box_keeps_pixels() {
    let source = gradient(13, 7);
    let input = encode(&source, ImageOutputFormat::Png);
    let result = decode(&adjust(&input, 13, 7, None));
    assert_eq!(result.to_rgb8(), source.to_rgb8());
}

#[test]
fn zero_rotation_without_mirror_is_no_correction() {
    let input = encode(&gradient(40, 30), ImageOutputFormat::Png);
    assert_eq!(adjust(&input, 20, 20, orientation(0, false)), adjust(&input, 20, 20, None));
}

#[test]
fn unknown_rotation_is_no_rotation() {
    let input = encode(&gradient(40, 30), ImageOutputFormat::Png);
    assert_eq!(adjust(&input, 40, 30, orientation(45, false)), adjust(&input, 40, 30, orientation(0, false)));
    assert_eq!(adjust(&input, 40, 30, orientation(45, true)), adjust(&input, 40, 30, orientation(0, true)));
    assert_eq!(adjust(&input, 40, 30, orientation(360, false)), adjust(&input, 40, 30, None));
}

#[test]
fn three_quarter_turns_make_one_of_three_quarters() {
    let input = encode(&gradient(6, 4), ImageOutputFormat::Png);
    let once = adjust(&input, 6, 4, orientation(90, false));
    let twice = adjust(&once, 4, 6, orientation(90, false));
    let thrice = adjust(&twice, 6, 4, orientation(90, false));
    let direct = adjust(&input, 6, 4, orientation(270, false));
    assert_eq!(decode(&thrice).dimensions(), (4, 6));
    assert_eq!(decode(&thrice).to_rgb8(), decode(&direct).to_rgb8());
}

#[test]
fn rotation_comes_before_mirroring() {
    let source = gradient(5, 3);
    let input = encode(&source, ImageOutputFormat::Png);
    let result = decode(&adjust(&input, 5, 3, orientation(90, true))).to_rgb8();
    let rotate_then_flip = source.rotate90().flipv().to_rgb8();
    let flip_then_rotate = source.flipv().rotate90().to_rgb8();
    assert_eq!(result, rotate_then_flip);
    assert_ne!(result, flip_then_rotate);
}

#[test]
fn each_rotation_matches_its_turn() {
    let source = gradient(5, 3);
    let input = encode(&source, ImageOutputFormat::Png);
    let r90 = decode(&adjust(&input, 5, 3, orientation(90, false))).to_rgb8();
    let r180 = decode(&adjust(&input, 5, 3, orientation(180, false))).to_rgb8();
    let r270 = decode(&adjust(&input, 5, 3, orientation(270, false))).to_rgb8();
    let flipped = decode(&adjust(&input, 5, 3, orientation(0, true))).to_rgb8();
    assert_eq!(r90.dimensions(), (3, 5));
    assert_eq!(r90.get_pixel(2, 0), source.to_rgb8().get_pixel(0, 0));
    assert_eq!(r90, source.rotate90().to_rgb8());
    assert_eq!(r180, source.rotate180().to_rgb8());
    assert_eq!(r270.get_pixel(0, 4), source.to_rgb8().get_pixel(0, 0));
    assert_eq!(r270, source.rotate270().to_rgb8());
    assert_eq!(flipped.get_pixel(0, 2), source.to_rgb8().get_pixel(0, 0));
    assert_eq!(flipped, source.flipv().to_rgb8());
}

#[test]
fn empty_input_gives_none() {
    assert_eq!(adjust_image("empty.png".to_string(), Vec::new(), 100, 100, None), None);
}

#[test]
fn unknown_format_gives_none() {
    let data = b"this is not an image at all".to_vec();
    assert_eq!(adjust_image("text.txt".to_string(), data, 100, 100, None), None);
}

#[test]
fn truncated_png_gives_none() {
    let input = encode(&gradient(20, 20), ImageOutputFormat::Png);
    assert_eq!(adjust_image("cut.png".to_string(), input[..30].to_vec(), 10, 10, None), None);
}

#[test]
fn decode_error_names_the_resource() {
    let err = try_adjust_image("photos/a.jpg".to_string(), vec![1, 2, 3], 10, 10, None).unwrap_err();
    assert!(matches!(err, AdjustError::Decode { .. }));
    assert_eq!(err.resource_path(), "photos/a.jpg");
}

#[test]
fn encode_error_for_float_pixels() {
    let img = DynamicImage::ImageRgb32F(image::Rgb32FImage::from_pixel(4, 4, Rgb([0.5f32, 0.25, 1.0])));
    let err = adjust_decoded("float.exr".to_string(), img, 4, 4, None).unwrap_err();
    assert!(matches!(err, AdjustError::Encode { .. }));
    assert_eq!(err.resource_path(), "float.exr");
}

#[test]
fn oversized_box_is_refused() {
    let err = adjust_decoded("huge.png".to_string(), gradient(2, 2), u32::MAX, u32::MAX, None).unwrap_err();
    assert!(matches!(err, AdjustError::TooLarge { .. }));
    assert_eq!(err.resource_path(), "huge.png");
}

#[test]
fn zero_box_gives_one_pixel_side() {
    let input = encode(&gradient(10, 5), ImageOutputFormat::Png);
    let result = decode(&adjust(&input, 0, 0, None));
    assert_eq!(result.dimensions(), (1, 1));
}

#[test]
fn try_adjust_succeeds_on_valid_png() {
    let input = encode(&gradient(8, 8), ImageOutputFormat::Png);
    let bytes = try_adjust_image("ok.png".to_string(), input, 4, 4, None).unwrap();
    assert_eq!(decode(&bytes).dimensions(), (4, 4));
}

#[test]
fn reorient_turns_and_mirrors() {
    let source = gradient(4, 2);
    assert_eq!(reorient(source.clone(), None).to_rgb8(), source.to_rgb8());
    assert_eq!(reorient(source.clone(), orientation(90, false)).dimensions(), (2, 4));
    assert_eq!(
        reorient(source.clone(), orientation(270, true)).to_rgb8(),
        source.rotate270().flipv().to_rgb8()
    );
    assert_eq!(
        reorient(source.clone(), orientation(180, true)).to_rgb8(),
        source.fliph().to_rgb8()
    );
}

#[test]
fn quarter_turns_of_each_rotation() {
    let turns = |rotation: u16| ImageOrientation { rotation, mirror_vertically: false }.quarter_turns();
    assert_eq!(turns(0), 0);
    assert_eq!(turns(90), 1);
    assert_eq!(turns(180), 2);
    assert_eq!(turns(270), 3);
    assert_eq!(turns(45), 0);
    assert_eq!(turns(u16::MAX), 0);
}

#[test]
fn sixteen_bit_image_is_adjusted() {
    let source = DynamicImage::ImageLuma16(image::ImageBuffer::from_fn(8, 4, |x, y| image::Luma([(x * 1000 + y * 7) as u16])));
    let input = encode(&source, ImageOutputFormat::Png);
    let result = decode(&adjust(&input, 8, 4, orientation(180, false)));
    assert_eq!(result.color(), image::ColorType::L16);
    assert_eq!(result.to_luma16(), source.rotate180().to_luma16());
}

#[test]
fn scaled_side_rounds_to_nearest_pixel() {
    let input = encode(&gradient(300, 200), ImageOutputFormat::Png);
    assert_eq!(decode(&adjust(&input, 100, 100, None)).dimensions(), (100, 67));
    let input = encode(&gradient(200, 300), ImageOutputFormat::Png);
    assert_eq!(decode(&adjust(&input, 100, 100, None)).dimensions(), (67, 100));
}
