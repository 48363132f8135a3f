//! The image crate's decoder, resampler, transforms and PNG encoder, as this
//! library relies on them.
//!
//! A decoded image is opaque here. What the contracts need of it is named:
//! its pixel grid, its width in pixels and its color type. What decoding,
//! resampling and encoding give is named too: each depends on its arguments
//! alone.

use vstd::prelude::*;
use crate::grid::{Grid, rotated90, rotated180, rotated270, flipped_vertically};

verus! {

#[verifier::external_type_specification]
#[verifier::external_body]
pub struct ExDynamicImage(image::DynamicImage);

#[verifier::external_type_specification]
#[verifier::external_body]
pub struct ExImageError(image::ImageError);

/// The channels and the depth of a decoded image's pixels.
pub enum ColorLayout {
    L8,
    La8,
    Rgb8,
    Rgba8,
    L16,
    La16,
    Rgb16,
    Rgba16,
    Rgb32F,
    Rgba32F,
}

/// The PNG writer takes the color layouts with integer channels only.
pub open spec fn png_writable(layout: ColorLayout) -> bool {
    !(layout is Rgb32F || layout is Rgba32F)
}

/// The pixels of a decoded image, row by row from the top; each pixel as the
/// bytes of its channel values, in the machine's byte order.
pub uninterp spec fn image_rows(img: image::DynamicImage) -> Grid;

/// The width in pixels of a decoded image.
pub uninterp spec fn image_width(img: image::DynamicImage) -> nat;

/// The color layout of a decoded image.
pub uninterp spec fn image_layout(img: image::DynamicImage) -> ColorLayout;

/// What decoding `data` gives: nothing where it fails, else the pixel rows,
/// the width and the color layout of the image.
pub uninterp spec fn decoding(data: Seq<u8>) -> Option<(Grid, nat, ColorLayout)>;

/// The pixel rows and the width that resampling an image of the given rows,
/// width and layout into a `box_w` by `box_h` box gives.
pub uninterp spec fn resampled(
    rows: Grid,
    width: nat,
    layout: ColorLayout,
    box_w: nat,
    box_h: nat,
) -> (Grid, nat);

/// The PNG file that encodes the given pixels, width and color layout.
pub uninterp spec fn png_encoding(rows: Grid, width: nat, layout: ColorLayout) -> Seq<u8>;

/// The eight bytes that open every PNG file.
pub open spec fn png_signature() -> Seq<u8> {
    seq![137u8, 80, 78, 71, 13, 10, 26, 10]
}

/// `data` opens with the bytes `prefix`.
pub open spec fn begins_with(data: Seq<u8>, prefix: Seq<u8>) -> bool {
    prefix.len() <= data.len() && data.subrange(0, prefix.len() as int) == prefix
}

/// `data` opens with one of the signatures by which the image crate
/// recognises a format.
pub open spec fn has_known_signature(data: Seq<u8>) -> bool {
    ||| begins_with(data, seq![137u8, 80, 78, 71, 13, 10, 26, 10]) // PNG
    ||| begins_with(data, seq![255u8, 216, 255]) // JPEG
    ||| begins_with(data, seq![71u8, 73, 70, 56, 57, 97]) // GIF 89a
    ||| begins_with(data, seq![71u8, 73, 70, 56, 55, 97]) // GIF 87a
    ||| begins_with(data, seq![82u8, 73, 70, 70]) // WebP
    ||| begins_with(data, seq![77u8, 77, 0, 42]) // TIFF, big-endian
    ||| begins_with(data, seq![73u8, 73, 42, 0]) // TIFF, little-endian
    ||| begins_with(data, seq![68u8, 68, 83, 32]) // DDS
    ||| begins_with(data, seq![66u8, 77]) // BMP
    ||| begins_with(data, seq![0u8, 0, 1, 0]) // ICO
    ||| begins_with(data, seq![35u8, 63, 82, 65, 68, 73, 65, 78, 67, 69]) // Radiance HDR
    ||| begins_with(data, seq![80u8, 49]) // PNM
    ||| begins_with(data, seq![80u8, 50]) // PNM
    ||| begins_with(data, seq![80u8, 51]) // PNM
    ||| begins_with(data, seq![80u8, 52]) // PNM
    ||| begins_with(data, seq![80u8, 53]) // PNM
    ||| begins_with(data, seq![80u8, 54]) // PNM
    ||| begins_with(data, seq![80u8, 55]) // PNM
    ||| begins_with(data, seq![102u8, 97, 114, 98, 102, 101, 108, 100]) // farbfeld
    ||| begins_with(data, seq![0u8, 0, 0, 32, 102, 116, 121, 112, 97, 118, 105, 102]) // AVIF
    ||| begins_with(data, seq![0u8, 0, 0, 28, 102, 116, 121, 112, 97, 118, 105, 102]) // AVIF
    ||| begins_with(data, seq![118u8, 47, 49, 1]) // OpenEXR
    ||| begins_with(data, seq![113u8, 111, 105, 102]) // QOI
}

/// No byte sequence shorter than two bytes, the empty one among them, opens
/// with a known signature: such input is always refused.
pub proof fn lemma_short_input_unknown(data: Seq<u8>)
    requires
        data.len() < 2,
    ensures
        !has_known_signature(data),
{
}

/// The number of rows of a decoded image.
pub open spec fn image_height(img: image::DynamicImage) -> nat {
    image_rows(img).len()
}

/// `r` is `num / den` rounded to the nearest whole number, either way where
/// the quotient lies halfway, and at least 1.
pub open spec fn rounds_to(num: nat, den: nat, r: nat) -> bool {
    if 2 * num <= den {
        r == 1
    } else {
        -(den as int) <= 2 * (r * den - num) <= den
    }
}

/// Below this bound on the products of sides, the resampler's floating-point
/// size computation rounds as exact arithmetic does.
pub open spec fn exact_rounding_bound() -> nat {
    0x4_0000_0000_0000
}

/// `(new_w, new_h)` is the size that fitting a `src_w` by `src_h` image into a
/// `box_w` by `box_h` box gives: both sides at least 1 and within the box, the
/// side with the smaller ratio of box to source filling it, and the other
/// scaled by that ratio and rounded to the nearest pixel. Where the sides are
/// so large that floating point may miss the nearest pixel, the other side is
/// within one pixel of the exact scaled size.
pub open spec fn fits_within(
    src_w: nat,
    src_h: nat,
    box_w: nat,
    box_h: nat,
    new_w: nat,
    new_h: nat,
) -> bool {
    src_w > 0 && src_h > 0 && box_w > 0 && box_h > 0 ==> {
        &&& 1 <= new_w <= box_w
        &&& 1 <= new_h <= box_h
        &&& {
            ||| new_w == box_w && -(src_w as int) <= new_h * src_w - src_h * box_w <= src_w
            ||| new_h == box_h && -(src_h as int) <= new_w * src_h - src_w * box_h <= src_h
        }
        &&& (src_w * box_h < exact_rounding_bound() && src_h * box_w < exact_rounding_bound()
            ==> if box_w * src_h <= box_h * src_w {
            new_w == box_w && rounds_to(src_h * box_w, src_w, new_h)
        } else {
            new_h == box_h && rounds_to(src_w * box_h, src_h, new_w)
        })
    }
}

/// Relies on image::load_from_memory: the result depends on the bytes
/// alone; the format is guessed from the leading bytes by a fixed table of
/// signatures, and bytes that match none of them are refused.
#[verifier::external_body]
pub(crate) fn decode_image(data: &Vec<u8>) -> (r: Result<image::DynamicImage, image::ImageError>)
    ensures
        r is Ok <==> decoding(data@) is Some,
        r is Ok ==> decoding(data@) == Some(
            (image_rows(r->Ok_0), image_width(r->Ok_0), image_layout(r->Ok_0)),
        ),
        !has_known_signature(data@) ==> r is Err,
{
    image::load_from_memory(data.as_slice())
}

/// Resampling a `src_w` pixels wide image into a `box_w` by `box_h` box
/// allocates buffers of at most `src_w` by `box_h` and `box_w` by `box_h`
/// pixels of four channels each (a side of 0 counts as 1), and the length of
/// each must fit in `usize`.
pub open spec fn resize_buffers_fit(src_w: nat, box_w: nat, box_h: nat) -> bool {
    let w = if box_w == 0 { 1 } else { box_w };
    let h = if box_h == 0 { 1 } else { box_h };
    &&& src_w * h * 4 <= usize::MAX
    &&& w * h * 4 <= usize::MAX
}

/// Relies on image::GenericImageView::dimensions for a decoded image: its
/// width and its number of rows.
#[verifier::external_body]
pub(crate) fn image_dimensions(img: &image::DynamicImage) -> (r: (u32, u32))
    ensures
        r.0 == image_width(*img),
        r.1 == image_height(*img),
{
    image::GenericImageView::dimensions(img)
}

/// Relies on image::DynamicImage::resize with the triangle filter: the image
/// is scaled to the largest size that fits the box with its aspect ratio
/// kept (see `math::utils::resize_dimensions`: no side below 1), and comes
/// back unchanged where it already has the box's size. The pixels depend on
/// the source's pixels, width and layout and on the box alone. It panics
/// where a buffer's length would overflow `usize`.
#[verifier::external_body]
pub(crate) fn resize_to_fit(img: &image::DynamicImage, box_w: u32, box_h: u32) -> (r:
    image::DynamicImage)
    requires
        resize_buffers_fit(image_width(*img), box_w as nat, box_h as nat),
    ensures
        image_layout(r) == image_layout(*img),
        (image_rows(r), image_width(r)) == resampled(
            image_rows(*img),
            image_width(*img),
            image_layout(*img),
            box_w as nat,
            box_h as nat,
        ),
        !(box_w == image_width(*img) && box_h == image_height(*img)) ==> image_width(r) >= 1
            && image_height(r) >= 1,
        fits_within(
            image_width(*img),
            image_height(*img),
            box_w as nat,
            box_h as nat,
            image_width(r),
            image_height(r),
        ),
        box_w == image_width(*img) && box_h == image_height(*img) ==> image_rows(r) == image_rows(
            *img,
        ) && image_width(r) == image_width(*img),
{
    img.resize(box_w, box_h, image::imageops::FilterType::Triangle)
}

/// Relies on image::DynamicImage::rotate90: a quarter turn clockwise.
#[verifier::external_body]
pub(crate) fn rotate_quarter(img: &image::DynamicImage) -> (r: image::DynamicImage)
    ensures
        image_rows(r) == rotated90(image_rows(*img), image_width(*img)),
        image_width(r) == image_height(*img),
        image_layout(r) == image_layout(*img),
{
    img.rotate90()
}

/// Relies on image::DynamicImage::rotate180: a half turn.
#[verifier::external_body]
pub(crate) fn rotate_half(img: &image::DynamicImage) -> (r: image::DynamicImage)
    ensures
        image_rows(r) == rotated180(image_rows(*img), image_width(*img)),
        image_width(r) == image_width(*img),
        image_layout(r) == image_layout(*img),
{
    img.rotate180()
}

/// Relies on image::DynamicImage::rotate270: three quarter turns clockwise.
#[verifier::external_body]
pub(crate) fn rotate_three_quarters(img: &image::DynamicImage) -> (r: image::DynamicImage)
    ensures
        image_rows(r) == rotated270(image_rows(*img), image_width(*img)),
        image_width(r) == image_height(*img),
        image_layout(r) == image_layout(*img),
{
    img.rotate270()
}

/// Relies on image::DynamicImage::flipv: the rows in reverse order.
#[verifier::external_body]
pub(crate) fn flip_vertically(img: &image::DynamicImage) -> (r: image::DynamicImage)
    ensures
        image_rows(r) == flipped_vertically(image_rows(*img), image_width(*img)),
        image_width(r) == image_width(*img),
        image_layout(r) == image_layout(*img),
{
    img.flipv()
}

/// Relies on image::DynamicImage::write_to with the PNG output format: the
/// encoding depends on the pixels, the width and the color type alone, and
/// the encoder writes the PNG signature first. It refuses floating-point
/// channels and an empty side, and nothing else that a decoded image holds.
#[verifier::external_body]
pub(crate) fn encode_png(img: &image::DynamicImage) -> (r: Result<Vec<u8>, image::ImageError>)
    ensures
        png_writable(image_layout(*img)) && image_width(*img) > 0 && image_height(*img) > 0
            ==> r is Ok,
        r is Ok ==> r->Ok_0@ == png_encoding(image_rows(*img), image_width(*img), image_layout(*img)),
        r is Ok ==> r->Ok_0@.len() >= 8 && r->Ok_0@.subrange(0, 8) == png_signature(),
{
    let mut bytes: Vec<u8> = Vec::new();
    match img.write_to(&mut std::io::Cursor::new(&mut bytes), image::ImageOutputFormat::Png) {
        Ok(()) => Ok(bytes),
        Err(e) => Err(e),
    }
}

} // verus!
