//! The whole adjustment: decode, fit into the display box, correct the
//! orientation, encode as PNG.

use vstd::prelude::*;
use crate::codec::{
    decode_image, decoding, encode_png, fits_within, flip_vertically, has_known_signature,
    image_dimensions, image_layout, image_rows, image_width, png_encoding, png_signature,
    png_writable, resampled, resize_buffers_fit, resize_to_fit, rotate_half, rotate_quarter,
    rotate_three_quarters, ColorLayout,
};
use crate::grid::{flipped_vertically, grid_wf, lemma_three_quarter_turns, rotated90, Grid};
use crate::orientation::{
    lemma_identity_correction, lemma_unknown_rotation_is_none, oriented, oriented_width,
    ImageOrientation,
};

verus! {

/// Why an image could not be adjusted.
#[derive(Debug)]
pub enum AdjustError {
    /// The bytes are in no format that could be recognised and decoded.
    /// `resource_path` is the identifier that the caller gave for them.
    Decode { resource_path: String, error: image::ImageError },
    /// Fitting the image into the box would need a buffer longer than memory
    /// can address.
    TooLarge { resource_path: String },
    /// The adjusted image could not be written as PNG.
    Encode { resource_path: String, error: image::ImageError },
}

impl AdjustError {
    /// The identifier of the image that could not be adjusted.
    pub open spec fn resource_path_of(&self) -> String {
        match self {
            AdjustError::Decode { resource_path, .. } => *resource_path,
            AdjustError::TooLarge { resource_path } => *resource_path,
            AdjustError::Encode { resource_path, .. } => *resource_path,
        }
    }

    /// The identifier of the image that could not be adjusted.
    pub fn resource_path(&self) -> (r: &String)
        ensures
            *r == self.resource_path_of(),
    {
        match self {
            AdjustError::Decode { resource_path, .. } => resource_path,
            AdjustError::TooLarge { resource_path } => resource_path,
            AdjustError::Encode { resource_path, .. } => resource_path,
        }
    }
}

/// Whether decoding `data` succeeds.
pub open spec fn decodes(data: Seq<u8>) -> bool {
    decoding(data) is Some
}

/// The pixel rows of the image that `data` decodes to.
pub open spec fn decoded_rows(data: Seq<u8>) -> Grid {
    decoding(data)->Some_0.0
}

/// The width of the image that `data` decodes to.
pub open spec fn decoded_width(data: Seq<u8>) -> nat {
    decoding(data)->Some_0.1
}

/// The color layout of the image that `data` decodes to.
pub open spec fn decoded_layout(data: Seq<u8>) -> ColorLayout {
    decoding(data)->Some_0.2
}

/// Fitting an image of `rows`, `width` and `layout` into a `box_w` by
/// `box_h` box gives a size that fits the box with the aspect ratio kept,
/// and the image itself where it already has the box's size.
pub open spec fn fit_holds(
    rows: Grid,
    width: nat,
    layout: ColorLayout,
    box_w: u32,
    box_h: u32,
) -> bool {
    let f = resampled(rows, width, layout, box_w as nat, box_h as nat);
    &&& fits_within(width, rows.len(), box_w as nat, box_h as nat, f.1, f.0.len())
    &&& (box_w == width && box_h == rows.len() ==> f == (rows, width))
}

/// The PNG file that adjusting an image of `rows`, `width` and `layout`
/// gives: resampled into the box, then corrected by `orientation`.
pub open spec fn output_png(
    rows: Grid,
    width: nat,
    layout: ColorLayout,
    box_w: u32,
    box_h: u32,
    orientation: Option<ImageOrientation>,
) -> Seq<u8> {
    let f = resampled(rows, width, layout, box_w as nat, box_h as nat);
    png_encoding(oriented(f.0, f.1, orientation), oriented_width(f.0, f.1, orientation), layout)
}

/// An image `width` pixels wide in `layout` can be adjusted into the box: the
/// box has no empty side, the resampler's buffers fit in memory, and the PNG
/// writer takes the layout.
pub open spec fn adjustable(width: nat, layout: ColorLayout, box_w: u32, box_h: u32) -> bool {
    &&& box_w > 0
    &&& box_h > 0
    &&& resize_buffers_fit(width, box_w as nat, box_h as nat)
    &&& png_writable(layout)
}

/// Applies the correction `orientation` to `img`: the clockwise turn it
/// names first, then the top-to-bottom mirror if it asks for one.
pub fn reorient(img: image::DynamicImage, orientation: Option<ImageOrientation>) -> (r:
    image::DynamicImage)
    ensures
        image_rows(r) == oriented(image_rows(img), image_width(img), orientation),
        image_width(r) == oriented_width(image_rows(img), image_width(img), orientation),
        image_layout(r) == image_layout(img),
{
    match orientation {
        None => img,
        Some(o) => {
            let quarters = o.quarter_turns();
            let turned = if quarters == 1 {
                rotate_quarter(&img)
            } else if quarters == 2 {
                rotate_half(&img)
            } else if quarters == 3 {
                rotate_three_quarters(&img)
            } else {
                img
            };
            if o.mirror_vertically {
                flip_vertically(&turned)
            } else {
                turned
            }
        },
    }
}

/// Fits a decoded image into a `display_width` by `display_height` box,
/// corrects its orientation and encodes it as PNG.
pub fn adjust_decoded(
    resource_path: String,
    decoded: image::DynamicImage,
    display_width: u32,
    display_height: u32,
    image_orientation: Option<ImageOrientation>,
) -> (r: Result<Vec<u8>, AdjustError>)
    ensures
        r is Ok ==> r->Ok_0@ == output_png(
            image_rows(decoded),
            image_width(decoded),
            image_layout(decoded),
            display_width,
            display_height,
            image_orientation,
        ),
        r is Ok ==> fit_holds(
            image_rows(decoded),
            image_width(decoded),
            image_layout(decoded),
            display_width,
            display_height,
        ),
        r is Ok ==> r->Ok_0@.len() >= 8 && r->Ok_0@.subrange(0, 8) == png_signature(),
        adjustable(image_width(decoded), image_layout(decoded), display_width, display_height)
            ==> r is Ok,
        r matches Err(AdjustError::TooLarge { .. }) <==> !resize_buffers_fit(
            image_width(decoded),
            display_width as nat,
            display_height as nat,
        ),
        r is Err ==> (r->Err_0 is Encode || r->Err_0 is TooLarge) && r->Err_0.resource_path_of()
            == resource_path,
{
    let (width, _height) = image_dimensions(&decoded);
    let box_w: u128 = if display_width == 0 { 1 } else { display_width as u128 };
    let box_h: u128 = if display_height == 0 { 1 } else { display_height as u128 };
    let src_w: u128 = width as u128;
    assert(src_w * box_h <= 0xffff_ffffu128 * 0xffff_ffffu128) by (nonlinear_arith)
        requires
            src_w <= 0xffff_ffffu128,
            box_h <= 0xffff_ffffu128,
    ;
    assert(box_w * box_h <= 0xffff_ffffu128 * 0xffff_ffffu128) by (nonlinear_arith)
        requires
            box_w <= 0xffff_ffffu128,
            box_h <= 0xffff_ffffu128,
    ;
    if src_w * box_h * 4 > usize::MAX as u128 || box_w * box_h * 4 > usize::MAX as u128 {
        return Err(AdjustError::TooLarge { resource_path });
    }
    let fitted = resize_to_fit(&decoded, display_width, display_height);
    let fixed = reorient(fitted, image_orientation);
    match encode_png(&fixed) {
        Ok(bytes) => Ok(bytes),
        Err(error) => Err(AdjustError::Encode { resource_path, error }),
    }
}

/// Decodes `resource_data`, whose format is guessed from its leading bytes,
/// fits the image into a `display_width` by `display_height` box keeping its
/// aspect ratio, corrects its orientation and encodes it as PNG.
/// `resource_path` only identifies the image in an error.
pub fn try_adjust_image(
    resource_path: String,
    resource_data: Vec<u8>,
    display_width: u32,
    display_height: u32,
    image_orientation: Option<ImageOrientation>,
) -> (r: Result<Vec<u8>, AdjustError>)
    ensures
        r matches Err(AdjustError::Decode { .. }) <==> !decodes(resource_data@),
        !has_known_signature(resource_data@) ==> r matches Err(AdjustError::Decode { .. }),
        r is Ok ==> r->Ok_0@ == output_png(
            decoded_rows(resource_data@),
            decoded_width(resource_data@),
            decoded_layout(resource_data@),
            display_width,
            display_height,
            image_orientation,
        ),
        r is Ok ==> fit_holds(
            decoded_rows(resource_data@),
            decoded_width(resource_data@),
            decoded_layout(resource_data@),
            display_width,
            display_height,
        ),
        r is Ok ==> r->Ok_0@.len() >= 8 && r->Ok_0@.subrange(0, 8) == png_signature(),
        decodes(resource_data@) && adjustable(
            decoded_width(resource_data@),
            decoded_layout(resource_data@),
            display_width,
            display_height,
        ) ==> r is Ok,
        r matches Err(AdjustError::TooLarge { .. }) <==> decodes(resource_data@)
            && !resize_buffers_fit(
            decoded_width(resource_data@),
            display_width as nat,
            display_height as nat,
        ),
        r is Err ==> r->Err_0.resource_path_of() == resource_path,
{
    match decode_image(&resource_data) {
        Ok(decoded) => adjust_decoded(
            resource_path,
            decoded,
            display_width,
            display_height,
            image_orientation,
        ),
        Err(error) => Err(AdjustError::Decode { resource_path, error }),
    }
}

/// Like `try_adjust_image`, with any failure reported as `None`.
pub fn adjust_image(
    resource_path: String,
    resource_data: Vec<u8>,
    display_width: u32,
    display_height: u32,
    image_orientation: Option<ImageOrientation>,
) -> (r: Option<Vec<u8>>)
    ensures
        !decodes(resource_data@) ==> r is None,
        r is Some ==> r->Some_0@ == output_png(
            decoded_rows(resource_data@),
            decoded_width(resource_data@),
            decoded_layout(resource_data@),
            display_width,
            display_height,
            image_orientation,
        ),
        r is Some ==> fit_holds(
            decoded_rows(resource_data@),
            decoded_width(resource_data@),
            decoded_layout(resource_data@),
            display_width,
            display_height,
        ),
        r is Some ==> r->Some_0@.len() >= 8 && r->Some_0@.subrange(0, 8) == png_signature(),
        decodes(resource_data@) && adjustable(
            decoded_width(resource_data@),
            decoded_layout(resource_data@),
            display_width,
            display_height,
        ) ==> r is Some,
{
    match try_adjust_image(
        resource_path,
        resource_data,
        display_width,
        display_height,
        image_orientation,
    ) {
        Ok(bytes) => Some(bytes),
        Err(_) => None,
    }
}

/// Without a correction, the output is the PNG file of the fitted image
/// itself.
pub proof fn lemma_fit_without_correction(
    rows: Grid,
    width: nat,
    layout: ColorLayout,
    box_w: u32,
    box_h: u32,
)
    ensures
        ({
            let f = resampled(rows, width, layout, box_w as nat, box_h as nat);
            output_png(rows, width, layout, box_w, box_h, None) == png_encoding(f.0, f.1, layout)
        }),
{
}

/// A correction of 0 degrees without mirroring gives the same output as no
/// correction.
pub proof fn lemma_identity_correction_output(
    rows: Grid,
    width: nat,
    layout: ColorLayout,
    box_w: u32,
    box_h: u32,
)
    ensures
        output_png(
            rows,
            width,
            layout,
            box_w,
            box_h,
            Some(ImageOrientation { rotation: 0, mirror_vertically: false }),
        ) == output_png(rows, width, layout, box_w, box_h, None),
{
    let f = resampled(rows, width, layout, box_w as nat, box_h as nat);
    lemma_identity_correction(f.0, f.1);
}

/// A correction by a rotation other than 90, 180 or 270 degrees gives the
/// same output as the same correction with a rotation of 0 degrees.
pub proof fn lemma_unknown_rotation_output(
    rows: Grid,
    width: nat,
    layout: ColorLayout,
    box_w: u32,
    box_h: u32,
    o: ImageOrientation,
)
    requires
        o.rotation != 90 && o.rotation != 180 && o.rotation != 270,
    ensures
        output_png(rows, width, layout, box_w, box_h, Some(o)) == output_png(
            rows,
            width,
            layout,
            box_w,
            box_h,
            Some(ImageOrientation { rotation: 0, ..o }),
        ),
{
    let f = resampled(rows, width, layout, box_w as nat, box_h as nat);
    lemma_unknown_rotation_is_none(f.0, f.1, o);
}

/// A correction of 90 degrees with mirroring encodes the fitted image turned
/// a quarter clockwise first and mirrored top to bottom after.
pub proof fn lemma_turn_then_mirror_output(
    rows: Grid,
    width: nat,
    layout: ColorLayout,
    box_w: u32,
    box_h: u32,
)
    ensures
        ({
            let f = resampled(rows, width, layout, box_w as nat, box_h as nat);
            output_png(
                rows,
                width,
                layout,
                box_w,
                box_h,
                Some(ImageOrientation { rotation: 90, mirror_vertically: true }),
            ) == png_encoding(
                flipped_vertically(rotated90(f.0, f.1), f.0.len()),
                f.0.len(),
                layout,
            )
        }),
{
}

/// Three adjustments with a quarter turn, each given the output of the one
/// before and a box of its image's own size, give what one adjustment with
/// three quarter turns gives, where reading back each output yields the image
/// that it encodes (a lossless round trip).
pub proof fn lemma_three_quarter_adjustments(
    rows: Grid,
    width: nat,
    layout: ColorLayout,
    box_w: u32,
    box_h: u32,
    first: Seq<u8>,
    second: Seq<u8>,
)
    requires
        grid_wf(rows, width),
        box_w == width,
        box_h == rows.len(),
        fit_holds(rows, width, layout, box_w, box_h),
        first == output_png(rows, width, layout, box_w, box_h, quarter_turn()),
        decoding(first) == Some((rotated90(rows, width), rows.len(), layout)),
        fit_holds(rotated90(rows, width), rows.len(), layout, box_h, box_w),
        second == output_png(
            rotated90(rows, width),
            rows.len(),
            layout,
            box_h,
            box_w,
            quarter_turn(),
        ),
        decoding(second) == Some((rotated90(rotated90(rows, width), rows.len()), width, layout)),
        fit_holds(rotated90(rotated90(rows, width), rows.len()), width, layout, box_w, box_h),
    ensures
        output_png(
            decoded_rows(second),
            decoded_width(second),
            decoded_layout(second),
            box_w,
            box_h,
            quarter_turn(),
        ) == output_png(
            rows,
            width,
            layout,
            box_w,
            box_h,
            Some(ImageOrientation { rotation: 270, mirror_vertically: false }),
        ),
{
    lemma_three_quarter_turns(rows, width);
    assert(rotated90(rotated90(rows, width), rows.len()).len() == rows.len());
}

/// A correction of one quarter turn clockwise without mirroring.
pub open spec fn quarter_turn() -> Option<ImageOrientation> {
    Some(ImageOrientation { rotation: 90, mirror_vertically: false })
}

} // verus!
