use vstd::prelude::*;
use vstd::string::StringExecFns;
use vstd::arithmetic::div_mod::{
    lemma_div_is_ordered, lemma_fundamental_div_mod, lemma_fundamental_div_mod_converse,
    lemma_mod_bound,
};

use crate::errors::ExtractError;
use crate::pathnames::{
    full_image_name, join_path, joined, make_full_image_name, make_thumb_image_name,
    thumb_image_name,
};

verus! {

#[verifier::external_type_specification]
#[verifier::external_body]
pub struct ExDynamicImage(image::DynamicImage);

/// Whether the image codecs can decode these bytes: decoding depends on
/// the blob's bytes alone.
pub uninterp spec fn decode_ok(s: Seq<u8>) -> bool;

/// Relies on image::load_from_memory: decodes the blob as an image,
/// guessing the format from its bytes; fails exactly on malformed or
/// unrecognized image data, a function of the bytes alone.
#[verifier::external_body]
fn decode_image(data: &Vec<u8>) -> (r: Result<image::DynamicImage, String>)
    ensures
        r is Ok <==> decode_ok(data@),
{
    match image::load_from_memory(data.as_slice()) {
        Ok(i) => Ok(i),
        Err(e) => Err(format!("{}", e)),
    }
}

/// Relies on image::GenericImageView::dimensions: the decoded image's
/// width and height in pixels.
#[verifier::external_body]
fn image_dims(img: &image::DynamicImage) -> (r: (u32, u32)) {
    image::GenericImageView::dimensions(img)
}

/// Relies on image::DynamicImage::resize_exact with the Lanczos3 filter, a
/// high-quality resampling filter: the returned image has exactly the
/// requested dimensions.
#[verifier::external_body]
fn resize_image(img: &image::DynamicImage, w: u32, h: u32) -> (r: image::DynamicImage) {
    img.resize_exact(w, h, image::imageops::FilterType::Lanczos3)
}

/// Relies on image::DynamicImage::save_with_format: writes the image to
/// `path` in the lossless PNG raster format.
#[verifier::external_body]
fn save_png(img: &image::DynamicImage, path: &String) -> (r: Result<(), String>) {
    match img.save_with_format(std::path::Path::new(path.as_str()), image::ImageFormat::Png) {
        Ok(()) => Ok(()),
        Err(e) => Err(format!("{}", e)),
    }
}

/// `num / den`, rounded to the nearest integer (half rounds up).
pub open spec fn round_half(num: int, den: int) -> int {
    (2 * num + den) / (2 * den)
}

/// The downscaled length of the short side, given the long side is scaled
/// to the 300-pixel bound; at least one pixel.
pub open spec fn fitted_side(long: int, short: int) -> int {
    if round_half(300 * short, long) < 1 {
        1
    } else {
        round_half(300 * short, long)
    }
}

/// The thumbnail's dimensions: the largest size that fits within the fixed
/// 300-pixel bound while preserving the aspect ratio, each side at least
/// one pixel.
pub open spec fn fitted(w: int, h: int) -> (int, int) {
    if w <= 0 || h <= 0 {
        (1, 1)
    } else if w >= h {
        (300, fitted_side(w, h))
    } else {
        (fitted_side(h, w), 300)
    }
}

proof fn lemma_fitted_side_bound(long: int, short: int)
    requires
        1 <= short <= long,
    ensures
        1 <= fitted_side(long, short) <= 300,
{
    let a = 600 * short + long;
    let b = 2 * long;
    assert(a <= 601 * long);
    lemma_div_is_ordered(a, 601 * long, b);
    lemma_fundamental_div_mod_converse(601 * long, b, 300, long);
}

proof fn lemma_fitted_side_aspect(long: int, short: int)
    requires
        1 <= short <= long,
        long <= 600 * short,
    ensures
        2 * 300 * short <= 2 * fitted_side(long, short) * long + long,
        2 * fitted_side(long, short) * long <= 2 * 300 * short + long,
{
    let a = 600 * short + long;
    let b = 2 * long;
    let q = a / b;
    let r = a % b;
    lemma_fundamental_div_mod(a, b);
    lemma_mod_bound(a, b);
    assert(a >= b);
    lemma_div_is_ordered(b, a, b);
    lemma_fundamental_div_mod_converse(b, b, 1, 0);
    assert(q >= 1);
    assert(fitted_side(long, short) == q);
    assert(a == b * q + r);
    assert(b * q == 2 * q * long) by (nonlinear_arith)
        requires
            b == 2 * long,
    ;
    assert(600 * short == 2 * q * long + r - long);
    assert(2 * 300 * short <= 2 * q * long + long);
    assert(2 * q * long <= 2 * 300 * short + long);
}

/// Downscale invariant, size: both sides of the thumbnail are between one
/// pixel and the fixed 300-pixel bound, whatever the source dimensions.
pub proof fn lemma_thumb_bound(w: int, h: int)
    ensures
        1 <= fitted(w, h).0 <= 300,
        1 <= fitted(w, h).1 <= 300,
{
    if w <= 0 || h <= 0 {
    } else if w >= h {
        lemma_fitted_side_bound(w, h);
    } else {
        lemma_fitted_side_bound(h, w);
    }
}

/// Downscale invariant, aspect: the thumbnail's sides are in the source's
/// ratio to within half a pixel of rounding, for any source whose aspect
/// ratio the one-pixel floor does not clamp.
pub proof fn lemma_thumb_aspect(w: int, h: int)
    requires
        1 <= w,
        1 <= h,
        w <= 600 * h,
        h <= 600 * w,
    ensures
        2 * fitted(w, h).0 * h <= 2 * fitted(w, h).1 * w + (if w >= h {
            w
        } else {
            h
        }),
        2 * fitted(w, h).1 * w <= 2 * fitted(w, h).0 * h + (if w >= h {
            w
        } else {
            h
        }),
{
    if w >= h {
        lemma_fitted_side_aspect(w, h);
    } else {
        lemma_fitted_side_aspect(h, w);
    }
}

/// Computes the thumbnail's dimensions for a source of `w` by `h` pixels.
pub fn thumb_dims(w: u32, h: u32) -> (r: (u32, u32))
    ensures
        r.0 as int == fitted(w as int, h as int).0,
        r.1 as int == fitted(w as int, h as int).1,
{
    if w == 0 || h == 0 {
        return (1, 1);
    }
    if w >= h {
        let d: u64 = (600 * (h as u64) + (w as u64)) / (2 * (w as u64));
        proof {
            lemma_fitted_side_bound(w as int, h as int);
        }
        let t: u64 = if d < 1 {
            1
        } else {
            d
        };
        (300, t as u32)
    } else {
        let d: u64 = (600 * (w as u64) + (h as u64)) / (2 * (h as u64));
        proof {
            lemma_fitted_side_bound(h as int, w as int);
        }
        let t: u64 = if d < 1 {
            1
        } else {
            d
        };
        (t as u32, 300)
    }
}

/// Decodes the blob, persists the full-resolution copy and the downscaled
/// copy under names derived from `base_name` and the timestamp, and
/// reports both paths. Extraction fails with a decode error exactly when
/// the blob is not decodable as an image. When writing the downscaled
/// copy fails after the full copy was written, the full file is left in
/// place and the operation reports failure.
pub fn materialize(
    blob: &Vec<u8>,
    destination_dir: &String,
    base_name: &String,
    timestamp: i64,
) -> (r: Result<(String, String), ExtractError>)
    ensures
        r matches Ok(p) ==> p.0@ == joined(
            destination_dir@,
            full_image_name(base_name@, timestamp as int),
        ) && p.1@ == joined(destination_dir@, thumb_image_name(base_name@, timestamp as int)),
        r matches Err(e) ==> e is DecodeError || e is WriteError,
        (r matches Err(e) && e is DecodeError) <==> !decode_ok(blob@),
{
    let img = match decode_image(blob) {
        Ok(i) => i,
        Err(m) => {
            return Err(ExtractError::DecodeError(m));
        },
    };
    let dims = image_dims(&img);
    let full_name = make_full_image_name(base_name.as_str(), timestamp);
    let thumb_name = make_thumb_image_name(base_name.as_str(), timestamp);
    let full_path = join_path(destination_dir.as_str(), full_name.as_str());
    let thumb_path = join_path(destination_dir.as_str(), thumb_name.as_str());
    match save_png(&img, &full_path) {
        Ok(u) => u,
        Err(m) => {
            let mut msg = "full image: ".to_owned();
            msg.append(m.as_str());
            return Err(ExtractError::WriteError(msg));
        },
    }
    let target = thumb_dims(dims.0, dims.1);
    let small = resize_image(&img, target.0, target.1);
    match save_png(&small, &thumb_path) {
        Ok(u) => u,
        Err(m) => {
            let mut msg = "small thumbnail: ".to_owned();
            msg.append(m.as_str());
            return Err(ExtractError::WriteError(msg));
        },
    }
    Ok((full_path, thumb_path))
}

} // verus!
