use vstd::prelude::*;
use vstd::string::*;
use crate::domain::{Crop, Filters, ImageTransformation, Resize};
use crate::error::ServiceError;

verus! {

#[verifier::external_type_specification]
#[verifier::external_body]
pub struct ExDynamicImage(image::DynamicImage);

/// The width in pixels of an in-memory image.
pub uninterp spec fn img_width(img: image::DynamicImage) -> u32;

/// The height in pixels of an in-memory image.
pub uninterp spec fn img_height(img: image::DynamicImage) -> u32;

/// Whether the image holds its pixels in one of the integer sample formats
/// (8- or 16-bit channels). Both enabled decoders produce only these, every
/// pipeline stage maps them to integer formats again, and the PNG encoder
/// accepts exactly these.
pub uninterp spec fn img_encodable(img: image::DynamicImage) -> bool;

/// What decoding a byte string yields: the pixel dimensions of the decoded
/// image, or nothing when the bytes are not a decodable image. Decoding is
/// a function of the bytes alone.
pub uninterp spec fn decoded_dims(bytes: Seq<u8>) -> Option<(u32, u32)>;

/// The image value a byte string decodes to, when it decodes at all.
pub uninterp spec fn decoded_img(bytes: Seq<u8>) -> image::DynamicImage;

/// Whether decoding identifies a byte string as PNG rather than JPEG: the
/// format signature the encoders write and the decoder's format guess reads.
pub uninterp spec fn detected_png(bytes: Seq<u8>) -> bool;

/// The image an exact resample to (tw, th) produces.
pub uninterp spec fn resized_img(img: image::DynamicImage, tw: u32, th: u32) -> image::DynamicImage;

/// The cut-out an in-bounds crop rectangle produces.
pub uninterp spec fn cropped_img(
    img: image::DynamicImage,
    x: u32,
    y: u32,
    w: u32,
    h: u32,
) -> image::DynamicImage;

/// The image a clockwise quarter turn produces.
pub uninterp spec fn rotated90_img(img: image::DynamicImage) -> image::DynamicImage;

/// The image a half turn produces.
pub uninterp spec fn rotated180_img(img: image::DynamicImage) -> image::DynamicImage;

/// The image a counter-clockwise quarter turn produces.
pub uninterp spec fn rotated270_img(img: image::DynamicImage) -> image::DynamicImage;

/// The image full desaturation produces.
pub uninterp spec fn grayscaled_img(img: image::DynamicImage) -> image::DynamicImage;

/// The image a Gaussian-class blur of the given radius produces.
pub uninterp spec fn blurred_img(img: image::DynamicImage, radius: u16) -> image::DynamicImage;

/// The bytes encoding an image as PNG (or JPEG) yields when it succeeds.
/// Both encoders are deterministic functions of the image and the format.
pub uninterp spec fn encoded_bytes(img: image::DynamicImage, png: bool) -> Seq<u8>;

/// A conservative bound under which re-decoding cannot hit the decoder's
/// default allocation limit of 512 MiB: the pixel buffer fits even at the
/// widest sample format of 8 bytes per pixel.
pub open spec fn fits_decode_limit(d: (u32, u32)) -> bool {
    (d.0 as int) * (d.1 as int) * 8 <= 536870912
}

/// Relies on image::load_from_memory: whether bytes decode, and the value
/// and size of what they decode to, depend on the bytes alone. Only the
/// JPEG and PNG decoders are enabled; neither accepts a zero-dimension
/// image, and both produce integer sample formats.
#[verifier::external_body]
fn decode_image(bytes: &[u8]) -> (r: Result<image::DynamicImage, String>)
    ensures
        r is Ok <==> decoded_dims(bytes@) is Some,
        r matches Ok(img) ==> decoded_dims(bytes@) == Some((img_width(img), img_height(img)))
            && img_width(img) >= 1 && img_height(img) >= 1,
        r matches Ok(img) ==> img == decoded_img(bytes@) && img_encodable(img),
{
    image::load_from_memory(bytes).map_err(|e| e.to_string())
}

/// Relies on image::DynamicImage::width and ::height.
#[verifier::external_body]
fn image_dims(img: &image::DynamicImage) -> (r: (u32, u32))
    ensures
        r.0 == img_width(*img),
        r.1 == img_height(*img),
{
    (img.width(), img.height())
}

/// Relies on image::DynamicImage::resize_exact with Lanczos resampling:
/// the image is resampled to exactly the requested size, and the pixel
/// format is kept.
#[verifier::external_body]
fn resize_image(img: &image::DynamicImage, tw: u32, th: u32) -> (r: image::DynamicImage)
    requires
        img_width(*img) >= 1,
        img_height(*img) >= 1,
    ensures
        r == resized_img(*img, tw, th),
        img_width(r) == tw,
        img_height(r) == th,
        img_encodable(*img) ==> img_encodable(r),
{
    img.resize_exact(tw, th, image::imageops::FilterType::Lanczos3)
}

/// Relies on image::DynamicImage::crop_imm: a rectangle within the source
/// bounds is cut out at exactly its own size, in the same pixel format.
#[verifier::external_body]
fn crop_image(img: &image::DynamicImage, x: u32, y: u32, w: u32, h: u32) -> (r:
    image::DynamicImage)
    requires
        x + w <= img_width(*img),
        y + h <= img_height(*img),
    ensures
        r == cropped_img(*img, x, y, w, h),
        img_width(r) == w,
        img_height(r) == h,
        img_encodable(*img) ==> img_encodable(r),
{
    img.crop_imm(x, y, w, h)
}

/// Relies on image::DynamicImage::rotate90: a quarter turn swaps the
/// dimensions and keeps the pixel format.
#[verifier::external_body]
fn rotate90_image(img: &image::DynamicImage) -> (r: image::DynamicImage)
    ensures
        r == rotated90_img(*img),
        img_width(r) == img_height(*img),
        img_height(r) == img_width(*img),
        img_encodable(*img) ==> img_encodable(r),
{
    img.rotate90()
}

/// Relies on image::DynamicImage::rotate180: a half turn keeps the
/// dimensions and the pixel format.
#[verifier::external_body]
fn rotate180_image(img: &image::DynamicImage) -> (r: image::DynamicImage)
    ensures
        r == rotated180_img(*img),
        img_width(r) == img_width(*img),
        img_height(r) == img_height(*img),
        img_encodable(*img) ==> img_encodable(r),
{
    img.rotate180()
}

/// Relies on image::DynamicImage::rotate270: a quarter turn swaps the
/// dimensions and keeps the pixel format.
#[verifier::external_body]
fn rotate270_image(img: &image::DynamicImage) -> (r: image::DynamicImage)
    ensures
        r == rotated270_img(*img),
        img_width(r) == img_height(*img),
        img_height(r) == img_width(*img),
        img_encodable(*img) ==> img_encodable(r),
{
    img.rotate270()
}

/// Relies on image::DynamicImage::grayscale: full desaturation keeps the
/// dimensions, and maps integer sample formats to integer luma formats.
#[verifier::external_body]
fn grayscale_image(img: &image::DynamicImage) -> (r: image::DynamicImage)
    ensures
        r == grayscaled_img(*img),
        img_width(r) == img_width(*img),
        img_height(r) == img_height(*img),
        img_encodable(*img) ==> img_encodable(r),
{
    img.grayscale()
}

/// Relies on image::DynamicImage::blur: a Gaussian-class blur keeps the
/// dimensions and maps each pixel format to itself.
#[verifier::external_body]
fn blur_image(img: &image::DynamicImage, radius: u16) -> (r: image::DynamicImage)
    ensures
        r == blurred_img(*img, radius),
        img_width(r) == img_width(*img),
        img_height(r) == img_height(*img),
        img_encodable(*img) ==> img_encodable(r),
{
    img.blur(radius.into())
}

/// Relies on image::DynamicImage::write_to with the JPEG or PNG encoder.
/// Both encoders are deterministic and write their format's signature. The
/// JPEG path converts any pixel format and fails exactly when a dimension
/// falls outside 1..=65535; the PNG path accepts every integer sample
/// format and any dimensions of an image that exists in memory. Both
/// record the pixel dimensions, so output bytes decode again to an image
/// of the same size — provided the pixel buffer stays within the decoder's
/// default allocation limit.
#[verifier::external_body]
fn encode_image(img: &image::DynamicImage, png: bool) -> (r: Result<Vec<u8>, String>)
    requires
        img_width(*img) >= 1,
        img_height(*img) >= 1,
    ensures
        r matches Ok(out) ==> out@ == encoded_bytes(*img, png),
        r matches Ok(out) ==> detected_png(out@) == png,
        r matches Ok(out) ==> (fits_decode_limit((img_width(*img), img_height(*img)))
            ==> decoded_dims(out@) == Some((img_width(*img), img_height(*img)))),
        !png && img_width(*img) <= 65535 && img_height(*img) <= 65535 ==> r is Ok,
        png && img_encodable(*img) ==> r is Ok,
{
    let mut buffer = std::io::Cursor::new(Vec::new());
    let format = if png {
        image::ImageFormat::Png
    } else {
        image::ImageFormat::Jpeg
    };
    img.write_to(&mut buffer, format).map_err(|e| e.to_string())?;
    Ok(buffer.into_inner())
}

/// The two supported output encodings.
#[derive(Debug, Clone, Copy, PartialEq, Eq, Structural)]
pub enum OutputFormat {
    Jpeg,
    Png,
}

/// Whether `a` matches `b` up to ASCII case, for a lowercase `b`.
pub open spec fn char_eq_ci(a: char, b: char) -> bool {
    a == b || (a as u32) + 32 == (b as u32)
}

/// Character-wise ASCII-case-insensitive equality with a lowercase pattern.
pub open spec fn chars_eq_ci(s: Seq<char>, pat: Seq<char>) -> bool {
    s.len() == pat.len() && (forall|i: int| 0 <= i < s.len() ==> char_eq_ci(s[i], pat[i]))
}

/// The output encoding a transformation asks for: JPEG when unspecified,
/// `jpeg`/`jpg`/`png` case-insensitively, nothing for any other string.
pub open spec fn spec_output_format(t: ImageTransformation) -> Option<OutputFormat> {
    match t.format {
        None => Some(OutputFormat::Jpeg),
        Some(s) => if chars_eq_ci(s@, "jpeg"@) || chars_eq_ci(s@, "jpg"@) {
            Some(OutputFormat::Jpeg)
        } else if chars_eq_ci(s@, "png"@) {
            Some(OutputFormat::Png)
        } else {
            None
        },
    }
}

/// The mime type of an output encoding.
pub open spec fn mime_of(f: OutputFormat) -> Seq<char> {
    match f {
        OutputFormat::Jpeg => "image/jpeg"@,
        OutputFormat::Png => "image/png"@,
    }
}

/// Whether the requested resize stage names a usable target: both
/// dimensions at least 1. A zero target is rejected as a validation error.
pub open spec fn resize_ok(r: Option<Resize>) -> bool {
    match r {
        Some(rs) => rs.width >= 1 && rs.height >= 1,
        None => true,
    }
}

/// The dimensions after the optional resize stage: exactly the requested
/// target.
pub open spec fn resized_dims(d: (u32, u32), r: Option<Resize>) -> (u32, u32) {
    match r {
        Some(rs) => (rs.width, rs.height),
        None => d,
    }
}

/// Whether a crop rectangle lies within an image of size `d` and is not
/// empty.
pub open spec fn crop_ok(d: (u32, u32), c: Crop) -> bool {
    &&& c.width >= 1
    &&& c.height >= 1
    &&& c.x + c.width <= d.0
    &&& c.y + c.height <= d.1
}

/// The dimensions after the optional rotation stage: 90 and 270 degrees
/// swap them, 180 keeps them, any other angle is a no-op by design.
pub open spec fn rotated_dims(d: (u32, u32), rotate: Option<u32>) -> (u32, u32) {
    match rotate {
        Some(angle) => if angle == 90 || angle == 270 {
            (d.1, d.0)
        } else {
            d
        },
        None => d,
    }
}

/// The output dimensions of the whole pipeline on a source of size `d0`,
/// or nothing when the resize target is empty or the crop rectangle does
/// not fit its input.
pub open spec fn spec_pipeline_dims(d0: (u32, u32), t: ImageTransformation) -> Option<(u32, u32)> {
    if !resize_ok(t.resize) {
        None
    } else {
        let d1 = resized_dims(d0, t.resize);
        match t.crop {
            Some(c) => if crop_ok(d1, c) {
                Some(rotated_dims((c.width, c.height), t.rotate))
            } else {
                None
            },
            None => Some(rotated_dims(d1, t.rotate)),
        }
    }
}

/// Whether dimensions are encodable in the given format: JPEG takes both
/// sides in 1..=65535, PNG any positive size.
pub open spec fn encode_dims_ok(d: (u32, u32), f: OutputFormat) -> bool {
    match f {
        OutputFormat::Jpeg => 1 <= d.0 <= 65535 && 1 <= d.1 <= 65535,
        OutputFormat::Png => 1 <= d.0 && 1 <= d.1,
    }
}

/// The image value after the optional rotation stage.
pub open spec fn rotated_img(img: image::DynamicImage, rotate: Option<u32>) -> image::DynamicImage {
    match rotate {
        Some(angle) => if angle == 90 {
            rotated90_img(img)
        } else if angle == 180 {
            rotated180_img(img)
        } else if angle == 270 {
            rotated270_img(img)
        } else {
            img
        },
        None => img,
    }
}

/// The image value after the optional filter stage.
pub open spec fn filtered_img(img: image::DynamicImage, fl: Option<Filters>) -> image::DynamicImage {
    match fl {
        Some(f) => {
            let g = if f.grayscale {
                grayscaled_img(img)
            } else {
                img
            };
            match f.blur {
                Some(radius) => blurred_img(g, radius),
                None => g,
            }
        },
        None => img,
    }
}

/// The image value the whole pipeline produces from a decoded source: the
/// stages composed in their fixed order. With `encoded_bytes` this pins
/// the engine's output bytes as a function of its inputs alone.
pub open spec fn pipeline_img(src: image::DynamicImage, t: ImageTransformation) -> image::DynamicImage {
    let a = match t.resize {
        Some(rs) => resized_img(src, rs.width, rs.height),
        None => src,
    };
    let b = match t.crop {
        Some(c) => cropped_img(a, c.x, c.y, c.width, c.height),
        None => a,
    };
    filtered_img(rotated_img(b, t.rotate), t.filters)
}

/// ASCII-case-insensitive comparison of a string with a lowercase pattern.
fn str_eq_ci(s: &str, pat: &str) -> (r: bool)
    ensures
        r == chars_eq_ci(s@, pat@),
{
    let n = s.unicode_len();
    let m = pat.unicode_len();
    if n != m {
        return false;
    }
    let mut i: usize = 0;
    while i < n
        invariant
            i <= n,
            n == s@.len(),
            n == pat@.len(),
            forall|j: int| 0 <= j < i ==> char_eq_ci(s@[j], pat@[j]),
        decreases n - i,
    {
        let a = s.get_char(i);
        let b = pat.get_char(i);
        let au = a as u32;
        let bu = b as u32;
        if !(a == b || au + 32 == bu) {
            proof {
                assert(!char_eq_ci(s@[i as int], pat@[i as int]));
            }
            return false;
        }
        i += 1;
    }
    true
}

/// The transformation engine: a pure function from source bytes and a
/// transformation to output bytes and a mime type. It holds no state and
/// knows nothing of ownership or persistence.
pub struct ImageProcessor;

impl ImageProcessor {
    /// Runs the fixed pipeline: decode, resize (to exactly the requested
    /// size), crop, rotate, filters, re-encode. Undecodable bytes, a
    /// zero-size resize target, a crop rectangle that exceeds its input
    /// (or is empty), and an unsupported output format are validation
    /// errors; so is a failure of the final encoder, whose message is
    /// passed through. Success is owed whenever the stages are valid and
    /// the output dimensions are encodable in the chosen format; the
    /// output bytes are then a function of the inputs alone, carry the
    /// chosen format's signature, and — within the decoder's allocation
    /// limit — decode again to the pipeline's dimensions. No partial
    /// output is ever returned.
    pub fn process_image(&self, image_data: &[u8], transformations: &ImageTransformation) -> (r:
        Result<(Vec<u8>, String), ServiceError>)
        ensures
            decoded_dims(image_data@) is None ==> (r matches Err(
                ServiceError::ValidationError(_),
            )),
            spec_output_format(*transformations) is None ==> (r matches Err(
                ServiceError::ValidationError(_),
            )),
            (match decoded_dims(image_data@) {
                Some(d0) => spec_pipeline_dims(d0, *transformations) is None,
                None => false,
            }) ==> (r matches Err(ServiceError::ValidationError(_))),
            r matches Err(e) ==> e matches ServiceError::ValidationError(_),
            r matches Ok(out) ==> (match (
                decoded_dims(image_data@),
                spec_output_format(*transformations),
            ) {
                (Some(d0), Some(f)) => match spec_pipeline_dims(d0, *transformations) {
                    Some(df) => {
                        &&& out.0@ == encoded_bytes(
                            pipeline_img(decoded_img(image_data@), *transformations),
                            f == OutputFormat::Png,
                        )
                        &&& detected_png(out.0@) == (f == OutputFormat::Png)
                        &&& (fits_decode_limit(df) ==> decoded_dims(out.0@) == Some(df))
                        &&& out.1@ == mime_of(f)
                    },
                    None => false,
                },
                _ => false,
            }),
            (match (decoded_dims(image_data@), spec_output_format(*transformations)) {
                (Some(d0), Some(f)) => match spec_pipeline_dims(d0, *transformations) {
                    Some(df) => encode_dims_ok(df, f) ==> r is Ok,
                    None => true,
                },
                _ => true,
            }),
    {
        let mut img = match decode_image(image_data) {
            Ok(i) => i,
            Err(msg) => {
                return Err(ServiceError::ValidationError(msg));
            },
        };
        match &transformations.resize {
            Some(resize) => {
                if resize.width == 0 || resize.height == 0 {
                    return Err(
                        ServiceError::ValidationError(
                            String::from_str("resize dimensions must be nonzero"),
                        ),
                    );
                }
                img = resize_image(&img, resize.width, resize.height);
            },
            None => {},
        }
        match &transformations.crop {
            Some(crop) => {
                let (w, h) = image_dims(&img);
                let fits = crop.width >= 1 && crop.height >= 1 && crop.x <= w && crop.width <= w
                    - crop.x && crop.y <= h && crop.height <= h - crop.y;
                if !fits {
                    return Err(
                        ServiceError::ValidationError(
                            String::from_str("crop rectangle out of bounds"),
                        ),
                    );
                }
                img = crop_image(&img, crop.x, crop.y, crop.width, crop.height);
            },
            None => {},
        }
        match transformations.rotate {
            Some(angle) => {
                if angle == 90 {
                    img = rotate90_image(&img);
                } else if angle == 180 {
                    img = rotate180_image(&img);
                } else if angle == 270 {
                    img = rotate270_image(&img);
                }
            },
            None => {},
        }
        match &transformations.filters {
            Some(filters) => {
                if filters.grayscale {
                    img = grayscale_image(&img);
                }
                match filters.blur {
                    Some(radius) => {
                        img = blur_image(&img, radius);
                    },
                    None => {},
                }
            },
            None => {},
        }
        let png = match &transformations.format {
            None => false,
            Some(s) => {
                if str_eq_ci(s.as_str(), "jpeg") || str_eq_ci(s.as_str(), "jpg") {
                    false
                } else if str_eq_ci(s.as_str(), "png") {
                    true
                } else {
                    return Err(
                        ServiceError::ValidationError(
                            String::from_str("unsupported output format"),
                        ),
                    );
                }
            },
        };
        proof {
            assert(img == pipeline_img(decoded_img(image_data@), *transformations));
        }
        match encode_image(&img, png) {
            Ok(out) => {
                let mime = if png {
                    String::from_str("image/png")
                } else {
                    String::from_str("image/jpeg")
                };
                Ok((out, mime))
            },
            Err(msg) => Err(ServiceError::ValidationError(msg)),
        }
    }
}

/// With no operation specified the pipeline leaves the dimensions alone:
/// with `process_image`'s contract, re-decoding what it encoded yields the
/// source dimensions (within the decoder's allocation limit), and success
/// is owed whenever those dimensions are encodable in the chosen format.
pub proof fn lemma_no_op_dims(d: (u32, u32), t: ImageTransformation)
    requires
        t.resize is None,
        t.crop is None,
        t.rotate is None,
    ensures
        spec_pipeline_dims(d, t) == Some(d),
{
}

/// Rotation by 90 or 270 degrees on a W-by-H source yields H-by-W output
/// dimensions; 180 degrees yields W-by-H.
pub proof fn lemma_rotation_dims(d: (u32, u32), t: ImageTransformation)
    requires
        t.resize is None,
        t.crop is None,
    ensures
        t.rotate == Some(90u32) || t.rotate == Some(270u32) ==> spec_pipeline_dims(d, t) == Some(
            (d.1, d.0),
        ),
        t.rotate == Some(180u32) ==> spec_pipeline_dims(d, t) == Some(d),
{
}

/// A format string that names neither JPEG nor PNG, case-insensitively, is
/// not encodable: `process_image` then fails with a validation error and
/// returns no bytes.
pub proof fn lemma_unsupported_format(t: ImageTransformation)
    requires
        match t.format {
            Some(s) => !chars_eq_ci(s@, "jpeg"@) && !chars_eq_ci(s@, "jpg"@) && !chars_eq_ci(
                s@,
                "png"@,
            ),
            None => false,
        },
    ensures
        spec_output_format(t) is None,
{
}

} // verus!
