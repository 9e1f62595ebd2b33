use vstd::prelude::*;

verus! {

/// One stored asset: the catalog record for an uploaded image.
///
/// `id` is generated at upload time and never changes; `user_id` is the
/// identity of the uploader and is the basis of every access check;
/// `filename` is the collision-safe storage name (id combined with the
/// user-supplied name) while `original_filename` is the name the user gave;
/// `file_size` is the byte length of the payload at upload time;
/// `created_at` is assigned by the catalog at insert time.
#[derive(Debug)]
pub struct Image {
    pub id: String,
    pub user_id: String,
    pub filename: String,
    pub original_filename: String,
    pub file_size: u64,
    pub mime_type: String,
    pub storage_path: String,
    pub created_at: Option<u64>,
}

impl Clone for Image {
    fn clone(&self) -> (r: Self)
        ensures
            r == *self,
    {
        Image {
            id: self.id.clone(),
            user_id: self.user_id.clone(),
            filename: self.filename.clone(),
            original_filename: self.original_filename.clone(),
            file_size: self.file_size,
            mime_type: self.mime_type.clone(),
            storage_path: self.storage_path.clone(),
            created_at: self.created_at,
        }
    }
}

/// Target dimensions for the resize stage: the image is resampled to
/// exactly this size. A zero dimension is rejected as a validation error.
#[derive(Debug, Clone, Copy)]
pub struct Resize {
    pub width: u32,
    pub height: u32,
}

/// The crop rectangle: origin and size. A rectangle that exceeds the source
/// bounds is rejected as a validation error, never silently clamped.
#[derive(Debug, Clone, Copy)]
pub struct Crop {
    pub x: u32,
    pub y: u32,
    pub width: u32,
    pub height: u32,
}

/// Independently toggleable pixel filters. `blur` is the radius of a
/// Gaussian-class blur. `sepia` is accepted but currently has no effect.
#[derive(Debug, Clone, Copy)]
pub struct Filters {
    pub grayscale: bool,
    pub sepia: bool,
    pub blur: Option<u16>,
}

/// A request-scoped description of zero or more operations to apply, in a
/// fixed evaluation order: resize, crop, rotate, filters, re-encode.
///
/// `rotate` acts only for 90, 180 and 270 degrees; any other value is a
/// deliberate no-op. `format` selects the output encoding (`jpeg` or `png`,
/// case-insensitively); when absent the output is JPEG.
#[derive(Debug)]
pub struct ImageTransformation {
    pub resize: Option<Resize>,
    pub crop: Option<Crop>,
    pub rotate: Option<u32>,
    pub format: Option<String>,
    pub filters: Option<Filters>,
}

} // verus!
