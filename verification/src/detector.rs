//! What the crate asks of a face detector, and what it takes from one.
//!
//! The detector itself is the caller's: it looks at a grayscale view of the
//! decoded image and returns rectangles in image coordinates. This module
//! fixes the settings it is run with and turns its answer into the faces
//! that the geometry works on.

use vstd::prelude::*;
use crate::geometry::BoundingBox;

verus! {

/// Smallest face size a detector accepts, in pixels.
pub const SMALLEST_FACE: u32 = 20;

/// Score below which a detection is dropped, in tenths.
pub const SCORE_THRESHOLD_TENTHS: u32 = 20;

/// Factor between adjacent scales of the image pyramid, in hundredths.
pub const PYRAMID_SCALE_HUNDREDTHS: u32 = 80;

/// Step of the sliding window in both directions, in pixels.
pub const SLIDE_WINDOW_STEP: u32 = 4;

/// The settings a detector is run with.
#[derive(Clone, Copy, Debug, PartialEq, Eq, Structural)]
pub struct DetectorSettings {
    /// Smallest face to look for, in pixels.
    pub min_face_size: u32,
    /// Score below which a detection is dropped, in tenths.
    pub score_threshold_tenths: u32,
    /// Factor between adjacent scales of the image pyramid, in hundredths.
    pub pyramid_scale_hundredths: u32,
    /// Horizontal step of the sliding window, in pixels.
    pub slide_window_step_x: u32,
    /// Vertical step of the sliding window, in pixels.
    pub slide_window_step_y: u32,
}

/// The smallest face looked for in an image of the given width: a
/// hundredth of the width, and never less than `SMALLEST_FACE`.
pub open spec fn min_face_size_of(image_width: int) -> int {
    if image_width / 100 >= SMALLEST_FACE {
        image_width / 100
    } else {
        SMALLEST_FACE as int
    }
}

/// The settings for an image of the given width. All but the smallest face
/// size are the same for every image.
pub open spec fn settings_of(image_width: int) -> DetectorSettings {
    DetectorSettings {
        min_face_size: min_face_size_of(image_width) as u32,
        score_threshold_tenths: SCORE_THRESHOLD_TENTHS,
        pyramid_scale_hundredths: PYRAMID_SCALE_HUNDREDTHS,
        slide_window_step_x: SLIDE_WINDOW_STEP,
        slide_window_step_y: SLIDE_WINDOW_STEP,
    }
}

impl DetectorSettings {
    /// The settings lie in the ranges a detector accepts: faces of at
    /// least twenty pixels, positive steps, a positive threshold and a
    /// scale factor strictly between 0.01 and 0.99.
    pub open spec fn acceptable(self) -> bool {
        &&& self.min_face_size >= SMALLEST_FACE
        &&& self.slide_window_step_x > 0
        &&& self.slide_window_step_y > 0
        &&& self.score_threshold_tenths > 0
        &&& 1 < self.pyramid_scale_hundredths < 99
    }
}

/// The smallest face looked for in an image of the given width, so that
/// sensitivity scales with resolution.
pub fn min_face_size(image_width: u32) -> (size: u32)
    ensures
        size == min_face_size_of(image_width as int),
        size >= SMALLEST_FACE,
{
    let scaled: u32 = image_width / 100;
    if scaled >= SMALLEST_FACE {
        scaled
    } else {
        SMALLEST_FACE
    }
}

/// The settings a detector is run with on an image of the given width.
pub fn detector_settings(image_width: u32) -> (settings: DetectorSettings)
    ensures
        settings == settings_of(image_width as int),
        settings.acceptable(),
{
    DetectorSettings {
        min_face_size: min_face_size(image_width),
        score_threshold_tenths: SCORE_THRESHOLD_TENTHS,
        pyramid_scale_hundredths: PYRAMID_SCALE_HUNDREDTHS,
        slide_window_step_x: SLIDE_WINDOW_STEP,
        slide_window_step_y: SLIDE_WINDOW_STEP,
    }
}

/// The faces to place the crop around, given what the detector returned. A
/// detection that failed counts as one that found no face.
pub fn detected_faces(detection: Option<Vec<BoundingBox>>) -> (faces: Vec<BoundingBox>)
    ensures
        faces@ == match detection {
            Some(found) => found@,
            None => Seq::<BoundingBox>::empty(),
        },
{
    match detection {
        Some(found) => found,
        None => Vec::new(),
    }
}

} // verus!
