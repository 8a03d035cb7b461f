//! Crop geometry: which axis of an image is shrunk to reach a target aspect
//! ratio, how large the crop is, and where it is placed so that detected
//! faces stay in the frame.
//!
//! Everything here works on whole numbers. A target ratio is a pair of
//! positive integers of which only the quotient matters; a face is a
//! rectangle in image coordinates whose right and bottom edges are
//! exclusive (`x + width`, `y + height`).

use vstd::prelude::*;
use crate::numeric::{rounded_quotient, lemma_rounded_quotient_is_nearest, divide_rounded, cast_dimension};

verus! {

/// A ratio of two whole numbers, `width : height`, as contracts speak of it.
pub struct Ratio {
    /// The width term.
    pub width: nat,
    /// The height term.
    pub height: nat,
}

impl Ratio {
    /// Both terms are positive, so the quotient is defined and positive.
    pub open spec fn positive(self) -> bool {
        self.width > 0 && self.height > 0
    }
}

/// The aspect ratio a crop is asked to have: `width_ratio : height_ratio`.
/// Both terms are positive; only their quotient matters.
#[derive(Clone, Copy, Debug)]
pub struct TargetAspectRatio {
    width_ratio: u64,
    height_ratio: u64,
}

impl View for TargetAspectRatio {
    type V = Ratio;

    closed spec fn view(&self) -> Ratio {
        Ratio { width: self.width_ratio as nat, height: self.height_ratio as nat }
    }
}

impl TargetAspectRatio {
    /// Both terms of a ratio are positive.
    #[verifier::type_invariant]
    pub closed spec fn wf(self) -> bool {
        self.width_ratio > 0 && self.height_ratio > 0
    }

    /// The terms of a well-formed ratio are positive and fit in 64 bits.
    pub proof fn lemma_view_positive(self)
        requires
            self.wf(),
        ensures
            self@.positive(),
            self@.width <= u64::MAX,
            self@.height <= u64::MAX,
    {
    }

    /// Builds the ratio `width_ratio : height_ratio`; `None` when either
    /// term is zero.
    pub fn new(width_ratio: u64, height_ratio: u64) -> (ratio: Option<TargetAspectRatio>)
        ensures
            ratio.is_some() <==> width_ratio > 0 && height_ratio > 0,
            ratio matches Some(r) ==> r.wf() && r@ == (Ratio {
                width: width_ratio as nat,
                height: height_ratio as nat,
            }),
    {
        if width_ratio > 0 && height_ratio > 0 {
            Some(TargetAspectRatio { width_ratio, height_ratio })
        } else {
            None
        }
    }

    /// The width term of the ratio.
    pub fn width_ratio(&self) -> (term: u64)
        ensures
            term == self@.width,
            term > 0,
    {
        proof {
            use_type_invariant(self);
        }
        self.width_ratio
    }

    /// The height term of the ratio.
    pub fn height_ratio(&self) -> (term: u64)
        ensures
            term == self@.height,
            term > 0,
    {
        proof {
            use_type_invariant(self);
        }
        self.height_ratio
    }
}

/// The one axis of an image that a crop reduces.
#[derive(Clone, Copy, Debug, PartialEq, Eq, Structural)]
pub enum CropAxis {
    /// The image is relatively too wide: columns are cut away.
    Width,
    /// The image is relatively too tall, or already has the target ratio:
    /// rows are cut away.
    Height,
}

/// The size of the crop chosen for an image.
#[derive(Clone, Copy, Debug, PartialEq, Eq, Structural)]
pub struct TargetDimensions {
    /// The axis that is reduced.
    pub axis: CropAxis,
    /// Width of the crop in pixels.
    pub width: u32,
    /// Height of the crop in pixels.
    pub height: u32,
    /// Whether the rounded dimension was unusable, so that the image keeps
    /// its full extent on the crop axis. Callers report this as a warning.
    pub fallback: bool,
}

/// An image of `width x height` pixels is relatively wider than the ratio
/// `width_ratio : height_ratio`.
pub open spec fn wider_than(width: int, height: int, ratio: Ratio) -> bool {
    width * ratio.height > height * ratio.width
}

/// The width that gives an image of the given height the target ratio,
/// rounded to the nearest pixel.
pub open spec fn ideal_width(height: int, ratio: Ratio) -> int {
    rounded_quotient(height * ratio.width, ratio.height as int)
}

/// The height that gives an image of the given width the target ratio,
/// rounded to the nearest pixel.
pub open spec fn ideal_height(width: int, ratio: Ratio) -> int {
    rounded_quotient(width * ratio.height, ratio.width as int)
}

/// The axis that is reduced: the width of an image that is wider than the
/// target ratio, the height of every other image.
pub open spec fn crop_axis(width: int, height: int, ratio: Ratio) -> CropAxis {
    if wider_than(width, height, ratio) {
        CropAxis::Width
    } else {
        CropAxis::Height
    }
}

/// Whether the rounded dimension on the crop axis is unusable (it rounds to
/// zero), so that the full extent is kept instead.
pub open spec fn falls_back(width: int, height: int, ratio: Ratio) -> bool {
    if wider_than(width, height, ratio) {
        ideal_width(height, ratio) < 1
    } else {
        ideal_height(width, ratio) < 1
    }
}

/// Width of the crop: the ideal width where the width is reduced and the
/// ideal width is usable, the image's width otherwise.
pub open spec fn target_width(width: int, height: int, ratio: Ratio) -> int {
    if wider_than(width, height, ratio) && !falls_back(width, height, ratio) {
        ideal_width(height, ratio)
    } else {
        width
    }
}

/// Height of the crop: the ideal height where the height is reduced and the
/// ideal height is usable, the image's height otherwise.
pub open spec fn target_height(width: int, height: int, ratio: Ratio) -> int {
    if !wider_than(width, height, ratio) && !falls_back(width, height, ratio) {
        ideal_height(width, ratio)
    } else {
        height
    }
}

/// The crop never exceeds the image: the target size is at most the image
/// size on both axes, and equal to it on the axis that is not reduced.
pub proof fn lemma_target_within_image(width: int, height: int, ratio: Ratio)
    requires
        0 <= width,
        0 <= height,
        ratio.positive(),
    ensures
        0 <= target_width(width, height, ratio) <= width,
        0 <= target_height(width, height, ratio) <= height,
        crop_axis(width, height, ratio) == CropAxis::Width ==> target_height(width, height, ratio)
            == height,
        crop_axis(width, height, ratio) == CropAxis::Height ==> target_width(width, height, ratio)
            == width,
{
    let width_ratio = ratio.width as int;
    let height_ratio = ratio.height as int;
    if wider_than(width, height, ratio) {
        let n = height * width_ratio;
        let q = ideal_width(height, ratio);
        assert(0 <= n) by (nonlinear_arith)
            requires
                n == height * width_ratio,
                0 <= height,
                0 < width_ratio,
        ;
        lemma_rounded_quotient_is_nearest(n, height_ratio);
        assert(q <= width) by (nonlinear_arith)
            requires
                2 * height_ratio * q <= 2 * n + height_ratio,
                n < width * height_ratio,
                0 < height_ratio,
        ;
    } else {
        let n = width * height_ratio;
        let q = ideal_height(width, ratio);
        assert(0 <= n) by (nonlinear_arith)
            requires
                n == width * height_ratio,
                0 <= width,
                0 < height_ratio,
        ;
        lemma_rounded_quotient_is_nearest(n, width_ratio);
        assert(q <= height) by (nonlinear_arith)
            requires
                2 * width_ratio * q <= 2 * n + width_ratio,
                n <= height * width_ratio,
                0 < width_ratio,
        ;
    }
}

/// The crop of an image with at least one pixel has at least one pixel.
pub proof fn lemma_target_is_not_empty(width: int, height: int, ratio: Ratio)
    requires
        1 <= width,
        1 <= height,
        ratio.positive(),
    ensures
        1 <= target_width(width, height, ratio),
        1 <= target_height(width, height, ratio),
{
}

/// Chooses the axis to reduce and the size of the crop for an image of
/// `image_width x image_height` pixels.
///
/// An image wider than the target ratio keeps its height and gets the width
/// `round(image_height * width_ratio / height_ratio)`; every other image
/// keeps its width and gets the height
/// `round(image_width * height_ratio / width_ratio)`. Where that rounds to
/// zero the image keeps its full extent and `fallback` is set.
pub fn target_dimensions(image_width: u32, image_height: u32, ratio: &TargetAspectRatio) -> (dims:
    TargetDimensions)
    ensures
        dims.axis == crop_axis(image_width as int, image_height as int, ratio@),
        dims.width == target_width(image_width as int, image_height as int, ratio@),
        dims.height == target_height(image_width as int, image_height as int, ratio@),
        dims.fallback == falls_back(image_width as int, image_height as int, ratio@),
        dims.width <= image_width,
        dims.height <= image_height,
{
    let width_ratio = ratio.width_ratio();
    let height_ratio = ratio.height_ratio();
    proof {
        lemma_target_within_image(image_width as int, image_height as int, ratio@);
        assert(image_width * height_ratio <= 0xffff_ffff * 0xffff_ffff_ffff_ffff) by (nonlinear_arith)
            requires
                image_width <= 0xffff_ffff,
                height_ratio <= 0xffff_ffff_ffff_ffff,
        ;
        assert(image_height * width_ratio <= 0xffff_ffff * 0xffff_ffff_ffff_ffff) by (nonlinear_arith)
            requires
                image_height <= 0xffff_ffff,
                width_ratio <= 0xffff_ffff_ffff_ffff,
        ;
    }
    let scaled_width: u128 = (image_width as u128) * (height_ratio as u128);
    let scaled_height: u128 = (image_height as u128) * (width_ratio as u128);
    if scaled_width > scaled_height {
        let ideal = divide_rounded(scaled_height, height_ratio);
        match cast_dimension(ideal) {
            Some(width) if width >= 1 => TargetDimensions {
                axis: CropAxis::Width,
                width,
                height: image_height,
                fallback: false,
            },
            _ => TargetDimensions {
                axis: CropAxis::Width,
                width: image_width,
                height: image_height,
                fallback: true,
            },
        }
    } else {
        let ideal = divide_rounded(scaled_width, width_ratio);
        match cast_dimension(ideal) {
            Some(height) if height >= 1 => TargetDimensions {
                axis: CropAxis::Height,
                width: image_width,
                height,
                fallback: false,
            },
            _ => TargetDimensions {
                axis: CropAxis::Height,
                width: image_width,
                height: image_height,
                fallback: true,
            },
        }
    }
}

/// An axis-aligned region of the image plane, in pixels. The `min` edges
/// are inclusive and the `max` edges exclusive, and a region may reach
/// outside the image.
pub struct Region {
    /// Left edge.
    pub min_x: int,
    /// Right edge.
    pub max_x: int,
    /// Top edge.
    pub min_y: int,
    /// Bottom edge.
    pub max_y: int,
}

impl Region {
    /// The smallest region that holds both `self` and `other`.
    pub open spec fn hull(self, other: Region) -> Region {
        Region {
            min_x: if other.min_x < self.min_x {
                other.min_x
            } else {
                self.min_x
            },
            max_x: if other.max_x > self.max_x {
                other.max_x
            } else {
                self.max_x
            },
            min_y: if other.min_y < self.min_y {
                other.min_y
            } else {
                self.min_y
            },
            max_y: if other.max_y > self.max_y {
                other.max_y
            } else {
                self.max_y
            },
        }
    }

    /// `other` lies inside `self`.
    pub open spec fn contains(self, other: Region) -> bool {
        &&& self.min_x <= other.min_x
        &&& other.max_x <= self.max_x
        &&& self.min_y <= other.min_y
        &&& other.max_y <= self.max_y
    }
}

/// A detected face: top-left corner and size in image coordinates. The
/// corner may lie outside the image and the size may be zero.
#[derive(Clone, Copy, Debug, PartialEq, Eq, Structural)]
pub struct BoundingBox {
    /// Left edge.
    pub x: i32,
    /// Top edge.
    pub y: i32,
    /// Extent to the right of `x`.
    pub width: u32,
    /// Extent below `y`.
    pub height: u32,
}

impl View for BoundingBox {
    type V = Region;

    open spec fn view(&self) -> Region {
        Region {
            min_x: self.x as int,
            max_x: self.x + self.width,
            min_y: self.y as int,
            max_y: self.y + self.height,
        }
    }
}

/// The region that a crop should keep in view: the union of the detected
/// faces, or a centred default when there are none.
#[derive(Clone, Copy, Debug, PartialEq, Eq, Structural)]
pub struct Bounds {
    /// Left edge.
    pub min_x: i64,
    /// Right edge, exclusive.
    pub max_x: i64,
    /// Top edge.
    pub min_y: i64,
    /// Bottom edge, exclusive.
    pub max_y: i64,
}

impl View for Bounds {
    type V = Region;

    open spec fn view(&self) -> Region {
        Region {
            min_x: self.min_x as int,
            max_x: self.max_x as int,
            min_y: self.min_y as int,
            max_y: self.max_y as int,
        }
    }
}

/// The part of an image that is kept: top-left corner and size in pixels.
#[derive(Clone, Copy, Debug, PartialEq, Eq, Structural)]
pub struct CropRectangle {
    /// Left edge.
    pub x: u32,
    /// Top edge.
    pub y: u32,
    /// Width of the crop.
    pub width: u32,
    /// Height of the crop.
    pub height: u32,
}

impl View for CropRectangle {
    type V = Region;

    open spec fn view(&self) -> Region {
        Region {
            min_x: self.x as int,
            max_x: self.x + self.width,
            min_y: self.y as int,
            max_y: self.y + self.height,
        }
    }
}

/// The smallest region that holds every face of a non-empty sequence.
pub open spec fn union_of(faces: Seq<BoundingBox>) -> Region
    recommends
        faces.len() > 0,
    decreases faces.len(),
{
    if faces.len() <= 1 {
        faces[0]@
    } else {
        union_of(faces.drop_last()).hull(faces.last()@)
    }
}

/// The window of `crop_width x crop_height` pixels centred in an image of
/// `width x height` pixels. On an axis that is not reduced it spans the
/// whole image.
pub open spec fn default_region(width: int, height: int, crop_width: int, crop_height: int) -> Region {
    Region {
        min_x: (width - crop_width) / 2,
        max_x: (width - crop_width) / 2 + crop_width,
        min_y: (height - crop_height) / 2,
        max_y: (height - crop_height) / 2 + crop_height,
    }
}

/// The region a crop is placed around: the union of the faces, or the
/// centred default window when no face was detected.
pub open spec fn containing_region(
    width: int,
    height: int,
    crop_width: int,
    crop_height: int,
    faces: Seq<BoundingBox>,
) -> Region {
    if faces.len() == 0 {
        default_region(width, height, crop_width, crop_height)
    } else {
        union_of(faces)
    }
}

/// The offset that centres a crop of the given extent on the span from
/// `min` to `max`. A negative candidate is rounded downward; clamping
/// replaces it by zero whichever way it is rounded.
pub open spec fn centered_offset(min: int, max: int, crop_extent: int) -> int {
    (min + max - crop_extent) / 2
}

/// The vertical offset that leaves a fifth of the crop's height above the
/// top of the faces, so that heads sit near the top of the frame.
pub open spec fn head_biased_offset(min_y: int, crop_height: int) -> int {
    min_y - crop_height / 5
}

/// Moves a candidate offset into the image: `max(0, min(candidate,
/// image_extent - crop_extent))`.
pub open spec fn clamp_offset(candidate: int, image_extent: int, crop_extent: int) -> int {
    let limit = image_extent - crop_extent;
    let capped = if candidate < limit {
        candidate
    } else {
        limit
    };
    if capped < 0 {
        0
    } else {
        capped
    }
}

/// The crop of `crop_width x crop_height` pixels placed around `region`.
///
/// Horizontally the crop is centred on the region. Vertically it is
/// centred too unless `head_bias` is set; then its top edge is put a fifth
/// of its height above the region's top. Both offsets are clamped into the
/// image.
pub open spec fn placed(
    width: int,
    height: int,
    crop_width: int,
    crop_height: int,
    region: Region,
    head_bias: bool,
) -> Region {
    let x = clamp_offset(centered_offset(region.min_x, region.max_x, crop_width), width, crop_width);
    let candidate_y = if head_bias {
        head_biased_offset(region.min_y, crop_height)
    } else {
        centered_offset(region.min_y, region.max_y, crop_height)
    };
    let y = clamp_offset(candidate_y, height, crop_height);
    Region { min_x: x, max_x: x + crop_width, min_y: y, max_y: y + crop_height }
}

/// The crop of an image of `width x height` pixels for a target ratio and
/// the faces detected in it.
///
/// The head bias applies exactly when at least one face was detected: with
/// no face there is nothing to anchor to and the crop is centred.
pub open spec fn crop_of(width: int, height: int, ratio: Ratio, faces: Seq<BoundingBox>) -> Region {
    let crop_width = target_width(width, height, ratio);
    let crop_height = target_height(width, height, ratio);
    placed(
        width,
        height,
        crop_width,
        crop_height,
        containing_region(width, height, crop_width, crop_height, faces),
        faces.len() > 0,
    )
}

impl Bounds {
    /// The bounds of a single face.
    pub fn of_face(face: &BoundingBox) -> (bounds: Bounds)
        ensures
            bounds@ == face@,
    {
        Bounds {
            min_x: face.x as i64,
            max_x: face.x as i64 + face.width as i64,
            min_y: face.y as i64,
            max_y: face.y as i64 + face.height as i64,
        }
    }

    /// Widens the bounds so that they hold `face` as well.
    pub fn widen(&self, face: &BoundingBox) -> (bounds: Bounds)
        ensures
            bounds@ == self@.hull(face@),
    {
        let other = Bounds::of_face(face);
        Bounds {
            min_x: if other.min_x < self.min_x {
                other.min_x
            } else {
                self.min_x
            },
            max_x: if other.max_x > self.max_x {
                other.max_x
            } else {
                self.max_x
            },
            min_y: if other.min_y < self.min_y {
                other.min_y
            } else {
                self.min_y
            },
            max_y: if other.max_y > self.max_y {
                other.max_y
            } else {
                self.max_y
            },
        }
    }
}

/// The union of the detected faces; `None` when there is no face.
pub fn face_bounds(faces: &Vec<BoundingBox>) -> (bounds: Option<Bounds>)
    ensures
        bounds.is_none() <==> faces.len() == 0,
        bounds matches Some(b) ==> b@ == union_of(faces@),
{
    if faces.len() == 0 {
        return None;
    }
    let mut bounds = Bounds::of_face(&faces[0]);
    let mut index: usize = 1;
    assert(faces@.subrange(0, 1).len() == 1);
    while index < faces.len()
        invariant
            1 <= index <= faces.len(),
            bounds@ == union_of(faces@.subrange(0, index as int)),
        decreases faces.len() - index,
    {
        proof {
            let prefix = faces@.subrange(0, index + 1);
            assert(prefix.drop_last() =~= faces@.subrange(0, index as int));
            assert(prefix.last() == faces@[index as int]);
        }
        bounds = bounds.widen(&faces[index]);
        index += 1;
    }
    assert(faces@.subrange(0, index as int) =~= faces@);
    Some(bounds)
}

/// The centred default window for a crop of `crop_width x crop_height`
/// pixels in an image of `image_width x image_height` pixels.
pub fn default_bounds(image_width: u32, image_height: u32, crop_width: u32, crop_height: u32) -> (bounds:
    Bounds)
    requires
        crop_width <= image_width,
        crop_height <= image_height,
    ensures
        bounds@ == default_region(
            image_width as int,
            image_height as int,
            crop_width as int,
            crop_height as int,
        ),
{
    let min_x: u32 = (image_width - crop_width) / 2;
    let min_y: u32 = (image_height - crop_height) / 2;
    Bounds {
        min_x: min_x as i64,
        max_x: min_x as i64 + crop_width as i64,
        min_y: min_y as i64,
        max_y: min_y as i64 + crop_height as i64,
    }
}

/// The region a crop is placed around: the union of `faces`, or the
/// centred default window when `faces` is empty.
pub fn containing_bounds(
    image_width: u32,
    image_height: u32,
    crop_width: u32,
    crop_height: u32,
    faces: &Vec<BoundingBox>,
) -> (bounds: Bounds)
    requires
        crop_width <= image_width,
        crop_height <= image_height,
    ensures
        bounds@ == containing_region(
            image_width as int,
            image_height as int,
            crop_width as int,
            crop_height as int,
            faces@,
        ),
{
    match face_bounds(faces) {
        Some(bounds) => bounds,
        None => default_bounds(image_width, image_height, crop_width, crop_height),
    }
}

/// Clamps a candidate offset, given as `numerator / 2`, into the image.
fn clamp_half(numerator: i128, image_extent: u32, crop_extent: u32) -> (offset: u32)
    requires
        crop_extent <= image_extent,
    ensures
        offset == clamp_offset(numerator as int / 2, image_extent as int, crop_extent as int),
        offset + crop_extent <= image_extent,
{
    let limit: u32 = image_extent - crop_extent;
    if numerator <= 0 {
        0
    } else {
        let candidate: i128 = numerator / 2;
        if candidate < limit as i128 {
            candidate as u32
        } else {
            limit
        }
    }
}

/// Clamps a candidate offset into the image.
fn clamp_whole(candidate: i128, image_extent: u32, crop_extent: u32) -> (offset: u32)
    requires
        crop_extent <= image_extent,
    ensures
        offset == clamp_offset(candidate as int, image_extent as int, crop_extent as int),
        offset + crop_extent <= image_extent,
{
    let limit: u32 = image_extent - crop_extent;
    if candidate <= 0 {
        0
    } else if candidate < limit as i128 {
        candidate as u32
    } else {
        limit
    }
}

/// Places a crop of `crop_width x crop_height` pixels around `bounds` and
/// clamps it into the image.
///
/// The crop is centred on the bounds horizontally. Vertically it is centred
/// as well, unless `head_bias` is set: then its top edge lies a fifth of
/// its height above the top of the bounds.
pub fn place_crop(
    image_width: u32,
    image_height: u32,
    crop_width: u32,
    crop_height: u32,
    bounds: &Bounds,
    head_bias: bool,
) -> (crop: CropRectangle)
    requires
        crop_width <= image_width,
        crop_height <= image_height,
    ensures
        crop@ == placed(
            image_width as int,
            image_height as int,
            crop_width as int,
            crop_height as int,
            bounds@,
            head_bias,
        ),
        crop.width == crop_width,
        crop.height == crop_height,
        crop.x + crop.width <= image_width,
        crop.y + crop.height <= image_height,
{
    let x = clamp_half(
        bounds.min_x as i128 + bounds.max_x as i128 - crop_width as i128,
        image_width,
        crop_width,
    );
    let y = if head_bias {
        clamp_whole(bounds.min_y as i128 - (crop_height / 5) as i128, image_height, crop_height)
    } else {
        clamp_half(
            bounds.min_y as i128 + bounds.max_y as i128 - crop_height as i128,
            image_height,
            crop_height,
        )
    };
    CropRectangle { x, y, width: crop_width, height: crop_height }
}

/// Computes the crop of an image of `image_width x image_height` pixels
/// for a target ratio and the faces detected in the image.
///
/// The crop has the target ratio up to rounding, reduces one axis only,
/// lies inside the image, and is placed around the faces; without faces it
/// is centred.
pub fn compute_crop(
    image_width: u32,
    image_height: u32,
    ratio: &TargetAspectRatio,
    faces: &Vec<BoundingBox>,
) -> (crop: CropRectangle)
    ensures
        crop@ == crop_of(image_width as int, image_height as int, ratio@, faces@),
        crop.x + crop.width <= image_width,
        crop.y + crop.height <= image_height,
{
    let dims = target_dimensions(image_width, image_height, ratio);
    let bounds = containing_bounds(image_width, image_height, dims.width, dims.height, faces);
    place_crop(image_width, image_height, dims.width, dims.height, &bounds, faces.len() > 0)
}

/// The union of a non-empty sequence of faces holds each of them.
pub proof fn lemma_union_holds_each_face(faces: Seq<BoundingBox>, index: int)
    requires
        0 <= index < faces.len(),
    ensures
        union_of(faces).contains(faces[index]@),
    decreases faces.len(),
{
    if faces.len() > 1 {
        if index < faces.len() - 1 {
            lemma_union_holds_each_face(faces.drop_last(), index);
        }
    }
}

/// The union of a non-empty sequence of faces is the smallest region that
/// holds them all: it lies inside every region that does.
pub proof fn lemma_union_is_smallest(faces: Seq<BoundingBox>, region: Region)
    requires
        faces.len() > 0,
        forall|index: int| 0 <= index < faces.len() ==> region.contains(#[trigger] faces[index]@),
    ensures
        region.contains(union_of(faces)),
    decreases faces.len(),
{
    if faces.len() > 1 {
        let front = faces.drop_last();
        assert forall|index: int| 0 <= index < front.len() implies region.contains(
            #[trigger] front[index]@,
        ) by {
            assert(front[index] == faces[index]);
        }
        lemma_union_is_smallest(front, region);
        assert(region.contains(faces[faces.len() - 1]@));
    } else {
        assert(region.contains(faces[0]@));
    }
}

/// Where the rounded dimension is usable, the crop has the target ratio up
/// to rounding: its reduced dimension is within half a pixel of the value
/// that gives the ratio exactly.
pub proof fn lemma_crop_has_target_ratio(width: int, height: int, ratio: Ratio, faces: Seq<BoundingBox>)
    requires
        0 <= width,
        0 <= height,
        ratio.positive(),
        !falls_back(width, height, ratio),
    ensures
        ({
            let crop = crop_of(width, height, ratio, faces);
            let crop_width = crop.max_x - crop.min_x;
            let crop_height = crop.max_y - crop.min_y;
            if crop_axis(width, height, ratio) == CropAxis::Width {
                -ratio.height < 2 * (crop_width * ratio.height - crop_height * ratio.width)
                    <= ratio.height
            } else {
                -ratio.width < 2 * (crop_height * ratio.width - crop_width * ratio.height)
                    <= ratio.width
            }
        }),
{
    let width_ratio = ratio.width as int;
    let height_ratio = ratio.height as int;
    if wider_than(width, height, ratio) {
        let n = height * width_ratio;
        let q = ideal_width(height, ratio);
        assert(0 <= n) by (nonlinear_arith)
            requires
                n == height * width_ratio,
                0 <= height,
                0 < width_ratio,
        ;
        lemma_rounded_quotient_is_nearest(n, height_ratio);
        assert(2 * (q * height_ratio - n) == 2 * height_ratio * q - 2 * n) by (nonlinear_arith);
    } else {
        let n = width * height_ratio;
        let q = ideal_height(width, ratio);
        assert(0 <= n) by (nonlinear_arith)
            requires
                n == width * height_ratio,
                0 <= width,
                0 < height_ratio,
        ;
        lemma_rounded_quotient_is_nearest(n, width_ratio);
        assert(2 * (q * width_ratio - n) == 2 * width_ratio * q - 2 * n) by (nonlinear_arith);
    }
}

/// The crop lies inside the image, wherever the faces are: also when they
/// reach over an edge or lie outside the image altogether.
pub proof fn lemma_crop_within_image(width: int, height: int, ratio: Ratio, faces: Seq<BoundingBox>)
    requires
        0 <= width,
        0 <= height,
        ratio.positive(),
    ensures
        ({
            let crop = crop_of(width, height, ratio, faces);
            &&& 0 <= crop.min_x <= crop.max_x <= width
            &&& 0 <= crop.min_y <= crop.max_y <= height
        }),
{
    lemma_target_within_image(width, height, ratio);
}

/// Without faces the crop is the centred window of the target size: a
/// plain centre crop to the target ratio.
pub proof fn lemma_no_faces_centered(width: int, height: int, ratio: Ratio)
    requires
        0 <= width,
        0 <= height,
        ratio.positive(),
    ensures
        crop_of(width, height, ratio, Seq::<BoundingBox>::empty()) == default_region(
            width,
            height,
            target_width(width, height, ratio),
            target_height(width, height, ratio),
        ),
{
    lemma_target_within_image(width, height, ratio);
}

/// The head bias leaves the centred window alone when the crop is under
/// five pixels high or the image has at most one row to spare.
pub open spec fn head_bias_at_rest(height: int, crop_height: int) -> bool {
    crop_height / 5 == 0 || (height - crop_height) / 2 == 0
}

/// A single face that is exactly the centred default window gives the crop
/// that no face gives, provided the head bias is at rest.
pub proof fn lemma_default_face_same_as_none(width: int, height: int, ratio: Ratio, face: BoundingBox)
    requires
        0 <= width,
        0 <= height,
        ratio.positive(),
        face@ == default_region(
            width,
            height,
            target_width(width, height, ratio),
            target_height(width, height, ratio),
        ),
        head_bias_at_rest(height, target_height(width, height, ratio)),
    ensures
        crop_of(width, height, ratio, seq![face]) == crop_of(
            width,
            height,
            ratio,
            Seq::<BoundingBox>::empty(),
        ),
{
    lemma_target_within_image(width, height, ratio);
    assert(seq![face].len() == 1);
    assert(seq![face][0] == face);
}

/// Where the head bias is not at rest, a single face that is exactly the
/// centred default window moves the crop upward.
pub proof fn lemma_default_face_raises_crop(width: int, height: int, ratio: Ratio, face: BoundingBox)
    requires
        0 <= width,
        0 <= height,
        ratio.positive(),
        face@ == default_region(
            width,
            height,
            target_width(width, height, ratio),
            target_height(width, height, ratio),
        ),
        !head_bias_at_rest(height, target_height(width, height, ratio)),
    ensures
        crop_of(width, height, ratio, seq![face]).min_y < crop_of(
            width,
            height,
            ratio,
            Seq::<BoundingBox>::empty(),
        ).min_y,
{
    lemma_target_within_image(width, height, ratio);
    assert(seq![face].len() == 1);
    assert(seq![face][0] == face);
}

/// An image that already has the target ratio is kept whole: the crop has
/// the image's size and sits at the origin, whatever faces were detected.
pub proof fn lemma_matching_ratio_keeps_image(
    width: int,
    height: int,
    ratio: Ratio,
    faces: Seq<BoundingBox>,
)
    requires
        0 <= width,
        0 <= height,
        ratio.positive(),
        width * ratio.height == height * ratio.width,
    ensures
        crop_of(width, height, ratio, faces) == (Region {
            min_x: 0,
            max_x: width,
            min_y: 0,
            max_y: height,
        }),
{
    let width_ratio = ratio.width as int;
    assert(2 * width_ratio * height == 2 * (height * width_ratio)) by (nonlinear_arith);
    crate::numeric::lemma_rounded_quotient_unique(width * ratio.height, width_ratio, height);
    assert(ideal_height(width, ratio) == height);
}

} // verus!
