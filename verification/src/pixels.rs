//! Decoded images as plain pixel buffers, and the crop of such a buffer.
//!
//! An image holds four 8-bit samples per pixel (red, green, blue, alpha),
//! row by row from the top-left corner. The samples are copied by the
//! `image` crate; what it copies where is stated by `is_crop`.

use vstd::prelude::*;
use image::GenericImage;
use crate::geometry::{
    BoundingBox,
    CropRectangle,
    Region,
    TargetAspectRatio,
    containing_bounds,
    crop_of,
    falls_back,
    lemma_target_is_not_empty,
    place_crop,
    target_dimensions,
};

verus! {

/// An image as contracts speak of it: its size in pixels and its samples.
pub struct Raster {
    /// Width in pixels.
    pub width: nat,
    /// Height in pixels.
    pub height: nat,
    /// Four samples per pixel, row by row.
    pub samples: Seq<u8>,
}

impl Raster {
    /// The image has at least one pixel and exactly four samples for each.
    pub open spec fn well_formed(self) -> bool {
        &&& self.width >= 1
        &&& self.height >= 1
        &&& self.samples.len() == 4 * self.width * self.height
    }
}

/// Position of a sample in a buffer of rows of `width` pixels.
pub open spec fn sample_index(width: int, x: int, y: int, channel: int) -> int {
    4 * (y * width + x) + channel
}

/// `samples` holds the `crop_width x crop_height` pixels of `source`, an
/// image with rows of `source_width` pixels, whose top-left corner is at
/// `(x, y)`.
pub open spec fn is_crop(
    samples: Seq<u8>,
    crop_width: int,
    crop_height: int,
    source: Seq<u8>,
    source_width: int,
    x: int,
    y: int,
) -> bool {
    &&& samples.len() == 4 * crop_width * crop_height
    &&& forall|column: int, row: int, channel: int|
        0 <= column < crop_width && 0 <= row < crop_height && 0 <= channel < 4 ==> samples[#[trigger] sample_index(
            crop_width,
            column,
            row,
            channel,
        )] == source[sample_index(source_width, x + column, y + row, channel)]
}

/// `cropped` is the part of `source` that `region` covers.
pub open spec fn is_crop_of(cropped: Raster, source: Raster, region: Region) -> bool {
    &&& cropped.width == region.max_x - region.min_x
    &&& cropped.height == region.max_y - region.min_y
    &&& is_crop(
        cropped.samples,
        cropped.width as int,
        cropped.height as int,
        source.samples,
        source.width as int,
        region.min_x,
        region.min_y,
    )
}

/// A decoded image: at least one pixel, four samples per pixel.
pub struct Image {
    width: u32,
    height: u32,
    samples: Vec<u8>,
}

impl View for Image {
    type V = Raster;

    closed spec fn view(&self) -> Raster {
        Raster { width: self.width as nat, height: self.height as nat, samples: self.samples@ }
    }
}

/// Copies a rectangle out of a buffer of RGBA samples with the `image`
/// crate: the buffer becomes an `RgbaImage`, `sub_image` selects the
/// rectangle and `to_image` copies it pixel by pixel into a new buffer of
/// the rectangle's size. `sub_image` refuses a rectangle that reaches
/// outside the image, and `from_raw` a buffer that is too short.
#[verifier::external_body]
fn copy_rectangle(
    samples: Vec<u8>,
    width: u32,
    height: u32,
    x: u32,
    y: u32,
    crop_width: u32,
    crop_height: u32,
) -> (cropped: Vec<u8>)
    requires
        samples.len() == 4 * width * height,
        x + crop_width <= width,
        y + crop_height <= height,
    ensures
        is_crop(
            cropped@,
            crop_width as int,
            crop_height as int,
            samples@,
            width as int,
            x as int,
            y as int,
        ),
{
    match image::RgbaImage::from_raw(width, height, samples) {
        Some(mut source) => source.sub_image(x, y, crop_width, crop_height).to_image().into_raw(),
        None => Vec::new(),
    }
}

impl Image {
    /// An image has at least one pixel and four samples for each pixel.
    #[verifier::type_invariant]
    pub closed spec fn wf(self) -> bool {
        &&& self.width >= 1
        &&& self.height >= 1
        &&& self.samples.len() == 4 * self.width * self.height
    }

    /// The view of an image is well formed and its size fits in 32 bits.
    pub proof fn lemma_view_well_formed(self)
        requires
            self.wf(),
        ensures
            self@.well_formed(),
            self@.width <= u32::MAX,
            self@.height <= u32::MAX,
    {
    }

    /// Wraps a buffer of samples as an image of `width x height` pixels;
    /// `None` when the image would be empty or the buffer has another
    /// length than four samples per pixel.
    pub fn new(width: u32, height: u32, samples: Vec<u8>) -> (image: Option<Image>)
        ensures
            image.is_some() <==> width >= 1 && height >= 1 && samples.len() == 4 * width * height,
            image matches Some(i) ==> i.wf() && i@ == (Raster {
                width: width as nat,
                height: height as nat,
                samples: samples@,
            }),
    {
        assert(4 * width * height <= 4 * 0xffff_ffff * 0xffff_ffff) by (nonlinear_arith)
            requires
                width <= 0xffff_ffff,
                height <= 0xffff_ffff,
        ;
        let needed: u128 = 4 * (width as u128) * (height as u128);
        if width >= 1 && height >= 1 && samples.len() as u128 == needed {
            Some(Image { width, height, samples })
        } else {
            None
        }
    }

    /// Width in pixels.
    pub fn width(&self) -> (width: u32)
        ensures
            width == self@.width,
            width >= 1,
    {
        proof {
            use_type_invariant(self);
        }
        self.width
    }

    /// Height in pixels.
    pub fn height(&self) -> (height: u32)
        ensures
            height == self@.height,
            height >= 1,
    {
        proof {
            use_type_invariant(self);
        }
        self.height
    }

    /// The samples, four per pixel, row by row.
    pub fn samples(&self) -> (samples: &Vec<u8>)
        ensures
            samples@ == self@.samples,
            samples@.len() == 4 * self@.width * self@.height,
    {
        proof {
            use_type_invariant(self);
        }
        &self.samples
    }

    /// Gives up the image for its samples.
    pub fn into_samples(self) -> (samples: Vec<u8>)
        ensures
            samples@ == self@.samples,
            samples@.len() == 4 * self@.width * self@.height,
    {
        proof {
            use_type_invariant(&self);
        }
        self.samples
    }

    /// Cuts a non-empty rectangle that lies inside the image out of it.
    fn cut(self, crop: &CropRectangle) -> (cropped: Image)
        requires
            crop.width >= 1,
            crop.height >= 1,
            crop.x + crop.width <= self@.width,
            crop.y + crop.height <= self@.height,
        ensures
            cropped.wf(),
            is_crop_of(cropped@, self@, crop@),
    {
        proof {
            use_type_invariant(&self);
        }
        let samples = copy_rectangle(
            self.samples,
            self.width,
            self.height,
            crop.x,
            crop.y,
            crop.width,
            crop.height,
        );
        Image { width: crop.width, height: crop.height, samples }
    }

    /// Cuts `crop` out of the image; `None` when the rectangle is empty or
    /// reaches outside the image.
    pub fn crop(self, crop: &CropRectangle) -> (cropped: Option<Image>)
        ensures
            cropped.is_some() <==> crop.width >= 1 && crop.height >= 1 && crop.x + crop.width
                <= self@.width && crop.y + crop.height <= self@.height,
            cropped matches Some(c) ==> c.wf() && is_crop_of(c@, self@, crop@),
    {
        proof {
            use_type_invariant(&self);
        }
        if crop.width >= 1 && crop.height >= 1 && crop.width <= self.width && crop.x <= self.width
            - crop.width && crop.height <= self.height && crop.y <= self.height - crop.height {
            Some(self.cut(crop))
        } else {
            None
        }
    }
}

/// An image cropped to a target ratio, with the rectangle that was kept.
pub struct CropOutcome {
    /// The cropped image.
    pub image: Image,
    /// The part of the source image that was kept.
    pub crop: CropRectangle,
    /// Whether the rounded dimension was unusable, so that the image kept
    /// its full extent. Callers report this as a warning.
    pub fallback: bool,
}

/// Crops an image to the target ratio around the faces detected in it.
///
/// The rectangle is the one that `crop_of` selects, and the result holds
/// exactly its pixels.
pub fn crop_to_ratio(image: Image, ratio: &TargetAspectRatio, faces: &Vec<BoundingBox>) -> (outcome:
    CropOutcome)
    ensures
        outcome.crop@ == crop_of(image@.width as int, image@.height as int, ratio@, faces@),
        outcome.fallback == falls_back(image@.width as int, image@.height as int, ratio@),
        outcome.image.wf(),
        is_crop_of(outcome.image@, image@, outcome.crop@),
{
    let width = image.width();
    let height = image.height();
    let dims = target_dimensions(width, height, ratio);
    let bounds = containing_bounds(width, height, dims.width, dims.height, faces);
    let crop = place_crop(width, height, dims.width, dims.height, &bounds, faces.len() > 0);
    proof {
        use_type_invariant(ratio);
        ratio.lemma_view_positive();
        lemma_target_is_not_empty(width as int, height as int, ratio@);
    }
    CropOutcome { image: image.cut(&crop), crop, fallback: dims.fallback }
}

} // verus!
