use smartcropper::geometry::{
    compute_crop, containing_bounds, default_bounds, face_bounds, place_crop, target_dimensions,
    BoundingBox, Bounds, CropAxis, CropRectangle, TargetAspectRatio, TargetDimensions,
};

fn ratio(width: u64, height: u64) -> TargetAspectRatio {
    TargetAspectRatio::new(width, height).expect("both terms are positive")
}

fn face(x: i32, y: i32, width: u32, height: u32) -> BoundingBox {
    BoundingBox { x, y, width, height }
}

fn rectangle(x: u32, y: u32, width: u32, height: u32) -> CropRectangle {
    CropRectangle { x, y, width, height }
}

#[test]
fn ratio_needs_positive_terms() {
    assert!(TargetAspectRatio::new(0, 1).is_none());
    assert!(TargetAspectRatio::new(1, 0).is_none());
    assert!(TargetAspectRatio::new(0, 0).is_none());
    let built = TargetAspectRatio::new(16, 9).expect("both terms are positive");
    assert_eq!(built.width_ratio(), 16);
    assert_eq!(built.height_ratio(), 9);
}

#[test]
fn wide_image_loses_width() {
    let dims = target_dimensions(1000, 500, &ratio(1, 1));
    assert_eq!(
        dims,
        TargetDimensions { axis: CropAxis::Width, width: 500, height: 500, fallback: false }
    );
}

#[test]
fn tall_image_loses_height() {
    let dims = target_dimensions(500, 1000, &ratio(1, 1));
    assert_eq!(
        dims,
        TargetDimensions { axis: CropAxis::Height, width: 500, height: 500, fallback: false }
    );
}

#[test]
fn only_the_quotient_of_the_ratio_matters() {
    let small = target_dimensions(1920, 1080, &ratio(4, 3));
    let large = target_dimensions(1920, 1080, &ratio(4000, 3000));
    assert_eq!(small, large);
    assert_eq!(
        small,
        TargetDimensions { axis: CropAxis::Width, width: 1440, height: 1080, fallback: false }
    );
}

#[test]
fn dimension_is_rounded_to_the_nearest_pixel() {
    // 333 * 16 / 9 = 592 exactly.
    assert_eq!(target_dimensions(1000, 333, &ratio(16, 9)).width, 592);
    // 100 * 3 / 7 = 42.86 rounds up, where truncation would give 42.
    assert_eq!(target_dimensions(1000, 100, &ratio(3, 7)).width, 43);
    // 100 * 2 / 7 = 28.57 rounds up.
    assert_eq!(target_dimensions(1000, 100, &ratio(2, 7)).width, 29);
    // 100 * 9 / 7 = 128.57 rows for a tall image.
    assert_eq!(target_dimensions(100, 1000, &ratio(7, 9)).height, 129);
    // 100 * 3 / 10 = 30 rows.
    assert_eq!(target_dimensions(100, 1000, &ratio(10, 3)).height, 30);
}

#[test]
fn half_a_pixel_rounds_upward() {
    // 3 * 1 / 2 = 1.5
    let dims = target_dimensions(10, 3, &ratio(1, 2));
    assert_eq!(
        dims,
        TargetDimensions { axis: CropAxis::Width, width: 2, height: 3, fallback: false }
    );
}

#[test]
fn dimension_that_rounds_to_zero_falls_back() {
    // 1 * 1 / 3 rounds to zero: the width is kept.
    let dims = target_dimensions(3, 1, &ratio(1, 3));
    assert_eq!(
        dims,
        TargetDimensions { axis: CropAxis::Width, width: 3, height: 1, fallback: true }
    );
    let tall = target_dimensions(1, 3, &ratio(3, 1));
    assert_eq!(
        tall,
        TargetDimensions { axis: CropAxis::Height, width: 1, height: 3, fallback: true }
    );
}

#[test]
fn extreme_ratio_terms_do_not_overflow() {
    let dims = target_dimensions(u32::MAX, u32::MAX, &ratio(u64::MAX, u64::MAX));
    assert_eq!(
        dims,
        TargetDimensions {
            axis: CropAxis::Height,
            width: u32::MAX,
            height: u32::MAX,
            fallback: false
        }
    );
    let narrow = target_dimensions(u32::MAX, u32::MAX, &ratio(1, u64::MAX));
    assert_eq!(narrow.axis, CropAxis::Width);
    assert!(narrow.fallback);
    assert_eq!(narrow.width, u32::MAX);
}

#[test]
fn empty_image_is_kept_as_it_is() {
    let crop = compute_crop(0, 0, &ratio(1, 1), &Vec::new());
    assert_eq!(crop, rectangle(0, 0, 0, 0));
}

#[test]
fn crop_ratio_is_within_half_a_pixel_of_the_target() {
    let sizes: [(u32, u32); 5] = [(1000, 500), (640, 480), (337, 911), (1, 1), (4000, 3000)];
    let ratios: [(u64, u64); 5] = [(1, 1), (16, 9), (9, 16), (3, 2), (7, 5)];
    for (width, height) in sizes {
        for (width_ratio, height_ratio) in ratios {
            let dims = target_dimensions(width, height, &ratio(width_ratio, height_ratio));
            if dims.fallback {
                continue;
            }
            let crop_width = i128::from(dims.width);
            let crop_height = i128::from(dims.height);
            let excess = crop_width * i128::from(height_ratio) - crop_height * i128::from(width_ratio);
            let tolerance = match dims.axis {
                CropAxis::Width => i128::from(height_ratio),
                CropAxis::Height => i128::from(width_ratio),
            };
            assert!(2 * excess.abs() <= tolerance);
        }
    }
}

#[test]
fn default_bounds_are_the_centred_window() {
    assert_eq!(
        default_bounds(1000, 500, 500, 500),
        Bounds { min_x: 250, max_x: 750, min_y: 0, max_y: 500 }
    );
    assert_eq!(
        default_bounds(500, 1001, 500, 500),
        Bounds { min_x: 0, max_x: 500, min_y: 250, max_y: 750 }
    );
}

#[test]
fn bounds_of_no_faces_are_absent() {
    assert_eq!(face_bounds(&Vec::new()), None);
}

#[test]
fn bounds_are_the_union_of_the_faces() {
    let faces = vec![face(800, 100, 100, 100), face(-20, 300, 50, 10), face(400, 50, 5, 500)];
    assert_eq!(
        face_bounds(&faces),
        Some(Bounds { min_x: -20, max_x: 900, min_y: 50, max_y: 550 })
    );
}

#[test]
fn bounds_of_duplicate_faces_are_those_of_one() {
    let faces = vec![face(10, 20, 30, 40), face(10, 20, 30, 40)];
    assert_eq!(face_bounds(&faces), Some(Bounds { min_x: 10, max_x: 40, min_y: 20, max_y: 60 }));
}

#[test]
fn bounds_hold_faces_at_the_limits_of_the_coordinates() {
    let faces = vec![face(i32::MIN, i32::MIN, 0, 0), face(i32::MAX, i32::MAX, u32::MAX, u32::MAX)];
    assert_eq!(
        face_bounds(&faces),
        Some(Bounds {
            min_x: i64::from(i32::MIN),
            max_x: i64::from(i32::MAX) + i64::from(u32::MAX),
            min_y: i64::from(i32::MIN),
            max_y: i64::from(i32::MAX) + i64::from(u32::MAX),
        })
    );
}

#[test]
fn faces_replace_the_default_bounds() {
    let faces = vec![face(800, 100, 100, 100)];
    assert_eq!(
        containing_bounds(1000, 500, 500, 500, &faces),
        Bounds { min_x: 800, max_x: 900, min_y: 100, max_y: 200 }
    );
    assert_eq!(
        containing_bounds(1000, 500, 500, 500, &Vec::new()),
        Bounds { min_x: 250, max_x: 750, min_y: 0, max_y: 500 }
    );
}

#[test]
fn worked_example() {
    let target = ratio(1, 1);
    let dims = target_dimensions(1000, 500, &target);
    assert_eq!(dims.axis, CropAxis::Width);
    assert_eq!((dims.width, dims.height), (500, 500));
    let faces = vec![face(800, 100, 100, 100)];
    let bounds = containing_bounds(1000, 500, dims.width, dims.height, &faces);
    assert_eq!(bounds, Bounds { min_x: 800, max_x: 900, min_y: 100, max_y: 200 });
    let placed = place_crop(1000, 500, dims.width, dims.height, &bounds, true);
    assert_eq!(placed, rectangle(500, 0, 500, 500));
    assert_eq!(compute_crop(1000, 500, &target, &faces), rectangle(500, 0, 500, 500));
}

#[test]
fn no_faces_give_the_centre_crop() {
    assert_eq!(compute_crop(1000, 500, &ratio(1, 1), &Vec::new()), rectangle(250, 0, 500, 500));
    assert_eq!(compute_crop(500, 1000, &ratio(1, 1), &Vec::new()), rectangle(0, 250, 500, 500));
    assert_eq!(compute_crop(1001, 500, &ratio(1, 1), &Vec::new()), rectangle(250, 0, 500, 500));
    assert_eq!(compute_crop(1920, 1080, &ratio(4, 3), &Vec::new()), rectangle(240, 0, 1440, 1080));
}

#[test]
fn face_equal_to_the_default_bounds_changes_nothing_for_a_wide_image() {
    let target = ratio(1, 1);
    let none = compute_crop(1000, 500, &target, &Vec::new());
    let one = compute_crop(1000, 500, &target, &vec![face(250, 0, 500, 500)]);
    assert_eq!(one, none);
}

#[test]
fn face_equal_to_the_default_bounds_changes_nothing_for_a_small_tall_image() {
    // The crop is four pixels high: a fifth of it is no whole pixel.
    let target = ratio(1, 1);
    let none = compute_crop(4, 10, &target, &Vec::new());
    let one = compute_crop(4, 10, &target, &vec![face(0, 3, 4, 4)]);
    assert_eq!(none, rectangle(0, 3, 4, 4));
    assert_eq!(one, none);
}

#[test]
fn face_equal_to_the_default_bounds_is_lifted_by_the_head_bias() {
    let target = ratio(1, 1);
    let none = compute_crop(100, 300, &target, &Vec::new());
    let one = compute_crop(100, 300, &target, &vec![face(0, 100, 100, 100)]);
    assert_eq!(none, rectangle(0, 100, 100, 100));
    assert_eq!(one, rectangle(0, 80, 100, 100));
}

#[test]
fn image_with_the_target_ratio_is_kept_whole() {
    let faces = vec![face(1500, 800, 100, 100), face(-50, -50, 10, 10)];
    assert_eq!(compute_crop(1600, 900, &ratio(16, 9), &faces), rectangle(0, 0, 1600, 900));
    assert_eq!(compute_crop(1600, 900, &ratio(16, 9), &Vec::new()), rectangle(0, 0, 1600, 900));
    assert_eq!(compute_crop(900, 1600, &ratio(9, 16), &faces), rectangle(0, 0, 900, 1600));
    assert_eq!(compute_crop(7, 7, &ratio(3, 3), &faces), rectangle(0, 0, 7, 7));
}

#[test]
fn crop_is_centred_on_the_faces_horizontally() {
    // (300 + 400 - 500) / 2 = 100
    let faces = vec![face(300, 0, 100, 100)];
    assert_eq!(compute_crop(1000, 500, &ratio(1, 1), &faces), rectangle(100, 0, 500, 500));
    // (100 + 201 - 500) / 2 is negative and clamps to the left edge.
    let left = vec![face(100, 0, 101, 100)];
    assert_eq!(compute_crop(1000, 500, &ratio(1, 1), &left), rectangle(0, 0, 500, 500));
    // (600 + 701 - 500) / 2 = 400 after rounding down.
    let odd = vec![face(600, 0, 101, 100)];
    assert_eq!(compute_crop(1000, 500, &ratio(1, 1), &odd), rectangle(400, 0, 500, 500));
}

#[test]
fn crop_leaves_headroom_above_the_faces() {
    // 400 - 500 / 5 = 300
    let faces = vec![face(100, 400, 100, 100)];
    assert_eq!(compute_crop(500, 1000, &ratio(1, 1), &faces), rectangle(0, 300, 500, 500));
    // 600 - 100 = 500, the lowest offset there is.
    let low = vec![face(100, 600, 100, 100)];
    assert_eq!(compute_crop(500, 1000, &ratio(1, 1), &low), rectangle(0, 500, 500, 500));
    // 50 - 100 is negative and clamps to the top edge.
    let high = vec![face(100, 50, 100, 100)];
    assert_eq!(compute_crop(500, 1000, &ratio(1, 1), &high), rectangle(0, 0, 500, 500));
    // The topmost face decides.
    let two = vec![face(100, 900, 50, 50), face(300, 250, 50, 50)];
    assert_eq!(compute_crop(500, 1000, &ratio(1, 1), &two), rectangle(0, 150, 500, 500));
}

#[test]
fn vertical_placement_without_head_bias_is_centred() {
    let bounds = Bounds { min_x: 0, max_x: 500, min_y: 600, max_y: 700 };
    // (600 + 700 - 500) / 2 = 400
    assert_eq!(place_crop(500, 1000, 500, 500, &bounds, false), rectangle(0, 400, 500, 500));
    // 600 - 100 = 500
    assert_eq!(place_crop(500, 1000, 500, 500, &bounds, true), rectangle(0, 500, 500, 500));
}

#[test]
fn crop_stays_inside_the_image_whatever_the_faces() {
    let candidates = vec![
        face(-500, -500, 100, 100),
        face(5000, 5000, 10, 10),
        face(-10, 200, 3000, 5),
        face(990, 490, 100, 100),
        face(i32::MIN, i32::MIN, u32::MAX, u32::MAX),
        face(i32::MAX, i32::MAX, u32::MAX, u32::MAX),
        face(0, 0, 0, 0),
    ];
    let sizes: [(u32, u32); 4] = [(1000, 500), (500, 1000), (1, 1), (333, 777)];
    let ratios: [(u64, u64); 4] = [(1, 1), (16, 9), (9, 16), (1, 1000)];
    for (width, height) in sizes {
        for (width_ratio, height_ratio) in ratios {
            let target = ratio(width_ratio, height_ratio);
            for first in 0..candidates.len() {
                for second in 0..candidates.len() {
                    let faces = vec![candidates[first], candidates[second]];
                    let crop = compute_crop(width, height, &target, &faces);
                    assert!(u64::from(crop.x) + u64::from(crop.width) <= u64::from(width));
                    assert!(u64::from(crop.y) + u64::from(crop.height) <= u64::from(height));
                    assert!(crop.width == width || crop.height == height);
                }
            }
        }
    }
}
