use plate_detector::error::PipelineError;
use plate_detector::fixed::FIXED_ONE;
use plate_detector::postprocess::{
    clamp_round, crop_box, postprocess, rescale, rescale_box, select_max_score, PixelBox,
};
use plate_detector::raster::{Image, Region};
use plate_detector::tensor::Tensor;

fn tensor(shape: Vec<usize>, data: Vec<i64>) -> Tensor<i64> {
    Tensor::from_shape_vec(shape, data).unwrap()
}

fn millionths(values: &[i64]) -> Vec<i64> {
    values.iter().map(|v| v * 100_000).collect()
}

#[test]
fn select_max_score_takes_first_maximum() {
    let scores = millionths(&[1, 9, 3, 9, 2]);
    assert_eq!(select_max_score(&scores), Some(1));
}

#[test]
fn select_max_score_edge_cases() {
    assert_eq!(select_max_score(&vec![]), None);
    assert_eq!(select_max_score(&vec![-3]), Some(0));
    assert_eq!(select_max_score(&vec![5, 5, 5]), Some(0));
    assert_eq!(select_max_score(&vec![1, 2, 3]), Some(2));
}

#[test]
fn rescale_normalized_box() {
    // (0.1, 0.2, 0.5, 0.6) on a 1000×500 image
    assert_eq!(rescale(100_000, 1000), 100 * FIXED_ONE as i128);
    assert_eq!(rescale(200_000, 500), 100 * FIXED_ONE as i128);
    assert_eq!(rescale(500_000, 1000), 500 * FIXED_ONE as i128);
    assert_eq!(rescale(600_000, 500), 300 * FIXED_ONE as i128);
    let b = rescale_box(100_000, 200_000, 500_000, 600_000, 1000, 500);
    assert_eq!(b, PixelBox { x_min: 100, y_min: 100, x_max: 500, y_max: 300 });
}

#[test]
fn clamp_to_image_bounds() {
    let one = FIXED_ONE as i128;
    let width: u32 = 1000;
    assert_eq!(clamp_round(-5 * one, width), 0);
    assert_eq!(clamp_round((width as i128 + 50) * one, width), width);
    assert_eq!(clamp_round(width as i128 * one, width), width);
    assert_eq!(clamp_round(0, width), 0);
    let b = rescale_box(-50_000, -1, 1_050_000, 2 * FIXED_ONE, 1000, 500);
    assert_eq!(b, PixelBox { x_min: 0, y_min: 0, x_max: 1000, y_max: 500 });
}

#[test]
fn clamp_rounds_to_nearest_pixel() {
    assert_eq!(clamp_round(100_500_000, 1000), 101);
    assert_eq!(clamp_round(100_499_999, 1000), 100);
    assert_eq!(clamp_round(1, 1000), 0);
    assert_eq!(clamp_round(999_600_000, 1000), 1000);
}

#[test]
fn postprocess_empty_output_is_no_detection() {
    let boxes = tensor(vec![1, 0, 4], vec![]);
    let classes = tensor(vec![1, 0], vec![]);
    let scores = tensor(vec![1, 0], vec![]);
    assert_eq!(
        postprocess(&boxes, &classes, &scores, 640, 480).err(),
        Some(PipelineError::NoDetection)
    );
}

#[test]
fn postprocess_picks_best_candidate() {
    let boxes = tensor(
        vec![1, 5, 4],
        vec![
            0, 0, 1, 1, //
            100_000, 200_000, 500_000, 600_000, //
            0, 0, 2, 2, //
            300_000, 300_000, 400_000, 400_000, //
            0, 0, 3, 3,
        ],
    );
    let classes = tensor(vec![1, 5], vec![10, 11, 12, 13, 14]);
    let scores = tensor(vec![1, 5], millionths(&[1, 9, 3, 9, 2]));
    let d = postprocess(&boxes, &classes, &scores, 1000, 500).unwrap();
    assert_eq!(d.index, 1);
    assert_eq!(d.score, 900_000);
    assert_eq!(d.class_id, 11);
    assert_eq!(d.bbox, PixelBox { x_min: 100, y_min: 100, x_max: 500, y_max: 300 });
}

#[test]
fn postprocess_accepts_flat_scores() {
    let boxes = tensor(vec![1, 2, 4], vec![0, 0, 500_000, 500_000, 250_000, 250_000, 750_000, 750_000]);
    let classes = tensor(vec![1, 2], vec![0, 1]);
    let scores = tensor(vec![2], vec![100, 200]);
    let d = postprocess(&boxes, &classes, &scores, 200, 100).unwrap();
    assert_eq!(d.index, 1);
    assert_eq!(d.bbox, PixelBox { x_min: 50, y_min: 25, x_max: 150, y_max: 75 });
}

#[test]
fn postprocess_shape_mismatch_is_inference_error() {
    let boxes = tensor(vec![1, 2, 4], vec![0; 8]);
    let classes = tensor(vec![1, 2], vec![0, 1]);
    let scores = tensor(vec![1, 3], vec![1, 2, 3]);
    assert_eq!(
        postprocess(&boxes, &classes, &scores, 10, 10).err(),
        Some(PipelineError::Inference)
    );
    let scores = tensor(vec![1, 2], vec![1, 2]);
    let bad_boxes = tensor(vec![2, 4], vec![0; 8]);
    assert_eq!(
        postprocess(&bad_boxes, &classes, &scores, 10, 10).err(),
        Some(PipelineError::Inference)
    );
    let empty_boxes = tensor(vec![1, 0, 4], vec![]);
    let empty_classes = tensor(vec![1, 0], vec![]);
    let wrong_scores = tensor(vec![2, 0], vec![]);
    assert_eq!(
        postprocess(&empty_boxes, &empty_classes, &wrong_scores, 10, 10).err(),
        Some(PipelineError::Inference)
    );
}

#[test]
fn pixel_box_to_region() {
    let b = PixelBox { x_min: 10, y_min: 20, x_max: 110, y_max: 100 };
    assert_eq!(b.to_region(), Ok(Region { x: 10, y: 20, width: 100, height: 80 }));
    let flat = PixelBox { x_min: 10, y_min: 20, x_max: 10, y_max: 100 };
    assert_eq!(flat.to_region(), Err(PipelineError::InvalidRegion));
    let inverted = PixelBox { x_min: 10, y_min: 200, x_max: 110, y_max: 100 };
    assert_eq!(inverted.to_region(), Err(PipelineError::InvalidRegion));
}

#[test]
fn crop_detected_box() {
    let img = Image::from_raw(4, 3, (0u8..36).collect()).unwrap();
    let b = PixelBox { x_min: 1, y_min: 1, x_max: 3, y_max: 3 };
    let out = crop_box(&img, &b).unwrap();
    assert_eq!((out.width, out.height), (2, 2));
    assert_eq!(out.pixels, vec![15, 16, 17, 18, 19, 20, 27, 28, 29, 30, 31, 32]);
    let outside = PixelBox { x_min: 1, y_min: 1, x_max: 5, y_max: 3 };
    assert_eq!(crop_box(&img, &outside).err(), Some(PipelineError::InvalidRegion));
}
