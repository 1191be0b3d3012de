use plate_detector::error::PipelineError;
use plate_detector::raster::Region;
use plate_detector::remote::{
    plate_region, plate_texts, to_pixels, Block, BoundingBox, BoundingPolygon, Line, Predict,
    Prediction, ReadResult, TagName,
};

fn prediction(probability: i64, left: i64, top: i64, width: i64, height: i64) -> Prediction {
    Prediction {
        bounding_box: BoundingBox { height, left, top, width },
        probability,
        tag_id: String::from("tag"),
        tag_name: TagName::Targa,
    }
}

fn predict(predictions: Vec<Prediction>) -> Predict {
    Predict {
        created: String::new(),
        id: String::new(),
        iteration: String::new(),
        predictions,
        project: String::new(),
    }
}

#[test]
fn plate_region_takes_first_confident_prediction() {
    let p = predict(vec![
        prediction(899_999, 0, 0, 100_000, 100_000),
        prediction(950_000, 250_000, 500_000, 100_000, 50_000),
        prediction(990_000, 0, 0, 500_000, 500_000),
    ]);
    assert_eq!(
        plate_region(&p, 400, 300),
        Ok(Region { x: 100, y: 150, width: 40, height: 15 })
    );
}

#[test]
fn plate_region_threshold_is_inclusive() {
    let p = predict(vec![prediction(900_000, 100_000, 100_000, 100_000, 100_000)]);
    assert_eq!(plate_region(&p, 1000, 1000), Ok(Region { x: 100, y: 100, width: 100, height: 100 }));
}

#[test]
fn plate_region_without_plate_is_no_detection() {
    assert_eq!(plate_region(&predict(vec![]), 400, 300), Err(PipelineError::NoDetection));
    let p = predict(vec![prediction(500_000, 0, 0, 1, 1)]);
    assert_eq!(plate_region(&p, 400, 300), Err(PipelineError::NoDetection));
}

#[test]
fn to_pixels_truncates_and_saturates() {
    assert_eq!(to_pixels(333_333, 100), 33);
    assert_eq!(to_pixels(339_999, 100), 33);
    assert_eq!(to_pixels(-100_000, 100), 0);
    assert_eq!(to_pixels(i64::MAX, u32::MAX), u32::MAX);
    assert_eq!(to_pixels(1_000_000, 0), 0);
}

fn line(text: &str) -> Line {
    Line {
        bounding_polygon: vec![BoundingPolygon { x: 0, y: 0 }],
        text: String::from(text),
        words: vec![],
    }
}

#[test]
fn plate_texts_in_reading_order() {
    let r = ReadResult {
        blocks: vec![
            Block { lines: vec![line("AB 123"), line("CD")] },
            Block { lines: vec![] },
            Block { lines: vec![line("EF 456")] },
        ],
    };
    assert_eq!(plate_texts(&r), vec!["AB 123", "CD", "EF 456"]);
    assert!(plate_texts(&ReadResult { blocks: vec![] }).is_empty());
}
