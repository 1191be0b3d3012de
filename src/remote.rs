//! Records returned by the remote vision services, and the decisions taken on
//! them. Fractional values (probabilities, confidences, normalized box sides,
//! aspect ratios) are held in millionths.
use vstd::prelude::*;

use crate::error::PipelineError;
use crate::fixed::FIXED_ONE;
use crate::raster::Region;

verus! {

/// Lowest probability, in millionths, at which a remote prediction counts as
/// a plate.
pub const PLATE_MIN_PROBABILITY: i64 = 900_000;

/// Reply of the remote plate-detection service.
#[derive(Debug, Clone, PartialEq, Eq)]
pub struct Predict {
    pub created: String,
    pub id: String,
    pub iteration: String,
    pub predictions: Vec<Prediction>,
    pub project: String,
}

/// One object found by the remote plate-detection service.
#[derive(Debug, Clone, PartialEq, Eq)]
pub struct Prediction {
    pub bounding_box: BoundingBox,
    /// In millionths.
    pub probability: i64,
    pub tag_id: String,
    pub tag_name: TagName,
}

/// A box whose sides are fractions of the image's sides, in millionths.
#[derive(Debug, Clone, Copy, PartialEq, Eq, Structural)]
pub struct BoundingBox {
    pub height: i64,
    pub left: i64,
    pub top: i64,
    pub width: i64,
}

/// The tags the plate-detection model was trained on.
#[derive(Debug, Clone, Copy, PartialEq, Eq, Structural)]
pub enum TagName {
    Targa,
}

/// Reply of the remote text-reading service.
#[derive(Debug, Clone, PartialEq, Eq)]
pub struct TextReadResult {
    pub caption_result: Option<CaptionResult>,
    pub dense_captions_result: Option<DenseCaptionsResult>,
    pub metadata: Option<Metadata>,
    pub model_version: String,
    pub read_result: ReadResult,
    pub smart_crops_result: SmartCropsResult,
}

#[derive(Debug, Clone, PartialEq, Eq)]
pub struct CaptionResult {
    /// In millionths.
    pub confidence: i64,
    pub text: String,
}

#[derive(Debug, Clone, PartialEq, Eq)]
pub struct DenseCaptionsResult {
    pub values: Vec<DenseCaptionsResultValue>,
}

#[derive(Debug, Clone, PartialEq, Eq)]
pub struct DenseCaptionsResultValue {
    pub bounding_box: ImageBoundingBox,
    /// In millionths.
    pub confidence: i64,
    pub text: String,
}

/// A box in pixels: corner `(x, y)`, width `w`, height `h`.
#[derive(Debug, Clone, Copy, PartialEq, Eq, Structural)]
pub struct ImageBoundingBox {
    pub h: i64,
    pub w: i64,
    pub x: i64,
    pub y: i64,
}

#[derive(Debug, Clone, Copy, PartialEq, Eq, Structural)]
pub struct Metadata {
    pub height: i64,
    pub width: i64,
}

#[derive(Debug, Clone, PartialEq, Eq)]
pub struct ReadResult {
    pub blocks: Vec<Block>,
}

#[derive(Debug, Clone, PartialEq, Eq)]
pub struct Block {
    pub lines: Vec<Line>,
}

#[derive(Debug, Clone, PartialEq, Eq)]
pub struct Line {
    pub bounding_polygon: Vec<BoundingPolygon>,
    pub text: String,
    pub words: Vec<Word>,
}

#[derive(Debug, Clone, Copy, PartialEq, Eq, Structural)]
pub struct BoundingPolygon {
    pub x: i64,
    pub y: i64,
}

#[derive(Debug, Clone, PartialEq, Eq)]
pub struct Word {
    pub bounding_polygon: Vec<BoundingPolygon>,
    /// In millionths.
    pub confidence: i64,
    pub text: String,
}

#[derive(Debug, Clone, PartialEq, Eq)]
pub struct SmartCropsResult {
    pub values: Vec<SmartCropsResultValue>,
}

#[derive(Debug, Clone, PartialEq, Eq)]
pub struct SmartCropsResultValue {
    /// In millionths.
    pub aspect_ratio: i64,
    pub bounding_box: ImageBoundingBox,
}

/// The prediction is a plate, confidently enough.
pub open spec fn is_plate(p: Prediction) -> bool {
    p.tag_name == TagName::Targa && p.probability >= PLATE_MIN_PROBABILITY
}

/// A fraction of a side (millionths) times the side in pixels, truncated
/// toward zero to a whole pixel and saturated to the range of `u32`.
pub open spec fn to_pixels_spec(v: int, side: int) -> int {
    let p = v * side;
    if p <= 0 {
        0
    } else if p / (FIXED_ONE as int) > u32::MAX {
        u32::MAX as int
    } else {
        p / (FIXED_ONE as int)
    }
}

/// The pixel region of a remote box in a `width`×`height` image.
pub open spec fn region_of(b: BoundingBox, width: u32, height: u32) -> Region {
    Region {
        x: to_pixels_spec(b.left as int, width as int) as u32,
        y: to_pixels_spec(b.top as int, height as int) as u32,
        width: to_pixels_spec(b.width as int, width as int) as u32,
        height: to_pixels_spec(b.height as int, height as int) as u32,
    }
}

/// Converts a fraction of a side (millionths) to whole pixels of that side,
/// truncating toward zero; negative results give 0, results past `u32::MAX`
/// give `u32::MAX`.
pub fn to_pixels(v: i64, side: u32) -> (r: u32)
    ensures
        r == to_pixels_spec(v as int, side as int),
{
    assert(-0x8000_0000_0000_0000int * 0xffff_ffffint <= v * side <= 0x7fff_ffff_ffff_ffffint * 0xffff_ffffint)
        by (nonlinear_arith)
        requires
            -0x8000_0000_0000_0000int <= v <= 0x7fff_ffff_ffff_ffffint,
            0 <= side <= 0xffff_ffffint,
    ;
    let p: i128 = (v as i128) * (side as i128);
    if p <= 0 {
        0
    } else {
        let q = p / (FIXED_ONE as i128);
        if q > u32::MAX as i128 {
            u32::MAX
        } else {
            q as u32
        }
    }
}

/// The region of the first prediction tagged as a plate with a probability
/// of at least [`PLATE_MIN_PROBABILITY`], in the pixels of a `width`×`height`
/// image. Fails with `NoDetection` when no prediction qualifies.
pub fn plate_region(predict: &Predict, width: u32, height: u32) -> (r: Result<Region, PipelineError>)
    ensures
        r.is_err() <==> forall|i: int| 0 <= i < predict.predictions@.len() ==> !is_plate(#[trigger] predict.predictions@[i]),
        r matches Err(e) ==> e == PipelineError::NoDetection,
        r matches Ok(region) ==> exists|i: int|
            0 <= i < predict.predictions@.len()
            && is_plate(#[trigger] predict.predictions@[i])
            && (forall|j: int| 0 <= j < i ==> !is_plate(predict.predictions@[j]))
            && region == region_of(predict.predictions@[i].bounding_box, width, height),
{
    let preds = &predict.predictions;
    let mut i: usize = 0;
    while i < preds.len()
        invariant
            preds == &predict.predictions,
            i <= preds@.len(),
            forall|j: int| 0 <= j < i ==> !is_plate(#[trigger] preds@[j]),
        decreases preds@.len() - i,
    {
        let pred = &preds[i];
        let tagged = match pred.tag_name {
            TagName::Targa => true,
        };
        if tagged && pred.probability >= PLATE_MIN_PROBABILITY {
            let b = &pred.bounding_box;
            let region = Region {
                x: to_pixels(b.left, width),
                y: to_pixels(b.top, height),
                width: to_pixels(b.width, width),
                height: to_pixels(b.height, height),
            };
            assert(is_plate(predict.predictions@[i as int]));
            return Ok(region);
        }
        i = i + 1;
    }
    Err(PipelineError::NoDetection)
}

/// The texts of the lines of a block.
pub open spec fn line_texts(lines: Seq<Line>) -> Seq<Seq<char>> {
    lines.map_values(|l: Line| l.text@)
}

/// The texts of every line of every block, blocks in order and lines in
/// order within each block.
pub open spec fn read_texts(blocks: Seq<Block>) -> Seq<Seq<char>>
    decreases blocks.len(),
{
    if blocks.len() == 0 {
        Seq::empty()
    } else {
        read_texts(blocks.drop_last()) + line_texts(blocks.last().lines@)
    }
}

/// The text of each line the text-reading service found, in reading order:
/// block by block, line by line.
pub fn plate_texts(result: &ReadResult) -> (r: Vec<String>)
    ensures
        r@.map_values(|s: String| s@) == read_texts(result.blocks@),
{
    let blocks = &result.blocks;
    let mut out: Vec<String> = Vec::new();
    let mut b: usize = 0;
    while b < blocks.len()
        invariant
            b <= blocks@.len(),
            out@.map_values(|s: String| s@) == read_texts(blocks@.subrange(0, b as int)),
        decreases blocks@.len() - b,
    {
        let lines = &blocks[b].lines;
        let ghost before = out@.map_values(|s: String| s@);
        let mut k: usize = 0;
        while k < lines.len()
            invariant
                b < blocks@.len(),
                lines == &blocks@[b as int].lines,
                k <= lines@.len(),
                out@.map_values(|s: String| s@) == before + line_texts(lines@.subrange(0, k as int)),
            decreases lines@.len() - k,
        {
            let ghost prev = out@;
            out.push(lines[k].text.clone());
            proof {
                assert(out@.map_values(|s: String| s@) =~= prev.map_values(|s: String| s@).push(lines@[k as int].text@));
                assert(line_texts(lines@.subrange(0, k as int + 1)) =~= line_texts(lines@.subrange(0, k as int)).push(
                    lines@[k as int].text@,
                ));
                assert(out@.map_values(|s: String| s@) =~= before + line_texts(lines@.subrange(0, k as int + 1)));
            }
            k = k + 1;
        }
        proof {
            let upto = blocks@.subrange(0, b as int + 1);
            assert(upto.drop_last() =~= blocks@.subrange(0, b as int));
            assert(lines@.subrange(0, lines@.len() as int) =~= lines@);
        }
        b = b + 1;
    }
    assert(blocks@.subrange(0, blocks@.len() as int) =~= blocks@);
    out
}

} // verus!
