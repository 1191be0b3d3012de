use vstd::prelude::*;

use crate::error::PipelineError;
use crate::fixed::FIXED_ONE;
use crate::raster::{cropped_pixels, crop, Image, Region};
use crate::tensor::Tensor;

verus! {

/// A box in the pixel space of the original image, by its corners.
#[derive(Debug, Clone, Copy, PartialEq, Eq, Structural)]
pub struct PixelBox {
    pub x_min: u32,
    pub y_min: u32,
    pub x_max: u32,
    pub y_max: u32,
}

/// The single detection kept from the model's outputs.
#[derive(Debug, Clone, Copy, PartialEq, Eq, Structural)]
pub struct Detection {
    /// Position of the candidate among the model's outputs.
    pub index: usize,
    /// Its box, rescaled to the original image and clamped to its bounds.
    pub bbox: PixelBox,
    /// Its confidence, in millionths.
    pub score: i64,
    /// Its class identifier.
    pub class_id: i64,
}

/// `i` is the first position at which `scores` reaches its maximum.
pub open spec fn is_first_max(scores: Seq<i64>, i: int) -> bool {
    &&& 0 <= i < scores.len()
    &&& forall|j: int| 0 <= j < scores.len() ==> scores[j] <= scores[i]
    &&& forall|j: int| 0 <= j < i ==> scores[j] < scores[i]
}

/// A coordinate in millionths of a pixel, clamped to `[0, limit]` pixels and
/// rounded to the nearest pixel, halves away from zero.
pub open spec fn clamp_round_spec(p: int, limit: int) -> int {
    if p <= 0 {
        0
    } else if p >= limit * FIXED_ONE {
        limit
    } else {
        (p + FIXED_ONE / 2) / (FIXED_ONE as int)
    }
}

/// The pixel box for normalized corners `(x_min, y_min, x_max, y_max)` (in
/// millionths) in a `width`×`height` image.
pub open spec fn rescaled_box(x_min: i64, y_min: i64, x_max: i64, y_max: i64, width: u32, height: u32) -> PixelBox {
    PixelBox {
        x_min: clamp_round_spec(x_min * width, width as int) as u32,
        y_min: clamp_round_spec(y_min * height, height as int) as u32,
        x_max: clamp_round_spec(x_max * width, width as int) as u32,
        y_max: clamp_round_spec(y_max * height, height as int) as u32,
    }
}

/// Whatever the model outputs, a clamped and rounded coordinate lies in
/// `[0, limit]`, so every corner of a rescaled box lies inside the image.
pub proof fn lemma_rescaled_box_in_bounds(x_min: i64, y_min: i64, x_max: i64, y_max: i64, width: u32, height: u32)
    ensures
        ({
            let b = rescaled_box(x_min, y_min, x_max, y_max, width, height);
            &&& b.x_min <= width && b.x_max <= width
            &&& b.y_min <= height && b.y_max <= height
        }),
{
    lemma_clamp_round_in_bounds(x_min * width, width as int);
    lemma_clamp_round_in_bounds(y_min * height, height as int);
    lemma_clamp_round_in_bounds(x_max * width, width as int);
    lemma_clamp_round_in_bounds(y_max * height, height as int);
}

proof fn lemma_clamp_round_in_bounds(p: int, limit: int)
    requires
        limit >= 0,
    ensures
        0 <= clamp_round_spec(p, limit) <= limit,
{
    if 0 < p < limit * FIXED_ONE {
        assert(0 <= (p + FIXED_ONE / 2) / (FIXED_ONE as int) <= limit) by (nonlinear_arith)
            requires
                0 < p < limit * FIXED_ONE,
                FIXED_ONE == 1_000_000,
        ;
    }
}

/// Picks the candidate with the highest score; ties go to the first one.
/// There is no threshold: `None` only when there is no candidate at all.
pub fn select_max_score(scores: &Vec<i64>) -> (r: Option<usize>)
    ensures
        r.is_none() <==> scores@.len() == 0,
        r matches Some(i) ==> is_first_max(scores@, i as int),
{
    if scores.len() == 0 {
        return None;
    }
    let mut best: usize = 0;
    let mut i: usize = 1;
    while i < scores.len()
        invariant
            1 <= i <= scores@.len(),
            best < i,
            forall|j: int| 0 <= j < i ==> scores@[j] <= scores@[best as int],
            forall|j: int| 0 <= j < best ==> scores@[j] < scores@[best as int],
        decreases scores@.len() - i,
    {
        if scores[i] > scores[best] {
            best = i;
        }
        i = i + 1;
    }
    Some(best)
}

/// Scales a normalized coordinate (millionths of the image side) by the side
/// in pixels: the result is in millionths of a pixel, before clamping and
/// rounding.
pub fn rescale(v: i64, side: u32) -> (r: i128)
    ensures
        r == v * side,
{
    assert(-0x8000_0000_0000_0000int * 0xffff_ffffint <= v * side <= 0x7fff_ffff_ffff_ffffint * 0xffff_ffffint)
        by (nonlinear_arith)
        requires
            -0x8000_0000_0000_0000int <= v <= 0x7fff_ffff_ffff_ffffint,
            0 <= side <= 0xffff_ffffint,
    ;
    (v as i128) * (side as i128)
}

/// Clamps a rescaled coordinate (millionths of a pixel) into `[0, limit]`
/// pixels and rounds it to the nearest pixel.
pub fn clamp_round(p: i128, limit: u32) -> (r: u32)
    ensures
        r == clamp_round_spec(p as int, limit as int),
        r <= limit,
        p < 0 ==> r == 0,
        p > limit * FIXED_ONE ==> r == limit,
{
    let one: i128 = FIXED_ONE as i128;
    let top: i128 = (limit as i128) * one;
    if p <= 0 {
        0
    } else if p >= top {
        limit
    } else {
        let q = (p + one / 2) / one;
        proof {
            lemma_clamp_round_in_bounds(p as int, limit as int);
        }
        q as u32
    }
}

/// Rescales normalized corners (millionths) to a `width`×`height` image,
/// clamping each coordinate to the image and rounding it to a pixel.
pub fn rescale_box(x_min: i64, y_min: i64, x_max: i64, y_max: i64, width: u32, height: u32) -> (r: PixelBox)
    ensures
        r == rescaled_box(x_min, y_min, x_max, y_max, width, height),
        r.x_min <= width && r.x_max <= width,
        r.y_min <= height && r.y_max <= height,
{
    PixelBox {
        x_min: clamp_round(rescale(x_min, width), width),
        y_min: clamp_round(rescale(y_min, height), height),
        x_max: clamp_round(rescale(x_max, width), width),
        y_max: clamp_round(rescale(y_max, height), height),
    }
}

/// Whether a tensor's shape is exactly `expected`.
fn shape_is(shape: &Vec<usize>, expected: &Vec<usize>) -> (r: bool)
    ensures
        r == (shape@ == expected@),
{
    if shape.len() != expected.len() {
        return false;
    }
    let mut i: usize = 0;
    while i < shape.len()
        invariant
            shape@.len() == expected@.len(),
            i <= shape@.len(),
            forall|k: int| 0 <= k < i ==> shape@[k] == expected@[k],
        decreases shape@.len() - i,
    {
        if shape[i] != expected[i] {
            return false;
        }
        i = i + 1;
    }
    assert(shape@ =~= expected@);
    true
}

/// The three output tensors agree on a number of candidates `n` (the number
/// of scores): boxes shaped `[1, n, 4]`, classes `[1, n]`, scores `[1, n]` or
/// `[n]`, each buffer holding as many elements as its shape.
pub open spec fn outputs_consistent(boxes: &Tensor<i64>, classes: &Tensor<i64>, scores: &Tensor<i64>) -> bool {
    let n = scores.data@.len();
    &&& boxes.shape@ == seq![1usize, n as usize, 4usize]
    &&& boxes.data@.len() == 4 * n
    &&& classes.shape@ == seq![1usize, n as usize]
    &&& classes.data@.len() == n
    &&& (scores.shape@ == seq![1usize, n as usize] || scores.shape@ == seq![n as usize])
}

/// Decodes the model's outputs into the single best detection: the first
/// candidate of highest score, its box (corners normalized to `[0, 1]`, in
/// millionths) rescaled to a `width`×`height` image and clamped to it.
/// Fails with `Inference` when the tensors' shapes disagree, and with
/// `NoDetection` when there is no candidate.
pub fn postprocess(
    boxes: &Tensor<i64>,
    classes: &Tensor<i64>,
    scores: &Tensor<i64>,
    width: u32,
    height: u32,
) -> (r: Result<Detection, PipelineError>)
    ensures
        r matches Err(e) ==> (e == PipelineError::Inference <==> !outputs_consistent(boxes, classes, scores)),
        r matches Err(e) ==> (e == PipelineError::NoDetection <==> outputs_consistent(boxes, classes, scores)
            && scores.data@.len() == 0),
        r.is_ok() <==> outputs_consistent(boxes, classes, scores) && scores.data@.len() > 0,
        r matches Ok(d) ==> d.bbox.x_min <= width && d.bbox.x_max <= width && d.bbox.y_min <= height
            && d.bbox.y_max <= height,
        r matches Ok(d) ==> {
            let i = d.index as int;
            &&& is_first_max(scores.data@, i)
            &&& d.score == scores.data@[i]
            &&& d.class_id == classes.data@[i]
            &&& d.bbox == rescaled_box(
                boxes.data@[4 * i],
                boxes.data@[4 * i + 1],
                boxes.data@[4 * i + 2],
                boxes.data@[4 * i + 3],
                width,
                height,
            )
        },
{
    let n = scores.data.len();
    let box_len = boxes.data.len();
    let box_shape: Vec<usize> = vec![1, n, 4];
    let pair_shape: Vec<usize> = vec![1, n];
    let flat_shape: Vec<usize> = vec![n];
    assert(box_shape@ =~= seq![1usize, n, 4usize]);
    assert(pair_shape@ =~= seq![1usize, n]);
    assert(flat_shape@ =~= seq![n]);
    let consistent = shape_is(&boxes.shape, &box_shape) && n <= usize::MAX / 4 && box_len == 4 * n
        && shape_is(&classes.shape, &pair_shape) && classes.data.len() == n && (shape_is(
        &scores.shape,
        &pair_shape,
    ) || shape_is(&scores.shape, &flat_shape));
    if !consistent {
        return Err(PipelineError::Inference);
    }
    match select_max_score(&scores.data) {
        None => Err(PipelineError::NoDetection),
        Some(i) => {
            let bbox = rescale_box(
                boxes.data[4 * i],
                boxes.data[4 * i + 1],
                boxes.data[4 * i + 2],
                boxes.data[4 * i + 3],
                width,
                height,
            );
            Ok(Detection { index: i, bbox, score: scores.data[i], class_id: classes.data[i] })
        },
    }
}

impl PixelBox {
    /// The crop region between the corners. Fails with `InvalidRegion` when
    /// the box holds no pixel: a maximum corner not past its minimum.
    pub fn to_region(&self) -> (r: Result<Region, PipelineError>)
        ensures
            r.is_ok() <==> self.x_min < self.x_max && self.y_min < self.y_max,
            r matches Err(e) ==> e == PipelineError::InvalidRegion,
            r matches Ok(region) ==> region == (Region {
                x: self.x_min,
                y: self.y_min,
                width: (self.x_max - self.x_min) as u32,
                height: (self.y_max - self.y_min) as u32,
            }),
    {
        if self.x_max <= self.x_min || self.y_max <= self.y_min {
            return Err(PipelineError::InvalidRegion);
        }
        Ok(Region {
            x: self.x_min,
            y: self.y_min,
            width: self.x_max - self.x_min,
            height: self.y_max - self.y_min,
        })
    }
}

/// Crops the pixels inside a detected box out of the original image. Fails
/// with `InvalidRegion` when the box holds no pixel or reaches outside the
/// image.
pub fn crop_box(img: &Image, bbox: &PixelBox) -> (r: Result<Image, PipelineError>)
    requires
        img.wf(),
    ensures
        r.is_ok() <==> bbox.x_min < bbox.x_max && bbox.y_min < bbox.y_max && bbox.x_max <= img.width
            && bbox.y_max <= img.height,
        r matches Err(e) ==> e == PipelineError::InvalidRegion,
        r matches Ok(out) ==> {
            &&& out.wf()
            &&& out.width == bbox.x_max - bbox.x_min
            &&& out.height == bbox.y_max - bbox.y_min
            &&& out.pixels@ == cropped_pixels(
                img.pixels@,
                img.width as int,
                bbox.x_min as int,
                bbox.y_min as int,
                bbox.x_max - bbox.x_min,
                bbox.y_max - bbox.y_min,
            )
        },
{
    let region = bbox.to_region()?;
    crop(img, &region)
}

} // verus!
