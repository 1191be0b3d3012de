use vstd::prelude::*;

use crate::error::PipelineError;

verus! {

/// Side of the square input that the detection model expects, in pixels.
pub const MODEL_INPUT_SIZE: u32 = 320;

/// An 8-bit RGB raster image. Pixels are stored row by row, top to bottom and
/// left to right, each as its red, green and blue byte in that order.
pub struct Image {
    pub width: u32,
    pub height: u32,
    pub pixels: Vec<u8>,
}

/// Channel `c` of the pixel at column `x`, row `y` of an image of the given
/// width whose bytes are `pixels`.
pub open spec fn channel_at(pixels: Seq<u8>, width: int, x: int, y: int, c: int) -> u8 {
    pixels[(y * width + x) * 3 + c]
}

/// The bytes of the `w`×`h` sub-image whose top-left corner is at `(x, y)`.
pub open spec fn cropped_pixels(pixels: Seq<u8>, width: int, x: int, y: int, w: int, h: int) -> Seq<u8> {
    Seq::new(
        (w * h * 3) as nat,
        |i: int| channel_at(pixels, width, x + (i / 3) % w, y + (i / 3) / w, i % 3),
    )
}

/// What the Catmull-Rom resampling of a `width`×`height` RGB image holding
/// `pixels` to `new_width`×`new_height` yields.
pub uninterp spec fn catmull_rom_resized(
    width: u32,
    height: u32,
    pixels: Seq<u8>,
    new_width: u32,
    new_height: u32,
) -> Seq<u8>;

impl Image {
    /// The byte buffer holds exactly three bytes per pixel.
    pub open spec fn wf(&self) -> bool {
        self.pixels@.len() == self.width * self.height * 3
    }

    /// Channel `c` (0 red, 1 green, 2 blue) of the pixel at column `x`, row `y`.
    pub open spec fn channel(&self, x: int, y: int, c: int) -> u8 {
        channel_at(self.pixels@, self.width as int, x, y, c)
    }

    /// Wraps a row-major RGB byte buffer; `None` unless it holds exactly
    /// `width * height` pixels.
    pub fn from_raw(width: u32, height: u32, pixels: Vec<u8>) -> (r: Option<Image>)
        ensures
            r.is_some() <==> pixels@.len() == width * height * 3,
            r matches Some(img) ==> img.width == width && img.height == height
                && img.pixels@ == pixels@,
    {
        let wide: u128 = width as u128;
        let high: u128 = height as u128;
        assert(wide * high <= 0xffff_ffff_ffff_ffffu128 * 0xffff_ffffu128) by (nonlinear_arith)
            requires
                wide <= 0xffff_ffffu128,
                high <= 0xffff_ffffu128,
        ;
        let needed: u128 = wide * high * 3;
        if needed == pixels.len() as u128 {
            Some(Image { width, height, pixels })
        } else {
            None
        }
    }
}

/// Relies on image::imageops::resize with FilterType::CatmullRom: the result
/// is a `new_width`×`new_height` image (three bytes per pixel) that depends on
/// the source image and the target size alone.
#[verifier::external_body]
fn resample_catmull_rom(img: &Image, new_width: u32, new_height: u32) -> (r: Vec<u8>)
    requires
        img.wf(),
        img.width * new_height * 16 <= isize::MAX,
        new_width * new_height * 3 <= isize::MAX,
    ensures
        r@ == catmull_rom_resized(img.width, img.height, img.pixels@, new_width, new_height),
        r@.len() == new_width * new_height * 3,
{
    let source: image::RgbImage = image::ImageBuffer::from_raw(img.width, img.height, img.pixels.clone()).unwrap();
    let filter = image::imageops::FilterType::CatmullRom;
    image::imageops::resize(&source, new_width, new_height, filter).into_raw()
}

/// Relies on image::imageops::crop_imm followed by SubImage::to_image: a copy
/// of the `width`×`height` sub-image whose top-left corner is at `(x, y)`.
#[verifier::external_body]
fn copy_sub_image(img: &Image, x: u32, y: u32, width: u32, height: u32) -> (r: Vec<u8>)
    requires
        img.wf(),
        x + width <= img.width,
        y + height <= img.height,
    ensures
        r@ == cropped_pixels(img.pixels@, img.width as int, x as int, y as int, width as int, height as int),
{
    let source: image::RgbImage = image::ImageBuffer::from_raw(img.width, img.height, img.pixels.clone()).unwrap();
    image::imageops::crop_imm(&source, x, y, width, height).to_image().into_raw()
}

/// Resizes an image to the model's square input with a Catmull-Rom filter,
/// whatever its aspect ratio: no letterboxing, the distortion is accepted.
/// The resampler's scratch buffer holds four floats per pixel of a column
/// pass, which bounds the source width the machine can take.
pub fn resize_for_model(img: &Image) -> (r: Image)
    requires
        img.wf(),
        img.width * MODEL_INPUT_SIZE * 16 <= isize::MAX,
    ensures
        r.wf(),
        r.width == MODEL_INPUT_SIZE,
        r.height == MODEL_INPUT_SIZE,
        r.pixels@ == catmull_rom_resized(img.width, img.height, img.pixels@, MODEL_INPUT_SIZE, MODEL_INPUT_SIZE),
{
    let pixels = resample_catmull_rom(img, MODEL_INPUT_SIZE, MODEL_INPUT_SIZE);
    Image { width: MODEL_INPUT_SIZE, height: MODEL_INPUT_SIZE, pixels }
}

/// A rectangle of pixels: top-left corner `(x, y)`, then width and height.
#[derive(Debug, Clone, Copy, PartialEq, Eq, Structural)]
pub struct Region {
    pub x: u32,
    pub y: u32,
    pub width: u32,
    pub height: u32,
}

impl Region {
    /// The region is non-empty and lies inside a `width`×`height` image.
    pub open spec fn fits(&self, width: int, height: int) -> bool {
        &&& self.width > 0
        &&& self.height > 0
        &&& self.x + self.width <= width
        &&& self.y + self.height <= height
    }
}

/// Extracts the pixels of `region` from `img` as a new image. Fails with
/// `InvalidRegion` when the region is empty or reaches outside the image.
pub fn crop(img: &Image, region: &Region) -> (r: Result<Image, PipelineError>)
    requires
        img.wf(),
    ensures
        r.is_ok() <==> region.fits(img.width as int, img.height as int),
        r matches Err(e) ==> e == PipelineError::InvalidRegion,
        r matches Ok(out) ==> {
            &&& out.wf()
            &&& out.width == region.width
            &&& out.height == region.height
            &&& out.pixels@ == cropped_pixels(
                img.pixels@,
                img.width as int,
                region.x as int,
                region.y as int,
                region.width as int,
                region.height as int,
            )
        },
{
    if region.width == 0 || region.height == 0 {
        return Err(PipelineError::InvalidRegion);
    }
    if region.x > img.width || region.width > img.width - region.x {
        return Err(PipelineError::InvalidRegion);
    }
    if region.y > img.height || region.height > img.height - region.y {
        return Err(PipelineError::InvalidRegion);
    }
    let pixels = copy_sub_image(img, region.x, region.y, region.width, region.height);
    Ok(Image { width: region.width, height: region.height, pixels })
}

} // verus!
