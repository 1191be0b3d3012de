use vstd::prelude::*;
use vstd::arithmetic::div_mod::lemma_fundamental_div_mod;

use crate::error::PipelineError;
use crate::raster::{Image, MODEL_INPUT_SIZE};

verus! {

/// A dense array: a shape (the size of each dimension, outermost first) and
/// its elements in row-major order.
pub struct Tensor<T> {
    pub shape: Vec<usize>,
    pub data: Vec<T>,
}

/// The number of elements an array of the given shape holds.
pub open spec fn shape_product(shape: Seq<usize>) -> nat
    decreases shape.len(),
{
    if shape.len() == 0 {
        1
    } else {
        shape_product(shape.drop_last()) * (shape.last() as nat)
    }
}

impl<T> Tensor<T> {
    /// The element buffer holds exactly as many elements as the shape asks for.
    pub open spec fn wf(&self) -> bool {
        self.data@.len() == shape_product(self.shape@)
    }

    /// Builds a tensor from a shape and its row-major elements. Fails with
    /// `Inference` when the number of elements does not match the shape.
    pub fn from_shape_vec(shape: Vec<usize>, data: Vec<T>) -> (r: Result<Tensor<T>, PipelineError>)
        ensures
            r.is_ok() <==> data@.len() == shape_product(shape@),
            r matches Ok(t) ==> t.shape@ == shape@ && t.data@ == data@ && t.wf(),
            r matches Err(e) ==> e == PipelineError::Inference,
    {
        // A zero dimension empties the array, whatever the others are.
        let mut z: usize = 0;
        while z < shape.len()
            invariant
                z <= shape@.len(),
                forall|k: int| 0 <= k < z ==> shape@[k] != 0,
            decreases shape@.len() - z,
        {
            if shape[z] == 0 {
                proof {
                    lemma_zero_dimension(shape@, z as int);
                }
                if data.len() == 0 {
                    return Ok(Tensor { shape, data });
                } else {
                    return Err(PipelineError::Inference);
                }
            }
            z = z + 1;
        }
        let mut count: usize = 1;
        let mut i: usize = 0;
        while i < shape.len()
            invariant
                i <= shape@.len(),
                forall|k: int| 0 <= k < shape@.len() ==> shape@[k] != 0,
                count == shape_product(shape@.subrange(0, i as int)),
                count >= 1,
                count <= data@.len() || i == 0,
            decreases shape@.len() - i,
        {
            proof {
                assert(shape@.subrange(0, i as int + 1).drop_last() == shape@.subrange(0, i as int));
            }
            let dim = shape[i];
            if dim > data.len() / count {
                proof {
                    assert(count * dim > data@.len()) by (nonlinear_arith)
                        requires
                            count >= 1,
                            dim > data@.len() / (count as nat),
                    ;
                    lemma_product_grows(shape@, i as int + 1, data@.len());
                }
                return Err(PipelineError::Inference);
            }
            proof {
                assert(count * dim <= data@.len() && count * dim >= 1) by (nonlinear_arith)
                    requires
                        count >= 1,
                        dim >= 1,
                        dim <= data@.len() / (count as nat),
                ;
            }
            count = count * dim;
            i = i + 1;
        }
        assert(shape@.subrange(0, shape@.len() as int) == shape@);
        if count == data.len() {
            Ok(Tensor { shape, data })
        } else {
            Err(PipelineError::Inference)
        }
    }
}

/// Once a prefix of a shape with no zero dimension holds more than `bound`
/// elements, so does the whole shape.
proof fn lemma_product_grows(shape: Seq<usize>, k: int, bound: nat)
    requires
        0 < k <= shape.len(),
        forall|j: int| 0 <= j < shape.len() ==> shape[j] != 0,
        shape_product(shape.subrange(0, k)) > bound,
    ensures
        shape_product(shape) > bound,
    decreases shape.len() - k,
{
    if k == shape.len() {
        assert(shape.subrange(0, k) == shape);
    } else {
        let next = shape.subrange(0, k + 1);
        assert(next.drop_last() == shape.subrange(0, k));
        let p = shape_product(shape.subrange(0, k));
        let d = shape[k] as nat;
        assert(p * d >= p) by (nonlinear_arith)
            requires
                d >= 1,
        ;
        lemma_product_grows(shape, k + 1, bound);
    }
}

/// A shape with a zero dimension holds no element.
proof fn lemma_zero_dimension(shape: Seq<usize>, k: int)
    requires
        0 <= k < shape.len(),
        shape[k] == 0,
    ensures
        shape_product(shape) == 0,
    decreases shape.len(),
{
    if k == shape.len() - 1 {
    } else {
        assert(shape.drop_last()[k] == 0);
        lemma_zero_dimension(shape.drop_last(), k);
    }
}

/// The shape of the model input built from a `width`×`height` image: batch
/// of one, three channels, then rows and columns.
pub open spec fn input_shape(width: u32, height: u32) -> Seq<usize> {
    seq![1usize, 3usize, height as usize, width as usize]
}

/// The elements of the model input built from `img`: pixels in row-major
/// order, each contributing its red, green and blue value, unscaled.
pub open spec fn input_elements(img: Image) -> Seq<u8> {
    Seq::new(
        (img.width * img.height * 3) as nat,
        |i: int| img.channel((i / 3) % (img.width as int), (i / 3) / (img.width as int), i % 3),
    )
}

/// Builds the model input from an image: for each pixel, top to bottom and
/// left to right, its red, green and blue values, forwarded without scaling.
/// The declared shape is `[1, 3, height, width]`; the elements stay
/// interleaved per pixel, which is the layout the detection model reads.
pub fn build_input_tensor(img: &Image) -> (t: Tensor<u8>)
    requires
        img.wf(),
    ensures
        t.wf(),
        t.shape@ == input_shape(img.width, img.height),
        t.data@ == input_elements(*img),
{
    let total = img.pixels.len();
    let mut data: Vec<u8> = Vec::with_capacity(total);
    let mut i: usize = 0;
    while i < total
        invariant
            total == img.pixels@.len(),
            img.wf(),
            i <= total,
            data@.len() == i,
            forall|k: int| 0 <= k < i ==> data@[k] == input_elements(*img)[k],
        decreases total - i,
    {
        proof {
            lemma_flat_index(i as int, img.width as int, img.height as int);
        }
        data.push(img.pixels[i]);
        i = i + 1;
    }
    assert(data@ == input_elements(*img));
    let shape: Vec<usize> = vec![1, 3, img.height as usize, img.width as usize];
    proof {
        assert(shape@ == input_shape(img.width, img.height));
        lemma_input_shape_product(img.width, img.height);
    }
    Tensor { shape, data }
}

/// Byte `i` of a row-major RGB buffer is channel `i % 3` of the pixel at
/// column `(i / 3) % width`, row `(i / 3) / width`.
proof fn lemma_flat_index(i: int, width: int, height: int)
    requires
        width >= 0,
        height >= 0,
        0 <= i < width * height * 3,
    ensures
        width > 0,
        ((i / 3) / width * width + (i / 3) % width) * 3 + i % 3 == i,
{
    if width == 0 {
        assert(width * height * 3 <= 0) by (nonlinear_arith)
            requires
                width == 0,
                0 <= i < width * height * 3,
        ;
    }
    lemma_fundamental_div_mod(i, 3);
    lemma_fundamental_div_mod(i / 3, width);
    assert((i / 3) / width * width == width * ((i / 3) / width)) by (nonlinear_arith);
}

proof fn lemma_input_shape_product(width: u32, height: u32)
    ensures
        shape_product(input_shape(width, height)) == width * height * 3,
{
    let s = input_shape(width, height);
    let s1 = seq![1usize];
    let s2 = seq![1usize, 3usize];
    let s3 = seq![1usize, 3usize, height as usize];
    assert(shape_product(Seq::<usize>::empty()) == 1);
    assert(s1.drop_last() =~= Seq::<usize>::empty());
    assert(s1.last() == 1);
    assert(shape_product(s1) == 1);
    assert(s2.drop_last() =~= s1);
    assert(s2.last() == 3);
    assert(shape_product(s2) == 3);
    assert(s3.drop_last() =~= s2);
    assert(shape_product(s3) == 3 * height);
    assert(s.drop_last() =~= s3);
    assert(shape_product(s) == 3 * height * width);
    assert(3 * height * width == width * height * 3) by (nonlinear_arith);
}

/// The model input built from an image of the model's input size holds
/// exactly 3·320·320 = 307,200 elements, and its first three are the red,
/// green and blue values of the top-left pixel, unscaled.
pub proof fn lemma_model_input_layout(img: Image)
    requires
        img.wf(),
        img.width == MODEL_INPUT_SIZE,
        img.height == MODEL_INPUT_SIZE,
    ensures
        shape_product(input_shape(img.width, img.height)) == 307_200,
        input_elements(img).len() == 307_200,
        input_elements(img)[0] == img.pixels@[0],
        input_elements(img)[1] == img.pixels@[1],
        input_elements(img)[2] == img.pixels@[2],
        input_elements(img)[0] == img.channel(0, 0, 0),
        input_elements(img)[1] == img.channel(0, 0, 1),
        input_elements(img)[2] == img.channel(0, 0, 2),
{
    lemma_input_shape_product(img.width, img.height);
    let elems = input_elements(img);
    assert(img.width * img.height * 3 == 307_200);
    assert(elems.len() == 307_200);
    assert(1int / 3 == 0 && 2int / 3 == 0 && 1int % 3 == 1 && 2int % 3 == 2);
    assert(elems[0] == img.channel(0, 0, 0));
    assert(elems[1] == img.channel(0, 0, 1));
    assert(elems[2] == img.channel(0, 0, 2));
}

} // verus!
