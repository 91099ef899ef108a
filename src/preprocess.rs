//! Image preprocessing: encoded bytes to the flat pixel tensor that a
//! classifier was trained against.
//!
//! The tensor holds, for every pixel of the resized square image in row-major
//! order starting top-left, its red, green and blue samples. A sample `n`
//! stands for the normalized channel value `n / 255`, which lies in `[0, 1]`.

use vstd::prelude::*;

verus! {

/// Side of the square images fed to the general-purpose classifier.
pub const GENERAL_SIDE: u32 = 32;

/// Side of the square screenshots fed to the diagnostic classifier.
pub const SCREENSHOT_SIDE: u32 = 128;

/// The two resolutions that classifiers are trained at.
pub open spec fn supported_side(side: u32) -> bool {
    side == GENERAL_SIDE || side == SCREENSHOT_SIDE
}

#[verifier::external_type_specification]
#[verifier::external_body]
pub struct ExImageError(image::ImageError);

#[verifier::external_type_specification]
#[verifier::external_body]
pub struct ExBase64DecodeError(base64::DecodeError);

/// Why encoded image data could not be turned into a tensor.
#[derive(Debug, Clone, Copy, PartialEq, Eq, Structural)]
pub enum InputError {
    /// The text is not valid base64.
    Base64,
    /// The bytes are not an image in a supported format.
    Image,
}

/// A decoded image with 8-bit red, green and blue samples, interleaved per
/// pixel, pixels in row-major order.
pub struct RgbGrid {
    pub width: u32,
    pub height: u32,
    pub samples: Vec<u8>,
}

impl RgbGrid {
    /// Every pixel of the grid has its three samples.
    pub open spec fn wf(&self) -> bool {
        3 * self.width * self.height <= self.samples@.len()
    }

    /// Sample `c` (0 red, 1 green, 2 blue) of the pixel in column `x`, row `y`.
    pub open spec fn channel(&self, x: int, y: int, c: int) -> u8 {
        self.samples@[3 * (y * self.width + x) + c]
    }
}

/// What `image::load_from_memory` decodes `bytes` to, as width, height and
/// RGB samples; `None` when the bytes are no image that it can read.
pub uninterp spec fn decoded_rgb(bytes: Seq<u8>) -> Option<(u32, u32, Seq<u8>)>;

/// What base64 decoding (standard alphabet, padded) makes of the text;
/// `None` when the text is not valid base64.
pub uninterp spec fn base64_decoded(text: Seq<char>) -> Option<Seq<u8>>;

/// Relies on `image::load_from_memory`, which guesses the format from the
/// content, and `DynamicImage::to_rgb8`: the outcome depends on the bytes
/// alone, and an `ImageBuffer` always holds the samples of all its pixels.
#[verifier::external_body]
fn decode_rgb(bytes: &[u8]) -> (r: Result<RgbGrid, image::ImageError>)
    ensures
        match decoded_rgb(bytes@) {
            Some(d) => r matches Ok(g) && g.width == d.0 && g.height == d.1
                && g.samples@ == d.2 && g.wf(),
            None => r is Err,
        },
{
    match image::load_from_memory(bytes) {
        Ok(img) => {
            let rgb = img.to_rgb8();
            let (width, height) = rgb.dimensions();
            Ok(RgbGrid { width, height, samples: rgb.into_raw() })
        },
        Err(e) => Err(e),
    }
}

/// Relies on `ImageBuffer::from_raw`, which accepts the samples exactly when
/// they cover every pixel, and `imageops::resize` with the Lanczos3 filter,
/// which returns a fresh `side` × `side` buffer.
#[verifier::external_body]
fn resize_rgb(grid: &RgbGrid, side: u32) -> (r: Option<RgbGrid>)
    ensures
        r is Some <==> grid.wf(),
        r matches Some(g) ==> g.width == side && g.height == side
            && g.samples@.len() == 3 * side * side,
{
    let raw: &[u8] = grid.samples.as_slice();
    match image::ImageBuffer::<image::Rgb<u8>, &[u8]>::from_raw(grid.width, grid.height, raw) {
        Some(img) => {
            let out = image::imageops::resize(&img, side, side, image::imageops::FilterType::Lanczos3);
            Some(RgbGrid { width: out.width(), height: out.height(), samples: out.into_raw() })
        },
        None => None,
    }
}

/// Relies on base64's `Engine::decode` with the `STANDARD` engine: the
/// outcome depends on the text alone.
#[verifier::external_body]
pub(crate) fn decode_base64(text: &str) -> (r: Result<Vec<u8>, base64::DecodeError>)
    ensures
        match base64_decoded(text@) {
            Some(b) => r matches Ok(v) && v@ == b,
            None => r is Err,
        },
{
    base64::Engine::decode(&base64::engine::general_purpose::STANDARD, text)
}

/// `bytes` are an image that `image::load_from_memory` can read.
pub open spec fn decodes(bytes: Seq<u8>) -> bool {
    decoded_rgb(bytes) is Some
}

/// Lays the pixels of `grid` out as a flat tensor: row by row from the top,
/// each row from the left, the red, green and blue sample of each pixel.
pub fn tensor_from_grid(grid: &RgbGrid) -> (r: Vec<u8>)
    requires
        grid.wf(),
    ensures
        r@.len() == 3 * grid.width * grid.height,
        forall|x: int, y: int, c: int|
            0 <= x < grid.width && 0 <= y < grid.height && 0 <= c < 3
                ==> #[trigger] r@[3 * (y * grid.width + x) + c] == grid.channel(x, y, c),
        r@ == grid.samples@.subrange(0, 3 * grid.width * grid.height),
{
    let w = grid.width;
    let h = grid.height;
    let len: usize = grid.samples.len();
    let mut out: Vec<u8> = Vec::new();
    let mut y: u32 = 0;
    while y < h
        invariant
            grid.wf(),
            w == grid.width,
            h == grid.height,
            len == grid.samples@.len(),
            y <= h,
            out@ == grid.samples@.subrange(0, 3 * (y * w)),
        decreases h - y,
    {
        let mut x: u32 = 0;
        while x < w
            invariant
                grid.wf(),
                w == grid.width,
                h == grid.height,
                len == grid.samples@.len(),
                y < h,
                x <= w,
                out@ == grid.samples@.subrange(0, 3 * (y * w + x)),
            decreases w - x,
        {
            proof {
                assert(3 * (y * w + x) + 3 <= 3 * w * h) by (nonlinear_arith)
                    requires
                        y < h,
                        x < w,
                ;
                assert(3 * (y * w + x) + 3 <= grid.samples@.len());
                assert(y * w + x <= grid.samples@.len());
            }
            let i: usize = 3 * ((y as usize) * (w as usize) + x as usize);
            out.push(grid.samples[i]);
            out.push(grid.samples[i + 1]);
            out.push(grid.samples[i + 2]);
            assert(out@ =~= grid.samples@.subrange(0, 3 * (y * w + x + 1)));
            x = x + 1;
        }
        proof {
            assert(y * w + w == (y + 1) * w) by (nonlinear_arith);
        }
        y = y + 1;
    }
    proof {
        assert(3 * (h * w) == 3 * w * h) by (nonlinear_arith);
        assert forall|x: int, y: int, c: int|
            0 <= x < w && 0 <= y < h && 0 <= c < 3 implies
                #[trigger] out@[3 * (y * w + x) + c] == grid.channel(x, y, c) by {
            assert(3 * (y * w + x) + 3 <= 3 * w * h) by (nonlinear_arith)
                requires
                    y < h,
                    x < w,
            ;
        }
    }
    out
}

/// Decodes `bytes`, resamples the image to `side` × `side` with the Lanczos3
/// filter and lays it out as a tensor of `3 * side * side` samples.
pub fn preprocess(bytes: &[u8], side: u32) -> (r: Result<Vec<u8>, InputError>)
    requires
        supported_side(side),
    ensures
        r is Ok <==> decodes(bytes@),
        r is Err ==> r == Err::<Vec<u8>, InputError>(InputError::Image),
        r matches Ok(v) ==> v@.len() == 3 * side * side,
{
    let grid = match decode_rgb(bytes) {
        Ok(g) => g,
        Err(_) => {
            return Err(InputError::Image);
        },
    };
    match resize_rgb(&grid, side) {
        Some(resized) => {
            Ok(tensor_from_grid(&resized))
        },
        None => Err(InputError::Image),
    }
}

} // verus!
