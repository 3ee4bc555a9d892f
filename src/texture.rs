use vstd::prelude::*;

use crate::error::PipelineError;

verus! {

/// The encodings in which texture assets arrive.
#[derive(Clone, Copy, Debug, PartialEq, Eq, Structural)]
pub enum ImageEncoding {
    Jpeg,
    Png,
}

#[verifier::external_type_specification]
#[verifier::external_body]
pub struct ExImageError(image::ImageError);

/// The image that PNG `bytes` decode to, as width, height and 8-bit RGBA rows
/// from the top row down; `None` where they do not decode.
pub uninterp spec fn png_rgba8_decoding(bytes: Seq<u8>) -> Option<(u32, u32, Seq<u8>)>;

/// Relies on image::load_from_memory_with_format and DynamicImage::to_rgba8.
/// The buffer that to_rgba8 allocates holds exactly four bytes for each
/// pixel. The PNG decoder's outcome depends on the bytes alone; the JPEG
/// decoder picks its IDCT and colour conversion by CPU feature, so for JPEG
/// only the buffer length is relied on.
#[verifier::external_body]
fn decode_rgba8(bytes: &[u8], encoding: ImageEncoding) -> (r: Result<(u32, u32, Vec<u8>), image::ImageError>)
    ensures
        r matches Ok((width, height, pixels)) ==> pixels@.len() == 4 * width * height,
        encoding is Png ==> match r {
            Ok((width, height, pixels)) => png_rgba8_decoding(bytes@) == Some((width, height, pixels@)),
            Err(_) => png_rgba8_decoding(bytes@) is None,
        },
{
    let format = match encoding {
        ImageEncoding::Jpeg => image::ImageFormat::Jpeg,
        ImageEncoding::Png => image::ImageFormat::Png,
    };
    let decoded = image::load_from_memory_with_format(bytes, format)?.to_rgba8();
    let (width, height) = decoded.dimensions();
    Ok((width, height, decoded.into_raw()))
}

/// `flipped` holds the rows of `pixels`, each `stride` bytes long, in
/// reverse order: its first row is the last row of `pixels`.
pub open spec fn rows_reversed(flipped: Seq<u8>, pixels: Seq<u8>, stride: nat, rows: nat) -> bool {
    &&& flipped.len() == pixels.len()
    &&& forall|r: int, c: int|
        0 <= r < rows && 0 <= c < stride ==> #[trigger] flipped[r * stride + c] == pixels[(rows - 1 - r) * stride + c]
}

/// An RGBA texture ready for upload, bottom row first as the rasterizer
/// addresses it.
pub struct RawTexture {
    pub width: u32,
    pub height: u32,
    pub pixels: Vec<u8>,
}

impl RawTexture {
    /// Takes an RGBA image stored top row first and reverses its rows.
    pub fn from_top_down_rgba8(width: u32, height: u32, pixels: Vec<u8>) -> (r: RawTexture)
        requires
            pixels@.len() == 4 * width * height,
        ensures
            r.width == width,
            r.height == height,
            rows_reversed(r.pixels@, pixels@, 4 * width as nat, height as nat),
    {
        if height == 0 {
            assert(pixels@.len() == 0) by (nonlinear_arith)
                requires pixels@.len() == 4 * width * height, height == 0;
            return RawTexture { width, height, pixels: Vec::new() };
        }
        let total = pixels.len();
        assert(4 * width <= total) by (nonlinear_arith)
            requires height > 0, total == 4 * width * height;
        let stride = 4 * width as usize;
        let rows = height as usize;
        assert(pixels@.len() == stride * rows) by (nonlinear_arith)
            requires pixels@.len() == 4 * width * height, stride == 4 * width, rows == height;
        let mut flipped: Vec<u8> = Vec::with_capacity(pixels.len());
        let mut row: usize = 0;
        while row < rows
            invariant
                stride == 4 * width,
                rows == height,
                pixels@.len() == stride * rows,
                total == pixels@.len(),
                row <= rows,
                flipped@.len() == row * stride,
                forall|r: int, c: int|
                    0 <= r < row && 0 <= c < stride ==> #[trigger] flipped@[r * stride + c] == pixels@[(rows - 1 - r) * stride + c],
            decreases rows - row,
        {
            assert((rows - 1 - row) * stride + stride <= stride * rows) by (nonlinear_arith)
                requires row < rows;
            assert(row * stride + stride == (row + 1) * stride) by (nonlinear_arith);
            let source = (rows - 1 - row) * stride;
            let mut col: usize = 0;
            while col < stride
                invariant
                    stride == 4 * width,
                    rows == height,
                    pixels@.len() == stride * rows,
                    total == pixels@.len(),
                    row < rows,
                    source == (rows - 1 - row) * stride,
                    source + stride <= pixels@.len(),
                    col <= stride,
                    flipped@.len() == row * stride + col,
                    forall|r: int, c: int|
                        0 <= r < row && 0 <= c < stride ==> #[trigger] flipped@[r * stride + c] == pixels@[(rows - 1 - r) * stride + c],
                    forall|c: int| 0 <= c < col ==> #[trigger] flipped@[row * stride + c] == pixels@[source + c],
                decreases stride - col,
            {
                flipped.push(pixels[source + col]);
                proof {
                    assert forall|r: int, c: int|
                        0 <= r < row && 0 <= c < stride implies #[trigger] flipped@[r * stride + c] == pixels@[(rows - 1 - r) * stride + c] by {
                        assert(r * stride + c < row * stride) by (nonlinear_arith)
                            requires 0 <= r < row, 0 <= c < stride;
                    }
                }
                col = col + 1;
            }
            proof {
                assert forall|r: int, c: int|
                    0 <= r < row + 1 && 0 <= c < stride implies #[trigger] flipped@[r * stride + c] == pixels@[(rows - 1 - r) * stride + c] by {
                    if r == row {
                        assert(flipped@[row * stride + c] == pixels@[source + c]);
                    }
                }
            }
            row = row + 1;
        }
        assert(flipped@.len() == pixels@.len()) by (nonlinear_arith)
            requires flipped@.len() == row * stride, row == rows, pixels@.len() == stride * rows;
        RawTexture { width, height, pixels: flipped }
    }
}

/// Decodes a texture asset and prepares it for upload.
///
/// A PNG asset succeeds exactly when its bytes decode; the texture then holds
/// the decoded image's rows in reverse order. A JPEG asset either fails with
/// `ResourceCreationFailed` or gives a texture of four bytes per pixel, whose
/// pixel values depend on the machine's decoder.
pub fn load_texture(bytes: &[u8], encoding: ImageEncoding) -> (r: Result<RawTexture, PipelineError>)
    ensures
        encoding is Png ==> match png_rgba8_decoding(bytes@) {
            Some((width, height, pixels)) => r matches Ok(t) && t.width == width && t.height == height
                && rows_reversed(t.pixels@, pixels, 4 * width as nat, height as nat),
            None => r == Err::<RawTexture, PipelineError>(PipelineError::ResourceCreationFailed),
        },
        encoding is Jpeg ==> match r {
            Ok(t) => t.pixels@.len() == 4 * t.width * t.height,
            Err(e) => e == PipelineError::ResourceCreationFailed,
        },
{
    match decode_rgba8(bytes, encoding) {
        Ok((width, height, pixels)) => Ok(RawTexture::from_top_down_rgba8(width, height, pixels)),
        Err(_) => Err(PipelineError::ResourceCreationFailed),
    }
}

} // verus!
