//! Headless screenshot read-back: GPU copies are made in rows padded to a
//! 256-byte alignment, which are stripped back into a tight RGBA image and
//! encoded as a PNG file's bytes.

use vstd::prelude::*;

verus! {

/// Row pitch of a texture-to-buffer copy: `4 * width` rounded up to a
/// multiple of 256 bytes.
pub fn padded_bytes_per_row(width: u32) -> (r: u32)
    requires
        width * 4 + 255 <= u32::MAX,
    ensures
        r == (width * 4 + 255) / 256 * 256,
        r % 256 == 0,
        width * 4 <= r < width * 4 + 256,
{
    let bytes = width * 4;
    let r = (bytes + 255) / 256 * 256;
    assert((bytes + 255) / 256 * 256 <= bytes + 255 && bytes <= (bytes + 255) / 256 * 256 && ((
    bytes + 255) / 256 * 256) % 256 == 0) by (nonlinear_arith)
        requires
            bytes <= u32::MAX - 255,
    ;
    r
}

/// The first `rows` rows of `row_bytes` bytes each, taken from rows that are
/// `pitch` bytes apart.
pub open spec fn tight_rows(data: Seq<u8>, row_bytes: nat, pitch: nat, rows: nat) -> Seq<u8>
    decreases rows,
{
    if rows == 0 {
        Seq::empty()
    } else {
        let start = (rows - 1) * pitch;
        tight_rows(data, row_bytes, pitch, (rows - 1) as nat) + data.subrange(
            start as int,
            (start + row_bytes) as int,
        )
    }
}

pub proof fn lemma_tight_rows_len(data: Seq<u8>, row_bytes: nat, pitch: nat, rows: nat)
    requires
        pitch >= row_bytes,
        rows == 0 || (rows - 1) * pitch + row_bytes <= data.len(),
    ensures
        tight_rows(data, row_bytes, pitch, rows).len() == rows * row_bytes,
    decreases rows,
{
    if rows > 0 {
        if rows > 1 {
            assert((rows - 2) * pitch + row_bytes <= (rows - 1) * pitch + row_bytes) by (
            nonlinear_arith)
                requires
                    rows >= 2,
            ;
        }
        lemma_tight_rows_len(data, row_bytes, pitch, (rows - 1) as nat);
        assert((rows - 1) * row_bytes + row_bytes == rows * row_bytes) by (nonlinear_arith);
    }
}

/// Strip the row padding of a read-back buffer into a tight RGBA image of
/// `width` × `height` pixels.
pub fn strip_row_padding(data: &[u8], width: u32, height: u32, pitch: u32) -> (r: Vec<u8>)
    requires
        pitch >= width * 4,
        height == 0 || (height - 1) * pitch + width * 4 <= data@.len(),
    ensures
        r@ == tight_rows(data@, (width * 4) as nat, pitch as nat, height as nat),
        r@.len() == width * 4 * height,
{
    let row_bytes: usize = width as usize * 4;
    let mut out: Vec<u8> = Vec::new();
    let n = data.len();
    let mut row: u32 = 0;
    while row < height
        invariant
            n == data@.len(),
            row <= height,
            row_bytes == width * 4,
            pitch >= row_bytes,
            height == 0 || (height - 1) * pitch + row_bytes <= data@.len(),
            out@ == tight_rows(data@, row_bytes as nat, pitch as nat, row as nat),
        decreases height - row,
    {
        assert(row * pitch + row_bytes <= (height - 1) * pitch + row_bytes) by (nonlinear_arith)
            requires
                row < height,
        ;
        let start: usize = row as usize * pitch as usize;
        let mut i: usize = 0;
        let ghost before = out@;
        while i < row_bytes
            invariant
                i <= row_bytes,
                n == data@.len(),
                start + row_bytes <= data@.len(),
                out@ == before + data@.subrange(start as int, (start + i) as int),
            decreases row_bytes - i,
        {
            out.push(data[start + i]);
            proof {
                assert(data@.subrange(start as int, (start + i + 1) as int) =~= data@.subrange(
                    start as int,
                    (start + i) as int,
                ).push(data@[start + i]));
            }
            i = i + 1;
        }
        row = row + 1;
        assert(out@ =~= tight_rows(data@, row_bytes as nat, pitch as nat, row as nat));
    }
    proof {
        lemma_tight_rows_len(data@, row_bytes as nat, pitch as nat, height as nat);
    }
    out
}

/// Size of a screenshot: the configured size, at least 16 pixels each way.
pub fn screenshot_size(width: u32, height: u32) -> (r: (u32, u32))
    ensures
        r.0 == if width >= 16 {
            width
        } else {
            16
        },
        r.1 == if height >= 16 {
            height
        } else {
            16
        },
{
    (if width >= 16 {
        width
    } else {
        16
    }, if height >= 16 {
        height
    } else {
        16
    })
}

/// The bytes that the `png` crate's encoder writes for an 8-bit RGBA image of
/// the given size and pixels, with its default settings. A function of its
/// arguments alone.
pub uninterp spec fn png_rgba8(width: u32, height: u32, pixels: Seq<u8>) -> Seq<u8>;

/// Encodes with `png::Encoder` (RGBA, 8 bits per channel, default options)
/// into memory. Its output is named [`png_rgba8`]. The encoder refuses a zero
/// width or height and pixel data whose length is not `width * height * 4`;
/// otherwise it succeeds, as writing into a `Vec` cannot fail and the default
/// options do not validate animation sequences.
#[verifier::external_body]
fn encode_png(width: u32, height: u32, pixels: &[u8]) -> (r: Option<Vec<u8>>)
    requires
        width * height * 4 <= usize::MAX,
    ensures
        r is None <==> (width == 0 || height == 0 || pixels@.len() != width * height * 4),
        r matches Some(b) ==> b@ == png_rgba8(width, height, pixels@),
{
    let mut out: Vec<u8> = Vec::new();
    let mut enc = png::Encoder::new(&mut out, width, height);
    enc.set_color(png::ColorType::Rgba);
    enc.set_depth(png::BitDepth::Eight);
    let mut writer = enc.write_header().ok()?;
    writer.write_image_data(pixels).ok()?;
    writer.finish().ok()?;
    Some(out)
}

/// The PNG bytes of a read-back frame of `width` × `height` pixels whose rows
/// lie `pitch` bytes apart in `data`: the rows are stripped of their padding
/// and encoded. `None` exactly for an empty image, which the encoder refuses.
pub fn screenshot_png(data: &[u8], width: u32, height: u32, pitch: u32) -> (r: Option<Vec<u8>>)
    requires
        pitch >= width * 4,
        height == 0 || (height - 1) * pitch + width * 4 <= data@.len(),
        width * height * 4 <= usize::MAX,
    ensures
        r is None <==> (width == 0 || height == 0),
        r matches Some(b) ==> b@ == png_rgba8(
            width,
            height,
            tight_rows(data@, (width * 4) as nat, pitch as nat, height as nat),
        ),
{
    let pixels = strip_row_padding(data, width, height, pitch);
    assert(width * 4 * height == width * height * 4) by (nonlinear_arith);
    encode_png(width, height, pixels.as_slice())
}

} // verus!
