//! Settings-panel vocabulary: the actions the panel asks the app to perform,
//! the labels of the audio choices, and the decoding of scene thumbnails.
//!
//! Drawing the panel is done by the GUI toolkit outside this library.

use vstd::prelude::*;

use crate::config::AudioArg;

verus! {

/// Actions the UI asks the app to perform (applied after the frame is drawn).
#[derive(Clone, Copy, Debug, PartialEq, Eq, Structural)]
pub enum UiAction {
    SelectScene(usize),
    SetAudio(AudioArg),
    ToggleWallpaper,
    SetAutostart(bool),
    Reload,
    /// Playlist settings changed — persist and reset the auto-cycle timer.
    PlaylistChanged,
    /// Download and install the available update.
    ApplyUpdate,
    Quit,
}

pub open spec fn spec_audio_label(a: AudioArg) -> Seq<char> {
    match a {
        AudioArg::Auto => "자동 (Windows=루프백)"@,
        AudioArg::Loopback => "루프백 (재생 소리)"@,
        AudioArg::Input => "입력 (마이크)"@,
        AudioArg::Off => "끄기"@,
    }
}

/// The panel's label for an audio choice.
pub fn audio_label(a: AudioArg) -> (r: &'static str)
    ensures
        r@ == spec_audio_label(a),
{
    match a {
        AudioArg::Auto => "자동 (Windows=루프백)",
        AudioArg::Loopback => "루프백 (재생 소리)",
        AudioArg::Input => "입력 (마이크)",
        AudioArg::Off => "끄기",
    }
}

/// How the pixels of a decoded image are laid out.
#[derive(Clone, Copy, Debug, PartialEq, Eq, Structural)]
pub enum PixelLayout {
    Grayscale,
    Rgb,
    Indexed,
    GrayscaleAlpha,
    Rgba,
}

/// The first frame of a decoded PNG image.
#[derive(Debug)]
pub struct DecodedImage {
    pub width: u32,
    pub height: u32,
    pub layout: PixelLayout,
    pub data: Vec<u8>,
}

pub open spec fn decoded_view(d: Option<DecodedImage>) -> Option<(u32, u32, PixelLayout, Seq<u8>)> {
    match d {
        Some(img) => Some((img.width, img.height, img.layout, img.data@)),
        None => None,
    }
}

/// What the `png` crate's decoder yields for a byte buffer: the size, pixel
/// layout and bytes of the first frame (`None` when it is not a decodable
/// PNG). A function of the bytes alone.
pub uninterp spec fn png_first_frame(bytes: Seq<u8>) -> Option<(u32, u32, PixelLayout, Seq<u8>)>;

/// Decodes with `png::Decoder` (header, then the first frame into a buffer of
/// the decoder's output size, cut to the frame's size). Its result is named
/// [`png_first_frame`]; nothing more is claimed of it.
#[verifier::external_body]
fn decode_png(bytes: &[u8]) -> (r: Option<DecodedImage>)
    ensures
        decoded_view(r) == png_first_frame(bytes@),
{
    let mut reader = png::Decoder::new(std::io::Cursor::new(bytes)).read_info().ok()?;
    let mut buf = vec![0u8; reader.output_buffer_size()?];
    let info = reader.next_frame(&mut buf).ok()?;
    buf.truncate(info.buffer_size());
    let layout = match info.color_type {
        png::ColorType::Grayscale => PixelLayout::Grayscale,
        png::ColorType::Rgb => PixelLayout::Rgb,
        png::ColorType::Indexed => PixelLayout::Indexed,
        png::ColorType::GrayscaleAlpha => PixelLayout::GrayscaleAlpha,
        png::ColorType::Rgba => PixelLayout::Rgba,
    };
    Some(DecodedImage { width: info.width, height: info.height, layout, data: buf })
}

/// RGB bytes widened to RGBA with an opaque alpha, one pixel per complete
/// RGB triple (a trailing partial triple is dropped).
pub open spec fn rgb_to_rgba(s: Seq<u8>, pixels: nat) -> Seq<u8>
    decreases pixels,
{
    if pixels == 0 {
        Seq::empty()
    } else {
        let i = (pixels - 1) * 3;
        rgb_to_rgba(s, (pixels - 1) as nat) + seq![s[i], s[i + 1], s[i + 2], 255u8]
    }
}

/// The RGBA pixels of a decoded image: RGBA as is, RGB widened with an opaque
/// alpha; any other layout is not shown.
pub open spec fn spec_thumbnail_rgba(img: (u32, u32, PixelLayout, Seq<u8>)) -> Option<
    (nat, nat, Seq<u8>),
> {
    match img.2 {
        PixelLayout::Rgba => Some((img.0 as nat, img.1 as nat, img.3)),
        PixelLayout::Rgb => Some((img.0 as nat, img.1 as nat, rgb_to_rgba(img.3, img.3.len() / 3))),
        _ => None,
    }
}

pub open spec fn rgba_view(r: Option<(usize, usize, Vec<u8>)>) -> Option<(nat, nat, Seq<u8>)> {
    match r {
        Some(t) => Some((t.0 as nat, t.1 as nat, t.2@)),
        None => None,
    }
}

/// Turn a decoded image into `(width, height, rgba)`.
pub fn thumbnail_rgba(img: DecodedImage) -> (r: Option<(usize, usize, Vec<u8>)>)
    ensures
        rgba_view(r) == spec_thumbnail_rgba((img.width, img.height, img.layout, img.data@)),
        r matches Some(t) ==> t.0 == img.width && t.1 == img.height,
        img.layout == PixelLayout::Rgba ==> (r matches Some(t) && t.2@ == img.data@),
        r is Some <==> (img.layout == PixelLayout::Rgba || img.layout == PixelLayout::Rgb),
{
    let w = img.width as usize;
    let h = img.height as usize;
    match img.layout {
        PixelLayout::Rgba => Some((w, h, img.data)),
        PixelLayout::Rgb => {
            let src = &img.data;
            let len = src.len();
            let n = len / 3;
            let mut out: Vec<u8> = Vec::new();
            let mut k: usize = 0;
            let mut i: usize = 0;
            while k < n
                invariant
                    len == src@.len(),
                    n == src@.len() / 3,
                    k <= n,
                    i == k * 3,
                    out@ == rgb_to_rgba(src@, k as nat),
                decreases n - k,
            {
                assert(i + 2 < src@.len()) by (nonlinear_arith)
                    requires
                        i == k * 3,
                        k < n,
                        n == src@.len() / 3,
                ;
                out.push(src[i]);
                out.push(src[i + 1]);
                out.push(src[i + 2]);
                out.push(255u8);
                assert(out@ =~= rgb_to_rgba(src@, (k + 1) as nat));
                k = k + 1;
                i = i + 3;
            }
            Some((w, h, out))
        },
        _ => None,
    }
}

/// A shown thumbnail keeps the decoded image's width first and height
/// second, whatever its layout; RGBA pixels are shown unchanged, and RGB
/// pixels gain one alpha byte per pixel.
pub proof fn lemma_thumbnail_shape(img: (u32, u32, PixelLayout, Seq<u8>))
    ensures
        spec_thumbnail_rgba(img) matches Some(t) ==> t.0 == img.0 && t.1 == img.1,
        img.2 == PixelLayout::Rgba ==> spec_thumbnail_rgba(img) == Some(
            (img.0 as nat, img.1 as nat, img.3),
        ),
        img.2 == PixelLayout::Rgb ==> (spec_thumbnail_rgba(img) matches Some(t) && t.2.len()
            == img.3.len() / 3 * 4),
{
    if img.2 == PixelLayout::Rgb {
        lemma_rgb_to_rgba_len(img.3, img.3.len() / 3);
    }
}

proof fn lemma_rgb_to_rgba_len(s: Seq<u8>, pixels: nat)
    ensures
        rgb_to_rgba(s, pixels).len() == pixels * 4,
    decreases pixels,
{
    if pixels > 0 {
        lemma_rgb_to_rgba_len(s, (pixels - 1) as nat);
    }
}

/// Decode a thumbnail PNG into `(width, height, rgba)` for display; `None`
/// when it does not decode or its pixels are neither RGB nor RGBA.
pub fn decode_thumbnail(bytes: &[u8]) -> (r: Option<(usize, usize, Vec<u8>)>)
    ensures
        rgba_view(r) == match png_first_frame(bytes@) {
            Some(img) => spec_thumbnail_rgba(img),
            None => None,
        },
{
    match decode_png(bytes) {
        Some(img) => thumbnail_rgba(img),
        None => None,
    }
}

} // verus!
