use real_live_wall::config::AudioArg;
use real_live_wall::ui::{audio_label, decode_thumbnail, thumbnail_rgba, DecodedImage, PixelLayout, UiAction};

fn encode_png(w: u32, h: u32, color: png::ColorType, data: &[u8]) -> Vec<u8> {
    let mut out = Vec::new();
    {
        let mut enc = png::Encoder::new(&mut out, w, h);
        enc.set_color(color);
        enc.set_depth(png::BitDepth::Eight);
        let mut writer = enc.write_header().unwrap();
        writer.write_image_data(data).unwrap();
    }
    out
}

#[test]
fn audio_labels() {
    assert_eq!(audio_label(AudioArg::Off), "끄기");
    assert_eq!(audio_label(AudioArg::Loopback), "루프백 (재생 소리)");
    assert_eq!(audio_label(AudioArg::Input), "입력 (마이크)");
    assert_eq!(audio_label(AudioArg::Auto), "자동 (Windows=루프백)");
    assert_eq!(UiAction::SetAudio(AudioArg::Off), UiAction::SetAudio(AudioArg::Off));
}

#[test]
fn rgb_thumbnails_gain_opaque_alpha() {
    let bytes = encode_png(2, 1, png::ColorType::Rgb, &[1, 2, 3, 4, 5, 6]);
    let (w, h, rgba) = decode_thumbnail(&bytes).expect("decodes");
    assert_eq!((w, h), (2, 1));
    assert_eq!(rgba, vec![1, 2, 3, 255, 4, 5, 6, 255]);
}

#[test]
fn rgba_thumbnails_pass_through_and_gray_is_refused() {
    let bytes = encode_png(1, 1, png::ColorType::Rgba, &[9, 8, 7, 6]);
    assert_eq!(decode_thumbnail(&bytes), Some((1, 1, vec![9, 8, 7, 6])));
    let gray = encode_png(1, 1, png::ColorType::Grayscale, &[7]);
    assert_eq!(decode_thumbnail(&gray), None);
    assert_eq!(decode_thumbnail(b"not a png"), None);
}

#[test]
fn widening_drops_partial_pixels() {
    let img = DecodedImage { width: 1, height: 1, layout: PixelLayout::Rgb, data: vec![1, 2, 3, 4] };
    assert_eq!(thumbnail_rgba(img), Some((1, 1, vec![1, 2, 3, 255])));
    let idx = DecodedImage { width: 1, height: 1, layout: PixelLayout::Indexed, data: vec![0] };
    assert_eq!(thumbnail_rgba(idx), None);
}
