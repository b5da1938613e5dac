use real_live_wall::screenshot::{screenshot_png, screenshot_size};
use real_live_wall::ui::decode_thumbnail;

fn decode(bytes: &[u8]) -> (u32, u32, Vec<u8>) {
    let mut reader = png::Decoder::new(std::io::Cursor::new(bytes)).read_info().unwrap();
    let mut buf = vec![0u8; reader.output_buffer_size().unwrap()];
    let info = reader.next_frame(&mut buf).unwrap();
    assert_eq!(info.color_type, png::ColorType::Rgba);
    assert_eq!(info.bit_depth, png::BitDepth::Eight);
    buf.truncate(info.buffer_size());
    (info.width, info.height, buf)
}

#[test]
fn screenshot_size_is_at_least_sixteen() {
    assert_eq!(screenshot_size(1280, 720), (1280, 720));
    assert_eq!(screenshot_size(4, 100), (16, 100));
    assert_eq!(screenshot_size(0, 0), (16, 16));
    assert_eq!(screenshot_size(16, 15), (16, 16));
}

#[test]
fn screenshot_png_drops_row_padding() {
    // 2 x 2 image, rows 256 bytes apart (the GPU copy alignment).
    let mut data = vec![0xEEu8; 256 + 8];
    data[0..8].copy_from_slice(&[1, 2, 3, 4, 5, 6, 7, 8]);
    data[256..264].copy_from_slice(&[9, 10, 11, 12, 13, 14, 15, 16]);
    let bytes = screenshot_png(&data, 2, 2, 256).expect("encodes");
    assert_eq!(&bytes[0..8], &[137, 80, 78, 71, 13, 10, 26, 10]);
    let (w, h, px) = decode(&bytes);
    assert_eq!((w, h), (2, 2));
    assert_eq!(px, (1..=16).collect::<Vec<u8>>());
}

#[test]
fn screenshot_png_round_trips_through_thumbnail_decoding() {
    let data: Vec<u8> = (0..(3 * 4 * 3)).map(|i| i as u8).collect();
    let bytes = screenshot_png(&data, 3, 3, 12).expect("encodes");
    let (w, h, px) = decode_thumbnail(&bytes).expect("decodes");
    assert_eq!((w, h), (3, 3));
    assert_eq!(px, data);
}

#[test]
fn screenshot_png_refuses_empty_image() {
    assert!(screenshot_png(&[], 0, 5, 0).is_none());
    assert!(screenshot_png(&[], 5, 0, 20).is_none());
}
