use real_live_wall::nowplaying::{observe_track, sample_buckets, track_hash, ColorBucket};
use real_live_wall::screenshot::{padded_bytes_per_row, strip_row_padding};

fn fnv(bytes: &[u8]) -> u64 {
    let mut h: u64 = 0xcbf29ce484222325;
    for b in bytes {
        h ^= *b as u64;
        h = h.wrapping_mul(0x100000001b3);
    }
    h
}

#[test]
fn track_hash_is_fnv1a_of_title_nul_artist() {
    assert_eq!(track_hash("", ""), fnv(&[0]));
    assert_eq!(track_hash("ab", "c"), fnv(b"ab\0c"));
    assert_ne!(track_hash("ab", "c"), track_hash("a", "bc"));
    assert_eq!(track_hash("노래", "가수"), fnv("노래\0가수".as_bytes()));
}

#[test]
fn track_change_reported_once() {
    let (changed, last) = observe_track(None, true, 7);
    assert!(changed);
    let (changed, last) = observe_track(last, true, 7);
    assert!(!changed);
    let (changed, last) = observe_track(last, true, 8);
    assert!(changed);
    let (changed, last) = observe_track(last, false, 8);
    assert!(!changed);
    assert_eq!(last, None);
    let (changed, _) = observe_track(last, true, 8);
    assert!(changed);
}

#[test]
fn histogram_counts_visible_sampled_pixels() {
    // 2x2 image: red, red, translucent blue (ignored), green.
    let px = vec![
        250, 10, 10, 255, 240, 0, 5, 255, //
        0, 0, 255, 10, 0, 200, 0, 255,
    ];
    let bs = sample_buckets(&px, 2, 2).expect("valid image");
    assert_eq!(
        bs,
        vec![
            ColorBucket { key: 0x0C0, count: 1, sum_r: 0, sum_g: 200, sum_b: 0 },
            ColorBucket { key: 0xF00, count: 2, sum_r: 490, sum_g: 10, sum_b: 15 },
        ]
    );
    assert!(sample_buckets(&px, 0, 2).is_none());
    assert!(sample_buckets(&px[..15], 2, 2).is_none());
    assert_eq!(sample_buckets(&[1, 2, 3, 0], 1, 1), Some(vec![]));
}

#[test]
fn histogram_samples_sparsely() {
    // 80 pixels wide: stride 2, so only even columns are counted.
    let mut px = Vec::new();
    for x in 0..80u32 {
        let v = if x % 2 == 0 { 0u8 } else { 255u8 };
        px.extend_from_slice(&[v, v, v, 255]);
    }
    let bs = sample_buckets(&px, 80, 1).unwrap();
    assert_eq!(bs, vec![ColorBucket { key: 0, count: 40, sum_r: 0, sum_g: 0, sum_b: 0 }]);
}

#[test]
fn readback_rows_are_unpadded() {
    assert_eq!(padded_bytes_per_row(16), 256);
    assert_eq!(padded_bytes_per_row(64), 256);
    assert_eq!(padded_bytes_per_row(65), 512);
    assert_eq!(padded_bytes_per_row(0), 0);
    let pitch = 8u32;
    let data: Vec<u8> = (0..24u8).collect();
    let tight = strip_row_padding(&data, 1, 3, pitch);
    assert_eq!(tight, vec![0, 1, 2, 3, 8, 9, 10, 11, 16, 17, 18, 19]);
    assert_eq!(strip_row_padding(&data, 1, 0, pitch), Vec::<u8>::new());
}
