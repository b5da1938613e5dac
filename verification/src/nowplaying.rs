//! Now-playing support: track identity across polls and the colour histogram
//! behind the album-art palette.
//!
//! Talking to the system media session and turning the histogram into a
//! palette (a floating-point scoring) happen outside this library; this
//! module decides when a track changed and counts the sampled colours.

use std::collections::HashMap;

use vstd::prelude::*;

verus! {

pub const FNV_OFFSET: u64 = 0xcbf29ce484222325;

pub const FNV_PRIME: u64 = 0x0000_0100_0000_01b3;

/// One FNV-1a step: xor in the byte, multiply by the prime modulo 2^64.
pub open spec fn fnv_step(h: u64, b: u8) -> u64 {
    vstd::wrapping::u64_specs::wrapping_mul(h ^ (b as u64), FNV_PRIME)
}

/// FNV-1a 64-bit hash of `bytes`, starting from `h`.
pub open spec fn fnv1a(h: u64, bytes: Seq<u8>) -> u64
    decreases bytes.len(),
{
    if bytes.len() == 0 {
        h
    } else {
        fnv_step(fnv1a(h, bytes.drop_last()), bytes.last())
    }
}

/// The bytes hashed for a track: title, a NUL separator, artist.
pub open spec fn track_bytes(title: &str, artist: &str) -> Seq<u8> {
    vstd::utf8::encode_utf8(title@) + seq![0u8] + vstd::utf8::encode_utf8(artist@)
}

fn fnv_extend(h: u64, bytes: &[u8], Ghost(prefix): Ghost<Seq<u8>>) -> (r: u64)
    requires
        h == fnv1a(FNV_OFFSET, prefix),
    ensures
        r == fnv1a(FNV_OFFSET, prefix + bytes@),
{
    let mut hash = h;
    let mut i: usize = 0;
    while i < bytes.len()
        invariant
            i <= bytes@.len(),
            hash == fnv1a(FNV_OFFSET, prefix + bytes@.take(i as int)),
        decreases bytes@.len() - i,
    {
        let b = bytes[i];
        proof {
            assert((prefix + bytes@.take(i + 1)).drop_last() =~= prefix + bytes@.take(i as int));
        }
        hash = (hash ^ (b as u64)).wrapping_mul(FNV_PRIME);
        i = i + 1;
    }
    assert(bytes@.take(bytes@.len() as int) =~= bytes@);
    hash
}

/// Stable FNV-1a 64-bit hash of `title` + `artist`, used to detect track
/// changes between polls without keeping the strings around twice.
pub fn track_hash(title: &str, artist: &str) -> (r: u64)
    ensures
        r == fnv1a(FNV_OFFSET, track_bytes(title, artist)),
{
    let ghost empty = Seq::<u8>::empty();
    assert(fnv1a(FNV_OFFSET, empty) == FNV_OFFSET);
    let t = title.as_bytes();
    let h1 = fnv_extend(FNV_OFFSET, t, Ghost(empty));
    assert(empty + t@ =~= vstd::utf8::encode_utf8(title@));
    let sep: [u8; 1] = [0u8];
    let h2 = fnv_extend(h1, sep.as_slice(), Ghost(vstd::utf8::encode_utf8(title@)));
    let a = artist.as_bytes();
    assert(sep@ =~= seq![0u8]);
    let h3 = fnv_extend(h2, a, Ghost(vstd::utf8::encode_utf8(title@) + seq![0u8]));
    h3
}

/// What one poll of the media session says about track changes: the track
/// seen this poll (`None` without a session), and whether it differs from the
/// previous poll's track while music is present.
pub open spec fn spec_observe_track(last: Option<u64>, has_music: bool, hash: u64) -> (
    bool,
    Option<u64>,
) {
    let current = if has_music {
        Some(hash)
    } else {
        None
    };
    (has_music && current != last, current)
}

/// Fold one poll into the track-change detector. Returns whether this poll
/// is the single one in which the track (by title+artist hash) was first seen
/// to differ from the previous poll's, and the track to remember.
pub fn observe_track(last: Option<u64>, has_music: bool, hash: u64) -> (r: (bool, Option<u64>))
    ensures
        r == spec_observe_track(last, has_music, hash),
{
    let current = if has_music {
        Some(hash)
    } else {
        None
    };
    let changed = has_music && current != last;
    (changed, current)
}

/// A track change is reported for one poll only: polling the same track
/// again reports no change, and without music no change is ever reported.
pub proof fn lemma_track_change_once(last: Option<u64>, has_music: bool, hash: u64)
    ensures
        ({
            let (changed, remembered) = spec_observe_track(last, has_music, hash);
            &&& !spec_observe_track(remembered, has_music, hash).0
            &&& (!has_music ==> !changed)
            &&& (changed <==> has_music && last != Some(hash))
        }),
{
}

} // verus!

verus! {

/// At most this many samples are taken along each image axis.
pub const MAX_SAMPLES_PER_AXIS: usize = 40;

/// Number of colour buckets (4 bits per channel).
pub const BUCKETS: usize = 4096;

/// Sampling stride along an axis of `extent` pixels.
pub open spec fn step_for(extent: nat) -> nat {
    if extent / 40 >= 1 {
        extent / 40
    } else {
        1
    }
}

/// Coarse colour bucket of a pixel: the top 4 bits of each channel.
pub open spec fn bucket_key(r: u8, g: u8, b: u8) -> nat {
    (r / 16) as nat * 256 + (g / 16) as nat * 16 + (b / 16) as nat
}

/// (sample count, summed red, summed green, summed blue) of one bucket.
pub type Stats = (nat, nat, nat, nat);

pub open spec fn add_stats(a: Stats, b: Stats) -> Stats {
    (a.0 + b.0, a.1 + b.1, a.2 + b.2, a.3 + b.3)
}

pub open spec fn zero_stats() -> Stats {
    (0, 0, 0, 0)
}

/// What the RGBA pixel starting at byte `idx` adds to bucket `key`: itself
/// when it is visible enough (alpha at least 16) and falls in that bucket.
pub open spec fn pixel_share(px: Seq<u8>, idx: int, key: nat) -> Stats {
    if px[idx + 3] >= 16 && bucket_key(px[idx], px[idx + 1], px[idx + 2]) == key {
        (1, px[idx] as nat, px[idx + 1] as nat, px[idx + 2] as nat)
    } else {
        zero_stats()
    }
}

/// Bucket `key`'s share of the samples of row `y` from column `x` on, taking
/// every `sx`-th pixel.
pub open spec fn row_stats(px: Seq<u8>, w: nat, y: nat, x: nat, sx: nat, key: nat) -> Stats
    decreases (if x < w {
        w - x
    } else {
        0
    }),
{
    if x >= w || sx == 0 {
        zero_stats()
    } else {
        add_stats(pixel_share(px, ((y * w + x) * 4) as int, key), row_stats(px, w, y, x + sx, sx, key))
    }
}

/// Bucket `key`'s share of the samples of rows `y, y + sy, ...` below `h`.
pub open spec fn grid_stats(
    px: Seq<u8>,
    w: nat,
    h: nat,
    y: nat,
    sx: nat,
    sy: nat,
    key: nat,
) -> Stats
    decreases (if y < h {
        h - y
    } else {
        0
    }),
{
    if y >= h || sy == 0 {
        zero_stats()
    } else {
        add_stats(row_stats(px, w, y, 0, sx, key), grid_stats(px, w, h, y + sy, sx, sy, key))
    }
}

/// Bucket `key`'s statistics over the whole sampled image.
pub open spec fn image_stats(px: Seq<u8>, w: nat, h: nat, key: nat) -> Stats {
    grid_stats(px, w, h, 0, step_for(w), step_for(h), key)
}

/// One non-empty colour bucket of the sampled image.
#[derive(Clone, Copy, Debug, PartialEq, Eq)]
pub struct ColorBucket {
    pub key: u16,
    pub count: u32,
    pub sum_r: u64,
    pub sum_g: u64,
    pub sum_b: u64,
}

pub open spec fn bucket_stats(b: ColorBucket) -> Stats {
    (b.count as nat, b.sum_r as nat, b.sum_g as nat, b.sum_b as nat)
}

/// `bs` lists exactly the non-empty colour buckets of the sampled image, in
/// increasing key order, each with its statistics.
pub open spec fn buckets_of_image(bs: Seq<ColorBucket>, px: Seq<u8>, w: nat, h: nat) -> bool {
    &&& forall|i: int, j: int| 0 <= i < j < bs.len() ==> bs[i].key < bs[j].key
    &&& forall|i: int|
        0 <= i < bs.len() ==> #[trigger] bs[i].key < 4096 && bs[i].count > 0 && bucket_stats(bs[i])
            == image_stats(px, w, h, bs[i].key as nat)
    &&& forall|k: nat|
        k < 4096 && image_stats(px, w, h, k).0 > 0 ==> exists|i: int|
            0 <= i < bs.len() && #[trigger] bs[i].key == k
}

/// Taking every `step`-th of `extent` positions visits fewer than 80 of them.
proof fn lemma_axis_samples(extent: nat, step: nat, k: nat)
    requires
        step == step_for(extent),
        k * step < extent,
    ensures
        k < 80,
{
    if extent / 40 >= 1 {
        assert(extent < 80 * step) by (nonlinear_arith)
            requires
                step == extent / 40,
                step >= 1,
        ;
        assert(k < 80) by (nonlinear_arith)
            requires
                k * step < 80 * step,
                step >= 1,
        ;
    } else {
        assert(extent < 40);
        assert(k * 1 == k);
    }
}

proof fn lemma_key_bits(r: u8, g: u8, b: u8)
    ensures
        (((r >> 4u8) as u16) << 8u16) | (((g >> 4u8) as u16) << 4u16) | ((b >> 4u8) as u16)
            == bucket_key(r, g, b),
        bucket_key(r, g, b) < 4096,
{
    assert((((r >> 4u8) as u16) << 8u16) | (((g >> 4u8) as u16) << 4u16) | ((b >> 4u8) as u16)
        == ((r / 16) as u16) * 256 + ((g / 16) as u16) * 16 + ((b / 16) as u16)) by (bit_vector);
}

/// Running totals of one bucket: (sample count, summed red, green, blue).
pub type Tally = (u32, u64, u64, u64);

/// The statistics a histogram holds for bucket `key`: its tally, or nothing
/// counted when the key is absent.
pub open spec fn tally_stats(m: Map<u16, Tally>, key: u16) -> Stats {
    if m.contains_key(key) {
        let t = m[key];
        (t.0 as nat, t.1 as nat, t.2 as nat, t.3 as nat)
    } else {
        zero_stats()
    }
}

/// Sparsely sample an RGBA8 image (at most 40-ish samples per axis), and
/// count each sampled, visible pixel into its coarse colour bucket with its
/// summed channels. Returns `None` for an empty image or a buffer too short
/// for `width * height` pixels; otherwise the non-empty buckets in key order.
pub fn sample_buckets(pixels: &[u8], width: usize, height: usize) -> (r: Option<Vec<ColorBucket>>)
    requires
        width * height * 4 <= usize::MAX,
    ensures
        r is None <==> (width == 0 || height == 0 || pixels@.len() < width * height * 4),
        r matches Some(bs) ==> buckets_of_image(bs@, pixels@, width as nat, height as nat),
{
    broadcast use vstd::std_specs::hash::group_hash_axioms;

    if width == 0 || height == 0 || pixels.len() < width * height * 4 {
        return None;
    }
    let w = width;
    let h = height;
    let step_x: usize = if w / MAX_SAMPLES_PER_AXIS >= 1 {
        w / MAX_SAMPLES_PER_AXIS
    } else {
        1
    };
    let step_y: usize = if h / MAX_SAMPLES_PER_AXIS >= 1 {
        h / MAX_SAMPLES_PER_AXIS
    } else {
        1
    };
    let ghost px = pixels@;
    let ghost total = |k: nat| grid_stats(px, w as nat, h as nat, 0, step_x as nat, step_y as nat, k);
    let mut buckets: HashMap<u16, Tally> = HashMap::new();
    assert(h * 4 <= w * h * 4) by (nonlinear_arith)
        requires
            w >= 1,
    ;
    let ghost mut visited: nat = 0;
    let ghost mut ky: nat = 0;
    let mut y: usize = 0;
    while y < h
        invariant
            w == width && h == height && w > 0 && h > 0,
            px == pixels@,
            px.len() >= w * h * 4,
            w * h * 4 <= usize::MAX,
            step_x as nat == step_for(w as nat),
            step_y as nat == step_for(h as nat),
            1 <= step_x <= w,
            1 <= step_y <= h,
            h * 4 <= usize::MAX,
            y < h + step_y,
            y as nat == ky * step_y,
            y < h ==> ky < 80,
            y >= h ==> ky <= 80,
            visited <= ky * 80,
            forall|j: u16|
                #![trigger tally_stats(buckets@, j)]
                tally_stats(buckets@, j).0 <= visited && tally_stats(buckets@, j).1 <= 255
                    * tally_stats(buckets@, j).0 && tally_stats(buckets@, j).2 <= 255 * tally_stats(
                    buckets@,
                    j,
                ).0 && tally_stats(buckets@, j).3 <= 255 * tally_stats(buckets@, j).0,
            forall|j: u16|
                j < 4096 ==> add_stats(
                    tally_stats(buckets@, j),
                    grid_stats(px, w as nat, h as nat, y as nat, step_x as nat, step_y as nat, j as nat),
                ) == #[trigger] total(j as nat),
        decreases h + step_y - y,
    {
        assert(y * w < w * h * 4) by (nonlinear_arith)
            requires
                y < h,
                w > 0,
        ;
        let row = y * w;
        let mut x: usize = 0;
        let ghost mut kx: nat = 0;
        let ghost row_start = visited;
        while x < w
            invariant
                w == width && h == height && w > 0 && h > 0,
                px == pixels@,
                px.len() >= w * h * 4,
                w * h * 4 <= usize::MAX,
                y < h,
                row == y * w,
                1 <= step_x <= w,
                1 <= step_y <= h,
                ky < 80,
                y as nat == ky * step_y,
                row_start <= ky * 80,
                step_x as nat == step_for(w as nat),
                step_y as nat == step_for(h as nat),
                x as nat == kx * step_x,
                x < w + step_x,
                x < w ==> kx < 80,
                kx <= 80,
                visited == row_start + kx,
                forall|j: u16|
                    #![trigger tally_stats(buckets@, j)]
                    tally_stats(buckets@, j).0 <= visited && tally_stats(buckets@, j).1 <= 255
                        * tally_stats(buckets@, j).0 && tally_stats(buckets@, j).2 <= 255
                        * tally_stats(buckets@, j).0 && tally_stats(buckets@, j).3 <= 255
                        * tally_stats(buckets@, j).0,
                forall|j: u16|
                    j < 4096 ==> add_stats(
                        add_stats(
                            tally_stats(buckets@, j),
                            row_stats(px, w as nat, y as nat, x as nat, step_x as nat, j as nat),
                        ),
                        grid_stats(px, w as nat, h as nat, (y + step_y) as nat, step_x as nat, step_y as nat, j as nat),
                    ) == #[trigger] total(j as nat),
            decreases w + step_x - x,
        {
            assert((row + x) * 4 + 3 < w * h * 4) by (nonlinear_arith)
                requires
                    row == y * w,
                    y < h,
                    x < w,
            ;
            let idx = (row + x) * 4;
            let r = pixels[idx];
            let g = pixels[idx + 1];
            let b = pixels[idx + 2];
            let a = pixels[idx + 3];
            let ghost before = buckets@;
            proof {
                lemma_key_bits(r, g, b);
                assert(visited <= 6400) by (nonlinear_arith)
                    requires
                        visited == row_start + kx,
                        row_start <= ky * 80,
                        ky < 80,
                        kx < 80,
                ;
            }
            if a >= 16 {
                let key: u16 = (((r >> 4u8) as u16) << 8u16) | (((g >> 4u8) as u16) << 4u16) | ((
                b >> 4u8) as u16);
                let cur: Tally = match buckets.get(&key) {
                    Some(t) => *t,
                    None => (0, 0, 0, 0),
                };
                assert(tally_stats(before, key) == (cur.0 as nat, cur.1 as nat, cur.2 as nat, cur.3 as nat));
                buckets.insert(key, (cur.0 + 1, cur.1 + r as u64, cur.2 + g as u64, cur.3 + b as u64));
            }
            proof {
                assert forall|j: u16|
                    j < 4096 implies add_stats(
                        add_stats(
                            tally_stats(buckets@, j),
                            row_stats(px, w as nat, y as nat, (x + step_x) as nat, step_x as nat, j as nat),
                        ),
                        grid_stats(px, w as nat, h as nat, (y + step_y) as nat, step_x as nat, step_y as nat, j as nat),
                    ) == #[trigger] total(j as nat) by {
                    assert(row_stats(px, w as nat, y as nat, x as nat, step_x as nat, j as nat) == add_stats(
                        pixel_share(px, ((y * w + x) * 4) as int, j as nat),
                        row_stats(px, w as nat, y as nat, (x + step_x) as nat, step_x as nat, j as nat),
                    ));
                    assert(((y * w + x) * 4) as int == idx);
                    assert(add_stats(tally_stats(before, j), pixel_share(px, idx as int, j as nat))
                        == tally_stats(buckets@, j));
                }
                assert forall|j: u16|
                    #![trigger tally_stats(buckets@, j)]
                    tally_stats(buckets@, j).0 <= visited + 1 && tally_stats(buckets@, j).1 <= 255
                        * tally_stats(buckets@, j).0 && tally_stats(buckets@, j).2 <= 255
                        * tally_stats(buckets@, j).0 && tally_stats(buckets@, j).3 <= 255
                        * tally_stats(buckets@, j).0 by {
                    assert(tally_stats(before, j).0 <= visited);
                }
                visited = visited + 1;
                kx = kx + 1;
                assert((kx * step_x) as nat == (x + step_x) as nat) by (nonlinear_arith)
                    requires
                        x as nat == (kx - 1) * step_x,
                ;
                if x + step_x < w {
                    lemma_axis_samples(w as nat, step_x as nat, kx);
                }
            }
            x = x + step_x;
        }
        proof {
            ky = ky + 1;
            assert((ky * step_y) as nat == (y + step_y) as nat) by (nonlinear_arith)
                requires
                    y as nat == (ky - 1) * step_y,
            ;
            assert(visited <= ky * 80) by (nonlinear_arith)
                requires
                    visited == row_start + kx,
                    row_start <= (ky - 1) * 80,
                    kx <= 80,
            ;
            if y + step_y < h {
                lemma_axis_samples(h as nat, step_y as nat, ky);
            }
            assert forall|j: u16|
                j < 4096 implies add_stats(
                    tally_stats(buckets@, j),
                    grid_stats(px, w as nat, h as nat, (y + step_y) as nat, step_x as nat, step_y as nat, j as nat),
                ) == #[trigger] total(j as nat) by {
                assert(row_stats(px, w as nat, y as nat, x as nat, step_x as nat, j as nat) == zero_stats());
            }
        }
        y = y + step_y;
    }
    assert forall|j: u16| j < 4096 implies tally_stats(buckets@, j)
        == #[trigger] image_stats(pixels@, width as nat, height as nat, j as nat) by {
        assert(grid_stats(px, w as nat, h as nat, y as nat, step_x as nat, step_y as nat, j as nat) == zero_stats());
        assert(add_stats(
            tally_stats(buckets@, j),
            grid_stats(px, w as nat, h as nat, y as nat, step_x as nat, step_y as nat, j as nat),
        ) == total(j as nat));
    }
    let mut out: Vec<ColorBucket> = Vec::new();
    let mut key: u16 = 0;
    while key < 4096
        invariant
            key <= 4096,
            forall|j: u16|
                j < 4096 ==> tally_stats(buckets@, j) == #[trigger] image_stats(
                    pixels@,
                    width as nat,
                    height as nat,
                    j as nat,
                ),
            forall|i: int, j: int| 0 <= i < j < out@.len() ==> out@[i].key < out@[j].key,
            forall|i: int| 0 <= i < out@.len() ==> #[trigger] out@[i].key < key,
            forall|i: int|
                0 <= i < out@.len() ==> #[trigger] out@[i].key < 4096 && out@[i].count > 0
                    && bucket_stats(out@[i]) == image_stats(
                    pixels@,
                    width as nat,
                    height as nat,
                    out@[i].key as nat,
                ),
            forall|k: nat|
                k < key && image_stats(pixels@, width as nat, height as nat, k).0 > 0 ==> exists|
                    i: int,
                | 0 <= i < out@.len() && #[trigger] out@[i].key == k,
        decreases 4096 - key,
    {
        let ghost old_out = out@;
        assert(tally_stats(buckets@, key) == image_stats(pixels@, width as nat, height as nat, key as nat));
        match buckets.get(&key) {
            Some(t) => {
                if t.0 > 0 {
                    out.push(ColorBucket { key, count: t.0, sum_r: t.1, sum_g: t.2, sum_b: t.3 });
                    assert(out@[out@.len() - 1].key == key);
                    assert(forall|i: int| 0 <= i < old_out.len() ==> out@[i] == old_out[i]);
                }
            },
            None => {},
        }
        proof {
            assert forall|k: nat|
                k < key + 1 && image_stats(pixels@, width as nat, height as nat, k).0 > 0 implies exists|
                    i: int,
                | 0 <= i < out@.len() && #[trigger] out@[i].key == k by {
                if k == key {
                    assert(out@[out@.len() - 1].key == k);
                } else {
                    let i = choose|i: int| 0 <= i < old_out.len() && #[trigger] old_out[i].key == k;
                    assert(out@[i].key == k);
                }
            }
        }
        key = key + 1;
    }
    assert(buckets_of_image(out@, pixels@, width as nat, height as nat));
    Some(out)
}

} // verus!
