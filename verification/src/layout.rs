//! The size of an interleaved sample buffer, and bringing its pixels to three
//! samples each.

use vstd::prelude::*;

verus! {

/// Number of samples in an image of the given size.
pub open spec fn sample_count(width: nat, height: nat, channels: nat) -> nat {
    width * height * channels
}

/// Whether a buffer of `len` samples fills an image of the given size exactly.
pub fn fills_image(len: usize, width: u32, height: u32, channels: u32) -> (b: bool)
    ensures
        b == (len == sample_count(width as nat, height as nat, channels as nat)),
{
    let pixels: u64 = area(width, height);
    assert(pixels * channels <= 0xFFFF_FFFF_FFFF_FFFF * 0xFFFF_FFFF) by (nonlinear_arith)
        requires
            pixels <= 0xFFFF_FFFF_FFFF_FFFF,
            channels <= 0xFFFF_FFFF,
    ;
    let expected: u128 = (pixels as u128) * (channels as u128);
    assert(expected == sample_count(width as nat, height as nat, channels as nat)) by (nonlinear_arith)
        requires
            expected == pixels * channels,
            pixels == width * height,
    ;
    len as u128 == expected
}

/// Number of pixels in an image of the given size.
pub fn area(width: u32, height: u32) -> (pixels: u64)
    ensures
        pixels == width * height,
{
    assert(width * height <= 0xFFFF_FFFF * 0xFFFF_FFFF) by (nonlinear_arith)
        requires
            width <= 0xFFFF_FFFF,
            height <= 0xFFFF_FFFF,
    ;
    (width as u64) * (height as u64)
}

/// Samples per pixel that can be brought to RGB.
pub open spec fn supported_channels(channels: nat) -> bool {
    channels == 1 || channels == 3 || channels == 4
}

/// `channels` samples per pixel are turned into three: a single one is
/// repeated, three stay as they are, and of four the last is left out.
/// Samples after the last whole pixel are left out.
pub open spec fn rgb_layout<T>(channels: nat, data: Seq<T>) -> Seq<T>
    recommends
        supported_channels(channels),
{
    Seq::new(
        3 * (data.len() / channels),
        |i: int| data[(i / 3) * channels + if channels == 1 { 0 } else { i % 3 }],
    )
}

/// Repeats every sample three times.
pub fn broadcast_gray<T: Copy>(data: &[T]) -> (out: Vec<T>)
    ensures
        out@ == rgb_layout(1, data@),
{
    let n: usize = data.len();
    let mut out: Vec<T> = Vec::new();
    let mut p: usize = 0;
    while p < n
        invariant
            n == data@.len(),
            p <= n,
            out@.len() == 3 * p,
            forall|i: int| 0 <= i < out@.len() ==> out@[i] == data@[i / 3],
        decreases n - p,
    {
        let g: T = data[p];
        out.push(g);
        out.push(g);
        out.push(g);
        p += 1;
    }
    assert(out@ =~= rgb_layout(1, data@));
    out
}

/// Keeps the first three of every four samples.
pub fn drop_alpha<T: Copy>(data: &[T]) -> (out: Vec<T>)
    ensures
        out@ == rgb_layout(4, data@),
{
    let n: usize = data.len();
    let pixels: usize = n / 4;
    let mut out: Vec<T> = Vec::new();
    let mut p: usize = 0;
    while p < pixels
        invariant
            n == data@.len(),
            pixels == n / 4,
            p <= pixels,
            out@.len() == 3 * p,
            forall|i: int| 0 <= i < out@.len() ==> out@[i] == data@[(i / 3) * 4 + i % 3],
        decreases pixels - p,
    {
        assert(4 * p + 3 < n);
        out.push(data[4 * p]);
        out.push(data[4 * p + 1]);
        out.push(data[4 * p + 2]);
        p += 1;
    }
    assert(out@ =~= rgb_layout(4, data@));
    out
}

/// With three samples per pixel already, whole pixels are kept as they are.
pub proof fn lemma_rgb_layout_of_rgb<T>(data: Seq<T>)
    requires
        data.len() % 3 == 0,
    ensures
        rgb_layout(3, data) == data,
{
    assert(rgb_layout(3, data) =~= data);
}

/// The number of samples that `pixels` whole pixels come to.
pub proof fn lemma_rgb_layout_len<T>(channels: nat, data: Seq<T>, pixels: nat)
    requires
        channels > 0,
        data.len() == pixels * channels,
    ensures
        rgb_layout(channels, data).len() == 3 * pixels,
{
    assert(pixels * channels / channels == pixels) by (nonlinear_arith)
        requires
            channels > 0,
    ;
}

} // verus!
