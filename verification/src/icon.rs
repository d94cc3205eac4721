//! The notification-area icon: a ring around a dot, orange while connected and grey otherwise.
use vstd::prelude::*;

verus! {

/// Width and height of the icon in pixels.
pub const SIDE: u32 = 32;

/// Bytes of the colour bitmap: four per pixel.
pub const COLOR_BYTES: usize = 4096;

/// Bytes of the monochrome mask: one bit per pixel.
pub const MASK_BYTES: usize = 128;

/// The bitmaps of a tray icon: premultiplied BGRA pixels, top row first, and the mask.
pub struct Icon {
    pub color: Vec<u8>,
    pub mask: Vec<u8>,
}

/// Square of the distance from the icon's centre to a sample point, in eighths of a pixel.
///
/// Pixel `(x, y)` is sampled on a 4x4 grid; sample `(sx, sy)` lies at
/// `x + (sx + 1/2) / 4`, `y + (sy + 1/2) / 4`, and the centre at `(16, 16)`.
pub open spec fn distance_squared(x: int, y: int, sx: int, sy: int) -> int {
    let dx = 8 * x + 2 * sx + 1 - 128;
    let dy = 8 * y + 2 * sy + 1 - 128;
    dx * dx + dy * dy
}

/// Whether a sample point lies on the ring (from 8.6 up to 14.1 pixels away from the centre) or
/// on the dot (less than 4.2 pixels away).
pub open spec fn is_hit(x: int, y: int, sx: int, sy: int) -> bool {
    let d = 100 * distance_squared(x, y, sx, sy);
    688 * 688 <= d < 1128 * 1128 || d < 336 * 336
}

/// How many of the first `n` samples of a pixel, taken row by row, are hits.
pub open spec fn hits(x: int, y: int, n: nat) -> nat
    decreases n,
{
    if n == 0 {
        0
    } else {
        let k = n - 1;
        hits(x, y, k as nat) + if is_hit(x, y, k % 4, k / 4) {
            1nat
        } else {
            0nat
        }
    }
}

/// Opacity of a pixel: the share of its sixteen samples that are hits, scaled to 255.
pub open spec fn alpha(x: int, y: int) -> int {
    hits(x, y, 16) as int * 255 / 16
}

/// Blue, green and red (channels 0, 1 and 2) of an opaque pixel.
pub open spec fn tint(on: bool, channel: int) -> int {
    if !on {
        0x90
    } else if channel == 0 {
        0x20
    } else if channel == 1 {
        0x81
    } else {
        0xF4
    }
}

/// One byte of a pixel: a premultiplied colour, or the opacity itself as channel 3.
pub open spec fn pixel_byte(on: bool, x: int, y: int, channel: int) -> int {
    if channel == 3 {
        alpha(x, y)
    } else {
        tint(on, channel) * alpha(x, y) / 255
    }
}

/// The colour bitmap as a sequence of bytes.
pub open spec fn color_bitmap(on: bool) -> Seq<u8> {
    Seq::new(
        COLOR_BYTES as nat,
        |i: int| pixel_byte(on, i / 4 % 32, i / 128, i % 4) as u8,
    )
}

proof fn lemma_hits_bound(x: int, y: int, n: nat)
    ensures
        hits(x, y, n) <= n,
    decreases n,
{
    if n > 0 {
        lemma_hits_bound(x, y, (n - 1) as nat);
    }
}

/// Whether one sample of a pixel is a hit.
fn sample(x: u32, y: u32, sx: u32, sy: u32) -> (hit: bool)
    requires
        x < SIDE,
        y < SIDE,
        sx < 4,
        sy < 4,
    ensures
        hit == is_hit(x as int, y as int, sx as int, sy as int),
{
    let dx: i32 = 8 * (x as i32) + 2 * (sx as i32) + 1 - 128;
    let dy: i32 = 8 * (y as i32) + 2 * (sy as i32) + 1 - 128;
    assert(0 <= dx * dx <= 127 * 127) by (nonlinear_arith)
        requires
            -127 <= dx <= 127,
    ;
    assert(0 <= dy * dy <= 127 * 127) by (nonlinear_arith)
        requires
            -127 <= dy <= 127,
    ;
    let d: i32 = 100 * (dx * dx + dy * dy);
    (688 * 688 <= d && d < 1128 * 1128) || d < 336 * 336
}

/// Opacity of one pixel.
fn opacity(x: u32, y: u32) -> (a: u32)
    requires
        x < SIDE,
        y < SIDE,
    ensures
        a == alpha(x as int, y as int),
        a <= 255,
{
    let mut hit: u32 = 0;
    let mut k: u32 = 0;
    while k < 16
        invariant
            x < SIDE,
            y < SIDE,
            k <= 16,
            hit == hits(x as int, y as int, k as nat),
            hit <= k,
        decreases 16 - k,
    {
        if sample(x, y, k % 4, k / 4) {
            hit = hit + 1;
        }
        k = k + 1;
    }
    hit * 255 / 16
}

/// One channel of a pixel whose opacity is `a`.
fn premultiply(tint: u32, a: u32) -> (v: u8)
    requires
        tint <= 255,
        a <= 255,
    ensures
        v == tint * a / 255,
        v <= a,
{
    assert(0 <= tint * a <= 255 * a) by (nonlinear_arith)
        requires
            0 <= tint <= 255,
            0 <= a <= 255,
    ;
    (tint * a / 255) as u8
}

/// Draws the tray icon: ring and dot, orange when `on` and grey when not, with 4x4
/// supersampling for smooth edges. The mask is all zero: the opacity decides.
pub fn tray_icon(on: bool) -> (icon: Icon)
    ensures
        icon.color@ == color_bitmap(on),
        icon.mask@ == Seq::new(MASK_BYTES as nat, |i: int| 0u8),
{
    let (b, g, r): (u32, u32, u32) = if on {
        (0x20, 0x81, 0xF4)
    } else {
        (0x90, 0x90, 0x90)
    };
    let mut color: Vec<u8> = Vec::new();
    let mut p: u32 = 0;
    while p < SIDE * SIDE
        invariant
            p <= SIDE * SIDE,
            b == tint(on, 0) && g == tint(on, 1) && r == tint(on, 2),
            b <= 255 && g <= 255 && r <= 255,
            color@.len() == 4 * p,
            forall|i: int| 0 <= i < color@.len() ==> color@[i] == #[trigger] color_bitmap(on)[i],
        decreases SIDE * SIDE - p,
    {
        let x: u32 = p % SIDE;
        let y: u32 = p / SIDE;
        let a: u32 = opacity(x, y);
        let ghost done = color@;
        color.push(premultiply(b, a));
        color.push(premultiply(g, a));
        color.push(premultiply(r, a));
        color.push(a as u8);
        assert forall|i: int| 0 <= i < color@.len() implies color@[i] == #[trigger] color_bitmap(
            on,
        )[i] by {
            if i < 4 * p {
                assert(color@[i] == done[i]);
            } else {
                assert(i / 4 == p);
                assert(i / 128 == y);
            }
        }
        p = p + 1;
    }
    let mut mask: Vec<u8> = Vec::new();
    while mask.len() < MASK_BYTES
        invariant
            mask@.len() <= MASK_BYTES,
            forall|i: int| 0 <= i < mask@.len() ==> mask@[i] == 0,
        decreases MASK_BYTES - mask@.len(),
    {
        mask.push(0);
    }
    Icon { color, mask }
}

/// Both icons draw the same figure: every pixel is equally opaque in either.
pub proof fn law_same_figure(i: int)
    requires
        0 <= i < COLOR_BYTES,
        i % 4 == 3,
    ensures
        color_bitmap(true)[i] == color_bitmap(false)[i],
{
}

/// The bitmap is premultiplied: no colour of a pixel exceeds the pixel's opacity.
pub proof fn law_premultiplied(on: bool, i: int)
    requires
        0 <= i < COLOR_BYTES,
    ensures
        color_bitmap(on)[i] <= color_bitmap(on)[i / 4 * 4 + 3],
{
    let (x, y, c) = (i / 4 % 32, i / 128, i % 4);
    let j = i / 4 * 4 + 3;
    assert(j / 4 == i / 4 && j % 4 == 3 && j / 128 == i / 128);
    lemma_hits_bound(x, y, 16);
    let (t, a) = (tint(on, c), alpha(x, y));
    assert(0 <= t * a <= 255 * a) by (nonlinear_arith)
        requires
            0 <= t <= 255,
            0 <= a <= 255,
    ;
}

/// A hit counted as one.
spec fn weight(x: int, y: int, sx: int, sy: int) -> nat {
    if is_hit(x, y, sx, sy) {
        1
    } else {
        0
    }
}

/// Hits among the four samples of one row of a pixel.
#[verifier::opaque]
spec fn row(x: int, y: int, sy: int) -> nat {
    weight(x, y, 0, sy) + weight(x, y, 1, sy) + weight(x, y, 2, sy) + weight(x, y, 3, sy)
}

proof fn lemma_rows(x: int, y: int)
    ensures
        hits(x, y, 16) == row(x, y, 0) + row(x, y, 1) + row(x, y, 2) + row(x, y, 3),
{
    lemma_row(x, y, 0);
    lemma_row(x, y, 1);
    lemma_row(x, y, 2);
    lemma_row(x, y, 3);
}

proof fn lemma_row(x: int, y: int, sy: int)
    requires
        0 <= sy < 4,
    ensures
        hits(x, y, (4 * sy + 4) as nat) == hits(x, y, (4 * sy) as nat) + row(x, y, sy),
{
    reveal(row);
    let n = 4 * sy;
    assert(hits(x, y, (n + 1) as nat) == hits(x, y, n as nat) + weight(x, y, 0, sy));
    assert(hits(x, y, (n + 2) as nat) == hits(x, y, (n + 1) as nat) + weight(x, y, 1, sy));
    assert(hits(x, y, (n + 3) as nat) == hits(x, y, (n + 2) as nat) + weight(x, y, 2, sy));
    assert(hits(x, y, (n + 4) as nat) == hits(x, y, (n + 3) as nat) + weight(x, y, 3, sy));
}

proof fn lemma_square_of_negation(a: int)
    ensures
        (-a) * (-a) == a * a,
{
    assert((-a) * (-a) == a * a) by (nonlinear_arith);
}

proof fn lemma_sample_symmetry(x: int, y: int, sx: int, sy: int)
    ensures
        weight(31 - x, y, sx, sy) == weight(x, y, 3 - sx, sy),
        weight(x, 31 - y, sx, sy) == weight(x, y, sx, 3 - sy),
        weight(y, x, sx, sy) == weight(x, y, sy, sx),
{
    lemma_square_of_negation(8 * x + 2 * (3 - sx) + 1 - 128);
    lemma_square_of_negation(8 * y + 2 * (3 - sy) + 1 - 128);
}

proof fn lemma_row_symmetry(x: int, y: int, sy: int)
    ensures
        row(31 - x, y, sy) == row(x, y, sy),
        row(x, 31 - y, sy) == row(x, y, 3 - sy),
{
    reveal(row);
    lemma_sample_symmetry(x, y, 0, sy);
    lemma_sample_symmetry(x, y, 1, sy);
    lemma_sample_symmetry(x, y, 2, sy);
    lemma_sample_symmetry(x, y, 3, sy);
}

proof fn lemma_transposed_row(x: int, y: int, s: int)
    ensures
        row(y, x, s) == weight(x, y, s, 0) + weight(x, y, s, 1) + weight(x, y, s, 2) + weight(
            x,
            y,
            s,
            3,
        ),
{
    reveal(row);
    lemma_sample_symmetry(x, y, 0, s);
    lemma_sample_symmetry(x, y, 1, s);
    lemma_sample_symmetry(x, y, 2, s);
    lemma_sample_symmetry(x, y, 3, s);
}

/// The figure is symmetric: mirroring the icon left to right, top to bottom or along its
/// diagonal leaves every pixel as opaque as before.
pub proof fn law_symmetric(x: int, y: int)
    ensures
        alpha(31 - x, y) == alpha(x, y),
        alpha(x, 31 - y) == alpha(x, y),
        alpha(y, x) == alpha(x, y),
{
    lemma_rows(x, y);
    lemma_rows(31 - x, y);
    lemma_rows(x, 31 - y);
    lemma_rows(y, x);
    lemma_row_symmetry(x, y, 0);
    lemma_row_symmetry(x, y, 1);
    lemma_row_symmetry(x, y, 2);
    lemma_row_symmetry(x, y, 3);
    assert(hits(y, x, 16) == hits(x, y, 16)) by {
        reveal(row);
        lemma_transposed_row(x, y, 0);
        lemma_transposed_row(x, y, 1);
        lemma_transposed_row(x, y, 2);
        lemma_transposed_row(x, y, 3);
    }
}

} // verus!
