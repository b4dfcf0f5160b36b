use vstd::prelude::*;
use vstd::slice::slice_subrange;

use crate::palette::{channel, pixel_color, Color, Palette};

verus! {

/// A pair of values, most often the width and height of an image in pixels.
#[derive(Clone, Copy, Debug)]
pub struct Bounds<T>(pub T, pub T);

/// The number of bytes of an RGB buffer of `width` by `height` pixels.
pub open spec fn buffer_size(width: nat, height: nat) -> nat {
    3 * (width * height)
}

/// The length of the pixel buffer for `bounds`, three bytes per pixel, or
/// `None` where it does not fit in a `usize`.
pub fn buffer_len(bounds: Bounds<usize>) -> (r: Option<usize>)
    ensures
        r == (if buffer_size(bounds.0 as nat, bounds.1 as nat) <= usize::MAX {
            Some(buffer_size(bounds.0 as nat, bounds.1 as nat) as usize)
        } else {
            None::<usize>
        }),
{
    match bounds.0.checked_mul(bounds.1) {
        None => {
            assert(bounds.0 * bounds.1 <= 3 * (bounds.0 * bounds.1)) by (nonlinear_arith);
            None
        },
        Some(pixels) => pixels.checked_mul(3),
    }
}

/// The first byte of pixel row `row` in a buffer `width` pixels wide.
pub open spec fn row_start(width: nat, row: nat) -> nat {
    3 * (width * row)
}

/// The bytes that shading gives for a run of pixels with the escape-time
/// results `escapes`: three bytes, red, green and blue, per pixel, in order.
pub open spec fn shaded_bytes(colors: Seq<Color>, escapes: Seq<Option<usize>>) -> Seq<u8> {
    Seq::new(3 * escapes.len(), |i: int| channel(pixel_color(colors, escapes[i / 3]), i % 3))
}

/// The byte range `(start, end)` of pixel row `row` in the buffer for
/// `bounds`: rows are laid out one after another, `3 * width` bytes each.
pub fn row_band(bounds: Bounds<usize>, row: usize) -> (r: (usize, usize))
    requires
        row < bounds.1,
        buffer_size(bounds.0 as nat, bounds.1 as nat) <= usize::MAX,
    ensures
        r.0 == row_start(bounds.0 as nat, row as nat),
        r.1 == row_start(bounds.0 as nat, row as nat + 1),
{
    let width = bounds.0;
    proof {
        assert(width * (row + 1) <= width * bounds.1) by (nonlinear_arith)
            requires row < bounds.1;
        assert(width * (row + 1) == width * row + width) by (nonlinear_arith);
    }
    let start = 3 * (width * row);
    (start, start + 3 * width)
}

/// Row bands tile the pixel buffer: the first starts at byte 0, each ends
/// where the next begins, the last ends at the buffer's end, and so two
/// distinct rows never share a byte.
pub proof fn lemma_row_bands_tile(width: nat, height: nat)
    ensures
        row_start(width, 0) == 0,
        row_start(width, height) == buffer_size(width, height),
        forall|row: nat| #[trigger] row_start(width, row + 1) == row_start(width, row) + 3 * width,
        forall|a: nat, b: nat| a < b ==> #[trigger] row_start(width, a) + 3 * width <= #[trigger] row_start(width, b),
{
    assert forall|row: nat| #[trigger] row_start(width, row + 1) == row_start(width, row) + 3 * width by {
        assert(width * (row + 1) == width * row + width) by (nonlinear_arith);
    }
    assert forall|a: nat, b: nat| a < b implies #[trigger] row_start(width, a) + 3 * width <= #[trigger] row_start(width, b) by {
        assert(width * a + width <= width * b) by (nonlinear_arith)
            requires a < b;
    }
}

/// Shading two runs of pixels one after the other gives the bytes of
/// shading the joined run.
pub proof fn lemma_shade_concat(colors: Seq<Color>, a: Seq<Option<usize>>, b: Seq<Option<usize>>)
    ensures
        shaded_bytes(colors, a + b) == shaded_bytes(colors, a) + shaded_bytes(colors, b),
{
    let lhs = shaded_bytes(colors, a + b);
    let rhs = shaded_bytes(colors, a) + shaded_bytes(colors, b);
    assert forall|i: int| 0 <= i < lhs.len() implies lhs[i] == rhs[i] by {
        if i >= 3 * a.len() {
            let j = i - 3 * a.len();
            assert((i / 3) == a.len() + j / 3);
            assert(i % 3 == j % 3);
        }
    }
    assert(lhs =~= rhs);
}

/// A row band shaded on its own gives exactly the bytes that the same rows
/// take in the whole image shaded at once, so an image may be shaded in
/// bands of any height, in any order, with the same result.
pub proof fn lemma_band_matches_image(
    colors: Seq<Color>,
    escapes: Seq<Option<usize>>,
    width: nat,
    height: nat,
    first_row: nat,
    rows: nat,
)
    requires
        escapes.len() == width * height,
        first_row + rows <= height,
    ensures
        shaded_bytes(colors, escapes).subrange(
            row_start(width, first_row) as int,
            row_start(width, first_row + rows) as int,
        ) == shaded_bytes(
            colors,
            escapes.subrange((width * first_row) as int, (width * (first_row + rows)) as int),
        ),
{
    let lo = width * first_row;
    let hi = width * (first_row + rows);
    assert(lo <= hi <= width * height) by (nonlinear_arith)
        requires lo == width * first_row, hi == width * (first_row + rows), first_row + rows <= height;
    let front = escapes.subrange(0, lo as int);
    let mid = escapes.subrange(lo as int, hi as int);
    let back = escapes.subrange(hi as int, escapes.len() as int);
    assert(escapes =~= front + mid + back);
    lemma_shade_concat(colors, front + mid, back);
    lemma_shade_concat(colors, front, mid);
}

/// Writes the colors of a run of pixels into `band`, three bytes per pixel:
/// black where the orbit stayed bounded, else the palette entry for its
/// escape count.
pub fn shade_band(escapes: &[Option<usize>], palette: &Palette, band: &mut [u8])
    requires
        old(band)@.len() == 3 * escapes@.len(),
    ensures
        final(band)@ == shaded_bytes(palette@, escapes@),
{
    let n = escapes.len();
    let total = band.len();
    let mut p: usize = 0;
    while p < n
        invariant
            n == escapes@.len(),
            p <= n,
            band@.len() == 3 * n,
            total == 3 * n,
            forall|i: int| 0 <= i < 3 * p ==> #[trigger] band@[i] == channel(
                pixel_color(palette@, escapes@[i / 3]),
                i % 3,
            ),
        decreases n - p,
    {
        let c = palette.pixel_color(escapes[p]);
        band[3 * p] = c.0;
        band[3 * p + 1] = c.1;
        band[3 * p + 2] = c.2;
        p = p + 1;
    }
    assert(band@ =~= shaded_bytes(palette@, escapes@));
}

/// Renders the whole pixel buffer from the escape-time results of every
/// pixel, row-major, shading it in bands of `rows_per_band` rows (the last
/// band may be shorter). The bytes do not depend on the band height.
pub fn render_in_bands(
    bounds: Bounds<usize>,
    escapes: &[Option<usize>],
    palette: &Palette,
    rows_per_band: usize,
) -> (pixels: Vec<u8>)
    requires
        escapes@.len() == bounds.0 * bounds.1,
        buffer_size(bounds.0 as nat, bounds.1 as nat) <= usize::MAX,
        rows_per_band >= 1,
    ensures
        pixels@ == shaded_bytes(palette@, escapes@),
{
    let width = bounds.0;
    let height = bounds.1;
    let mut pixels: Vec<u8> = Vec::new();
    let mut row: usize = 0;
    while row < height
        invariant
            row <= height,
            width == bounds.0,
            height == bounds.1,
            escapes@.len() == width * height,
            3 * (width * height) <= usize::MAX,
            rows_per_band >= 1,
            pixels@ == shaded_bytes(palette@, escapes@.subrange(0, (width * row) as int)),
        decreases height - row,
    {
        let rows = if height - row < rows_per_band {
            height - row
        } else {
            rows_per_band
        };
        proof {
            assert(width * row <= width * (row + rows) <= width * height) by (nonlinear_arith)
                requires row + rows <= height;
        }
        let start = width * row;
        let end = width * (row + rows);
        let part = slice_subrange(escapes, start, end);
        let count = end - start;
        let mut band: Vec<u8> = vec![0u8; 3 * count];
        shade_band(part, palette, band.as_mut_slice());
        proof {
            lemma_shade_concat(palette@, escapes@.subrange(0, start as int), part@);
            assert(escapes@.subrange(0, start as int) + part@ =~= escapes@.subrange(0, end as int));
        }
        pixels.append(&mut band);
        row = row + rows;
    }
    assert(escapes@.subrange(0, (width * height) as int) =~= escapes@);
    pixels
}

} // verus!
