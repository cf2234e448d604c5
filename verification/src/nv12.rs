//! NV12 frame buffers: layout, admission of client frames, and conversion to
//! RGB for inspection.
//!
//! A buffer holds `height` luma rows of `pitch` bytes, followed by
//! `ceil(height / 2)` rows of interleaved Cb,Cr pairs, one pair for each 2x2
//! block of luma samples.

use vstd::prelude::*;

verus! {

/// Rows of the chroma plane.
pub open spec fn chroma_rows(height: int) -> int {
    (height + 1) / 2
}

/// Row pitch for `width` luma samples: the next multiple of 256.
pub open spec fn aligned_pitch(width: int) -> int {
    (width + 255) / 256 * 256
}

/// Bytes of a whole buffer.
pub open spec fn buffer_bytes(pitch: int, height: int) -> int {
    pitch * (height + chroma_rows(height))
}

/// Row pitch for `width` luma samples.
pub fn nv12_pitch(width: u32) -> (r: u32)
    requires
        aligned_pitch(width as int) <= u32::MAX,
    ensures
        r == aligned_pitch(width as int),
{
    let blocks: u32 = ((width as u64 + 255) / 256) as u32;
    blocks * 256
}

/// Pitch and size in bytes of the buffer for a `width` x `height` frame.
pub fn nv12_layout(width: u32, height: u32) -> (r: (u32, usize))
    requires
        aligned_pitch(width as int) <= u32::MAX,
        buffer_bytes(aligned_pitch(width as int), height as int) <= usize::MAX,
    ensures
        r.0 == aligned_pitch(width as int),
        r.1 == buffer_bytes(r.0 as int, height as int),
{
    let pitch: u32 = nv12_pitch(width);
    let rows: u64 = height as u64 + (height as u64 + 1) / 2;
    assert(0 <= pitch * rows) by (nonlinear_arith)
        requires
            0 <= pitch,
            0 <= rows,
    ;
    assert(rows <= pitch * rows || pitch == 0) by (nonlinear_arith)
        requires
            0 <= pitch,
            0 <= rows,
    ;
    if pitch == 0 {
        assert(0 * rows == 0);
        return (0, 0);
    }
    (pitch, pitch as usize * rows as usize)
}

/// Whether a frame of `w` x `h` samples at source stride `stride` may be written
/// into a buffer made for `max_w` x `max_h` at `max_pitch`. Stride 0 means that
/// the caller did not name one.
pub open spec fn frame_admitted(
    w: u32,
    h: u32,
    stride: u32,
    max_w: u32,
    max_h: u32,
    max_pitch: u32,
) -> bool {
    w <= max_w && h <= max_h && (stride == 0 || stride <= max_pitch)
}

/// Admits a frame whose dimensions stay within the allocated buffer, and hands
/// them back unchanged. A frame that exceeds any bound is rejected rather than
/// clamped: it would be garbage anyway, and nothing may write past the buffer.
pub fn safe_encode_dims(
    req_w: u32,
    req_h: u32,
    req_stride: u32,
    max_w: u32,
    max_h: u32,
    max_pitch: u32,
) -> (r: Option<(u32, u32, u32)>)
    ensures
        r == if frame_admitted(req_w, req_h, req_stride, max_w, max_h, max_pitch) {
            Some((req_w, req_h, req_stride))
        } else {
            None
        },
{
    if req_w > max_w || req_h > max_h {
        return None;
    }
    if req_stride != 0 && req_stride > max_pitch {
        return None;
    }
    Some((req_w, req_h, req_stride))
}

/// Byte offset of the luma sample of pixel `(x, y)`.
pub open spec fn luma_index(pitch: int, x: int, y: int) -> int {
    y * pitch + x
}

/// Byte offset of the Cb sample of pixel `(x, y)`; Cr follows it.
pub open spec fn chroma_index(pitch: int, height: int, x: int, y: int) -> int {
    pitch * height + (y / 2) * pitch + x / 2 * 2
}

/// Every sample of an admitted frame lies inside the buffer that was laid out
/// for the largest frame: no write at those offsets can pass its end.
pub proof fn admitted_frame_stays_in_buffer(
    w: u32,
    h: u32,
    stride: u32,
    max_w: u32,
    max_h: u32,
    x: int,
    y: int,
)
    requires
        aligned_pitch(max_w as int) <= u32::MAX,
        frame_admitted(w, h, stride, max_w, max_h, aligned_pitch(max_w as int) as u32),
        0 <= x < w,
        0 <= y < h,
    ensures
        0 <= luma_index(aligned_pitch(max_w as int), x, y) < buffer_bytes(
            aligned_pitch(max_w as int),
            max_h as int,
        ),
        0 <= chroma_index(aligned_pitch(max_w as int), h as int, x, y),
        chroma_index(aligned_pitch(max_w as int), h as int, x, y) + 1 < buffer_bytes(
            aligned_pitch(max_w as int),
            max_h as int,
        ),
{
    let pitch = aligned_pitch(max_w as int);
    lemma_sample_bounds(pitch, w as int, h as int, max_h as int, x, y);
}

proof fn lemma_scaled(a: int, b: int, p: int)
    by (nonlinear_arith)
    requires
        0 <= a <= b,
        0 <= p,
    ensures
        0 <= a * p <= b * p,
        (a + 1) * p == a * p + p,
        a * p == p * a,
        b * p == p * b,
{
}

proof fn lemma_sample_bounds(pitch: int, w: int, h: int, max_h: int, x: int, y: int)
    requires
        0 <= x < w,
        0 <= y < h <= max_h,
        w <= pitch,
        pitch % 2 == 0,
    ensures
        0 <= luma_index(pitch, x, y) < buffer_bytes(pitch, max_h),
        0 <= chroma_index(pitch, h, x, y),
        chroma_index(pitch, h, x, y) + 1 < buffer_bytes(pitch, max_h),
{
    let rows = h + chroma_rows(h);
    let max_rows = max_h + chroma_rows(max_h);
    lemma_scaled(y, h, pitch);
    lemma_scaled(y + 1, h, pitch);
    lemma_scaled(h, rows, pitch);
    lemma_scaled(rows, max_rows, pitch);
    lemma_scaled(y / 2, chroma_rows(h), pitch);
    lemma_scaled(y / 2 + 1, chroma_rows(h), pitch);
    assert(rows * pitch == h * pitch + chroma_rows(h) * pitch) by (nonlinear_arith)
        requires
            rows == h + chroma_rows(h),
    ;
    assert(x / 2 * 2 + 2 <= pitch);
}

/// Common denominator of the colour channels below.
pub open spec fn channel_scale() -> int {
    219int * 224 * 10000
}

/// Limited-range luma expanded to full range, times [`channel_scale`].
pub open spec fn luma_scaled(luma: int) -> int {
    (luma - 16) * 255 * 224 * 10000
}

/// Red by the inverse BT.709 matrix, times [`channel_scale`].
pub open spec fn red_scaled(luma: int, cr: int) -> int {
    luma_scaled(luma) + 15748 * ((cr - 128) * 255 * 219)
}

/// Blue by the inverse BT.709 matrix, times [`channel_scale`].
pub open spec fn blue_scaled(luma: int, cb: int) -> int {
    luma_scaled(luma) + 18556 * ((cb - 128) * 255 * 219)
}

/// Green by the inverse BT.709 matrix (luma weights 0.2126, 0.7152, 0.0722),
/// times 7152 times [`channel_scale`].
pub open spec fn green_scaled(luma: int, cb: int, cr: int) -> int {
    10000 * luma_scaled(luma) - 2126 * red_scaled(luma, cr) - 722 * blue_scaled(luma, cb)
}

/// `num / den` rounded down and clamped to a byte.
pub open spec fn to_byte(num: int, den: int) -> u8 {
    if num < 0 {
        0
    } else if num / den > 255 {
        255
    } else {
        (num / den) as u8
    }
}

/// Channel `c` (0 = R, 1 = G, 2 = B) of a limited-range BT.709 sample: the real
/// value of the inverse transform, clamped and rounded down. Arithmetic in single
/// precision can come out one step off in green, where that value lies next to a
/// whole number.
pub open spec fn rgb_channel(c: int, luma: u8, cb: u8, cr: u8) -> u8 {
    if c == 0 {
        to_byte(red_scaled(luma as int, cr as int), channel_scale())
    } else if c == 1 {
        to_byte(green_scaled(luma as int, cb as int, cr as int), 7152 * channel_scale())
    } else {
        to_byte(blue_scaled(luma as int, cb as int), channel_scale())
    }
}

/// Whether `len` bytes hold every sample of a `width` x `height` frame.
pub open spec fn holds_frame(len: int, width: int, height: int, pitch: int) -> bool {
    width > 0 && height > 0 ==> chroma_index(pitch, height, width - 1, height - 1) + 2 <= len
}

fn byte_of(num: i64, den: i64) -> (r: u8)
    requires
        den > 0,
    ensures
        r == to_byte(num as int, den as int),
{
    if num < 0 {
        return 0;
    }
    let q: i64 = num / den;
    if q > 255 {
        255
    } else {
        assert(q >= 0) by (nonlinear_arith)
            requires
                q == num / den,
                num >= 0,
                den > 0,
        ;
        q as u8
    }
}

fn sample_rgb(luma: u8, cb: u8, cr: u8) -> (r: (u8, u8, u8))
    ensures
        r.0 == rgb_channel(0, luma, cb, cr),
        r.1 == rgb_channel(1, luma, cb, cr),
        r.2 == rgb_channel(2, luma, cb, cr),
{
    let y: i64 = (luma as i64 - 16) * 255 * 224 * 10000;
    let red: i64 = y + 15748 * ((cr as i64 - 128) * 255 * 219);
    let blue: i64 = y + 18556 * ((cb as i64 - 128) * 255 * 219);
    let green: i64 = 10000 * y - 2126 * red - 722 * blue;
    let scale: i64 = 219 * 224 * 10000;
    (byte_of(red, scale), byte_of(green, 7152 * scale), byte_of(blue, scale))
}

proof fn lemma_samples_in_range(len: int, width: int, height: int, pitch: int, x: int, y: int)
    requires
        holds_frame(len, width, height, pitch),
        0 <= pitch,
        0 <= x < width,
        0 <= y < height,
    ensures
        0 <= y * pitch <= luma_index(pitch, x, y) < len,
        0 <= pitch * height <= chroma_index(pitch, height, x, y),
        0 <= (y / 2) * pitch,
        chroma_index(pitch, height, x, y) + 1 < len,
{
    let last = (height - 1) / 2;
    assert(0 <= (y / 2) * pitch <= last * pitch) by (nonlinear_arith)
        requires
            0 <= y / 2 <= last,
            0 <= pitch,
    ;
    assert(0 <= y * pitch <= pitch * height) by (nonlinear_arith)
        requires
            0 <= y < height,
            0 <= pitch,
    ;
}

/// Converts a pitched limited-range BT.709 NV12 buffer to tightly packed RGB
/// rows.
pub fn nv12_to_rgb(nv12: &[u8], width: usize, height: usize, pitch: usize) -> (rgb: Vec<u8>)
    requires
        holds_frame(nv12@.len() as int, width as int, height as int, pitch as int),
        width * height * 3 <= usize::MAX,
    ensures
        rgb@.len() == width * height * 3,
        forall|x: int, y: int, c: int|
            #![trigger rgb@[(y * width + x) * 3 + c]]
            0 <= x < width && 0 <= y < height && 0 <= c < 3 ==> rgb@[(y * width + x) * 3 + c]
                == rgb_channel(
                c,
                nv12@[luma_index(pitch as int, x, y)],
                nv12@[chroma_index(pitch as int, height as int, x, y)],
                nv12@[chroma_index(pitch as int, height as int, x, y) + 1],
            ),
{
    let mut rgb: Vec<u8> = Vec::new();
    if width == 0 || height == 0 {
        assert(width * height == 0) by (nonlinear_arith)
            requires
                width == 0 || height == 0,
        ;
        return rgb;
    }
    let ghost (w, h, p) = (width as int, height as int, pitch as int);
    let n: usize = nv12.len();
    let ghost len = n as int;
    let ghost pixel = |i: int, c: int|
        rgb_channel(
            c,
            nv12@[luma_index(p, i % w, i / w)],
            nv12@[chroma_index(p, h, i % w, i / w)],
            nv12@[chroma_index(p, h, i % w, i / w) + 1],
        );
    proof {
        lemma_samples_in_range(len, w, h, p, 0, 0);
    }
    let uv_base: usize = pitch * height;
    let mut y: usize = 0;
    while y < height
        invariant
            y <= height,
            0 < width,
            w == width,
            h == height,
            p == pitch,
            n == nv12@.len(),
            len == n,
            holds_frame(len, w, h, p),
            uv_base == pitch * height,
            width * height * 3 <= usize::MAX,
            rgb@.len() == y * width * 3,
            pixel == (|i: int, c: int|
                rgb_channel(
                    c,
                    nv12@[luma_index(p, i % w, i / w)],
                    nv12@[chroma_index(p, h, i % w, i / w)],
                    nv12@[chroma_index(p, h, i % w, i / w) + 1],
                )),
            forall|i: int, c: int|
                #![trigger rgb@[i * 3 + c]]
                0 <= i < y * width && 0 <= c < 3 ==> rgb@[i * 3 + c] == pixel(i, c),
        decreases height - y,
    {
        proof {
            lemma_samples_in_range(len, w, h, p, 0, y as int);
        }
        let y_off: usize = y * pitch;
        let uv_off: usize = uv_base + (y / 2) * pitch;
        let mut x: usize = 0;
        while x < width
            invariant
                x <= width,
                y < height,
                0 < width,
                w == width,
                h == height,
                p == pitch,
                n == nv12@.len(),
                len == n,
                holds_frame(len, w, h, p),
                y_off == y * pitch,
                uv_off == pitch * height + (y / 2) * pitch,
                rgb@.len() == (y * width + x) * 3,
                pixel == (|i: int, c: int|
                    rgb_channel(
                        c,
                        nv12@[luma_index(p, i % w, i / w)],
                        nv12@[chroma_index(p, h, i % w, i / w)],
                        nv12@[chroma_index(p, h, i % w, i / w) + 1],
                    )),
                forall|i: int, c: int|
                    #![trigger rgb@[i * 3 + c]]
                    0 <= i < y * width + x && 0 <= c < 3 ==> rgb@[i * 3 + c] == pixel(i, c),
            decreases width - x,
        {
            proof {
                lemma_samples_in_range(len, w, h, p, x as int, y as int);
            }
            let even: usize = x / 2 * 2;
            let luma: u8 = nv12[y_off + x];
            let cb: u8 = nv12[uv_off + even];
            let cr: u8 = nv12[uv_off + even + 1];
            let (r, g, b) = sample_rgb(luma, cb, cr);
            let ghost done = rgb@;
            let ghost at = y * width + x;
            rgb.push(r);
            rgb.push(g);
            rgb.push(b);
            proof {
                assert(at % w == x && at / w == y) by (nonlinear_arith)
                    requires
                        at == y * w + x,
                        0 <= x < w,
                        0 <= y,
                ;
                assert forall|i: int, c: int|
                    #![trigger rgb@[i * 3 + c]]
                    0 <= i < at + 1 && 0 <= c < 3 implies rgb@[i * 3 + c] == pixel(i, c) by {
                    if i < at {
                        assert(rgb@[i * 3 + c] == done[i * 3 + c]);
                    } else {
                        assert(i == at);
                    }
                }
            }
            x = x + 1;
        }
        assert((y + 1) * width == y * width + width) by (nonlinear_arith);
        y = y + 1;
    }
    proof {
        assert(height * width == width * height) by (nonlinear_arith);
        assert forall|x: int, y: int, c: int|
            #![trigger rgb@[(y * width + x) * 3 + c]]
            0 <= x < width && 0 <= y < height && 0 <= c < 3 implies rgb@[(y * width + x) * 3 + c]
            == rgb_channel(
            c,
            nv12@[luma_index(p, x, y)],
            nv12@[chroma_index(p, h, x, y)],
            nv12@[chroma_index(p, h, x, y) + 1],
        ) by {
            let i = y * width + x;
            assert(i % w == x && i / w == y && 0 <= i < height * width) by (nonlinear_arith)
                requires
                    i == y * w + x,
                    0 <= x < w,
                    0 <= y < height,
                    w == width,
            ;
            assert(rgb@[i * 3 + c] == pixel(i, c));
        }
    }
    rgb
}

/// A buffer with the layout of [`nv12_layout`] holds every sample of its frame,
/// so it can always be converted.
pub proof fn layout_holds_its_frame(width: u32, height: u32)
    requires
        aligned_pitch(width as int) <= u32::MAX,
    ensures
        holds_frame(
            buffer_bytes(aligned_pitch(width as int), height as int),
            width as int,
            height as int,
            aligned_pitch(width as int),
        ),
{
    if width > 0 && height > 0 {
        admitted_frame_stays_in_buffer(
            width,
            height,
            0,
            width,
            height,
            width - 1,
            height - 1,
        );
    }
}

/// Samples without colour (both chroma bytes neutral) come out grey.
pub proof fn neutral_chroma_is_grey(luma: u8)
    ensures
        rgb_channel(0, luma, 128, 128) == rgb_channel(1, luma, 128, 128),
        rgb_channel(1, luma, 128, 128) == rgb_channel(2, luma, 128, 128),
        luma <= 16 ==> rgb_channel(0, luma, 128, 128) == 0,
        luma >= 235 ==> rgb_channel(0, luma, 128, 128) == 255,
{
    let l = luma_scaled(luma as int);
    let d = channel_scale();
    assert(green_scaled(luma as int, 128, 128) == 7152 * l);
    if l >= 0 {
        assert((7152 * l) / (7152 * d) == l / d) by {
            vstd::arithmetic::div_mod::lemma_div_denominator(7152 * l, 7152, d);
            vstd::arithmetic::div_mod::lemma_div_multiples_vanish(l, 7152);
        }
    }
    if luma >= 235 {
        assert(l / d >= 255) by (nonlinear_arith)
            requires
                l >= 255 * d,
                d > 0,
        ;
    }
}

/// A row has room for its samples, is a whole number of 256-byte blocks, and
/// wastes less than one block.
pub proof fn rows_are_padded_to_whole_blocks(width: u32, r: u32)
    requires
        aligned_pitch(width as int) <= u32::MAX,
        call_ensures(nv12_pitch, (width,), r),
    ensures
        r as int % 256 == 0,
        width <= r < width + 256,
{
    whole_blocks(width as int);
}

/// A row's length is a whole number of 256-byte blocks, less than one of which is
/// wasted.
pub proof fn whole_blocks(width: int)
    requires
        0 <= width,
    ensures
        aligned_pitch(width) % 256 == 0,
        width <= aligned_pitch(width) < width + 256,
{
    let q = (width + 255) / 256;
    assert(q * 256 <= width + 255 < q * 256 + 256);
    assert((q * 256) % 256 == 0);
}

/// A buffer has one row for each row of luma and one for each two rows of luma,
/// the last of which may stand alone.
pub proof fn buffers_have_half_as_many_chroma_rows(width: u32, height: u32, r: (u32, usize))
    requires
        aligned_pitch(width as int) <= u32::MAX,
        buffer_bytes(aligned_pitch(width as int), height as int) <= usize::MAX,
        call_ensures(nv12_layout, (width, height), r),
    ensures
        r.0 as int % 256 == 0,
        width <= r.0 < width + 256,
        height as int % 2 == 0 ==> 2 * r.1 == r.0 * height * 3,
        height as int % 2 == 1 ==> 2 * r.1 == r.0 * (height * 3 + 1),
{
    whole_blocks(width as int);
    let (p, h) = (r.0 as int, height as int);
    let rows = h + (h + 1) / 2;
    if h % 2 == 0 {
        assert(2 * rows == h * 3);
        assert(2 * (p * rows) == p * h * 3) by (nonlinear_arith)
            requires
                2 * rows == h * 3,
        ;
    } else {
        assert(2 * rows == h * 3 + 1);
        assert(2 * (p * rows) == p * (h * 3 + 1)) by (nonlinear_arith)
            requires
                2 * rows == h * 3 + 1,
        ;
    }
}

/// A frame is admitted unchanged or not at all: it is refused exactly where it is
/// wider, higher or of longer rows than the buffer.
pub proof fn frames_are_admitted_unchanged_or_refused(
    w: u32,
    h: u32,
    stride: u32,
    max_w: u32,
    max_h: u32,
    max_pitch: u32,
    r: Option<(u32, u32, u32)>,
)
    requires
        call_ensures(safe_encode_dims, (w, h, stride, max_w, max_h, max_pitch), r),
    ensures
        r is None <==> w > max_w || h > max_h || stride > max_pitch,
        r is Some ==> r == Some((w, h, stride)),
{
}

/// Each channel is the byte below the real value of the inverse transform: red
/// hangs on luma and the second chroma byte, blue on luma and the first, and green
/// is what is left of luma when both are taken off by their weights. Values below
/// zero come out as 0 and those of 256 and above as 255.
pub proof fn channels_invert_the_colour_matrix(luma: u8, cb: u8, cr: u8)
    ensures
        ({
            let full = (luma - 16) * 571_200_000;
            let red = full + (cr - 128) * 879_447_060;
            let blue = full + (cb - 128) * 1_036_259_820;
            let green = 10_000 * full - 2_126 * red - 722 * blue;
            let one = 490_560_000int;
            let (r, g, b) = (
                rgb_channel(0, luma, cb, cr) as int,
                rgb_channel(1, luma, cb, cr) as int,
                rgb_channel(2, luma, cb, cr) as int,
            );
            &&& if red < 0 {
                r == 0
            } else if red >= 256 * one {
                r == 255
            } else {
                r * one <= red < (r + 1) * one
            }
            &&& if blue < 0 {
                b == 0
            } else if blue >= 256 * one {
                b == 255
            } else {
                b * one <= blue < (b + 1) * one
            }
            &&& if green < 0 {
                g == 0
            } else if green >= 256 * 7_152 * one {
                g == 255
            } else {
                g * 7_152 * one <= green < (g + 1) * 7_152 * one
            }
        }),
{
    let one = channel_scale();
    lemma_byte_below(red_scaled(luma as int, cr as int), one);
    lemma_byte_below(blue_scaled(luma as int, cb as int), one);
    lemma_byte_below(green_scaled(luma as int, cb as int, cr as int), 7152 * one);
}

proof fn lemma_byte_below(num: int, den: int)
    requires
        den > 0,
    ensures
        num < 0 ==> to_byte(num, den) == 0,
        num >= 256 * den ==> to_byte(num, den) == 255,
        0 <= num < 256 * den ==> to_byte(num, den) * den <= num < (to_byte(num, den) + 1) * den,
{
    let q = num / den;
    vstd::arithmetic::div_mod::lemma_fundamental_div_mod(num, den);
    assert(q * den == den * q) by (nonlinear_arith);
    assert((q + 1) * den == q * den + den) by (nonlinear_arith);
    if num >= 256 * den {
        assert(q >= 256) by (nonlinear_arith)
            requires
                num >= 256 * den,
                num < (q + 1) * den,
                den > 0,
        ;
    } else if num >= 0 {
        assert(0 <= q < 256) by (nonlinear_arith)
            requires
                0 <= num < 256 * den,
                q * den <= num < (q + 1) * den,
                den > 0,
        ;
    }
}

/// Every pixel of a converted picture is made of its own luma byte and of the
/// chroma pair that it shares with its neighbours of the same two by two block,
/// the pair lying behind the luma rows.
pub proof fn pixels_share_the_chroma_of_their_block(
    nv12: &[u8],
    width: usize,
    height: usize,
    pitch: usize,
    rgb: Vec<u8>,
    x: int,
    y: int,
    c: int,
)
    requires
        holds_frame(nv12@.len() as int, width as int, height as int, pitch as int),
        width * height * 3 <= usize::MAX,
        call_ensures(nv12_to_rgb, (nv12, width, height, pitch), rgb),
        0 <= x < width,
        0 <= y < height,
        0 <= c < 3,
    ensures
        rgb@.len() == width * height * 3,
        rgb@[(y * width + x) * 3 + c] == rgb_channel(
            c,
            nv12@[y * pitch + x],
            nv12@[pitch * height + (y / 2) * pitch + (x - x % 2)],
            nv12@[pitch * height + (y / 2) * pitch + (x - x % 2) + 1],
        ),
{
}

} // verus!
