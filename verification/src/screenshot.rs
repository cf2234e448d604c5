//! Captured pixels as PNG files.

use vstd::prelude::*;
use vstd::string::*;

use crate::buffer::ShmFormat;

verus! {

/// The PNG file of an image with eight-bit samples, row by row: red, green and
/// blue, and alpha where `has_alpha`. Which of the many files that decode to
/// this image is written is the encoder's choice.
pub uninterp spec fn png_file(width: u32, height: u32, has_alpha: bool, samples: Seq<u8>) -> Seq<
    u8,
>;

/// Samples per pixel.
pub open spec fn samples_per_pixel(has_alpha: bool) -> int {
    if has_alpha {
        4
    } else {
        3
    }
}

/// Encodes an image with `png::Encoder`: `write_header`, then
/// `write_image_data`, at eight bits per sample and otherwise with the
/// encoder's defaults. An image without extent is refused by `write_header`, in
/// the words given here, the width first; with a run of samples of the right
/// length nothing else can fail, because the file is written to memory. What
/// the file's bytes are is left to the name.
#[verifier::external_body]
fn write_png(width: u32, height: u32, has_alpha: bool, samples: &[u8]) -> (r: Result<
    Vec<u8>,
    String,
>)
    requires
        samples@.len() == width * height * samples_per_pixel(has_alpha),
    ensures
        match r {
            Ok(v) => width > 0 && height > 0 && v@ == png_file(width, height, has_alpha, samples@),
            Err(e) => if width == 0 {
                e@ == "Zero width not allowed"@
            } else {
                height == 0 && e@ == "Zero height not allowed"@
            },
        },
{
    let mut encoded = Vec::new();
    let mut enc = png::Encoder::new(&mut encoded, width, height);
    enc.set_color(if has_alpha { png::ColorType::Rgba } else { png::ColorType::Rgb });
    enc.set_depth(png::BitDepth::Eight);
    let mut writer = enc.write_header().map_err(|e| e.to_string())?;
    writer.write_image_data(samples).map_err(|e| e.to_string())?;
    drop(writer);
    Ok(encoded)
}

/// How the `Debug` form of a `wl_shm` format code reads.
pub uninterp spec fn shm_format_debug(code: u32) -> Seq<char>;

/// The `Debug` form of `WEnum::<wl_shm::Format>::from(code)`: the variant
/// `Value` with the format's name where the protocol defines the code, else the
/// variant `Unknown` with the code.
#[verifier::external_body]
fn shm_format_text(code: u32) -> (r: String)
    ensures
        r@ == shm_format_debug(code),
{
    let format: wayland_server::WEnum<wayland_server::protocol::wl_shm::Format> = code.into();
    format!("{:?}", format)
}

/// The samples of the pixel whose four bytes, B, G, R and A, start at `at`.
pub open spec fn pixel_samples(pixels: Seq<u8>, at: int, has_alpha: bool) -> Seq<u8> {
    if has_alpha {
        seq![pixels[at + 2], pixels[at + 1], pixels[at], pixels[at + 3]]
    } else {
        seq![pixels[at + 2], pixels[at + 1], pixels[at]]
    }
}

/// The samples of the `n` pixels from `at` on.
pub open spec fn row_samples(pixels: Seq<u8>, at: int, n: int, has_alpha: bool) -> Seq<u8>
    decreases n,
{
    if n <= 0 {
        Seq::empty()
    } else {
        row_samples(pixels, at, n - 1, has_alpha) + pixel_samples(
            pixels,
            at + (n - 1) * 4,
            has_alpha,
        )
    }
}

/// The samples of the first `rows` rows of `width` pixels, which start `stride`
/// bytes apart.
pub open spec fn image_samples(
    pixels: Seq<u8>,
    stride: int,
    width: int,
    rows: int,
    has_alpha: bool,
) -> Seq<u8>
    decreases rows,
{
    if rows <= 0 {
        Seq::empty()
    } else {
        image_samples(pixels, stride, width, rows - 1, has_alpha) + row_samples(
            pixels,
            (rows - 1) * stride,
            width,
            has_alpha,
        )
    }
}

/// Whether the pixels of an image of that geometry all lie within `len` bytes.
pub open spec fn image_fits(len: nat, width: int, height: int, stride: int) -> bool {
    width == 0 || height == 0 || (height - 1) * stride + width * 4 <= len
}

/// The text of the error that [`encode_png`] returns, or the file.
pub open spec fn encoded_png(
    pixels: Seq<u8>,
    width: i32,
    height: i32,
    stride: i32,
    format: ShmFormat,
) -> Result<Seq<u8>, Seq<char>> {
    if width < 0 {
        Err("negative width"@)
    } else if height < 0 {
        Err("negative height"@)
    } else if stride < 0 {
        Err("negative stride"@)
    } else if format is Other {
        Err("unsupported shm format: "@ + shm_format_debug(format->Other_0))
    } else if !image_fits(pixels.len(), width as int, height as int, stride as int) {
        Err("shm buffer shorter than declared geometry"@)
    } else if width == 0 {
        Err("Zero width not allowed"@)
    } else if height == 0 {
        Err("Zero height not allowed"@)
    } else {
        let has_alpha = format == ShmFormat::Argb8888;
        Ok(
            png_file(
                width as u32,
                height as u32,
                has_alpha,
                image_samples(pixels, stride as int, width as int, height as int, has_alpha),
            ),
        )
    }
}

proof fn lemma_row_len(pixels: Seq<u8>, at: int, n: int, has_alpha: bool)
    requires
        n >= 0,
    ensures
        row_samples(pixels, at, n, has_alpha).len() == n * samples_per_pixel(has_alpha),
    decreases n,
{
    let k = samples_per_pixel(has_alpha);
    if n > 0 {
        lemma_row_len(pixels, at, n - 1, has_alpha);
        assert((n - 1) * k + k == n * k) by (nonlinear_arith);
    } else {
        assert(0 * k == 0) by (nonlinear_arith);
    }
}

proof fn lemma_image_len(pixels: Seq<u8>, stride: int, width: int, rows: int, has_alpha: bool)
    requires
        width >= 0,
        rows >= 0,
    ensures
        image_samples(pixels, stride, width, rows, has_alpha).len() == width * rows
            * samples_per_pixel(has_alpha),
    decreases rows,
{
    let k = samples_per_pixel(has_alpha);
    if rows > 0 {
        lemma_image_len(pixels, stride, width, rows - 1, has_alpha);
        lemma_row_len(pixels, (rows - 1) * stride, width, has_alpha);
        assert(width * (rows - 1) * k + width * k == width * rows * k) by (nonlinear_arith);
    } else {
        assert(width * 0 * k == 0) by (nonlinear_arith);
    }
}

/// Appends the samples of the `n` pixels from `at` on.
fn push_row(out: &mut Vec<u8>, pixels: &[u8], at: usize, n: usize, has_alpha: bool)
    requires
        at + n * 4 <= pixels@.len(),
    ensures
        final(out)@ == old(out)@ + row_samples(pixels@, at as int, n as int, has_alpha),
{
    let len: usize = pixels.len();
    let ghost before = out@;
    let mut x: usize = 0;
    assert(out@ =~= before + row_samples(pixels@, at as int, 0, has_alpha));
    while x < n
        invariant
            x <= n,
            at + n * 4 <= pixels@.len() == len,
            out@ == before + row_samples(pixels@, at as int, x as int, has_alpha),
        decreases n - x,
    {
        let p: usize = at + x * 4;
        let ghost prev = out@;
        out.push(pixels[p + 2]);
        out.push(pixels[p + 1]);
        out.push(pixels[p]);
        if has_alpha {
            out.push(pixels[p + 3]);
        }
        proof {
            assert(out@ =~= prev + pixel_samples(pixels@, p as int, has_alpha));
            assert(out@ =~= before + row_samples(pixels@, at as int, x + 1, has_alpha));
        }
        x = x + 1;
    }
}

/// Encodes captured pixels as a PNG file.
pub fn encode_png(pixels: &[u8], width: i32, height: i32, stride: i32, format: ShmFormat) -> (r:
    Result<Vec<u8>, String>)
    ensures
        match encoded_png(pixels@, width, height, stride, format) {
            Ok(file) => r matches Ok(v) && v@ == file,
            Err(text) => r matches Err(e) && e@ == text,
        },
{
    if width < 0 {
        return Err(String::from_str("negative width"));
    }
    if height < 0 {
        return Err(String::from_str("negative height"));
    }
    if stride < 0 {
        return Err(String::from_str("negative stride"));
    }
    let has_alpha: bool = match format {
        ShmFormat::Argb8888 => true,
        ShmFormat::Xrgb8888 => false,
        ShmFormat::Other(code) => {
            let mut e: String = String::from_str("unsupported shm format: ");
            e.append(shm_format_text(code).as_str());
            return Err(e);
        },
    };
    let len: usize = pixels.len();
    if width > 0 && height > 0 {
        assert(0 <= (height - 1) * stride <= 0x7fff_ffff * 0x7fff_ffff) by (nonlinear_arith)
            requires
                0 < height <= 0x7fff_ffff,
                0 <= stride <= 0x7fff_ffff,
        ;
        let last: i128 = (height as i128 - 1) * (stride as i128) + (width as i128) * 4;
        if last > len as i128 {
            return Err(String::from_str("shm buffer shorter than declared geometry"));
        }
    }
    let mut out: Vec<u8> = Vec::new();
    let mut y: i32 = 0;
    let mut at: usize = 0;
    if width > 0 {
        while y < height
            invariant
                0 <= y <= height,
                0 < width,
                0 <= stride,
                len == pixels@.len(),
                image_fits(len as nat, width as int, height as int, stride as int),
                y < height ==> at == y * stride,
                out@ == image_samples(pixels@, stride as int, width as int, y as int, has_alpha),
            decreases height - y,
        {
            assert(y * stride <= (height - 1) * stride) by (nonlinear_arith)
                requires
                    y <= height - 1,
                    0 <= stride,
            ;
            push_row(&mut out, pixels, at, width as usize, has_alpha);
            y = y + 1;
            if y < height {
                assert(y * stride <= (height - 1) * stride) by (nonlinear_arith)
                    requires
                        y <= height - 1,
                        0 <= stride,
                ;
                assert((y - 1) * stride + stride == y * stride) by (nonlinear_arith);
                at = at + stride as usize;
            }
        }
    }
    proof {
        lemma_image_len(
            pixels@,
            stride as int,
            width as int,
            if width > 0 {
                height as int
            } else {
                0
            },
            has_alpha,
        );
        let k = samples_per_pixel(has_alpha);
        if width == 0 {
            assert(width * 0 * k == 0) by (nonlinear_arith);
            assert(width * height * k == 0) by (nonlinear_arith)
                requires
                    width == 0,
            ;
        }
        assert((width as u32) * (height as u32) == width * height);
    }
    write_png(width as u32, height as u32, has_alpha, out.as_slice())
}

/// Encodes an image of red, green and blue samples as a PNG file.
pub fn encode_rgb(samples: &[u8], width: u32, height: u32) -> (r: Result<Vec<u8>, String>)
    requires
        samples@.len() == width * height * 3,
    ensures
        match r {
            Ok(v) => width > 0 && height > 0 && v@ == png_file(width, height, false, samples@),
            Err(e) => if width == 0 {
                e@ == "Zero width not allowed"@
            } else {
                height == 0 && e@ == "Zero height not allowed"@
            },
        },
{
    write_png(width, height, false, samples)
}

proof fn lemma_row_at(pixels: Seq<u8>, at: int, n: int, has_alpha: bool, x: int, c: int)
    requires
        0 <= x < n,
        0 <= c < samples_per_pixel(has_alpha),
    ensures
        row_samples(pixels, at, n, has_alpha)[x * samples_per_pixel(has_alpha) + c]
            == pixel_samples(pixels, at + x * 4, has_alpha)[c],
    decreases n,
{
    lemma_row_len(pixels, at, n - 1, has_alpha);
    if x < n - 1 {
        lemma_row_at(pixels, at, n - 1, has_alpha, x, c);
    }
}

/// Every sample of the image is the one of its pixel: the sample `c` of the
/// pixel in column `x` of row `y` comes from byte `stride * y + 4 * x` on, with
/// blue and red exchanged.
pub proof fn samples_come_from_their_pixels(
    pixels: Seq<u8>,
    stride: int,
    width: int,
    rows: int,
    has_alpha: bool,
    x: int,
    y: int,
    c: int,
)
    requires
        0 <= x < width,
        0 <= y < rows,
        0 <= c < samples_per_pixel(has_alpha),
    ensures
        image_samples(pixels, stride, width, rows, has_alpha)[(y * width + x) * samples_per_pixel(
            has_alpha,
        ) + c] == pixels[y * stride + x * 4 + (if c == 0 {
            2
        } else if c == 2 {
            0
        } else {
            c
        })],
    decreases rows,
{
    let k = samples_per_pixel(has_alpha);
    let i = (y * width + x) * k + c;
    lemma_image_len(pixels, stride, width, rows - 1, has_alpha);
    lemma_image_len(pixels, stride, width, rows, has_alpha);
    assert(width * (rows - 1) * k == (rows - 1) * width * k) by (nonlinear_arith);
    if y < rows - 1 {
        samples_come_from_their_pixels(pixels, stride, width, rows - 1, has_alpha, x, y, c);
        assert(0 <= (y * width + x) * k + c < (rows - 1) * width * k) by (nonlinear_arith)
            requires
                0 <= x < width,
                0 <= y < rows - 1,
                0 <= c < k,
        ;
    } else {
        assert((y * width + x) * k + c == (rows - 1) * width * k + (x * k + c)) by (nonlinear_arith)
            requires
                y == rows - 1,
        ;
        lemma_row_at(pixels, y * stride, width, has_alpha, x, c);
        lemma_row_len(pixels, y * stride, width, has_alpha);
        assert(0 <= x * k + c < width * k) by (nonlinear_arith)
            requires
                0 <= x < width,
                0 <= c < k,
        ;
    }
}

/// Pixels are encoded exactly where the picture has an extent and a known format
/// and the bytes reach to the end of its last row.
pub proof fn pictures_are_encoded_when_they_are_whole(
    pixels: &[u8],
    width: i32,
    height: i32,
    stride: i32,
    format: ShmFormat,
    r: Result<Vec<u8>, String>,
)
    requires
        call_ensures(encode_png, (pixels, width, height, stride, format), r),
    ensures
        r is Ok <==> width > 0 && height > 0 && stride >= 0 && (format == ShmFormat::Argb8888
            || format == ShmFormat::Xrgb8888) && (height - 1) * stride + width * 4 <= pixels@.len(),
{
}

/// The file is that of the picture in its own size, with alpha exactly where the
/// format has it; each sample is the one of its pixel, red before blue.
pub proof fn files_show_the_picture(
    pixels: &[u8],
    width: i32,
    height: i32,
    stride: i32,
    format: ShmFormat,
    r: Result<Vec<u8>, String>,
    has_alpha: bool,
    x: int,
    y: int,
)
    requires
        has_alpha <==> format == ShmFormat::Argb8888,
        call_ensures(encode_png, (pixels, width, height, stride, format), r),
        r is Ok,
        0 <= x < width,
        0 <= y < height,
    ensures
        exists|samples: Seq<u8>|
            {
                let k: int = if has_alpha {
                    4
                } else {
                    3
                };
                let at = (y * width + x) * k;
                let from = y * stride + x * 4;
                &&& r->Ok_0@ == #[trigger] png_file(
                    width as u32,
                    height as u32,
                    has_alpha,
                    samples,
                )
                &&& samples.len() == width * height * k
                &&& samples[at] == pixels@[from + 2]
                &&& samples[at + 1] == pixels@[from + 1]
                &&& samples[at + 2] == pixels@[from]
                &&& has_alpha ==> samples[at + 3] == pixels@[from + 3]
            },
{
    let (w, h, s) = (width as int, height as int, stride as int);
    let samples = image_samples(pixels@, s, w, h, has_alpha);
    lemma_image_len(pixels@, s, w, h, has_alpha);
    samples_come_from_their_pixels(pixels@, s, w, h, has_alpha, x, y, 0);
    samples_come_from_their_pixels(pixels@, s, w, h, has_alpha, x, y, 1);
    samples_come_from_their_pixels(pixels@, s, w, h, has_alpha, x, y, 2);
    if has_alpha {
        samples_come_from_their_pixels(pixels@, s, w, h, has_alpha, x, y, 3);
    }
    assert(r->Ok_0@ == png_file(width as u32, height as u32, has_alpha, samples));
}

/// Colour samples make a file exactly where there are any; otherwise the width is
/// complained of before the height.
pub proof fn empty_pictures_are_refused(
    samples: &[u8],
    width: u32,
    height: u32,
    r: Result<Vec<u8>, String>,
)
    requires
        samples@.len() == width * height * 3,
        call_ensures(encode_rgb, (samples, width, height), r),
    ensures
        r is Ok <==> width > 0 && height > 0,
        width == 0 ==> r is Err && r->Err_0@ == "Zero width not allowed"@,
        width > 0 && height == 0 ==> r is Err && r->Err_0@ == "Zero height not allowed"@,
{
}

} // verus!
