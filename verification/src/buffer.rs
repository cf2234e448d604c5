//! Client buffers as the capture path sees them: a size, a stride, a pixel
//! format and a run of bytes, whatever memory backs them.

use vstd::prelude::*;

use crate::dmabuf::DmabufBufferData;

verus! {

/// Pixel format of a buffer, in `wl_shm` terms. Both named formats are 32 bits
/// per pixel, stored little-endian: byte order B, G, R, A.
#[derive(Clone, Copy, Debug, PartialEq, Eq, Structural)]
pub enum ShmFormat {
    Argb8888,
    Xrgb8888,
    Other(u32),
}

/// A window into a shared-memory pool.
pub struct ShmBufferData {
    pub pool: Vec<u8>,
    pub offset: i32,
    pub width: i32,
    pub height: i32,
    pub stride: i32,
    pub format: ShmFormat,
}

/// What stands behind a `wl_buffer`.
pub enum BufferKind {
    Shm(ShmBufferData),
    /// A dmabuf, with the pixels that reading it back produced, if any.
    Dmabuf(DmabufBufferData, Option<Vec<u8>>),
    /// A 1x1 buffer holding one pixel as B, G, R, A.
    SinglePixel([u8; 4]),
    /// A buffer whose parameters were refused; it never has pixels.
    Invalid,
}

/// Borrowed pixels of a buffer.
pub struct BufferView<'a> {
    pub bytes: &'a [u8],
    pub width: i32,
    pub height: i32,
    pub stride: i32,
    pub format: ShmFormat,
}

/// Mathematical counterpart of [`BufferView`].
pub struct Pixels {
    pub bytes: Seq<u8>,
    pub width: int,
    pub height: int,
    pub stride: int,
    pub format: ShmFormat,
}

impl<'a> View for BufferView<'a> {
    type V = Pixels;

    open spec fn view(&self) -> Pixels {
        Pixels {
            bytes: self.bytes@,
            width: self.width as int,
            height: self.height as int,
            stride: self.stride as int,
            format: self.format,
        }
    }
}

/// Number of bytes that `height` rows of `stride` bytes take. A negative count
/// stands for a length that no pool can hold, unless the other factor is zero.
pub open spec fn row_bytes(height: int, stride: int) -> Option<int> {
    if height == 0 || stride == 0 {
        Some(0int)
    } else if height < 0 || stride < 0 {
        None
    } else {
        Some(height * stride)
    }
}

impl ShmBufferData {
    /// The pixels of the window, or `None` where it does not lie in the pool.
    pub open spec fn pixels(&self) -> Option<Pixels> {
        match row_bytes(self.height as int, self.stride as int) {
            Some(len) => if 0 <= self.offset && self.offset + len <= self.pool@.len() {
                Some(
                    Pixels {
                        bytes: self.pool@.subrange(self.offset as int, self.offset + len),
                        width: self.width as int,
                        height: self.height as int,
                        stride: self.stride as int,
                        format: self.format,
                    },
                )
            } else {
                None
            },
            None => None,
        }
    }
}

impl BufferKind {
    /// The pixels a capture reads from the buffer.
    pub open spec fn pixels(&self) -> Option<Pixels> {
        match *self {
            BufferKind::Shm(s) => s.pixels(),
            BufferKind::Dmabuf(d, Some(bytes)) => Some(
                Pixels {
                    bytes: bytes@,
                    width: d.width as int,
                    height: d.height as int,
                    stride: (d.stride as i32) as int,
                    format: d.shm_format(),
                },
            ),
            BufferKind::Dmabuf(_, None) => None,
            BufferKind::SinglePixel(bgra) => Some(
                Pixels {
                    bytes: bgra@,
                    width: 1,
                    height: 1,
                    stride: 4,
                    format: ShmFormat::Argb8888,
                },
            ),
            BufferKind::Invalid => None,
        }
    }

    /// The size the buffer was created with; an invalid buffer has none.
    pub open spec fn size(&self) -> Option<(i32, i32)> {
        match *self {
            BufferKind::Shm(s) => Some((s.width, s.height)),
            BufferKind::Dmabuf(d, _) => Some((d.width, d.height)),
            BufferKind::SinglePixel(_) => Some((1i32, 1i32)),
            BufferKind::Invalid => None,
        }
    }

    /// Borrows the buffer's pixels without copying them. `None` for an invalid
    /// buffer and for one whose memory cannot be read.
    pub fn with_bytes(&self) -> (r: Option<BufferView<'_>>)
        ensures
            match r {
                Some(v) => self.pixels() == Some(v@),
                None => self.pixels() is None,
            },
    {
        match self {
            BufferKind::Shm(s) => {
                let len: u64 = if s.height == 0 || s.stride == 0 {
                    0
                } else if s.height < 0 || s.stride < 0 {
                    return None;
                } else {
                    assert(s.height * s.stride <= 0x7fff_ffff * 0x7fff_ffff) by (nonlinear_arith)
                        requires
                            0 < s.height <= 0x7fff_ffff,
                            0 < s.stride <= 0x7fff_ffff,
                    ;
                    assert(s.height * s.stride >= 0) by (nonlinear_arith)
                        requires
                            0 < s.height,
                            0 < s.stride,
                    ;
                    s.height as u64 * s.stride as u64
                };
                let have: usize = s.pool.len();
                if s.offset < 0 || len > have as u64 || s.offset as u64 > have as u64 - len {
                    return None;
                }
                let start: usize = s.offset as usize;
                let end: usize = start + len as usize;
                Some(
                    BufferView {
                        bytes: &s.pool[start..end],
                        width: s.width,
                        height: s.height,
                        stride: s.stride,
                        format: s.format,
                    },
                )
            },
            BufferKind::Dmabuf(d, Some(bytes)) => Some(
                BufferView {
                    bytes: bytes.as_slice(),
                    width: d.width,
                    height: d.height,
                    stride: d.stride as i32,
                    format: d.as_shm_format(),
                },
            ),
            BufferKind::Dmabuf(_, None) => None,
            BufferKind::SinglePixel(bgra) => Some(
                BufferView {
                    bytes: bgra.as_slice(),
                    width: 1,
                    height: 1,
                    stride: 4,
                    format: ShmFormat::Argb8888,
                },
            ),
            BufferKind::Invalid => None,
        }
    }
}

/// A window into a pool has pixels exactly where all of it lies in the pool; they
/// are the pool's bytes from its offset on, row after row, and keep the window's
/// size, stride and format.
pub proof fn windows_are_cut_out_of_their_pool(s: ShmBufferData, i: int)
    requires
        s.height > 0,
        s.stride > 0,
    ensures
        BufferKind::Shm(s).pixels() is Some <==> 0 <= s.offset && s.offset + s.height * s.stride
            <= s.pool@.len(),
        BufferKind::Shm(s).pixels() matches Some(px) ==> {
            &&& px.bytes.len() == s.height * s.stride
            &&& 0 <= i < s.height * s.stride ==> px.bytes[i] == s.pool@[s.offset + i]
            &&& px.width == s.width
            &&& px.height == s.height
            &&& px.stride == s.stride
            &&& px.format == s.format
        },
{
    assert(0 <= s.height * s.stride) by (nonlinear_arith)
        requires
            s.height > 0,
            s.stride > 0,
    ;
}

/// A window whose rows run backwards, or that has a negative height, lies in no
/// pool; one without rows or without bytes in a row needs only an offset.
pub proof fn odd_windows(s: ShmBufferData)
    ensures
        s.height < 0 && s.stride != 0 || s.stride < 0 && s.height != 0 ==> BufferKind::Shm(
            s,
        ).pixels() is None,
        s.height == 0 || s.stride == 0 ==> (BufferKind::Shm(s).pixels() is Some <==> 0 <= s.offset
            <= s.pool@.len()),
{
}

/// What a capture reads of the other buffers: of a GPU buffer what reading it
/// back produced, under its own size, stride and format; of a one-pixel buffer its
/// one pixel, with alpha; of a refused buffer nothing.
pub proof fn other_buffers_show_what_they_hold(
    d: DmabufBufferData,
    bytes: Option<Vec<u8>>,
    bgra: [u8; 4],
)
    ensures
        BufferKind::Dmabuf(d, bytes).pixels() is Some <==> bytes is Some,
        bytes matches Some(b) ==> (BufferKind::Dmabuf(d, bytes).pixels() matches Some(px)
            && px.bytes == b@ && px.width == d.width && px.height == d.height && (d.stride
            <= 0x7fff_ffff ==> px.stride == d.stride)),
        BufferKind::SinglePixel(bgra).pixels() matches Some(px) && px.bytes == bgra@ && px.width
            == 1 && px.height == 1 && px.stride == 4 && px.format == ShmFormat::Argb8888,
        BufferKind::Invalid.pixels() is None,
{
}

/// What is borrowed of a buffer is exactly its pixels.
pub proof fn borrowed_pixels_are_the_buffers(b: BufferKind, r: Option<BufferView<'_>>)
    requires
        call_ensures(BufferKind::with_bytes, (&b,), r),
    ensures
        r is Some <==> b.pixels() is Some,
        r matches Some(v) ==> v.bytes@ == b.pixels()->0.bytes && v.width == b.pixels()->0.width
            && v.height == b.pixels()->0.height && v.stride == b.pixels()->0.stride && v.format
            == b.pixels()->0.format,
{
}

} // verus!
