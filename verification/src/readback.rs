//! Reading a dmabuf's pixels back to the CPU.
//!
//! A linear buffer is mapped; where mapping fails or yields only zeros, several
//! driver paths are tried in turn. A tiled buffer cannot be mapped and goes
//! through EGL at once. A [`Readback`] names the next step and is advanced with
//! what it produced.

use vstd::prelude::*;

use crate::buffer::row_bytes;
use crate::dmabuf::{DmabufBufferData, DRM_FORMAT_MOD_LINEAR};

verus! {

/// Largest buffer that is read back: 8192 x 8192 pixels of four bytes.
pub const MAX_DMABUF_LEN: usize = 0x1000_0000;

/// What is known of a buffer's implicit fence.
#[derive(Clone, Copy, Debug, PartialEq, Eq, Structural)]
pub enum FenceStatus {
    /// The buffer has no fence to wait for.
    NoFence,
    /// The fence had signalled before anyone waited.
    AlreadySignaled,
    /// The fence signalled while waiting.
    Waited,
    /// The fence did not signal in time, or polling failed.
    TimedOut,
}

/// Readable event bit of a poll result.
pub const POLLIN: i16 = 1;

/// How long a blocking wait for a fence may take, in milliseconds.
pub const FENCE_TIMEOUT_MS: i32 = 2000;

/// CPU access for reading.
pub const DMA_BUF_SYNC_READ: u64 = 1;

/// CPU access begins.
pub const DMA_BUF_SYNC_START: u64 = 0;

/// CPU access ends.
pub const DMA_BUF_SYNC_END: u64 = 4;

/// Flags of the cache synchronisation that begins, or ends, reading on the CPU.
pub fn sync_flags(end: bool) -> (r: u64)
    ensures
        r == if end {
            5u64
        } else {
            1u64
        },
{
    assert(0u64 | 1u64 == 1u64) by (bit_vector);
    assert(4u64 | 1u64 == 5u64) by (bit_vector);
    if end {
        DMA_BUF_SYNC_END | DMA_BUF_SYNC_READ
    } else {
        DMA_BUF_SYNC_START | DMA_BUF_SYNC_READ
    }
}

/// Whether exporting the fence gave a descriptor to poll.
pub fn fence_exported(ret: i32, fence_fd: i32) -> (r: bool)
    ensures
        r == (ret == 0 && fence_fd >= 0),
{
    ret == 0 && fence_fd >= 0
}

/// Whether a poll that returned `n` reported the descriptor as readable. An odd
/// event mask has the readable bit set.
pub fn poll_readable(n: i32, revents: i16) -> (r: bool)
    ensures
        r == (n > 0 && revents % 2 != 0),
{
    assert((revents & 1i16) == 0 || (revents & 1i16) == 1) by (bit_vector);
    assert((revents & 1i16) != 0 <==> revents % 2 != 0) by (bit_vector);
    n > 0 && (revents & POLLIN) != 0
}

/// Whether the buffer can be read without waiting: it has no fence, or the
/// non-blocking probe found it signalled.
pub fn dmabuf_fence_ready_now(exported: bool, probe: i32, revents: i16) -> (r: bool)
    ensures
        r == (!exported || (probe > 0 && revents % 2 != 0)),
{
    if !exported {
        return true;
    }
    poll_readable(probe, revents)
}

/// The fence's status after a non-blocking probe and, where that found it
/// pending, a blocking wait. `None` where the wait is still to be done.
pub fn wait_for_dmabuf_fence_status(
    exported: bool,
    probe: (i32, i16),
    waited: Option<(i32, i16)>,
) -> (r: Option<FenceStatus>)
    ensures
        r == if !exported {
            Some(FenceStatus::NoFence)
        } else if probe.0 > 0 && probe.1 % 2 != 0 {
            Some(FenceStatus::AlreadySignaled)
        } else {
            match waited {
                None => None,
                Some((n, revents)) => if n > 0 && revents % 2 != 0 {
                    Some(FenceStatus::Waited)
                } else {
                    Some(FenceStatus::TimedOut)
                },
            }
        },
{
    if !exported {
        return Some(FenceStatus::NoFence);
    }
    if poll_readable(probe.0, probe.1) {
        return Some(FenceStatus::AlreadySignaled);
    }
    match waited {
        None => None,
        Some((n, revents)) => if poll_readable(n, revents) {
            Some(FenceStatus::Waited)
        } else {
            Some(FenceStatus::TimedOut)
        },
    }
}

/// Whether any byte differs from zero.
pub open spec fn any_nonzero(s: Seq<u8>) -> bool {
    exists|i: int| 0 <= i < s.len() && s[i] != 0
}

/// Whether any byte differs from zero.
pub fn has_content(bytes: &[u8]) -> (r: bool)
    ensures
        r == any_nonzero(bytes@),
{
    let n: usize = bytes.len();
    let mut i: usize = 0;
    while i < n
        invariant
            n == bytes@.len(),
            i <= n,
            forall|k: int| 0 <= k < i ==> bytes@[k] == 0,
        decreases n - i,
    {
        if bytes[i] != 0 {
            return true;
        }
        i = i + 1;
    }
    false
}

/// The length to read for a buffer of the given geometry; `None` where it is no
/// length, or beyond [`MAX_DMABUF_LEN`].
pub fn bounded_length(height: i32, stride: i32) -> (r: Option<usize>)
    ensures
        r == match row_bytes(height as int, stride as int) {
            Some(n) => if n <= MAX_DMABUF_LEN {
                Some(n as usize)
            } else {
                None
            },
            None => None,
        },
{
    if height == 0 || stride == 0 {
        return Some(0);
    }
    if height < 0 || stride < 0 {
        return None;
    }
    assert(0 <= height * stride <= 0x7fff_ffff * 0x7fff_ffff) by (nonlinear_arith)
        requires
            0 < height <= 0x7fff_ffff,
            0 < stride <= 0x7fff_ffff,
    ;
    let n: u64 = height as u64 * stride as u64;
    if n <= MAX_DMABUF_LEN as u64 {
        Some(n as usize)
    } else {
        None
    }
}

/// A step of reading a buffer back.
#[derive(Clone, Copy, Debug, PartialEq, Eq, Structural)]
pub enum ReadStage {
    /// Wait for the fence of plane `plane`.
    Fence { plane: usize },
    /// Begin CPU access.
    SyncStart,
    /// Map the buffer.
    Mmap,
    /// Wait for plane 0 once more, since the mapping was all zeros.
    FenceAgain,
    /// Map through the AMD driver's own interface.
    GemMmap,
    /// Map through the DRM node.
    Drm,
    /// Map through GBM.
    Gbm,
    /// Import into EGL and read the pixels.
    Egl,
    /// End CPU access.
    SyncEnd,
    Done,
}

/// A read-back under way.
pub struct Readback {
    pub stage: ReadStage,
    pub linear: bool,
    /// Planes beyond the first.
    pub extra_planes: usize,
    /// First byte of the pixels in the mapping.
    pub start: u64,
    /// Length of the pixels.
    pub len: u64,
    /// Whether CPU access has begun and not ended.
    pub sync_open: bool,
    pub pixels: Option<Vec<u8>>,
}

/// The pixels' view.
pub open spec fn seq_of(v: Option<Vec<u8>>) -> Option<Seq<u8>> {
    match v {
        Some(b) => Some(b@),
        None => None,
    }
}

impl Readback {
    /// What a step's product leads to: the next stage and, where the read-back
    /// is over, its pixels.
    pub open spec fn step(&self, product: Option<Seq<u8>>) -> (ReadStage, Option<Seq<u8>>) {
        let over = if self.sync_open {
            ReadStage::SyncEnd
        } else {
            ReadStage::Done
        };
        match self.stage {
            ReadStage::Fence { plane } => if self.linear {
                (ReadStage::SyncStart, None)
            } else if plane < self.extra_planes {
                (ReadStage::Fence { plane: (plane + 1) as usize }, None)
            } else {
                (ReadStage::Egl, None)
            },
            ReadStage::SyncStart => (ReadStage::Mmap, None),
            ReadStage::Mmap => match product {
                None => (ReadStage::Drm, None),
                Some(m) => if self.start + self.len > m.len() {
                    (over, None)
                } else if any_nonzero(m.subrange(self.start as int, self.start + self.len)) {
                    (over, Some(m.subrange(self.start as int, self.start + self.len)))
                } else {
                    (ReadStage::FenceAgain, None)
                },
            },
            ReadStage::FenceAgain => (ReadStage::GemMmap, None),
            ReadStage::GemMmap => match product {
                Some(v) => if any_nonzero(v) {
                    (over, Some(v))
                } else {
                    (ReadStage::Drm, None)
                },
                None => (ReadStage::Drm, None),
            },
            ReadStage::Drm => match product {
                Some(v) => (over, Some(v)),
                None => (ReadStage::Gbm, None),
            },
            ReadStage::Gbm => match product {
                Some(v) => if any_nonzero(v) {
                    (over, Some(v))
                } else {
                    (ReadStage::Egl, None)
                },
                None => (ReadStage::Egl, None),
            },
            ReadStage::Egl => (over, product),
            ReadStage::SyncEnd => (ReadStage::Done, seq_of(self.pixels)),
            ReadStage::Done => (ReadStage::Done, seq_of(self.pixels)),
        }
    }

    /// CPU access is open exactly between its begin and its end, and a tiled
    /// buffer never gets to the mapping steps.
    pub open spec fn wf(&self) -> bool {
        &&& match self.stage {
            ReadStage::Fence { plane } => !self.sync_open && plane <= self.extra_planes
                && self.pixels is None,
            ReadStage::SyncStart => self.linear && !self.sync_open && self.pixels is None,
            ReadStage::Mmap | ReadStage::FenceAgain | ReadStage::GemMmap | ReadStage::Drm
            | ReadStage::Gbm => self.linear && self.sync_open && self.pixels is None,
            ReadStage::Egl => self.sync_open == self.linear && self.pixels is None,
            ReadStage::SyncEnd => self.linear && self.sync_open,
            ReadStage::Done => !self.sync_open,
        }
    }

    /// Starts reading a buffer back. A negative height is no geometry to read.
    pub fn begin(buffer: &DmabufBufferData) -> (r: Option<Readback>)
        ensures
            r is None <==> buffer.height < 0 && buffer.stride != 0,
            r matches Some(rb) ==> {
                &&& rb.wf()
                &&& rb.stage == (ReadStage::Fence { plane: 0 })
                &&& rb.linear == (buffer.modifier == DRM_FORMAT_MOD_LINEAR)
                &&& rb.extra_planes == buffer.extra_planes@.len()
                &&& rb.start == buffer.offset
                &&& rb.len == buffer.height * buffer.stride
            },
    {
        if buffer.height < 0 && buffer.stride != 0 {
            return None;
        }
        let len: u64 = if buffer.height <= 0 {
            assert(buffer.height * buffer.stride == 0) by (nonlinear_arith)
                requires
                    buffer.height == 0 || buffer.stride == 0,
            ;
            0
        } else {
            assert(0 <= buffer.height * buffer.stride <= 0x7fff_ffff * 0xffff_ffff)
                by (nonlinear_arith)
                requires
                    0 < buffer.height <= 0x7fff_ffff,
                    0 <= buffer.stride <= 0xffff_ffff,
            ;
            buffer.height as u64 * buffer.stride as u64
        };
        assert(len <= 0x7fff_ffff * 0xffff_ffff);
        Some(
            Readback {
                stage: ReadStage::Fence { plane: 0 },
                linear: buffer.modifier == DRM_FORMAT_MOD_LINEAR,
                extra_planes: buffer.extra_planes.len(),
                start: buffer.offset as u64,
                len,
                sync_open: false,
                pixels: None,
            },
        )
    }

    fn end(&mut self, pixels: Option<Vec<u8>>)
        ensures
            *final(self) == (Readback {
                stage: if old(self).sync_open {
                    ReadStage::SyncEnd
                } else {
                    ReadStage::Done
                },
                pixels,
                ..*old(self)
            }),
    {
        self.stage = if self.sync_open {
            ReadStage::SyncEnd
        } else {
            ReadStage::Done
        };
        self.pixels = pixels;
    }

    /// Takes the product of the due step: mapped bytes or read pixels where the
    /// step makes any, `None` where it failed or makes none.
    pub fn advance(&mut self, product: Option<Vec<u8>>)
        requires
            old(self).wf(),
        ensures
            final(self).wf(),
            ({
                let (stage, pixels) = old(self).step(seq_of(product));
                &&& final(self).stage == stage
                &&& seq_of(final(self).pixels) == pixels
            }),
            final(self).linear == old(self).linear,
            final(self).extra_planes == old(self).extra_planes,
            final(self).start == old(self).start,
            final(self).len == old(self).len,
            final(self).sync_open == (old(self).stage == ReadStage::SyncStart || (old(self).sync_open && old(self).stage != ReadStage::SyncEnd)),
    {
        match self.stage {
            ReadStage::Fence { plane } => {
                if self.linear {
                    self.stage = ReadStage::SyncStart;
                } else if plane < self.extra_planes {
                    self.stage = ReadStage::Fence { plane: plane + 1 };
                } else {
                    self.stage = ReadStage::Egl;
                }
            },
            ReadStage::SyncStart => {
                self.sync_open = true;
                self.stage = ReadStage::Mmap;
            },
            ReadStage::Mmap => {
                match product {
                    None => {
                        self.stage = ReadStage::Drm;
                    },
                    Some(m) => {
                        let n: u64 = m.len() as u64;
                        if self.len > n || self.start > n - self.len {
                            self.end(None);
                        } else {
                            let lo: usize = self.start as usize;
                            let hi: usize = (self.start + self.len) as usize;
                            let window: &[u8] = &m[lo..hi];
                            if has_content(window) {
                                let pixels: Vec<u8> = copy_bytes(window);
                                self.end(Some(pixels));
                            } else {
                                self.stage = ReadStage::FenceAgain;
                            }
                        }
                    },
                }
            },
            ReadStage::FenceAgain => {
                self.stage = ReadStage::GemMmap;
            },
            ReadStage::GemMmap => {
                match product {
                    Some(v) => {
                        if has_content(v.as_slice()) {
                            self.end(Some(v));
                        } else {
                            self.stage = ReadStage::Drm;
                        }
                    },
                    None => {
                        self.stage = ReadStage::Drm;
                    },
                }
            },
            ReadStage::Drm => {
                match product {
                    Some(v) => {
                        self.end(Some(v));
                    },
                    None => {
                        self.stage = ReadStage::Gbm;
                    },
                }
            },
            ReadStage::Gbm => {
                match product {
                    Some(v) => {
                        if has_content(v.as_slice()) {
                            self.end(Some(v));
                        } else {
                            self.stage = ReadStage::Egl;
                        }
                    },
                    None => {
                        self.stage = ReadStage::Egl;
                    },
                }
            },
            ReadStage::Egl => {
                self.end(product);
            },
            ReadStage::SyncEnd => {
                self.sync_open = false;
                self.stage = ReadStage::Done;
            },
            ReadStage::Done => {},
        }
    }
}

/// A copy of `bytes`.
pub fn copy_bytes(bytes: &[u8]) -> (r: Vec<u8>)
    ensures
        r@ == bytes@,
{
    let n: usize = bytes.len();
    let mut r: Vec<u8> = Vec::new();
    let mut i: usize = 0;
    while i < n
        invariant
            n == bytes@.len(),
            i <= n,
            r@ == bytes@.take(i as int),
        decreases n - i,
    {
        r.push(bytes[i]);
        i = i + 1;
        assert(r@ =~= bytes@.take(i as int));
    }
    assert(bytes@.take(n as int) =~= bytes@);
    r
}

/// How far along a read-back is.
pub open spec fn read_rank(rb: Readback) -> int {
    match rb.stage {
        ReadStage::Fence { plane } => 10 + rb.extra_planes - plane,
        ReadStage::SyncStart => 9,
        ReadStage::Mmap => 8,
        ReadStage::FenceAgain => 7,
        ReadStage::GemMmap => 6,
        ReadStage::Drm => 5,
        ReadStage::Gbm => 4,
        ReadStage::Egl => 3,
        ReadStage::SyncEnd => 1,
        ReadStage::Done => 0,
    }
}

/// The rank of the stage that follows.
pub open spec fn next_rank(rb: Readback, product: Option<Seq<u8>>) -> int {
    read_rank(Readback { stage: rb.step(product).0, ..rb })
}

/// Every step brings a read-back closer to its end, so it always ends; and
/// whenever it has ended, CPU access that was begun has been ended too.
pub proof fn readback_always_ends(rb: Readback, product: Option<Seq<u8>>)
    requires
        rb.wf(),
        rb.stage != ReadStage::Done,
    ensures
        0 <= next_rank(rb, product) < read_rank(rb),
        rb.sync_open ==> rb.step(product).0 != ReadStage::Done || rb.stage == ReadStage::SyncEnd,
{
}

/// The bytes of a tiled buffer come from EGL only: no mapping step is ever due.
pub proof fn tiled_buffers_are_never_mapped(rb: Readback)
    requires
        rb.wf(),
        !rb.linear,
    ensures
        rb.stage != ReadStage::Mmap,
        rb.stage != ReadStage::GemMmap,
        rb.stage != ReadStage::Drm,
        rb.stage != ReadStage::Gbm,
{
}

/// A mapping that is all zeros is never taken for the picture: from the steps
/// that are known to yield zeros, pixels come out only with content.
pub proof fn zero_mappings_are_not_pictures(rb: Readback, product: Option<Seq<u8>>)
    requires
        rb.wf(),
        rb.stage == ReadStage::Mmap || rb.stage == ReadStage::GemMmap || rb.stage == ReadStage::Gbm,
        rb.step(product).1 is Some,
    ensures
        any_nonzero(rb.step(product).1->0),
{
}

/// What EGL delivers is the picture, linear buffer or tiled: a read-back that got
/// bytes from EGL is done with exactly those bytes, at once or after CPU access
/// has been ended; and one that got none is done without any.
pub proof fn egl_pixels_are_the_result(
    rb: Readback,
    next: Readback,
    product: Option<Seq<u8>>,
    ignored: Option<Seq<u8>>,
)
    requires
        rb.wf(),
        rb.stage == ReadStage::Egl,
        next.stage == rb.step(product).0,
        seq_of(next.pixels) == rb.step(product).1,
        next.sync_open == rb.sync_open,
    ensures
        seq_of(next.pixels) == product,
        rb.linear ==> next.stage == ReadStage::SyncEnd && next.step(ignored) == (
            ReadStage::Done,
            product,
        ),
        !rb.linear ==> next.stage == ReadStage::Done,
{
}

/// What advancing does to a read-back at EGL, call by call: the pixels are the
/// product's bytes.
pub proof fn egl_products_are_kept(product: Option<Vec<u8>>)
    ensures
        forall|m: &mut Readback|
            m.wf() && m.stage == ReadStage::Egl && #[trigger] call_ensures(
                Readback::advance,
                (m, product),
                (),
            ) ==> {
                &&& product matches Some(v) ==> (final(m).pixels matches Some(p) && p@ == v@)
                &&& product is None ==> final(m).pixels is None
                &&& final(m).stage == ReadStage::Done || final(m).stage == ReadStage::SyncEnd
            },
{
}

/// Ending CPU access keeps the pixels, and a read-back that is done stays as it
/// is.
pub proof fn ended_readbacks_keep_their_pixels(product: Option<Vec<u8>>)
    ensures
        forall|m: &mut Readback|
            m.wf() && (m.stage == ReadStage::SyncEnd || m.stage == ReadStage::Done)
                && #[trigger] call_ensures(Readback::advance, (m, product), ()) ==> final(m).stage
                == ReadStage::Done && seq_of(final(m).pixels) == seq_of(m.pixels)
                && !final(m).sync_open,
{
}

/// A mapping that holds the whole picture gives it, byte for byte from the
/// picture's start on, unless all of it is zero; one that is too short gives none
/// and ends the read-back.
pub proof fn mapped_pictures_are_cut_out(rb: Readback, m: Seq<u8>, i: int)
    requires
        rb.wf(),
        rb.stage == ReadStage::Mmap,
        0 <= i < rb.len,
    ensures
        rb.start + rb.len > m.len() ==> rb.step(Some(m)) == (
            ReadStage::SyncEnd,
            None::<Seq<u8>>,
        ),
        rb.start + rb.len <= m.len() && m[rb.start + i] != 0 ==> {
            &&& rb.step(Some(m)).0 == ReadStage::SyncEnd
            &&& rb.step(Some(m)).1 matches Some(p) && p.len() == rb.len && p[i] == m[rb.start + i]
        },
        rb.step(Some(m)).1 matches Some(p) ==> p.len() == rb.len && p[i] == m[rb.start + i],
        rb.start + rb.len <= m.len() && (forall|k: int|
            rb.start <= k < rb.start + rb.len ==> #[trigger] m[k] == 0) ==> rb.step(Some(m)).0
            == ReadStage::FenceAgain,
{
    if rb.start + rb.len <= m.len() {
        let w = m.subrange(rb.start as int, rb.start + rb.len);
        assert(w[i] == m[rb.start + i]);
        if forall|k: int| rb.start <= k < rb.start + rb.len ==> #[trigger] m[k] == 0 {
            assert forall|k: int| 0 <= k < w.len() implies w[k] == 0 by {
                assert(m[rb.start + k] == 0);
            }
        }
    }
}

/// Where a step fails, the next path is tried: a failed mapping goes to the DRM
/// node, a mapping of zeros first to the driver's own interface; the DRM node to
/// GBM, and GBM to EGL.
pub proof fn failed_paths_fall_through(rb: Readback)
    requires
        rb.wf(),
    ensures
        rb.stage == ReadStage::Mmap ==> rb.step(None).0 == ReadStage::Drm,
        rb.stage == ReadStage::FenceAgain ==> rb.step(None).0 == ReadStage::GemMmap,
        rb.stage == ReadStage::GemMmap ==> rb.step(None).0 == ReadStage::Drm,
        rb.stage == ReadStage::Drm ==> rb.step(None).0 == ReadStage::Gbm,
        rb.stage == ReadStage::Gbm ==> rb.step(None).0 == ReadStage::Egl,
        rb.stage == ReadStage::Egl ==> rb.step(None).1 is None,
{
}

/// Where one of the other paths delivers a picture with content, that picture is
/// the result; the DRM node's is taken whatever it holds, those of the driver's
/// interface and of GBM are passed over where they are all zeros.
pub proof fn delivered_pictures_are_the_result(rb: Readback, v: Seq<u8>, i: int)
    requires
        rb.wf(),
        rb.stage == ReadStage::GemMmap || rb.stage == ReadStage::Drm || rb.stage == ReadStage::Gbm,
        0 <= i < v.len(),
    ensures
        v[i] != 0 || rb.stage == ReadStage::Drm ==> rb.step(Some(v)) == (
            ReadStage::SyncEnd,
            Some(v),
        ),
        (forall|k: int| 0 <= k < v.len() ==> #[trigger] v[k] == 0) && rb.stage == ReadStage::GemMmap
            ==> rb.step(Some(v)).0 == ReadStage::Drm,
        (forall|k: int| 0 <= k < v.len() ==> #[trigger] v[k] == 0) && rb.stage == ReadStage::Gbm
            ==> rb.step(Some(v)).0 == ReadStage::Egl,
{
}

/// Nothing is read before the fences: a linear buffer waits for its first plane
/// and begins CPU access before it is mapped, a tiled one waits for every plane,
/// one after the other, before EGL imports it.
pub proof fn fences_come_first(rb: Readback, product: Option<Seq<u8>>)
    requires
        rb.wf(),
        rb.stage is Fence,
    ensures
        rb.linear ==> rb.step(product).0 == ReadStage::SyncStart,
        !rb.linear && rb.stage->plane < rb.extra_planes ==> (rb.step(product).0 matches
            ReadStage::Fence { plane } && plane == rb.stage->plane + 1),
        !rb.linear && rb.stage->plane == rb.extra_planes ==> rb.step(product).0 == ReadStage::Egl,
        rb.step(product).1 is None,
{
}

/// A read-back starts with nothing read, of the buffer's own geometry: rows of
/// its stride, from its offset on.
pub proof fn readbacks_start_from_the_buffer(buffer: DmabufBufferData, r: Option<Readback>)
    requires
        call_ensures(Readback::begin, (&buffer,), r),
        buffer.height >= 0,
    ensures
        r matches Some(rb) && rb.pixels is None && !rb.sync_open && rb.stage == (ReadStage::Fence {
            plane: 0,
        }) && rb.start == buffer.offset && rb.len == buffer.height * buffer.stride && rb.extra_planes
            == buffer.extra_planes@.len() && (rb.linear <==> buffer.modifier == 0),
{
}

/// The flags of cache synchronisation ask for reading in both directions, and
/// differ exactly in the bit that ends the access.
pub proof fn sync_flags_differ_in_the_end_bit(end: bool, r: u64)
    requires
        call_ensures(sync_flags, (end,), r),
    ensures
        r & 1 == 1,
        r & 4 == 4 <==> end,
        r & !5u64 == 0,
{
    assert(5u64 & 1 == 1 && 5u64 & 4 == 4 && 5u64 & !5u64 == 0 && 1u64 & 1 == 1 && 1u64 & 4 == 0
        && 1u64 & !5u64 == 0) by (bit_vector);
}

/// A fence is known to have timed out only after a wait that did not report it,
/// and a buffer can be read without waiting exactly where it has no fence or the
/// probe reported it.
pub proof fn fences_time_out_only_after_a_wait(
    exported: bool,
    probe: (i32, i16),
    waited: Option<(i32, i16)>,
    r: Option<FenceStatus>,
    ready: bool,
)
    requires
        call_ensures(wait_for_dmabuf_fence_status, (exported, probe, waited), r),
        call_ensures(dmabuf_fence_ready_now, (exported, probe.0, probe.1), ready),
    ensures
        r == Some(FenceStatus::TimedOut) ==> exported && !ready && waited is Some,
        ready <==> r == Some(FenceStatus::NoFence) || r == Some(FenceStatus::AlreadySignaled),
        r is None <==> !ready && waited is None,
        r == Some(FenceStatus::NoFence) <==> !exported,
        r == Some(FenceStatus::Waited) ==> (waited matches Some(w) && w.0 > 0 && w.1 % 2 != 0),
        waited matches Some(w) ==> !ready && w.0 > 0 && w.1 % 2 != 0 ==> r == Some(
            FenceStatus::Waited,
        ),
{
}

/// A length is given for every geometry up to 256 MiB, and it is rows times
/// stride.
pub proof fn lengths_are_bounded(height: i32, stride: i32, r: Option<usize>)
    requires
        call_ensures(bounded_length, (height, stride), r),
        height >= 0,
        stride >= 0,
    ensures
        r is Some <==> height * stride <= 256 * 1024 * 1024,
        r matches Some(n) ==> n == height * stride,
{
    assert(height == 0 || stride == 0 ==> height * stride == 0) by (nonlinear_arith);
}

/// Content is any byte that is not zero; a copy has the bytes of what it copies. A
/// fence is there where exporting it succeeded with a descriptor, and a poll
/// reports it where it returned something with the lowest bit set.
pub proof fn content_is_any_byte_but_zero(
    bytes: &[u8],
    content: bool,
    copy: Vec<u8>,
    i: int,
    ret: i32,
    fd: i32,
    exported: bool,
    revents: i16,
    readable: bool,
)
    requires
        call_ensures(has_content, (bytes,), content),
        call_ensures(copy_bytes, (bytes,), copy),
        call_ensures(fence_exported, (ret, fd), exported),
        call_ensures(poll_readable, (ret, revents), readable),
    ensures
        0 <= i < bytes@.len() && bytes@[i] != 0 ==> content,
        content ==> exists|k: int| 0 <= k < bytes@.len() && bytes@[k] != 0,
        copy@ == bytes@,
        exported <==> ret == 0 && fd >= 0,
        readable <==> ret > 0 && revents as int % 2 == 1,
{
}

/// A step keeps what the readback was begun with; from the start of CPU access to
/// its end the buffer is open to the CPU, so that every path that began it ends it.
pub proof fn cpu_access_is_ended(product: Option<Vec<u8>>)
    ensures
        forall|m: &mut Readback|
            m.wf() && #[trigger] call_ensures(Readback::advance, (m, product), ()) ==> {
                &&& final(m).start == m.start && final(m).len == m.len && final(m).linear
                    == m.linear && final(m).extra_planes == m.extra_planes
                &&& m.stage == ReadStage::SyncStart ==> final(m).sync_open
                &&& m.stage == ReadStage::SyncEnd ==> !final(m).sync_open
                &&& m.stage != ReadStage::SyncStart && m.stage != ReadStage::SyncEnd
                    ==> final(m).sync_open == m.sync_open
                &&& m.sync_open && m.stage != ReadStage::SyncEnd ==> final(m).stage
                    != ReadStage::Done
                &&& m.stage == ReadStage::Done ==> final(m).stage == ReadStage::Done
            },
{
}

} // verus!
