//! Capture-time composition of a surface tree.
//!
//! Toolkits commonly commit a tiny or transparent toplevel buffer and draw
//! their content into subsurfaces. A capture therefore walks the tree and
//! blends every surface into one ARGB8888 canvas, parents below children.

use vstd::prelude::*;

use crate::buffer::{BufferKind, Pixels, ShmFormat};
use crate::surface::ViewportData;

verus! {

/// Size and row pitch of the canvas being drawn on.
pub struct Canvas {
    pub width: int,
    pub height: int,
    pub stride: int,
}

/// Source pixels of a blit.
pub struct Raster {
    pub bytes: Seq<u8>,
    pub stride: int,
    pub format: ShmFormat,
}

/// Where a source rectangle lands: `(sx, sy, sw, sh)` in buffer coordinates is
/// scaled to `dw` x `dh` canvas pixels at `(off_x, off_y)`.
pub struct Placement {
    pub off_x: int,
    pub off_y: int,
    pub sx: int,
    pub sy: int,
    pub sw: int,
    pub sh: int,
    pub dw: int,
    pub dh: int,
}

pub open spec fn min_int(a: int, b: int) -> int {
    if a <= b {
        a
    } else {
        b
    }
}

pub open spec fn max_int(a: int, b: int) -> int {
    if a >= b {
        a
    } else {
        b
    }
}

impl Placement {
    /// An unscaled, uncropped buffer of `w` x `h` pixels.
    pub open spec fn plain(off_x: int, off_y: int, w: int, h: int) -> Placement {
        Placement { off_x, off_y, sx: 0, sy: 0, sw: w, sh: h, dw: w, dh: h }
    }

    /// Whether neither rectangle is empty.
    pub open spec fn non_empty(self) -> bool {
        self.sw > 0 && self.sh > 0 && self.dw > 0 && self.dh > 0
    }

    /// Byte offset of the source pixel shown at canvas position `(x, y)`
    /// (nearest neighbour, rounding down).
    pub open spec fn source_index(self, stride: int, x: int, y: int) -> int {
        (self.sy + ((y - self.off_y) * self.sh) / self.dh) * stride + (self.sx + ((x - self.off_x)
            * self.sw) / self.dw) * 4
    }

    pub open spec fn x0(self) -> int {
        max_int(self.off_x, 0)
    }

    pub open spec fn x1(self, canvas: Canvas) -> int {
        min_int(self.off_x + self.dw, canvas.width)
    }

    pub open spec fn y0(self) -> int {
        max_int(self.off_y, 0)
    }

    pub open spec fn y1(self, canvas: Canvas) -> int {
        min_int(self.off_y + self.dh, canvas.height)
    }

    /// Whether the placement covers canvas position `(x, y)`.
    pub open spec fn covers(self, canvas: Canvas, x: int, y: int) -> bool {
        self.non_empty() && self.x0() <= x < self.x1(canvas) && self.y0() <= y < self.y1(canvas)
    }
}

/// Channel `c` (0 = B, 1 = G, 2 = R, 3 = A) of the source pixel at byte `si`.
/// Only ARGB8888 has an alpha channel; every other format is opaque.
pub open spec fn source_channel(src: Seq<u8>, si: int, format: ShmFormat, c: int) -> u8 {
    if c == 3 && format != ShmFormat::Argb8888 {
        255
    } else {
        src[si + c]
    }
}

/// Premultiplied source-over of one channel: `s` with alpha `a` over `d`.
pub open spec fn over_channel(s: u8, a: u8, d: u8) -> u8 {
    if a == 255 {
        s
    } else if a == 0 {
        d
    } else {
        min_int(255, s + (d * (255 - a)) / 255) as u8
    }
}

/// `dst` after blending the source pixel at `si` onto the pixel at `di`. A
/// pixel that does not lie wholly inside both buffers is skipped.
pub open spec fn pixel_painted(
    dst: Seq<u8>,
    di: int,
    src: Seq<u8>,
    si: int,
    format: ShmFormat,
) -> Seq<u8> {
    if 0 <= si && si + 4 <= src.len() && 0 <= di && di + 4 <= dst.len() {
        Seq::new(
            dst.len(),
            |k: int|
                if di <= k < di + 4 {
                    over_channel(
                        source_channel(src, si, format, k - di),
                        source_channel(src, si, format, 3),
                        dst[k],
                    )
                } else {
                    dst[k]
                },
        )
    } else {
        dst
    }
}

/// `dst` after painting columns `x0..x1` of row `y`, left to right.
pub open spec fn row_painted(
    dst: Seq<u8>,
    canvas: Canvas,
    src: Raster,
    p: Placement,
    y: int,
    x0: int,
    x1: int,
) -> Seq<u8>
    decreases x1 - x0,
{
    if x1 <= x0 {
        dst
    } else {
        pixel_painted(
            row_painted(dst, canvas, src, p, y, x0, x1 - 1),
            y * canvas.stride + (x1 - 1) * 4,
            src.bytes,
            p.source_index(src.stride, x1 - 1, y),
            src.format,
        )
    }
}

/// `dst` after painting rows `y0..y1`, top to bottom.
pub open spec fn rows_painted(
    dst: Seq<u8>,
    canvas: Canvas,
    src: Raster,
    p: Placement,
    y0: int,
    y1: int,
) -> Seq<u8>
    decreases y1 - y0,
{
    if y1 <= y0 {
        dst
    } else {
        row_painted(
            rows_painted(dst, canvas, src, p, y0, y1 - 1),
            canvas,
            src,
            p,
            y1 - 1,
            p.x0(),
            p.x1(canvas),
        )
    }
}

/// `dst` after blending `src` under placement `p`, clipped to the canvas.
pub open spec fn blitted(dst: Seq<u8>, canvas: Canvas, src: Raster, p: Placement) -> Seq<u8> {
    if p.non_empty() {
        rows_painted(dst, canvas, src, p, p.y0(), p.y1(canvas))
    } else {
        dst
    }
}

fn over(s: u8, a: u8, d: u8) -> (r: u8)
    ensures
        r == over_channel(s, a, d),
{
    if a == 255 {
        s
    } else if a == 0 {
        d
    } else {
        let inv: u32 = 255 - a as u32;
        assert(0 <= d * inv <= 255 * 255) by (nonlinear_arith)
            requires
                0 <= d <= 255,
                0 <= inv <= 255,
        ;
        let sum: u32 = s as u32 + (d as u32 * inv) / 255;
        if sum < 255 {
            sum as u8
        } else {
            255
        }
    }
}

fn paint_pixel(dst: &mut [u8], di: usize, src: &[u8], si: usize, format: ShmFormat)
    requires
        si + 4 <= src@.len(),
        di + 4 <= old(dst)@.len(),
    ensures
        final(dst)@ == pixel_painted(old(dst)@, di as int, src@, si as int, format),
{
    let ghost before = dst@;
    let sb: u8 = src[si];
    let sg: u8 = src[si + 1];
    let sr: u8 = src[si + 2];
    let sa: u8 = if format == ShmFormat::Argb8888 {
        src[si + 3]
    } else {
        255
    };
    let b: u8 = over(sb, sa, dst[di]);
    let g: u8 = over(sg, sa, dst[di + 1]);
    let r: u8 = over(sr, sa, dst[di + 2]);
    let a: u8 = over(sa, sa, dst[di + 3]);
    dst[di] = b;
    dst[di + 1] = g;
    dst[di + 2] = r;
    dst[di + 3] = a;
    assert(dst@ =~= pixel_painted(before, di as int, src@, si as int, format));
}

/// Source index of canvas position `(x, y)`, as [`Placement::source_index`].
fn source_index(
    p: &ScaledRect,
    stride: i32,
    x: i32,
    y: i32,
) -> (r: i128)
    requires
        p@.non_empty(),
        x >= p.off_x,
        y >= p.off_y,
    ensures
        r == p@.source_index(stride as int, x as int, y as int),
{
    let ry: i128 = y as i128 - p.off_y as i128;
    let rx: i128 = x as i128 - p.off_x as i128;
    let ghost (sh, sw, dh, dw) = (p.sh as int, p.sw as int, p.dh as int, p.dw as int);
    assert(0 <= ry * sh <= 0x1_0000_0000 * 0x8000_0000) by (nonlinear_arith)
        requires
            0 <= ry <= 0x1_0000_0000,
            0 < sh <= 0x8000_0000,
    ;
    assert(0 <= rx * sw <= 0x1_0000_0000 * 0x8000_0000) by (nonlinear_arith)
        requires
            0 <= rx <= 0x1_0000_0000,
            0 < sw <= 0x8000_0000,
    ;
    let qy: i128 = ry * p.sh as i128;
    let qx: i128 = rx * p.sw as i128;
    assert(0 <= qy / (dh as i128) <= qy) by (nonlinear_arith)
        requires
            0 <= qy,
            0 < dh <= 0x8000_0000,
    ;
    assert(0 <= qx / (dw as i128) <= qx) by (nonlinear_arith)
        requires
            0 <= qx,
            0 < dw <= 0x8000_0000,
    ;
    let src_y: i128 = p.sy as i128 + qy / p.dh as i128;
    let src_x: i128 = p.sx as i128 + qx / p.dw as i128;
    assert(-0x2_0000_0000_0000_0000_0000_0000 <= src_y * (stride as int)
        <= 0x2_0000_0000_0000_0000_0000_0000) by (nonlinear_arith)
        requires
            -0x1_0000_0000_0000_0000 <= src_y <= 0x1_0000_0000_0000_0000,
            -0x8000_0000 <= (stride as int) <= 0x8000_0000,
    ;
    src_y * stride as i128 + src_x * 4
}

/// Executable counterpart of [`Placement`].
struct ScaledRect {
    off_x: i32,
    off_y: i32,
    sx: i32,
    sy: i32,
    sw: i32,
    sh: i32,
    dw: i32,
    dh: i32,
}

impl View for ScaledRect {
    type V = Placement;

    closed spec fn view(&self) -> Placement {
        Placement {
            off_x: self.off_x as int,
            off_y: self.off_y as int,
            sx: self.sx as int,
            sy: self.sy as int,
            sw: self.sw as int,
            sh: self.sh as int,
            dw: self.dw as int,
            dh: self.dh as int,
        }
    }
}

fn clip(off: i32, len: i32, limit: i32) -> (r: (i32, i32))
    ensures
        r.0 == max_int(off as int, 0),
        len > 0 ==> r.1 == min_int(off + len, limit as int),
{
    let lo: i32 = if off > 0 {
        off
    } else {
        0
    };
    let hi: i64 = off as i64 + len as i64;
    if hi <= limit as i64 && len > 0 {
        (lo, hi as i32)
    } else {
        (lo, limit)
    }
}

fn blit(
    dst: &mut [u8],
    dst_w: i32,
    dst_h: i32,
    dst_stride: i32,
    src: &[u8],
    src_stride: i32,
    format: ShmFormat,
    p: &ScaledRect,
)
    ensures
        final(dst)@ == blitted(
            old(dst)@,
            (Canvas { width: dst_w as int, height: dst_h as int, stride: dst_stride as int }),
            (Raster { bytes: src@, stride: src_stride as int, format }),
            p@,
        ),
{
    let ghost canvas = Canvas {
        width: dst_w as int,
        height: dst_h as int,
        stride: dst_stride as int,
    };
    let ghost raster = Raster { bytes: src@, stride: src_stride as int, format };
    if p.sw <= 0 || p.sh <= 0 || p.dw <= 0 || p.dh <= 0 {
        return;
    }
    let ghost before = dst@;
    let (x0, x1) = clip(p.off_x, p.dw, dst_w);
    let (y0, y1) = clip(p.off_y, p.dh, dst_h);
    if y1 <= y0 {
        return;
    }
    let mut y: i32 = y0;
    while y < y1
        invariant
            y0 <= y <= y1,
            0 <= y0,
            p.off_y <= y0,
            p@.non_empty(),
            x0 == p@.x0(),
            x1 == p@.x1(canvas),
            y0 == p@.y0(),
            canvas.stride == dst_stride,
            raster == (Raster { bytes: src@, stride: src_stride as int, format }),
            dst@ == rows_painted(before, canvas, raster, p@, y0 as int, y as int),
        decreases y1 - y,
    {
        let ghost above = dst@;
        let mut x: i32 = x0;
        while x < x1
            invariant
                x0 <= x,
                x <= x1 || x == x0,
                0 <= x0,
                0 <= y,
                p.off_x <= x0,
                p.off_y <= y,
                p@.non_empty(),
                canvas.stride == dst_stride,
                raster == (Raster { bytes: src@, stride: src_stride as int, format }),
                dst@ == row_painted(above, canvas, raster, p@, y as int, x0 as int, x as int),
            decreases x1 - x,
        {
            let si: i128 = source_index(p, src_stride, x, y);
            assert(-0x7fff_ffff * 0x8000_0000 <= y * (dst_stride as int) <= 0x7fff_ffff
                * 0x8000_0000) by (nonlinear_arith)
                requires
                    0 <= y <= 0x7fff_ffff,
                    -0x8000_0000 <= (dst_stride as int) <= 0x8000_0000,
            ;
            let di: i128 = y as i128 * dst_stride as i128 + x as i128 * 4;
            if si >= 0 && si <= src.len() as i128 - 4 && di >= 0 && di <= dst.len() as i128 - 4 {
                paint_pixel(dst, di as usize, src, si as usize, format);
            }
            x = x + 1;
        }
        assert(dst@ == row_painted(above, canvas, raster, p@, y as int, x0 as int, x1 as int));
        y = y + 1;
    }
}


/// Source-over blit of an unscaled buffer at `(off_x, off_y)`. ARGB pixels are
/// premultiplied, as Wayland guarantees for `wl_shm` buffers; every other
/// format is opaque. The source is clipped to the canvas, and pixels that lie
/// outside either byte buffer are skipped.
pub fn blit_over(
    dst: &mut [u8],
    dst_w: i32,
    dst_h: i32,
    dst_stride: i32,
    off_x: i32,
    off_y: i32,
    src: &[u8],
    src_w: i32,
    src_h: i32,
    src_stride: i32,
    format: ShmFormat,
)
    ensures
        final(dst)@ == blitted(
            old(dst)@,
            (Canvas { width: dst_w as int, height: dst_h as int, stride: dst_stride as int }),
            (Raster { bytes: src@, stride: src_stride as int, format }),
            Placement::plain(off_x as int, off_y as int, src_w as int, src_h as int),
        ),
{
    let p = ScaledRect {
        off_x,
        off_y,
        sx: 0,
        sy: 0,
        sw: src_w,
        sh: src_h,
        dw: src_w,
        dh: src_h,
    };
    blit(dst, dst_w, dst_h, dst_stride, src, src_stride, format, &p);
}

/// Viewport blit: crops `(sx, sy, sw, sh)` out of the source and scales it to
/// `dw` x `dh` at `(off_x, off_y)` by nearest-neighbour sampling.
pub fn blit_viewport(
    dst: &mut [u8],
    dst_w: i32,
    dst_h: i32,
    dst_stride: i32,
    off_x: i32,
    off_y: i32,
    src: &[u8],
    src_stride: i32,
    format: ShmFormat,
    sx: i32,
    sy: i32,
    sw: i32,
    sh: i32,
    dw: i32,
    dh: i32,
)
    ensures
        final(dst)@ == blitted(
            old(dst)@,
            (Canvas { width: dst_w as int, height: dst_h as int, stride: dst_stride as int }),
            (Raster { bytes: src@, stride: src_stride as int, format }),
            (Placement {
                off_x: off_x as int,
                off_y: off_y as int,
                sx: sx as int,
                sy: sy as int,
                sw: sw as int,
                sh: sh as int,
                dw: dw as int,
                dh: dh as int,
            }),
        ),
{
    let p = ScaledRect { off_x, off_y, sx, sy, sw, sh, dw, dh };
    blit(dst, dst_w, dst_h, dst_stride, src, src_stride, format, &p);
}


/// A subsurface at a position relative to its parent.
pub struct PlacedSurface {
    pub surface: SurfaceNode,
    pub x: i32,
    pub y: i32,
}

/// What a capture needs of a surface: its committed buffer, its viewport and
/// its subsurfaces, bottom to top.
pub struct SurfaceNode {
    pub viewport: ViewportData,
    pub buffer: Option<BufferKind>,
    pub children: Vec<PlacedSurface>,
}

impl SurfaceNode {
    /// Pixels of the committed buffer.
    pub open spec fn pixels(&self) -> Option<Pixels> {
        match self.buffer {
            Some(b) => b.pixels(),
            None => None,
        }
    }

    /// The crop rectangle in whole buffer pixels.
    pub open spec fn source_rect(&self, px: Pixels) -> (int, int, int, int) {
        match self.viewport.src {
            Some((x, y, w, h)) => (x.whole(), y.whole(), w.whole(), h.whole()),
            None => (0, 0, px.width, px.height),
        }
    }

    /// Where the surface's own buffer lands. A crop that starts at the origin
    /// and is not scaled shows the whole buffer.
    pub open spec fn placement(&self, px: Pixels, off_x: int, off_y: int) -> Placement {
        let (sx, sy, sw, sh) = self.source_rect(px);
        let (dw, dh) = match self.viewport.dst {
            Some((w, h)) => (w as int, h as int),
            None => (sw, sh),
        };
        if sw == dw && sh == dh && sx == 0 && sy == 0 {
            Placement::plain(off_x, off_y, px.width, px.height)
        } else {
            Placement { off_x, off_y, sx, sy, sw, sh, dw, dh }
        }
    }

    /// The canvas after the surface's own buffer was drawn.
    pub open spec fn own_drawn(&self, dst: Seq<u8>, canvas: Canvas, off_x: int, off_y: int) -> Seq<
        u8,
    > {
        match self.pixels() {
            Some(px) => blitted(
                dst,
                canvas,
                Raster { bytes: px.bytes, stride: px.stride, format: px.format },
                self.placement(px, off_x, off_y),
            ),
            None => dst,
        }
    }

    /// Whether every surface below this one has a position that fits `i32`
    /// when this one stands at `(off_x, off_y)`.
    pub open spec fn offsets_fit(&self, off_x: int, off_y: int) -> bool
        decreases self,
    {
        forall|i: int|
            0 <= i < self.children@.len() ==> {
                let c = #[trigger] self.children@[i];
                &&& i32::MIN <= off_x + c.x <= i32::MAX
                &&& i32::MIN <= off_y + c.y <= i32::MAX
                &&& c.surface.offsets_fit(off_x + c.x, off_y + c.y)
            }
    }
}

/// The canvas after `node` and everything below it was drawn at
/// `(off_x, off_y)`: the surface itself first, then its children in order.
pub open spec fn tree_drawn(
    dst: Seq<u8>,
    canvas: Canvas,
    node: SurfaceNode,
    off_x: int,
    off_y: int,
) -> Seq<u8>
    decreases node, node.children@.len() + 1,
{
    children_drawn(
        node.own_drawn(dst, canvas, off_x, off_y),
        canvas,
        node,
        node.children@.len() as int,
        off_x,
        off_y,
    )
}

/// `dst` after the first `n` children of `node` were drawn on it.
pub open spec fn children_drawn(
    dst: Seq<u8>,
    canvas: Canvas,
    node: SurfaceNode,
    n: int,
    off_x: int,
    off_y: int,
) -> Seq<u8>
    decreases node, n,
{
    if n <= 0 || n > node.children@.len() {
        dst
    } else {
        let c = node.children@[n - 1];
        tree_drawn(
            children_drawn(dst, canvas, node, n - 1, off_x, off_y),
            canvas,
            c.surface,
            off_x + c.x,
            off_y + c.y,
        )
    }
}

/// Draws `surface` and its descendants onto `dst` at `(off_x, off_y)`.
pub fn composite_into(
    dst: &mut [u8],
    dst_w: i32,
    dst_h: i32,
    dst_stride: i32,
    surface: &SurfaceNode,
    off_x: i32,
    off_y: i32,
)
    requires
        surface.offsets_fit(off_x as int, off_y as int),
    ensures
        final(dst)@ == tree_drawn(
            old(dst)@,
            (Canvas { width: dst_w as int, height: dst_h as int, stride: dst_stride as int }),
            *surface,
            off_x as int,
            off_y as int,
        ),
    decreases surface,
{
    let ghost canvas = Canvas {
        width: dst_w as int,
        height: dst_h as int,
        stride: dst_stride as int,
    };
    let ghost before = dst@;
    if let Some(kind) = &surface.buffer {
        if let Some(v) = kind.with_bytes() {
            let (sx, sy, sw, sh): (i32, i32, i32, i32) = match surface.viewport.src {
                Some((x, y, w, h)) => (x.trunc(), y.trunc(), w.trunc(), h.trunc()),
                None => (0, 0, v.width, v.height),
            };
            let (dw, dh): (i32, i32) = match surface.viewport.dst {
                Some((w, h)) => (w, h),
                None => (sw, sh),
            };
            if sw == dw && sh == dh && sx == 0 && sy == 0 {
                blit_over(
                    dst,
                    dst_w,
                    dst_h,
                    dst_stride,
                    off_x,
                    off_y,
                    v.bytes,
                    v.width,
                    v.height,
                    v.stride,
                    v.format,
                );
            } else {
                blit_viewport(
                    dst,
                    dst_w,
                    dst_h,
                    dst_stride,
                    off_x,
                    off_y,
                    v.bytes,
                    v.stride,
                    v.format,
                    sx,
                    sy,
                    sw,
                    sh,
                    dw,
                    dh,
                );
            }
        }
    }
    assert(dst@ == surface.own_drawn(before, canvas, off_x as int, off_y as int));
    let ghost own = dst@;
    let n: usize = surface.children.len();
    let mut i: usize = 0;
    while i < n
        invariant
            n == surface.children@.len(),
            i <= n,
            canvas == (Canvas {
                width: dst_w as int,
                height: dst_h as int,
                stride: dst_stride as int,
            }),
            surface.offsets_fit(off_x as int, off_y as int),
            dst@ == children_drawn(own, canvas, *surface, i as int, off_x as int, off_y as int),
        decreases n - i,
    {
        let c = &surface.children[i];
        assert(*c == surface.children@[i as int]);
        composite_into(dst, dst_w, dst_h, dst_stride, &c.surface, off_x + c.x, off_y + c.y);
        i = i + 1;
    }
}


/// Tests whether every position in the tree below `surface` fits `i32`.
pub fn offsets_fit(surface: &SurfaceNode, off_x: i32, off_y: i32) -> (r: bool)
    ensures
        r == surface.offsets_fit(off_x as int, off_y as int),
    decreases surface,
{
    let n: usize = surface.children.len();
    let mut i: usize = 0;
    while i < n
        invariant
            n == surface.children@.len(),
            i <= n,
            forall|k: int|
                0 <= k < i ==> {
                    let c = #[trigger] surface.children@[k];
                    &&& i32::MIN <= off_x + c.x <= i32::MAX
                    &&& i32::MIN <= off_y + c.y <= i32::MAX
                    &&& c.surface.offsets_fit(off_x + c.x, off_y + c.y)
                },
        decreases n - i,
    {
        let c = &surface.children[i];
        assert(*c == surface.children@[i as int]);
        let x: i64 = off_x as i64 + c.x as i64;
        let y: i64 = off_y as i64 + c.y as i64;
        if x < i32::MIN as i64 || x > i32::MAX as i64 || y < i32::MIN as i64 || y > i32::MAX as i64 {
            return false;
        }
        if !offsets_fit(&c.surface, x as i32, y as i32) {
            return false;
        }
        i = i + 1;
    }
    true
}

/// A composed frame: tightly packed ARGB8888 rows.
pub struct CompositedFrame {
    pub bytes: Vec<u8>,
    pub width: i32,
    pub height: i32,
    pub stride: i32,
}

/// Size of a surface: the viewport's destination where it is positive, else
/// the buffer's size where that is positive, else the fallback.
pub open spec fn dims(node: SurfaceNode, fallback: (u32, u32)) -> (u32, u32) {
    let buffer_size = match node.buffer {
        Some(b) => match b.size() {
            Some((w, h)) => if w > 0 && h > 0 {
                (w as u32, h as u32)
            } else {
                fallback
            },
            None => fallback,
        },
        None => fallback,
    };
    match node.viewport.dst {
        Some((w, h)) => if w > 0 && h > 0 {
            (w as u32, h as u32)
        } else {
            buffer_size
        },
        None => buffer_size,
    }
}

/// Size of the canvas for `node`. A root under four pixels in either direction
/// (a one-pixel background with all content in subsurfaces) gets the fallback
/// size, so that the tree below it is not clipped away.
pub open spec fn canvas_dims(node: SurfaceNode, fallback: (u32, u32)) -> (u32, u32) {
    let (w, h) = dims(node, fallback);
    if w < 4 || h < 4 {
        fallback
    } else {
        (w, h)
    }
}

/// Whether the frame of a root that has an extent fits the machine.
pub open spec fn frame_fits(node: SurfaceNode, fallback: (u32, u32)) -> bool {
    let (w, h) = canvas_dims(node, fallback);
    dims(node, fallback).0 != 0 && dims(node, fallback).1 != 0 ==> {
        &&& w * 4 <= i32::MAX
        &&& h <= i32::MAX
        &&& h * (w * 4) <= usize::MAX
    }
}

/// Size of a surface's committed content, see [`dims`].
pub fn surface_dims(root: &SurfaceNode, fallback: (u32, u32)) -> (r: (u32, u32))
    ensures
        r == dims(*root, fallback),
{
    if let Some((w, h)) = root.viewport.dst {
        if w > 0 && h > 0 {
            return (w as u32, h as u32);
        }
    }
    let size: Option<(i32, i32)> = match &root.buffer {
        Some(BufferKind::Shm(s)) => Some((s.width, s.height)),
        Some(BufferKind::Dmabuf(d, _)) => Some((d.width, d.height)),
        Some(BufferKind::SinglePixel(_)) => Some((1, 1)),
        Some(BufferKind::Invalid) => None,
        None => None,
    };
    match size {
        Some((w, h)) => if w > 0 && h > 0 {
            (w as u32, h as u32)
        } else {
            fallback
        },
        None => fallback,
    }
}

/// `len` transparent black bytes.
pub open spec fn cleared(len: nat) -> Seq<u8> {
    Seq::new(len, |i: int| 0u8)
}

/// The frame of `w` x `h` pixels that `root` composes to.
pub open spec fn frame_bytes(root: SurfaceNode, w: int, h: int) -> Seq<u8> {
    tree_drawn(
        cleared((h * (w * 4)) as nat),
        Canvas { width: w, height: h, stride: w * 4 },
        root,
        0,
        0,
    )
}

/// Composes `root` into a slice of exactly `h` rows of `w * 4` bytes, which is
/// cleared first. Returns false, and leaves the slice alone, where its length
/// differs or where `root` has no buffer.
pub fn composite_into_slice(root: &SurfaceNode, output: &mut [u8], w: i32, h: i32) -> (r: bool)
    requires
        w >= 0,
        h >= 0,
        w * 4 <= i32::MAX,
        root.offsets_fit(0, 0),
    ensures
        r == (root.buffer is Some && old(output)@.len() == h * (w * 4)),
        r ==> final(output)@ == frame_bytes(*root, w as int, h as int),
        !r ==> final(output)@ == old(output)@,
{
    let stride: i32 = w * 4;
    assert(0 <= h * stride <= 0x7fff_ffff * 0x7fff_ffff) by (nonlinear_arith)
        requires
            0 <= h <= 0x7fff_ffff,
            0 <= stride <= 0x7fff_ffff,
    ;
    let expected: u64 = h as u64 * stride as u64;
    let n: usize = output.len();
    if root.buffer.is_none() || n as u64 != expected {
        return false;
    }
    let mut i: usize = 0;
    while i < n
        invariant
            n == output@.len(),
            i <= n,
            forall|k: int| 0 <= k < i ==> output@[k] == 0,
        decreases n - i,
    {
        output[i] = 0;
        i = i + 1;
    }
    assert(output@ =~= cleared((h * (w * 4)) as nat));
    composite_into(output, w, h, stride, root, 0, 0);
    true
}

/// Composes into `buf`, which is resized to the frame, and returns the frame's
/// `(width, height, stride)`. A root without any extent gives `None` and leaves
/// `buf` alone.
pub fn composite_into_buf(root: &SurfaceNode, buf: &mut Vec<u8>, fallback_size: (u32, u32)) -> (r:
    Option<(i32, i32, i32)>)
    requires
        root.offsets_fit(0, 0),
        frame_fits(*root, fallback_size),
    ensures
        dims(*root, fallback_size).0 == 0 || dims(*root, fallback_size).1 == 0 ==> r is None
            && final(buf)@ == old(buf)@,
        dims(*root, fallback_size).0 != 0 && dims(*root, fallback_size).1 != 0 ==> {
            let (w, h) = canvas_dims(*root, fallback_size);
            &&& r == Some((w as i32, h as i32, (w * 4) as i32))
            &&& final(buf)@ == frame_bytes(*root, w as int, h as int)
        },
{
    let (surf_w, surf_h) = surface_dims(root, fallback_size);
    if surf_w == 0 || surf_h == 0 {
        return None;
    }
    let (w, h): (u32, u32) = if surf_w < 4 || surf_h < 4 {
        (fallback_size.0, fallback_size.1)
    } else {
        (surf_w, surf_h)
    };
    let w: i32 = w as i32;
    let h: i32 = h as i32;
    let stride: i32 = w * 4;
    assert(h * stride >= 0) by (nonlinear_arith)
        requires
            0 <= h,
            0 <= stride,
    ;
    let needed: usize = h as usize * stride as usize;
    buf.clear();
    buf.resize(needed, 0);
    assert(buf@ =~= cleared((h * (w * 4)) as nat));
    composite_into(buf.as_mut_slice(), w, h, stride, root, 0, 0);
    Some((w, h, stride))
}

/// Composes `root` and its descendants into a fresh frame.
pub fn composite(root: &SurfaceNode, fallback_size: (u32, u32)) -> (r: Option<CompositedFrame>)
    requires
        root.offsets_fit(0, 0),
        frame_fits(*root, fallback_size),
    ensures
        r is None <==> dims(*root, fallback_size).0 == 0 || dims(*root, fallback_size).1 == 0,
        r matches Some(f) ==> {
            let (w, h) = canvas_dims(*root, fallback_size);
            &&& f.width == w
            &&& f.height == h
            &&& f.stride == w * 4
            &&& f.bytes@ == frame_bytes(*root, w as int, h as int)
        },
{
    let mut bytes: Vec<u8> = Vec::new();
    match composite_into_buf(root, &mut bytes, fallback_size) {
        Some((width, height, stride)) => Some(CompositedFrame { bytes, width, height, stride }),
        None => None,
    }
}


/// What byte `k` of the canvas pixel at `di` becomes when the source pixel at
/// `si` is painted on it.
pub open spec fn painted_byte(dst: Seq<u8>, di: int, k: int, src: Raster, si: int) -> u8 {
    if 0 <= si && si + 4 <= src.bytes.len() && 0 <= di && di + 4 <= dst.len() {
        over_channel(
            source_channel(src.bytes, si, src.format, k - di),
            source_channel(src.bytes, si, src.format, 3),
            dst[k],
        )
    } else {
        dst[k]
    }
}

proof fn lemma_row(
    dst: Seq<u8>,
    canvas: Canvas,
    src: Raster,
    p: Placement,
    y: int,
    x0: int,
    x1: int,
    x: int,
    k: int,
)
    requires
        0 <= k < dst.len(),
        y * canvas.stride + x * 4 <= k < y * canvas.stride + x * 4 + 4,
    ensures
        row_painted(dst, canvas, src, p, y, x0, x1).len() == dst.len(),
        row_painted(dst, canvas, src, p, y, x0, x1)[k] == if x0 <= x < x1 {
            painted_byte(
                dst,
                y * canvas.stride + x * 4,
                k,
                src,
                p.source_index(src.stride, x, y),
            )
        } else {
            dst[k]
        },
    decreases x1 - x0,
{
    if x0 < x1 {
        lemma_row(dst, canvas, src, p, y, x0, x1 - 1, x, k);
    }
}

proof fn lemma_row_elsewhere(
    dst: Seq<u8>,
    canvas: Canvas,
    src: Raster,
    p: Placement,
    y: int,
    x0: int,
    x1: int,
    k: int,
)
    requires
        0 <= k < dst.len(),
        k < y * canvas.stride + x0 * 4 || k >= y * canvas.stride + x1 * 4,
    ensures
        row_painted(dst, canvas, src, p, y, x0, x1).len() == dst.len(),
        row_painted(dst, canvas, src, p, y, x0, x1)[k] == dst[k],
    decreases x1 - x0,
{
    if x0 < x1 {
        lemma_row_elsewhere(dst, canvas, src, p, y, x0, x1 - 1, k);
    }
}

proof fn lemma_rows(
    dst: Seq<u8>,
    canvas: Canvas,
    src: Raster,
    p: Placement,
    y0: int,
    y1: int,
    x: int,
    y: int,
    k: int,
)
    requires
        canvas.width * 4 <= canvas.stride,
        0 <= x < canvas.width,
        0 <= k < dst.len(),
        y * canvas.stride + x * 4 <= k < y * canvas.stride + x * 4 + 4,
    ensures
        rows_painted(dst, canvas, src, p, y0, y1).len() == dst.len(),
        rows_painted(dst, canvas, src, p, y0, y1)[k] == if y0 <= y < y1 && p.x0() <= x < p.x1(
            canvas,
        ) {
            painted_byte(
                dst,
                y * canvas.stride + x * 4,
                k,
                src,
                p.source_index(src.stride, x, y),
            )
        } else {
            dst[k]
        },
    decreases y1 - y0,
{
    if y0 < y1 {
        lemma_rows(dst, canvas, src, p, y0, y1 - 1, x, y, k);
        let above = rows_painted(dst, canvas, src, p, y0, y1 - 1);
        if y == y1 - 1 {
            lemma_row(above, canvas, src, p, y, p.x0(), p.x1(canvas), x, k);
        } else {
            let last = y1 - 1;
            let stride = canvas.stride;
            if y < last {
                assert((y + 1) * stride <= last * stride) by (nonlinear_arith)
                    requires
                        y + 1 <= last,
                        0 <= stride,
                ;
                assert((y + 1) * stride == y * stride + stride) by (nonlinear_arith);
            } else {
                assert((last + 1) * stride <= y * stride) by (nonlinear_arith)
                    requires
                        last + 1 <= y,
                        0 <= stride,
                ;
                assert((last + 1) * stride == last * stride + stride) by (nonlinear_arith);
            }
            lemma_row_elsewhere(above, canvas, src, p, last, p.x0(), p.x1(canvas), k);
        }
    }
}

/// On a canvas whose rows do not overlap, a blit changes exactly the pixels
/// its placement covers, and each of those to the blend of its own old value
/// with the one source pixel shown there.
pub proof fn blit_is_pixelwise(
    dst: Seq<u8>,
    canvas: Canvas,
    src: Raster,
    p: Placement,
    x: int,
    y: int,
    k: int,
)
    requires
        canvas.width * 4 <= canvas.stride,
        0 <= x < canvas.width,
        0 <= y < canvas.height,
        0 <= k < dst.len(),
        y * canvas.stride + x * 4 <= k < y * canvas.stride + x * 4 + 4,
    ensures
        blitted(dst, canvas, src, p)[k] == if p.covers(canvas, x, y) {
            painted_byte(
                dst,
                y * canvas.stride + x * 4,
                k,
                src,
                p.source_index(src.stride, x, y),
            )
        } else {
            dst[k]
        },
{
    if p.non_empty() {
        lemma_rows(dst, canvas, src, p, p.y0(), p.y1(canvas), x, y, k);
    }
}

/// An opaque source pixel replaces whatever was on the canvas: the colour is
/// the source's and the pixel becomes opaque, also for formats without alpha.
pub proof fn opaque_pixel_overwrites(
    dst: Seq<u8>,
    canvas: Canvas,
    src: Raster,
    p: Placement,
    x: int,
    y: int,
    k: int,
)
    requires
        canvas.width * 4 <= canvas.stride,
        0 <= x < canvas.width,
        0 <= y < canvas.height,
        y * canvas.stride + x * 4 <= k < y * canvas.stride + x * 4 + 4,
        0 <= y * canvas.stride + x * 4,
        y * canvas.stride + x * 4 + 4 <= dst.len(),
        p.covers(canvas, x, y),
        0 <= p.source_index(src.stride, x, y),
        p.source_index(src.stride, x, y) + 4 <= src.bytes.len(),
        source_channel(src.bytes, p.source_index(src.stride, x, y), src.format, 3) == 255,
    ensures
        blitted(dst, canvas, src, p)[k] == source_channel(
            src.bytes,
            p.source_index(src.stride, x, y),
            src.format,
            k - (y * canvas.stride + x * 4),
        ),
{
    blit_is_pixelwise(dst, canvas, src, p, x, y, k);
}

proof fn lemma_row_identity(
    dst: Seq<u8>,
    canvas: Canvas,
    src: Raster,
    p: Placement,
    y: int,
    x0: int,
    x1: int,
)
    requires
        forall|x: int|
            #![trigger p.source_index(src.stride, x, y)]
            x0 <= x < x1 ==> source_channel(
                src.bytes,
                p.source_index(src.stride, x, y),
                src.format,
                3,
            ) == 0,
    ensures
        row_painted(dst, canvas, src, p, y, x0, x1) == dst,
    decreases x1 - x0,
{
    if x0 < x1 {
        lemma_row_identity(dst, canvas, src, p, y, x0, x1 - 1);
        let si = p.source_index(src.stride, x1 - 1, y);
        assert(pixel_painted(dst, y * canvas.stride + (x1 - 1) * 4, src.bytes, si, src.format)
            =~= dst);
    }
}

proof fn lemma_rows_identity(
    dst: Seq<u8>,
    canvas: Canvas,
    src: Raster,
    p: Placement,
    y0: int,
    y1: int,
)
    requires
        forall|x: int, y: int|
            #![trigger p.source_index(src.stride, x, y)]
            p.x0() <= x < p.x1(canvas) && y0 <= y < y1 ==> source_channel(
                src.bytes,
                p.source_index(src.stride, x, y),
                src.format,
                3,
            ) == 0,
    ensures
        rows_painted(dst, canvas, src, p, y0, y1) == dst,
    decreases y1 - y0,
{
    if y0 < y1 {
        lemma_rows_identity(dst, canvas, src, p, y0, y1 - 1);
        lemma_row_identity(dst, canvas, src, p, y1 - 1, p.x0(), p.x1(canvas));
    }
}

/// A source that is fully transparent wherever it is shown leaves the canvas
/// as it was.
pub proof fn transparent_blit_changes_nothing(
    dst: Seq<u8>,
    canvas: Canvas,
    src: Raster,
    p: Placement,
)
    requires
        forall|x: int, y: int|
            #![trigger p.source_index(src.stride, x, y)]
            p.covers(canvas, x, y) ==> source_channel(
                src.bytes,
                p.source_index(src.stride, x, y),
                src.format,
                3,
            ) == 0,
    ensures
        blitted(dst, canvas, src, p) == dst,
{
    if p.non_empty() {
        lemma_rows_identity(dst, canvas, src, p, p.y0(), p.y1(canvas));
    }
}

proof fn lemma_blit_length(dst: Seq<u8>, canvas: Canvas, src: Raster, p: Placement, y0: int, y1: int)
    ensures
        rows_painted(dst, canvas, src, p, y0, y1).len() == dst.len(),
    decreases y1 - y0,
{
    if y0 < y1 {
        lemma_blit_length(dst, canvas, src, p, y0, y1 - 1);
        lemma_row_length(
            rows_painted(dst, canvas, src, p, y0, y1 - 1),
            canvas,
            src,
            p,
            y1 - 1,
            p.x0(),
            p.x1(canvas),
        );
    }
}

/// A blit never grows or shrinks the canvas.
pub proof fn blits_keep_length(dst: Seq<u8>, canvas: Canvas, src: Raster, p: Placement)
    ensures
        blitted(dst, canvas, src, p).len() == dst.len(),
{
    lemma_blit_length(dst, canvas, src, p, p.y0(), p.y1(canvas));
}

proof fn lemma_row_length(
    dst: Seq<u8>,
    canvas: Canvas,
    src: Raster,
    p: Placement,
    y: int,
    x0: int,
    x1: int,
)
    ensures
        row_painted(dst, canvas, src, p, y, x0, x1).len() == dst.len(),
    decreases x1 - x0,
{
    if x0 < x1 {
        lemma_row_length(dst, canvas, src, p, y, x0, x1 - 1);
    }
}

/// Drawing children never grows or shrinks the canvas.
pub proof fn lemma_children_length(
    dst: Seq<u8>,
    canvas: Canvas,
    node: SurfaceNode,
    n: int,
    off_x: int,
    off_y: int,
)
    ensures
        children_drawn(dst, canvas, node, n, off_x, off_y).len() == dst.len(),
    decreases node, n,
{
    if 0 < n <= node.children@.len() {
        let c = node.children@[n - 1];
        lemma_children_length(dst, canvas, node, n - 1, off_x, off_y);
        composition_keeps_length(
            children_drawn(dst, canvas, node, n - 1, off_x, off_y),
            canvas,
            c.surface,
            off_x + c.x,
            off_y + c.y,
        );
    }
}

/// Drawing a tree never grows or shrinks the canvas.
pub proof fn composition_keeps_length(
    dst: Seq<u8>,
    canvas: Canvas,
    node: SurfaceNode,
    off_x: int,
    off_y: int,
)
    ensures
        tree_drawn(dst, canvas, node, off_x, off_y).len() == dst.len(),
    decreases node, node.children@.len() + 1,
{
    let own = node.own_drawn(dst, canvas, off_x, off_y);
    if let Some(px) = node.pixels() {
        let p = node.placement(px, off_x, off_y);
        let src = Raster { bytes: px.bytes, stride: px.stride, format: px.format };
        blits_keep_length(dst, canvas, src, p);
    }
    lemma_children_length(own, canvas, node, node.children@.len() as int, off_x, off_y);
}

} // verus!
