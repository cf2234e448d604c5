//! What a composed frame shows at each position: which surface is visible
//! there, and which of its bytes.

use vstd::prelude::*;

#[allow(unused_imports)]
use crate::buffer::{BufferKind, ShmBufferData, ShmFormat};
#[allow(unused_imports)]
use crate::composite::{
    blit_is_pixelwise, blit_over, blit_viewport, blits_keep_length, blitted, canvas_dims,
    children_drawn, lemma_children_length, composite, composite_into, composite_into_buf, composite_into_slice,
    composition_keeps_length, dims, frame_bytes, frame_fits, surface_dims, tree_drawn, Canvas,
    CompositedFrame, Placement, Raster, SurfaceNode,
};

verus! {

/// Whether a surface, or one below it, has a rectangle over `(x, y)` when the
/// surface stands at `(off_x, off_y)`.
pub open spec fn reaches(node: SurfaceNode, off_x: int, off_y: int, x: int, y: int) -> bool
    decreases node,
{
    ||| node.pixels() matches Some(px) && {
        let p = node.placement(px, off_x, off_y);
        off_x <= x < off_x + p.dw && off_y <= y < off_y + p.dh
    }
    ||| exists|i: int|
        0 <= i < node.children@.len() && {
            let c = #[trigger] node.children@[i];
            reaches(c.surface, off_x + c.x, off_y + c.y, x, y)
        }
}

/// An unscaled blit shows each source pixel at its own place, moved by the
/// offset: opaque pixels as they are, transparent ones not at all, and those
/// between as the source plus what it lets through of the canvas. Nothing is
/// drawn outside the source's rectangle.
pub proof fn plain_blits_show_each_pixel_in_its_place(
    dst: Seq<u8>,
    canvas: Canvas,
    src: Raster,
    off_x: int,
    off_y: int,
    w: int,
    h: int,
    x: int,
    y: int,
    c: int,
)
    requires
        canvas.width * 4 <= canvas.stride,
        0 <= x < canvas.width,
        0 <= y < canvas.height,
        0 <= c < 4,
        y * canvas.stride + x * 4 + 4 <= dst.len(),
    ensures
        ({
            let at = y * canvas.stride + x * 4;
            let from = (y - off_y) * src.stride + (x - off_x) * 4;
            let shown = off_x <= x < off_x + w && off_y <= y < off_y + h && 0 <= from && from + 4
                <= src.bytes.len();
            let alpha = if src.format == ShmFormat::Argb8888 {
                src.bytes[from + 3]
            } else {
                255u8
            };
            let out = blitted(dst, canvas, src, Placement::plain(off_x, off_y, w, h))[at + c];
            let through = src.bytes[from + c] + (dst[at + c] * (255 - alpha)) / 255;
            &&& !shown ==> out == dst[at + c]
            &&& shown && alpha == 0 ==> out == dst[at + c]
            &&& shown && alpha == 255 && c < 3 ==> out == src.bytes[from + c]
            &&& shown && alpha == 255 && c == 3 ==> out == 255
            &&& shown && 0 < alpha < 255 && through <= 255 ==> out == through
            &&& shown && 0 < alpha < 255 && through > 255 ==> out == 255
        }),
{
    let at = y * canvas.stride + x * 4;
    lemma_pixel_offset(canvas, x, y);
    let p = Placement::plain(off_x, off_y, w, h);
    blit_is_pixelwise(dst, canvas, src, p, x, y, at + c);
    if off_x <= x < off_x + w && off_y <= y < off_y + h {
        assert(((y - off_y) * h) / h == y - off_y) by (nonlinear_arith)
            requires
                h > 0,
        ;
        assert(((x - off_x) * w) / w == x - off_x) by (nonlinear_arith)
            requires
                w > 0,
        ;
    }
    let from = (y - off_y) * src.stride + (x - off_x) * 4;
    let d = dst[at + c] as int;
    let a = src.bytes[from + 3] as int;
    assert(0 <= (d * (255 - a)) / 255) by (nonlinear_arith)
        requires
            0 <= d,
            0 <= a <= 255,
    ;
}

proof fn lemma_pixel_offset(canvas: Canvas, x: int, y: int)
    requires
        canvas.width * 4 <= canvas.stride,
        0 <= x < canvas.width,
        0 <= y,
    ensures
        0 <= y * canvas.stride + x * 4,
{
    assert(0 <= y * canvas.stride) by (nonlinear_arith)
        requires
            0 <= y,
            0 <= canvas.stride,
    ;
}

/// A scaled blit shows at each position the source pixel that lies over it when
/// the crop rectangle is stretched: column `u` of the crop where `u` times the
/// destination's width has been reached by the position times the crop's width,
/// and column `u + 1` has not; rows likewise.
pub proof fn scaled_blits_show_the_nearest_pixel(
    dst: Seq<u8>,
    canvas: Canvas,
    src: Raster,
    p: Placement,
    x: int,
    y: int,
    u: int,
    v: int,
    c: int,
)
    requires
        canvas.width * 4 <= canvas.stride,
        0 <= x < canvas.width,
        0 <= y < canvas.height,
        0 <= c < 4,
        y * canvas.stride + x * 4 + 4 <= dst.len(),
        p.sw > 0,
        p.sh > 0,
        p.off_x <= x < p.off_x + p.dw,
        p.off_y <= y < p.off_y + p.dh,
        u * p.dw <= (x - p.off_x) * p.sw < (u + 1) * p.dw,
        v * p.dh <= (y - p.off_y) * p.sh < (v + 1) * p.dh,
        0 <= (p.sy + v) * src.stride + (p.sx + u) * 4,
        (p.sy + v) * src.stride + (p.sx + u) * 4 + 4 <= src.bytes.len(),
    ensures
        0 <= u < p.sw,
        0 <= v < p.sh,
        ({
            let at = y * canvas.stride + x * 4;
            let from = (p.sy + v) * src.stride + (p.sx + u) * 4;
            let alpha = if src.format == ShmFormat::Argb8888 {
                src.bytes[from + 3]
            } else {
                255u8
            };
            let out = blitted(dst, canvas, src, p)[at + c];
            let through = src.bytes[from + c] + (dst[at + c] * (255 - alpha)) / 255;
            &&& alpha == 0 ==> out == dst[at + c]
            &&& alpha == 255 && c < 3 ==> out == src.bytes[from + c]
            &&& alpha == 255 && c == 3 ==> out == 255
            &&& 0 < alpha < 255 && through <= 255 ==> out == through
            &&& 0 < alpha < 255 && through > 255 ==> out == 255
        }),
{
    let at = y * canvas.stride + x * 4;
    lemma_pixel_offset(canvas, x, y);
    blit_is_pixelwise(dst, canvas, src, p, x, y, at + c);
    lemma_quotient((x - p.off_x) * p.sw, p.dw, u);
    lemma_quotient((y - p.off_y) * p.sh, p.dh, v);
    lemma_within(x - p.off_x, p.sw, p.dw, u);
    lemma_within(y - p.off_y, p.sh, p.dh, v);
    let from = (p.sy + v) * src.stride + (p.sx + u) * 4;
    let d = dst[at + c] as int;
    let a = src.bytes[from + 3] as int;
    assert(0 <= (d * (255 - a)) / 255) by (nonlinear_arith)
        requires
            0 <= d,
            0 <= a <= 255,
    ;
}

proof fn lemma_quotient(a: int, b: int, q: int)
    requires
        b > 0,
        q * b <= a < (q + 1) * b,
    ensures
        a / b == q,
{
    assert((q + 1) * b == q * b + b) by (nonlinear_arith);
    let r = a - q * b;
    vstd::arithmetic::div_mod::lemma_fundamental_div_mod_converse(a, b, q, r);
}

proof fn lemma_within(i: int, s: int, d: int, u: int)
    requires
        0 <= i < d,
        0 < s,
        u * d <= i * s < (u + 1) * d,
    ensures
        0 <= u < s,
{
    assert(0 <= i * s) by (nonlinear_arith)
        requires
            0 <= i,
            0 < s,
    ;
    assert(u >= 0) by (nonlinear_arith)
        requires
            0 <= i * s < (u + 1) * d,
            0 < d,
    ;
    assert(i * s < d * s) by (nonlinear_arith)
        requires
            i < d,
            0 < s,
    ;
    assert(u < s) by (nonlinear_arith)
        requires
            u * d <= i * s,
            i * s < d * s,
            0 < d,
    ;
}

/// A surface leaves every position alone that neither it nor a surface below it
/// reaches.
pub proof fn surfaces_draw_only_where_they_reach(
    dst: Seq<u8>,
    canvas: Canvas,
    node: SurfaceNode,
    off_x: int,
    off_y: int,
    x: int,
    y: int,
    k: int,
)
    requires
        canvas.width * 4 <= canvas.stride,
        0 <= x < canvas.width,
        0 <= y < canvas.height,
        0 <= k < dst.len(),
        y * canvas.stride + x * 4 <= k < y * canvas.stride + x * 4 + 4,
        !reaches(node, off_x, off_y, x, y),
    ensures
        tree_drawn(dst, canvas, node, off_x, off_y)[k] == dst[k],
    decreases node, node.children@.len() + 1,
{
    lemma_own_elsewhere(dst, canvas, node, off_x, off_y, x, y, k);
    let own = node.own_drawn(dst, canvas, off_x, off_y);
    lemma_children_elsewhere(
        own,
        canvas,
        node,
        node.children@.len() as int,
        0,
        off_x,
        off_y,
        x,
        y,
        k,
    );
}

/// A surface's own buffer leaves every position alone that it does not cover.
proof fn lemma_own_elsewhere(
    dst: Seq<u8>,
    canvas: Canvas,
    node: SurfaceNode,
    off_x: int,
    off_y: int,
    x: int,
    y: int,
    k: int,
)
    requires
        canvas.width * 4 <= canvas.stride,
        0 <= x < canvas.width,
        0 <= y < canvas.height,
        0 <= k < dst.len(),
        y * canvas.stride + x * 4 <= k < y * canvas.stride + x * 4 + 4,
        !reaches(node, off_x, off_y, x, y),
    ensures
        node.own_drawn(dst, canvas, off_x, off_y)[k] == dst[k],
        node.own_drawn(dst, canvas, off_x, off_y).len() == dst.len(),
{
    if let Some(px) = node.pixels() {
        let p = node.placement(px, off_x, off_y);
        let src = Raster { bytes: px.bytes, stride: px.stride, format: px.format };
        blit_is_pixelwise(dst, canvas, src, p, x, y, k);
        blits_keep_length(dst, canvas, src, p);
    }
}

/// Children that do not reach a position do not change it.
proof fn lemma_children_elsewhere(
    dst: Seq<u8>,
    canvas: Canvas,
    node: SurfaceNode,
    n: int,
    first: int,
    off_x: int,
    off_y: int,
    x: int,
    y: int,
    k: int,
)
    requires
        canvas.width * 4 <= canvas.stride,
        0 <= x < canvas.width,
        0 <= y < canvas.height,
        0 <= k < dst.len(),
        y * canvas.stride + x * 4 <= k < y * canvas.stride + x * 4 + 4,
        0 <= first <= n <= node.children@.len(),
        forall|i: int|
            first <= i < n ==> {
                let c = #[trigger] node.children@[i];
                !reaches(c.surface, off_x + c.x, off_y + c.y, x, y)
            },
    ensures
        children_drawn(dst, canvas, node, n, off_x, off_y).len() == dst.len(),
        children_drawn(dst, canvas, node, n, off_x, off_y)[k] == children_drawn(
            dst,
            canvas,
            node,
            first,
            off_x,
            off_y,
        )[k],
    decreases node, n,
{
    lemma_children_length(dst, canvas, node, n, off_x, off_y);
    if first < n {
        let c = node.children@[n - 1];
        lemma_children_elsewhere(dst, canvas, node, n - 1, first, off_x, off_y, x, y, k);
        surfaces_draw_only_where_they_reach(
            children_drawn(dst, canvas, node, n - 1, off_x, off_y),
            canvas,
            c.surface,
            off_x + c.x,
            off_y + c.y,
            x,
            y,
            k,
        );
    }
}

/// Of the children of a surface, the one later in the list is drawn over the
/// earlier ones and over the surface itself: where child `j` turns a position
/// into `shown` whatever was there before, and no later child reaches it, the
/// composed position is `shown`.
pub proof fn later_children_lie_over_earlier_ones(
    dst: Seq<u8>,
    canvas: Canvas,
    node: SurfaceNode,
    off_x: int,
    off_y: int,
    j: int,
    x: int,
    y: int,
    k: int,
    shown: u8,
)
    requires
        canvas.width * 4 <= canvas.stride,
        0 <= x < canvas.width,
        0 <= y < canvas.height,
        0 <= k < dst.len(),
        y * canvas.stride + x * 4 <= k < y * canvas.stride + x * 4 + 4,
        0 <= j < node.children@.len(),
        forall|below: Seq<u8>|
            below.len() == dst.len() ==> (#[trigger] tree_drawn(
                below,
                canvas,
                node.children@[j].surface,
                off_x + node.children@[j].x,
                off_y + node.children@[j].y,
            ))[k] == shown,
        forall|i: int|
            j < i < node.children@.len() ==> {
                let c = #[trigger] node.children@[i];
                !reaches(c.surface, off_x + c.x, off_y + c.y, x, y)
            },
    ensures
        tree_drawn(dst, canvas, node, off_x, off_y)[k] == shown,
{
    let own = node.own_drawn(dst, canvas, off_x, off_y);
    if let Some(px) = node.pixels() {
        let p = node.placement(px, off_x, off_y);
        let src = Raster { bytes: px.bytes, stride: px.stride, format: px.format };
        blits_keep_length(dst, canvas, src, p);
    }
    let n = node.children@.len() as int;
    lemma_children_elsewhere(own, canvas, node, n, j + 1, off_x, off_y, x, y, k);
    lemma_children_length(own, canvas, node, j, off_x, off_y);
    let below = children_drawn(own, canvas, node, j, off_x, off_y);
    let c = node.children@[j];
    assert(children_drawn(own, canvas, node, j + 1, off_x, off_y) == tree_drawn(
        below,
        canvas,
        c.surface,
        off_x + c.x,
        off_y + c.y,
    ));
}

/// What an opaque, unscaled shared-memory surface shows at `(x, y)`, channel by
/// channel, when it stands at `(off_x, off_y)`: its own pixel there.
pub open spec fn own_pixel(s: ShmBufferData, off_x: int, off_y: int, x: int, y: int, c: int) -> u8 {
    let from = s.offset + (y - off_y) * s.stride + (x - off_x) * 4;
    if c == 3 {
        255
    } else {
        s.pool@[from + c]
    }
}

/// A surface without a viewport is laid over what is below it where none of its
/// children reaches: a pixel of the format without alpha, or with full alpha, hides
/// what is below; one with no alpha shows it as it was; any other is added to what
/// it lets through. Where the surface ends, what is below is as it was.
pub proof fn surfaces_blend_with_what_is_below(
    dst: Seq<u8>,
    canvas: Canvas,
    node: SurfaceNode,
    s: ShmBufferData,
    off_x: int,
    off_y: int,
    x: int,
    y: int,
    c: int,
)
    requires
        canvas.width * 4 <= canvas.stride,
        0 <= x < canvas.width,
        0 <= y < canvas.height,
        0 <= c < 4,
        y * canvas.stride + x * 4 + 4 <= dst.len(),
        node.buffer == Some(BufferKind::Shm(s)),
        node.viewport.src is None,
        node.viewport.dst is None,
        0 <= s.offset,
        0 < s.height,
        0 < s.stride,
        off_x <= x < off_x + s.width ==> (x - off_x + 1) * 4 <= s.stride,
        s.offset + s.height * s.stride <= s.pool@.len(),
        forall|i: int|
            0 <= i < node.children@.len() ==> {
                let child = #[trigger] node.children@[i];
                !reaches(child.surface, off_x + child.x, off_y + child.y, x, y)
            },
    ensures
        ({
            let at = y * canvas.stride + x * 4;
            let from = s.offset + (y - off_y) * s.stride + (x - off_x) * 4;
            let inside = off_x <= x < off_x + s.width && off_y <= y < off_y + s.height;
            let alpha = if s.format == ShmFormat::Argb8888 {
                s.pool@[from + 3]
            } else {
                255u8
            };
            let out = tree_drawn(dst, canvas, node, off_x, off_y)[at + c];
            let through = s.pool@[from + c] + (dst[at + c] * (255 - alpha)) / 255;
            &&& !inside ==> out == dst[at + c]
            &&& inside && alpha == 0 ==> out == dst[at + c]
            &&& inside && alpha == 255 && c < 3 ==> out == s.pool@[from + c]
            &&& inside && alpha == 255 && c == 3 ==> out == 255
            &&& inside && 0 < alpha < 255 && through <= 255 ==> out == through
            &&& inside && 0 < alpha < 255 && through > 255 ==> out == 255
        }),
{
    let at = y * canvas.stride + x * 4;
    lemma_pixel_offset(canvas, x, y);
    let row = y - off_y;
    let (h, stride) = (s.height as int, s.stride as int);
    assert(0 < h * stride) by (nonlinear_arith)
        requires
            0 < h,
            0 < stride,
    ;
    if 0 <= row < h {
        assert(0 <= row * stride && row * stride + stride <= h * stride) by (nonlinear_arith)
            requires
                0 <= row < h,
                0 < stride,
        ;
    }
    let px = node.pixels()->0;
    let p = node.placement(px, off_x, off_y);
    let src = Raster { bytes: px.bytes, stride: px.stride, format: px.format };
    plain_blits_show_each_pixel_in_its_place(
        dst,
        canvas,
        src,
        off_x,
        off_y,
        s.width as int,
        h,
        x,
        y,
        c,
    );
    blits_keep_length(dst, canvas, src, p);
    let own = node.own_drawn(dst, canvas, off_x, off_y);
    lemma_children_elsewhere(
        own,
        canvas,
        node,
        node.children@.len() as int,
        0,
        off_x,
        off_y,
        x,
        y,
        at + c,
    );
}

/// A surface without a viewport shows its own buffer's pixels where none of its
/// children reaches: the pixel at `(x, y)` is the one `x - off_x` columns and
/// `y - off_y` rows into the buffer, which starts at `offset` in its pool.
pub proof fn surfaces_show_their_own_pixels(
    dst: Seq<u8>,
    canvas: Canvas,
    node: SurfaceNode,
    s: ShmBufferData,
    off_x: int,
    off_y: int,
    x: int,
    y: int,
    c: int,
)
    requires
        canvas.width * 4 <= canvas.stride,
        0 <= x < canvas.width,
        0 <= y < canvas.height,
        0 <= c < 4,
        y * canvas.stride + x * 4 + 4 <= dst.len(),
        node.buffer == Some(BufferKind::Shm(s)),
        node.viewport.src is None,
        node.viewport.dst is None,
        0 <= s.offset,
        s.offset + s.height * s.stride <= s.pool@.len(),
        off_x <= x < off_x + s.width,
        off_y <= y < off_y + s.height,
        (x - off_x + 1) * 4 <= s.stride,
        s.format == ShmFormat::Argb8888 ==> s.pool@[s.offset + (y - off_y) * s.stride + (x - off_x)
            * 4 + 3] == 255,
        forall|i: int|
            0 <= i < node.children@.len() ==> {
                let child = #[trigger] node.children@[i];
                !reaches(child.surface, off_x + child.x, off_y + child.y, x, y)
            },
    ensures
        tree_drawn(dst, canvas, node, off_x, off_y)[y * canvas.stride + x * 4 + c] == own_pixel(
            s,
            off_x,
            off_y,
            x,
            y,
            c,
        ),
{
    surfaces_blend_with_what_is_below(dst, canvas, node, s, off_x, off_y, x, y, c);
}

/// Of two overlapping siblings the one later in the list is visible: where
/// child `j` has an opaque pixel of its own and neither a child of it nor a
/// later sibling reaches, the composed pixel is that pixel, whatever the
/// surface itself and the earlier children show there.
pub proof fn later_siblings_are_visible(
    dst: Seq<u8>,
    canvas: Canvas,
    node: SurfaceNode,
    off_x: int,
    off_y: int,
    j: int,
    s: ShmBufferData,
    x: int,
    y: int,
    c: int,
)
    requires
        canvas.width * 4 <= canvas.stride,
        0 <= x < canvas.width,
        0 <= y < canvas.height,
        0 <= c < 4,
        y * canvas.stride + x * 4 + 4 <= dst.len(),
        0 <= j < node.children@.len(),
        node.children@[j].surface.buffer == Some(BufferKind::Shm(s)),
        node.children@[j].surface.viewport.src is None,
        node.children@[j].surface.viewport.dst is None,
        0 <= s.offset,
        s.offset + s.height * s.stride <= s.pool@.len(),
        ({
            let left = off_x + node.children@[j].x;
            let top = off_y + node.children@[j].y;
            &&& left <= x < left + s.width
            &&& top <= y < top + s.height
            &&& (x - left + 1) * 4 <= s.stride
            &&& s.format == ShmFormat::Argb8888 ==> s.pool@[s.offset + (y - top) * s.stride + (x
                - left) * 4 + 3] == 255
            &&& forall|i: int|
                0 <= i < node.children@[j].surface.children@.len() ==> {
                    let g = #[trigger] node.children@[j].surface.children@[i];
                    !reaches(g.surface, left + g.x, top + g.y, x, y)
                }
        }),
        forall|i: int|
            j < i < node.children@.len() ==> {
                let later = #[trigger] node.children@[i];
                !reaches(later.surface, off_x + later.x, off_y + later.y, x, y)
            },
    ensures
        ({
            let left = off_x + node.children@[j].x;
            let top = off_y + node.children@[j].y;
            tree_drawn(dst, canvas, node, off_x, off_y)[y * canvas.stride + x * 4 + c]
                == if c == 3 {
                255
            } else {
                s.pool@[s.offset + (y - top) * s.stride + (x - left) * 4 + c]
            }
        }),
{
    let child = node.children@[j].surface;
    let left = off_x + node.children@[j].x;
    let top = off_y + node.children@[j].y;
    let k = y * canvas.stride + x * 4 + c;
    let shown = own_pixel(s, left, top, x, y, c);
    lemma_pixel_offset(canvas, x, y);
    assert forall|below: Seq<u8>| below.len() == dst.len() implies (#[trigger] tree_drawn(
        below,
        canvas,
        child,
        left,
        top,
    ))[k] == shown by {
        surfaces_show_their_own_pixels(below, canvas, child, s, left, top, x, y, c);
    }
    later_children_lie_over_earlier_ones(dst, canvas, node, off_x, off_y, j, x, y, k, shown);
}

/// A frame starts out transparent: a position that no surface reaches stays
/// zero in all four channels.
pub proof fn frames_are_transparent_where_nothing_is_drawn(
    root: SurfaceNode,
    w: int,
    h: int,
    x: int,
    y: int,
    c: int,
)
    requires
        0 <= x < w,
        0 <= y < h,
        0 <= c < 4,
        !reaches(root, 0, 0, x, y),
    ensures
        frame_bytes(root, w, h).len() == h * (w * 4),
        frame_bytes(root, w, h)[(y * w + x) * 4 + c] == 0,
{
    let canvas = Canvas { width: w, height: h, stride: w * 4 };
    let clear = crate::composite::cleared((h * (w * 4)) as nat);
    assert(0 <= h * (w * 4)) by (nonlinear_arith)
        requires
            0 <= w,
            0 <= h,
    ;
    lemma_frame_offset(w, h, x, y);
    composition_keeps_length(clear, canvas, root, 0, 0);
    surfaces_draw_only_where_they_reach(clear, canvas, root, 0, 0, x, y, (y * w + x) * 4 + c);
}

proof fn lemma_frame_offset(w: int, h: int, x: int, y: int)
    requires
        0 <= x < w,
        0 <= y < h,
    ensures
        (y * w + x) * 4 == y * (w * 4) + x * 4,
        0 <= (y * w + x) * 4,
        (y * w + x) * 4 + 4 <= h * (w * 4),
{
    assert((y * w + x) * 4 == y * (w * 4) + x * 4) by (nonlinear_arith);
    assert(0 <= y * w) by (nonlinear_arith)
        requires
            0 <= w,
            0 <= y,
    ;
    assert(y * (w * 4) + w * 4 <= h * (w * 4)) by (nonlinear_arith)
        requires
            0 <= w,
            y + 1 <= h,
    ;
}

/// A frame shows its root at the origin: where no child reaches, the pixel in
/// column `x` of row `y` is the root buffer's pixel in that column and row.
pub proof fn frames_show_the_root_at_the_origin(
    root: SurfaceNode,
    s: ShmBufferData,
    w: int,
    h: int,
    x: int,
    y: int,
    c: int,
)
    requires
        0 <= x < w,
        0 <= y < h,
        0 <= c < 4,
        root.buffer == Some(BufferKind::Shm(s)),
        root.viewport.src is None,
        root.viewport.dst is None,
        0 <= s.offset,
        s.offset + s.height * s.stride <= s.pool@.len(),
        x < s.width,
        y < s.height,
        (x + 1) * 4 <= s.stride,
        s.format == ShmFormat::Argb8888 ==> s.pool@[s.offset + y * s.stride + x * 4 + 3] == 255,
        forall|i: int|
            0 <= i < root.children@.len() ==> {
                let child = #[trigger] root.children@[i];
                !reaches(child.surface, child.x as int, child.y as int, x, y)
            },
    ensures
        frame_bytes(root, w, h)[(y * w + x) * 4 + c] == if c == 3 {
            255
        } else {
            s.pool@[s.offset + y * s.stride + x * 4 + c]
        },
{
    let canvas = Canvas { width: w, height: h, stride: w * 4 };
    let clear = crate::composite::cleared((h * (w * 4)) as nat);
    lemma_frame_offset(w, h, x, y);
    surfaces_show_their_own_pixels(clear, canvas, root, s, 0, 0, x, y, c);
}

/// A viewport stretches its crop rectangle over its destination: the position
/// `(x - off_x) / dw` of the way across shows the crop's pixel as far across,
/// rounded down, and rows likewise. Without a crop the whole buffer is
/// stretched, without a destination the crop keeps its size.
pub proof fn viewports_show_their_crop(
    dst: Seq<u8>,
    canvas: Canvas,
    node: SurfaceNode,
    s: ShmBufferData,
    off_x: int,
    off_y: int,
    crop: (int, int, int, int),
    size: (int, int),
    u: int,
    v: int,
    x: int,
    y: int,
    c: int,
)
    requires
        canvas.width * 4 <= canvas.stride,
        0 <= x < canvas.width,
        0 <= y < canvas.height,
        0 <= c < 4,
        y * canvas.stride + x * 4 + 4 <= dst.len(),
        node.buffer == Some(BufferKind::Shm(s)),
        match node.viewport.src {
            None => crop == (0int, 0int, s.width as int, s.height as int),
            Some((left, top, w, h)) => {
                &&& 0 <= left.0 && crop.0 * 256 <= left.0 < crop.0 * 256 + 256
                &&& 0 <= top.0 && crop.1 * 256 <= top.0 < crop.1 * 256 + 256
                &&& 0 <= w.0 && crop.2 * 256 <= w.0 < crop.2 * 256 + 256
                &&& 0 <= h.0 && crop.3 * 256 <= h.0 < crop.3 * 256 + 256
            },
        },
        match node.viewport.dst {
            None => size == (crop.2, crop.3),
            Some((w, h)) => size == (w as int, h as int),
        },
        0 <= s.offset,
        s.offset + s.height * s.stride <= s.pool@.len(),
        crop.2 > 0,
        crop.3 > 0,
        off_x <= x < off_x + size.0,
        off_y <= y < off_y + size.1,
        u * size.0 <= (x - off_x) * crop.2 < (u + 1) * size.0,
        v * size.1 <= (y - off_y) * crop.3 < (v + 1) * size.1,
        0 <= crop.0 + u < s.width,
        0 <= crop.1 + v < s.height,
        (crop.0 + u + 1) * 4 <= s.stride,
        s.format == ShmFormat::Argb8888 ==> s.pool@[s.offset + (crop.1 + v) * s.stride + (crop.0
            + u) * 4 + 3] == 255,
        forall|i: int|
            0 <= i < node.children@.len() ==> {
                let child = #[trigger] node.children@[i];
                !reaches(child.surface, off_x + child.x, off_y + child.y, x, y)
            },
    ensures
        tree_drawn(dst, canvas, node, off_x, off_y)[y * canvas.stride + x * 4 + c] == if c == 3 {
            255
        } else {
            s.pool@[s.offset + (crop.1 + v) * s.stride + (crop.0 + u) * 4 + c]
        },
{
    let at = y * canvas.stride + x * 4;
    lemma_pixel_offset(canvas, x, y);
    let row = crop.1 + v;
    let (h, stride) = (s.height as int, s.stride as int);
    assert(0 <= row * stride && row * stride + stride <= h * stride) by (nonlinear_arith)
        requires
            0 <= row < h,
            0 < stride,
    ;
    assert(0 < h * stride) by (nonlinear_arith)
        requires
            0 < h,
            0 < stride,
    ;
    let px = node.pixels()->0;
    assert(node.source_rect(px) == crop);
    let p = node.placement(px, off_x, off_y);
    let src = Raster { bytes: px.bytes, stride: px.stride, format: px.format };
    if crop.2 == size.0 && crop.3 == size.1 && crop.0 == 0 && crop.1 == 0 {
        lemma_same_place(x - off_x, size.0, u);
        lemma_same_place(y - off_y, size.1, v);
        plain_blits_show_each_pixel_in_its_place(
            dst,
            canvas,
            src,
            off_x,
            off_y,
            s.width as int,
            h,
            x,
            y,
            c,
        );
    } else {
        scaled_blits_show_the_nearest_pixel(dst, canvas, src, p, x, y, u, v, c);
    }
    blits_keep_length(dst, canvas, src, p);
    let own = node.own_drawn(dst, canvas, off_x, off_y);
    lemma_children_elsewhere(
        own,
        canvas,
        node,
        node.children@.len() as int,
        0,
        off_x,
        off_y,
        x,
        y,
        at + c,
    );
}

proof fn lemma_same_place(i: int, d: int, u: int)
    requires
        0 < d,
        u * d <= i * d < (u + 1) * d,
    ensures
        u == i,
{
    assert(u <= i < u + 1) by (nonlinear_arith)
        requires
            0 < d,
            u * d <= i * d < (u + 1) * d,
    ;
}

/// A frame is as large as its root: the viewport's destination where that is a
/// size, else the buffer's size, else the fallback. A root of less than four
/// pixels either way is given the fallback size, and no other root is.
pub proof fn frames_are_as_large_as_their_root(root: SurfaceNode, fallback: (u32, u32))
    ensures
        root.viewport.dst matches Some((w, h)) ==> w > 0 && h > 0 ==> dims(root, fallback).0 == w
            && dims(root, fallback).1 == h,
        !(root.viewport.dst matches Some((w, h)) && w > 0 && h > 0) ==> {
            &&& root.buffer matches Some(BufferKind::Shm(s)) ==> s.width > 0 && s.height > 0
                ==> dims(root, fallback).0 == s.width && dims(root, fallback).1 == s.height
            &&& root.buffer matches Some(BufferKind::Dmabuf(d, _)) ==> d.width > 0 && d.height > 0
                ==> dims(root, fallback).0 == d.width && dims(root, fallback).1 == d.height
            &&& root.buffer matches Some(BufferKind::SinglePixel(_)) ==> dims(root, fallback) == (
                1u32,
                1u32,
            )
            &&& root.buffer matches Some(BufferKind::Invalid) ==> dims(root, fallback) == fallback
            &&& root.buffer is None ==> dims(root, fallback) == fallback
            &&& root.buffer matches Some(BufferKind::Shm(s)) ==> s.width <= 0 || s.height <= 0
                ==> dims(root, fallback) == fallback
            &&& root.buffer matches Some(BufferKind::Dmabuf(d, _)) ==> d.width <= 0 || d.height <= 0
                ==> dims(root, fallback) == fallback
        },
        dims(root, fallback).0 >= 4 && dims(root, fallback).1 >= 4 ==> canvas_dims(root, fallback)
            == dims(root, fallback),
        dims(root, fallback).0 < 4 || dims(root, fallback).1 < 4 ==> canvas_dims(root, fallback)
            == fallback,
{
}

/// A crop that starts at the origin and is not scaled does not cut: the whole
/// buffer is shown, beyond the crop's size as well.
pub proof fn unscaled_crops_at_the_origin_do_not_cut(
    dst: Seq<u8>,
    canvas: Canvas,
    node: SurfaceNode,
    plain: SurfaceNode,
    off_x: int,
    off_y: int,
)
    requires
        plain.buffer == node.buffer,
        plain.children == node.children,
        plain.viewport.src is None,
        plain.viewport.dst is None,
        node.viewport.src matches Some((x, y, w, h)) && -256 < x.0 < 256 && -256 < y.0 < 256 && w.0
            >= 0 && h.0 >= 0 && (node.viewport.dst matches Some((dw, dh)) ==> dw * 256 <= w.0 < dw
            * 256 + 256 && dh * 256 <= h.0 < dh * 256 + 256),
    ensures
        tree_drawn(dst, canvas, node, off_x, off_y) == tree_drawn(
            dst,
            canvas,
            plain,
            off_x,
            off_y,
        ),
{
    assert(node.own_drawn(dst, canvas, off_x, off_y) == plain.own_drawn(
        dst,
        canvas,
        off_x,
        off_y,
    ));
    let own = node.own_drawn(dst, canvas, off_x, off_y);
    lemma_same_children(own, canvas, node, plain, node.children@.len() as int, off_x, off_y);
}

proof fn lemma_same_children(
    dst: Seq<u8>,
    canvas: Canvas,
    a: SurfaceNode,
    b: SurfaceNode,
    n: int,
    off_x: int,
    off_y: int,
)
    requires
        a.children == b.children,
        0 <= n <= a.children@.len(),
    ensures
        children_drawn(dst, canvas, a, n, off_x, off_y) == children_drawn(
            dst,
            canvas,
            b,
            n,
            off_x,
            off_y,
        ),
    decreases n,
{
    if n > 0 {
        lemma_same_children(dst, canvas, a, b, n - 1, off_x, off_y);
    }
}

/// A scaled surface ends where its destination ends: beyond, what is below is as it
/// was.
pub proof fn scaled_surfaces_end_at_their_destination(
    dst: Seq<u8>,
    canvas: Canvas,
    node: SurfaceNode,
    s: ShmBufferData,
    dw: i32,
    dh: i32,
    off_x: int,
    off_y: int,
    x: int,
    y: int,
    c: int,
)
    requires
        canvas.width * 4 <= canvas.stride,
        0 <= x < canvas.width,
        0 <= y < canvas.height,
        0 <= c < 4,
        y * canvas.stride + x * 4 + 4 <= dst.len(),
        node.buffer == Some(BufferKind::Shm(s)),
        node.viewport.src is None,
        node.viewport.dst == Some((dw, dh)),
        x < off_x || x >= off_x + dw || y < off_y || y >= off_y + dh,
        forall|i: int|
            0 <= i < node.children@.len() ==> {
                let child = #[trigger] node.children@[i];
                !reaches(child.surface, off_x + child.x, off_y + child.y, x, y)
            },
    ensures
        tree_drawn(dst, canvas, node, off_x, off_y)[y * canvas.stride + x * 4 + c] == dst[y
            * canvas.stride + x * 4 + c],
{
    lemma_pixel_offset(canvas, x, y);
    surfaces_draw_only_where_they_reach(
        dst,
        canvas,
        node,
        off_x,
        off_y,
        x,
        y,
        y * canvas.stride + x * 4 + c,
    );
}

/// What the two blits do is what is said of blitting: from the source's own rows, at
/// the offset given, on the canvas given.
pub proof fn blits_draw_at_their_offset(
    w: i32,
    h: i32,
    stride: i32,
    off_x: i32,
    off_y: i32,
    src: &[u8],
    src_w: i32,
    src_h: i32,
    src_stride: i32,
    format: ShmFormat,
    crop: (i32, i32, i32, i32),
    size: (i32, i32),
)
    ensures
        forall|m: &mut [u8]|
            #[trigger] call_ensures(
                blit_over,
                (m, w, h, stride, off_x, off_y, src, src_w, src_h, src_stride, format),
                (),
            ) ==> final(m)@ == blitted(
                m@,
                (Canvas { width: w as int, height: h as int, stride: stride as int }),
                (Raster { bytes: src@, stride: src_stride as int, format }),
                (Placement {
                    off_x: off_x as int,
                    off_y: off_y as int,
                    sx: 0,
                    sy: 0,
                    sw: src_w as int,
                    sh: src_h as int,
                    dw: src_w as int,
                    dh: src_h as int,
                }),
            ),
        forall|m: &mut [u8]|
            #[trigger] call_ensures(
                blit_viewport,
                (
                    m,
                    w,
                    h,
                    stride,
                    off_x,
                    off_y,
                    src,
                    src_stride,
                    format,
                    crop.0,
                    crop.1,
                    crop.2,
                    crop.3,
                    size.0,
                    size.1,
                ),
                (),
            ) ==> final(m)@ == blitted(
                m@,
                (Canvas { width: w as int, height: h as int, stride: stride as int }),
                (Raster { bytes: src@, stride: src_stride as int, format }),
                (Placement {
                    off_x: off_x as int,
                    off_y: off_y as int,
                    sx: crop.0 as int,
                    sy: crop.1 as int,
                    sw: crop.2 as int,
                    sh: crop.3 as int,
                    dw: size.0 as int,
                    dh: size.1 as int,
                }),
            ),
{
}

/// Composing draws the tree at the offset given on the canvas given; composing into
/// a slice happens exactly where the slice has the frame's size and the root a
/// buffer, and leaves it alone else.
pub proof fn composing_draws_the_whole_tree(
    w: i32,
    h: i32,
    stride: i32,
    node: SurfaceNode,
    off_x: i32,
    off_y: i32,
    r: bool,
)
    requires
        w >= 0,
        h >= 0,
        w * 4 <= i32::MAX,
        node.offsets_fit(off_x as int, off_y as int),
        node.offsets_fit(0, 0),
    ensures
        forall|m: &mut [u8]|
            #[trigger] call_ensures(composite_into, (m, w, h, stride, &node, off_x, off_y), ())
                ==> final(m)@ == tree_drawn(
                m@,
                (Canvas { width: w as int, height: h as int, stride: stride as int }),
                node,
                off_x as int,
                off_y as int,
            ),
        forall|m: &mut [u8]|
            #[trigger] call_ensures(composite_into_slice, (&node, m, w, h), r) ==> {
                &&& r <==> node.buffer is Some && m@.len() == 4 * w * h
                &&& r ==> final(m)@ == frame_bytes(node, w as int, h as int)
                &&& !r ==> final(m)@ == m@
            },
{
    assert(h * (w * 4) == 4 * w * h) by (nonlinear_arith);
}

/// A composed frame is of the root's size with rows of four bytes a pixel, and there
/// is none exactly where the root has no extent.
pub proof fn composed_frames_have_tight_rows(
    root: SurfaceNode,
    fallback: (u32, u32),
    r: Option<CompositedFrame>,
    size: (u32, u32),
)
    requires
        root.offsets_fit(0, 0),
        frame_fits(root, fallback),
        call_ensures(composite, (&root, fallback), r),
        call_ensures(surface_dims, (&root, fallback), size),
    ensures
        r is None <==> size.0 == 0 || size.1 == 0,
        r matches Some(f) ==> {
            &&& f.stride == 4 * f.width
            &&& f.bytes@ == frame_bytes(root, f.width as int, f.height as int)
            &&& size.0 >= 4 && size.1 >= 4 ==> f.width == size.0 && f.height == size.1
            &&& size.0 < 4 || size.1 < 4 ==> f.width == fallback.0 && f.height == fallback.1
        },
{
}

/// A frame that is composed into a buffer of the caller's is the one that is
/// composed afresh, whatever the buffer held; where there is nothing to compose the
/// buffer is left alone.
pub proof fn reused_buffers_hold_the_same_frame(
    root: SurfaceNode,
    fallback: (u32, u32),
    fresh: Option<CompositedFrame>,
    r: Option<(i32, i32, i32)>,
)
    requires
        root.offsets_fit(0, 0),
        frame_fits(root, fallback),
        call_ensures(composite, (&root, fallback), fresh),
    ensures
        forall|m: &mut Vec<u8>|
            #[trigger] call_ensures(composite_into_buf, (&root, m, fallback), r) ==> {
                &&& r is Some <==> fresh is Some
                &&& r is None ==> final(m)@ == m@
                &&& fresh matches Some(f) ==> final(m)@ == f.bytes@ && (r matches Some((w, h, stride))
                    && w == f.width && h == f.height && stride == f.stride)
            },
{
}

/// Offsets fit exactly where every surface of the tree stands at a position that a
/// 32-bit number holds.
pub proof fn offsets_fit_for_every_child(
    node: SurfaceNode,
    off_x: i32,
    off_y: i32,
    r: bool,
    i: int,
)
    requires
        call_ensures(crate::composite::offsets_fit, (&node, off_x, off_y), r),
        0 <= i < node.children@.len(),
    ensures
        r ==> i32::MIN <= off_x + node.children@[i].x <= i32::MAX,
        r ==> i32::MIN <= off_y + node.children@[i].y <= i32::MAX,
        off_x == 0 && off_y == 0 && (forall|k: int|
            0 <= k < node.children@.len() ==> (
            #[trigger] node.children@[k]).surface.children@.len() == 0) ==> r,
{
    assert forall|k: int|
        0 <= k < node.children@.len() && (
        #[trigger] node.children@[k]).surface.children@.len() == 0 implies node.children@[k].surface.offsets_fit(
        node.children@[k].x as int,
        node.children@[k].y as int,
    ) by {}
}

} // verus!
