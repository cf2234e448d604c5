//! Reading dmabufs back through GBM and through DRM nodes.

use vstd::prelude::*;
use vstd::string::*;

use crate::dmabuf::DRM_FORMAT_ARGB8888;
use crate::readback::{bounded_length, copy_bytes, seq_of, MAX_DMABUF_LEN};

verus! {

/// Import of a descriptor with its modifier.
#[derive(Clone, Copy, Debug)]
pub struct GbmImportFdModifierData {
    pub width: u32,
    pub height: u32,
    pub format: u32,
    pub num_fds: u32,
    pub fds: [i32; 4],
    pub strides: [i32; 4],
    pub offsets: [i32; 4],
    pub modifier: u64,
}

/// Import of a descriptor without a modifier.
#[derive(Clone, Copy, Debug)]
pub struct GbmImportFdData {
    pub fd: i32,
    pub width: u32,
    pub height: u32,
    pub stride: u32,
    pub format: u32,
}

/// The import that is tried first: one plane, with its modifier.
pub fn modifier_import(
    fd: i32,
    width: i32,
    height: i32,
    stride: i32,
    offset: u32,
    modifier: u64,
) -> (r: GbmImportFdModifierData)
    ensures
        r.width == width as u32,
        r.height == height as u32,
        r.format == DRM_FORMAT_ARGB8888,
        r.num_fds == 1,
        r.fds@ == seq![fd, -1i32, -1i32, -1i32],
        r.strides@ == seq![stride, 0i32, 0i32, 0i32],
        r.offsets@ == seq![offset as i32, 0i32, 0i32, 0i32],
        r.modifier == modifier,
{
    GbmImportFdModifierData {
        width: width as u32,
        height: height as u32,
        format: DRM_FORMAT_ARGB8888,
        num_fds: 1,
        fds: [fd, -1, -1, -1],
        strides: [stride, 0, 0, 0],
        offsets: [offset as i32, 0, 0, 0],
        modifier,
    }
}

/// The import that is tried where the first one fails.
pub fn plain_import(fd: i32, width: i32, height: i32, stride: i32) -> (r: GbmImportFdData)
    ensures
        r == (GbmImportFdData {
            fd,
            width: width as u32,
            height: height as u32,
            stride: stride as u32,
            format: DRM_FORMAT_ARGB8888,
        }),
{
    GbmImportFdData {
        fd,
        width: width as u32,
        height: height as u32,
        stride: stride as u32,
        format: DRM_FORMAT_ARGB8888,
    }
}

/// A step of reading through GBM.
#[derive(Clone, Copy, Debug, PartialEq, Eq, Structural)]
pub enum GbmStage {
    OpenNode,
    CreateDevice,
    ImportModifier,
    ImportPlain,
    MapBuffer,
    Unwind,
}

/// Something a read through GBM acquires and has to give back.
#[derive(Clone, Copy, Debug, PartialEq, Eq, Structural)]
pub enum GbmResource {
    Node,
    Device,
    Buffer,
    Mapping,
}

/// A read through GBM under way.
pub struct GbmReadback {
    pub stage: GbmStage,
    /// What has been acquired, oldest first.
    pub held: Vec<GbmResource>,
    pub height: i32,
    pub stride: i32,
    /// Length of the pixels.
    pub len: usize,
    pub pixels: Option<Vec<u8>>,
}

/// `height` rows of `stride` bytes out of rows of `map_stride` bytes.
pub open spec fn rows_repacked(src: Seq<u8>, map_stride: int, stride: int, height: int) -> Seq<u8> {
    Seq::new(
        (height * stride) as nat,
        |k: int| src[k / stride * map_stride + k % stride],
    )
}

proof fn lemma_row_split(k: int, stride: int, row: int, col: int)
    requires
        0 <= col < stride,
        k == row * stride + col,
    ensures
        k / stride == row,
        k % stride == col,
{
    vstd::arithmetic::div_mod::lemma_fundamental_div_mod_converse(k, stride, row, col);
}

/// Copies `height` rows out of a mapping whose rows are `map_stride` bytes
/// apart into rows of `stride` bytes.
pub fn repack_rows(src: &[u8], map_stride: usize, stride: usize, height: usize) -> (out: Vec<u8>)
    requires
        height > 0 ==> stride <= map_stride,
        height * map_stride <= src@.len(),
    ensures
        out@ == rows_repacked(src@, map_stride as int, stride as int, height as int),
{
    let mut out: Vec<u8> = Vec::new();
    let n: usize = src.len();
    let mut row: usize = 0;
    assert(0 * stride == 0);
    while row < height
        invariant
            row <= height,
            n == src@.len(),
            height > 0 ==> stride <= map_stride,
            height * map_stride <= n,
            out@.len() == row * stride,
            forall|k: int|
                0 <= k < row * stride ==> #[trigger] out@[k] == src@[k / (stride as int)
                    * map_stride + k % (stride as int)],
        decreases height - row,
    {
        assert((row + 1) * map_stride <= height * map_stride && (row + 1) * map_stride == row
            * map_stride + map_stride && 0 <= row * map_stride) by (nonlinear_arith)
            requires
                row + 1 <= height,
                0 <= row,
                0 <= map_stride,
        ;
        assert((row + 1) * stride == row * stride + stride && 0 <= row * stride)
            by (nonlinear_arith)
            requires
                0 <= row,
                0 <= stride,
        ;
        let base: usize = row * map_stride;
        let mut col: usize = 0;
        while col < stride
            invariant
                col <= stride,
                row < height,
                n == src@.len(),
                stride <= map_stride,
                base == row * map_stride,
                base + map_stride <= n,
                out@.len() == row * stride + col,
                forall|k: int|
                    0 <= k < row * stride + col ==> #[trigger] out@[k] == src@[k / (stride as int)
                        * map_stride + k % (stride as int)],
            decreases stride - col,
        {
            proof {
                lemma_row_split(
                    row * stride + col,
                    stride as int,
                    row as int,
                    col as int,
                );
            }
            out.push(src[base + col]);
            col = col + 1;
        }
        row = row + 1;
    }
    assert(out@ =~= rows_repacked(src@, map_stride as int, stride as int, height as int));
    out
}

impl GbmReadback {
    /// Bytes of the mapping, where it is not oversized.
    pub open spec fn map_len(&self, map_stride: u32) -> int {
        self.height * map_stride
    }

    /// Starts a read; `None` where the pixels would be oversized.
    pub fn begin(height: i32, stride: i32) -> (r: Option<GbmReadback>)
        ensures
            r is Some <==> (crate::buffer::row_bytes(height as int, stride as int) matches Some(n)
                && n <= MAX_DMABUF_LEN),
            r matches Some(rb) ==> {
                &&& rb.stage == GbmStage::OpenNode
                &&& rb.held@.len() == 0
                &&& rb.height == height
                &&& rb.stride == stride
                &&& crate::buffer::row_bytes(height as int, stride as int) == Some(rb.len as int)
                &&& rb.pixels is None
            },
    {
        match bounded_length(height, stride) {
            Some(len) => Some(
                GbmReadback {
                    stage: GbmStage::OpenNode,
                    held: Vec::new(),
                    height,
                    stride,
                    len,
                    pixels: None,
                },
            ),
            None => None,
        }
    }

    /// Takes the outcome of a step before the mapping. A failed import with
    /// modifier is followed by a plain one; any other failure ends the read.
    pub fn advance(&mut self, ok: bool)
        requires
            old(self).stage != GbmStage::MapBuffer,
        ensures
            final(self).stage == match old(self).stage {
                GbmStage::OpenNode => if ok {
                    GbmStage::CreateDevice
                } else {
                    GbmStage::Unwind
                },
                GbmStage::CreateDevice => if ok {
                    GbmStage::ImportModifier
                } else {
                    GbmStage::Unwind
                },
                GbmStage::ImportModifier => if ok {
                    GbmStage::MapBuffer
                } else {
                    GbmStage::ImportPlain
                },
                GbmStage::ImportPlain => if ok {
                    GbmStage::MapBuffer
                } else {
                    GbmStage::Unwind
                },
                _ => GbmStage::Unwind,
            },
            final(self).held@ == match old(self).stage {
                GbmStage::OpenNode if ok => old(self).held@.push(GbmResource::Node),
                GbmStage::CreateDevice if ok => old(self).held@.push(GbmResource::Device),
                GbmStage::ImportModifier if ok => old(self).held@.push(GbmResource::Buffer),
                GbmStage::ImportPlain if ok => old(self).held@.push(GbmResource::Buffer),
                _ => old(self).held@,
            },
            final(self).height == old(self).height,
            final(self).stride == old(self).stride,
            final(self).len == old(self).len,
            final(self).pixels == old(self).pixels,
    {
        match self.stage {
            GbmStage::OpenNode => {
                if ok {
                    self.held.push(GbmResource::Node);
                    self.stage = GbmStage::CreateDevice;
                } else {
                    self.stage = GbmStage::Unwind;
                }
            },
            GbmStage::CreateDevice => {
                if ok {
                    self.held.push(GbmResource::Device);
                    self.stage = GbmStage::ImportModifier;
                } else {
                    self.stage = GbmStage::Unwind;
                }
            },
            GbmStage::ImportModifier => {
                if ok {
                    self.held.push(GbmResource::Buffer);
                    self.stage = GbmStage::MapBuffer;
                } else {
                    self.stage = GbmStage::ImportPlain;
                }
            },
            GbmStage::ImportPlain => {
                if ok {
                    self.held.push(GbmResource::Buffer);
                    self.stage = GbmStage::MapBuffer;
                } else {
                    self.stage = GbmStage::Unwind;
                }
            },
            _ => {},
        }
    }

    /// Length of the mapping that the driver reported `map_stride` for; `None`
    /// where it would be oversized.
    pub fn mapping_len(&self, map_stride: u32) -> (r: Option<usize>)
        requires
            self.height >= 0,
        ensures
            r == if self.map_len(map_stride) <= MAX_DMABUF_LEN {
                Some(self.map_len(map_stride) as usize)
            } else {
                None
            },
    {
        assert(0 <= self.height * map_stride <= 0x7fff_ffff * 0xffff_ffff) by (nonlinear_arith)
            requires
                0 <= self.height <= 0x7fff_ffff,
                0 <= map_stride <= 0xffff_ffff,
        ;
        let n: u64 = self.height as u64 * map_stride as u64;
        if n <= MAX_DMABUF_LEN as u64 {
            Some(n as usize)
        } else {
            None
        }
    }

    /// Takes the outcome of the mapping: the mapped bytes with the driver's row
    /// stride, or `None` where it failed. An oversized mapping is not read.
    pub fn mapped(&mut self, map_stride: u32, mapping: Option<&[u8]>)
        requires
            old(self).stage == GbmStage::MapBuffer,
            old(self).height >= 0,
            old(self).stride >= 0,
            old(self).len == old(self).height * old(self).stride,
            mapping matches Some(m) ==> old(self).map_len(map_stride) > MAX_DMABUF_LEN || (m@.len()
                == old(self).map_len(map_stride) && (old(self).height > 0 ==> old(self).stride
                <= map_stride)),
        ensures
            final(self).stage == GbmStage::Unwind,
            match mapping {
                None => final(self).pixels == old(self).pixels && final(self).held@ == old(
                    self).held@,
                Some(m) => if old(self).map_len(map_stride) > MAX_DMABUF_LEN {
                    &&& final(self).pixels == old(self).pixels
                    &&& final(self).held@ == old(self).held@.push(GbmResource::Mapping)
                } else {
                    &&& seq_of(final(self).pixels) == Some(
                        rows_repacked(
                            m@,
                            map_stride as int,
                            old(self).stride as int,
                            old(self).height as int,
                        ),
                    )
                    &&& final(self).held@ == old(self).held@.push(GbmResource::Mapping)
                },
            },
    {
        if let Some(m) = mapping {
            match self.mapping_len(map_stride) {
                None => {
                    self.held.push(GbmResource::Mapping);
                },
                Some(_) => {
                    self.held.push(GbmResource::Mapping);
                    assert(self.height * map_stride == (self.height as usize) * (
                    map_stride as usize));
                    let out: Vec<u8> = repack_rows(
                        m,
                        map_stride as usize,
                        self.stride as usize,
                        self.height as usize,
                    );
                    self.pixels = Some(out);
                },
            }
        }
        self.stage = GbmStage::Unwind;
    }

    /// The next thing to give back, last acquired first.
    pub fn release(&mut self) -> (r: Option<GbmResource>)
        ensures
            final(self).stage == old(self).stage,
            final(self).pixels == old(self).pixels,
            r == if old(self).stage == GbmStage::Unwind && old(self).held@.len() > 0 {
                Some(old(self).held@.last())
            } else {
                None
            },
            final(self).held@ == if old(self).stage == GbmStage::Unwind && old(self).held@.len()
                > 0 {
                old(self).held@.drop_last()
            } else {
                old(self).held@
            },
    {
        if self.stage == GbmStage::Unwind {
            self.held.pop()
        } else {
            None
        }
    }
}

/// Rows that are already tight come out unchanged.
pub proof fn tight_rows_are_kept(src: Seq<u8>, stride: int, height: int)
    requires
        stride > 0,
        height >= 0,
        src.len() == height * stride,
    ensures
        rows_repacked(src, stride, stride, height) == src,
{
    let r = rows_repacked(src, stride, stride, height);
    assert forall|k: int| 0 <= k < src.len() implies r[k] == src[k] by {
        vstd::arithmetic::div_mod::lemma_fundamental_div_mod(k, stride);
        assert(stride * (k / stride) == k / stride * stride) by (nonlinear_arith);
    }
    assert(r =~= src);
}

/// How a buffer is mapped through a DRM node.
#[derive(Clone, Copy, Debug, PartialEq, Eq, Structural)]
pub enum NodeAccess {
    /// The AMD driver's mapping interface.
    AmdGem,
    /// The generic mapping interface.
    Dumb,
}

/// A step on one DRM node.
#[derive(Clone, Copy, Debug, PartialEq, Eq, Structural)]
pub enum NodeStep {
    Open,
    ImportPrime,
    QueryOffset,
    MapBuffer,
}

/// A search for a DRM node through which a buffer can be mapped.
#[derive(Clone, Copy, Debug, PartialEq, Eq, Structural)]
pub enum NodeSearch {
    Trying { access: NodeAccess, node: u32, step: NodeStep },
    Found { access: NodeAccess, node: u32 },
    Exhausted { access: NodeAccess },
}

/// Number of nodes that are tried.
pub open spec fn node_count(access: NodeAccess) -> int {
    match access {
        NodeAccess::AmdGem => 3,
        NodeAccess::Dumb => 2,
    }
}

/// Path of the node at `index`.
pub open spec fn node_path_spec(access: NodeAccess, index: int) -> Seq<char> {
    match access {
        NodeAccess::AmdGem => if index == 0 {
            "/dev/dri/renderD128"@
        } else if index == 1 {
            "/dev/dri/card1"@
        } else {
            "/dev/dri/card0"@
        },
        NodeAccess::Dumb => if index == 0 {
            "/dev/dri/renderD128"@
        } else {
            "/dev/dri/card0"@
        },
    }
}

/// Path of the node at `index`.
pub fn node_path(access: NodeAccess, index: u32) -> (r: &'static str)
    requires
        index < node_count(access),
    ensures
        r@ == node_path_spec(access, index as int),
{
    match access {
        NodeAccess::AmdGem => if index == 0 {
            "/dev/dri/renderD128"
        } else if index == 1 {
            "/dev/dri/card1"
        } else {
            "/dev/dri/card0"
        },
        NodeAccess::Dumb => if index == 0 {
            "/dev/dri/renderD128"
        } else {
            "/dev/dri/card0"
        },
    }
}

impl NodeSearch {
    pub open spec fn wf(self) -> bool {
        match self {
            NodeSearch::Trying { access, node, .. } => node < node_count(access),
            NodeSearch::Found { access, node } => node < node_count(access),
            NodeSearch::Exhausted { .. } => true,
        }
    }

    /// The search after the due step. A node that fails anywhere is left for
    /// the next one.
    pub open spec fn after(self, ok: bool) -> NodeSearch {
        match self {
            NodeSearch::Trying { access, node, step } => if ok {
                match step {
                    NodeStep::Open => NodeSearch::Trying {
                        access,
                        node,
                        step: NodeStep::ImportPrime,
                    },
                    NodeStep::ImportPrime => NodeSearch::Trying {
                        access,
                        node,
                        step: NodeStep::QueryOffset,
                    },
                    NodeStep::QueryOffset => NodeSearch::Trying {
                        access,
                        node,
                        step: NodeStep::MapBuffer,
                    },
                    NodeStep::MapBuffer => NodeSearch::Found { access, node },
                }
            } else if node + 1 < node_count(access) {
                NodeSearch::Trying { access, node: (node + 1) as u32, step: NodeStep::Open }
            } else {
                NodeSearch::Exhausted { access }
            },
            _ => self,
        }
    }

    /// Starts a search at the first node.
    pub fn begin(access: NodeAccess) -> (r: NodeSearch)
        ensures
            r == (NodeSearch::Trying { access, node: 0, step: NodeStep::Open }),
            r.wf(),
    {
        NodeSearch::Trying { access, node: 0, step: NodeStep::Open }
    }

    /// Takes the outcome of the due step. Returns whether the node has to be
    /// closed now: it was open and is being left, or its mapping was made and
    /// will have been copied.
    pub fn advance(&mut self, ok: bool) -> (close: bool)
        requires
            old(self).wf(),
        ensures
            *final(self) == old(self).after(ok),
            final(self).wf(),
            close == match *old(self) {
                NodeSearch::Trying { step, .. } => if ok {
                    step == NodeStep::MapBuffer
                } else {
                    step != NodeStep::Open
                },
                _ => false,
            },
    {
        match *self {
            NodeSearch::Trying { access, node, step } => {
                if ok {
                    match step {
                        NodeStep::Open => {
                            *self = NodeSearch::Trying { access, node, step: NodeStep::ImportPrime };
                            false
                        },
                        NodeStep::ImportPrime => {
                            *self = NodeSearch::Trying { access, node, step: NodeStep::QueryOffset };
                            false
                        },
                        NodeStep::QueryOffset => {
                            *self = NodeSearch::Trying { access, node, step: NodeStep::MapBuffer };
                            false
                        },
                        NodeStep::MapBuffer => {
                            *self = NodeSearch::Found { access, node };
                            true
                        },
                    }
                } else {
                    let count: u32 = match access {
                        NodeAccess::AmdGem => 3,
                        NodeAccess::Dumb => 2,
                    };
                    if node + 1 < count {
                        *self = NodeSearch::Trying { access, node: node + 1, step: NodeStep::Open };
                    } else {
                        *self = NodeSearch::Exhausted { access };
                    }
                    step != NodeStep::Open
                }
            },
            _ => false,
        }
    }
}

/// The pixels out of a mapping of `offset + len` bytes.
pub fn mapped_window(bytes: &[u8], offset: usize, len: usize) -> (r: Vec<u8>)
    requires
        offset + len <= bytes@.len(),
    ensures
        r@ == bytes@.subrange(offset as int, offset + len),
{
    let n: usize = bytes.len();
    let end: usize = offset + len;
    copy_bytes(&bytes[offset..end])
}

/// Steps a search may still take.
pub open spec fn search_rank(s: NodeSearch) -> int {
    match s {
        NodeSearch::Trying { access, node, step } => (node_count(access) - node) * 4 - match step {
            NodeStep::Open => 0int,
            NodeStep::ImportPrime => 1,
            NodeStep::QueryOffset => 2,
            NodeStep::MapBuffer => 3,
        },
        _ => 0,
    }
}

/// A search always comes to an end, and it tries the nodes in their order: it
/// never goes back to an earlier one.
pub proof fn search_moves_forward(s: NodeSearch, ok: bool)
    requires
        s.wf(),
        s is Trying,
    ensures
        0 <= search_rank(s.after(ok)) < search_rank(s),
        s.after(ok) matches NodeSearch::Trying { node, .. } ==> node >= s->Trying_node,
        s.after(ok) matches NodeSearch::Found { node, .. } ==> node == s->Trying_node,
{
}

/// Each row comes out whole and in its place: byte `col` of row `row` is the byte
/// at that place in the mapping, whose rows may be longer.
pub proof fn rows_are_repacked_whole(
    src: &[u8],
    map_stride: usize,
    stride: usize,
    height: usize,
    out: Vec<u8>,
    row: int,
    col: int,
)
    requires
        height > 0 ==> stride <= map_stride,
        height * map_stride <= src@.len(),
        call_ensures(repack_rows, (src, map_stride, stride, height), out),
        0 <= row < height,
        0 <= col < stride,
    ensures
        out@.len() == height * stride,
        out@[row * stride + col] == src@[row * map_stride + col],
{
    let (s, h) = (stride as int, height as int);
    assert(0 <= row * s && row * s + s <= h * s) by (nonlinear_arith)
        requires
            0 <= row < h,
            0 < s,
    ;
    lemma_row_split(row * s + col, s, row, col);
}

/// A mapping that is not oversized gives the picture, row by row, and is then
/// held to be given back; an oversized one is given back unread.
pub proof fn mappings_are_read_unless_oversized(map_stride: u32, m: &[u8], row: int, col: int)
    ensures
        forall|rb: &mut GbmReadback|
            rb.stage == GbmStage::MapBuffer && rb.height >= 0 && rb.stride >= 0 && rb.len
                == rb.height * rb.stride && m@.len() == rb.height * map_stride && rb.stride
                <= map_stride && 0 <= row < rb.height && 0 <= col < rb.stride && #[trigger]
            call_ensures(GbmReadback::mapped, (rb, map_stride, Some(m)), ()) ==> {
                &&& final(rb).stage == GbmStage::Unwind
                &&& final(rb).held@ == rb.held@.push(GbmResource::Mapping)
                &&& rb.height * map_stride <= 256 * 1024 * 1024 ==> (final(rb).pixels matches
                    Some(p) && p@[row * rb.stride + col] == m@[row * map_stride + col])
                &&& rb.height * map_stride > 256 * 1024 * 1024 ==> final(rb).pixels == rb.pixels
            },
        forall|rb: &mut GbmReadback|
            rb.stage == GbmStage::MapBuffer && rb.height >= 0 && rb.stride >= 0 && rb.len
                == rb.height * rb.stride && #[trigger] call_ensures(
                GbmReadback::mapped,
                (rb, map_stride, None::<&[u8]>),
                (),
            ) ==> final(rb).stage == GbmStage::Unwind && final(rb).held@ == rb.held@
                && final(rb).pixels == rb.pixels,
{
    assert forall|rb: &mut GbmReadback|
        rb.stage == GbmStage::MapBuffer && rb.height >= 0 && rb.stride >= 0 && rb.len == rb.height
            * rb.stride && m@.len() == rb.height * map_stride && rb.stride <= map_stride && 0 <= row
            < rb.height && 0 <= col < rb.stride && #[trigger] call_ensures(
            GbmReadback::mapped,
            (rb, map_stride, Some(m)),
            (),
        ) && rb.height * map_stride <= 256 * 1024 * 1024 implies (final(rb).pixels matches Some(p)
        && p@[row * rb.stride + col] == m@[row * map_stride + col]) by {
        let (s, h) = (rb.stride as int, rb.height as int);
        assert(0 <= row * s && row * s + s <= h * s) by (nonlinear_arith)
            requires
                0 <= row < h,
                0 < s,
        ;
        lemma_row_split(row * s + col, s, row, col);
    }
}

/// A descriptor is imported as one ARGB8888 plane of the buffer's size, stride and
/// offset, with its modifier where modifiers are taken.
pub proof fn imports_describe_one_plane(
    fd: i32,
    width: i32,
    height: i32,
    stride: i32,
    offset: u32,
    modifier: u64,
    first: GbmImportFdModifierData,
    plain: GbmImportFdData,
)
    requires
        0 <= width,
        0 <= height,
        0 <= stride,
        offset <= i32::MAX,
        call_ensures(modifier_import, (fd, width, height, stride, offset, modifier), first),
        call_ensures(plain_import, (fd, width, height, stride), plain),
    ensures
        first.width == width && first.height == height,
        first.format == 0x3432_5241,
        first.num_fds == 1,
        first.fds@[0] == fd && first.strides@[0] == stride && first.offsets@[0] == offset,
        first.modifier == modifier,
        plain.fd == fd && plain.width == width && plain.height == height,
        plain.stride == stride && plain.format == 0x3432_5241,
{
}

/// A read through GBM opens the node, makes a device, imports the buffer and maps
/// it; an import with modifier that fails is followed by a plain one, and any other
/// failure gives back what was acquired before.
pub proof fn gbm_reads_go_step_by_step(ok: bool)
    ensures
        forall|m: &mut GbmReadback|
            m.stage != GbmStage::MapBuffer && #[trigger] call_ensures(
                GbmReadback::advance,
                (m, ok),
                (),
            ) ==> {
                &&& m.stage == GbmStage::OpenNode && ok ==> final(m).stage == GbmStage::CreateDevice
                    && final(m).held@ == m.held@.push(GbmResource::Node)
                &&& m.stage == GbmStage::CreateDevice && ok ==> final(m).stage
                    == GbmStage::ImportModifier && final(m).held@ == m.held@.push(
                    GbmResource::Device,
                )
                &&& m.stage == GbmStage::ImportModifier && ok ==> final(m).stage
                    == GbmStage::MapBuffer && final(m).held@ == m.held@.push(GbmResource::Buffer)
                &&& m.stage == GbmStage::ImportModifier && !ok ==> final(m).stage
                    == GbmStage::ImportPlain && final(m).held@ == m.held@
                &&& m.stage == GbmStage::ImportPlain && ok ==> final(m).stage == GbmStage::MapBuffer
                    && final(m).held@ == m.held@.push(GbmResource::Buffer)
                &&& m.stage != GbmStage::ImportModifier && !ok ==> final(m).stage
                    == GbmStage::Unwind && final(m).held@ == m.held@
                &&& final(m).pixels == m.pixels
            },
        forall|m: &mut GbmReadback, r: Option<GbmResource>|
            #[trigger] call_ensures(GbmReadback::release, (m,), r) ==> {
                &&& r is Some <==> m.stage == GbmStage::Unwind && m.held@.len() > 0
                &&& r matches Some(g) ==> final(m).held@.push(g) == m.held@
                &&& final(m).pixels == m.pixels
            },
{
}

/// The render node is tried first. The driver's own interface is tried on two
/// cards after it, the generic one on the first card alone.
pub proof fn the_render_node_is_tried_first(access: NodeAccess, s: NodeSearch, path: &'static str)
    requires
        call_ensures(NodeSearch::begin, (access,), s),
        call_ensures(node_path, (access, 0), path),
    ensures
        s == (NodeSearch::Trying { access, node: 0, step: NodeStep::Open }),
        path@ == "/dev/dri/renderD128"@,
        node_count(NodeAccess::AmdGem) == 3,
        node_count(NodeAccess::Dumb) == 2,
        node_path_spec(NodeAccess::AmdGem, 1) == "/dev/dri/card1"@,
        node_path_spec(NodeAccess::AmdGem, 2) == "/dev/dri/card0"@,
        node_path_spec(NodeAccess::Dumb, 1) == "/dev/dri/card0"@,
{
}

/// On each node the buffer is imported, its offset is asked for and it is mapped;
/// where any of this fails, the next node is tried from the start, and after the
/// last node the search is over. A node that was opened is closed when it is left
/// and when its mapping has been made, and not before.
pub proof fn nodes_are_tried_one_by_one(access: NodeAccess, node: u32, step: NodeStep, ok: bool, close: bool)
    requires
        node < node_count(access),
    ensures
        forall|m: &mut NodeSearch|
            *m == (NodeSearch::Trying { access, node, step }) && #[trigger] call_ensures(
                NodeSearch::advance,
                (m, ok),
                close,
            ) ==> {
                &&& ok && step == NodeStep::Open ==> *final(m) == (NodeSearch::Trying {
                    access,
                    node,
                    step: NodeStep::ImportPrime,
                }) && !close
                &&& ok && step == NodeStep::ImportPrime ==> *final(m) == (NodeSearch::Trying {
                    access,
                    node,
                    step: NodeStep::QueryOffset,
                }) && !close
                &&& ok && step == NodeStep::QueryOffset ==> *final(m) == (NodeSearch::Trying {
                    access,
                    node,
                    step: NodeStep::MapBuffer,
                }) && !close
                &&& ok && step == NodeStep::MapBuffer ==> *final(m) == (NodeSearch::Found {
                    access,
                    node,
                }) && close
                &&& !ok ==> (close <==> step != NodeStep::Open)
                &&& !ok && node + 1 < node_count(access) ==> (*final(m) matches NodeSearch::Trying {
                    access: a,
                    node: k,
                    step: NodeStep::Open,
                } && a == access && k == node + 1)
                &&& !ok && node + 1 == node_count(access) ==> *final(m) == (NodeSearch::Exhausted {
                    access,
                })
            },
{
}

/// The pixels out of a mapping are its bytes from the offset on.
pub proof fn windows_start_at_the_offset(bytes: &[u8], offset: usize, len: usize, r: Vec<u8>, i: int)
    requires
        offset + len <= bytes@.len(),
        call_ensures(mapped_window, (bytes, offset, len), r),
        0 <= i < len,
    ensures
        r@.len() == len,
        r@[i] == bytes@[offset + i],
{
}

/// A read through GBM is begun exactly for pixels of up to 256 MiB, with nothing
/// held; a mapping is read up to the same size.
pub proof fn reads_are_bounded(
    height: i32,
    stride: i32,
    r: Option<GbmReadback>,
    rb: GbmReadback,
    map_stride: u32,
    len: Option<usize>,
)
    requires
        height >= 0,
        stride >= 0,
        call_ensures(GbmReadback::begin, (height, stride), r),
        rb.height >= 0,
        call_ensures(GbmReadback::mapping_len, (&rb, map_stride), len),
    ensures
        r is Some <==> height * stride <= 256 * 1024 * 1024,
        r matches Some(b) ==> b.len == height * stride && b.height == height && b.stride == stride
            && b.held@.len() == 0 && b.pixels is None && b.stage == GbmStage::OpenNode,
        len is Some <==> rb.height * map_stride <= 256 * 1024 * 1024,
        len matches Some(n) ==> n == rb.height * map_stride,
{
    assert(height == 0 || stride == 0 ==> height * stride == 0) by (nonlinear_arith);
    assert(0 <= rb.height * map_stride) by (nonlinear_arith)
        requires
            0 <= rb.height,
            0 <= map_stride,
    ;
}

/// Nothing is let go of before a read unwinds.
pub proof fn reads_hold_what_they_use(r: Option<GbmResource>)
    ensures
        forall|m: &mut GbmReadback|
            #[trigger] call_ensures(GbmReadback::release, (m,), r) ==> final(m).stage == m.stage && (
            r is None ==> final(m).held@ == m.held@) && (m.stage != GbmStage::Unwind ==> r is None),
{
}

} // verus!
