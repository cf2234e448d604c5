//! Importing dmabufs into EGL, and reading them back through it.

use vstd::prelude::*;

use crate::dmabuf::{
    modifier_hi, modifier_lo, modifier_words, PlaneData, DRM_FORMAT_MOD_LINEAR,
};
use crate::readback::{bounded_length, seq_of, MAX_DMABUF_LEN};

verus! {

pub const EGL_WIDTH: i32 = 0x3057;

pub const EGL_HEIGHT: i32 = 0x3056;

pub const EGL_NONE: i32 = 0x3038;

pub const EGL_LINUX_DRM_FOURCC_EXT: i32 = 0x3271;

pub const EGL_DMA_BUF_PLANE0_FD_EXT: i32 = 0x3272;

pub const EGL_DMA_BUF_PLANE0_OFFSET_EXT: i32 = 0x3273;

pub const EGL_DMA_BUF_PLANE0_PITCH_EXT: i32 = 0x3274;

pub const EGL_DMA_BUF_PLANE0_MODIFIER_LO_EXT: i32 = 0x3443;

pub const EGL_DMA_BUF_PLANE0_MODIFIER_HI_EXT: i32 = 0x3444;

pub const EGL_DMA_BUF_PLANE1_FD_EXT: i32 = 0x3278;

pub const EGL_DMA_BUF_PLANE1_OFFSET_EXT: i32 = 0x3279;

pub const EGL_DMA_BUF_PLANE1_PITCH_EXT: i32 = 0x327A;

pub const EGL_DMA_BUF_PLANE1_MODIFIER_LO_EXT: i32 = 0x3445;

pub const EGL_DMA_BUF_PLANE1_MODIFIER_HI_EXT: i32 = 0x3446;

pub const EGL_DMA_BUF_PLANE2_FD_EXT: i32 = 0x3280;

pub const EGL_DMA_BUF_PLANE2_OFFSET_EXT: i32 = 0x3281;

pub const EGL_DMA_BUF_PLANE2_PITCH_EXT: i32 = 0x3282;

pub const EGL_DMA_BUF_PLANE2_MODIFIER_LO_EXT: i32 = 0x3447;

pub const EGL_DMA_BUF_PLANE2_MODIFIER_HI_EXT: i32 = 0x3448;

pub const EGL_ALPHA_SIZE: i32 = 0x3021;

pub const EGL_BLUE_SIZE: i32 = 0x3022;

pub const EGL_GREEN_SIZE: i32 = 0x3023;

pub const EGL_RED_SIZE: i32 = 0x3024;

pub const EGL_RENDERABLE_TYPE: i32 = 0x3040;

pub const EGL_OPENGL_ES2_BIT: i32 = 0x0004;

pub const EGL_CONTEXT_MAJOR_VERSION: i32 = 0x3098;

/// The attribute list that selects a framebuffer configuration for reading:
/// eight bits per channel, for OpenGL ES 2. Nothing is asked of surfaces, since
/// none is made.
pub fn config_attributes() -> (r: [i32; 11])
    ensures
        r@ == seq![
            EGL_RED_SIZE,
            8i32,
            EGL_GREEN_SIZE,
            8i32,
            EGL_BLUE_SIZE,
            8i32,
            EGL_ALPHA_SIZE,
            8i32,
            EGL_RENDERABLE_TYPE,
            EGL_OPENGL_ES2_BIT,
            EGL_NONE,
        ],
{
    [
        EGL_RED_SIZE,
        8,
        EGL_GREEN_SIZE,
        8,
        EGL_BLUE_SIZE,
        8,
        EGL_ALPHA_SIZE,
        8,
        EGL_RENDERABLE_TYPE,
        EGL_OPENGL_ES2_BIT,
        EGL_NONE,
    ]
}

/// The attribute list that creates an OpenGL ES 2 context.
pub fn context_attributes() -> (r: [i32; 3])
    ensures
        r@ == seq![EGL_CONTEXT_MAJOR_VERSION, 2i32, EGL_NONE],
{
    [EGL_CONTEXT_MAJOR_VERSION, 2, EGL_NONE]
}

/// Attributes of the buffer and its first plane. The modifier is left out for a
/// linear buffer.
pub open spec fn first_plane_attributes(
    fd: i32,
    width: i32,
    height: i32,
    stride: i32,
    offset: u32,
    drm_format: u32,
    modifier: u64,
) -> Seq<i32> {
    seq![
        EGL_WIDTH,
        width,
        EGL_HEIGHT,
        height,
        EGL_LINUX_DRM_FOURCC_EXT,
        drm_format as i32,
        EGL_DMA_BUF_PLANE0_FD_EXT,
        fd,
        EGL_DMA_BUF_PLANE0_OFFSET_EXT,
        offset as i32,
        EGL_DMA_BUF_PLANE0_PITCH_EXT,
        stride,
    ] + (if modifier != DRM_FORMAT_MOD_LINEAR {
        seq![
            EGL_DMA_BUF_PLANE0_MODIFIER_LO_EXT,
            modifier_lo(modifier),
            EGL_DMA_BUF_PLANE0_MODIFIER_HI_EXT,
            modifier_hi(modifier),
        ]
    } else {
        Seq::empty()
    })
}

/// Attributes of the plane at `index` beyond the first.
pub open spec fn extra_plane_attributes(index: int, plane: PlaneData, modifier: u64) -> Seq<i32> {
    if index == 0 {
        seq![
            EGL_DMA_BUF_PLANE1_FD_EXT,
            plane.fd,
            EGL_DMA_BUF_PLANE1_OFFSET_EXT,
            plane.offset as i32,
            EGL_DMA_BUF_PLANE1_PITCH_EXT,
            plane.stride as i32,
            EGL_DMA_BUF_PLANE1_MODIFIER_LO_EXT,
            modifier_lo(modifier),
            EGL_DMA_BUF_PLANE1_MODIFIER_HI_EXT,
            modifier_hi(modifier),
        ]
    } else {
        seq![
            EGL_DMA_BUF_PLANE2_FD_EXT,
            plane.fd,
            EGL_DMA_BUF_PLANE2_OFFSET_EXT,
            plane.offset as i32,
            EGL_DMA_BUF_PLANE2_PITCH_EXT,
            plane.stride as i32,
            EGL_DMA_BUF_PLANE2_MODIFIER_LO_EXT,
            modifier_lo(modifier),
            EGL_DMA_BUF_PLANE2_MODIFIER_HI_EXT,
            modifier_hi(modifier),
        ]
    }
}

/// Attributes of the planes beyond the first; EGL takes two of them.
pub open spec fn extra_attributes(planes: Seq<PlaneData>, modifier: u64) -> Seq<i32> {
    if planes.len() == 0 {
        Seq::empty()
    } else if planes.len() == 1 {
        extra_plane_attributes(0, planes[0], modifier)
    } else {
        extra_plane_attributes(0, planes[0], modifier) + extra_plane_attributes(
            1,
            planes[1],
            modifier,
        )
    }
}

fn put_extra_plane(attrs: &mut Vec<i32>, index: usize, plane: &PlaneData, modifier: u64)
    requires
        index < 2,
    ensures
        final(attrs)@ == old(attrs)@ + extra_plane_attributes(index as int, *plane, modifier),
{
    let ghost before = attrs@;
    let (lo, hi) = modifier_words(modifier);
    let (fd_attr, offset_attr, pitch_attr, lo_attr, hi_attr): (i32, i32, i32, i32, i32) = if index
        == 0 {
        (
            EGL_DMA_BUF_PLANE1_FD_EXT,
            EGL_DMA_BUF_PLANE1_OFFSET_EXT,
            EGL_DMA_BUF_PLANE1_PITCH_EXT,
            EGL_DMA_BUF_PLANE1_MODIFIER_LO_EXT,
            EGL_DMA_BUF_PLANE1_MODIFIER_HI_EXT,
        )
    } else {
        (
            EGL_DMA_BUF_PLANE2_FD_EXT,
            EGL_DMA_BUF_PLANE2_OFFSET_EXT,
            EGL_DMA_BUF_PLANE2_PITCH_EXT,
            EGL_DMA_BUF_PLANE2_MODIFIER_LO_EXT,
            EGL_DMA_BUF_PLANE2_MODIFIER_HI_EXT,
        )
    };
    attrs.push(fd_attr);
    attrs.push(plane.fd);
    attrs.push(offset_attr);
    attrs.push(plane.offset as i32);
    attrs.push(pitch_attr);
    attrs.push(plane.stride as i32);
    attrs.push(lo_attr);
    attrs.push(lo);
    attrs.push(hi_attr);
    attrs.push(hi);
    assert(attrs@ =~= before + extra_plane_attributes(index as int, *plane, modifier));
}

/// The attribute list that imports a dmabuf, terminated.
pub fn import_attributes(
    fd: i32,
    extra_planes: &[PlaneData],
    width: i32,
    height: i32,
    stride: i32,
    offset: u32,
    drm_format: u32,
    modifier: u64,
) -> (attrs: Vec<i32>)
    ensures
        attrs@ == first_plane_attributes(fd, width, height, stride, offset, drm_format, modifier)
            + extra_attributes(extra_planes@, modifier) + seq![EGL_NONE],
{
    let mut attrs: Vec<i32> = vec![
        EGL_WIDTH,
        width,
        EGL_HEIGHT,
        height,
        EGL_LINUX_DRM_FOURCC_EXT,
        drm_format as i32,
        EGL_DMA_BUF_PLANE0_FD_EXT,
        fd,
        EGL_DMA_BUF_PLANE0_OFFSET_EXT,
        offset as i32,
        EGL_DMA_BUF_PLANE0_PITCH_EXT,
        stride,
    ];
    let (lo, hi) = modifier_words(modifier);
    if modifier != DRM_FORMAT_MOD_LINEAR {
        attrs.push(EGL_DMA_BUF_PLANE0_MODIFIER_LO_EXT);
        attrs.push(lo);
        attrs.push(EGL_DMA_BUF_PLANE0_MODIFIER_HI_EXT);
        attrs.push(hi);
    }
    assert(attrs@ =~= first_plane_attributes(
        fd,
        width,
        height,
        stride,
        offset,
        drm_format,
        modifier,
    ));
    let ghost first = attrs@;
    let n: usize = extra_planes.len();
    if n > 0 {
        put_extra_plane(&mut attrs, 0, &extra_planes[0], modifier);
    }
    if n > 1 {
        put_extra_plane(&mut attrs, 1, &extra_planes[1], modifier);
    }
    assert(attrs@ =~= first + extra_attributes(extra_planes@, modifier));
    attrs.push(EGL_NONE);
    attrs
}

/// `s` with the first and third byte of every whole pixel exchanged.
pub open spec fn red_blue_swapped(s: Seq<u8>) -> Seq<u8> {
    Seq::new(
        s.len(),
        |k: int|
            if k / 4 * 4 + 4 > s.len() {
                s[k]
            } else if k % 4 == 0 {
                s[k + 2]
            } else if k % 4 == 2 {
                s[k - 2]
            } else {
                s[k]
            },
    )
}

/// Exchanges red and blue of every whole pixel, which turns the order R, G, B, A
/// into B, G, R, A and back.
pub fn swap_red_blue(buf: &mut Vec<u8>)
    ensures
        final(buf)@ == red_blue_swapped(old(buf)@),
{
    let ghost before = buf@;
    let n: usize = buf.len();
    let mut i: usize = 0;
    while n - i >= 4
        invariant
            n == before.len(),
            n == buf@.len(),
            i <= n,
            i % 4 == 0,
            forall|k: int| 0 <= k < i ==> buf@[k] == red_blue_swapped(before)[k],
            forall|k: int| i <= k < n ==> buf@[k] == before[k],
        decreases n - i,
    {
        let r: u8 = buf[i];
        let b: u8 = buf[i + 2];
        buf.set(i, b);
        buf.set(i + 2, r);
        i = i + 4;
    }
    assert(buf@ =~= red_blue_swapped(before));
}

/// Swapping twice gives the pixels back.
pub proof fn swapping_twice_is_identity(s: Seq<u8>)
    ensures
        red_blue_swapped(red_blue_swapped(s)) == s,
{
    assert(red_blue_swapped(red_blue_swapped(s)) =~= s);
}

/// A step of reading pixels through EGL.
#[derive(Clone, Copy, Debug, PartialEq, Eq, Structural)]
pub enum EglStage {
    OpenNode,
    CreateGbm,
    LoadLibrary,
    LoadEgl,
    GetDisplay,
    Initialize,
    BindApi,
    ChooseConfig,
    CreateContext,
    MakeCurrent,
    ResolveFunctions,
    CreateImage,
    /// Attach the image's texture to a framebuffer and check that it is
    /// complete.
    AttachFramebuffer,
    ReadPixels,
    Unwind,
}

/// Something a read through EGL acquires and has to give back.
#[derive(Clone, Copy, Debug, PartialEq, Eq, Structural)]
pub enum EglResource {
    Node,
    Gbm,
    Display,
    Context,
    Image,
    Texture,
    Framebuffer,
}

/// A read through EGL under way.
pub struct EglReadback {
    pub stage: EglStage,
    /// What has been acquired, oldest first.
    pub held: Vec<EglResource>,
    pub height: i32,
    pub stride: i32,
    pub pixels: Option<Vec<u8>>,
}

impl EglReadback {
    /// Whether the pixels would exceed the largest buffer that is read.
    pub open spec fn oversized(&self) -> bool {
        match crate::buffer::row_bytes(self.height as int, self.stride as int) {
            Some(n) => n > MAX_DMABUF_LEN,
            None => true,
        }
    }

    /// The stage after the due step succeeded or failed.
    pub open spec fn next(&self, ok: bool) -> EglStage {
        if !ok {
            EglStage::Unwind
        } else {
            match self.stage {
                EglStage::OpenNode => EglStage::CreateGbm,
                EglStage::CreateGbm => EglStage::LoadLibrary,
                EglStage::LoadLibrary => EglStage::LoadEgl,
                EglStage::LoadEgl => EglStage::GetDisplay,
                EglStage::GetDisplay => EglStage::Initialize,
                EglStage::Initialize => EglStage::BindApi,
                EglStage::BindApi => EglStage::ChooseConfig,
                EglStage::ChooseConfig => EglStage::CreateContext,
                EglStage::CreateContext => EglStage::MakeCurrent,
                EglStage::MakeCurrent => EglStage::ResolveFunctions,
                EglStage::ResolveFunctions => EglStage::CreateImage,
                EglStage::CreateImage => EglStage::AttachFramebuffer,
                EglStage::AttachFramebuffer => if self.oversized() {
                    EglStage::Unwind
                } else {
                    EglStage::ReadPixels
                },
                EglStage::ReadPixels => EglStage::Unwind,
                EglStage::Unwind => EglStage::Unwind,
            }
        }
    }

    /// What the due step acquires. The texture and the framebuffer exist once an
    /// image does, whether or not the framebuffer turns out complete.
    pub open spec fn acquired(&self, ok: bool) -> Seq<EglResource> {
        match self.stage {
            EglStage::OpenNode if ok => seq![EglResource::Node],
            EglStage::CreateGbm if ok => seq![EglResource::Gbm],
            EglStage::Initialize if ok => seq![EglResource::Display],
            EglStage::CreateContext if ok => seq![EglResource::Context],
            EglStage::CreateImage if ok => seq![
                EglResource::Image,
                EglResource::Texture,
                EglResource::Framebuffer,
            ],
            _ => Seq::empty(),
        }
    }

    /// Starts a read of `height` rows of `stride` bytes.
    pub fn begin(height: i32, stride: i32) -> (r: EglReadback)
        ensures
            r.stage == EglStage::OpenNode,
            r.held@.len() == 0,
            r.height == height,
            r.stride == stride,
            r.pixels is None,
    {
        EglReadback { stage: EglStage::OpenNode, held: Vec::new(), height, stride, pixels: None }
    }

    /// Length of the buffer that receives the pixels; `None` where it would be
    /// oversized.
    pub fn read_len(&self) -> (r: Option<usize>)
        ensures
            r is None <==> self.oversized(),
            r matches Some(n) ==> crate::buffer::row_bytes(self.height as int, self.stride as int)
                == Some(n as int),
    {
        bounded_length(self.height, self.stride)
    }

    /// Takes the outcome of the due step. `pixels` are the bytes read, in the
    /// order R, G, B, A; they count where the pixels were due.
    pub fn advance(&mut self, ok: bool, pixels: Vec<u8>)
        ensures
            final(self).stage == old(self).next(ok),
            final(self).held@ == old(self).held@ + old(self).acquired(ok),
            final(self).height == old(self).height,
            final(self).stride == old(self).stride,
            seq_of(final(self).pixels) == if old(self).stage == EglStage::ReadPixels && ok {
                Some(red_blue_swapped(pixels@))
            } else {
                seq_of(old(self).pixels)
            },
    {
        let ghost before = self.held@;
        if !ok {
            self.stage = EglStage::Unwind;
            assert(self.held@ =~= before + old(self).acquired(ok));
            return;
        }
        match self.stage {
            EglStage::OpenNode => {
                self.held.push(EglResource::Node);
                self.stage = EglStage::CreateGbm;
            },
            EglStage::CreateGbm => {
                self.held.push(EglResource::Gbm);
                self.stage = EglStage::LoadLibrary;
            },
            EglStage::LoadLibrary => {
                self.stage = EglStage::LoadEgl;
            },
            EglStage::LoadEgl => {
                self.stage = EglStage::GetDisplay;
            },
            EglStage::GetDisplay => {
                self.stage = EglStage::Initialize;
            },
            EglStage::Initialize => {
                self.held.push(EglResource::Display);
                self.stage = EglStage::BindApi;
            },
            EglStage::BindApi => {
                self.stage = EglStage::ChooseConfig;
            },
            EglStage::ChooseConfig => {
                self.stage = EglStage::CreateContext;
            },
            EglStage::CreateContext => {
                self.held.push(EglResource::Context);
                self.stage = EglStage::MakeCurrent;
            },
            EglStage::MakeCurrent => {
                self.stage = EglStage::ResolveFunctions;
            },
            EglStage::ResolveFunctions => {
                self.stage = EglStage::CreateImage;
            },
            EglStage::CreateImage => {
                self.held.push(EglResource::Image);
                self.held.push(EglResource::Texture);
                self.held.push(EglResource::Framebuffer);
                self.stage = EglStage::AttachFramebuffer;
            },
            EglStage::AttachFramebuffer => {
                match self.read_len() {
                    Some(_) => {
                        self.stage = EglStage::ReadPixels;
                    },
                    None => {
                        self.stage = EglStage::Unwind;
                    },
                }
            },
            EglStage::ReadPixels => {
                let mut pixels: Vec<u8> = pixels;
                swap_red_blue(&mut pixels);
                self.pixels = Some(pixels);
                self.stage = EglStage::Unwind;
            },
            EglStage::Unwind => {},
        }
        assert(self.held@ =~= before + old(self).acquired(ok));
    }

    /// The next thing to give back, last acquired first; `None` once nothing is
    /// held, or while the read is still going on.
    pub fn release(&mut self) -> (r: Option<EglResource>)
        ensures
            final(self).stage == old(self).stage,
            final(self).pixels == old(self).pixels,
            old(self).stage != EglStage::Unwind || old(self).held@.len() == 0 ==> r is None
                && final(self).held@ == old(self).held@,
            old(self).stage == EglStage::Unwind && old(self).held@.len() > 0 ==> {
                &&& r == Some(old(self).held@.last())
                &&& final(self).held@ == old(self).held@.drop_last()
            },
    {
        if self.stage == EglStage::Unwind {
            self.held.pop()
        } else {
            None
        }
    }
}

/// The stages and outcomes of a run that has not failed, as far as `n` steps
/// from the start go.
pub open spec fn stage_at(n: int) -> EglStage {
    if n <= 0 {
        EglStage::OpenNode
    } else if n == 1 {
        EglStage::CreateGbm
    } else if n == 2 {
        EglStage::LoadLibrary
    } else if n == 3 {
        EglStage::LoadEgl
    } else if n == 4 {
        EglStage::GetDisplay
    } else if n == 5 {
        EglStage::Initialize
    } else if n == 6 {
        EglStage::BindApi
    } else if n == 7 {
        EglStage::ChooseConfig
    } else if n == 8 {
        EglStage::CreateContext
    } else if n == 9 {
        EglStage::MakeCurrent
    } else if n == 10 {
        EglStage::ResolveFunctions
    } else if n == 11 {
        EglStage::CreateImage
    } else if n == 12 {
        EglStage::AttachFramebuffer
    } else if n == 13 {
        EglStage::ReadPixels
    } else {
        EglStage::Unwind
    }
}

/// What is held once `n` steps have succeeded.
pub open spec fn held_after(n: int) -> Seq<EglResource> {
    (if n > 0 {
        seq![EglResource::Node]
    } else {
        Seq::empty()
    }) + (if n > 1 {
        seq![EglResource::Gbm]
    } else {
        Seq::empty()
    }) + (if n > 5 {
        seq![EglResource::Display]
    } else {
        Seq::empty()
    }) + (if n > 8 {
        seq![EglResource::Context]
    } else {
        Seq::empty()
    }) + (if n > 11 {
        seq![EglResource::Image, EglResource::Texture, EglResource::Framebuffer]
    } else {
        Seq::empty()
    })
}

/// Wherever a read fails, what it holds for giving back is what the steps before
/// acquired, and nothing of a later step: after `n` successes it stands at stage
/// `n` with exactly those resources.
pub proof fn failure_holds_what_was_acquired(rb: EglReadback, n: int)
    requires
        0 <= n < 13,
        rb.stage == stage_at(n),
        rb.held@ == held_after(n),
        !rb.oversized(),
    ensures
        rb.next(true) == stage_at(n + 1),
        rb.held@ + rb.acquired(true) == held_after(n + 1),
        rb.next(false) == EglStage::Unwind,
        rb.held@ + rb.acquired(false) == held_after(n),
{
    assert(rb.held@ + rb.acquired(true) =~= held_after(n + 1));
    assert(rb.held@ + rb.acquired(false) =~= held_after(n));
}


/// A step of opening a lasting EGL display on the render node.
#[derive(Clone, Copy, Debug, PartialEq, Eq, Structural)]
pub enum EglOpenStage {
    OpenNode,
    CreateGbm,
    LoadLibrary,
    LoadEgl,
    GetDisplay,
    Initialize,
    ResolveCreateImage,
    Ready,
    Unwind,
}

/// An EGL display on the render node, and what backs it.
pub struct EglCtx {
    pub stage: EglOpenStage,
    /// What is given back when opening fails, or when the display is closed:
    /// oldest first.
    pub held: Vec<EglResource>,
}

impl EglCtx {
    /// The stage after the due step.
    pub open spec fn next(&self, ok: bool) -> EglOpenStage {
        match self.stage {
            EglOpenStage::Ready => EglOpenStage::Ready,
            EglOpenStage::Unwind => EglOpenStage::Unwind,
            _ => if !ok {
                EglOpenStage::Unwind
            } else {
                match self.stage {
                    EglOpenStage::OpenNode => EglOpenStage::CreateGbm,
                    EglOpenStage::CreateGbm => EglOpenStage::LoadLibrary,
                    EglOpenStage::LoadLibrary => EglOpenStage::LoadEgl,
                    EglOpenStage::LoadEgl => EglOpenStage::GetDisplay,
                    EglOpenStage::GetDisplay => EglOpenStage::Initialize,
                    EglOpenStage::Initialize => EglOpenStage::ResolveCreateImage,
                    _ => EglOpenStage::Ready,
                }
            },
        }
    }

    /// What the due step adds to what is held. An open context also has its
    /// display to terminate.
    pub open spec fn acquired(&self, ok: bool) -> Seq<EglResource> {
        match self.stage {
            EglOpenStage::OpenNode if ok => seq![EglResource::Node],
            EglOpenStage::CreateGbm if ok => seq![EglResource::Gbm],
            EglOpenStage::ResolveCreateImage if ok => seq![EglResource::Display],
            _ => Seq::empty(),
        }
    }

    /// Starts opening a display.
    pub fn open() -> (r: EglCtx)
        ensures
            r.stage == EglOpenStage::OpenNode,
            r.held@.len() == 0,
    {
        EglCtx { stage: EglOpenStage::OpenNode, held: Vec::new() }
    }

    /// Takes the outcome of the due step.
    pub fn advance(&mut self, ok: bool)
        ensures
            final(self).stage == old(self).next(ok),
            final(self).held@ == old(self).held@ + old(self).acquired(ok),
    {
        let ghost before = self.held@;
        match self.stage {
            EglOpenStage::Ready => {},
            EglOpenStage::Unwind => {},
            _ => {
                if !ok {
                    self.stage = EglOpenStage::Unwind;
                } else {
                    match self.stage {
                        EglOpenStage::OpenNode => {
                            self.held.push(EglResource::Node);
                            self.stage = EglOpenStage::CreateGbm;
                        },
                        EglOpenStage::CreateGbm => {
                            self.held.push(EglResource::Gbm);
                            self.stage = EglOpenStage::LoadLibrary;
                        },
                        EglOpenStage::LoadLibrary => {
                            self.stage = EglOpenStage::LoadEgl;
                        },
                        EglOpenStage::LoadEgl => {
                            self.stage = EglOpenStage::GetDisplay;
                        },
                        EglOpenStage::GetDisplay => {
                            self.stage = EglOpenStage::Initialize;
                        },
                        EglOpenStage::Initialize => {
                            self.stage = EglOpenStage::ResolveCreateImage;
                        },
                        _ => {
                            self.held.push(EglResource::Display);
                            self.stage = EglOpenStage::Ready;
                        },
                    }
                }
            },
        }
        assert(self.held@ =~= before + old(self).acquired(ok));
    }

    /// The next thing to give back when the display is closed or its opening
    /// failed, last acquired first.
    pub fn release(&mut self) -> (r: Option<EglResource>)
        ensures
            final(self).stage == old(self).stage,
            r == if old(self).held@.len() > 0 {
                Some(old(self).held@.last())
            } else {
                None
            },
            final(self).held@ == if old(self).held@.len() > 0 {
                old(self).held@.drop_last()
            } else {
                old(self).held@
            },
    {
        self.held.pop()
    }
}

/// A dmabuf is imported as what it is: the list names width, height, format,
/// descriptor, offset and pitch of its first plane, each behind the key that EGL
/// knows it by, and for a tiled buffer both words of the modifier; it ends with the
/// terminator.
pub proof fn imports_describe_the_first_plane(
    fd: i32,
    planes: &[PlaneData],
    width: i32,
    height: i32,
    stride: i32,
    offset: u32,
    drm_format: u32,
    modifier: u64,
    r: Vec<i32>,
)
    requires
        call_ensures(
            import_attributes,
            (fd, planes, width, height, stride, offset, drm_format, modifier),
            r,
        ),
        offset <= i32::MAX,
        drm_format <= i32::MAX,
    ensures
        r@.len() >= 13,
        r@[0] == 0x3057 && r@[1] == width,
        r@[2] == 0x3056 && r@[3] == height,
        r@[4] == 0x3271 && r@[5] == drm_format,
        r@[6] == 0x3272 && r@[7] == fd,
        r@[8] == 0x3273 && r@[9] == offset,
        r@[10] == 0x3274 && r@[11] == stride,
        r@.last() == 0x3038,
        modifier != 0 ==> r@.len() >= 17 && r@[12] == 0x3443 && r@[13] == modifier_lo(modifier)
            && r@[14] == 0x3444 && r@[15] == modifier_hi(modifier),
        modifier == 0 && planes@.len() == 0 ==> r@.len() == 13,
        modifier != 0 && planes@.len() == 0 ==> r@.len() == 17,
{
}

/// The second and third planes of a tiled buffer are named like the first, each
/// under its own keys and with the same modifier; no more planes are named.
pub proof fn imports_describe_the_other_planes(
    fd: i32,
    planes: &[PlaneData],
    width: i32,
    height: i32,
    stride: i32,
    offset: u32,
    drm_format: u32,
    modifier: u64,
    r: Vec<i32>,
)
    requires
        call_ensures(
            import_attributes,
            (fd, planes, width, height, stride, offset, drm_format, modifier),
            r,
        ),
        modifier != 0,
        planes@.len() > 0,
        planes@[0].offset <= i32::MAX,
        planes@[0].stride <= i32::MAX,
        planes@.len() > 1 ==> planes@[1].offset <= i32::MAX && planes@[1].stride <= i32::MAX,
    ensures
        r@.len() == if planes@.len() == 1 {
            27nat
        } else {
            37nat
        },
        r@[16] == 0x3278 && r@[17] == planes@[0].fd,
        r@[18] == 0x3279 && r@[19] == planes@[0].offset,
        r@[20] == 0x327A && r@[21] == planes@[0].stride,
        r@[22] == 0x3445 && r@[23] == modifier_lo(modifier),
        r@[24] == 0x3446 && r@[25] == modifier_hi(modifier),
        planes@.len() > 1 ==> {
            &&& r@[26] == 0x3280 && r@[27] == planes@[1].fd
            &&& r@[28] == 0x3281 && r@[29] == planes@[1].offset
            &&& r@[30] == 0x3282 && r@[31] == planes@[1].stride
            &&& r@[32] == 0x3447 && r@[33] == modifier_lo(modifier)
            &&& r@[34] == 0x3448 && r@[35] == modifier_hi(modifier)
        },
{
}

/// Swapping moves the first byte of each whole pixel to the third place and the
/// third to the first, and leaves the second and the fourth, and what is left
/// over, where they are.
pub proof fn swapping_exchanges_red_and_blue(i: int)
    ensures
        forall|m: &mut Vec<u8>|
            0 <= i && i * 4 + 4 <= m@.len() && #[trigger] call_ensures(swap_red_blue, (m,), ())
                ==> {
                &&& final(m)@.len() == m@.len()
                &&& final(m)@[i * 4] == m@[i * 4 + 2]
                &&& final(m)@[i * 4 + 1] == m@[i * 4 + 1]
                &&& final(m)@[i * 4 + 2] == m@[i * 4]
                &&& final(m)@[i * 4 + 3] == m@[i * 4 + 3]
            },
{
}

/// The pixels of a read are those that the driver gave, with red and blue
/// exchanged; they are kept exactly where the reading itself was due and
/// succeeded.
pub proof fn pixels_come_from_the_reading(pixels: Vec<u8>, i: int)
    ensures
        forall|m: &mut EglReadback|
            m.stage == EglStage::ReadPixels && 0 <= i && i * 4 + 4 <= pixels@.len()
                && #[trigger] call_ensures(EglReadback::advance, (m, true, pixels), ()) ==> {
                &&& final(m).stage == EglStage::Unwind
                &&& final(m).pixels matches Some(p) && p@.len() == pixels@.len() && p@[i * 4]
                    == pixels@[i * 4 + 2] && p@[i * 4 + 1] == pixels@[i * 4 + 1] && p@[i * 4 + 2]
                    == pixels@[i * 4] && p@[i * 4 + 3] == pixels@[i * 4 + 3]
                &&& final(m).held@ == m.held@
            },
        forall|m: &mut EglReadback, ok: bool|
            (m.stage != EglStage::ReadPixels || !ok) && #[trigger] call_ensures(
                EglReadback::advance,
                (m, ok, pixels),
                (),
            ) ==> seq_of(final(m).pixels) == seq_of(m.pixels),
{
}

/// A step that fails ends the read and acquires nothing; what is too large to be
/// read is given up once the framebuffer is attached.
pub proof fn failed_reads_unwind(pixels: Vec<u8>)
    ensures
        forall|m: &mut EglReadback|
            #[trigger] call_ensures(EglReadback::advance, (m, false, pixels), ()) ==> final(m).stage
                == EglStage::Unwind && final(m).held@ == m.held@,
        forall|m: &mut EglReadback|
            m.stage == EglStage::AttachFramebuffer && m.height > 0 && m.stride > 0
                && #[trigger] call_ensures(EglReadback::advance, (m, true, pixels), ()) ==> (
            final(m).stage == EglStage::ReadPixels <==> m.height * m.stride <= 256 * 1024 * 1024),
        forall|m: &mut EglReadback, r: Option<EglResource>|
            #[trigger] call_ensures(EglReadback::release, (m,), r) ==> {
                &&& r is Some <==> m.stage == EglStage::Unwind && m.held@.len() > 0
                &&& r matches Some(g) ==> final(m).held@.push(g) == m.held@
                &&& final(m).pixels == m.pixels
            },
{
}

/// A configuration for reading has eight bits of each of red, green, blue and
/// alpha, and is for OpenGL ES 2, as is the context.
pub proof fn reading_takes_eight_bits_a_channel(config: [i32; 11], context: [i32; 3])
    requires
        call_ensures(config_attributes, (), config),
        call_ensures(context_attributes, (), context),
    ensures
        config@ == seq![
            0x3024i32,
            8,
            0x3023,
            8,
            0x3022,
            8,
            0x3021,
            8,
            0x3040,
            4,
            0x3038,
        ],
        context@ == seq![0x3098i32, 2, 0x3038],
{
}

/// A lasting display is opened step by step, holds its node and its GBM device
/// from the steps that open them, and is itself held once it is ready; a step that
/// fails leaves what was held before it to be given back.
pub proof fn displays_open_step_by_step(ok: bool)
    ensures
        forall|m: &mut EglCtx|
            #[trigger] call_ensures(EglCtx::advance, (m, ok), ()) ==> {
                &&& ok ==> {
                    &&& m.stage == EglOpenStage::OpenNode ==> final(m).stage
                        == EglOpenStage::CreateGbm && final(m).held@ == m.held@.push(
                        EglResource::Node,
                    )
                    &&& m.stage == EglOpenStage::CreateGbm ==> final(m).stage
                        == EglOpenStage::LoadLibrary && final(m).held@ == m.held@.push(
                        EglResource::Gbm,
                    )
                    &&& m.stage == EglOpenStage::LoadLibrary ==> final(m).stage
                        == EglOpenStage::LoadEgl && final(m).held@ == m.held@
                    &&& m.stage == EglOpenStage::LoadEgl ==> final(m).stage
                        == EglOpenStage::GetDisplay && final(m).held@ == m.held@
                    &&& m.stage == EglOpenStage::GetDisplay ==> final(m).stage
                        == EglOpenStage::Initialize && final(m).held@ == m.held@
                    &&& m.stage == EglOpenStage::Initialize ==> final(m).stage
                        == EglOpenStage::ResolveCreateImage && final(m).held@ == m.held@
                    &&& m.stage == EglOpenStage::ResolveCreateImage ==> final(m).stage
                        == EglOpenStage::Ready && final(m).held@ == m.held@.push(
                        EglResource::Display,
                    )
                }
                &&& !ok && m.stage != EglOpenStage::Ready ==> final(m).stage == EglOpenStage::Unwind
                    && final(m).held@ == m.held@
                &&& m.stage == EglOpenStage::Ready ==> final(m).stage == EglOpenStage::Ready
                    && final(m).held@ == m.held@
            },
{
}

/// Reading starts with nothing held, for the picture's own rows; what is held is
/// released last in, first out, and nothing is released twice.
pub proof fn reads_release_what_they_hold(
    height: i32,
    stride: i32,
    begun: EglReadback,
    opened: EglCtx,
    rb: EglReadback,
    len: Option<usize>,
    r: Option<EglResource>,
)
    requires
        call_ensures(EglReadback::begin, (height, stride), begun),
        call_ensures(EglCtx::open, (), opened),
        rb.height >= 0,
        rb.stride >= 0,
        call_ensures(EglReadback::read_len, (&rb,), len),
    ensures
        begun.stage == EglStage::OpenNode && begun.held@.len() == 0 && begun.pixels is None,
        begun.height == height && begun.stride == stride,
        opened.stage == EglOpenStage::OpenNode && opened.held@.len() == 0,
        len is Some <==> rb.height * rb.stride <= 256 * 1024 * 1024,
        len matches Some(n) ==> n == rb.height * rb.stride,
        forall|m: &mut EglReadback|
            #[trigger] call_ensures(EglReadback::release, (m,), r) ==> {
                &&& r is Some <==> m.stage == EglStage::Unwind && m.held@.len() > 0
                &&& r matches Some(h) ==> m.held@ == final(m).held@.push(h)
                &&& r is None ==> final(m).held@ == m.held@
                &&& final(m).pixels == m.pixels
            },
        forall|m: &mut EglCtx|
            #[trigger] call_ensures(EglCtx::release, (m,), r) ==> {
                &&& r is Some <==> m.held@.len() > 0
                &&& r matches Some(h) ==> m.held@ == final(m).held@.push(h)
                &&& r is None ==> final(m).held@ == m.held@
            },
{
    assert(rb.height == 0 || rb.stride == 0 ==> rb.height * rb.stride == 0) by (nonlinear_arith);
    assert forall|m: &mut EglReadback|
        #[trigger] call_ensures(EglReadback::release, (m,), r) && r is Some implies m.held@
        == final(m).held@.push(r->0) by {
        assert(m.held@ =~= final(m).held@.push(r->0));
    }
    assert forall|m: &mut EglCtx| #[trigger] call_ensures(EglCtx::release, (m,), r) && r is Some
        implies m.held@ == final(m).held@.push(r->0) by {
        assert(m.held@ =~= final(m).held@.push(r->0));
    }
}

/// A read through EGL goes through its calls one by one, and holds the node, the
/// device, the display, the context and what the image brings as soon as it has
/// each of them.
pub proof fn reads_go_step_by_step(pixels: Vec<u8>)
    ensures
        forall|m: &mut EglReadback|
            #[trigger] call_ensures(EglReadback::advance, (m, true, pixels), ()) ==> {
                &&& final(m).height == m.height && final(m).stride == m.stride
                &&& m.stage == EglStage::OpenNode ==> final(m).stage == EglStage::CreateGbm && final(m).held@ == m.held@.push(EglResource::Node)
                &&& m.stage == EglStage::CreateGbm ==> final(m).stage == EglStage::LoadLibrary
                    && final(m).held@ == m.held@.push(EglResource::Gbm)
                &&& m.stage == EglStage::LoadLibrary ==> final(m).stage == EglStage::LoadEgl
                &&& m.stage == EglStage::LoadEgl ==> final(m).stage == EglStage::GetDisplay
                &&& m.stage == EglStage::GetDisplay ==> final(m).stage == EglStage::Initialize
                &&& m.stage == EglStage::Initialize ==> final(m).stage == EglStage::BindApi
                    && final(m).held@ == m.held@.push(EglResource::Display)
                &&& m.stage == EglStage::BindApi ==> final(m).stage == EglStage::ChooseConfig
                &&& m.stage == EglStage::ChooseConfig ==> final(m).stage == EglStage::CreateContext
                &&& m.stage == EglStage::CreateContext ==> final(m).stage == EglStage::MakeCurrent
                    && final(m).held@ == m.held@.push(EglResource::Context)
                &&& m.stage == EglStage::MakeCurrent ==> final(m).stage
                    == EglStage::ResolveFunctions
                &&& m.stage == EglStage::ResolveFunctions ==> final(m).stage
                    == EglStage::CreateImage
                &&& m.stage == EglStage::CreateImage ==> final(m).stage
                    == EglStage::AttachFramebuffer && final(m).held@ == m.held@.push(
                    EglResource::Image,
                ).push(EglResource::Texture).push(EglResource::Framebuffer)
                &&& m.stage == EglStage::Unwind ==> final(m).stage == EglStage::Unwind
            },
{
}

} // verus!
