//! Lossless GPU recording with the FFV1 Vulkan encoder: bring-up, the copy that
//! feeds it, and collecting its packets.

use vstd::prelude::*;
use vstd::string::*;

use crate::text::{dec, decimal};

verus! {

/// One encoded packet.
pub struct EncodedPacket {
    pub data: Vec<u8>,
    pub pts_us: i64,
    pub is_keyframe: bool,
}

/// A step of opening the encoder.
#[derive(Clone, Copy, Debug, PartialEq, Eq, Structural)]
pub enum Ffv1Stage {
    AllocDevice,
    SetDevice,
    InitDevice,
    AllocFrames,
    SetFrames,
    InitFrames,
    FindCodec,
    AllocContext,
    OpenCodec,
    CreatePool,
    AllocateBuffer,
    Ready,
    Failed,
}

/// Something the encoder holds.
#[derive(Clone, Copy, Debug, PartialEq, Eq, Structural)]
pub enum Ffv1Resource {
    Device,
    Frames,
    Codec,
    Pool,
}

/// A pixel format of the codec library.
#[derive(Clone, Copy, Debug, PartialEq, Eq, Structural)]
pub enum PixelFormat {
    /// An image on the Vulkan device.
    Vulkan,
    /// Four bytes per pixel: B, G, R, A.
    Bgra,
}

/// A fraction.
#[derive(Clone, Copy, Debug, PartialEq, Eq, Structural)]
pub struct Rational {
    pub num: i32,
    pub den: i32,
}

/// The pool of frames that the encoder reads from.
#[derive(Clone, Copy, Debug, PartialEq, Eq, Structural)]
pub struct FramePool {
    pub format: PixelFormat,
    pub sw_format: PixelFormat,
    pub width: i32,
    pub height: i32,
    pub initial_pool_size: i32,
    /// Image tiling; zero is optimal.
    pub tiling: u32,
    /// Image usage beyond the library's defaults.
    pub extra_usage: u32,
}

/// What the codec is opened with, besides the device and the frame pool.
#[derive(Clone, Copy, Debug, PartialEq, Eq, Structural)]
pub struct CodecSettings {
    pub width: i32,
    pub height: i32,
    pub pix_fmt: PixelFormat,
    /// Seconds per tick of a timestamp.
    pub time_base: Rational,
    pub framerate: Rational,
}

/// The encoder's name in the codec library.
pub const ENCODER_NAME: &'static str = "ffv1_vulkan";

/// Frames in the pool: one encode is in flight at a time.
pub const FRAME_POOL_SIZE: i32 = 4;

/// The call that opening the encoder waits for, with its parameters.
#[derive(Clone, Copy, Debug, PartialEq, Eq)]
pub enum Ffv1Call {
    /// Allocate a Vulkan device context.
    AllocDevice,
    /// Hand it the device, with the queue families for computing and for
    /// encoding.
    SetDevice { device: u64, compute_queue_family: u32, encode_queue_family: u32 },
    InitDevice,
    AllocFrames,
    SetFrames(FramePool),
    InitFrames,
    /// Find the encoder of that name.
    FindCodec(&'static str),
    AllocContext,
    OpenCodec(CodecSettings),
    /// Create a pool of command buffers that can be reset one by one.
    CreatePool { queue_family: u32 },
    /// Allocate that many primary command buffers.
    AllocateBuffer { count: u32 },
    Nothing,
}

/// An encoder for frames of one size, bound to one Vulkan device.
pub struct Ffv1VkEncoder {
    pub stage: Ffv1Stage,
    /// What has been acquired, oldest first.
    pub held: Vec<Ffv1Resource>,
    pub width: u32,
    pub height: u32,
    pub device: u64,
    pub compute_queue_family: u32,
    pub encode_queue_family: u32,
    pub extradata: Vec<u8>,
    pub next_frame_index: i64,
    /// Why opening failed.
    pub error: Option<String>,
}

/// Whether a call with return code `code` counts as failed at `stage`. Calls
/// that return a pointer report a null pointer as a nonzero code.
pub open spec fn step_failed(stage: Ffv1Stage, code: i32) -> bool {
    match stage {
        Ffv1Stage::InitDevice | Ffv1Stage::InitFrames | Ffv1Stage::OpenCodec => code < 0,
        _ => code != 0,
    }
}

/// The message for a failure at `stage`; `detail` is the library's own text.
pub open spec fn failure_text(stage: Ffv1Stage, code: i32, detail: Seq<char>) -> Seq<char> {
    match stage {
        Ffv1Stage::AllocDevice => "av_hwdevice_ctx_alloc(VULKAN) returned null"@,
        Ffv1Stage::SetDevice => "waymux_avvk_set_device returned "@ + decimal(code as int),
        Ffv1Stage::InitDevice => "av_hwdevice_ctx_init(VULKAN) returned "@ + detail,
        Ffv1Stage::AllocFrames => "av_hwframe_ctx_alloc returned null"@,
        Ffv1Stage::SetFrames => "waymux_avvk_set_frames returned "@ + decimal(code as int),
        Ffv1Stage::InitFrames => "av_hwframe_ctx_init returned "@ + detail,
        Ffv1Stage::FindCodec => "ffv1_vulkan encoder not found in this ffmpeg build"@,
        Ffv1Stage::AllocContext => "avcodec_alloc_context3 returned null"@,
        Ffv1Stage::OpenCodec => "avcodec_open2(ffv1_vulkan): "@ + detail,
        Ffv1Stage::CreatePool => "create_command_pool: "@ + detail,
        Ffv1Stage::AllocateBuffer => "allocate_command_buffers: "@ + detail,
        _ => Seq::empty(),
    }
}

/// The stage after a successful step.
pub open spec fn stage_after(stage: Ffv1Stage) -> Ffv1Stage {
    match stage {
        Ffv1Stage::AllocDevice => Ffv1Stage::SetDevice,
        Ffv1Stage::SetDevice => Ffv1Stage::InitDevice,
        Ffv1Stage::InitDevice => Ffv1Stage::AllocFrames,
        Ffv1Stage::AllocFrames => Ffv1Stage::SetFrames,
        Ffv1Stage::SetFrames => Ffv1Stage::InitFrames,
        Ffv1Stage::InitFrames => Ffv1Stage::FindCodec,
        Ffv1Stage::FindCodec => Ffv1Stage::AllocContext,
        Ffv1Stage::AllocContext => Ffv1Stage::OpenCodec,
        Ffv1Stage::OpenCodec => Ffv1Stage::CreatePool,
        Ffv1Stage::CreatePool => Ffv1Stage::AllocateBuffer,
        Ffv1Stage::AllocateBuffer => Ffv1Stage::Ready,
        Ffv1Stage::Ready => Ffv1Stage::Ready,
        Ffv1Stage::Failed => Ffv1Stage::Failed,
    }
}

/// What a successful step acquires.
pub open spec fn stage_acquires(stage: Ffv1Stage) -> Seq<Ffv1Resource> {
    match stage {
        Ffv1Stage::AllocDevice => seq![Ffv1Resource::Device],
        Ffv1Stage::AllocFrames => seq![Ffv1Resource::Frames],
        Ffv1Stage::AllocContext => seq![Ffv1Resource::Codec],
        Ffv1Stage::CreatePool => seq![Ffv1Resource::Pool],
        _ => Seq::empty(),
    }
}

/// What is held while `stage` is due.
pub open spec fn held_at(stage: Ffv1Stage) -> Seq<Ffv1Resource> {
    match stage {
        Ffv1Stage::AllocDevice => Seq::empty(),
        Ffv1Stage::SetDevice | Ffv1Stage::InitDevice | Ffv1Stage::AllocFrames => seq![
            Ffv1Resource::Device,
        ],
        Ffv1Stage::SetFrames | Ffv1Stage::InitFrames | Ffv1Stage::FindCodec
        | Ffv1Stage::AllocContext => seq![Ffv1Resource::Device, Ffv1Resource::Frames],
        Ffv1Stage::OpenCodec | Ffv1Stage::CreatePool => seq![
            Ffv1Resource::Device,
            Ffv1Resource::Frames,
            Ffv1Resource::Codec,
        ],
        _ => seq![
            Ffv1Resource::Device,
            Ffv1Resource::Frames,
            Ffv1Resource::Codec,
            Ffv1Resource::Pool,
        ],
    }
}

impl Ffv1VkEncoder {
    /// While it opens, and once open, an encoder holds what its stage says.
    pub open spec fn wf(&self) -> bool {
        &&& self.stage != Ffv1Stage::Failed ==> self.held@ == held_at(self.stage)
            && self.error is None
        &&& self.stage == Ffv1Stage::Failed ==> self.error is Some
        &&& self.width % 2 == 0
        &&& self.height % 2 == 0
    }

    /// Starts opening an encoder. The encoder needs even dimensions.
    pub fn open(
        device: u64,
        compute_queue_family: u32,
        encode_queue_family: u32,
        width: u32,
        height: u32,
    ) -> (r: Result<Ffv1VkEncoder, String>)
        ensures
            match r {
                Ok(e) => {
                    &&& width % 2 == 0 && height % 2 == 0
                    &&& e.wf()
                    &&& e.stage == Ffv1Stage::AllocDevice
                    &&& e.width == width
                    &&& e.height == height
                    &&& e.device == device
                    &&& e.compute_queue_family == compute_queue_family
                    &&& e.encode_queue_family == encode_queue_family
                    &&& e.extradata@.len() == 0
                    &&& e.next_frame_index == 0
                },
                Err(msg) => {
                    &&& width % 2 != 0 || height % 2 != 0
                    &&& msg@ == "ffv1_vulkan needs even dims, got "@ + decimal(width as int) + "x"@
                        + decimal(height as int)
                },
            },
    {
        if width % 2 != 0 || height % 2 != 0 {
            let mut s: String = String::from_str("ffv1_vulkan needs even dims, got ");
            s.append(dec(width as i64).as_str());
            s.append("x");
            s.append(dec(height as i64).as_str());
            return Err(s);
        }
        let e = Ffv1VkEncoder {
            stage: Ffv1Stage::AllocDevice,
            held: Vec::new(),
            width,
            height,
            device,
            compute_queue_family,
            encode_queue_family,
            extradata: Vec::new(),
            next_frame_index: 0,
            error: None,
        };
        assert(e.held@ =~= held_at(e.stage));
        Ok(e)
    }

    /// The pool of frames that the encoder reads from.
    pub open spec fn frame_pool(&self) -> FramePool {
        FramePool {
            format: PixelFormat::Vulkan,
            sw_format: PixelFormat::Bgra,
            width: self.width as i32,
            height: self.height as i32,
            initial_pool_size: FRAME_POOL_SIZE,
            tiling: 0,
            extra_usage: 0,
        }
    }

    /// What the codec is opened with: timestamps count microseconds.
    pub open spec fn codec_settings(&self) -> CodecSettings {
        CodecSettings {
            width: self.width as i32,
            height: self.height as i32,
            pix_fmt: PixelFormat::Vulkan,
            time_base: Rational { num: 1, den: 1_000_000 },
            framerate: Rational { num: 60, den: 1 },
        }
    }

    /// The call that is due.
    pub fn call(&self) -> (r: Ffv1Call)
        ensures
            r == match self.stage {
                Ffv1Stage::AllocDevice => Ffv1Call::AllocDevice,
                Ffv1Stage::SetDevice => Ffv1Call::SetDevice {
                    device: self.device,
                    compute_queue_family: self.compute_queue_family,
                    encode_queue_family: self.encode_queue_family,
                },
                Ffv1Stage::InitDevice => Ffv1Call::InitDevice,
                Ffv1Stage::AllocFrames => Ffv1Call::AllocFrames,
                Ffv1Stage::SetFrames => Ffv1Call::SetFrames(self.frame_pool()),
                Ffv1Stage::InitFrames => Ffv1Call::InitFrames,
                Ffv1Stage::FindCodec => Ffv1Call::FindCodec(ENCODER_NAME),
                Ffv1Stage::AllocContext => Ffv1Call::AllocContext,
                Ffv1Stage::OpenCodec => Ffv1Call::OpenCodec(self.codec_settings()),
                Ffv1Stage::CreatePool => Ffv1Call::CreatePool {
                    queue_family: self.compute_queue_family,
                },
                Ffv1Stage::AllocateBuffer => Ffv1Call::AllocateBuffer { count: 1 },
                Ffv1Stage::Ready | Ffv1Stage::Failed => Ffv1Call::Nothing,
            },
    {
        match self.stage {
            Ffv1Stage::AllocDevice => Ffv1Call::AllocDevice,
            Ffv1Stage::SetDevice => Ffv1Call::SetDevice {
                device: self.device,
                compute_queue_family: self.compute_queue_family,
                encode_queue_family: self.encode_queue_family,
            },
            Ffv1Stage::InitDevice => Ffv1Call::InitDevice,
            Ffv1Stage::AllocFrames => Ffv1Call::AllocFrames,
            Ffv1Stage::SetFrames => Ffv1Call::SetFrames(
                FramePool {
                    format: PixelFormat::Vulkan,
                    sw_format: PixelFormat::Bgra,
                    width: self.width as i32,
                    height: self.height as i32,
                    initial_pool_size: FRAME_POOL_SIZE,
                    tiling: 0,
                    extra_usage: 0,
                },
            ),
            Ffv1Stage::InitFrames => Ffv1Call::InitFrames,
            Ffv1Stage::FindCodec => Ffv1Call::FindCodec(ENCODER_NAME),
            Ffv1Stage::AllocContext => Ffv1Call::AllocContext,
            Ffv1Stage::OpenCodec => Ffv1Call::OpenCodec(
                CodecSettings {
                    width: self.width as i32,
                    height: self.height as i32,
                    pix_fmt: PixelFormat::Vulkan,
                    time_base: Rational { num: 1, den: 1_000_000 },
                    framerate: Rational { num: 60, den: 1 },
                },
            ),
            Ffv1Stage::CreatePool => Ffv1Call::CreatePool {
                queue_family: self.compute_queue_family,
            },
            Ffv1Stage::AllocateBuffer => Ffv1Call::AllocateBuffer { count: 1 },
            Ffv1Stage::Ready => Ffv1Call::Nothing,
            Ffv1Stage::Failed => Ffv1Call::Nothing,
        }
    }

    /// Takes the outcome of the due step: its return code, the library's error
    /// text, and the codec's extradata where the codec was being opened.
    pub fn advance(&mut self, code: i32, detail: &str, extradata: Vec<u8>)
        requires
            old(self).wf(),
            old(self).stage != Ffv1Stage::Ready,
            old(self).stage != Ffv1Stage::Failed,
        ensures
            final(self).wf(),
            step_failed(old(self).stage, code) ==> {
                &&& final(self).stage == Ffv1Stage::Failed
                &&& final(self).held@ == old(self).held@
                &&& final(self).error matches Some(msg)
                &&& msg@ == failure_text(old(self).stage, code, detail@)
                &&& final(self).extradata@ == old(self).extradata@
            },
            !step_failed(old(self).stage, code) ==> {
                &&& final(self).stage == stage_after(old(self).stage)
                &&& final(self).held@ == old(self).held@ + stage_acquires(old(self).stage)
                &&& final(self).extradata@ == if old(self).stage == Ffv1Stage::OpenCodec {
                    extradata@
                } else {
                    old(self).extradata@
                }
            },
            final(self).width == old(self).width,
            final(self).height == old(self).height,
            final(self).device == old(self).device,
            final(self).compute_queue_family == old(self).compute_queue_family,
            final(self).encode_queue_family == old(self).encode_queue_family,
            final(self).next_frame_index == old(self).next_frame_index,
    {
        let failed: bool = match self.stage {
            Ffv1Stage::InitDevice | Ffv1Stage::InitFrames | Ffv1Stage::OpenCodec => code < 0,
            _ => code != 0,
        };
        if failed {
            let msg: String = failure_message(self.stage, code, detail);
            self.error = Some(msg);
            self.stage = Ffv1Stage::Failed;
            return;
        }
        let ghost before = self.held@;
        match self.stage {
            Ffv1Stage::AllocDevice => {
                self.held.push(Ffv1Resource::Device);
                self.stage = Ffv1Stage::SetDevice;
            },
            Ffv1Stage::SetDevice => {
                self.stage = Ffv1Stage::InitDevice;
            },
            Ffv1Stage::InitDevice => {
                self.stage = Ffv1Stage::AllocFrames;
            },
            Ffv1Stage::AllocFrames => {
                self.held.push(Ffv1Resource::Frames);
                self.stage = Ffv1Stage::SetFrames;
            },
            Ffv1Stage::SetFrames => {
                self.stage = Ffv1Stage::InitFrames;
            },
            Ffv1Stage::InitFrames => {
                self.stage = Ffv1Stage::FindCodec;
            },
            Ffv1Stage::FindCodec => {
                self.stage = Ffv1Stage::AllocContext;
            },
            Ffv1Stage::AllocContext => {
                self.held.push(Ffv1Resource::Codec);
                self.stage = Ffv1Stage::OpenCodec;
            },
            Ffv1Stage::OpenCodec => {
                self.extradata = extradata;
                self.stage = Ffv1Stage::CreatePool;
            },
            Ffv1Stage::CreatePool => {
                self.held.push(Ffv1Resource::Pool);
                self.stage = Ffv1Stage::AllocateBuffer;
            },
            Ffv1Stage::AllocateBuffer => {
                self.stage = Ffv1Stage::Ready;
            },
            Ffv1Stage::Ready => {},
            Ffv1Stage::Failed => {},
        }
        assert(self.held@ =~= before + stage_acquires(old(self).stage));
        assert(self.held@ =~= held_at(self.stage));
    }

    /// The next thing to give back after a failure, last acquired first.
    pub fn release(&mut self) -> (r: Option<Ffv1Resource>)
        requires
            old(self).wf(),
        ensures
            final(self).wf(),
            final(self).stage == old(self).stage,
            final(self).error == old(self).error,
            r == if old(self).stage == Ffv1Stage::Failed && old(self).held@.len() > 0 {
                Some(old(self).held@.last())
            } else {
                None
            },
            final(self).held@ == if old(self).stage == Ffv1Stage::Failed && old(self).held@.len()
                > 0 {
                old(self).held@.drop_last()
            } else {
                old(self).held@
            },
    {
        if self.stage == Ffv1Stage::Failed {
            self.held.pop()
        } else {
            None
        }
    }

    /// What dropping an open encoder gives back, in order: everything it holds
    /// but the command pool, which goes with the device.
    pub fn closing(&self) -> (r: Vec<Ffv1Resource>)
        requires
            self.wf(),
            self.stage == Ffv1Stage::Ready,
        ensures
            r@ == seq![Ffv1Resource::Codec, Ffv1Resource::Frames, Ffv1Resource::Device],
            r@ == self.held@.drop_last().reverse(),
    {
        let r: Vec<Ffv1Resource> = vec![
            Ffv1Resource::Codec,
            Ffv1Resource::Frames,
            Ffv1Resource::Device,
        ];
        assert(r@ =~= self.held@.drop_last().reverse());
        r
    }

    /// Extradata for the container's codec-private field.
    pub fn extradata(&self) -> (r: &[u8])
        ensures
            r@ == self.extradata@,
    {
        self.extradata.as_slice()
    }

    pub fn width(&self) -> (r: u32)
        ensures
            r == self.width,
    {
        self.width
    }

    pub fn height(&self) -> (r: u32)
        ensures
            r == self.height,
    {
        self.height
    }
}

fn failure_message(stage: Ffv1Stage, code: i32, detail: &str) -> (r: String)
    ensures
        r@ == failure_text(stage, code, detail@),
{
    match stage {
        Ffv1Stage::AllocDevice => String::from_str("av_hwdevice_ctx_alloc(VULKAN) returned null"),
        Ffv1Stage::SetDevice => String::from_str("waymux_avvk_set_device returned ").concat(
            dec(code as i64).as_str(),
        ),
        Ffv1Stage::InitDevice => String::from_str("av_hwdevice_ctx_init(VULKAN) returned ").concat(
            detail,
        ),
        Ffv1Stage::AllocFrames => String::from_str("av_hwframe_ctx_alloc returned null"),
        Ffv1Stage::SetFrames => String::from_str("waymux_avvk_set_frames returned ").concat(
            dec(code as i64).as_str(),
        ),
        Ffv1Stage::InitFrames => String::from_str("av_hwframe_ctx_init returned ").concat(detail),
        Ffv1Stage::FindCodec => String::from_str(
            "ffv1_vulkan encoder not found in this ffmpeg build",
        ),
        Ffv1Stage::AllocContext => String::from_str("avcodec_alloc_context3 returned null"),
        Ffv1Stage::OpenCodec => String::from_str("avcodec_open2(ffv1_vulkan): ").concat(detail),
        Ffv1Stage::CreatePool => String::from_str("create_command_pool: ").concat(detail),
        Ffv1Stage::AllocateBuffer => String::from_str("allocate_command_buffers: ").concat(detail),
        _ => String::new(),
    }
}

/// A tick of the encoder's time base is a microsecond: the timestamps of frames
/// and packets, which count microseconds, are exchanged with it unscaled.
pub proof fn timestamps_count_microseconds(enc: Ffv1VkEncoder)
    ensures
        enc.codec_settings().time_base.num > 0,
        enc.codec_settings().time_base.num * 1_000_000 == enc.codec_settings().time_base.den,
{
}

/// Whichever step of opening fails, exactly what the earlier steps acquired is
/// left to give back.
pub proof fn failed_open_leaks_nothing(stage: Ffv1Stage)
    requires
        stage != Ffv1Stage::Ready,
        stage != Ffv1Stage::Failed,
    ensures
        held_at(stage) + stage_acquires(stage) == held_at(stage_after(stage)),
        held_at(Ffv1Stage::AllocDevice) == Seq::<Ffv1Resource>::empty(),
{
    assert(held_at(stage) + stage_acquires(stage) =~= held_at(stage_after(stage)));
}

/// Layout, access and pipeline stage of a Vulkan image.
#[derive(Clone, Copy, Debug, PartialEq, Eq, Structural)]
pub struct ImageState {
    pub layout: i32,
    pub access: u64,
    pub stage: u64,
}

pub const LAYOUT_GENERAL: i32 = 1;

pub const LAYOUT_TRANSFER_SRC_OPTIMAL: i32 = 6;

pub const LAYOUT_TRANSFER_DST_OPTIMAL: i32 = 7;

pub const ACCESS_SHADER_READ: u64 = 0x20;

pub const ACCESS_TRANSFER_READ: u64 = 0x800;

pub const ACCESS_TRANSFER_WRITE: u64 = 0x1000;

pub const STAGE_ALL_COMMANDS: u64 = 0x1_0000;

pub const STAGE_COPY: u64 = 0x1_0000_0000;

/// A transition of one image.
#[derive(Clone, Copy, Debug, PartialEq, Eq, Structural)]
pub struct ImageBarrier {
    pub image: u64,
    pub from: ImageState,
    pub to: ImageState,
}

/// The image handed to the encoder for one frame.
#[derive(Clone, Copy, Debug, PartialEq, Eq, Structural)]
pub struct FrameInputView {
    pub image: u64,
    pub state: ImageState,
    pub queue_family: u32,
}

/// The encoder's pool image that receives the frame.
#[derive(Clone, Copy, Debug, PartialEq, Eq, Structural)]
pub struct PoolFrame {
    pub image: u64,
    pub layout: i32,
    pub access: u32,
    pub queue_family: u32,
    pub sem_value: u64,
}

/// The copy of one frame into the encoder's pool.
#[derive(Clone, Copy, Debug, PartialEq, Eq, Structural)]
pub struct CopyPlan {
    /// Transitions before the copy.
    pub source: ImageBarrier,
    pub target: ImageBarrier,
    /// Transition after the copy.
    pub finish: ImageBarrier,
    pub width: u32,
    pub height: u32,
    /// Timeline value the copy waits for, and the one it signals.
    pub wait: u64,
    pub signal: u64,
    /// Queue family that keeps owning the pool image.
    pub queue_family: u32,
}

/// The state a frame's image is in while and after it is copied from.
pub open spec fn copied_state() -> ImageState {
    ImageState {
        layout: LAYOUT_TRANSFER_SRC_OPTIMAL,
        access: ACCESS_TRANSFER_READ,
        stage: STAGE_COPY,
    }
}

/// The copy of `input` into `pool`.
pub open spec fn copy_plan_of(
    input: FrameInputView,
    pool: PoolFrame,
    width: u32,
    height: u32,
) -> CopyPlan {
    let written = ImageState {
        layout: LAYOUT_TRANSFER_DST_OPTIMAL,
        access: ACCESS_TRANSFER_WRITE,
        stage: STAGE_COPY,
    };
    CopyPlan {
        source: ImageBarrier { image: input.image, from: input.state, to: copied_state() },
        target: ImageBarrier {
            image: pool.image,
            from: ImageState {
                layout: pool.layout,
                access: pool.access as u64,
                stage: STAGE_ALL_COMMANDS,
            },
            to: written,
        },
        finish: ImageBarrier {
            image: pool.image,
            from: written,
            to: ImageState {
                layout: LAYOUT_GENERAL,
                access: ACCESS_SHADER_READ,
                stage: STAGE_ALL_COMMANDS,
            },
        },
        width,
        height,
        wait: pool.sem_value,
        signal: (pool.sem_value + 1) as u64,
        queue_family: pool.queue_family,
    }
}

impl Ffv1VkEncoder {
    /// Checks that a frame can go to this encoder: same device, and an image
    /// owned by the queue family that the encoder runs on.
    pub fn check_input(&self, device: u64, input: &FrameInputView) -> (r: Result<(), String>)
        ensures
            match r {
                Ok(()) => device == self.device && input.queue_family == self.compute_queue_family,
                Err(msg) => if device != self.device {
                    msg@ == "VkDeviceCtx changed between Ffv1VkEncoder::open and encode_one"@
                } else {
                    &&& input.queue_family != self.compute_queue_family
                    &&& msg@ == "input image on QF "@ + decimal(input.queue_family as int)
                        + " but encoder runs on QF "@ + decimal(self.compute_queue_family as int)
                },
            },
    {
        if device != self.device {
            return Err(
                String::from_str("VkDeviceCtx changed between Ffv1VkEncoder::open and encode_one"),
            );
        }
        if input.queue_family != self.compute_queue_family {
            let mut s: String = String::from_str("input image on QF ");
            s.append(dec(input.queue_family as i64).as_str());
            s.append(" but encoder runs on QF ");
            s.append(dec(self.compute_queue_family as i64).as_str());
            return Err(s);
        }
        Ok(())
    }

    /// The copy that moves a frame into the encoder's pool image.
    pub fn encode_one(&self, input: &FrameInputView, pool: &PoolFrame) -> (r: CopyPlan)
        requires
            pool.sem_value < u64::MAX,
        ensures
            r == copy_plan_of(*input, *pool, self.width, self.height),
    {
        let written = ImageState {
            layout: LAYOUT_TRANSFER_DST_OPTIMAL,
            access: ACCESS_TRANSFER_WRITE,
            stage: STAGE_COPY,
        };
        CopyPlan {
            source: ImageBarrier {
                image: input.image,
                from: input.state,
                to: ImageState {
                    layout: LAYOUT_TRANSFER_SRC_OPTIMAL,
                    access: ACCESS_TRANSFER_READ,
                    stage: STAGE_COPY,
                },
            },
            target: ImageBarrier {
                image: pool.image,
                from: ImageState {
                    layout: pool.layout,
                    access: pool.access as u64,
                    stage: STAGE_ALL_COMMANDS,
                },
                to: written,
            },
            finish: ImageBarrier {
                image: pool.image,
                from: written,
                to: ImageState {
                    layout: LAYOUT_GENERAL,
                    access: ACCESS_SHADER_READ,
                    stage: STAGE_ALL_COMMANDS,
                },
            },
            width: self.width,
            height: self.height,
            wait: pool.sem_value,
            signal: pool.sem_value + 1,
            queue_family: pool.queue_family,
        }
    }

    /// Counts a frame whose packets were all collected.
    pub fn frame_done(&mut self)
        requires
            old(self).next_frame_index < i64::MAX,
        ensures
            *final(self) == (Ffv1VkEncoder {
                next_frame_index: (old(self).next_frame_index + 1) as i64,
                ..*old(self)
            }),
    {
        self.next_frame_index = self.next_frame_index + 1;
    }
}

/// The copy's transitions join up: the target is written in the state the first
/// transition left it in, the timeline advances by one, and the frame's own
/// image ends in the state from which it can be handed in again.
pub proof fn copy_transitions_join_up(
    input: FrameInputView,
    pool: PoolFrame,
    width: u32,
    height: u32,
)
    requires
        pool.sem_value < u64::MAX,
    ensures
        ({
            let plan = copy_plan_of(input, pool, width, height);
            let again = FrameInputView { state: plan.source.to, ..input };
            &&& plan.finish.from == plan.target.to
            &&& plan.finish.image == plan.target.image
            &&& plan.signal == plan.wait + 1
            &&& copy_plan_of(again, pool, width, height).source.from == copied_state()
            &&& copy_plan_of(again, pool, width, height).source.to == copied_state()
        }),
{
}

/// Return code for "no packet yet".
pub const AVERROR_EAGAIN: i32 = -11;

/// Return code for "no further packets".
pub const AVERROR_EOF: i32 = -541478725;

/// What asking the encoder for a packet gave.
pub enum PacketReply {
    /// No packet object could be made.
    NoPacket,
    /// The encoder returned an error code, with its text.
    Code { code: i32, text: String },
    Packet(EncodedPacket),
}

/// The error text of a failed request for a packet; flushing is named in it.
pub open spec fn receive_error(flushing: bool, detail: Seq<char>) -> Seq<char> {
    if flushing {
        "flush avcodec_receive_packet: "@ + detail
    } else {
        "avcodec_receive_packet: "@ + detail
    }
}

/// A step of encoding one frame, or of flushing the encoder.
#[derive(Clone, Copy, Debug, PartialEq, Eq, Structural)]
pub enum RunStage {
    AllocFrame,
    GetBuffer,
    CheckBuffer,
    ResetCommands,
    BeginCommands,
    /// The copy has been recorded.
    EndCommands,
    Submit,
    SendFrame,
    Receive,
    Done,
    Failed,
}

/// One frame going through the encoder, or its flush.
pub struct Ffv1Run {
    pub stage: RunStage,
    pub flushing: bool,
    /// Presentation time of the frame, in microseconds.
    pub pts_us: i64,
    /// Whether a frame object has to be freed in the end.
    pub has_frame: bool,
    pub packets: Vec<EncodedPacket>,
    pub error: Option<String>,
}

/// Whether a return code is a failure at `stage`.
pub open spec fn run_failed(stage: RunStage, code: i32) -> bool {
    match stage {
        RunStage::GetBuffer | RunStage::SendFrame => code < 0,
        _ => code != 0,
    }
}

/// The message for a failure at `stage`.
pub open spec fn run_error(stage: RunStage, flushing: bool, detail: Seq<char>) -> Seq<char> {
    match stage {
        RunStage::AllocFrame => "av_frame_alloc returned null"@,
        RunStage::GetBuffer => "av_hwframe_get_buffer: "@ + detail,
        RunStage::CheckBuffer => "av_hwframe_get_buffer succeeded but data[0] is null"@,
        RunStage::ResetCommands => "reset_command_buffer: "@ + detail,
        RunStage::BeginCommands => "begin_command_buffer: "@ + detail,
        RunStage::EndCommands => "end_command_buffer: "@ + detail,
        RunStage::Submit => "queue_submit2: "@ + detail,
        RunStage::SendFrame => if flushing {
            "flush avcodec_send_frame(NULL): "@ + detail
        } else {
            "avcodec_send_frame: "@ + detail
        },
        _ => Seq::empty(),
    }
}

/// The stage after a successful step.
pub open spec fn run_next(stage: RunStage) -> RunStage {
    match stage {
        RunStage::AllocFrame => RunStage::GetBuffer,
        RunStage::GetBuffer => RunStage::CheckBuffer,
        RunStage::CheckBuffer => RunStage::ResetCommands,
        RunStage::ResetCommands => RunStage::BeginCommands,
        RunStage::BeginCommands => RunStage::EndCommands,
        RunStage::EndCommands => RunStage::Submit,
        RunStage::Submit => RunStage::SendFrame,
        RunStage::SendFrame => RunStage::Receive,
        _ => stage,
    }
}

impl Ffv1Run {
    /// Starts encoding a frame that is shown at `pts_us`.
    pub fn frame(pts_us: i64) -> (r: Ffv1Run)
        ensures
            r.stage == RunStage::AllocFrame,
            !r.flushing,
            r.pts_us == pts_us,
            !r.has_frame,
            r.packets@.len() == 0,
            r.error is None,
    {
        Ffv1Run {
            stage: RunStage::AllocFrame,
            flushing: false,
            pts_us,
            has_frame: false,
            packets: Vec::new(),
            error: None,
        }
    }

    /// Starts flushing the encoder, which takes no frame.
    pub fn flush() -> (r: Ffv1Run)
        ensures
            r.stage == RunStage::SendFrame,
            r.flushing,
            !r.has_frame,
            r.packets@.len() == 0,
            r.error is None,
    {
        Ffv1Run {
            stage: RunStage::SendFrame,
            flushing: true,
            pts_us: 0,
            has_frame: false,
            packets: Vec::new(),
            error: None,
        }
    }

    /// The time that the frame carries which is sent to the encoder; flushing
    /// sends no frame.
    pub fn sent_pts(&self) -> (r: Option<i64>)
        ensures
            r == if self.flushing {
                None
            } else {
                Some(self.pts_us)
            },
    {
        if self.flushing {
            None
        } else {
            Some(self.pts_us)
        }
    }

    /// Takes the outcome of a step before packets are received.
    pub fn advance(&mut self, code: i32, detail: &str)
        requires
            old(self).stage != RunStage::Receive,
            old(self).stage != RunStage::Done,
            old(self).stage != RunStage::Failed,
        ensures
            final(self).flushing == old(self).flushing,
            final(self).pts_us == old(self).pts_us,
            final(self).packets@ == old(self).packets@,
            final(self).has_frame == (old(self).has_frame || (old(self).stage
                == RunStage::AllocFrame && code == 0)),
            run_failed(old(self).stage, code) ==> {
                &&& final(self).stage == RunStage::Failed
                &&& final(self).error matches Some(msg)
                &&& msg@ == run_error(old(self).stage, old(self).flushing, detail@)
            },
            !run_failed(old(self).stage, code) ==> {
                &&& final(self).stage == run_next(old(self).stage)
                &&& final(self).error == old(self).error
            },
    {
        let failed: bool = match self.stage {
            RunStage::GetBuffer | RunStage::SendFrame => code < 0,
            _ => code != 0,
        };
        if failed {
            let msg: String = match self.stage {
                RunStage::AllocFrame => String::from_str("av_frame_alloc returned null"),
                RunStage::GetBuffer => String::from_str("av_hwframe_get_buffer: ").concat(detail),
                RunStage::CheckBuffer => String::from_str(
                    "av_hwframe_get_buffer succeeded but data[0] is null",
                ),
                RunStage::ResetCommands => String::from_str("reset_command_buffer: ").concat(detail),
                RunStage::BeginCommands => String::from_str("begin_command_buffer: ").concat(detail),
                RunStage::EndCommands => String::from_str("end_command_buffer: ").concat(detail),
                RunStage::Submit => String::from_str("queue_submit2: ").concat(detail),
                RunStage::SendFrame => if self.flushing {
                    String::from_str("flush avcodec_send_frame(NULL): ").concat(detail)
                } else {
                    String::from_str("avcodec_send_frame: ").concat(detail)
                },
                _ => String::new(),
            };
            self.error = Some(msg);
            self.stage = RunStage::Failed;
            return;
        }
        match self.stage {
            RunStage::AllocFrame => {
                self.has_frame = true;
                self.stage = RunStage::GetBuffer;
            },
            RunStage::GetBuffer => {
                self.stage = RunStage::CheckBuffer;
            },
            RunStage::CheckBuffer => {
                self.stage = RunStage::ResetCommands;
            },
            RunStage::ResetCommands => {
                self.stage = RunStage::BeginCommands;
            },
            RunStage::BeginCommands => {
                self.stage = RunStage::EndCommands;
            },
            RunStage::EndCommands => {
                self.stage = RunStage::Submit;
            },
            RunStage::Submit => {
                self.stage = RunStage::SendFrame;
            },
            RunStage::SendFrame => {
                self.stage = RunStage::Receive;
            },
            _ => {},
        }
    }

    /// Takes the reply to asking for a packet. Packets are kept in the order in
    /// which the encoder hands them out.
    pub fn receive(&mut self, reply: PacketReply)
        requires
            old(self).stage == RunStage::Receive,
        ensures
            final(self).flushing == old(self).flushing,
            final(self).pts_us == old(self).pts_us,
            final(self).has_frame == old(self).has_frame,
            match reply {
                PacketReply::NoPacket => {
                    &&& final(self).stage == RunStage::Failed
                    &&& final(self).packets@ == old(self).packets@
                    &&& final(self).error matches Some(msg)
                    &&& msg@ == "av_packet_alloc returned null"@
                },
                PacketReply::Code { code, text } => if code == AVERROR_EAGAIN || code
                    == AVERROR_EOF {
                    &&& final(self).stage == RunStage::Done
                    &&& final(self).packets@ == old(self).packets@
                    &&& final(self).error == old(self).error
                } else {
                    &&& final(self).stage == RunStage::Failed
                    &&& final(self).packets@ == old(self).packets@
                    &&& final(self).error matches Some(msg)
                    &&& msg@ == receive_error(old(self).flushing, text@)
                },
                PacketReply::Packet(p) => {
                    &&& final(self).stage == RunStage::Receive
                    &&& final(self).packets@ == old(self).packets@.push(p)
                    &&& final(self).error == old(self).error
                },
            },
    {
        match reply {
            PacketReply::NoPacket => {
                self.error = Some(String::from_str("av_packet_alloc returned null"));
                self.stage = RunStage::Failed;
            },
            PacketReply::Code { code, text } => {
                if code == AVERROR_EAGAIN || code == AVERROR_EOF {
                    self.stage = RunStage::Done;
                } else {
                    let head: String = if self.flushing {
                        String::from_str("flush avcodec_receive_packet: ")
                    } else {
                        String::from_str("avcodec_receive_packet: ")
                    };
                    self.error = Some(head.concat(text.as_str()));
                    self.stage = RunStage::Failed;
                }
            },
            PacketReply::Packet(p) => {
                self.packets.push(p);
            },
        }
    }

    /// The run's result, and whether its frame object has to be freed: it is
    /// whether the run failed or not.
    pub fn finish(self) -> (r: (Result<Vec<EncodedPacket>, String>, bool))
        requires
            self.stage == RunStage::Done || (self.stage == RunStage::Failed && self.error is Some),
        ensures
            r.1 == self.has_frame,
            match r.0 {
                Ok(v) => self.stage == RunStage::Done && v@ == self.packets@,
                Err(e) => self.stage == RunStage::Failed && self.error == Some(e),
            },
    {
        if self.stage == RunStage::Done {
            (Ok(self.packets), self.has_frame)
        } else {
            match self.error {
                Some(e) => (Err(e), self.has_frame),
                None => (Ok(self.packets), self.has_frame),
            }
        }
    }
}

/// The container track of a recording: its size, codec-private data and codec.
pub fn open_ffv1_mkv(enc: &Ffv1VkEncoder) -> (r: (u32, u32, &[u8], &'static str))
    ensures
        r.0 == enc.width,
        r.1 == enc.height,
        r.2@ == enc.extradata@,
        r.3@ == "V_FFV1"@,
{
    (enc.width(), enc.height(), enc.extradata(), "V_FFV1")
}

/// An encoder is opened exactly for frames of even width and height, for the
/// device and the queues that it was given, with nothing held yet.
pub proof fn encoders_need_even_frames(
    device: u64,
    compute: u32,
    encode: u32,
    width: u32,
    height: u32,
    r: Result<Ffv1VkEncoder, String>,
)
    requires
        call_ensures(Ffv1VkEncoder::open, (device, compute, encode, width, height), r),
    ensures
        r is Ok <==> width as int % 2 == 0 && height as int % 2 == 0,
        r matches Ok(e) ==> e.device == device && e.compute_queue_family == compute
            && e.encode_queue_family == encode && e.width == width && e.height == height
            && e.held@.len() == 0 && e.next_frame_index == 0 && e.error is None,
{
}

/// Each step of opening is the call that its stage names, for the encoder's own
/// device, queues and size: frames of four bytes a pixel on the device, four of
/// them, and a codec at sixty frames a second.
pub proof fn opening_asks_for_the_encoders_own(e: Ffv1VkEncoder, c: Ffv1Call)
    requires
        call_ensures(Ffv1VkEncoder::call, (&e,), c),
        e.width <= i32::MAX,
        e.height <= i32::MAX,
    ensures
        e.stage == Ffv1Stage::SetDevice ==> (c matches Ffv1Call::SetDevice {
            device,
            compute_queue_family,
            encode_queue_family,
        } && device == e.device && compute_queue_family == e.compute_queue_family
            && encode_queue_family == e.encode_queue_family),
        e.stage == Ffv1Stage::SetFrames ==> (c matches Ffv1Call::SetFrames(p) && p.format
            == PixelFormat::Vulkan && p.sw_format == PixelFormat::Bgra && p.width == e.width
            && p.height == e.height && p.initial_pool_size == 4 && p.tiling == 0 && p.extra_usage
            == 0),
        e.stage == Ffv1Stage::OpenCodec ==> (c matches Ffv1Call::OpenCodec(s) && s.width == e.width
            && s.height == e.height && s.pix_fmt == PixelFormat::Vulkan && s.time_base.num == 1
            && s.time_base.den == 1_000_000 && s.framerate.num == 60 && s.framerate.den == 1),
        e.stage == Ffv1Stage::FindCodec ==> (c matches Ffv1Call::FindCodec(name) && name@
            == "ffv1_vulkan"@),
        e.stage == Ffv1Stage::CreatePool ==> (c matches Ffv1Call::CreatePool { queue_family }
            && queue_family == e.compute_queue_family),
        e.stage == Ffv1Stage::AllocateBuffer ==> (c matches Ffv1Call::AllocateBuffer { count }
            && count == 1),
        e.stage == Ffv1Stage::Ready || e.stage == Ffv1Stage::Failed ==> c == Ffv1Call::Nothing,
{
}

/// Opening goes on step by step while every call succeeds: the device, its
/// frames, the codec, the command pool and its buffer, in that order. What the
/// codec says of itself is kept from the step that opens it.
pub proof fn opening_goes_step_by_step(detail: &str, extradata: Vec<u8>)
    ensures
        forall|m: &mut Ffv1VkEncoder|
            m.wf() && m.stage != Ffv1Stage::Ready && m.stage != Ffv1Stage::Failed
                && #[trigger] call_ensures(
                Ffv1VkEncoder::advance,
                (m, 0i32, detail, extradata),
                (),
            ) ==> {
                &&& m.stage == Ffv1Stage::AllocDevice ==> final(m).stage == Ffv1Stage::SetDevice
                    && final(m).held@.last() == Ffv1Resource::Device
                &&& m.stage == Ffv1Stage::SetDevice ==> final(m).stage == Ffv1Stage::InitDevice
                &&& m.stage == Ffv1Stage::InitDevice ==> final(m).stage == Ffv1Stage::AllocFrames
                &&& m.stage == Ffv1Stage::AllocFrames ==> final(m).stage == Ffv1Stage::SetFrames
                    && final(m).held@.last() == Ffv1Resource::Frames
                &&& m.stage == Ffv1Stage::SetFrames ==> final(m).stage == Ffv1Stage::InitFrames
                &&& m.stage == Ffv1Stage::InitFrames ==> final(m).stage == Ffv1Stage::FindCodec
                &&& m.stage == Ffv1Stage::FindCodec ==> final(m).stage == Ffv1Stage::AllocContext
                &&& m.stage == Ffv1Stage::AllocContext ==> final(m).stage == Ffv1Stage::OpenCodec
                    && final(m).held@.last() == Ffv1Resource::Codec
                &&& m.stage == Ffv1Stage::OpenCodec ==> final(m).stage == Ffv1Stage::CreatePool
                    && final(m).extradata@ == extradata@
                &&& m.stage == Ffv1Stage::CreatePool ==> final(m).stage == Ffv1Stage::AllocateBuffer
                    && final(m).held@.last() == Ffv1Resource::Pool
                &&& m.stage == Ffv1Stage::AllocateBuffer ==> final(m).stage == Ffv1Stage::Ready
                &&& m.stage != Ffv1Stage::OpenCodec ==> final(m).extradata@ == m.extradata@
                &&& final(m).error is None
            },
{
}

/// A negative code fails every step; a positive one fails those whose calls
/// report nothing but success by zero, and not those that initialise the device or
/// its frames or open the codec. A failed step keeps what is held, to be given
/// back last first.
pub proof fn failed_steps_keep_what_is_held(code: i32, detail: &str, extradata: Vec<u8>)
    requires
        code != 0,
    ensures
        forall|m: &mut Ffv1VkEncoder|
            m.wf() && m.stage != Ffv1Stage::Ready && m.stage != Ffv1Stage::Failed
                && #[trigger] call_ensures(
                Ffv1VkEncoder::advance,
                (m, code, detail, extradata),
                (),
            ) ==> {
                let lenient = m.stage == Ffv1Stage::InitDevice || m.stage == Ffv1Stage::InitFrames
                    || m.stage == Ffv1Stage::OpenCodec;
                &&& code < 0 || !lenient ==> final(m).stage == Ffv1Stage::Failed && final(m).held@
                    == m.held@ && final(m).error is Some
                &&& code > 0 && lenient ==> final(m).stage != Ffv1Stage::Failed
            },
        forall|m: &mut Ffv1VkEncoder, r: Option<Ffv1Resource>|
            m.wf() && m.stage == Ffv1Stage::Failed && #[trigger] call_ensures(
                Ffv1VkEncoder::release,
                (m,),
                r,
            ) ==> {
                &&& r is Some <==> m.held@.len() > 0
                &&& r matches Some(g) ==> final(m).held@.push(g) == m.held@
            },
{
}

/// A frame is copied from its own image, as it is when it is handed in, to the
/// pool's image, in the encoder's size; the copy waits for the pool image's
/// timeline and moves it on by one; and the pool image ends up readable by
/// shaders, with the queue family that had it.
pub proof fn frames_are_copied_into_the_pool(
    e: Ffv1VkEncoder,
    input: FrameInputView,
    pool: PoolFrame,
    r: CopyPlan,
)
    requires
        pool.sem_value < u64::MAX,
        call_ensures(Ffv1VkEncoder::encode_one, (&e, &input, &pool), r),
    ensures
        r.source.image == input.image,
        r.source.from == input.state,
        r.source.to.layout == 6 && r.source.to.access == 0x800,
        r.target.image == pool.image,
        r.target.from.layout == pool.layout && r.target.from.access == pool.access,
        r.target.to.layout == 7 && r.target.to.access == 0x1000,
        r.finish.image == pool.image,
        r.finish.from == r.target.to,
        r.finish.to.layout == 1 && r.finish.to.access == 0x20,
        r.source.to.stage == 0x1_0000_0000 && r.target.to.stage == 0x1_0000_0000,
        r.target.from.stage == 0x1_0000 && r.finish.to.stage == 0x1_0000,
        r.width == e.width,
        r.height == e.height,
        r.wait == pool.sem_value,
        r.signal == pool.sem_value + 1,
        r.queue_family == pool.queue_family,
{
}

/// A frame is accepted exactly from the encoder's own device and from an image
/// that its compute queue family owns.
pub proof fn frames_come_from_the_encoders_device(
    e: Ffv1VkEncoder,
    device: u64,
    input: FrameInputView,
    r: Result<(), String>,
)
    requires
        call_ensures(Ffv1VkEncoder::check_input, (&e, device, &input), r),
    ensures
        r is Ok <==> device == e.device && input.queue_family == e.compute_queue_family,
{
}

/// Every step of a run that succeeds leads to the next: a frame is made, its
/// buffer is got and checked, the commands are reset, begun, ended and submitted,
/// the frame is sent, and packets are received.
pub proof fn runs_go_step_by_step(detail: &str)
    ensures
        forall|m: &mut Ffv1Run|
            m.stage != RunStage::Receive && m.stage != RunStage::Done && m.stage != RunStage::Failed
                && #[trigger] call_ensures(Ffv1Run::advance, (m, 0i32, detail), ()) ==> {
                &&& m.stage == RunStage::AllocFrame ==> final(m).stage == RunStage::GetBuffer
                    && final(m).has_frame
                &&& m.stage == RunStage::GetBuffer ==> final(m).stage == RunStage::CheckBuffer
                &&& m.stage == RunStage::CheckBuffer ==> final(m).stage == RunStage::ResetCommands
                &&& m.stage == RunStage::ResetCommands ==> final(m).stage == RunStage::BeginCommands
                &&& m.stage == RunStage::BeginCommands ==> final(m).stage == RunStage::EndCommands
                &&& m.stage == RunStage::EndCommands ==> final(m).stage == RunStage::Submit
                &&& m.stage == RunStage::Submit ==> final(m).stage == RunStage::SendFrame
                &&& m.stage == RunStage::SendFrame ==> final(m).stage == RunStage::Receive
                &&& final(m).pts_us == m.pts_us
                &&& final(m).packets@ == m.packets@
                &&& m.has_frame ==> final(m).has_frame
            },
{
}

/// A step that fails ends the run with a message, and the frame that was made is
/// still to be freed; getting the buffer and sending the frame fail on negative
/// codes alone.
pub proof fn failed_runs_free_their_frame(code: i32, detail: &str)
    requires
        code != 0,
    ensures
        forall|m: &mut Ffv1Run|
            m.stage != RunStage::Receive && m.stage != RunStage::Done && m.stage != RunStage::Failed
                && #[trigger] call_ensures(Ffv1Run::advance, (m, code, detail), ()) ==> {
                let lenient = m.stage == RunStage::GetBuffer || m.stage == RunStage::SendFrame;
                &&& code < 0 || !lenient ==> final(m).stage == RunStage::Failed && final(m).error
                    is Some
                &&& code > 0 && lenient ==> final(m).stage != RunStage::Failed
                &&& final(m).has_frame == m.has_frame
            },
{
}

/// Packets are kept as they come, in their order; a run is done when the encoder
/// has no packet to give, for now or for good, and a run that is done hands out all
/// of them.
pub proof fn packets_are_kept_in_order(p: EncodedPacket, code: i32, text: String)
    ensures
        forall|m: &mut Ffv1Run|
            m.stage == RunStage::Receive && #[trigger] call_ensures(
                Ffv1Run::receive,
                (m, PacketReply::Packet(p)),
                (),
            ) ==> final(m).stage == RunStage::Receive && final(m).packets@.len()
                == m.packets@.len() + 1 && final(m).packets@.last() == p
                && final(m).packets@.drop_last() == m.packets@,
        forall|m: &mut Ffv1Run|
            m.stage == RunStage::Receive && #[trigger] call_ensures(
                Ffv1Run::receive,
                (m, PacketReply::Code { code, text }),
                (),
            ) ==> {
                &&& code == -11 || code == -541478725 ==> final(m).stage == RunStage::Done
                &&& code != -11 && code != -541478725 ==> final(m).stage == RunStage::Failed
                    && final(m).error is Some
                &&& final(m).packets@ == m.packets@
            },
{
}

/// What a run ends with is its packets where it is done, and its message where it
/// failed; the time that is sent with its frame is the one that it was started
/// with, and a flush sends none.
pub proof fn runs_end_with_their_packets(
    run: Ffv1Run,
    r: (Result<Vec<EncodedPacket>, String>, bool),
    pts_us: i64,
    started: Ffv1Run,
    flushed: Ffv1Run,
    sent: Option<i64>,
    sent_flushing: Option<i64>,
)
    requires
        run.stage == RunStage::Done || run.stage == RunStage::Failed && run.error is Some,
        call_ensures(Ffv1Run::finish, (run,), r),
        call_ensures(Ffv1Run::frame, (pts_us,), started),
        call_ensures(Ffv1Run::flush, (), flushed),
        call_ensures(Ffv1Run::sent_pts, (&started,), sent),
        call_ensures(Ffv1Run::sent_pts, (&flushed,), sent_flushing),
    ensures
        r.0 is Ok <==> run.stage == RunStage::Done,
        r.0 matches Ok(v) ==> v@ == run.packets@,
        r.0 matches Err(e) ==> run.error == Some(e),
        r.1 == run.has_frame,
        sent == Some(pts_us),
        sent_flushing is None,
        started.stage == RunStage::AllocFrame && started.packets@.len() == 0,
        flushed.stage == RunStage::SendFrame && flushed.packets@.len() == 0,
{
}

/// The container's track is of the encoder's size and carries what the codec said
/// of itself.
pub proof fn tracks_describe_the_encoder(e: Ffv1VkEncoder, r: (u32, u32, &[u8], &'static str))
    requires
        call_ensures(open_ffv1_mkv, (&e,), r),
    ensures
        r.0 == e.width,
        r.1 == e.height,
        r.2@ == e.extradata@,
        r.3@ == "V_FFV1"@,
{
}

/// A frame moves the index on by one and changes nothing else; a flush sends no
/// frame. The codec is closed before the frames it used, and those before their
/// device.
pub proof fn encoders_count_their_frames(
    e: Ffv1VkEncoder,
    flushed: Ffv1Run,
    w: u32,
    h: u32,
    extradata: &[u8],
    closing: Vec<Ffv1Resource>,
)
    requires
        e.wf(),
        e.stage == Ffv1Stage::Ready,
        call_ensures(Ffv1Run::flush, (), flushed),
        call_ensures(Ffv1VkEncoder::width, (&e,), w),
        call_ensures(Ffv1VkEncoder::height, (&e,), h),
        call_ensures(Ffv1VkEncoder::extradata, (&e,), extradata),
        call_ensures(Ffv1VkEncoder::closing, (&e,), closing),
    ensures
        forall|m: &mut Ffv1VkEncoder|
            m.next_frame_index < i64::MAX && #[trigger] call_ensures(
                Ffv1VkEncoder::frame_done,
                (m,),
                (),
            ) ==> final(m).next_frame_index == m.next_frame_index + 1 && final(m).width == m.width
                && final(m).height == m.height && final(m).held == m.held && final(m).stage
                == m.stage && final(m).extradata == m.extradata,
        flushed.flushing && !flushed.has_frame && flushed.packets@.len() == 0,
        flushed.error is None && flushed.stage == RunStage::SendFrame,
        w == e.width && h == e.height && extradata@ == e.extradata@,
        closing@.len() == 3 && closing@[0] == Ffv1Resource::Codec && closing@[1]
            == Ffv1Resource::Frames && closing@[2] == Ffv1Resource::Device,
{
}

/// Receiving goes on while there are packets, and leaves the run's frame and
/// timestamp alone; it ends well where the encoder wants more input or is drained,
/// and badly for any other code or without a packet to receive into.
pub proof fn receiving_ends_when_the_encoder_is_empty(reply: PacketReply)
    ensures
        forall|m: &mut Ffv1Run|
            m.stage == RunStage::Receive && #[trigger] call_ensures(
                Ffv1Run::receive,
                (m, reply),
                (),
            ) ==> {
                &&& final(m).has_frame == m.has_frame && final(m).flushing == m.flushing && final(m).pts_us == m.pts_us
                &&& reply is Packet ==> final(m).stage == RunStage::Receive && final(m).error
                    == m.error
                &&& reply matches PacketReply::Code { code, .. } ==> (final(m).stage
                    == RunStage::Done <==> code == -11 || code == -541478725)
                &&& reply matches PacketReply::Code { code, .. } ==> (final(m).stage
                    == RunStage::Failed <==> code != -11 && code != -541478725)
                &&& reply is NoPacket ==> final(m).stage == RunStage::Failed && final(m).error is Some
                &&& final(m).packets@.len() >= m.packets@.len()
            },
{
}

} // verus!
