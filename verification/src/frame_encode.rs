//! Encoding one frame on the GPU.
//!
//! A frame takes a fixed series of driver calls, several of which acquire a
//! resource. A [`FrameJob`] names the next call with its parameters, is advanced
//! with what came back, and then gives back everything it acquired, last first,
//! whether the frame was encoded or dropped.

use vstd::prelude::*;

use crate::dmabuf::{modifier_hi, modifier_lo, modifier_words, DRM_FORMAT_ARGB8888};
use crate::egl::{
    EGL_DMA_BUF_PLANE0_FD_EXT, EGL_DMA_BUF_PLANE0_MODIFIER_HI_EXT,
    EGL_DMA_BUF_PLANE0_MODIFIER_LO_EXT, EGL_DMA_BUF_PLANE0_OFFSET_EXT,
    EGL_DMA_BUF_PLANE0_PITCH_EXT, EGL_HEIGHT, EGL_LINUX_DRM_FOURCC_EXT, EGL_NONE, EGL_WIDTH,
};
use crate::nv12::{
    admitted_frame_stays_in_buffer, aligned_pitch, buffer_bytes, chroma_index, frame_admitted,
    luma_index, nv12_pitch, safe_encode_dims,
};
use crate::nvenc::{
    nv_enc_lock_bitstream_ver, nv_enc_map_input_resource_ver, nv_enc_pic_params_ver,
    nv_enc_register_resource_ver, NV_ENC_BUFFER_FORMAT_NV12,
    NV_ENC_INPUT_IMAGE, NV_ENC_INPUT_RESOURCE_TYPE_CUDADEVICEPTR, NV_ENC_PIC_FLAG_FORCEIDR,
    NV_ENC_PIC_FLAG_OUTPUT_SPSPPS, NV_ENC_PIC_STRUCT_FRAME, NV_ENC_RECONFIGURE_PARAMS,
};
use crate::nvenc_session::{DriverReply, NvencSession, OpenStage};

verus! {

/// 8-bit unsigned array components.
pub const CU_AD_FORMAT_UNSIGNED_INT8: u32 = 0x01;

/// An encoded access unit.
pub struct EncodedNal {
    pub data: Vec<u8>,
    pub pts_us: i64,
    pub is_keyframe: bool,
}

/// A GPU object that a frame acquires and has to give back.
#[derive(Clone, Copy, Debug, PartialEq, Eq, Structural)]
pub enum GpuResource {
    EglImage(u64),
    CudaRegistration(u64),
    Texture(u64),
    NvencRegistration(u64),
    NvencMapping(u64),
    BitstreamLock(u64),
}

/// The call a frame waits for.
#[derive(Clone, Copy, Debug, PartialEq, Eq, Structural)]
pub enum FrameStage {
    /// Create the recorder's input array.
    CreateArray,
    /// Copy host pixels into the input array.
    CopyPixels,
    /// Import the dmabuf as an EGL image.
    ImportImage,
    /// Register the EGL image with CUDA.
    RegisterImage,
    /// Map the registered image to an array.
    MapFrame,
    /// Wrap the array in a texture.
    CreateTexture,
    /// Launch the colour conversion into the NV12 buffer.
    LaunchKernel,
    /// Wait for the conversion.
    Synchronize,
    /// Register the NV12 buffer with the encoder.
    RegisterInput,
    /// Map the registered input.
    MapInput,
    /// Encode the picture.
    EncodePicture,
    /// Lock the output and copy it.
    LockBitstream,
    /// Give back what was acquired.
    Unwind,
}

/// Registration of an encoder input.
#[allow(non_camel_case_types)]
#[derive(Clone, Copy, Debug)]
pub struct NV_ENC_REGISTER_RESOURCE {
    pub version: u32,
    pub resource_type: u32,
    pub width: u32,
    pub height: u32,
    pub pitch: u32,
    pub resource_to_register: u64,
    pub buffer_format: u32,
    pub buffer_usage: u32,
}

/// Mapping of a registered input.
#[allow(non_camel_case_types)]
#[derive(Clone, Copy, Debug)]
pub struct NV_ENC_MAP_INPUT_RESOURCE {
    pub version: u32,
    pub registered_resource: u64,
}

/// One picture to encode.
#[allow(non_camel_case_types)]
#[derive(Clone, Copy, Debug)]
pub struct NV_ENC_PIC_PARAMS {
    pub version: u32,
    pub input_width: u32,
    pub input_height: u32,
    pub input_pitch: u32,
    pub encode_pic_flags: u32,
    pub input_timestamp: u64,
    pub input_buffer: u64,
    pub output_bitstream: u64,
    pub buffer_fmt: u32,
    pub picture_structure: u32,
}

/// Lock of the output bitstream.
#[allow(non_camel_case_types)]
#[derive(Clone, Copy, Debug)]
pub struct NV_ENC_LOCK_BITSTREAM {
    pub version: u32,
    pub output_bitstream: u64,
}

/// A driver call with its parameters.
#[allow(inconsistent_fields)]
pub enum FrameCall {
    CreateArray { width: u32, height: u32, format: u32, num_channels: u32 },
    CopyPixels { array: u64, src_pitch: u32, width_in_bytes: u64, height: u32 },
    ImportImage { attrs: Vec<i32> },
    RegisterImage { image: u64 },
    MapFrame { registration: u64 },
    CreateTexture { array: u64 },
    LaunchKernel {
        grid_x: u32,
        grid_y: u32,
        texture: u64,
        dst: u64,
        width: i32,
        height: i32,
        pitch: i32,
    },
    Synchronize,
    RegisterInput(NV_ENC_REGISTER_RESOURCE),
    MapInput(NV_ENC_MAP_INPUT_RESOURCE),
    EncodePicture(NV_ENC_PIC_PARAMS),
    LockBitstream(NV_ENC_LOCK_BITSTREAM),
    Nothing,
}

/// What a frame call returned: a status, a handle where the call makes one, and
/// the encoded bytes where it locked the output.
pub struct FrameReply {
    pub status: i32,
    pub handle: u64,
    pub data: Vec<u8>,
}

/// The state of a CUDA/NVENC recorder that outlives a frame.
pub struct CudaNvencRecorder {
    pub width: u32,
    pub height: u32,
    /// Parameter sets for the container.
    pub codec_private: Vec<u8>,
    /// Device address of the NV12 buffer.
    pub nv12_devptr: u64,
    pub nv12_pitch: u32,
    /// The input array for host pixels; 0 until the first such frame.
    pub input_array: u64,
    /// Whether the NV12 buffer holds an encoded frame.
    pub has_encoded: bool,
    /// Whether an oversized frame has been reported.
    pub oversize_rejected_logged: bool,
    /// Whether the colour-conversion kernel is loaded.
    pub csc_loaded: bool,
    /// Whether the encoder offers every call a frame needs.
    pub encode_slots: bool,
    /// The encode session.
    pub nvenc: NvencSession,
}

/// One frame under way.
pub struct FrameJob {
    pub stage: FrameStage,
    /// What has been acquired, oldest first.
    pub held: Vec<GpuResource>,
    /// The handle the latest call made.
    pub last: u64,
    pub fd: i32,
    pub modifier: u64,
    pub width: u32,
    pub height: u32,
    pub stride: u32,
    pub pts_us: i64,
    pub force_idr: bool,
    pub outcome: Option<EncodedNal>,
}

/// Whether a dmabuf frame is taken on.
pub enum FrameStart {
    Run(FrameJob),
    /// The frame is dropped; `warn` on the first such frame of a recorder.
    Drop { warn: bool },
}

/// Attributes that import a one-plane ARGB8888 dmabuf.
pub open spec fn import_attributes(
    fd: i32,
    modifier: u64,
    width: u32,
    height: u32,
    stride: u32,
) -> Seq<i32> {
    seq![
        EGL_WIDTH,
        width as i32,
        EGL_HEIGHT,
        height as i32,
        EGL_LINUX_DRM_FOURCC_EXT,
        DRM_FORMAT_ARGB8888 as i32,
        EGL_DMA_BUF_PLANE0_FD_EXT,
        fd,
        EGL_DMA_BUF_PLANE0_OFFSET_EXT,
        0i32,
        EGL_DMA_BUF_PLANE0_PITCH_EXT,
        stride as i32,
        EGL_DMA_BUF_PLANE0_MODIFIER_LO_EXT,
        modifier_lo(modifier),
        EGL_DMA_BUF_PLANE0_MODIFIER_HI_EXT,
        modifier_hi(modifier),
        EGL_NONE,
        EGL_NONE,
        EGL_NONE,
    ]
}

/// Thread blocks of 16 that cover `samples` luma samples, one thread for each
/// pair.
pub open spec fn grid_blocks(samples: u32) -> int {
    (samples / 2 + 15) / 16
}

/// Flags of a picture: an IDR frame comes with its parameter sets.
pub open spec fn picture_flags(force_idr: bool) -> u32 {
    if force_idr {
        6
    } else {
        0
    }
}

/// How a job proceeds on a reply.
pub struct FrameMove {
    pub stage: FrameStage,
    pub acquired: Option<GpuResource>,
    pub last: u64,
    pub encoded: bool,
}

impl CudaNvencRecorder {
    /// The recorder encodes at the size of its session, which is ready, and its
    /// buffer has the rows that were laid out for that size.
    pub open spec fn wf(&self) -> bool {
        &&& self.nvenc.wf()
        &&& self.nvenc.stage == OpenStage::Ready
        &&& self.width == self.nvenc.width
        &&& self.height == self.nvenc.height
        &&& self.nv12_pitch == aligned_pitch(self.width as int)
    }

    /// Whether a frame of this size may be written to the NV12 buffer.
    pub open spec fn admits(&self, w: u32, h: u32, stride: u32) -> bool {
        frame_admitted(w, h, stride, self.width, self.height, self.nv12_pitch)
    }

    /// Whether the array of a frame of this size can be converted.
    pub open spec fn converts(&self, w: u32, h: u32) -> bool {
        self.csc_loaded && self.admits(w, h, 0)
    }

    /// The stage once an array is at hand.
    pub open spec fn convert_stage(&self, w: u32, h: u32) -> FrameStage {
        if self.converts(w, h) {
            FrameStage::CreateTexture
        } else {
            FrameStage::Unwind
        }
    }

    /// The stage once the NV12 buffer is written.
    pub open spec fn encode_stage(&self) -> FrameStage {
        if self.encode_slots {
            FrameStage::RegisterInput
        } else {
            FrameStage::Unwind
        }
    }
}

impl FrameJob {
    /// The job's move when its call returned `status` and `handle`.
    pub open spec fn moved(&self, rec: CudaNvencRecorder, status: i32, handle: u64) -> FrameMove {
        let ok = status == 0;
        let made = status == 0 && handle != 0;
        let stay = FrameMove {
            stage: FrameStage::Unwind,
            acquired: None,
            last: self.last,
            encoded: false,
        };
        match self.stage {
            FrameStage::CreateArray => if made {
                FrameMove { stage: FrameStage::CopyPixels, last: handle, ..stay }
            } else {
                stay
            },
            FrameStage::CopyPixels => if ok {
                FrameMove { stage: rec.convert_stage(self.width, self.height), ..stay }
            } else {
                stay
            },
            FrameStage::ImportImage => if handle != 0 {
                FrameMove {
                    stage: FrameStage::RegisterImage,
                    acquired: Some(GpuResource::EglImage(handle)),
                    last: handle,
                    ..stay
                }
            } else {
                stay
            },
            FrameStage::RegisterImage => if made {
                FrameMove {
                    stage: FrameStage::MapFrame,
                    acquired: Some(GpuResource::CudaRegistration(handle)),
                    last: handle,
                    ..stay
                }
            } else {
                stay
            },
            FrameStage::MapFrame => if made {
                FrameMove {
                    stage: rec.convert_stage(self.width, self.height),
                    last: handle,
                    ..stay
                }
            } else {
                stay
            },
            FrameStage::CreateTexture => if made {
                FrameMove {
                    stage: FrameStage::LaunchKernel,
                    acquired: Some(GpuResource::Texture(handle)),
                    last: handle,
                    ..stay
                }
            } else {
                stay
            },
            FrameStage::LaunchKernel => if ok {
                FrameMove { stage: FrameStage::Synchronize, ..stay }
            } else {
                stay
            },
            FrameStage::Synchronize => if ok {
                FrameMove { stage: rec.encode_stage(), ..stay }
            } else {
                stay
            },
            FrameStage::RegisterInput => if made {
                FrameMove {
                    stage: FrameStage::MapInput,
                    acquired: Some(GpuResource::NvencRegistration(handle)),
                    last: handle,
                    ..stay
                }
            } else {
                stay
            },
            FrameStage::MapInput => if made {
                FrameMove {
                    stage: FrameStage::EncodePicture,
                    acquired: Some(GpuResource::NvencMapping(handle)),
                    last: handle,
                    ..stay
                }
            } else {
                stay
            },
            FrameStage::EncodePicture => if ok {
                FrameMove { stage: FrameStage::LockBitstream, ..stay }
            } else {
                stay
            },
            FrameStage::LockBitstream => if made {
                FrameMove {
                    acquired: Some(GpuResource::BitstreamLock(rec.nvenc.bitstream)),
                    encoded: true,
                    ..stay
                }
            } else {
                stay
            },
            FrameStage::Unwind => stay,
        }
    }

    /// Whether the two jobs are for the same frame.
    pub open spec fn same_frame(&self, other: FrameJob) -> bool {
        &&& self.fd == other.fd
        &&& self.modifier == other.modifier
        &&& self.width == other.width
        &&& self.height == other.height
        &&& self.stride == other.stride
        &&& self.pts_us == other.pts_us
        &&& self.force_idr == other.force_idr
    }

    /// Takes the reply of the due call. A failed call moves the job to its
    /// unwinding; a successful one goes on and may acquire a resource.
    pub fn advance(&mut self, rec: &mut CudaNvencRecorder, reply: FrameReply)
        ensures
            ({
                let mv = old(self).moved(*old(rec), reply.status, reply.handle);
                &&& final(self).stage == mv.stage
                &&& final(self).last == mv.last
                &&& final(self).held@ == match mv.acquired {
                    Some(r) => old(self).held@.push(r),
                    None => old(self).held@,
                }
                &&& mv.encoded ==> {
                    &&& final(self).outcome matches Some(nal)
                    &&& nal.data == reply.data
                    &&& nal.pts_us == old(self).pts_us
                    &&& nal.is_keyframe == old(self).force_idr
                }
                &&& !mv.encoded ==> final(self).outcome == old(self).outcome
                &&& final(self).same_frame(*old(self))
                &&& *final(rec) == (CudaNvencRecorder {
                    input_array: if old(self).stage == FrameStage::CreateArray && mv.stage
                        == FrameStage::CopyPixels {
                        reply.handle
                    } else {
                        old(rec).input_array
                    },
                    has_encoded: old(rec).has_encoded || mv.encoded,
                    oversize_rejected_logged: old(rec).oversize_rejected_logged || (old(
                        self,
                    ).reaches_conversion(reply.status, reply.handle) && old(rec).csc_loaded
                        && !old(rec).admits(old(self).width, old(self).height, 0)),
                    ..*old(rec)
                })
            }),
            old(rec).wf() ==> final(rec).wf(),
    {
        let ok: bool = reply.status == 0;
        let made: bool = reply.status == 0 && reply.handle != 0;
        match self.stage {
            FrameStage::CreateArray => {
                if made {
                    rec.input_array = reply.handle;
                    self.last = reply.handle;
                    self.stage = FrameStage::CopyPixels;
                } else {
                    self.stage = FrameStage::Unwind;
                }
            },
            FrameStage::CopyPixels => {
                if ok {
                    self.stage = enter_conversion(rec, self.width, self.height);
                } else {
                    self.stage = FrameStage::Unwind;
                }
            },
            FrameStage::ImportImage => {
                if reply.handle != 0 {
                    self.held.push(GpuResource::EglImage(reply.handle));
                    self.last = reply.handle;
                    self.stage = FrameStage::RegisterImage;
                } else {
                    self.stage = FrameStage::Unwind;
                }
            },
            FrameStage::RegisterImage => {
                if made {
                    self.held.push(GpuResource::CudaRegistration(reply.handle));
                    self.last = reply.handle;
                    self.stage = FrameStage::MapFrame;
                } else {
                    self.stage = FrameStage::Unwind;
                }
            },
            FrameStage::MapFrame => {
                if made {
                    self.last = reply.handle;
                    self.stage = enter_conversion(rec, self.width, self.height);
                } else {
                    self.stage = FrameStage::Unwind;
                }
            },
            FrameStage::CreateTexture => {
                if made {
                    self.held.push(GpuResource::Texture(reply.handle));
                    self.last = reply.handle;
                    self.stage = FrameStage::LaunchKernel;
                } else {
                    self.stage = FrameStage::Unwind;
                }
            },
            FrameStage::LaunchKernel => {
                if ok {
                    self.stage = FrameStage::Synchronize;
                } else {
                    self.stage = FrameStage::Unwind;
                }
            },
            FrameStage::Synchronize => {
                if ok && rec.encode_slots {
                    self.stage = FrameStage::RegisterInput;
                } else {
                    self.stage = FrameStage::Unwind;
                }
            },
            FrameStage::RegisterInput => {
                if made {
                    self.held.push(GpuResource::NvencRegistration(reply.handle));
                    self.last = reply.handle;
                    self.stage = FrameStage::MapInput;
                } else {
                    self.stage = FrameStage::Unwind;
                }
            },
            FrameStage::MapInput => {
                if made {
                    self.held.push(GpuResource::NvencMapping(reply.handle));
                    self.last = reply.handle;
                    self.stage = FrameStage::EncodePicture;
                } else {
                    self.stage = FrameStage::Unwind;
                }
            },
            FrameStage::EncodePicture => {
                if ok {
                    self.stage = FrameStage::LockBitstream;
                } else {
                    self.stage = FrameStage::Unwind;
                }
            },
            FrameStage::LockBitstream => {
                if made {
                    self.held.push(GpuResource::BitstreamLock(rec.nvenc.bitstream));
                    self.outcome = Some(
                        EncodedNal {
                            data: reply.data,
                            pts_us: self.pts_us,
                            is_keyframe: self.force_idr,
                        },
                    );
                    rec.has_encoded = true;
                }
                self.stage = FrameStage::Unwind;
            },
            FrameStage::Unwind => {},
        }
    }

    /// Whether the reply brings the job to the colour conversion.
    pub open spec fn reaches_conversion(&self, status: i32, handle: u64) -> bool {
        ||| self.stage == FrameStage::CopyPixels && status == 0
        ||| self.stage == FrameStage::MapFrame && status == 0 && handle != 0
    }

    /// The next resource to give back while the job unwinds; `None` once there
    /// is none left.
    pub fn release(&mut self) -> (r: Option<GpuResource>)
        ensures
            final(self).same_frame(*old(self)),
            final(self).stage == old(self).stage,
            final(self).last == old(self).last,
            final(self).outcome == old(self).outcome,
            old(self).stage != FrameStage::Unwind || old(self).held@.len() == 0 ==> r is None
                && final(self).held@ == old(self).held@,
            old(self).stage == FrameStage::Unwind && old(self).held@.len() > 0 ==> {
                &&& r == Some(old(self).held@.last())
                &&& final(self).held@ == old(self).held@.drop_last()
            },
    {
        if self.stage == FrameStage::Unwind {
            self.held.pop()
        } else {
            None
        }
    }

    /// The frame's result, once everything has been given back.
    pub fn finish(self) -> (r: Option<EncodedNal>)
        requires
            self.stage == FrameStage::Unwind,
            self.held@.len() == 0,
        ensures
            r == self.outcome,
    {
        self.outcome
    }
}

fn enter_conversion(rec: &mut CudaNvencRecorder, width: u32, height: u32) -> (r: FrameStage)
    ensures
        r == old(rec).convert_stage(width, height),
        *final(rec) == (CudaNvencRecorder {
            oversize_rejected_logged: old(rec).oversize_rejected_logged || (old(rec).csc_loaded
                && !old(rec).admits(width, height, 0)),
            ..*old(rec)
        }),
{
    if !rec.csc_loaded {
        return FrameStage::Unwind;
    }
    match safe_encode_dims(width, height, 0, rec.width, rec.height, rec.nv12_pitch) {
        Some(_) => FrameStage::CreateTexture,
        None => {
            rec.oversize_rejected_logged = true;
            FrameStage::Unwind
        },
    }
}


impl FrameJob {
    /// Whether `c` is the call that is due, with its parameters.
    pub open spec fn is_due(&self, rec: CudaNvencRecorder, c: FrameCall) -> bool {
        match self.stage {
            FrameStage::CreateArray => c == (FrameCall::CreateArray {
                width: rec.width,
                height: rec.height,
                format: CU_AD_FORMAT_UNSIGNED_INT8,
                num_channels: 4,
            }),
            FrameStage::CopyPixels => c == (FrameCall::CopyPixels {
                array: self.last,
                src_pitch: self.stride,
                width_in_bytes: (self.width * 4) as u64,
                height: self.height,
            }),
            FrameStage::ImportImage => c matches FrameCall::ImportImage { attrs } && attrs@
                == import_attributes(
                self.fd,
                self.modifier,
                self.width,
                self.height,
                self.stride,
            ),
            FrameStage::RegisterImage => c == (FrameCall::RegisterImage { image: self.last }),
            FrameStage::MapFrame => c == (FrameCall::MapFrame { registration: self.last }),
            FrameStage::CreateTexture => c == (FrameCall::CreateTexture { array: self.last }),
            FrameStage::LaunchKernel => c == (FrameCall::LaunchKernel {
                grid_x: grid_blocks(self.width) as u32,
                grid_y: grid_blocks(self.height) as u32,
                texture: self.last,
                dst: rec.nv12_devptr,
                width: self.width as i32,
                height: self.height as i32,
                pitch: rec.nv12_pitch as i32,
            }),
            FrameStage::Synchronize => c == FrameCall::Synchronize,
            FrameStage::RegisterInput => c == FrameCall::RegisterInput(
                NV_ENC_REGISTER_RESOURCE {
                    version: 0x7005_000d,
                    resource_type: NV_ENC_INPUT_RESOURCE_TYPE_CUDADEVICEPTR,
                    width: self.width,
                    height: self.height,
                    pitch: rec.nv12_pitch,
                    resource_to_register: rec.nv12_devptr,
                    buffer_format: NV_ENC_BUFFER_FORMAT_NV12,
                    buffer_usage: NV_ENC_INPUT_IMAGE,
                },
            ),
            FrameStage::MapInput => c == FrameCall::MapInput(
                NV_ENC_MAP_INPUT_RESOURCE {
                    version: 0x7004_000d,
                    registered_resource: self.last,
                },
            ),
            FrameStage::EncodePicture => c == FrameCall::EncodePicture(
                NV_ENC_PIC_PARAMS {
                    version: 0xf007_000d,
                    input_width: self.width,
                    input_height: self.height,
                    input_pitch: rec.nv12_pitch,
                    encode_pic_flags: picture_flags(self.force_idr),
                    input_timestamp: self.pts_us as u64,
                    input_buffer: self.last,
                    output_bitstream: rec.nvenc.bitstream,
                    buffer_fmt: NV_ENC_BUFFER_FORMAT_NV12,
                    picture_structure: NV_ENC_PIC_STRUCT_FRAME,
                },
            ),
            FrameStage::LockBitstream => c == FrameCall::LockBitstream(
                NV_ENC_LOCK_BITSTREAM {
                    version: 0xf002_000d,
                    output_bitstream: rec.nvenc.bitstream,
                },
            ),
            FrameStage::Unwind => c == FrameCall::Nothing,
        }
    }

    /// The driver call that is due, with its parameters.
    pub fn call(&self, rec: &CudaNvencRecorder) -> (c: FrameCall)
        ensures
            self.is_due(*rec, c),
    {
        match self.stage {
            FrameStage::CreateArray => FrameCall::CreateArray {
                width: rec.width,
                height: rec.height,
                format: CU_AD_FORMAT_UNSIGNED_INT8,
                num_channels: 4,
            },
            FrameStage::CopyPixels => FrameCall::CopyPixels {
                array: self.last,
                src_pitch: self.stride,
                width_in_bytes: self.width as u64 * 4,
                height: self.height,
            },
            FrameStage::ImportImage => {
                let (lo, hi) = modifier_words(self.modifier);
                FrameCall::ImportImage {
                    attrs: vec![
                        EGL_WIDTH,
                        self.width as i32,
                        EGL_HEIGHT,
                        self.height as i32,
                        EGL_LINUX_DRM_FOURCC_EXT,
                        DRM_FORMAT_ARGB8888 as i32,
                        EGL_DMA_BUF_PLANE0_FD_EXT,
                        self.fd,
                        EGL_DMA_BUF_PLANE0_OFFSET_EXT,
                        0i32,
                        EGL_DMA_BUF_PLANE0_PITCH_EXT,
                        self.stride as i32,
                        EGL_DMA_BUF_PLANE0_MODIFIER_LO_EXT,
                        lo,
                        EGL_DMA_BUF_PLANE0_MODIFIER_HI_EXT,
                        hi,
                        EGL_NONE,
                        EGL_NONE,
                        EGL_NONE,
                    ],
                }
            },
            FrameStage::RegisterImage => FrameCall::RegisterImage { image: self.last },
            FrameStage::MapFrame => FrameCall::MapFrame { registration: self.last },
            FrameStage::CreateTexture => FrameCall::CreateTexture { array: self.last },
            FrameStage::LaunchKernel => FrameCall::LaunchKernel {
                grid_x: (self.width / 2 + 15) / 16,
                grid_y: (self.height / 2 + 15) / 16,
                texture: self.last,
                dst: rec.nv12_devptr,
                width: self.width as i32,
                height: self.height as i32,
                pitch: rec.nv12_pitch as i32,
            },
            FrameStage::Synchronize => FrameCall::Synchronize,
            FrameStage::RegisterInput => FrameCall::RegisterInput(
                NV_ENC_REGISTER_RESOURCE {
                    version: nv_enc_register_resource_ver(),
                    resource_type: NV_ENC_INPUT_RESOURCE_TYPE_CUDADEVICEPTR,
                    width: self.width,
                    height: self.height,
                    pitch: rec.nv12_pitch,
                    resource_to_register: rec.nv12_devptr,
                    buffer_format: NV_ENC_BUFFER_FORMAT_NV12,
                    buffer_usage: NV_ENC_INPUT_IMAGE,
                },
            ),
            FrameStage::MapInput => FrameCall::MapInput(
                NV_ENC_MAP_INPUT_RESOURCE {
                    version: nv_enc_map_input_resource_ver(),
                    registered_resource: self.last,
                },
            ),
            FrameStage::EncodePicture => {
                assert(0x2u32 | 0x4u32 == 6u32) by (bit_vector);
                FrameCall::EncodePicture(
                    NV_ENC_PIC_PARAMS {
                        version: nv_enc_pic_params_ver(),
                        input_width: self.width,
                        input_height: self.height,
                        input_pitch: rec.nv12_pitch,
                        encode_pic_flags: if self.force_idr {
                            NV_ENC_PIC_FLAG_FORCEIDR | NV_ENC_PIC_FLAG_OUTPUT_SPSPPS
                        } else {
                            0
                        },
                        input_timestamp: self.pts_us as u64,
                        input_buffer: self.last,
                        output_bitstream: rec.nvenc.bitstream,
                        buffer_fmt: NV_ENC_BUFFER_FORMAT_NV12,
                        picture_structure: NV_ENC_PIC_STRUCT_FRAME,
                    },
                )
            },
            FrameStage::LockBitstream => FrameCall::LockBitstream(
                NV_ENC_LOCK_BITSTREAM {
                    version: nv_enc_lock_bitstream_ver(),
                    output_bitstream: rec.nvenc.bitstream,
                },
            ),
            FrameStage::Unwind => FrameCall::Nothing,
        }
    }
}

/// A job that has not made any call yet.
pub open spec fn fresh_job(
    j: FrameJob,
    stage: FrameStage,
    width: u32,
    height: u32,
    pts_us: i64,
    force_idr: bool,
) -> bool {
    &&& j.stage == stage
    &&& j.held@.len() == 0
    &&& j.width == width
    &&& j.height == height
    &&& j.pts_us == pts_us
    &&& j.force_idr == force_idr
    &&& j.outcome is None
}

impl CudaNvencRecorder {
    /// A recorder around a ready session: a buffer of the size that
    /// [`crate::nv12::nv12_layout`] gives was allocated at `devptr` with
    /// `status`. `None` where the allocation failed.
    pub fn try_new(
        nvenc: NvencSession,
        csc_loaded: bool,
        encode_slots: bool,
        sequence: Option<Vec<u8>>,
        status: i32,
        devptr: u64,
    ) -> (r: Option<CudaNvencRecorder>)
        requires
            nvenc.wf(),
            nvenc.stage == OpenStage::Ready,
            aligned_pitch(nvenc.width as int) <= u32::MAX,
        ensures
            r is Some <==> status == 0 && devptr != 0,
            r matches Some(rec) ==> {
                &&& rec.wf()
                &&& rec.width == nvenc.width
                &&& rec.height == nvenc.height
                &&& rec.codec_private@ == match sequence {
                    Some(v) => v@,
                    None => Seq::empty(),
                }
                &&& rec.nv12_devptr == devptr
                &&& rec.nv12_pitch == aligned_pitch(nvenc.width as int)
                &&& rec.input_array == 0
                &&& !rec.has_encoded
                &&& !rec.oversize_rejected_logged
                &&& rec.csc_loaded == csc_loaded
                &&& rec.encode_slots == encode_slots
                &&& rec.nvenc == nvenc
            },
    {
        if status != 0 || devptr == 0 {
            return None;
        }
        let codec_private: Vec<u8> = match sequence {
            Some(v) => v,
            None => Vec::new(),
        };
        Some(
            CudaNvencRecorder {
                width: nvenc.width,
                height: nvenc.height,
                codec_private,
                nv12_devptr: devptr,
                nv12_pitch: nv12_pitch(nvenc.width),
                input_array: 0,
                has_encoded: false,
                oversize_rejected_logged: false,
                csc_loaded,
                encode_slots,
                nvenc,
            },
        )
    }

    /// Parameters that move the recorder's session to `bps`, given the reply of
    /// the preset query; see [`NvencSession::reconfigure_bitrate`].
    pub fn reconfigure_bitrate(&self, preset: DriverReply, bps: u32) -> (r: Option<
        NV_ENC_RECONFIGURE_PARAMS,
    >)
        ensures
            r == self.nvenc.reconfiguration(preset, bps),
    {
        self.nvenc.reconfigure_bitrate(preset, bps)
    }

    /// Parameter sets for the container's codec-private field.
    pub fn codec_private(&self) -> (r: &[u8])
        ensures
            r@ == self.codec_private@,
    {
        self.codec_private.as_slice()
    }

    /// Starts encoding a one-plane ARGB8888 dmabuf. A frame that does not fit
    /// the NV12 buffer is dropped before any call is made, and only the first
    /// one is worth a warning.
    pub fn encode_dmabuf(
        &mut self,
        fd: i32,
        modifier: u64,
        width: u32,
        height: u32,
        stride: u32,
        pts_us: i64,
        force_idr: bool,
    ) -> (r: FrameStart)
        ensures
            match r {
                FrameStart::Run(j) => {
                    &&& old(self).admits(width, height, stride)
                    &&& fresh_job(j, FrameStage::ImportImage, width, height, pts_us, force_idr)
                    &&& j.fd == fd
                    &&& j.modifier == modifier
                    &&& j.stride == stride
                },
                FrameStart::Drop { warn } => {
                    &&& !old(self).admits(width, height, stride)
                    &&& warn == !old(self).oversize_rejected_logged
                },
            },
            *final(self) == (CudaNvencRecorder {
                oversize_rejected_logged: old(self).oversize_rejected_logged || !old(self).admits(
                    width,
                    height,
                    stride,
                ),
                ..*old(self)
            }),
            old(self).wf() ==> final(self).wf(),
    {
        match safe_encode_dims(width, height, stride, self.width, self.height, self.nv12_pitch) {
            None => {
                let warn: bool = !self.oversize_rejected_logged;
                self.oversize_rejected_logged = true;
                FrameStart::Drop { warn }
            },
            Some(_) => FrameStart::Run(
                FrameJob {
                    stage: FrameStage::ImportImage,
                    held: Vec::new(),
                    last: 0,
                    fd,
                    modifier,
                    width,
                    height,
                    stride,
                    pts_us,
                    force_idr,
                    outcome: None,
                },
            ),
        }
    }

    /// Starts encoding host pixels. The copied region is clamped to the
    /// recorder's size; the input array is created for the first such frame.
    pub fn encode_pixels(
        &self,
        width: u32,
        height: u32,
        stride: u32,
        pts_us: i64,
        force_idr: bool,
    ) -> (j: FrameJob)
        ensures
            fresh_job(
                j,
                if self.input_array == 0 {
                    FrameStage::CreateArray
                } else {
                    FrameStage::CopyPixels
                },
                if width < self.width {
                    width
                } else {
                    self.width
                },
                if height < self.height {
                    height
                } else {
                    self.height
                },
                pts_us,
                force_idr,
            ),
            j.last == self.input_array,
            j.stride == stride,
            self.admits(j.width, j.height, 0),
    {
        FrameJob {
            stage: if self.input_array == 0 {
                FrameStage::CreateArray
            } else {
                FrameStage::CopyPixels
            },
            held: Vec::new(),
            last: self.input_array,
            fd: -1,
            modifier: 0,
            width: if width < self.width {
                width
            } else {
                self.width
            },
            height: if height < self.height {
                height
            } else {
                self.height
            },
            stride,
            pts_us,
            force_idr,
            outcome: None,
        }
    }

    /// Starts encoding the NV12 buffer's content again, at the recorder's full
    /// size. There is nothing to repeat before the first encoded frame.
    pub fn reencode_last(&self, pts_us: i64, force_idr: bool) -> (r: Option<FrameJob>)
        ensures
            r is Some <==> self.has_encoded,
            r matches Some(j) ==> fresh_job(
                j,
                self.encode_stage(),
                self.width,
                self.height,
                pts_us,
                force_idr,
            ),
    {
        if !self.has_encoded {
            return None;
        }
        Some(
            FrameJob {
                stage: if self.encode_slots {
                    FrameStage::RegisterInput
                } else {
                    FrameStage::Unwind
                },
                held: Vec::new(),
                last: 0,
                fd: -1,
                modifier: 0,
                width: self.width,
                height: self.height,
                stride: 0,
                pts_us,
                force_idr,
                outcome: None,
            },
        )
    }

    /// What dropping the recorder frees while its CUDA context is alive: the
    /// NV12 buffer, then the input array.
    pub fn releases(&self) -> (r: (Option<u64>, Option<u64>))
        ensures
            r.0 == if self.nv12_devptr != 0 {
                Some(self.nv12_devptr)
            } else {
                None
            },
            r.1 == if self.input_array != 0 {
                Some(self.input_array)
            } else {
                None
            },
    {
        (
            if self.nv12_devptr != 0 {
                Some(self.nv12_devptr)
            } else {
                None
            },
            if self.input_array != 0 {
                Some(self.input_array)
            } else {
                None
            },
        )
    }
}

/// The order in which repeated [`FrameJob::release`] gives resources back.
pub open spec fn release_order(held: Seq<GpuResource>) -> Seq<GpuResource>
    decreases held.len(),
{
    if held.len() == 0 {
        Seq::empty()
    } else {
        seq![held.last()] + release_order(held.drop_last())
    }
}

/// Unwinding gives back everything that was acquired, each once, last first.
pub proof fn unwinding_reverses_acquisition(held: Seq<GpuResource>)
    ensures
        release_order(held) == held.reverse(),
    decreases held.len(),
{
    if held.len() > 0 {
        unwinding_reverses_acquisition(held.drop_last());
        assert(seq![held.last()] + held.drop_last().reverse() =~= held.reverse());
    } else {
        assert(held.reverse() =~= Seq::empty());
    }
}

/// Where a frame's picture comes from.
#[derive(Clone, Copy, Debug, PartialEq, Eq, Structural)]
pub enum FrameOrigin {
    Dmabuf,
    Pixels,
    /// The picture that was encoded last.
    Repeat,
}

/// What a GPU object is, whichever one it is.
#[derive(Clone, Copy, Debug, PartialEq, Eq, Structural)]
pub enum ResourceKind {
    EglImage,
    CudaRegistration,
    Texture,
    NvencRegistration,
    NvencMapping,
    BitstreamLock,
}

/// The kind of a GPU object.
pub open spec fn kind(r: GpuResource) -> ResourceKind {
    match r {
        GpuResource::EglImage(_) => ResourceKind::EglImage,
        GpuResource::CudaRegistration(_) => ResourceKind::CudaRegistration,
        GpuResource::Texture(_) => ResourceKind::Texture,
        GpuResource::NvencRegistration(_) => ResourceKind::NvencRegistration,
        GpuResource::NvencMapping(_) => ResourceKind::NvencMapping,
        GpuResource::BitstreamLock(_) => ResourceKind::BitstreamLock,
    }
}

/// The kinds of what a frame holds, oldest first.
pub open spec fn kinds(held: Seq<GpuResource>) -> Seq<ResourceKind> {
    held.map_values(|r: GpuResource| kind(r))
}

/// What a frame of that origin holds while a stage is due; `None` where it never
/// comes to that stage.
pub open spec fn held_at(origin: FrameOrigin, stage: FrameStage) -> Option<Seq<ResourceKind>> {
    let imported: Seq<ResourceKind> = match origin {
        FrameOrigin::Dmabuf => seq![ResourceKind::EglImage, ResourceKind::CudaRegistration],
        _ => Seq::empty(),
    };
    let converted: Seq<ResourceKind> = match origin {
        FrameOrigin::Repeat => Seq::empty(),
        _ => imported.push(ResourceKind::Texture),
    };
    let registered = converted.push(ResourceKind::NvencRegistration);
    match stage {
        FrameStage::ImportImage => if origin == FrameOrigin::Dmabuf {
            Some(Seq::empty())
        } else {
            None
        },
        FrameStage::RegisterImage => if origin == FrameOrigin::Dmabuf {
            Some(seq![ResourceKind::EglImage])
        } else {
            None
        },
        FrameStage::MapFrame => if origin == FrameOrigin::Dmabuf {
            Some(imported)
        } else {
            None
        },
        FrameStage::CreateArray | FrameStage::CopyPixels => if origin == FrameOrigin::Pixels {
            Some(Seq::empty())
        } else {
            None
        },
        FrameStage::CreateTexture => if origin == FrameOrigin::Repeat {
            None
        } else {
            Some(imported)
        },
        FrameStage::LaunchKernel | FrameStage::Synchronize => if origin == FrameOrigin::Repeat {
            None
        } else {
            Some(converted)
        },
        FrameStage::RegisterInput => Some(converted),
        FrameStage::MapInput => Some(registered),
        FrameStage::EncodePicture | FrameStage::LockBitstream => Some(
            registered.push(ResourceKind::NvencMapping),
        ),
        FrameStage::Unwind => None,
    }
}

/// What a frame holds once a reply has moved it.
pub open spec fn held_after(held: Seq<GpuResource>, mv: FrameMove) -> Seq<GpuResource> {
    match mv.acquired {
        Some(r) => held.push(r),
        None => held,
    }
}

/// At every stage a frame holds exactly what its earlier stages acquired. A call
/// that fails adds nothing, so unwinding gives back that and no more; after the
/// bitstream was locked, the lock is given back as well.
pub proof fn frames_hold_what_they_acquired(
    origin: FrameOrigin,
    job: FrameJob,
    rec: CudaNvencRecorder,
    status: i32,
    handle: u64,
)
    requires
        held_at(origin, job.stage) == Some(kinds(job.held@)),
    ensures
        ({
            let mv = job.moved(rec, status, handle);
            let after = held_after(job.held@, mv);
            if mv.stage != FrameStage::Unwind {
                held_at(origin, mv.stage) == Some(kinds(after))
            } else if mv.encoded {
                kinds(after) == kinds(job.held@).push(ResourceKind::BitstreamLock)
            } else {
                after == job.held@
            }
        }),
{
    let mv = job.moved(rec, status, handle);
    if mv.acquired is Some {
        let r = mv.acquired->0;
        assert(kinds(job.held@.push(r)) =~= kinds(job.held@).push(kind(r)));
    }
    let after = kinds(held_after(job.held@, mv));
    if mv.stage != FrameStage::Unwind {
        assert(held_at(origin, mv.stage)->0 =~= after);
    }
}

/// Every way of starting a frame starts with nothing held.
pub proof fn frames_start_with_nothing(job: FrameJob)
    requires
        job.held@.len() == 0,
    ensures
        job.stage == FrameStage::ImportImage ==> held_at(FrameOrigin::Dmabuf, job.stage) == Some(
            kinds(job.held@),
        ),
        job.stage == FrameStage::CreateArray || job.stage == FrameStage::CopyPixels ==> held_at(
            FrameOrigin::Pixels,
            job.stage,
        ) == Some(kinds(job.held@)),
        job.stage == FrameStage::RegisterInput ==> held_at(FrameOrigin::Repeat, job.stage) == Some(
            kinds(job.held@),
        ),
{
    assert(kinds(job.held@) =~= Seq::empty());
}

/// How far along a stage is.
pub open spec fn stage_rank(stage: FrameStage) -> int {
    match stage {
        FrameStage::CreateArray => 0,
        FrameStage::CopyPixels => 1,
        FrameStage::ImportImage => 0,
        FrameStage::RegisterImage => 1,
        FrameStage::MapFrame => 2,
        FrameStage::CreateTexture => 3,
        FrameStage::LaunchKernel => 4,
        FrameStage::Synchronize => 5,
        FrameStage::RegisterInput => 6,
        FrameStage::MapInput => 7,
        FrameStage::EncodePicture => 8,
        FrameStage::LockBitstream => 9,
        FrameStage::Unwind => 10,
    }
}

/// Every reply moves a job forward, so a frame reaches its unwinding after at
/// most ten calls.
pub proof fn every_reply_makes_progress(
    job: FrameJob,
    rec: CudaNvencRecorder,
    status: i32,
    handle: u64,
)
    requires
        job.stage != FrameStage::Unwind,
    ensures
        stage_rank(job.moved(rec, status, handle).stage) > stage_rank(job.stage),
        stage_rank(job.moved(rec, status, handle).stage) <= 10,
{
}

/// The conversion kernel is launched for no frame that exceeds the NV12 buffer:
/// the only way into the conversion stages is through the size check.
pub proof fn conversion_only_for_admitted_frames(
    job: FrameJob,
    rec: CudaNvencRecorder,
    status: i32,
    handle: u64,
)
    requires
        job.moved(rec, status, handle).stage == FrameStage::CreateTexture,
    ensures
        rec.admits(job.width, job.height, 0),
{
}

/// Every sample of a frame that a recorder admits lies inside the buffer that
/// the recorder holds, at the pitch that the conversion kernel is given.
pub proof fn admitted_frames_stay_in_the_recorders_buffer(
    rec: CudaNvencRecorder,
    w: u32,
    h: u32,
    stride: u32,
    x: int,
    y: int,
)
    requires
        rec.wf(),
        rec.admits(w, h, stride),
        0 <= x < w,
        0 <= y < h,
    ensures
        0 <= luma_index(rec.nv12_pitch as int, x, y) < buffer_bytes(
            rec.nv12_pitch as int,
            rec.height as int,
        ),
        0 <= chroma_index(rec.nv12_pitch as int, h as int, x, y),
        chroma_index(rec.nv12_pitch as int, h as int, x, y) + 1 < buffer_bytes(
            rec.nv12_pitch as int,
            rec.height as int,
        ),
{
    admitted_frame_stays_in_buffer(w, h, stride, rec.width, rec.height, x, y);
}

/// A frame yields output only where its bitstream was locked, and from then on
/// it only gives resources back.
pub proof fn output_needs_a_locked_bitstream(
    job: FrameJob,
    rec: CudaNvencRecorder,
    status: i32,
    handle: u64,
)
    ensures
        job.moved(rec, status, handle).encoded ==> {
            &&& job.stage == FrameStage::LockBitstream
            &&& status == 0
            &&& handle != 0
            &&& job.moved(rec, status, handle).stage == FrameStage::Unwind
        },
{
}

/// A picture is asked to be an IDR frame, and to come with its parameter sets,
/// exactly where the frame was started so; no other flag is ever set. What is
/// encoded is the mapped input, into the session's own output, under the frame's
/// size and time.
pub proof fn idr_flags_follow_the_request(job: FrameJob, rec: CudaNvencRecorder, c: FrameCall)
    requires
        call_ensures(FrameJob::call, (&job, &rec), c),
        job.stage == FrameStage::EncodePicture,
    ensures
        c matches FrameCall::EncodePicture(p) && {
            &&& p.encode_pic_flags & 0x2 != 0 <==> job.force_idr
            &&& p.encode_pic_flags & 0x4 != 0 <==> job.force_idr
            &&& p.encode_pic_flags & !0x6u32 == 0
            &&& p.input_width == job.width
            &&& p.input_height == job.height
            &&& p.input_pitch == rec.nv12_pitch
            &&& p.input_buffer == job.last
            &&& p.output_bitstream == rec.nvenc.bitstream
            &&& job.pts_us >= 0 ==> p.input_timestamp == job.pts_us
            &&& p.buffer_fmt == 1
            &&& p.picture_structure == 1
        },
{
    assert(6u32 & 0x2 != 0 && 6u32 & 0x4 != 0 && 6u32 & !0x6u32 == 0 && 0u32 & 0x2 == 0 && 0u32
        & 0x4 == 0 && 0u32 & !0x6u32 == 0) by (bit_vector);
}

/// The access unit of a frame is the bytes that the driver handed out, stamped
/// with the frame's time, and is marked as a keyframe exactly where an IDR frame
/// was asked for. From then on the recorder has something to repeat.
pub proof fn access_units_are_labelled_as_asked(reply: FrameReply)
    ensures
        forall|j: &mut FrameJob, rec: &mut CudaNvencRecorder|
            j.stage == FrameStage::LockBitstream && reply.status == 0 && reply.handle != 0
                && #[trigger] call_ensures(FrameJob::advance, (j, rec, reply), ()) ==> {
                &&& final(j).outcome matches Some(nal) && nal.data == reply.data && nal.pts_us
                    == j.pts_us && (nal.is_keyframe <==> j.force_idr)
                &&& final(j).stage == FrameStage::Unwind
                &&& final(j).held@ == j.held@.push(GpuResource::BitstreamLock(rec.nvenc.bitstream))
                &&& final(rec).has_encoded
            },
{
}

/// Each call works on what the call before it made: the image that was imported
/// is registered, the registration is mapped, the mapped array is wrapped, the
/// texture is converted, and the input that was registered is mapped and encoded.
pub proof fn calls_work_on_what_was_just_made(
    job: FrameJob,
    rec: CudaNvencRecorder,
    status: i32,
    handle: u64,
    next: FrameJob,
    c: FrameCall,
)
    requires
        status == 0,
        handle != 0,
        next.stage == job.moved(rec, status, handle).stage,
        next.last == job.moved(rec, status, handle).last,
        next.same_frame(job),
        next.is_due(rec, c),
    ensures
        job.stage == FrameStage::ImportImage ==> c == (FrameCall::RegisterImage { image: handle }),
        job.stage == FrameStage::RegisterImage ==> c == (FrameCall::MapFrame {
            registration: handle,
        }),
        job.stage == FrameStage::MapFrame && rec.converts(job.width, job.height) ==> c == (
        FrameCall::CreateTexture { array: handle }),
        job.stage == FrameStage::CreateArray ==> (c matches FrameCall::CopyPixels { array, .. }
            && array == handle),
        job.stage == FrameStage::CopyPixels && rec.converts(job.width, job.height) ==> c == (
        FrameCall::CreateTexture { array: job.last }),
        job.stage == FrameStage::CreateTexture ==> (c matches FrameCall::LaunchKernel {
            texture,
            ..
        } && texture == handle),
        job.stage == FrameStage::LaunchKernel ==> c == FrameCall::Synchronize,
        job.stage == FrameStage::Synchronize && rec.encode_slots ==> c is RegisterInput,
        job.stage == FrameStage::RegisterInput ==> (c matches FrameCall::MapInput(m)
            && m.registered_resource == handle),
        job.stage == FrameStage::MapInput ==> (c matches FrameCall::EncodePicture(p)
            && p.input_buffer == handle),
        job.stage == FrameStage::EncodePicture ==> (c matches FrameCall::LockBitstream(l)
            && l.output_bitstream == rec.nvenc.bitstream),
        job.stage == FrameStage::LockBitstream ==> c == FrameCall::Nothing,
{
}

/// A call that fails ends the frame: nothing is acquired by it, nothing is put
/// out, and what was acquired before is given back.
pub proof fn failed_calls_end_the_frame(
    job: FrameJob,
    rec: CudaNvencRecorder,
    status: i32,
    handle: u64,
)
    requires
        if job.stage == FrameStage::ImportImage {
            handle == 0
        } else {
            status != 0
        },
    ensures
        ({
            let mv = job.moved(rec, status, handle);
            &&& mv.stage == FrameStage::Unwind
            &&& mv.acquired is None
            &&& !mv.encoded
        }),
{
}

/// What a call acquires is the very handle that it returned, as what the call
/// makes; the bitstream's lock is that of the session's output.
pub proof fn acquired_handles_are_the_returned_ones(
    job: FrameJob,
    rec: CudaNvencRecorder,
    handle: u64,
)
    requires
        handle != 0,
    ensures
        job.moved(rec, 0, handle).acquired == match job.stage {
            FrameStage::ImportImage => Some(GpuResource::EglImage(handle)),
            FrameStage::RegisterImage => Some(GpuResource::CudaRegistration(handle)),
            FrameStage::CreateTexture => Some(GpuResource::Texture(handle)),
            FrameStage::RegisterInput => Some(GpuResource::NvencRegistration(handle)),
            FrameStage::MapInput => Some(GpuResource::NvencMapping(handle)),
            FrameStage::LockBitstream => Some(GpuResource::BitstreamLock(rec.nvenc.bitstream)),
            _ => None,
        },
{
}

/// The conversion is launched with just enough blocks of 16 by 16 threads, one
/// thread for each two by two samples, from the frame's texture into the
/// recorder's buffer, at the frame's size and the buffer's pitch.
pub proof fn the_launch_covers_the_frame(job: FrameJob, rec: CudaNvencRecorder, c: FrameCall)
    requires
        call_ensures(FrameJob::call, (&job, &rec), c),
        job.stage == FrameStage::LaunchKernel,
        job.width <= i32::MAX,
        job.height <= i32::MAX,
        rec.nv12_pitch <= i32::MAX,
    ensures
        c matches FrameCall::LaunchKernel { grid_x, grid_y, texture, dst, width, height, pitch } && {
            &&& grid_x * 16 >= job.width / 2 > (grid_x - 1) * 16 || grid_x == 0 && job.width / 2
                == 0
            &&& grid_y * 16 >= job.height / 2 > (grid_y - 1) * 16 || grid_y == 0 && job.height / 2
                == 0
            &&& texture == job.last
            &&& dst == rec.nv12_devptr
            &&& width == job.width
            &&& height == job.height
            &&& pitch == rec.nv12_pitch
        },
{
}

/// A dmabuf is imported as what it is: the attributes name its width, height,
/// format, descriptor, pitch and both words of its modifier, each behind the key
/// that EGL knows it by, from offset zero.
pub proof fn imports_describe_the_dmabuf(job: FrameJob, rec: CudaNvencRecorder, c: FrameCall)
    requires
        call_ensures(FrameJob::call, (&job, &rec), c),
        job.stage == FrameStage::ImportImage,
        job.width <= i32::MAX,
        job.height <= i32::MAX,
        job.stride <= i32::MAX,
    ensures
        c matches FrameCall::ImportImage { attrs } && {
            &&& attrs@[0] == 0x3057 && attrs@[1] == job.width
            &&& attrs@[2] == 0x3056 && attrs@[3] == job.height
            &&& attrs@[4] == 0x3271 && attrs@[5] == 0x3432_5241
            &&& attrs@[6] == 0x3272 && attrs@[7] == job.fd
            &&& attrs@[8] == 0x3273 && attrs@[9] == 0
            &&& attrs@[10] == 0x3274 && attrs@[11] == job.stride
            &&& attrs@[12] == 0x3443 && attrs@[13] == modifier_lo(job.modifier)
            &&& attrs@[14] == 0x3444 && attrs@[15] == modifier_hi(job.modifier)
            &&& attrs@[16] == 0x3038
        },
{
}

/// Host pixels are copied whole: four bytes for each pixel of each row, from rows
/// of the frame's own stride, into the array that was made for the recorder's
/// size.
pub proof fn pixels_are_copied_whole(job: FrameJob, rec: CudaNvencRecorder, c: FrameCall)
    requires
        call_ensures(FrameJob::call, (&job, &rec), c),
    ensures
        job.stage == FrameStage::CopyPixels ==> (c matches FrameCall::CopyPixels {
            array,
            src_pitch,
            width_in_bytes,
            height,
        } && array == job.last && src_pitch == job.stride && width_in_bytes == job.width * 4
            && height == job.height),
        job.stage == FrameStage::CreateArray ==> (c matches FrameCall::CreateArray {
            width,
            height,
            format,
            num_channels,
        } && width == rec.width && height == rec.height && format == 1 && num_channels == 4),
{
}

/// The encoder is given the recorder's own buffer, as NV12 at the buffer's pitch.
pub proof fn the_encoder_reads_the_recorders_buffer(
    job: FrameJob,
    rec: CudaNvencRecorder,
    c: FrameCall,
)
    requires
        call_ensures(FrameJob::call, (&job, &rec), c),
        job.stage == FrameStage::RegisterInput,
    ensures
        c matches FrameCall::RegisterInput(r) && {
            &&& r.resource_type == 1
            &&& r.width == job.width
            &&& r.height == job.height
            &&& r.pitch == rec.nv12_pitch
            &&& r.resource_to_register == rec.nv12_devptr
            &&& r.buffer_format == 1
            &&& r.buffer_usage == 0
        },
{
}

/// A dmabuf frame is taken on exactly where it is no wider, no higher and of no
/// longer rows than the recorder's buffer; it is taken on as it was given. Only
/// the first frame that is dropped is worth a warning.
pub proof fn oversized_frames_are_dropped(
    fd: i32,
    modifier: u64,
    width: u32,
    height: u32,
    stride: u32,
    pts_us: i64,
    force_idr: bool,
    r: FrameStart,
    again: FrameStart,
)
    ensures
        forall|m: &mut CudaNvencRecorder|
            #[trigger] call_ensures(
                CudaNvencRecorder::encode_dmabuf,
                (m, fd, modifier, width, height, stride, pts_us, force_idr),
                r,
            ) ==> {
                &&& r is Run <==> width <= m.width && height <= m.height && stride <= m.nv12_pitch
                &&& r matches FrameStart::Run(j) ==> j.fd == fd && j.modifier == modifier && j.width
                    == width && j.height == height && j.stride == stride && j.pts_us == pts_us
                    && j.force_idr == force_idr && j.held@.len() == 0 && j.outcome is None && j.stage
                    == FrameStage::ImportImage
                &&& r matches FrameStart::Drop { warn } ==> (warn <==> !m.oversize_rejected_logged)
                &&& final(m).width == m.width && final(m).height == m.height
                    && final(m).input_array == m.input_array && final(m).has_encoded
                    == m.has_encoded
            },
        forall|m: &mut CudaNvencRecorder, n: &mut CudaNvencRecorder|
            r is Drop && *n == *final(m) && #[trigger] call_ensures(
                CudaNvencRecorder::encode_dmabuf,
                (m, fd, modifier, width, height, stride, pts_us, force_idr),
                r,
            ) && #[trigger] call_ensures(
                CudaNvencRecorder::encode_dmabuf,
                (n, fd, modifier, width, height, stride, pts_us, force_idr),
                again,
            ) ==> (again matches FrameStart::Drop { warn } && !warn),
{
}

/// Host pixels are cut to the recorder's size and never dropped; the input array
/// is made for the first such frame alone.
pub proof fn pixels_are_cut_to_the_recorders_size(
    rec: CudaNvencRecorder,
    width: u32,
    height: u32,
    stride: u32,
    pts_us: i64,
    force_idr: bool,
    j: FrameJob,
)
    requires
        call_ensures(
            CudaNvencRecorder::encode_pixels,
            (&rec, width, height, stride, pts_us, force_idr),
            j,
        ),
    ensures
        j.width <= width && j.width <= rec.width && (j.width == width || j.width == rec.width),
        j.height <= height && j.height <= rec.height && (j.height == height || j.height
            == rec.height),
        j.stride == stride,
        j.pts_us == pts_us,
        j.force_idr == force_idr,
        j.held@.len() == 0,
        j.stage == FrameStage::CreateArray <==> rec.input_array == 0,
        rec.input_array != 0 ==> j.stage == FrameStage::CopyPixels && j.last == rec.input_array,
{
}

/// What was encoded last can be encoded again, in full and without converting
/// anything, once something has been encoded.
pub proof fn repeats_skip_the_conversion(
    rec: CudaNvencRecorder,
    pts_us: i64,
    force_idr: bool,
    r: Option<FrameJob>,
)
    requires
        call_ensures(CudaNvencRecorder::reencode_last, (&rec, pts_us, force_idr), r),
    ensures
        r is Some <==> rec.has_encoded,
        r matches Some(j) ==> {
            &&& j.width == rec.width
            &&& j.height == rec.height
            &&& j.pts_us == pts_us
            &&& j.force_idr == force_idr
            &&& j.held@.len() == 0
            &&& rec.encode_slots ==> j.stage == FrameStage::RegisterInput
            &&& !rec.encode_slots ==> j.stage == FrameStage::Unwind
        },
{
}

/// Giving back is last in, first out, one object at a time, and keeps the frame's
/// result; the result that is finished with is the one that was kept.
pub proof fn releases_take_the_last_acquired(r: Option<GpuResource>)
    ensures
        forall|m: &mut FrameJob|
            #[trigger] call_ensures(FrameJob::release, (m,), r) ==> {
                &&& r is Some <==> m.stage == FrameStage::Unwind && m.held@.len() > 0
                &&& r matches Some(g) ==> g == m.held@[m.held@.len() - 1] && final(m).held@.push(g)
                    == m.held@
                &&& final(m).outcome == m.outcome
                &&& final(m).stage == m.stage
            },
{
}

/// A recorder is made exactly around a buffer that could be allocated, in the
/// session's size, with the parameter sets that the session gave, and with nothing
/// encoded yet; dropping it frees the buffer and the input array where they are.
pub proof fn recorders_own_their_buffer(
    nvenc: NvencSession,
    csc_loaded: bool,
    encode_slots: bool,
    sequence: Option<Vec<u8>>,
    status: i32,
    devptr: u64,
    r: Option<CudaNvencRecorder>,
    rec: CudaNvencRecorder,
    freed: (Option<u64>, Option<u64>),
)
    requires
        nvenc.wf(),
        nvenc.stage == OpenStage::Ready,
        aligned_pitch(nvenc.width as int) <= u32::MAX,
        call_ensures(
            CudaNvencRecorder::try_new,
            (nvenc, csc_loaded, encode_slots, sequence, status, devptr),
            r,
        ),
        call_ensures(CudaNvencRecorder::releases, (&rec,), freed),
    ensures
        r is Some <==> status == 0 && devptr != 0,
        r matches Some(n) ==> {
            &&& n.width == nvenc.width && n.height == nvenc.height
            &&& n.nv12_devptr == devptr
            &&& n.nv12_pitch as int % 256 == 0 && n.nv12_pitch >= n.width
            &&& sequence matches Some(v) ==> n.codec_private@ == v@
            &&& sequence is None ==> n.codec_private@.len() == 0
            &&& n.input_array == 0 && !n.has_encoded && !n.oversize_rejected_logged
            &&& n.csc_loaded == csc_loaded && n.encode_slots == encode_slots && n.nvenc == nvenc
        },
        freed.0 is Some <==> rec.nv12_devptr != 0,
        freed.0 matches Some(p) ==> p == rec.nv12_devptr,
        freed.1 is Some <==> rec.input_array != 0,
        freed.1 matches Some(a) ==> a == rec.input_array,
{
    crate::nv12::whole_blocks(nvenc.width as int);
}

/// The array that was made for the first frame of host pixels is kept for the later
/// ones, and no other reply changes what the recorder holds.
pub proof fn input_arrays_are_made_once(reply: FrameReply)
    ensures
        forall|j: &mut FrameJob, rec: &mut CudaNvencRecorder|
            #[trigger] call_ensures(FrameJob::advance, (j, rec, reply), ()) ==> {
                &&& j.stage == FrameStage::CreateArray && reply.status == 0 && reply.handle != 0
                    ==> final(rec).input_array == reply.handle && final(j).last == reply.handle
                &&& j.stage != FrameStage::CreateArray ==> final(rec).input_array
                    == rec.input_array
                &&& final(rec).nv12_devptr == rec.nv12_devptr && final(rec).nv12_pitch
                    == rec.nv12_pitch && final(rec).width == rec.width && final(rec).height
                    == rec.height
                &&& rec.has_encoded ==> final(rec).has_encoded
                &&& final(j).width == j.width && final(j).height == j.height && final(j).pts_us
                    == j.pts_us && final(j).force_idr == j.force_idr
            },
{
}

/// What a frame comes to is what its job has kept; a recorder hands out the
/// parameter sets it was made with, and asks its session for a change of bitrate in
/// its own size, with an IDR frame to start the new rate.
pub proof fn recorders_hand_out_what_they_keep(
    job: FrameJob,
    nal: Option<EncodedNal>,
    rec: CudaNvencRecorder,
    sets: &[u8],
    status: i32,
    config: crate::nvenc::NV_ENC_CONFIG,
    bps: u32,
    change: Option<NV_ENC_RECONFIGURE_PARAMS>,
)
    requires
        job.stage == FrameStage::Unwind,
        job.held@.len() == 0,
        call_ensures(FrameJob::finish, (job,), nal),
        call_ensures(CudaNvencRecorder::codec_private, (&rec,), sets),
        call_ensures(
            CudaNvencRecorder::reconfigure_bitrate,
            (&rec, DriverReply::Preset { status, config }, bps),
            change,
        ),
    ensures
        nal == job.outcome,
        sets@ == rec.codec_private@,
        change is Some <==> status == 0,
        change matches Some(p) ==> {
            &&& p.re_init_encode_params.encode_width == rec.nvenc.width
            &&& p.re_init_encode_params.encode_height == rec.nvenc.height
            &&& p.re_init_encode_params.encode_config.rc_params.average_bit_rate == bps
            &&& p.flags == 2
        },
{
}

/// A frame goes through its calls one by one: pixels are copied before they are
/// converted, an image is registered before it is mapped, the kernel is waited for
/// before its output is encoded. Conversion is left out where the kernel is not
/// loaded or the frame does not fit, and encoding where the encoder lacks the calls;
/// the frame then ends.
pub proof fn frames_go_step_by_step(reply: FrameReply)
    requires
        reply.status == 0,
        reply.handle != 0,
    ensures
        forall|j: &mut FrameJob, rec: &mut CudaNvencRecorder|
            #[trigger] call_ensures(FrameJob::advance, (j, rec, reply), ()) ==> {
                let fits = rec.csc_loaded && j.width <= rec.width && j.height <= rec.height;
                &&& j.stage == FrameStage::CreateArray ==> final(j).stage == FrameStage::CopyPixels
                &&& j.stage == FrameStage::ImportImage ==> final(j).stage
                    == FrameStage::RegisterImage
                &&& j.stage == FrameStage::RegisterImage ==> final(j).stage == FrameStage::MapFrame
                &&& (j.stage == FrameStage::CopyPixels || j.stage == FrameStage::MapFrame) && fits
                    ==> final(j).stage == FrameStage::CreateTexture
                &&& (j.stage == FrameStage::CopyPixels || j.stage == FrameStage::MapFrame) && !fits
                    ==> final(j).stage == FrameStage::Unwind
                &&& (j.stage == FrameStage::CopyPixels || j.stage == FrameStage::MapFrame)
                    && rec.csc_loaded && !fits ==> final(rec).oversize_rejected_logged
                &&& fits ==> final(rec).oversize_rejected_logged == rec.oversize_rejected_logged
                &&& j.stage == FrameStage::CreateTexture ==> final(j).stage
                    == FrameStage::LaunchKernel
                &&& j.stage == FrameStage::LaunchKernel ==> final(j).stage
                    == FrameStage::Synchronize
                &&& j.stage == FrameStage::Synchronize && rec.encode_slots ==> final(j).stage
                    == FrameStage::RegisterInput
                &&& j.stage == FrameStage::Synchronize && !rec.encode_slots ==> final(j).stage
                    == FrameStage::Unwind
                &&& j.stage == FrameStage::RegisterInput ==> final(j).stage == FrameStage::MapInput
                &&& j.stage == FrameStage::MapInput ==> final(j).stage == FrameStage::EncodePicture
                &&& j.stage == FrameStage::EncodePicture ==> final(j).stage
                    == FrameStage::LockBitstream
                &&& j.stage == FrameStage::LockBitstream || j.stage == FrameStage::Unwind
                    ==> final(j).stage == FrameStage::Unwind
            },
{
}

/// A call that succeeds without a handle to work on ends the frame like one that
/// fails, and nothing is held for it.
pub proof fn missing_handles_end_the_frame(reply: FrameReply)
    requires
        reply.handle == 0,
    ensures
        forall|j: &mut FrameJob, rec: &mut CudaNvencRecorder|
            #[trigger] call_ensures(FrameJob::advance, (j, rec, reply), ()) ==> (match j.stage {
                FrameStage::CreateArray
                | FrameStage::ImportImage
                | FrameStage::RegisterImage
                | FrameStage::MapFrame
                | FrameStage::CreateTexture
                | FrameStage::RegisterInput
                | FrameStage::MapInput
                | FrameStage::LockBitstream => final(j).stage == FrameStage::Unwind,
                _ => true,
            }) && final(j).held@ == j.held@ && final(j).outcome == j.outcome && final(rec).has_encoded == rec.has_encoded && final(rec).input_array == rec.input_array,
{
}

} // verus!
