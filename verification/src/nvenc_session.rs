//! Bring-up, reconfiguration and teardown of an NVENC session.
//!
//! The driver calls themselves are made by the caller: a session names the next
//! call with its parameters, and is advanced with what came back.

use vstd::prelude::*;

use crate::nvenc::{
    apply_viewer_encode_config, init_params, nv_enc_codec_h264_guid, nv_enc_config_ver,
    nv_enc_create_bitstream_buffer_ver, nv_enc_open_encode_session_ex_params_ver,
    nv_enc_preset_config_ver, nv_enc_preset_p5_guid, nv_enc_reconfigure_params_ver,
    nv_enc_sequence_param_payload_ver, nv_encode_api_function_list_ver, GUID, NVENCAPI_VERSION,
    NV_ENC_CONFIG, NV_ENC_DEVICE_TYPE_CUDA, NV_ENC_INITIALIZE_PARAMS,
    NV_ENC_OPEN_ENCODE_SESSION_EX_PARAMS, NV_ENC_RECONFIGURE_FORCE_IDR, NV_ENC_RECONFIGURE_PARAMS,
    NV_ENC_TUNING_INFO_LOW_LATENCY, VIEWER_BITRATE_BPS,
};
#[allow(unused_imports)]
use crate::nvenc::NV_ENC_RECONFIGURE_RESET_ENCODER;

verus! {

/// How far a session has come.
#[derive(Clone, Copy, Debug, PartialEq, Eq, Structural)]
pub enum OpenStage {
    /// The encoder library is being loaded.
    Library,
    /// Its entry point is being resolved.
    Entry,
    /// The function table is being filled.
    Instance,
    /// The encode session is being opened.
    Session,
    /// The preset configuration is being fetched.
    Preset,
    /// The encoder is being initialised.
    Initialize,
    /// The output bitstream buffer is being created.
    Bitstream,
    Ready,
    Failed,
}

/// What came back of a driver call.
#[derive(Clone, Copy, Debug)]
pub enum DriverReply {
    /// The library, symbol or function-table slot is absent.
    Missing,
    /// The call returned a status, and a handle where it makes one.
    Returned { status: i32, handle: u64 },
    /// The preset query returned a status and a configuration.
    Preset { status: i32, config: NV_ENC_CONFIG },
}

/// The next driver call of a session.
#[allow(inconsistent_fields)]
#[derive(Clone, Copy, Debug)]
pub enum NvencCall {
    LoadLibrary,
    ResolveEntry,
    CreateInstance { version: u32 },
    OpenSession { params: NV_ENC_OPEN_ENCODE_SESSION_EX_PARAMS },
    GetPresetConfig {
        encoder: u64,
        encode_guid: GUID,
        preset_guid: GUID,
        tuning_info: u32,
        preset_version: u32,
        config_version: u32,
    },
    Initialize { encoder: u64, params: NV_ENC_INITIALIZE_PARAMS },
    CreateBitstream { encoder: u64, version: u32 },
    Nothing,
}

/// A driver object that a finished session gives back.
#[derive(Clone, Copy, Debug, PartialEq, Eq, Structural)]
pub enum NvencRelease {
    Bitstream { encoder: u64, bitstream: u64 },
    Encoder { encoder: u64 },
}

/// An NVENC session bound to a CUDA context.
#[derive(Clone, Copy, Debug)]
pub struct NvencSession {
    pub stage: OpenStage,
    pub cuctx: u64,
    pub width: u32,
    pub height: u32,
    /// The open encoder, or 0.
    pub encoder: u64,
    /// The output bitstream buffer, or 0.
    pub bitstream: u64,
    /// The configuration the encoder is initialised with.
    pub config: Option<NV_ENC_CONFIG>,
}

/// Whether the call succeeded, and made a handle where it has to.
pub open spec fn succeeded(reply: DriverReply, makes_handle: bool) -> bool {
    match reply {
        DriverReply::Missing => false,
        DriverReply::Returned { status, handle } => status == 0 && (makes_handle ==> handle != 0),
        DriverReply::Preset { status, .. } => status == 0 && !makes_handle,
    }
}

/// The configuration a viewer session runs with, derived from a preset.
pub open spec fn session_config(preset: NV_ENC_CONFIG, bps: u32) -> NV_ENC_CONFIG {
    crate::nvenc::viewer_config(NV_ENC_CONFIG { version: 0xf009_000d, ..preset }, bps)
}

impl NvencSession {
    /// A session that has not made any call yet.
    pub open spec fn fresh(cuctx: u64, width: u32, height: u32) -> NvencSession {
        NvencSession {
            stage: OpenStage::Library,
            cuctx,
            width,
            height,
            encoder: 0,
            bitstream: 0,
            config: None,
        }
    }

    /// The session after a failed call: nothing is held any more.
    pub open spec fn failed(self) -> NvencSession {
        NvencSession { stage: OpenStage::Failed, encoder: 0, bitstream: 0, config: None, ..self }
    }

    /// The session after its current call came back with `reply`.
    pub open spec fn after(self, reply: DriverReply) -> NvencSession {
        match self.stage {
            OpenStage::Library => if succeeded(reply, false) {
                NvencSession { stage: OpenStage::Entry, ..self }
            } else {
                self.failed()
            },
            OpenStage::Entry => if succeeded(reply, false) {
                NvencSession { stage: OpenStage::Instance, ..self }
            } else {
                self.failed()
            },
            OpenStage::Instance => if succeeded(reply, false) {
                NvencSession { stage: OpenStage::Session, ..self }
            } else {
                self.failed()
            },
            OpenStage::Session => if succeeded(reply, true) {
                NvencSession {
                    stage: OpenStage::Preset,
                    encoder: reply->Returned_handle,
                    ..self
                }
            } else {
                self.failed()
            },
            OpenStage::Preset => match reply {
                DriverReply::Preset { status, config } => if status == 0 {
                    NvencSession {
                        stage: OpenStage::Initialize,
                        config: Some(session_config(config, VIEWER_BITRATE_BPS)),
                        ..self
                    }
                } else {
                    self.failed()
                },
                _ => self.failed(),
            },
            OpenStage::Initialize => if succeeded(reply, false) {
                NvencSession { stage: OpenStage::Bitstream, ..self }
            } else {
                self.failed()
            },
            OpenStage::Bitstream => if succeeded(reply, true) {
                NvencSession {
                    stage: OpenStage::Ready,
                    bitstream: reply->Returned_handle,
                    ..self
                }
            } else {
                self.failed()
            },
            OpenStage::Ready => self,
            OpenStage::Failed => self,
        }
    }

    /// The handles a session holds at its stage.
    pub open spec fn wf(self) -> bool {
        match self.stage {
            OpenStage::Library | OpenStage::Entry | OpenStage::Instance | OpenStage::Session => {
                self.encoder == 0 && self.bitstream == 0
            },
            OpenStage::Preset => self.encoder != 0 && self.bitstream == 0,
            OpenStage::Initialize | OpenStage::Bitstream => self.encoder != 0 && self.bitstream == 0
                && self.config is Some,
            OpenStage::Ready => self.encoder != 0 && self.bitstream != 0 && self.config is Some,
            OpenStage::Failed => self.encoder == 0 && self.bitstream == 0,
        }
    }

    /// The call that is due at the session's stage.
    pub open spec fn due(self) -> NvencCall {
        match self.stage {
            OpenStage::Library => NvencCall::LoadLibrary,
            OpenStage::Entry => NvencCall::ResolveEntry,
            OpenStage::Instance => NvencCall::CreateInstance { version: 0x7002_000d },
            OpenStage::Session => NvencCall::OpenSession {
                params: NV_ENC_OPEN_ENCODE_SESSION_EX_PARAMS {
                    version: 0x7001_000d,
                    device_type: NV_ENC_DEVICE_TYPE_CUDA,
                    device: self.cuctx,
                    api_version: NVENCAPI_VERSION,
                },
            },
            OpenStage::Preset => preset_query(self.encoder),
            OpenStage::Initialize => match self.config {
                Some(config) => NvencCall::Initialize {
                    encoder: self.encoder,
                    params: crate::nvenc::viewer_init(self.width, self.height, config),
                },
                None => NvencCall::Nothing,
            },
            OpenStage::Bitstream => NvencCall::CreateBitstream {
                encoder: self.encoder,
                version: 0x7001_000d,
            },
            OpenStage::Ready => NvencCall::Nothing,
            OpenStage::Failed => NvencCall::Nothing,
        }
    }

    /// Starts bringing up a session for `width` x `height` frames in the CUDA
    /// context `cuctx`.
    pub fn open(cuctx: u64, width: u32, height: u32) -> (r: NvencSession)
        ensures
            r == NvencSession::fresh(cuctx, width, height),
            r.wf(),
    {
        NvencSession {
            stage: OpenStage::Library,
            cuctx,
            width,
            height,
            encoder: 0,
            bitstream: 0,
            config: None,
        }
    }

    /// The driver call that is due.
    pub fn call(&self) -> (r: NvencCall)
        ensures
            r == self.due(),
    {
        match self.stage {
            OpenStage::Library => NvencCall::LoadLibrary,
            OpenStage::Entry => NvencCall::ResolveEntry,
            OpenStage::Instance => NvencCall::CreateInstance {
                version: nv_encode_api_function_list_ver(),
            },
            OpenStage::Session => NvencCall::OpenSession {
                params: NV_ENC_OPEN_ENCODE_SESSION_EX_PARAMS {
                    version: nv_enc_open_encode_session_ex_params_ver(),
                    device_type: NV_ENC_DEVICE_TYPE_CUDA,
                    device: self.cuctx,
                    api_version: NVENCAPI_VERSION,
                },
            },
            OpenStage::Preset => query_preset(self.encoder),
            OpenStage::Initialize => match self.config {
                Some(config) => NvencCall::Initialize {
                    encoder: self.encoder,
                    params: init_params(self.width, self.height, config),
                },
                None => NvencCall::Nothing,
            },
            OpenStage::Bitstream => NvencCall::CreateBitstream {
                encoder: self.encoder,
                version: nv_enc_create_bitstream_buffer_ver(),
            },
            OpenStage::Ready => NvencCall::Nothing,
            OpenStage::Failed => NvencCall::Nothing,
        }
    }

    fn fail(&mut self)
        ensures
            *final(self) == old(self).failed(),
    {
        self.stage = OpenStage::Failed;
        self.encoder = 0;
        self.bitstream = 0;
        self.config = None;
    }

    /// Takes the reply of the due call. Returns the encoder to destroy, where a
    /// step failed after the encoder had been opened: an open encoder is either
    /// kept or handed back, never dropped.
    pub fn advance(&mut self, reply: DriverReply) -> (destroy: Option<u64>)
        requires
            old(self).wf(),
        ensures
            *final(self) == old(self).after(reply),
            final(self).wf(),
            destroy == if old(self).encoder != 0 && final(self).encoder == 0 {
                Some(old(self).encoder)
            } else {
                None
            },
            old(self).encoder != 0 ==> final(self).encoder == old(self).encoder || destroy == Some(
                old(self).encoder,
            ),
    {
        let encoder: u64 = self.encoder;
        let ok: bool = match reply {
            DriverReply::Missing => false,
            DriverReply::Returned { status, .. } => status == 0,
            DriverReply::Preset { status, .. } => status == 0,
        };
        let handle: u64 = match reply {
            DriverReply::Returned { handle, .. } => handle,
            _ => 0,
        };
        match self.stage {
            OpenStage::Library => {
                if ok {
                    self.stage = OpenStage::Entry;
                } else {
                    self.fail();
                }
            },
            OpenStage::Entry => {
                if ok {
                    self.stage = OpenStage::Instance;
                } else {
                    self.fail();
                }
            },
            OpenStage::Instance => {
                if ok {
                    self.stage = OpenStage::Session;
                } else {
                    self.fail();
                }
            },
            OpenStage::Session => {
                if ok && handle != 0 {
                    self.stage = OpenStage::Preset;
                    self.encoder = handle;
                } else {
                    self.fail();
                }
            },
            OpenStage::Preset => {
                match reply {
                    DriverReply::Preset { status, config } => {
                        if status == 0 {
                            let mut config: NV_ENC_CONFIG = config;
                            config.version = nv_enc_config_ver();
                            apply_viewer_encode_config(&mut config, VIEWER_BITRATE_BPS);
                            self.stage = OpenStage::Initialize;
                            self.config = Some(config);
                        } else {
                            self.fail();
                        }
                    },
                    _ => {
                        self.fail();
                    },
                }
            },
            OpenStage::Initialize => {
                if ok {
                    self.stage = OpenStage::Bitstream;
                } else {
                    self.fail();
                }
            },
            OpenStage::Bitstream => {
                if ok && handle != 0 {
                    self.stage = OpenStage::Ready;
                    self.bitstream = handle;
                } else {
                    self.fail();
                }
            },
            OpenStage::Ready => {},
            OpenStage::Failed => {},
        }
        if encoder != 0 && self.encoder == 0 {
            Some(encoder)
        } else {
            None
        }
    }

    /// What dropping the session gives back, in order: the bitstream buffer
    /// before the encoder it belongs to.
    pub fn releases(&self) -> (r: Vec<NvencRelease>)
        ensures
            r@ == (if self.bitstream != 0 {
                seq![NvencRelease::Bitstream { encoder: self.encoder, bitstream: self.bitstream }]
            } else {
                Seq::empty()
            }) + (if self.encoder != 0 {
                seq![NvencRelease::Encoder { encoder: self.encoder }]
            } else {
                Seq::empty()
            }),
    {
        let mut r: Vec<NvencRelease> = Vec::new();
        if self.bitstream != 0 {
            r.push(
                NvencRelease::Bitstream { encoder: self.encoder, bitstream: self.bitstream },
            );
        }
        if self.encoder != 0 {
            r.push(NvencRelease::Encoder { encoder: self.encoder });
        }
        r
    }

    /// The parameters of a bitrate change, where the preset query succeeded.
    pub open spec fn reconfiguration(self, preset: DriverReply, bps: u32) -> Option<
        NV_ENC_RECONFIGURE_PARAMS,
    > {
        match preset {
            DriverReply::Preset { status, config } => if status == 0 {
                Some(
                    NV_ENC_RECONFIGURE_PARAMS {
                        version: 0xf002_000d,
                        re_init_encode_params: crate::nvenc::viewer_init(
                            self.width,
                            self.height,
                            session_config(config, bps),
                        ),
                        flags: NV_ENC_RECONFIGURE_FORCE_IDR,
                    },
                )
            } else {
                None
            },
            _ => None,
        }
    }

    /// The preset query that precedes a bitrate change.
    pub fn reconfigure_query(&self) -> (r: NvencCall)
        ensures
            r == preset_query(self.encoder),
    {
        query_preset(self.encoder)
    }

    /// Parameters that move the live encoder to `bps`, given the reply of the
    /// preset query; `None` where that query failed. They carry the whole
    /// configuration, since the driver would reset whatever is left out. They
    /// force an IDR frame, so that the new bitrate takes effect on a keyframe,
    /// and do not reset the encoder, which would make the stream hitch.
    pub fn reconfigure_bitrate(&self, preset: DriverReply, bps: u32) -> (r: Option<
        NV_ENC_RECONFIGURE_PARAMS,
    >)
        ensures
            r == self.reconfiguration(preset, bps),
    {
        match preset {
            DriverReply::Preset { status, config } => {
                if status != 0 {
                    return None;
                }
                let mut config: NV_ENC_CONFIG = config;
                config.version = nv_enc_config_ver();
                apply_viewer_encode_config(&mut config, bps);
                Some(
                    NV_ENC_RECONFIGURE_PARAMS {
                        version: nv_enc_reconfigure_params_ver(),
                        re_init_encode_params: init_params(self.width, self.height, config),
                        flags: NV_ENC_RECONFIGURE_FORCE_IDR,
                    },
                )
            },
            _ => None,
        }
    }

    /// Whether the live encoder has moved to its new bitrate: the preset query
    /// answered `preset`, and the call with the parameters that follow from it
    /// came back with `reply`.
    pub fn reconfigured(&self, preset: DriverReply, reply: DriverReply) -> (r: bool)
        ensures
            r == (preset is Preset && succeeded(preset, false) && succeeded(reply, false)),
    {
        let queried: bool = match preset {
            DriverReply::Preset { status, .. } => status == 0,
            _ => false,
        };
        let accepted: bool = match reply {
            DriverReply::Missing => false,
            DriverReply::Returned { status, .. } => status == 0,
            DriverReply::Preset { status, .. } => status == 0,
        };
        queried && accepted
    }
}

/// The query for the low-latency H.264 preset.
pub open spec fn preset_query(encoder: u64) -> NvencCall {
    NvencCall::GetPresetConfig {
        encoder,
        encode_guid: nv_enc_codec_h264_guid(),
        preset_guid: nv_enc_preset_p5_guid(),
        tuning_info: NV_ENC_TUNING_INFO_LOW_LATENCY,
        preset_version: 0xf005_000d,
        config_version: 0xf009_000d,
    }
}

fn query_preset(encoder: u64) -> (r: NvencCall)
    ensures
        r == preset_query(encoder),
{
    NvencCall::GetPresetConfig {
        encoder,
        encode_guid: nv_enc_codec_h264_guid(),
        preset_guid: nv_enc_preset_p5_guid(),
        tuning_info: NV_ENC_TUNING_INFO_LOW_LATENCY,
        preset_version: nv_enc_preset_config_ver(),
        config_version: nv_enc_config_ver(),
    }
}

/// Size of the buffer that receives the parameter sets.
pub const SEQUENCE_BUFFER_LEN: u32 = 1024;

/// Version word and buffer size of the parameter-set query.
pub fn sequence_query() -> (r: (u32, u32))
    ensures
        r == (0x7001_000du32, SEQUENCE_BUFFER_LEN),
{
    (nv_enc_sequence_param_payload_ver(), SEQUENCE_BUFFER_LEN)
}

/// The parameter sets out of the query's reply: the first `out_size` bytes of
/// the buffer, or all of it where the driver claims more. `None` where the
/// query is absent or failed.
pub fn sequence_params(reply: DriverReply, buf: Vec<u8>, out_size: u32) -> (r: Option<Vec<u8>>)
    ensures
        match r {
            Some(v) => succeeded(reply, false) && v@ == buf@.take(
                if out_size < buf@.len() {
                    out_size as int
                } else {
                    buf@.len() as int
                },
            ),
            None => !succeeded(reply, false),
        },
{
    let ok: bool = match reply {
        DriverReply::Missing => false,
        DriverReply::Returned { status, .. } => status == 0,
        DriverReply::Preset { status, .. } => status == 0,
    };
    if !ok {
        return None;
    }
    let mut buf: Vec<u8> = buf;
    if (out_size as u64) < buf.len() as u64 {
        buf.truncate(out_size as usize);
    } else {
        assert(buf@ =~= buf@.take(buf@.len() as int));
    }
    Some(buf)
}

/// A bitrate change forces an IDR frame and does not reset the encoder, and it
/// carries the parameters that a session of that size was opened with, but for
/// the bitrate.
pub proof fn bitrate_changes_force_a_keyframe(
    session: NvencSession,
    status: i32,
    config: NV_ENC_CONFIG,
    bps: u32,
)
    requires
        status == 0,
    ensures
        session.reconfiguration(DriverReply::Preset { status, config }, bps) is Some,
        ({
            let p = session.reconfiguration(DriverReply::Preset { status, config }, bps)->0;
            let opened = crate::nvenc::viewer_init(
                session.width,
                session.height,
                session_config(config, VIEWER_BITRATE_BPS),
            );
            &&& p.flags & NV_ENC_RECONFIGURE_FORCE_IDR != 0
            &&& p.flags & NV_ENC_RECONFIGURE_RESET_ENCODER == 0
            &&& p.re_init_encode_params == (NV_ENC_INITIALIZE_PARAMS {
                encode_config: session_config(config, bps),
                ..opened
            })
            &&& bps == VIEWER_BITRATE_BPS ==> p.re_init_encode_params == opened
        }),
{
    assert(0x2u32 & 0x2u32 != 0 && 0x2u32 & 0x1u32 == 0) by (bit_vector);
}

/// A session as it runs: after every reply in turn.
pub open spec fn run(session: NvencSession, replies: Seq<DriverReply>) -> NvencSession
    decreases replies.len(),
{
    if replies.len() == 0 {
        session
    } else {
        run(session, replies.drop_last()).after(replies.last())
    }
}

/// Whatever the driver answers, a session that failed holds nothing, and a
/// session that is ready holds both its encoder and its bitstream buffer.
pub proof fn bring_up_is_all_or_nothing(
    cuctx: u64,
    width: u32,
    height: u32,
    replies: Seq<DriverReply>,
)
    ensures
        run(NvencSession::fresh(cuctx, width, height), replies).wf(),
        run(NvencSession::fresh(cuctx, width, height), replies).width == width,
        run(NvencSession::fresh(cuctx, width, height), replies).height == height,
    decreases replies.len(),
{
    if replies.len() > 0 {
        bring_up_is_all_or_nothing(cuctx, width, height, replies.drop_last());
    }
}

/// A failed session stays failed and a ready one stays ready.
pub proof fn outcome_is_stable(session: NvencSession, reply: DriverReply)
    requires
        session.stage == OpenStage::Failed || session.stage == OpenStage::Ready,
    ensures
        session.after(reply) == session,
{
}

/// Bring-up is a fixed series: after every call that succeeds the next one is due,
/// and after the last one the session is ready, with the encoder that was opened
/// and the output that was created for it.
pub proof fn bring_up_goes_step_by_step(session: NvencSession, handle: u64, config: NV_ENC_CONFIG)
    requires
        handle != 0,
        session.wf(),
    ensures
        ({
            let next = session.after(DriverReply::Returned { status: 0, handle });
            let queried = session.after(DriverReply::Preset { status: 0, config });
            &&& session.stage == OpenStage::Library ==> next.stage == OpenStage::Entry
            &&& session.stage == OpenStage::Entry ==> next.stage == OpenStage::Instance
            &&& session.stage == OpenStage::Instance ==> next.stage == OpenStage::Session
            &&& session.stage == OpenStage::Session ==> next.stage == OpenStage::Preset
                && next.encoder == handle
            &&& session.stage == OpenStage::Preset ==> queried.stage == OpenStage::Initialize
                && queried.encoder == session.encoder && queried.config is Some
            &&& session.stage == OpenStage::Initialize ==> next.stage == OpenStage::Bitstream
                && next.encoder == session.encoder && next.config == session.config
            &&& session.stage == OpenStage::Bitstream ==> next.stage == OpenStage::Ready
                && next.encoder == session.encoder && next.bitstream == handle
            &&& next.width == session.width && next.height == session.height && next.cuctx
                == session.cuctx
        }),
{
}

/// Any call that fails or is absent ends bring-up: nothing is held any more, and
/// an encoder that had been opened is handed back to be destroyed.
pub proof fn failed_bring_up_hands_the_encoder_back(status: i32, handle: u64, r: Option<u64>)
    requires
        status != 0,
    ensures
        forall|m: &mut NvencSession|
            m.wf() && m.stage != OpenStage::Ready && #[trigger] call_ensures(
                NvencSession::advance,
                (m, DriverReply::Returned { status, handle }),
                r,
            ) ==> {
                &&& final(m).stage == OpenStage::Failed
                &&& final(m).encoder == 0 && final(m).bitstream == 0
                &&& m.encoder != 0 ==> r == Some(m.encoder)
                &&& m.encoder == 0 ==> r is None
            },
        forall|m: &mut NvencSession|
            m.wf() && m.stage != OpenStage::Ready && #[trigger] call_ensures(
                NvencSession::advance,
                (m, DriverReply::Missing),
                r,
            ) ==> {
                &&& final(m).stage == OpenStage::Failed
                &&& final(m).encoder == 0 && final(m).bitstream == 0
                &&& m.encoder != 0 ==> r == Some(m.encoder)
                &&& m.encoder == 0 ==> r is None
            },
{
}

/// A session is opened for the CUDA context that it was given, and initialised in
/// the size that it was given, at eight megabits a second, with the encoder's own
/// preset underneath.
pub proof fn sessions_open_as_they_were_asked(
    cuctx: u64,
    width: u32,
    height: u32,
    opened: NvencSession,
    session: NvencSession,
    preset: NV_ENC_CONFIG,
    c: NvencCall,
)
    requires
        call_ensures(NvencSession::open, (cuctx, width, height), opened),
        session.wf(),
        session.cuctx == opened.cuctx,
        session.width == opened.width,
        session.height == opened.height,
        call_ensures(NvencSession::call, (&session,), c),
    ensures
        opened.stage == OpenStage::Library,
        opened.encoder == 0 && opened.bitstream == 0,
        session.stage == OpenStage::Session ==> (c matches NvencCall::OpenSession { params }
            && params.device == cuctx && params.device_type == 1 && params.api_version == 13
            && params.version == 0x7001_000D),
        session.stage == OpenStage::Preset ==> (c matches NvencCall::GetPresetConfig {
            encoder,
            encode_guid,
            preset_guid,
            tuning_info,
            preset_version,
            config_version,
        } && encoder == session.encoder && encode_guid == nv_enc_codec_h264_guid() && preset_guid
            == nv_enc_preset_p5_guid() && tuning_info == 2 && preset_version == 0xF005_000D
            && config_version == 0xF009_000D),
        session.stage == OpenStage::Initialize ==> (c matches NvencCall::Initialize {
            encoder,
            params,
        } && encoder == session.encoder && params.encode_width == width && params.encode_height
            == height && session.config == Some(params.encode_config)),
        session.stage == OpenStage::Bitstream ==> (c matches NvencCall::CreateBitstream {
            encoder,
            version,
        } && encoder == session.encoder && version == 0x7001_000D),
        session.stage == OpenStage::Preset ==> (session.after(
            DriverReply::Preset { status: 0, config: preset },
        ).config matches Some(config) && config.rc_params.average_bit_rate == 8_000_000
            && config.rc_params.max_bit_rate == 8_000_000 && config.version == 0xF009_000D
            && config.encode_codec_config.h264.level == preset.encode_codec_config.h264.level),
{
    assert(13u32 | (0u32 << 24u32) == 13u32) by (bit_vector);
}

/// A bitrate change asks for the new bitrate in the session's own size, and is
/// asked for only where the preset query succeeded.
pub proof fn bitrate_changes_ask_for_the_new_bitrate(
    session: NvencSession,
    status: i32,
    config: NV_ENC_CONFIG,
    bps: u32,
    r: Option<NV_ENC_RECONFIGURE_PARAMS>,
)
    requires
        call_ensures(
            NvencSession::reconfigure_bitrate,
            (&session, DriverReply::Preset { status, config }, bps),
            r,
        ),
    ensures
        r is Some <==> status == 0,
        r matches Some(p) ==> {
            &&& p.version == 0xF002_000D
            &&& p.flags == 2
            &&& p.re_init_encode_params.encode_width == session.width
            &&& p.re_init_encode_params.encode_height == session.height
            &&& p.re_init_encode_params.encode_config.rc_params.average_bit_rate == bps
            &&& p.re_init_encode_params.encode_config.rc_params.max_bit_rate == bps
            &&& p.re_init_encode_params.encode_config.gop_length == 0xFFFF_FFFF
        },
{
}

/// The output is given back before the encoder that it belongs to, and each
/// exactly where the session has it.
pub proof fn outputs_go_before_their_encoder(session: NvencSession, r: Vec<NvencRelease>)
    requires
        session.wf(),
        call_ensures(NvencSession::releases, (&session,), r),
    ensures
        session.bitstream != 0 ==> r@.len() == 2 && r@[0] == (NvencRelease::Bitstream {
            encoder: session.encoder,
            bitstream: session.bitstream,
        }) && r@[1] == (NvencRelease::Encoder { encoder: session.encoder }),
        session.bitstream == 0 && session.encoder != 0 ==> r@.len() == 1 && r@[0] == (
        NvencRelease::Encoder { encoder: session.encoder }),
        session.encoder == 0 ==> r@.len() == 0,
{
}

/// The parameter sets are the first bytes of the buffer, as many as the driver
/// says but no more than there are; a query that failed gives none.
pub proof fn parameter_sets_are_a_prefix(
    status: i32,
    handle: u64,
    buf: Vec<u8>,
    out_size: u32,
    r: Option<Vec<u8>>,
    i: int,
)
    requires
        call_ensures(
            sequence_params,
            (DriverReply::Returned { status, handle }, buf, out_size),
            r,
        ),
    ensures
        r is Some <==> status == 0,
        r matches Some(v) ==> {
            &&& out_size <= buf@.len() ==> v@.len() == out_size
            &&& out_size > buf@.len() ==> v@.len() == buf@.len()
            &&& 0 <= i < v@.len() ==> v@[i] == buf@[i]
        },
{
}

/// A live encoder has moved exactly where both the preset query and the change
/// succeeded; the query before a change is the one of bring-up, for the encoder
/// itself. Parameter sets are asked for with room for 1024 bytes.
pub proof fn changes_need_both_calls(
    session: NvencSession,
    status: i32,
    config: NV_ENC_CONFIG,
    changed: i32,
    handle: u64,
    moved: bool,
    missing: bool,
    query: NvencCall,
    asked: (u32, u32),
)
    requires
        call_ensures(
            NvencSession::reconfigured,
            (
                &session,
                DriverReply::Preset { status, config },
                DriverReply::Returned { status: changed, handle },
            ),
            moved,
        ),
        call_ensures(
            NvencSession::reconfigured,
            (&session, DriverReply::Preset { status, config }, DriverReply::Missing),
            missing,
        ),
        call_ensures(NvencSession::reconfigure_query, (&session,), query),
        call_ensures(sequence_query, (), asked),
    ensures
        moved <==> status == 0 && changed == 0,
        !missing,
        query matches NvencCall::GetPresetConfig { encoder, encode_guid, preset_guid, tuning_info, .. }
            && encoder == session.encoder && encode_guid == nv_enc_codec_h264_guid() && preset_guid
            == nv_enc_preset_p5_guid() && tuning_info == 2,
        asked == (0x7001_000Du32, 1024u32),
{
}

} // verus!
