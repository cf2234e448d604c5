//! NVENC encoder policy: interface versions, identifiers, and the parameter
//! blocks a viewer session hands to the driver.
//!
//! Driver handles and device addresses are plain `u64` values here; zero is the
//! null handle.

use vstd::prelude::*;

verus! {

/// Major version of the NVENC interface.
pub const NVENCAPI_MAJOR: u32 = 13;

/// Minor version of the NVENC interface.
pub const NVENCAPI_MINOR: u32 = 0;

/// `major | (minor << 24)`.
pub const NVENCAPI_VERSION: u32 = NVENCAPI_MAJOR | (NVENCAPI_MINOR << 24);

/// Version word of a parameter block with revision `v`: the interface version,
/// the revision in the third byte, and the block marker 7 in bits 28 to 30.
pub fn struct_ver(v: u32) -> (r: u32)
    ensures
        r == (NVENCAPI_VERSION | (v << 16u32) | 0x7000_0000),
        v < 0x1000 ==> r == 0x7000_000d + v * 0x1_0000,
{
    assert(v < 0x1000 ==> ((13u32 | (0u32 << 24u32)) | (v << 16u32) | 0x7000_0000u32)
        == 0x7000_000d + v * 0x1_0000) by (bit_vector);
    NVENCAPI_VERSION | (v << 16) | 0x7000_0000
}

/// As [`struct_ver`], with the capability bit 31 set.
pub fn struct_ver_cap(v: u32) -> (r: u32)
    ensures
        r == (NVENCAPI_VERSION | (v << 16u32) | 0x7000_0000 | 0x8000_0000),
        v < 0x1000 ==> r == 0xf000_000d + v * 0x1_0000,
{
    assert(v < 0x1000 ==> ((13u32 | (0u32 << 24u32)) | (v << 16u32) | 0x7000_0000u32
        | 0x8000_0000u32) == 0xf000_000d + v * 0x1_0000) by (bit_vector);
    struct_ver(v) | 0x8000_0000
}

pub fn nv_enc_initialize_params_ver() -> (r: u32)
    ensures
        r == 0xf007_000d,
{
    struct_ver_cap(7)
}

pub fn nv_enc_config_ver() -> (r: u32)
    ensures
        r == 0xf009_000d,
{
    struct_ver_cap(9)
}

pub fn nv_enc_preset_config_ver() -> (r: u32)
    ensures
        r == 0xf005_000d,
{
    struct_ver_cap(5)
}

pub fn nv_enc_rc_params_ver() -> (r: u32)
    ensures
        r == 0x7001_000d,
{
    struct_ver(1)
}

pub fn nv_enc_open_encode_session_ex_params_ver() -> (r: u32)
    ensures
        r == 0x7001_000d,
{
    struct_ver(1)
}

pub fn nv_enc_register_resource_ver() -> (r: u32)
    ensures
        r == 0x7005_000d,
{
    struct_ver(5)
}

pub fn nv_enc_map_input_resource_ver() -> (r: u32)
    ensures
        r == 0x7004_000d,
{
    struct_ver(4)
}

pub fn nv_enc_create_bitstream_buffer_ver() -> (r: u32)
    ensures
        r == 0x7001_000d,
{
    struct_ver(1)
}

pub fn nv_enc_reconfigure_params_ver() -> (r: u32)
    ensures
        r == 0xf002_000d,
{
    struct_ver_cap(2)
}

pub fn nv_enc_pic_params_ver() -> (r: u32)
    ensures
        r == 0xf007_000d,
{
    struct_ver_cap(7)
}

pub fn nv_enc_lock_bitstream_ver() -> (r: u32)
    ensures
        r == 0xf002_000d,
{
    struct_ver_cap(2)
}

pub fn nv_enc_sequence_param_payload_ver() -> (r: u32)
    ensures
        r == 0x7001_000d,
{
    struct_ver(1)
}

pub fn nv_encode_api_function_list_ver() -> (r: u32)
    ensures
        r == 0x7002_000d,
{
    struct_ver(2)
}

/// NVENC identifier of a codec, preset or profile.
#[derive(Clone, Copy, Debug, PartialEq, Eq)]
pub struct GUID {
    pub data1: u32,
    pub data2: u16,
    pub data3: u16,
    pub data4: [u8; 8],
}

impl GUID {
    /// The all-zero identifier.
    pub fn zero() -> (r: GUID)
        ensures
            r.data1 == 0,
            r.data2 == 0,
            r.data3 == 0,
            r.data4@ == Seq::new(8, |i: int| 0u8),
    {
        let data4: [u8; 8] = [0, 0, 0, 0, 0, 0, 0, 0];
        assert(data4@ =~= Seq::new(8, |i: int| 0u8));
        GUID { data1: 0, data2: 0, data3: 0, data4 }
    }
}

/// The H.264 codec.
#[verifier::allow_in_spec]
pub fn nv_enc_codec_h264_guid() -> GUID
    returns
        (GUID { data1: 0x6BC8_2762, data2: 0x4E63, data3: 0x4ca4, data4: [0xaa, 0x85, 0x1e, 0x50, 0xf3, 0x21, 0xf6, 0xbf] }),
{
    GUID { data1: 0x6BC8_2762, data2: 0x4E63, data3: 0x4ca4, data4: [0xaa, 0x85, 0x1e, 0x50, 0xf3, 0x21, 0xf6, 0xbf] }
}

/// Preset P3.
#[verifier::allow_in_spec]
pub fn nv_enc_preset_p3_guid() -> GUID
    returns
        (GUID { data1: 0x3685_0110, data2: 0x3a07, data3: 0x441f, data4: [0x94, 0xd5, 0x36, 0x70, 0x63, 0x1f, 0x91, 0xf6] }),
{
    GUID { data1: 0x3685_0110, data2: 0x3a07, data3: 0x441f, data4: [0x94, 0xd5, 0x36, 0x70, 0x63, 0x1f, 0x91, 0xf6] }
}

/// Preset P5.
#[verifier::allow_in_spec]
pub fn nv_enc_preset_p5_guid() -> GUID
    returns
        (GUID { data1: 0x21c6_e6b4, data2: 0x297a, data3: 0x4cba, data4: [0x99, 0x8f, 0xb6, 0xcb, 0xde, 0x72, 0xad, 0xe3] }),
{
    GUID { data1: 0x21c6_e6b4, data2: 0x297a, data3: 0x4cba, data4: [0x99, 0x8f, 0xb6, 0xcb, 0xde, 0x72, 0xad, 0xe3] }
}

/// The H.264 High profile.
#[verifier::allow_in_spec]
pub fn nv_enc_h264_profile_high_guid() -> GUID
    returns
        (GUID { data1: 0xe7cb_c309, data2: 0x4f7a, data3: 0x4b89, data4: [0xaf, 0x2a, 0xd5, 0x37, 0xc9, 0x2b, 0xe3, 0x10] }),
{
    GUID { data1: 0xe7cb_c309, data2: 0x4f7a, data3: 0x4b89, data4: [0xaf, 0x2a, 0xd5, 0x37, 0xc9, 0x2b, 0xe3, 0x10] }
}

pub const NV_ENC_DEVICE_TYPE_CUDA: u32 = 1;

pub const NV_ENC_TUNING_INFO_LOW_LATENCY: u32 = 2;

pub const NV_ENC_INPUT_RESOURCE_TYPE_CUDADEVICEPTR: u32 = 1;

pub const NV_ENC_BUFFER_FORMAT_NV12: u32 = 1;

pub const NV_ENC_INPUT_IMAGE: u32 = 0;

pub const NV_ENC_PIC_STRUCT_FRAME: u32 = 1;

/// Encode the picture as an IDR frame.
pub const NV_ENC_PIC_FLAG_FORCEIDR: u32 = 0x2;

/// Attach the sequence and picture parameter sets.
pub const NV_ENC_PIC_FLAG_OUTPUT_SPSPPS: u32 = 0x4;

/// Constant-bitrate rate control.
pub const NV_ENC_PARAMS_RC_CBR: u32 = 0x2;

pub const NV_ENC_MULTI_PASS_DISABLED: u32 = 0;

/// Spatial adaptive quantisation.
pub const NV_ENC_RC_FLAG_ENABLE_AQ: u32 = 0x8;

/// Temporal adaptive quantisation.
pub const NV_ENC_RC_FLAG_ENABLE_TEMPORAL_AQ: u32 = 0x100;

/// Repeat the parameter sets with every IDR frame.
pub const NV_ENC_H264_FLAG_REPEAT_SPSPPS: u32 = 0x1000;

/// Bitrate a viewer session opens with, in bits per second.
pub const VIEWER_BITRATE_BPS: u32 = 8_000_000;

pub const VIEWER_FPS: u32 = 60;

/// Infinite group of pictures: IDR frames come on demand only.
pub const VIEWER_GOP_LENGTH: u32 = 0xFFFF_FFFF;

/// Rate-control flags of a viewer session with the given adaptive-quantisation
/// strength, of which the low four bits count.
pub open spec fn viewer_rc_mask(aq_strength: u32) -> int {
    0x108 + (aq_strength % 16) * 0x1000
}

/// Spatial and temporal adaptive quantisation at `aq_strength` (0 to 15, masked
/// to four bits; 0 leaves the strength to the driver).
pub fn viewer_rc_flags(aq_strength: u32) -> (r: u32)
    ensures
        r == viewer_rc_mask(aq_strength),
{
    assert((0x8u32 | 0x100u32 | ((aq_strength & 0xFu32) << 12u32)) == 0x108 + (aq_strength % 16)
        * 0x1000) by (bit_vector);
    NV_ENC_RC_FLAG_ENABLE_AQ | NV_ENC_RC_FLAG_ENABLE_TEMPORAL_AQ | ((aq_strength & 0xF) << 12)
}


/// H.264 video usability information.
#[allow(non_camel_case_types)]
#[derive(Clone, Copy, Debug)]
pub struct NV_ENC_CONFIG_H264_VUI_PARAMETERS {
    pub overscan_info_present_flag: u32,
    pub overscan_info: u32,
    pub video_signal_type_present_flag: u32,
    pub video_format: u32,
    pub video_full_range_flag: u32,
    pub colour_description_present_flag: u32,
    pub colour_primaries: u32,
    pub transfer_characteristics: u32,
    pub colour_matrix: u32,
    pub chroma_sample_location_flag: u32,
    pub chroma_sample_location_top: u32,
    pub chroma_sample_location_bot: u32,
    pub bitstream_restriction_flag: u32,
    pub timing_info_present_flag: u32,
    pub num_unit_in_ticks: u32,
    pub time_scale: u32,
}

/// H.264 part of an encoder configuration.
#[allow(non_camel_case_types)]
#[derive(Clone, Copy, Debug)]
pub struct NV_ENC_CONFIG_H264 {
    pub flags: u32,
    pub level: u32,
    pub idr_period: u32,
    pub separate_colour_plane_flag: u32,
    pub disable_deblocking_filter_idc: u32,
    pub num_temporal_layers: u32,
    pub sps_id: u32,
    pub pps_id: u32,
    pub adaptive_transform_mode: u32,
    pub fmo_mode: u32,
    pub bdirect_mode: u32,
    pub entropy_coding_mode: u32,
    pub stereo_mode: u32,
    pub intra_refresh_period: u32,
    pub intra_refresh_cnt: u32,
    pub max_num_ref_frames: u32,
    pub slice_mode: u32,
    pub slice_mode_data: u32,
    pub vui_parameters: NV_ENC_CONFIG_H264_VUI_PARAMETERS,
    pub ltr_num_frames: u32,
    pub ltr_trust_mode: u32,
    pub chroma_format_idc: u32,
    pub max_temporal_layers: u32,
    pub use_bframes_as_ref: u32,
    pub num_ref_l0: u32,
    pub num_ref_l1: u32,
    pub output_bit_depth: u32,
    pub input_bit_depth: u32,
    pub tf_level: u32,
}

/// Codec part of an encoder configuration; only H.264 is used.
#[allow(non_camel_case_types)]
#[derive(Clone, Copy, Debug)]
pub struct NV_ENC_CODEC_CONFIG {
    pub h264: NV_ENC_CONFIG_H264,
}

/// Rate control.
#[allow(non_camel_case_types)]
#[derive(Clone, Copy, Debug)]
pub struct NV_ENC_RC_PARAMS {
    pub version: u32,
    pub rate_control_mode: u32,
    pub const_qp: [i32; 3],
    pub average_bit_rate: u32,
    pub max_bit_rate: u32,
    pub vbv_buffer_size: u32,
    pub vbv_initial_delay: u32,
    pub flags: u32,
    pub min_qp: [i32; 3],
    pub max_qp: [i32; 3],
    pub initial_rc_qp: [i32; 3],
    pub temporallayer_idx_mask: u32,
    pub temporal_layer_qp: [u8; 8],
    pub target_quality: u8,
    pub target_quality_lsb: u8,
    pub lookahead_depth: u16,
    pub low_delay_key_frame_scale: u8,
    pub y_dc_qp_index_offset: i8,
    pub u_dc_qp_index_offset: i8,
    pub v_dc_qp_index_offset: i8,
    pub qp_map_mode: u32,
    pub multi_pass: u32,
    pub alpha_layer_bitrate_ratio: u32,
    pub cb_qp_index_offset: i8,
    pub cr_qp_index_offset: i8,
    pub lookahead_level: u32,
    pub view_bitrate_ratios: [u8; 7],
}

/// Encoder configuration.
#[allow(non_camel_case_types)]
#[derive(Clone, Copy, Debug)]
pub struct NV_ENC_CONFIG {
    pub version: u32,
    pub profile_guid: GUID,
    pub gop_length: u32,
    pub frame_interval_p: i32,
    pub mono_chrome_encoding: u32,
    pub frame_field_mode: u32,
    pub mv_precision: u32,
    pub rc_params: NV_ENC_RC_PARAMS,
    pub encode_codec_config: NV_ENC_CODEC_CONFIG,
}

/// Parameters of opening an encode session.
#[allow(non_camel_case_types)]
#[derive(Clone, Copy, Debug)]
pub struct NV_ENC_OPEN_ENCODE_SESSION_EX_PARAMS {
    pub version: u32,
    pub device_type: u32,
    pub device: u64,
    pub api_version: u32,
}

/// Parameters of initialising an encoder.
#[allow(non_camel_case_types)]
#[derive(Clone, Copy, Debug)]
pub struct NV_ENC_INITIALIZE_PARAMS {
    pub version: u32,
    pub encode_guid: GUID,
    pub preset_guid: GUID,
    pub encode_width: u32,
    pub encode_height: u32,
    pub dar_width: u32,
    pub dar_height: u32,
    pub frame_rate_num: u32,
    pub frame_rate_den: u32,
    pub enable_encode_async: u32,
    pub enable_ptd: u32,
    pub flags: u32,
    pub max_encode_width: u32,
    pub max_encode_height: u32,
    pub tuning_info: u32,
    pub buffer_format: u32,
    pub encode_config: NV_ENC_CONFIG,
}

/// Flag of a change to a live encoder: start over, rate control included.
pub const NV_ENC_RECONFIGURE_RESET_ENCODER: u32 = 0x1;

/// Flag of a change to a live encoder: the next frame is an IDR frame.
pub const NV_ENC_RECONFIGURE_FORCE_IDR: u32 = 0x2;

/// Parameters of changing a live encoder.
#[allow(non_camel_case_types)]
#[derive(Clone, Copy, Debug)]
pub struct NV_ENC_RECONFIGURE_PARAMS {
    pub version: u32,
    pub re_init_encode_params: NV_ENC_INITIALIZE_PARAMS,
    pub flags: u32,
}

/// Rate control of a viewer session at `bps`: constant bitrate with a buffer of
/// one frame, single pass, spatial and temporal adaptive quantisation. All
/// other settings stay as the driver's preset had them.
pub open spec fn viewer_rc(rc: NV_ENC_RC_PARAMS, bps: u32) -> NV_ENC_RC_PARAMS {
    NV_ENC_RC_PARAMS {
        rate_control_mode: NV_ENC_PARAMS_RC_CBR,
        average_bit_rate: bps,
        max_bit_rate: bps,
        vbv_buffer_size: bps / VIEWER_FPS,
        vbv_initial_delay: bps / VIEWER_FPS,
        multi_pass: NV_ENC_MULTI_PASS_DISABLED,
        low_delay_key_frame_scale: 1,
        flags: rc.flags | (viewer_rc_mask(8) as u32),
        ..rc
    }
}

/// H.264 settings of a viewer session: IDR frames on demand that carry their
/// parameter sets, and limited-range BT.709 signalling.
pub open spec fn viewer_h264(h264: NV_ENC_CONFIG_H264) -> NV_ENC_CONFIG_H264 {
    NV_ENC_CONFIG_H264 {
        idr_period: VIEWER_GOP_LENGTH,
        flags: h264.flags | NV_ENC_H264_FLAG_REPEAT_SPSPPS,
        vui_parameters: NV_ENC_CONFIG_H264_VUI_PARAMETERS {
            video_signal_type_present_flag: 1,
            video_format: 5,
            video_full_range_flag: 0,
            colour_description_present_flag: 1,
            colour_primaries: 1,
            transfer_characteristics: 1,
            colour_matrix: 1,
            ..h264.vui_parameters
        },
        ..h264
    }
}

/// The viewer's encode policy applied to a preset's configuration.
pub open spec fn viewer_config(config: NV_ENC_CONFIG, bps: u32) -> NV_ENC_CONFIG {
    NV_ENC_CONFIG {
        profile_guid: nv_enc_h264_profile_high_guid(),
        gop_length: VIEWER_GOP_LENGTH,
        frame_interval_p: 1,
        rc_params: viewer_rc(config.rc_params, bps),
        encode_codec_config: NV_ENC_CODEC_CONFIG {
            h264: viewer_h264(config.encode_codec_config.h264),
        },
        ..config
    }
}

/// Applies the viewer's encode policy to a driver-filled configuration: High
/// profile, no B-frames, IDR frames on demand, constant bitrate `bps`.
pub fn apply_viewer_encode_config(config: &mut NV_ENC_CONFIG, bps: u32)
    ensures
        *final(config) == viewer_config(*old(config), bps),
{
    config.profile_guid = nv_enc_h264_profile_high_guid();
    config.gop_length = VIEWER_GOP_LENGTH;
    config.frame_interval_p = 1;

    config.rc_params.rate_control_mode = NV_ENC_PARAMS_RC_CBR;
    config.rc_params.average_bit_rate = bps;
    config.rc_params.max_bit_rate = bps;
    config.rc_params.vbv_buffer_size = bps / VIEWER_FPS;
    config.rc_params.vbv_initial_delay = bps / VIEWER_FPS;
    config.rc_params.multi_pass = NV_ENC_MULTI_PASS_DISABLED;
    config.rc_params.low_delay_key_frame_scale = 1;
    config.rc_params.flags = config.rc_params.flags | viewer_rc_flags(8);

    config.encode_codec_config.h264.idr_period = VIEWER_GOP_LENGTH;
    config.encode_codec_config.h264.flags = config.encode_codec_config.h264.flags
        | NV_ENC_H264_FLAG_REPEAT_SPSPPS;
    config.encode_codec_config.h264.vui_parameters.video_signal_type_present_flag = 1;
    config.encode_codec_config.h264.vui_parameters.video_format = 5;
    config.encode_codec_config.h264.vui_parameters.video_full_range_flag = 0;
    config.encode_codec_config.h264.vui_parameters.colour_description_present_flag = 1;
    config.encode_codec_config.h264.vui_parameters.colour_primaries = 1;
    config.encode_codec_config.h264.vui_parameters.transfer_characteristics = 1;
    config.encode_codec_config.h264.vui_parameters.colour_matrix = 1;
}

/// Initialisation parameters of a viewer session of the given size.
pub open spec fn viewer_init(width: u32, height: u32, config: NV_ENC_CONFIG) -> NV_ENC_INITIALIZE_PARAMS {
    NV_ENC_INITIALIZE_PARAMS {
        version: 0xf007_000d,
        encode_guid: nv_enc_codec_h264_guid(),
        preset_guid: nv_enc_preset_p5_guid(),
        encode_width: width,
        encode_height: height,
        dar_width: width,
        dar_height: height,
        frame_rate_num: VIEWER_FPS,
        frame_rate_den: 1,
        enable_encode_async: 0,
        enable_ptd: 1,
        flags: 0,
        max_encode_width: width,
        max_encode_height: height,
        tuning_info: NV_ENC_TUNING_INFO_LOW_LATENCY,
        buffer_format: 0,
        encode_config: config,
    }
}

pub(crate) fn init_params(width: u32, height: u32, config: NV_ENC_CONFIG) -> (r: NV_ENC_INITIALIZE_PARAMS)
    ensures
        r == viewer_init(width, height, config),
{
    NV_ENC_INITIALIZE_PARAMS {
        version: nv_enc_initialize_params_ver(),
        encode_guid: nv_enc_codec_h264_guid(),
        preset_guid: nv_enc_preset_p5_guid(),
        encode_width: width,
        encode_height: height,
        dar_width: width,
        dar_height: height,
        frame_rate_num: VIEWER_FPS,
        frame_rate_den: 1,
        enable_encode_async: 0,
        enable_ptd: 1,
        flags: 0,
        max_encode_width: width,
        max_encode_height: height,
        tuning_info: NV_ENC_TUNING_INFO_LOW_LATENCY,
        buffer_format: 0,
        encode_config: config,
    }
}

/// Changing the bitrate of a viewer session changes nothing but its four rate
/// fields: whatever preset the driver filled in, the configurations for two
/// bitrates agree on everything else.
pub proof fn bitrate_is_the_only_difference(preset: NV_ENC_CONFIG, a: u32, b: u32)
    ensures
        viewer_config(preset, b) == (NV_ENC_CONFIG {
            rc_params: NV_ENC_RC_PARAMS {
                average_bit_rate: b,
                max_bit_rate: b,
                vbv_buffer_size: b / VIEWER_FPS,
                vbv_initial_delay: b / VIEWER_FPS,
                ..viewer_config(preset, a).rc_params
            },
            ..viewer_config(preset, a)
        }),
{
}

/// Applying the viewer's policy to its own result changes nothing.
pub proof fn viewer_policy_is_idempotent(preset: NV_ENC_CONFIG, bps: u32)
    ensures
        viewer_config(viewer_config(preset, bps), bps) == viewer_config(preset, bps),
{
    let f = preset.rc_params.flags;
    let m = viewer_rc_mask(8) as u32;
    let g = preset.encode_codec_config.h264.flags;
    assert((f | m) | m == f | m) by (bit_vector);
    assert((g | 0x1000u32) | 0x1000u32 == g | 0x1000u32) by (bit_vector);
}

/// A version word holds the interface's version in its low bytes, the block's
/// revision in the third byte and the marker seven above it; the capability bit is
/// the highest and the only difference between the two kinds.
pub proof fn version_words_hold_the_revision(v: u32, plain: u32, capable: u32)
    requires
        v < 0x100,
        call_ensures(struct_ver, (v,), plain),
        call_ensures(struct_ver_cap, (v,), capable),
    ensures
        plain as int % 0x1_0000 == 13,
        plain as int / 0x1_0000 % 0x100 == v,
        plain as int / 0x1000_0000 == 7,
        capable == plain + 0x8000_0000,
{
}

/// The identifiers are those of the H.264 codec, of its High profile and of the
/// presets P3 and P5.
pub proof fn identifiers_are_the_published_ones()
    ensures
        nv_enc_codec_h264_guid().data1 == 0x6BC8_2762,
        nv_enc_codec_h264_guid().data2 == 0x4E63,
        nv_enc_codec_h264_guid().data3 == 0x4CA4,
        nv_enc_codec_h264_guid().data4@ == seq![
            0xAAu8,
            0x85,
            0x1E,
            0x50,
            0xF3,
            0x21,
            0xF6,
            0xBF,
        ],
        nv_enc_h264_profile_high_guid().data1 == 0xE7CB_C309,
        nv_enc_h264_profile_high_guid().data2 == 0x4F7A,
        nv_enc_h264_profile_high_guid().data3 == 0x4B89,
        nv_enc_h264_profile_high_guid().data4@ == seq![
            0xAFu8,
            0x2A,
            0xD5,
            0x37,
            0xC9,
            0x2B,
            0xE3,
            0x10,
        ],
        nv_enc_preset_p3_guid().data1 == 0x3685_0110,
        nv_enc_preset_p3_guid().data2 == 0x3A07,
        nv_enc_preset_p3_guid().data3 == 0x441F,
        nv_enc_preset_p3_guid().data4@ == seq![
            0x94u8,
            0xD5,
            0x36,
            0x70,
            0x63,
            0x1F,
            0x91,
            0xF6,
        ],
        nv_enc_preset_p5_guid().data1 == 0x21C6_E6B4,
        nv_enc_preset_p5_guid().data2 == 0x297A,
        nv_enc_preset_p5_guid().data3 == 0x4CBA,
        nv_enc_preset_p5_guid().data4@ == seq![
            0x99u8,
            0x8F,
            0xB6,
            0xCB,
            0xDE,
            0x72,
            0xAD,
            0xE3,
        ],
{
}

/// A viewer session holds its bitrate: average and maximum are the bitrate that
/// was asked for, under constant-bitrate control in a single pass, and the buffer
/// takes what sixty frames a second leave to one frame.
pub proof fn viewer_sessions_hold_their_bitrate(bps: u32)
    ensures
        forall|m: &mut NV_ENC_CONFIG|
            #[trigger] call_ensures(apply_viewer_encode_config, (m, bps), ()) ==> {
                let rc = final(m).rc_params;
                &&& rc.rate_control_mode == 2
                &&& rc.average_bit_rate == bps
                &&& rc.max_bit_rate == bps
                &&& rc.vbv_buffer_size * 60 <= bps < (rc.vbv_buffer_size + 1) * 60
                &&& rc.vbv_initial_delay == rc.vbv_buffer_size
                &&& rc.multi_pass == 0
                &&& rc.low_delay_key_frame_scale == 1
            },
{
}

/// A viewer session has IDR frames on demand alone, which carry their parameter
/// sets, no frames that wait for later ones, and the High profile.
pub proof fn viewer_sessions_have_idr_frames_on_demand(bps: u32)
    ensures
        forall|m: &mut NV_ENC_CONFIG|
            #[trigger] call_ensures(apply_viewer_encode_config, (m, bps), ()) ==> {
                let h264 = final(m).encode_codec_config.h264;
                &&& final(m).gop_length == 0xFFFF_FFFF
                &&& h264.idr_period == 0xFFFF_FFFF
                &&& final(m).frame_interval_p == 1
                &&& h264.flags & 0x1000 != 0
                &&& final(m).profile_guid == nv_enc_h264_profile_high_guid()
            },
{
    assert forall|m: &mut NV_ENC_CONFIG| #[trigger]
        call_ensures(apply_viewer_encode_config, (m, bps), ()) implies
        final(m).encode_codec_config.h264.flags & 0x1000 != 0 by {
        let g = m.encode_codec_config.h264.flags;
        assert((g | 0x1000u32) & 0x1000u32 != 0) by (bit_vector);
    }
}

/// A viewer session's stream says that it is limited-range BT.709.
pub proof fn viewer_streams_are_limited_range_bt709(bps: u32)
    ensures
        forall|m: &mut NV_ENC_CONFIG|
            #[trigger] call_ensures(apply_viewer_encode_config, (m, bps), ()) ==> {
                let vui = final(m).encode_codec_config.h264.vui_parameters;
                &&& vui.video_signal_type_present_flag == 1
                &&& vui.video_format == 5
                &&& vui.video_full_range_flag == 0
                &&& vui.colour_description_present_flag == 1
                &&& vui.colour_primaries == 1
                &&& vui.transfer_characteristics == 1
                &&& vui.colour_matrix == 1
            },
{
}

/// Adaptive quantisation is on in space and in time, at half strength; flags that
/// the preset had set stay set, and no other flag is added.
pub proof fn viewer_sessions_quantise_adaptively(bps: u32)
    ensures
        forall|m: &mut NV_ENC_CONFIG|
            #[trigger] call_ensures(apply_viewer_encode_config, (m, bps), ()) ==> {
                let (before, after) = (m.rc_params.flags, final(m).rc_params.flags);
                &&& after & 0x8 != 0
                &&& after & 0x100 != 0
                &&& after & 0x8000 != 0
                &&& after & before == before
                &&& after & !0x8108u32 == before & !0x8108u32
            },
{
    assert forall|m: &mut NV_ENC_CONFIG| #[trigger]
        call_ensures(apply_viewer_encode_config, (m, bps), ()) implies {
        let (before, after) = (m.rc_params.flags, final(m).rc_params.flags);
        &&& after & 0x8 != 0
        &&& after & 0x100 != 0
        &&& after & 0x8000 != 0
        &&& after & before == before
        &&& after & !0x8108u32 == before & !0x8108u32
    } by {
        let f = m.rc_params.flags;
        assert((f | 0x8108u32) & 0x8u32 != 0 && (f | 0x8108u32) & 0x100u32 != 0 && (f | 0x8108u32)
            & 0x8000u32 != 0 && (f | 0x8108u32) & f == f && (f | 0x8108u32) & !0x8108u32 == f
            & !0x8108u32) by (bit_vector);
    }
}

/// The viewer's policy leaves everything else to the preset.
pub proof fn viewer_policy_keeps_the_rest_of_the_preset(bps: u32)
    ensures
        forall|m: &mut NV_ENC_CONFIG|
            #[trigger] call_ensures(apply_viewer_encode_config, (m, bps), ()) ==> {
                &&& final(m).version == m.version
                &&& final(m).mono_chrome_encoding == m.mono_chrome_encoding
                &&& final(m).frame_field_mode == m.frame_field_mode
                &&& final(m).mv_precision == m.mv_precision
                &&& final(m).rc_params.version == m.rc_params.version
                &&& final(m).rc_params.const_qp == m.rc_params.const_qp
                &&& final(m).rc_params.lookahead_depth == m.rc_params.lookahead_depth
                &&& final(m).rc_params.qp_map_mode == m.rc_params.qp_map_mode
                &&& final(m).encode_codec_config.h264.level == m.encode_codec_config.h264.level
                &&& final(m).encode_codec_config.h264.entropy_coding_mode
                    == m.encode_codec_config.h264.entropy_coding_mode
                &&& final(m).encode_codec_config.h264.max_num_ref_frames
                    == m.encode_codec_config.h264.max_num_ref_frames
                &&& final(m).encode_codec_config.h264.slice_mode
                    == m.encode_codec_config.h264.slice_mode
                &&& final(m).encode_codec_config.h264.chroma_format_idc
                    == m.encode_codec_config.h264.chroma_format_idc
            },
{
}

/// A viewer session encodes H.264 in its own size at sixty frames a second, under
/// preset P5 tuned for low latency, one frame in and one out, with exactly the
/// configuration that was worked out for it.
pub proof fn viewer_sessions_encode_in_their_own_size(
    width: u32,
    height: u32,
    config: NV_ENC_CONFIG,
)
    ensures
        ({
            let p = viewer_init(width, height, config);
            &&& p.version == 0xF007_000D
            &&& p.encode_guid == nv_enc_codec_h264_guid()
            &&& p.preset_guid == nv_enc_preset_p5_guid()
            &&& p.encode_width == width && p.dar_width == width && p.max_encode_width == width
            &&& p.encode_height == height && p.dar_height == height && p.max_encode_height == height
            &&& p.frame_rate_num == 60 && p.frame_rate_den == 1
            &&& p.enable_encode_async == 0 && p.enable_ptd == 1
            &&& p.tuning_info == 2
            &&& p.encode_config == config
        }),
{
}

/// The strength of adaptive quantisation goes into the four bits above the flags,
/// by what remains of it by sixteen.
pub proof fn quantisation_strength_is_four_bits(aq_strength: u32, r: u32)
    requires
        call_ensures(viewer_rc_flags, (aq_strength,), r),
    ensures
        r as int % 0x1000 == 0x108,
        r as int / 0x1000 == aq_strength as int % 16,
{
}

/// The version words of the parameter blocks: each block's revision, with the
/// capability bit where the block has it.
pub proof fn blocks_have_their_revisions(
    initialize: u32,
    config: u32,
    preset: u32,
    rc: u32,
    open: u32,
    register: u32,
    map: u32,
    bitstream: u32,
    reconfigure: u32,
    pic: u32,
    lock: u32,
    sequence: u32,
    functions: u32,
)
    requires
        call_ensures(nv_enc_initialize_params_ver, (), initialize),
        call_ensures(nv_enc_config_ver, (), config),
        call_ensures(nv_enc_preset_config_ver, (), preset),
        call_ensures(nv_enc_rc_params_ver, (), rc),
        call_ensures(nv_enc_open_encode_session_ex_params_ver, (), open),
        call_ensures(nv_enc_register_resource_ver, (), register),
        call_ensures(nv_enc_map_input_resource_ver, (), map),
        call_ensures(nv_enc_create_bitstream_buffer_ver, (), bitstream),
        call_ensures(nv_enc_reconfigure_params_ver, (), reconfigure),
        call_ensures(nv_enc_pic_params_ver, (), pic),
        call_ensures(nv_enc_lock_bitstream_ver, (), lock),
        call_ensures(nv_enc_sequence_param_payload_ver, (), sequence),
        call_ensures(nv_encode_api_function_list_ver, (), functions),
    ensures
        initialize == 0xF000_000D + 7 * 0x1_0000,
        config == 0xF000_000D + 9 * 0x1_0000,
        preset == 0xF000_000D + 5 * 0x1_0000,
        rc == 0x7000_000D + 0x1_0000,
        open == 0x7000_000D + 0x1_0000,
        register == 0x7000_000D + 5 * 0x1_0000,
        map == 0x7000_000D + 4 * 0x1_0000,
        bitstream == 0x7000_000D + 0x1_0000,
        reconfigure == 0xF000_000D + 2 * 0x1_0000,
        pic == 0xF000_000D + 7 * 0x1_0000,
        lock == 0xF000_000D + 2 * 0x1_0000,
        sequence == 0x7000_000D + 0x1_0000,
        functions == 0x7000_000D + 2 * 0x1_0000,
{
}

} // verus!
