use waymux::cuda::{CuModule, CudaCtx, CudaLib, CudaReply, CSC_KERNEL, CUDA_SYMBOLS};
use waymux::frame_encode::{
    CudaNvencRecorder, FrameCall, FrameJob, FrameReply, FrameStage, FrameStart, GpuResource,
};
use waymux::nv12::{nv12_layout, nv12_pitch, nv12_to_rgb, safe_encode_dims};
use waymux::nv12_dump::{dump_nv12_png, dump_path, interval, DumpCounter};
use waymux::nvenc::{
    apply_viewer_encode_config, nv_enc_codec_h264_guid, nv_enc_config_ver,
    nv_enc_create_bitstream_buffer_ver, nv_enc_h264_profile_high_guid,
    nv_enc_initialize_params_ver, nv_enc_lock_bitstream_ver, nv_enc_map_input_resource_ver,
    nv_enc_open_encode_session_ex_params_ver, nv_enc_pic_params_ver, nv_enc_preset_config_ver,
    nv_enc_preset_p3_guid, nv_enc_preset_p5_guid, nv_enc_rc_params_ver,
    nv_enc_reconfigure_params_ver, nv_enc_register_resource_ver, nv_enc_sequence_param_payload_ver,
    nv_encode_api_function_list_ver, struct_ver, struct_ver_cap, viewer_rc_flags, GUID,
    NVENCAPI_VERSION, NV_ENC_CODEC_CONFIG, NV_ENC_CONFIG, NV_ENC_CONFIG_H264,
    NV_ENC_CONFIG_H264_VUI_PARAMETERS, NV_ENC_MULTI_PASS_DISABLED, NV_ENC_RC_FLAG_ENABLE_AQ,
    NV_ENC_RC_FLAG_ENABLE_TEMPORAL_AQ, NV_ENC_RC_PARAMS, VIEWER_BITRATE_BPS, VIEWER_GOP_LENGTH,
};
use waymux::nvenc_session::{
    sequence_params, sequence_query, DriverReply, NvencCall, NvencRelease, NvencSession, OpenStage,
};

#[test]
fn nv12_to_rgb_range_anchors() {
    // 2x2 image, luma pitch 4 (rows padded past width=2). Limited-range
    // BT.709 anchors: black = Y16/neutral-chroma, white = Y235/neutral.
    let (w, h, pitch) = (2usize, 2usize, 4usize);
    let mut buf = vec![0u8; pitch * h + pitch * h.div_ceil(2)];
    let luma = [16u8, 235, 235, 235]; // (0,0) black, rest white
    for row in 0..h {
        for col in 0..w {
            buf[row * pitch + col] = luma[row * w + col];
        }
    }
    // Neutral chroma (128,128) for the single shared 2x2 block.
    let uv = pitch * h;
    buf[uv] = 128;
    buf[uv + 1] = 128;
    let rgb = nv12_to_rgb(&buf, w, h, pitch);
    assert_eq!(rgb.len(), w * h * 3);
    // (0,0) is exactly black.
    assert_eq!(&rgb[0..3], &[0, 0, 0]);
    // (1,0) is white (allow 1 LSB of float rounding on the 255/219 scale).
    for (i, &c) in rgb[3..6].iter().enumerate() {
        assert!(c >= 254, "white byte {i} = {c}, expected ~255");
    }
    // (0,1) on the second row is white too (row-pitch indexing correct).
    let p01 = w * 3;
    assert!(rgb[p01] >= 254, "row-1 luma indexing wrong: {}", rgb[p01]);
}

#[test]
fn nv12_to_rgb_follows_the_bt709_matrix() {
    // One pixel of every luma with a few chroma pairs, against the formula in
    // double precision; the fraction is cut off.
    for y in 0..=255u8 {
        for (u, v) in [(128u8, 128u8), (90, 240), (240, 110), (16, 16), (255, 0)] {
            let rgb = nv12_to_rgb(&[y, 0, u, v], 1, 1, 2);
            let yp = (y as f64 - 16.0) * (255.0 / 219.0);
            let cbp = (u as f64 - 128.0) * (255.0 / 224.0);
            let crp = (v as f64 - 128.0) * (255.0 / 224.0);
            let r = yp + 2.0 * (1.0 - 0.2126) * crp;
            let b = yp + 2.0 * (1.0 - 0.0722) * cbp;
            let g = (yp - 0.2126 * r - 0.0722 * b) / 0.7152;
            for (got, want) in rgb.iter().zip([r, g, b]) {
                let cut = want.clamp(0.0, 255.0) - *got as f64;
                assert!(
                    cut > -1e-9 && cut < 1.0 + 1e-9,
                    "y {y} u {u} v {v}: {got} for {want}"
                );
            }
        }
    }
}

#[test]
fn neutral_chroma_gives_grey() {
    let rgb = nv12_to_rgb(&[126, 0, 128, 128], 1, 1, 2);
    assert_eq!(rgb, [128, 128, 128]);
}

#[test]
fn nv12_layout_rounds_the_pitch_up() {
    assert_eq!(nv12_layout(1920, 1080), (2048, 2048 * (1080 + 540)));
    assert_eq!(nv12_layout(1, 1), (256, 256 * 2));
}

// Host-side write-bounds guard for the CSC kernel. Pure logic, no GPU. The
// dmabuf path feeds untrusted client dimensions into a kernel that writes a
// fixed-size NV12 allocation; `safe_encode_dims` must REJECT anything that
// would exceed that allocation and pass in-bounds / boundary-equal frames
// through unchanged.
#[test]
fn safe_encode_dims_passes_in_bounds() {
    // Strictly under all limits → accepted, returned verbatim.
    assert_eq!(
        safe_encode_dims(1280, 720, 5120, 1920, 1080, 7680),
        Some((1280, 720, 5120))
    );
}

#[test]
fn safe_encode_dims_allows_exact_boundary() {
    // width == max_w, height == max_h, stride == max_pitch → still allowed.
    assert_eq!(
        safe_encode_dims(1920, 1080, 7680, 1920, 1080, 7680),
        Some((1920, 1080, 7680))
    );
}

#[test]
fn safe_encode_dims_rejects_over_width() {
    assert_eq!(safe_encode_dims(1921, 1080, 7680, 1920, 1080, 7680), None);
}

#[test]
fn safe_encode_dims_rejects_over_height() {
    assert_eq!(safe_encode_dims(1920, 1081, 7680, 1920, 1080, 7680), None);
}

#[test]
fn safe_encode_dims_rejects_over_stride() {
    // In-bounds w/h but a stride larger than the destination pitch is the
    // classic "malformed buffer" OOB driver → reject.
    assert_eq!(safe_encode_dims(1920, 1080, 7681, 1920, 1080, 7680), None);
}

#[test]
fn safe_encode_dims_zero_stride_is_unspecified_and_allowed() {
    // Stride 0 means the destination pitch; it must not be treated as an
    // overflow.
    assert_eq!(
        safe_encode_dims(1920, 1080, 0, 1920, 1080, 7680),
        Some((1920, 1080, 0))
    );
}

#[test]
fn safe_encode_dims_rejects_grossly_oversized_attack() {
    // A hostile client claiming a huge dmabuf to overflow the device heap.
    assert_eq!(
        safe_encode_dims(65535, 65535, 262140, 1920, 1080, 7680),
        None
    );
}

#[test]
fn cuda_lib_loader_is_none_without_gpu() {
    // Without the driver library, or where initialising it fails, there is none.
    assert!(CudaLib::load(false, 0, 0).is_none());
    assert!(CudaLib::load(true, 20, 100).is_none());
    assert!(CudaLib::load(true, 19, 0).is_none());
}

#[test]
fn nvenc_struct_versions_are_sane() {
    assert_ne!(nv_enc_initialize_params_ver(), 0);
    assert_ne!(nv_enc_config_ver(), 0);
    assert_eq!(NVENCAPI_VERSION & 0xff, 13);
}

#[test]
fn viewer_rc_flags_packs_aq_bits() {
    // enableAQ @ bit 3 (0x8), enableTemporalAQ @ bit 8 (0x100),
    // aqStrength=8 @ bits 12-15 (0x8000) => 0x8108. Bit layout is from
    // nvEncodeAPI.h SDK 13; this test pins the packing so a future edit
    // can't silently shift a bit.
    assert_eq!(viewer_rc_flags(8), 0x8108);
    // strength masks to 4 bits.
    assert_eq!(viewer_rc_flags(0xFF) & 0xF000, 0xF000);
}

#[test]
fn nvenc_tuning_constants_are_sane() {
    assert_eq!(NV_ENC_MULTI_PASS_DISABLED, 0);
    assert_eq!(NV_ENC_RC_FLAG_ENABLE_AQ, 1 << 3);
    assert_eq!(NV_ENC_RC_FLAG_ENABLE_TEMPORAL_AQ, 1 << 8);
    // P5 GUID, verified vs nvEncodeAPI.h (a wrong transcription broke
    // CudaNvenc live with nvEncGetEncodePresetConfigEx error 4).
    assert_eq!(nv_enc_preset_p5_guid().data1, 0x21c6_e6b4);
    assert_ne!(nv_enc_preset_p5_guid().data1, nv_enc_preset_p3_guid().data1);
}

#[test]
fn struct_versions_are_exact() {
    assert_eq!(struct_ver(3), 0x7003_000d);
    assert_eq!(struct_ver_cap(3), 0xf003_000d);
    assert_eq!(nv_enc_initialize_params_ver(), 0xf007_000d);
    assert_eq!(nv_enc_config_ver(), 0xf009_000d);
    assert_eq!(nv_enc_preset_config_ver(), 0xf005_000d);
    assert_eq!(nv_enc_rc_params_ver(), 0x7001_000d);
    assert_eq!(nv_enc_open_encode_session_ex_params_ver(), 0x7001_000d);
    assert_eq!(nv_enc_register_resource_ver(), 0x7005_000d);
    assert_eq!(nv_enc_map_input_resource_ver(), 0x7004_000d);
    assert_eq!(nv_enc_create_bitstream_buffer_ver(), 0x7001_000d);
    assert_eq!(nv_enc_reconfigure_params_ver(), 0xf002_000d);
    assert_eq!(nv_enc_pic_params_ver(), 0xf007_000d);
    assert_eq!(nv_enc_lock_bitstream_ver(), 0xf002_000d);
    assert_eq!(nv_enc_sequence_param_payload_ver(), 0x7001_000d);
    assert_eq!(nv_encode_api_function_list_ver(), 0x7002_000d);
}

fn preset() -> NV_ENC_CONFIG {
    let vui = NV_ENC_CONFIG_H264_VUI_PARAMETERS {
        overscan_info_present_flag: 0,
        overscan_info: 0,
        video_signal_type_present_flag: 0,
        video_format: 0,
        video_full_range_flag: 1,
        colour_description_present_flag: 0,
        colour_primaries: 0,
        transfer_characteristics: 0,
        colour_matrix: 0,
        chroma_sample_location_flag: 0,
        chroma_sample_location_top: 0,
        chroma_sample_location_bot: 0,
        bitstream_restriction_flag: 0,
        timing_info_present_flag: 0,
        num_unit_in_ticks: 0,
        time_scale: 77,
    };
    let h264 = NV_ENC_CONFIG_H264 {
        flags: 1,
        level: 41,
        idr_period: 250,
        separate_colour_plane_flag: 0,
        disable_deblocking_filter_idc: 0,
        num_temporal_layers: 0,
        sps_id: 0,
        pps_id: 0,
        adaptive_transform_mode: 0,
        fmo_mode: 0,
        bdirect_mode: 0,
        entropy_coding_mode: 0,
        stereo_mode: 0,
        intra_refresh_period: 0,
        intra_refresh_cnt: 0,
        max_num_ref_frames: 0,
        slice_mode: 0,
        slice_mode_data: 0,
        vui_parameters: vui,
        ltr_num_frames: 0,
        ltr_trust_mode: 0,
        chroma_format_idc: 1,
        max_temporal_layers: 0,
        use_bframes_as_ref: 0,
        num_ref_l0: 0,
        num_ref_l1: 0,
        output_bit_depth: 0,
        input_bit_depth: 0,
        tf_level: 0,
    };
    let rc = NV_ENC_RC_PARAMS {
        version: 9,
        rate_control_mode: 0,
        const_qp: [1, 2, 3],
        average_bit_rate: 1,
        max_bit_rate: 2,
        vbv_buffer_size: 3,
        vbv_initial_delay: 4,
        flags: 2,
        min_qp: [0; 3],
        max_qp: [51; 3],
        initial_rc_qp: [0; 3],
        temporallayer_idx_mask: 0,
        temporal_layer_qp: [0; 8],
        target_quality: 0,
        target_quality_lsb: 0,
        lookahead_depth: 6,
        low_delay_key_frame_scale: 0,
        y_dc_qp_index_offset: 0,
        u_dc_qp_index_offset: 0,
        v_dc_qp_index_offset: 0,
        qp_map_mode: 0,
        multi_pass: 2,
        alpha_layer_bitrate_ratio: 0,
        cb_qp_index_offset: 0,
        cr_qp_index_offset: 0,
        lookahead_level: 0,
        view_bitrate_ratios: [0; 7],
    };
    NV_ENC_CONFIG {
        version: 1,
        profile_guid: GUID::zero(),
        gop_length: 30,
        frame_interval_p: 3,
        mono_chrome_encoding: 0,
        frame_field_mode: 1,
        mv_precision: 3,
        rc_params: rc,
        encode_codec_config: NV_ENC_CODEC_CONFIG { h264 },
    }
}

#[test]
fn viewer_policy_overrides_the_preset() {
    let mut c = preset();
    apply_viewer_encode_config(&mut c, 8_000_000);
    assert_eq!(
        format!("{:?}", c.profile_guid),
        format!("{:?}", nv_enc_h264_profile_high_guid())
    );
    assert_eq!(c.gop_length, VIEWER_GOP_LENGTH);
    assert_eq!(c.frame_interval_p, 1);
    assert_eq!(c.rc_params.rate_control_mode, 2);
    assert_eq!(c.rc_params.average_bit_rate, 8_000_000);
    assert_eq!(c.rc_params.max_bit_rate, 8_000_000);
    assert_eq!(c.rc_params.vbv_buffer_size, 133_333);
    assert_eq!(c.rc_params.vbv_initial_delay, 133_333);
    assert_eq!(c.rc_params.multi_pass, 0);
    assert_eq!(c.rc_params.flags, 0x810a);
    assert_eq!(c.rc_params.lookahead_depth, 6);
    let h = c.encode_codec_config.h264;
    assert_eq!(h.idr_period, 0xffff_ffff);
    assert_eq!(h.flags, 0x1001);
    assert_eq!(h.level, 41);
    assert_eq!(h.vui_parameters.video_full_range_flag, 0);
    assert_eq!(h.vui_parameters.colour_matrix, 1);
    assert_eq!(h.vui_parameters.time_scale, 77);

    let once = format!("{c:?}");
    apply_viewer_encode_config(&mut c, 8_000_000);
    assert_eq!(format!("{c:?}"), once);
}

const OK: DriverReply = DriverReply::Returned {
    status: 0,
    handle: 0,
};

fn ready_session() -> NvencSession {
    let mut s = NvencSession::open(77, 1920, 1080);
    assert!(matches!(s.call(), NvencCall::LoadLibrary));
    s.advance(OK);
    assert!(matches!(s.call(), NvencCall::ResolveEntry));
    s.advance(OK);
    assert!(matches!(
        s.call(),
        NvencCall::CreateInstance {
            version: 0x7002_000d
        }
    ));
    s.advance(OK);
    match s.call() {
        NvencCall::OpenSession { params } => {
            assert_eq!(params.device, 77);
            assert_eq!(params.device_type, 1);
            assert_eq!(params.api_version, 13);
        }
        other => panic!("{other:?}"),
    }
    s.advance(DriverReply::Returned {
        status: 0,
        handle: 5,
    });
    match s.call() {
        NvencCall::GetPresetConfig {
            encoder,
            encode_guid,
            preset_guid,
            tuning_info,
            ..
        } => {
            assert_eq!(encoder, 5);
            assert_eq!(encode_guid.data1, nv_enc_codec_h264_guid().data1);
            assert_eq!(preset_guid.data1, 0x21c6_e6b4);
            assert_eq!(tuning_info, 2);
        }
        other => panic!("{other:?}"),
    }
    s.advance(DriverReply::Preset {
        status: 0,
        config: preset(),
    });
    match s.call() {
        NvencCall::Initialize { encoder, params } => {
            assert_eq!(encoder, 5);
            assert_eq!((params.encode_width, params.encode_height), (1920, 1080));
            assert_eq!((params.frame_rate_num, params.enable_ptd), (60, 1));
            assert_eq!(
                params.encode_config.rc_params.average_bit_rate,
                VIEWER_BITRATE_BPS
            );
            assert_eq!(params.encode_config.version, 0xf009_000d);
        }
        other => panic!("{other:?}"),
    }
    s.advance(OK);
    assert!(matches!(
        s.call(),
        NvencCall::CreateBitstream {
            encoder: 5,
            version: 0x7001_000d
        }
    ));
    assert_eq!(
        s.advance(DriverReply::Returned {
            status: 0,
            handle: 9
        }),
        None
    );
    s
}

#[test]
fn session_comes_up_call_by_call() {
    let s = ready_session();
    assert_eq!(s.stage, OpenStage::Ready);
    assert!(matches!(s.call(), NvencCall::Nothing));
    assert_eq!(
        s.releases(),
        [
            NvencRelease::Bitstream {
                encoder: 5,
                bitstream: 9
            },
            NvencRelease::Encoder { encoder: 5 }
        ]
    );
}

#[test]
fn failed_bring_up_hands_the_encoder_back() {
    let mut s = NvencSession::open(77, 64, 64);
    s.advance(OK);
    s.advance(OK);
    s.advance(OK);
    s.advance(DriverReply::Returned {
        status: 0,
        handle: 5,
    });
    assert_eq!(
        s.advance(DriverReply::Preset {
            status: 4,
            config: preset()
        }),
        Some(5)
    );
    assert_eq!(s.stage, OpenStage::Failed);
    assert!(s.releases().is_empty());
    assert_eq!(s.advance(OK), None);
    assert_eq!(s.stage, OpenStage::Failed);
}

#[test]
fn missing_library_fails_without_anything_to_free() {
    let mut s = NvencSession::open(1, 64, 64);
    assert_eq!(s.advance(DriverReply::Missing), None);
    assert_eq!(s.stage, OpenStage::Failed);
}

#[test]
fn session_without_a_handle_fails() {
    let mut s = NvencSession::open(1, 64, 64);
    s.advance(OK);
    s.advance(OK);
    s.advance(OK);
    assert_eq!(s.advance(OK), None);
    assert_eq!(s.stage, OpenStage::Failed);
}

#[test]
fn bitrate_change_carries_the_whole_configuration() {
    let s = ready_session();
    assert!(matches!(
        s.reconfigure_query(),
        NvencCall::GetPresetConfig { encoder: 5, .. }
    ));
    let p = s
        .reconfigure_bitrate(
            DriverReply::Preset {
                status: 0,
                config: preset(),
            },
            2_000_000,
        )
        .unwrap();
    assert_eq!(p.version, 0xf002_000d);
    // An IDR frame is forced, and the encoder is not reset.
    assert_eq!(p.flags, 2);
    let c = p.re_init_encode_params.encode_config;
    assert_eq!(c.rc_params.average_bit_rate, 2_000_000);
    assert_eq!(c.rc_params.vbv_buffer_size, 33_333);
    assert_eq!(c.gop_length, 0xffff_ffff);
    assert!(s
        .reconfigure_bitrate(
            DriverReply::Preset {
                status: 1,
                config: preset()
            },
            1
        )
        .is_none());
    assert!(s.reconfigure_bitrate(DriverReply::Missing, 1).is_none());
}

#[test]
fn bitrate_change_takes_both_calls() {
    let queried = DriverReply::Preset {
        status: 0,
        config: preset(),
    };
    let refused = DriverReply::Preset {
        status: 1,
        config: preset(),
    };
    let failed = DriverReply::Returned {
        status: 8,
        handle: 0,
    };
    let s = ready_session();
    assert!(s.reconfigured(queried, OK));
    assert!(!s.reconfigured(queried, failed));
    assert!(!s.reconfigured(queried, DriverReply::Missing));
    assert!(!s.reconfigured(refused, OK));
    assert!(!s.reconfigured(DriverReply::Missing, OK));
    // A recorder hands the change to its session.
    let rec = recorder();
    let p = rec.reconfigure_bitrate(queried, 3_000_000).unwrap();
    assert_eq!(p.re_init_encode_params.encode_width, 1920);
    let c = p.re_init_encode_params.encode_config;
    assert_eq!(c.rc_params.average_bit_rate, 3_000_000);
    assert!(rec.reconfigure_bitrate(refused, 1).is_none());
}

#[test]
fn recorder_lays_its_buffer_out_for_its_session() {
    let rec = recorder();
    assert_eq!((rec.width, rec.height, rec.nv12_pitch), (1920, 1080, 2048));
    let (pitch, bytes) = nv12_layout(rec.width, rec.height);
    assert_eq!(pitch, rec.nv12_pitch);
    // The last chroma pair of the largest frame ends the last row.
    let last = pitch as usize * 1080 + 539 * pitch as usize + 1918 + 1;
    assert!(last < bytes);
    assert_eq!(bytes, 2048 * 1620);
    assert_eq!(nv12_pitch(1921), 2048);
    assert_eq!(nv12_pitch(2049), 2304);
    assert_eq!(nv12_pitch(0), 0);
}

#[test]
fn parameter_sets_are_cut_to_their_size() {
    assert_eq!(sequence_query(), (0x7001_000d, 1024));
    assert_eq!(sequence_params(OK, vec![1, 2, 3, 4], 2), Some(vec![1, 2]));
    assert_eq!(sequence_params(OK, vec![1, 2], 9), Some(vec![1, 2]));
    assert_eq!(
        sequence_params(
            DriverReply::Returned {
                status: 2,
                handle: 0
            },
            vec![1],
            1
        ),
        None
    );
    assert_eq!(sequence_params(DriverReply::Missing, vec![1], 1), None);
}

fn recorder() -> CudaNvencRecorder {
    CudaNvencRecorder::try_new(
        ready_session(),
        true,
        true,
        Some(vec![0, 0, 0, 1, 0x67]),
        0,
        0x1000,
    )
    .unwrap()
}

fn reply(status: i32, handle: u64) -> FrameReply {
    FrameReply {
        status,
        handle,
        data: vec![],
    }
}

#[test]
fn recorder_try_new_is_none_without_gpu() {
    // Neither a failed allocation nor a null address makes a recorder.
    assert!(CudaNvencRecorder::try_new(ready_session(), true, true, None, 2, 0).is_none());
    assert!(CudaNvencRecorder::try_new(ready_session(), true, true, None, 0, 0).is_none());
}

fn unwind(job: &mut FrameJob) -> Vec<GpuResource> {
    let mut freed = vec![];
    while let Some(r) = job.release() {
        freed.push(r);
    }
    freed
}

#[test]
fn dmabuf_frame_goes_through_every_call() {
    let mut rec = recorder();
    assert_eq!(rec.codec_private(), &[0, 0, 0, 1, 0x67]);
    let mut job = match rec.encode_dmabuf(7, 0x0300_0000_0060_6014, 1920, 1080, 0, 1234, true) {
        FrameStart::Run(j) => j,
        FrameStart::Drop { .. } => panic!("frame fits"),
    };
    match job.call(&rec) {
        FrameCall::ImportImage { attrs } => {
            assert_eq!(
                attrs,
                [
                    0x3057, 1920, 0x3056, 1080, 0x3271, 0x34325241, 0x3272, 7, 0x3273, 0, 0x3274,
                    0, 0x3443, 0x0060_6014, 0x3444, 0x0300_0000, 0x3038, 0x3038, 0x3038
                ]
            );
        }
        _ => panic!("import comes first"),
    }
    job.advance(&mut rec, reply(0, 11));
    assert!(matches!(
        job.call(&rec),
        FrameCall::RegisterImage { image: 11 }
    ));
    job.advance(&mut rec, reply(0, 12));
    assert!(matches!(
        job.call(&rec),
        FrameCall::MapFrame { registration: 12 }
    ));
    job.advance(&mut rec, reply(0, 13));
    assert!(matches!(
        job.call(&rec),
        FrameCall::CreateTexture { array: 13 }
    ));
    job.advance(&mut rec, reply(0, 14));
    match job.call(&rec) {
        FrameCall::LaunchKernel {
            grid_x,
            grid_y,
            texture,
            dst,
            width,
            height,
            pitch,
        } => {
            assert_eq!((grid_x, grid_y), (60, 34));
            assert_eq!((texture, dst), (14, 0x1000));
            assert_eq!((width, height, pitch), (1920, 1080, 2048));
        }
        _ => panic!("kernel is due"),
    }
    job.advance(&mut rec, reply(0, 0));
    assert!(matches!(job.call(&rec), FrameCall::Synchronize));
    job.advance(&mut rec, reply(0, 0));
    match job.call(&rec) {
        FrameCall::RegisterInput(p) => {
            assert_eq!(p.resource_to_register, 0x1000);
            assert_eq!((p.pitch, p.buffer_format), (2048, 1));
        }
        _ => panic!("input registration is due"),
    }
    job.advance(&mut rec, reply(0, 15));
    match job.call(&rec) {
        FrameCall::MapInput(p) => assert_eq!(p.registered_resource, 15),
        _ => panic!("input mapping is due"),
    }
    job.advance(&mut rec, reply(0, 16));
    match job.call(&rec) {
        FrameCall::EncodePicture(p) => {
            assert_eq!(p.input_buffer, 16);
            assert_eq!(p.output_bitstream, 9);
            assert_eq!(p.encode_pic_flags, 6);
            assert_eq!(p.input_timestamp, 1234);
        }
        _ => panic!("encode is due"),
    }
    job.advance(&mut rec, reply(0, 0));
    match job.call(&rec) {
        FrameCall::LockBitstream(p) => assert_eq!(p.output_bitstream, 9),
        _ => panic!("lock is due"),
    }
    job.advance(
        &mut rec,
        FrameReply {
            status: 0,
            handle: 17,
            data: vec![1, 2, 3],
        },
    );
    assert!(matches!(job.call(&rec), FrameCall::Nothing));
    let freed = unwind(&mut job);
    assert_eq!(
        freed,
        [
            GpuResource::BitstreamLock(9),
            GpuResource::NvencMapping(16),
            GpuResource::NvencRegistration(15),
            GpuResource::Texture(14),
            GpuResource::CudaRegistration(12),
            GpuResource::EglImage(11),
        ]
    );
    let nal = job.finish().unwrap();
    assert_eq!(nal.data, [1, 2, 3]);
    assert_eq!(nal.pts_us, 1234);
    assert!(nal.is_keyframe);
    assert!(rec.has_encoded);
    assert_eq!(rec.releases(), (Some(0x1000), None));
}

#[test]
fn failing_frame_gives_back_what_it_had() {
    let mut rec = recorder();
    let mut job = match rec.encode_dmabuf(7, 0, 64, 64, 256, 0, false) {
        FrameStart::Run(j) => j,
        FrameStart::Drop { .. } => panic!("frame fits"),
    };
    job.advance(&mut rec, reply(0, 11));
    job.advance(&mut rec, reply(0, 12));
    job.advance(&mut rec, reply(700, 13));
    assert_eq!(job.stage, FrameStage::Unwind);
    assert_eq!(
        unwind(&mut job),
        [
            GpuResource::CudaRegistration(12),
            GpuResource::EglImage(11)
        ]
    );
    assert!(job.finish().is_none());
    assert!(!rec.has_encoded);
}

#[test]
fn oversized_frames_are_dropped_and_reported_once() {
    let mut rec = recorder();
    assert!(matches!(
        rec.encode_dmabuf(7, 0, 1921, 1080, 0, 0, false),
        FrameStart::Drop { warn: true }
    ));
    assert!(matches!(
        rec.encode_dmabuf(7, 0, 1921, 1080, 0, 0, false),
        FrameStart::Drop { warn: false }
    ));
}

#[test]
fn host_pixels_create_the_array_once() {
    let mut rec = recorder();
    let mut job = rec.encode_pixels(4000, 10, 16000, 5, false);
    assert_eq!((job.width, job.height), (1920, 10));
    match job.call(&rec) {
        FrameCall::CreateArray {
            width,
            height,
            format,
            num_channels,
        } => assert_eq!((width, height, format, num_channels), (1920, 1080, 1, 4)),
        _ => panic!("array is due"),
    }
    job.advance(&mut rec, reply(0, 21));
    assert_eq!(rec.input_array, 21);
    match job.call(&rec) {
        FrameCall::CopyPixels {
            array,
            src_pitch,
            width_in_bytes,
            height,
        } => assert_eq!((array, src_pitch, width_in_bytes, height), (21, 16000, 7680, 10)),
        _ => panic!("copy is due"),
    }
    job.advance(&mut rec, reply(1, 0));
    assert_eq!(unwind(&mut job), []);
    let job = rec.encode_pixels(8, 8, 32, 6, false);
    assert_eq!(job.stage, FrameStage::CopyPixels);
    assert_eq!(rec.releases(), (Some(0x1000), Some(21)));
}

#[test]
fn nothing_is_repeated_before_the_first_frame() {
    let mut rec = recorder();
    assert!(rec.reencode_last(1, false).is_none());
    rec.has_encoded = true;
    let job = rec.reencode_last(1, false).unwrap();
    assert_eq!(job.stage, FrameStage::RegisterInput);
    assert_eq!((job.width, job.height), (1920, 1080));
    rec.encode_slots = false;
    assert_eq!(
        rec.reencode_last(1, false).unwrap().stage,
        FrameStage::Unwind
    );
}

#[test]
fn cuda_context_needs_library_device_and_handle() {
    let lib = CudaLib::load(true, CUDA_SYMBOLS, 0);
    let made = CudaReply { rc: 0, handle: 8 };
    assert!(CudaCtx::open(None, 0, made).is_none());
    assert!(CudaCtx::open(lib, 100, made).is_none());
    assert!(CudaCtx::open(lib, 0, CudaReply { rc: 2, handle: 8 }).is_none());
    assert!(CudaCtx::open(lib, 0, CudaReply { rc: 0, handle: 0 }).is_none());
    let mut ctx = CudaCtx::open(lib, 0, made).unwrap();
    assert_eq!(ctx.release(), Some(8));
    assert_eq!(ctx.release(), None);
}

#[test]
fn conversion_module_is_unloaded_where_its_kernel_is_missing() {
    let lib = CudaLib::load(true, CUDA_SYMBOLS, 0);
    let ctx = CudaCtx::open(lib, 0, CudaReply { rc: 0, handle: 8 }).unwrap();
    let good = CudaReply { rc: 0, handle: 3 };
    let bad = CudaReply { rc: 1, handle: 0 };
    let (module, unload) = ctx.load_csc_module(good, CudaReply { rc: 0, handle: 4 });
    assert_eq!(module, Some(CuModule { module: 3, func: 4 }));
    assert_eq!(unload, None);
    let (module, unload) = ctx.load_csc_module(good, bad);
    assert_eq!((module, unload), (None, Some(3)));
    let (module, unload) = ctx.load_csc_module(bad, bad);
    assert_eq!((module, unload), (None, None));
    let mut m = CuModule { module: 3, func: 4 };
    assert_eq!(m.release(), Some(3));
    assert_eq!(m.release(), None);
    assert_eq!(CSC_KERNEL, "argb_to_nv12_bt709");
}

#[test]
fn cuda_codes_are_described() {
    let lib = CudaLib::load(true, CUDA_SYMBOLS, 0).unwrap();
    assert_eq!(lib.err(0, None), "0 (CUDA_SUCCESS)");
    assert_eq!(lib.err(2, Some("out of memory")), "2 (out of memory)");
    assert_eq!(lib.err(999, None), "999 (unknown)");
}

#[test]
fn dumps_come_at_their_interval() {
    assert_eq!(interval(None), 30);
    assert_eq!(interval(Some("nonsense")), 30);
    assert_eq!(interval(Some("0")), 30);
    assert_eq!(interval(Some("7")), 7);
    let mut c = DumpCounter { next: 0 };
    assert_eq!(c.gate(None, Some("2")), None);
    let hits: Vec<Option<u64>> = (0..4).map(|_| c.gate(Some("/tmp/d"), Some("2"))).collect();
    assert_eq!(hits, [Some(0), None, Some(2), None]);
    assert_eq!(c.gate(Some(""), None), None);
    assert_eq!(c.next, 4);
}

#[test]
fn dump_is_a_png_of_the_converted_frame() {
    assert_eq!(dump_path("/tmp/d", "reencode", 42), "/tmp/d/nv12-reencode-000042.png");
    let host = [16u8, 235, 16, 235, 128, 128];
    let png = dump_nv12_png(&host, 2, 2, 2).unwrap();
    let mut reader = png::Decoder::new(png.as_slice()).read_info().unwrap();
    let mut out = vec![0; reader.output_buffer_size()];
    let info = reader.next_frame(&mut out).unwrap();
    assert_eq!((info.width, info.height), (2, 2));
    assert_eq!(info.color_type, png::ColorType::Rgb);
    assert_eq!(out, nv12_to_rgb(&host, 2, 2, 2));
}
