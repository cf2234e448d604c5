use waymux::ffv1::{
    open_ffv1_mkv, CodecSettings, EncodedPacket, Ffv1Call, Ffv1Resource, Ffv1Run, Ffv1Stage,
    Ffv1VkEncoder, FrameInputView, FramePool, ImageState, PacketReply, PixelFormat, PoolFrame,
    Rational, RunStage, AVERROR_EAGAIN, AVERROR_EOF,
};

fn opened() -> Ffv1VkEncoder {
    let mut e = Ffv1VkEncoder::open(7, 2, 3, 64, 32).unwrap();
    while e.stage != Ffv1Stage::Ready {
        let extradata = if e.stage == Ffv1Stage::OpenCodec {
            vec![1, 2]
        } else {
            vec![]
        };
        e.advance(0, "", extradata);
    }
    e
}

#[test]
fn odd_dimensions_are_refused() {
    assert_eq!(
        Ffv1VkEncoder::open(1, 0, 0, 65, 32).err().unwrap(),
        "ffv1_vulkan needs even dims, got 65x32"
    );
}

#[test]
fn open_encoder_knows_its_track() {
    let e = opened();
    let (w, h, private, codec) = open_ffv1_mkv(&e);
    assert_eq!((w, h), (64, 32));
    assert_eq!(private, &[1, 2]);
    assert_eq!(codec, "V_FFV1");
    assert_eq!(
        e.closing(),
        [
            Ffv1Resource::Codec,
            Ffv1Resource::Frames,
            Ffv1Resource::Device
        ]
    );
}

#[test]
fn open_hands_over_its_settings() {
    let mut e = Ffv1VkEncoder::open(7, 2, 3, 64, 32).unwrap();
    let mut calls = vec![];
    while e.stage != Ffv1Stage::Ready {
        calls.push(e.call());
        e.advance(0, "", vec![]);
    }
    assert_eq!(e.call(), Ffv1Call::Nothing);
    assert_eq!(
        calls,
        [
            Ffv1Call::AllocDevice,
            Ffv1Call::SetDevice {
                device: 7,
                compute_queue_family: 2,
                encode_queue_family: 3
            },
            Ffv1Call::InitDevice,
            Ffv1Call::AllocFrames,
            Ffv1Call::SetFrames(FramePool {
                format: PixelFormat::Vulkan,
                sw_format: PixelFormat::Bgra,
                width: 64,
                height: 32,
                initial_pool_size: 4,
                tiling: 0,
                extra_usage: 0
            }),
            Ffv1Call::InitFrames,
            Ffv1Call::FindCodec("ffv1_vulkan"),
            Ffv1Call::AllocContext,
            Ffv1Call::OpenCodec(CodecSettings {
                width: 64,
                height: 32,
                pix_fmt: PixelFormat::Vulkan,
                time_base: Rational {
                    num: 1,
                    den: 1_000_000
                },
                framerate: Rational { num: 60, den: 1 }
            }),
            Ffv1Call::CreatePool { queue_family: 2 },
            Ffv1Call::AllocateBuffer { count: 1 },
        ]
    );
}

#[test]
fn failed_open_names_its_step() {
    let texts = [
        "av_hwdevice_ctx_alloc(VULKAN) returned null",
        "waymux_avvk_set_device returned -5",
        "av_hwdevice_ctx_init(VULKAN) returned why",
        "av_hwframe_ctx_alloc returned null",
        "waymux_avvk_set_frames returned -5",
        "av_hwframe_ctx_init returned why",
        "ffv1_vulkan encoder not found in this ffmpeg build",
        "avcodec_alloc_context3 returned null",
        "avcodec_open2(ffv1_vulkan): why",
        "create_command_pool: why",
        "allocate_command_buffers: why",
    ];
    let held = [0, 1, 1, 1, 2, 2, 2, 2, 3, 3, 4];
    for (n, text) in texts.iter().enumerate() {
        let mut e = Ffv1VkEncoder::open(7, 2, 3, 64, 32).unwrap();
        for _ in 0..n {
            e.advance(0, "", vec![]);
        }
        e.advance(-5, "why", vec![]);
        assert_eq!(e.stage, Ffv1Stage::Failed);
        assert_eq!(e.error.as_deref(), Some(*text));
        let mut freed = 0;
        while e.release().is_some() {
            freed += 1;
        }
        assert_eq!(freed, held[n], "after step {n}");
    }
}

fn input(queue_family: u32) -> FrameInputView {
    FrameInputView {
        image: 3,
        state: ImageState {
            layout: 1,
            access: 2,
            stage: 4,
        },
        queue_family,
    }
}

#[test]
fn foreign_frames_are_refused() {
    let e = opened();
    assert!(e.check_input(7, &input(2)).is_ok());
    assert_eq!(
        e.check_input(8, &input(2)).unwrap_err(),
        "VkDeviceCtx changed between Ffv1VkEncoder::open and encode_one"
    );
    assert_eq!(
        e.check_input(7, &input(5)).unwrap_err(),
        "input image on QF 5 but encoder runs on QF 2"
    );
}

#[test]
fn copy_waits_for_and_signals_the_timeline() {
    let mut e = opened();
    let plan = e.encode_one(
        &input(2),
        &PoolFrame {
            image: 9,
            layout: 0,
            access: 6,
            queue_family: 2,
            sem_value: 41,
        },
    );
    assert_eq!((plan.wait, plan.signal), (41, 42));
    assert_eq!((plan.width, plan.height), (64, 32));
    assert_eq!(plan.source.image, 3);
    assert_eq!(plan.source.from, input(2).state);
    assert_eq!(plan.source.to.layout, 6);
    assert_eq!(plan.target.to, plan.finish.from);
    assert_eq!(plan.finish.to.layout, 1);
    e.frame_done();
    assert_eq!(e.next_frame_index, 1);
}

fn packet(n: u8) -> EncodedPacket {
    EncodedPacket {
        data: vec![n],
        pts_us: n as i64,
        is_keyframe: true,
    }
}

#[test]
fn packets_are_kept_in_order() {
    let mut run = Ffv1Run::frame(77);
    while run.stage != RunStage::Receive {
        run.advance(0, "");
    }
    assert_eq!(run.sent_pts(), Some(77));
    run.receive(PacketReply::Packet(packet(1)));
    run.receive(PacketReply::Packet(packet(2)));
    run.receive(PacketReply::Code {
        code: AVERROR_EAGAIN,
        text: "again".into(),
    });
    assert_eq!(run.stage, RunStage::Done);
    let (packets, free) = run.finish();
    let data: Vec<Vec<u8>> = packets.unwrap().into_iter().map(|p| p.data).collect();
    assert_eq!(data, [vec![1], vec![2]]);
    assert!(free);
}

#[test]
fn failed_frame_names_its_step() {
    let texts = [
        "av_frame_alloc returned null",
        "av_hwframe_get_buffer: why",
        "av_hwframe_get_buffer succeeded but data[0] is null",
        "reset_command_buffer: why",
        "begin_command_buffer: why",
        "end_command_buffer: why",
        "queue_submit2: why",
        "avcodec_send_frame: why",
    ];
    for (n, text) in texts.iter().enumerate() {
        let mut run = Ffv1Run::frame(77);
        for _ in 0..n {
            run.advance(0, "");
        }
        run.advance(-1, "why");
        let (r, free) = run.finish();
        assert_eq!(r.err().as_deref(), Some(*text));
        assert_eq!(free, n > 0);
    }
}

#[test]
fn flush_takes_no_frame() {
    let mut run = Ffv1Run::flush();
    assert_eq!(run.sent_pts(), None);
    run.advance(0, "");
    run.receive(PacketReply::Packet(packet(9)));
    run.receive(PacketReply::Code {
        code: AVERROR_EOF,
        text: "end".into(),
    });
    let (r, free) = run.finish();
    assert_eq!(r.unwrap().len(), 1);
    assert!(!free);

    let mut run = Ffv1Run::flush();
    run.advance(-3, "bad");
    assert_eq!(
        run.finish().0.err().as_deref(),
        Some("flush avcodec_send_frame(NULL): bad")
    );

    let mut run = Ffv1Run::flush();
    run.advance(0, "");
    run.receive(PacketReply::Code {
        code: -3,
        text: "bad".into(),
    });
    assert_eq!(
        run.finish().0.err().as_deref(),
        Some("flush avcodec_receive_packet: bad")
    );
}

#[test]
fn failed_receive_is_an_error() {
    let mut run = Ffv1Run::frame(77);
    while run.stage != RunStage::Receive {
        run.advance(0, "");
    }
    run.receive(PacketReply::NoPacket);
    assert_eq!(
        run.finish().0.err().as_deref(),
        Some("av_packet_alloc returned null")
    );
    let mut run = Ffv1Run::frame(77);
    while run.stage != RunStage::Receive {
        run.advance(0, "");
    }
    run.receive(PacketReply::Code {
        code: -22,
        text: "invalid".into(),
    });
    assert_eq!(
        run.finish().0.err().as_deref(),
        Some("avcodec_receive_packet: invalid")
    );
}
