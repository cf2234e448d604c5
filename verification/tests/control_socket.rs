use waymux::buffer::ShmFormat;
use waymux::control::{
    admits_peer, codec_to_kebab, dispatch, injection, read_frame, record_status, respond,
    screenshot, Action, Capture, Dispatch, Effect, FrameStep, HeaderRead, Injection, Payload,
    Reply, Slots, Stage, Unit,
};
use waymux::messages::{
    CaptureMode, Double, InjectOp, KeyState, RecordingCodec, SessionCtlInfo, SessionCtlMethod,
    SessionCtlRequest, TouchPhase,
};
use waymux::record_path::{
    check_inside, check_shape, contains_parent_dir, secondary_path, starts_at_root, starts_with,
};
use waymux::record_start::{RecordAction, RecordReply, Recorder, Recording};
use waymux::screenshot::encode_png;
use waymux::viewer::{
    kill_viewer_child, teardown, ChildState, KillStep, TeardownStep, Viewer, ViewerAction,
    ViewerReply,
};

fn ask(slots: &mut Slots, method: SessionCtlMethod) -> Dispatch {
    let d = dispatch(SessionCtlRequest { id: 9, method }, slots);
    assert_eq!(d.id, 9);
    d
}

fn empty() -> Slots {
    Slots {
        recording: None,
        viewer: None,
    }
}

fn recording() -> Recording {
    Recording {
        primary: Recorder {
            handle: 1,
            path: "/rec/a.mkv".into(),
            codec: RecordingCodec::Ffv1,
        },
        secondary: None,
    }
}

fn viewer() -> Viewer {
    Viewer {
        bridge: 4,
        encoder: 5,
        url: "http://127.0.0.1:8000/".into(),
        codec: RecordingCodec::H264Nvenc,
    }
}

fn finished(d: Dispatch) -> (Vec<Effect>, Result<Payload, String>) {
    match d.stage {
        Stage::Finished { effects, outcome } => (effects, outcome),
        other => panic!("not finished: {other:?}"),
    }
}

fn error(d: Dispatch) -> String {
    let (effects, outcome) = finished(d);
    assert!(effects.is_empty());
    outcome.unwrap_err()
}

fn start(
    path: Option<&str>,
    codec: Option<RecordingCodec>,
    secondary_codec: Option<RecordingCodec>,
) -> SessionCtlMethod {
    SessionCtlMethod::RecordStart {
        path: path.map(String::from),
        codec,
        secondary_codec,
        mode: None,
        min_fps: Some(5),
    }
}

fn rec(d: Dispatch, slots: &mut Slots, reply: RecordReply) -> Dispatch {
    d.advance(slots, Reply::Record(reply))
}

fn view(d: Dispatch, slots: &mut Slots, reply: ViewerReply) -> Dispatch {
    d.advance(slots, Reply::Viewer(reply))
}

#[test]
fn info_and_windows_are_passed_on() {
    let mut slots = empty();
    let d = ask(&mut slots, SessionCtlMethod::Info);
    assert!(matches!(d.action(), Action::ReadInfo));
    let info = SessionCtlInfo {
        width: 8,
        height: 6,
        scale: 1,
        window_count: 2,
        last_damage_ns: 77,
    };
    let (effects, outcome) = finished(d.advance(&mut slots, Reply::Info(info)));
    assert!(effects.is_empty());
    assert!(matches!(outcome, Ok(Payload::Info(i)) if i.last_damage_ns == 77));

    let d = ask(&mut slots, SessionCtlMethod::ListWindows);
    assert!(matches!(d.action(), Action::ListWindows));
    let (_, outcome) = finished(d.advance(&mut slots, Reply::Windows(vec![])));
    assert!(matches!(outcome, Ok(Payload::Windows(w)) if w.windows.is_empty()));
}

#[test]
fn foreign_reply_changes_nothing() {
    let mut slots = empty();
    let d = ask(&mut slots, SessionCtlMethod::Info);
    let d = d.advance(&mut slots, Reply::Delivered(true));
    assert!(matches!(d.stage, Stage::Info));
}

#[test]
fn resize_is_an_effect() {
    let mut slots = empty();
    let (effects, outcome) = finished(ask(
        &mut slots,
        SessionCtlMethod::Resize {
            width: 10,
            height: 20,
        },
    ));
    assert!(matches!(
        effects[..],
        [Effect::Resize {
            width: 10,
            height: 20
        }]
    ));
    assert!(matches!(outcome, Ok(Payload::Unit(Unit {}))));
}

#[test]
fn undelivered_input_is_an_error() {
    let mut slots = empty();
    let key = SessionCtlMethod::InjectKey {
        keycode: 30,
        state: KeyState::Pressed,
        modifiers: 1,
    };
    let d = ask(&mut slots, key.clone());
    assert!(matches!(
        d.action(),
        Action::Inject(Injection::Key {
            keycode: 30,
            pressed: true,
            modifiers: 1
        })
    ));
    assert_eq!(
        error(d.advance(&mut slots, Reply::Delivered(false))),
        "no focused client with a wl_keyboard to deliver the event to"
    );
    let d = ask(&mut slots, key);
    let (_, outcome) = finished(d.advance(&mut slots, Reply::Delivered(true)));
    assert!(outcome.is_ok());

    let zero = Double { bits: 0 };
    let d = ask(
        &mut slots,
        SessionCtlMethod::InjectPointer {
            x: Double {
                bits: 1.5f64.to_bits(),
            },
            y: zero,
            button: 272,
            state: KeyState::Released,
            axis_x: zero,
            axis_y: zero,
            window_id: Some(3),
            content: true,
        },
    );
    match d.action() {
        Action::Inject(Injection::Pointer {
            window_id,
            x,
            pressed,
            seq,
            ..
        }) => {
            assert_eq!(window_id, Some(3));
            assert_eq!(f64::from_bits(x.bits), 1.5);
            assert!(!pressed);
            assert_eq!(seq, 0);
        }
        other => panic!("{other:?}"),
    }
    assert_eq!(
        error(d.advance(&mut slots, Reply::Delivered(false))),
        "no focused client with a wl_pointer to deliver the event to"
    );
    let d = ask(
        &mut slots,
        SessionCtlMethod::InjectTouch {
            id: 1,
            x: zero,
            y: zero,
            phase: TouchPhase::Down,
            window_id: None,
            content: false,
        },
    );
    assert_eq!(
        error(d.advance(&mut slots, Reply::Delivered(false))),
        "no target client with a wl_touch to deliver the event to"
    );
}

#[test]
fn batch_is_handed_out_in_order_and_acknowledged() {
    let op = |keycode| InjectOp::Key {
        keycode,
        state: KeyState::Released,
        modifiers: 0,
    };
    let mut slots = empty();
    let mut d = ask(
        &mut slots,
        SessionCtlMethod::InjectBatch {
            ops: vec![op(1), op(2), op(3)],
        },
    );
    for n in 1..=3u32 {
        assert!(matches!(d.action(), Action::Inject(Injection::Key { keycode, .. }) if keycode == n));
        d = d.advance(&mut slots, Reply::Delivered(false));
    }
    let (_, outcome) = finished(d);
    assert!(outcome.is_ok());
    let (_, outcome) = finished(ask(
        &mut slots,
        SessionCtlMethod::InjectBatch { ops: vec![] },
    ));
    assert!(outcome.is_ok());
    assert_eq!(
        injection(op(5)),
        Injection::Key {
            keycode: 5,
            pressed: false,
            modifiers: 0
        }
    );
}

fn capture(format: ShmFormat) -> Capture {
    Capture {
        pixels: vec![1, 2, 3, 4, 5, 6, 7, 8, 0, 0, 9, 10, 11, 12, 13, 14, 15, 16],
        width: 2,
        height: 2,
        format,
        stride: 10,
    }
}

fn decoded(png: &[u8]) -> (png::ColorType, Vec<u8>) {
    let mut reader = png::Decoder::new(png).read_info().unwrap();
    let mut out = vec![0; reader.output_buffer_size()];
    let info = reader.next_frame(&mut out).unwrap();
    (info.color_type, out)
}

#[test]
fn screenshot_decodes_to_the_captured_pixels() {
    let c = capture(ShmFormat::Argb8888);
    let file = encode_png(&c.pixels, 2, 2, 10, ShmFormat::Argb8888).unwrap();
    let (color, samples) = decoded(&file);
    assert_eq!(color, png::ColorType::Rgba);
    assert_eq!(
        samples,
        [3, 2, 1, 4, 7, 6, 5, 8, 11, 10, 9, 12, 15, 14, 13, 16]
    );
    let file = encode_png(&c.pixels, 2, 2, 10, ShmFormat::Xrgb8888).unwrap();
    let (color, samples) = decoded(&file);
    assert_eq!(color, png::ColorType::Rgb);
    assert_eq!(samples, [3, 2, 1, 7, 6, 5, 11, 10, 9, 15, 14, 13]);
}

#[test]
fn bad_pictures_are_not_encoded() {
    let px = [0u8; 16];
    let enc = |w, h, s, f| encode_png(&px, w, h, s, f).unwrap_err();
    let argb = ShmFormat::Argb8888;
    assert_eq!(enc(-1, 1, 4, argb), "negative width");
    assert_eq!(enc(1, -1, 4, argb), "negative height");
    assert_eq!(enc(1, 1, -4, argb), "negative stride");
    assert_eq!(
        enc(2, 3, 8, argb),
        "shm buffer shorter than declared geometry"
    );
    assert_eq!(enc(0, 1, 4, argb), "Zero width not allowed");
    assert_eq!(enc(1, 0, 4, argb), "Zero height not allowed");
    assert_eq!(
        enc(1, 1, 4, ShmFormat::Other(0x3432_4742)),
        "unsupported shm format: Value(Bgr888)"
    );
    assert_eq!(
        enc(1, 1, 4, ShmFormat::Other(77)),
        "unsupported shm format: Unknown(77)"
    );
}

#[test]
fn screenshots_are_answered() {
    let mut slots = empty();
    let d = ask(&mut slots, SessionCtlMethod::Screenshot { window_id: 12 });
    assert!(matches!(d.action(), Action::CaptureWindow { window_id: 12 }));
    assert_eq!(
        error(d.advance(&mut slots, Reply::Captured(None))),
        "no committed buffer for window 12"
    );
    let d = ask(&mut slots, SessionCtlMethod::ScreenshotDesktop);
    assert!(matches!(d.action(), Action::CaptureDesktop));
    assert_eq!(
        error(d.advance(&mut slots, Reply::Captured(None))),
        "no windows available to composite"
    );
    let d = ask(&mut slots, SessionCtlMethod::ScreenshotDesktop);
    let (_, outcome) = finished(d.advance(
        &mut slots,
        Reply::Captured(Some(capture(ShmFormat::Xrgb8888))),
    ));
    match outcome {
        Ok(Payload::Screenshot(s)) => {
            assert_eq!((s.width, s.height), (2, 2));
            assert_eq!(decoded(&s.png).1.len(), 12);
        }
        other => panic!("{other:?}"),
    }
    let mut short = capture(ShmFormat::Xrgb8888);
    short.pixels.truncate(4);
    assert_eq!(
        screenshot(Some(short), "none".into()).unwrap_err(),
        "encode png: shm buffer shorter than declared geometry"
    );
}

#[test]
fn recording_is_started_and_reported() {
    let mut slots = empty();
    let d = ask(&mut slots, start(Some("/rec/a.mkv"), None, None));
    assert!(matches!(
        d.action(),
        Action::Record(RecordAction::FindRecordingsDir)
    ));
    let d = rec(d, &mut slots, RecordReply::Text(Ok("/rec".into())));
    assert!(matches!(
        d.action(),
        Action::Record(RecordAction::ProbeFfmpeg)
    ));
    let d = rec(d, &mut slots, RecordReply::Probed(Ok(())));
    assert!(matches!(
        d.action(),
        Action::Record(RecordAction::ProbeCodec(RecordingCodec::Ffv1))
    ));
    let d = rec(d, &mut slots, RecordReply::Probed(Ok(())));
    assert!(matches!(d.action(), Action::Record(RecordAction::LockSlots)));
    assert!(!d.holds_slots());
    let d = rec(d, &mut slots, RecordReply::Done);
    assert!(d.holds_slots());
    match d.action() {
        Action::Record(RecordAction::Spawn {
            path,
            codec,
            mode,
            min_fps,
        }) => {
            assert_eq!(path, "/rec/a.mkv");
            assert_eq!(codec, RecordingCodec::Ffv1);
            assert_eq!(mode, CaptureMode::FocusedWindow);
            assert_eq!(min_fps, Some(5));
        }
        other => panic!("{other:?}"),
    }
    let d = rec(d, &mut slots, RecordReply::Spawned(Ok(44)));
    assert!(matches!(
        d.action(),
        Action::Record(RecordAction::PrimeFirstFrame)
    ));
    assert_eq!(slots.recording.as_ref().unwrap().primary.handle, 44);
    let (_, outcome) = finished(rec(d, &mut slots, RecordReply::Done));
    match outcome {
        Ok(Payload::RecordStarted(s)) => {
            assert_eq!(s.path, "/rec/a.mkv");
            assert_eq!(s.secondary_path, None);
        }
        other => panic!("{other:?}"),
    }

    let (_, outcome) = finished(ask(&mut slots, SessionCtlMethod::RecordStatus));
    match outcome {
        Ok(Payload::RecordStatus(s)) => {
            assert!(s.recording);
            assert_eq!(s.path.as_deref(), Some("/rec/a.mkv"));
            assert_eq!(s.codec.as_deref(), Some("ffv1"));
        }
        other => panic!("{other:?}"),
    }

    let (effects, outcome) = finished(ask(&mut slots, SessionCtlMethod::RecordStop));
    assert!(outcome.is_ok());
    assert!(matches!(&effects[..], [Effect::StopRecording(r)] if r.primary.handle == 44));
    assert!(slots.recording.is_none());
    assert_eq!(
        error(ask(&mut slots, SessionCtlMethod::RecordStop)),
        "not currently recording"
    );
    assert!(!record_status(&slots.recording).recording);
}

#[test]
fn second_encoder_gets_its_own_file() {
    let mut slots = empty();
    let d = ask(
        &mut slots,
        start(
            None,
            Some(RecordingCodec::H264Vulkan),
            Some(RecordingCodec::H264Nvenc),
        ),
    );
    assert!(matches!(
        d.action(),
        Action::Record(RecordAction::ChoosePath)
    ));
    let d = rec(d, &mut slots, RecordReply::Text(Ok("/rec/b.mkv".into())));
    let d = rec(d, &mut slots, RecordReply::Text(Ok("/rec".into())));
    assert!(matches!(
        d.action(),
        Action::Record(RecordAction::FindRecordingsDir)
    ));
    let d = rec(d, &mut slots, RecordReply::Text(Ok("/rec".into())));
    let d = rec(d, &mut slots, RecordReply::Probed(Ok(())));
    let d = rec(d, &mut slots, RecordReply::Probed(Ok(())));
    assert!(matches!(
        d.action(),
        Action::Record(RecordAction::ProbeCodec(RecordingCodec::H264Nvenc))
    ));
    let d = rec(d, &mut slots, RecordReply::Probed(Ok(())));
    let d = rec(d, &mut slots, RecordReply::Done);
    let d = rec(d, &mut slots, RecordReply::Spawned(Ok(1)));
    assert!(slots.recording.is_none());
    let second = secondary_path("/rec/b.mkv");
    assert_ne!(second, "/rec/b.mkv");
    match d.action() {
        Action::Record(RecordAction::Spawn { path, codec, .. }) => {
            assert_eq!(path, second);
            assert_eq!(codec, RecordingCodec::H264Nvenc);
        }
        other => panic!("{other:?}"),
    }
    let d = rec(d, &mut slots, RecordReply::Spawned(Ok(2)));
    let entered = slots.recording.clone().unwrap();
    assert_eq!(entered.secondary.unwrap().path, second);
    let (_, outcome) = finished(rec(d, &mut slots, RecordReply::Done));
    assert!(
        matches!(outcome, Ok(Payload::RecordStarted(s)) if s.secondary_path == Some(second))
    );
}

#[test]
fn failed_second_encoder_stops_the_first() {
    let mut slots = empty();
    let d = ask(
        &mut slots,
        start(
            Some("/rec/c.mkv"),
            None,
            Some(RecordingCodec::X264Lossless),
        ),
    );
    let d = rec(d, &mut slots, RecordReply::Text(Ok("/rec".into())));
    let d = rec(d, &mut slots, RecordReply::Text(Ok("/rec".into())));
    let d = rec(d, &mut slots, RecordReply::Probed(Ok(())));
    let d = rec(d, &mut slots, RecordReply::Probed(Ok(())));
    let d = rec(d, &mut slots, RecordReply::Probed(Ok(())));
    let d = rec(d, &mut slots, RecordReply::Done);
    let d = rec(d, &mut slots, RecordReply::Spawned(Ok(17)));
    let d = rec(d, &mut slots, RecordReply::Spawned(Err("no".into())));
    assert!(matches!(
        d.action(),
        Action::Record(RecordAction::StopRecorder { handle: 17 })
    ));
    assert_eq!(
        error(rec(d, &mut slots, RecordReply::Done)),
        "secondary encoder: no"
    );
    assert!(slots.recording.is_none());
}

#[test]
fn recordings_are_refused_with_their_reason() {
    let mut slots = empty();
    assert_eq!(
        error(ask(&mut slots, start(Some("rec/a.mkv"), None, None))),
        "recording path must be absolute"
    );
    assert_eq!(
        error(ask(&mut slots, start(Some("/rec/../a.mkv"), None, None))),
        "recording path must not contain '..'"
    );
    let d = ask(&mut slots, start(Some("/etc/a.mkv"), None, None));
    assert_eq!(
        error(rec(d, &mut slots, RecordReply::Text(Ok("/rec".into())))),
        "recording path must be inside /rec"
    );
    let d = ask(&mut slots, start(None, None, None));
    assert_eq!(
        error(rec(d, &mut slots, RecordReply::Text(Err("no home".into())))),
        "no home"
    );
    let d = ask(&mut slots, start(Some("/rec/a.mkv"), None, None));
    let d = rec(d, &mut slots, RecordReply::Text(Ok("/rec".into())));
    assert_eq!(
        error(rec(
            d,
            &mut slots,
            RecordReply::Probed(Err("no ffmpeg".into()))
        )),
        "no ffmpeg"
    );
    let d = ask(
        &mut slots,
        start(Some("/rec/a.mkv"), None, Some(RecordingCodec::H264Vaapi)),
    );
    let d = rec(d, &mut slots, RecordReply::Text(Ok("/rec".into())));
    let d = rec(d, &mut slots, RecordReply::Text(Ok("/rec".into())));
    let d = rec(d, &mut slots, RecordReply::Probed(Ok(())));
    let d = rec(d, &mut slots, RecordReply::Probed(Ok(())));
    assert_eq!(
        error(rec(d, &mut slots, RecordReply::Probed(Err("no vaapi".into())))),
        "secondary codec: no vaapi"
    );
}

#[test]
fn one_recording_is_active() {
    let mut slots = empty();
    slots.recording = Some(recording());
    let d = ask(&mut slots, start(Some("/rec/z.mkv"), None, None));
    let d = rec(d, &mut slots, RecordReply::Text(Ok("/rec".into())));
    let d = rec(d, &mut slots, RecordReply::Probed(Ok(())));
    let d = rec(d, &mut slots, RecordReply::Probed(Ok(())));
    assert_eq!(
        error(rec(d, &mut slots, RecordReply::Done)),
        "already recording"
    );
    assert_eq!(slots.recording.unwrap().primary.path, "/rec/a.mkv");
}

#[test]
fn viewer_is_started_and_stopped() {
    let mut slots = empty();
    let d = ask(
        &mut slots,
        SessionCtlMethod::ViewerStart {
            bind: Some("0.0.0.0".into()),
            port: Some(8080),
        },
    );
    assert!(matches!(d.action(), Action::Viewer(ViewerAction::LockSlots)));
    let d = view(d, &mut slots, ViewerReply::Done);
    assert!(d.holds_slots());
    let d = view(
        d,
        &mut slots,
        ViewerReply::Codec(Some(RecordingCodec::H264Vulkan)),
    );
    let d = view(
        d,
        &mut slots,
        ViewerReply::Size {
            width: 640,
            height: 480,
        },
    );
    match d.action() {
        Action::Viewer(ViewerAction::SpawnBridge {
            bind,
            port,
            width,
            height,
        }) => {
            assert_eq!(bind.as_deref(), Some("0.0.0.0"));
            assert_eq!((port, width, height), (Some(8080), 640, 480));
        }
        other => panic!("{other:?}"),
    }
    let d = view(
        d,
        &mut slots,
        ViewerReply::Bridge(Ok((3, "http://h/".into()))),
    );
    assert!(matches!(
        d.action(),
        Action::Viewer(ViewerAction::CloneSocket { bridge: 3 })
    ));
    let d = view(d, &mut slots, ViewerReply::Socket(Ok(6)));
    assert!(matches!(
        d.action(),
        Action::Viewer(ViewerAction::SpawnEncoder {
            codec: RecordingCodec::H264Vulkan,
            width: 640,
            height: 480,
            socket: 6
        })
    ));
    let (_, outcome) = finished(view(d, &mut slots, ViewerReply::Encoder(7)));
    assert!(matches!(outcome, Ok(Payload::ViewerStarted(s)) if s.url == "http://h/"));

    let (_, outcome) = finished(ask(&mut slots, SessionCtlMethod::ViewerStatus));
    assert!(
        matches!(outcome, Ok(Payload::ViewerStatus(s)) if s.url.as_deref() == Some("http://h/"))
    );

    let (effects, outcome) = finished(ask(&mut slots, SessionCtlMethod::ViewerStop));
    assert!(outcome.is_ok());
    match &effects[..] {
        [Effect::StopViewer(v, steps)] => {
            assert_eq!((v.bridge, v.encoder), (3, 7));
            assert_eq!(steps, &teardown(true));
        }
        other => panic!("{other:?}"),
    }
    let (effects, outcome) = finished(ask(&mut slots, SessionCtlMethod::ViewerStop));
    assert!(effects.is_empty() && outcome.is_ok());
    let (_, outcome) = finished(ask(&mut slots, SessionCtlMethod::ViewerStatus));
    assert!(matches!(outcome, Ok(Payload::ViewerStatus(s)) if s.url.is_none()));
}

#[test]
fn viewers_are_refused_with_their_reason() {
    let begin = |slots: &mut Slots| {
        ask(
            slots,
            SessionCtlMethod::ViewerStart {
                bind: None,
                port: None,
            },
        )
    };
    let mut slots = empty();
    slots.viewer = Some(viewer());
    let d = begin(&mut slots);
    assert_eq!(
        error(view(d, &mut slots, ViewerReply::Done)),
        "viewer already active for this session"
    );
    let mut slots = empty();
    let d = begin(&mut slots);
    let d = view(d, &mut slots, ViewerReply::Done);
    assert_eq!(
        error(view(d, &mut slots, ViewerReply::Codec(None))),
        "no viewer-capable encoder available (probed h264-nvenc, h264-vulkan)"
    );
    let size = || ViewerReply::Size {
        width: 1,
        height: 1,
    };
    let codec = || ViewerReply::Codec(Some(RecordingCodec::H264Nvenc));
    let d = begin(&mut slots);
    let d = view(d, &mut slots, ViewerReply::Done);
    let d = view(d, &mut slots, codec());
    let d = view(d, &mut slots, size());
    assert_eq!(
        error(view(d, &mut slots, ViewerReply::Bridge(Err("x".into())))),
        "bridge spawn failed: x"
    );
    let d = begin(&mut slots);
    let d = view(d, &mut slots, ViewerReply::Done);
    let d = view(d, &mut slots, codec());
    let d = view(d, &mut slots, size());
    let d = view(d, &mut slots, ViewerReply::Bridge(Ok((1, "u".into()))));
    assert_eq!(
        error(view(d, &mut slots, ViewerReply::Socket(Err("y".into())))),
        "clone socket: y"
    );
    assert!(slots.viewer.is_none());
}

#[test]
fn shutdown_takes_everything_down() {
    let mut slots = Slots {
        recording: Some(recording()),
        viewer: Some(viewer()),
    };
    let (effects, outcome) = finished(ask(&mut slots, SessionCtlMethod::Shutdown));
    assert!(outcome.is_ok());
    match &effects[..] {
        [Effect::StopRecording(_), Effect::StopViewer(_, steps), Effect::NotifyShutdown] => {
            assert!(!steps.contains(&TeardownStep::JoinEncoder));
        }
        other => panic!("{other:?}"),
    }
    assert!(slots.recording.is_none() && slots.viewer.is_none());
    let (effects, _) = finished(ask(&mut slots, SessionCtlMethod::Shutdown));
    assert!(matches!(&effects[..], [Effect::NotifyShutdown]));
}

#[test]
fn bridge_is_killed_after_its_grace() {
    assert_eq!(kill_viewer_child(ChildState::Exited, 0), KillStep::Gone);
    assert_eq!(kill_viewer_child(ChildState::Lost, 9999), KillStep::Gone);
    assert_eq!(
        kill_viewer_child(ChildState::Running, 1999),
        KillStep::Sleep { ms: 100 }
    );
    assert_eq!(kill_viewer_child(ChildState::Running, 2000), KillStep::Kill);
    assert_eq!(
        teardown(false),
        [
            TeardownStep::RaiseStopFlag,
            TeardownStep::CloseSocket,
            TeardownStep::KillBridge
        ]
    );
}

#[test]
fn answers_carry_their_id() {
    let r = respond(5, Ok(Payload::Unit(Unit {})), |_: &Payload| Ok(vec![0x80])).unwrap();
    assert_eq!((r.id, r.ok), (5, true));
    assert_eq!(r.result, Some(vec![0x80]));
    assert_eq!(r.error, None);
    let r = respond(6, Ok(Payload::Unit(Unit {})), |_: &Payload| {
        Err("deep".to_string())
    })
    .unwrap();
    assert!(!r.ok);
    assert_eq!(r.error.as_deref(), Some("deep"));
    let r = respond(7, Err("no".into()), |_: &Payload| Ok(vec![1])).unwrap();
    assert_eq!((r.id, r.ok, r.result), (7, false, None));
    assert_eq!(r.error.as_deref(), Some("no"));
    let r = respond(8, Ok(Payload::Unit(Unit {})), |_: &Payload| Ok(vec![0xc1]));
    assert!(r.is_none());
}

#[test]
fn connection_is_judged_by_its_peer_and_prefix() {
    assert!(admits_peer(1000, Some(1000)));
    assert!(!admits_peer(1000, Some(0)));
    assert!(!admits_peer(1000, None));
    assert!(matches!(read_frame(HeaderRead::Eof), FrameStep::Close));
    match read_frame(HeaderRead::Failed) {
        FrameStep::Fail(f) => assert_eq!(f, "read session-ctl frame length"),
        other => panic!("{other:?}"),
    }
    assert!(matches!(
        read_frame(HeaderRead::Bytes([0, 0, 1, 2])),
        FrameStep::ReadPayload { len: 258 }
    ));
    match read_frame(HeaderRead::Bytes([1, 0x40, 0, 1])) {
        FrameStep::Fail(f) => assert_eq!(f, "session-ctl frame too large: 20971521"),
        other => panic!("{other:?}"),
    }
    assert_eq!(
        codec_to_kebab(RecordingCodec::H264VulkanLossless),
        "h264-vulkan-lossless"
    );
}

#[test]
fn paths_are_compared_by_component() {
    assert!(starts_with("/rec/a", "/rec"));
    assert!(starts_with("/rec//./a", "/rec/"));
    assert!(!starts_with("/recordings/a", "/rec"));
    assert!(starts_with("/a", ""));
    assert!(!starts_with("/a", "a"));
    assert!(!starts_with("rec/a", "/rec"));
    assert!(!starts_with("", "/"));
    assert!(starts_with("", ""));
    assert!(contains_parent_dir("/a/.."));
    assert!(contains_parent_dir("../a"));
    assert!(!contains_parent_dir("/a..b/..c/d.."));
    assert!(starts_at_root("/"));
    assert!(!starts_at_root(""));
    assert!(check_shape("/a/b").is_ok());
    assert!(check_inside("/rec/x", "/rec").is_ok());
    assert!(check_inside("/x", "/rec").is_err());
}

#[test]
fn secondary_path_names_the_second_file() {
    for (p, want) in [
        ("/rec/a.mkv", "/rec/a.secondary.mkv"),
        ("/rec/a.b.mkv", "/rec/a.b.secondary.mkv"),
        ("/rec/a", "/rec/a.secondary"),
        ("/rec/.hidden", "/rec/.hidden.secondary"),
        ("/a.mkv", "/a.secondary.mkv"),
        ("/rec.d/a", "/rec.d/a.secondary"),
    ] {
        assert_eq!(secondary_path(p), want);
    }
}
