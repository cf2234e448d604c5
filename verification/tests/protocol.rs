use waymux::codec::{
    decode_frame, encode_frame, frame_len, DecodeError, EncodeError, HEADER_LEN, MAX_FRAME_SIZE,
};
use waymux::messages::{
    default_released, default_scale, CaptureMode, ErrorCode, Event, EventBody, HelloResult,
    KeyState, RecordStatusResponse, RecordingCodec, Response, ResponseError, ScreenshotFormat,
    SessionCtlResponse, SessionUnavailable, TouchPhase, WindowChange, CURRENT_PROTOCOL_VERSION,
};

#[derive(Debug, PartialEq)]
struct Msg {
    id: u32,
    name: String,
}

fn msg_to_msgpack(m: &Msg) -> Result<Vec<u8>, String> {
    let value = rmpv::Value::Map(vec![
        (rmpv::Value::from("id"), rmpv::Value::from(m.id)),
        (rmpv::Value::from("name"), rmpv::Value::from(m.name.as_str())),
    ]);
    rmp_serde::to_vec_named(&value).map_err(|e| e.to_string())
}

fn msg_from_msgpack(b: &[u8]) -> Result<Msg, String> {
    let value: rmpv::Value = rmp_serde::from_slice(b).map_err(|e| e.to_string())?;
    let entries = value.as_map().ok_or("no map")?;
    let mut id = None;
    let mut name = None;
    for (k, v) in entries {
        match k.as_str() {
            Some("id") => id = v.as_u64(),
            Some("name") => name = v.as_str(),
            _ => {}
        }
    }
    Ok(Msg {
        id: id.ok_or("no id")? as u32,
        name: name.ok_or("no name")?.to_string(),
    })
}

#[test]
fn roundtrip() {
    let m = Msg {
        id: 42,
        name: "hello".into(),
    };
    let mut buf = Vec::new();
    encode_frame(&m, msg_to_msgpack, &mut buf).unwrap();
    assert_eq!(
        buf.len(),
        4 + u32::from_be_bytes([buf[0], buf[1], buf[2], buf[3]]) as usize
    );
    let decoded: Msg = decode_frame(&buf, msg_from_msgpack).unwrap();
    assert_eq!(m, decoded);
}

#[test]
fn truncated_header() {
    let err: Result<Msg, _> = decode_frame(&[0u8; 3], msg_from_msgpack);
    assert!(matches!(err, Err(DecodeError::Truncated { .. })));
}

#[test]
fn length_mismatch() {
    let m = Msg {
        id: 1,
        name: "x".into(),
    };
    let mut buf = Vec::new();
    encode_frame(&m, msg_to_msgpack, &mut buf).unwrap();
    buf.pop();
    let err: Result<Msg, _> = decode_frame(&buf, msg_from_msgpack);
    assert!(matches!(err, Err(DecodeError::Truncated { .. })));
}

#[test]
fn oversized_frame_rejected_on_decode() {
    let mut framed = Vec::new();
    framed.extend_from_slice(&((MAX_FRAME_SIZE as u32) + 1).to_be_bytes());
    framed.resize(4 + 1024, 0);
    let err = decode_frame(&framed, msg_from_msgpack).expect_err("oversize must be rejected");
    assert!(
        matches!(err, DecodeError::TooLarge(_)),
        "expected TooLarge, got {err:?}"
    );
}

#[test]
fn frames_are_appended_behind_what_is_there() {
    let mut buf = vec![9, 9];
    encode_frame(&(), |_: &()| Ok(vec![1, 2, 3]), &mut buf).unwrap();
    assert_eq!(buf, [9, 9, 0, 0, 0, 3, 1, 2, 3]);
}

#[test]
fn failed_frames_leave_the_buffer_alone() {
    let mut buf = vec![7];
    let e = encode_frame(&(), |_: &()| Err("nope".to_string()), &mut buf).unwrap_err();
    assert_eq!(e.message(), "msgpack encode: nope");
    assert_eq!(buf, [7]);

    let e = encode_frame(&(), |_: &()| Ok(vec![0; MAX_FRAME_SIZE + 1]), &mut buf).unwrap_err();
    assert!(matches!(e, EncodeError::TooLarge { actual: 20_971_521 }));
    assert_eq!(e.message(), "frame exceeds 20971520 bytes (20971521)");
    assert_eq!(buf, [7]);
}

#[test]
fn frame_of_the_largest_size_is_accepted() {
    let mut buf = Vec::new();
    encode_frame(&(), |_: &()| Ok(vec![5; MAX_FRAME_SIZE]), &mut buf).unwrap();
    let n = decode_frame(&buf, |b: &[u8]| Ok(b.len())).unwrap();
    assert_eq!(n, MAX_FRAME_SIZE);
}

#[test]
fn decode_errors_describe_themselves() {
    let e = decode_frame(&[0, 0], |_: &[u8]| Ok(())).unwrap_err();
    assert_eq!(e.message(), "frame truncated: need 4 bytes, got 2");
    let e = decode_frame(&[0, 0, 0, 2, 1], |_: &[u8]| Ok(())).unwrap_err();
    assert_eq!(e.message(), "frame truncated: need 6 bytes, got 5");
    let e = decode_frame(&[0, 0, 0, 0, 1], |_: &[u8]| Ok(())).unwrap_err();
    assert_eq!(e.message(), "frame truncated: need 4 bytes, got 5");
    let e = decode_frame(&[2, 0, 0, 0], |_: &[u8]| Ok(())).unwrap_err();
    assert_eq!(e.message(), "frame length 33554432 exceeds 20971520");
    let e = decode_frame(&[0, 0, 0, 1, 0xc1], |_: &[u8]| {
        Err::<(), String>("bad marker".into())
    })
    .unwrap_err();
    assert_eq!(e.message(), "msgpack decode: bad marker");
}

#[test]
fn prefix_is_read_most_significant_byte_first() {
    assert_eq!(HEADER_LEN, 4);
    assert!(matches!(frame_len(&[0, 1, 0, 2]), Ok(0x10002)));
    assert!(matches!(
        frame_len(&[0xff, 0xff, 0xff, 0xff]),
        Err(DecodeError::TooLarge(0xffff_ffff))
    ));
}

#[test]
fn current_protocol_version_is_four() {
    assert_eq!(CURRENT_PROTOCOL_VERSION, 4);
}

#[test]
fn capture_mode_kebab_case_wire_format() {
    for (variant, expected) in [
        (CaptureMode::FocusedWindow, "focused-window"),
        (CaptureMode::WholeDesktop, "whole-desktop"),
    ] {
        let bytes = rmp_serde::to_vec_named(variant.wire_name()).unwrap();
        let s: String = rmp_serde::from_slice(&bytes).unwrap();
        assert_eq!(s, expected);
    }
}

#[test]
fn recording_codec_kebab_case_wire_format() {
    for (variant, expected) in [
        (RecordingCodec::Ffv1, "ffv1"),
        (RecordingCodec::H264Nvenc, "h264-nvenc"),
        (RecordingCodec::H264Vaapi, "h264-vaapi"),
        (RecordingCodec::H264Vulkan, "h264-vulkan"),
        (RecordingCodec::Ffv1Vulkan, "ffv1-vulkan"),
        (RecordingCodec::H264VulkanLossless, "h264-vulkan-lossless"),
        (RecordingCodec::HevcVulkanLossless, "hevc-vulkan-lossless"),
    ] {
        let bytes = rmp_serde::to_vec_named(variant.wire_name()).unwrap();
        let s: String = rmp_serde::from_slice(&bytes).unwrap();
        assert_eq!(
            s, expected,
            "variant {variant:?} should serialize to {expected:?}"
        );
    }
}

#[test]
fn touch_phase_serializes_snake_case() {
    let down = format!("{:?}", TouchPhase::Down.wire_name());
    let motion = format!("{:?}", TouchPhase::Motion.wire_name());
    let up = format!("{:?}", TouchPhase::Up.wire_name());
    assert_eq!(down, "\"down\"");
    assert_eq!(motion, "\"motion\"");
    assert_eq!(up, "\"up\"");
}

#[test]
fn every_codec_name_reads_back() {
    for c in [
        RecordingCodec::Ffv1,
        RecordingCodec::X264Lossless,
        RecordingCodec::H264Nvenc,
        RecordingCodec::H264Vaapi,
        RecordingCodec::H264Vulkan,
        RecordingCodec::Ffv1Vulkan,
        RecordingCodec::H264VulkanLossless,
        RecordingCodec::HevcVulkanLossless,
        RecordingCodec::CudaNvenc,
    ] {
        assert_eq!(RecordingCodec::from_wire_name(c.wire_name()), Some(c));
    }
    assert_eq!(RecordingCodec::from_wire_name("h265"), None);
    assert_eq!(RecordingCodec::X264Lossless.wire_name(), "x264-lossless");
    assert_eq!(RecordingCodec::CudaNvenc.wire_name(), "cuda-nvenc");
}

#[test]
fn small_enum_names_read_back() {
    for m in [CaptureMode::FocusedWindow, CaptureMode::WholeDesktop] {
        assert_eq!(CaptureMode::from_wire_name(m.wire_name()), Some(m));
    }
    assert_eq!(CaptureMode::from_wire_name("window"), None);
    for s in [KeyState::Pressed, KeyState::Released] {
        assert_eq!(KeyState::from_wire_name(s.wire_name()), Some(s));
    }
    assert_eq!(KeyState::from_wire_name("Pressed"), None);
    for p in [TouchPhase::Down, TouchPhase::Motion, TouchPhase::Up] {
        assert_eq!(TouchPhase::from_wire_name(p.wire_name()), Some(p));
    }
    assert_eq!(TouchPhase::from_wire_name("cancel"), None);
    for f in [ScreenshotFormat::Dmabuf, ScreenshotFormat::Png] {
        assert_eq!(ScreenshotFormat::from_wire_name(f.wire_name()), Some(f));
    }
    assert_eq!(ScreenshotFormat::from_wire_name(""), None);
}

#[test]
fn unknown_error_names_read_as_unknown() {
    assert_eq!(
        ErrorCode::from_wire_name("E_SESSION_FROZEN"),
        ErrorCode::Unknown
    );
    assert_eq!(ErrorCode::from_wire_name("Unknown"), ErrorCode::Unknown);
    assert_eq!(ErrorCode::BadRequest.wire_name(), "E_BAD_REQUEST");
    for c in [
        ErrorCode::NotFound,
        ErrorCode::AlreadyExists,
        ErrorCode::ProtoVersion,
        ErrorCode::NoRenderNode,
        ErrorCode::ResizeRejected,
        ErrorCode::Backpressure,
        ErrorCode::NotImplemented,
        ErrorCode::BadRequest,
        ErrorCode::Internal,
    ] {
        assert_eq!(ErrorCode::from_wire_name(c.wire_name()), c);
    }
}

#[test]
fn defaults_are_the_documented_ones() {
    assert_eq!(default_scale(), 1);
    assert_eq!(default_released(), KeyState::Released);
    assert_eq!(ScreenshotFormat::default(), ScreenshotFormat::Dmabuf);
    assert_eq!(RecordingCodec::default(), RecordingCodec::Ffv1);
    assert_eq!(CaptureMode::default(), CaptureMode::FocusedWindow);
    assert_eq!(
        RecordStatusResponse::default(),
        RecordStatusResponse {
            recording: false,
            path: None,
            secondary_path: None,
            codec: None
        }
    );
    let change = WindowChange::default();
    assert!(change.title.is_none() && change.geometry.is_none() && change.focused.is_none());
}

fn value_at<'a>(value: &'a rmpv::Value, key: &str) -> Option<&'a rmpv::Value> {
    value
        .as_map()?
        .iter()
        .find(|(k, _)| k.as_str() == Some(key))
        .map(|(_, v)| v)
}

fn write(value: &rmpv::Value) -> Vec<u8> {
    let mut bytes = Vec::new();
    rmpv::encode::write_value(&mut bytes, value).unwrap();
    bytes
}

fn read(bytes: &[u8]) -> Result<rmpv::Value, String> {
    rmp_serde::from_slice(bytes).map_err(|e| e.to_string())
}

fn framed(value: &rmpv::Value) -> Vec<u8> {
    let bytes = write(value);
    let mut framed = Vec::new();
    framed.extend_from_slice(&(bytes.len() as u32).to_be_bytes());
    framed.extend_from_slice(&bytes);
    framed
}

fn response_to_msgpack(r: &Response) -> Result<Vec<u8>, String> {
    let mut entries = vec![
        (rmpv::Value::from("id"), rmpv::Value::from(r.id)),
        (rmpv::Value::from("ok"), rmpv::Value::from(r.ok)),
    ];
    if let Some(bytes) = &r.result {
        entries.push((rmpv::Value::from("result"), read(bytes)?));
    }
    if let Some(e) = &r.error {
        let error = vec![
            (rmpv::Value::from("code"), rmpv::Value::from(e.code.wire_name())),
            (rmpv::Value::from("message"), rmpv::Value::from(e.message.as_str())),
        ];
        entries.push((rmpv::Value::from("error"), rmpv::Value::Map(error)));
    }
    Ok(write(&rmpv::Value::Map(entries)))
}

fn response_from_msgpack(bytes: &[u8]) -> Result<Response, String> {
    let value = read(bytes)?;
    let id = value_at(&value, "id").and_then(|v| v.as_u64()).ok_or("no id")?;
    let ok = value_at(&value, "ok").and_then(|v| v.as_bool()).ok_or("no ok")?;
    let error = match value_at(&value, "error") {
        None => None,
        Some(e) => {
            let code = value_at(e, "code").and_then(|v| v.as_str()).ok_or("no code")?;
            let message = value_at(e, "message").and_then(|v| v.as_str()).ok_or("no message")?;
            Some(ResponseError::new(ErrorCode::from_wire_name(code), message.to_string()))
        }
    };
    Ok(Response {
        id: id as u32,
        ok,
        result: value_at(&value, "result").map(write),
        error,
    })
}

fn hello_result_to_msgpack(r: &HelloResult) -> Result<Vec<u8>, String> {
    let caps = r.capabilities.iter().map(|c| rmpv::Value::from(c.as_str())).collect();
    Ok(write(&rmpv::Value::Map(vec![
        (rmpv::Value::from("server_protocol"), rmpv::Value::from(r.server_protocol)),
        (rmpv::Value::from("capabilities"), rmpv::Value::Array(caps)),
    ])))
}

fn hello_result_from_msgpack(bytes: &[u8]) -> Result<HelloResult, String> {
    let value = read(bytes)?;
    let version = value_at(&value, "server_protocol").and_then(|v| v.as_u64());
    let caps = value_at(&value, "capabilities").and_then(|v| v.as_array());
    let mut capabilities = Vec::new();
    for c in caps.ok_or("no capabilities")? {
        capabilities.push(c.as_str().ok_or("no text")?.to_string());
    }
    Ok(HelloResult {
        server_protocol: version.ok_or("no version")? as u32,
        capabilities,
    })
}

fn event_to_msgpack(ev: &Event) -> Result<Vec<u8>, String> {
    match &ev.body {
        EventBody::SessionCreated { name } => Ok(write(&rmpv::Value::Map(vec![
            (rmpv::Value::from("id"), rmpv::Value::from(ev.id)),
            (rmpv::Value::from("event"), rmpv::Value::from("session_created")),
            (
                rmpv::Value::from("params"),
                rmpv::Value::Map(vec![(
                    rmpv::Value::from("name"),
                    rmpv::Value::from(name.as_str()),
                )]),
            ),
        ]))),
        other => Err(format!("{other:?}")),
    }
}

fn event_from_msgpack(bytes: &[u8]) -> Result<Event, String> {
    let value = read(bytes)?;
    let id = value_at(&value, "id").and_then(|v| v.as_u64()).ok_or("no id")?;
    let event = value_at(&value, "event").and_then(|v| v.as_str());
    let params = value_at(&value, "params").ok_or("no params")?;
    let name = value_at(params, "name").and_then(|v| v.as_str()).ok_or("no name")?;
    if event != Some("session_created") {
        return Err(format!("{event:?}"));
    }
    Ok(Event {
        id: id as u32,
        body: EventBody::SessionCreated { name: name.to_string() },
    })
}

#[test]
fn response_success_with_typed_result() {
    let result = HelloResult {
        server_protocol: 1,
        capabilities: vec!["damage_events".into()],
    };
    let resp = Response::success(7, hello_result_to_msgpack(&result)).unwrap();
    let mut buf = Vec::new();
    encode_frame(&resp, response_to_msgpack, &mut buf).unwrap();
    let decoded: Response = decode_frame(&buf, response_from_msgpack).unwrap();
    assert_eq!(decoded.id, 7);
    assert!(decoded.ok);
    let decoded_result: HelloResult = decoded.decode_result(hello_result_from_msgpack).unwrap();
    assert_eq!(decoded_result.server_protocol, 1);
    assert_eq!(
        decoded_result.capabilities,
        vec!["damage_events".to_string()]
    );
}

#[test]
fn response_failure() {
    let resp = Response::failure(
        2,
        ResponseError::new(ErrorCode::NotFound, "no such session: foo".into()),
    );
    let mut buf = Vec::new();
    encode_frame(&resp, response_to_msgpack, &mut buf).unwrap();
    let decoded: Response = decode_frame(&buf, response_from_msgpack).unwrap();
    assert!(!decoded.ok);
    let err = decoded.error.unwrap();
    assert_eq!(err.code, ErrorCode::NotFound);
}

#[test]
fn event_has_id_zero() {
    let ev = Event::new(EventBody::SessionCreated {
        name: "test".into(),
    });
    let mut buf = Vec::new();
    encode_frame(&ev, event_to_msgpack, &mut buf).unwrap();
    let decoded: Event = decode_frame(&buf, event_from_msgpack).unwrap();
    assert_eq!(decoded.id, 0);
}

#[test]
fn unknown_error_code_deserialises_as_unknown() {
    let err = rmpv::Value::Map(vec![
        (rmpv::Value::from("code"), rmpv::Value::from("E_SESSION_FROZEN")),
        (rmpv::Value::from("message"), rmpv::Value::from("temporary")),
    ]);
    let wire = rmpv::Value::Map(vec![
        (rmpv::Value::from("id"), rmpv::Value::from(1u32)),
        (rmpv::Value::from("ok"), rmpv::Value::from(false)),
        (rmpv::Value::from("error"), err),
    ]);
    let resp: Response = decode_frame(&framed(&wire), response_from_msgpack).unwrap();
    assert!(!resp.ok);
    let e = resp.error.unwrap();
    assert_eq!(e.code, ErrorCode::Unknown);
    assert_eq!(e.message, "temporary");
}

#[test]
fn bad_request_error_code_roundtrips() {
    assert_eq!(ErrorCode::BadRequest.wire_name(), "E_BAD_REQUEST");
    assert_eq!(
        ErrorCode::from_wire_name("E_BAD_REQUEST"),
        ErrorCode::BadRequest
    );
    let resp = Response::failure(
        7,
        ResponseError::new(
            ErrorCode::BadRequest,
            "argv[0] must be an absolute path".into(),
        ),
    );
    let mut buf = Vec::new();
    encode_frame(&resp, response_to_msgpack, &mut buf).unwrap();
    let decoded: Response = decode_frame(&buf, response_from_msgpack).unwrap();
    assert_eq!(decoded.error.unwrap().code, ErrorCode::BadRequest);
}

#[test]
fn responses_carry_result_or_error() {
    let result = HelloResult {
        server_protocol: 1,
        capabilities: vec!["damage_events".into()],
    };
    let to = |r: &HelloResult| {
        rmp_serde::to_vec_named(&(r.server_protocol, r.capabilities.clone()))
            .map_err(|e| e.to_string())
    };
    let resp = Response::success(7, to(&result)).unwrap();
    assert_eq!(resp.id, 7);
    assert!(resp.ok);
    assert!(resp.error.is_none());
    let (version, caps): (u32, Vec<String>) = resp
        .decode_result(|b: &[u8]| rmp_serde::from_slice(b).map_err(|e| e.to_string()))
        .unwrap();
    assert_eq!(version, 1);
    assert_eq!(caps, vec!["damage_events".to_string()]);

    let resp = Response::failure(
        2,
        ResponseError::new(ErrorCode::NotFound, "no such session: foo".into()),
    );
    assert!(!resp.ok);
    assert_eq!(
        resp.decode_result(|_: &[u8]| Ok(())).unwrap_err(),
        "response has no result"
    );
    let err = resp.error.unwrap();
    assert_eq!(err.code, ErrorCode::NotFound);
    assert_eq!(err.message, "no such session: foo");
    assert!(err.detail.is_none());

    let e = Response::success(1, Err("deep".to_string())).unwrap_err();
    assert_eq!(e, "deep");
}

#[test]
fn session_responses_carry_result_or_error() {
    let resp = SessionCtlResponse::success(3, Ok(vec![5])).unwrap();
    assert_eq!(resp.result, Some(vec![5]));
    assert!(resp.ok && resp.error.is_none());
    assert_eq!(resp.decode_result(|b: &[u8]| Ok(b[0])), Ok(5));
    let resp = SessionCtlResponse::failure(4, "no".into());
    assert!(!resp.ok);
    assert_eq!(resp.error.as_deref(), Some("no"));
    assert_eq!(
        resp.decode_result(|_: &[u8]| Ok(())).unwrap_err(),
        "session-control response has no result"
    );
}

#[test]
fn results_are_held_in_their_shortest_form() {
    // Five as a sixteen-bit integer.
    let resp = Response::success(8, Ok(vec![0xcd, 0x00, 0x05])).unwrap();
    assert_eq!(resp.result, Some(vec![0x05]));
    let resp = SessionCtlResponse::checked_success(8, Ok(vec![0xcd, 0x00, 0x05]));
    assert_eq!(resp.unwrap().unwrap().result, Some(vec![0x05]));
    // A map that was announced in four bytes.
    let resp = Response::checked_success(9, Ok(vec![0xdf, 0, 0, 0, 1, 0xa1, b'w', 0xcc, 7]));
    assert_eq!(
        resp.unwrap().unwrap().result,
        Some(vec![0x81, 0xa1, b'w', 7])
    );
}

#[test]
fn bytes_that_hold_no_value_make_no_response() {
    // A marker that is never used, no bytes, and a string that breaks off.
    for bytes in [vec![0xc1], vec![], vec![0xa3, b'a']] {
        assert!(Response::checked_success(1, Ok(bytes.clone())).is_none());
        assert!(SessionCtlResponse::checked_success(1, Ok(bytes)).is_none());
    }
    let e = Response::checked_success(1, Err("deep".into()));
    assert_eq!(e.unwrap().unwrap_err(), "deep");
    let e = SessionCtlResponse::checked_success(1, Err("deep".into()));
    assert_eq!(e.unwrap().unwrap_err(), "deep");
}

#[test]
fn events_have_the_id_zero() {
    let ev = Event::new(EventBody::SessionCreated {
        name: "test".into(),
    });
    assert_eq!(ev.id, 0);
    assert!(matches!(ev.body, EventBody::SessionCreated { name } if name == "test"));
}

#[test]
fn session_unavailable_has_its_tag() {
    let env = SessionUnavailable::new("resume_timeout".into(), Some(10));
    assert_eq!(env.error, "session_unavailable");
    assert_eq!(env.reason, "resume_timeout");
    assert_eq!(env.retry_after_s, Some(10));
    let env = SessionUnavailable::new("upstream_unavailable".into(), None);
    assert_eq!(env.retry_after_s, None);
}
