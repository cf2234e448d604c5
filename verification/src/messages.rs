//! Requests, responses and events of the control protocol.
//!
//! Every frame carries one map. A request holds a non-zero `id`, a `method` and
//! its `params`; a response holds the request's `id`, `ok` and either a
//! `result` or an `error`; an event holds the id zero, an `event` and its
//! `params`.

use std::collections::BTreeMap;

use vstd::prelude::*;
use vstd::string::*;

use crate::msgpack::rewrite_value;
use crate::text::same;
#[allow(unused_imports)]
use crate::msgpack::msgpack_value;

verus! {

/// Raised on any change of the wire format. Peers of a lower version are
/// understood: what was added since carries a default.
pub const CURRENT_PROTOCOL_VERSION: u32 = 4;

/// A double-precision number, held by its IEEE 754 bit pattern.
#[derive(Debug, Clone, Copy, PartialEq, Eq, Structural)]
pub struct Double {
    pub bits: u64,
}

/// A client's request to the daemon.
#[derive(Debug, Clone)]
pub struct Request {
    pub id: u32,
    pub method: RequestMethod,
}

/// What a client can ask of the daemon.
#[allow(inconsistent_fields)]
#[derive(Debug, Clone)]
pub enum RequestMethod {
    Hello { client_protocol: u32 },
    ListSessions,
    CreateSession(CreateSessionParams),
    DestroySession { name: String },
    Attach { name: String },
    Detach { name: String },
    Resize { name: String, width: u32, height: u32 },
    /// Starts a process in a session. A `compositor` child is the session's
    /// inner compositor: its exit is reported as a crash of the session.
    Spawn { name: String, argv: Vec<String>, env: BTreeMap<String, String>, compositor: bool },
    ListWindows { name: String },
    TagWindow { name: String, window_id: u32, tags: Vec<String> },
    Screenshot { name: String, window_id: Option<u32>, format: ScreenshotFormat },
    ScreenshotDesktop { name: String, format: ScreenshotFormat },
    WaitForIdle { name: String, quiet_ms: u32, timeout_ms: u32 },
    Subscribe { topics: Vec<String> },
    InjectKey { name: String, keycode: u32, state: KeyState, modifiers: u32 },
    /// A motion to `(x, y)`, then a button event where `button` is not zero and
    /// axis events where the deltas are not zero. Without a `window_id` the
    /// focused window is meant; with `content` the coordinates are relative to
    /// the window's content rectangle.
    InjectPointer {
        name: String,
        x: Double,
        y: Double,
        button: u32,
        state: KeyState,
        axis_x: Double,
        axis_y: Double,
        window_id: Option<u32>,
        content: bool,
    },
    /// One touch event of the finger `id`.
    InjectTouch {
        name: String,
        id: u32,
        x: Double,
        y: Double,
        phase: TouchPhase,
        window_id: Option<u32>,
        content: bool,
    },
    /// Several input operations, delivered in order.
    InjectBatch { name: String, ops: Vec<InjectOp> },
    /// Reserved: input at a target that a selector names.
    InjectSelector { session: String, selector: String, button: u32, pressed: bool, content: bool },
    StreamLogs { name: String, follow: bool },
    /// Starts a recording. A second codec makes a second file from the same
    /// frames. `min_fps` repeats the last frame where commits come too rarely.
    RecordStart {
        name: String,
        path: Option<String>,
        codec: Option<RecordingCodec>,
        secondary_codec: Option<RecordingCodec>,
        mode: Option<CaptureMode>,
        min_fps: Option<u32>,
    },
    RecordStop { name: String },
    RecordStatus { name: String },
    /// Opens a viewer on `bind`, at `port` or at a port that is free.
    ViewerStart { session: String, bind: Option<String>, port: Option<u16> },
    ViewerStop { session: String },
    ViewerStatus { session: String },
}

/// What a new session is made with. Caps that are absent or zero do not apply.
#[derive(Debug, Clone)]
pub struct CreateSessionParams {
    pub name: String,
    pub width: u32,
    pub height: u32,
    pub scale: u32,
    pub env: BTreeMap<String, String>,
    pub share_clipboard: bool,
    pub share_audio: bool,
    pub mem_cap_mb: Option<u32>,
    pub cpu_cap_pct: Option<u32>,
    pub disk_quota_mb: Option<u32>,
    pub fd_limit: Option<u32>,
    pub api_key_id: Option<String>,
    pub codec: Option<String>,
    pub gpu_type: Option<String>,
}

/// Scale of a session whose creator names none.
pub fn default_scale() -> (r: u32)
    ensures
        r == 1,
{
    1
}

/// Button state of a pointer event that names none.
pub fn default_released() -> (r: KeyState)
    ensures
        r == KeyState::Released,
{
    KeyState::Released
}

/// How a screenshot is handed over.
#[derive(Debug, Clone, Copy, PartialEq, Eq, Structural)]
pub enum ScreenshotFormat {
    Dmabuf,
    Png,
}

impl Default for ScreenshotFormat {
    fn default() -> (r: ScreenshotFormat)
        ensures
            r == ScreenshotFormat::Dmabuf,
    {
        ScreenshotFormat::Dmabuf
    }
}

/// Video encoder of a recording.
#[derive(Debug, Clone, Copy, PartialEq, Eq, Structural)]
pub enum RecordingCodec {
    /// Lossless FFV1, encoded on the CPU.
    Ffv1,
    /// Lossless H.264 in RGB, encoded on the CPU.
    X264Lossless,
    /// H.264 on NVIDIA hardware.
    H264Nvenc,
    /// H.264 on AMD and Intel hardware.
    H264Vaapi,
    /// H.264 through Vulkan video encode.
    H264Vulkan,
    /// Lossless FFV1 in Vulkan compute shaders.
    Ffv1Vulkan,
    /// Lossless H.264 through Vulkan video encode.
    H264VulkanLossless,
    /// Lossless HEVC through Vulkan video encode.
    HevcVulkanLossless,
    /// H.264 on NVIDIA hardware through CUDA, without a helper process.
    CudaNvenc,
}

impl Default for RecordingCodec {
    fn default() -> (r: RecordingCodec)
        ensures
            r == RecordingCodec::Ffv1,
    {
        RecordingCodec::Ffv1
    }
}

/// What a recording captures.
#[derive(Debug, Clone, Copy, PartialEq, Eq, Structural)]
pub enum CaptureMode {
    /// The surface tree of whichever window has the focus.
    FocusedWindow,
    /// Every mapped window and layer surface, composited.
    WholeDesktop,
}

impl Default for CaptureMode {
    fn default() -> (r: CaptureMode)
        ensures
            r == CaptureMode::FocusedWindow,
    {
        CaptureMode::FocusedWindow
    }
}

/// State of a key or button.
#[derive(Debug, Clone, Copy, PartialEq, Eq, Structural)]
pub enum KeyState {
    Pressed,
    Released,
}

/// Stage in the life of one touch contact.
#[derive(Debug, Clone, Copy, PartialEq, Eq, Structural)]
pub enum TouchPhase {
    Down,
    Motion,
    Up,
}

/// One operation of a batch of input.
#[derive(Debug, Clone, Copy, PartialEq, Eq)]
pub enum InjectOp {
    Key { keycode: u32, state: KeyState, modifiers: u32 },
    Pointer {
        x: Double,
        y: Double,
        button: u32,
        state: KeyState,
        axis_x: Double,
        axis_y: Double,
        window_id: Option<u32>,
        content: bool,
        /// Sequence number that is echoed to the viewer with the position.
        seq: u32,
    },
    Touch {
        id: u32,
        x: Double,
        y: Double,
        phase: TouchPhase,
        window_id: Option<u32>,
        content: bool,
    },
}

impl ScreenshotFormat {
    /// Name on the wire.
    pub open spec fn wire(self) -> Seq<char> {
        match self {
            ScreenshotFormat::Dmabuf => "dmabuf"@,
            ScreenshotFormat::Png => "png"@,
        }
    }

    /// Name on the wire.
    pub fn wire_name(self) -> (r: &'static str)
        ensures
            r@ == self.wire(),
    {
        match self {
            ScreenshotFormat::Dmabuf => "dmabuf",
            ScreenshotFormat::Png => "png",
        }
    }

    /// The format of that name.
    pub fn from_wire_name(name: &str) -> (r: Option<ScreenshotFormat>)
        ensures
            r matches Some(v) ==> v.wire() == name@,
            r is None ==> forall|other: ScreenshotFormat| #[trigger] other.wire() != name@,
    {
        if same(name, "dmabuf") {
            Some(ScreenshotFormat::Dmabuf)
        } else if same(name, "png") {
            Some(ScreenshotFormat::Png)
        } else {
            None
        }
    }
}

impl RecordingCodec {
    /// Name on the wire.
    pub open spec fn wire(self) -> Seq<char> {
        match self {
            RecordingCodec::Ffv1 => "ffv1"@,
            RecordingCodec::X264Lossless => "x264-lossless"@,
            RecordingCodec::H264Nvenc => "h264-nvenc"@,
            RecordingCodec::H264Vaapi => "h264-vaapi"@,
            RecordingCodec::H264Vulkan => "h264-vulkan"@,
            RecordingCodec::Ffv1Vulkan => "ffv1-vulkan"@,
            RecordingCodec::H264VulkanLossless => "h264-vulkan-lossless"@,
            RecordingCodec::HevcVulkanLossless => "hevc-vulkan-lossless"@,
            RecordingCodec::CudaNvenc => "cuda-nvenc"@,
        }
    }

    /// Name on the wire.
    pub fn wire_name(self) -> (r: &'static str)
        ensures
            r@ == self.wire(),
    {
        match self {
            RecordingCodec::Ffv1 => "ffv1",
            RecordingCodec::X264Lossless => "x264-lossless",
            RecordingCodec::H264Nvenc => "h264-nvenc",
            RecordingCodec::H264Vaapi => "h264-vaapi",
            RecordingCodec::H264Vulkan => "h264-vulkan",
            RecordingCodec::Ffv1Vulkan => "ffv1-vulkan",
            RecordingCodec::H264VulkanLossless => "h264-vulkan-lossless",
            RecordingCodec::HevcVulkanLossless => "hevc-vulkan-lossless",
            RecordingCodec::CudaNvenc => "cuda-nvenc",
        }
    }

    /// The codec of that name.
    pub fn from_wire_name(name: &str) -> (r: Option<RecordingCodec>)
        ensures
            r matches Some(v) ==> v.wire() == name@,
            r is None ==> forall|other: RecordingCodec| #[trigger] other.wire() != name@,
    {
        if same(name, "ffv1") {
            Some(RecordingCodec::Ffv1)
        } else if same(name, "x264-lossless") {
            Some(RecordingCodec::X264Lossless)
        } else if same(name, "h264-nvenc") {
            Some(RecordingCodec::H264Nvenc)
        } else if same(name, "h264-vaapi") {
            Some(RecordingCodec::H264Vaapi)
        } else if same(name, "h264-vulkan") {
            Some(RecordingCodec::H264Vulkan)
        } else if same(name, "ffv1-vulkan") {
            Some(RecordingCodec::Ffv1Vulkan)
        } else if same(name, "h264-vulkan-lossless") {
            Some(RecordingCodec::H264VulkanLossless)
        } else if same(name, "hevc-vulkan-lossless") {
            Some(RecordingCodec::HevcVulkanLossless)
        } else if same(name, "cuda-nvenc") {
            Some(RecordingCodec::CudaNvenc)
        } else {
            None
        }
    }
}

impl CaptureMode {
    /// Name on the wire.
    pub open spec fn wire(self) -> Seq<char> {
        match self {
            CaptureMode::FocusedWindow => "focused-window"@,
            CaptureMode::WholeDesktop => "whole-desktop"@,
        }
    }

    /// Name on the wire.
    pub fn wire_name(self) -> (r: &'static str)
        ensures
            r@ == self.wire(),
    {
        match self {
            CaptureMode::FocusedWindow => "focused-window",
            CaptureMode::WholeDesktop => "whole-desktop",
        }
    }

    /// The mode of that name.
    pub fn from_wire_name(name: &str) -> (r: Option<CaptureMode>)
        ensures
            r matches Some(v) ==> v.wire() == name@,
            r is None ==> forall|other: CaptureMode| #[trigger] other.wire() != name@,
    {
        if same(name, "focused-window") {
            Some(CaptureMode::FocusedWindow)
        } else if same(name, "whole-desktop") {
            Some(CaptureMode::WholeDesktop)
        } else {
            None
        }
    }
}

impl KeyState {
    /// Name on the wire.
    pub open spec fn wire(self) -> Seq<char> {
        match self {
            KeyState::Pressed => "pressed"@,
            KeyState::Released => "released"@,
        }
    }

    /// Name on the wire.
    pub fn wire_name(self) -> (r: &'static str)
        ensures
            r@ == self.wire(),
    {
        match self {
            KeyState::Pressed => "pressed",
            KeyState::Released => "released",
        }
    }

    /// The state of that name.
    pub fn from_wire_name(name: &str) -> (r: Option<KeyState>)
        ensures
            r matches Some(v) ==> v.wire() == name@,
            r is None ==> forall|other: KeyState| #[trigger] other.wire() != name@,
    {
        if same(name, "pressed") {
            Some(KeyState::Pressed)
        } else if same(name, "released") {
            Some(KeyState::Released)
        } else {
            None
        }
    }
}

impl TouchPhase {
    /// Name on the wire.
    pub open spec fn wire(self) -> Seq<char> {
        match self {
            TouchPhase::Down => "down"@,
            TouchPhase::Motion => "motion"@,
            TouchPhase::Up => "up"@,
        }
    }

    /// Name on the wire.
    pub fn wire_name(self) -> (r: &'static str)
        ensures
            r@ == self.wire(),
    {
        match self {
            TouchPhase::Down => "down",
            TouchPhase::Motion => "motion",
            TouchPhase::Up => "up",
        }
    }

    /// The phase of that name.
    pub fn from_wire_name(name: &str) -> (r: Option<TouchPhase>)
        ensures
            r matches Some(v) ==> v.wire() == name@,
            r is None ==> forall|other: TouchPhase| #[trigger] other.wire() != name@,
    {
        if same(name, "down") {
            Some(TouchPhase::Down)
        } else if same(name, "motion") {
            Some(TouchPhase::Motion)
        } else if same(name, "up") {
            Some(TouchPhase::Up)
        } else {
            None
        }
    }
}

/// Codes of the errors that a request can be answered with. A code that this
/// side does not know is to be treated as [`ErrorCode::Internal`].
#[derive(Debug, Clone, Copy, PartialEq, Eq, Structural)]
pub enum ErrorCode {
    NotFound,
    AlreadyExists,
    ProtoVersion,
    NoRenderNode,
    ResizeRejected,
    Backpressure,
    NotImplemented,
    /// The caller's input failed validation.
    BadRequest,
    /// A fault of the server.
    Internal,
    /// A code of a newer peer.
    Unknown,
}

impl ErrorCode {
    /// Name on the wire.
    pub open spec fn wire(self) -> Seq<char> {
        match self {
            ErrorCode::NotFound => "E_NOT_FOUND"@,
            ErrorCode::AlreadyExists => "E_ALREADY_EXISTS"@,
            ErrorCode::ProtoVersion => "E_PROTO_VERSION"@,
            ErrorCode::NoRenderNode => "E_NO_RENDER_NODE"@,
            ErrorCode::ResizeRejected => "E_RESIZE_REJECTED"@,
            ErrorCode::Backpressure => "E_BACKPRESSURE"@,
            ErrorCode::NotImplemented => "E_NOT_IMPLEMENTED"@,
            ErrorCode::BadRequest => "E_BAD_REQUEST"@,
            ErrorCode::Internal => "E_INTERNAL"@,
            ErrorCode::Unknown => "Unknown"@,
        }
    }

    /// Name on the wire.
    pub fn wire_name(self) -> (r: &'static str)
        ensures
            r@ == self.wire(),
    {
        match self {
            ErrorCode::NotFound => "E_NOT_FOUND",
            ErrorCode::AlreadyExists => "E_ALREADY_EXISTS",
            ErrorCode::ProtoVersion => "E_PROTO_VERSION",
            ErrorCode::NoRenderNode => "E_NO_RENDER_NODE",
            ErrorCode::ResizeRejected => "E_RESIZE_REJECTED",
            ErrorCode::Backpressure => "E_BACKPRESSURE",
            ErrorCode::NotImplemented => "E_NOT_IMPLEMENTED",
            ErrorCode::BadRequest => "E_BAD_REQUEST",
            ErrorCode::Internal => "E_INTERNAL",
            ErrorCode::Unknown => "Unknown",
        }
    }

    /// The code of that name. Every other name reads as
    /// [`ErrorCode::Unknown`].
    pub fn from_wire_name(name: &str) -> (r: ErrorCode)
        ensures
            r != ErrorCode::Unknown ==> r.wire() == name@,
            r == ErrorCode::Unknown ==> forall|v: ErrorCode|
                v != ErrorCode::Unknown ==> #[trigger] v.wire() != name@,
    {
        if same(name, "E_NOT_FOUND") {
            ErrorCode::NotFound
        } else if same(name, "E_ALREADY_EXISTS") {
            ErrorCode::AlreadyExists
        } else if same(name, "E_PROTO_VERSION") {
            ErrorCode::ProtoVersion
        } else if same(name, "E_NO_RENDER_NODE") {
            ErrorCode::NoRenderNode
        } else if same(name, "E_RESIZE_REJECTED") {
            ErrorCode::ResizeRejected
        } else if same(name, "E_BACKPRESSURE") {
            ErrorCode::Backpressure
        } else if same(name, "E_NOT_IMPLEMENTED") {
            ErrorCode::NotImplemented
        } else if same(name, "E_BAD_REQUEST") {
            ErrorCode::BadRequest
        } else if same(name, "E_INTERNAL") {
            ErrorCode::Internal
        } else {
            ErrorCode::Unknown
        }
    }
}

/// An answer to a request. The result, where there is one, is held as the
/// MessagePack encoding of its value.
#[derive(Debug, Clone)]
pub struct Response {
    pub id: u32,
    pub ok: bool,
    pub result: Option<Vec<u8>>,
    pub error: Option<ResponseError>,
}

/// An error, with the MessagePack encoding of further details where there are
/// any.
#[derive(Debug, Clone)]
pub struct ResponseError {
    pub code: ErrorCode,
    pub message: String,
    pub detail: Option<Vec<u8>>,
}

impl ResponseError {
    /// An error without details.
    pub fn new(code: ErrorCode, message: String) -> (r: ResponseError)
        ensures
            r == (ResponseError { code, message, detail: None }),
    {
        ResponseError { code, message, detail: None }
    }
}

impl Response {
    /// Whether this is the success that carries the value written as `written`.
    pub open spec fn carries(self, id: u32, written: Seq<u8>) -> bool {
        &&& self.id == id
        &&& self.ok
        &&& self.result matches Some(v) && v@ == written
        &&& self.error is None
    }

    /// A success that carries a value. `encoded` is what serialising it, with the
    /// names of its fields, came to; its error is passed on.
    pub fn success(id: u32, encoded: Result<Vec<u8>, String>) -> (r: Result<Response, String>)
        requires
            encoded matches Ok(b) ==> msgpack_value(b@) is Some,
        ensures
            match encoded {
                Ok(b) => r matches Ok(s) && s.carries(id, msgpack_value(b@)->0),
                Err(e) => r == Err::<Response, String>(e),
            },
    {
        match encoded {
            Ok(b) => {
                let result: Vec<u8> = rewrite_value(b.as_slice()).unwrap();
                Ok(Response { id, ok: true, result: Some(result), error: None })
            },
            Err(e) => Err(e),
        }
    }

    /// As [`Response::success`], for bytes that may hold no value: there is no
    /// response of those.
    pub fn checked_success(id: u32, encoded: Result<Vec<u8>, String>) -> (r: Option<
        Result<Response, String>,
    >)
        ensures
            match encoded {
                Ok(b) => match msgpack_value(b@) {
                    Some(v) => r matches Some(Ok(s)) && s.carries(id, v),
                    None => r is None,
                },
                Err(e) => r == Some(Err::<Response, String>(e)),
            },
    {
        if let Ok(b) = &encoded {
            if rewrite_value(b.as_slice()).is_none() {
                return None;
            }
        }
        Some(Response::success(id, encoded))
    }

    /// A failure.
    pub fn failure(id: u32, error: ResponseError) -> (r: Response)
        ensures
            r == (Response { id, ok: false, result: None, error: Some(error) }),
    {
        Response { id, ok: false, result: None, error: Some(error) }
    }

    /// The result, parsed by `from_msgpack`. A response without a result is an
    /// error.
    pub fn decode_result<T, F: FnOnce(&[u8]) -> Result<T, String>>(&self, from_msgpack: F) -> (r:
        Result<T, String>)
        requires
            forall|b: &[u8]| #[trigger] call_requires(from_msgpack, (b,)),
        ensures
            match self.result {
                Some(v) => exists|b: &[u8]| b@ == v@ && #[trigger] call_ensures(
                    from_msgpack,
                    (b,),
                    r,
                ),
                None => r matches Err(e) && e@ == "response has no result"@,
            },
    {
        match &self.result {
            Some(v) => from_msgpack(v.as_slice()),
            None => Err(String::from_str("response has no result")),
        }
    }
}

/// Body of the answer to a request for a session that is for the time being not
/// reachable. `reason` is a stable token; a `retry_after_s` is a suggested delay
/// in seconds.
#[derive(Debug, Clone, PartialEq, Eq)]
pub struct SessionUnavailable {
    pub error: String,
    pub reason: String,
    pub retry_after_s: Option<u32>,
}

impl SessionUnavailable {
    /// The envelope with its tag filled in.
    pub fn new(reason: String, retry_after_s: Option<u32>) -> (r: SessionUnavailable)
        ensures
            r.error@ == "session_unavailable"@,
            r.reason == reason,
            r.retry_after_s == retry_after_s,
    {
        SessionUnavailable { error: String::from_str("session_unavailable"), reason, retry_after_s }
    }
}

/// A frame that the server sends on its own account.
#[derive(Debug, Clone)]
pub struct Event {
    pub id: u32,
    pub body: EventBody,
}

impl Event {
    /// The event of that body. Its id is zero, which no request has.
    pub fn new(body: EventBody) -> (r: Event)
        ensures
            r == (Event { id: 0, body }),
    {
        Event { id: 0, body }
    }
}

/// What happened.
#[derive(Debug, Clone)]
pub enum EventBody {
    SessionCreated { name: String },
    SessionDestroyed { name: String, exit_code: i32 },
    ChildExited { name: String, pid: i32, exit_code: i32 },
    /// The session's inner compositor exited.
    SessionCrashed { name: String, pid: i32, exit_code: i32 },
    /// `occluded`: no outer view shows the session.
    Occluded { name: String, occluded: bool },
    WindowCreated { name: String, window_id: u32, app_id: String, title: String, pid: i32 },
    WindowDestroyed { name: String, window_id: u32 },
    WindowChanged { name: String, window_id: u32, fields: WindowChange },
    Damage { name: String, serial: u64, timestamp_ns: u64 },
    /// A line of output; `stream` tells standard output from standard error.
    Log { name: String, stream: String, text: String },
}

/// What changed of a window.
#[derive(Debug, Clone)]
pub struct WindowChange {
    pub title: Option<String>,
    pub app_id: Option<String>,
    pub geometry: Option<Rect>,
    pub focused: Option<bool>,
}

impl Default for WindowChange {
    fn default() -> (r: WindowChange)
        ensures
            r == (WindowChange { title: None, app_id: None, geometry: None, focused: None }),
    {
        WindowChange { title: None, app_id: None, geometry: None, focused: None }
    }
}

/// A rectangle.
#[derive(Debug, Clone, Copy, PartialEq, Eq, Structural)]
pub struct Rect {
    pub x: i32,
    pub y: i32,
    pub width: u32,
    pub height: u32,
}

/// Result of a greeting.
#[derive(Debug, Clone)]
pub struct HelloResult {
    pub server_protocol: u32,
    pub capabilities: Vec<String>,
}

/// A session, as the daemon lists it.
#[derive(Debug, Clone)]
pub struct SessionInfo {
    pub name: String,
    pub pid: i32,
    pub width: u32,
    pub height: u32,
    pub scale: u32,
    pub attached: bool,
    pub created_at: u64,
}

/// Result of creating a session.
#[derive(Debug, Clone)]
pub struct CreateSessionResult {
    pub name: String,
    pub inner_socket_path: String,
}

/// Result of attaching: the socket to connect to.
#[derive(Debug, Clone)]
pub struct AttachResult {
    pub attach_socket_path: String,
}

/// The daemon's request to a session process.
#[derive(Debug, Clone)]
pub struct SessionCtlRequest {
    pub id: u32,
    pub method: SessionCtlMethod,
}

/// What the daemon can ask of a session process. The session is the one whose
/// socket is connected to; for the rest see [`RequestMethod`].
#[allow(inconsistent_fields)]
#[derive(Debug, Clone)]
pub enum SessionCtlMethod {
    Info,
    ListWindows,
    Resize { width: u32, height: u32 },
    Screenshot { window_id: u32 },
    ScreenshotDesktop,
    InjectKey { keycode: u32, state: KeyState, modifiers: u32 },
    InjectPointer {
        x: Double,
        y: Double,
        button: u32,
        state: KeyState,
        axis_x: Double,
        axis_y: Double,
        window_id: Option<u32>,
        content: bool,
    },
    InjectTouch {
        id: u32,
        x: Double,
        y: Double,
        phase: TouchPhase,
        window_id: Option<u32>,
        content: bool,
    },
    InjectBatch { ops: Vec<InjectOp> },
    Shutdown,
    RecordStart {
        path: Option<String>,
        codec: Option<RecordingCodec>,
        secondary_codec: Option<RecordingCodec>,
        mode: Option<CaptureMode>,
        min_fps: Option<u32>,
    },
    RecordStop,
    RecordStatus,
    ViewerStart { bind: Option<String>, port: Option<u16> },
    ViewerStop,
    ViewerStatus,
}

/// A session process's answer. The result is held as the MessagePack encoding
/// of its value.
#[derive(Debug, Clone)]
pub struct SessionCtlResponse {
    pub id: u32,
    pub ok: bool,
    pub result: Option<Vec<u8>>,
    pub error: Option<String>,
}

impl SessionCtlResponse {
    /// Whether this is the success that carries the value written as `written`.
    pub open spec fn carries(self, id: u32, written: Seq<u8>) -> bool {
        &&& self.id == id
        &&& self.ok
        &&& self.result matches Some(v) && v@ == written
        &&& self.error is None
    }

    /// A success that carries a value. `encoded` is what serialising it, with the
    /// names of its fields, came to; its error is passed on.
    pub fn success(id: u32, encoded: Result<Vec<u8>, String>) -> (r: Result<SessionCtlResponse, String>)
        requires
            encoded matches Ok(b) ==> msgpack_value(b@) is Some,
        ensures
            match encoded {
                Ok(b) => r matches Ok(s) && s.carries(id, msgpack_value(b@)->0),
                Err(e) => r == Err::<SessionCtlResponse, String>(e),
            },
    {
        match encoded {
            Ok(b) => {
                let result: Vec<u8> = rewrite_value(b.as_slice()).unwrap();
                Ok(SessionCtlResponse { id, ok: true, result: Some(result), error: None })
            },
            Err(e) => Err(e),
        }
    }

    /// As [`SessionCtlResponse::success`], for bytes that may hold no value: there is no
    /// response of those.
    pub fn checked_success(id: u32, encoded: Result<Vec<u8>, String>) -> (r: Option<
        Result<SessionCtlResponse, String>,
    >)
        ensures
            match encoded {
                Ok(b) => match msgpack_value(b@) {
                    Some(v) => r matches Some(Ok(s)) && s.carries(id, v),
                    None => r is None,
                },
                Err(e) => r == Some(Err::<SessionCtlResponse, String>(e)),
            },
    {
        if let Ok(b) = &encoded {
            if rewrite_value(b.as_slice()).is_none() {
                return None;
            }
        }
        Some(SessionCtlResponse::success(id, encoded))
    }

    /// A failure.
    pub fn failure(id: u32, message: String) -> (r: SessionCtlResponse)
        ensures
            r == (SessionCtlResponse { id, ok: false, result: None, error: Some(message) }),
    {
        SessionCtlResponse { id, ok: false, result: None, error: Some(message) }
    }

    /// The result, parsed by `from_msgpack`. A response without a result is an
    /// error.
    pub fn decode_result<T, F: FnOnce(&[u8]) -> Result<T, String>>(&self, from_msgpack: F) -> (r:
        Result<T, String>)
        requires
            forall|b: &[u8]| #[trigger] call_requires(from_msgpack, (b,)),
        ensures
            match self.result {
                Some(v) => exists|b: &[u8]| b@ == v@ && #[trigger] call_ensures(
                    from_msgpack,
                    (b,),
                    r,
                ),
                None => r matches Err(e) && e@ == "session-control response has no result"@,
            },
    {
        match &self.result {
            Some(v) => from_msgpack(v.as_slice()),
            None => Err(String::from_str("session-control response has no result")),
        }
    }
}

/// A session's size, and what goes on in it.
#[derive(Debug, Clone, Copy, PartialEq, Eq, Structural)]
pub struct SessionCtlInfo {
    pub width: u32,
    pub height: u32,
    pub scale: u32,
    pub window_count: u32,
    /// Nanoseconds since the epoch at the last commit; zero before the first.
    pub last_damage_ns: u64,
}

/// A session's windows.
#[derive(Debug, Clone)]
pub struct SessionCtlWindows {
    pub windows: Vec<WindowInfo>,
}

/// Where a recording that was started is written.
#[derive(Debug, Clone)]
pub struct SessionCtlRecordStarted {
    pub path: String,
    pub secondary_path: Option<String>,
}

/// Where the viewer that was started can be reached.
#[derive(Debug, Clone, PartialEq)]
pub struct ViewerStarted {
    pub url: String,
}

/// Where the active viewer, if there is one, can be reached.
#[derive(Debug, Clone, PartialEq)]
pub struct ViewerStatusResponse {
    pub url: Option<String>,
}

/// State of the recording. Where none is active the other fields are absent.
#[derive(Debug, Clone, PartialEq)]
pub struct RecordStatusResponse {
    pub recording: bool,
    pub path: Option<String>,
    pub secondary_path: Option<String>,
    /// Wire name of the primary codec.
    pub codec: Option<String>,
}

impl Default for RecordStatusResponse {
    fn default() -> (r: RecordStatusResponse)
        ensures
            r == (RecordStatusResponse {
                recording: false,
                path: None,
                secondary_path: None,
                codec: None,
            }),
    {
        RecordStatusResponse { recording: false, path: None, secondary_path: None, codec: None }
    }
}

/// A screenshot as a PNG file.
#[derive(Debug, Clone)]
pub struct SessionCtlScreenshot {
    pub width: u32,
    pub height: u32,
    pub png: Vec<u8>,
}

/// A window. `content_rect` is what its client set as window geometry.
#[derive(Debug, Clone)]
pub struct WindowInfo {
    pub id: u32,
    pub app_id: String,
    pub title: String,
    pub tags: Vec<String>,
    pub geometry: Rect,
    pub focused: bool,
    pub pid: i32,
    pub content_rect: Option<Rect>,
}

/// Screenshot formats of the same name are the same: a name read back gives what it was
/// written for.
pub proof fn screenshot_format_names_are_distinct(a: ScreenshotFormat, b: ScreenshotFormat)
    requires
        a.wire() == b.wire(),
    ensures
        a == b,
{
    reveal_strlit("dmabuf");
    assert("dmabuf"@.len() == 6);
    reveal_strlit("png");
    assert("png"@.len() == 3);
}

/// Codecs of the same name are the same: a name read back gives what it was
/// written for.
pub proof fn codec_names_are_distinct(a: RecordingCodec, b: RecordingCodec)
    requires
        a.wire() == b.wire(),
    ensures
        a == b,
{
    reveal_strlit("ffv1");
    assert("ffv1"@.len() == 4);
    reveal_strlit("x264-lossless");
    assert("x264-lossless"@.len() == 13);
    reveal_strlit("h264-nvenc");
    assert("h264-nvenc"@.len() == 10);
    reveal_strlit("h264-vaapi");
    assert("h264-vaapi"@.len() == 10);
    reveal_strlit("h264-vulkan");
    assert("h264-vulkan"@.len() == 11);
    reveal_strlit("ffv1-vulkan");
    assert("ffv1-vulkan"@.len() == 11);
    reveal_strlit("h264-vulkan-lossless");
    assert("h264-vulkan-lossless"@.len() == 20);
    reveal_strlit("hevc-vulkan-lossless");
    assert("hevc-vulkan-lossless"@.len() == 20);
    reveal_strlit("cuda-nvenc");
    assert("cuda-nvenc"@.len() == 10);
    assert("h264-nvenc"@[5] != "h264-vaapi"@[5]);
    assert("h264-nvenc"@[0] != "cuda-nvenc"@[0]);
    assert("h264-vaapi"@[0] != "cuda-nvenc"@[0]);
    assert("h264-vulkan"@[0] != "ffv1-vulkan"@[0]);
    assert("h264-vulkan-lossless"@[1] != "hevc-vulkan-lossless"@[1]);
}

/// Capture modes of the same name are the same: a name read back gives what it was
/// written for.
pub proof fn capture_mode_names_are_distinct(a: CaptureMode, b: CaptureMode)
    requires
        a.wire() == b.wire(),
    ensures
        a == b,
{
    reveal_strlit("focused-window");
    assert("focused-window"@.len() == 14);
    reveal_strlit("whole-desktop");
    assert("whole-desktop"@.len() == 13);
}

/// Key states of the same name are the same: a name read back gives what it was
/// written for.
pub proof fn key_state_names_are_distinct(a: KeyState, b: KeyState)
    requires
        a.wire() == b.wire(),
    ensures
        a == b,
{
    reveal_strlit("pressed");
    assert("pressed"@.len() == 7);
    reveal_strlit("released");
    assert("released"@.len() == 8);
}

/// Touch phases of the same name are the same: a name read back gives what it was
/// written for.
pub proof fn touch_phase_names_are_distinct(a: TouchPhase, b: TouchPhase)
    requires
        a.wire() == b.wire(),
    ensures
        a == b,
{
    reveal_strlit("down");
    assert("down"@.len() == 4);
    reveal_strlit("motion");
    assert("motion"@.len() == 6);
    reveal_strlit("up");
    assert("up"@.len() == 2);
}

/// Error codes of the same name are the same: a name read back gives what it was
/// written for.
pub proof fn error_code_names_are_distinct(a: ErrorCode, b: ErrorCode)
    requires
        a.wire() == b.wire(),
    ensures
        a == b,
{
    reveal_strlit("E_NOT_FOUND");
    assert("E_NOT_FOUND"@.len() == 11);
    reveal_strlit("E_ALREADY_EXISTS");
    assert("E_ALREADY_EXISTS"@.len() == 16);
    reveal_strlit("E_PROTO_VERSION");
    assert("E_PROTO_VERSION"@.len() == 15);
    reveal_strlit("E_NO_RENDER_NODE");
    assert("E_NO_RENDER_NODE"@.len() == 16);
    reveal_strlit("E_RESIZE_REJECTED");
    assert("E_RESIZE_REJECTED"@.len() == 17);
    reveal_strlit("E_BACKPRESSURE");
    assert("E_BACKPRESSURE"@.len() == 14);
    reveal_strlit("E_NOT_IMPLEMENTED");
    assert("E_NOT_IMPLEMENTED"@.len() == 17);
    reveal_strlit("E_BAD_REQUEST");
    assert("E_BAD_REQUEST"@.len() == 13);
    reveal_strlit("E_INTERNAL");
    assert("E_INTERNAL"@.len() == 10);
    reveal_strlit("Unknown");
    assert("Unknown"@.len() == 7);
    assert("E_ALREADY_EXISTS"@[2] != "E_NO_RENDER_NODE"@[2]);
    assert("E_RESIZE_REJECTED"@[2] != "E_NOT_IMPLEMENTED"@[2]);
}

/// The names of screenshot formats on the wire; a name leads back to what it names.
pub proof fn screenshot_format_names_lead_back(a: ScreenshotFormat, r: &'static str, back: Option<ScreenshotFormat>)
    requires
        call_ensures(ScreenshotFormat::wire_name, (a,), r),
        call_ensures(ScreenshotFormat::from_wire_name, (r,), back),
    ensures
        a == ScreenshotFormat::Dmabuf ==> r@ == "dmabuf"@,
        a == ScreenshotFormat::Png ==> r@ == "png"@,
        back == Some(a),
{
    if let Some(b) = back {
        screenshot_format_names_are_distinct(a, b);
    }
}

/// The names of codecs on the wire; a name leads back to what it names.
pub proof fn codec_names_lead_back(a: RecordingCodec, r: &'static str, back: Option<RecordingCodec>)
    requires
        call_ensures(RecordingCodec::wire_name, (a,), r),
        call_ensures(RecordingCodec::from_wire_name, (r,), back),
    ensures
        a == RecordingCodec::Ffv1 ==> r@ == "ffv1"@,
        a == RecordingCodec::X264Lossless ==> r@ == "x264-lossless"@,
        a == RecordingCodec::H264Nvenc ==> r@ == "h264-nvenc"@,
        a == RecordingCodec::H264Vaapi ==> r@ == "h264-vaapi"@,
        a == RecordingCodec::H264Vulkan ==> r@ == "h264-vulkan"@,
        a == RecordingCodec::Ffv1Vulkan ==> r@ == "ffv1-vulkan"@,
        a == RecordingCodec::H264VulkanLossless ==> r@ == "h264-vulkan-lossless"@,
        a == RecordingCodec::HevcVulkanLossless ==> r@ == "hevc-vulkan-lossless"@,
        a == RecordingCodec::CudaNvenc ==> r@ == "cuda-nvenc"@,
        back == Some(a),
{
    if let Some(b) = back {
        codec_names_are_distinct(a, b);
    }
}

/// The names of capture modes on the wire; a name leads back to what it names.
pub proof fn capture_mode_names_lead_back(a: CaptureMode, r: &'static str, back: Option<CaptureMode>)
    requires
        call_ensures(CaptureMode::wire_name, (a,), r),
        call_ensures(CaptureMode::from_wire_name, (r,), back),
    ensures
        a == CaptureMode::FocusedWindow ==> r@ == "focused-window"@,
        a == CaptureMode::WholeDesktop ==> r@ == "whole-desktop"@,
        back == Some(a),
{
    if let Some(b) = back {
        capture_mode_names_are_distinct(a, b);
    }
}

/// The names of key states on the wire; a name leads back to what it names.
pub proof fn key_state_names_lead_back(a: KeyState, r: &'static str, back: Option<KeyState>)
    requires
        call_ensures(KeyState::wire_name, (a,), r),
        call_ensures(KeyState::from_wire_name, (r,), back),
    ensures
        a == KeyState::Pressed ==> r@ == "pressed"@,
        a == KeyState::Released ==> r@ == "released"@,
        back == Some(a),
{
    if let Some(b) = back {
        key_state_names_are_distinct(a, b);
    }
}

/// The names of touch phases on the wire; a name leads back to what it names.
pub proof fn touch_phase_names_lead_back(a: TouchPhase, r: &'static str, back: Option<TouchPhase>)
    requires
        call_ensures(TouchPhase::wire_name, (a,), r),
        call_ensures(TouchPhase::from_wire_name, (r,), back),
    ensures
        a == TouchPhase::Down ==> r@ == "down"@,
        a == TouchPhase::Motion ==> r@ == "motion"@,
        a == TouchPhase::Up ==> r@ == "up"@,
        back == Some(a),
{
    if let Some(b) = back {
        touch_phase_names_are_distinct(a, b);
    }
}

/// The names of error codes on the wire; a name leads back to its code, and every
/// other name to the unknown one.
pub proof fn error_code_names_lead_back(
    a: ErrorCode,
    r: &'static str,
    back: ErrorCode,
    other: &str,
    unknown: ErrorCode,
)
    requires
        call_ensures(ErrorCode::wire_name, (a,), r),
        call_ensures(ErrorCode::from_wire_name, (r,), back),
        call_ensures(ErrorCode::from_wire_name, (other,), unknown),
    ensures
        a == ErrorCode::NotFound ==> r@ == "E_NOT_FOUND"@,
        a == ErrorCode::AlreadyExists ==> r@ == "E_ALREADY_EXISTS"@,
        a == ErrorCode::ProtoVersion ==> r@ == "E_PROTO_VERSION"@,
        a == ErrorCode::NoRenderNode ==> r@ == "E_NO_RENDER_NODE"@,
        a == ErrorCode::ResizeRejected ==> r@ == "E_RESIZE_REJECTED"@,
        a == ErrorCode::Backpressure ==> r@ == "E_BACKPRESSURE"@,
        a == ErrorCode::NotImplemented ==> r@ == "E_NOT_IMPLEMENTED"@,
        a == ErrorCode::BadRequest ==> r@ == "E_BAD_REQUEST"@,
        a == ErrorCode::Internal ==> r@ == "E_INTERNAL"@,
        a != ErrorCode::Unknown ==> back == a,
        (forall|c: ErrorCode| c != ErrorCode::Unknown ==> #[trigger] c.wire() != other@) ==> unknown
            == ErrorCode::Unknown,
{
    if back != ErrorCode::Unknown {
        error_code_names_are_distinct(a, back);
    }
}

/// An answer that succeeded carries its request's id and a result and no error; one
/// that failed carries the id and the error that it was given.
pub proof fn answers_carry_their_id(
    id: u32,
    encoded: Result<Vec<u8>, String>,
    ok: Option<Result<Response, String>>,
    error: ResponseError,
    failed: Response,
    code: ErrorCode,
    message: String,
    made: ResponseError,
)
    requires
        call_ensures(Response::checked_success, (id, encoded), ok),
        call_ensures(Response::failure, (id, error), failed),
        call_ensures(ResponseError::new, (code, message), made),
    ensures
        ok matches Some(Ok(s)) ==> s.id == id && s.ok && s.result is Some && s.error is None,
        encoded matches Err(e) ==> ok == Some(Err::<Response, String>(e)),
        encoded matches Ok(b) ==> (msgpack_value(b@) is Some ==> (ok matches Some(Ok(s))
            && s.result->0@ == msgpack_value(b@)->0)),
        failed.id == id && !failed.ok && failed.result is None && failed.error == Some(error),
        made.code == code && made.message == message && made.detail is None,
{
}

/// The same of a session's answers.
pub proof fn session_answers_carry_their_id(
    id: u32,
    encoded: Result<Vec<u8>, String>,
    ok: Option<Result<SessionCtlResponse, String>>,
    message: String,
    failed: SessionCtlResponse,
)
    requires
        call_ensures(SessionCtlResponse::checked_success, (id, encoded), ok),
        call_ensures(SessionCtlResponse::failure, (id, message), failed),
    ensures
        ok matches Some(Ok(s)) ==> s.id == id && s.ok && s.result is Some && s.error is None,
        encoded matches Err(e) ==> ok == Some(Err::<SessionCtlResponse, String>(e)),
        encoded matches Ok(b) ==> (msgpack_value(b@) is Some ==> (ok matches Some(Ok(s))
            && s.result->0@ == msgpack_value(b@)->0)),
        failed.id == id && !failed.ok && failed.result is None && failed.error == Some(message),
{
}

/// Events have the id that no request has; what a caller leaves out is the scale
/// one and the state released; a session that is not reachable says so.
pub proof fn defaults_are_the_harmless_ones(
    body: EventBody,
    e: Event,
    scale: u32,
    state: KeyState,
    reason: String,
    retry_after_s: Option<u32>,
    u: SessionUnavailable,
)
    requires
        call_ensures(Event::new, (body,), e),
        call_ensures(default_scale, (), scale),
        call_ensures(default_released, (), state),
        call_ensures(SessionUnavailable::new, (reason, retry_after_s), u),
    ensures
        e.id == 0 && e.body == body,
        scale == 1,
        state == KeyState::Released,
        u.error@ == "session_unavailable"@ && u.reason == reason && u.retry_after_s
            == retry_after_s,
{
}

/// A response without a result cannot be read as one; one with a result is what its
/// bytes parse as.
pub proof fn results_are_read_from_the_response<T, F: FnOnce(&[u8]) -> Result<T, String>>(
    r: Response,
    s: SessionCtlResponse,
    f: F,
    g: F,
    a: Result<T, String>,
    b: Result<T, String>,
)
    requires
        call_ensures(Response::decode_result::<T, F>, (&r, f), a),
        call_ensures(SessionCtlResponse::decode_result::<T, F>, (&s, g), b),
    ensures
        r.result is None ==> a is Err,
        r.result matches Some(v) ==> exists|x: &[u8]|
            x@ == v@ && #[trigger] call_ensures(f, (x,), a),
        s.result is None ==> b is Err,
        s.result matches Some(v) ==> exists|x: &[u8]|
            x@ == v@ && #[trigger] call_ensures(g, (x,), b),
{
}

/// A successful answer carries its request's id and no error; what could not be
/// encoded is no answer.
pub proof fn failed_encodings_are_no_answer(
    id: u32,
    encoded: Result<Vec<u8>, String>,
    a: Result<Response, String>,
    b: Result<SessionCtlResponse, String>,
)
    requires
        call_ensures(Response::success, (id, encoded), a),
        call_ensures(SessionCtlResponse::success, (id, encoded), b),
    ensures
        a is Ok <==> encoded is Ok,
        b is Ok <==> encoded is Ok,
        encoded matches Err(e) ==> a == Err::<Response, String>(e),
        encoded matches Err(e) ==> b == Err::<SessionCtlResponse, String>(e),
        a matches Ok(r) ==> r.id == id && r.error is None && r.result is Some,
        b matches Ok(r) ==> r.id == id && r.error is None && r.result is Some,
{
}

} // verus!
