//! The session's control socket.
//!
//! A [`Dispatch`] carries one request from its arrival to its answer. It names
//! what the session is to do next and is advanced with what came of it; when it
//! is finished it holds the effects that are still to be carried out and the
//! answer.

use vstd::prelude::*;
use vstd::string::*;

use crate::buffer::ShmFormat;
use crate::codec::{frame_len, DecodeError};
use crate::messages::{
    Double, InjectOp, KeyState, RecordStatusResponse, RecordingCodec, SessionCtlInfo,
    SessionCtlMethod, SessionCtlRecordStarted, SessionCtlRequest, SessionCtlResponse,
    SessionCtlScreenshot, SessionCtlWindows, TouchPhase, ViewerStarted, ViewerStatusResponse,
    WindowInfo,
};
use crate::record_start::{RecordAction, RecordJob, RecordReply, Recording};
use crate::screenshot::encode_png;
use crate::text::dec_u64;
use crate::viewer::{teardown, TeardownStep, Viewer, ViewerAction, ViewerJob, ViewerReply};
#[allow(unused_imports)]
use crate::bytes::be32_value;
#[allow(unused_imports)]
use crate::codec::MAX_FRAME_SIZE;
#[allow(unused_imports)]
use crate::messages::CaptureMode;
#[allow(unused_imports)]
use crate::msgpack::msgpack_value;
#[allow(unused_imports)]
use crate::record_start::{entered, RecordPlan, RecordStage};
#[allow(unused_imports)]
use crate::screenshot::encoded_png;
#[allow(unused_imports)]
use crate::text::decimal;
#[allow(unused_imports)]
use crate::viewer::{teardown_steps, ViewerStage};

verus! {

/// An empty result.
#[derive(Debug, Clone, Copy, PartialEq, Eq, Structural)]
pub struct Unit {}

/// What a session can have at most one of.
#[derive(Debug, Clone)]
pub struct Slots {
    pub recording: Option<Recording>,
    pub viewer: Option<Viewer>,
}

/// A captured picture.
#[derive(Debug)]
pub struct Capture {
    pub pixels: Vec<u8>,
    pub width: i32,
    pub height: i32,
    pub format: ShmFormat,
    pub stride: i32,
}

/// An input event for a client.
#[derive(Debug, Clone, Copy, PartialEq, Eq)]
pub enum Injection {
    Key { keycode: u32, pressed: bool, modifiers: u32 },
    Pointer {
        window_id: Option<u32>,
        content: bool,
        x: Double,
        y: Double,
        button: u32,
        pressed: bool,
        axis_x: Double,
        axis_y: Double,
        seq: u32,
    },
    Touch {
        window_id: Option<u32>,
        content: bool,
        id: u32,
        x: Double,
        y: Double,
        phase: TouchPhase,
    },
}

/// The value of a successful answer.
#[derive(Debug)]
pub enum Payload {
    Unit(Unit),
    Info(SessionCtlInfo),
    Windows(SessionCtlWindows),
    Screenshot(SessionCtlScreenshot),
    RecordStarted(SessionCtlRecordStarted),
    RecordStatus(RecordStatusResponse),
    ViewerStarted(ViewerStarted),
    ViewerStatus(ViewerStatusResponse),
}

/// Something that is to be done without anything being asked back.
#[derive(Debug)]
pub enum Effect {
    /// Change the logical size, and tell the clients.
    Resize { width: u32, height: u32 },
    /// Tell the recorders to stop and wake them.
    StopRecording(Recording),
    /// Take the viewer down by these steps.
    StopViewer(Viewer, Vec<TeardownStep>),
    /// Wake whoever waits for the session to end.
    NotifyShutdown,
}

/// What the session is asked for.
#[derive(Debug)]
pub enum Action {
    ReadInfo,
    ListWindows,
    CaptureWindow { window_id: u32 },
    CaptureDesktop,
    Inject(Injection),
    Record(RecordAction),
    Viewer(ViewerAction),
    Nothing,
}

/// What came of it.
#[derive(Debug)]
pub enum Reply {
    Info(SessionCtlInfo),
    Windows(Vec<WindowInfo>),
    Captured(Option<Capture>),
    /// Whether a client received the input.
    Delivered(bool),
    Record(RecordReply),
    Viewer(ViewerReply),
}

/// How far a request has come.
#[derive(Debug)]
pub enum Stage {
    Info,
    Windows,
    Window { window_id: u32 },
    Desktop,
    /// One input event, which some client must receive.
    Inject(InjectOp),
    /// Input events of which `next` have been handed out.
    Batch { ops: Vec<InjectOp>, next: usize, delivered: usize },
    Record(RecordJob),
    Viewer(ViewerJob),
    Finished { effects: Vec<Effect>, outcome: Result<Payload, String> },
}

/// A request in progress.
#[derive(Debug)]
pub struct Dispatch {
    pub id: u32,
    pub stage: Stage,
}

/// The event that an operation stands for.
pub open spec fn injection_of(op: InjectOp) -> Injection {
    match op {
        InjectOp::Key { keycode, state, modifiers } => Injection::Key {
            keycode,
            pressed: state == KeyState::Pressed,
            modifiers,
        },
        InjectOp::Pointer {
            x,
            y,
            button,
            state,
            axis_x,
            axis_y,
            window_id,
            content,
            seq,
        } => Injection::Pointer {
            window_id,
            content,
            x,
            y,
            button,
            pressed: state == KeyState::Pressed,
            axis_x,
            axis_y,
            seq,
        },
        InjectOp::Touch { id, x, y, phase, window_id, content } => Injection::Touch {
            window_id,
            content,
            id,
            x,
            y,
            phase,
        },
    }
}

/// The event that an operation stands for.
pub fn injection(op: InjectOp) -> (r: Injection)
    ensures
        r == injection_of(op),
{
    match op {
        InjectOp::Key { keycode, state, modifiers } => Injection::Key {
            keycode,
            pressed: state == KeyState::Pressed,
            modifiers,
        },
        InjectOp::Pointer {
            x,
            y,
            button,
            state,
            axis_x,
            axis_y,
            window_id,
            content,
            seq,
        } => Injection::Pointer {
            window_id,
            content,
            x,
            y,
            button,
            pressed: state == KeyState::Pressed,
            axis_x,
            axis_y,
            seq,
        },
        InjectOp::Touch { id, x, y, phase, window_id, content } => Injection::Touch {
            window_id,
            content,
            id,
            x,
            y,
            phase,
        },
    }
}

/// What a client lacks that should have received the event.
pub open spec fn undelivered_text(op: InjectOp) -> Seq<char> {
    match op {
        InjectOp::Key { .. } => "no focused client with a wl_keyboard to deliver the event to"@,
        InjectOp::Pointer { .. } => "no focused client with a wl_pointer to deliver the event to"@,
        InjectOp::Touch { .. } => "no target client with a wl_touch to deliver the event to"@,
    }
}

fn undelivered(op: InjectOp) -> (r: String)
    ensures
        r@ == undelivered_text(op),
{
    match op {
        InjectOp::Key { .. } => String::from_str(
            "no focused client with a wl_keyboard to deliver the event to",
        ),
        InjectOp::Pointer { .. } => String::from_str(
            "no focused client with a wl_pointer to deliver the event to",
        ),
        InjectOp::Touch { .. } => String::from_str(
            "no target client with a wl_touch to deliver the event to",
        ),
    }
}

/// Wire name of a codec, as the status of a recording reports it.
pub fn codec_to_kebab(codec: RecordingCodec) -> (r: String)
    ensures
        r@ == codec.wire(),
{
    String::from_str(codec.wire_name())
}

/// Whether the status says what is known of the recording.
pub open spec fn is_status_of(recording: Option<Recording>, r: RecordStatusResponse) -> bool {
    match recording {
        None => r == (RecordStatusResponse {
            recording: false,
            path: None,
            secondary_path: None,
            codec: None,
        }),
        Some(rec) => {
            &&& r.recording
            &&& (r.path matches Some(p) && p@ == rec.primary.path@)
            &&& match rec.secondary {
                Some(s) => r.secondary_path matches Some(p) && p@ == s.path@,
                None => r.secondary_path is None,
            }
            &&& (r.codec matches Some(c) && c@ == rec.primary.codec.wire())
        },
    }
}

/// State of the recording.
pub fn record_status(recording: &Option<Recording>) -> (r: RecordStatusResponse)
    ensures
        is_status_of(*recording, r),
{
    match recording {
        None => RecordStatusResponse::default(),
        Some(rec) => RecordStatusResponse {
            recording: true,
            path: Some(rec.primary.path.clone()),
            secondary_path: match &rec.secondary {
                Some(s) => Some(s.path.clone()),
                None => None,
            },
            codec: Some(codec_to_kebab(rec.primary.codec)),
        },
    }
}

/// Whether the answer to a screenshot request is the one for `capture`;
/// `missing` tells why there is none.
pub open spec fn is_screenshot_of(
    capture: Option<Capture>,
    missing: Seq<char>,
    outcome: Result<Payload, String>,
) -> bool {
    match capture {
        None => outcome matches Err(e) && e@ == missing,
        Some(c) => match encoded_png(c.pixels@, c.width, c.height, c.stride, c.format) {
            Ok(file) => outcome matches Ok(Payload::Screenshot(s)) && s.width == c.width && s.height
                == c.height && s.png@ == file,
            Err(text) => outcome matches Err(e) && e@ == "encode png: "@ + text,
        },
    }
}

/// The answer to a screenshot request.
pub fn screenshot(capture: Option<Capture>, missing: String) -> (r: Result<Payload, String>)
    ensures
        is_screenshot_of(capture, missing@, r),
{
    match capture {
        None => Err(missing),
        Some(c) => match encode_png(c.pixels.as_slice(), c.width, c.height, c.stride, c.format) {
            Ok(png) => Ok(
                Payload::Screenshot(
                    SessionCtlScreenshot { width: c.width as u32, height: c.height as u32, png },
                ),
            ),
            Err(text) => {
                let mut e: String = String::from_str("encode png: ");
                e.append(text.as_str());
                Err(e)
            },
        },
    }
}

/// The effects of taking down what the slots hold: the recording first, then
/// the viewer.
pub open spec fn shutdown_effects(slots: Slots, effects: Seq<Effect>) -> bool {
    let r: int = if slots.recording is Some {
        1
    } else {
        0
    };
    let v: int = if slots.viewer is Some {
        1
    } else {
        0
    };
    &&& effects.len() == r + v + 1
    &&& slots.recording matches Some(rec) ==> effects[0] == Effect::StopRecording(rec)
    &&& slots.viewer matches Some(w) ==> (effects[r] matches Effect::StopViewer(x, steps) && x == w
        && steps@ == teardown_steps(false))
    &&& effects.last() == Effect::NotifyShutdown
}

impl Stage {
    /// Whether the request is answered with that failure and nothing more is to
    /// be done.
    pub open spec fn refused_with(self, text: Seq<char>) -> bool {
        self matches Stage::Finished { effects, outcome: Err(e) } && effects@.len() == 0 && e@
            == text
    }

    /// Whether the request is answered with success and an empty result.
    pub open spec fn acknowledged(self) -> bool {
        self matches Stage::Finished { outcome: Ok(Payload::Unit(_)), .. }
    }

    /// Whether the request is answered with that outcome, after no effects.
    pub open spec fn answered(self, outcome: Result<Payload, String>) -> bool {
        self matches Stage::Finished { effects, outcome: o } && effects@.len() == 0 && o == outcome
    }

    /// The request's effects.
    pub open spec fn effects(self) -> Seq<Effect> {
        match self {
            Stage::Finished { effects, .. } => effects@,
            _ => Seq::empty(),
        }
    }

    fn answer(outcome: Result<Payload, String>) -> (r: Stage)
        ensures
            r.answered(outcome),
    {
        Stage::Finished { effects: Vec::new(), outcome }
    }

    fn acknowledge(effects: Vec<Effect>) -> (r: Stage)
        ensures
            r.acknowledged(),
            r.effects() == effects@,
    {
        Stage::Finished { effects, outcome: Ok(Payload::Unit(Unit {  })) }
    }
}

/// The stage of a job that may be over.
pub open spec fn record_stage_follows(job: RecordJob, stage: Stage) -> bool {
    match job.stage {
        RecordStage::Started => stage matches Stage::Finished {
            effects,
            outcome: Ok(Payload::RecordStarted(s)),
        } && effects@.len() == 0 && s.path == job.primary && s.secondary_path == job.secondary,
        RecordStage::Failed(e) => stage.answered(Err(e)),
        _ => stage == Stage::Record(job),
    }
}

fn record_stage(job: RecordJob) -> (r: Stage)
    requires
        job.wf(),
    ensures
        record_stage_follows(job, r),
{
    match job.stage {
        RecordStage::Started => Stage::answer(
            Ok(
                Payload::RecordStarted(
                    SessionCtlRecordStarted { path: job.primary, secondary_path: job.secondary },
                ),
            ),
        ),
        RecordStage::Failed(e) => Stage::answer(Err(e)),
        _ => Stage::Record(job),
    }
}

/// The stage of a job that may be over.
pub open spec fn viewer_stage_follows(job: ViewerJob, stage: Stage) -> bool {
    match job.stage {
        ViewerStage::Started => stage matches Stage::Finished {
            effects,
            outcome: Ok(Payload::ViewerStarted(s)),
        } && effects@.len() == 0 && s.url == job.url,
        ViewerStage::Failed(e) => stage.answered(Err(e)),
        _ => stage == Stage::Viewer(job),
    }
}

fn viewer_stage(job: ViewerJob) -> (r: Stage)
    ensures
        viewer_stage_follows(job, r),
{
    match job.stage {
        ViewerStage::Started => Stage::answer(
            Ok(Payload::ViewerStarted(ViewerStarted { url: job.url })),
        ),
        ViewerStage::Failed(e) => Stage::answer(Err(e)),
        _ => Stage::Viewer(job),
    }
}

/// What a request sets in motion, and what it takes out of the slots at once.
pub open spec fn dispatched(
    method: SessionCtlMethod,
    slots: Slots,
    stage: Stage,
    next: Slots,
) -> bool {
    match method {
        SessionCtlMethod::Info => stage is Info && next == slots,
        SessionCtlMethod::ListWindows => stage is Windows && next == slots,
        SessionCtlMethod::Resize { width, height } => stage.acknowledged() && stage.effects()
            == seq![Effect::Resize { width, height }] && next == slots,
        SessionCtlMethod::Screenshot { window_id } => stage == (Stage::Window { window_id }) && next
            == slots,
        SessionCtlMethod::ScreenshotDesktop => stage is Desktop && next == slots,
        SessionCtlMethod::InjectKey { keycode, state, modifiers } => stage == Stage::Inject(
            InjectOp::Key { keycode, state, modifiers },
        ) && next == slots,
        SessionCtlMethod::InjectPointer {
            x,
            y,
            button,
            state,
            axis_x,
            axis_y,
            window_id,
            content,
        } => stage == Stage::Inject(
            InjectOp::Pointer {
                x,
                y,
                button,
                state,
                axis_x,
                axis_y,
                window_id,
                content,
                seq: 0,
            },
        ) && next == slots,
        SessionCtlMethod::InjectTouch { id, x, y, phase, window_id, content } => stage
            == Stage::Inject(InjectOp::Touch { id, x, y, phase, window_id, content }) && next
            == slots,
        SessionCtlMethod::InjectBatch { ops } => next == slots && if ops@.len() == 0 {
            stage.acknowledged() && stage.effects().len() == 0
        } else {
            stage == (Stage::Batch { ops, next: 0, delivered: 0 })
        },
        SessionCtlMethod::Shutdown => stage.acknowledged() && shutdown_effects(
            slots,
            stage.effects(),
        ) && next == (Slots { recording: None, viewer: None }),
        SessionCtlMethod::RecordStart { path, codec, secondary_codec, mode, min_fps } => next
            == slots && exists|job: RecordJob|
            {
                &&& #[trigger] record_stage_follows(job, stage)
                &&& job.plan == RecordPlan {
                    codec: match codec {
                        Some(c) => c,
                        None => RecordingCodec::Ffv1,
                    },
                    secondary_codec,
                    mode: match mode {
                        Some(m) => m,
                        None => CaptureMode::FocusedWindow,
                    },
                    min_fps,
                }
                &&& match path {
                    Some(p) => job.primary == p && entered(p@, job.stage),
                    None => job.stage is DefaultPath,
                }
            },
        SessionCtlMethod::RecordStatus => next == slots && (stage matches Stage::Finished {
            effects,
            outcome: Ok(Payload::RecordStatus(s)),
        } && effects@.len() == 0 && is_status_of(slots.recording, s)),
        SessionCtlMethod::RecordStop => next.viewer == slots.viewer && next.recording is None
            && match slots.recording {
            None => stage.refused_with("not currently recording"@),
            Some(rec) => stage.acknowledged() && stage.effects() == seq![
                Effect::StopRecording(rec),
            ],
        },
        SessionCtlMethod::ViewerStart { bind, port } => next == slots && (
        stage matches Stage::Viewer(job) && job.bind == bind && job.port == port
            && job.stage is Claim),
        SessionCtlMethod::ViewerStop => next.recording == slots.recording && next.viewer is None
            && stage.acknowledged() && match slots.viewer {
            None => stage.effects().len() == 0,
            Some(v) => stage.effects().len() == 1 && (
            stage.effects()[0] matches Effect::StopViewer(w, steps) && w == v && steps@
                == teardown_steps(true)),
        },
        SessionCtlMethod::ViewerStatus => next == slots && (stage matches Stage::Finished {
            effects,
            outcome: Ok(Payload::ViewerStatus(s)),
        } && effects@.len() == 0 && match slots.viewer {
            None => s.url is None,
            Some(v) => s.url matches Some(u) && u@ == v.url@,
        }),
    }
}

fn shut_down(slots: &mut Slots) -> (r: Stage)
    ensures
        r.acknowledged(),
        shutdown_effects(*old(slots), r.effects()),
        *final(slots) == (Slots { recording: None, viewer: None }),
{
    let mut effects: Vec<Effect> = Vec::new();
    match slots.recording.take() {
        Some(rec) => {
            effects.push(Effect::StopRecording(rec));
        },
        None => {},
    }
    match slots.viewer.take() {
        Some(v) => {
            effects.push(Effect::StopViewer(v, teardown(false)));
        },
        None => {},
    }
    effects.push(Effect::NotifyShutdown);
    Stage::acknowledge(effects)
}

/// Takes a request.
pub fn dispatch(req: SessionCtlRequest, slots: &mut Slots) -> (r: Dispatch)
    ensures
        r.id == req.id,
        r.wf(),
        dispatched(req.method, *old(slots), r.stage, *final(slots)),
{
    let id: u32 = req.id;
    let stage = match req.method {
        SessionCtlMethod::Info => Stage::Info,
        SessionCtlMethod::ListWindows => Stage::Windows,
        SessionCtlMethod::Resize { width, height } => {
            let mut effects: Vec<Effect> = Vec::new();
            effects.push(Effect::Resize { width, height });
            assert(effects@ =~= seq![Effect::Resize { width, height }]);
            Stage::acknowledge(effects)
        },
        SessionCtlMethod::Screenshot { window_id } => Stage::Window { window_id },
        SessionCtlMethod::ScreenshotDesktop => Stage::Desktop,
        SessionCtlMethod::InjectKey { keycode, state, modifiers } => Stage::Inject(
            InjectOp::Key { keycode, state, modifiers },
        ),
        SessionCtlMethod::InjectPointer {
            x,
            y,
            button,
            state,
            axis_x,
            axis_y,
            window_id,
            content,
        } => Stage::Inject(
            InjectOp::Pointer {
                x,
                y,
                button,
                state,
                axis_x,
                axis_y,
                window_id,
                content,
                seq: 0,
            },
        ),
        SessionCtlMethod::InjectTouch { id, x, y, phase, window_id, content } => Stage::Inject(
            InjectOp::Touch { id, x, y, phase, window_id, content },
        ),
        SessionCtlMethod::InjectBatch { ops } => if ops.len() == 0 {
            Stage::acknowledge(Vec::new())
        } else {
            Stage::Batch { ops, next: 0, delivered: 0 }
        },
        SessionCtlMethod::Shutdown => shut_down(slots),
        SessionCtlMethod::RecordStart { path, codec, secondary_codec, mode, min_fps } => {
            let job = RecordJob::begin(path, codec, secondary_codec, mode, min_fps);
            let ghost started = job;
            let stage = record_stage(job);
            assert(record_stage_follows(started, stage));
            stage
        },
        SessionCtlMethod::RecordStatus => Stage::answer(
            Ok(Payload::RecordStatus(record_status(&slots.recording))),
        ),
        SessionCtlMethod::RecordStop => match slots.recording.take() {
            None => Stage::answer(Err(String::from_str("not currently recording"))),
            Some(rec) => {
                let mut effects: Vec<Effect> = Vec::new();
                effects.push(Effect::StopRecording(rec));
                assert(effects@ =~= seq![Effect::StopRecording(rec)]);
                Stage::acknowledge(effects)
            },
        },
        SessionCtlMethod::ViewerStart { bind, port } => Stage::Viewer(ViewerJob::begin(bind, port)),
        SessionCtlMethod::ViewerStop => {
            let mut effects: Vec<Effect> = Vec::new();
            match slots.viewer.take() {
                Some(v) => {
                    effects.push(Effect::StopViewer(v, teardown(true)));
                },
                None => {},
            }
            Stage::acknowledge(effects)
        },
        SessionCtlMethod::ViewerStatus => {
            let url: Option<String> = match &slots.viewer {
                Some(v) => Some(v.url.clone()),
                None => None,
            };
            Stage::answer(Ok(Payload::ViewerStatus(ViewerStatusResponse { url })))
        },
    };
    Dispatch { id, stage }
}

impl Dispatch {
    /// A batch has operations left, and a start of a recording is in order.
    pub open spec fn wf(self) -> bool {
        match self.stage {
            Stage::Batch { ops, next, delivered } => next < ops@.len() && delivered <= next,
            Stage::Record(job) => job.wf(),
            _ => true,
        }
    }

    /// What the session is asked for.
    pub fn action(&self) -> (r: Action)
        requires
            self.wf(),
        ensures
            match self.stage {
                Stage::Info => r is ReadInfo,
                Stage::Windows => r is ListWindows,
                Stage::Window { window_id } => r == (Action::CaptureWindow { window_id }),
                Stage::Desktop => r is CaptureDesktop,
                Stage::Inject(op) => r == Action::Inject(injection_of(op)),
                Stage::Batch { ops, next, .. } => r == Action::Inject(
                    injection_of(ops@[next as int]),
                ),
                Stage::Record(job) => r matches Action::Record(a) && call_ensures(
                    RecordJob::action,
                    (&job,),
                    a,
                ),
                Stage::Viewer(job) => r matches Action::Viewer(a) && call_ensures(
                    ViewerJob::action,
                    (&job,),
                    a,
                ),
                Stage::Finished { .. } => r is Nothing,
            },
    {
        match &self.stage {
            Stage::Info => Action::ReadInfo,
            Stage::Windows => Action::ListWindows,
            Stage::Window { window_id } => Action::CaptureWindow { window_id: *window_id },
            Stage::Desktop => Action::CaptureDesktop,
            Stage::Inject(op) => Action::Inject(injection(*op)),
            Stage::Batch { ops, next, .. } => Action::Inject(injection(ops[*next])),
            Stage::Record(job) => Action::Record(job.action()),
            Stage::Viewer(job) => Action::Viewer(job.action()),
            Stage::Finished { .. } => Action::Nothing,
        }
    }

    /// What the reply makes of the request and of the slots. A reply that does
    /// not answer what was asked changes nothing.
    pub open spec fn follows(self, slots: Slots, reply: Reply, next: Dispatch, next_slots: Slots) -> bool {
        &&& next.id == self.id
        &&& match (self.stage, reply) {
            (Stage::Info, Reply::Info(info)) => next_slots == slots && next.stage.answered(
                Ok(Payload::Info(info)),
            ),
            (Stage::Windows, Reply::Windows(windows)) => next_slots == slots && next.stage.answered(
                Ok(Payload::Windows(SessionCtlWindows { windows })),
            ),
            (Stage::Window { window_id }, Reply::Captured(c)) => next_slots == slots && (
            next.stage matches Stage::Finished { effects, outcome } && effects@.len() == 0
                && is_screenshot_of(
                c,
                "no committed buffer for window "@ + decimal(window_id as int),
                outcome,
            )),
            (Stage::Desktop, Reply::Captured(c)) => next_slots == slots && (
            next.stage matches Stage::Finished { effects, outcome } && effects@.len() == 0
                && is_screenshot_of(c, "no windows available to composite"@, outcome)),
            (Stage::Inject(op), Reply::Delivered(delivered)) => next_slots == slots
                && if delivered {
                next.stage.acknowledged() && next.stage.effects().len() == 0
            } else {
                next.stage.refused_with(undelivered_text(op))
            },
            (Stage::Batch { ops, next: n, delivered: d }, Reply::Delivered(delivered)) => next_slots
                == slots && if n + 1 < ops@.len() {
                next.stage == (Stage::Batch {
                    ops,
                    next: (n + 1) as usize,
                    delivered: if delivered {
                        (d + 1) as usize
                    } else {
                        d
                    },
                })
            } else {
                next.stage.acknowledged() && next.stage.effects().len() == 0
            },
            (Stage::Record(job), Reply::Record(a)) => next_slots.viewer == slots.viewer && exists|
                j: RecordJob,
            |
                #[trigger] job.follows(slots.recording, a, j, next_slots.recording)
                    && record_stage_follows(j, next.stage),
            (Stage::Viewer(job), Reply::Viewer(a)) => next_slots.recording == slots.recording
                && exists|j: ViewerJob| #[trigger]
                job.follows(slots.viewer, a, j, next_slots.viewer) && viewer_stage_follows(
                    j,
                    next.stage,
                ),
            _ => next == self && next_slots == slots,
        }
    }

    /// Takes a reply.
    pub fn advance(self, slots: &mut Slots, reply: Reply) -> (r: Dispatch)
        requires
            self.wf(),
        ensures
            r.wf(),
            self.follows(*old(slots), reply, r, *final(slots)),
    {
        let id: u32 = self.id;
        let stage = match (self.stage, reply) {
            (Stage::Info, Reply::Info(info)) => Stage::answer(Ok(Payload::Info(info))),
            (Stage::Windows, Reply::Windows(windows)) => Stage::answer(
                Ok(Payload::Windows(SessionCtlWindows { windows })),
            ),
            (Stage::Window { window_id }, Reply::Captured(c)) => {
                let mut missing: String = String::from_str("no committed buffer for window ");
                missing.append(dec_u64(window_id as u64).as_str());
                Stage::answer(screenshot(c, missing))
            },
            (Stage::Desktop, Reply::Captured(c)) => Stage::answer(
                screenshot(c, String::from_str("no windows available to composite")),
            ),
            (Stage::Inject(op), Reply::Delivered(delivered)) => if delivered {
                Stage::acknowledge(Vec::new())
            } else {
                Stage::answer(Err(undelivered(op)))
            },
            (Stage::Batch { ops, next, delivered: d }, Reply::Delivered(delivered)) => {
                let n: usize = ops.len();
                if n - next > 1 {
                    Stage::Batch {
                        ops,
                        next: next + 1,
                        delivered: if delivered {
                            d + 1
                        } else {
                            d
                        },
                    }
                } else {
                    Stage::acknowledge(Vec::new())
                }
            },
            (Stage::Record(job), Reply::Record(a)) => {
                let ghost before = slots.recording;
                let j = job.advance(&mut slots.recording, a);
                assert(job.follows(before, a, j, slots.recording));
                record_stage(j)
            },
            (Stage::Viewer(job), Reply::Viewer(a)) => {
                let ghost before = slots.viewer;
                let j = job.advance(&mut slots.viewer, a);
                assert(job.follows(before, a, j, slots.viewer));
                viewer_stage(j)
            },
            (stage, _) => stage,
        };
        Dispatch { id, stage }
    }

    /// Whether the slots are to stay locked until the next reply.
    pub fn holds_slots(&self) -> (r: bool)
        ensures
            r == match self.stage {
                Stage::Record(job) => job.stage is SpawnPrimary || job.stage is SpawnSecondary
                    || job.stage is RollBack,
                Stage::Viewer(job) => !(job.stage is Claim),
                _ => false,
            },
    {
        match &self.stage {
            Stage::Record(job) => match &job.stage {
                RecordStage::SpawnPrimary => true,
                RecordStage::SpawnSecondary => true,
                RecordStage::RollBack(_) => true,
                _ => false,
            },
            Stage::Viewer(job) => match &job.stage {
                ViewerStage::Claim => false,
                _ => true,
            },
            _ => false,
        }
    }
}

/// Whether the answer carries the id of its request and is either a success with
/// a result or a failure with an error.
pub open spec fn well_formed_response(id: u32, r: SessionCtlResponse) -> bool {
    &&& r.id == id
    &&& r.ok <==> r.result is Some
    &&& r.ok <==> r.error is None
}

/// The answer to a request. `to_msgpack` serialises a result; where it fails,
/// its error is the answer, and where what it wrote holds no value there is no
/// answer.
pub fn respond<F: FnOnce(&Payload) -> Result<Vec<u8>, String>>(
    id: u32,
    outcome: Result<Payload, String>,
    to_msgpack: F,
) -> (r: Option<SessionCtlResponse>)
    requires
        forall|p: &Payload| #[trigger] call_requires(to_msgpack, (p,)),
    ensures
        r matches Some(s) ==> well_formed_response(id, s),
        match outcome {
            Err(e) => r == Some(
                SessionCtlResponse { id, ok: false, result: None, error: Some(e) },
            ),
            Ok(p) => exists|encoded: Result<Vec<u8>, String>| #[trigger]
                call_ensures(to_msgpack, (&p,), encoded) && match encoded {
                    Ok(b) => match msgpack_value(b@) {
                        Some(v) => r matches Some(s) && s.carries(id, v),
                        None => r is None,
                    },
                    Err(e) => r == Some(
                        SessionCtlResponse { id, ok: false, result: None, error: Some(e) },
                    ),
                },
        },
{
    match outcome {
        Err(e) => Some(SessionCtlResponse::failure(id, e)),
        Ok(p) => {
            let encoded: Result<Vec<u8>, String> = to_msgpack(&p);
            match SessionCtlResponse::checked_success(id, encoded) {
                Some(Ok(r)) => Some(r),
                Some(Err(e)) => Some(SessionCtlResponse::failure(id, e)),
                None => None,
            }
        },
    }
}

/// Whether a connection is served: only those of this user's processes are.
/// `peer` is the user at the other end, where it could be found out.
pub fn admits_peer(my_uid: u32, peer: Option<u32>) -> (r: bool)
    ensures
        r == (peer == Some(my_uid)),
{
    match peer {
        Some(uid) => uid == my_uid,
        None => false,
    }
}

/// How reading the prefix of the next frame went.
#[derive(Debug)]
pub enum HeaderRead {
    Bytes([u8; 4]),
    /// The other side closed the connection.
    Eof,
    Failed,
}

/// What follows for the connection.
#[derive(Debug)]
pub enum FrameStep {
    /// Read that many bytes more, behind the prefix.
    ReadPayload { len: usize },
    /// The connection is over.
    Close,
    /// The connection is broken off.
    Fail(String),
}

/// Decides what follows the prefix of a frame.
pub fn read_frame(header: HeaderRead) -> (r: FrameStep)
    ensures
        match header {
            HeaderRead::Eof => r is Close,
            HeaderRead::Failed => r matches FrameStep::Fail(f) && f@
                == "read session-ctl frame length"@,
            HeaderRead::Bytes(b) => if be32_value(b@) > MAX_FRAME_SIZE {
                r matches FrameStep::Fail(f) && f@ == "session-ctl frame too large: "@ + decimal(
                    be32_value(b@),
                )
            } else {
                r == (FrameStep::ReadPayload { len: be32_value(b@) as usize })
            },
        },
{
    match header {
        HeaderRead::Eof => FrameStep::Close,
        HeaderRead::Failed => FrameStep::Fail(String::from_str("read session-ctl frame length")),
        HeaderRead::Bytes(b) => match frame_len(b.as_slice()) {
            Ok(len) => FrameStep::ReadPayload { len },
            Err(DecodeError::TooLarge(len)) => {
                let mut f: String = String::from_str("session-ctl frame too large: ");
                f.append(dec_u64(len as u64).as_str());
                FrameStep::Fail(f)
            },
            Err(e) => FrameStep::Fail(e.message()),
        },
    }
}

/// Stopping the viewer twice is the same as stopping it once: the second request
/// succeeds, finds nothing to take down and leaves the slots as they are.
pub proof fn viewer_stop_is_idempotent(
    slots: Slots,
    stage1: Stage,
    slots1: Slots,
    stage2: Stage,
    slots2: Slots,
)
    requires
        dispatched(SessionCtlMethod::ViewerStop, slots, stage1, slots1),
        dispatched(SessionCtlMethod::ViewerStop, slots1, stage2, slots2),
    ensures
        stage2.acknowledged(),
        stage2.effects().len() == 0,
        slots2 == slots1,
{
}

/// After a recording is stopped, the status reports none and a second stop is
/// refused.
pub proof fn stopped_recordings_are_gone(
    slots: Slots,
    stage: Stage,
    slots1: Slots,
    method: SessionCtlMethod,
    stage2: Stage,
    slots2: Slots,
)
    requires
        dispatched(SessionCtlMethod::RecordStop, slots, stage, slots1),
        dispatched(method, slots1, stage2, slots2),
    ensures
        method is RecordStatus ==> (stage2 matches Stage::Finished {
            outcome: Ok(Payload::RecordStatus(s)),
            ..
        } && !s.recording),
        method is RecordStop ==> stage2.refused_with("not currently recording"@),
{
}

/// What is asked for and what is entered are reported: the status that follows
/// the start of a recording gives its paths and its codec.
pub proof fn status_reports_what_was_started(
    job: RecordJob,
    slots: Slots,
    reply: RecordReply,
    next: RecordJob,
    slots1: Slots,
    stage: Stage,
    slots2: Slots,
)
    requires
        job.wf(),
        job.follows(slots.recording, reply, next, slots1.recording),
        next.stage is Prime,
        !(job.stage is Prime),
        dispatched(SessionCtlMethod::RecordStatus, slots1, stage, slots2),
    ensures
        stage matches Stage::Finished { outcome: Ok(Payload::RecordStatus(s)), .. } && s.recording
            && s.path->0@ == job.primary@ && s.codec->0@ == job.plan.codec.wire() && (
        s.secondary_path is Some <==> job.plan.secondary_codec is Some),
{
}

/// Shutting down stops what is active and empties the slots, and waiting for the
/// encoder thread is no part of it.
pub proof fn shutdown_leaves_nothing_running(slots: Slots, stage: Stage, next: Slots, i: int)
    requires
        dispatched(SessionCtlMethod::Shutdown, slots, stage, next),
        0 <= i < stage.effects().len(),
    ensures
        next.recording is None,
        next.viewer is None,
        stage.effects()[i] matches Effect::StopViewer(_, steps) ==> !steps@.contains(
            TeardownStep::JoinEncoder,
        ),
        slots.recording matches Some(rec) ==> stage.effects().contains(Effect::StopRecording(rec)),
{
    if slots.recording is Some {
        assert(stage.effects()[0] == Effect::StopRecording(slots.recording->0));
    }
}

/// A batch hands out its operations one after the other, in order, whether or
/// not they are received, and is then acknowledged.
pub proof fn batches_are_handed_out_in_order(
    d: Dispatch,
    slots: Slots,
    delivered: bool,
    next: Dispatch,
    next_slots: Slots,
)
    requires
        d.wf(),
        d.stage is Batch,
        d.follows(slots, Reply::Delivered(delivered), next, next_slots),
    ensures
        if d.stage->next + 1 < d.stage->ops@.len() {
            next.stage is Batch && next.stage->ops == d.stage->ops && next.stage->next
                == d.stage->next + 1
        } else {
            next.stage.acknowledged()
        },
{
    assert(d.stage->ops.len() == d.stage->ops@.len());
}

/// An injected pointer event carries the request's own values, field by field.
pub proof fn pointer_events_carry_their_operation(
    x: Double,
    y: Double,
    button: u32,
    state: KeyState,
    axis_x: Double,
    axis_y: Double,
    window_id: Option<u32>,
    content: bool,
    seq: u32,
)
    ensures
        injection_of(
            InjectOp::Pointer { x, y, button, state, axis_x, axis_y, window_id, content, seq },
        ) matches Injection::Pointer {
            window_id: w,
            content: c,
            x: px,
            y: py,
            button: b,
            pressed,
            axis_x: ax,
            axis_y: ay,
            seq: n,
        } && px == x && py == y && b == button && (pressed <==> state is Pressed) && ax == axis_x
            && ay == axis_y && w == window_id && c == content && n == seq,
{
}

/// An injected key event carries the request's key and modifiers, and is a press
/// exactly where the request says so.
pub proof fn key_events_carry_their_operation(keycode: u32, state: KeyState, modifiers: u32)
    ensures
        injection_of(InjectOp::Key { keycode, state, modifiers }) matches Injection::Key {
            keycode: k,
            pressed,
            modifiers: m,
        } && k == keycode && m == modifiers && (pressed <==> state is Pressed),
{
}

/// An injected touch event carries the request's own values, field by field.
pub proof fn touch_events_carry_their_operation(
    id: u32,
    x: Double,
    y: Double,
    phase: TouchPhase,
    window_id: Option<u32>,
    content: bool,
)
    ensures
        injection_of(InjectOp::Touch { id, x, y, phase, window_id, content }) matches
            Injection::Touch { window_id: w, content: c, id: i, x: tx, y: ty, phase: p } && w
            == window_id && c == content && i == id && tx == x && ty == y && p == phase,
{
}

/// Operations that differ give events that differ.
pub proof fn different_operations_give_different_events(a: InjectOp, b: InjectOp)
    requires
        injection_of(a) == injection_of(b),
    ensures
        a == b,
{
}

/// A request to inject input hands out exactly its own event, unchanged from the
/// request's fields to the session; pointer requests are not numbered.
pub proof fn requests_inject_what_they_ask_for(
    req: SessionCtlRequest,
    d: Dispatch,
    action: Action,
)
    requires
        d.wf(),
        call_ensures(Dispatch::action, (&d,), action),
    ensures
        forall|m: &mut Slots|
            #[trigger] call_ensures(dispatch, (req, m), d) ==> match req.method {
                SessionCtlMethod::InjectKey { keycode, state, modifiers } => action
                    == Action::Inject(
                    Injection::Key { keycode, pressed: state is Pressed, modifiers },
                ),
                SessionCtlMethod::InjectPointer {
                    x,
                    y,
                    button,
                    state,
                    axis_x,
                    axis_y,
                    window_id,
                    content,
                } => action == Action::Inject(
                    Injection::Pointer {
                        window_id,
                        content,
                        x,
                        y,
                        button,
                        pressed: state is Pressed,
                        axis_x,
                        axis_y,
                        seq: 0,
                    },
                ),
                SessionCtlMethod::InjectTouch { id, x, y, phase, window_id, content } => action
                    == Action::Inject(
                    Injection::Touch { window_id, content, id, x, y, phase },
                ),
                SessionCtlMethod::InjectBatch { ops } => ops@.len() > 0 ==> action
                    == Action::Inject(injection_of(ops@[0])),
                SessionCtlMethod::Screenshot { window_id } => action == (Action::CaptureWindow {
                    window_id,
                }),
                SessionCtlMethod::ScreenshotDesktop => action == Action::CaptureDesktop,
                SessionCtlMethod::Info => action == Action::ReadInfo,
                SessionCtlMethod::ListWindows => action == Action::ListWindows,
                _ => true,
            },
{
}

/// A single event that no client received is answered with a refusal that names
/// the device; one that was received is acknowledged. Neither touches the slots.
pub proof fn undelivered_events_are_refused(
    d: Dispatch,
    op: InjectOp,
    slots: Slots,
    delivered: bool,
    next: Dispatch,
    next_slots: Slots,
)
    requires
        d.stage == Stage::Inject(op),
        d.follows(slots, Reply::Delivered(delivered), next, next_slots),
    ensures
        next.id == d.id,
        next_slots == slots,
        next.stage is Finished,
        next.stage->outcome is Ok <==> delivered,
        next.stage->effects@.len() == 0,
        !delivered ==> (next.stage->outcome matches Err(e) && e@ == if op is Key {
            "no focused client with a wl_keyboard to deliver the event to"@
        } else if op is Pointer {
            "no focused client with a wl_pointer to deliver the event to"@
        } else {
            "no target client with a wl_touch to deliver the event to"@
        }),
{
}

/// Asked-for facts come back as they were given: what the session is, which
/// windows it has, and a capture in its own size; a capture that failed names what
/// is missing.
pub proof fn answers_carry_the_reply(
    d: Dispatch,
    slots: Slots,
    reply: Reply,
    next: Dispatch,
    next_slots: Slots,
)
    requires
        d.follows(slots, reply, next, next_slots),
    ensures
        next.id == d.id,
        d.stage is Info ==> (reply matches Reply::Info(info) ==> next_slots == slots && next.stage
            is Finished && next.stage->outcome == Ok::<Payload, String>(Payload::Info(info))),
        d.stage is Windows ==> (reply matches Reply::Windows(windows) ==> next_slots == slots && (
        next.stage matches Stage::Finished { outcome: Ok(Payload::Windows(w)), .. } && w.windows
            == windows)),
        d.stage is Desktop ==> (reply matches Reply::Captured(None) ==> next.stage.refused_with(
            "no windows available to composite"@,
        )),
        d.stage matches Stage::Window { window_id } ==> (reply matches Reply::Captured(None)
            ==> next.stage.refused_with(
            "no committed buffer for window "@ + decimal(window_id as int),
        )),
        d.stage is Window || d.stage is Desktop ==> (reply matches Reply::Captured(Some(c)) ==> (
        next.stage matches Stage::Finished { outcome: Ok(Payload::Screenshot(s)), .. } ==> s.width
            == c.width && s.height == c.height)),
{
}

/// A reply that does not answer what was asked changes nothing.
pub proof fn stray_replies_change_nothing(
    d: Dispatch,
    slots: Slots,
    reply: Reply,
    next: Dispatch,
    next_slots: Slots,
)
    requires
        d.follows(slots, reply, next, next_slots),
        match reply {
            Reply::Info(_) => !(d.stage is Info),
            Reply::Windows(_) => !(d.stage is Windows),
            Reply::Captured(_) => !(d.stage is Window) && !(d.stage is Desktop),
            Reply::Delivered(_) => !(d.stage is Inject) && !(d.stage is Batch),
            Reply::Record(_) => !(d.stage is Record),
            Reply::Viewer(_) => !(d.stage is Viewer),
        },
    ensures
        next == d,
        next_slots == slots,
{
}

/// A batch counts the events that were received, one by one.
pub proof fn batches_count_what_is_delivered(
    d: Dispatch,
    slots: Slots,
    delivered: bool,
    next: Dispatch,
    next_slots: Slots,
)
    requires
        d.wf(),
        d.stage is Batch,
        d.follows(slots, Reply::Delivered(delivered), next, next_slots),
        next.stage is Batch,
    ensures
        delivered ==> next.stage->delivered == d.stage->delivered + 1,
        !delivered ==> next.stage->delivered == d.stage->delivered,
        next_slots == slots,
{
    assert(d.stage->ops.len() == d.stage->ops@.len());
}

/// Resizing asks for the request's own size, and for nothing else.
pub proof fn resizes_ask_for_their_size(
    width: u32,
    height: u32,
    slots: Slots,
    stage: Stage,
    next: Slots,
)
    requires
        dispatched(SessionCtlMethod::Resize { width, height }, slots, stage, next),
    ensures
        next == slots,
        stage is Finished,
        stage->effects@.len() == 1,
        stage->effects@[0] matches Effect::Resize { width: w, height: h } && w == width && h
            == height,
        stage->outcome is Ok,
{
}

/// Stopping takes what it stops out of its slot, hands exactly that on to be
/// stopped, and leaves the other slot alone.
pub proof fn stops_take_what_they_stop(slots: Slots, stage: Stage, next: Slots)
    ensures
        dispatched(SessionCtlMethod::RecordStop, slots, stage, next) ==> {
            &&& next.recording is None
            &&& next.viewer == slots.viewer
            &&& stage is Finished
            &&& stage->outcome is Ok <==> slots.recording is Some
            &&& slots.recording matches Some(rec) ==> stage->effects@.len() == 1
                && stage->effects@[0] == Effect::StopRecording(rec)
            &&& slots.recording is None ==> stage->effects@.len() == 0
        },
        dispatched(SessionCtlMethod::ViewerStop, slots, stage, next) ==> {
            &&& next.viewer is None
            &&& next.recording == slots.recording
            &&& stage is Finished
            &&& stage->outcome is Ok
            &&& slots.viewer matches Some(v) ==> stage->effects@.len() == 1 && (
            stage->effects@[0] matches Effect::StopViewer(w, _) && w == v)
            &&& slots.viewer is None ==> stage->effects@.len() == 0
        },
{
}

/// Asking for a status changes nothing and reports the slots: the viewer's URL,
/// and the recording's paths and codec.
pub proof fn statuses_report_the_slots(slots: Slots, stage: Stage, next: Slots)
    ensures
        dispatched(SessionCtlMethod::ViewerStatus, slots, stage, next) ==> next == slots && (
        stage matches Stage::Finished { outcome: Ok(Payload::ViewerStatus(s)), .. } && (
        s.url is Some <==> slots.viewer is Some) && (slots.viewer matches Some(v) ==> s.url->0@
            == v.url@)),
        dispatched(SessionCtlMethod::RecordStatus, slots, stage, next) ==> next == slots && (
        stage matches Stage::Finished { outcome: Ok(Payload::RecordStatus(s)), .. } && (s.recording
            <==> slots.recording is Some) && (slots.recording matches Some(rec) ==> s.path is Some
            && s.path->0@ == rec.primary.path@ && s.codec is Some && s.codec->0@
            == rec.primary.codec.wire() && (s.secondary_path is Some <==> rec.secondary is Some)
            && (rec.secondary matches Some(second) ==> s.secondary_path->0@ == second.path@)) && (
        slots.recording is None ==> s.path is None && s.secondary_path is None && s.codec is None)),
{
}

/// Shutting down has its effects in order: the recording, the viewer, and last
/// the wake-up of whoever waits for the session to end.
pub proof fn shutdown_takes_down_in_order(slots: Slots, stage: Stage, next: Slots)
    requires
        dispatched(SessionCtlMethod::Shutdown, slots, stage, next),
    ensures
        stage is Finished,
        stage->outcome is Ok,
        stage->effects@.last() == Effect::NotifyShutdown,
        slots.recording matches Some(rec) ==> stage->effects@[0] == Effect::StopRecording(rec),
        slots.viewer matches Some(v) ==> stage->effects@.len() >= 2 && (
        stage->effects@[stage->effects@.len() - 2] matches Effect::StopViewer(w, _) && w == v),
        slots.recording is None && slots.viewer is None ==> stage->effects@.len() == 1,
{
}

/// An answer carries its request's id, succeeds exactly with a result and fails
/// exactly with an error; a failed request is answered with its own error.
pub proof fn answers_say_how_it_went<F: FnOnce(&Payload) -> Result<Vec<u8>, String>>(
    id: u32,
    outcome: Result<Payload, String>,
    to_msgpack: F,
    r: Option<SessionCtlResponse>,
)
    requires
        call_ensures(respond::<F>, (id, outcome, to_msgpack), r),
    ensures
        r matches Some(s) ==> s.id == id && (s.ok <==> s.result is Some) && (s.ok
            <==> s.error is None) && (s.ok ==> outcome is Ok),
        outcome matches Err(e) ==> (r matches Some(s) && !s.ok && s.error == Some(e)),
{
}

/// Only the same user's processes are served.
pub proof fn strangers_are_not_served(my_uid: u32, peer: Option<u32>, r: bool)
    requires
        call_ensures(admits_peer, (my_uid, peer), r),
    ensures
        r ==> peer is Some && peer->0 == my_uid,
        peer matches Some(uid) ==> uid == my_uid ==> r,
{
}

/// After the prefix of a frame exactly as many bytes are read as it says, up to
/// twenty mebibytes; a longer frame breaks the connection off.
pub proof fn prefixes_say_how_much_follows(b: [u8; 4], r: FrameStep)
    requires
        call_ensures(read_frame, (HeaderRead::Bytes(b),), r),
    ensures
        ({
            let n = b@[0] * 0x100_0000 + b@[1] * 0x1_0000 + b@[2] * 0x100 + b@[3];
            if n <= 20 * 1024 * 1024 {
                r matches FrameStep::ReadPayload { len } && len == n
            } else {
                r is Fail
            }
        }),
{
}

/// A request to start a recording is taken as it was asked for, and nothing is
/// touched yet; one whose path has the wrong shape is refused at once.
pub proof fn recordings_start_as_asked(
    path: Option<String>,
    codec: Option<RecordingCodec>,
    secondary_codec: Option<RecordingCodec>,
    mode: Option<CaptureMode>,
    min_fps: Option<u32>,
    slots: Slots,
    stage: Stage,
    next: Slots,
)
    requires
        dispatched(
            SessionCtlMethod::RecordStart { path, codec, secondary_codec, mode, min_fps },
            slots,
            stage,
            next,
        ),
    ensures
        next == slots,
        path is None ==> stage is Record,
        path matches Some(p) ==> (p@.len() == 0 || p@[0] != '/' ==> stage.refused_with(
            "recording path must be absolute"@,
        )),
        stage matches Stage::Record(job) ==> {
            &&& path matches Some(p) ==> job.primary == p
            &&& codec matches Some(c) ==> job.plan.codec == c
            &&& codec is None ==> job.plan.codec == RecordingCodec::Ffv1
            &&& mode matches Some(m) ==> job.plan.mode == m
            &&& mode is None ==> job.plan.mode == CaptureMode::FocusedWindow
            &&& job.plan.secondary_codec == secondary_codec
            &&& job.plan.min_fps == min_fps
        },
{
}

/// A recording that has started is answered with where it is written, once its
/// first frame has been asked for; a start that has failed with why.
pub proof fn started_recordings_are_answered_with_their_files(
    d: Dispatch,
    job: RecordJob,
    slots: Slots,
    e: String,
    next: Dispatch,
    next_slots: Slots,
)
    requires
        d.wf(),
        d.stage == Stage::Record(job),
    ensures
        job.stage is Prime && d.follows(
            slots,
            Reply::Record(RecordReply::Done),
            next,
            next_slots,
        ) ==> next_slots.viewer == slots.viewer && (next.stage matches Stage::Finished {
            outcome: Ok(Payload::RecordStarted(s)),
            ..
        } && s.path == job.primary && s.secondary_path == job.secondary),
        job.stage is SpawnPrimary && d.follows(
            slots,
            Reply::Record(RecordReply::Spawned(Err(e))),
            next,
            next_slots,
        ) ==> next_slots == slots && next.stage.refused_with(e@),
        job.stage is Claim && slots.recording is Some && d.follows(
            slots,
            Reply::Record(RecordReply::Done),
            next,
            next_slots,
        ) ==> next_slots == slots && next.stage.refused_with("already recording"@),
{
}

/// A request to start the viewer is taken with its own address; one that has started
/// is answered with the viewer's address and is in the slot.
pub proof fn started_viewers_are_answered_with_their_address(
    bind: Option<String>,
    port: Option<u16>,
    slots: Slots,
    stage: Stage,
    next_slots: Slots,
    d: Dispatch,
    job: ViewerJob,
    encoder: u64,
    next: Dispatch,
)
    ensures
        dispatched(SessionCtlMethod::ViewerStart { bind, port }, slots, stage, next_slots)
            ==> next_slots == slots && (stage matches Stage::Viewer(j) && j.bind == bind && j.port
            == port && j.stage is Claim),
        d.stage == Stage::Viewer(job) && job.stage is SpawnEncoder && d.follows(
            slots,
            Reply::Viewer(ViewerReply::Encoder(encoder)),
            next,
            next_slots,
        ) ==> next_slots.recording == slots.recording && (next.stage matches Stage::Finished {
            outcome: Ok(Payload::ViewerStarted(s)),
            ..
        } && s.url == job.url) && (next_slots.viewer matches Some(v) && v.encoder == encoder
            && v.bridge == job.bridge && v.url@ == job.url@),
        d.stage == Stage::Viewer(job) && job.stage is Claim && slots.viewer is Some && d.follows(
            slots,
            Reply::Viewer(ViewerReply::Done),
            next,
            next_slots,
        ) ==> next_slots == slots && next.stage.refused_with(
            "viewer already active for this session"@,
        ),
{
}

/// A screenshot is answered with the capture's file, and where it cannot be encoded
/// with why.
pub proof fn screenshots_carry_the_captures_file(
    c: Capture,
    missing: String,
    r: Result<Payload, String>,
)
    requires
        call_ensures(screenshot, (Some(c), missing), r),
    ensures
        encoded_png(c.pixels@, c.width, c.height, c.stride, c.format) matches Ok(file) ==> (
        r matches Ok(Payload::Screenshot(s)) && s.png@ == file && s.width == c.width && s.height
            == c.height),
        encoded_png(c.pixels@, c.width, c.height, c.stride, c.format) matches Err(text) ==> (
        r matches Err(e) && e@ == "encode png: "@ + text),
{
}

/// The slots stay locked exactly while a recorder is being spawned or stopped, and
/// from the claim of the viewer's slot to the end of its start.
pub proof fn slots_are_held_while_they_are_filled(d: Dispatch, r: bool)
    requires
        call_ensures(Dispatch::holds_slots, (&d,), r),
    ensures
        d.stage matches Stage::Record(job) ==> (r <==> job.stage is SpawnPrimary
            || job.stage is SpawnSecondary || job.stage is RollBack),
        d.stage matches Stage::Viewer(job) ==> (r <==> !(job.stage is Claim)),
        !(d.stage is Record) && !(d.stage is Viewer) ==> !r,
{
}

/// A request keeps its id through to its answer, and is finished only with an
/// outcome; a finished one asks for nothing more.
pub proof fn requests_keep_their_id(
    req: SessionCtlRequest,
    d: Dispatch,
    reply: Reply,
    next: Dispatch,
    action: Action,
)
    requires
        d.wf(),
        call_ensures(Dispatch::action, (&d,), action),
    ensures
        forall|m: &mut Slots| #[trigger] call_ensures(dispatch, (req, m), d) ==> d.id == req.id,
        forall|m: &mut Slots|
            #[trigger] call_ensures(Dispatch::advance, (d, m, reply), next) ==> next.id == d.id,
        d.stage is Finished ==> action == Action::Nothing,
        forall|m: &mut Slots|
            d.stage is Finished && #[trigger] call_ensures(Dispatch::advance, (d, m, reply), next)
                ==> next == d && *final(m) == *m,
{
}

/// An operation of a batch is injected like one that stands alone, field by field;
/// the operations follow each other in their order, and the batch is acknowledged
/// behind its last one, whether or not all were delivered.
pub proof fn batches_inject_one_operation_after_another(
    d: Dispatch,
    slots: Slots,
    delivered: bool,
    next: Dispatch,
    next_slots: Slots,
    now: Action,
    later: Action,
    op: InjectOp,
    r: Injection,
)
    requires
        d.wf(),
        next.wf(),
        d.stage is Batch,
        d.follows(slots, Reply::Delivered(delivered), next, next_slots),
        call_ensures(Dispatch::action, (&d,), now),
        call_ensures(Dispatch::action, (&next,), later),
        call_ensures(injection, (op,), r),
    ensures
        now == Action::Inject(injection_of(d.stage->ops@[d.stage->next as int])),
        d.stage->next + 1 < d.stage->ops@.len() ==> later == Action::Inject(
            injection_of(d.stage->ops@[d.stage->next + 1]),
        ),
        d.stage->next + 1 == d.stage->ops@.len() ==> next.stage.acknowledged() && later
            == Action::Nothing,
        op matches InjectOp::Pointer { x, y, axis_x, axis_y, button, state, window_id, content, seq }
            ==> r == (Injection::Pointer {
            x,
            y,
            axis_x,
            axis_y,
            button,
            pressed: state is Pressed,
            window_id,
            content,
            seq,
        }),
        op matches InjectOp::Key { keycode, state, modifiers } ==> r == (Injection::Key {
            keycode,
            pressed: state is Pressed,
            modifiers,
        }),
        op matches InjectOp::Touch { id, x, y, phase, window_id, content } ==> r
            == (Injection::Touch { id, x, y, phase, window_id, content }),
{
    assert(d.stage->ops.len() == d.stage->ops@.len());
}

/// A recording's status is that of its first recorder, with the second one's file
/// where there is one; the codec goes by its wire name.
pub proof fn statuses_describe_the_recording(
    recording: Recording,
    none: RecordStatusResponse,
    r: RecordStatusResponse,
    codec: RecordingCodec,
    name: String,
)
    requires
        call_ensures(record_status, (&None::<Recording>,), none),
        call_ensures(record_status, (&Some(recording),), r),
        call_ensures(codec_to_kebab, (codec,), name),
    ensures
        !none.recording && none.path is None && none.secondary_path is None && none.codec is None,
        r.recording,
        r.path is Some && r.path->0@ == recording.primary.path@,
        r.secondary_path is Some <==> recording.secondary is Some,
        recording.secondary matches Some(s) ==> r.secondary_path->0@ == s.path@,
        codec == recording.primary.codec ==> r.codec is Some && r.codec->0@ == name@,
        codec == RecordingCodec::Ffv1 ==> name@ == "ffv1"@,
{
}

/// An outcome that cannot be written is answered as a failure, with why.
pub proof fn unwritable_answers_say_why<F: FnOnce(&Payload) -> Result<Vec<u8>, String>>(
    id: u32,
    p: Payload,
    to_msgpack: F,
    e: String,
    r: Option<SessionCtlResponse>,
)
    requires
        call_ensures(respond::<F>, (id, Ok::<Payload, String>(p), to_msgpack), r),
        forall|encoded: Result<Vec<u8>, String>|
            #[trigger] call_ensures(to_msgpack, (&p,), encoded) ==> encoded == Err::<
                Vec<u8>,
                String,
            >(e),
    ensures
        r matches Some(s) && s.id == id && !s.ok && s.result is None && s.error == Some(e),
{
}

/// A start that is under way stays one of its own kind until it is answered, and
/// goes on as its job does; it never touches the other kind's slot.
pub proof fn starts_go_on_as_their_job_does(
    d: Dispatch,
    slots: Slots,
    reply: Reply,
    next: Dispatch,
    next_slots: Slots,
)
    requires
        d.wf(),
        d.follows(slots, reply, next, next_slots),
    ensures
        d.stage is Record ==> next_slots.viewer == slots.viewer && (next.stage is Record
            || next.stage is Finished),
        d.stage is Viewer ==> next_slots.recording == slots.recording && (next.stage is Viewer
            || next.stage is Finished),
        d.stage matches Stage::Record(job) ==> (reply matches Reply::Record(a) ==> (
        next.stage matches Stage::Record(j) ==> job.follows(
            slots.recording,
            a,
            j,
            next_slots.recording,
        ) && !(j.stage is Started) && !(j.stage is Failed))),
        d.stage matches Stage::Viewer(job) ==> (reply matches Reply::Viewer(a) ==> (
        next.stage matches Stage::Viewer(j) ==> job.follows(
            slots.viewer,
            a,
            j,
            next_slots.viewer,
        ) && !(j.stage is Started) && !(j.stage is Failed))),
        !(d.stage is Record) && !(d.stage is Viewer) ==> !(next.stage is Record)
            && !(next.stage is Viewer) && next_slots == slots,
{
}

} // verus!
