//! The browser viewer of a session: starting it, taking it down, and ending its
//! bridge process.

use vstd::prelude::*;
use vstd::string::*;

use crate::messages::RecordingCodec;

verus! {

/// An active viewer: a bridge process that serves the picture, and the encoder
/// thread that feeds it.
#[derive(Debug, Clone)]
pub struct Viewer {
    /// What the bridge process and its socket can be reached by.
    pub bridge: u64,
    /// What the encoder thread can be reached by.
    pub encoder: u64,
    pub url: String,
    pub codec: RecordingCodec,
}

/// How far a start has come.
#[derive(Debug)]
pub enum ViewerStage {
    /// The slot is to be looked at.
    Claim,
    /// An encoder is to be chosen.
    SelectCodec,
    /// The session's size is to be read.
    ReadSize,
    /// The bridge is to be spawned.
    SpawnBridge,
    /// The bridge runs; its socket is to be duplicated for the encoder.
    CloneSocket,
    /// The encoder thread is to be spawned.
    SpawnEncoder,
    Started,
    Failed(String),
}

/// What is to be done next.
#[derive(Debug)]
pub enum ViewerAction {
    /// Lock the slots. They stay locked until the job is done.
    LockSlots,
    SelectCodec,
    ReadSize,
    SpawnBridge { bind: Option<String>, port: Option<u16>, width: u32, height: u32 },
    CloneSocket { bridge: u64 },
    SpawnEncoder { codec: RecordingCodec, width: u32, height: u32, socket: u64 },
    Nothing,
}

/// What came of it.
#[derive(Debug)]
pub enum ViewerReply {
    Done,
    /// The encoder to use, if one is available.
    Codec(Option<RecordingCodec>),
    Size { width: u32, height: u32 },
    /// The bridge and the address that it serves.
    Bridge(Result<(u64, String), String>),
    Socket(Result<u64, String>),
    Encoder(u64),
}

/// A start in progress.
#[derive(Debug)]
pub struct ViewerJob {
    pub bind: Option<String>,
    pub port: Option<u16>,
    pub stage: ViewerStage,
    pub codec: RecordingCodec,
    pub width: u32,
    pub height: u32,
    pub bridge: u64,
    pub url: String,
    pub socket: u64,
}

impl ViewerStage {
    /// Whether the start has failed with that text.
    pub open spec fn failed_with(self, text: Seq<char>) -> bool {
        self matches ViewerStage::Failed(e) && e@ == text
    }
}

impl ViewerJob {
    /// Takes a request.
    pub fn begin(bind: Option<String>, port: Option<u16>) -> (r: ViewerJob)
        ensures
            r.bind == bind,
            r.port == port,
            r.stage is Claim,
    {
        ViewerJob {
            bind,
            port,
            stage: ViewerStage::Claim,
            codec: RecordingCodec::H264Nvenc,
            width: 0,
            height: 0,
            bridge: 0,
            url: String::new(),
            socket: 0,
        }
    }

    /// What is to be done next.
    pub fn action(&self) -> (r: ViewerAction)
        ensures
            match self.stage {
                ViewerStage::Claim => r is LockSlots,
                ViewerStage::SelectCodec => r is SelectCodec,
                ViewerStage::ReadSize => r is ReadSize,
                ViewerStage::SpawnBridge => r matches ViewerAction::SpawnBridge {
                    bind,
                    port,
                    width,
                    height,
                } && bind == self.bind && port == self.port && width == self.width && height
                    == self.height,
                ViewerStage::CloneSocket => r == (ViewerAction::CloneSocket {
                    bridge: self.bridge,
                }),
                ViewerStage::SpawnEncoder => r == (ViewerAction::SpawnEncoder {
                    codec: self.codec,
                    width: self.width,
                    height: self.height,
                    socket: self.socket,
                }),
                ViewerStage::Started | ViewerStage::Failed(_) => r is Nothing,
            },
    {
        match &self.stage {
            ViewerStage::Claim => ViewerAction::LockSlots,
            ViewerStage::SelectCodec => ViewerAction::SelectCodec,
            ViewerStage::ReadSize => ViewerAction::ReadSize,
            ViewerStage::SpawnBridge => ViewerAction::SpawnBridge {
                bind: match &self.bind {
                    Some(b) => Some(b.clone()),
                    None => None,
                },
                port: self.port,
                width: self.width,
                height: self.height,
            },
            ViewerStage::CloneSocket => ViewerAction::CloneSocket { bridge: self.bridge },
            ViewerStage::SpawnEncoder => ViewerAction::SpawnEncoder {
                codec: self.codec,
                width: self.width,
                height: self.height,
                socket: self.socket,
            },
            ViewerStage::Started => ViewerAction::Nothing,
            ViewerStage::Failed(_) => ViewerAction::Nothing,
        }
    }

    /// Everything but the stage is the same.
    pub open spec fn same_data(self, other: ViewerJob) -> bool {
        self == (ViewerJob { stage: self.stage, ..other })
    }

    /// What the reply makes of the job and of the slot. A reply that does not
    /// answer what was asked changes nothing.
    pub open spec fn follows(
        self,
        slot: Option<Viewer>,
        reply: ViewerReply,
        next: ViewerJob,
        next_slot: Option<Viewer>,
    ) -> bool {
        match (self.stage, reply) {
            (ViewerStage::Claim, ViewerReply::Done) => next_slot == slot && next.same_data(self)
                && if slot is Some {
                next.stage.failed_with("viewer already active for this session"@)
            } else {
                next.stage is SelectCodec
            },
            (ViewerStage::SelectCodec, ViewerReply::Codec(Some(c))) => next_slot == slot && next == (
            ViewerJob { stage: ViewerStage::ReadSize, codec: c, ..self }),
            (ViewerStage::SelectCodec, ViewerReply::Codec(None)) => next_slot == slot
                && next.same_data(self) && next.stage.failed_with(
                "no viewer-capable encoder available (probed h264-nvenc, h264-vulkan)"@,
            ),
            (ViewerStage::ReadSize, ViewerReply::Size { width, height }) => next_slot == slot
                && next == (ViewerJob { stage: ViewerStage::SpawnBridge, width, height, ..self }),
            (ViewerStage::SpawnBridge, ViewerReply::Bridge(Ok((bridge, url)))) => next_slot == slot
                && next == (ViewerJob { stage: ViewerStage::CloneSocket, bridge, url, ..self }),
            (ViewerStage::SpawnBridge, ViewerReply::Bridge(Err(e))) => next_slot == slot
                && next.same_data(self) && next.stage.failed_with("bridge spawn failed: "@ + e@),
            (ViewerStage::CloneSocket, ViewerReply::Socket(Ok(socket))) => next_slot == slot
                && next == (ViewerJob { stage: ViewerStage::SpawnEncoder, socket, ..self }),
            (ViewerStage::CloneSocket, ViewerReply::Socket(Err(e))) => next_slot == slot
                && next.same_data(self) && next.stage.failed_with("clone socket: "@ + e@),
            (ViewerStage::SpawnEncoder, ViewerReply::Encoder(encoder)) => next.same_data(self)
                && next.stage is Started && (next_slot matches Some(v) && v.bridge == self.bridge
                && v.encoder == encoder && v.url@ == self.url@ && v.codec == self.codec),
            _ => next == self && next_slot == slot,
        }
    }

    fn fail(self, head: &str, e: &str) -> (r: ViewerJob)
        ensures
            r.same_data(self),
            r.stage.failed_with(head@ + e@),
    {
        let mut m: String = String::from_str(head);
        m.append(e);
        let mut job = self;
        job.stage = ViewerStage::Failed(m);
        job
    }

    /// Takes a reply.
    pub fn advance(self, slot: &mut Option<Viewer>, reply: ViewerReply) -> (r: ViewerJob)
        ensures
            self.follows(*old(slot), reply, r, *final(slot)),
    {
        let mut job = self;
        match (&job.stage, reply) {
            (ViewerStage::Claim, ViewerReply::Done) => {
                if slot.is_some() {
                    job.stage = ViewerStage::Failed(
                        String::from_str("viewer already active for this session"),
                    );
                } else {
                    job.stage = ViewerStage::SelectCodec;
                }
                job
            },
            (ViewerStage::SelectCodec, ViewerReply::Codec(Some(c))) => {
                job.codec = c;
                job.stage = ViewerStage::ReadSize;
                job
            },
            (ViewerStage::SelectCodec, ViewerReply::Codec(None)) => {
                job.stage = ViewerStage::Failed(
                    String::from_str(
                        "no viewer-capable encoder available (probed h264-nvenc, h264-vulkan)",
                    ),
                );
                job
            },
            (ViewerStage::ReadSize, ViewerReply::Size { width, height }) => {
                job.width = width;
                job.height = height;
                job.stage = ViewerStage::SpawnBridge;
                job
            },
            (ViewerStage::SpawnBridge, ViewerReply::Bridge(Ok((bridge, url)))) => {
                job.bridge = bridge;
                job.url = url;
                job.stage = ViewerStage::CloneSocket;
                job
            },
            (ViewerStage::SpawnBridge, ViewerReply::Bridge(Err(e))) => job.fail(
                "bridge spawn failed: ",
                e.as_str(),
            ),
            (ViewerStage::CloneSocket, ViewerReply::Socket(Ok(socket))) => {
                job.socket = socket;
                job.stage = ViewerStage::SpawnEncoder;
                job
            },
            (ViewerStage::CloneSocket, ViewerReply::Socket(Err(e))) => job.fail(
                "clone socket: ",
                e.as_str(),
            ),
            (ViewerStage::SpawnEncoder, ViewerReply::Encoder(encoder)) => {
                *slot = Some(
                    Viewer {
                        bridge: job.bridge,
                        encoder,
                        url: job.url.clone(),
                        codec: job.codec,
                    },
                );
                job.stage = ViewerStage::Started;
                job
            },
            _ => job,
        }
    }

    /// What the start came to, once it is over: the address of the viewer, or
    /// why there is none.
    pub fn outcome(self) -> (r: Option<Result<String, String>>)
        ensures
            match self.stage {
                ViewerStage::Started => r matches Some(Ok(url)) && url == self.url,
                ViewerStage::Failed(e) => r matches Some(Err(f)) && f == e,
                _ => r is None,
            },
    {
        match self.stage {
            ViewerStage::Started => Some(Ok(self.url)),
            ViewerStage::Failed(e) => Some(Err(e)),
            _ => None,
        }
    }
}

/// One step of taking a viewer down.
#[derive(Debug, Clone, Copy, PartialEq, Eq, Structural)]
pub enum TeardownStep {
    /// Tell the encoder thread to stop.
    RaiseStopFlag,
    /// Wait for the encoder thread.
    JoinEncoder,
    /// Close the bridge's socket, which tells it to exit.
    CloseSocket,
    /// End the bridge process.
    KillBridge,
}

/// The steps of taking a viewer down, in order. Only a stop on its own waits for
/// the encoder thread: while the session shuts down nothing may block.
pub open spec fn teardown_steps(join: bool) -> Seq<TeardownStep> {
    if join {
        seq![
            TeardownStep::RaiseStopFlag,
            TeardownStep::JoinEncoder,
            TeardownStep::CloseSocket,
            TeardownStep::KillBridge,
        ]
    } else {
        seq![TeardownStep::RaiseStopFlag, TeardownStep::CloseSocket, TeardownStep::KillBridge]
    }
}

/// The steps of taking a viewer down.
pub fn teardown(join: bool) -> (r: Vec<TeardownStep>)
    ensures
        r@ == teardown_steps(join),
{
    let mut v: Vec<TeardownStep> = Vec::new();
    v.push(TeardownStep::RaiseStopFlag);
    if join {
        v.push(TeardownStep::JoinEncoder);
    }
    v.push(TeardownStep::CloseSocket);
    v.push(TeardownStep::KillBridge);
    assert(v@ =~= teardown_steps(join));
    v
}

/// The signal that asks a process to end.
pub const SIGTERM: i32 = 15;

/// How long the bridge process is given to end by itself, in milliseconds.
pub const BRIDGE_GRACE_MS: u64 = 2000;

/// How long to sleep between looking whether the bridge process has ended, in
/// milliseconds.
pub const BRIDGE_POLL_MS: u64 = 100;

/// What looking after a child process found.
#[derive(Debug, Clone, Copy, PartialEq, Eq, Structural)]
pub enum ChildState {
    Exited,
    Running,
    /// It is no longer a child of this process, or was reaped before.
    Lost,
}

/// What is to be done with the bridge process next.
#[derive(Debug, Clone, Copy, PartialEq, Eq, Structural)]
pub enum KillStep {
    /// Nothing: it is gone.
    Gone,
    /// Sleep that long, then look again.
    Sleep { ms: u64 },
    /// Kill it and reap it.
    Kill,
}

/// Decides what is to be done with a bridge process that was asked to end
/// `elapsed_ms` milliseconds ago.
pub fn kill_viewer_child(state: ChildState, elapsed_ms: u64) -> (r: KillStep)
    ensures
        r == if state != ChildState::Running {
            KillStep::Gone
        } else if elapsed_ms >= BRIDGE_GRACE_MS {
            KillStep::Kill
        } else {
            KillStep::Sleep { ms: BRIDGE_POLL_MS }
        },
{
    match state {
        ChildState::Exited => KillStep::Gone,
        ChildState::Lost => KillStep::Gone,
        ChildState::Running => if elapsed_ms >= BRIDGE_GRACE_MS {
            KillStep::Kill
        } else {
            KillStep::Sleep { ms: BRIDGE_POLL_MS }
        },
    }
}

/// While a viewer is active no other one is started: the request fails, and the
/// active viewer stays as it is.
pub proof fn one_viewer_at_a_time(
    job: ViewerJob,
    slot: Option<Viewer>,
    next: ViewerJob,
    next_slot: Option<Viewer>,
)
    requires
        job.stage is Claim,
        slot is Some,
        job.follows(slot, ViewerReply::Done, next, next_slot),
    ensures
        next.stage.failed_with("viewer already active for this session"@),
        next_slot == slot,
{
}

/// A start enters a viewer exactly when it succeeds.
pub proof fn viewers_are_entered_on_success(
    job: ViewerJob,
    slot: Option<Viewer>,
    reply: ViewerReply,
    next: ViewerJob,
    next_slot: Option<Viewer>,
)
    requires
        job.follows(slot, reply, next, next_slot),
        !(job.stage is Started),
    ensures
        next.stage is Started ==> next_slot is Some,
        !(next.stage is Started) ==> next_slot == slot,
{
}

/// However it is taken down, the encoder is told to stop first and the bridge
/// process is ended last.
pub proof fn teardown_flags_first_and_kills_last(join: bool)
    ensures
        teardown_steps(join).first() == TeardownStep::RaiseStopFlag,
        teardown_steps(join).last() == TeardownStep::KillBridge,
        join == teardown_steps(join).contains(TeardownStep::JoinEncoder),
{
    if join {
        assert(teardown_steps(join)[1] == TeardownStep::JoinEncoder);
    }
}

/// A start goes through the slot, the encoder, the size, the bridge and its socket
/// to the encoder's thread, and takes over what each step gave.
pub proof fn viewers_start_step_by_step(
    job: ViewerJob,
    slot: Option<Viewer>,
    reply: ViewerReply,
    next: ViewerJob,
    next_slot: Option<Viewer>,
)
    requires
        job.follows(slot, reply, next, next_slot),
    ensures
        job.stage is Claim && reply is Done && slot is None ==> next.stage is SelectCodec,
        job.stage is SelectCodec ==> (reply matches ViewerReply::Codec(Some(c)) ==> next.stage
            is ReadSize && next.codec == c),
        job.stage is ReadSize ==> (reply matches ViewerReply::Size { width, height } ==> next.stage
            is SpawnBridge && next.width == width && next.height == height),
        job.stage is SpawnBridge ==> (reply matches ViewerReply::Bridge(Ok(b)) ==> next.stage
            is CloneSocket && next.bridge == b.0 && next.url == b.1),
        job.stage is CloneSocket ==> (reply matches ViewerReply::Socket(Ok(s)) ==> next.stage
            is SpawnEncoder && next.socket == s),
        job.stage is SpawnEncoder ==> (reply matches ViewerReply::Encoder(e) ==> next.stage
            is Started && (next_slot matches Some(v) && v.encoder == e && v.bridge == job.bridge
            && v.url@ == job.url@ && v.codec == job.codec)),
        !(job.stage is SpawnEncoder) ==> next_slot == slot,
        next.bind == job.bind && next.port == job.port,
{
}

/// A start that fails says at which step, with the step's own reason, and enters
/// nothing.
pub proof fn viewers_fail_with_their_reason(
    job: ViewerJob,
    slot: Option<Viewer>,
    e: String,
    next: ViewerJob,
    next_slot: Option<Viewer>,
)
    ensures
        job.stage is SpawnBridge && job.follows(slot, ViewerReply::Bridge(Err(e)), next, next_slot)
            ==> next.stage.failed_with("bridge spawn failed: "@ + e@) && next_slot == slot,
        job.stage is CloneSocket && job.follows(slot, ViewerReply::Socket(Err(e)), next, next_slot)
            ==> next.stage.failed_with("clone socket: "@ + e@) && next_slot == slot,
        job.stage is SelectCodec && job.follows(slot, ViewerReply::Codec(None), next, next_slot)
            ==> next.stage is Failed && next_slot == slot,
{
}

/// What is asked for at each stage is the request's address and what the earlier
/// steps gave.
pub proof fn viewer_actions_carry_what_was_found(job: ViewerJob, a: ViewerAction)
    requires
        call_ensures(ViewerJob::action, (&job,), a),
    ensures
        job.stage is Claim ==> a is LockSlots,
        job.stage is SelectCodec ==> a is SelectCodec,
        job.stage is ReadSize ==> a is ReadSize,
        job.stage is SpawnBridge ==> (a matches ViewerAction::SpawnBridge {
            bind,
            port,
            width,
            height,
        } && bind == job.bind && port == job.port && width == job.width && height == job.height),
        job.stage is CloneSocket ==> (a matches ViewerAction::CloneSocket { bridge } && bridge
            == job.bridge),
        job.stage is SpawnEncoder ==> (a matches ViewerAction::SpawnEncoder {
            codec,
            width,
            height,
            socket,
        } && codec == job.codec && width == job.width && height == job.height && socket
            == job.socket),
        job.stage is Started || job.stage is Failed ==> a is Nothing,
{
}

/// What a start came to is the viewer's address, or why there is none.
pub proof fn viewer_outcomes_name_the_address(
    job: ViewerJob,
    r: Option<Result<String, String>>,
    bind: Option<String>,
    port: Option<u16>,
    begun: ViewerJob,
)
    requires
        call_ensures(ViewerJob::outcome, (job,), r),
        call_ensures(ViewerJob::begin, (bind, port), begun),
    ensures
        job.stage is Started ==> (r matches Some(Ok(url)) && url == job.url),
        job.stage matches ViewerStage::Failed(e) ==> (r matches Some(Err(f)) && f == e),
        !(job.stage is Started) && !(job.stage is Failed) ==> r is None,
        begun.bind == bind && begun.port == port && begun.stage is Claim,
{
}

/// Taking a viewer down is telling the encoder to stop, closing the socket and
/// ending the bridge, in that order; only a stop on its own waits for the encoder,
/// before the socket is closed.
pub proof fn teardown_closes_before_it_kills(join: bool, r: Vec<TeardownStep>)
    requires
        call_ensures(teardown, (join,), r),
    ensures
        join ==> r@ == seq![
            TeardownStep::RaiseStopFlag,
            TeardownStep::JoinEncoder,
            TeardownStep::CloseSocket,
            TeardownStep::KillBridge,
        ],
        !join ==> r@ == seq![
            TeardownStep::RaiseStopFlag,
            TeardownStep::CloseSocket,
            TeardownStep::KillBridge,
        ],
{
}

/// A bridge is killed exactly where it still runs two seconds after it was asked to
/// end; until then it is looked at ten times a second.
pub proof fn bridges_are_killed_after_their_grace(state: ChildState, elapsed_ms: u64, r: KillStep)
    requires
        call_ensures(kill_viewer_child, (state, elapsed_ms), r),
    ensures
        r == KillStep::Kill <==> state == ChildState::Running && elapsed_ms >= 2_000,
        r == KillStep::Gone <==> state != ChildState::Running,
        r matches KillStep::Sleep { ms } ==> ms == 100,
{
}

} // verus!
