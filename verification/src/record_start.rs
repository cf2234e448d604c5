//! Starting a recording.
//!
//! A [`RecordJob`] checks the request, has both encoders probed and spawned, and
//! enters the recording. It names what is to be done next and is advanced with
//! what came of it. From [`RecordStage::Claim`] on the caller keeps the slots
//! locked, so that two requests cannot both find them free.

use vstd::prelude::*;
use vstd::string::*;

use crate::messages::{CaptureMode, RecordingCodec, SessionCtlRecordStarted};
use crate::record_path::{check_inside, check_shape, secondary_path};
#[allow(unused_imports)]
use crate::record_path::{admissible, has_parent_dir, is_absolute, lies_inside, secondary_of};

verus! {

/// A recorder thread that is running.
#[derive(Debug, Clone)]
pub struct Recorder {
    /// What the thread can be reached by.
    pub handle: u64,
    pub path: String,
    pub codec: RecordingCodec,
}

/// An active recording.
#[derive(Debug, Clone)]
pub struct Recording {
    pub primary: Recorder,
    pub secondary: Option<Recorder>,
}

/// What a recording is asked for with.
#[derive(Debug, Clone, Copy, PartialEq, Eq)]
pub struct RecordPlan {
    pub codec: RecordingCodec,
    pub secondary_codec: Option<RecordingCodec>,
    pub mode: CaptureMode,
    pub min_fps: Option<u32>,
}

/// How far a start has come.
#[derive(Debug)]
pub enum RecordStage {
    /// The path is to be chosen.
    DefaultPath,
    /// The first path has the right shape; where recordings belong is to be
    /// found out.
    PrimaryDir,
    /// The same for the second path.
    SecondaryDir,
    /// The encoder program is to be probed.
    Ffmpeg,
    /// The first codec is to be probed.
    PrimaryCodec,
    /// The second codec is to be probed.
    SecondaryCodec,
    /// The slot is to be looked at.
    Claim,
    /// The first recorder is to be spawned.
    SpawnPrimary,
    /// The second recorder is to be spawned.
    SpawnSecondary,
    /// The first recorder is to be stopped; then the start has failed.
    RollBack(String),
    /// The recording is entered; the current picture is to be its first frame.
    Prime,
    Started,
    Failed(String),
}

/// What is to be done next.
#[derive(Debug)]
pub enum RecordAction {
    /// Choose a path for this session's recordings.
    ChoosePath,
    /// Find out where recordings belong.
    FindRecordingsDir,
    ProbeFfmpeg,
    ProbeCodec(RecordingCodec),
    /// Lock the slots. They stay locked until the job is done.
    LockSlots,
    Spawn { path: String, codec: RecordingCodec, mode: CaptureMode, min_fps: Option<u32> },
    /// Tell the recorder to stop and wake it.
    StopRecorder { handle: u64 },
    PrimeFirstFrame,
    Nothing,
}

/// What came of it.
#[derive(Debug)]
pub enum RecordReply {
    /// The path or directory that was asked for.
    Text(Result<String, String>),
    /// The outcome of a probe.
    Probed(Result<(), String>),
    /// The recorder that was spawned.
    Spawned(Result<u64, String>),
    Done,
}

/// A start in progress.
#[derive(Debug)]
pub struct RecordJob {
    pub plan: RecordPlan,
    pub stage: RecordStage,
    /// The first file, and where it was found to belong.
    pub primary: String,
    pub primary_dir: String,
    /// The second file, where there is to be one.
    pub secondary: Option<String>,
    pub secondary_dir: String,
    /// The first recorder, once it is spawned.
    pub primary_handle: u64,
}

impl RecordStage {
    /// Whether the start has failed with that text.
    pub open spec fn failed_with(self, text: Seq<char>) -> bool {
        self matches RecordStage::Failed(e) && e@ == text
    }

    /// Whether the first path has been found admissible.
    pub open spec fn primary_checked(self) -> bool {
        match self {
            RecordStage::DefaultPath | RecordStage::PrimaryDir | RecordStage::Failed(_) => false,
            _ => true,
        }
    }

    /// Whether every path has been found admissible.
    pub open spec fn all_checked(self) -> bool {
        self.primary_checked() && !(self is SecondaryDir)
    }
}

/// The stage after the first path has become known.
pub open spec fn entered(p: Seq<char>, next: RecordStage) -> bool {
    if !is_absolute(p) {
        next.failed_with("recording path must be absolute"@)
    } else if has_parent_dir(p) {
        next.failed_with("recording path must not contain '..'"@)
    } else {
        next is PrimaryDir
    }
}

/// The recording that a job enters when its recorders run. `second` is the
/// second recorder.
pub open spec fn is_recording_of(job: RecordJob, second: Option<u64>, r: Recording) -> bool {
    &&& r.primary.path@ == job.primary@
    &&& r.primary.codec == job.plan.codec
    &&& match second {
        None => r.secondary is None,
        Some(h) => r.secondary matches Some(s) && s.handle == h && s.path@ == job.secondary->0@
            && s.codec == job.plan.secondary_codec->0,
    }
}

impl RecordJob {
    /// The job holds a second path exactly where there is a second codec, once
    /// it has been derived; and every path that has been checked lies where it
    /// was found to belong.
    pub open spec fn wf(self) -> bool {
        &&& self.stage.primary_checked() ==> admissible(self.primary@, self.primary_dir@)
        &&& self.stage.primary_checked() ==> (self.secondary is Some
            <==> self.plan.secondary_codec is Some)
        &&& self.stage.primary_checked() ==> (self.secondary matches Some(s) ==> s@ == secondary_of(
            self.primary@,
        ))
        &&& self.stage is SecondaryDir ==> (self.secondary matches Some(s) && is_absolute(s@)
            && !has_parent_dir(s@))
        &&& self.stage.all_checked() ==> (self.secondary matches Some(s) ==> admissible(
            s@,
            self.secondary_dir@,
        ))
        &&& self.stage is PrimaryDir ==> is_absolute(self.primary@) && !has_parent_dir(
            self.primary@,
        )
        &&& self.stage is SecondaryCodec ==> self.plan.secondary_codec is Some
        &&& (self.stage is SpawnSecondary || self.stage is RollBack)
            ==> self.plan.secondary_codec is Some
    }

    /// Same request, same files.
    pub open spec fn same_files(self, other: RecordJob) -> bool {
        &&& self.plan == other.plan
        &&& self.primary == other.primary
        &&& self.primary_dir == other.primary_dir
        &&& self.secondary == other.secondary
        &&& self.secondary_dir == other.secondary_dir
    }

    /// Takes a request. An absent codec or mode is the default one.
    pub fn begin(
        path: Option<String>,
        codec: Option<RecordingCodec>,
        secondary_codec: Option<RecordingCodec>,
        mode: Option<CaptureMode>,
        min_fps: Option<u32>,
    ) -> (r: RecordJob)
        ensures
            r.wf(),
            r.plan == (RecordPlan {
                codec: match codec {
                    Some(c) => c,
                    None => RecordingCodec::Ffv1,
                },
                secondary_codec,
                mode: match mode {
                    Some(m) => m,
                    None => CaptureMode::FocusedWindow,
                },
                min_fps,
            }),
            match path {
                Some(p) => r.primary == p && entered(p@, r.stage),
                None => r.stage is DefaultPath,
            },
    {
        let plan = RecordPlan {
            codec: match codec {
                Some(c) => c,
                None => RecordingCodec::default(),
            },
            secondary_codec,
            mode: match mode {
                Some(m) => m,
                None => CaptureMode::default(),
            },
            min_fps,
        };
        let (stage, primary) = match path {
            Some(p) => (Self::enter(&p), p),
            None => (RecordStage::DefaultPath, String::new()),
        };
        RecordJob {
            plan,
            stage,
            primary,
            primary_dir: String::new(),
            secondary: None,
            secondary_dir: String::new(),
            primary_handle: 0,
        }
    }

    fn enter(p: &String) -> (r: RecordStage)
        ensures
            entered(p@, r),
    {
        match check_shape(p.as_str()) {
            Ok(_) => RecordStage::PrimaryDir,
            Err(e) => RecordStage::Failed(e),
        }
    }

    /// What is to be done next.
    pub fn action(&self) -> (r: RecordAction)
        requires
            self.wf(),
        ensures
            match self.stage {
                RecordStage::DefaultPath => r is ChoosePath,
                RecordStage::PrimaryDir | RecordStage::SecondaryDir => r is FindRecordingsDir,
                RecordStage::Ffmpeg => r is ProbeFfmpeg,
                RecordStage::PrimaryCodec => r == RecordAction::ProbeCodec(self.plan.codec),
                RecordStage::SecondaryCodec => r == RecordAction::ProbeCodec(
                    self.plan.secondary_codec->0,
                ),
                RecordStage::Claim => r is LockSlots,
                RecordStage::SpawnPrimary => r matches RecordAction::Spawn {
                    path,
                    codec,
                    mode,
                    min_fps,
                } && path == self.primary && codec == self.plan.codec && mode == self.plan.mode
                    && min_fps == self.plan.min_fps,
                RecordStage::SpawnSecondary => r matches RecordAction::Spawn {
                    path,
                    codec,
                    mode,
                    min_fps,
                } && path == self.secondary->0 && codec == self.plan.secondary_codec->0 && mode
                    == self.plan.mode && min_fps == self.plan.min_fps,
                RecordStage::RollBack(_) => r == (RecordAction::StopRecorder {
                    handle: self.primary_handle,
                }),
                RecordStage::Prime => r is PrimeFirstFrame,
                RecordStage::Started | RecordStage::Failed(_) => r is Nothing,
            },
    {
        match &self.stage {
            RecordStage::DefaultPath => RecordAction::ChoosePath,
            RecordStage::PrimaryDir => RecordAction::FindRecordingsDir,
            RecordStage::SecondaryDir => RecordAction::FindRecordingsDir,
            RecordStage::Ffmpeg => RecordAction::ProbeFfmpeg,
            RecordStage::PrimaryCodec => RecordAction::ProbeCodec(self.plan.codec),
            RecordStage::SecondaryCodec => match self.plan.secondary_codec {
                Some(c) => RecordAction::ProbeCodec(c),
                None => RecordAction::Nothing,
            },
            RecordStage::Claim => RecordAction::LockSlots,
            RecordStage::SpawnPrimary => RecordAction::Spawn {
                path: self.primary.clone(),
                codec: self.plan.codec,
                mode: self.plan.mode,
                min_fps: self.plan.min_fps,
            },
            RecordStage::SpawnSecondary => match (&self.secondary, self.plan.secondary_codec) {
                (Some(p), Some(c)) => RecordAction::Spawn {
                    path: p.clone(),
                    codec: c,
                    mode: self.plan.mode,
                    min_fps: self.plan.min_fps,
                },
                _ => RecordAction::Nothing,
            },
            RecordStage::RollBack(_) => RecordAction::StopRecorder { handle: self.primary_handle },
            RecordStage::Prime => RecordAction::PrimeFirstFrame,
            RecordStage::Started => RecordAction::Nothing,
            RecordStage::Failed(_) => RecordAction::Nothing,
        }
    }

    /// What the reply makes of the job and of the slot. A reply that does not
    /// answer what was asked changes nothing.
    pub open spec fn follows(
        self,
        slot: Option<Recording>,
        reply: RecordReply,
        next: RecordJob,
        next_slot: Option<Recording>,
    ) -> bool {
        match (self.stage, reply) {
            (RecordStage::DefaultPath, RecordReply::Text(Ok(p))) => {
                &&& next.plan == self.plan
                &&& next.primary == p
                &&& entered(p@, next.stage)
                &&& next_slot == slot
            },
            (RecordStage::PrimaryDir, RecordReply::Text(Ok(dir))) => {
                &&& next.plan == self.plan
                &&& next.primary == self.primary
                &&& next.primary_dir == dir
                &&& next_slot == slot
                &&& if !lies_inside(self.primary@, dir@) {
                    next.stage.failed_with("recording path must be inside "@ + dir@)
                } else if self.plan.secondary_codec is None {
                    next.stage is Ffmpeg && next.secondary is None
                } else {
                    let s = secondary_of(self.primary@);
                    next.secondary matches Some(t) && t@ == s && if !is_absolute(s) {
                        next.stage.failed_with("recording path must be absolute"@)
                    } else if has_parent_dir(s) {
                        next.stage.failed_with("recording path must not contain '..'"@)
                    } else {
                        next.stage is SecondaryDir
                    }
                }
            },
            (RecordStage::SecondaryDir, RecordReply::Text(Ok(dir))) => {
                &&& next.plan == self.plan
                &&& next.primary == self.primary
                &&& next.primary_dir == self.primary_dir
                &&& next.secondary == self.secondary
                &&& next.secondary_dir == dir
                &&& next_slot == slot
                &&& if !lies_inside(self.secondary->0@, dir@) {
                    next.stage.failed_with("recording path must be inside "@ + dir@)
                } else {
                    next.stage is Ffmpeg
                }
            },
            (
                RecordStage::DefaultPath | RecordStage::PrimaryDir | RecordStage::SecondaryDir,
                RecordReply::Text(Err(e)),
            ) => next.same_files(self) && next.stage == RecordStage::Failed(e) && next_slot == slot,
            (RecordStage::Ffmpeg, RecordReply::Probed(Ok(_))) => next.same_files(self)
                && next.stage is PrimaryCodec && next_slot == slot,
            (RecordStage::PrimaryCodec, RecordReply::Probed(Ok(_))) => next.same_files(self) && (
            if self.plan.secondary_codec is Some {
                next.stage is SecondaryCodec
            } else {
                next.stage is Claim
            }) && next_slot == slot,
            (RecordStage::SecondaryCodec, RecordReply::Probed(Ok(_))) => next.same_files(self)
                && next.stage is Claim && next_slot == slot,
            (RecordStage::Ffmpeg | RecordStage::PrimaryCodec, RecordReply::Probed(Err(e))) =>
                next.same_files(self) && next.stage == RecordStage::Failed(e) && next_slot == slot,
            (RecordStage::SecondaryCodec, RecordReply::Probed(Err(e))) => next.same_files(self)
                && next.stage.failed_with("secondary codec: "@ + e@) && next_slot == slot,
            (RecordStage::Claim, RecordReply::Done) => next.same_files(self) && next_slot == slot
                && if slot is Some {
                next.stage.failed_with("already recording"@)
            } else {
                next.stage is SpawnPrimary
            },
            (RecordStage::SpawnPrimary, RecordReply::Spawned(Ok(h))) => next.same_files(self)
                && next.primary_handle == h && if self.plan.secondary_codec is Some {
                next.stage is SpawnSecondary && next_slot == slot
            } else {
                next.stage is Prime && (next_slot matches Some(rec) && rec.primary.handle == h
                    && is_recording_of(self, None, rec))
            },
            (RecordStage::SpawnPrimary, RecordReply::Spawned(Err(e))) => next.same_files(self)
                && next.stage == RecordStage::Failed(e) && next_slot == slot,
            (RecordStage::SpawnSecondary, RecordReply::Spawned(Ok(h))) => next.same_files(self)
                && next.primary_handle == self.primary_handle && next.stage is Prime
                && (next_slot matches Some(rec) && rec.primary.handle == self.primary_handle
                && is_recording_of(self, Some(h), rec)),
            (RecordStage::SpawnSecondary, RecordReply::Spawned(Err(e))) => next.same_files(self)
                && next.primary_handle == self.primary_handle && (
            next.stage matches RecordStage::RollBack(m) && m@ == "secondary encoder: "@ + e@)
                && next_slot == slot,
            (RecordStage::RollBack(m), RecordReply::Done) => next.same_files(self) && next.stage
                == RecordStage::Failed(m) && next_slot == slot,
            (RecordStage::Prime, RecordReply::Done) => next.same_files(self)
                && next.stage is Started && next_slot == slot,
            _ => next == self && next_slot == slot,
        }
    }

    fn with_stage(self, stage: RecordStage) -> (r: RecordJob)
        ensures
            r.same_files(self),
            r.primary_handle == self.primary_handle,
            r.stage == stage,
    {
        RecordJob {
            plan: self.plan,
            stage,
            primary: self.primary,
            primary_dir: self.primary_dir,
            secondary: self.secondary,
            secondary_dir: self.secondary_dir,
            primary_handle: self.primary_handle,
        }
    }

    fn primary_dir_found(self, dir: String) -> (r: RecordJob)
        requires
            self.wf(),
            self.stage is PrimaryDir,
        ensures
            r.wf(),
            self.follows(None, RecordReply::Text(Ok(dir)), r, None),
    {
        let plan = self.plan;
        let primary = self.primary;
        let mut secondary: Option<String> = None;
        let stage = match check_inside(primary.as_str(), dir.as_str()) {
            Err(e) => RecordStage::Failed(e),
            Ok(_) => match plan.secondary_codec {
                None => RecordStage::Ffmpeg,
                Some(_) => {
                    let s: String = secondary_path(primary.as_str());
                    let stage = match check_shape(s.as_str()) {
                        Err(e) => RecordStage::Failed(e),
                        Ok(_) => RecordStage::SecondaryDir,
                    };
                    secondary = Some(s);
                    stage
                },
            },
        };
        RecordJob {
            plan,
            stage,
            primary,
            primary_dir: dir,
            secondary,
            secondary_dir: String::new(),
            primary_handle: 0,
        }
    }

    fn secondary_dir_found(self, dir: String) -> (r: RecordJob)
        requires
            self.wf(),
            self.stage is SecondaryDir,
        ensures
            r.wf(),
            self.follows(None, RecordReply::Text(Ok(dir)), r, None),
    {
        let stage = match &self.secondary {
            Some(s) => match check_inside(s.as_str(), dir.as_str()) {
                Err(e) => RecordStage::Failed(e),
                Ok(_) => RecordStage::Ffmpeg,
            },
            None => RecordStage::Ffmpeg,
        };
        RecordJob {
            plan: self.plan,
            stage,
            primary: self.primary,
            primary_dir: self.primary_dir,
            secondary: self.secondary,
            secondary_dir: dir,
            primary_handle: 0,
        }
    }

    fn first_recorder(&self, handle: u64) -> (r: Recorder)
        ensures
            r.handle == handle,
            r.path@ == self.primary@,
            r.codec == self.plan.codec,
    {
        Recorder { handle, path: self.primary.clone(), codec: self.plan.codec }
    }

    /// Takes a reply.
    pub fn advance(self, slot: &mut Option<Recording>, reply: RecordReply) -> (r: RecordJob)
        requires
            self.wf(),
        ensures
            r.wf(),
            self.follows(*old(slot), reply, r, *final(slot)),
    {
        match (&self.stage, reply) {
            (RecordStage::DefaultPath, RecordReply::Text(Ok(p))) => {
                let stage = Self::enter(&p);
                RecordJob {
                    plan: self.plan,
                    stage,
                    primary: p,
                    primary_dir: String::new(),
                    secondary: None,
                    secondary_dir: String::new(),
                    primary_handle: 0,
                }
            },
            (RecordStage::PrimaryDir, RecordReply::Text(Ok(dir))) => self.primary_dir_found(dir),
            (RecordStage::SecondaryDir, RecordReply::Text(Ok(dir))) => self.secondary_dir_found(
                dir,
            ),
            (RecordStage::DefaultPath, RecordReply::Text(Err(e))) => self.with_stage(
                RecordStage::Failed(e),
            ),
            (RecordStage::PrimaryDir, RecordReply::Text(Err(e))) => self.with_stage(
                RecordStage::Failed(e),
            ),
            (RecordStage::SecondaryDir, RecordReply::Text(Err(e))) => self.with_stage(
                RecordStage::Failed(e),
            ),
            (RecordStage::Ffmpeg, RecordReply::Probed(Ok(_))) => self.with_stage(
                RecordStage::PrimaryCodec,
            ),
            (RecordStage::PrimaryCodec, RecordReply::Probed(Ok(_))) => if self.plan.secondary_codec.is_some() {
                self.with_stage(RecordStage::SecondaryCodec)
            } else {
                self.with_stage(RecordStage::Claim)
            },
            (RecordStage::SecondaryCodec, RecordReply::Probed(Ok(_))) => self.with_stage(
                RecordStage::Claim,
            ),
            (RecordStage::Ffmpeg, RecordReply::Probed(Err(e))) => self.with_stage(
                RecordStage::Failed(e),
            ),
            (RecordStage::PrimaryCodec, RecordReply::Probed(Err(e))) => self.with_stage(
                RecordStage::Failed(e),
            ),
            (RecordStage::SecondaryCodec, RecordReply::Probed(Err(e))) => {
                let mut m: String = String::from_str("secondary codec: ");
                m.append(e.as_str());
                self.with_stage(RecordStage::Failed(m))
            },
            (RecordStage::Claim, RecordReply::Done) => if slot.is_some() {
                self.with_stage(RecordStage::Failed(String::from_str("already recording")))
            } else {
                self.with_stage(RecordStage::SpawnPrimary)
            },
            (RecordStage::SpawnPrimary, RecordReply::Spawned(Ok(h))) => {
                if self.plan.secondary_codec.is_some() {
                    let mut job = self.with_stage(RecordStage::SpawnSecondary);
                    job.primary_handle = h;
                    job
                } else {
                    *slot = Some(Recording { primary: self.first_recorder(h), secondary: None });
                    let mut job = self.with_stage(RecordStage::Prime);
                    job.primary_handle = h;
                    job
                }
            },
            (RecordStage::SpawnPrimary, RecordReply::Spawned(Err(e))) => self.with_stage(
                RecordStage::Failed(e),
            ),
            (RecordStage::SpawnSecondary, RecordReply::Spawned(Ok(h))) => {
                let second: Option<Recorder> = match (&self.secondary, self.plan.secondary_codec) {
                    (Some(p), Some(c)) => Some(Recorder { handle: h, path: p.clone(), codec: c }),
                    _ => None,
                };
                *slot = Some(
                    Recording {
                        primary: self.first_recorder(self.primary_handle),
                        secondary: second,
                    },
                );
                self.with_stage(RecordStage::Prime)
            },
            (RecordStage::SpawnSecondary, RecordReply::Spawned(Err(e))) => {
                let mut m: String = String::from_str("secondary encoder: ");
                m.append(e.as_str());
                self.with_stage(RecordStage::RollBack(m))
            },
            (RecordStage::RollBack(m), RecordReply::Done) => {
                let m: String = m.clone();
                self.with_stage(RecordStage::Failed(m))
            },
            (RecordStage::Prime, RecordReply::Done) => self.with_stage(RecordStage::Started),
            _ => self,
        }
    }

    /// What the start came to, once it is over: where the recording is written,
    /// or why there is none.
    pub fn outcome(self) -> (r: Option<Result<SessionCtlRecordStarted, String>>)
        requires
            self.wf(),
        ensures
            match self.stage {
                RecordStage::Started => r matches Some(Ok(s)) && s.path == self.primary
                    && s.secondary_path == self.secondary,
                RecordStage::Failed(e) => r matches Some(Err(f)) && f == e,
                _ => r is None,
            },
    {
        match self.stage {
            RecordStage::Started => Some(
                Ok(
                    SessionCtlRecordStarted { path: self.primary, secondary_path: self.secondary },
                ),
            ),
            RecordStage::Failed(e) => Some(Err(e)),
            _ => None,
        }
    }
}

/// While a recording is active no other one is started: the request fails, and
/// the active recording stays as it is.
pub proof fn one_recording_at_a_time(
    job: RecordJob,
    slot: Option<Recording>,
    next: RecordJob,
    next_slot: Option<Recording>,
)
    requires
        job.stage is Claim,
        slot is Some,
        job.follows(slot, RecordReply::Done, next, next_slot),
    ensures
        next.stage.failed_with("already recording"@),
        next_slot == slot,
{
}

/// A start that fails leaves the slot as it was.
pub proof fn failed_starts_enter_nothing(
    job: RecordJob,
    slot: Option<Recording>,
    reply: RecordReply,
    next: RecordJob,
    next_slot: Option<Recording>,
)
    requires
        job.wf(),
        job.follows(slot, reply, next, next_slot),
        next.stage is Failed || next.stage is RollBack,
    ensures
        next_slot == slot,
{
}

/// A recorder is spawned only for a path that lies where recordings belong and
/// that does not lead upwards.
pub proof fn recorders_are_spawned_inside(job: RecordJob)
    requires
        job.wf(),
    ensures
        job.stage is SpawnPrimary ==> admissible(job.primary@, job.primary_dir@),
        job.stage is SpawnSecondary ==> job.secondary is Some && admissible(
            job.secondary->0@,
            job.secondary_dir@,
        ),
{
}

/// The recording that a start enters writes only to paths that lie where
/// recordings belong and that do not lead upwards.
pub proof fn recordings_go_where_they_belong(
    job: RecordJob,
    slot: Option<Recording>,
    reply: RecordReply,
    next: RecordJob,
    next_slot: Option<Recording>,
)
    requires
        job.wf(),
        job.follows(slot, reply, next, next_slot),
        slot is None,
        next_slot is Some,
    ensures
        admissible(next_slot->0.primary.path@, job.primary_dir@),
        next_slot->0.secondary matches Some(s) ==> admissible(s.path@, job.secondary_dir@),
{
}

/// A request without a codec records lossless FFV1, one without a mode the focused
/// window; everything else is as it was asked for, and no path is chosen where one
/// was given.
pub proof fn requests_are_taken_as_asked(
    path: Option<String>,
    codec: Option<RecordingCodec>,
    secondary_codec: Option<RecordingCodec>,
    mode: Option<CaptureMode>,
    min_fps: Option<u32>,
    r: RecordJob,
)
    requires
        call_ensures(RecordJob::begin, (path, codec, secondary_codec, mode, min_fps), r),
    ensures
        codec matches Some(c) ==> r.plan.codec == c,
        codec is None ==> r.plan.codec == RecordingCodec::Ffv1,
        mode matches Some(m) ==> r.plan.mode == m,
        mode is None ==> r.plan.mode == CaptureMode::FocusedWindow,
        r.plan.secondary_codec == secondary_codec,
        r.plan.min_fps == min_fps,
        path is None ==> r.stage is DefaultPath,
        path matches Some(p) ==> r.primary == p && !(r.stage is DefaultPath),
        path matches Some(p) ==> (p@.len() == 0 || p@[0] != '/' ==> r.stage.failed_with(
            "recording path must be absolute"@,
        )),
        path matches Some(p) ==> (p@.len() > 0 && p@[0] == '/' && has_parent_dir(p@)
            ==> r.stage.failed_with("recording path must not contain '..'"@)),
        path matches Some(p) ==> (p@.len() > 0 && p@[0] == '/' && !has_parent_dir(p@)
            ==> r.stage is PrimaryDir),
{
}

/// A start whose every step succeeds goes through the checks, the probes and the
/// claim to the recorders, the second of each where there is a second codec, and is
/// then started.
pub proof fn starts_go_step_by_step(
    job: RecordJob,
    slot: Option<Recording>,
    reply: RecordReply,
    next: RecordJob,
    next_slot: Option<Recording>,
)
    requires
        job.wf(),
        job.follows(slot, reply, next, next_slot),
    ensures
        job.stage is Ffmpeg && (reply matches RecordReply::Probed(Ok(_))) ==> next.stage
            is PrimaryCodec,
        job.stage is PrimaryCodec && (reply matches RecordReply::Probed(Ok(_))) ==> (
        if job.plan.secondary_codec is Some {
            next.stage is SecondaryCodec
        } else {
            next.stage is Claim
        }),
        job.stage is SecondaryCodec && (reply matches RecordReply::Probed(Ok(_))) ==> next.stage
            is Claim,
        job.stage is Claim && reply is Done && slot is None ==> next.stage is SpawnPrimary
            && next_slot is None,
        job.stage is SpawnPrimary && (reply matches RecordReply::Spawned(Ok(_))) ==> (
        if job.plan.secondary_codec is Some {
            next.stage is SpawnSecondary && next_slot == slot
        } else {
            next.stage is Prime && next_slot is Some
        }),
        job.stage is SpawnSecondary && (reply matches RecordReply::Spawned(Ok(_))) ==> next.stage
            is Prime && next_slot is Some,
        job.stage is Prime && reply is Done ==> next.stage is Started && next_slot == slot,
        job.stage is PrimaryDir ==> (reply matches RecordReply::Text(Ok(dir)) ==> {
            &&& !lies_inside(job.primary@, dir@) ==> next.stage.failed_with(
                "recording path must be inside "@ + dir@,
            )
            &&& lies_inside(job.primary@, dir@) && job.plan.secondary_codec is None ==> next.stage
                is Ffmpeg && next.secondary is None
            &&& lies_inside(job.primary@, dir@) && job.plan.secondary_codec is Some
                ==> next.secondary is Some && next.secondary->0@ == secondary_of(job.primary@)
        }),
        job.stage is SecondaryDir ==> (reply matches RecordReply::Text(Ok(dir)) ==> (if lies_inside(
            job.secondary->0@,
            dir@,
        ) {
            next.stage is Ffmpeg
        } else {
            next.stage.failed_with("recording path must be inside "@ + dir@)
        })),
{
}

/// A start whose step fails fails with the reason, and enters nothing; the reason of
/// a second codec or recorder says so. A first recorder that runs already is stopped
/// before the start has failed.
pub proof fn starts_fail_with_their_reason(
    job: RecordJob,
    slot: Option<Recording>,
    e: String,
    next: RecordJob,
    next_slot: Option<Recording>,
)
    requires
        job.wf(),
    ensures
        job.follows(slot, RecordReply::Text(Err(e)), next, next_slot) && (job.stage is DefaultPath
            || job.stage is PrimaryDir || job.stage is SecondaryDir) ==> next.stage
            == RecordStage::Failed(e) && next_slot == slot,
        job.follows(slot, RecordReply::Probed(Err(e)), next, next_slot) && (job.stage is Ffmpeg
            || job.stage is PrimaryCodec) ==> next.stage == RecordStage::Failed(e) && next_slot
            == slot,
        job.follows(slot, RecordReply::Probed(Err(e)), next, next_slot)
            && job.stage is SecondaryCodec ==> next.stage.failed_with("secondary codec: "@ + e@)
            && next_slot == slot,
        job.follows(slot, RecordReply::Spawned(Err(e)), next, next_slot)
            && job.stage is SpawnPrimary ==> next.stage == RecordStage::Failed(e) && next_slot
            == slot,
        job.follows(slot, RecordReply::Spawned(Err(e)), next, next_slot)
            && job.stage is SpawnSecondary ==> next.stage is RollBack && next.stage->RollBack_0@
            == "secondary encoder: "@ + e@ && next.primary_handle == job.primary_handle && next_slot
            == slot,
        job.follows(slot, RecordReply::Done, next, next_slot) ==> (job.stage matches
            RecordStage::RollBack(m) ==> next.stage == RecordStage::Failed(m) && next_slot == slot),
{
}

/// A recording that is entered holds the recorders that were spawned for it: each
/// with its own handle, path and codec.
pub proof fn recordings_hold_their_recorders(
    job: RecordJob,
    slot: Option<Recording>,
    h: u64,
    next: RecordJob,
    next_slot: Option<Recording>,
)
    requires
        job.wf(),
        job.follows(slot, RecordReply::Spawned(Ok(h)), next, next_slot),
        next.stage is Prime,
        !(job.stage is Prime),
    ensures
        next_slot matches Some(rec) && {
            &&& rec.primary.path@ == job.primary@
            &&& rec.primary.codec == job.plan.codec
            &&& job.stage is SpawnPrimary ==> rec.primary.handle == h && rec.secondary is None
            &&& job.stage is SpawnSecondary ==> rec.primary.handle == job.primary_handle && (
            rec.secondary matches Some(s) && s.handle == h && s.path@ == job.secondary->0@
                && Some(s.codec) == job.plan.secondary_codec)
        },
{
}

/// What is asked for at each stage: probes of the plan's codecs, recorders for the
/// plan's files, mode and frame rate, and the stop of the recorder that was spawned
/// first.
pub proof fn actions_carry_the_plan(job: RecordJob, a: RecordAction)
    requires
        job.wf(),
        call_ensures(RecordJob::action, (&job,), a),
    ensures
        job.stage is PrimaryCodec ==> a == RecordAction::ProbeCodec(job.plan.codec),
        job.stage is SecondaryCodec ==> (a matches RecordAction::ProbeCodec(c) && Some(c)
            == job.plan.secondary_codec),
        job.stage is SpawnPrimary ==> (a matches RecordAction::Spawn { path, codec, mode, min_fps }
            && path == job.primary && codec == job.plan.codec && mode == job.plan.mode && min_fps
            == job.plan.min_fps),
        job.stage is SpawnSecondary ==> (a matches RecordAction::Spawn {
            path,
            codec,
            mode,
            min_fps,
        } && Some(path) == job.secondary && Some(codec) == job.plan.secondary_codec && mode
            == job.plan.mode && min_fps == job.plan.min_fps),
        job.stage is RollBack ==> (a matches RecordAction::StopRecorder { handle } && handle
            == job.primary_handle),
        job.stage is DefaultPath ==> a is ChoosePath,
        job.stage is PrimaryDir || job.stage is SecondaryDir ==> a is FindRecordingsDir,
        job.stage is Ffmpeg ==> a is ProbeFfmpeg,
        job.stage is Claim ==> a is LockSlots,
        job.stage is Prime ==> a is PrimeFirstFrame,
        job.stage is Started || job.stage is Failed ==> a is Nothing,
{
}

/// What a start came to is where its files are, or why there are none.
pub proof fn outcomes_name_the_files(
    job: RecordJob,
    r: Option<Result<SessionCtlRecordStarted, String>>,
)
    requires
        job.wf(),
        call_ensures(RecordJob::outcome, (job,), r),
    ensures
        job.stage is Started ==> (r matches Some(Ok(s)) && s.path == job.primary
            && s.secondary_path == job.secondary),
        job.stage matches RecordStage::Failed(e) ==> (r matches Some(Err(f)) && f == e),
        !(job.stage is Started) && !(job.stage is Failed) ==> r is None,
{
}

} // verus!
